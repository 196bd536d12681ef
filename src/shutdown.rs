use vstd::prelude::*;

use crate::supervisor::{terminate_spec, ProcessSlot};

verus! {

/// An event the host reports for the main window.
#[derive(PartialEq, Eq, Structural, Clone, Copy, Debug)]
pub enum HostEvent {
    CloseRequested,
    Other,
}

/// Something to ask of the host's window.
#[derive(PartialEq, Eq, Structural, Clone, Copy, Debug)]
pub enum HostAction {
    /// Suppress the host's default closing of the window.
    PreventClose,
    /// Tell the UI layer that a close was requested.
    NotifyCloseRequested,
    Maximize,
    Unmaximize,
    Close,
}

/// How the application ends.
#[derive(PartialEq, Eq, Structural, Clone, Copy, Debug)]
pub enum ExitMode {
    /// Through the host's own exit sequence.
    Graceful,
    /// Directly through the operating system, bypassing the host.
    Forced,
}

/// The call that ends the application, with its status code.
#[derive(PartialEq, Eq, Structural, Clone, Copy, Debug)]
pub enum ExitCall {
    HostExit(i32),
    ProcessExit(i32),
}

/// The actions taken for a host event.
pub open spec fn window_event_spec(ev: HostEvent) -> Seq<HostAction> {
    match ev {
        HostEvent::CloseRequested => seq![HostAction::PreventClose, HostAction::NotifyCloseRequested],
        HostEvent::Other => Seq::empty(),
    }
}

/// How many of `acts` are `a`.
pub open spec fn count_of(acts: Seq<HostAction>, a: HostAction) -> nat
    decreases acts.len(),
{
    if acts.len() == 0 {
        0
    } else {
        count_of(acts.drop_last(), a) + if acts.last() == a {
            1nat
        } else {
            0nat
        }
    }
}

/// The exit call for each mode, always with success status.
pub open spec fn exit_call_spec(mode: ExitMode) -> ExitCall {
    match mode {
        ExitMode::Graceful => ExitCall::HostExit(0),
        ExitMode::Forced => ExitCall::ProcessExit(0),
    }
}

/// Reaction to a window event: a close request is suppressed and forwarded to
/// the UI layer, which decides; anything else needs nothing.
pub fn on_window_event(ev: HostEvent) -> (r: Vec<HostAction>)
    ensures
        r@ == window_event_spec(ev),
{
    let mut r: Vec<HostAction> = Vec::new();
    if ev == HostEvent::CloseRequested {
        r.push(HostAction::PreventClose);
        r.push(HostAction::NotifyCloseRequested);
    }
    assert(r@ =~= window_event_spec(ev));
    r
}

/// The maximize toggle: unmaximize a maximized window, maximize any other.
pub fn maximize_toggle(is_maximized: bool) -> (r: HostAction)
    ensures
        r == (if is_maximized {
            HostAction::Unmaximize
        } else {
            HostAction::Maximize
        }),
{
    if is_maximized {
        HostAction::Unmaximize
    } else {
        HostAction::Maximize
    }
}

/// The call that ends the application in `mode`.
pub fn exit_call(mode: ExitMode) -> (r: ExitCall)
    ensures
        r == exit_call_spec(mode),
{
    match mode {
        ExitMode::Graceful => ExitCall::HostExit(0),
        ExitMode::Forced => ExitCall::ProcessExit(0),
    }
}

/// What an exit does: the backend handle to kill, taken out of the slot, and
/// then the call that ends the application.
pub struct ExitPlan<H> {
    pub victim: Option<H>,
    pub exit: ExitCall,
}

/// Begins an exit: empties the slot first and hands out the backend handle with
/// the exit call, so that the kill comes before the application ends.
pub fn plan_exit<H>(slot: &mut ProcessSlot<H>, mode: ExitMode) -> (r: ExitPlan<H>)
    ensures
        (r.victim, final(slot).handle()) == terminate_spec(old(slot).handle()),
        r.exit == exit_call_spec(mode),
{
    let victim = slot.terminate();
    ExitPlan { victim, exit: exit_call(mode) }
}

/// A close request always yields exactly one notification to the UI layer, is
/// suppressed before it, and never closes the window by itself.
pub proof fn lemma_close_request_notifies_once()
    ensures
        count_of(window_event_spec(HostEvent::CloseRequested), HostAction::NotifyCloseRequested)
            == 1,
        count_of(window_event_spec(HostEvent::CloseRequested), HostAction::Close) == 0,
        window_event_spec(HostEvent::CloseRequested)[0] == HostAction::PreventClose,
{
    let s = window_event_spec(HostEvent::CloseRequested);
    assert(s.drop_last() =~= seq![HostAction::PreventClose]);
    assert(s.drop_last().drop_last() =~= Seq::<HostAction>::empty());
    reveal_with_fuel(count_of, 3);
}

/// Every exit, forced or graceful, leaves the slot empty and hands out whatever
/// backend it held to be killed before the exit call; the forced exit ends the
/// process directly with success status.
pub proof fn lemma_exit_empties_slot<H>(handle: Option<H>, mode: ExitMode)
    ensures
        terminate_spec(handle).1 is None,
        terminate_spec(handle).0 == handle,
        mode == ExitMode::Forced ==> exit_call_spec(mode) == ExitCall::ProcessExit(0),
{
}

} // verus!
