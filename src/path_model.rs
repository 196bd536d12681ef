use vstd::prelude::*;

verus! {

/// A filesystem path as a list of components: whether it starts at the root
/// directory, and the names that follow (".." and a leading "." kept as names).
pub struct SysPath {
    pub absolute: bool,
    pub parts: Vec<String>,
}

/// The mathematical value of a path: root flag and the component names.
pub type PathView = (bool, Seq<Seq<char>>);

pub open spec fn names_of(parts: Seq<String>) -> Seq<Seq<char>> {
    parts.map_values(|s: String| s@)
}

impl View for SysPath {
    type V = PathView;

    open spec fn view(&self) -> PathView {
        (self.absolute, names_of(self.parts@))
    }
}

/// `p` with the name `name` appended.
pub open spec fn child_spec(p: PathView, name: Seq<char>) -> PathView {
    (p.0, p.1.push(name))
}

/// The ancestor of `p` that lies `up` levels above it.
pub open spec fn ancestor_spec(p: PathView, up: int) -> PathView {
    (p.0, p.1.subrange(0, p.1.len() - up))
}

/// The directory "." relative to the working directory.
pub open spec fn dot_spec() -> PathView {
    (false, seq![seq!['.']])
}

/// Parent directory; a path with no parent gives ".".
pub open spec fn parent_or_dot_spec(p: PathView) -> PathView {
    if p.1.len() > 0 {
        ancestor_spec(p, 1)
    } else {
        dot_spec()
    }
}

/// Component-wise prefix test, as paths compare: same root flag, and the
/// names of `base` start the names of `p`.
pub open spec fn starts_with_spec(p: PathView, base: PathView) -> bool {
    p.0 == base.0 && base.1.len() <= p.1.len() && p.1.subrange(0, base.1.len() as int)
        =~= base.1
}

/// Two strings with the same characters.
pub fn str_eq(a: &str, b: &str) -> (r: bool)
    ensures
        r == (a@ == b@),
{
    let n = a.unicode_len();
    if n != b.unicode_len() {
        return false;
    }
    let mut i: usize = 0;
    while i < n
        invariant
            n == a@.len(),
            n == b@.len(),
            i <= n,
            a@.subrange(0, i as int) =~= b@.subrange(0, i as int),
        decreases n - i,
    {
        if a.get_char(i) != b.get_char(i) {
            return false;
        }
        assert(a@.subrange(0, i + 1) =~= a@.subrange(0, i as int).push(a@[i as int]));
        assert(b@.subrange(0, i + 1) =~= b@.subrange(0, i as int).push(b@[i as int]));
        i = i + 1;
    }
    assert(a@ =~= a@.subrange(0, n as int));
    assert(b@ =~= b@.subrange(0, n as int));
    true
}

/// The first `k` names of `parts`, copied.
fn copy_prefix(parts: &Vec<String>, k: usize) -> (r: Vec<String>)
    requires
        k <= parts@.len(),
    ensures
        names_of(r@) =~= names_of(parts@).subrange(0, k as int),
{
    let mut r: Vec<String> = Vec::new();
    let mut i: usize = 0;
    while i < k
        invariant
            i <= k,
            k <= parts@.len(),
            r@.len() == i,
            forall|j: int| 0 <= j < i ==> #[trigger] r@[j]@ == parts@[j]@,
        decreases k - i,
    {
        r.push(parts[i].clone());
        i = i + 1;
    }
    assert(names_of(r@) =~= names_of(parts@).subrange(0, k as int));
    r
}

impl SysPath {
    /// A path from its root flag and names.
    pub fn new(absolute: bool, parts: Vec<String>) -> (r: SysPath)
        ensures
            r.absolute == absolute,
            r.parts@ == parts@,
    {
        SysPath { absolute, parts }
    }

    /// The relative path ".".
    pub fn dot() -> (r: SysPath)
        ensures
            r@ == dot_spec(),
    {
        let mut parts: Vec<String> = Vec::new();
        parts.push(String::from_str("."));
        proof {
            reveal_strlit(".");
        }
        let r = SysPath { absolute: false, parts };
        assert(r@.1[0] == "."@);
        assert("."@ =~= seq!['.']);
        assert(r@.1 =~= dot_spec().1);
        r
    }

    /// This path with `name` appended.
    pub fn child(&self, name: &str) -> (r: SysPath)
        ensures
            r@ == child_spec(self@, name@),
    {
        let mut parts = copy_prefix(&self.parts, self.parts.len());
        parts.push(String::from_str(name));
        let r = SysPath { absolute: self.absolute, parts };
        assert(names_of(self.parts@).subrange(0, self.parts@.len() as int) =~= names_of(
            self.parts@,
        ));
        assert(r@.1 =~= child_spec(self@, name@).1);
        r
    }

    /// The ancestor `up` levels above this path.
    pub fn ancestor(&self, up: usize) -> (r: SysPath)
        requires
            up <= self@.1.len(),
        ensures
            r@ == ancestor_spec(self@, up as int),
    {
        let parts = copy_prefix(&self.parts, self.parts.len() - up);
        SysPath { absolute: self.absolute, parts }
    }

    /// A copy of this path.
    pub fn copy(&self) -> (r: SysPath)
        ensures
            r@ == self@,
    {
        self.ancestor(0)
    }

    /// The directory holding this path, or "." where there is none.
    pub fn parent_or_dot(&self) -> (r: SysPath)
        ensures
            r@ == parent_or_dot_spec(self@),
    {
        if self.parts.len() > 0 {
            self.ancestor(1)
        } else {
            SysPath::dot()
        }
    }

    /// This path and each of its ancestors, nearest first, ending with the
    /// root (or the empty relative path).
    pub fn ancestors(&self) -> (r: Vec<SysPath>)
        ensures
            r@.len() == self@.1.len() + 1,
            forall|i: int| 0 <= i < r@.len() ==> #[trigger] r@[i]@ == ancestor_spec(self@, i),
    {
        let n = self.parts.len();
        let mut r: Vec<SysPath> = Vec::new();
        r.push(self.ancestor(0));
        let mut i: usize = 0;
        while i < n
            invariant
                n == self@.1.len(),
                i <= n,
                r@.len() == i + 1,
                forall|j: int| 0 <= j <= i ==> #[trigger] r@[j]@ == ancestor_spec(self@, j),
            decreases n - i,
        {
            r.push(self.ancestor(i + 1));
            i = i + 1;
        }
        r
    }

    /// Whether this path begins with every component of `base`.
    pub fn starts_with(&self, base: &SysPath) -> (r: bool)
        ensures
            r == starts_with_spec(self@, base@),
    {
        if self.absolute != base.absolute || base.parts.len() > self.parts.len() {
            return false;
        }
        let k = base.parts.len();
        let mut i: usize = 0;
        while i < k
            invariant
                k == base@.1.len(),
                k <= self@.1.len(),
                i <= k,
                forall|j: int| 0 <= j < i ==> self@.1[j] == base@.1[j],
            decreases k - i,
        {
            if !str_eq(self.parts[i].as_str(), base.parts[i].as_str()) {
                assert(self@.1.subrange(0, k as int)[i as int] != base@.1[i as int]);
                return false;
            }
            i = i + 1;
        }
        true
    }
}

} // verus!
