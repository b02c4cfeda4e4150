//! Paths as character sequences, extended by segments as on Unix.

use vstd::prelude::*;

verus! {

/// The separator between path segments.
pub open spec fn sep() -> char {
    '/'
}

/// `base` extended by `seg`: an absolute segment replaces the path, a relative
/// one is appended after a separator unless `base` is empty or already ends
/// with one.
pub open spec fn joined(base: Seq<char>, seg: Seq<char>) -> Seq<char> {
    if seg.len() > 0 && seg[0] == sep() {
        seg
    } else if base.len() == 0 || base.last() == sep() {
        base + seg
    } else {
        base + seq![sep()] + seg
    }
}

/// Pushing a relative segment `a` that does not end in a separator, and then a
/// relative segment `b`, gives the same path as pushing `a/b` at once.
pub proof fn lemma_push_twice(base: Seq<char>, a: Seq<char>, b: Seq<char>)
    requires
        a.len() > 0,
        a[0] != sep(),
        a.last() != sep(),
        b.len() == 0 || b[0] != sep(),
    ensures
        joined(joined(base, a), b) == joined(base, a + seq![sep()] + b),
{
    let ab = a + seq![sep()] + b;
    assert(ab[0] == a[0]);
    let pa = joined(base, a);
    assert(pa.last() == a.last());
    assert(joined(pa, b) =~= joined(base, ab));
}

/// Extends `base` by `seg` in place.
pub fn push_segment(base: &mut String, seg: &str)
    ensures
        final(base)@ == joined(old(base)@, seg@),
{
    let seg_len = seg.unicode_len();
    if seg_len > 0 && seg.get_char(0) == '/' {
        *base = String::from_str(seg);
        return;
    }
    let base_len = base.as_str().unicode_len();
    if base_len > 0 && base.as_str().get_char(base_len - 1) != '/' {
        base.append("/");
        proof {
            reveal_strlit("/");
        }
    }
    base.append(seg);
    proof {
        assert(final(base)@ =~= joined(old(base)@, seg@));
    }
}

/// Builds a path from a starting point by appending segments.
pub struct PathBuilder {
    path: String,
}

impl View for PathBuilder {
    type V = Seq<char>;

    closed spec fn view(&self) -> Seq<char> {
        self.path@
    }
}

impl PathBuilder {
    /// A builder that starts at `path`.
    pub fn from_path(path: &str) -> (r: Self)
        ensures
            r@ == path@,
    {
        PathBuilder { path: String::from_str(path) }
    }

    /// Appends one more segment; consumes the builder and hands it back extended.
    pub fn push(self, segment: &str) -> (r: Self)
        ensures
            r@ == joined(self@, segment@),
    {
        let mut p = self.path;
        push_segment(&mut p, segment);
        PathBuilder { path: p }
    }

    /// The path built so far.
    pub fn path(&self) -> (r: &str)
        ensures
            r@ == self@,
    {
        self.path.as_str()
    }
}

} // verus!
