//! Path classification: shortcut (indirection) files versus direct
//! resource-bearing files, decided purely by the path's suffix.

use vstd::prelude::*;

verus! {

/// How a path must be treated when its icon is looked up.
#[derive(Clone, Copy, Debug, PartialEq, Eq, Structural)]
pub enum PathKind {
    /// The file itself carries the icon resource.
    Direct,
    /// The file is a shortcut pointing at another path, which must be
    /// resolved before the icon lookup.
    Indirect,
}

/// True when the path ends in the shortcut suffix `.lnk`, compared
/// case-insensitively.
pub open spec fn is_indirection_path(s: Seq<char>) -> bool {
    &&& s.len() >= 4
    &&& s[s.len() - 4] == '.'
    &&& (s[s.len() - 3] == 'l' || s[s.len() - 3] == 'L')
    &&& (s[s.len() - 2] == 'n' || s[s.len() - 2] == 'N')
    &&& (s[s.len() - 1] == 'k' || s[s.len() - 1] == 'K')
}

/// Classification reads nothing but the final four characters: two
/// paths that end alike are classified alike, whatever comes before.
pub proof fn lemma_classify_suffix_only(a: Seq<char>, b: Seq<char>)
    requires
        a.len() >= 4,
        b.len() >= 4,
        a.skip(a.len() - 4) == b.skip(b.len() - 4),
    ensures
        is_indirection_path(a) == is_indirection_path(b),
{
    let ta = a.skip(a.len() - 4);
    let tb = b.skip(b.len() - 4);
    assert(ta[0] == a[a.len() - 4] && ta[1] == a[a.len() - 3] && ta[2] == a[a.len() - 2] && ta[3]
        == a[a.len() - 1]);
    assert(tb[0] == b[b.len() - 4] && tb[1] == b[b.len() - 3] && tb[2] == b[b.len() - 2] && tb[3]
        == b[b.len() - 1]);
}

/// Classifies a path by its suffix alone: no file content is inspected.
pub fn classify(path: &str) -> (k: PathKind)
    ensures
        k == (if is_indirection_path(path@) {
            PathKind::Indirect
        } else {
            PathKind::Direct
        }),
{
    let n = path.unicode_len();
    if n < 4 {
        return PathKind::Direct;
    }
    let c0 = path.get_char(n - 4);
    let c1 = path.get_char(n - 3);
    let c2 = path.get_char(n - 2);
    let c3 = path.get_char(n - 1);
    if c0 == '.' && (c1 == 'l' || c1 == 'L') && (c2 == 'n' || c2 == 'N') && (c3 == 'k' || c3
        == 'K') {
        PathKind::Indirect
    } else {
        PathKind::Direct
    }
}

} // verus!
