//! Byte-string helpers: the hidden-style marker test and fragment-reference
//! extraction.

use vstd::prelude::*;

verus! {

/// `needle` occurs in `hay` starting at offset `i`.
pub open spec fn matches_at(hay: Seq<u8>, needle: Seq<u8>, i: int) -> bool {
    &&& 0 <= i
    &&& i + needle.len() <= hay.len()
    &&& forall|j: int| 0 <= j < needle.len() ==> hay[i + j] == needle[j]
}

/// `needle` occurs somewhere in `hay`.
pub open spec fn contains_sub(hay: Seq<u8>, needle: Seq<u8>) -> bool {
    exists|i: int| matches_at(hay, needle, i)
}

/// Whether `needle` occurs in `hay` at the given offset.
fn match_at(hay: &Vec<u8>, needle: &Vec<u8>, i: usize) -> (r: bool)
    requires
        i + needle.len() <= hay.len(),
    ensures
        r == matches_at(hay@, needle@, i as int),
{
    let mut j: usize = 0;
    while j < needle.len()
        invariant
            i + needle.len() <= hay.len(),
            j <= needle.len(),
            forall|l: int| 0 <= l < j ==> hay@[i + l] == needle@[l],
        decreases needle.len() - j,
    {
        if hay[i + j] != needle[j] {
            return false;
        }
        j = j + 1;
    }
    true
}

/// Whether `needle` occurs as a contiguous run of bytes in `hay`.
pub fn contains_subslice(hay: &Vec<u8>, needle: &Vec<u8>) -> (r: bool)
    ensures
        r == contains_sub(hay@, needle@),
{
    if needle.len() > hay.len() {
        assert(forall|i: int| !matches_at(hay@, needle@, i));
        return false;
    }
    let mut i: usize = 0;
    while i <= hay.len() - needle.len()
        invariant
            needle.len() <= hay.len(),
            i <= hay.len() - needle.len() + 1,
            forall|k: int| 0 <= k < i ==> !matches_at(hay@, needle@, k),
        decreases hay.len() - needle.len() + 1 - i,
    {
        if match_at(hay, needle, i) {
            return true;
        }
        i = i + 1;
    }
    assert forall|k: int| !matches_at(hay@, needle@, k) by {
        if matches_at(hay@, needle@, k) {
            assert(0 <= k < i);
        }
    }
    false
}

/// The byte string `display:none`, the marker in a `style` attribute that
/// hides an element and its subtree.
pub open spec fn spec_hidden_marker() -> Seq<u8> {
    seq![100u8, 105u8, 115u8, 112u8, 108u8, 97u8, 121u8, 58u8, 110u8, 111u8, 110u8, 101u8]
}

/// The byte string `display:none`.
pub fn hidden_marker() -> (r: Vec<u8>)
    ensures
        r@ == spec_hidden_marker(),
{
    let mut v: Vec<u8> = Vec::new();
    v.push(100u8);
    v.push(105u8);
    v.push(115u8);
    v.push(112u8);
    v.push(108u8);
    v.push(97u8);
    v.push(121u8);
    v.push(58u8);
    v.push(110u8);
    v.push(111u8);
    v.push(110u8);
    v.push(101u8);
    assert(v@ =~= spec_hidden_marker());
    v
}

/// A style value hides the element iff it contains the marker substring.
pub open spec fn spec_style_hides(style: Seq<u8>) -> bool {
    contains_sub(style, spec_hidden_marker())
}

/// Whether a `style` attribute value marks its element hidden.
pub fn style_hides(style: &Vec<u8>) -> (r: bool)
    ensures
        r == spec_style_hides(style@),
{
    let marker = hidden_marker();
    contains_subslice(style, &marker)
}

/// The fragment of a reference value: the bytes after a leading `#`,
/// `None` when the value does not start with `#`.
pub open spec fn spec_fragment(href: Seq<u8>) -> Option<Seq<u8>> {
    if href.len() >= 1 && href[0] == 35u8 {
        Some(href.subrange(1, href.len() as int))
    } else {
        None
    }
}

/// Strips the leading `#` from a same-document reference value.
pub fn fragment(href: &Vec<u8>) -> (r: Option<Vec<u8>>)
    ensures
        match r {
            Some(f) => spec_fragment(href@) == Some(f@),
            None => spec_fragment(href@) is None,
        },
{
    if href.len() >= 1 && href[0] == 35u8 {
        let mut f: Vec<u8> = Vec::new();
        let mut i: usize = 1;
        while i < href.len()
            invariant
                1 <= i <= href.len(),
                f@ =~= href@.subrange(1, i as int),
            decreases href.len() - i,
        {
            f.push(href[i]);
            i = i + 1;
        }
        assert(f@ =~= href@.subrange(1, href@.len() as int));
        Some(f)
    } else {
        None
    }
}

/// Copies a byte string.
pub fn copy_bytes(v: &Vec<u8>) -> (r: Vec<u8>)
    ensures
        r@ == v@,
{
    let mut out: Vec<u8> = Vec::new();
    let mut i: usize = 0;
    while i < v.len()
        invariant
            i <= v.len(),
            out@ =~= v@.subrange(0, i as int),
        decreases v.len() - i,
    {
        out.push(v[i]);
        i = i + 1;
    }
    assert(out@ =~= v@);
    out
}

/// Two byte strings hold the same bytes.
pub fn bytes_eq(a: &Vec<u8>, b: &Vec<u8>) -> (r: bool)
    ensures
        r == (a@ =~= b@),
{
    if a.len() != b.len() {
        return false;
    }
    let mut i: usize = 0;
    while i < a.len()
        invariant
            a.len() == b.len(),
            i <= a.len(),
            forall|k: int| 0 <= k < i ==> a@[k] == b@[k],
        decreases a.len() - i,
    {
        if a[i] != b[i] {
            return false;
        }
        i = i + 1;
    }
    true
}

} // verus!
