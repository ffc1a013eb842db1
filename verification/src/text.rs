//! Names and other pieces of text in a declaration, as bytes.

use vstd::prelude::*;

verus! {

/// Whether `b` can begin an identifier: an ASCII letter or an underscore.
pub open spec fn starts_identifier(b: u8) -> bool {
    ||| 'a' as u8 <= b <= 'z' as u8
    ||| 'A' as u8 <= b <= 'Z' as u8
    ||| b == '_' as u8
}

/// Whether `b` can stand inside an identifier: what can begin one, or a digit.
pub open spec fn continues_identifier(b: u8) -> bool {
    starts_identifier(b) || '0' as u8 <= b <= '9' as u8
}

/// Whether `s` is an identifier: a letter or an underscore, then letters,
/// digits and underscores, and more than a single underscore.
pub open spec fn spec_is_identifier(s: Seq<u8>) -> bool {
    &&& s.len() > 0
    &&& starts_identifier(s[0])
    &&& forall|i: int| 0 < i < s.len() ==> continues_identifier(#[trigger] s[i])
    &&& !(s.len() == 1 && s[0] == '_' as u8)
}

/// Whether `b` can begin an identifier.
pub fn is_identifier_start(b: u8) -> (r: bool)
    ensures
        r == starts_identifier(b),
{
    ('a' as u8 <= b && b <= 'z' as u8) || ('A' as u8 <= b && b <= 'Z' as u8) || b == '_' as u8
}

/// Whether `b` can stand inside an identifier.
pub fn is_identifier_part(b: u8) -> (r: bool)
    ensures
        r == continues_identifier(b),
{
    is_identifier_start(b) || ('0' as u8 <= b && b <= '9' as u8)
}

/// Whether `s` is an identifier.
pub fn is_identifier(s: &[u8]) -> (r: bool)
    ensures
        r == spec_is_identifier(s@),
{
    let n: usize = s.len();
    if n == 0 || !is_identifier_start(s[0]) {
        return false;
    }
    if n == 1 && s[0] == '_' as u8 {
        return false;
    }
    let mut i: usize = 1;
    while i < n
        invariant
            n == s@.len(),
            1 <= i <= n,
            forall|k: int| 0 < k < i ==> continues_identifier(#[trigger] s@[k]),
        decreases n - i,
    {
        if !is_identifier_part(s[i]) {
            return false;
        }
        i = i + 1;
    }
    true
}

/// Whether `a` and `b` hold the same bytes.
pub fn same_text(a: &[u8], b: &[u8]) -> (r: bool)
    ensures
        r == (a@ == b@),
{
    let n: usize = a.len();
    if n != b.len() {
        return false;
    }
    let mut i: usize = 0;
    while i < n
        invariant
            n == a@.len(),
            n == b@.len(),
            i <= n,
            forall|k: int| 0 <= k < i ==> a@[k] == b@[k],
        decreases n - i,
    {
        if a[i] != b[i] {
            return false;
        }
        i = i + 1;
    }
    assert(a@ =~= b@);
    true
}

/// A copy of `s`.
pub fn copy_text(s: &[u8]) -> (v: Vec<u8>)
    ensures
        v@ == s@,
{
    vstd::slice::slice_to_vec(s)
}

} // verus!
