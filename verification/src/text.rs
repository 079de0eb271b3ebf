//! Character-level helpers on strings, each with an exact contract.

use vstd::prelude::*;
use vstd::string::*;

verus! {

/// The text `s` with every `/` replaced by `\`.
pub open spec fn backslashed(s: Seq<char>) -> Seq<char> {
    s.map_values(|c: char| if c == '/' { '\\' } else { c })
}

/// `p` is a prefix of `s`.
pub open spec fn starts_with(s: Seq<char>, p: Seq<char>) -> bool {
    p.len() <= s.len() && s.subrange(0, p.len() as int) == p
}

/// Appends one character (`String::push`).
#[verifier::external_body]
pub(crate) fn push_char(s: &mut String, c: char)
    ensures
        final(s)@ == old(s)@.push(c),
{
    s.push(c);
}

/// Removes the last character (`String::pop`).
#[verifier::external_body]
pub(crate) fn pop_char(s: &mut String) -> (res: Option<char>)
    ensures
        old(s)@.len() == 0 ==> res is None && final(s)@ == old(s)@,
        old(s)@.len() > 0 ==> res == Some(old(s)@.last()) && final(s)@ == old(s)@.drop_last(),
{
    s.pop()
}

/// Whether two strings hold the same characters.
pub fn same_text(a: &str, b: &str) -> (res: bool)
    ensures
        res == (a@ == b@),
{
    let x = a.to_owned();
    let y = b.to_owned();
    x == y
}

/// Whether `s` begins with `p`.
pub fn has_prefix(s: &str, p: &str) -> (res: bool)
    ensures
        res == starts_with(s@, p@),
{
    let n = s.unicode_len();
    let m = p.unicode_len();
    if m > n {
        return false;
    }
    let mut i: usize = 0;
    while i < m
        invariant
            m == p@.len(),
            n == s@.len(),
            m <= n,
            i <= m,
            forall|j: int| 0 <= j < i ==> s@[j] == p@[j],
        decreases m - i,
    {
        if s.get_char(i) != p.get_char(i) {
            assert(s@.subrange(0, m as int)[i as int] != p@[i as int]);
            return false;
        }
        i = i + 1;
    }
    assert(s@.subrange(0, m as int) =~= p@);
    true
}

/// `s` with every `/` turned into `\`.
pub fn replace_slashes(s: &str) -> (res: String)
    ensures
        res@ == backslashed(s@),
        res@.len() == s@.len(),
        forall|i: int| 0 <= i < s@.len() ==> #[trigger] res@[i] == (if s@[i] == '/' {
            '\\'
        } else {
            s@[i]
        }),
{
    let n = s.unicode_len();
    let mut out = String::new();
    let mut i: usize = 0;
    while i < n
        invariant
            n == s@.len(),
            i <= n,
            out@ =~= backslashed(s@.subrange(0, i as int)),
        decreases n - i,
    {
        let c = s.get_char(i);
        if c == '/' {
            push_char(&mut out, '\\');
        } else {
            push_char(&mut out, c);
        }
        assert(s@.subrange(0, i + 1) =~= s@.subrange(0, i as int).push(c));
        i = i + 1;
    }
    assert(s@.subrange(0, n as int) =~= s@);
    out
}

/// Turning `/` into `\` keeps the length and every other character, leaves
/// no `/` behind, and changes nothing when done twice.
pub proof fn lemma_backslashed(s: Seq<char>)
    ensures
        backslashed(s).len() == s.len(),
        forall|i: int| 0 <= i < s.len() ==> #[trigger] backslashed(s)[i] != '/',
        forall|i: int| 0 <= i < s.len() && s[i] != '/' ==> #[trigger] backslashed(s)[i] == s[i],
        backslashed(backslashed(s)) == backslashed(s),
{
    assert(backslashed(backslashed(s)) =~= backslashed(s));
}

} // verus!
