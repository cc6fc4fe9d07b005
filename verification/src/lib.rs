//! Builds a canonical model of a NEAR contract's exported surface from
//! parsed Rust declarations, and projects it to TypeScript bindings and
//! Markdown documentation.

use vstd::prelude::*;

pub mod contract;
pub mod md;
pub mod near_syn;
pub mod ts;

verus! {

/// Compares two string slices character by character.
///
/// Relies on `<str as PartialEq>::eq`: string slices are equal exactly
/// when their character sequences are equal.
#[verifier::external_body]
pub(crate) fn str_eq(a: &str, b: &str) -> (r: bool)
    ensures
        r == (a@ == b@),
{
    a == b
}

/// Whether `c` is a whitespace character, by its Unicode code point.
pub open spec fn spec_is_space(c: char) -> bool {
    let n = c as u32;
    (9 <= n && n <= 13) || n == 32 || n == 0x85 || n == 0xA0 || n == 0x1680 || (0x2000 <= n && n
        <= 0x200A) || n == 0x2028 || n == 0x2029 || n == 0x202F || n == 0x205F || n == 0x3000
}

fn is_space(c: char) -> (r: bool)
    ensures
        r == spec_is_space(c),
{
    let n = c as u32;
    (9 <= n && n <= 13) || n == 32 || n == 0x85 || n == 0xA0 || n == 0x1680 || (0x2000 <= n && n
        <= 0x200A) || n == 0x2028 || n == 0x2029 || n == 0x202F || n == 0x205F || n == 0x3000
}

/// `s` without its leading and trailing whitespace.
pub open spec fn spec_trim(s: Seq<char>) -> Seq<char>
    decreases s.len(),
{
    if s.len() == 0 {
        s
    } else if spec_is_space(s.first()) {
        spec_trim(s.drop_first())
    } else if spec_is_space(s.last()) {
        spec_trim(s.drop_last())
    } else {
        s
    }
}

/// A string of whitespace alone trims to the empty string.
proof fn lemma_trim_all_space(s: Seq<char>)
    requires
        forall|k: int| 0 <= k < s.len() ==> spec_is_space(#[trigger] s[k]),
    ensures
        spec_trim(s) == Seq::<char>::empty(),
    decreases s.len(),
{
    if s.len() == 0 {
        assert(s =~= Seq::<char>::empty());
    } else {
        lemma_trim_all_space(s.drop_first());
    }
}

/// When the characters before `i` and after `j` are whitespace and the
/// characters at `i` and `j` are not, trimming keeps exactly `i ..= j`.
proof fn lemma_trim_range(s: Seq<char>, i: int, j: int)
    requires
        0 <= i <= j < s.len(),
        forall|k: int| 0 <= k < i ==> spec_is_space(#[trigger] s[k]),
        forall|k: int| j < k < s.len() ==> spec_is_space(#[trigger] s[k]),
        !spec_is_space(s[i]),
        !spec_is_space(s[j]),
    ensures
        spec_trim(s) == s.subrange(i, j + 1),
    decreases s.len(),
{
    if i > 0 {
        lemma_trim_range(s.drop_first(), i - 1, j - 1);
        assert(s.drop_first().subrange(i - 1, j) =~= s.subrange(i, j + 1));
    } else if j < s.len() - 1 {
        lemma_trim_range(s.drop_last(), i, j);
        assert(s.drop_last().subrange(i, j + 1) =~= s.subrange(i, j + 1));
    } else {
        assert(s.subrange(0, s.len() as int) =~= s);
    }
}

/// Removes leading and trailing whitespace from `s`.
pub fn trim(s: &str) -> (r: String)
    ensures
        r@ == spec_trim(s@),
{
    let len = s.unicode_len();
    let mut i: usize = 0;
    while i < len && is_space(s.get_char(i))
        invariant
            i <= len,
            len == s@.len(),
            forall|k: int| 0 <= k < i ==> spec_is_space(#[trigger] s@[k]),
        decreases len - i,
    {
        i = i + 1;
    }
    if i == len {
        proof {
            lemma_trim_all_space(s@);
        }
        return String::new();
    }
    let mut j: usize = len - 1;
    while is_space(s.get_char(j))
        invariant
            i <= j < len,
            len == s@.len(),
            !spec_is_space(s@[i as int]),
            forall|k: int| j < k < len ==> spec_is_space(#[trigger] s@[k]),
        decreases j,
    {
        j = j - 1;
    }
    let part = s.substring_char(i, j + 1);
    proof {
        lemma_trim_range(s@, i as int, j as int);
    }
    part.to_owned()
}

} // verus!
