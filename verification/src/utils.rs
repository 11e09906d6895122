pub mod conversion;

use vstd::prelude::*;

use vstd::string::StrSliceExecFns;

use crate::utils::conversion::{hex_char, u8_as_bit_string, u8_as_hex_string, u8_bit_chars};

verus! {

/// Renders a byte as `0b` followed by its eight bits, most significant first.
pub fn as_bit_string(x: u8) -> (s: String)
    ensures
        s@ == seq!['0', 'b'] + u8_bit_chars(x),
{
    u8_as_bit_string(x)
}

/// Renders a byte as `0x` followed by its two hexadecimal digits in upper case.
pub fn as_hex_string(x: u8) -> (s: String)
    ensures
        s@ == seq!['0', 'x', hex_char(x >> 4u8), hex_char(x & 15u8)],
{
    u8_as_hex_string(x)
}

/// The index of the last `c` among the first `n` characters of `s`.
pub open spec fn last_index_before(s: Seq<char>, c: char, n: int) -> Option<int>
    decreases n,
{
    if n <= 0 {
        None
    } else if s[n - 1] == c {
        Some(n - 1)
    } else {
        last_index_before(s, c, n - 1)
    }
}

/// The index of the last `c` in `s`.
pub open spec fn last_index_of(s: Seq<char>, c: char) -> Option<int> {
    last_index_before(s, c, s.len() as int)
}

/// The last `c` found among the first `n` characters lies below `n` and is a `c`; none found
/// means no `c` is there.
pub proof fn lemma_last_index_before(s: Seq<char>, c: char, n: int)
    requires
        n <= s.len(),
    ensures
        last_index_before(s, c, n) matches Some(i) ==> 0 <= i < n && s[i] == c && forall|j: int|
            i < j < n ==> s[j] != c,
        last_index_before(s, c, n) is None ==> forall|j: int| 0 <= j < n ==> s[j] != c,
    decreases n,
{
    if n > 0 {
        lemma_last_index_before(s, c, n - 1);
    }
}

/// The index of the last `c` in `s`, counted in characters.
pub fn rfind_char(s: &str, c: char) -> (r: Option<usize>)
    ensures
        r matches Some(i) ==> last_index_of(s@, c) == Some(i as int),
        r is None ==> last_index_of(s@, c) is None,
{
    let n = s.unicode_len();
    let mut i: usize = n;
    while i > 0 && s.get_char(i - 1) != c
        invariant
            i <= n,
            n == s@.len(),
            last_index_of(s@, c) == last_index_before(s@, c, i as int),
        decreases i,
    {
        i = i - 1;
    }
    if i == 0 {
        None
    } else {
        Some(i - 1)
    }
}

} // verus!
