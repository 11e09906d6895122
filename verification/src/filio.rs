use vstd::prelude::*;

use vstd::string::StrSliceExecFns;

use crate::utils::{last_index_of, lemma_last_index_before, rfind_char};

verus! {

/// What `last_n_segments` gives of `path`: what follows its last `/`, or, without a `/`,
/// all but its first character.
pub open spec fn after_last_slash(path: Seq<char>) -> Seq<char> {
    match last_index_of(path, '/') {
        Some(i) => path.subrange(i + 1, path.len() as int),
        None => path.subrange(1, path.len() as int),
    }
}

/// What follows the last `/` of `path`, searched for `n` times; without a `/`, all but the
/// first character, which must then take one byte.
pub fn last_n_segments(n: u32, path: &str) -> (s: String)
    requires
        n != 0,
        last_index_of(path@, '/') is None ==> path@.len() >= 1 && (path@[0] as u32) < 0x80,
    ensures
        s@ == after_last_slash(path@),
{
    let len = path.unicode_len();
    proof { lemma_last_index_before(path@, '/', len as int); }
    let mut i: u32 = 0;
    let mut index: usize = 0;
    let mut found = false;
    let slash = rfind_char(path, '/');
    while i < n
        invariant
            i <= n,
            n != 0,
            i > 0 ==> found == slash is Some,
            found ==> slash == Some(index),
            slash matches Some(j) ==> j < len,
        decreases n - i,
    {
        if let Some(j) = slash {
            index = j;
            found = true;
        }
        i = i + 1;
    }
    if found {
        path.substring_char(index + 1, len).to_owned()
    } else {
        path.substring_char(1, len).to_owned()
    }
}

} // verus!
