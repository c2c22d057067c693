//! The command parser: a line splits at its first space into a verb and a
//! trimmed argument. Parsing is total: every line, the empty one included,
//! yields a verb and an argument.
use vstd::prelude::*;

use crate::text::{trim, trim_str};

verus! {

/// The position of the first space in `s`, or `s.len()` when there is none.
pub open spec fn first_space(s: Seq<char>) -> int
    decreases s.len(),
{
    if s.len() == 0 {
        0
    } else if s[0] == ' ' {
        0
    } else {
        1 + first_space(s.drop_first())
    }
}

/// The verb of a line: everything before the first space, or the whole line
/// when there is no space.
pub open spec fn spec_verb(line: Seq<char>) -> Seq<char> {
    line.take(first_space(line))
}

/// The argument of a line: everything after the first space, trimmed of
/// surrounding whitespace; empty when there is no space.
pub open spec fn spec_arg(line: Seq<char>) -> Seq<char> {
    trim(line.skip(first_space(line)))
}

/// `first_space` is the least space position: nothing before it is a space,
/// and it points at a space unless the line has none.
pub proof fn lemma_first_space_bounds(s: Seq<char>)
    ensures
        0 <= first_space(s) <= s.len(),
        forall|i: int| 0 <= i < first_space(s) ==> s[i] != ' ',
        first_space(s) < s.len() ==> s[first_space(s)] == ' ',
    decreases s.len(),
{
    if s.len() > 0 && s[0] != ' ' {
        let t = s.drop_first();
        lemma_first_space_bounds(t);
        assert(forall|i: int| 0 <= i < first_space(s) ==> s[i] != ' ') by {
            assert(forall|i: int| 1 <= i < first_space(s) ==> s[i] == t[i - 1]);
        }
    }
}

/// A scan that saw no space before `k`, and a space (or the end) at `k`,
/// found exactly `first_space`.
pub proof fn lemma_first_space_at(s: Seq<char>, k: int)
    requires
        0 <= k <= s.len(),
        forall|i: int| 0 <= i < k ==> s[i] != ' ',
        k < s.len() ==> s[k] == ' ',
    ensures
        first_space(s) == k,
    decreases k,
{
    if s.len() == 0 {
    } else if k == 0 {
    } else {
        let t = s.drop_first();
        assert(forall|i: int| 0 <= i < k - 1 ==> t[i] != ' ');
        lemma_first_space_at(t, k - 1);
    }
}

/// Splits a line at its first space into the verb and the trimmed argument.
/// Always succeeds; a line without a space is all verb and has an empty
/// argument.
pub fn parse_command(s: &str) -> (r: Option<(String, String)>)
    ensures
        r is Some,
        r matches Some(p) ==> p.0@ == spec_verb(s@) && p.1@ == spec_arg(s@),
{
    let n = s.unicode_len();
    let mut i: usize = 0;
    while i < n && s.get_char(i) != ' '
        invariant
            0 <= i <= n,
            n == s@.len(),
            forall|j: int| 0 <= j < i ==> s@[j] != ' ',
        decreases n - i,
    {
        i = i + 1;
    }
    proof {
        lemma_first_space_at(s@, i as int);
    }
    let verb = s.substring_char(0, i).to_owned();
    let arg = trim_str(s.substring_char(i, n));
    proof {
        assert(s@.subrange(0, i as int) =~= spec_verb(s@));
        assert(s@.subrange(i as int, n as int) =~= s@.skip(i as int));
    }
    Some((verb, arg))
}

} // verus!
