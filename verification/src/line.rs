//! The line reader: a CRLF-terminated command line is read out of a byte
//! buffer. Carriage returns are discarded wherever they occur, the line ends
//! at the first line feed, every other byte stands for the character with the
//! same code point, and the result is trimmed of surrounding whitespace.
use vstd::prelude::*;

use crate::text::{is_space_char, trim, trim_end, trim_start, trim_str, push_char};

verus! {

/// The carriage-return byte.
pub open spec fn cr_byte() -> u8 {
    13
}

/// The line-feed byte.
pub open spec fn lf_byte() -> u8 {
    10
}

/// The position of the first line feed in `b`, or `b.len()` when there is
/// none.
pub open spec fn first_lf(b: Seq<u8>) -> int
    decreases b.len(),
{
    if b.len() == 0 {
        0
    } else if b[0] == lf_byte() {
        0
    } else {
        1 + first_lf(b.drop_first())
    }
}

/// Whether the buffer holds a complete line.
pub open spec fn has_lf(b: Seq<u8>) -> bool {
    first_lf(b) < b.len()
}

/// The bytes as characters, with every carriage return discarded.
pub open spec fn strip_cr(b: Seq<u8>) -> Seq<char>
    decreases b.len(),
{
    if b.len() == 0 {
        Seq::empty()
    } else if b[0] == cr_byte() {
        strip_cr(b.drop_first())
    } else {
        seq![b[0] as char] + strip_cr(b.drop_first())
    }
}

/// The text of the first line in the buffer: the bytes before the first line
/// feed, carriage returns removed, trimmed of surrounding whitespace.
pub open spec fn line_of(b: Seq<u8>) -> Seq<char> {
    trim(strip_cr(b.take(first_lf(b))))
}

/// `first_lf` is the least line-feed position: nothing before it is a line
/// feed, and it points at one unless the buffer has none.
pub proof fn lemma_first_lf_bounds(b: Seq<u8>)
    ensures
        0 <= first_lf(b) <= b.len(),
        forall|i: int| 0 <= i < first_lf(b) ==> b[i] != lf_byte(),
        first_lf(b) < b.len() ==> b[first_lf(b)] == lf_byte(),
    decreases b.len(),
{
    if b.len() > 0 && b[0] != lf_byte() {
        let t = b.drop_first();
        lemma_first_lf_bounds(t);
        assert(forall|i: int| 0 <= i < first_lf(b) ==> b[i] != lf_byte()) by {
            assert(forall|i: int| 1 <= i < first_lf(b) ==> b[i] == t[i - 1]);
        }
    }
}

/// A scan that saw no line feed before `k`, and a line feed (or the end) at
/// `k`, found exactly `first_lf`.
pub proof fn lemma_first_lf_at(b: Seq<u8>, k: int)
    requires
        0 <= k <= b.len(),
        forall|i: int| 0 <= i < k ==> b[i] != lf_byte(),
        k < b.len() ==> b[k] == lf_byte(),
    ensures
        first_lf(b) == k,
    decreases k,
{
    if b.len() == 0 {
    } else if k == 0 {
    } else {
        let t = b.drop_first();
        assert(forall|i: int| 0 <= i < k - 1 ==> t[i] != lf_byte());
        lemma_first_lf_at(t, k - 1);
    }
}

/// Appending one byte extends the stripped text by that byte's character,
/// unless the byte is a carriage return, which disappears.
pub proof fn lemma_strip_cr_push(b: Seq<u8>, x: u8)
    ensures
        strip_cr(b.push(x)) == if x == cr_byte() {
            strip_cr(b)
        } else {
            strip_cr(b).push(x as char)
        },
    decreases b.len(),
{
    let p = b.push(x);
    assert(p.len() == b.len() + 1);
    assert(p[b.len() as int] == x);
    if b.len() == 0 {
        assert(p[0] == x);
        assert(p.drop_first() =~= Seq::<u8>::empty());
        if x == cr_byte() {
            assert(strip_cr(p) == strip_cr(p.drop_first()));
        } else {
            assert(strip_cr(p) == seq![p[0] as char] + strip_cr(p.drop_first()));
            assert(strip_cr(p) =~= strip_cr(b).push(x as char));
        }
    } else {
        assert(p[0] == b[0]);
        assert(p.drop_first() =~= b.drop_first().push(x));
        lemma_strip_cr_push(b.drop_first(), x);
        if b[0] == cr_byte() {
            assert(strip_cr(p) == strip_cr(p.drop_first()));
        } else {
            assert(strip_cr(p) == seq![p[0] as char] + strip_cr(p.drop_first()));
            if x != cr_byte() {
                assert((seq![b[0] as char] + strip_cr(b.drop_first()).push(x as char)) =~= (
                seq![b[0] as char] + strip_cr(b.drop_first())).push(x as char));
            }
        }
    }
}

/// No character of the stripped text is a carriage return.
pub proof fn lemma_strip_cr_no_cr(b: Seq<u8>)
    ensures
        forall|i: int| 0 <= i < strip_cr(b).len() ==> strip_cr(b)[i] != '\r',
    decreases b.len(),
{
    if b.len() > 0 {
        let t = b.drop_first();
        lemma_strip_cr_no_cr(t);
        if b[0] == cr_byte() {
            assert forall|i: int| 0 <= i < strip_cr(b).len() implies strip_cr(b)[i] != '\r' by {
                assert(strip_cr(b)[i] == strip_cr(t)[i]);
            }
        } else {
            assert forall|i: int| 0 <= i < strip_cr(b).len() implies strip_cr(b)[i] != '\r' by {
                if i == 0 {
                    assert(strip_cr(b)[0] == b[0] as char);
                    assert(b[0] != 13);
                } else {
                    assert(strip_cr(b)[i] == strip_cr(t)[i - 1]);
                }
            }
        }
    }
}

/// Trimming never introduces a character: every character of `trim(s)` is one
/// of `s`.
pub proof fn lemma_trim_keeps_no_cr(s: Seq<char>)
    requires
        forall|i: int| 0 <= i < s.len() ==> s[i] != '\r',
    ensures
        forall|i: int| 0 <= i < trim(s).len() ==> trim(s)[i] != '\r',
{
    lemma_trim_start_no_cr(s);
    lemma_trim_end_no_cr(trim_start(s));
}

proof fn lemma_trim_start_no_cr(s: Seq<char>)
    requires
        forall|i: int| 0 <= i < s.len() ==> s[i] != '\r',
    ensures
        forall|i: int| 0 <= i < trim_start(s).len() ==> trim_start(s)[i] != '\r',
    decreases s.len(),
{
    if s.len() > 0 && is_space_char(s[0]) {
        let t = s.drop_first();
        assert(forall|i: int| 0 <= i < t.len() ==> t[i] != '\r');
        lemma_trim_start_no_cr(t);
        assert forall|i: int| 0 <= i < trim_start(s).len() implies trim_start(s)[i] != '\r' by {
            assert(trim_start(s)[i] == trim_start(t)[i]);
        }
    }
}

proof fn lemma_trim_end_no_cr(s: Seq<char>)
    requires
        forall|i: int| 0 <= i < s.len() ==> s[i] != '\r',
    ensures
        forall|i: int| 0 <= i < trim_end(s).len() ==> trim_end(s)[i] != '\r',
    decreases s.len(),
{
    if s.len() > 0 && is_space_char(s.last()) {
        let t = s.drop_last();
        assert(forall|i: int| 0 <= i < t.len() ==> t[i] != '\r');
        lemma_trim_end_no_cr(t);
        assert forall|i: int| 0 <= i < trim_end(s).len() implies trim_end(s)[i] != '\r' by {
            assert(trim_end(s)[i] == trim_end(t)[i]);
        }
    }
}

/// Law: wherever carriage returns stand in the incoming bytes, none survives
/// into the line the reader yields.
pub proof fn lemma_line_strips_all_cr(b: Seq<u8>)
    ensures
        forall|i: int| 0 <= i < line_of(b).len() ==> line_of(b)[i] != '\r',
{
    lemma_strip_cr_no_cr(b.take(first_lf(b)));
    lemma_trim_keeps_no_cr(strip_cr(b.take(first_lf(b))));
}

/// Law: the reader stops only at a line feed. Once a buffer holds one, the
/// line it yields does not depend on any bytes that follow.
pub proof fn lemma_line_stops_at_lf(b: Seq<u8>, t: Seq<u8>)
    requires
        has_lf(b),
    ensures
        line_of(b + t) == line_of(b),
{
    lemma_first_lf_bounds(b);
    let k = first_lf(b);
    assert(forall|i: int| 0 <= i < k ==> (b + t)[i] != lf_byte());
    assert((b + t)[k] == lf_byte());
    lemma_first_lf_at(b + t, k);
    assert((b + t).take(k) =~= b.take(k));
}

/// Reads the first complete line out of the buffer. Returns the line's text
/// and the number of bytes consumed (up to and including the line feed), or
/// nothing when no line feed has arrived yet.
pub fn read_line(buf: &Vec<u8>) -> (r: Option<(String, usize)>)
    ensures
        r is Some <==> has_lf(buf@),
        r matches Some(p) ==> p.0@ == line_of(buf@) && p.1 == first_lf(buf@) + 1,
{
    let n = buf.len();
    let mut i: usize = 0;
    let mut s = String::new();
    while i < n && buf[i] != 10
        invariant
            0 <= i <= n,
            n == buf@.len(),
            forall|j: int| 0 <= j < i ==> buf@[j] != lf_byte(),
            s@ == strip_cr(buf@.take(i as int)),
        decreases n - i,
    {
        let b = buf[i];
        proof {
            lemma_strip_cr_push(buf@.take(i as int), b);
            assert(buf@.take(i + 1) =~= buf@.take(i as int).push(buf@[i as int]));
        }
        if b != 13 {
            push_char(&mut s, b as char);
        }
        i = i + 1;
    }
    proof {
        lemma_first_lf_at(buf@, i as int);
    }
    if i == n {
        None
    } else {
        let line = trim_str(s.as_str());
        Some((line, i + 1))
    }
}

} // verus!
