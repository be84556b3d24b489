//! Building message strings: decimal numbers, padded clock fields and
//! concatenation, each with the sequence of characters it produces.

use vstd::prelude::*;
use vstd::string::{StrSliceExecFns, StringExecFns};

verus! {

/// The character of a decimal digit.
pub open spec fn digit_char(d: int) -> char {
    if d == 0 {
        '0'
    } else if d == 1 {
        '1'
    } else if d == 2 {
        '2'
    } else if d == 3 {
        '3'
    } else if d == 4 {
        '4'
    } else if d == 5 {
        '5'
    } else if d == 6 {
        '6'
    } else if d == 7 {
        '7'
    } else if d == 8 {
        '8'
    } else {
        '9'
    }
}

/// The decimal representation of `n`, without leading zeros.
pub open spec fn decimal(n: nat) -> Seq<char>
    decreases n,
{
    if n < 10 {
        seq![digit_char(n as int)]
    } else {
        decimal(n / 10).push(digit_char((n % 10) as int))
    }
}

/// The decimal representation of `n` padded with a leading zero to at
/// least two characters (the `{:02}` format).
pub open spec fn two_digits(n: nat) -> Seq<char> {
    if n < 10 {
        seq!['0'].add(decimal(n))
    } else {
        decimal(n)
    }
}

/// Appends one character to a string.
#[verifier::external_body]
pub(crate) fn string_push(s: &mut String, c: char)
    ensures
        final(s)@ == old(s)@.push(c),
{
    s.push(c);
}

/// Appends a string slice.
pub fn push_str(s: &mut String, t: &str)
    ensures
        final(s)@ == old(s)@ + t@,
{
    s.append(t);
}

fn digit(d: u64) -> (c: char)
    requires
        d < 10,
    ensures
        c == digit_char(d as int),
{
    if d == 0 {
        '0'
    } else if d == 1 {
        '1'
    } else if d == 2 {
        '2'
    } else if d == 3 {
        '3'
    } else if d == 4 {
        '4'
    } else if d == 5 {
        '5'
    } else if d == 6 {
        '6'
    } else if d == 7 {
        '7'
    } else if d == 8 {
        '8'
    } else {
        '9'
    }
}

/// Appends the decimal representation of `n`.
pub fn push_decimal(s: &mut String, n: u64)
    ensures
        final(s)@ == old(s)@ + decimal(n as nat),
    decreases n,
{
    if n >= 10 {
        push_decimal(s, n / 10);
    }
    string_push(s, digit(n % 10));
    proof {
        if n >= 10 {
            assert(old(s)@ + decimal(n as nat) =~= old(s)@ + decimal((n / 10) as nat) + seq![
                digit_char((n % 10) as int),
            ]);
        } else {
            assert(old(s)@ + decimal(n as nat) =~= old(s)@.push(digit_char((n % 10) as int)));
        }
    }
}

/// Appends `n` in the `{:02}` format.
pub fn push_two_digits(s: &mut String, n: u64)
    ensures
        final(s)@ == old(s)@ + two_digits(n as nat),
{
    if n < 10 {
        string_push(s, '0');
    }
    push_decimal(s, n);
    assert(final(s)@ =~= old(s)@ + two_digits(n as nat));
}

/// A copy of a string slice.
pub fn str_to_string(t: &str) -> (s: String)
    ensures
        s@ == t@,
{
    let mut s = String::new();
    push_str(&mut s, t);
    assert(s@ =~= t@);
    s
}

/// `decimal` never produces an empty string.
pub proof fn lemma_decimal_nonempty(n: nat)
    ensures
        decimal(n).len() >= 1,
    decreases n,
{
    if n >= 10 {
        lemma_decimal_nonempty(n / 10);
    }
}

/// Unicode white space, as `char::is_whitespace` defines it.
pub open spec fn is_space(c: char) -> bool {
    let n = c as int;
    ||| 0x09 <= n <= 0x0d
    ||| n == 0x20
    ||| n == 0x85
    ||| n == 0xa0
    ||| n == 0x1680
    ||| 0x2000 <= n <= 0x200a
    ||| n == 0x2028
    ||| n == 0x2029
    ||| n == 0x202f
    ||| n == 0x205f
    ||| n == 0x3000
}

/// Whether a character is white space.
pub fn char_is_space(c: char) -> (b: bool)
    ensures
        b == is_space(c),
{
    let n = c as u32;
    (0x09 <= n && n <= 0x0d) || n == 0x20 || n == 0x85 || n == 0xa0 || n == 0x1680 || (0x2000 <= n
        && n <= 0x200a) || n == 0x2028 || n == 0x2029 || n == 0x202f || n == 0x205f || n == 0x3000
}

/// Splitting a text at white space, character by character: the finished
/// words and the word being read.
pub open spec fn split_acc(s: Seq<char>) -> (Seq<Seq<char>>, Seq<char>)
    decreases s.len(),
{
    if s.len() == 0 {
        (Seq::empty(), Seq::empty())
    } else {
        let (done, cur) = split_acc(s.drop_last());
        let c = s.last();
        if is_space(c) {
            if cur.len() > 0 {
                (done.push(cur), Seq::empty())
            } else {
                (done, cur)
            }
        } else {
            (done, cur.push(c))
        }
    }
}

/// The words of a text: its maximal runs of characters that are not white
/// space, in order (as `str::split_whitespace` gives them).
pub open spec fn words(s: Seq<char>) -> Seq<Seq<char>> {
    let (done, cur) = split_acc(s);
    if cur.len() > 0 {
        done.push(cur)
    } else {
        done
    }
}

/// Words joined with single spaces.
pub open spec fn join_spaced(ws: Seq<Seq<char>>) -> Seq<char>
    decreases ws.len(),
{
    if ws.len() == 0 {
        Seq::empty()
    } else if ws.len() == 1 {
        ws[0]
    } else {
        join_spaced(ws.drop_last()) + " "@ + ws.last()
    }
}

/// The words of a text.
pub fn split_words(text: &str) -> (ws: Vec<String>)
    ensures
        ws@.map_values(|w: String| w@) == words(text@),
{
    let n = text.unicode_len();
    let mut done: Vec<String> = Vec::new();
    let mut cur = String::new();
    let mut i: usize = 0;
    while i < n
        invariant
            n == text@.len(),
            i <= n,
            done@.map_values(|w: String| w@) == split_acc(text@.take(i as int)).0,
            cur@ == split_acc(text@.take(i as int)).1,
        decreases n - i,
    {
        let c = text.get_char(i);
        proof {
            assert(text@.take(i + 1).drop_last() =~= text@.take(i as int));
            assert(text@.take(i + 1).last() == c);
        }
        if char_is_space(c) {
            if cur.unicode_len() > 0 {
                let ghost before = done@;
                let mut word = String::new();
                std::mem::swap(&mut word, &mut cur);
                done.push(word);
                proof {
                    assert(done@.map_values(|w: String| w@) =~= before.map_values(|w: String| w@).push(
                        split_acc(text@.take(i as int)).1,
                    ));
                }
                assert(cur@ =~= Seq::<char>::empty());
            }
        } else {
            string_push(&mut cur, c);
        }
        i = i + 1;
    }
    assert(text@.take(n as int) =~= text@);
    if cur.unicode_len() > 0 {
        let ghost before = done@;
        done.push(cur);
        assert(done@.map_values(|w: String| w@) =~= before.map_values(|w: String| w@).push(
            split_acc(text@).1,
        ));
    }
    done
}

/// The words from position `from` on (none when `from` is past the end).
pub open spec fn words_from(ws: Seq<Seq<char>>, from: int) -> Seq<Seq<char>> {
    if from >= ws.len() {
        Seq::empty()
    } else {
        ws.skip(from)
    }
}

/// The words from position `from` on, joined with single spaces.
pub fn join_words_from(ws: &Vec<String>, from: usize) -> (s: String)
    ensures
        s@ == join_spaced(words_from(ws@.map_values(|w: String| w@), from as int)),
{
    let ghost all = ws@.map_values(|w: String| w@);
    let mut s = String::new();
    if from >= ws.len() {
        return s;
    }
    let mut i: usize = from;
    while i < ws.len()
        invariant
            from < ws@.len(),
            from <= i <= ws@.len(),
            all == ws@.map_values(|w: String| w@),
            s@ == join_spaced(all.subrange(from as int, i as int)),
        decreases ws.len() - i,
    {
        let ghost before = all.subrange(from as int, i as int);
        if i > from {
            push_str(&mut s, " ");
        }
        push_str(&mut s, ws[i].as_str());
        proof {
            let after = all.subrange(from as int, i + 1);
            assert(after.drop_last() =~= before);
            if i == from {
                assert(s@ =~= after[0]);
            } else {
                assert(s@ =~= join_spaced(before) + " "@ + after.last());
            }
        }
        i = i + 1;
    }
    assert(all.subrange(from as int, ws@.len() as int) =~= all.skip(from as int));
    s
}

/// Whether a string equals a literal.
pub fn is_word(w: &String, lit: &str) -> (b: bool)
    ensures
        b == (w@ == lit@),
{
    *w == str_to_string(lit)
}

/// An ASCII decimal digit.
pub open spec fn is_digit(c: char) -> bool {
    '0' <= c <= '9'
}

/// The number that a sequence of decimal digits writes.
pub open spec fn digits_value(s: Seq<char>) -> nat
    decreases s.len(),
{
    if s.len() == 0 {
        0
    } else {
        digits_value(s.drop_last()) * 10 + ((s.last() as int) - ('0' as int)) as nat
    }
}

/// A text without its leading `+`, if any.
pub open spec fn unsigned_body(s: Seq<char>) -> Seq<char> {
    if s.len() > 0 && s[0] == '+' {
        s.drop_first()
    } else {
        s
    }
}

/// Every character is a decimal digit.
pub open spec fn all_digits(s: Seq<char>) -> bool {
    forall|i: int| 0 <= i < s.len() ==> is_digit(#[trigger] s[i])
}

/// The `usize` that a text writes, as `str::parse::<usize>` reads it: an
/// optional `+` followed by at least one decimal digit and nothing else,
/// for a number that fits.
pub open spec fn parse_usize(s: Seq<char>) -> Option<usize> {
    let body = unsigned_body(s);
    if body.len() > 0 && all_digits(body) && digits_value(body) <= usize::MAX {
        Some(digits_value(body) as usize)
    } else {
        None
    }
}

/// Reads a `usize` written in decimal.
pub fn parse_usize_str(s: &String) -> (r: Option<usize>)
    ensures
        r == parse_usize(s@),
{
    let t = s.as_str();
    let n = t.unicode_len();
    let mut i: usize = 0;
    if n > 0 && t.get_char(0) == '+' {
        i = 1;
    }
    let ghost body = unsigned_body(s@);
    let start = i;
    if start >= n {
        return None;
    }
    let mut value: u128 = 0;
    while i < n
        invariant
            n == s@.len(),
            t@ == s@,
            start <= i <= n,
            start < n,
            body == s@.subrange(start as int, n as int),
            body == unsigned_body(s@),
            forall|k: int| 0 <= k < i - start ==> is_digit(#[trigger] body[k]),
            value == digits_value(body.take(i - start)),
            value <= usize::MAX,
        decreases n - i,
    {
        let c = t.get_char(i);
        assert(c == body[i - start]);
        if !('0' <= c && c <= '9') {
            assert(!is_digit(body[i - start]));
            assert(!all_digits(body));
            return None;
        }
        assert(is_digit(body[i - start]));
        let d = (c as u32 - '0' as u32) as u128;
        assert(body.take(i - start + 1).drop_last() =~= body.take(i - start));
        let next = value * 10 + d;
        assert(next == digits_value(body.take(i - start + 1)));
        if next > usize::MAX as u128 {
            proof {
                lemma_digits_prefix_le(body, i - start + 1);
            }
            return None;
        }
        value = next;
        i = i + 1;
    }
    assert(body.take(n - start) =~= body);
    Some(value as usize)
}

/// A longer prefix of digits writes at least as large a number.
proof fn lemma_digits_prefix_le(body: Seq<char>, k: int)
    requires
        0 <= k <= body.len(),
        forall|i: int| 0 <= i < k ==> is_digit(#[trigger] body[i]),
    ensures
        all_digits(body) ==> digits_value(body.take(k)) <= digits_value(body),
    decreases body.len() - k,
{
    if k < body.len() {
        if all_digits(body) {
            lemma_digits_prefix_le(body, k + 1);
            assert(body.take(k + 1).drop_last() =~= body.take(k));
            assert(is_digit(body[k]));
        }
    } else {
        assert(body.take(k) =~= body);
    }
}

} // verus!
