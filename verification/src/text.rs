//! Text primitives shared by the rest of the library: comparison, prefixes,
//! case folding, decimal numbers and line splitting, all stated over
//! sequences of characters.

use vstd::prelude::*;
use vstd::std_specs::iter::IteratorSpec;

verus! {

/// `String::push` of the standard library: appends one character to the end
/// of the string and changes nothing else.
pub assume_specification[ String::push ](s: &mut String, c: char)
    ensures
        final(s)@ == old(s)@.push(c),
;

/// The lowercase equivalent of a text as the standard library's
/// `str::to_lowercase` computes it (Unicode's `Lowercase` mapping). It is a
/// function of the text alone; nothing more is claimed of it here.
pub uninterp spec fn lowercase_of(s: Seq<char>) -> Seq<char>;

/// `str::to_lowercase` of the standard library: the result is the lowercase
/// equivalent of the argument.
pub assume_specification[ str::to_lowercase ](s: &str) -> (lower: String)
    ensures
        lower@ == lowercase_of(s@),
;

/// Whether two texts hold the same characters.
pub fn text_eq(a: &str, b: &str) -> (same: bool)
    ensures
        same == (a@ == b@),
{
    let mut rest = b.chars();
    for c in it: a.chars()
        invariant
            it.seq() == a@,
            rest.obeys_prophetic_iter_laws(),
            it.index() <= b@.len(),
            rest.remaining() == b@.skip(it.index() as int),
            a@.take(it.index() as int) == b@.take(it.index() as int),
    {
        let ghost i = it.index() as int;
        match rest.next() {
            Some(d) => {
                if c != d {
                    assert(a@[i] != b@[i]);
                    return false;
                }
                assert(a@.take(i + 1) =~= a@.take(i).push(a@[i]));
                assert(b@.take(i + 1) =~= b@.take(i).push(b@[i]));
                assert(b@.skip(i).drop_first() =~= b@.skip(i + 1));
            },
            None => {
                assert(b@.len() == i);
                return false;
            },
        }
    }
    let done = rest.next().is_none();
    proof {
        assert(a@.take(a@.len() as int) =~= a@);
        if done {
            assert(b@.take(a@.len() as int) =~= b@);
        }
    }
    done
}

/// The texts that a vector of strings holds, in order.
pub open spec fn texts_of(v: Seq<String>) -> Seq<Seq<char>> {
    v.map_values(|s: String| s@)
}

/// Whether one of `list` holds the same characters as `needle`.
pub fn contains_text(list: &[String], needle: &str) -> (found: bool)
    ensures
        found == texts_of(list@).contains(needle@),
{
    let mut i: usize = 0;
    while i < list.len()
        invariant
            i <= list.len(),
            forall|j: int| 0 <= j < i ==> #[trigger] texts_of(list@)[j] != needle@,
        decreases list.len() - i,
    {
        if text_eq(list[i].as_str(), needle) {
            assert(texts_of(list@)[i as int] == needle@);
            return true;
        }
        i += 1;
    }
    false
}

/// What is left of `s` once `prefix` is taken from its front, if `s` starts
/// with `prefix`.
pub open spec fn without_prefix(s: Seq<char>, prefix: Seq<char>) -> Option<Seq<char>> {
    if prefix.is_prefix_of(s) {
        Some(s.skip(prefix.len() as int))
    } else {
        None
    }
}

/// Removes `prefix` from the front of `s`; `None` when `s` does not start
/// with it.
pub fn strip_prefix(s: &str, prefix: &str) -> (rest: Option<String>)
    ensures
        match rest {
            Some(t) => without_prefix(s@, prefix@) == Some(t@),
            None => without_prefix(s@, prefix@) is None,
        },
{
    let mut pre = prefix.chars();
    let mut out = String::new();
    let mut matched = false;
    for c in it: s.chars()
        invariant
            it.seq() == s@,
            pre.obeys_prophetic_iter_laws(),
            !matched ==> {
                &&& it.index() <= prefix@.len()
                &&& pre.remaining() == prefix@.skip(it.index() as int)
                &&& s@.take(it.index() as int) == prefix@.take(it.index() as int)
                &&& out@.len() == 0
            },
            matched ==> {
                &&& prefix@.is_prefix_of(s@)
                &&& prefix@.len() <= it.index()
                &&& out@ == s@.subrange(prefix@.len() as int, it.index() as int)
            },
    {
        let ghost i = it.index() as int;
        if matched {
            out.push(c);
            assert(s@.subrange(prefix@.len() as int, i + 1) =~= s@.subrange(
                prefix@.len() as int,
                i,
            ).push(c));
        } else {
            match pre.next() {
                Some(d) => {
                    if c != d {
                        assert(s@[i] != prefix@[i]);
                        return None;
                    }
                    assert(s@.take(i + 1) =~= s@.take(i).push(s@[i]));
                    assert(prefix@.take(i + 1) =~= prefix@.take(i).push(prefix@[i]));
                    assert(prefix@.skip(i).drop_first() =~= prefix@.skip(i + 1));
                },
                None => {
                    assert(prefix@.len() == i);
                    assert(prefix@ =~= prefix@.take(i));
                    assert(s@.take(i) =~= s@.subrange(0, i));
                    matched = true;
                    out.push(c);
                    assert(s@.subrange(i, i + 1) =~= Seq::<char>::empty().push(c));
                },
            }
        }
    }
    if !matched {
        if pre.next().is_some() {
            assert(prefix@.len() > s@.len());
            return None;
        }
        assert(prefix@.len() == s@.len());
        assert(prefix@ =~= prefix@.take(prefix@.len() as int));
        assert(s@ =~= s@.take(s@.len() as int));
        assert(s@.subrange(0, s@.len() as int) =~= s@);
        assert(s@.skip(s@.len() as int) =~= out@);
    } else {
        assert(s@.skip(prefix@.len() as int) =~= out@);
    }
    Some(out)
}

/// Whether `c` is one of the ten ASCII decimal digits.
pub open spec fn is_digit(c: char) -> bool {
    '0' <= c && c <= '9'
}

/// The number that a decimal digit stands for.
pub open spec fn digit_value(c: char) -> nat {
    (c as int - '0' as int) as nat
}

/// Whether every character of `s` is a decimal digit.
pub open spec fn all_digits(s: Seq<char>) -> bool {
    forall|i: int| 0 <= i < s.len() ==> is_digit(#[trigger] s[i])
}

/// The number that a sequence of decimal digits denotes, most significant
/// digit first. The empty sequence denotes zero.
pub open spec fn decimal_value(s: Seq<char>) -> nat
    decreases s.len(),
{
    if s.len() == 0 {
        0
    } else {
        decimal_value(s.drop_last()) * 10 + digit_value(s.last())
    }
}

/// The digits of an unsigned numeral: the text itself, without the one `+`
/// that may stand in front of it.
pub open spec fn numeral_digits(s: Seq<char>) -> Seq<char> {
    if s.len() > 0 && s[0] == '+' {
        s.skip(1)
    } else {
        s
    }
}

/// The value of `s` read as an unsigned decimal numeral no larger than `max`:
/// an optional `+`, then one or more decimal digits and nothing else.
pub open spec fn parse_unsigned(s: Seq<char>, max: nat) -> Option<nat> {
    let digits = numeral_digits(s);
    if digits.len() > 0 && all_digits(digits) && decimal_value(digits) <= max {
        Some(decimal_value(digits))
    } else {
        None
    }
}

/// A numeral is worth at least as much as any of its prefixes.
pub proof fn lemma_decimal_value_prefix(s: Seq<char>, n: int)
    requires
        0 <= n <= s.len(),
    ensures
        decimal_value(s.take(n)) <= decimal_value(s),
    decreases s.len(),
{
    if n == s.len() {
        assert(s.take(n) =~= s);
    } else {
        lemma_decimal_value_prefix(s.drop_last(), n);
        assert(s.drop_last().take(n) =~= s.take(n));
    }
}

/// Reads `s` as an unsigned decimal numeral that fits in 64 bits.
pub fn parse_u64(s: &str) -> (value: Option<u64>)
    ensures
        match value {
            Some(v) => parse_unsigned(s@, u64::MAX as nat) == Some(v as nat),
            None => parse_unsigned(s@, u64::MAX as nat) is None,
        },
{
    let ghost start: int = if s@.len() > 0 && s@[0] == '+' { 1 } else { 0 };
    let mut acc: u64 = 0;
    let mut first = true;
    let mut any = false;
    for c in it: s.chars()
        invariant
            it.seq() == s@,
            start == (if s@.len() > 0 && s@[0] == '+' { 1int } else { 0int }),
            first == (it.index() == 0),
            any == (it.index() > start),
            !first ==> start <= it.index(),
            !first ==> all_digits(s@.subrange(start, it.index() as int)),
            !first ==> acc == decimal_value(s@.subrange(start, it.index() as int)),
            first ==> acc == 0,
    {
        let ghost i = it.index() as int;
        if first && c == '+' {
            first = false;
            assert(s@.subrange(1, 1) =~= Seq::<char>::empty());
        } else {
            let ghost before = s@.subrange(start, i);
            let ghost after = s@.subrange(start, i + 1);
            proof {
                if first {
                    assert(start == 0);
                    assert(before =~= Seq::<char>::empty());
                }
                assert(after.drop_last() =~= before);
                assert(after.last() == c);
                assert(acc == decimal_value(before));
                assert(all_digits(before));
                assert(decimal_value(after) == decimal_value(before) * 10 + digit_value(c));
            }
            if !('0' <= c && c <= '9') {
                assert(numeral_digits(s@) =~= s@.skip(start));
                assert(s@.skip(start)[i - start] == c);
                return None;
            }
            let d: u64 = (c as u32 - '0' as u32) as u64;
            assert(d == digit_value(c));
            let next = match acc.checked_mul(10) {
                Some(tens) => tens.checked_add(d),
                None => None,
            };
            match next {
                Some(v) => {
                    assert(v == decimal_value(after));
                    assert(all_digits(after)) by {
                        assert forall|j: int| 0 <= j < after.len() implies is_digit(
                            #[trigger] after[j],
                        ) by {
                            if j < before.len() {
                                assert(after[j] == before[j]);
                            }
                        }
                    }
                    acc = v;
                },
                None => {
                    proof {
                        let digits = s@.skip(start);
                        assert(numeral_digits(s@) =~= digits);
                        assert(digits.take(i + 1 - start) =~= after);
                        lemma_decimal_value_prefix(digits, i + 1 - start);
                    }
                    return None;
                },
            }
            first = false;
            any = true;
        }
    }
    proof {
        assert(numeral_digits(s@) =~= s@.skip(start));
        if !first {
            assert(s@.skip(start) =~= s@.subrange(start, s@.len() as int));
        }
    }
    if any {
        Some(acc)
    } else {
        None
    }
}

/// Reads `s` as an unsigned decimal numeral that fits in 16 bits.
pub fn parse_u16(s: &str) -> (value: Option<u16>)
    ensures
        match value {
            Some(v) => parse_unsigned(s@, u16::MAX as nat) == Some(v as nat),
            None => parse_unsigned(s@, u16::MAX as nat) is None,
        },
{
    match parse_u64(s) {
        Some(v) => if v <= 0xffff {
            Some(v as u16)
        } else {
            None
        },
        None => None,
    }
}

/// The character that writes the digit `d`.
pub open spec fn digit_char(d: nat) -> char {
    if d == 0 {
        '0'
    } else if d == 1 {
        '1'
    } else if d == 2 {
        '2'
    } else if d == 3 {
        '3'
    } else if d == 4 {
        '4'
    } else if d == 5 {
        '5'
    } else if d == 6 {
        '6'
    } else if d == 7 {
        '7'
    } else if d == 8 {
        '8'
    } else {
        '9'
    }
}

/// The decimal numeral of `n`: no sign, and no leading zero but for zero
/// itself.
pub open spec fn decimal_digits(n: nat) -> Seq<char>
    decreases n,
{
    if n < 10 {
        seq![digit_char(n)]
    } else {
        decimal_digits(n / 10).push(digit_char(n % 10))
    }
}

fn digit_to_char(d: u64) -> (c: char)
    requires
        d < 10,
    ensures
        c == digit_char(d as nat),
{
    if d == 0 {
        '0'
    } else if d == 1 {
        '1'
    } else if d == 2 {
        '2'
    } else if d == 3 {
        '3'
    } else if d == 4 {
        '4'
    } else if d == 5 {
        '5'
    } else if d == 6 {
        '6'
    } else if d == 7 {
        '7'
    } else if d == 8 {
        '8'
    } else {
        '9'
    }
}

/// Writes `n` as a decimal numeral.
pub fn u64_to_decimal(n: u64) -> (text: String)
    ensures
        text@ == decimal_digits(n as nat),
{
    let mut low: Vec<char> = Vec::new();
    let mut rest = n;
    while rest >= 10
        invariant
            decimal_digits(n as nat) == decimal_digits(rest as nat) + low@.reverse(),
        decreases rest,
    {
        let c = digit_to_char(rest % 10);
        proof {
            let shorter = decimal_digits((rest / 10) as nat);
            assert(low@.push(c).reverse() =~= seq![c] + low@.reverse());
            assert(shorter.push(c) + low@.reverse() =~= shorter + (seq![c] + low@.reverse()));
        }
        low.push(c);
        rest = rest / 10;
    }
    let mut text = String::new();
    text.push(digit_to_char(rest));
    let mut k = low.len();
    while k > 0
        invariant
            k <= low.len(),
            text@ == decimal_digits(rest as nat) + low@.reverse().take(low.len() - k),
        decreases k,
    {
        k = k - 1;
        text.push(low[k]);
        proof {
            let high = low@.reverse();
            assert(high.take(low.len() - k) =~= high.take(low.len() - k - 1).push(low@[k as int]));
        }
    }
    assert(low@.reverse().take(low.len() as int) =~= low@.reverse());
    text
}

/// Reading back the numeral that was written for `n` gives `n`.
pub proof fn lemma_decimal_round_trip(n: nat, max: nat)
    requires
        n <= max,
    ensures
        parse_unsigned(decimal_digits(n), max) == Some(n),
{
    lemma_decimal_digits(n);
}

/// A written numeral is not empty, holds digits only and is worth the number
/// it was written for.
pub proof fn lemma_decimal_digits(n: nat)
    ensures
        decimal_digits(n).len() > 0,
        all_digits(decimal_digits(n)),
        decimal_value(decimal_digits(n)) == n,
    decreases n,
{
    let text = decimal_digits(n);
    if n < 10 {
        assert(text.drop_last() =~= Seq::<char>::empty());
        assert(decimal_value(text.drop_last()) == 0);
    } else {
        lemma_decimal_digits(n / 10);
        assert(text.drop_last() =~= decimal_digits(n / 10));
        assert(text.last() == digit_char(n % 10));
    }
}

/// The length of the first line of `s`: the number of characters that stand
/// before its first line feed, or all of them if it has none.
pub open spec fn first_line_len(s: Seq<char>) -> int
    decreases s.len(),
{
    if s.len() == 0 || s[0] == '\n' {
        0
    } else {
        1 + first_line_len(s.skip(1))
    }
}

/// The lines of a text. A line feed ends a line and is not part of it; what
/// follows the last line feed is a line too, unless it is empty.
pub open spec fn lines_of(s: Seq<char>) -> Seq<Seq<char>>
    decreases s.len(),
{
    if s.len() == 0 {
        Seq::empty()
    } else {
        let n = first_line_len(s);
        if 0 <= n < s.len() {
            seq![s.take(n)] + lines_of(s.skip(n + 1))
        } else {
            seq![s]
        }
    }
}

/// Whether `s` holds no line feed.
pub open spec fn single_line(s: Seq<char>) -> bool {
    forall|i: int| 0 <= i < s.len() ==> #[trigger] s[i] != '\n'
}

/// The first line of a text ends where its first line feed stands.
pub proof fn lemma_first_line_len(head: Seq<char>, tail: Seq<char>)
    requires
        single_line(head),
        tail.len() == 0 || tail[0] == '\n',
    ensures
        first_line_len(head + tail) == head.len(),
    decreases head.len(),
{
    let s = head + tail;
    if head.len() == 0 {
        assert(s =~= tail);
    } else {
        assert(s[0] == head[0]);
        assert(s.skip(1) =~= head.skip(1) + tail);
        lemma_first_line_len(head.skip(1), tail);
    }
}

/// The first line of a text holds no line feed.
pub proof fn lemma_first_line_is_single(s: Seq<char>)
    ensures
        0 <= first_line_len(s) <= s.len(),
        single_line(s.take(first_line_len(s))),
        first_line_len(s) < s.len() ==> s[first_line_len(s)] == '\n',
    decreases s.len(),
{
    if s.len() == 0 || s[0] == '\n' {
    } else {
        let rest = s.skip(1);
        lemma_first_line_is_single(rest);
        let n = first_line_len(rest);
        assert forall|i: int| 0 <= i < n + 1 implies #[trigger] s.take(n + 1)[i] != '\n' by {
            if i > 0 {
                assert(s.take(n + 1)[i] == rest.take(n)[i - 1]);
            }
        }
    }
}

/// No line of a text holds a line feed.
pub proof fn lemma_lines_are_single(s: Seq<char>, i: int)
    requires
        0 <= i < lines_of(s).len(),
    ensures
        single_line(lines_of(s)[i]),
    decreases s.len(),
{
    lemma_first_line_is_single(s);
    let n = first_line_len(s);
    if n < s.len() {
        if i > 0 {
            lemma_lines_are_single(s.skip(n + 1), i - 1);
        }
    } else {
        assert(s.take(n) =~= s);
    }
}

/// Splits a text into its lines.
pub fn split_lines(text: &str) -> (lines: Vec<String>)
    ensures
        texts_of(lines@) == lines_of(text@),
{
    let mut lines: Vec<String> = Vec::new();
    let mut current = String::new();
    proof {
        assert(current@ + text@.skip(0) =~= text@);
        assert(texts_of(lines@) + lines_of(text@) =~= lines_of(text@));
    }
    for c in it: text.chars()
        invariant
            it.seq() == text@,
            single_line(current@),
            lines_of(text@) == texts_of(lines@) + lines_of(
                current@ + text@.skip(it.index() as int),
            ),
    {
        let ghost i = it.index() as int;
        let ghost rest = text@.skip(i);
        let ghost joined = current@ + rest;
        assert(rest[0] == c);
        if c == '\n' {
            proof {
                lemma_first_line_len(current@, rest);
                assert(joined.take(current@.len() as int) =~= current@);
                assert(joined.skip(current@.len() as int + 1) =~= text@.skip(i + 1));
                assert(texts_of(lines@.push(current)) =~= texts_of(lines@) + seq![current@]);
                assert(Seq::<char>::empty() + text@.skip(i + 1) =~= text@.skip(i + 1));
            }
            lines.push(current);
            current = String::new();
        } else {
            current.push(c);
            assert(current@ + text@.skip(i + 1) =~= joined);
        }
    }
    proof {
        assert(current@ + text@.skip(text@.len() as int) =~= current@);
        lemma_first_line_len(current@, Seq::empty());
        assert(current@ + Seq::<char>::empty() =~= current@);
    }
    if !current.as_str().is_empty() {
        assert(texts_of(lines@.push(current)) =~= texts_of(lines@) + seq![current@]);
        lines.push(current);
    }
    lines
}

} // verus!
