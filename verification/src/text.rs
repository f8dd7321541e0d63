use vstd::prelude::*;

verus! {

/// `String::push` appends one character to the end of the string.
pub assume_specification[ String::push ](s: &mut String, ch: char)
    ensures
        final(s)@ == old(s)@.push(ch),
;

/// The character for a decimal digit.
pub open spec fn digit_char(d: nat) -> char {
    ((d + 48) as u8) as char
}

/// The decimal representation of a natural number, most significant digit
/// first, without leading zeros.
pub open spec fn decimal(n: nat) -> Seq<char>
    decreases n,
{
    if n < 10 {
        seq![digit_char(n)]
    } else {
        decimal(n / 10).push(digit_char(n % 10))
    }
}

/// The decimal representation of an integer, with a leading `-` when it is
/// negative.
pub open spec fn signed_decimal(n: int) -> Seq<char> {
    if n < 0 {
        seq!['-'] + decimal((-n) as nat)
    } else {
        decimal(n as nat)
    }
}

/// The lowercase hexadecimal digit for a value below 16.
pub open spec fn hex_digit(d: u8) -> char {
    if d < 10 {
        ((d + 48) as u8) as char
    } else {
        ((d + 87) as u8) as char
    }
}

/// Lowercase hexadecimal text of a byte string: two digits per byte, high
/// nibble first.
pub open spec fn hex_lower(bytes: Seq<u8>) -> Seq<char>
    decreases bytes.len(),
{
    if bytes.len() == 0 {
        Seq::empty()
    } else {
        hex_lower(bytes.drop_last()) + seq![
            hex_digit(bytes.last() / 16),
            hex_digit(bytes.last() % 16),
        ]
    }
}

fn push_decimal(s: &mut String, n: u64)
    ensures
        final(s)@ == old(s)@ + decimal(n as nat),
    decreases n,
{
    if n >= 10 {
        push_decimal(s, n / 10);
    }
    let d: u8 = (n % 10) as u8;
    s.push((d + 48) as char);
    proof {
        if n >= 10 {
            assert(decimal(n as nat) == decimal((n / 10) as nat).push(digit_char((n % 10) as nat)));
        }
        assert(final(s)@ =~= old(s)@ + decimal(n as nat));
    }
}

/// Decimal text of an unsigned integer.
pub fn u64_to_decimal(n: u64) -> (text: String)
    ensures
        text@ == decimal(n as nat),
{
    let mut text = String::new();
    push_decimal(&mut text, n);
    proof {
        assert(text@ =~= decimal(n as nat));
    }
    text
}

/// Decimal text of a signed integer.
pub fn i64_to_decimal(n: i64) -> (text: String)
    ensures
        text@ == signed_decimal(n as int),
{
    let mut text = String::new();
    if n < 0 {
        text.push('-');
        let magnitude: u64 = (0i128 - n as i128) as u64;
        push_decimal(&mut text, magnitude);
    } else {
        push_decimal(&mut text, n as u64);
    }
    proof {
        assert(text@ =~= signed_decimal(n as int));
    }
    text
}

/// Lowercase hexadecimal text of `bytes`.
pub fn to_hex_lower(bytes: &[u8]) -> (text: String)
    ensures
        text@ == hex_lower(bytes@),
        text@.len() == 2 * bytes@.len(),
{
    let mut text = String::new();
    let mut i: usize = 0;
    while i < bytes.len()
        invariant
            i <= bytes@.len(),
            text@ == hex_lower(bytes@.take(i as int)),
            text@.len() == 2 * i,
        decreases bytes@.len() - i,
    {
        let b: u8 = bytes[i];
        let hi: u8 = b / 16;
        let lo: u8 = b % 16;
        let c_hi: char = if hi < 10 { (hi + 48) as char } else { (hi + 87) as char };
        let c_lo: char = if lo < 10 { (lo + 48) as char } else { (lo + 87) as char };
        text.push(c_hi);
        text.push(c_lo);
        proof {
            let next = bytes@.take(i + 1);
            assert(next.drop_last() =~= bytes@.take(i as int));
            assert(next.last() == b);
        }
        i = i + 1;
    }
    proof {
        assert(bytes@.take(i as int) =~= bytes@);
    }
    text
}


/// The characters of `s`, in order.
pub fn chars_of(s: &str) -> (chars: Vec<char>)
    ensures
        chars@ == s@,
{
    broadcast use vstd::string::group_string_axioms;
    let mut chars: Vec<char> = Vec::new();
    for c in it: s.chars()
        invariant
            chars@ == it.seq().take(it.index() as int),
    {
        chars.push(c);
    }
    chars
}

/// The part of `s` before the first occurrence of `sep`; all of `s` when
/// `sep` does not occur.
pub open spec fn up_to_first(s: Seq<char>, sep: char) -> Seq<char>
    decreases s.len(),
{
    if s.len() == 0 {
        s
    } else if s[0] == sep {
        Seq::empty()
    } else {
        seq![s[0]] + up_to_first(s.drop_first(), sep)
    }
}

/// The part of `s` after the last occurrence of `sep`; all of `s` when
/// `sep` does not occur.
pub open spec fn after_last(s: Seq<char>, sep: char) -> Seq<char>
    decreases s.len(),
{
    if s.len() == 0 {
        s
    } else if s.last() == sep {
        Seq::empty()
    } else {
        after_last(s.drop_last(), sep).push(s.last())
    }
}

/// The text of `s` before the first `sep`.
pub fn prefix_before(s: &str, sep: char) -> (prefix: String)
    ensures
        prefix@ == up_to_first(s@, sep),
{
    let chars = chars_of(s);
    let mut prefix = String::new();
    let mut i: usize = 0;
    proof {
        assert(s@.skip(0) =~= s@);
        assert(prefix@ + s@ =~= s@);
    }
    while i < chars.len() && chars[i] != sep
        invariant
            i <= chars@.len(),
            chars@ == s@,
            prefix@ + up_to_first(s@.skip(i as int), sep) == up_to_first(s@, sep),
        decreases chars@.len() - i,
    {
        proof {
            let rest = s@.skip(i as int);
            assert(rest.drop_first() =~= s@.skip(i + 1));
            assert(rest[0] == chars@[i as int]);
            assert(prefix@.push(chars@[i as int]) + up_to_first(s@.skip(i + 1), sep) =~= prefix@ + (
            seq![rest[0]] + up_to_first(rest.drop_first(), sep)));
        }
        prefix.push(chars[i]);
        i = i + 1;
    }
    proof {
        let rest = s@.skip(i as int);
        if i < chars.len() {
            assert(rest[0] == sep);
        } else {
            assert(rest.len() == 0);
        }
        assert(up_to_first(rest, sep) =~= Seq::<char>::empty());
        assert(prefix@ =~= prefix@ + up_to_first(rest, sep));
    }
    prefix
}

/// The text of `s` after the last `sep`.
pub fn suffix_after(s: &str, sep: char) -> (suffix: String)
    ensures
        suffix@ == after_last(s@, sep),
{
    let chars = chars_of(s);
    let mut suffix = String::new();
    let mut i: usize = 0;
    while i < chars.len()
        invariant
            i <= chars@.len(),
            chars@ == s@,
            suffix@ == after_last(s@.take(i as int), sep),
        decreases chars@.len() - i,
    {
        proof {
            let next = s@.take(i + 1);
            assert(next.drop_last() =~= s@.take(i as int));
            assert(next.last() == chars@[i as int]);
        }
        if chars[i] == sep {
            suffix = String::new();
        } else {
            suffix.push(chars[i]);
        }
        i = i + 1;
    }
    proof {
        assert(s@.take(i as int) =~= s@);
    }
    suffix
}

/// Splitting `head`, `sep`, `tail` at its first `sep` gives back `head`
/// when `head` does not contain `sep`.
pub proof fn lemma_up_to_first_of_joined(head: Seq<char>, sep: char, tail: Seq<char>)
    requires
        !head.contains(sep),
    ensures
        up_to_first(head + seq![sep] + tail, sep) == head,
    decreases head.len(),
{
    let s = head + seq![sep] + tail;
    if head.len() == 0 {
        assert(s[0] == sep);
    } else {
        assert(s[0] == head[0]);
        assert(!head.drop_first().contains(sep)) by {
            if head.drop_first().contains(sep) {
                let j = choose|j: int| 0 <= j < head.drop_first().len() && head.drop_first()[j] == sep;
                assert(head[j + 1] == sep);
            }
        }
        lemma_up_to_first_of_joined(head.drop_first(), sep, tail);
        assert(s.drop_first() =~= head.drop_first() + seq![sep] + tail);
        assert(seq![head[0]] + head.drop_first() =~= head);
    }
}

} // verus!

verus! {

/// The number that decimal text stands for, its last digit the units.
pub open spec fn digits_value(s: Seq<char>) -> int
    decreases s.len(),
{
    if s.len() == 0 {
        0
    } else {
        digits_value(s.drop_last()) * 10 + ((s.last() as int) - 48)
    }
}

/// A decimal digit.
pub open spec fn is_decimal_digit(c: char) -> bool {
    '0' <= c && c <= '9'
}

/// The decimal text of `n` is made of digits only, starts with a nonzero
/// digit unless `n` is zero, and reads back as `n`.
pub proof fn lemma_decimal_reads_back(n: nat)
    ensures
        digits_value(decimal(n)) == n,
        decimal(n).len() >= 1,
        forall|i: int| 0 <= i < decimal(n).len() ==> is_decimal_digit(#[trigger] decimal(n)[i]),
        n > 0 ==> decimal(n)[0] != '0',
    decreases n,
{
    assert((digit_char(n % 10) as int) - 48 == n % 10);
    if n < 10 {
        assert(decimal(n).drop_last() =~= Seq::<char>::empty());
        assert(digits_value(Seq::<char>::empty()) == 0);
    } else {
        lemma_decimal_reads_back(n / 10);
        let p = decimal(n / 10);
        let d = decimal(n);
        assert(d == p.push(digit_char(n % 10)));
        assert(d.drop_last() =~= p);
        assert(digits_value(d) == digits_value(p) * 10 + n % 10);
        assert((n / 10) * 10 + n % 10 == n);
        assert(d[0] == p[0]);
        assert forall|i: int| 0 <= i < d.len() implies is_decimal_digit(#[trigger] d[i]) by {
            if i < p.len() {
                assert(d[i] == p[i]);
            }
        }
    }
}

/// The decimal text of an integer: plain digits that read back as it when it
/// is not negative, and `-` followed by the digits of its magnitude when it
/// is.
pub proof fn lemma_signed_decimal_reads_back(n: int)
    ensures
        n >= 0 ==> signed_decimal(n) == decimal(n as nat) && digits_value(signed_decimal(n)) == n,
        n < 0 ==> signed_decimal(n)[0] == '-' && digits_value(signed_decimal(n).drop_first()) == -n,
{
    if n >= 0 {
        lemma_decimal_reads_back(n as nat);
    } else {
        lemma_decimal_reads_back((-n) as nat);
        assert(signed_decimal(n).drop_first() =~= decimal((-n) as nat));
    }
}

/// The value of a lowercase hexadecimal digit.
pub open spec fn hex_digit_value(c: char) -> int {
    if '0' <= c && c <= '9' {
        (c as int) - 48
    } else if 'a' <= c && c <= 'f' {
        (c as int) - 87
    } else {
        -1
    }
}

/// Each byte of `bytes` becomes two lowercase hexadecimal digits, at
/// positions `2i` and `2i + 1`, high nibble first: together they read back
/// as the byte.
pub proof fn lemma_hex_lower_reads_back(bytes: Seq<u8>)
    ensures
        hex_lower(bytes).len() == 2 * bytes.len(),
        forall|i: int|
            0 <= i < bytes.len() ==> 0 <= #[trigger] hex_digit_value(hex_lower(bytes)[2 * i]) < 16
                && 0 <= hex_digit_value(hex_lower(bytes)[2 * i + 1]) < 16 && 16 * hex_digit_value(
                hex_lower(bytes)[2 * i],
            ) + hex_digit_value(hex_lower(bytes)[2 * i + 1]) == bytes[i],
    decreases bytes.len(),
{
    if bytes.len() > 0 {
        let prev = bytes.drop_last();
        lemma_hex_lower_reads_back(prev);
        let h = hex_lower(bytes);
        let p = hex_lower(prev);
        let b = bytes.last();
        assert(h == p + seq![hex_digit(b / 16), hex_digit(b % 16)]);
        assert(hex_digit_value(hex_digit(b / 16)) == b / 16);
        assert(hex_digit_value(hex_digit(b % 16)) == b % 16);
        assert forall|i: int| 0 <= i < bytes.len() implies 0 <= #[trigger] hex_digit_value(h[2 * i])
            < 16 && 0 <= hex_digit_value(h[2 * i + 1]) < 16 && 16 * hex_digit_value(h[2 * i])
            + hex_digit_value(h[2 * i + 1]) == bytes[i] by {
            if i < prev.len() {
                assert(h[2 * i] == p[2 * i]);
                assert(h[2 * i + 1] == p[2 * i + 1]);
                assert(bytes[i] == prev[i]);
                assert(0 <= hex_digit_value(p[2 * i]) < 16);
            } else {
                assert(h[2 * i] == hex_digit(b / 16));
                assert(h[2 * i + 1] == hex_digit(b % 16));
            }
        }
    }
}

/// What follows the last `sep`: for text `head`, `sep`, `tail` where `tail`
/// holds no `sep`, it is exactly `tail`, whatever `head` holds.
pub proof fn lemma_after_last_of_joined(head: Seq<char>, sep: char, tail: Seq<char>)
    requires
        !tail.contains(sep),
    ensures
        after_last(head + seq![sep] + tail, sep) == tail,
    decreases tail.len(),
{
    let s = head + seq![sep] + tail;
    if tail.len() == 0 {
        assert(s.last() == sep);
    } else {
        let t = tail.drop_last();
        assert(!t.contains(sep)) by {
            if t.contains(sep) {
                let j = choose|j: int| 0 <= j < t.len() && t[j] == sep;
                assert(tail[j] == sep);
            }
        }
        lemma_after_last_of_joined(head, sep, t);
        assert(s.drop_last() =~= head + seq![sep] + t);
        assert(s.last() == tail.last());
        assert(tail.last() != sep) by {
            assert(tail[tail.len() - 1] == tail.last());
        }
        assert(t.push(tail.last()) =~= tail);
    }
}

/// Text without `sep` is its own part after the last `sep`.
pub proof fn lemma_after_last_without_sep(s: Seq<char>, sep: char)
    requires
        !s.contains(sep),
    ensures
        after_last(s, sep) == s,
    decreases s.len(),
{
    if s.len() > 0 {
        let t = s.drop_last();
        assert(!t.contains(sep)) by {
            if t.contains(sep) {
                let j = choose|j: int| 0 <= j < t.len() && t[j] == sep;
                assert(s[j] == sep);
            }
        }
        lemma_after_last_without_sep(t, sep);
        assert(s.last() != sep) by {
            assert(s[s.len() - 1] == s.last());
        }
        assert(t.push(s.last()) =~= s);
    }
}

/// Text without `sep` is its own part before the first `sep`.
pub proof fn lemma_up_to_first_without_sep(s: Seq<char>, sep: char)
    requires
        !s.contains(sep),
    ensures
        up_to_first(s, sep) == s,
    decreases s.len(),
{
    if s.len() > 0 {
        let t = s.drop_first();
        assert(!t.contains(sep)) by {
            if t.contains(sep) {
                let j = choose|j: int| 0 <= j < t.len() && t[j] == sep;
                assert(s[j + 1] == sep);
            }
        }
        lemma_up_to_first_without_sep(t, sep);
        assert(s[0] != sep);
        assert(seq![s[0]] + t =~= s);
    }
}

} // verus!
