//! Text: equality, byte order, decimal and hexadecimal rendering, searching.

use vstd::prelude::*;
use vstd::string::*;
use vstd::utf8::*;

verus! {

/// Whether `a` comes strictly before `b` in the lexicographic order of bytes.
pub open spec fn bytes_less(a: Seq<u8>, b: Seq<u8>) -> bool
    decreases a.len(),
{
    if b.len() == 0 {
        false
    } else if a.len() == 0 {
        true
    } else if a[0] != b[0] {
        a[0] < b[0]
    } else {
        bytes_less(a.drop_first(), b.drop_first())
    }
}

/// Whether text `a` comes strictly before text `b`: text is ordered by its UTF-8 bytes.
pub open spec fn text_less(a: Seq<char>, b: Seq<char>) -> bool {
    bytes_less(encode_utf8(a), encode_utf8(b))
}

/// The byte order is irreflexive.
pub proof fn lemma_bytes_less_irreflexive(a: Seq<u8>)
    ensures
        !bytes_less(a, a),
    decreases a.len(),
{
    if a.len() > 0 {
        lemma_bytes_less_irreflexive(a.drop_first());
    }
}

/// The byte order is transitive.
pub proof fn lemma_bytes_less_transitive(a: Seq<u8>, b: Seq<u8>, c: Seq<u8>)
    requires
        bytes_less(a, b),
        bytes_less(b, c),
    ensures
        bytes_less(a, c),
    decreases a.len(),
{
    if a.len() > 0 && a[0] == b[0] && b[0] == c[0] {
        lemma_bytes_less_transitive(a.drop_first(), b.drop_first(), c.drop_first());
    }
}

/// Of two different byte strings one comes first.
pub proof fn lemma_bytes_less_total(a: Seq<u8>, b: Seq<u8>)
    ensures
        a == b || bytes_less(a, b) || bytes_less(b, a),
    decreases a.len(),
{
    if a.len() == 0 && b.len() == 0 {
        assert(a =~= b);
    } else if a.len() > 0 && b.len() > 0 && a[0] == b[0] {
        lemma_bytes_less_total(a.drop_first(), b.drop_first());
        if a.drop_first() == b.drop_first() {
            assert(a =~= seq![a[0]] + a.drop_first());
            assert(b =~= seq![b[0]] + b.drop_first());
        }
    }
}

/// The text order is irreflexive, transitive and total.
pub proof fn lemma_text_less_order(a: Seq<char>, b: Seq<char>, c: Seq<char>)
    ensures
        !text_less(a, a),
        text_less(a, b) && text_less(b, c) ==> text_less(a, c),
        a == b || text_less(a, b) || text_less(b, a),
{
    lemma_bytes_less_irreflexive(encode_utf8(a));
    if text_less(a, b) && text_less(b, c) {
        lemma_bytes_less_transitive(encode_utf8(a), encode_utf8(b), encode_utf8(c));
    }
    lemma_bytes_less_total(encode_utf8(a), encode_utf8(b));
    encode_utf8_decode_utf8(a);
    encode_utf8_decode_utf8(b);
}

/// Compares two byte strings for equality.
pub fn bytes_eq(a: &[u8], b: &[u8]) -> (equal: bool)
    ensures
        equal == (a@ == b@),
{
    if a.len() != b.len() {
        return false;
    }
    let mut i: usize = 0;
    while i < a.len()
        invariant
            a.len() == b.len(),
            i <= a.len(),
            forall|j: int| 0 <= j < i ==> a@[j] == b@[j],
        decreases a.len() - i,
    {
        if a[i] != b[i] {
            return false;
        }
        i = i + 1;
    }
    assert(a@ =~= b@);
    true
}

/// Compares two texts for equality.
pub fn text_eq(a: &str, b: &str) -> (equal: bool)
    ensures
        equal == (a@ == b@),
{
    proof {
        encode_utf8_decode_utf8(a@);
        encode_utf8_decode_utf8(b@);
    }
    bytes_eq(a.as_bytes(), b.as_bytes())
}

/// Whether text `a` comes strictly before text `b`.
pub fn text_before(a: &str, b: &str) -> (before: bool)
    ensures
        before == text_less(a@, b@),
{
    let x = a.as_bytes();
    let y = b.as_bytes();
    let mut i: usize = 0;
    proof {
        assert(x@.skip(0) =~= x@);
        assert(y@.skip(0) =~= y@);
    }
    while i < x.len() && i < y.len() && x[i] == y[i]
        invariant
            i <= x.len(),
            i <= y.len(),
            bytes_less(x@, y@) == bytes_less(x@.skip(i as int), y@.skip(i as int)),
        decreases x.len() - i,
    {
        proof {
            assert(x@.skip(i as int).drop_first() =~= x@.skip(i + 1));
            assert(y@.skip(i as int).drop_first() =~= y@.skip(i + 1));
        }
        i = i + 1;
    }
    if i >= y.len() {
        false
    } else if i >= x.len() {
        true
    } else {
        x[i] < y[i]
    }
}

/// `prefix`, `value` and `suffix` one after the other.
pub fn join3(prefix: &str, value: &str, suffix: &str) -> (text: String)
    ensures
        text@ == prefix@ + value@ + suffix@,
{
    let mut text = prefix.to_owned();
    text.append(value);
    text.append(suffix);
    text
}

/// `prefix` and `value` one after the other.
pub fn join2(prefix: &str, value: &str) -> (text: String)
    ensures
        text@ == prefix@ + value@,
{
    let mut text = prefix.to_owned();
    text.append(value);
    text
}

/// The digits of the bases up to sixteen.
pub open spec fn digit_char(digit: nat) -> char {
    if digit < 10 {
        (('0' as u32) + digit) as char
    } else {
        (('a' as u32) + digit - 10) as char
    }
}

/// `number` written in `base` without leading zeros.
pub open spec fn number_text(number: nat, base: nat) -> Seq<char>
    decreases number,
{
    if base < 2 || number < base {
        seq![digit_char(number)]
    } else {
        proof {
            assert(number / base < number) by (nonlinear_arith)
                requires
                    number >= base,
                    base >= 2,
            ;
        }
        number_text(number / base, base).push(digit_char(number % base))
    }
}

/// `number` written in decimal.
pub open spec fn decimal_text(number: nat) -> Seq<char> {
    number_text(number, 10)
}

fn digit_text(digit: u8) -> (text: &'static str)
    requires
        digit < 16,
    ensures
        text@ == seq![digit_char(digit as nat)],
{
    proof {
        reveal_strlit("0");
        reveal_strlit("1");
        reveal_strlit("2");
        reveal_strlit("3");
        reveal_strlit("4");
        reveal_strlit("5");
        reveal_strlit("6");
        reveal_strlit("7");
        reveal_strlit("8");
        reveal_strlit("9");
        reveal_strlit("a");
        reveal_strlit("b");
        reveal_strlit("c");
        reveal_strlit("d");
        reveal_strlit("e");
        reveal_strlit("f");
    }
    match digit {
        0 => "0",
        1 => "1",
        2 => "2",
        3 => "3",
        4 => "4",
        5 => "5",
        6 => "6",
        7 => "7",
        8 => "8",
        9 => "9",
        10 => "a",
        11 => "b",
        12 => "c",
        13 => "d",
        14 => "e",
        _ => "f",
    }
}

/// Writes `number` in `base`.
pub fn number_string(number: u64, base: u64) -> (text: String)
    requires
        2 <= base <= 16,
    ensures
        text@ == number_text(number as nat, base as nat),
    decreases number,
{
    if number < base {
        digit_text(number as u8).to_owned()
    } else {
        proof {
            assert(number / base < number) by (nonlinear_arith)
                requires
                    number >= base,
                    base >= 2,
            ;
        }
        let mut text = number_string(number / base, base);
        text.append(digit_text((number % base) as u8));
        text
    }
}

/// Writes `number` in decimal.
pub fn decimal(number: u64) -> (text: String)
    ensures
        text@ == decimal_text(number as nat),
{
    number_string(number, 10)
}

/// `bytes` in lowercase hexadecimal, two digits each.
pub open spec fn hex_text(bytes: Seq<u8>) -> Seq<char>
    decreases bytes.len(),
{
    if bytes.len() == 0 {
        Seq::empty()
    } else {
        hex_text(bytes.drop_last()) + seq![
            digit_char((bytes.last() / 16) as nat),
            digit_char((bytes.last() % 16) as nat),
        ]
    }
}

/// Writes `bytes` in lowercase hexadecimal.
pub fn hex(bytes: &[u8]) -> (text: String)
    ensures
        text@ == hex_text(bytes@),
{
    let mut text = String::new();
    let mut i: usize = 0;
    while i < bytes.len()
        invariant
            i <= bytes.len(),
            text@ == hex_text(bytes@.take(i as int)),
        decreases bytes.len() - i,
    {
        let high: u8 = bytes[i] / 16;
        let low: u8 = bytes[i] % 16;
        text.append(digit_text(high));
        text.append(digit_text(low));
        proof {
            assert(bytes@.take(i + 1).drop_last() =~= bytes@.take(i as int));
            assert(hex_text(bytes@.take(i as int)) + seq![digit_char(high as nat)] + seq![
                digit_char(low as nat),
            ] =~= hex_text(bytes@.take(i as int)) + seq![
                digit_char(high as nat),
                digit_char(low as nat),
            ]);
        }
        i = i + 1;
    }
    proof {
        assert(bytes@.take(i as int) =~= bytes@);
    }
    text
}

/// The characters with the Unicode property `White_Space`.
pub open spec fn is_white_space(c: char) -> bool {
    let code = c as u32;
    ||| 0x09 <= code <= 0x0d
    ||| code == 0x20
    ||| code == 0x85
    ||| code == 0xa0
    ||| code == 0x1680
    ||| 0x2000 <= code <= 0x200a
    ||| code == 0x2028
    ||| code == 0x2029
    ||| code == 0x202f
    ||| code == 0x205f
    ||| code == 0x3000
}

/// Tests whether a character is white space.
pub fn white_space(c: char) -> (white: bool)
    ensures
        white == is_white_space(c),
{
    let code: u32 = c as u32;
    (0x09 <= code && code <= 0x0d) || code == 0x20 || code == 0x85 || code == 0xa0 || code
        == 0x1680 || (0x2000 <= code && code <= 0x200a) || code == 0x2028 || code == 0x2029 || code
        == 0x202f || code == 0x205f || code == 0x3000
}

/// `text` without the white space at its start.
pub open spec fn trimmed_start(text: Seq<char>) -> Seq<char>
    decreases text.len(),
{
    if text.len() > 0 && is_white_space(text[0]) {
        trimmed_start(text.drop_first())
    } else {
        text
    }
}

/// `text` without the white space at its end.
pub open spec fn trimmed_end(text: Seq<char>) -> Seq<char>
    decreases text.len(),
{
    if text.len() > 0 && is_white_space(text.last()) {
        trimmed_end(text.drop_last())
    } else {
        text
    }
}

/// `text` without the white space at both ends.
pub open spec fn trimmed(text: Seq<char>) -> Seq<char> {
    trimmed_end(trimmed_start(text))
}

/// The part of `text` between the white space at its ends.
pub fn trim(text: &str) -> (part: &str)
    ensures
        part@ == trimmed(text@),
{
    let length: usize = text.unicode_len();
    let mut from: usize = 0;
    proof {
        assert(text@.skip(0) =~= text@);
    }
    while from < length && white_space(text.get_char(from))
        invariant
            length == text@.len(),
            from <= length,
            trimmed_start(text@) == trimmed_start(text@.skip(from as int)),
        decreases length - from,
    {
        proof {
            assert(text@.skip(from as int).drop_first() =~= text@.skip(from + 1));
        }
        from = from + 1;
    }
    let ghost tail = text@.skip(from as int);
    assert(trimmed_start(text@) == tail);
    let mut to: usize = length;
    proof {
        assert(text@.subrange(from as int, to as int) =~= tail);
    }
    while to > from && white_space(text.get_char(to - 1))
        invariant
            length == text@.len(),
            from <= to <= length,
            trimmed_end(tail) == trimmed_end(text@.subrange(from as int, to as int)),
        decreases to,
    {
        proof {
            let part = text@.subrange(from as int, to as int);
            assert(part.last() == text@[to - 1]);
            assert(part.drop_last() =~= text@.subrange(from as int, to - 1));
        }
        to = to - 1;
    }
    proof {
        let part = text@.subrange(from as int, to as int);
        if part.len() > 0 {
            assert(part.last() == text@[to - 1]);
        }
    }
    text.substring_char(from, to)
}

proof fn lemma_trimmed_start(text: Seq<char>)
    ensures
        exists|k: int|
            0 <= k <= text.len() && #[trigger] text.skip(k) == trimmed_start(text) && (forall|i: int|
                0 <= i < k ==> is_white_space(#[trigger] text[i])),
        trimmed_start(text).len() > 0 ==> !is_white_space(trimmed_start(text)[0]),
    decreases text.len(),
{
    if text.len() > 0 && is_white_space(text[0]) {
        let tail = text.drop_first();
        lemma_trimmed_start(tail);
        let k = choose|k: int|
            0 <= k <= tail.len() && #[trigger] tail.skip(k) == trimmed_start(tail) && (forall|i: int|
                0 <= i < k ==> is_white_space(#[trigger] tail[i]));
        assert(text.skip(k + 1) =~= tail.skip(k));
        assert forall|i: int| 0 <= i < k + 1 implies is_white_space(#[trigger] text[i]) by {
            if i > 0 {
                assert(tail[i - 1] == text[i]);
            }
        }
    } else {
        assert(text.skip(0) =~= text);
    }
}

proof fn lemma_trimmed_end(text: Seq<char>)
    ensures
        exists|k: int|
            0 <= k <= text.len() && #[trigger] text.take(k) == trimmed_end(text) && (forall|i: int|
                k <= i < text.len() ==> is_white_space(#[trigger] text[i])),
        trimmed_end(text).len() > 0 ==> !is_white_space(trimmed_end(text).last()),
    decreases text.len(),
{
    if text.len() > 0 && is_white_space(text.last()) {
        let front = text.drop_last();
        lemma_trimmed_end(front);
        let k = choose|k: int|
            0 <= k <= front.len() && #[trigger] front.take(k) == trimmed_end(front) && (forall|
                i: int,
            |
                k <= i < front.len() ==> is_white_space(#[trigger] front[i]));
        assert(text.take(k) =~= front.take(k));
        assert forall|i: int| k <= i < text.len() implies is_white_space(#[trigger] text[i]) by {
            if i < front.len() {
                assert(front[i] == text[i]);
            }
        }
    } else {
        assert(text.take(text.len() as int) =~= text);
    }
}

/// Trimming takes the white space off both ends and nothing else: what is left is a part of the
/// text with only white space before and behind it, and begins and ends with none.
pub proof fn law_trimming_takes_only_white_space(text: Seq<char>)
    ensures
        exists|from: int, to: int|
            0 <= from <= to <= text.len() && #[trigger] text.subrange(from, to) == trimmed(text) && (
            forall|i: int|
                0 <= i < from || to <= i < text.len() ==> is_white_space(#[trigger] text[i])),
        trimmed(text).len() > 0 ==> !is_white_space(trimmed(text)[0]) && !is_white_space(
            trimmed(text).last(),
        ),
{
    lemma_trimmed_start(text);
    let from = choose|k: int|
        0 <= k <= text.len() && #[trigger] text.skip(k) == trimmed_start(text) && (forall|i: int|
            0 <= i < k ==> is_white_space(#[trigger] text[i]));
    let tail = trimmed_start(text);
    lemma_trimmed_end(tail);
    let k = choose|k: int|
        0 <= k <= tail.len() && #[trigger] tail.take(k) == trimmed_end(tail) && (forall|i: int|
            k <= i < tail.len() ==> is_white_space(#[trigger] tail[i]));
    let to = from + k;
    assert(text.subrange(from, to) =~= tail.take(k));
    assert forall|i: int| 0 <= i < from || to <= i < text.len() implies is_white_space(
        #[trigger] text[i],
    ) by {
        if to <= i {
            assert(tail[i - from] == text[i]);
        }
    }
    if trimmed(text).len() > 0 {
        assert(trimmed(text)[0] == tail[0]);
    }
}

/// The white space characters are those of the Unicode property.
pub proof fn law_white_space_is_that_of_unicode(c: char)
    ensures
        is_white_space(c) <==> {
            ||| c == '\t'
            ||| c == '\n'
            ||| c == '\u{b}'
            ||| c == '\u{c}'
            ||| c == '\r'
            ||| c == ' '
            ||| c == '\u{85}'
            ||| c == '\u{a0}'
            ||| c == '\u{1680}'
            ||| '\u{2000}' <= c <= '\u{200a}'
            ||| c == '\u{2028}'
            ||| c == '\u{2029}'
            ||| c == '\u{202f}'
            ||| c == '\u{205f}'
            ||| c == '\u{3000}'
        },
{
}

/// Every byte has two digits, in the order of the bytes: the digit of its higher half and then that
/// of its lower half.
pub proof fn law_hex_shows_each_byte(bytes: Seq<u8>)
    ensures
        hex_text(bytes).len() == 2 * bytes.len(),
        forall|i: int|
            #![trigger bytes[i]]
            0 <= i < bytes.len() ==> hex_text(bytes)[2 * i] == digit_char((bytes[i] / 16) as nat)
                && hex_text(bytes)[2 * i + 1] == digit_char((bytes[i] % 16) as nat),
    decreases bytes.len(),
{
    if bytes.len() > 0 {
        let front = bytes.drop_last();
        law_hex_shows_each_byte(front);
        assert forall|i: int| #![trigger bytes[i]] 0 <= i < bytes.len() implies hex_text(bytes)[2
            * i] == digit_char((bytes[i] / 16) as nat) && hex_text(bytes)[2 * i + 1] == digit_char(
            (bytes[i] % 16) as nat,
        ) by {
            if i < front.len() {
                assert(front[i] == bytes[i]);
            }
        }
    }
}

/// The digits are `0` to `9` and then `a` to `f`.
pub proof fn law_digits_are_the_usual_ones(digit: nat)
    requires
        digit < 16,
    ensures
        digit < 10 ==> digit_char(digit) as int == '0' as int + digit,
        digit >= 10 ==> digit_char(digit) as int == 'a' as int + (digit - 10),
{
}

/// What a text of digits to a base is worth.
pub open spec fn text_value(text: Seq<char>, base: nat) -> nat
    decreases text.len(),
{
    if text.len() == 0 {
        0
    } else {
        text_value(text.drop_last(), base) * base + digit_value(text.last())
    }
}

/// What a digit is worth.
pub open spec fn digit_value(c: char) -> nat {
    if '0' <= c <= '9' {
        (c as int - '0' as int) as nat
    } else {
        (c as int - 'a' as int + 10) as nat
    }
}

/// A number is written so that it reads back as itself, without a zero in front.
pub proof fn law_numbers_read_back(number: nat, base: nat)
    requires
        2 <= base <= 16,
    ensures
        text_value(number_text(number, base), base) == number,
        number_text(number, base).len() > 0,
        number > 0 ==> number_text(number, base)[0] != '0',
        decimal_text(number) == number_text(number, 10),
    decreases number,
{
    let text = number_text(number, base);
    if number < base {
        assert(text.drop_last() =~= Seq::<char>::empty());
        assert(text_value(text.drop_last(), base) == 0);
        assert(text_value(text, base) == 0 * base + digit_value(text.last()));
        assert(0 * base == 0) by (nonlinear_arith);
    } else {
        assert(number / base < number && number / base > 0) by (nonlinear_arith)
            requires
                number >= base,
                base >= 2,
        ;
        law_numbers_read_back(number / base, base);
        let front = number_text(number / base, base);
        let digit = number % base;
        assert(digit < base) by (nonlinear_arith)
            requires
                base >= 2,
                digit == number % base,
        ;
        assert(text == front.push(digit_char(digit)));
        assert(text.drop_last() =~= front);
        assert((number / base) * base + number % base == number) by (nonlinear_arith)
            requires
                base >= 2,
        ;
    }
}

/// A text stands before another exactly where, byte for byte, it is the same up to some place and
/// there either ends or has the lesser byte.
pub proof fn law_texts_are_ordered_by_their_first_difference(a: Seq<u8>, b: Seq<u8>)
    ensures
        bytes_less(a, b) <==> exists|k: int|
            0 <= k <= a.len() && k < b.len() && #[trigger] a.take(k) == b.take(k) && (k == a.len()
                || a[k] < b[k]),
    decreases a.len(),
{
    if b.len() == 0 {
    } else if a.len() == 0 {
        assert(a.take(0) =~= b.take(0));
    } else if a[0] != b[0] {
        assert(a.take(0) =~= b.take(0));
        if exists|k: int|
            0 <= k <= a.len() && k < b.len() && #[trigger] a.take(k) == b.take(k) && (k == a.len()
                || a[k] < b[k]) {
            let k = choose|k: int|
                0 <= k <= a.len() && k < b.len() && #[trigger] a.take(k) == b.take(k) && (k
                    == a.len() || a[k] < b[k]);
            if k > 0 {
                assert(a.take(k)[0] == b.take(k)[0]);
            }
        }
    } else {
        let x = a.drop_first();
        let y = b.drop_first();
        law_texts_are_ordered_by_their_first_difference(x, y);
        if bytes_less(x, y) {
            let k = choose|k: int|
                0 <= k <= x.len() && k < y.len() && #[trigger] x.take(k) == y.take(k) && (k
                    == x.len() || x[k] < y[k]);
            assert(a.take(k + 1) =~= seq![a[0]] + x.take(k));
            assert(b.take(k + 1) =~= seq![b[0]] + y.take(k));
            assert(a.take(k + 1) == b.take(k + 1));
        }
        if exists|k: int|
            0 <= k <= a.len() && k < b.len() && #[trigger] a.take(k) == b.take(k) && (k == a.len()
                || a[k] < b[k]) {
            let k = choose|k: int|
                0 <= k <= a.len() && k < b.len() && #[trigger] a.take(k) == b.take(k) && (k
                    == a.len() || a[k] < b[k]);
            assert(k > 0);
            assert(x.take(k - 1) =~= a.take(k).drop_first());
            assert(y.take(k - 1) =~= b.take(k).drop_first());
            assert(x.take(k - 1) == y.take(k - 1));
        }
    }
}

/// Lowering changes the ASCII capitals alone, each to its small letter, character by character.
pub proof fn law_lowering_changes_only_capitals(text: Seq<char>, i: int)
    requires
        0 <= i < text.len(),
    ensures
        ascii_lowercase_text(text).len() == text.len(),
        !('A' <= text[i] <= 'Z') ==> ascii_lowercase_text(text)[i] == text[i],
        'A' <= text[i] <= 'Z' ==> ascii_lowercase_text(text)[i] as int - 'a' as int
            == text[i] as int - 'A' as int,
{
}

/// One text stands in another exactly where the other is made of something, the one, and something.
pub proof fn law_a_text_occurs_between_others(text: Seq<char>, needle: Seq<char>)
    ensures
        occurs_in(text, needle) <==> exists|before: Seq<char>, behind: Seq<char>| #[trigger]
            (before + needle + behind) == text,
{
    if occurs_in(text, needle) {
        let i = choose|i: int| #[trigger] occurs_at(text, needle, i);
        assert(text.take(i) + needle + text.skip(i + needle.len()) =~= text);
    }
    if exists|before: Seq<char>, behind: Seq<char>| #[trigger] (before + needle + behind) == text {
        let (before, behind) = choose|before: Seq<char>, behind: Seq<char>| #[trigger]
            (before + needle + behind) == text;
        let i = before.len() as int;
        assert(text.subrange(i, i + needle.len()) =~= needle);
        assert(occurs_at(text, needle, i));
    }
}

/// `String::push` appends one character.
pub assume_specification[ String::push ](text: &mut String, c: char)
    ensures
        final(text)@ == old(text)@.push(c),
;

/// `c` in lower case where it is an ASCII letter.
pub open spec fn ascii_lower(c: char) -> char {
    if 'A' <= c && c <= 'Z' {
        ((c as u32) + 32) as char
    } else {
        c
    }
}

/// `text` with its ASCII letters in lower case.
pub open spec fn ascii_lowercase_text(text: Seq<char>) -> Seq<char> {
    Seq::new(text.len(), |i: int| ascii_lower(text[i]))
}

/// Writes `text` with its ASCII letters in lower case.
pub fn ascii_lowercase(text: &str) -> (lower: String)
    ensures
        lower@ == ascii_lowercase_text(text@),
{
    let mut lower = String::new();
    let mut i: usize = 0;
    let count: usize = text.unicode_len();
    for c in chars: text.chars()
        invariant
            chars.seq() == text@,
            i == chars.index(),
            count == text@.len(),
            lower@ == ascii_lowercase_text(text@.take(i as int)),
    {
        let mapped: char = if 'A' <= c && c <= 'Z' {
            ((c as u8) + 32) as char
        } else {
            c
        };
        lower.push(mapped);
        proof {
            assert(ascii_lowercase_text(text@.take(i + 1)) =~= ascii_lowercase_text(
                text@.take(i as int),
            ).push(ascii_lower(c)));
        }
        i = i + 1;
    }
    proof {
        assert(text@.take(i as int) =~= text@);
    }
    lower
}

/// Whether `needle` stands in `text` at position `i`.
pub open spec fn occurs_at(text: Seq<char>, needle: Seq<char>, i: int) -> bool {
    0 <= i && i + needle.len() <= text.len() && text.subrange(i, i + needle.len()) == needle
}

/// Whether `needle` stands anywhere in `text`.
pub open spec fn occurs_in(text: Seq<char>, needle: Seq<char>) -> bool {
    exists|i: int| #[trigger] occurs_at(text, needle, i)
}

fn characters(text: &str) -> (chars: Vec<char>)
    ensures
        chars@ == text@,
{
    let mut result: Vec<char> = Vec::new();
    let mut i: usize = 0;
    let count: usize = text.unicode_len();
    for c in chars: text.chars()
        invariant
            chars.seq() == text@,
            i == chars.index(),
            count == text@.len(),
            result@ == text@.take(i as int),
    {
        result.push(c);
        proof {
            assert(text@.take(i + 1) =~= text@.take(i as int).push(c));
        }
        i = i + 1;
    }
    proof {
        assert(text@.take(i as int) =~= text@);
    }
    result
}

fn stands_at(text: &Vec<char>, needle: &Vec<char>, i: usize) -> (stands: bool)
    requires
        i + needle@.len() <= text@.len(),
    ensures
        stands == occurs_at(text@, needle@, i as int),
{
    let size: usize = text.len();
    let mut k: usize = 0;
    while k < needle.len()
        invariant
            k <= needle@.len(),
            size == text@.len(),
            i + needle@.len() <= size,
            forall|j: int| 0 <= j < k ==> text@[i + j] == needle@[j],
        decreases needle.len() - k,
    {
        if text[i + k] != needle[k] {
            proof {
                assert(text@.subrange(i as int, i + needle@.len())[k as int] == text@[i + k]);
            }
            return false;
        }
        k = k + 1;
    }
    proof {
        assert(text@.subrange(i as int, i + needle@.len()) =~= needle@);
    }
    true
}

/// Tests whether `needle` stands anywhere in `text`.
pub fn contains(text: &str, needle: &str) -> (found: bool)
    ensures
        found == occurs_in(text@, needle@),
{
    let haystack = characters(text);
    let wanted = characters(needle);
    if wanted.len() > haystack.len() {
        return false;
    }
    let last: usize = haystack.len() - wanted.len();
    let mut i: usize = 0;
    while i <= last
        invariant
            i <= last + 1,
            last + wanted@.len() == haystack@.len(),
            haystack@ == text@,
            wanted@ == needle@,
            forall|k: int| 0 <= k < i ==> !occurs_at(text@, needle@, k),
        decreases last + 1 - i,
    {
        if stands_at(&haystack, &wanted, i) {
            return true;
        }
        if i == last {
            assert forall|k: int| !occurs_at(text@, needle@, k) by {
                if 0 <= k < i {
                } else if k == i {
                }
            }
            return false;
        }
        i = i + 1;
    }
    false
}

/// The rest of `text` behind `prefix`, where it starts with it.
pub fn strip_prefix<'a>(text: &'a str, prefix: &str) -> (rest: Option<&'a str>)
    ensures
        match rest {
            Some(rest) => prefix@.is_prefix_of(text@) && rest@ == text@.skip(
                prefix@.len() as int,
            ),
            None => !prefix@.is_prefix_of(text@),
        },
{
    let length: usize = text.unicode_len();
    let width: usize = prefix.unicode_len();
    if length < width {
        return None;
    }
    let head = text.substring_char(0, width);
    if !text_eq(head, prefix) {
        proof {
            if prefix@.is_prefix_of(text@) {
                assert(head@ =~= prefix@);
            }
        }
        return None;
    }
    let rest = text.substring_char(width, length);
    proof {
        assert(rest@ =~= text@.skip(width as int));
        assert(prefix@.is_prefix_of(text@)) by {
            assert(text@.subrange(0, width as int) == prefix@);
        }
    }
    Some(rest)
}

} // verus!
