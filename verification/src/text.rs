//! Text handling: characters of a string, keywords without regard to ASCII
//! case, fields between separators, and decimal numbers read as millionths.

use vstd::prelude::*;
use crate::fixed::SCALE;

verus! {

/// The views of a sequence of strings.
pub open spec fn views(v: Seq<String>) -> Seq<Seq<char>> {
    Seq::new(v.len(), |i: int| v[i]@)
}

/// The text of an optional string.
pub open spec fn text_of(message: Option<String>) -> Option<Seq<char>> {
    match message {
        Some(text) => Some(text@),
        None => None,
    }
}

/// Whether `c` is one of the ten ASCII digits.
pub open spec fn is_digit_char(c: char) -> bool {
    '0' <= c <= '9'
}

/// The number that the digit `c` stands for.
pub open spec fn digit_value(c: char) -> int {
    c as int - 48
}

/// Whether every character of `s` is an ASCII digit.
pub open spec fn all_digits(s: Seq<char>) -> bool {
    forall|i: int| 0 <= i < s.len() ==> is_digit_char(#[trigger] s[i])
}

/// The number that a run of digits stands for, read in base ten.
pub open spec fn digits_value(s: Seq<char>) -> int
    decreases s.len(),
{
    if s.len() == 0 {
        0
    } else {
        digits_value(s.drop_last()) * 10 + digit_value(s.last())
    }
}

/// Ten to the power `n`.
pub open spec fn pow10(n: nat) -> int
    decreases n,
{
    if n == 0 {
        1
    } else {
        10 * pow10((n - 1) as nat)
    }
}

/// The millionths that the digits after a decimal point stand for; digits
/// beyond the sixth are dropped.
pub open spec fn fraction_value(frac: Seq<char>) -> int {
    if frac.len() >= 6 {
        digits_value(frac.take(6))
    } else {
        digits_value(frac) * pow10((6 - frac.len()) as nat)
    }
}

/// The position of the first `c` in `s`, or the length of `s` if there is none.
pub open spec fn first_index_of(s: Seq<char>, c: char) -> int
    decreases s.len(),
{
    if s.len() == 0 {
        0
    } else if s[0] == c {
        0
    } else {
        1 + first_index_of(s.drop_first(), c)
    }
}

/// `s` without one leading plus sign.
pub open spec fn without_plus(s: Seq<char>) -> Seq<char> {
    if s.len() > 0 && s[0] == '+' {
        s.drop_first()
    } else {
        s
    }
}

/// The digits of `s` before the decimal point.
pub open spec fn whole_digits(s: Seq<char>) -> Seq<char> {
    let body = without_plus(s);
    body.take(first_index_of(body, '.'))
}

/// The digits of `s` after the decimal point.
pub open spec fn fraction_digits(s: Seq<char>) -> Seq<char> {
    let body = without_plus(s);
    let dot = first_index_of(body, '.');
    if dot < body.len() {
        body.skip(dot + 1)
    } else {
        Seq::empty()
    }
}

/// Whether `s` is a decimal number: an optional plus sign, digits, and
/// optionally a point followed by digits, with at least one digit in all.
pub open spec fn is_decimal(s: Seq<char>) -> bool {
    &&& all_digits(whole_digits(s))
    &&& all_digits(fraction_digits(s))
    &&& whole_digits(s).len() + fraction_digits(s).len() >= 1
}

/// The value of the decimal number `s` in millionths, rounded down.
pub open spec fn decimal_value(s: Seq<char>) -> int {
    digits_value(whole_digits(s)) * (SCALE as int) + fraction_value(fraction_digits(s))
}

/// Whether `s` is an unsigned integer: an optional plus sign and at least
/// one digit.
pub open spec fn is_unsigned(s: Seq<char>) -> bool {
    without_plus(s).len() >= 1 && all_digits(without_plus(s))
}

/// The lower-case form of an ASCII capital; any other character stays.
pub open spec fn ascii_lower(c: char) -> char {
    if 'A' <= c <= 'Z' {
        ((c as u8) + 32) as u8 as char
    } else {
        c
    }
}

/// The upper-case form of an ASCII small letter; any other character stays.
pub open spec fn ascii_upper(c: char) -> char {
    if 'a' <= c <= 'z' {
        ((c as u8) - 32) as u8 as char
    } else {
        c
    }
}

/// `s` with every ASCII capital made lower-case.
pub open spec fn lowered(s: Seq<char>) -> Seq<char> {
    Seq::new(s.len(), |i: int| ascii_lower(s[i]))
}

/// The fields of `s` between occurrences of `sep`. A text without `sep` is
/// one field; an empty text is one empty field.
pub open spec fn fields(s: Seq<char>, sep: char) -> Seq<Seq<char>>
    decreases s.len(),
{
    if s.len() == 0 {
        seq![Seq::<char>::empty()]
    } else {
        let before = fields(s.drop_last(), sep);
        if s.last() == sep {
            before.push(Seq::<char>::empty())
        } else {
            before.drop_last().push(before.last().push(s.last()))
        }
    }
}

/// A run of digits stands for a number that is not negative, and one more
/// digit multiplies it by ten.
pub proof fn lemma_digits_value_bounds(s: Seq<char>)
    requires
        all_digits(s),
    ensures
        0 <= digits_value(s) < pow10(s.len()),
    decreases s.len(),
{
    if s.len() > 0 {
        assert(is_digit_char(s[s.len() - 1]));
        assert forall|i: int| 0 <= i < s.drop_last().len() implies is_digit_char(
            #[trigger] s.drop_last()[i],
        ) by {
            assert(s.drop_last()[i] == s[i]);
        }
        lemma_digits_value_bounds(s.drop_last());
    }
}

/// The characters of `s`, in order.
pub fn chars_of(s: &str) -> (v: Vec<char>)
    ensures
        v@ == s@,
{
    let mut v: Vec<char> = Vec::new();
    for c in it: s.chars()
        invariant
            v@ == it.seq().take(it.index()),
            it.seq() == s@,
    {
        v.push(c);
    }
    v
}

/// `String::push` of std: appends the one character `c` to the end of `s`.
#[verifier::external_body]
pub(crate) fn push_char(s: &mut String, c: char)
    ensures
        final(s)@ == old(s)@.push(c),
{
    s.push(c);
}

/// The string made of the characters `v[from..to]`.
pub fn string_of(v: &Vec<char>, from: usize, to: usize) -> (s: String)
    requires
        from <= to <= v.len(),
    ensures
        s@ == v@.subrange(from as int, to as int),
{
    let mut s = String::new();
    let mut i: usize = from;
    while i < to
        invariant
            from <= i <= to <= v.len(),
            s@ == v@.subrange(from as int, i as int),
        decreases to - i,
    {
        push_char(&mut s, v[i]);
        i += 1;
        assert(v@.subrange(from as int, i as int) == v@.subrange(from as int, i - 1).push(
            v@[i - 1],
        ));
    }
    s
}

/// Whether `c` is an ASCII digit.
pub fn is_digit(c: char) -> (r: bool)
    ensures
        r == is_digit_char(c),
{
    '0' <= c && c <= '9'
}

/// The lower-case form of `c`.
pub fn to_lower(c: char) -> (r: char)
    ensures
        r == ascii_lower(c),
{
    if 'A' <= c && c <= 'Z' {
        let b: u8 = c as u8;
        (b + 32) as char
    } else {
        c
    }
}

/// The upper-case form of `c`.
pub fn to_upper(c: char) -> (r: char)
    ensures
        r == ascii_upper(c),
{
    if 'a' <= c && c <= 'z' {
        let b: u8 = c as u8;
        (b - 32) as char
    } else {
        c
    }
}

/// Whether `s`, with its ASCII capitals made lower-case, is `keyword`.
pub fn is_keyword(s: &str, keyword: &str) -> (r: bool)
    ensures
        r == (lowered(s@) == keyword@),
{
    let a = chars_of(s);
    let b = chars_of(keyword);
    if a.len() != b.len() {
        assert(lowered(s@).len() == s@.len());
        return false;
    }
    let mut i: usize = 0;
    while i < a.len()
        invariant
            a@ == s@,
            b@ == keyword@,
            a.len() == b.len(),
            i <= a.len(),
            forall|j: int| 0 <= j < i ==> ascii_lower(a@[j]) == b@[j],
        decreases a.len() - i,
    {
        if to_lower(a[i]) != b[i] {
            assert(lowered(s@)[i as int] != keyword@[i as int]);
            return false;
        }
        i += 1;
    }
    assert(lowered(s@) =~= keyword@);
    true
}

/// The fields of `s` between occurrences of `sep`, in order.
pub fn split(s: &str, sep: char) -> (parts: Vec<String>)
    ensures
        views(parts@) == fields(s@, sep),
        parts.len() >= 1,
{
    let v = chars_of(s);
    let mut parts: Vec<String> = Vec::new();
    let mut start: usize = 0;
    let mut i: usize = 0;
    proof {
        assert(v@.take(0) =~= Seq::<char>::empty());
        assert(views(parts@).push(v@.subrange(0, 0)) =~= seq![Seq::<char>::empty()]);
    }
    while i < v.len()
        invariant
            v@ == s@,
            start <= i <= v.len(),
            fields(v@.take(i as int), sep) == views(parts@).push(
                v@.subrange(start as int, i as int),
            ),
        decreases v.len() - i,
    {
        let ghost before = fields(v@.take(i as int), sep);
        proof {
            assert(v@.take(i + 1).drop_last() =~= v@.take(i as int));
            assert(v@.take(i + 1).last() == v@[i as int]);
        }
        if v[i] == sep {
            let piece = string_of(&v, start, i);
            let ghost old_parts = parts@;
            parts.push(piece);
            start = i + 1;
            proof {
                assert(views(parts@) =~= views(old_parts).push(piece@));
                assert(v@.subrange(start as int, i + 1) =~= Seq::<char>::empty());
            }
        } else {
            proof {
                assert(before.drop_last() =~= views(parts@));
                assert(before.last().push(v@[i as int]) =~= v@.subrange(start as int, i + 1));
            }
        }
        i += 1;
    }
    let piece = string_of(&v, start, i);
    let ghost old_parts = parts@;
    parts.push(piece);
    proof {
        assert(v@.take(i as int) =~= v@);
        assert(views(parts@) =~= views(old_parts).push(piece@));
    }
    parts
}

/// The number that the digits `v[from..to]` stand for, when they are all
/// digits and the number fits in 64 bits.
pub fn digits_to_u64(v: &Vec<char>, from: usize, to: usize) -> (r: Option<u64>)
    requires
        from <= to <= v.len(),
    ensures
        r is Some <==> all_digits(v@.subrange(from as int, to as int)) && digits_value(
            v@.subrange(from as int, to as int),
        ) <= u64::MAX,
        r matches Some(n) ==> n as int == digits_value(v@.subrange(from as int, to as int)),
{
    let mut acc: u64 = 0;
    let mut i: usize = from;
    proof {
        assert(v@.subrange(from as int, from as int) =~= Seq::<char>::empty());
    }
    while i < to
        invariant
            from <= i <= to <= v.len(),
            all_digits(v@.subrange(from as int, i as int)),
            acc as int == digits_value(v@.subrange(from as int, i as int)),
        decreases to - i,
    {
        let ghost done = v@.subrange(from as int, i as int);
        let ghost all = v@.subrange(from as int, to as int);
        let ghost next = v@.subrange(from as int, i + 1);
        proof {
            assert(next.drop_last() =~= done);
            assert(next.last() == v@[i as int]);
            assert(all[i - from] == v@[i as int]);
        }
        let c = v[i];
        if !is_digit(c) {
            assert(!all_digits(all));
            return None;
        }
        let d: u64 = (c as u8 - 48) as u64;
        proof {
            assert forall|j: int| 0 <= j < next.len() implies is_digit_char(#[trigger] next[j]) by {
                if j < done.len() {
                    assert(next[j] == done[j]);
                }
            }
            assert(digits_value(next) == acc * 10 + d);
        }
        if acc > (u64::MAX - d) / 10 {
            proof {
                assert(digits_value(next) > u64::MAX);
                if all_digits(all) {
                    lemma_digits_value_prefix(all, i + 1 - from);
                    assert(all.take(i + 1 - from) =~= next);
                }
            }
            return None;
        }
        acc = acc * 10 + d;
        i += 1;
    }
    Some(acc)
}

/// The number that a prefix of a run of digits stands for is no more than
/// the number of the whole run.
pub proof fn lemma_digits_value_prefix(s: Seq<char>, n: int)
    requires
        all_digits(s),
        0 <= n <= s.len(),
    ensures
        0 <= digits_value(s.take(n)) <= digits_value(s),
    decreases s.len() - n,
{
    assert forall|i: int| 0 <= i < s.take(n).len() implies is_digit_char(#[trigger] s.take(n)[i]) by {
        assert(s.take(n)[i] == s[i]);
    }
    lemma_digits_value_bounds(s.take(n));
    if n < s.len() {
        lemma_digits_value_prefix(s, n + 1);
        assert(s.take(n + 1).drop_last() =~= s.take(n));
        assert(is_digit_char(s[n]));
        assert(s.take(n + 1).last() == s[n]);
    } else {
        assert(s.take(n) =~= s);
    }
}

/// The unsigned integer that `s` spells, if it spells one that fits in 64
/// bits.
pub fn parse_u64(s: &str) -> (r: Option<u64>)
    ensures
        r is Some <==> is_unsigned(s@) && digits_value(without_plus(s@)) <= u64::MAX,
        r matches Some(n) ==> n as int == digits_value(without_plus(s@)),
{
    let v = chars_of(s);
    let from: usize = if v.len() > 0 && v[0] == '+' {
        1
    } else {
        0
    };
    proof {
        assert(v@.subrange(from as int, v.len() as int) =~= without_plus(s@));
    }
    if from == v.len() {
        return None;
    }
    digits_to_u64(&v, from, v.len())
}

/// The position of the first `c` at or after `from` in `v`, or the length of
/// `v` if there is none.
pub fn find_char(v: &Vec<char>, from: usize, c: char) -> (r: usize)
    requires
        from <= v.len(),
    ensures
        from <= r <= v.len(),
        r as int == from + first_index_of(v@.skip(from as int), c),
        forall|j: int| from <= j < r ==> v@[j] != c,
        r < v.len() ==> v@[r as int] == c,
{
    let mut i: usize = from;
    proof {
        assert(v@.skip(from as int).take(0) =~= Seq::<char>::empty());
    }
    while i < v.len() && v[i] != c
        invariant
            from <= i <= v.len(),
            forall|j: int| from <= j < i ==> v@[j] != c,
        decreases v.len() - i,
    {
        i += 1;
    }
    proof {
        lemma_first_index_of(v@.skip(from as int), c, i - from);
    }
    i
}

/// The first occurrence of `c` in `s` is at `n` when no earlier character is
/// `c` and either `s` ends at `n` or `s[n]` is `c`.
pub proof fn lemma_first_index_of(s: Seq<char>, c: char, n: int)
    requires
        0 <= n <= s.len(),
        forall|j: int| 0 <= j < n ==> s[j] != c,
        n < s.len() ==> s[n] == c,
    ensures
        first_index_of(s, c) == n,
    decreases n,
{
    if n > 0 {
        assert(s[0] != c);
        assert forall|j: int| 0 <= j < n - 1 implies s.drop_first()[j] != c by {
            assert(s.drop_first()[j] == s[j + 1]);
        }
        lemma_first_index_of(s.drop_first(), c, n - 1);
    }
}

/// `head` followed by `missing` zeros.
pub fn append_zeros(head: u64, missing: usize) -> (r: u64)
    requires
        missing <= 6,
        head < pow10((6 - missing) as nat),
    ensures
        r as int == head * pow10(missing as nat),
        r < SCALE,
{
    let mut r: u64 = head;
    let mut k: usize = 0;
    proof {
        lemma_pow10_values();
    }
    while k < missing
        invariant
            k <= missing <= 6,
            r as int == head * pow10(k as nat),
            r < pow10((6 - missing + k) as nat),
        decreases missing - k,
    {
        proof {
            lemma_pow10_values();
            assert(head * pow10((k + 1) as nat) == (head * pow10(k as nat)) * 10)
                by (nonlinear_arith)
                requires
                    pow10((k + 1) as nat) == 10 * pow10(k as nat),
            ;
        }
        r = r * 10;
        k += 1;
    }
    proof {
        lemma_pow10_values();
    }
    r
}

/// The millionths that the digits `v[from..]` after a decimal point stand
/// for, when they are all digits.
pub fn parse_fraction(v: &Vec<char>, from: usize) -> (r: Option<u64>)
    requires
        from <= v.len(),
    ensures
        r is Some <==> all_digits(v@.skip(from as int)),
        r matches Some(n) ==> n as int == fraction_value(v@.skip(from as int)) && n < SCALE,
{
    let ghost frac = v@.skip(from as int);
    let to: usize = if v.len() - from > 6 {
        from + 6
    } else {
        v.len()
    };
    let ghost taken = frac.take(to - from);
    proof {
        assert(v@.subrange(from as int, to as int) =~= taken);
    }
    let mut i: usize = to;
    while i < v.len()
        invariant
            from <= to <= i <= v.len(),
            frac == v@.skip(from as int),
            forall|j: int| to <= j < i ==> is_digit_char(v@[j]),
        decreases v.len() - i,
    {
        if !is_digit(v[i]) {
            assert(frac[i - from] == v@[i as int]);
            return None;
        }
        i += 1;
    }
    proof {
        if all_digits(frac) {
            assert forall|j: int| 0 <= j < taken.len() implies is_digit_char(#[trigger] taken[j]) by {
                assert(taken[j] == frac[j]);
            }
            lemma_digits_value_bounds(taken);
            lemma_pow10_values();
        }
    }
    let head = match digits_to_u64(v, from, to) {
        Some(h) => h,
        None => {
            return None;
        },
    };
    proof {
        assert forall|j: int| 0 <= j < frac.len() implies is_digit_char(#[trigger] frac[j]) by {
            if j < taken.len() {
                assert(taken[j] == frac[j]);
            } else {
                assert(frac[j] == v@[from + j]);
            }
        }
        lemma_digits_value_bounds(taken);
        lemma_pow10_values();
        if frac.len() < 6 {
            assert(taken =~= frac);
        }
    }
    let missing: usize = 6 - (to - from);
    let r = append_zeros(head, missing);
    proof {
        lemma_pow10_values();
    }
    Some(r)
}

/// The decimal number that `s` spells, in millionths and rounded down, if
/// it spells one that fits in 64 bits.
pub fn parse_decimal(s: &str) -> (r: Option<u64>)
    ensures
        r is Some <==> is_decimal(s@) && decimal_value(s@) <= u64::MAX,
        r matches Some(n) ==> n as int == decimal_value(s@),
{
    let v = chars_of(s);
    let from: usize = if v.len() > 0 && v[0] == '+' {
        1
    } else {
        0
    };
    let dot = find_char(&v, from, '.');
    proof {
        assert(v@.skip(from as int) =~= without_plus(s@));
        assert(v@.subrange(from as int, dot as int) =~= whole_digits(s@));
    }
    let frac_from: usize = if dot < v.len() {
        dot + 1
    } else {
        dot
    };
    proof {
        assert(v@.skip(frac_from as int) =~= fraction_digits(s@));
    }
    if (dot - from) + (v.len() - frac_from) == 0 {
        return None;
    }
    let fraction = match parse_fraction(&v, frac_from) {
        Some(f) => f,
        None => {
            return None;
        },
    };
    let whole = match digits_to_u64(&v, from, dot) {
        Some(w) => w,
        None => {
            proof {
                if all_digits(whole_digits(s@)) {
                    assert(digits_value(whole_digits(s@)) * (SCALE as int) > u64::MAX)
                        by (nonlinear_arith)
                        requires
                            digits_value(whole_digits(s@)) > u64::MAX,
                            SCALE == 1_000_000,
                    ;
                }
            }
            return None;
        },
    };
    if whole > (u64::MAX - fraction) / SCALE {
        proof {
            assert(whole * (SCALE as int) + fraction > u64::MAX) by (nonlinear_arith)
                requires
                    whole > (u64::MAX - fraction) / (SCALE as int),
                    SCALE == 1_000_000,
                    0 <= fraction < 1_000_000,
            ;
        }
        return None;
    }
    proof {
        assert(whole * (SCALE as int) + fraction <= u64::MAX) by (nonlinear_arith)
            requires
                whole <= (u64::MAX - fraction) / (SCALE as int),
                SCALE == 1_000_000,
                0 <= fraction < 1_000_000,
        ;
    }
    Some(whole * SCALE + fraction)
}

/// The magnitude of the signed decimal number `s`: `s` without a leading
/// minus sign.
pub open spec fn unsigned_part(s: Seq<char>) -> Seq<char> {
    if s.len() > 0 && s[0] == '-' {
        s.drop_first()
    } else {
        s
    }
}

/// Whether `s` is a signed decimal number: a decimal number, or a minus sign
/// followed by a decimal number without a plus sign.
pub open spec fn is_signed_decimal(s: Seq<char>) -> bool {
    if s.len() > 0 && s[0] == '-' {
        is_decimal(s.drop_first()) && s.drop_first()[0] != '+'
    } else {
        is_decimal(s)
    }
}

/// The value of the signed decimal number `s` in millionths, its magnitude
/// rounded down.
pub open spec fn signed_decimal_value(s: Seq<char>) -> int {
    if s.len() > 0 && s[0] == '-' {
        -decimal_value(s.drop_first())
    } else {
        decimal_value(s)
    }
}

/// The signed decimal number that `s` spells, in millionths, if it spells
/// one whose magnitude fits in 63 bits.
pub fn parse_signed_decimal(s: &str) -> (r: Option<i64>)
    ensures
        r is Some <==> is_signed_decimal(s@) && decimal_value(unsigned_part(s@)) <= i64::MAX,
        r matches Some(n) ==> n as int == signed_decimal_value(s@),
{
    let n = s.unicode_len();
    if n > 0 && s.get_char(0) == '-' {
        let rest = s.substring_char(1, n);
        assert(rest@ =~= s@.drop_first());
        if rest.unicode_len() > 0 && rest.get_char(0) == '+' {
            return None;
        }
        match parse_decimal(rest) {
            Some(m) => if m <= i64::MAX as u64 {
                Some(-(m as i64))
            } else {
                None
            },
            None => {
                assert(!is_decimal(rest@) || decimal_value(rest@) > i64::MAX);
                None
            },
        }
    } else {
        match parse_decimal(s) {
            Some(m) => if m <= i64::MAX as u64 {
                Some(m as i64)
            } else {
                None
            },
            None => None,
        }
    }
}

/// Whether `a` comes before `b` in the order of a dictionary, character by
/// character, a shorter text before its extensions.
pub open spec fn lex_less(a: Seq<char>, b: Seq<char>) -> bool
    decreases a.len(),
{
    if b.len() == 0 {
        false
    } else if a.len() == 0 {
        true
    } else if a[0] != b[0] {
        a[0] < b[0]
    } else {
        lex_less(a.drop_first(), b.drop_first())
    }
}

/// No text comes before itself.
pub proof fn lemma_lex_irreflexive(a: Seq<char>)
    ensures
        !lex_less(a, a),
    decreases a.len(),
{
    if a.len() > 0 {
        lemma_lex_irreflexive(a.drop_first());
    }
}

/// Of two different texts exactly one comes before the other.
pub proof fn lemma_lex_total(a: Seq<char>, b: Seq<char>)
    ensures
        a != b ==> (lex_less(a, b) <==> !lex_less(b, a)),
        a == b ==> !lex_less(a, b) && !lex_less(b, a),
    decreases a.len(),
{
    if a == b {
        lemma_lex_irreflexive(a);
    } else if a.len() > 0 && b.len() > 0 {
        if a[0] == b[0] {
            assert(a.drop_first() != b.drop_first()) by {
                if a.drop_first() == b.drop_first() {
                    assert(a =~= seq![a[0]] + a.drop_first());
                    assert(b =~= seq![b[0]] + b.drop_first());
                }
            }
            lemma_lex_total(a.drop_first(), b.drop_first());
        }
    } else {
        assert(a.len() != b.len()) by {
            if a.len() == b.len() {
                assert(a =~= b);
            }
        }
    }
}

/// The order of the dictionary is transitive.
pub proof fn lemma_lex_transitive(a: Seq<char>, b: Seq<char>, c: Seq<char>)
    requires
        lex_less(a, b),
        lex_less(b, c),
    ensures
        lex_less(a, c),
    decreases a.len(),
{
    if a.len() > 0 && b.len() > 0 && c.len() > 0 {
        if a[0] == b[0] && b[0] == c[0] {
            lemma_lex_transitive(a.drop_first(), b.drop_first(), c.drop_first());
        }
    }
}

/// Whether `a` comes before `b` in the order of a dictionary.
pub fn text_less(a: &str, b: &str) -> (r: bool)
    ensures
        r == lex_less(a@, b@),
{
    let x = chars_of(a);
    let y = chars_of(b);
    let mut i: usize = 0;
    proof {
        assert(x@.skip(0) =~= x@);
        assert(y@.skip(0) =~= y@);
    }
    while i < x.len() && i < y.len()
        invariant
            x@ == a@,
            y@ == b@,
            i <= x.len(),
            i <= y.len(),
            lex_less(a@, b@) == lex_less(x@.skip(i as int), y@.skip(i as int)),
        decreases x.len() - i,
    {
        proof {
            assert(x@.skip(i as int).drop_first() =~= x@.skip(i + 1));
            assert(y@.skip(i as int).drop_first() =~= y@.skip(i + 1));
            assert(x@.skip(i as int)[0] == x@[i as int]);
            assert(y@.skip(i as int)[0] == y@[i as int]);
        }
        if x[i] != y[i] {
            return x[i] < y[i];
        }
        i += 1;
    }
    i < y.len()
}

/// The first powers of ten.
pub proof fn lemma_pow10_values()
    ensures
        pow10(0) == 1,
        pow10(1) == 10,
        pow10(2) == 100,
        pow10(3) == 1_000,
        pow10(4) == 10_000,
        pow10(5) == 100_000,
        pow10(6) == 1_000_000,
{
    reveal_with_fuel(pow10, 7);
}

/// The truth value that `s` spells: `true` or `false`, in exactly that case.
pub fn parse_bool(s: &str) -> (r: Option<bool>)
    ensures
        r == if s@ == "true"@ {
            Some(true)
        } else if s@ == "false"@ {
            Some(false)
        } else {
            None::<bool>
        },
{
    let v = chars_of(s);
    let t = chars_of("true");
    let f = chars_of("false");
    if same_chars(&v, &t) {
        Some(true)
    } else if same_chars(&v, &f) {
        Some(false)
    } else {
        None
    }
}

/// Whether two runs of characters are the same.
pub fn same_chars(a: &Vec<char>, b: &Vec<char>) -> (r: bool)
    ensures
        r == (a@ == b@),
{
    if a.len() != b.len() {
        return false;
    }
    let mut i: usize = 0;
    while i < a.len()
        invariant
            a.len() == b.len(),
            i <= a.len(),
            forall|j: int| 0 <= j < i ==> a@[j] == b@[j],
        decreases a.len() - i,
    {
        if a[i] != b[i] {
            return false;
        }
        i += 1;
    }
    assert(a@ =~= b@);
    true
}

/// Whether the two texts are the same.
pub fn same_text(a: &str, b: &str) -> (r: bool)
    ensures
        r == (a@ == b@),
{
    let x = chars_of(a);
    let y = chars_of(b);
    same_chars(&x, &y)
}


/// The character of the digit `d`.
pub open spec fn digit_char(d: int) -> char
    recommends
        0 <= d <= 9,
{
    ((d + 48) as u8) as char
}

/// The decimal notation of a number, without leading zeros.
pub open spec fn decimal_text(n: nat) -> Seq<char>
    decreases n,
{
    if n < 10 {
        seq![digit_char(n as int)]
    } else {
        decimal_text(n / 10).push(digit_char((n % 10) as int))
    }
}

/// The decimal notation of a number is made of digits that stand for the
/// number: reading what was written gives the number back.
pub proof fn lemma_decimal_text_reads_back(n: nat)
    ensures
        all_digits(decimal_text(n)),
        decimal_text(n).len() >= 1,
        digits_value(decimal_text(n)) == n,
    decreases n,
{
    if n < 10 {
        let s = decimal_text(n);
        assert(s.drop_last() =~= Seq::<char>::empty());
        assert(digits_value(s.drop_last()) == 0);
        assert(s.last() == digit_char(n as int));
    } else {
        lemma_decimal_text_reads_back(n / 10);
        let s = decimal_text(n);
        let head = decimal_text(n / 10);
        assert(s.drop_last() =~= head);
        assert(s.last() == digit_char((n % 10) as int));
        assert forall|i: int| 0 <= i < s.len() implies is_digit_char(#[trigger] s[i]) by {
            if i < head.len() {
                assert(s[i] == head[i]);
            }
        }
    }
}

/// The last `width` digits of a number, with leading zeros.
pub open spec fn padded_text(n: nat, width: nat) -> Seq<char>
    decreases width,
{
    if width == 0 {
        Seq::empty()
    } else {
        padded_text(n / 10, (width - 1) as nat).push(digit_char((n % 10) as int))
    }
}

/// The decimal notation of a fixed-point value: its whole part, a point,
/// and its six digits after the point.
pub open spec fn fixed_text(n: nat) -> Seq<char> {
    decimal_text(n / 1_000_000) + seq!['.'] + padded_text(n % 1_000_000, 6)
}

/// The decimal notation of a signed fixed-point value: a minus sign before
/// the notation of the magnitude of a negative value.
pub open spec fn signed_fixed_text(n: int) -> Seq<char> {
    if n < 0 {
        seq!['-'] + fixed_text((-n) as nat)
    } else {
        fixed_text(n as nat)
    }
}

/// Appends the decimal notation of `n` to `s`.
pub fn push_number(s: &mut String, n: u64)
    ensures
        final(s)@ == old(s)@ + decimal_text(n as nat),
    decreases n,
{
    if n >= 10 {
        push_number(s, n / 10);
    }
    let d: u8 = (n % 10) as u8;
    push_char(s, (d + 48) as char);
    assert(s@ =~= old(s)@ + decimal_text(n as nat));
}

/// Appends the last `width` digits of `n` to `s`, with leading zeros.
pub fn push_padded(s: &mut String, n: u64, width: u8)
    ensures
        final(s)@ == old(s)@ + padded_text(n as nat, width as nat),
    decreases width,
{
    if width == 0 {
        assert(s@ =~= old(s)@ + padded_text(n as nat, 0));
        return ;
    }
    push_padded(s, n / 10, width - 1);
    let d: u8 = (n % 10) as u8;
    push_char(s, (d + 48) as char);
    proof {
        assert(s@ =~= old(s)@ + padded_text(n as nat, width as nat));
    }
}

/// Appends the decimal notation of the fixed-point value `n` to `s`.
pub fn push_fixed(s: &mut String, n: u64)
    ensures
        final(s)@ == old(s)@ + fixed_text(n as nat),
{
    push_number(s, n / 1_000_000);
    push_char(s, '.');
    push_padded(s, n % 1_000_000, 6);
    proof {
        assert(s@ =~= old(s)@ + fixed_text(n as nat));
    }
}

/// Appends the decimal notation of the signed fixed-point value `n` to `s`.
pub fn push_signed_fixed(s: &mut String, n: i64)
    ensures
        final(s)@ == old(s)@ + signed_fixed_text(n as int),
{
    if n < 0 {
        push_char(s, '-');
        let magnitude: u64 = if n == i64::MIN {
            0x8000_0000_0000_0000
        } else {
            (-n) as u64
        };
        push_fixed(s, magnitude);
        proof {
            assert(s@ =~= old(s)@ + signed_fixed_text(n as int));
        }
    } else {
        push_fixed(s, n as u64);
    }
}

/// The decimal notation of `n`.
pub fn number_text(n: u64) -> (r: String)
    ensures
        r@ == decimal_text(n as nat),
{
    let mut r = String::new();
    push_number(&mut r, n);
    assert(r@ =~= decimal_text(n as nat));
    r
}

/// The decimal notation of the fixed-point value `n`.
pub fn fixed_to_text(n: u64) -> (r: String)
    ensures
        r@ == fixed_text(n as nat),
{
    let mut r = String::new();
    push_fixed(&mut r, n);
    assert(r@ =~= fixed_text(n as nat));
    r
}


/// The decimal notation of a whole number with its sign.
pub open spec fn signed_text(n: int) -> Seq<char> {
    if n < 0 {
        seq!['-'] + decimal_text((-n) as nat)
    } else {
        decimal_text(n as nat)
    }
}

/// Appends the decimal notation of the whole number `n` to `s`.
pub fn push_signed_number(s: &mut String, n: i64)
    ensures
        final(s)@ == old(s)@ + signed_text(n as int),
{
    if n < 0 {
        push_char(s, '-');
        let magnitude: u64 = if n == i64::MIN {
            0x8000_0000_0000_0000
        } else {
            (-n) as u64
        };
        push_number(s, magnitude);
        proof {
            assert(s@ =~= old(s)@ + signed_text(n as int));
        }
    } else {
        push_number(s, n as u64);
    }
}

} // verus!
