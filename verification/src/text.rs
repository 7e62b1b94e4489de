//! Text helpers shared by every component: character access, decimal and
//! fixed-point rendering, decimal parsing, and marker search and rewrite.

use vstd::prelude::*;
use vstd::std_specs::iter::IteratorSpec;

verus! {

/// The characters of `s`, in order.
pub fn chars_of(s: &str) -> (chars: Vec<char>)
    ensures
        chars@ == s@,
{
    let mut chars: Vec<char> = Vec::new();
    for c in it: s.chars()
        invariant
            it.seq() == s@,
            chars@ == it.seq().take(it.index() as int),
    {
        chars.push(c);
    }
    chars
}

/// `String::push` of the standard library: appends one character.
#[verifier::external_body]
pub(crate) fn push_char(out: &mut String, c: char)
    ensures
        final(out)@ == old(out)@.push(c),
{
    out.push(c)
}

/// The string made of `chars`, in order.
pub fn string_of(chars: &Vec<char>) -> (s: String)
    ensures
        s@ == chars@,
{
    let mut s = String::new();
    let mut i: usize = 0;
    while i < chars.len()
        invariant
            i <= chars.len(),
            s@ == chars@.take(i as int),
        decreases chars.len() - i,
    {
        push_char(&mut s, chars[i]);
        assert(chars@.take(i as int + 1) == chars@.take(i as int).push(chars@[i as int]));
        i += 1;
    }
    assert(chars@.take(chars.len() as int) == chars@);
    s
}

/// Whether two string slices hold the same characters.
pub fn str_equal(a: &str, b: &str) -> (same: bool)
    ensures
        same == (a@ == b@),
{
    let x = chars_of(a);
    let y = chars_of(b);
    if x.len() != y.len() {
        return false;
    }
    let mut i: usize = 0;
    while i < x.len()
        invariant
            i <= x.len(),
            x.len() == y.len(),
            x@ == a@,
            y@ == b@,
            x@.take(i as int) == y@.take(i as int),
        decreases x.len() - i,
    {
        if x[i] != y[i] {
            assert(a@[i as int] != b@[i as int]);
            return false;
        }
        assert(x@.take(i as int + 1) == x@.take(i as int).push(x@[i as int]));
        assert(y@.take(i as int + 1) == y@.take(i as int).push(y@[i as int]));
        i += 1;
    }
    assert(x@.take(x.len() as int) == x@);
    assert(y@.take(y.len() as int) == y@);
    true
}

/// The character that writes the decimal digit `d`.
pub open spec fn digit_char(d: int) -> char {
    if d == 0 {
        '0'
    } else if d == 1 {
        '1'
    } else if d == 2 {
        '2'
    } else if d == 3 {
        '3'
    } else if d == 4 {
        '4'
    } else if d == 5 {
        '5'
    } else if d == 6 {
        '6'
    } else if d == 7 {
        '7'
    } else if d == 8 {
        '8'
    } else {
        '9'
    }
}

/// Whether `c` is one of `'0'` to `'9'`.
pub open spec fn is_digit(c: char) -> bool {
    '0' <= c <= '9'
}

/// The value of a decimal digit character.
pub open spec fn digit_value(c: char) -> int {
    c as int - '0' as int
}

/// The decimal numeral of `n`, without leading zeros.
pub open spec fn decimal(n: nat) -> Seq<char>
    decreases n,
{
    if n < 10 {
        seq![digit_char(n as int)]
    } else {
        decimal(n / 10).push(digit_char((n % 10) as int))
    }
}

/// The decimal numeral of `n`, with a leading `-` when `n` is negative.
pub open spec fn signed_decimal(n: int) -> Seq<char> {
    if n < 0 {
        seq!['-'] + decimal((-n) as nat)
    } else {
        decimal(n as nat)
    }
}

fn digit_of(d: u64) -> (c: char)
    requires
        d < 10,
    ensures
        c == digit_char(d as int),
        is_digit(c),
        digit_value(c) == d,
{
    if d == 0 {
        '0'
    } else if d == 1 {
        '1'
    } else if d == 2 {
        '2'
    } else if d == 3 {
        '3'
    } else if d == 4 {
        '4'
    } else if d == 5 {
        '5'
    } else if d == 6 {
        '6'
    } else if d == 7 {
        '7'
    } else if d == 8 {
        '8'
    } else {
        '9'
    }
}

/// Appends the decimal numeral of `n` to `out`.
pub fn push_decimal(out: &mut String, n: u64)
    ensures
        final(out)@ == old(out)@ + decimal(n as nat),
    decreases n,
{
    if n >= 10 {
        push_decimal(out, n / 10);
    }
    push_char(out, digit_of(n % 10));
    assert(final(out)@ == old(out)@ + decimal(n as nat)) by {
        if n >= 10 {
            assert(old(out)@ + decimal(n as nat) == (old(out)@ + decimal((n / 10) as nat)).push(
                digit_char((n % 10) as int),
            ));
        } else {
            assert(old(out)@ + decimal(n as nat) == old(out)@.push(digit_char(n as int)));
        }
    }
}

/// The decimal numeral of `n`.
pub fn render_u64(n: u64) -> (s: String)
    ensures
        s@ == decimal(n as nat),
{
    let mut s = String::new();
    push_decimal(&mut s, n);
    assert(Seq::<char>::empty() + decimal(n as nat) == decimal(n as nat));
    s
}

/// Appends the signed decimal numeral of `n` to `out`.
pub fn push_signed_decimal(out: &mut String, n: i64)
    ensures
        final(out)@ == old(out)@ + signed_decimal(n as int),
{
    if n < 0 {
        push_char(out, '-');
        let magnitude: u64 = ((-(n + 1)) as u64) + 1;
        push_decimal(out, magnitude);
        assert(final(out)@ == old(out)@ + signed_decimal(n as int)) by {
            assert(old(out)@.push('-') + decimal(magnitude as nat) == old(out)@ + (seq!['-']
                + decimal(magnitude as nat)));
        }
    } else {
        push_decimal(out, n as u64);
    }
}

/// The signed decimal numeral of `n`.
pub fn render_i64(n: i64) -> (s: String)
    ensures
        s@ == signed_decimal(n as int),
{
    let mut s = String::new();
    push_signed_decimal(&mut s, n);
    assert(Seq::<char>::empty() + signed_decimal(n as int) == signed_decimal(n as int));
    s
}

/// Two decimals: the numeral of `hundredths / 100`, a point, and two digits.
pub open spec fn fixed2(hundredths: nat) -> Seq<char> {
    decimal(hundredths / 100).push('.').push(digit_char(((hundredths / 10) % 10) as int)).push(
        digit_char((hundredths % 10) as int),
    )
}

/// Appends `hundredths` written with two decimals to `out`.
pub fn push_fixed2(out: &mut String, hundredths: u64)
    ensures
        final(out)@ == old(out)@ + fixed2(hundredths as nat),
{
    push_decimal(out, hundredths / 100);
    push_char(out, '.');
    push_char(out, digit_of((hundredths / 10) % 10));
    push_char(out, digit_of(hundredths % 10));
    assert(final(out)@ == old(out)@ + fixed2(hundredths as nat)) by {
        let whole = decimal((hundredths / 100) as nat);
        let tenths = digit_char(((hundredths / 10) % 10) as int);
        let last = digit_char((hundredths % 10) as int);
        assert((old(out)@ + whole).push('.').push(tenths).push(last) == old(out)@ + whole.push(
            '.',
        ).push(tenths).push(last));
    }
}

/// `"true"` or `"false"`.
pub open spec fn bool_text(b: bool) -> Seq<char> {
    if b {
        "true"@
    } else {
        "false"@
    }
}

/// Appends `true` or `false` to `out`.
pub fn push_bool(out: &mut String, b: bool)
    ensures
        final(out)@ == old(out)@ + bool_text(b),
{
    if b {
        out.append("true");
    } else {
        out.append("false");
    }
}

/// Whether `s` is a non-empty run of decimal digits.
pub open spec fn is_decimal(s: Seq<char>) -> bool {
    s.len() > 0 && forall|i: int| 0 <= i < s.len() ==> is_digit(#[trigger] s[i])
}

/// The number that a run of decimal digits writes.
pub open spec fn decimal_value(s: Seq<char>) -> nat
    decreases s.len(),
{
    if s.len() == 0 {
        0
    } else {
        (decimal_value(s.drop_last()) * 10 + digit_value(s.last())) as nat
    }
}

/// What `parse_u64` returns on `s`.
pub open spec fn parsed_u64(s: Seq<char>) -> Option<u64> {
    if is_decimal(s) && decimal_value(s) <= u64::MAX {
        Some(decimal_value(s) as u64)
    } else {
        None
    }
}

/// Whether `s` is a decimal numeral with an optional leading `-`.
pub open spec fn is_signed_decimal(s: Seq<char>) -> bool {
    if s.len() > 0 && s[0] == '-' {
        is_decimal(s.skip(1))
    } else {
        is_decimal(s)
    }
}

/// The number that a signed decimal numeral writes.
pub open spec fn signed_value(s: Seq<char>) -> int {
    if s.len() > 0 && s[0] == '-' {
        -(decimal_value(s.skip(1)) as int)
    } else {
        decimal_value(s) as int
    }
}

/// What `parse_i64` returns on `s`.
pub open spec fn parsed_i64(s: Seq<char>) -> Option<i64> {
    if is_signed_decimal(s) && i64::MIN <= signed_value(s) <= i64::MAX {
        Some(signed_value(s) as i64)
    } else {
        None
    }
}

/// A prefix of a run of digits writes no more than the whole run.
pub proof fn lemma_prefix_value(s: Seq<char>, k: int)
    requires
        0 <= k <= s.len(),
        forall|i: int| 0 <= i < s.len() ==> is_digit(#[trigger] s[i]),
    ensures
        decimal_value(s.take(k)) <= decimal_value(s),
    decreases s.len(),
{
    if k == s.len() {
        assert(s.take(k) == s);
    } else {
        let front = s.drop_last();
        assert(front.take(k) == s.take(k));
        lemma_prefix_value(front, k);
    }
}

fn digit_at(chars: &Vec<char>, i: usize) -> (d: Option<u64>)
    requires
        i < chars.len(),
    ensures
        d is Some == is_digit(chars@[i as int]),
        d is Some ==> d->Some_0 == digit_value(chars@[i as int]) && d->Some_0 < 10,
{
    let c = chars[i];
    if c >= '0' && c <= '9' {
        Some((c as u32 - '0' as u32) as u64)
    } else {
        None
    }
}

/// Reads the digits of `chars` from `start` to the end as one number.
fn parse_digits(chars: &Vec<char>, start: usize, limit: u64) -> (r: Option<u64>)
    requires
        start <= chars.len(),
    ensures
        r == (if is_decimal(chars@.skip(start as int)) && decimal_value(chars@.skip(start as int))
            <= limit {
            Some(decimal_value(chars@.skip(start as int)) as u64)
        } else {
            None
        }),
{
    let ghost digits = chars@.skip(start as int);
    if start == chars.len() {
        return None;
    }
    let mut acc: u64 = 0;
    let mut i: usize = start;
    while i < chars.len()
        invariant
            start <= i <= chars.len(),
            digits == chars@.skip(start as int),
            forall|j: int| 0 <= j < i - start ==> is_digit(#[trigger] digits[j]),
            acc == decimal_value(digits.take(i - start)),
            acc <= limit,
        decreases chars.len() - i,
    {
        let ghost so_far = digits.take(i - start);
        let ghost next = digits.take(i - start + 1);
        assert(next.drop_last() == so_far);
        assert(next.last() == chars@[i as int]);
        match digit_at(chars, i) {
            None => {
                assert(!is_digit(digits[i - start]));
                return None;
            },
            Some(d) => {
                if d > limit || acc > (limit - d) / 10 {
                    proof {
                        assert(decimal_value(next) > limit);
                        if is_decimal(digits) {
                            lemma_prefix_value(digits, i - start + 1);
                        }
                    }
                    return None;
                }
                acc = acc * 10 + d;
            },
        }
        i += 1;
    }
    assert(digits.take(i - start) == digits);
    Some(acc)
}

/// Reads a decimal numeral that fits in 64 unsigned bits.
pub fn parse_u64(s: &str) -> (r: Option<u64>)
    ensures
        r == parsed_u64(s@),
{
    let chars = chars_of(s);
    assert(chars@.skip(0) == chars@);
    parse_digits(&chars, 0, u64::MAX)
}

/// Reads a decimal numeral with an optional leading `-` that fits in 64
/// signed bits.
pub fn parse_i64(s: &str) -> (r: Option<i64>)
    ensures
        r == parsed_i64(s@),
{
    let chars = chars_of(s);
    if chars.len() > 0 && chars[0] == '-' {
        match parse_digits(&chars, 1, 9_223_372_036_854_775_808u64) {
            None => None,
            Some(magnitude) => {
                if magnitude == 9_223_372_036_854_775_808u64 {
                    Some(i64::MIN)
                } else {
                    Some(-(magnitude as i64))
                }
            },
        }
    } else {
        assert(chars@.skip(0) == chars@);
        match parse_digits(&chars, 0, 9_223_372_036_854_775_807u64) {
            None => None,
            Some(value) => Some(value as i64),
        }
    }
}

/// Every numeral that `decimal` writes is read back as the same number.
pub proof fn lemma_decimal_round_trip(n: nat)
    ensures
        is_decimal(decimal(n)),
        decimal_value(decimal(n)) == n,
    decreases n,
{
    if n < 10 {
        let one = seq![digit_char(n as int)];
        assert(one.drop_last() == Seq::<char>::empty());
        assert(decimal_value(one.drop_last()) == 0);
        assert(one.last() == digit_char(n as int));
    } else {
        lemma_decimal_round_trip(n / 10);
        let front = decimal(n / 10);
        let all = front.push(digit_char((n % 10) as int));
        assert(all.drop_last() == front);
        assert(all.last() == digit_char((n % 10) as int));
        assert forall|i: int| 0 <= i < all.len() implies is_digit(#[trigger] all[i]) by {
            if i < front.len() {
                assert(all[i] == front[i]);
            }
        }
    }
}

/// `parse_u64` reads back what `render_u64` wrote.
pub proof fn lemma_parse_render_u64(n: u64)
    ensures
        parsed_u64(decimal(n as nat)) == Some(n),
{
    lemma_decimal_round_trip(n as nat);
}

/// `parse_i64` reads back what `render_i64` wrote.
pub proof fn lemma_parse_render_i64(n: i64)
    ensures
        parsed_i64(signed_decimal(n as int)) == Some(n),
{
    if n < 0 {
        let digits = decimal((-n) as nat);
        lemma_decimal_round_trip((-n) as nat);
        let s = seq!['-'] + digits;
        assert(s[0] == '-');
        assert(s.skip(1) == digits);
    } else {
        lemma_decimal_round_trip(n as nat);
        let s = decimal(n as nat);
        assert(is_digit(s[0]));
    }
}

/// Whether `pattern` stands in `text` at position `at`.
pub open spec fn occurs_at(text: Seq<char>, pattern: Seq<char>, at: int) -> bool {
    0 <= at && at + pattern.len() <= text.len() && text.subrange(at, at + pattern.len()) == pattern
}

/// How often `pattern` occurs in `text` from `from` on, scanning from the
/// left and resuming behind each occurrence, so that occurrences never
/// overlap. An empty pattern does not occur.
pub open spec fn occurrences_from(text: Seq<char>, pattern: Seq<char>, from: int) -> nat
    decreases text.len() - from,
{
    if pattern.len() == 0 || from < 0 || from + pattern.len() > text.len() {
        0
    } else if occurs_at(text, pattern, from) {
        1 + occurrences_from(text, pattern, from + pattern.len())
    } else {
        occurrences_from(text, pattern, from + 1)
    }
}

/// How often `pattern` occurs in `text`.
pub open spec fn occurrences(text: Seq<char>, pattern: Seq<char>) -> nat {
    occurrences_from(text, pattern, 0)
}

/// `text` from `from` on, with each occurrence that `occurrences_from`
/// counts replaced by `with`.
pub open spec fn rewritten_from(
    text: Seq<char>,
    pattern: Seq<char>,
    with: Seq<char>,
    from: int,
) -> Seq<char>
    decreases text.len() - from,
{
    if from < 0 || from >= text.len() {
        Seq::empty()
    } else if pattern.len() == 0 || from + pattern.len() > text.len() {
        text.subrange(from, text.len() as int)
    } else if occurs_at(text, pattern, from) {
        with + rewritten_from(text, pattern, with, from + pattern.len())
    } else {
        seq![text[from]] + rewritten_from(text, pattern, with, from + 1)
    }
}

/// `text` with every occurrence of `pattern` replaced by `with`.
pub open spec fn rewritten(text: Seq<char>, pattern: Seq<char>, with: Seq<char>) -> Seq<char> {
    rewritten_from(text, pattern, with, 0)
}

/// The occurrences counted from `from` on fit, side by side, into what is
/// left of the text.
pub proof fn lemma_occurrences_fit(text: Seq<char>, pattern: Seq<char>, from: int)
    requires
        0 <= from <= text.len(),
    ensures
        occurrences_from(text, pattern, from) * pattern.len() <= text.len() - from,
    decreases text.len() - from,
{
    if pattern.len() == 0 || from + pattern.len() > text.len() {
        assert(occurrences_from(text, pattern, from) == 0);
        assert(0 * pattern.len() == 0);
    } else if occurs_at(text, pattern, from) {
        lemma_occurrences_fit(text, pattern, from + pattern.len());
        let rest = occurrences_from(text, pattern, from + pattern.len());
        assert(occurrences_from(text, pattern, from) == 1 + rest);
        assert((1 + rest) * pattern.len() == pattern.len() + rest * pattern.len())
            by (nonlinear_arith);
    } else {
        lemma_occurrences_fit(text, pattern, from + 1);
    }
}

/// A text in which `pattern` does not occur is rewritten to itself.
pub proof fn lemma_rewrite_without_occurrence(
    text: Seq<char>,
    pattern: Seq<char>,
    with: Seq<char>,
    from: int,
)
    requires
        0 <= from <= text.len(),
        occurrences_from(text, pattern, from) == 0,
    ensures
        rewritten_from(text, pattern, with, from) == text.subrange(from, text.len() as int),
    decreases text.len() - from,
{
    if from >= text.len() {
        assert(text.subrange(from, text.len() as int) == Seq::<char>::empty());
    } else if pattern.len() == 0 || from + pattern.len() > text.len() {
    } else {
        lemma_rewrite_without_occurrence(text, pattern, with, from + 1);
        assert(seq![text[from]] + text.subrange(from + 1, text.len() as int) == text.subrange(
            from,
            text.len() as int,
        ));
    }
}

/// Whether `pattern` stands in `text` at `at`.
pub fn matches_at(text: &Vec<char>, pattern: &Vec<char>, at: usize) -> (found: bool)
    ensures
        found == occurs_at(text@, pattern@, at as int),
{
    if pattern.len() > text.len() || at > text.len() - pattern.len() {
        return false;
    }
    let ghost window = text@.subrange(at as int, at + pattern.len());
    let mut k: usize = 0;
    while k < pattern.len()
        invariant
            k <= pattern.len(),
            at + pattern.len() <= text.len(),
            window == text@.subrange(at as int, at + pattern.len()),
            window.take(k as int) == pattern@.take(k as int),
        decreases pattern.len() - k,
    {
        if text[at + k] != pattern[k] {
            assert(window[k as int] != pattern@[k as int]);
            return false;
        }
        assert(window.take(k as int + 1) == window.take(k as int).push(window[k as int]));
        assert(pattern@.take(k as int + 1) == pattern@.take(k as int).push(pattern@[k as int]));
        k += 1;
    }
    assert(window.take(pattern.len() as int) == window);
    assert(pattern@.take(pattern.len() as int) == pattern@);
    true
}

/// Replaces every occurrence of `pattern` in `text` by `with`, and counts
/// the occurrences.
pub fn rewrite(text: &Vec<char>, pattern: &Vec<char>, with: &Vec<char>) -> (r: (Vec<char>, usize))
    ensures
        r.0@ == rewritten(text@, pattern@, with@),
        r.1 == occurrences(text@, pattern@),
{
    let mut out: Vec<char> = Vec::new();
    let mut count: usize = 0;
    let mut i: usize = 0;
    while i < text.len()
        invariant
            i <= text.len(),
            count <= i,
            rewritten(text@, pattern@, with@) == out@ + rewritten_from(
                text@,
                pattern@,
                with@,
                i as int,
            ),
            occurrences(text@, pattern@) == count + occurrences_from(text@, pattern@, i as int),
        decreases text.len() - i,
    {
        let ghost rest = rewritten_from(text@, pattern@, with@, i as int);
        if pattern.len() > 0 && matches_at(text, pattern, i) {
            let mut k: usize = 0;
            while k < with.len()
                invariant
                    k <= with.len(),
                    rewritten(text@, pattern@, with@) == out@ + with@.skip(k as int)
                        + rewritten_from(text@, pattern@, with@, i + pattern.len()),
                decreases with.len() - k,
            {
                let ghost tail = rewritten_from(text@, pattern@, with@, i + pattern.len());
                assert(with@.skip(k as int) == seq![with@[k as int]] + with@.skip(k as int + 1));
                assert(out@ + (seq![with@[k as int]] + with@.skip(k as int + 1)) + tail == out@.push(
                    with@[k as int],
                ) + with@.skip(k as int + 1) + tail);
                out.push(with[k]);
                k += 1;
            }
            assert(with@.skip(with.len() as int) == Seq::<char>::empty());
            assert(out@ + Seq::<char>::empty() == out@);
            count += 1;
            i += pattern.len();
        } else {
            proof {
                if pattern.len() == 0 || i + pattern.len() > text.len() {
                    assert(text@.subrange(i as int, text.len() as int) == seq![text@[i as int]]
                        + text@.subrange(i + 1, text.len() as int));
                    if i + 1 < text.len() {
                        assert(rewritten_from(text@, pattern@, with@, i + 1) == text@.subrange(
                            i + 1,
                            text.len() as int,
                        ));
                    } else {
                        assert(text@.subrange(i + 1, text.len() as int) == Seq::<char>::empty());
                    }
                }
                assert(rest == seq![text@[i as int]] + rewritten_from(
                    text@,
                    pattern@,
                    with@,
                    i + 1,
                ));
                assert(out@ + (seq![text@[i as int]] + rewritten_from(
                    text@,
                    pattern@,
                    with@,
                    i + 1,
                )) == out@.push(text@[i as int]) + rewritten_from(text@, pattern@, with@, i + 1));
            }
            out.push(text[i]);
            i += 1;
        }
    }
    assert(out@ + Seq::<char>::empty() == out@);
    (out, count)
}

/// The texts that a sequence of strings holds.
pub open spec fn texts(strings: Seq<String>) -> Seq<Seq<char>> {
    strings.map_values(|s: String| s@)
}

/// A copy of a list of strings.
pub fn clone_strings(strings: &Vec<String>) -> (copy: Vec<String>)
    ensures
        copy@ == strings@,
{
    let mut copy: Vec<String> = Vec::new();
    let mut i: usize = 0;
    while i < strings.len()
        invariant
            i <= strings.len(),
            copy@ == strings@.take(i as int),
        decreases strings.len() - i,
    {
        copy.push(strings[i].clone());
        assert(strings@.take(i as int + 1) == strings@.take(i as int).push(strings@[i as int]));
        i += 1;
    }
    assert(strings@.take(strings.len() as int) == strings@);
    copy
}

} // verus!
