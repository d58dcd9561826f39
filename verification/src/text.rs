//! Character-level helpers for building and scanning strings.
//!
//! Every contract here speaks of a string through its view, the sequence of
//! its characters.

use vstd::prelude::*;

verus! {

/// `String::push` appends one character to the string and changes nothing
/// else of it.
pub assume_specification[ String::push ](s: &mut String, c: char)
    ensures
        final(s)@ == old(s)@.push(c),
;

/// The views of the strings of `strings`, in order.
pub open spec fn views(strings: Seq<String>) -> Seq<Seq<char>> {
    Seq::new(strings.len(), |i: int| strings[i]@)
}

/// Whether `pattern` stands in `text` at index `at`.
pub open spec fn occurs_at(text: Seq<char>, pattern: Seq<char>, at: int) -> bool {
    &&& 0 <= at
    &&& at + pattern.len() <= text.len()
    &&& text.subrange(at, at + pattern.len()) == pattern
}

/// Whether `pattern` stands somewhere in `text`.
pub open spec fn occurs(text: Seq<char>, pattern: Seq<char>) -> bool {
    exists|at: int| occurs_at(text, pattern, at)
}

/// `text` with every occurrence of `pattern` replaced by `with`, taking
/// the occurrences from the left and never overlapping. An empty pattern
/// occurs nowhere.
pub open spec fn replaced(text: Seq<char>, pattern: Seq<char>, with: Seq<char>) -> Seq<char>
    decreases text.len(),
{
    if pattern.len() == 0 || text.len() < pattern.len() {
        text
    } else if occurs_at(text, pattern, 0) {
        with + replaced(text.skip(pattern.len() as int), pattern, with)
    } else {
        seq![text[0]] + replaced(text.skip(1), pattern, with)
    }
}

/// The character of the decimal digit `d`.
pub open spec fn digit(d: nat) -> char
    recommends
        d < 10,
{
    if d == 0 {
        '0'
    } else if d == 1 {
        '1'
    } else if d == 2 {
        '2'
    } else if d == 3 {
        '3'
    } else if d == 4 {
        '4'
    } else if d == 5 {
        '5'
    } else if d == 6 {
        '6'
    } else if d == 7 {
        '7'
    } else if d == 8 {
        '8'
    } else {
        '9'
    }
}

/// The decimal numeral of `n`, without leading zeros.
pub open spec fn decimal(n: nat) -> Seq<char>
    decreases n,
{
    if n < 10 {
        seq![digit(n)]
    } else {
        decimal(n / 10).push(digit(n % 10))
    }
}

/// The decimal numeral of `n`, with a minus sign where it is negative.
pub open spec fn signed_decimal(n: int) -> Seq<char> {
    if n < 0 {
        seq!['-'] + decimal((-n) as nat)
    } else {
        decimal(n as nat)
    }
}

/// The value of the decimal digit `c`, if it is one.
pub open spec fn digit_value(c: char) -> Option<nat> {
    if c == '0' {
        Some(0)
    } else if c == '1' {
        Some(1)
    } else if c == '2' {
        Some(2)
    } else if c == '3' {
        Some(3)
    } else if c == '4' {
        Some(4)
    } else if c == '5' {
        Some(5)
    } else if c == '6' {
        Some(6)
    } else if c == '7' {
        Some(7)
    } else if c == '8' {
        Some(8)
    } else if c == '9' {
        Some(9)
    } else {
        None
    }
}

/// Whether every character of `text` is a decimal digit.
pub open spec fn all_digits(text: Seq<char>) -> bool {
    forall|i: int| 0 <= i < text.len() ==> (#[trigger] digit_value(text[i])) is Some
}

/// The number that the digits of `text` spell, read from the left.
pub open spec fn digits_value(text: Seq<char>) -> nat
    decreases text.len(),
{
    if text.len() == 0 {
        0
    } else {
        match digit_value(text.last()) {
            Some(d) => digits_value(text.drop_last()) * 10 + d,
            None => digits_value(text.drop_last()) * 10,
        }
    }
}

/// The digits of a count: `text` itself, or `text` without one leading
/// plus sign.
pub open spec fn count_digits(text: Seq<char>) -> Seq<char> {
    if text.len() > 0 && text[0] == '+' {
        text.skip(1)
    } else {
        text
    }
}

/// The count that `text` spells: one or more decimal digits after an
/// optional plus sign, of a value that fits `usize`.
pub open spec fn parsed_count(text: Seq<char>) -> Option<usize> {
    let digits = count_digits(text);
    if digits.len() > 0 && all_digits(digits) && digits_value(digits) <= usize::MAX {
        Some(digits_value(digits) as usize)
    } else {
        None
    }
}

/// Why a text spells no count.
#[derive(Clone, Copy, Debug, PartialEq, Eq, Structural)]
pub enum CountFault {
    /// The text is empty.
    Empty,
    /// The text holds a character that is no digit where a digit must
    /// stand; a sign that nothing follows is such a character.
    InvalidDigit,
    /// The digits spell a number that does not fit `usize`.
    TooLarge,
}

/// Whether the first `k` characters of `digits` are digits that spell a
/// number that does not fit `usize`.
pub open spec fn too_large_at(digits: Seq<char>, k: int) -> bool {
    &&& 0 <= k <= digits.len()
    &&& all_digits(digits.take(k))
    &&& digits_value(digits.take(k)) > usize::MAX
}

/// Why `text` spells no count; `None` where it spells one. Read from the
/// left, the first thing in the way decides: digits that already spell too
/// large a number come before a character that is no digit further on.
pub open spec fn count_fault(text: Seq<char>) -> Option<CountFault> {
    let digits = count_digits(text);
    if text.len() == 0 {
        Some(CountFault::Empty)
    } else if digits.len() == 0 {
        Some(CountFault::InvalidDigit)
    } else if exists|k: int| too_large_at(digits, k) {
        Some(CountFault::TooLarge)
    } else if !all_digits(digits) {
        Some(CountFault::InvalidDigit)
    } else {
        None
    }
}

/// Why a text spells no count, in words.
pub open spec fn fault_words(fault: CountFault) -> Seq<char> {
    match fault {
        CountFault::Empty => "cannot parse integer from empty string"@,
        CountFault::InvalidDigit => "invalid digit found in string"@,
        CountFault::TooLarge => "number too large to fit in target type"@,
    }
}

/// The characters of `s`, in order.
pub fn chars_of(s: &str) -> (chars: Vec<char>)
    ensures
        chars@ == s@,
{
    let mut chars: Vec<char> = Vec::new();
    for c in it: s.chars()
        invariant
            chars@ == it.history(),
    {
        chars.push(c);
    }
    chars
}

/// The string of the characters `chars[from..to]`.
pub fn string_of(chars: &Vec<char>, from: usize, to: usize) -> (s: String)
    requires
        from <= to <= chars.len(),
    ensures
        s@ == chars@.subrange(from as int, to as int),
{
    let mut s = String::new();
    let mut i: usize = from;
    while i < to
        invariant
            from <= i <= to <= chars.len(),
            s@ == chars@.subrange(from as int, i as int),
        decreases to - i,
    {
        s.push(chars[i]);
        i += 1;
    }
    s
}

/// `a` followed by `b`.
pub fn join(a: &str, b: &str) -> (s: String)
    ensures
        s@ == a@ + b@,
{
    let mut s = String::from_str(a);
    s.append(b);
    s
}

/// `a`, `b` and `c`, one after the other.
pub fn join3(a: &str, b: &str, c: &str) -> (s: String)
    ensures
        s@ == a@ + b@ + c@,
{
    let mut s = String::from_str(a);
    s.append(b);
    s.append(c);
    s
}

/// Whether the two strings hold the same characters.
pub fn same(a: &str, b: &str) -> (equal: bool)
    ensures
        equal == (a@ == b@),
{
    let x = chars_of(a);
    let y = chars_of(b);
    if x.len() != y.len() {
        return false;
    }
    let mut i: usize = 0;
    while i < x.len()
        invariant
            i <= x.len(),
            x.len() == y.len(),
            x@ == a@,
            y@ == b@,
            forall|j: int| 0 <= j < i ==> x@[j] == y@[j],
        decreases x.len() - i,
    {
        if x[i] != y[i] {
            return false;
        }
        i += 1;
    }
    assert(x@ =~= y@);
    true
}

/// Whether `pattern` stands in `text` at index `at`.
pub fn matches_at(text: &Vec<char>, pattern: &Vec<char>, at: usize) -> (found: bool)
    ensures
        found == occurs_at(text@, pattern@, at as int),
{
    if pattern.len() > text.len() || at > text.len() - pattern.len() {
        return false;
    }
    let mut j: usize = 0;
    while j < pattern.len()
        invariant
            j <= pattern.len(),
            at + pattern.len() <= text.len(),
            forall|k: int| 0 <= k < j ==> text@[at + k] == pattern@[k],
        decreases pattern.len() - j,
    {
        if text[at + j] != pattern[j] {
            assert(text@.subrange(at as int, at + pattern.len())[j as int] != pattern@[j as int]);
            return false;
        }
        j += 1;
    }
    assert(text@.subrange(at as int, at + pattern.len()) =~= pattern@);
    true
}

/// Whether `text` begins with `prefix`.
pub fn starts_with(text: &str, prefix: &str) -> (found: bool)
    ensures
        found == prefix@.is_prefix_of(text@),
{
    let t = chars_of(text);
    let p = chars_of(prefix);
    matches_at(&t, &p, 0)
}

/// Whether `pattern` stands somewhere in `text`.
pub fn contains(text: &str, pattern: &str) -> (found: bool)
    ensures
        found == occurs(text@, pattern@),
{
    let t = chars_of(text);
    let p = chars_of(pattern);
    let mut i: usize = 0;
    while i < t.len()
        invariant
            i <= t.len(),
            t@ == text@,
            p@ == pattern@,
            forall|k: int| 0 <= k < i ==> !occurs_at(t@, p@, k),
        decreases t.len() - i,
    {
        if matches_at(&t, &p, i) {
            return true;
        }
        i += 1;
    }
    matches_at(&t, &p, i)
}

/// `text` without its first `count` characters.
pub fn skip(text: &str, count: usize) -> (rest: String)
    ensures
        rest@ == if count <= text@.len() {
            text@.skip(count as int)
        } else {
            Seq::<char>::empty()
        },
{
    let t = chars_of(text);
    if count <= t.len() {
        string_of(&t, count, t.len())
    } else {
        String::new()
    }
}

proof fn lemma_replaced_step(text: Seq<char>, pattern: Seq<char>, with: Seq<char>, at: int)
    requires
        0 <= at <= text.len(),
        pattern.len() > 0,
    ensures
        text.len() - at < pattern.len() ==> replaced(text.skip(at), pattern, with) == text.skip(at),
        occurs_at(text, pattern, at) ==> replaced(text.skip(at), pattern, with) == with + replaced(
            text.skip(at + pattern.len()),
            pattern,
            with,
        ),
        text.len() - at >= pattern.len() && !occurs_at(text, pattern, at) ==> replaced(
            text.skip(at),
            pattern,
            with,
        ) == seq![text[at]] + replaced(text.skip(at + 1), pattern, with),
{
    let rest = text.skip(at);
    if text.len() - at >= pattern.len() {
        assert(rest.subrange(0, pattern.len() as int) =~= text.subrange(at, at + pattern.len()));
        assert(rest.skip(pattern.len() as int) =~= text.skip(at + pattern.len()));
        assert(rest.skip(1) =~= text.skip(at + 1));
    }
}

/// `text` with every occurrence of `pattern` replaced by `with`.
pub fn replace(text: &str, pattern: &str, with: &str) -> (result: String)
    ensures
        result@ == replaced(text@, pattern@, with@),
{
    let t = chars_of(text);
    let p = chars_of(pattern);
    if p.len() == 0 {
        return String::from_str(text);
    }
    let mut result = String::new();
    let mut i: usize = 0;
    assert(t@.skip(0) =~= t@);
    while i < t.len()
        invariant
            i <= t.len(),
            p.len() > 0,
            p@ == pattern@,
            result@ + replaced(t@.skip(i as int), p@, with@) == replaced(t@, p@, with@),
        decreases t.len() - i,
    {
        proof {
            lemma_replaced_step(t@, p@, with@, i as int);
        }
        if matches_at(&t, &p, i) {
            let ghost before = result@;
            result.append(with);
            i += p.len();
            assert(result@ + replaced(t@.skip(i as int), p@, with@) =~= before + (with@ + replaced(
                t@.skip(i as int),
                p@,
                with@,
            )));
        } else {
            let ghost before = result@;
            result.push(t[i]);
            i += 1;
            proof {
                if t.len() - (i - 1) < p.len() {
                    // a rest too short to hold the pattern stays as it is
                    lemma_replaced_step(t@, p@, with@, i as int);
                    assert(t@.skip(i - 1) =~= seq![t@[i - 1]] + t@.skip(i as int));
                }
                assert(result@ + replaced(t@.skip(i as int), p@, with@) =~= before + (seq![
                    t@[i - 1],
                ] + replaced(t@.skip(i as int), p@, with@)));
            }
        }
    }
    assert(t@.skip(t@.len() as int) =~= Seq::<char>::empty());
    assert(result@ + Seq::<char>::empty() =~= result@);
    result
}

/// The character of the decimal digit `d`.
pub fn digit_char(d: u8) -> (c: char)
    requires
        d < 10,
    ensures
        c == digit(d as nat),
{
    if d == 0 {
        '0'
    } else if d == 1 {
        '1'
    } else if d == 2 {
        '2'
    } else if d == 3 {
        '3'
    } else if d == 4 {
        '4'
    } else if d == 5 {
        '5'
    } else if d == 6 {
        '6'
    } else if d == 7 {
        '7'
    } else if d == 8 {
        '8'
    } else {
        '9'
    }
}

/// The decimal numeral of `n`.
pub fn decimal_string(n: u64) -> (s: String)
    ensures
        s@ == decimal(n as nat),
    decreases n,
{
    if n < 10 {
        let mut s = String::new();
        s.push(digit_char(n as u8));
        assert(s@ =~= seq![digit(n as nat)]);
        s
    } else {
        let mut s = decimal_string(n / 10);
        s.push(digit_char((n % 10) as u8));
        s
    }
}

/// The decimal numeral of `n`, with a minus sign where it is negative.
pub fn signed_decimal_string(n: i64) -> (s: String)
    ensures
        s@ == signed_decimal(n as int),
{
    if n < 0 {
        let magnitude: u64 = if n == i64::MIN {
            9223372036854775808u64
        } else {
            (-n) as u64
        };
        let digits = decimal_string(magnitude);
        proof {
            reveal_strlit("-");
            assert("-"@ =~= seq!['-']);
        }
        join("-", digits.as_str())
    } else {
        decimal_string(n as u64)
    }
}

/// The value of the decimal digit `c`, if it is one.
pub fn digit_of(c: char) -> (d: Option<u8>)
    ensures
        match d {
            Some(v) => digit_value(c) == Some(v as nat) && v < 10,
            None => digit_value(c) is None,
        },
{
    if c == '0' {
        Some(0)
    } else if c == '1' {
        Some(1)
    } else if c == '2' {
        Some(2)
    } else if c == '3' {
        Some(3)
    } else if c == '4' {
        Some(4)
    } else if c == '5' {
        Some(5)
    } else if c == '6' {
        Some(6)
    } else if c == '7' {
        Some(7)
    } else if c == '8' {
        Some(8)
    } else if c == '9' {
        Some(9)
    } else {
        None
    }
}

proof fn lemma_digits_value_grows(text: Seq<char>, shorter: int)
    requires
        0 <= shorter <= text.len(),
    ensures
        digits_value(text.take(shorter)) <= digits_value(text),
    decreases text.len() - shorter,
{
    if shorter == text.len() {
        assert(text.take(shorter) =~= text);
    } else {
        lemma_digits_value_grows(text, shorter + 1);
        let longer = text.take(shorter + 1);
        assert(longer.drop_last() =~= text.take(shorter));
        assert(digits_value(longer) >= digits_value(longer.drop_last()) * 10);
    }
}

/// Reads a count: one or more decimal digits after an optional plus sign.
/// Where `text` is not of that form or the number does not fit, the error
/// says which of the two, as `count_fault` names it.
pub fn read_count(text: &str) -> (result: Result<usize, CountFault>)
    ensures
        match result {
            Ok(count) => parsed_count(text@) == Some(count) && count_fault(text@) is None,
            Err(fault) => parsed_count(text@) is None && count_fault(text@) == Some(fault),
        },
{
    let t = chars_of(text);
    if t.len() == 0 {
        return Err(CountFault::Empty);
    }
    let start: usize = if t[0] == '+' {
        1
    } else {
        0
    };
    let ghost digits = count_digits(t@);
    assert(digits =~= t@.skip(start as int));
    if start == t.len() {
        return Err(CountFault::InvalidDigit);
    }
    let mut value: usize = 0;
    let mut i: usize = start;
    assert(digits.take(0) =~= Seq::<char>::empty());
    while i < t.len()
        invariant
            start <= i <= t.len(),
            start < t.len(),
            t@ == text@,
            digits == count_digits(text@),
            digits == t@.skip(start as int),
            all_digits(digits.take(i - start)),
            value == digits_value(digits.take(i - start)),
        decreases t.len() - i,
    {
        let ghost seen = digits.take(i - start);
        let ghost next = digits.take(i + 1 - start);
        proof {
            assert(next.drop_last() =~= seen);
            assert(next.last() == t@[i as int]);
        }
        match digit_of(t[i]) {
            None => {
                proof {
                    assert(digit_value(digits[i - start]) is None);
                    assert forall|k: int| !too_large_at(digits, k) by {
                        if 0 <= k <= digits.len() && all_digits(digits.take(k)) {
                            if k > i - start {
                                assert(digit_value(digits.take(k)[i - start]) is Some);
                            } else {
                                lemma_digits_value_grows(seen, k);
                                assert(seen.take(k) =~= digits.take(k));
                            }
                        }
                    }
                }
                return Err(CountFault::InvalidDigit);
            },
            Some(d) => {
                proof {
                    lemma_digits_value_grows(digits, i + 1 - start);
                    assert(digits_value(next) == value * 10 + d);
                    assert forall|k: int| 0 <= k < next.len() implies (#[trigger] digit_value(
                        next[k],
                    )) is Some by {
                        if k < seen.len() {
                            assert(next[k] == seen[k]);
                        }
                    }
                }
                if value > (usize::MAX - d as usize) / 10 {
                    assert(too_large_at(digits, i + 1 - start));
                    return Err(CountFault::TooLarge);
                }
                value = value * 10 + d as usize;
            },
        }
        i += 1;
    }
    proof {
        assert(digits.take(i - start) =~= digits);
        assert forall|k: int| !too_large_at(digits, k) by {
            if 0 <= k <= digits.len() {
                lemma_digits_value_grows(digits, k);
            }
        }
    }
    Ok(value)
}

/// Reads a count: one or more decimal digits after an optional plus sign.
/// `None` where `text` is not of that form or the number does not fit.
pub fn parse_count(text: &str) -> (count: Option<usize>)
    ensures
        count == parsed_count(text@),
{
    match read_count(text) {
        Ok(count) => Some(count),
        Err(fault) => None,
    }
}

/// Why a text spells no count, in words.
pub fn fault_text(fault: CountFault) -> (words: &'static str)
    ensures
        words@ == fault_words(fault),
{
    match fault {
        CountFault::Empty => "cannot parse integer from empty string",
        CountFault::InvalidDigit => "invalid digit found in string",
        CountFault::TooLarge => "number too large to fit in target type",
    }
}

} // verus!
