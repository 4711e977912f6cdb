//! Character-level helpers shared by the parsers: ASCII case folding,
//! Unicode whitespace, trimming, splitting and decimal numbers.

use vstd::prelude::*;

verus! {

// ---------------------------------------------------------------------------
// Specifications
// ---------------------------------------------------------------------------

/// `c` is an ASCII lower-case letter.
pub open spec fn is_ascii_lower(c: char) -> bool {
    'a' as u32 <= c as u32 && c as u32 <= 'z' as u32
}

/// `c` is an ASCII upper-case letter.
pub open spec fn is_ascii_upper(c: char) -> bool {
    'A' as u32 <= c as u32 && c as u32 <= 'Z' as u32
}

/// ASCII upper-casing of one character (other characters are unchanged).
pub open spec fn ascii_upper(c: char) -> char {
    if is_ascii_lower(c) {
        ((c as u32) - 32) as char
    } else {
        c
    }
}

/// ASCII lower-casing of one character (other characters are unchanged).
pub open spec fn ascii_lower(c: char) -> char {
    if is_ascii_upper(c) {
        ((c as u32) + 32) as char
    } else {
        c
    }
}

/// ASCII upper-casing of a whole character sequence.
pub open spec fn ascii_upper_seq(s: Seq<char>) -> Seq<char> {
    s.map_values(|c: char| ascii_upper(c))
}

/// ASCII lower-casing of a whole character sequence.
pub open spec fn ascii_lower_seq(s: Seq<char>) -> Seq<char> {
    s.map_values(|c: char| ascii_lower(c))
}

/// Case-insensitive (ASCII) equality of two character sequences.
pub open spec fn eq_ignore_ascii_case(a: Seq<char>, b: Seq<char>) -> bool {
    ascii_lower_seq(a) == ascii_lower_seq(b)
}

/// The Unicode `White_Space` property, which is what `char::is_whitespace`
/// tests.
pub open spec fn is_whitespace(c: char) -> bool {
    let u = c as u32;
    ||| 0x09 <= u <= 0x0D
    ||| u == 0x20
    ||| u == 0x85
    ||| u == 0xA0
    ||| u == 0x1680
    ||| 0x2000 <= u <= 0x200A
    ||| u == 0x2028
    ||| u == 0x2029
    ||| u == 0x202F
    ||| u == 0x205F
    ||| u == 0x3000
}

/// Removes leading whitespace.
pub open spec fn trim_start(s: Seq<char>) -> Seq<char>
    decreases s.len(),
{
    if s.len() > 0 && is_whitespace(s[0]) {
        trim_start(s.drop_first())
    } else {
        s
    }
}

/// Removes trailing whitespace.
pub open spec fn trim_end(s: Seq<char>) -> Seq<char>
    decreases s.len(),
{
    if s.len() > 0 && is_whitespace(s.last()) {
        trim_end(s.drop_last())
    } else {
        s
    }
}

/// Removes leading and trailing whitespace (`str::trim`).
pub open spec fn trim(s: Seq<char>) -> Seq<char> {
    trim_end(trim_start(s))
}

/// The maximal runs of non-whitespace characters, in order
/// (`str::split_whitespace`).  A character that is not whitespace either
/// starts a new word or extends the word that the next character begins.
pub open spec fn words(s: Seq<char>) -> Seq<Seq<char>>
    decreases s.len(),
{
    if s.len() == 0 {
        seq![]
    } else {
        let rest = words(s.drop_first());
        if is_whitespace(s[0]) {
            rest
        } else if s.len() > 1 && !is_whitespace(s[1]) {
            rest.update(0, seq![s[0]] + rest[0])
        } else {
            seq![seq![s[0]]] + rest
        }
    }
}

/// The pieces between occurrences of `sep` (`str::split` with one
/// character): always at least one piece, possibly empty ones.
pub open spec fn split_on(s: Seq<char>, sep: char) -> Seq<Seq<char>>
    decreases s.len(),
{
    if s.len() == 0 {
        seq![Seq::<char>::empty()]
    } else {
        let rest = split_on(s.drop_first(), sep);
        if s[0] == sep {
            seq![Seq::<char>::empty()] + rest
        } else {
            rest.update(0, seq![s[0]] + rest[0])
        }
    }
}

/// `c` is an ASCII decimal digit.
pub open spec fn is_digit(c: char) -> bool {
    48 <= c as u32 && c as u32 <= 57
}

/// Every character is a decimal digit.
pub open spec fn all_digits(s: Seq<char>) -> bool {
    forall|i: int| 0 <= i < s.len() ==> is_digit(#[trigger] s[i])
}

/// The value of a string of decimal digits.
pub open spec fn digits_value(s: Seq<char>) -> nat
    decreases s.len(),
{
    if s.len() == 0 {
        0
    } else {
        digits_value(s.drop_last()) * 10 + ((s.last() as u32) - ('0' as u32)) as nat
    }
}

/// `u32::from_str`: an optional `+`, then at least one decimal digit, with a
/// value that fits in 32 bits.
pub open spec fn decimal_u32(s: Seq<char>) -> Option<u32> {
    let body = if s.len() > 0 && s[0] == '+' {
        s.drop_first()
    } else {
        s
    };
    if body.len() > 0 && all_digits(body) && digits_value(body) <= u32::MAX {
        Some(digits_value(body) as u32)
    } else {
        None
    }
}

// ---------------------------------------------------------------------------
// Lemmas
// ---------------------------------------------------------------------------

/// A digit string of length at most nine stays below one billion.
proof fn lemma_digits_value_bound(s: Seq<char>)
    requires
        all_digits(s),
    ensures
        digits_value(s) < pow10(s.len()),
    decreases s.len(),
{
    if s.len() > 0 {
        assert(all_digits(s.drop_last())) by {
            assert forall|i: int| 0 <= i < s.drop_last().len() implies is_digit(
                #[trigger] s.drop_last()[i],
            ) by {
                assert(s.drop_last()[i] == s[i]);
            }
        }
        lemma_digits_value_bound(s.drop_last());
        assert(is_digit(s[s.len() - 1]));
    }
}

/// Ten to the power `n`.
pub open spec fn pow10(n: nat) -> nat
    decreases n,
{
    if n == 0 {
        1
    } else {
        10 * pow10((n - 1) as nat)
    }
}

// ---------------------------------------------------------------------------
// Executable helpers
// ---------------------------------------------------------------------------

/// Collects the characters of a string slice.
pub fn str_chars(s: &str) -> (out: Vec<char>)
    ensures
        out@ == s@,
{
    let mut out: Vec<char> = Vec::new();
    for c in it: s.chars()
        invariant
            out@ == it.seq().take(it.index() as int),
    {
        out.push(c);
    }
    out
}

/// Appends one character to a string (`String::push`).
#[verifier::external_body]
pub(crate) fn push_char(s: &mut String, c: char)
    ensures
        final(s)@ == old(s)@.push(c),
{
    s.push(c);
}

/// Appends a string slice to a string.
pub(crate) fn push_str(s: &mut String, t: &str)
    ensures
        final(s)@ == old(s)@ + t@,
{
    s.append(t);
}

/// Builds a string from characters.
pub fn string_from_chars(v: &Vec<char>) -> (out: String)
    ensures
        out@ == v@,
{
    let mut out = String::new();
    let mut i: usize = 0;
    while i < v.len()
        invariant
            i <= v.len(),
            out@ == v@.take(i as int),
        decreases v.len() - i,
    {
        push_char(&mut out, v[i]);
        i = i + 1;
        assert(v@.take(i as int) == v@.take(i - 1).push(v@[i - 1]));
    }
    assert(v@.take(v.len() as int) == v@);
    out
}

/// A string literal's characters, for building messages.
pub fn string_from_str(s: &str) -> (out: String)
    ensures
        out@ == s@,
{
    s.to_owned()
}

/// Upper-cases one ASCII letter.
pub fn upper_char(c: char) -> (r: char)
    ensures
        r == ascii_upper(c),
{
    if c >= 'a' && c <= 'z' {
        (c as u8 - 32) as char
    } else {
        c
    }
}

/// Lower-cases one ASCII letter.
pub fn lower_char(c: char) -> (r: char)
    ensures
        r == ascii_lower(c),
{
    if c >= 'A' && c <= 'Z' {
        (c as u8 + 32) as char
    } else {
        c
    }
}

/// Tests `char::is_whitespace`.
pub fn is_whitespace_char(c: char) -> (r: bool)
    ensures
        r == is_whitespace(c),
{
    let u = c as u32;
    (0x09 <= u && u <= 0x0D) || u == 0x20 || u == 0x85 || u == 0xA0 || u == 0x1680 || (0x2000
        <= u && u <= 0x200A) || u == 0x2028 || u == 0x2029 || u == 0x202F || u == 0x205F || u
        == 0x3000
}

/// ASCII upper-casing of a character vector.
pub fn upper_chars(v: &Vec<char>) -> (out: Vec<char>)
    ensures
        out@ == ascii_upper_seq(v@),
{
    let mut out: Vec<char> = Vec::new();
    let mut i: usize = 0;
    while i < v.len()
        invariant
            i <= v.len(),
            out@ == ascii_upper_seq(v@.take(i as int)),
        decreases v.len() - i,
    {
        let u = upper_char(v[i]);
        out.push(u);
        i = i + 1;
        assert(ascii_upper_seq(v@.take(i as int)) == ascii_upper_seq(v@.take(i - 1)).push(u));
    }
    assert(v@.take(v.len() as int) == v@);
    out
}

/// ASCII lower-casing of a character vector.
pub fn lower_chars(v: &Vec<char>) -> (out: Vec<char>)
    ensures
        out@ == ascii_lower_seq(v@),
{
    let mut out: Vec<char> = Vec::new();
    let mut i: usize = 0;
    while i < v.len()
        invariant
            i <= v.len(),
            out@ == ascii_lower_seq(v@.take(i as int)),
        decreases v.len() - i,
    {
        let u = lower_char(v[i]);
        out.push(u);
        i = i + 1;
        assert(ascii_lower_seq(v@.take(i as int)) == ascii_lower_seq(v@.take(i - 1)).push(u));
    }
    assert(v@.take(v.len() as int) == v@);
    out
}

/// Exact equality of a character vector and a character array.
pub fn chars_eq(a: &Vec<char>, b: &[char]) -> (r: bool)
    ensures
        r == (a@ == b@),
{
    if a.len() != b.len() {
        return false;
    }
    let mut i: usize = 0;
    while i < a.len()
        invariant
            i <= a.len(),
            a.len() == b.len(),
            forall|j: int| 0 <= j < i ==> a@[j] == b@[j],
        decreases a.len() - i,
    {
        if a[i] != b[i] {
            return false;
        }
        i = i + 1;
    }
    assert(a@ =~= b@);
    true
}


/// Removes leading and trailing whitespace.
pub fn trim_chars(v: &Vec<char>) -> (out: Vec<char>)
    ensures
        out@ == trim(v@),
{
    let mut start: usize = 0;
    assert(v@.skip(0) =~= v@);
    while start < v.len() && is_whitespace_char(v[start])
        invariant
            start <= v.len(),
            trim_start(v@) == trim_start(v@.skip(start as int)),
        decreases v.len() - start,
    {
        assert(v@.skip(start as int).drop_first() =~= v@.skip(start + 1));
        start = start + 1;
    }
    let ghost t = v@.skip(start as int);
    assert(trim_start(v@) == t);
    let mut end: usize = v.len();
    while end > start && is_whitespace_char(v[end - 1])
        invariant
            start <= end <= v.len(),
            trim_end(t) == trim_end(v@.subrange(start as int, end as int)),
        decreases end,
    {
        assert(v@.subrange(start as int, end as int).drop_last() =~= v@.subrange(
            start as int,
            end - 1,
        ));
        end = end - 1;
    }
    assert(t =~= v@.subrange(start as int, v.len() as int));
    let mut out: Vec<char> = Vec::new();
    let mut i: usize = start;
    while i < end
        invariant
            start <= i <= end <= v.len(),
            out@ == v@.subrange(start as int, i as int),
        decreases end - i,
    {
        out.push(v[i]);
        i = i + 1;
        assert(out@ =~= v@.subrange(start as int, i as int));
    }
    out
}

/// One step of `words` from the front, seen from a suffix.
proof fn lemma_words_step(s: Seq<char>, i: int)
    requires
        0 <= i < s.len(),
    ensures
        s.skip(i).drop_first() == s.skip(i + 1),
        s.skip(i)[0] == s[i],
        s.skip(i).len() > 1 ==> s.skip(i)[1] == s[i + 1],
{
    assert(s.skip(i).drop_first() =~= s.skip(i + 1));
}

/// The character sequences held by a vector of character vectors.
pub open spec fn char_lists(v: Seq<Vec<char>>) -> Seq<Seq<char>> {
    Seq::new(v.len(), |i: int| v[i]@)
}

/// Splits a character vector into its whitespace-separated words.
pub fn split_whitespace_chars(v: &Vec<char>) -> (out: Vec<Vec<char>>)
    ensures
        char_lists(out@) == words(v@),
{
    let mut out: Vec<Vec<char>> = Vec::new();
    let mut i: usize = v.len();
    assert(v@.skip(v.len() as int) =~= Seq::<char>::empty());
    while i > 0
        invariant
            i <= v.len(),
            char_lists(out@) == words(v@.skip(i as int)),
        decreases i,
    {
        let c = v[i - 1];
        proof {
            lemma_words_step(v@, i - 1);
        }
        let ghost rest = words(v@.skip(i as int));
        let ghost prev = out@;
        if is_whitespace_char(c) {
        } else if i < v.len() && !is_whitespace_char(v[i]) {
            // c extends the first word of the rest
            assert(rest.len() > 0) by {
                lemma_words_nonempty_when_starts_with_word(v@.skip(i as int));
            }
            let mut first = out[0].clone();
            first.insert(0, c);
            assert(first@ =~= seq![c] + rest[0]);
            out.set(0, first);
            assert forall|k: int| 0 <= k < out@.len() implies #[trigger] char_lists(out@)[k]
                == rest.update(0, seq![c] + rest[0])[k] by {
                if k > 0 {
                    assert(out@[k] == prev[k]);
                }
            }
        } else {
            let mut w: Vec<char> = Vec::new();
            w.push(c);
            assert(w@ =~= seq![c]);
            out.insert(0, w);
            assert forall|k: int| 0 <= k < out@.len() implies #[trigger] char_lists(out@)[k]
                == (seq![seq![c]] + rest)[k] by {
                if k > 0 {
                    assert(out@[k] == prev[k - 1]);
                }
            }
        }
        i = i - 1;
        assert(char_lists(out@) =~= words(v@.skip(i as int)));
    }
    assert(v@.skip(0) =~= v@);
    out
}

/// A sequence that starts with a non-whitespace character has a word.
proof fn lemma_words_nonempty_when_starts_with_word(s: Seq<char>)
    requires
        s.len() > 0,
        !is_whitespace(s[0]),
    ensures
        words(s).len() > 0,
    decreases s.len(),
{
    if s.len() > 1 && !is_whitespace(s[1]) {
        assert(s.drop_first()[0] == s[1]);
        lemma_words_nonempty_when_starts_with_word(s.drop_first());
    }
}

/// Splits a character vector at every occurrence of `sep`.
pub fn split_on_char(v: &Vec<char>, sep: char) -> (out: Vec<Vec<char>>)
    ensures
        char_lists(out@) == split_on(v@, sep),
        out.len() >= 1,
{
    let mut out: Vec<Vec<char>> = Vec::new();
    out.push(Vec::new());
    let mut i: usize = v.len();
    assert(v@.skip(v.len() as int) =~= Seq::<char>::empty());
    assert(char_lists(out@) =~= split_on(Seq::<char>::empty(), sep));
    while i > 0
        invariant
            i <= v.len(),
            char_lists(out@) == split_on(v@.skip(i as int), sep),
            out.len() >= 1,
        decreases i,
    {
        let c = v[i - 1];
        proof {
            lemma_words_step(v@, i - 1);
            lemma_split_on_nonempty(v@.skip(i as int), sep);
        }
        let ghost rest = split_on(v@.skip(i as int), sep);
        let ghost prev = out@;
        if c == sep {
            let w: Vec<char> = Vec::new();
            assert(w@ =~= Seq::<char>::empty());
            out.insert(0, w);
            assert forall|k: int| 0 <= k < out@.len() implies #[trigger] char_lists(out@)[k]
                == (seq![Seq::<char>::empty()] + rest)[k] by {
                if k > 0 {
                    assert(out@[k] == prev[k - 1]);
                }
            }
        } else {
            let mut first = out[0].clone();
            first.insert(0, c);
            assert(first@ =~= seq![c] + rest[0]);
            out.set(0, first);
            assert forall|k: int| 0 <= k < out@.len() implies #[trigger] char_lists(out@)[k]
                == rest.update(0, seq![c] + rest[0])[k] by {
                if k > 0 {
                    assert(out@[k] == prev[k]);
                }
            }
        }
        i = i - 1;
        assert(char_lists(out@) =~= split_on(v@.skip(i as int), sep));
    }
    assert(v@.skip(0) =~= v@);
    out
}

/// `split_on` always yields at least one piece.
pub proof fn lemma_split_on_nonempty(s: Seq<char>, sep: char)
    ensures
        split_on(s, sep).len() >= 1,
    decreases s.len(),
{
    if s.len() > 0 {
        lemma_split_on_nonempty(s.drop_first(), sep);
    }
}

/// Extending a digit prefix by one digit.
proof fn lemma_digits_value_push(s: Seq<char>, i: int)
    requires
        0 <= i < s.len(),
    ensures
        digits_value(s.take(i + 1)) == digits_value(s.take(i)) * 10 + ((s[i] as u32) - (
        '0' as u32)) as nat,
{
    assert(s.take(i + 1).drop_last() =~= s.take(i));
}

/// Digit prefixes never decrease in value.
proof fn lemma_digits_value_mono(s: Seq<char>, i: int, j: int)
    requires
        0 <= i <= j <= s.len(),
        all_digits(s),
    ensures
        digits_value(s.take(i)) <= digits_value(s.take(j)),
    decreases j - i,
{
    if i < j {
        lemma_digits_value_mono(s, i, j - 1);
        lemma_digits_value_push(s, j - 1);
        assert(is_digit(s[j - 1]));
    }
}

/// The value of an all-digit sequence, when it fits in 32 bits.
pub open spec fn digits_u32(body: Seq<char>) -> Option<u32> {
    if all_digits(body) && digits_value(body) <= u32::MAX {
        Some(digits_value(body) as u32)
    } else {
        None
    }
}

/// Parses the digits `v[start..]`.
fn parse_digits(v: &Vec<char>, start: usize) -> (out: Option<u32>)
    requires
        start <= v.len(),
    ensures
        out == digits_u32(v@.skip(start as int)),
{
    let ghost body = v@.skip(start as int);
    let mut acc: u64 = 0;
    let mut i: usize = start;
    assert(body.take(0) =~= Seq::<char>::empty());
    while i < v.len()
        invariant
            start <= i <= v.len(),
            body == v@.skip(start as int),
            acc <= u32::MAX,
            acc == digits_value(body.take(i - start)),
            all_digits(body.take(i - start)),
        decreases v.len() - i,
    {
        let c = v[i];
        let cu = c as u32;
        assert(body[i - start] == c);
        if !(cu >= 48 && cu <= 57) {
            assert(!all_digits(body));
            return None;
        }
        proof {
            lemma_digits_value_push(body, i - start);
        }
        let d = (cu - 48) as u64;
        acc = acc * 10 + d;
        i = i + 1;
        assert(all_digits(body.take(i - start))) by {
            assert forall|k: int| 0 <= k < body.take(i - start).len() implies is_digit(
                #[trigger] body.take(i - start)[k],
            ) by {
                if k < i - 1 - start {
                    assert(body.take(i - start)[k] == body.take(i - 1 - start)[k]);
                }
            }
        }
        if acc > u32::MAX as u64 {
            proof {
                assert(body.take(body.len() as int) =~= body);
                if all_digits(body) {
                    lemma_digits_value_mono(body, i - start, body.len() as int);
                }
            }
            return None;
        }
    }
    assert(body.take(body.len() as int) =~= body);
    Some(acc as u32)
}

/// Parses a decimal `u32` the way `u32::from_str` does.
pub fn parse_u32_chars(v: &Vec<char>) -> (out: Option<u32>)
    ensures
        out == decimal_u32(v@),
{
    let start: usize = if v.len() > 0 && v[0] == '+' {
        1
    } else {
        0
    };
    assert(v@.skip(0) =~= v@);
    assert(start == 1 ==> v@.skip(1) =~= v@.drop_first());
    if start >= v.len() {
        return None;
    }
    parse_digits(v, start)
}

/// `u64::from_str`: an optional `+`, then at least one decimal digit, with a
/// value that fits in 64 bits.
pub open spec fn decimal_u64(s: Seq<char>) -> Option<u64> {
    let body = if s.len() > 0 && s[0] == '+' {
        s.drop_first()
    } else {
        s
    };
    if body.len() > 0 && all_digits(body) && digits_value(body) <= u64::MAX {
        Some(digits_value(body) as u64)
    } else {
        None
    }
}

/// Parses the digits `v[start..]` into a `u64`.
fn parse_digits_u64(v: &Vec<char>, start: usize) -> (out: Option<u64>)
    requires
        start <= v.len(),
    ensures
        out == (if all_digits(v@.skip(start as int)) && digits_value(v@.skip(start as int))
            <= u64::MAX {
            Some(digits_value(v@.skip(start as int)) as u64)
        } else {
            None::<u64>
        }),
{
    let ghost body = v@.skip(start as int);
    let mut acc: u128 = 0;
    let mut i: usize = start;
    assert(body.take(0) =~= Seq::<char>::empty());
    while i < v.len()
        invariant
            start <= i <= v.len(),
            body == v@.skip(start as int),
            acc <= u64::MAX,
            acc == digits_value(body.take(i - start)),
            all_digits(body.take(i - start)),
        decreases v.len() - i,
    {
        let c = v[i];
        let cu = c as u32;
        assert(body[i - start] == c);
        if !(cu >= 48 && cu <= 57) {
            assert(!all_digits(body));
            return None;
        }
        proof {
            lemma_digits_value_push(body, i - start);
        }
        let d = (cu - 48) as u128;
        acc = acc * 10 + d;
        i = i + 1;
        assert(all_digits(body.take(i - start))) by {
            assert forall|k: int| 0 <= k < body.take(i - start).len() implies is_digit(
                #[trigger] body.take(i - start)[k],
            ) by {
                if k < i - 1 - start {
                    assert(body.take(i - start)[k] == body.take(i - 1 - start)[k]);
                }
            }
        }
        if acc > u64::MAX as u128 {
            proof {
                assert(body.take(body.len() as int) =~= body);
                if all_digits(body) {
                    lemma_digits_value_mono(body, i - start, body.len() as int);
                }
            }
            return None;
        }
    }
    assert(body.take(body.len() as int) =~= body);
    Some(acc as u64)
}

/// Parses a decimal `u64` the way `u64::from_str` does.
pub fn parse_u64_chars(v: &Vec<char>) -> (out: Option<u64>)
    ensures
        out == decimal_u64(v@),
{
    let start: usize = if v.len() > 0 && v[0] == '+' {
        1
    } else {
        0
    };
    assert(v@.skip(0) =~= v@);
    assert(start == 1 ==> v@.skip(1) =~= v@.drop_first());
    if start >= v.len() {
        return None;
    }
    parse_digits_u64(v, start)
}

/// The character of a decimal digit.
pub open spec fn digit_char(d: nat) -> char {
    ((d + 48) as u8) as char
}

/// The decimal text of a natural number (no sign, no leading zeros).
pub open spec fn decimal_text(n: nat) -> Seq<char>
    decreases n,
{
    if n < 10 {
        seq![digit_char(n)]
    } else {
        decimal_text(n / 10).push(digit_char(n % 10))
    }
}

/// The decimal text of a number is a non-empty run of digits, with that
/// value, so it reads back as that number.
pub proof fn lemma_decimal_text_reads_back(n: nat)
    ensures
        decimal_text(n).len() > 0,
        all_digits(decimal_text(n)),
        digits_value(decimal_text(n)) == n,
        decimal_text(n)[0] != '+',
        n <= u32::MAX ==> decimal_u32(decimal_text(n)) == Some(n as u32),
    decreases n,
{
    if n < 10 {
        assert(digit_char(n) as u32 == n + 48);
        assert(decimal_text(n) =~= seq![digit_char(n)]);
        assert(decimal_text(n).drop_last() =~= Seq::<char>::empty());
        assert(digits_value(decimal_text(n)) == digits_value(Seq::<char>::empty()) * 10 + (
        (digit_char(n) as u32) - ('0' as u32)) as nat);
    } else {
        lemma_decimal_text_reads_back(n / 10);
        let t = decimal_text(n / 10);
        let d = digit_char(n % 10);
        assert(d as u32 == n % 10 + 48);
        assert(decimal_text(n) == t.push(d));
        assert(t.push(d).drop_last() =~= t);
        assert(t.push(d)[0] == t[0]);
        assert(all_digits(t.push(d))) by {
            assert forall|i: int| 0 <= i < t.push(d).len() implies is_digit(#[trigger] t.push(d)[i]) by {
                if i < t.len() {
                    assert(t.push(d)[i] == t[i]);
                }
            }
        }
        assert(digits_value(t.push(d)) == digits_value(t) * 10 + (n % 10));
        assert((n / 10) * 10 + n % 10 == n) by (nonlinear_arith);
    }
}

/// The decimal text of a `u32`.
pub fn u32_decimal_chars(n: u32) -> (v: Vec<char>)
    ensures
        v@ == decimal_text(n as nat),
    decreases n,
{
    if n < 10 {
        let mut v: Vec<char> = Vec::new();
        v.push(((n as u8) + 48) as char);
        v
    } else {
        let mut v = u32_decimal_chars(n / 10);
        v.push((((n % 10) as u8) + 48) as char);
        v
    }
}

/// The decimal text of a `u64`.
pub fn u64_decimal_chars(n: u64) -> (v: Vec<char>)
    ensures
        v@ == decimal_text(n as nat),
    decreases n,
{
    if n < 10 {
        let mut v: Vec<char> = Vec::new();
        v.push(((n as u8) + 48) as char);
        v
    } else {
        let mut v = u64_decimal_chars(n / 10);
        v.push((((n % 10) as u8) + 48) as char);
        v
    }
}

/// Appends the characters of a vector to a string.
pub fn push_vec(s: &mut String, cs: &Vec<char>)
    ensures
        final(s)@ == old(s)@ + cs@,
{
    let mut i: usize = 0;
    while i < cs.len()
        invariant
            i <= cs.len(),
            s@ == old(s)@ + cs@.take(i as int),
        decreases cs.len() - i,
    {
        push_char(s, cs[i]);
        i = i + 1;
        assert(old(s)@ + cs@.take(i as int) =~= old(s)@ + cs@.take(i - 1) + seq![cs@[i - 1]]);
    }
    assert(cs@.take(cs.len() as int) =~= cs@);
}


// ---------------------------------------------------------------------------
// Texts that differ only in ASCII case
// ---------------------------------------------------------------------------

/// `c` is an ASCII letter.
pub open spec fn is_ascii_letter(c: char) -> bool {
    is_ascii_lower(c) || is_ascii_upper(c)
}

/// The two texts have the same length and agree once ASCII letters are
/// upper-cased.
pub open spec fn same_up_to_case(a: Seq<char>, b: Seq<char>) -> bool {
    &&& a.len() == b.len()
    &&& forall|i: int| 0 <= i < a.len() ==> ascii_upper(#[trigger] a[i]) == ascii_upper(b[i])
}

/// Case folding of one character.
pub proof fn lemma_char_case(c: char)
    ensures
        ascii_upper(ascii_upper(c)) == ascii_upper(c),
        ascii_upper(ascii_lower(c)) == ascii_upper(c),
        ascii_lower(ascii_upper(c)) == ascii_lower(c),
        is_ascii_letter(ascii_upper(c)) == is_ascii_letter(c),
{
}

/// Two characters with the same upper-case form are equal unless both are
/// letters; they have the same lower-case form.
pub proof fn lemma_same_char_up_to_case(x: char, y: char)
    requires
        ascii_upper(x) == ascii_upper(y),
    ensures
        is_ascii_letter(x) == is_ascii_letter(y),
        !is_ascii_letter(x) ==> x == y,
        ascii_lower(x) == ascii_lower(y),
{
    lemma_char_case(x);
    lemma_char_case(y);
}

/// A text and its upper- or lower-cased form differ only in case.
pub proof fn lemma_case_forms(s: Seq<char>)
    ensures
        same_up_to_case(s, ascii_upper_seq(s)),
        same_up_to_case(s, ascii_lower_seq(s)),
{
    assert forall|i: int| 0 <= i < s.len() implies ascii_upper(#[trigger] s[i]) == ascii_upper(
        ascii_upper_seq(s)[i],
    ) && ascii_upper(s[i]) == ascii_upper(ascii_lower_seq(s)[i]) by {
        lemma_char_case(s[i]);
    }
}

/// Texts that differ only in case have the same upper- and lower-cased
/// forms.
pub proof fn lemma_same_case_folds(a: Seq<char>, b: Seq<char>)
    requires
        same_up_to_case(a, b),
    ensures
        ascii_upper_seq(a) == ascii_upper_seq(b),
        ascii_lower_seq(a) == ascii_lower_seq(b),
{
    assert forall|i: int| 0 <= i < a.len() implies ascii_lower(#[trigger] a[i]) == ascii_lower(
        b[i],
    ) by {
        lemma_same_char_up_to_case(a[i], b[i]);
    }
    assert(ascii_upper_seq(a) =~= ascii_upper_seq(b));
    assert(ascii_lower_seq(a) =~= ascii_lower_seq(b));
}

/// Trimming keeps two texts that differ only in case so.
pub proof fn lemma_trim_same_case(a: Seq<char>, b: Seq<char>)
    requires
        same_up_to_case(a, b),
    ensures
        same_up_to_case(trim(a), trim(b)),
{
    lemma_trim_start_same_case(a, b);
    lemma_trim_end_same_case(trim_start(a), trim_start(b));
}

proof fn lemma_trim_start_same_case(a: Seq<char>, b: Seq<char>)
    requires
        same_up_to_case(a, b),
    ensures
        same_up_to_case(trim_start(a), trim_start(b)),
    decreases a.len(),
{
    if a.len() > 0 {
        lemma_same_char_up_to_case(a[0], b[0]);
        if is_whitespace(a[0]) {
            assert(same_up_to_case(a.drop_first(), b.drop_first())) by {
                assert forall|i: int| 0 <= i < a.drop_first().len() implies ascii_upper(
                    #[trigger] a.drop_first()[i],
                ) == ascii_upper(b.drop_first()[i]) by {
                    assert(ascii_upper(a[i + 1]) == ascii_upper(b[i + 1]));
                }
            }
            lemma_trim_start_same_case(a.drop_first(), b.drop_first());
        }
    }
}

proof fn lemma_trim_end_same_case(a: Seq<char>, b: Seq<char>)
    requires
        same_up_to_case(a, b),
    ensures
        same_up_to_case(trim_end(a), trim_end(b)),
    decreases a.len(),
{
    if a.len() > 0 {
        lemma_same_char_up_to_case(a.last(), b.last());
        assert(ascii_upper(a[a.len() - 1]) == ascii_upper(b[a.len() - 1]));
        if is_whitespace(a.last()) {
            assert(same_up_to_case(a.drop_last(), b.drop_last())) by {
                assert forall|i: int| 0 <= i < a.drop_last().len() implies ascii_upper(
                    #[trigger] a.drop_last()[i],
                ) == ascii_upper(b.drop_last()[i]) by {
                    assert(ascii_upper(a[i]) == ascii_upper(b[i]));
                }
            }
            lemma_trim_end_same_case(a.drop_last(), b.drop_last());
        }
    }
}

/// Splitting two texts that differ only in case at a character that is not a
/// letter gives pieces that pair up and differ only in case.
pub proof fn lemma_split_same_case(a: Seq<char>, b: Seq<char>, sep: char)
    requires
        same_up_to_case(a, b),
        !is_ascii_letter(sep),
    ensures
        split_on(a, sep).len() == split_on(b, sep).len(),
        forall|i: int|
            0 <= i < split_on(a, sep).len() ==> same_up_to_case(
                #[trigger] split_on(a, sep)[i],
                split_on(b, sep)[i],
            ),
    decreases a.len(),
{
    if a.len() > 0 {
        let a1 = a.drop_first();
        let b1 = b.drop_first();
        assert(same_up_to_case(a1, b1)) by {
            assert forall|i: int| 0 <= i < a1.len() implies ascii_upper(#[trigger] a1[i])
                == ascii_upper(b1[i]) by {
                assert(ascii_upper(a[i + 1]) == ascii_upper(b[i + 1]));
            }
        }
        lemma_split_same_case(a1, b1, sep);
        lemma_split_on_nonempty(a1, sep);
        lemma_same_char_up_to_case(a[0], b[0]);
        assert(ascii_upper(a[0]) == ascii_upper(b[0]));
        let ra = split_on(a1, sep);
        let rb = split_on(b1, sep);
        if a[0] == sep {
            assert(b[0] == sep);
            assert forall|i: int| 0 <= i < split_on(a, sep).len() implies same_up_to_case(
                #[trigger] split_on(a, sep)[i],
                split_on(b, sep)[i],
            ) by {
                if i > 0 {
                    assert(split_on(a, sep)[i] == ra[i - 1]);
                    assert(split_on(b, sep)[i] == rb[i - 1]);
                }
            }
        } else {
            assert(b[0] != sep) by {
                if b[0] == sep {
                    lemma_same_char_up_to_case(b[0], a[0]);
                }
            }
            let pa = seq![a[0]] + ra[0];
            let pb = seq![b[0]] + rb[0];
            assert(same_up_to_case(pa, pb)) by {
                assert(same_up_to_case(ra[0], rb[0]));
                assert forall|i: int| 0 <= i < pa.len() implies ascii_upper(#[trigger] pa[i])
                    == ascii_upper(pb[i]) by {
                    if i > 0 {
                        assert(pa[i] == ra[0][i - 1]);
                        assert(pb[i] == rb[0][i - 1]);
                    }
                }
            }
            assert forall|i: int| 0 <= i < split_on(a, sep).len() implies same_up_to_case(
                #[trigger] split_on(a, sep)[i],
                split_on(b, sep)[i],
            ) by {
                if i > 0 {
                    assert(split_on(a, sep)[i] == ra[i]);
                    assert(split_on(b, sep)[i] == rb[i]);
                }
            }
        }
    }
}

/// Texts that differ only in case read as the same decimal number.
pub proof fn lemma_decimal_same_case(a: Seq<char>, b: Seq<char>)
    requires
        same_up_to_case(a, b),
    ensures
        decimal_u32(a) == decimal_u32(b),
{
    if exists|i: int| 0 <= i < a.len() && is_ascii_letter(#[trigger] a[i]) {
        let i = choose|i: int| 0 <= i < a.len() && is_ascii_letter(#[trigger] a[i]);
        lemma_same_char_up_to_case(a[i], b[i]);
        assert(decimal_u32(a) is None) by {
            let body = if a.len() > 0 && a[0] == '+' { a.drop_first() } else { a };
            if a.len() > 0 && a[0] == '+' {
                assert(!is_digit(body[i - 1]));
            } else {
                assert(!is_digit(body[i]));
            }
        }
        assert(decimal_u32(b) is None) by {
            let body = if b.len() > 0 && b[0] == '+' { b.drop_first() } else { b };
            if b.len() > 0 && b[0] == '+' {
                assert(!is_digit(body[i - 1]));
            } else {
                assert(!is_digit(body[i]));
            }
        }
    } else {
        assert forall|i: int| 0 <= i < a.len() implies #[trigger] a[i] == b[i] by {
            lemma_same_char_up_to_case(a[i], b[i]);
        }
        assert(a =~= b);
    }
}


// ---------------------------------------------------------------------------
// Trimming and splitting texts with a known start
// ---------------------------------------------------------------------------

/// Trailing whitespace after a text that does not end in whitespace is
/// trimmed from the second part alone.
pub proof fn lemma_trim_end_after(p: Seq<char>, r: Seq<char>)
    requires
        p.len() > 0,
        !is_whitespace(p.last()),
    ensures
        trim_end(p + r) == p + trim_end(r),
    decreases r.len(),
{
    if r.len() == 0 {
        assert(p + r =~= p);
        assert(p + trim_end(r) =~= p);
    } else {
        assert((p + r).last() == r.last());
        if is_whitespace(r.last()) {
            assert((p + r).drop_last() =~= p + r.drop_last());
            lemma_trim_end_after(p, r.drop_last());
        }
    }
}

/// A text that starts with something other than whitespace is trimmed at its
/// end only.
pub proof fn lemma_trim_after(p: Seq<char>, r: Seq<char>)
    requires
        p.len() > 0,
        !is_whitespace(p[0]),
        !is_whitespace(p.last()),
    ensures
        trim(p + r) == p + trim_end(r),
{
    assert((p + r)[0] == p[0]);
    assert(trim_start(p + r) == p + r);
    lemma_trim_end_after(p, r);
}

/// Splitting a text at `sep` when it starts with a piece free of `sep`
/// followed by `sep`: that piece, then the pieces of the rest.
pub proof fn lemma_split_after(p: Seq<char>, r: Seq<char>, sep: char)
    requires
        !p.contains(sep),
    ensures
        split_on(p + seq![sep] + r, sep) == seq![p] + split_on(r, sep),
    decreases p.len(),
{
    let s = p + seq![sep] + r;
    if p.len() == 0 {
        assert(p =~= Seq::<char>::empty());
        assert(s[0] == sep);
        assert(s.drop_first() =~= r);
    } else {
        assert(s[0] == p[0]);
        assert(p[0] != sep);
        let p1 = p.drop_first();
        assert(!p1.contains(sep)) by {
            if p1.contains(sep) {
                let i = choose|i: int| 0 <= i < p1.len() && p1[i] == sep;
                assert(p[i + 1] == sep);
            }
        }
        assert(s.drop_first() =~= p1 + seq![sep] + r);
        lemma_split_after(p1, r, sep);
        let rest = split_on(s.drop_first(), sep);
        assert(rest == seq![p1] + split_on(r, sep));
        assert(seq![p[0]] + p1 =~= p);
        assert(rest.update(0, seq![p[0]] + rest[0]) =~= seq![p] + split_on(r, sep));
    }
}

/// A text free of `sep` is one piece.
pub proof fn lemma_split_whole(r: Seq<char>, sep: char)
    requires
        !r.contains(sep),
    ensures
        split_on(r, sep) == seq![r],
    decreases r.len(),
{
    if r.len() > 0 {
        let r1 = r.drop_first();
        assert(!r1.contains(sep)) by {
            if r1.contains(sep) {
                let i = choose|i: int| 0 <= i < r1.len() && r1[i] == sep;
                assert(r[i + 1] == sep);
            }
        }
        lemma_split_whole(r1, sep);
        assert(r[0] != sep);
        assert(seq![r[0]] + r1 =~= r);
        assert(split_on(r1, sep).update(0, seq![r[0]] + split_on(r1, sep)[0]) =~= seq![r]);
    } else {
        assert(r =~= Seq::<char>::empty());
    }
}


/// A run of non-whitespace characters followed by nothing or by whitespace
/// is the first word.
pub proof fn lemma_words_after_word(a: Seq<char>, r: Seq<char>)
    requires
        a.len() > 0,
        forall|i: int| 0 <= i < a.len() ==> !is_whitespace(#[trigger] a[i]),
        r.len() > 0 ==> is_whitespace(r[0]),
    ensures
        words(a + r) == seq![a] + words(r),
    decreases a.len(),
{
    let s = a + r;
    assert(s[0] == a[0]);
    assert(s.drop_first() =~= a.drop_first() + r);
    if a.len() == 1 {
        assert(a.drop_first() + r =~= r);
        assert(s.len() > 1 ==> s[1] == r[0]);
        assert(seq![seq![a[0]]] + words(r) =~= seq![a] + words(r)) by {
            assert(seq![a[0]] =~= a);
        }
    } else {
        let a1 = a.drop_first();
        assert forall|i: int| 0 <= i < a1.len() implies !is_whitespace(#[trigger] a1[i]) by {
            assert(a1[i] == a[i + 1]);
        }
        lemma_words_after_word(a1, r);
        assert(s[1] == a[1]);
        let rest = words(s.drop_first());
        assert(seq![a[0]] + a1 =~= a);
        assert(rest.update(0, seq![a[0]] + rest[0]) =~= seq![a] + words(r));
    }
}

/// Two runs of non-whitespace characters with a space between them are two
/// words.
pub proof fn lemma_two_words(a: Seq<char>, b: Seq<char>)
    requires
        a.len() > 0,
        b.len() > 0,
        forall|i: int| 0 <= i < a.len() ==> !is_whitespace(#[trigger] a[i]),
        forall|i: int| 0 <= i < b.len() ==> !is_whitespace(#[trigger] b[i]),
    ensures
        words(a + seq![' '] + b) == seq![a, b],
{
    let r = seq![' '] + b;
    assert(a + seq![' '] + b =~= a + r);
    lemma_words_after_word(a, r);
    assert(r.drop_first() =~= b);
    lemma_words_after_word(b, Seq::<char>::empty());
    assert(b + Seq::<char>::empty() =~= b);
    assert(seq![a] + (seq![b] + words(Seq::<char>::empty())) =~= seq![a, b]);
}

} // verus!
