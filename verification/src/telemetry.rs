//! The inbound telemetry text format, and its verified decoder.
//!
//! Each telemetry message body is one JSON object with exactly the members
//! `heading`, `pitch` and `roll`, in any order, each a JSON number. The
//! decoder accepts exactly that shape and hands back the three number texts;
//! anything else is a protocol violation.
use vstd::prelude::*;
use vstd::string::StrSliceExecFns;

use crate::attitude::AttitudeSample;
use crate::attitude::AttitudeText;

verus! {

/// JSON insignificant whitespace.
pub open spec fn is_space(c: char) -> bool {
    c == ' ' || c == '\t' || c == '\n' || c == '\r'
}

/// A decimal digit.
pub open spec fn is_digit(c: char) -> bool {
    48 <= c as u32 <= 57
}

/// The first position at or after `i` that does not hold whitespace.
pub open spec fn skip_spaces(s: Seq<char>, i: int) -> int
    decreases s.len() - i,
{
    if 0 <= i < s.len() && is_space(s[i]) {
        skip_spaces(s, i + 1)
    } else {
        i
    }
}

/// The first position at or after `i` that does not hold a digit.
pub open spec fn digits_end(s: Seq<char>, i: int) -> int
    decreases s.len() - i,
{
    if 0 <= i < s.len() && is_digit(s[i]) {
        digits_end(s, i + 1)
    } else {
        i
    }
}

/// Where the integer part that starts at `i` ends, if it is well formed:
/// a single `0`, or a nonzero digit followed by any digits.
pub open spec fn int_part_end(t: Seq<char>, i: int) -> Option<int> {
    if 0 <= i < t.len() && t[i] == '0' {
        Some(i + 1)
    } else {
        let j = digits_end(t, i);
        if j > i {
            Some(j)
        } else {
            None
        }
    }
}

/// Where the optional fraction part that starts at `i` ends: either there is
/// no `.` at `i`, or the `.` is followed by at least one digit.
pub open spec fn frac_part_end(t: Seq<char>, i: int) -> Option<int> {
    if 0 <= i < t.len() && t[i] == '.' {
        let j = digits_end(t, i + 1);
        if j > i + 1 {
            Some(j)
        } else {
            None
        }
    } else {
        Some(i)
    }
}

/// Where the optional exponent part that starts at `i` ends: either there is
/// no `e`/`E` at `i`, or it is followed by an optional sign and at least one
/// digit.
pub open spec fn exp_part_end(t: Seq<char>, i: int) -> Option<int> {
    if 0 <= i < t.len() && (t[i] == 'e' || t[i] == 'E') {
        let j = if i + 1 < t.len() && (t[i + 1] == '+' || t[i + 1] == '-') {
            i + 2
        } else {
            i + 1
        };
        let k = digits_end(t, j);
        if k > j {
            Some(k)
        } else {
            None
        }
    } else {
        Some(i)
    }
}

/// Whether `t` is exactly one number of the JSON grammar:
/// `-? (0 | [1-9][0-9]*) (. [0-9]+)? ([eE][+-]?[0-9]+)?`.
pub open spec fn is_json_number(t: Seq<char>) -> bool {
    let start: int = if t.len() > 0 && t[0] == '-' {
        1
    } else {
        0
    };
    match int_part_end(t, start) {
        None => false,
        Some(a) => match frac_part_end(t, a) {
            None => false,
            Some(b) => match exp_part_end(t, b) {
                None => false,
                Some(c) => c == t.len(),
            },
        },
    }
}

fn is_space_char(c: char) -> (b: bool)
    ensures
        b == is_space(c),
{
    c == ' ' || c == '\t' || c == '\n' || c == '\r'
}

fn is_digit_char(c: char) -> (b: bool)
    ensures
        b == is_digit(c),
{
    let u = c as u32;
    48 <= u && u <= 57
}

fn skip_spaces_in(s: &str, from: usize, n: usize) -> (j: usize)
    requires
        n == s@.len(),
        from <= n,
    ensures
        j == skip_spaces(s@, from as int),
        from <= j <= n,
{
    let mut j = from;
    loop
        invariant
            from <= j <= n,
            n == s@.len(),
            skip_spaces(s@, j as int) == skip_spaces(s@, from as int),
        decreases n - j,
    {
        if j < n && is_space_char(s.get_char(j)) {
            assert(skip_spaces(s@, j as int) == skip_spaces(s@, j + 1));
            j = j + 1;
        } else {
            assert(skip_spaces(s@, j as int) == j as int);
            return j;
        }
    }
}

fn digits_end_in(s: &str, from: usize, n: usize) -> (j: usize)
    requires
        n == s@.len(),
        from <= n,
    ensures
        j == digits_end(s@, from as int),
        from <= j <= n,
{
    let mut j = from;
    loop
        invariant
            from <= j <= n,
            n == s@.len(),
            digits_end(s@, j as int) == digits_end(s@, from as int),
        decreases n - j,
    {
        if j < n && is_digit_char(s.get_char(j)) {
            assert(digits_end(s@, j as int) == digits_end(s@, j + 1));
            j = j + 1;
        } else {
            assert(digits_end(s@, j as int) == j as int);
            return j;
        }
    }
}

/// Whether the whole of `t` is one number of the JSON grammar.
pub fn is_number_text(t: &str) -> (b: bool)
    ensures
        b == is_json_number(t@),
{
    let n = t.unicode_len();
    let start: usize = if n > 0 && t.get_char(0) == '-' {
        1
    } else {
        0
    };
    let a: usize;
    if start < n && t.get_char(start) == '0' {
        a = start + 1;
    } else {
        let j = digits_end_in(t, start, n);
        if j == start {
            assert(int_part_end(t@, start as int) is None);
            return false;
        }
        a = j;
    }
    assert(int_part_end(t@, start as int) == Some(a as int));
    let b: usize;
    if a < n && t.get_char(a) == '.' {
        let j = digits_end_in(t, a + 1, n);
        if j == a + 1 {
            assert(frac_part_end(t@, a as int) is None);
            return false;
        }
        b = j;
    } else {
        b = a;
    }
    assert(frac_part_end(t@, a as int) == Some(b as int));
    let c: usize;
    if b < n && (t.get_char(b) == 'e' || t.get_char(b) == 'E') {
        let d: usize = if b + 1 < n && (t.get_char(b + 1) == '+' || t.get_char(b + 1) == '-') {
            b + 2
        } else {
            b + 1
        };
        let j = digits_end_in(t, d, n);
        if j == d {
            assert(exp_part_end(t@, b as int) is None);
            return false;
        }
        c = j;
    } else {
        c = b;
    }
    assert(exp_part_end(t@, b as int) == Some(c as int));
    c == n
}

/// A character that can occur in a JSON number.
pub open spec fn is_number_char(c: char) -> bool {
    is_digit(c) || c == '-' || c == '+' || c == '.' || c == 'e' || c == 'E'
}

/// The first position at or after `i` that does not hold a number character.
pub open spec fn number_end(s: Seq<char>, i: int) -> int
    decreases s.len() - i,
{
    if 0 <= i < s.len() && is_number_char(s[i]) {
        number_end(s, i + 1)
    } else {
        i
    }
}

/// The position of the quote that closes a key whose text starts at `i`,
/// or the end of the input if no quote follows.
pub open spec fn key_end(s: Seq<char>, i: int) -> int
    decreases s.len() - i,
{
    if 0 <= i < s.len() && s[i] != '"' {
        key_end(s, i + 1)
    } else {
        i
    }
}

fn is_number_char_at(c: char) -> (b: bool)
    ensures
        b == is_number_char(c),
{
    is_digit_char(c) || c == '-' || c == '+' || c == '.' || c == 'e' || c == 'E'
}

fn number_end_in(s: &str, from: usize, n: usize) -> (j: usize)
    requires
        n == s@.len(),
        from <= n,
    ensures
        j == number_end(s@, from as int),
        from <= j <= n,
{
    let mut j = from;
    loop
        invariant
            from <= j <= n,
            n == s@.len(),
            number_end(s@, j as int) == number_end(s@, from as int),
        decreases n - j,
    {
        if j < n && is_number_char_at(s.get_char(j)) {
            assert(number_end(s@, j as int) == number_end(s@, j + 1));
            j = j + 1;
        } else {
            assert(number_end(s@, j as int) == j as int);
            return j;
        }
    }
}

fn key_end_in(s: &str, from: usize, n: usize) -> (j: usize)
    requires
        n == s@.len(),
        from <= n,
    ensures
        j == key_end(s@, from as int),
        from <= j <= n,
{
    let mut j = from;
    loop
        invariant
            from <= j <= n,
            n == s@.len(),
            key_end(s@, j as int) == key_end(s@, from as int),
        decreases n - j,
    {
        if j < n && s.get_char(j) != '"' {
            assert(key_end(s@, j as int) == key_end(s@, j + 1));
            j = j + 1;
        } else {
            assert(key_end(s@, j as int) == j as int);
            return j;
        }
    }
}

/// Whether the given range of `s` holds exactly the text of `lit`.
fn str_range_eq(s: &str, from: usize, to: usize, lit: &str) -> (r: bool)
    requires
        from <= to <= s@.len(),
    ensures
        r == (s@.subrange(from as int, to as int) == lit@),
{
    let n2 = lit.unicode_len();
    if to - from != n2 {
        assert(s@.subrange(from as int, to as int).len() == to - from);
        return false;
    }
    let mut j: usize = 0;
    while j < n2
        invariant
            0 <= j <= n2,
            n2 == lit@.len(),
            from <= to <= s@.len(),
            to - from == n2,
            forall|k: int| 0 <= k < j ==> s@[from + k] == lit@[k],
        decreases n2 - j,
    {
        if s.get_char(from + j) != lit.get_char(j) {
            assert(s@.subrange(from as int, to as int)[j as int] != lit@[j as int]);
            return false;
        }
        j = j + 1;
    }
    assert(s@.subrange(from as int, to as int) =~= lit@);
    true
}

/// One object member `"key" : number`, parsed from position `i`: its key
/// text, its number text, and the position just after the number.
pub open spec fn parse_member(s: Seq<char>, i: int) -> Option<(Seq<char>, Seq<char>, int)> {
    let i1 = skip_spaces(s, i);
    if 0 <= i1 < s.len() && s[i1] == '"' {
        let k = key_end(s, i1 + 1);
        if k < s.len() {
            let key = s.subrange(i1 + 1, k);
            let i2 = skip_spaces(s, k + 1);
            if 0 <= i2 < s.len() && s[i2] == ':' {
                let i3 = skip_spaces(s, i2 + 1);
                let e = number_end(s, i3);
                if e > i3 && is_json_number(s.subrange(i3, e)) {
                    Some((key, s.subrange(i3, e), e))
                } else {
                    None
                }
            } else {
                None
            }
        } else {
            None
        }
    } else {
        None
    }
}

/// Positions of one parsed member inside the message text.
struct MemberAt {
    key_from: usize,
    key_to: usize,
    num_from: usize,
    num_to: usize,
    next: usize,
}

fn parse_member_in(s: &str, i: usize, n: usize) -> (r: Option<MemberAt>)
    requires
        n == s@.len(),
        i <= n,
    ensures
        match r {
            Some(m) => {
                &&& m.key_from <= m.key_to <= n
                &&& m.num_from <= m.num_to <= n
                &&& m.next == m.num_to
                &&& parse_member(s@, i as int) == Some(
                    (
                        s@.subrange(m.key_from as int, m.key_to as int),
                        s@.subrange(m.num_from as int, m.num_to as int),
                        m.next as int,
                    ),
                )
            },
            None => parse_member(s@, i as int) is None,
        },
{
    let i1 = skip_spaces_in(s, i, n);
    if !(i1 < n && s.get_char(i1) == '"') {
        return None;
    }
    let k = key_end_in(s, i1 + 1, n);
    if !(k < n) {
        return None;
    }
    let i2 = skip_spaces_in(s, k + 1, n);
    if !(i2 < n && s.get_char(i2) == ':') {
        return None;
    }
    let i3 = skip_spaces_in(s, i2 + 1, n);
    let e = number_end_in(s, i3, n);
    if !(e > i3) {
        return None;
    }
    let token = s.substring_char(i3, e);
    if !is_number_text(token) {
        return None;
    }
    Some(MemberAt { key_from: i1 + 1, key_to: k, num_from: i3, num_to: e, next: e })
}

/// Whether `key` is one of the three member names of the schema.
pub open spec fn is_schema_key(key: Seq<char>) -> bool {
    key == "heading"@ || key == "pitch"@ || key == "roll"@
}

/// The number text paired with `key` among the three parsed members.
pub open spec fn token_for(
    key: Seq<char>,
    k1: Seq<char>,
    t1: Seq<char>,
    k2: Seq<char>,
    t2: Seq<char>,
    t3: Seq<char>,
) -> Seq<char> {
    if k1 == key {
        t1
    } else if k2 == key {
        t2
    } else {
        t3
    }
}

/// The sample described by three members, if their keys are exactly
/// `heading`, `pitch` and `roll`, each once, in any order.
pub open spec fn assemble(
    k1: Seq<char>,
    t1: Seq<char>,
    k2: Seq<char>,
    t2: Seq<char>,
    k3: Seq<char>,
    t3: Seq<char>,
) -> Option<AttitudeText> {
    if is_schema_key(k1) && is_schema_key(k2) && is_schema_key(k3) && k1 != k2 && k1 != k3 && k2
        != k3 {
        Some(
            AttitudeText {
                heading: token_for("heading"@, k1, t1, k2, t2, t3),
                pitch: token_for("pitch"@, k1, t1, k2, t2, t3),
                roll: token_for("roll"@, k1, t1, k2, t2, t3),
            },
        )
    } else {
        None
    }
}

/// The sample carried by message text `s`, when `s` is exactly one JSON
/// object with the three numeric members of the schema; `None` otherwise.
pub open spec fn decode_spec(s: Seq<char>) -> Option<AttitudeText> {
    let i0 = skip_spaces(s, 0);
    if 0 <= i0 < s.len() && s[i0] == '{' {
        match parse_member(s, i0 + 1) {
            None => None,
            Some((k1, t1, e1)) => {
                let c1 = skip_spaces(s, e1);
                if 0 <= c1 < s.len() && s[c1] == ',' {
                    match parse_member(s, c1 + 1) {
                        None => None,
                        Some((k2, t2, e2)) => {
                            let c2 = skip_spaces(s, e2);
                            if 0 <= c2 < s.len() && s[c2] == ',' {
                                match parse_member(s, c2 + 1) {
                                    None => None,
                                    Some((k3, t3, e3)) => {
                                        let c3 = skip_spaces(s, e3);
                                        if 0 <= c3 < s.len() && s[c3] == '}' && skip_spaces(
                                            s,
                                            c3 + 1,
                                        ) == s.len() {
                                            assemble(k1, t1, k2, t2, k3, t3)
                                        } else {
                                            None
                                        }
                                    },
                                }
                            } else {
                                None
                            }
                        },
                    }
                } else {
                    None
                }
            },
        }
    } else {
        None
    }
}

/// Law: whatever a decoded sample holds came through the number grammar —
/// each of the three texts is one well-formed JSON number, so converting
/// it to a machine float cannot fail downstream.
pub proof fn lemma_decoded_texts_are_numbers(s: Seq<char>, a: AttitudeText)
    requires
        decode_spec(s) == Some(a),
    ensures
        is_json_number(a.heading),
        is_json_number(a.pitch),
        is_json_number(a.roll),
{
}

proof fn lemma_schema_keys_distinct()
    ensures
        "heading"@ != "pitch"@,
        "heading"@ != "roll"@,
        "pitch"@ != "roll"@,
{
    reveal_strlit("heading");
    reveal_strlit("pitch");
    reveal_strlit("roll");
    assert("heading"@.len() == 7);
    assert("pitch"@.len() == 5);
    assert("roll"@.len() == 4);
}

/// Which schema member a parsed key names: `heading`, `pitch`, `roll`, or
/// none of them.
fn classify_key(s: &str, from: usize, to: usize) -> (r: u8)
    requires
        from <= to <= s@.len(),
    ensures
        (r == 0) == (s@.subrange(from as int, to as int) == "heading"@),
        (r == 1) == (s@.subrange(from as int, to as int) == "pitch"@),
        (r == 2) == (s@.subrange(from as int, to as int) == "roll"@),
        r <= 3,
{
    proof {
        lemma_schema_keys_distinct();
    }
    if str_range_eq(s, from, to, "heading") {
        0
    } else if str_range_eq(s, from, to, "pitch") {
        1
    } else if str_range_eq(s, from, to, "roll") {
        2
    } else {
        3
    }
}

/// Decodes one telemetry message body. Returns the carried sample exactly
/// when the text is one JSON object with the numeric members `heading`,
/// `pitch` and `roll`, each once, in any order; returns `None` otherwise.
pub fn decode_attitude(text: &str) -> (r: Option<AttitudeSample>)
    ensures
        match r {
            Some(sample) => decode_spec(text@) == Some(sample@),
            None => decode_spec(text@) is None,
        },
{
    let n = text.unicode_len();
    let i0 = skip_spaces_in(text, 0, n);
    if !(i0 < n && text.get_char(i0) == '{') {
        return None;
    }
    let m1 = match parse_member_in(text, i0 + 1, n) {
        None => { return None; },
        Some(m) => m,
    };
    let c1 = skip_spaces_in(text, m1.next, n);
    if !(c1 < n && text.get_char(c1) == ',') {
        return None;
    }
    let m2 = match parse_member_in(text, c1 + 1, n) {
        None => { return None; },
        Some(m) => m,
    };
    let c2 = skip_spaces_in(text, m2.next, n);
    if !(c2 < n && text.get_char(c2) == ',') {
        return None;
    }
    let m3 = match parse_member_in(text, c2 + 1, n) {
        None => { return None; },
        Some(m) => m,
    };
    let c3 = skip_spaces_in(text, m3.next, n);
    if !(c3 < n && text.get_char(c3) == '}' && skip_spaces_in(text, c3 + 1, n) == n) {
        return None;
    }
    let id1 = classify_key(text, m1.key_from, m1.key_to);
    let id2 = classify_key(text, m2.key_from, m2.key_to);
    let id3 = classify_key(text, m3.key_from, m3.key_to);
    if !(id1 < 3 && id2 < 3 && id3 < 3 && id1 != id2 && id1 != id3 && id2 != id3) {
        proof {
            lemma_schema_keys_distinct();
        }
        return None;
    }
    let heading_at = if id1 == 0 {
        &m1
    } else if id2 == 0 {
        &m2
    } else {
        &m3
    };
    let pitch_at = if id1 == 1 {
        &m1
    } else if id2 == 1 {
        &m2
    } else {
        &m3
    };
    let roll_at = if id1 == 2 {
        &m1
    } else if id2 == 2 {
        &m2
    } else {
        &m3
    };
    let sample = AttitudeSample {
        heading: text.substring_char(heading_at.num_from, heading_at.num_to).to_owned(),
        pitch: text.substring_char(pitch_at.num_from, pitch_at.num_to).to_owned(),
        roll: text.substring_char(roll_at.num_from, roll_at.num_to).to_owned(),
    };
    proof {
        lemma_schema_keys_distinct();
        assert(decode_spec(text@) == Some(sample@));
    }
    Some(sample)
}

} // verus!
