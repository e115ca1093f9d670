//! Character-level string building: appending single characters and the
//! decimal and hexadecimal renderings of integers, with exact specifications.

use vstd::prelude::*;

verus! {

/// Relies on String::push: appends exactly the given character.
#[verifier::external_body]
pub fn push_char(s: &mut String, c: char)
    ensures
        final(s)@ == old(s)@.push(c),
{
    s.push(c);
}

/// The character for a single decimal or hexadecimal digit value.
pub open spec fn digit_char(d: int) -> char {
    if d == 0 {
        '0'
    } else if d == 1 {
        '1'
    } else if d == 2 {
        '2'
    } else if d == 3 {
        '3'
    } else if d == 4 {
        '4'
    } else if d == 5 {
        '5'
    } else if d == 6 {
        '6'
    } else if d == 7 {
        '7'
    } else if d == 8 {
        '8'
    } else if d == 9 {
        '9'
    } else if d == 10 {
        'a'
    } else if d == 11 {
        'b'
    } else if d == 12 {
        'c'
    } else if d == 13 {
        'd'
    } else if d == 14 {
        'e'
    } else {
        'f'
    }
}

/// The decimal rendering of a natural number, most significant digit first.
pub open spec fn dec_str(n: nat) -> Seq<char>
    decreases n,
{
    if n < 10 {
        seq![digit_char(n as int)]
    } else {
        dec_str(n / 10) + seq![digit_char((n % 10) as int)]
    }
}

/// The hexadecimal rendering of a natural number, lower case, no prefix.
pub open spec fn hex_str(n: nat) -> Seq<char>
    decreases n,
{
    if n < 16 {
        seq![digit_char(n as int)]
    } else {
        hex_str(n / 16) + seq![digit_char((n % 16) as int)]
    }
}

fn digit_char_exec(d: u64) -> (c: char)
    requires
        d < 16,
    ensures
        c == digit_char(d as int),
{
    if d == 0 {
        '0'
    } else if d == 1 {
        '1'
    } else if d == 2 {
        '2'
    } else if d == 3 {
        '3'
    } else if d == 4 {
        '4'
    } else if d == 5 {
        '5'
    } else if d == 6 {
        '6'
    } else if d == 7 {
        '7'
    } else if d == 8 {
        '8'
    } else if d == 9 {
        '9'
    } else if d == 10 {
        'a'
    } else if d == 11 {
        'b'
    } else if d == 12 {
        'c'
    } else if d == 13 {
        'd'
    } else if d == 14 {
        'e'
    } else {
        'f'
    }
}

/// Append the decimal rendering of `n` to `s`.
pub fn push_dec_u64(s: &mut String, n: u64)
    ensures
        final(s)@ == old(s)@ + dec_str(n as nat),
    decreases n,
{
    if n >= 10 {
        push_dec_u64(s, n / 10);
    }
    push_char(s, digit_char_exec(n % 10));
    assert(final(s)@ =~= old(s)@ + dec_str(n as nat));
}

/// The decimal rendering of `n` as a fresh string.
pub fn dec_u64_string(n: u64) -> (r: String)
    ensures
        r@ == dec_str(n as nat),
{
    let mut s = String::new();
    push_dec_u64(&mut s, n);
    assert(s@ =~= dec_str(n as nat));
    s
}

/// Append the hexadecimal rendering of `n` to `s`.
pub fn push_hex_u64(s: &mut String, n: u64)
    ensures
        final(s)@ == old(s)@ + hex_str(n as nat),
    decreases n,
{
    if n >= 16 {
        push_hex_u64(s, n / 16);
    }
    push_char(s, digit_char_exec(n % 16));
    assert(final(s)@ =~= old(s)@ + hex_str(n as nat));
}

/// The hexadecimal rendering of `n` as a fresh string.
pub fn hex_u64_string(n: u64) -> (r: String)
    ensures
        r@ == hex_str(n as nat),
{
    let mut s = String::new();
    push_hex_u64(&mut s, n);
    assert(s@ =~= hex_str(n as nat));
    s
}

/// How one character reads inside a JSON string literal: quote, backslash and
/// control characters are escaped, everything else stands as itself.
pub open spec fn escaped_char(c: char) -> Seq<char> {
    if c == '"' {
        seq!['\\', '"']
    } else if c == '\\' {
        seq!['\\', '\\']
    } else if c == '\u{8}' {
        seq!['\\', 'b']
    } else if c == '\u{c}' {
        seq!['\\', 'f']
    } else if c == '\n' {
        seq!['\\', 'n']
    } else if c == '\r' {
        seq!['\\', 'r']
    } else if c == '\t' {
        seq!['\\', 't']
    } else if (c as u32) < 0x20 {
        seq!['\\', 'u', '0', '0', digit_char(c as u32 as int / 16), digit_char(c as u32 as int % 16)]
    } else {
        seq![c]
    }
}

/// The body of a JSON string literal holding the text `s`.
pub open spec fn json_escaped(s: Seq<char>) -> Seq<char>
    decreases s.len(),
{
    if s.len() == 0 {
        Seq::empty()
    } else {
        escaped_char(s[0]) + json_escaped(s.drop_first())
    }
}

/// A complete JSON string literal holding the text `s`, quotes included.
pub open spec fn json_quoted(s: Seq<char>) -> Seq<char> {
    seq!['"'] + json_escaped(s) + seq!['"']
}

pub proof fn lemma_json_escaped_push(s: Seq<char>, c: char)
    ensures
        json_escaped(s.push(c)) == json_escaped(s) + escaped_char(c),
    decreases s.len(),
{
    let sc = s.push(c);
    assert(sc.len() == s.len() + 1);
    if s.len() == 0 {
        assert(sc[0] == c);
        assert(sc.drop_first() =~= Seq::<char>::empty());
        assert(json_escaped(sc) == escaped_char(c) + json_escaped(Seq::<char>::empty()));
        assert(escaped_char(c) + Seq::<char>::empty() =~= escaped_char(c));
        assert(json_escaped(s) + escaped_char(c) =~= escaped_char(c));
    } else {
        assert(sc[0] == s[0]);
        assert(sc.drop_first() =~= s.drop_first().push(c));
        lemma_json_escaped_push(s.drop_first(), c);
        assert(json_escaped(sc) == escaped_char(s[0]) + (json_escaped(s.drop_first()) + escaped_char(c)));
        assert(escaped_char(s[0]) + (json_escaped(s.drop_first()) + escaped_char(c)) =~= (escaped_char(
            s[0],
        ) + json_escaped(s.drop_first())) + escaped_char(c));
    }
}

/// Append the escaped form of the one character `c` to `s`.
fn push_escaped_char(s: &mut String, c: char)
    ensures
        final(s)@ == old(s)@ + escaped_char(c),
{
    if c == '"' {
        push_char(s, '\\');
        push_char(s, '"');
        assert(final(s)@ =~= old(s)@ + escaped_char(c));
    } else if c == '\\' {
        push_char(s, '\\');
        push_char(s, '\\');
        assert(final(s)@ =~= old(s)@ + escaped_char(c));
    } else if c == '\u{8}' {
        push_char(s, '\\');
        push_char(s, 'b');
        assert(final(s)@ =~= old(s)@ + escaped_char(c));
    } else if c == '\u{c}' {
        push_char(s, '\\');
        push_char(s, 'f');
        assert(final(s)@ =~= old(s)@ + escaped_char(c));
    } else if c == '\n' {
        push_char(s, '\\');
        push_char(s, 'n');
        assert(final(s)@ =~= old(s)@ + escaped_char(c));
    } else if c == '\r' {
        push_char(s, '\\');
        push_char(s, 'r');
        assert(final(s)@ =~= old(s)@ + escaped_char(c));
    } else if c == '\t' {
        push_char(s, '\\');
        push_char(s, 't');
        assert(final(s)@ =~= old(s)@ + escaped_char(c));
    } else if (c as u32) < 0x20 {
        push_char(s, '\\');
        push_char(s, 'u');
        push_char(s, '0');
        push_char(s, '0');
        push_char(s, digit_char_exec((c as u32 / 16) as u64));
        push_char(s, digit_char_exec((c as u32 % 16) as u64));
        assert(final(s)@ =~= old(s)@ + escaped_char(c));
    } else {
        push_char(s, c);
        assert(final(s)@ =~= old(s)@ + escaped_char(c));
    }
}

/// Append the escaped form of `t` (without quotes) to `s`.
pub fn push_json_escaped(s: &mut String, t: &str)
    ensures
        final(s)@ == old(s)@ + json_escaped(t@),
{
    let n = t.unicode_len();
    let mut i: usize = 0;
    while i < n
        invariant
            n == t@.len(),
            i <= n,
            s@ == old(s)@ + json_escaped(t@.subrange(0, i as int)),
        decreases n - i,
    {
        let c = t.get_char(i);
        push_escaped_char(s, c);
        proof {
            lemma_json_escaped_push(t@.subrange(0, i as int), t@[i as int]);
            assert(t@.subrange(0, i as int + 1) =~= t@.subrange(0, i as int).push(t@[i as int]));
            assert(s@ =~= old(s)@ + json_escaped(t@.subrange(0, i as int + 1)));
        }
        i = i + 1;
    }
    assert(t@.subrange(0, n as int) =~= t@);
}

/// Append a complete JSON string literal holding `t` to `s`.
pub fn push_json_quoted(s: &mut String, t: &str)
    ensures
        final(s)@ == old(s)@ + json_quoted(t@),
{
    push_char(s, '"');
    push_json_escaped(s, t);
    push_char(s, '"');
    assert(final(s)@ =~= old(s)@ + json_quoted(t@));
}


/// The body of a JSON array of strings, comma separated.
pub open spec fn string_array_body(items: Seq<Seq<char>>) -> Seq<char>
    decreases items.len(),
{
    if items.len() == 0 {
        Seq::empty()
    } else if items.len() == 1 {
        json_quoted(items[0])
    } else {
        string_array_body(items.drop_last()) + seq![','] + json_quoted(items.last())
    }
}

/// A JSON array of strings.
pub open spec fn string_array_json(items: Seq<Seq<char>>) -> Seq<char> {
    seq!['['] + string_array_body(items) + seq![']']
}

/// Append a JSON array of strings.
pub fn push_string_array(s: &mut String, items: &Vec<String>)
    ensures
        final(s)@ == old(s)@ + string_array_json(items.deep_view()),
{
    push_char(s, '[');
    let n = items.len();
    let mut i: usize = 0;
    while i < n
        invariant
            n == items.len(),
            i <= n,
            s@ == old(s)@ + seq!['['] + string_array_body(items.deep_view().subrange(0, i as int)),
        decreases n - i,
    {
        if i > 0 {
            push_char(s, ',');
        }
        push_json_quoted(s, items[i].as_str());
        proof {
            let all = items.deep_view();
            assert(all.subrange(0, i as int + 1).drop_last() =~= all.subrange(0, i as int));
            assert(all.subrange(0, i as int + 1).last() == all[i as int]);
            assert(s@ =~= old(s)@ + seq!['['] + string_array_body(all.subrange(0, i as int + 1)));
        }
        i = i + 1;
    }
    push_char(s, ']');
    proof {
        let all = items.deep_view();
        assert(all.subrange(0, n as int) =~= all);
        assert(final(s)@ =~= old(s)@ + string_array_json(all));
    }
}



/// Whether a character is ASCII whitespace as line trimming treats it.
pub open spec fn is_ws(c: char) -> bool {
    c == ' ' || c == '\t' || c == '\n' || c == '\r'
}

/// The sequence with leading whitespace removed.
pub open spec fn trim_front(s: Seq<char>) -> Seq<char>
    decreases s.len(),
{
    if s.len() > 0 && is_ws(s[0]) {
        trim_front(s.drop_first())
    } else {
        s
    }
}

/// The sequence with trailing whitespace removed.
pub open spec fn trim_back(s: Seq<char>) -> Seq<char>
    decreases s.len(),
{
    if s.len() > 0 && is_ws(s.last()) {
        trim_back(s.drop_last())
    } else {
        s
    }
}

/// The sequence with whitespace removed from both ends.
pub open spec fn trimmed(s: Seq<char>) -> Seq<char> {
    trim_back(trim_front(s))
}

fn is_ws_exec(c: char) -> (r: bool)
    ensures
        r == is_ws(c),
{
    c == ' ' || c == '\t' || c == '\n' || c == '\r'
}

/// Remove ASCII whitespace from both ends of `t`.
pub fn trim_str(t: &str) -> (r: String)
    ensures
        r@ == trimmed(t@),
{
    let n = t.unicode_len();
    proof {
        assert(t@.subrange(0, n as int) =~= t@);
    }
    let mut i: usize = 0;
    while i < n && is_ws_exec(t.get_char(i))
        invariant
            n == t@.len(),
            i <= n,
            trim_front(t@) == trim_front(t@.subrange(i as int, n as int)),
        decreases n - i,
    {
        proof {
            assert(t@.subrange(i as int, n as int).drop_first() =~= t@.subrange(
                i as int + 1,
                n as int,
            ));
        }
        i = i + 1;
    }
    proof {
        assert(trim_front(t@) == t@.subrange(i as int, n as int));
    }
    let mut j: usize = n;
    while j > i && is_ws_exec(t.get_char(j - 1))
        invariant
            n == t@.len(),
            i <= j <= n,
            trim_front(t@) == t@.subrange(i as int, n as int),
            trim_back(t@.subrange(i as int, n as int)) == trim_back(
                t@.subrange(i as int, j as int),
            ),
        decreases j,
    {
        proof {
            assert(t@.subrange(i as int, j as int).drop_last() =~= t@.subrange(
                i as int,
                j as int - 1,
            ));
        }
        j = j - 1;
    }
    proof {
        assert(trimmed(t@) == t@.subrange(i as int, j as int));
    }
    let piece = t.substring_char(i, j);
    piece.to_owned()
}


/// Relies on str's PartialEq: equality of the two texts.
#[verifier::external_body]
pub fn str_eq(a: &str, b: &str) -> (r: bool)
    ensures
        r == (a@ == b@),
{
    a == b
}


/// The decimal rendering of an integer, with a leading minus when negative.
pub open spec fn int_str(n: int) -> Seq<char> {
    if n < 0 {
        seq!['-'] + dec_str((-n) as nat)
    } else {
        dec_str(n as nat)
    }
}

/// Append the decimal rendering of a signed 32-bit value to `s`.
pub fn push_dec_i32(s: &mut String, n: i32)
    ensures
        final(s)@ == old(s)@ + int_str(n as int),
{
    if n < 0 {
        push_char(s, '-');
        let mag: u64 = (-(n as i64)) as u64;
        push_dec_u64(s, mag);
        assert(final(s)@ =~= old(s)@ + int_str(n as int));
    } else {
        push_dec_u64(s, n as u64);
    }
}


/// Append the decimal rendering of a signed 64-bit value to `s`.
pub fn push_dec_i64(s: &mut String, n: i64)
    ensures
        final(s)@ == old(s)@ + int_str(n as int),
{
    if n < 0 {
        push_char(s, '-');
        let mag: u64 = if n == i64::MIN {
            9223372036854775808u64
        } else {
            (-n) as u64
        };
        assert(mag as nat == (-(n as int)) as nat);
        push_dec_u64(s, mag);
        assert(final(s)@ =~= old(s)@ + int_str(n as int));
    } else {
        push_dec_u64(s, n as u64);
    }
}

} // verus!
