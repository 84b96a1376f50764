//! Character-level encoding helpers shared by the wire formats of the
//! library: decimal digit rendering, JSON string escaping, and the
//! `application/x-www-form-urlencoded` byte encoding used in OAuth URLs.
use vstd::prelude::*;
use vstd::string::StringExecFns;
use vstd::string::StrSliceExecFns;

verus! {

/// The decimal digit character for a value between 0 and 9.
pub open spec fn digit_char(d: int) -> char {
    if d == 0 {
        '0'
    } else if d == 1 {
        '1'
    } else if d == 2 {
        '2'
    } else if d == 3 {
        '3'
    } else if d == 4 {
        '4'
    } else if d == 5 {
        '5'
    } else if d == 6 {
        '6'
    } else if d == 7 {
        '7'
    } else if d == 8 {
        '8'
    } else {
        '9'
    }
}

/// The value of a decimal digit character; -1 for any other character.
pub open spec fn digit_val(c: char) -> int {
    if c == '0' {
        0
    } else if c == '1' {
        1
    } else if c == '2' {
        2
    } else if c == '3' {
        3
    } else if c == '4' {
        4
    } else if c == '5' {
        5
    } else if c == '6' {
        6
    } else if c == '7' {
        7
    } else if c == '8' {
        8
    } else if c == '9' {
        9
    } else {
        -1
    }
}

pub open spec fn is_digit_char(c: char) -> bool {
    digit_val(c) >= 0
}

pub proof fn lemma_digit_char_val(d: int)
    requires
        0 <= d <= 9,
    ensures
        digit_val(digit_char(d)) == d,
{
}

/// A two-character, zero-padded decimal rendering of a value up to 99.
pub open spec fn pad2(n: int) -> Seq<char> {
    seq![digit_char(n / 10), digit_char(n % 10)]
}

/// A four-character, zero-padded decimal rendering of a value up to 9999.
pub open spec fn pad4(n: int) -> Seq<char> {
    seq![
        digit_char(n / 1000),
        digit_char(n / 100 % 10),
        digit_char(n / 10 % 10),
        digit_char(n % 10),
    ]
}

/// The shortest decimal rendering of a non-negative value.
pub open spec fn dec_nat(n: nat) -> Seq<char>
    decreases n,
{
    if n < 10 {
        seq![digit_char(n as int)]
    } else {
        dec_nat((n / 10) as nat) + seq![digit_char((n % 10) as int)]
    }
}

/// The decimal rendering of a signed value: a leading '-' for negatives.
pub open spec fn dec_int(n: int) -> Seq<char> {
    if n < 0 {
        seq!['-'] + dec_nat((-n) as nat)
    } else {
        dec_nat(n as nat)
    }
}

fn digit_str(d: u32) -> (r: &'static str)
    requires
        d <= 9,
    ensures
        r@ == seq![digit_char(d as int)],
        r.is_ascii(),
{
    proof {
        reveal_strlit("0");
        reveal_strlit("1");
        reveal_strlit("2");
        reveal_strlit("3");
        reveal_strlit("4");
        reveal_strlit("5");
        reveal_strlit("6");
        reveal_strlit("7");
        reveal_strlit("8");
        reveal_strlit("9");
    }
    let r: &'static str = if d == 0 {
        "0"
    } else if d == 1 {
        "1"
    } else if d == 2 {
        "2"
    } else if d == 3 {
        "3"
    } else if d == 4 {
        "4"
    } else if d == 5 {
        "5"
    } else if d == 6 {
        "6"
    } else if d == 7 {
        "7"
    } else if d == 8 {
        "8"
    } else {
        "9"
    };
    proof {
        assert(r@ =~= seq![digit_char(d as int)]);
    }
    r
}

/// Appends the two-digit zero-padded rendering of `n` to `s`.
pub fn push_pad2(s: &mut String, n: u32)
    requires
        n <= 99,
    ensures
        final(s)@ == old(s)@ + pad2(n as int),
{
    s.append(digit_str(n / 10));
    s.append(digit_str(n % 10));
    proof {
        assert(final(s)@ =~= old(s)@ + pad2(n as int));
    }
}

/// Appends the four-digit zero-padded rendering of `n` to `s`.
pub fn push_pad4(s: &mut String, n: u32)
    requires
        n <= 9999,
    ensures
        final(s)@ == old(s)@ + pad4(n as int),
{
    s.append(digit_str(n / 1000));
    s.append(digit_str(n / 100 % 10));
    s.append(digit_str(n / 10 % 10));
    s.append(digit_str(n % 10));
    proof {
        assert(final(s)@ =~= old(s)@ + pad4(n as int));
    }
}

/// The decimal rendering of an unsigned 64-bit value.
pub fn u64_to_dec(n: u64) -> (r: String)
    ensures
        r@ == dec_nat(n as nat),
    decreases n,
{
    if n < 10 {
        String::from_str(digit_str(n as u32))
    } else {
        let mut s = u64_to_dec(n / 10);
        s.append(digit_str((n % 10) as u32));
        s
    }
}

/// The decimal rendering of a signed 64-bit value.
pub fn i64_to_dec(n: i64) -> (r: String)
    ensures
        r@ == dec_int(n as int),
{
    if n >= 0 {
        u64_to_dec(n as u64)
    } else {
        let wide: i128 = n as i128;
        let mag: u64 = (-wide) as u64;
        let mut s = String::from_str("-");
        s.append(u64_to_dec(mag).as_str());
        proof {
            reveal_strlit("-");
            assert(s@ =~= seq!['-'] + dec_nat((-(n as int)) as nat));
        }
        s
    }
}

/// Relies on std's `String::push`: appends exactly the given character.
#[verifier::external_body]
pub(crate) fn push_char(s: &mut String, c: char)
    ensures
        final(s)@ == old(s)@.push(c),
{
    s.push(c);
}

/// The lowercase hexadecimal digit character for a value between 0 and 15.
pub open spec fn hex_lower(d: int) -> char {
    if d < 10 {
        digit_char(d)
    } else if d == 10 {
        'a'
    } else if d == 11 {
        'b'
    } else if d == 12 {
        'c'
    } else if d == 13 {
        'd'
    } else if d == 14 {
        'e'
    } else {
        'f'
    }
}

/// The uppercase hexadecimal digit character for a value between 0 and 15.
pub open spec fn hex_upper(d: int) -> char {
    if d < 10 {
        digit_char(d)
    } else if d == 10 {
        'A'
    } else if d == 11 {
        'B'
    } else if d == 12 {
        'C'
    } else if d == 13 {
        'D'
    } else if d == 14 {
        'E'
    } else {
        'F'
    }
}

fn hex_lower_str(d: u32) -> (r: &'static str)
    requires
        d <= 15,
    ensures
        r@ == seq![hex_lower(d as int)],
{
    if d <= 9 {
        digit_str(d)
    } else {
        proof {
            reveal_strlit("a");
            reveal_strlit("b");
            reveal_strlit("c");
            reveal_strlit("d");
            reveal_strlit("e");
            reveal_strlit("f");
        }
        let r: &'static str = if d == 10 {
            "a"
        } else if d == 11 {
            "b"
        } else if d == 12 {
            "c"
        } else if d == 13 {
            "d"
        } else if d == 14 {
            "e"
        } else {
            "f"
        };
        proof {
            assert(r@ =~= seq![hex_lower(d as int)]);
        }
        r
    }
}

fn hex_upper_str(d: u32) -> (r: &'static str)
    requires
        d <= 15,
    ensures
        r@ == seq![hex_upper(d as int)],
{
    if d <= 9 {
        digit_str(d)
    } else {
        proof {
            reveal_strlit("A");
            reveal_strlit("B");
            reveal_strlit("C");
            reveal_strlit("D");
            reveal_strlit("E");
            reveal_strlit("F");
        }
        let r: &'static str = if d == 10 {
            "A"
        } else if d == 11 {
            "B"
        } else if d == 12 {
            "C"
        } else if d == 13 {
            "D"
        } else if d == 14 {
            "E"
        } else {
            "F"
        };
        proof {
            assert(r@ =~= seq![hex_upper(d as int)]);
        }
        r
    }
}

/// How a single character appears inside a JSON string literal.
pub open spec fn json_escape_char(c: char) -> Seq<char> {
    if c == '"' {
        seq!['\\', '"']
    } else if c == '\\' {
        seq!['\\', '\\']
    } else if c == '\u{8}' {
        seq!['\\', 'b']
    } else if c == '\t' {
        seq!['\\', 't']
    } else if c == '\n' {
        seq!['\\', 'n']
    } else if c == '\u{c}' {
        seq!['\\', 'f']
    } else if c == '\r' {
        seq!['\\', 'r']
    } else if (c as u32) < 0x20 {
        seq!['\\', 'u', '0', '0', hex_lower(c as u32 as int / 16), hex_lower(c as u32 as int % 16)]
    } else {
        seq![c]
    }
}

/// The escaped body of a JSON string literal.
pub open spec fn json_escape(s: Seq<char>) -> Seq<char>
    decreases s.len(),
{
    if s.len() == 0 {
        Seq::empty()
    } else {
        json_escape_char(s[0]) + json_escape(s.drop_first())
    }
}

/// A complete JSON string literal, quotes included.
pub open spec fn json_string(s: Seq<char>) -> Seq<char> {
    seq!['"'] + json_escape(s) + seq!['"']
}

pub proof fn lemma_json_escape_concat(a: Seq<char>, b: Seq<char>)
    ensures
        json_escape(a + b) == json_escape(a) + json_escape(b),
    decreases a.len(),
{
    if a.len() == 0 {
        assert(a + b =~= b);
        assert(json_escape(a) + json_escape(b) =~= json_escape(b));
    } else {
        assert((a + b).drop_first() =~= a.drop_first() + b);
        lemma_json_escape_concat(a.drop_first(), b);
        assert(json_escape(a + b) =~= json_escape(a) + json_escape(b));
    }
}

pub proof fn lemma_json_escape_singleton(c: char)
    ensures
        json_escape(seq![c]) == json_escape_char(c),
{
    let s = seq![c];
    assert(s.drop_first().len() == 0);
    assert(json_escape(s.drop_first()) == Seq::<char>::empty());
    assert(json_escape_char(c) + Seq::<char>::empty() =~= json_escape_char(c));
}

fn push_json_escaped_char(s: &mut String, c: char)
    ensures
        final(s)@ == old(s)@ + json_escape_char(c),
{
    proof {
        reveal_strlit("\\\"");
        reveal_strlit("\\\\");
        reveal_strlit("\\b");
        reveal_strlit("\\t");
        reveal_strlit("\\n");
        reveal_strlit("\\f");
        reveal_strlit("\\r");
        reveal_strlit("\\u00");
    }
    if c == '"' {
        s.append("\\\"");
    } else if c == '\\' {
        s.append("\\\\");
    } else if c == '\u{8}' {
        s.append("\\b");
    } else if c == '\t' {
        s.append("\\t");
    } else if c == '\n' {
        s.append("\\n");
    } else if c == '\u{c}' {
        s.append("\\f");
    } else if c == '\r' {
        s.append("\\r");
    } else if (c as u32) < 0x20 {
        let code: u32 = c as u32;
        s.append("\\u00");
        s.append(hex_lower_str(code / 16));
        s.append(hex_lower_str(code % 16));
    } else {
        push_char(s, c);
        proof {
            assert(old(s)@.push(c) =~= old(s)@ + seq![c]);
        }
    }
    proof {
        assert(final(s)@ =~= old(s)@ + json_escape_char(c));
    }
}

/// Renders a string as a JSON string literal, escaping as needed.
pub fn emit_json_string(s: &str) -> (r: String)
    ensures
        r@ == json_string(s@),
{
    let mut out = String::from_str("\"");
    proof {
        reveal_strlit("\"");
        assert(out@ =~= seq!['"']);
    }
    let len = s.unicode_len();
    let mut i: usize = 0;
    while i < len
        invariant
            len == s@.len(),
            i <= len,
            out@ == seq!['"'] + json_escape(s@.take(i as int)),
        decreases len - i,
    {
        let c = s.get_char(i);
        push_json_escaped_char(&mut out, c);
        proof {
            assert(s@.take(i + 1) =~= s@.take(i as int) + seq![s@[i as int]]);
            lemma_json_escape_concat(s@.take(i as int), seq![s@[i as int]]);
            lemma_json_escape_singleton(s@[i as int]);
        }
        i = i + 1;
    }
    out.append("\"");
    proof {
        assert(s@.take(len as int) =~= s@);
        assert(out@ =~= json_string(s@));
    }
    out
}

/// Whether a byte passes through form-urlencoding unchanged: ASCII
/// alphanumerics and `*`, `-`, `.`, `_`.
pub open spec fn form_safe_byte(b: u8) -> bool {
    ||| b == 0x2a
    ||| b == 0x2d
    ||| b == 0x2e
    ||| b == 0x5f
    ||| 0x30 <= b <= 0x39
    ||| 0x41 <= b <= 0x5a
    ||| 0x61 <= b <= 0x7a
}

/// How a single byte appears in a form-urlencoded string: kept, a '+'
/// for a space, or a percent escape with uppercase hex digits.
pub open spec fn form_byte(b: u8) -> Seq<char> {
    if form_safe_byte(b) {
        seq![b as char]
    } else if b == 0x20 {
        seq!['+']
    } else {
        seq!['%', hex_upper(b as int / 16), hex_upper(b as int % 16)]
    }
}

/// The form-urlencoding of a byte sequence.
pub open spec fn form_encode_bytes(bs: Seq<u8>) -> Seq<char>
    decreases bs.len(),
{
    if bs.len() == 0 {
        Seq::empty()
    } else {
        form_byte(bs[0]) + form_encode_bytes(bs.drop_first())
    }
}

/// The form-urlencoding of a string: its UTF-8 bytes, each encoded.
pub open spec fn form_encode(s: Seq<char>) -> Seq<char> {
    form_encode_bytes(vstd::utf8::encode_utf8(s))
}

pub proof fn lemma_form_encode_bytes_concat(a: Seq<u8>, b: Seq<u8>)
    ensures
        form_encode_bytes(a + b) == form_encode_bytes(a) + form_encode_bytes(b),
    decreases a.len(),
{
    if a.len() == 0 {
        assert(a + b =~= b);
        assert(form_encode_bytes(a) + form_encode_bytes(b) =~= form_encode_bytes(b));
    } else {
        assert((a + b).drop_first() =~= a.drop_first() + b);
        lemma_form_encode_bytes_concat(a.drop_first(), b);
        assert(form_encode_bytes(a + b) =~= form_encode_bytes(a) + form_encode_bytes(b));
    }
}

pub proof fn lemma_form_encode_singleton(b: u8)
    ensures
        form_encode_bytes(seq![b]) == form_byte(b),
{
    let s = seq![b];
    assert(s.drop_first().len() == 0);
    assert(form_encode_bytes(s.drop_first()) == Seq::<char>::empty());
    assert(form_byte(b) + Seq::<char>::empty() =~= form_byte(b));
}

fn push_form_byte(s: &mut String, b: u8)
    ensures
        final(s)@ == old(s)@ + form_byte(b),
{
    let safe = (b == 0x2a) || (b == 0x2d) || (b == 0x2e) || (b == 0x5f) || (0x30 <= b && b
        <= 0x39) || (0x41 <= b && b <= 0x5a) || (0x61 <= b && b <= 0x7a);
    if safe {
        push_char(s, b as char);
        proof {
            assert(old(s)@.push(b as char) =~= old(s)@ + seq![b as char]);
        }
    } else if b == 0x20 {
        proof {
            reveal_strlit("+");
        }
        s.append("+");
        proof {
            assert("+"@ =~= seq!['+']);
        }
    } else {
        proof {
            reveal_strlit("%");
        }
        s.append("%");
        s.append(hex_upper_str(b as u32 / 16));
        s.append(hex_upper_str(b as u32 % 16));
        proof {
            assert("%"@ =~= seq!['%']);
        }
    }
    proof {
        assert(final(s)@ =~= old(s)@ + form_byte(b));
    }
}

/// Form-urlencodes a string, as query parameters of the OAuth endpoints
/// are encoded.
pub fn form_encode_str(s: &str) -> (r: String)
    ensures
        r@ == form_encode(s@),
{
    let bytes: Vec<u8> = s.as_bytes_vec();
    let mut out = String::new();
    let mut i: usize = 0;
    while i < bytes.len()
        invariant
            bytes@ == vstd::utf8::encode_utf8(s@),
            i <= bytes@.len(),
            out@ == form_encode_bytes(bytes@.take(i as int)),
        decreases bytes@.len() - i,
    {
        let b = bytes[i];
        push_form_byte(&mut out, b);
        proof {
            assert(bytes@.take(i + 1) =~= bytes@.take(i as int) + seq![bytes@[i as int]]);
            lemma_form_encode_bytes_concat(bytes@.take(i as int), seq![bytes@[i as int]]);
            lemma_form_encode_singleton(bytes@[i as int]);
        }
        i = i + 1;
    }
    proof {
        assert(bytes@.take(bytes@.len() as int) =~= bytes@);
    }
    out
}

} // verus!
