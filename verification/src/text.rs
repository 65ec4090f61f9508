//! Verified text building blocks: decimal rendering of integers and of
//! thousandth-scaled values, ASCII case folding, string equality, and
//! JSON string escaping.

use vstd::prelude::*;

verus! {

/// The character for one decimal digit.
pub open spec fn digit_char(d: int) -> char {
    if d == 0 { '0' }
    else if d == 1 { '1' }
    else if d == 2 { '2' }
    else if d == 3 { '3' }
    else if d == 4 { '4' }
    else if d == 5 { '5' }
    else if d == 6 { '6' }
    else if d == 7 { '7' }
    else if d == 8 { '8' }
    else { '9' }
}

/// The usual base-10 rendering of a non-negative integer, most
/// significant digit first, no leading zeros (except for 0 itself).
pub open spec fn dec_seq(n: nat) -> Seq<char>
    decreases n,
{
    if n < 10 {
        seq![digit_char(n as int)]
    } else {
        dec_seq(n / 10) + seq![digit_char((n % 10) as int)]
    }
}

fn digit_str(d: u64) -> (r: &'static str)
    requires
        d < 10,
    ensures
        r@ == seq![digit_char(d as int)],
{
    proof {
        reveal_strlit("0");
        reveal_strlit("1");
        reveal_strlit("2");
        reveal_strlit("3");
        reveal_strlit("4");
        reveal_strlit("5");
        reveal_strlit("6");
        reveal_strlit("7");
        reveal_strlit("8");
        reveal_strlit("9");
    }
    let r: &'static str = match d {
        0 => "0",
        1 => "1",
        2 => "2",
        3 => "3",
        4 => "4",
        5 => "5",
        6 => "6",
        7 => "7",
        8 => "8",
        _ => "9",
    };
    proof {
        assert(r@ =~= seq![digit_char(d as int)]);
    }
    r
}

/// Renders a `u64` in base 10.
pub fn u64_to_dec(n: u64) -> (r: String)
    ensures
        r@ == dec_seq(n as nat),
    decreases n,
{
    if n < 10 {
        let s = digit_str(n).to_owned();
        proof {
            assert(s@ =~= dec_seq(n as nat));
        }
        s
    } else {
        let mut s = u64_to_dec(n / 10);
        s.append(digit_str(n % 10));
        proof {
            assert(s@ =~= dec_seq(n as nat));
        }
        s
    }
}

/// Base-10 rendering of the fractional part of a value held in
/// thousandths, with trailing zeros dropped: 500 -> "5", 250 -> "25",
/// 123 -> "123".
pub open spec fn frac_digits(f: int) -> Seq<char> {
    let d1 = digit_char(f / 100);
    let d2 = digit_char((f / 10) % 10);
    let d3 = digit_char(f % 10);
    if f % 10 != 0 {
        seq![d1, d2, d3]
    } else if (f / 10) % 10 != 0 {
        seq![d1, d2]
    } else {
        seq![d1]
    }
}

/// Rendering of a non-negative value held in thousandths. In the
/// `json` style a fractional part is always present ("1.0", "0.5");
/// otherwise whole values are rendered bare ("1", "440").
pub open spec fn milli_nonneg_seq(m: int, json: bool) -> Seq<char> {
    let whole = dec_seq((m / 1000) as nat);
    if m % 1000 == 0 {
        if json {
            whole + seq!['.', '0']
        } else {
            whole
        }
    } else {
        whole + seq!['.'] + frac_digits(m % 1000)
    }
}

/// Rendering of a signed value held in thousandths.
pub open spec fn milli_seq(m: int, json: bool) -> Seq<char> {
    if m < 0 {
        seq!['-'] + milli_nonneg_seq(-m, json)
    } else {
        milli_nonneg_seq(m, json)
    }
}

fn frac_str(f: u64) -> (r: String)
    requires
        f < 1000,
    ensures
        r@ == frac_digits(f as int),
{
    let mut s = digit_str(f / 100).to_owned();
    if f % 10 != 0 {
        s.append(digit_str((f / 10) % 10));
        s.append(digit_str(f % 10));
        proof {
            assert(s@ =~= frac_digits(f as int));
        }
    } else if (f / 10) % 10 != 0 {
        s.append(digit_str((f / 10) % 10));
        proof {
            assert(s@ =~= frac_digits(f as int));
        }
    } else {
        proof {
            assert(s@ =~= frac_digits(f as int));
        }
    }
    s
}

/// Renders a signed value held in thousandths, in either style.
pub fn i64_milli_to_dec(m: i64, json: bool) -> (r: String)
    ensures
        r@ == milli_seq(m as int, json),
{
    let mag: u64 = if m >= 0 {
        m as u64
    } else {
        proof {
            assert(0 < -(m as i128) <= 0x8000_0000_0000_0000i128);
        }
        (-(m as i128)) as u64
    };
    proof {
        assert(mag == if m < 0 { -(m as int) } else { m as int });
    }
    let mut s: String = if m < 0 {
        "-".to_owned()
    } else {
        "".to_owned()
    };
    let whole = u64_to_dec(mag / 1000);
    s.append(whole.as_str());
    if mag % 1000 == 0 {
        if json {
            s.append(".0");
            proof {
                reveal_strlit("-");
                reveal_strlit("");
                reveal_strlit(".0");
                assert(s@ =~= milli_seq(m as int, json));
            }
        } else {
            proof {
                reveal_strlit("-");
                reveal_strlit("");
                assert(s@ =~= milli_seq(m as int, json));
            }
        }
    } else {
        s.append(".");
        let fr = frac_str(mag % 1000);
        s.append(fr.as_str());
        proof {
            reveal_strlit("-");
            reveal_strlit("");
            reveal_strlit(".");
            assert(s@ =~= milli_seq(m as int, json));
        }
    }
    s
}

/// ASCII case folding of one character: 'A'..'Z' map to 'a'..'z',
/// everything else stays as it is.
pub open spec fn lower_char(c: char) -> char {
    if 65 <= c as u32 && c as u32 <= 90 {
        ((c as u32 + 32) as char)
    } else {
        c
    }
}

/// ASCII case folding of a whole string.
pub open spec fn lower_seq(s: Seq<char>) -> Seq<char> {
    s.map_values(|c: char| lower_char(c))
}

/// Relies on char::from_u32: for a valid Unicode scalar value it
/// returns the character with exactly that code point.
#[verifier::external_body]
fn char_from_u32(u: u32) -> (r: char)
    requires
        u < 0xD800,
    ensures
        r as u32 == u,
{
    char::from_u32(u).unwrap()
}

/// Relies on char::to_string: the resulting string holds exactly that
/// one character.
#[verifier::external_body]
fn char_to_string(c: char) -> (r: String)
    ensures
        r@ == seq![c],
{
    c.to_string()
}

/// ASCII-lowercases a string.
pub fn to_ascii_lower(s: &str) -> (r: String)
    ensures
        r@ == lower_seq(s@),
{
    let n = s.unicode_len();
    let mut out = String::new();
    let mut i: usize = 0;
    while i < n
        invariant
            n == s@.len(),
            0 <= i <= n,
            out@ =~= lower_seq(s@.take(i as int)),
        decreases n - i,
    {
        let c = s.get_char(i);
        let u = c as u32;
        if 65 <= u && u <= 90 {
            let lc = char_from_u32(u + 32);
            proof {
                vstd::utf8::char_u32_cast(lc, (u + 32) as u32);
            }
            let piece = char_to_string(lc);
            out.append(piece.as_str());
        } else {
            let piece = s.substring_char(i, i + 1);
            out.append(piece);
        }
        proof {
            assert(out@ =~= lower_seq(s@.take(i as int + 1)));
        }
        i = i + 1;
    }
    proof {
        assert(s@.take(n as int) =~= s@);
    }
    out
}

/// Character-by-character string equality, stated over the views.
pub fn str_eq(a: &str, b: &str) -> (r: bool)
    ensures
        r == (a@ == b@),
{
    let na = a.unicode_len();
    let nb = b.unicode_len();
    if na != nb {
        return false;
    }
    let mut i: usize = 0;
    while i < na
        invariant
            na == a@.len(),
            na == b@.len(),
            0 <= i <= na,
            forall|j: int| 0 <= j < i ==> a@[j] == b@[j],
        decreases na - i,
    {
        if a.get_char(i) != b.get_char(i) {
            return false;
        }
        i = i + 1;
    }
    proof {
        assert(a@ =~= b@);
    }
    true
}

/// The character for one hexadecimal digit, lower case.
pub open spec fn hex_char(d: int) -> char {
    if d < 10 {
        digit_char(d)
    } else if d == 10 {
        'a'
    } else if d == 11 {
        'b'
    } else if d == 12 {
        'c'
    } else if d == 13 {
        'd'
    } else if d == 14 {
        'e'
    } else {
        'f'
    }
}

/// How one character is written inside a JSON string literal: quote,
/// backslash and the short control escapes get a two-character escape,
/// any other control character a \u00XX escape, and everything else
/// stands as itself.
pub open spec fn escape_char(c: char) -> Seq<char> {
    if c == '"' {
        seq!['\\', '"']
    } else if c == '\\' {
        seq!['\\', '\\']
    } else if c == '\u{8}' {
        seq!['\\', 'b']
    } else if c == '\t' {
        seq!['\\', 't']
    } else if c == '\n' {
        seq!['\\', 'n']
    } else if c == '\u{c}' {
        seq!['\\', 'f']
    } else if c == '\r' {
        seq!['\\', 'r']
    } else if (c as u32) < 32 {
        seq!['\\', 'u', '0', '0', hex_char(c as u32 as int / 16), hex_char(c as u32 as int % 16)]
    } else {
        seq![c]
    }
}

/// A whole string as it is written inside a JSON string literal.
pub open spec fn json_escaped(s: Seq<char>) -> Seq<char>
    decreases s.len(),
{
    if s.len() == 0 {
        Seq::empty()
    } else {
        escape_char(s[0]) + json_escaped(s.skip(1))
    }
}

proof fn lemma_json_escaped_push(s: Seq<char>, c: char)
    ensures
        json_escaped(s.push(c)) == json_escaped(s) + escape_char(c),
    decreases s.len(),
{
    if s.len() == 0 {
        assert(s.push(c).skip(1) =~= Seq::<char>::empty());
        assert(s.push(c)[0] == c);
        assert(json_escaped(s.push(c)) == escape_char(c) + json_escaped(Seq::<char>::empty()));
        assert(escape_char(c) + Seq::<char>::empty() =~= escape_char(c));
        assert(json_escaped(s) + escape_char(c) =~= escape_char(c));
        assert(json_escaped(s.push(c)) =~= json_escaped(s) + escape_char(c));
    } else {
        lemma_json_escaped_push(s.skip(1), c);
        assert(s.push(c).skip(1) =~= s.skip(1).push(c));
        assert(json_escaped(s.push(c)) =~= json_escaped(s) + escape_char(c));
    }
}

fn hex_str(d: u32) -> (r: &'static str)
    requires
        d < 16,
    ensures
        r@ == seq![hex_char(d as int)],
{
    proof {
        reveal_strlit("a");
        reveal_strlit("b");
        reveal_strlit("c");
        reveal_strlit("d");
        reveal_strlit("e");
        reveal_strlit("f");
    }
    if d < 10 {
        digit_str(d as u64)
    } else {
        let r: &'static str = match d {
            10 => "a",
            11 => "b",
            12 => "c",
            13 => "d",
            14 => "e",
            _ => "f",
        };
        proof {
            assert(r@ =~= seq![hex_char(d as int)]);
        }
        r
    }
}

/// Escapes a string for embedding in a JSON string literal.
pub fn escape_json(s: &str) -> (r: String)
    ensures
        r@ == json_escaped(s@),
{
    let n = s.unicode_len();
    let mut out = String::new();
    let mut i: usize = 0;
    while i < n
        invariant
            n == s@.len(),
            0 <= i <= n,
            out@ == json_escaped(s@.take(i as int)),
        decreases n - i,
    {
        let c = s.get_char(i);
        if c == '"' {
            out.append("\\\"");
            proof {
                reveal_strlit("\\\"");
                assert(out@ =~= json_escaped(s@.take(i as int)) + escape_char(s@[i as int]));
            }
        } else if c == '\\' {
            out.append("\\\\");
            proof {
                reveal_strlit("\\\\");
                assert(out@ =~= json_escaped(s@.take(i as int)) + escape_char(s@[i as int]));
            }
        } else if c == '\u{8}' {
            out.append("\\b");
            proof {
                reveal_strlit("\\b");
                assert(out@ =~= json_escaped(s@.take(i as int)) + escape_char(s@[i as int]));
            }
        } else if c == '\t' {
            out.append("\\t");
            proof {
                reveal_strlit("\\t");
                assert(out@ =~= json_escaped(s@.take(i as int)) + escape_char(s@[i as int]));
            }
        } else if c == '\n' {
            out.append("\\n");
            proof {
                reveal_strlit("\\n");
                assert(out@ =~= json_escaped(s@.take(i as int)) + escape_char(s@[i as int]));
            }
        } else if c == '\u{c}' {
            out.append("\\f");
            proof {
                reveal_strlit("\\f");
                assert(out@ =~= json_escaped(s@.take(i as int)) + escape_char(s@[i as int]));
            }
        } else if c == '\r' {
            out.append("\\r");
            proof {
                reveal_strlit("\\r");
                assert(out@ =~= json_escaped(s@.take(i as int)) + escape_char(s@[i as int]));
            }
        } else if (c as u32) < 32 {
            let u = c as u32;
            out.append("\\u00");
            out.append(hex_str(u / 16));
            out.append(hex_str(u % 16));
            proof {
                reveal_strlit("\\u00");
                assert(out@ =~= json_escaped(s@.take(i as int)) + escape_char(s@[i as int]));
            }
        } else {
            let piece = s.substring_char(i, i + 1);
            out.append(piece);
            proof {
                assert(piece@ =~= seq![s@[i as int]]);
                assert(out@ =~= json_escaped(s@.take(i as int)) + escape_char(s@[i as int]));
            }
        }
        proof {
            lemma_json_escaped_push(s@.take(i as int), s@[i as int]);
            assert(s@.take(i as int).push(s@[i as int]) =~= s@.take(i as int + 1));
        }
        i = i + 1;
    }
    proof {
        assert(s@.take(n as int) =~= s@);
    }
    out
}

} // verus!
