//! The serialized wire body.
//!
//! An error crosses the wire as a structured text object with exactly two
//! string fields, `message` and `status`, in that order:
//!
//! ```text
//! {"message":"...","status":"..."}
//! ```
//!
//! [`wire_body`] is the mathematical definition of that text;
//! [`push_escaped`] is the verified escaping routine the renderer uses;
//! [`decode_wire_body`] reads the text back, and
//! [`lemma_wire_body_round_trip`] proves that decoding recovers both fields
//! verbatim, whatever characters they hold.

use vstd::prelude::*;

verus! {

/// Relies on `String::push`: it appends exactly the one given character.
pub assume_specification[ String::push ](s: &mut String, c: char)
    ensures
        final(s)@ == old(s)@.push(c),
;

/// The hexadecimal digit character for a value below sixteen.
pub open spec fn hex_digit(n: int) -> char {
    if n == 0 { '0' }
    else if n == 1 { '1' }
    else if n == 2 { '2' }
    else if n == 3 { '3' }
    else if n == 4 { '4' }
    else if n == 5 { '5' }
    else if n == 6 { '6' }
    else if n == 7 { '7' }
    else if n == 8 { '8' }
    else if n == 9 { '9' }
    else if n == 10 { 'a' }
    else if n == 11 { 'b' }
    else if n == 12 { 'c' }
    else if n == 13 { 'd' }
    else if n == 14 { 'e' }
    else { 'f' }
}

/// The value of a lowercase hexadecimal digit character.
pub open spec fn hex_val(c: char) -> Option<int> {
    if c == '0' { Some(0) }
    else if c == '1' { Some(1) }
    else if c == '2' { Some(2) }
    else if c == '3' { Some(3) }
    else if c == '4' { Some(4) }
    else if c == '5' { Some(5) }
    else if c == '6' { Some(6) }
    else if c == '7' { Some(7) }
    else if c == '8' { Some(8) }
    else if c == '9' { Some(9) }
    else if c == 'a' { Some(10) }
    else if c == 'b' { Some(11) }
    else if c == 'c' { Some(12) }
    else if c == 'd' { Some(13) }
    else if c == 'e' { Some(14) }
    else if c == 'f' { Some(15) }
    else { None }
}

/// How one character of a field is written inside a quoted string.
///
/// Quotes and backslashes take a backslash escape; the five control
/// characters with short escapes use them; every other control character,
/// and delete, becomes a lowercase `\u00..` escape; everything else stands
/// for itself.
pub open spec fn escape_char(c: char) -> Seq<char> {
    if c == '"' { seq!['\\', '"'] }
    else if c == '\\' { seq!['\\', '\\'] }
    else if c == '\u{8}' { seq!['\\', 'b'] }
    else if c == '\t' { seq!['\\', 't'] }
    else if c == '\n' { seq!['\\', 'n'] }
    else if c == '\u{c}' { seq!['\\', 'f'] }
    else if c == '\r' { seq!['\\', 'r'] }
    else if (c as u32) < 0x20 || c == '\u{7f}' {
        seq!['\\', 'u', '0', '0', hex_digit(((c as u32) / 16) as int), hex_digit(((c as u32) % 16) as int)]
    } else {
        seq![c]
    }
}

/// A whole field, escaped character by character.
pub open spec fn escape_seq(s: Seq<char>) -> Seq<char>
    decreases s.len(),
{
    if s.len() == 0 {
        Seq::empty()
    } else {
        escape_char(s[0]) + escape_seq(s.skip(1))
    }
}

/// The canonical wire body for a status token and a message.
pub open spec fn wire_body(status: Seq<char>, message: Seq<char>) -> Seq<char> {
    "{\"message\":\""@ + escape_seq(message) + "\",\"status\":\""@ + escape_seq(status) + "\"}"@
}

/// Whether a character may follow a backslash as a one-letter escape.
pub open spec fn is_simple_escape(c: char) -> bool {
    c == '"' || c == '\\' || c == 'b' || c == 't' || c == 'n' || c == 'f' || c == 'r'
}

/// The character a one-letter escape stands for.
pub open spec fn unescape_simple(c: char) -> char {
    if c == '"' { '"' }
    else if c == '\\' { '\\' }
    else if c == 'b' { '\u{8}' }
    else if c == 't' { '\t' }
    else if c == 'n' { '\n' }
    else if c == 'f' { '\u{c}' }
    else { '\r' }
}

/// Reads one quoted-string body from the front of `s`, up to and including
/// its closing quote, undoing the escapes of [`escape_char`].
///
/// Returns the decoded content and the remainder after the closing quote,
/// or `None` where `s` does not start with such a body. Covers exactly the
/// escape forms the encoder emits (one-letter escapes and lowercase
/// `\u00..` escapes for control characters and delete).
pub open spec fn decode_content(s: Seq<char>) -> Option<(Seq<char>, Seq<char>)>
    decreases s.len(),
{
    if s.len() == 0 {
        None
    } else if s[0] == '"' {
        Some((Seq::empty(), s.skip(1)))
    } else if s[0] == '\\' {
        if s.len() >= 2 && is_simple_escape(s[1]) {
            match decode_content(s.skip(2)) {
                Some(r) => Some((seq![unescape_simple(s[1])] + r.0, r.1)),
                None => None,
            }
        } else if s.len() >= 6 && s[1] == 'u' {
            match (hex_val(s[2]), hex_val(s[3]), hex_val(s[4]), hex_val(s[5])) {
                (Some(v2), Some(v3), Some(v4), Some(v5)) => {
                    let code = v2 * 4096 + v3 * 256 + v4 * 16 + v5;
                    if code < 0x20 || code == 0x7f {
                        match decode_content(s.skip(6)) {
                            Some(r) => Some((seq![((code as u32) as char)] + r.0, r.1)),
                            None => None,
                        }
                    } else {
                        None
                    }
                }
                _ => None,
            }
        } else {
            None
        }
    } else {
        match decode_content(s.skip(1)) {
            Some(r) => Some((seq![s[0]] + r.0, r.1)),
            None => None,
        }
    }
}

/// Reads a whole wire body back into its two fields.
///
/// Returns `Some((status, message))` where `t` is a well-formed two-field
/// body, `None` otherwise.
pub open spec fn decode_wire_body(t: Seq<char>) -> Option<(Seq<char>, Seq<char>)> {
    let head = "{\"message\":\""@;
    let sep = ",\"status\":\""@;
    if t.len() >= head.len() && t.take(head.len() as int) == head {
        match decode_content(t.skip(head.len() as int)) {
            Some(mr) => {
                if mr.1.len() >= sep.len() && mr.1.take(sep.len() as int) == sep {
                    match decode_content(mr.1.skip(sep.len() as int)) {
                        Some(sr) => {
                            if sr.1 == "}"@ { Some((sr.0, mr.0)) } else { None }
                        },
                        None => None,
                    }
                } else {
                    None
                }
            },
            None => None,
        }
    } else {
        None
    }
}

/// Escaping distributes over appending one character at the end.
proof fn lemma_escape_seq_snoc(s: Seq<char>, c: char)
    ensures
        escape_seq(s.push(c)) == escape_seq(s) + escape_char(c),
    decreases s.len(),
{
    if s.len() == 0 {
        assert(s.push(c).len() == 1);
        assert(s.push(c)[0] == c);
        assert(s.push(c).skip(1) =~= Seq::<char>::empty());
        assert(escape_seq(s.push(c)) == escape_char(c) + escape_seq(Seq::<char>::empty()));
        assert(escape_char(c) + Seq::<char>::empty() =~= escape_char(c));
        assert(escape_seq(s) + escape_char(c) =~= escape_char(c));
        assert(escape_seq(s.push(c)) == escape_seq(s) + escape_char(c));
    } else {
        lemma_escape_seq_snoc(s.skip(1), c);
        assert(s.push(c).len() == s.len() + 1);
        assert(s.push(c)[0] == s[0]);
        assert(s.push(c).skip(1) =~= s.skip(1).push(c));
        assert(escape_seq(s.push(c)) == escape_char(s[0]) + escape_seq(s.skip(1).push(c)));
        assert(escape_seq(s.skip(1).push(c)) == escape_seq(s.skip(1)) + escape_char(c));
        assert(escape_char(s[0]) + (escape_seq(s.skip(1)) + escape_char(c)) =~= (escape_char(
            s[0],
        ) + escape_seq(s.skip(1))) + escape_char(c));
        assert(escape_seq(s) == escape_char(s[0]) + escape_seq(s.skip(1)));
        assert(escape_seq(s.push(c)) == escape_seq(s) + escape_char(c));
    }
}

fn hex_digit_char(n: u8) -> (r: char)
    requires
        n < 16,
    ensures
        r == hex_digit(n as int),
{
    if n == 0 { '0' }
    else if n == 1 { '1' }
    else if n == 2 { '2' }
    else if n == 3 { '3' }
    else if n == 4 { '4' }
    else if n == 5 { '5' }
    else if n == 6 { '6' }
    else if n == 7 { '7' }
    else if n == 8 { '8' }
    else if n == 9 { '9' }
    else if n == 10 { 'a' }
    else if n == 11 { 'b' }
    else if n == 12 { 'c' }
    else if n == 13 { 'd' }
    else if n == 14 { 'e' }
    else { 'f' }
}

/// Appends the escaped form of one character.
fn push_escape_char(out: &mut String, c: char)
    ensures
        final(out)@ == old(out)@ + escape_char(c),
{
    if c == '"' {
        out.append("\\\"");
        proof {
            reveal_strlit("\\\"");
            assert(out@ =~= old(out)@ + escape_char(c));
        }
    } else if c == '\\' {
        out.append("\\\\");
        proof {
            reveal_strlit("\\\\");
            assert(out@ =~= old(out)@ + escape_char(c));
        }
    } else if c == '\u{8}' {
        out.append("\\b");
        proof {
            reveal_strlit("\\b");
            assert(out@ =~= old(out)@ + escape_char(c));
        }
    } else if c == '\t' {
        out.append("\\t");
        proof {
            reveal_strlit("\\t");
            assert(out@ =~= old(out)@ + escape_char(c));
        }
    } else if c == '\n' {
        out.append("\\n");
        proof {
            reveal_strlit("\\n");
            assert(out@ =~= old(out)@ + escape_char(c));
        }
    } else if c == '\u{c}' {
        out.append("\\f");
        proof {
            reveal_strlit("\\f");
            assert(out@ =~= old(out)@ + escape_char(c));
        }
    } else if c == '\r' {
        out.append("\\r");
        proof {
            reveal_strlit("\\r");
            assert(out@ =~= old(out)@ + escape_char(c));
        }
    } else if (c as u32) < 0x20 || c == '\u{7f}' {
        let code: u32 = c as u32;
        assert(code <= 0x7f);
        out.append("\\u00");
        let h1: char = hex_digit_char((code / 16) as u8);
        out.push(h1);
        let h2: char = hex_digit_char((code % 16) as u8);
        out.push(h2);
        proof {
            reveal_strlit("\\u00");
            assert(out@ =~= old(out)@ + escape_char(c));
        }
    } else {
        out.push(c);
        proof {
            assert(out@ =~= old(out)@ + escape_char(c));
        }
    }
}

/// Appends the escaped form of a whole field.
pub fn push_escaped(out: &mut String, s: &str)
    ensures
        final(out)@ == old(out)@ + escape_seq(s@),
{
    let len: usize = s.unicode_len();
    proof {
        assert(s@.take(0) =~= Seq::<char>::empty());
        assert(out@ =~= old(out)@ + escape_seq(s@.take(0)));
    }
    let mut i: usize = 0;
    while i < len
        invariant
            i <= len,
            len == s@.len(),
            out@ == old(out)@ + escape_seq(s@.take(i as int)),
        decreases len - i,
    {
        let c: char = s.get_char(i);
        push_escape_char(out, c);
        proof {
            lemma_escape_seq_snoc(s@.take(i as int), c);
            assert(s@.take(i as int).push(c) =~= s@.take(i as int + 1));
            assert(out@ =~= old(out)@ + escape_seq(s@.take(i as int + 1)));
        }
        i = i + 1;
    }
    proof {
        assert(s@.take(len as int) =~= s@);
    }
}

/// Decoding a quoted-string body written by the encoder recovers the field
/// and leaves exactly the trailing text.
proof fn lemma_decode_escaped(m: Seq<char>, tail: Seq<char>)
    ensures
        decode_content(escape_seq(m) + seq!['"'] + tail) == Some((m, tail)),
    decreases m.len(),
{
    let s = escape_seq(m) + seq!['"'] + tail;
    if m.len() == 0 {
        assert(s[0] == '"');
        assert(s.skip(1) =~= tail);
        assert(m =~= Seq::<char>::empty());
        assert(decode_content(s) == Some((m, tail)));
    } else {
        let c = m[0];
        let e = escape_char(c);
        let rest = escape_seq(m.skip(1)) + seq!['"'] + tail;
        assert(escape_seq(m) == e + escape_seq(m.skip(1)));
        assert(s =~= e + rest);
        lemma_decode_escaped(m.skip(1), tail);
        assert(seq![c] + m.skip(1) =~= m);
        if c == '"' || c == '\\' || c == '\u{8}' || c == '\t' || c == '\n' || c == '\u{c}' || c
            == '\r' {
            assert(e.len() == 2 && e[0] == '\\' && is_simple_escape(e[1]) && unescape_simple(e[1])
                == c);
            assert(s[0] == '\\' && s[1] == e[1]);
            assert(s.skip(2) =~= rest);
            assert(decode_content(s) == Some((m, tail)));
        } else if (c as u32) < 0x20 || c == '\u{7f}' {
            let code: int = c as u32 as int;
            let hi: int = ((c as u32) / 16) as int;
            let lo: int = ((c as u32) % 16) as int;
            assert(e =~= seq!['\\', 'u', '0', '0', hex_digit(hi), hex_digit(lo)]);
            assert(s[0] == '\\' && s[1] == 'u' && s[2] == '0' && s[3] == '0' && s[4] == hex_digit(
                hi,
            ) && s[5] == hex_digit(lo));
            assert(!is_simple_escape('u'));
            assert(hex_val('0') == Some(0int));
            assert(0 <= hi < 16 && 0 <= lo < 16);
            assert(hex_val(hex_digit(hi)) == Some(hi));
            assert(hex_val(hex_digit(lo)) == Some(lo));
            assert(hi * 16 + lo == code) by {
                vstd::arithmetic::div_mod::lemma_fundamental_div_mod(c as u32 as int, 16);
            }
            assert(0 * 4096 + 0 * 256 + hi * 16 + lo == code);
            assert((code as u32) == c as u32);
            vstd::utf8::char_u32_cast(c, c as u32);
            assert(((code as u32) as char) == c);
            assert(s.skip(6) =~= rest);
            assert(decode_content(s) == Some((m, tail)));
        } else {
            assert(e =~= seq![c]);
            assert(s[0] == c);
            assert(s.skip(1) =~= rest);
            assert(decode_content(s) == Some((m, tail)));
        }
    }
}

/// The round trip: decoding the wire body of any status token and message
/// yields exactly that status token and that message, for every pair of
/// character sequences, the empty ones and those holding quotes,
/// backslashes and control characters included.
pub proof fn lemma_wire_body_round_trip(status: Seq<char>, message: Seq<char>)
    ensures
        decode_wire_body(wire_body(status, message)) == Some((status, message)),
{
    reveal_strlit("{\"message\":\"");
    reveal_strlit("\",\"status\":\"");
    reveal_strlit(",\"status\":\"");
    reveal_strlit("\"}");
    reveal_strlit("}");
    let head = "{\"message\":\""@;
    let sep = ",\"status\":\""@;
    let t = wire_body(status, message);
    assert(head.len() == 12);
    assert(sep.len() == 11);
    let tail2 = seq!['}'];
    let tail1 = sep + escape_seq(status) + seq!['"'] + tail2;
    assert(t.take(12) =~= head);
    assert(t.skip(12) =~= escape_seq(message) + seq!['"'] + tail1);
    lemma_decode_escaped(message, tail1);
    assert(tail1.take(11) =~= sep);
    assert(tail1.skip(11) =~= escape_seq(status) + seq!['"'] + tail2);
    lemma_decode_escaped(status, tail2);
    assert(tail2 =~= "}"@);
}

} // verus!
