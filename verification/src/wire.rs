//! Encoding one outgoing command into its wire frame.
//!
//! Every command travels as one newline-terminated JSON line of the shape
//! `{"command":[...],"request_id":N,"async":true}`. The command array holds
//! strings and integers; strings are escaped as JSON requires (quote,
//! backslash and control characters), non-ASCII text passes through as its
//! UTF-8 bytes. The whole frame is specified byte for byte by
//! [`frame_bytes`] and built by verified code.

use vstd::prelude::*;

use crate::framer::LINE_SEPARATOR;
use vstd::utf8::encode_utf8;

verus! {

/// One element of a command array: a string, a bare integer, or a number the
/// protocol wants spelled as a decimal string.
#[derive(Debug)]
pub enum CommandPart {
    /// A JSON string.
    Text(String),
    /// A bare JSON integer.
    Int(u64),
    /// An unsigned number rendered as a JSON string of decimal digits.
    IntText(u64),
    /// A signed number rendered as a JSON string of decimal digits.
    SignedText(i64),
}

/// Mathematical image of [`CommandPart`].
pub enum CommandPartModel {
    Text(Seq<char>),
    Int(u64),
    IntText(u64),
    SignedText(i64),
}

impl DeepView for CommandPart {
    type V = CommandPartModel;

    open spec fn deep_view(&self) -> CommandPartModel {
        match self {
            CommandPart::Text(s) => CommandPartModel::Text(s@),
            CommandPart::Int(n) => CommandPartModel::Int(*n),
            CommandPart::IntText(n) => CommandPartModel::IntText(*n),
            CommandPart::SignedText(n) => CommandPartModel::SignedText(*n),
        }
    }
}

/// The decimal digits of `n`, most significant first.
pub open spec fn dec_digits(n: nat) -> Seq<u8>
    decreases n,
{
    if n < 10 {
        seq![(0x30 + n) as u8]
    } else {
        dec_digits(n / 10).push((0x30 + n % 10) as u8)
    }
}

/// The decimal rendering of a signed number: a minus sign before the digits
/// of its magnitude.
pub open spec fn dec_signed(n: int) -> Seq<u8> {
    if n < 0 {
        seq![0x2du8] + dec_digits((-n) as nat)
    } else {
        dec_digits(n as nat)
    }
}

/// The lower-case hexadecimal digit for a value below sixteen.
pub open spec fn hex_digit(n: u8) -> u8 {
    if n < 10 {
        (0x30 + n) as u8
    } else {
        (0x57 + n) as u8
    }
}

/// How one byte of string content appears inside a JSON string: quote and
/// backslash escaped, the named control characters short-escaped, any other
/// control character spelled `\u00XX`, everything else as itself.
pub open spec fn escape_byte(b: u8) -> Seq<u8> {
    if b == 0x22 {
        seq![0x5cu8, 0x22u8]
    } else if b == 0x5c {
        seq![0x5cu8, 0x5cu8]
    } else if b == 0x08 {
        seq![0x5cu8, 0x62u8]
    } else if b == 0x09 {
        seq![0x5cu8, 0x74u8]
    } else if b == 0x0a {
        seq![0x5cu8, 0x6eu8]
    } else if b == 0x0c {
        seq![0x5cu8, 0x66u8]
    } else if b == 0x0d {
        seq![0x5cu8, 0x72u8]
    } else if b < 0x20 {
        seq![0x5cu8, 0x75u8, 0x30u8, 0x30u8, hex_digit(b / 16), hex_digit(b % 16)]
    } else {
        seq![b]
    }
}

/// A whole string content, escaped byte for byte.
pub open spec fn escape_bytes(s: Seq<u8>) -> Seq<u8>
    decreases s.len(),
{
    if s.len() == 0 {
        Seq::empty()
    } else {
        escape_byte(s[0]) + escape_bytes(s.skip(1))
    }
}

/// A renderable element: the one signed value the decimal renderer cannot
/// take is the smallest, whose magnitude has no i64 form.
pub open spec fn part_ok(p: CommandPartModel) -> bool {
    match p {
        CommandPartModel::SignedText(n) => n > i64::MIN,
        _ => true,
    }
}

/// All elements of a command array are renderable.
pub open spec fn parts_ok(ps: Seq<CommandPartModel>) -> bool {
    forall|i: int| 0 <= i < ps.len() ==> part_ok(#[trigger] ps[i])
}

/// The bytes of one command-array element.
pub open spec fn part_bytes(p: CommandPartModel) -> Seq<u8> {
    match p {
        CommandPartModel::Text(s) => seq![0x22u8] + escape_bytes(encode_utf8(s)) + seq![0x22u8],
        CommandPartModel::Int(n) => dec_digits(n as nat),
        CommandPartModel::IntText(n) => seq![0x22u8] + dec_digits(n as nat) + seq![0x22u8],
        CommandPartModel::SignedText(n) => seq![0x22u8] + dec_signed(n as int) + seq![0x22u8],
    }
}

/// The bytes of a whole command array's contents, comma-separated.
pub open spec fn parts_bytes(ps: Seq<CommandPartModel>) -> Seq<u8>
    decreases ps.len(),
{
    if ps.len() == 0 {
        Seq::empty()
    } else if ps.len() == 1 {
        part_bytes(ps[0])
    } else {
        part_bytes(ps[0]) + seq![0x2cu8] + parts_bytes(ps.skip(1))
    }
}

/// The whole frame for one command: the JSON object around the command
/// array and the request id, terminated by the line separator.
pub open spec fn frame_bytes(parts: Seq<CommandPartModel>, request_id: i64) -> Seq<u8> {
    encode_utf8("{\"command\":["@) + parts_bytes(parts) + encode_utf8("],\"request_id\":"@)
        + dec_signed(request_id as int) + encode_utf8(",\"async\":true}"@) + seq![LINE_SEPARATOR]
}

/// Appends the decimal digits of `n`.
fn push_dec(out: &mut Vec<u8>, n: u64)
    ensures
        final(out)@ == old(out)@ + dec_digits(n as nat),
    decreases n,
{
    if n >= 10 {
        push_dec(out, n / 10);
    }
    let digit: u8 = (n % 10) as u8;
    out.push(0x30 + digit);
    proof {
        assert(final(out)@ =~= old(out)@ + dec_digits(n as nat));
    }
}

/// Appends the decimal rendering of a signed number.
fn push_dec_signed(out: &mut Vec<u8>, n: i64)
    requires
        n > i64::MIN,
    ensures
        final(out)@ == old(out)@ + dec_signed(n as int),
{
    if n < 0 {
        out.push(0x2d);
        push_dec(out, (-n) as u64);
        proof {
            assert(final(out)@ =~= old(out)@ + dec_signed(n as int));
        }
    } else {
        push_dec(out, n as u64);
    }
}

/// Escaping a string one byte longer appends that byte's escape.
proof fn lemma_escape_snoc(s: Seq<u8>, b: u8)
    ensures
        escape_bytes(s.push(b)) == escape_bytes(s) + escape_byte(b),
    decreases s.len(),
{
    if s.len() == 0 {
        assert(s.push(b)[0] == b);
        assert(s.push(b).skip(1) =~= Seq::<u8>::empty());
        assert(escape_bytes(Seq::<u8>::empty()) == Seq::<u8>::empty());
        assert(escape_bytes(s.push(b)) =~= escape_bytes(s) + escape_byte(b));
    } else {
        assert(s.push(b)[0] == s[0]);
        assert(s.push(b).skip(1) =~= s.skip(1).push(b));
        lemma_escape_snoc(s.skip(1), b);
        assert(escape_bytes(s.push(b)) =~= escape_bytes(s) + escape_byte(b));
    }
}

/// Appends the escaped content of `s`.
fn push_escaped(out: &mut Vec<u8>, s: &[u8])
    ensures
        final(out)@ == old(out)@ + escape_bytes(s@),
{
    let mut i: usize = 0;
    proof {
        assert(s@.take(0) =~= Seq::<u8>::empty());
        assert(out@ =~= old(out)@ + escape_bytes(s@.take(0)));
    }
    while i < s.len()
        invariant
            i <= s.len(),
            out@ == old(out)@ + escape_bytes(s@.take(i as int)),
        decreases s.len() - i,
    {
        let b = s[i];
        proof {
            assert(s@.take(i + 1) =~= s@.take(i as int).push(s@[i as int]));
            lemma_escape_snoc(s@.take(i as int), s@[i as int]);
        }
        if b == 0x22 {
            out.push(0x5c);
            out.push(0x22);
        } else if b == 0x5c {
            out.push(0x5c);
            out.push(0x5c);
        } else if b == 0x08 {
            out.push(0x5c);
            out.push(0x62);
        } else if b == 0x09 {
            out.push(0x5c);
            out.push(0x74);
        } else if b == 0x0a {
            out.push(0x5c);
            out.push(0x6e);
        } else if b == 0x0c {
            out.push(0x5c);
            out.push(0x66);
        } else if b == 0x0d {
            out.push(0x5c);
            out.push(0x72);
        } else if b < 0x20 {
            out.push(0x5c);
            out.push(0x75);
            out.push(0x30);
            out.push(0x30);
            let hi: u8 = b / 16;
            let lo: u8 = b % 16;
            out.push(if hi < 10 { 0x30 + hi } else { 0x57 + hi });
            out.push(if lo < 10 { 0x30 + lo } else { 0x57 + lo });
        } else {
            out.push(b);
        }
        proof {
            assert(out@ =~= old(out)@ + escape_bytes(s@.take(i + 1)));
        }
        i = i + 1;
    }
    proof {
        assert(s@.take(s@.len() as int) =~= s@);
    }
}

/// Appends the bytes of one command-array element.
fn push_part(out: &mut Vec<u8>, p: &CommandPart)
    requires
        part_ok(p.deep_view()),
    ensures
        final(out)@ == old(out)@ + part_bytes(p.deep_view()),
{
    match p {
        CommandPart::Text(s) => {
            out.push(0x22);
            push_escaped(out, s.as_str().as_bytes());
            out.push(0x22);
            proof {
                assert(final(out)@ =~= old(out)@ + part_bytes(p.deep_view()));
            }
        },
        CommandPart::Int(n) => {
            push_dec(out, *n);
        },
        CommandPart::IntText(n) => {
            out.push(0x22);
            push_dec(out, *n);
            out.push(0x22);
            proof {
                assert(final(out)@ =~= old(out)@ + part_bytes(p.deep_view()));
            }
        },
        CommandPart::SignedText(n) => {
            out.push(0x22);
            push_dec_signed(out, *n);
            out.push(0x22);
            proof {
                assert(final(out)@ =~= old(out)@ + part_bytes(p.deep_view()));
            }
        },
    }
}

/// Joining one more element appends a comma (except before the first) and
/// that element's bytes.
proof fn lemma_parts_snoc(ps: Seq<CommandPartModel>, p: CommandPartModel)
    ensures
        ps.len() == 0 ==> parts_bytes(ps.push(p)) == part_bytes(p),
        ps.len() > 0 ==> parts_bytes(ps.push(p)) == parts_bytes(ps) + seq![0x2cu8] + part_bytes(p),
    decreases ps.len(),
{
    if ps.len() == 0 {
        assert(ps.push(p)[0] == p);
        assert(parts_bytes(ps.push(p)) == part_bytes(p));
    } else {
        assert(ps.push(p)[0] == ps[0]);
        assert(ps.push(p).skip(1) =~= ps.skip(1).push(p));
        lemma_parts_snoc(ps.skip(1), p);
        if ps.len() == 1 {
            assert(parts_bytes(ps.push(p)) =~= parts_bytes(ps) + seq![0x2cu8] + part_bytes(p));
        } else {
            assert(parts_bytes(ps.push(p)) =~= parts_bytes(ps) + seq![0x2cu8] + part_bytes(p));
        }
    }
}

/// Builds the wire frame for one command: exactly [`frame_bytes`].
pub fn encode_frame(parts: &Vec<CommandPart>, request_id: i64) -> (out: Vec<u8>)
    requires
        request_id >= 0,
        parts_ok(parts.deep_view()),
    ensures
        out@ == frame_bytes(parts.deep_view(), request_id),
{
    let mut out: Vec<u8> = Vec::new();
    out.extend_from_slice("{\"command\":[".as_bytes());
    let mut i: usize = 0;
    proof {
        assert(parts.deep_view().take(0) =~= Seq::<CommandPartModel>::empty());
    }
    while i < parts.len()
        invariant
            i <= parts.len(),
            parts_ok(parts.deep_view()),
            out@ == encode_utf8("{\"command\":["@) + parts_bytes(parts.deep_view().take(i as int)),
        decreases parts.len() - i,
    {
        proof {
            assert(parts.deep_view().take(i + 1) =~= parts.deep_view().take(i as int).push(
                parts.deep_view()[i as int],
            ));
            lemma_parts_snoc(parts.deep_view().take(i as int), parts.deep_view()[i as int]);
            assert(parts.deep_view()[i as int] == parts@[i as int].deep_view());
            assert(part_ok(parts.deep_view()[i as int]));
        }
        if i > 0 {
            out.push(0x2c);
        }
        push_part(&mut out, &parts[i]);
        proof {
            assert(out@ =~= encode_utf8("{\"command\":["@) + parts_bytes(
                parts.deep_view().take(i + 1),
            ));
        }
        i = i + 1;
    }
    proof {
        assert(parts.deep_view().take(parts.deep_view().len() as int) =~= parts.deep_view());
    }
    out.extend_from_slice("],\"request_id\":".as_bytes());
    push_dec_signed(&mut out, request_id);
    out.extend_from_slice(",\"async\":true}".as_bytes());
    out.push(LINE_SEPARATOR);
    proof {
        assert(out@ =~= frame_bytes(parts.deep_view(), request_id));
    }
    out
}

} // verus!
