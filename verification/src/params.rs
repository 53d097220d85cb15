//! The collector's parameters and their serialized form: a verified JSON
//! encoder for the one document the collector receives.

use vstd::prelude::*;
use crate::strutil::{spec_dec, append_dec, push_char};

verus! {

/// Parameters handed verbatim to the collector program.
#[derive(Clone, Debug)]
pub struct SpiderParams {
    pub page: i32,
    pub title: String,
    pub project_type: String,
}

/// The character for a single lower-case hexadecimal digit.
pub open spec fn hex_char(d: nat) -> char {
    if d == 0 {
        '0'
    } else if d == 1 {
        '1'
    } else if d == 2 {
        '2'
    } else if d == 3 {
        '3'
    } else if d == 4 {
        '4'
    } else if d == 5 {
        '5'
    } else if d == 6 {
        '6'
    } else if d == 7 {
        '7'
    } else if d == 8 {
        '8'
    } else if d == 9 {
        '9'
    } else if d == 10 {
        'a'
    } else if d == 11 {
        'b'
    } else if d == 12 {
        'c'
    } else if d == 13 {
        'd'
    } else if d == 14 {
        'e'
    } else {
        'f'
    }
}

/// How one character appears inside a JSON string literal: the quote, the
/// backslash and the control characters are escaped, every other character
/// stands as itself.
pub open spec fn json_escape_char(c: char) -> Seq<char> {
    if c == '"' {
        seq!['\\', '"']
    } else if c == '\\' {
        seq!['\\', '\\']
    } else if c == '\u{8}' {
        seq!['\\', 'b']
    } else if c == '\t' {
        seq!['\\', 't']
    } else if c == '\n' {
        seq!['\\', 'n']
    } else if c == '\u{c}' {
        seq!['\\', 'f']
    } else if c == '\r' {
        seq!['\\', 'r']
    } else if (c as nat) < 0x20 {
        seq!['\\', 'u', '0', '0', hex_char((c as nat) / 16), hex_char((c as nat) % 16)]
    } else {
        seq![c]
    }
}

/// The characters of `s` as they appear inside a JSON string literal.
pub open spec fn json_escape_seq(s: Seq<char>) -> Seq<char>
    decreases s.len(),
{
    if s.len() == 0 {
        Seq::empty()
    } else {
        json_escape_seq(s.drop_last()) + json_escape_char(s.last())
    }
}

/// Decimal representation of a signed number.
pub open spec fn spec_dec_int(n: int) -> Seq<char> {
    if n < 0 {
        seq!['-'] + spec_dec((-n) as nat)
    } else {
        spec_dec(n as nat)
    }
}

/// The JSON document for the parameters: an object with the fields `page`,
/// `title` and `project_type`, in that order.
pub open spec fn spec_params_json(p: SpiderParams) -> Seq<char> {
    "{\"page\":"@ + spec_dec_int(p.page as int) + ",\"title\":\""@ + json_escape_seq(p.title@)
        + "\",\"project_type\":\""@ + json_escape_seq(p.project_type@) + "\"}"@
}

fn hex_exec(d: u32) -> (c: char)
    requires
        d < 16,
    ensures
        c == hex_char(d as nat),
{
    if d == 0 {
        '0'
    } else if d == 1 {
        '1'
    } else if d == 2 {
        '2'
    } else if d == 3 {
        '3'
    } else if d == 4 {
        '4'
    } else if d == 5 {
        '5'
    } else if d == 6 {
        '6'
    } else if d == 7 {
        '7'
    } else if d == 8 {
        '8'
    } else if d == 9 {
        '9'
    } else if d == 10 {
        'a'
    } else if d == 11 {
        'b'
    } else if d == 12 {
        'c'
    } else if d == 13 {
        'd'
    } else if d == 14 {
        'e'
    } else {
        'f'
    }
}

fn append_escaped_char(out: &mut String, c: char)
    ensures
        final(out)@ == old(out)@ + json_escape_char(c),
{
    if c == '"' {
        push_char(out, '\\');
        push_char(out, '"');
    } else if c == '\\' {
        push_char(out, '\\');
        push_char(out, '\\');
    } else if c == '\u{8}' {
        push_char(out, '\\');
        push_char(out, 'b');
    } else if c == '\t' {
        push_char(out, '\\');
        push_char(out, 't');
    } else if c == '\n' {
        push_char(out, '\\');
        push_char(out, 'n');
    } else if c == '\u{c}' {
        push_char(out, '\\');
        push_char(out, 'f');
    } else if c == '\r' {
        push_char(out, '\\');
        push_char(out, 'r');
    } else if (c as u32) < 0x20 {
        let u = c as u32;
        push_char(out, '\\');
        push_char(out, 'u');
        push_char(out, '0');
        push_char(out, '0');
        push_char(out, hex_exec(u / 16));
        push_char(out, hex_exec(u % 16));
    } else {
        push_char(out, c);
    }
    proof {
        assert(out@ =~= old(out)@ + json_escape_char(c));
    }
}

/// Writes `s` onto the end of `out` in JSON string-literal form.
pub fn append_escaped(out: &mut String, s: &str)
    ensures
        final(out)@ == old(out)@ + json_escape_seq(s@),
{
    let n = vstd::string::StrSliceExecFns::unicode_len(s);
    let mut i: usize = 0;
    while i < n
        invariant
            n == s@.len(),
            i <= n,
            out@ == old(out)@ + json_escape_seq(s@.take(i as int)),
        decreases n - i,
    {
        let c = vstd::string::StrSliceExecFns::get_char(s, i);
        append_escaped_char(out, c);
        proof {
            assert(s@.take(i + 1).drop_last() =~= s@.take(i as int));
            assert(s@.take(i + 1).last() == s@[i as int]);
        }
        i += 1;
    }
    proof {
        assert(s@.take(n as int) =~= s@);
    }
}

/// The serialized form of the parameters: the JSON document that
/// `spec_params_json` describes, in one line.
pub fn params_json(p: &SpiderParams) -> (r: String)
    ensures
        r@ == spec_params_json(*p),
{
    let mut out = String::new();
    vstd::string::StringExecFns::append(&mut out, "{\"page\":");
    if p.page < 0 {
        push_char(&mut out, '-');
        let m: i64 = -(p.page as i64);
        append_dec(&mut out, m as u64);
    } else {
        append_dec(&mut out, p.page as u64);
    }
    vstd::string::StringExecFns::append(&mut out, ",\"title\":\"");
    append_escaped(&mut out, p.title.as_str());
    vstd::string::StringExecFns::append(&mut out, "\",\"project_type\":\"");
    append_escaped(&mut out, p.project_type.as_str());
    vstd::string::StringExecFns::append(&mut out, "\"}");
    proof {
        assert(out@ =~= spec_params_json(*p));
    }
    out
}

} // verus!
