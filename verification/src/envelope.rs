//! The JSON response envelopes: the error envelope
//! `{"error":{"message":"<detail>"},"success":false}` and the wrap envelope
//! `{"data":<decoded>,"success":true}`, together with the JSON string
//! escaping that the error envelope needs.
use crate::bytestr::{append_bytes, str_bytes_vec};
use vstd::prelude::*;
use vstd::string::StringSliceAdditionalSpecFns;

verus! {

/// One hexadecimal digit (lower case) for a value below 16.
pub open spec fn hex_digit(n: u8) -> u8 {
    if n < 10 {
        (48 + n) as u8
    } else {
        (87 + n) as u8
    }
}

/// How one byte of a message appears inside a JSON string literal: quotes
/// and backslashes are escaped, control bytes become `\u00XX`, everything
/// else stands as it is.
pub open spec fn escaped_byte(b: u8) -> Seq<u8> {
    if b == 34 {
        seq![92u8, 34u8]
    } else if b == 92 {
        seq![92u8, 92u8]
    } else if b < 32 {
        seq![92u8, 117u8, 48u8, 48u8, hex_digit(b / 16), hex_digit(b % 16)]
    } else {
        seq![b]
    }
}

/// A whole message escaped for inclusion in a JSON string literal.
pub open spec fn escaped(s: Seq<u8>) -> Seq<u8>
    decreases s.len(),
{
    if s.len() == 0 {
        Seq::empty()
    } else {
        escaped_byte(s[0]) + escaped(s.skip(1))
    }
}

/// Escape a message for inclusion in a JSON string literal.
pub fn escape_json(s: &Vec<u8>) -> (out: Vec<u8>)
    ensures
        out@ == escaped(s@),
{
    let mut out: Vec<u8> = Vec::new();
    let mut i: usize = 0;
    let n: usize = s.len();
    proof {
        assert(s@.skip(0) =~= s@);
    }
    while i < n
        invariant
            0 <= i <= n,
            n == s@.len(),
            escaped(s@) == out@ + escaped(s@.skip(i as int)),
        decreases n - i,
    {
        let ghost rest = s@.skip(i as int);
        let ghost out0 = out@;
        let b = s[i];
        proof {
            assert(rest[0] == s@[i as int]);
            assert(rest.skip(1) =~= s@.skip(i + 1));
            assert(escaped(rest) == escaped_byte(b) + escaped(s@.skip(i + 1)));
        }
        if b == 34 {
            out.push(92);
            out.push(34);
        } else if b == 92 {
            out.push(92);
            out.push(92);
        } else if b < 32 {
            out.push(92);
            out.push(117);
            out.push(48);
            out.push(48);
            let hi = b / 16;
            let lo = b % 16;
            if hi < 10 {
                out.push(48 + hi);
            } else {
                out.push(87 + hi);
            }
            if lo < 10 {
                out.push(48 + lo);
            } else {
                out.push(87 + lo);
            }
        } else {
            out.push(b);
        }
        proof {
            assert(out@ =~= out0 + escaped_byte(b));
        }
        i += 1;
    }
    proof {
        assert(s@.skip(n as int) =~= Seq::<u8>::empty());
        assert(out@ + Seq::<u8>::empty() =~= out@);
    }
    out
}

/// Opening text of the error envelope, up to the message string.
pub open spec fn error_prefix() -> Seq<u8> {
    "{\"error\":{\"message\":\"".spec_bytes()
}

/// Closing text of the error envelope, after the message string.
pub open spec fn error_suffix() -> Seq<u8> {
    "\"},\"success\":false}".spec_bytes()
}

/// The normalized error envelope around an already-escaped message.
pub open spec fn error_envelope(rendered: Seq<u8>) -> Seq<u8> {
    error_prefix() + rendered + error_suffix()
}

/// Opening text of the wrap envelope, up to the relayed JSON document.
pub open spec fn data_prefix() -> Seq<u8> {
    "{\"data\":".spec_bytes()
}

/// Closing text of the wrap envelope, after the relayed JSON document.
pub open spec fn data_suffix() -> Seq<u8> {
    ",\"success\":true}".spec_bytes()
}

/// The wrap envelope around a JSON document.
pub open spec fn data_envelope(body: Seq<u8>) -> Seq<u8> {
    data_prefix() + body + data_suffix()
}

/// Build the error envelope around an already-escaped message.
pub fn build_error_envelope(rendered: &Vec<u8>) -> (out: Vec<u8>)
    ensures
        out@ == error_envelope(rendered@),
{
    let mut out = str_bytes_vec("{\"error\":{\"message\":\"");
    append_bytes(&mut out, rendered);
    let suffix = str_bytes_vec("\"},\"success\":false}");
    append_bytes(&mut out, &suffix);
    out
}

/// Build the wrap envelope around a JSON document.
pub fn build_data_envelope(body: &Vec<u8>) -> (out: Vec<u8>)
    ensures
        out@ == data_envelope(body@),
{
    let mut out = str_bytes_vec("{\"data\":");
    append_bytes(&mut out, body);
    let suffix = str_bytes_vec(",\"success\":true}");
    append_bytes(&mut out, &suffix);
    out
}

} // verus!
