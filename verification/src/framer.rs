//! Framing of a sentence body into a transmittable frame: prefix, body,
//! checksum separator, two hexadecimal checksum digits, and the
//! carriage-return / line-feed terminator.

use vstd::prelude::*;
use vstd::string::*;
use crate::checksum::{checksum_spec, compute, hex_digit_spec, hex_digit_str, hex_pair_spec,
    is_hex_lower_char, lemma_hex_digit_shape};

verus! {

/// The frame for `body` carrying the explicit checksum `ck`:
/// `$<body>*<hex hi><hex lo>\r\n`.
pub open spec fn frame_with_spec(body: Seq<char>, ck: u8) -> Seq<char> {
    seq!['$'] + body + seq!['*'] + hex_pair_spec(ck) + seq!['\r', '\n']
}

/// The default frame for `body`: the checksum is the one computed over
/// `body` itself.
pub open spec fn frame_spec(body: Seq<char>) -> Seq<char> {
    frame_with_spec(body, checksum_spec(body))
}

/// Frames `body` with the caller-supplied checksum byte `ck` instead of
/// the computed one. Used to realise wrong-checksum test vectors; with
/// the computed byte it coincides with the default framing.
pub fn frame_with_checksum(body: &str, ck: u8) -> (r: String)
    ensures
        r@ == frame_with_spec(body@, ck),
{
    let mut s = String::from_str("$");
    s.append(body);
    s.append("*");
    s.append(hex_digit_str(ck / 16));
    s.append(hex_digit_str(ck % 16));
    s.append("\r\n");
    proof {
        reveal_strlit("$");
        reveal_strlit("*");
        reveal_strlit("\r\n");
        assert(s@ =~= frame_with_spec(body@, ck));
    }
    s
}

/// Frames `body` in the default, always-correct mode: prefix `$`, the
/// body, `*`, the two lowercase hexadecimal digits of the computed
/// checksum, then the terminator. Framing never fails.
pub fn frame(body: &str) -> (r: String)
    ensures
        r@ == frame_spec(body@),
{
    let ck = compute(body);
    frame_with_checksum(body, ck)
}

/// Structure of a default frame, for any body free of the `*` delimiter:
/// the frame ends in the two-character terminator, contains exactly one
/// `*`, and the two characters after the `*` are the lowercase
/// hexadecimal rendering of the computed checksum.
pub proof fn lemma_frame_well_formed(body: Seq<char>)
    requires
        forall|i: int| 0 <= i < body.len() ==> body[i] != '*',
    ensures
        frame_spec(body).len() == body.len() + 6,
        frame_spec(body)[0] == '$',
        frame_spec(body).subrange(1, body.len() as int + 1) == body,
        frame_spec(body)[body.len() as int + 1] == '*',
        frame_spec(body)[body.len() as int + 2] == hex_digit_spec(checksum_spec(body) / 16),
        frame_spec(body)[body.len() as int + 3] == hex_digit_spec(checksum_spec(body) % 16),
        is_hex_lower_char(frame_spec(body)[body.len() as int + 2]),
        is_hex_lower_char(frame_spec(body)[body.len() as int + 3]),
        frame_spec(body)[body.len() as int + 4] == '\r',
        frame_spec(body)[body.len() as int + 5] == '\n',
        forall|i: int|
            0 <= i < frame_spec(body).len() && i != body.len() as int + 1 ==> frame_spec(body)[i] != '*',
{
    let f = frame_spec(body);
    let ck = checksum_spec(body);
    assert(f.subrange(1, body.len() as int + 1) =~= body);
    lemma_hex_digit_shape(ck / 16);
    lemma_hex_digit_shape(ck % 16);
    assert forall|i: int| 0 <= i < f.len() && i != body.len() as int + 1 implies f[i] != '*' by {
        if 1 <= i < body.len() + 1 {
            assert(f[i] == body[i - 1]);
        }
    }
}

} // verus!
