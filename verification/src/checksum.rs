//! The integrity code of a sentence: an eight-bit exclusive-or over the
//! character codes of the sentence body, rendered as two lowercase
//! hexadecimal digits in a frame.

use vstd::prelude::*;
use vstd::string::*;

verus! {

/// Exclusive-or of the low eight bits of every character code in `body`.
pub open spec fn checksum_spec(body: Seq<char>) -> u8
    decreases body.len(),
{
    if body.len() == 0 {
        0u8
    } else {
        checksum_spec(body.drop_last()) ^ (body.last() as u8)
    }
}

/// Computes the one-byte integrity code of a sentence body.
///
/// Total over every character sequence, including the empty one, and a
/// function of the characters of `body` alone.
pub fn compute(body: &str) -> (r: u8)
    ensures
        r == checksum_spec(body@),
{
    let n = body.unicode_len();
    let mut acc: u8 = 0;
    let mut i: usize = 0;
    while i < n
        invariant
            i <= n,
            n == body@.len(),
            acc == checksum_spec(body@.subrange(0, i as int)),
        decreases n - i,
    {
        let c = body.get_char(i);
        proof {
            assert(body@.subrange(0, i + 1).drop_last() =~= body@.subrange(0, i as int));
            assert(body@.subrange(0, i + 1).last() == body@[i as int]);
        }
        acc = acc ^ (c as u8);
        i = i + 1;
    }
    proof {
        assert(body@.subrange(0, n as int) =~= body@);
    }
    acc
}

/// The checksum of the empty body is zero.
pub proof fn lemma_checksum_empty()
    ensures
        checksum_spec(Seq::<char>::empty()) == 0u8,
{
}

/// The lowercase hexadecimal digit for a value below sixteen.
pub open spec fn hex_digit_spec(n: u8) -> char
    recommends
        n < 16,
{
    if n == 0 {
        '0'
    } else if n == 1 {
        '1'
    } else if n == 2 {
        '2'
    } else if n == 3 {
        '3'
    } else if n == 4 {
        '4'
    } else if n == 5 {
        '5'
    } else if n == 6 {
        '6'
    } else if n == 7 {
        '7'
    } else if n == 8 {
        '8'
    } else if n == 9 {
        '9'
    } else if n == 10 {
        'a'
    } else if n == 11 {
        'b'
    } else if n == 12 {
        'c'
    } else if n == 13 {
        'd'
    } else if n == 14 {
        'e'
    } else {
        'f'
    }
}

/// The two-character lowercase hexadecimal rendering of a checksum byte,
/// zero-padded.
pub open spec fn hex_pair_spec(ck: u8) -> Seq<char> {
    seq![hex_digit_spec(ck / 16), hex_digit_spec(ck % 16)]
}

/// Whether `c` is a lowercase hexadecimal digit.
pub open spec fn is_hex_lower_char(c: char) -> bool {
    ||| c == '0'
    ||| c == '1'
    ||| c == '2'
    ||| c == '3'
    ||| c == '4'
    ||| c == '5'
    ||| c == '6'
    ||| c == '7'
    ||| c == '8'
    ||| c == '9'
    ||| c == 'a'
    ||| c == 'b'
    ||| c == 'c'
    ||| c == 'd'
    ||| c == 'e'
    ||| c == 'f'
}

/// Every hexadecimal digit is a lowercase hexadecimal character and is
/// distinct from each of the frame delimiters.
pub proof fn lemma_hex_digit_shape(n: u8)
    requires
        n < 16,
    ensures
        is_hex_lower_char(hex_digit_spec(n)),
        hex_digit_spec(n) != '*',
        hex_digit_spec(n) != '$',
        hex_digit_spec(n) != '\r',
        hex_digit_spec(n) != '\n',
{
}

/// One-character string holding the lowercase hexadecimal digit for `n`.
pub fn hex_digit_str(n: u8) -> (r: &'static str)
    requires
        n < 16,
    ensures
        r@.len() == 1,
        r@[0] == hex_digit_spec(n),
{
    proof {
        reveal_strlit("0");
        reveal_strlit("1");
        reveal_strlit("2");
        reveal_strlit("3");
        reveal_strlit("4");
        reveal_strlit("5");
        reveal_strlit("6");
        reveal_strlit("7");
        reveal_strlit("8");
        reveal_strlit("9");
        reveal_strlit("a");
        reveal_strlit("b");
        reveal_strlit("c");
        reveal_strlit("d");
        reveal_strlit("e");
        reveal_strlit("f");
    }
    match n {
        0 => "0",
        1 => "1",
        2 => "2",
        3 => "3",
        4 => "4",
        5 => "5",
        6 => "6",
        7 => "7",
        8 => "8",
        9 => "9",
        10 => "a",
        11 => "b",
        12 => "c",
        13 => "d",
        14 => "e",
        _ => "f",
    }
}

} // verus!
