//! Standard base64 encoding of a byte sequence.
//!
//! [`base64_text`] is the definition: each three-byte group becomes four
//! characters of the standard alphabet, with `=` padding closing a final
//! group of one or two bytes.

use vstd::prelude::*;

verus! {

broadcast use vstd::std_specs::vec::group_vec_axioms, vstd::seq::group_seq_axioms;

/// The character of the standard alphabet at a six-bit value.
pub open spec fn b64_char(x: u8) -> char
    recommends
        x < 64,
{
    "ABCDEFGHIJKLMNOPQRSTUVWXYZabcdefghijklmnopqrstuvwxyz0123456789+/"@[x as int]
}

/// The base64 text of a byte sequence.
pub open spec fn base64_text(s: Seq<u8>) -> Seq<char>
    decreases s.len(),
{
    if s.len() == 0 {
        Seq::empty()
    } else if s.len() == 1 {
        seq![b64_char(s[0] >> 2), b64_char((s[0] & 3) << 4), '=', '=']
    } else if s.len() == 2 {
        seq![
            b64_char(s[0] >> 2),
            b64_char(((s[0] & 3) << 4) | (s[1] >> 4)),
            b64_char((s[1] & 15) << 2),
            '=',
        ]
    } else {
        seq![
            b64_char(s[0] >> 2),
            b64_char(((s[0] & 3) << 4) | (s[1] >> 4)),
            b64_char(((s[1] & 15) << 2) | (s[2] >> 6)),
            b64_char(s[2] & 63),
        ] + base64_text(s.skip(3))
    }
}

/// Encodes a byte sequence as standard base64.
pub fn base64_encode(bytes: &Vec<u8>) -> (r: String)
    ensures
        r@ == base64_text(bytes@),
{
    let table = "ABCDEFGHIJKLMNOPQRSTUVWXYZabcdefghijklmnopqrstuvwxyz0123456789+/";
    proof {
        reveal_strlit("ABCDEFGHIJKLMNOPQRSTUVWXYZabcdefghijklmnopqrstuvwxyz0123456789+/");
    }
    let n = bytes.len();
    let mut out = String::new();
    let mut i: usize = 0;
    proof {
        assert(bytes@.skip(0) =~= bytes@);
        assert(out@ + base64_text(bytes@) =~= base64_text(bytes@));
    }
    while n - i >= 3
        invariant
            i <= n,
            n == bytes@.len(),
            table@ == "ABCDEFGHIJKLMNOPQRSTUVWXYZabcdefghijklmnopqrstuvwxyz0123456789+/"@,
            table@.len() == 64,
            base64_text(bytes@) == out@ + base64_text(bytes@.skip(i as int)),
        decreases n - i,
    {
        let b0 = bytes[i];
        let b1 = bytes[i + 1];
        let b2 = bytes[i + 2];
        let x0 = b0 >> 2;
        let x1 = ((b0 & 3) << 4) | (b1 >> 4);
        let x2 = ((b1 & 15) << 2) | (b2 >> 6);
        let x3 = b2 & 63;
        proof {
            assert(b0 >> 2 < 64 && (((b0 & 3) << 4) | (b1 >> 4)) < 64 && (((b1 & 15) << 2) | (b2
                >> 6)) < 64 && b2 & 63 < 64) by (bit_vector);
        }
        let ghost before = out@;
        out.push(table.get_char(x0 as usize));
        out.push(table.get_char(x1 as usize));
        out.push(table.get_char(x2 as usize));
        out.push(table.get_char(x3 as usize));
        proof {
            let rest = bytes@.skip(i as int);
            assert(rest[0] == b0 && rest[1] == b1 && rest[2] == b2);
            assert(rest.skip(3) =~= bytes@.skip(i as int + 3));
            assert(out@ =~= before + seq![
                b64_char(b0 >> 2),
                b64_char(((b0 & 3) << 4) | (b1 >> 4)),
                b64_char(((b1 & 15) << 2) | (b2 >> 6)),
                b64_char(b2 & 63),
            ]);
            assert(base64_text(bytes@) =~= out@ + base64_text(bytes@.skip(i as int + 3)));
        }
        i += 3;
    }
    let rem = n - i;
    if rem == 1 {
        let b0 = bytes[i];
        let x0 = b0 >> 2;
        let x1 = (b0 & 3) << 4;
        proof {
            assert(b0 >> 2 < 64 && ((b0 & 3) << 4) < 64) by (bit_vector);
        }
        let ghost before = out@;
        out.push(table.get_char(x0 as usize));
        out.push(table.get_char(x1 as usize));
        out.push('=');
        out.push('=');
        proof {
            let rest = bytes@.skip(i as int);
            assert(rest[0] == b0);
            assert(out@ =~= before + seq![b64_char(b0 >> 2), b64_char((b0 & 3) << 4), '=', '=']);
            assert(out@ =~= base64_text(bytes@));
        }
    } else if rem == 2 {
        let b0 = bytes[i];
        let b1 = bytes[i + 1];
        let x0 = b0 >> 2;
        let x1 = ((b0 & 3) << 4) | (b1 >> 4);
        let x2 = (b1 & 15) << 2;
        proof {
            assert(b0 >> 2 < 64 && (((b0 & 3) << 4) | (b1 >> 4)) < 64 && ((b1 & 15) << 2) < 64)
                by (bit_vector);
        }
        let ghost before = out@;
        out.push(table.get_char(x0 as usize));
        out.push(table.get_char(x1 as usize));
        out.push(table.get_char(x2 as usize));
        out.push('=');
        proof {
            let rest = bytes@.skip(i as int);
            assert(rest[0] == b0 && rest[1] == b1);
            assert(out@ =~= before + seq![
                b64_char(b0 >> 2),
                b64_char(((b0 & 3) << 4) | (b1 >> 4)),
                b64_char((b1 & 15) << 2),
                '=',
            ]);
            assert(out@ =~= base64_text(bytes@));
        }
    } else {
        proof {
            assert(bytes@.skip(i as int).len() == 0);
            assert(out@ =~= base64_text(bytes@));
        }
    }
    out
}

} // verus!
