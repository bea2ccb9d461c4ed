//! Content hashing: the MD5 digest of a byte buffer, written as lowercase
//! hexadecimal. The digest identifies duplicates; it is not meant to resist
//! tampering.

use vstd::prelude::*;

verus! {

/// The 16-byte MD5 digest of `data`, as `md5::compute` produces it.
pub uninterp spec fn md5_digest(data: Seq<u8>) -> Seq<u8>;

/// The lowercase hexadecimal digit for a value below 16.
pub open spec fn hex_char(n: int) -> char {
    if n == 0 {
        '0'
    } else if n == 1 {
        '1'
    } else if n == 2 {
        '2'
    } else if n == 3 {
        '3'
    } else if n == 4 {
        '4'
    } else if n == 5 {
        '5'
    } else if n == 6 {
        '6'
    } else if n == 7 {
        '7'
    } else if n == 8 {
        '8'
    } else if n == 9 {
        '9'
    } else if n == 10 {
        'a'
    } else if n == 11 {
        'b'
    } else if n == 12 {
        'c'
    } else if n == 13 {
        'd'
    } else if n == 14 {
        'e'
    } else {
        'f'
    }
}

/// The value of the `i`-th hexadecimal digit of `bytes`: the high half of
/// byte `i / 2` at even positions, the low half at odd ones.
pub open spec fn nibble(bytes: Seq<u8>, i: int) -> int {
    if i % 2 == 0 {
        bytes[i / 2] as int / 16
    } else {
        bytes[i / 2] as int % 16
    }
}

/// `bytes` in lowercase hexadecimal, two digits per byte.
pub open spec fn lower_hex(bytes: Seq<u8>) -> Seq<char> {
    Seq::new(2 * bytes.len(), |i: int| hex_char(nibble(bytes, i)))
}

/// The content hash of `data`: its MD5 digest in lowercase hexadecimal.
pub open spec fn hash_hex(data: Seq<u8>) -> Seq<char> {
    lower_hex(md5_digest(data))
}

/// Calls `md5::compute` and hands out the 16 bytes of its `Digest`.
/// Trusted: the result is the MD5 digest of `data`, which is 16 bytes long.
#[verifier::external_body]
fn md5_of(data: &[u8]) -> (r: Vec<u8>)
    ensures
        r@ == md5_digest(data@),
        r@.len() == 16,
{
    md5::compute(data).0.to_vec()
}

fn hex_digit(n: u8) -> (s: &'static str)
    requires
        n < 16,
    ensures
        s@ == seq![hex_char(n as int)],
{
    proof {
        reveal_strlit("0");
        reveal_strlit("1");
        reveal_strlit("2");
        reveal_strlit("3");
        reveal_strlit("4");
        reveal_strlit("5");
        reveal_strlit("6");
        reveal_strlit("7");
        reveal_strlit("8");
        reveal_strlit("9");
        reveal_strlit("a");
        reveal_strlit("b");
        reveal_strlit("c");
        reveal_strlit("d");
        reveal_strlit("e");
        reveal_strlit("f");
    }
    let s = match n {
        0 => "0",
        1 => "1",
        2 => "2",
        3 => "3",
        4 => "4",
        5 => "5",
        6 => "6",
        7 => "7",
        8 => "8",
        9 => "9",
        10 => "a",
        11 => "b",
        12 => "c",
        13 => "d",
        14 => "e",
        _ => "f",
    };
    assert(s@ =~= seq![hex_char(n as int)]);
    s
}

/// Writes `bytes` as lowercase hexadecimal, two digits per byte.
pub fn to_lower_hex(bytes: &[u8]) -> (r: String)
    ensures
        r@ == lower_hex(bytes@),
        r@.len() == 2 * bytes@.len(),
{
    let mut out = String::new();
    let mut i: usize = 0;
    assert(out@ =~= lower_hex(bytes@.take(0)));
    while i < bytes.len()
        invariant
            i <= bytes.len(),
            out@ == lower_hex(bytes@.take(i as int)),
        decreases bytes.len() - i,
    {
        let b: u8 = bytes[i];
        let ghost before = out@;
        out.append(hex_digit(b / 16));
        out.append(hex_digit(b % 16));
        proof {
            let prev = bytes@.take(i as int);
            let next = bytes@.take(i as int + 1);
            assert(out@ == before + seq![hex_char(b as int / 16)] + seq![
                hex_char(b as int % 16),
            ]);
            assert forall|k: int| 0 <= k < 2 * next.len() implies out@[k] == hex_char(
                nibble(next, k),
            ) by {
                if k < 2 * i {
                    assert(next[k / 2] == prev[k / 2]);
                    assert(out@[k] == before[k]);
                } else {
                    assert(next[k / 2] == b);
                }
            }
            assert(out@ =~= lower_hex(next));
        }
        i = i + 1;
    }
    assert(bytes@.take(i as int) =~= bytes@);
    out
}

/// The content hash of a byte buffer: its MD5 digest as 32 lowercase
/// hexadecimal digits. Equal buffers have equal hashes.
pub fn content_hash(data: &[u8]) -> (r: String)
    ensures
        r@ == hash_hex(data@),
        r@.len() == 32,
{
    let digest = md5_of(data);
    to_lower_hex(digest.as_slice())
}

} // verus!
