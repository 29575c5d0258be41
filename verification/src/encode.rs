//! Turns an arbitrary cache key into a filesystem-safe, collision-free file
//! name plus a one-character shard label.
//!
//! The file name is the URL-safe base64 encoding (alphabet `A-Z a-z 0-9 - _`,
//! no padding) of the key's UTF-8 bytes; the shard label is one lowercase hex
//! digit derived from a stable 64-bit hash of those bytes, folded down to a
//! nibble by staged shift-xors.

use vstd::prelude::*;
use vstd::utf8::decode_utf8;
use vstd::utf8::encode_utf8;
use vstd::utf8::encode_utf8_decode_utf8;
use vstd::string::StrSliceExecFns;
use vstd::wrapping::u64_specs;

verus! {

// ------------------------------------------------------------------
// The base64url alphabet
// ------------------------------------------------------------------

/// The character standing for a six-bit value `v` in the URL-safe base64
/// alphabet: `A-Z` for 0..26, `a-z` for 26..52, `0-9` for 52..62, then `-`
/// and `_`.
pub open spec fn b64_char(v: int) -> char
    recommends
        0 <= v < 64,
{
    if v < 26 {
        (65 + v) as char
    } else if v < 52 {
        (97 + (v - 26)) as char
    } else if v < 62 {
        (48 + (v - 52)) as char
    } else if v == 62 {
        '-'
    } else {
        '_'
    }
}

/// The six-bit value a character stands for; 64 for characters outside the
/// alphabet.
pub open spec fn b64_val(c: char) -> int {
    if 'A' <= c && c <= 'Z' {
        (c as int) - 65
    } else if 'a' <= c && c <= 'z' {
        (c as int) - 97 + 26
    } else if '0' <= c && c <= '9' {
        (c as int) - 48 + 52
    } else if c == '-' {
        62
    } else if c == '_' {
        63
    } else {
        64
    }
}

/// Whether `c` belongs to the URL-safe base64 alphabet.
pub open spec fn in_b64_alphabet(c: char) -> bool {
    b64_val(c) < 64
}

/// `b64_val` inverts `b64_char` on six-bit values.
pub proof fn lemma_b64_char_val(v: int)
    requires
        0 <= v < 64,
    ensures
        b64_val(b64_char(v)) == v,
        in_b64_alphabet(b64_char(v)),
{
}

// ------------------------------------------------------------------
// Base64url encoding of a byte sequence (no padding)
// ------------------------------------------------------------------

/// The URL-safe base64 encoding, without padding, of a byte sequence:
/// each group of three bytes becomes four characters, a trailing group of
/// two bytes becomes three characters and a trailing single byte becomes
/// two characters.
pub open spec fn b64_of(s: Seq<u8>) -> Seq<char>
    decreases s.len(),
{
    if s.len() == 0 {
        Seq::empty()
    } else if s.len() == 1 {
        seq![b64_char((s[0] / 4) as int), b64_char((s[0] % 4) * 16)]
    } else if s.len() == 2 {
        seq![
            b64_char((s[0] / 4) as int),
            b64_char((s[0] % 4) * 16 + s[1] / 16),
            b64_char((s[1] % 16) * 4),
        ]
    } else {
        seq![
            b64_char((s[0] / 4) as int),
            b64_char((s[0] % 4) * 16 + s[1] / 16),
            b64_char((s[1] % 16) * 4 + s[2] / 64),
            b64_char((s[2] % 64) as int),
        ] + b64_of(s.skip(3))
    }
}

/// The decoding that inverts `b64_of`: four characters back into three
/// bytes, a trailing three into two and a trailing two into one.
pub open spec fn b64_decode(s: Seq<char>) -> Seq<u8>
    decreases s.len(),
{
    if s.len() < 2 {
        Seq::empty()
    } else if s.len() == 2 {
        seq![(b64_val(s[0]) * 4 + b64_val(s[1]) / 16) as u8]
    } else if s.len() == 3 {
        seq![
            (b64_val(s[0]) * 4 + b64_val(s[1]) / 16) as u8,
            ((b64_val(s[1]) % 16) * 16 + b64_val(s[2]) / 4) as u8,
        ]
    } else {
        seq![
            (b64_val(s[0]) * 4 + b64_val(s[1]) / 16) as u8,
            ((b64_val(s[1]) % 16) * 16 + b64_val(s[2]) / 4) as u8,
            ((b64_val(s[2]) % 4) * 64 + b64_val(s[3])) as u8,
        ] + b64_decode(s.skip(4))
    }
}

/// Encoding a sequence whose length is a multiple of three and then some
/// more bytes encodes the two parts independently.
pub proof fn lemma_b64_append(a: Seq<u8>, b: Seq<u8>)
    requires
        a.len() % 3 == 0,
    ensures
        b64_of(a + b) == b64_of(a) + b64_of(b),
    decreases a.len(),
{
    if a.len() == 0 {
        assert(a + b =~= b);
        assert(b64_of(a) + b64_of(b) =~= b64_of(b));
    } else {
        let ab = a + b;
        assert(ab.len() >= 3);
        if ab.len() == 3 {
            assert(b =~= Seq::<u8>::empty());
            assert(b64_of(b) =~= Seq::<char>::empty());
            assert(b64_of(a + b) =~= b64_of(a) + b64_of(b));
        } else {
            assert(ab.skip(3) =~= a.skip(3) + b);
            lemma_b64_append(a.skip(3), b);
            if a.len() == 3 {
                assert(a.skip(3) =~= Seq::<u8>::empty());
            }
            assert(b64_of(a + b) =~= b64_of(a) + b64_of(b));
        }
    }
}

/// Decoding inverts encoding exactly.
pub proof fn lemma_b64_decode_of(s: Seq<u8>)
    ensures
        b64_decode(b64_of(s)) == s,
    decreases s.len(),
{
    if s.len() == 0 {
        assert(b64_decode(b64_of(s)) =~= s);
    } else if s.len() == 1 {
        lemma_b64_char_val((s[0] / 4) as int);
        lemma_b64_char_val((s[0] % 4) * 16);
        assert(b64_decode(b64_of(s)) =~= s);
    } else if s.len() == 2 {
        lemma_b64_char_val((s[0] / 4) as int);
        lemma_b64_char_val((s[0] % 4) * 16 + s[1] / 16);
        lemma_b64_char_val((s[1] % 16) * 4);
        assert(b64_decode(b64_of(s)) =~= s);
    } else {
        lemma_b64_char_val((s[0] / 4) as int);
        lemma_b64_char_val((s[0] % 4) * 16 + s[1] / 16);
        lemma_b64_char_val((s[1] % 16) * 4 + s[2] / 64);
        lemma_b64_char_val((s[2] % 64) as int);
        lemma_b64_decode_of(s.skip(3));
        let e = b64_of(s);
        assert(e.len() >= 4);
        assert(e.skip(4) =~= b64_of(s.skip(3)));
        assert(b64_decode(e) =~= seq![s[0], s[1], s[2]] + s.skip(3));
        assert(seq![s[0], s[1], s[2]] + s.skip(3) =~= s);
    }
}

/// The encoding is injective: distinct byte sequences have distinct
/// encodings.
pub proof fn lemma_b64_injective(a: Seq<u8>, b: Seq<u8>)
    requires
        b64_of(a) == b64_of(b),
    ensures
        a == b,
{
    lemma_b64_decode_of(a);
    lemma_b64_decode_of(b);
}

/// Every character of an encoding belongs to the base64url alphabet; in
/// particular it is never a path separator and never a dot.
pub proof fn lemma_b64_alphabet(s: Seq<u8>, i: int)
    requires
        0 <= i < b64_of(s).len(),
    ensures
        in_b64_alphabet(b64_of(s)[i]),
        b64_of(s)[i] != '/',
        b64_of(s)[i] != '\\',
        b64_of(s)[i] != '.',
    decreases s.len(),
{
    if s.len() == 0 {
    } else if s.len() == 1 {
        lemma_b64_char_val((s[0] / 4) as int);
        lemma_b64_char_val((s[0] % 4) * 16);
    } else if s.len() == 2 {
        lemma_b64_char_val((s[0] / 4) as int);
        lemma_b64_char_val((s[0] % 4) * 16 + s[1] / 16);
        lemma_b64_char_val((s[1] % 16) * 4);
    } else {
        if i < 4 {
            lemma_b64_char_val((s[0] / 4) as int);
            lemma_b64_char_val((s[0] % 4) * 16 + s[1] / 16);
            lemma_b64_char_val((s[1] % 16) * 4 + s[2] / 64);
            lemma_b64_char_val((s[2] % 64) as int);
        } else {
            lemma_b64_alphabet(s.skip(3), i - 4);
        }
    }
}

// ------------------------------------------------------------------
// The shard label
// ------------------------------------------------------------------

/// A stable 64-bit hash of a byte sequence (the FNV-1a function): starting
/// from a fixed offset, each byte is folded in by xor followed by a wrapping
/// multiplication with a fixed prime.
pub open spec fn stable_hash(s: Seq<u8>) -> u64
    decreases s.len(),
{
    if s.len() == 0 {
        0xcbf29ce484222325u64
    } else {
        u64_specs::wrapping_mul(stable_hash(s.drop_last()) ^ (s.last() as u64), 0x100000001b3u64)
    }
}

/// Folds a 64-bit hash down to its low nibble by staged shift-xors
/// (by 32, 16, 8 and 4 bits).
pub open spec fn fold_to_nibble(h: u64) -> int {
    let h1 = (h >> 32u64) ^ h;
    let h2 = (h1 >> 16u64) ^ h1;
    let h3 = (h2 >> 8u64) ^ h2;
    let h4 = (h3 >> 4u64) ^ h3;
    (h4 % 16u64) as int
}

/// The lowercase hexadecimal digit for a nibble.
pub open spec fn hex_char(n: int) -> char
    recommends
        0 <= n < 16,
{
    if n < 10 {
        (48 + n) as char
    } else {
        (87 + n) as char
    }
}

/// The shard label of a key: the lowercase hex digit of the folded hash's
/// low nibble.
pub open spec fn shard_of(s: Seq<u8>) -> char {
    hex_char(fold_to_nibble(stable_hash(s)))
}

/// A shard label is one of the sixteen lowercase hex digits; in particular
/// it is never a path separator and never a dot.
pub proof fn lemma_shard_alphabet(s: Seq<u8>)
    ensures
        ('0' <= shard_of(s) && shard_of(s) <= '9') || ('a' <= shard_of(s) && shard_of(s) <= 'f'),
        shard_of(s) != '/',
        shard_of(s) != '\\',
        shard_of(s) != '.',
{
}

// ------------------------------------------------------------------
// The complete encoding of a key
// ------------------------------------------------------------------

/// The encoded file name of a key, as a character sequence.
pub open spec fn name_of(key: Seq<char>) -> Seq<char> {
    b64_of(encode_utf8(key))
}

/// Distinct keys get distinct encoded names, and therefore distinct
/// (shard label, name) pairs.
pub proof fn lemma_encode_injective(k1: Seq<char>, k2: Seq<char>)
    requires
        k1 != k2,
    ensures
        name_of(k1) != name_of(k2),
{
    broadcast use encode_utf8_decode_utf8;

    if name_of(k1) == name_of(k2) {
        lemma_b64_injective(encode_utf8(k1), encode_utf8(k2));
        assert(decode_utf8(encode_utf8(k1)) == k1);
        assert(decode_utf8(encode_utf8(k2)) == k2);
    }
}

// ------------------------------------------------------------------
// Executable encoding
// ------------------------------------------------------------------

/// Relies on `String: FromIterator<char>`: collecting an iterator of
/// characters yields the string holding exactly those characters in order.
#[verifier::external_body]
pub(crate) fn chars_to_string(cs: &Vec<char>) -> (r: String)
    ensures
        r@ == cs@,
{
    cs.iter().collect()
}

fn b64_char_exec(v: u8) -> (c: char)
    requires
        v < 64,
    ensures
        c == b64_char(v as int),
{
    let b: u8 = if v < 26 {
        65 + v
    } else if v < 52 {
        97 + (v - 26)
    } else if v < 62 {
        48 + (v - 52)
    } else if v == 62 {
        45
    } else {
        95
    };
    b as char
}

/// The encoded file name for a cache key: the URL-safe base64 encoding of
/// its UTF-8 bytes, without padding.
pub fn encode_name(key: &str) -> (r: String)
    ensures
        r@ == name_of(key@),
{
    let bytes: Vec<u8> = key.as_bytes_vec();
    let n: usize = bytes.len();
    let mut out: Vec<char> = Vec::new();
    let mut i: usize = 0;
    while n - i >= 3
        invariant
            bytes@ == encode_utf8(key@),
            n == bytes@.len(),
            i % 3 == 0,
            i <= n,
            out@ == b64_of(bytes@.take(i as int)),
        decreases n - i,
    {
        let b0 = bytes[i];
        let b1 = bytes[i + 1];
        let b2 = bytes[i + 2];
        out.push(b64_char_exec(b0 / 4));
        out.push(b64_char_exec((b0 % 4) * 16 + b1 / 16));
        out.push(b64_char_exec((b1 % 16) * 4 + b2 / 64));
        out.push(b64_char_exec(b2 % 64));
        proof {
            let done = bytes@.take(i as int);
            let chunk = bytes@.subrange(i as int, i + 3);
            lemma_b64_append(done, chunk);
            assert(done + chunk =~= bytes@.take(i + 3));
            assert(chunk.len() == 3);
            assert(chunk[0] == b0 && chunk[1] == b1 && chunk[2] == b2);
            assert(chunk.skip(3) =~= Seq::<u8>::empty());
            assert(b64_of(chunk.skip(3)) =~= Seq::<char>::empty());
            assert(b64_of(chunk) =~= seq![
                b64_char((chunk[0] / 4) as int),
                b64_char((chunk[0] % 4) * 16 + chunk[1] / 16),
                b64_char((chunk[1] % 16) * 4 + chunk[2] / 64),
                b64_char((chunk[2] % 64) as int),
            ]);
            assert(out@ =~= b64_of(done) + b64_of(chunk));
            assert(out@ =~= b64_of(bytes@.take(i + 3)));
        }
        i += 3;
    }
    if i < n {
        let b0 = bytes[i];
        if i + 1 < n {
            let b1 = bytes[i + 1];
            out.push(b64_char_exec(b0 / 4));
            out.push(b64_char_exec((b0 % 4) * 16 + b1 / 16));
            out.push(b64_char_exec((b1 % 16) * 4));
        } else {
            out.push(b64_char_exec(b0 / 4));
            out.push(b64_char_exec((b0 % 4) * 16));
        }
        proof {
            let done = bytes@.take(i as int);
            let tail = bytes@.subrange(i as int, n as int);
            lemma_b64_append(done, tail);
            assert(done + tail =~= bytes@);
            assert(out@ =~= b64_of(bytes@));
        }
    } else {
        proof {
            assert(bytes@.take(i as int) =~= bytes@);
        }
    }
    chars_to_string(&out)
}

/// The shard label (folder character) for a cache key: one lowercase hex
/// digit derived from a stable 64-bit hash of the key's UTF-8 bytes.
pub fn folder_char(key: &str) -> (c: char)
    ensures
        c == shard_of(encode_utf8(key@)),
{
    let bytes: Vec<u8> = key.as_bytes_vec();
    let n: usize = bytes.len();
    let mut h: u64 = 0xcbf29ce484222325;
    let mut i: usize = 0;
    while i < n
        invariant
            bytes@ == encode_utf8(key@),
            n == bytes@.len(),
            i <= n,
            h == stable_hash(bytes@.take(i as int)),
        decreases n - i,
    {
        h = (h ^ (bytes[i] as u64)).wrapping_mul(0x100000001b3);
        proof {
            let t = bytes@.take(i + 1);
            assert(t.drop_last() =~= bytes@.take(i as int));
            assert(t.last() == bytes@[i as int]);
        }
        i += 1;
    }
    proof {
        assert(bytes@.take(n as int) =~= bytes@);
    }
    let h1: u64 = (h >> 32) ^ h;
    let h2: u64 = (h1 >> 16) ^ h1;
    let h3: u64 = (h2 >> 8) ^ h2;
    let h4: u64 = (h3 >> 4) ^ h3;
    let nib: u8 = (h4 % 16) as u8;
    if nib < 10 {
        (48 + nib) as char
    } else {
        (87 + nib) as char
    }
}

/// Encodes a cache key as its (shard label, encoded file name) pair.
/// The result is a function of the key alone, and distinct keys always
/// yield distinct pairs (`lemma_encode_injective`).
pub fn encode(key: &str) -> (r: (char, String))
    ensures
        r.0 == shard_of(encode_utf8(key@)),
        r.1@ == name_of(key@),
{
    (folder_char(key), encode_name(key))
}

} // verus!
