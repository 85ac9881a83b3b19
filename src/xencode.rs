//! The portal's word-mixing cipher (an XXTEA-style encoder) and the
//! base64 codec with the portal's own alphabet.

use base64::engine::Engine;
use vstd::prelude::*;
use vstd::string::StringSliceAdditionalSpecFns;

verus! {

#[verifier::external_type_specification]
#[verifier::external_body]
pub struct ExParseAlphabetError(base64::alphabet::ParseAlphabetError);

/// Byte `i` of `b`, or zero past its end.
pub open spec fn byte_or_zero(b: Seq<u8>, i: int) -> u32 {
    if 0 <= i < b.len() {
        b[i] as u32
    } else {
        0
    }
}

/// Little-endian word `i` of `b`; a short last chunk is padded with zeros.
pub open spec fn le_word(b: Seq<u8>, i: int) -> u32 {
    byte_or_zero(b, 4 * i) | (byte_or_zero(b, 4 * i + 1) << 8) | (byte_or_zero(b, 4 * i + 2)
        << 16) | (byte_or_zero(b, 4 * i + 3) << 24)
}

/// `b` read as little-endian words, four bytes each.
pub open spec fn pack_words(b: Seq<u8>) -> Seq<u32> {
    Seq::new(((b.len() + 3) / 4) as nat, |i: int| le_word(b, i))
}

/// Packs `buffer` into little-endian words; with `append_size` one more
/// word holds the byte count (modulo 2^32).
fn mix(buffer: &[u8], append_size: bool) -> (res: Vec<u32>)
    ensures
        res@ == (if append_size {
            pack_words(buffer@).push(buffer@.len() as u32)
        } else {
            pack_words(buffer@)
        }),
{
    let n = buffer.len();
    let words: usize = n / 4 + if n % 4 == 0 {
        0
    } else {
        1
    };
    assert(words == (n + 3) / 4);
    let mut res: Vec<u32> = Vec::new();
    let mut k: usize = 0;
    while k < words
        invariant
            words == (buffer@.len() + 3) / 4,
            n == buffer@.len(),
            k <= words,
            res@ =~= Seq::new(k as nat, |i: int| le_word(buffer@, i)),
        decreases words - k,
    {
        let j: usize = 4 * k;
        let rem: usize = n - j;
        let b0: u32 = buffer[j] as u32;
        let b1: u32 = if rem > 1 {
            buffer[j + 1] as u32
        } else {
            0
        };
        let b2: u32 = if rem > 2 {
            buffer[j + 2] as u32
        } else {
            0
        };
        let b3: u32 = if rem > 3 {
            buffer[j + 3] as u32
        } else {
            0
        };
        res.push(b0 | (b1 << 8) | (b2 << 16) | (b3 << 24));
        k = k + 1;
    }
    assert(res@ =~= pack_words(buffer@));
    if append_size {
        res.push(#[verifier::truncate] (n as u32));
    }
    res
}

/// Byte `k` (0 to 3, least significant first) of the word `w`.
pub open spec fn word_byte(w: u32, k: int) -> u8 {
    if k == 0 {
        w as u8
    } else if k == 1 {
        (w >> 8) as u8
    } else if k == 2 {
        (w >> 16) as u8
    } else {
        (w >> 24) as u8
    }
}

/// The words of `w` written out as little-endian bytes, four per word.
pub open spec fn unpack_words(w: Seq<u32>) -> Seq<u8>
    decreases w.len(),
{
    if w.len() == 0 {
        seq![]
    } else {
        let x = w.last();
        unpack_words(w.drop_last()) + seq![
            word_byte(x, 0),
            word_byte(x, 1),
            word_byte(x, 2),
            word_byte(x, 3),
        ]
    }
}

/// Writes the words back out as little-endian bytes, nothing dropped.
fn splite(buffer: &Vec<u32>) -> (res: Vec<u8>)
    ensures
        res@ == unpack_words(buffer@),
{
    let mut res: Vec<u8> = Vec::new();
    let mut k: usize = 0;
    while k < buffer.len()
        invariant
            k <= buffer@.len(),
            res@ == unpack_words(buffer@.take(k as int)),
        decreases buffer@.len() - k,
    {
        let w = buffer[k];
        res.push(w as u8);
        res.push((w >> 8) as u8);
        res.push((w >> 16) as u8);
        res.push((w >> 24) as u8);
        assert(buffer@.take(k + 1).drop_last() =~= buffer@.take(k as int));
        assert(res@ =~= unpack_words(buffer@.take(k + 1)));
        k = k + 1;
    }
    assert(buffer@.take(k as int) =~= buffer@);
    res
}

/// The constant added to the running sum at the start of each round.
pub const DELTA: u32 = 0x9e37_79b9;

/// Key word `i`, or zero where the key supplies no such word.
pub open spec fn key_word(k: Seq<u32>, i: int) -> u32 {
    if 0 <= i < k.len() {
        k[i]
    } else {
        0
    }
}

/// The key word that position `p` uses in a round with running sum `d`.
pub open spec fn key_index(p: nat, d: u32) -> int {
    ((p % 4) as u32 ^ ((d >> 2) & 3)) as int
}

/// The new value of one position: `right` is the value written just
/// before, `left` the next position's, `kw` the key word, `cur` the old value.
pub open spec fn mixed(right: u32, left: u32, d: u32, kw: u32, cur: u32) -> u32 {
    ((right >> 5) ^ (left << 2)).wrapping_add(((left >> 3) ^ (right << 4)) ^ (d ^ left)).wrapping_add(
        kw ^ right,
    ).wrapping_add(cur)
}

/// One pass of a round over positions `p..` of the circular buffer `v`,
/// in order, each new value feeding the next.
pub open spec fn sweep(v: Seq<u32>, k: Seq<u32>, d: u32, p: nat, right: u32) -> Seq<u32>
    decreases v.len() - p,
{
    if p < v.len() {
        let left = v[((p + 1) as int) % (v.len() as int)];
        let nv = mixed(right, left, d, key_word(k, key_index(p, d)), v[p as int]);
        sweep(v.update(p as int, nv), k, d, p + 1, nv)
    } else {
        v
    }
}

/// `count` more rounds from the running sum `d`; each pass starts from the
/// value at the last position.
pub open spec fn rounds(v: Seq<u32>, k: Seq<u32>, d: u32, count: nat) -> Seq<u32>
    decreases count,
{
    if count == 0 {
        v
    } else {
        let d2 = d.wrapping_add(DELTA);
        rounds(sweep(v, k, d2, 0, v.last()), k, d2, (count - 1) as nat)
    }
}

/// The number of rounds for a buffer of `n` words.
pub open spec fn round_count(n: nat) -> nat {
    (6int + 52int / (n as int)) as nat
}

/// The working buffer after all rounds: the message words, then its length.
pub open spec fn cipher_words(msg: Seq<u8>, key: Seq<u8>) -> Seq<u32> {
    let v = pack_words(msg).push(msg.len() as u32);
    rounds(v, pack_words(key), 0, round_count(v.len()))
}

/// The cipher's output on the bytes `msg` under the key bytes `key`.
pub open spec fn xencode_bytes(msg: Seq<u8>, key: Seq<u8>) -> Seq<u8> {
    if msg.len() == 0 {
        seq![]
    } else {
        unpack_words(cipher_words(msg, key))
    }
}

proof fn lemma_sweep_len(v: Seq<u32>, k: Seq<u32>, d: u32, p: nat, right: u32)
    ensures
        sweep(v, k, d, p, right).len() == v.len(),
    decreases v.len() - p,
{
    if p < v.len() {
        let left = v[((p + 1) as int) % (v.len() as int)];
        let nv = mixed(right, left, d, key_word(k, key_index(p, d)), v[p as int]);
        lemma_sweep_len(v.update(p as int, nv), k, d, p + 1, nv);
    }
}

/// Encodes `msg` under `key`: an empty message gives empty output;
/// otherwise the bytes of every word of the final buffer, the length word
/// included.
pub fn xencode(msg: &str, key: &str) -> (r: Vec<u8>)
    ensures
        r@ == xencode_bytes(msg.spec_bytes(), key.spec_bytes()),
        msg@.len() == 0 ==> r@.len() == 0,
{
    let mb = msg.as_bytes();
    if mb.len() == 0 {
        return Vec::new();
    }
    let mut v = mix(mb, true);
    let kb = key.as_bytes();
    let kw = mix(kb, false);
    let ghost v0 = v@;
    let ghost kseq = kw@;
    let len = v.len();
    let last = len - 1;
    let mut right: u32 = v[last];
    let mut d: u32 = 0;
    let count: usize = 6 + 52 / len;
    let mut r: usize = 0;
    while r < count
        invariant
            len == v@.len(),
            len == v0.len(),
            len >= 1,
            last == len - 1,
            kseq == kw@,
            count == round_count(len as nat),
            r <= count,
            right == v@.last(),
            rounds(v0, kseq, 0, count as nat) == rounds(v@, kseq, d, (count - r) as nat),
        decreases count - r,
    {
        d = d.wrapping_add(DELTA);
        let e: u32 = (d >> 2) & 3;
        let ghost start = v@;
        let mut p: usize = 0;
        while p < len
            invariant
                len == v@.len(),
                len == start.len(),
                len >= 1,
                kseq == kw@,
                e == (d >> 2) & 3,
                p <= len,
                p > 0 ==> right == v@[p - 1],
                p == 0 ==> right == start.last(),
                sweep(start, kseq, d, 0, start.last()) == sweep(v@, kseq, d, p as nat, right),
            decreases len - p,
        {
            let left = v[(p + 1) % len];
            let ki: u32 = ((p % 4) as u32) ^ e;
            let kv: u32 = if (ki as usize) < kw.len() {
                kw[ki as usize]
            } else {
                0
            };
            right = ((right >> 5) ^ (left << 2)).wrapping_add(((left >> 3) ^ (right << 4)) ^ (d
                ^ left)).wrapping_add(kv ^ right).wrapping_add(v[p]);
            v.set(p, right);
            p = p + 1;
        }
        proof {
            lemma_sweep_len(start, kseq, d, 0, start.last());
        }
        r = r + 1;
    }
    assert(v@ == cipher_words(mb@, kb@)) by {
        assert(v0 == pack_words(mb@).push(mb@.len() as u32));
    }
    splite(&v)
}

/// The portal's base64 alphabet.
pub const BASE64_ALPHABET: &'static str = "LVoJPiCN2R8G90yg+hmFHuacZ1OWMnrsSTXkYpUq/3dlbfKwv6xztjI7DeBE45QA";

/// What makes a string a base64 alphabet: 64 distinct printable ASCII
/// characters, none of them the padding character `=`.
pub open spec fn valid_alphabet(a: Seq<char>) -> bool {
    &&& a.len() == 64
    &&& forall|i: int| 0 <= i < 64 ==> ' ' <= #[trigger] a[i] <= '~' && a[i] != '='
    &&& forall|i: int, j: int| 0 <= i < j < 64 ==> #[trigger] a[i] != #[trigger] a[j]
}

/// Base64 of `b` over the alphabet `a`: each group of three bytes gives
/// four symbols; a last group of one or two bytes is zero-filled and
/// padded with `=` to four.
pub open spec fn b64_encode(a: Seq<char>, b: Seq<u8>) -> Seq<char>
    decreases b.len(),
{
    if b.len() == 0 {
        seq![]
    } else if b.len() == 1 {
        seq![a[(b[0] >> 2) as int], a[((b[0] << 4) & 0x3f) as int], '=', '=']
    } else if b.len() == 2 {
        seq![
            a[(b[0] >> 2) as int],
            a[(((b[0] << 4) | (b[1] >> 4)) & 0x3f) as int],
            a[((b[1] << 2) & 0x3f) as int],
            '=',
        ]
    } else {
        seq![
            a[(b[0] >> 2) as int],
            a[(((b[0] << 4) | (b[1] >> 4)) & 0x3f) as int],
            a[(((b[1] << 2) | (b[2] >> 6)) & 0x3f) as int],
            a[(b[2] & 0x3f) as int],
        ] + b64_encode(a, b.skip(3))
    }
}

/// The number of symbols that base64 with padding gives for `n` bytes.
pub open spec fn b64_len(n: nat) -> nat {
    4 * ((n + 2) / 3)
}

/// Relies on base64's `Alphabet::new`, which accepts exactly the valid
/// alphabets, and on `Engine::encode` of a `GeneralPurpose` engine with
/// the default (padding) configuration, which writes standard base64 over
/// that alphabet; the encoder panics where the output length overflows.
#[verifier::external_body]
fn encode_with_alphabet(symbols: &str, data: &[u8]) -> (r: Result<
    String,
    base64::alphabet::ParseAlphabetError,
>)
    requires
        b64_len(data@.len()) <= usize::MAX,
    ensures
        r is Ok <==> valid_alphabet(symbols@),
        r matches Ok(s) ==> s@ == b64_encode(symbols@, data@),
{
    let alphabet = base64::alphabet::Alphabet::new(symbols)?;
    let config = base64::engine::GeneralPurposeConfig::new();
    let engine = base64::engine::GeneralPurpose::new(&alphabet, config);
    Ok(engine.encode(data))
}

proof fn lemma_portal_alphabet_valid()
    ensures
        valid_alphabet(BASE64_ALPHABET@),
{
    reveal_strlit("LVoJPiCN2R8G90yg+hmFHuacZ1OWMnrsSTXkYpUq/3dlbfKwv6xztjI7DeBE45QA");
}

/// Base64 of `payload` over the portal's alphabet, with padding.
pub fn fkbase64(payload: Vec<u8>) -> (r: String)
    requires
        b64_len(payload@.len()) <= usize::MAX,
    ensures
        r@ == b64_encode(BASE64_ALPHABET@, payload@),
{
    proof {
        lemma_portal_alphabet_valid();
    }
    match encode_with_alphabet(BASE64_ALPHABET, payload.as_slice()) {
        Ok(s) => s,
        Err(_) => String::new(),
    }
}

/// The position of the symbol `c` in the alphabet `a`.
pub open spec fn symbol_value(a: Seq<char>, c: char) -> u8 {
    (choose|i: int| 0 <= i < 64 && a[i] == c) as u8
}

/// Base64 decoding over the alphabet `a`: each group of four symbols gives
/// three bytes, or fewer where the group is padded.
pub open spec fn b64_decode(a: Seq<char>, s: Seq<char>) -> Seq<u8>
    decreases s.len(),
{
    if s.len() < 4 {
        seq![]
    } else {
        let x0 = symbol_value(a, s[0]);
        let x1 = symbol_value(a, s[1]);
        let x2 = symbol_value(a, s[2]);
        let x3 = symbol_value(a, s[3]);
        let b0 = (x0 << 2) | (x1 >> 4);
        let b1 = (x1 << 4) | (x2 >> 2);
        let b2 = (x2 << 6) | x3;
        if s[2] == '=' {
            seq![b0]
        } else if s[3] == '=' {
            seq![b0, b1]
        } else {
            seq![b0, b1, b2] + b64_decode(a, s.skip(4))
        }
    }
}

proof fn lemma_symbol_value(a: Seq<char>, i: int)
    requires
        valid_alphabet(a),
        0 <= i < 64,
    ensures
        symbol_value(a, a[i]) == i,
        a[i] != '=',
{
    let j = choose|j: int| 0 <= j < 64 && a[j] == a[i];
    if j < i {
        assert(a[j] != a[i]);
    } else if i < j {
        assert(a[i] != a[j]);
    }
}

proof fn lemma_group_bits(b0: u8, b1: u8, b2: u8)
    by (bit_vector)
    ensures
        b0 >> 2 < 64,
        ((b0 << 4) | (b1 >> 4)) & 0x3f < 64,
        ((b1 << 2) | (b2 >> 6)) & 0x3f < 64,
        b2 & 0x3f < 64,
        (b0 << 4) & 0x3f < 64,
        (b1 << 2) & 0x3f < 64,
        (((b0 >> 2) << 2) | ((((b0 << 4) | (b1 >> 4)) & 0x3f) >> 4)) == b0,
        (((b0 >> 2) << 2) | (((b0 << 4) & 0x3f) >> 4)) == b0,
        (((((b0 << 4) | (b1 >> 4)) & 0x3f) << 4) | ((((b1 << 2) | (b2 >> 6)) & 0x3f) >> 2)) == b1,
        (((((b0 << 4) | (b1 >> 4)) & 0x3f) << 4) | (((b1 << 2) & 0x3f) >> 2)) == b1,
        (((((b1 << 2) | (b2 >> 6)) & 0x3f) << 6) | (b2 & 0x3f)) == b2,
{
}

/// Decoding base64 over the same valid alphabet gives back the bytes that
/// were encoded.
pub proof fn lemma_b64_round_trip(a: Seq<char>, b: Seq<u8>)
    requires
        valid_alphabet(a),
    ensures
        b64_decode(a, b64_encode(a, b)) == b,
    decreases b.len(),
{
    if b.len() == 0 {
        assert(b64_decode(a, seq![]) == Seq::<u8>::empty());
        assert(b =~= seq![]);
    } else {
        let b0 = b[0];
        let b1: u8 = if b.len() > 1 { b[1] } else { 0 };
        let b2: u8 = if b.len() > 2 { b[2] } else { 0 };
        lemma_group_bits(b0, b1, b2);
        let e = b64_encode(a, b);
        lemma_symbol_value(a, (b0 >> 2) as int);
        if b.len() == 1 {
            lemma_symbol_value(a, ((b0 << 4) & 0x3f) as int);
            assert(b64_decode(a, e) =~= b);
        } else if b.len() == 2 {
            lemma_symbol_value(a, (((b0 << 4) | (b1 >> 4)) & 0x3f) as int);
            lemma_symbol_value(a, ((b1 << 2) & 0x3f) as int);
            assert(b64_decode(a, e) =~= b);
        } else {
            lemma_symbol_value(a, (((b0 << 4) | (b1 >> 4)) & 0x3f) as int);
            lemma_symbol_value(a, (((b1 << 2) | (b2 >> 6)) & 0x3f) as int);
            lemma_symbol_value(a, (b2 & 0x3f) as int);
            let rest = b64_encode(a, b.skip(3));
            assert(e.skip(4) =~= rest);
            lemma_b64_round_trip(a, b.skip(3));
            assert(b64_decode(a, e) =~= b);
        }
    }
}

} // verus!
