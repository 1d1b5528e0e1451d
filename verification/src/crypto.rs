//! SHA-256 and base64url (no padding), as used by the PKCE code challenge.

use vstd::prelude::*;
use vstd::wrapping::u32_specs::wrapping_add;

verus! {

// ---------------------------------------------------------------------------
// SHA-256 (FIPS 180-4)
// ---------------------------------------------------------------------------

pub open spec fn rotr(x: u32, n: u32) -> u32 {
    (x >> n) | (x << ((32 - n) as u32))
}

pub open spec fn big_sigma0(a: u32) -> u32 {
    rotr(a, 2) ^ rotr(a, 13) ^ rotr(a, 22)
}

pub open spec fn big_sigma1(e: u32) -> u32 {
    rotr(e, 6) ^ rotr(e, 11) ^ rotr(e, 25)
}

pub open spec fn small_sigma0(x: u32) -> u32 {
    rotr(x, 7) ^ rotr(x, 18) ^ (x >> 3)
}

pub open spec fn small_sigma1(x: u32) -> u32 {
    rotr(x, 17) ^ rotr(x, 19) ^ (x >> 10)
}

pub open spec fn choose_bits(e: u32, f: u32, g: u32) -> u32 {
    (e & f) ^ (!e & g)
}

pub open spec fn majority(a: u32, b: u32, c: u32) -> u32 {
    (a & b) ^ (a & c) ^ (b & c)
}

/// The round constants: first 32 bits of the fractional parts of the cube
/// roots of the first 64 primes.
pub open spec fn round_constant(i: int) -> u32 {
    if i < 32 {
        if i < 16 {
            if i < 8 {
                if i == 0 { 0x428a2f98 } else if i == 1 { 0x71374491 } else if i == 2 { 0xb5c0fbcf } else if i == 3 { 0xe9b5dba5 } else if i == 4 { 0x3956c25b } else if i == 5 { 0x59f111f1 } else if i == 6 { 0x923f82a4 } else { 0xab1c5ed5 }
            } else {
                if i == 8 { 0xd807aa98 } else if i == 9 { 0x12835b01 } else if i == 10 { 0x243185be } else if i == 11 { 0x550c7dc3 } else if i == 12 { 0x72be5d74 } else if i == 13 { 0x80deb1fe } else if i == 14 { 0x9bdc06a7 } else { 0xc19bf174 }
            }
        } else {
            if i < 24 {
                if i == 16 { 0xe49b69c1 } else if i == 17 { 0xefbe4786 } else if i == 18 { 0x0fc19dc6 } else if i == 19 { 0x240ca1cc } else if i == 20 { 0x2de92c6f } else if i == 21 { 0x4a7484aa } else if i == 22 { 0x5cb0a9dc } else { 0x76f988da }
            } else {
                if i == 24 { 0x983e5152 } else if i == 25 { 0xa831c66d } else if i == 26 { 0xb00327c8 } else if i == 27 { 0xbf597fc7 } else if i == 28 { 0xc6e00bf3 } else if i == 29 { 0xd5a79147 } else if i == 30 { 0x06ca6351 } else { 0x14292967 }
            }
        }
    } else {
        if i < 48 {
            if i < 40 {
                if i == 32 { 0x27b70a85 } else if i == 33 { 0x2e1b2138 } else if i == 34 { 0x4d2c6dfc } else if i == 35 { 0x53380d13 } else if i == 36 { 0x650a7354 } else if i == 37 { 0x766a0abb } else if i == 38 { 0x81c2c92e } else { 0x92722c85 }
            } else {
                if i == 40 { 0xa2bfe8a1 } else if i == 41 { 0xa81a664b } else if i == 42 { 0xc24b8b70 } else if i == 43 { 0xc76c51a3 } else if i == 44 { 0xd192e819 } else if i == 45 { 0xd6990624 } else if i == 46 { 0xf40e3585 } else { 0x106aa070 }
            }
        } else {
            if i < 56 {
                if i == 48 { 0x19a4c116 } else if i == 49 { 0x1e376c08 } else if i == 50 { 0x2748774c } else if i == 51 { 0x34b0bcb5 } else if i == 52 { 0x391c0cb3 } else if i == 53 { 0x4ed8aa4a } else if i == 54 { 0x5b9cca4f } else { 0x682e6ff3 }
            } else {
                if i == 56 { 0x748f82ee } else if i == 57 { 0x78a5636f } else if i == 58 { 0x84c87814 } else if i == 59 { 0x8cc70208 } else if i == 60 { 0x90befffa } else if i == 61 { 0xa4506ceb } else if i == 62 { 0xbef9a3f7 } else { 0xc67178f2 }
            }
        }
    }
}

fn round_constant_exec(i: usize) -> (r: u32)
    requires
        i < 64,
    ensures
        r == round_constant(i as int),
{
    if i < 32 {
        if i < 16 {
            if i < 8 {
                if i == 0 { 0x428a2f98 } else if i == 1 { 0x71374491 } else if i == 2 { 0xb5c0fbcf } else if i == 3 { 0xe9b5dba5 } else if i == 4 { 0x3956c25b } else if i == 5 { 0x59f111f1 } else if i == 6 { 0x923f82a4 } else { 0xab1c5ed5 }
            } else {
                if i == 8 { 0xd807aa98 } else if i == 9 { 0x12835b01 } else if i == 10 { 0x243185be } else if i == 11 { 0x550c7dc3 } else if i == 12 { 0x72be5d74 } else if i == 13 { 0x80deb1fe } else if i == 14 { 0x9bdc06a7 } else { 0xc19bf174 }
            }
        } else {
            if i < 24 {
                if i == 16 { 0xe49b69c1 } else if i == 17 { 0xefbe4786 } else if i == 18 { 0x0fc19dc6 } else if i == 19 { 0x240ca1cc } else if i == 20 { 0x2de92c6f } else if i == 21 { 0x4a7484aa } else if i == 22 { 0x5cb0a9dc } else { 0x76f988da }
            } else {
                if i == 24 { 0x983e5152 } else if i == 25 { 0xa831c66d } else if i == 26 { 0xb00327c8 } else if i == 27 { 0xbf597fc7 } else if i == 28 { 0xc6e00bf3 } else if i == 29 { 0xd5a79147 } else if i == 30 { 0x06ca6351 } else { 0x14292967 }
            }
        }
    } else {
        if i < 48 {
            if i < 40 {
                if i == 32 { 0x27b70a85 } else if i == 33 { 0x2e1b2138 } else if i == 34 { 0x4d2c6dfc } else if i == 35 { 0x53380d13 } else if i == 36 { 0x650a7354 } else if i == 37 { 0x766a0abb } else if i == 38 { 0x81c2c92e } else { 0x92722c85 }
            } else {
                if i == 40 { 0xa2bfe8a1 } else if i == 41 { 0xa81a664b } else if i == 42 { 0xc24b8b70 } else if i == 43 { 0xc76c51a3 } else if i == 44 { 0xd192e819 } else if i == 45 { 0xd6990624 } else if i == 46 { 0xf40e3585 } else { 0x106aa070 }
            }
        } else {
            if i < 56 {
                if i == 48 { 0x19a4c116 } else if i == 49 { 0x1e376c08 } else if i == 50 { 0x2748774c } else if i == 51 { 0x34b0bcb5 } else if i == 52 { 0x391c0cb3 } else if i == 53 { 0x4ed8aa4a } else if i == 54 { 0x5b9cca4f } else { 0x682e6ff3 }
            } else {
                if i == 56 { 0x748f82ee } else if i == 57 { 0x78a5636f } else if i == 58 { 0x84c87814 } else if i == 59 { 0x8cc70208 } else if i == 60 { 0x90befffa } else if i == 61 { 0xa4506ceb } else if i == 62 { 0xbef9a3f7 } else { 0xc67178f2 }
            }
        }
    }
}

/// The initial hash value.
pub open spec fn initial_hash() -> Seq<u32> {
    seq![
        0x6a09e667u32,
        0xbb67ae85u32,
        0x3c6ef372u32,
        0xa54ff53au32,
        0x510e527fu32,
        0x9b05688cu32,
        0x1f83d9abu32,
        0x5be0cd19u32,
    ]
}

/// Big-endian 32-bit word at byte offset `i`.
pub open spec fn be_word(b: Seq<u8>, i: int) -> u32 {
    ((b[i] as u32) << 24u32) | ((b[i + 1] as u32) << 16u32) | ((b[i + 2] as u32) << 8u32) | (b[i
        + 3] as u32)
}

/// Message schedule word `i` of a 64-byte block.
pub open spec fn schedule(block: Seq<u8>, i: nat) -> u32
    decreases i,
{
    if i < 16 {
        be_word(block, 4 * i as int)
    } else {
        wrapping_add(
            wrapping_add(
                wrapping_add(schedule(block, (i - 16) as nat), small_sigma0(schedule(block, (i - 15) as nat))),
                schedule(block, (i - 7) as nat),
            ),
            small_sigma1(schedule(block, (i - 2) as nat)),
        )
    }
}

/// One compression round on the working variables a..h.
pub open spec fn round(st: Seq<u32>, i: int, w: u32) -> Seq<u32> {
    let (a, b, c, d, e, f, g, h) = (st[0], st[1], st[2], st[3], st[4], st[5], st[6], st[7]);
    let t1 = wrapping_add(
        wrapping_add(
            wrapping_add(wrapping_add(h, big_sigma1(e)), choose_bits(e, f, g)),
            round_constant(i),
        ),
        w,
    );
    let t2 = wrapping_add(big_sigma0(a), majority(a, b, c));
    seq![wrapping_add(t1, t2), a, b, c, wrapping_add(d, t1), e, f, g]
}

/// The working variables after the first `n` rounds on a block.
pub open spec fn rounds(h: Seq<u32>, block: Seq<u8>, n: nat) -> Seq<u32>
    decreases n,
{
    if n == 0 {
        h
    } else {
        round(rounds(h, block, (n - 1) as nat), n - 1, schedule(block, (n - 1) as nat))
    }
}

/// The hash value after one block.
pub open spec fn compress(h: Seq<u32>, block: Seq<u8>) -> Seq<u32> {
    let r = rounds(h, block, 64);
    Seq::new(8, |k: int| wrapping_add(h[k], r[k]))
}

/// The hash value after the first `n` blocks of a padded message.
pub open spec fn hash_blocks(msg: Seq<u8>, n: nat) -> Seq<u32>
    decreases n,
{
    if n == 0 {
        initial_hash()
    } else {
        compress(hash_blocks(msg, (n - 1) as nat), msg.subrange(64 * (n - 1), 64 * n as int))
    }
}

/// Zero bytes of padding after the 0x80 marker.
pub open spec fn pad_zeros(len: nat) -> nat {
    ((119 - (len % 64)) % 64) as nat
}

/// Byte `k` (0 = most significant) of a 64-bit value.
pub open spec fn be64_byte(x: u64, k: int) -> u8 {
    ((x >> ((56 - 8 * k) as u64)) & 0xff) as u8
}

/// The padded message: data, 0x80, zeros, then the bit length (64-bit,
/// big-endian).
pub open spec fn padded(data: Seq<u8>) -> Seq<u8> {
    let bits = (data.len() * 8) as u64;
    data.push(0x80u8) + Seq::new(pad_zeros(data.len()), |i: int| 0u8) + Seq::new(
        8,
        |k: int| be64_byte(bits, k),
    )
}

/// Byte `j` of the big-endian serialization of eight words.
pub open spec fn digest_bytes(h: Seq<u32>) -> Seq<u8> {
    Seq::new(32, |j: int| ((h[j / 4] >> ((24 - 8 * (j % 4)) as u32)) & 0xff) as u8)
}

/// SHA-256 of a byte string.
pub open spec fn sha256_spec(data: Seq<u8>) -> Seq<u8> {
    let m = padded(data);
    digest_bytes(hash_blocks(m, m.len() / 64))
}

fn rotr_exec(x: u32, n: u32) -> (r: u32)
    requires
        0 < n < 32,
    ensures
        r == rotr(x, n),
{
    (x >> n) | (x << (32 - n))
}

proof fn lemma_padded_len(len: nat)
    ensures
        (len + 1 + pad_zeros(len) + 8) % 64 == 0,
{
}

/// Compression of one 64-byte block.
fn compress_block(h: &Vec<u32>, block: &[u8]) -> (r: Vec<u32>)
    requires
        h@.len() == 8,
        block@.len() == 64,
    ensures
        r@ == compress(h@, block@),
{
    let mut w: Vec<u32> = Vec::new();
    for i in 0..16
        invariant
            block@.len() == 64,
            w@.len() == i,
            forall|j: int| 0 <= j < i ==> w@[j] == schedule(block@, j as nat),
    {
        let v = ((block[4 * i] as u32) << 24) | ((block[4 * i + 1] as u32) << 16) | ((block[4 * i
            + 2] as u32) << 8) | (block[4 * i + 3] as u32);
        w.push(v);
    }
    for i in 16..64
        invariant
            w@.len() == i,
            forall|j: int| 0 <= j < i ==> w@[j] == schedule(block@, j as nat),
    {
        let x15 = w[i - 15];
        let x2 = w[i - 2];
        let s0 = rotr_exec(x15, 7) ^ rotr_exec(x15, 18) ^ (x15 >> 3);
        let s1 = rotr_exec(x2, 17) ^ rotr_exec(x2, 19) ^ (x2 >> 10);
        let v = w[i - 16].wrapping_add(s0).wrapping_add(w[i - 7]).wrapping_add(s1);
        w.push(v);
    }
    let mut a = h[0];
    let mut b = h[1];
    let mut c = h[2];
    let mut d = h[3];
    let mut e = h[4];
    let mut f = h[5];
    let mut g = h[6];
    let mut hh = h[7];
    assert(seq![a, b, c, d, e, f, g, hh] =~= rounds(h@, block@, 0));
    for i in 0..64
        invariant
            w@.len() == 64,
            forall|j: int| 0 <= j < 64 ==> w@[j] == schedule(block@, j as nat),
            seq![a, b, c, d, e, f, g, hh] == rounds(h@, block@, i as nat),
    {
        let s1 = rotr_exec(e, 6) ^ rotr_exec(e, 11) ^ rotr_exec(e, 25);
        let ch = (e & f) ^ ((!e) & g);
        let temp1 = hh.wrapping_add(s1).wrapping_add(ch).wrapping_add(round_constant_exec(i)).wrapping_add(
            w[i],
        );
        let s0 = rotr_exec(a, 2) ^ rotr_exec(a, 13) ^ rotr_exec(a, 22);
        let maj = (a & b) ^ (a & c) ^ (b & c);
        let temp2 = s0.wrapping_add(maj);
        let ghost prev = seq![a, b, c, d, e, f, g, hh];
        hh = g;
        g = f;
        f = e;
        e = d.wrapping_add(temp1);
        d = c;
        c = b;
        b = a;
        a = temp1.wrapping_add(temp2);
        assert(seq![a, b, c, d, e, f, g, hh] =~= round(prev, i as int, schedule(block@, i as nat)));
    }
    let ghost r = seq![a, b, c, d, e, f, g, hh];
    let mut out: Vec<u32> = Vec::new();
    out.push(h[0].wrapping_add(a));
    out.push(h[1].wrapping_add(b));
    out.push(h[2].wrapping_add(c));
    out.push(h[3].wrapping_add(d));
    out.push(h[4].wrapping_add(e));
    out.push(h[5].wrapping_add(f));
    out.push(h[6].wrapping_add(g));
    out.push(h[7].wrapping_add(hh));
    assert(out@ =~= compress(h@, block@));
    out
}

/// SHA-256 digest of `data` (32 bytes).
pub fn sha256(data: &[u8]) -> (r: Vec<u8>)
    requires
        data@.len() * 8 <= u64::MAX,
    ensures
        r@ == sha256_spec(data@),
{
    let n = data.len();
    let bit_len: u64 = (n as u64) * 8;
    let mut msg: Vec<u8> = Vec::new();
    for i in 0..n
        invariant
            n == data@.len(),
            msg@ == data@.take(i as int),
    {
        msg.push(data[i]);
        assert(data@.take(i as int).push(data@[i as int]) == data@.take(i + 1));
    }
    assert(data@.take(n as int) == data@);
    msg.push(0x80);
    let zeros = (119 - (n % 64)) % 64;
    let ghost base = msg@;
    for k in 0..zeros
        invariant
            base == data@.push(0x80u8),
            msg@ == base + Seq::new(k as nat, |i: int| 0u8),
    {
        msg.push(0);
        assert(base + Seq::new(k as nat, |i: int| 0u8).push(0u8) =~= base + Seq::new(
            (k + 1) as nat,
            |i: int| 0u8,
        ));
    }
    assert(zeros == pad_zeros(n as nat));
    let ghost base2 = msg@;
    for k in 0..8
        invariant
            msg@ == base2 + Seq::new(k as nat, |j: int| be64_byte(bit_len, j)),
    {
        let shift: u64 = 56 - 8 * (k as u64);
        let masked = (bit_len >> shift) & 0xff;
        assert(masked < 256) by (bit_vector)
            requires
                masked == (bit_len >> shift) & 0xff,
        ;
        let byte = masked as u8;
        msg.push(byte);
        assert(base2 + Seq::new(k as nat, |j: int| be64_byte(bit_len, j)).push(byte)
            =~= base2 + Seq::new((k + 1) as nat, |j: int| be64_byte(bit_len, j)));
    }
    assert(msg@ =~= padded(data@));
    proof {
        lemma_padded_len(n as nat);
    }
    let blocks = msg.len() / 64;
    let mut h: Vec<u32> = Vec::new();
    h.push(0x6a09e667);
    h.push(0xbb67ae85);
    h.push(0x3c6ef372);
    h.push(0xa54ff53a);
    h.push(0x510e527f);
    h.push(0x9b05688c);
    h.push(0x1f83d9ab);
    h.push(0x5be0cd19);
    assert(h@ =~= initial_hash());
    for bi in 0..blocks
        invariant
            blocks == msg@.len() / 64,
            msg@.len() % 64 == 0,
            h@ == hash_blocks(msg@, bi as nat),
            h@.len() == 8,
            msg@.len() <= usize::MAX,
    {
        let mut block: Vec<u8> = Vec::new();
        assert(64 * bi + 64 <= msg@.len()) by (nonlinear_arith)
            requires
                bi < blocks,
                blocks == msg@.len() / 64,
        ;
        let start = 64 * bi;
        for j in 0..64
            invariant
                start == 64 * bi,
                start + 64 <= msg@.len(),
                block@ == msg@.subrange(start as int, start + j),
        {
            block.push(msg[start + j]);
            assert(msg@.subrange(start as int, start + j).push(msg@[start + j]) =~= msg@.subrange(
                start as int,
                start + j + 1,
            ));
        }
        h = compress_block(&h, block.as_slice());
    }
    let mut out: Vec<u8> = Vec::new();
    for j in 0..32
        invariant
            h@.len() == 8,
            out@ == digest_bytes(h@).take(j as int),
    {
        let word = h[j / 4];
        let shift: u32 = (24 - 8 * (j % 4)) as u32;
        let masked = (word >> shift) & 0xff;
        assert(masked < 256) by (bit_vector)
            requires
                masked == (word >> shift) & 0xff,
        ;
        let byte = masked as u8;
        out.push(byte);
        assert(digest_bytes(h@).take(j as int).push(byte) =~= digest_bytes(h@).take(j + 1));
    }
    assert(digest_bytes(h@).take(32) =~= digest_bytes(h@));
    out
}

// ---------------------------------------------------------------------------
// base64url without padding
// ---------------------------------------------------------------------------

/// The base64url alphabet: A-Z, a-z, 0-9, '-', '_'.
pub open spec fn b64_char(i: int) -> char {
    if i < 26 {
        (65 + i) as char
    } else if i < 52 {
        (97 + i - 26) as char
    } else if i < 62 {
        (48 + i - 52) as char
    } else if i == 62 {
        '-'
    } else {
        '_'
    }
}

fn b64_char_exec(i: u32) -> (c: char)
    requires
        i < 64,
    ensures
        c == b64_char(i as int),
{
    let b: u8 = if i < 26 {
        (65 + i) as u8
    } else if i < 52 {
        (97 + i - 26) as u8
    } else if i < 62 {
        (48 + i - 52) as u8
    } else if i == 62 {
        45
    } else {
        95
    };
    b as char
}

/// Encoding of a group of one to three bytes: two, three or four
/// characters.
pub open spec fn b64_group(g: Seq<u8>) -> Seq<char> {
    let b0 = g[0] as int;
    let b1: int = if g.len() > 1 {
        g[1] as int
    } else {
        0
    };
    let b2: int = if g.len() > 2 {
        g[2] as int
    } else {
        0
    };
    let triple = b0 * 65536 + b1 * 256 + b2;
    let two = seq![b64_char((triple / 262144) % 64), b64_char((triple / 4096) % 64)];
    let three = if g.len() > 1 {
        two.push(b64_char((triple / 64) % 64))
    } else {
        two
    };
    if g.len() > 2 {
        three.push(b64_char(triple % 64))
    } else {
        three
    }
}

/// base64url of a byte string, without padding.
#[verifier::opaque]
pub open spec fn b64url_spec(d: Seq<u8>) -> Seq<char>
    decreases d.len(),
{
    if d.len() == 0 {
        Seq::empty()
    } else {
        let k = ((d.len() - 1) / 3) * 3;
        b64url_spec(d.take(k)) + b64_group(d.skip(k))
    }
}

fn b64_group_exec(data: &[u8], i: usize, m: usize) -> (r: Vec<char>)
    requires
        1 <= m <= 3,
        i + m <= data@.len(),
    ensures
        r@ == b64_group(data@.subrange(i as int, (i + m) as int)),
{
    let b0 = data[i] as u32;
    let b1 = if m > 1 {
        data[i + 1] as u32
    } else {
        0
    };
    let b2 = if m > 2 {
        data[i + 2] as u32
    } else {
        0
    };
    let triple = (b0 << 16) | (b1 << 8) | b2;
    assert(triple == b0 * 65536 + b1 * 256 + b2) by (bit_vector)
        requires
            b0 < 256,
            b1 < 256,
            b2 < 256,
            triple == (b0 << 16) | (b1 << 8) | b2,
    ;
    assert((triple >> 18) & 0x3F == (triple / 262144) % 64) by (bit_vector);
    assert((triple >> 12) & 0x3F == (triple / 4096) % 64) by (bit_vector);
    assert((triple >> 6) & 0x3F == (triple / 64) % 64) by (bit_vector);
    assert(triple & 0x3F == triple % 64) by (bit_vector);
    let mut out: Vec<char> = Vec::new();
    out.push(b64_char_exec((triple >> 18) & 0x3F));
    out.push(b64_char_exec((triple >> 12) & 0x3F));
    if m > 1 {
        out.push(b64_char_exec((triple >> 6) & 0x3F));
    }
    if m > 2 {
        out.push(b64_char_exec(triple & 0x3F));
    }
    assert(out@ =~= b64_group(data@.subrange(i as int, (i + m) as int)));
    out
}

proof fn lemma_b64_step(d: Seq<u8>, i: int, m: int)
    requires
        0 <= i,
        i % 3 == 0,
        1 <= m <= 3,
        i + m <= d.len(),
    ensures
        b64url_spec(d.take(i + m)) == b64url_spec(d.take(i)) + b64_group(d.subrange(i, i + m)),
{
    reveal(b64url_spec);
    let d2 = d.take(i + m);
    assert(((d2.len() - 1) / 3) * 3 == i);
    assert(d2.take(i) =~= d.take(i));
    assert(d2.skip(i) =~= d.subrange(i, i + m));
}

/// Encodes bytes as base64url without padding.
#[verifier::spinoff_prover]
pub fn base64url_encode(data: &[u8]) -> (r: String)
    ensures
        r@ == b64url_spec(data@),
{
    let mut out: Vec<char> = Vec::new();
    let n = data.len();
    let mut i: usize = 0;
    proof {
        reveal(b64url_spec);
        assert(data@.take(0) =~= Seq::<u8>::empty());
    }
    while i < n
        invariant
            n == data@.len(),
            i <= n,
            i % 3 == 0 || i == n,
            out@ == b64url_spec(data@.take(i as int)),
        decreases n - i,
    {
        let m: usize = if n - i >= 3 {
            3
        } else {
            n - i
        };
        let mut g = b64_group_exec(data, i, m);
        let ghost before = out@;
        let ghost gv = g@;
        out.append(&mut g);
        proof {
            lemma_b64_step(data@, i as int, m as int);
            assert(out@ =~= before + gv);
        }
        i = i + m;
    }
    assert(data@.take(n as int) =~= data@);
    crate::text::string_from_chars(out.as_slice())
}

/// The encoding takes four characters per three bytes, plus two or three
/// for a final partial group, and uses only URL-safe characters.
pub proof fn lemma_b64url_shape(d: Seq<u8>)
    ensures
        b64url_spec(d).len() == 4 * (d.len() / 3) + (if d.len() % 3 == 0 {
            0
        } else {
            d.len() % 3 + 1
        }),
        forall|i: int|
            0 <= i < b64url_spec(d).len() ==> crate::spotify::url_safe(#[trigger] b64url_spec(d)[i]),
    decreases d.len(),
{
    reveal(b64url_spec);
    if d.len() > 0 {
        let k = ((d.len() - 1) / 3) * 3;
        lemma_b64url_shape(d.take(k));
        let g = d.skip(k);
        let gs = b64_group(g);
        assert forall|i: int| 0 <= i < gs.len() implies crate::spotify::url_safe(#[trigger] gs[i]) by {
            let b0 = g[0] as int;
            let b1: int = if g.len() > 1 { g[1] as int } else { 0 };
            let b2: int = if g.len() > 2 { g[2] as int } else { 0 };
            let triple = b0 * 65536 + b1 * 256 + b2;
            lemma_b64_char_safe((triple / 262144) % 64);
            lemma_b64_char_safe((triple / 4096) % 64);
            lemma_b64_char_safe((triple / 64) % 64);
            lemma_b64_char_safe(triple % 64);
        }
        let whole = b64url_spec(d);
        let front = b64url_spec(d.take(k));
        assert forall|i: int| 0 <= i < whole.len() implies crate::spotify::url_safe(
            #[trigger] whole[i],
        ) by {
            if i < front.len() {
                assert(whole[i] == front[i]);
            } else {
                assert(whole[i] == gs[i - front.len()]);
            }
        }
    }
}

proof fn lemma_b64_char_safe(i: int)
    requires
        0 <= i < 64,
    ensures
        crate::spotify::url_safe(b64_char(i)),
{
}


/// Whether a character belongs to the base64url alphabet.
pub open spec fn b64_valid(c: char) -> bool {
    ('A' <= c <= 'Z') || ('a' <= c <= 'z') || ('0' <= c <= '9') || c == '-' || c == '_'
}

/// The six-bit value of a character of the base64url alphabet.
pub open spec fn b64_value(c: char) -> int {
    if 'A' <= c <= 'Z' {
        c as int - 65
    } else if 'a' <= c <= 'z' {
        c as int - 97 + 26
    } else if '0' <= c <= '9' {
        c as int - 48 + 52
    } else if c == '-' {
        62
    } else {
        63
    }
}

/// Decoding of a group of two, three or four characters: one, two or three
/// bytes.
pub open spec fn b64_ungroup(cs: Seq<char>) -> Seq<u8> {
    let v2: int = if cs.len() > 2 {
        b64_value(cs[2])
    } else {
        0
    };
    let v3: int = if cs.len() > 3 {
        b64_value(cs[3])
    } else {
        0
    };
    let n = b64_value(cs[0]) * 262144 + b64_value(cs[1]) * 4096 + v2 * 64 + v3;
    let one = seq![(n / 65536) as u8];
    let two = if cs.len() > 2 {
        one.push(((n / 256) % 256) as u8)
    } else {
        one
    };
    if cs.len() > 3 {
        two.push((n % 256) as u8)
    } else {
        two
    }
}

/// The bytes of base64url text taken four characters at a time, the last
/// group holding what is left.
pub open spec fn b64url_ungroups(s: Seq<char>) -> Seq<u8>
    decreases s.len(),
{
    if s.len() < 2 {
        Seq::empty()
    } else {
        let k = ((s.len() - 1) / 4) * 4;
        b64url_ungroups(s.take(k)) + b64_ungroup(s.skip(k))
    }
}

/// Unpadded base64url decoding (RFC 4648, section 5): `None` when a
/// character is outside the alphabet or a single character is left over
/// after the groups of four.
pub open spec fn b64url_decode(s: Seq<char>) -> Option<Seq<u8>> {
    if s.len() % 4 == 1 || exists|i: int| 0 <= i < s.len() && !b64_valid(#[trigger] s[i]) {
        None
    } else {
        Some(b64url_ungroups(s))
    }
}

proof fn lemma_b64_char_value(i: int)
    requires
        0 <= i < 64,
    ensures
        b64_valid(b64_char(i)),
        b64_value(b64_char(i)) == i,
{
}

proof fn lemma_b64_bits(b0: int, b1: int, b2: int)
    by (nonlinear_arith)
    requires
        0 <= b0 < 256,
        0 <= b1 < 256,
        0 <= b2 < 256,
    ensures
        (((b0 * 65536 + b1 * 256 + b2) / 262144) % 64 * 262144 + ((b0 * 65536 + b1 * 256 + b2) / 4096)
            % 64 * 4096 + ((b0 * 65536 + b1 * 256 + b2) / 64) % 64 * 64 + (b0 * 65536 + b1 * 256 + b2)
            % 64) == b0 * 65536 + b1 * 256 + b2,
        (b0 * 65536 + b1 * 256 + b2) / 65536 == b0,
        ((b0 * 65536 + b1 * 256 + b2) / 256) % 256 == b1,
        (b0 * 65536 + b1 * 256 + b2) % 256 == b2,
{
}

/// Decoding a group gives back its one to three bytes.
proof fn lemma_b64_group_roundtrip(g: Seq<u8>)
    requires
        1 <= g.len() <= 3,
    ensures
        b64_ungroup(b64_group(g)) == g,
        b64_group(g).len() == g.len() + 1,
        forall|i: int| 0 <= i < b64_group(g).len() ==> b64_valid(#[trigger] b64_group(g)[i]),
{
    let b0 = g[0] as int;
    let b1: int = if g.len() > 1 { g[1] as int } else { 0 };
    let b2: int = if g.len() > 2 { g[2] as int } else { 0 };
    let t = b0 * 65536 + b1 * 256 + b2;
    lemma_b64_bits(b0, b1, b2);
    assert(0 <= t < 16777216);
    let d0 = (t / 262144) % 64;
    let d1 = (t / 4096) % 64;
    let d2 = (t / 64) % 64;
    let d3 = t % 64;
    lemma_b64_char_value(d0);
    lemma_b64_char_value(d1);
    lemma_b64_char_value(d2);
    lemma_b64_char_value(d3);
    let cs = b64_group(g);
    assert(b64_value(cs[0]) == d0);
    assert(b64_value(cs[1]) == d1);
    if g.len() > 1 {
        assert(b64_value(cs[2]) == d2);
    }
    if g.len() > 2 {
        assert(b64_value(cs[3]) == d3);
    }
    let r = b64_ungroup(cs);
    assert(r[0] == g[0]);
    if g.len() > 1 {
        assert(r[1] == g[1]);
    }
    if g.len() > 2 {
        assert(r[2] == g[2]);
    }
    assert(r =~= g);
}

/// Splitting text at a group boundary: the groups of `front + gs` are those
/// of `front`, then `gs` decoded.
proof fn lemma_ungroups_append(front: Seq<char>, gs: Seq<char>)
    requires
        front.len() % 4 == 0,
        2 <= gs.len() <= 4,
    ensures
        b64url_ungroups(front + gs) == b64url_ungroups(front) + b64_ungroup(gs),
{
    let whole = front + gs;
    let k4 = ((whole.len() - 1) / 4) * 4;
    assert(k4 == front.len());
    assert(whole.take(k4) =~= front);
    assert(whole.skip(k4) =~= gs);
}

proof fn lemma_b64url_ungroups(d: Seq<u8>)
    ensures
        b64url_ungroups(b64url_spec(d)) == d,
        forall|i: int| 0 <= i < b64url_spec(d).len() ==> b64_valid(#[trigger] b64url_spec(d)[i]),
    decreases d.len(),
{
    if d.len() == 0 {
        reveal(b64url_spec);
        assert(d =~= Seq::<u8>::empty());
    } else {
        let k = ((d.len() - 1) / 3) * 3;
        let g = d.skip(k);
        let front = b64url_spec(d.take(k));
        let gs = b64_group(g);
        let whole = b64url_spec(d);
        assert(whole == front + gs) by {
            reveal(b64url_spec);
        }
        lemma_b64url_ungroups(d.take(k));
        lemma_b64url_shape(d.take(k));
        lemma_b64_group_roundtrip(g);
        assert(front.len() % 4 == 0);
        lemma_ungroups_append(front, gs);
        assert(d.take(k) + g =~= d);
        assert forall|i: int| 0 <= i < whole.len() implies b64_valid(#[trigger] whole[i]) by {
            if i < front.len() {
                assert(whole[i] == front[i]);
            } else {
                assert(whole[i] == gs[i - front.len()]);
            }
        }
    }
}

/// Decoding gives back what was encoded: unpadded base64url decoding
/// (RFC 4648, section 5) of the encoding of any bytes is those bytes.
pub proof fn lemma_b64url_roundtrip(d: Seq<u8>)
    ensures
        b64url_decode(b64url_spec(d)) == Some(d),
{
    lemma_b64url_ungroups(d);
    lemma_b64url_shape(d);
    let e = b64url_spec(d);
    assert(e.len() % 4 != 1);
}
} // verus!
