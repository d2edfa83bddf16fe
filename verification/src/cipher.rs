//! The EksBlowfish key schedule and digest generator.
//!
//! The cipher state is a pair of tables: 18 subkeys and 1024 flattened S-box
//! entries. The key schedule starts from the fixed tables in [`crate::tables`],
//! folds the password and salt into the state once, and then repeats a
//! password-only and a salt-only expansion pass `2^cost` times. The digest is
//! the fixed six-word plaintext encrypted 64 times under the derived state,
//! serialized big-endian and cut to 23 bytes.
//!
//! Every executable function here is proved to compute the corresponding
//! specification function, so the digest is a mathematical function of
//! (password bytes, salt bytes, cost).

use vstd::prelude::*;
use crate::tables::{p_init, s_init, p_init_vec, s_init_vec};

verus! {

/// Addition on 32-bit words, wrapping around.
pub open spec fn add32(a: u32, b: u32) -> u32 {
    vstd::wrapping::u32_specs::wrapping_add(a, b)
}

/// The big-endian 32-bit word read from `data` at byte offset `off`,
/// wrapping around the end of `data`.
pub open spec fn stream_word(data: Seq<u8>, off: int) -> u32
    recommends
        data.len() > 0,
        off >= 0,
{
    let l = data.len() as int;
    (((data[off % l] as u32) << 24) | ((data[(off + 1) % l] as u32) << 16)) | (((data[(off + 2)
        % l] as u32) << 8) | (data[(off + 3) % l] as u32))
}

/// The Feistel round function: four S-box lookups folded with wrapping
/// sums and an xor.
pub open spec fn round_fn(s: Seq<u32>, x: u32) -> u32
    recommends
        s.len() == 1024,
{
    let a = s[(x >> 24) as int];
    let b = s[256 + ((x >> 16) & 0xff) as int];
    let c = s[512 + ((x >> 8) & 0xff) as int];
    let d = s[768 + (x & 0xff) as int];
    add32(add32(a, b) ^ c, d)
}

/// Eight double rounds of the Feistel network over the block `(l, r)`.
pub open spec fn enc_rounds(p: Seq<u32>, s: Seq<u32>, l: u32, r: u32, i: nat) -> (u32, u32)
    recommends
        p.len() == 18,
        s.len() == 1024,
    decreases 8 - i,
{
    if i >= 8 {
        (l, r)
    } else {
        let l1 = l ^ p[2 * i as int];
        let r1 = (r ^ round_fn(s, l1)) ^ p[2 * i as int + 1];
        let l2 = l1 ^ round_fn(s, r1);
        enc_rounds(p, s, l2, r1, i + 1)
    }
}

/// One block encryption under subkeys `p` and S-boxes `s`.
pub open spec fn encrypt_block(p: Seq<u32>, s: Seq<u32>, l: u32, r: u32) -> (u32, u32)
    recommends
        p.len() == 18,
        s.len() == 1024,
{
    let lr = enc_rounds(p, s, l, r, 0);
    (lr.1 ^ p[17], lr.0 ^ p[16])
}

/// The subkeys with the cyclic big-endian words of `key` xor-ed in.
pub open spec fn xor_subkeys(p: Seq<u32>, key: Seq<u8>) -> Seq<u32>
    recommends
        key.len() > 0,
{
    Seq::new(18, |i: int| p[i] ^ stream_word(key, 4 * i))
}

/// Refills subkey pairs `(2k, 2k+1)` for `k` onward by chained encryption,
/// threading the running block; when `use_salt` holds, the next two salt
/// words are folded into the block before each encryption.
pub open spec fn fill_subkeys(
    p: Seq<u32>,
    s: Seq<u32>,
    l: u32,
    r: u32,
    salt: Seq<u8>,
    use_salt: bool,
    off: int,
    k: nat,
) -> (Seq<u32>, u32, u32)
    decreases 9 - k,
{
    if k >= 9 {
        (p, l, r)
    } else {
        let l1 = if use_salt { l ^ stream_word(salt, off) } else { l };
        let r1 = if use_salt { r ^ stream_word(salt, off + 4) } else { r };
        let e = encrypt_block(p, s, l1, r1);
        fill_subkeys(
            p.update(2 * k as int, e.0).update(2 * k as int + 1, e.1),
            s,
            e.0,
            e.1,
            salt,
            use_salt,
            off + 8,
            k + 1,
        )
    }
}

/// Refills S-box pairs `(2k, 2k+1)` for `k` onward by chained encryption,
/// in the same manner as [`fill_subkeys`].
pub open spec fn fill_sboxes(
    p: Seq<u32>,
    s: Seq<u32>,
    l: u32,
    r: u32,
    salt: Seq<u8>,
    use_salt: bool,
    off: int,
    k: nat,
) -> (Seq<u32>, u32, u32)
    decreases 512 - k,
{
    if k >= 512 {
        (s, l, r)
    } else {
        let l1 = if use_salt { l ^ stream_word(salt, off) } else { l };
        let r1 = if use_salt { r ^ stream_word(salt, off + 4) } else { r };
        let e = encrypt_block(p, s, l1, r1);
        fill_sboxes(
            p,
            s.update(2 * k as int, e.0).update(2 * k as int + 1, e.1),
            e.0,
            e.1,
            salt,
            use_salt,
            off + 8,
            k + 1,
        )
    }
}

/// One full expansion pass: the key stream is xor-ed into the subkeys and
/// the whole state is refilled by chained encryption. With `use_salt`, salt
/// words are folded into the running block throughout (the salted first
/// pass of the schedule); without, the block evolves on its own.
pub open spec fn expand_state(
    p: Seq<u32>,
    s: Seq<u32>,
    key: Seq<u8>,
    salt: Seq<u8>,
    use_salt: bool,
) -> (Seq<u32>, Seq<u32>)
    recommends
        key.len() > 0,
        use_salt ==> salt.len() == 16,
{
    let p1 = xor_subkeys(p, key);
    let fp = fill_subkeys(p1, s, 0, 0, salt, use_salt, 0, 0);
    let fs = fill_sboxes(fp.0, s, fp.1, fp.2, salt, use_salt, 72, 0);
    (fp.0, fs.0)
}

/// The cost loop: each round expands with the key alone, then with the
/// salt alone.
pub open spec fn eks_rounds(
    p: Seq<u32>,
    s: Seq<u32>,
    key: Seq<u8>,
    salt: Seq<u8>,
    n: nat,
) -> (Seq<u32>, Seq<u32>)
    decreases n,
{
    if n == 0 {
        (p, s)
    } else {
        let prev = eks_rounds(p, s, key, salt, (n - 1) as nat);
        let a = expand_state(prev.0, prev.1, key, salt, false);
        expand_state(a.0, a.1, salt, salt, false)
    }
}

/// The number of cost-loop rounds bought by a cost factor: `2^cost`.
pub open spec fn cost_rounds(cost: u32) -> nat
    recommends
        cost <= 31,
{
    (1u64 << cost) as nat
}

/// The full key schedule: the salted pass over the initial tables, then
/// `n` rounds of the cost loop.
pub open spec fn eks_schedule(key: Seq<u8>, salt: Seq<u8>, n: nat) -> (Seq<u32>, Seq<u32>)
    recommends
        key.len() > 0,
        salt.len() == 16,
{
    let st = expand_state(p_init(), s_init(), key, salt, true);
    eks_rounds(st.0, st.1, key, salt, n)
}

/// `n`-fold repeated encryption of one block.
pub open spec fn enc_iter(p: Seq<u32>, s: Seq<u32>, l: u32, r: u32, n: nat) -> (u32, u32)
    decreases n,
{
    if n == 0 {
        (l, r)
    } else {
        let x = enc_iter(p, s, l, r, (n - 1) as nat);
        encrypt_block(p, s, x.0, x.1)
    }
}

/// The six words of the fixed plaintext "OrpheanBeholderScryDoubt",
/// read big-endian.
pub open spec fn magic_words() -> Seq<u32> {
    seq![0x4f727068u32, 0x65616e42u32, 0x65686f6cu32, 0x64657253u32, 0x63727944u32, 0x6f756274u32]
}

/// The big-endian bytes of one 32-bit word.
pub open spec fn be_bytes(w: u32) -> Seq<u8> {
    seq![(w >> 24) as u8, ((w >> 16) & 0xff) as u8, ((w >> 8) & 0xff) as u8, (w & 0xff) as u8]
}

/// The digest of a derived state: each pair of magic words encrypted 64
/// times, serialized big-endian, with the last byte dropped.
pub open spec fn state_digest(p: Seq<u32>, s: Seq<u32>) -> Seq<u8>
    recommends
        p.len() == 18,
        s.len() == 1024,
{
    let w = magic_words();
    let a = enc_iter(p, s, w[0], w[1], 64);
    let b = enc_iter(p, s, w[2], w[3], 64);
    let c = enc_iter(p, s, w[4], w[5], 64);
    (be_bytes(a.0) + be_bytes(a.1) + be_bytes(b.0) + be_bytes(b.1) + be_bytes(c.0) + be_bytes(
        c.1,
    )).take(23)
}

/// The 23-byte bcrypt digest of a cipher key, a 16-byte salt and a cost.
pub open spec fn raw_digest(key: Seq<u8>, salt: Seq<u8>, cost: u32) -> Seq<u8>
    recommends
        key.len() > 0,
        salt.len() == 16,
        cost <= 31,
{
    let st = eks_schedule(key, salt, cost_rounds(cost));
    state_digest(st.0, st.1)
}

/// The cipher key derived from a password: a trailing zero byte is
/// appended and the result is cut to 72 bytes. Passwords that agree on
/// their first 72 bytes therefore share a key (the truncation quirk of
/// the scheme).
pub open spec fn bcrypt_key(pw: Seq<u8>) -> Seq<u8> {
    if pw.len() >= 72 {
        pw.take(72)
    } else {
        pw + seq![0u8]
    }
}

/// The 23-byte bcrypt digest of a password, a 16-byte salt and a cost.
pub open spec fn password_digest(pw: Seq<u8>, salt: Seq<u8>, cost: u32) -> Seq<u8>
    recommends
        salt.len() == 16,
        cost <= 31,
{
    raw_digest(bcrypt_key(pw), salt, cost)
}

/// The four byte fields of a word are below 256, so they index an S-box.
proof fn lemma_byte_fields(x: u32)
    ensures
        (x >> 24) < 256,
        ((x >> 16) & 0xff) < 256,
        ((x >> 8) & 0xff) < 256,
        (x & 0xff) < 256,
{
    assert((x >> 24) < 256 && ((x >> 16) & 0xff) < 256 && ((x >> 8) & 0xff) < 256 && (x & 0xff)
        < 256) by (bit_vector);
}

/// The evolving cipher state: 18 subkeys and 1024 flattened S-box entries
/// (entry `j` of box `b` at index `256 * b + j`).
pub struct EksState {
    pub p: Vec<u32>,
    pub s: Vec<u32>,
}

impl EksState {
    /// The tables have their fixed lengths.
    pub open spec fn wf(self) -> bool {
        self.p@.len() == 18 && self.s@.len() == 1024
    }

    /// The state both tables start from.
    pub fn initial() -> (st: EksState)
        ensures
            st.wf(),
            st.p@ == p_init(),
            st.s@ == s_init(),
    {
        EksState { p: p_init_vec(), s: s_init_vec() }
    }
}

/// The big-endian word of `data` at byte offset `off`, wrapping around.
fn next_word(data: &[u8], off: usize) -> (w: u32)
    requires
        data@.len() > 0,
        off + 4 <= usize::MAX,
    ensures
        w == stream_word(data@, off as int),
{
    let l = data.len();
    let b0 = data[off % l] as u32;
    let b1 = data[(off + 1) % l] as u32;
    let b2 = data[(off + 2) % l] as u32;
    let b3 = data[(off + 3) % l] as u32;
    ((b0 << 24) | (b1 << 16)) | ((b2 << 8) | b3)
}

/// The Feistel round function over the flattened S-boxes.
fn round(s: &Vec<u32>, x: u32) -> (r: u32)
    requires
        s@.len() == 1024,
    ensures
        r == round_fn(s@, x),
{
    proof {
        lemma_byte_fields(x);
    }
    let a = s[(x >> 24) as usize];
    let b = s[256 + ((x >> 16) & 0xff) as usize];
    let c = s[512 + ((x >> 8) & 0xff) as usize];
    let d = s[768 + (x & 0xff) as usize];
    (a.wrapping_add(b) ^ c).wrapping_add(d)
}

/// One block encryption under the current state.
fn encrypt(p: &Vec<u32>, s: &Vec<u32>, l: u32, r: u32) -> (lr: (u32, u32))
    requires
        p@.len() == 18,
        s@.len() == 1024,
    ensures
        lr == encrypt_block(p@, s@, l, r),
{
    let ghost l0 = l;
    let ghost r0 = r;
    let mut l = l;
    let mut r = r;
    let mut i: usize = 0;
    while i < 8
        invariant
            p@.len() == 18,
            s@.len() == 1024,
            i <= 8,
            enc_rounds(p@, s@, l0, r0, 0) == enc_rounds(p@, s@, l, r, i as nat),
        decreases 8 - i,
    {
        l = l ^ p[2 * i];
        r = (r ^ round(s, l)) ^ p[2 * i + 1];
        l = l ^ round(s, r);
        i = i + 1;
    }
    (r ^ p[17], l ^ p[16])
}

/// One expansion pass over the state, as [`expand_state`] describes.
fn expand(st: &mut EksState, key: &[u8], salt: &[u8], use_salt: bool)
    requires
        old(st).wf(),
        key@.len() > 0,
        salt@.len() > 0,
        use_salt ==> salt@.len() == 16,
    ensures
        final(st).wf(),
        final(st).p@ == expand_state(old(st).p@, old(st).s@, key@, salt@, use_salt).0,
        final(st).s@ == expand_state(old(st).p@, old(st).s@, key@, salt@, use_salt).1,
{
    let ghost p0 = st.p@;
    let ghost s0 = st.s@;
    // Fold the cyclic key stream into the subkeys.
    let mut i: usize = 0;
    while i < 18
        invariant
            old(st).wf(),
            st.p@.len() == 18,
            st.s@ == s0,
            i <= 18,
            key@.len() > 0,
            forall|j: int| 0 <= j < i ==> st.p@[j] == xor_subkeys(p0, key@)[j],
            forall|j: int| i <= j < 18 ==> st.p@[j] == p0[j],
        decreases 18 - i,
    {
        let w = next_word(key, 4 * i);
        st.p[i] = st.p[i] ^ w;
        i = i + 1;
    }
    proof {
        assert(st.p@ =~= xor_subkeys(p0, key@));
    }
    let ghost p1 = st.p@;
    // Refill the subkeys by chained encryption.
    let ghost fp = fill_subkeys(p1, s0, 0, 0, salt@, use_salt, 0, 0);
    let mut l: u32 = 0;
    let mut r: u32 = 0;
    let mut k: usize = 0;
    while k < 9
        invariant
            st.p@.len() == 18,
            st.s@ == s0,
            s0.len() == 1024,
            k <= 9,
            key@.len() > 0,
            salt@.len() > 0,
            fill_subkeys(st.p@, s0, l, r, salt@, use_salt, 8 * k, k as nat) == fp,
        decreases 9 - k,
    {
        if use_salt {
            l = l ^ next_word(salt, 8 * k);
            r = r ^ next_word(salt, 8 * k + 4);
        }
        let e = encrypt(&st.p, &st.s, l, r);
        l = e.0;
        r = e.1;
        st.p[2 * k] = l;
        st.p[2 * k + 1] = r;
        k = k + 1;
    }
    let ghost p2 = st.p@;
    proof {
        assert(fp == (p2, l, r));
    }
    // Refill the S-boxes by chained encryption.
    let ghost fs = fill_sboxes(p2, s0, l, r, salt@, use_salt, 72, 0);
    let mut k2: usize = 0;
    while k2 < 512
        invariant
            st.p@ == p2,
            p2.len() == 18,
            st.s@.len() == 1024,
            k2 <= 512,
            salt@.len() > 0,
            fill_sboxes(p2, st.s@, l, r, salt@, use_salt, 72 + 8 * k2, k2 as nat) == fs,
        decreases 512 - k2,
    {
        if use_salt {
            l = l ^ next_word(salt, 72 + 8 * k2);
            r = r ^ next_word(salt, 72 + 8 * k2 + 4);
        }
        let e = encrypt(&st.p, &st.s, l, r);
        l = e.0;
        r = e.1;
        st.s[2 * k2] = l;
        st.s[2 * k2 + 1] = r;
        k2 = k2 + 1;
    }
    proof {
        assert(fs == (st.s@, l, r));
    }
}

/// Derives the cipher state of a key, a salt and a cost: the salted pass,
/// then `2^cost` rounds of the cost loop.
pub fn derive(key: &[u8], salt: &[u8], cost: u32) -> (st: EksState)
    requires
        key@.len() > 0,
        salt@.len() == 16,
        cost <= 31,
    ensures
        st.wf(),
        st.p@ == eks_schedule(key@, salt@, cost_rounds(cost)).0,
        st.s@ == eks_schedule(key@, salt@, cost_rounds(cost)).1,
{
    let mut st = EksState::initial();
    expand(&mut st, key, salt, true);
    let ghost bp = st.p@;
    let ghost bs = st.s@;
    let rounds: u64 = 1u64 << cost;
    proof {
        assert(rounds == cost_rounds(cost));
    }
    let mut n: u64 = 0;
    while n < rounds
        invariant
            st.wf(),
            n <= rounds,
            key@.len() > 0,
            salt@.len() == 16,
            st.p@ == eks_rounds(bp, bs, key@, salt@, n as nat).0,
            st.s@ == eks_rounds(bp, bs, key@, salt@, n as nat).1,
        decreases rounds - n,
    {
        expand(&mut st, key, salt, false);
        expand(&mut st, salt, salt, false);
        n = n + 1;
        proof {
            let prev = eks_rounds(bp, bs, key@, salt@, (n - 1) as nat);
            assert(eks_rounds(bp, bs, key@, salt@, n as nat) == expand_state(
                expand_state(prev.0, prev.1, key@, salt@, false).0,
                expand_state(prev.0, prev.1, key@, salt@, false).1,
                salt@,
                salt@,
                false,
            ));
        }
    }
    st
}

/// Encrypts one block 64 times under the state.
fn enc_64(st: &EksState, l: u32, r: u32) -> (lr: (u32, u32))
    requires
        st.wf(),
    ensures
        lr == enc_iter(st.p@, st.s@, l, r, 64),
{
    let ghost l0 = l;
    let ghost r0 = r;
    let mut l = l;
    let mut r = r;
    let mut n: usize = 0;
    while n < 64
        invariant
            st.wf(),
            n <= 64,
            (l, r) == enc_iter(st.p@, st.s@, l0, r0, n as nat),
        decreases 64 - n,
    {
        let e = encrypt(&st.p, &st.s, l, r);
        l = e.0;
        r = e.1;
        n = n + 1;
    }
    (l, r)
}

/// Appends the big-endian bytes of `w` to `out`.
fn push_be_bytes(out: &mut Vec<u8>, w: u32)
    ensures
        final(out)@ == old(out)@ + be_bytes(w),
{
    out.push((w >> 24) as u8);
    out.push(((w >> 16) & 0xff) as u8);
    out.push(((w >> 8) & 0xff) as u8);
    out.push((w & 0xff) as u8);
    proof {
        assert(out@ =~= old(out)@ + be_bytes(w));
    }
}

/// The 23-byte digest of a derived state.
pub fn digest(st: &EksState) -> (d: Vec<u8>)
    requires
        st.wf(),
    ensures
        d@ == state_digest(st.p@, st.s@),
        d@.len() == 23,
{
    let a = enc_64(st, 0x4f727068, 0x65616e42);
    let b = enc_64(st, 0x65686f6c, 0x64657253);
    let c = enc_64(st, 0x63727944, 0x6f756274);
    let mut out: Vec<u8> = Vec::new();
    push_be_bytes(&mut out, a.0);
    push_be_bytes(&mut out, a.1);
    push_be_bytes(&mut out, b.0);
    push_be_bytes(&mut out, b.1);
    push_be_bytes(&mut out, c.0);
    out.push((c.1 >> 24) as u8);
    out.push(((c.1 >> 16) & 0xff) as u8);
    out.push(((c.1 >> 8) & 0xff) as u8);
    proof {
        assert(out@ =~= state_digest(st.p@, st.s@));
    }
    out
}

/// Builds the cipher key of a password, as [`bcrypt_key`] describes.
pub fn build_key(password: &[u8]) -> (key: Vec<u8>)
    ensures
        key@ == bcrypt_key(password@),
        key@.len() > 0,
        key@.len() <= 72,
{
    let n = if password.len() >= 72 {
        72
    } else {
        password.len()
    };
    let mut key: Vec<u8> = Vec::new();
    let mut i: usize = 0;
    while i < n
        invariant
            n <= password@.len(),
            i <= n,
            key@ == password@.take(i as int),
        decreases n - i,
    {
        key.push(password[i]);
        proof {
            assert(key@ =~= password@.take(i + 1));
        }
        i = i + 1;
    }
    if password.len() < 72 {
        key.push(0);
        proof {
            assert(password@.take(password@.len() as int) =~= password@);
            assert(key@ =~= bcrypt_key(password@));
        }
    } else {
        proof {
            assert(key@ =~= bcrypt_key(password@));
        }
    }
    key
}

/// The 23-byte bcrypt digest of a password, salt and cost.
pub fn compute_digest(password: &[u8], salt: &[u8], cost: u32) -> (d: Vec<u8>)
    requires
        salt@.len() == 16,
        cost <= 31,
    ensures
        d@ == password_digest(password@, salt@, cost),
        d@.len() == 23,
{
    let key = build_key(password);
    let st = derive(key.as_slice(), salt, cost);
    digest(&st)
}

} // verus!
