//! The on-the-wire layout of one exchange: little-endian 32-bit fields, the
//! length-prefixed request envelope, the response descriptor, and the
//! two-step resolution of a response location. Everything here is pure byte
//! manipulation, shared by the host driver and by the guest-side counterpart.

use vstd::prelude::*;

verus! {

/// The value of four little-endian bytes.
pub open spec fn le32_of(b0: u8, b1: u8, b2: u8, b3: u8) -> u32 {
    (b0 as u32) | ((b1 as u32) << 8) | ((b2 as u32) << 16) | ((b3 as u32) << 24)
}

/// The 32-bit little-endian field stored at offset `a` of `mem`.
pub open spec fn le32_at(mem: Seq<u8>, a: int) -> u32 {
    le32_of(mem[a], mem[a + 1], mem[a + 2], mem[a + 3])
}

/// The four little-endian bytes of `n`.
pub open spec fn le32(n: u32) -> Seq<u8> {
    seq![
        (n & 0xff) as u8,
        ((n >> 8) & 0xff) as u8,
        ((n >> 16) & 0xff) as u8,
        ((n >> 24) & 0xff) as u8,
    ]
}

/// Reading back the four bytes of `n` yields `n`: the little-endian field is
/// lossless.
pub proof fn lemma_le32_roundtrip(n: u32)
    ensures
        le32_at(le32(n), 0) == n,
{
    assert(((n & 0xff) as u8 as u32) | (((n >> 8) & 0xff) as u8 as u32) << 8
        | (((n >> 16) & 0xff) as u8 as u32) << 16 | (((n >> 24) & 0xff) as u8 as u32) << 24
        == n) by (bit_vector);
}

/// Where the four bytes of `n` stand at offset `a`, the field read there is
/// `n`.
pub proof fn lemma_le32_at_eq(m: Seq<u8>, a: int, n: u32)
    requires
        0 <= a,
        a + 4 <= m.len(),
        m[a] == le32(n)[0],
        m[a + 1] == le32(n)[1],
        m[a + 2] == le32(n)[2],
        m[a + 3] == le32(n)[3],
    ensures
        le32_at(m, a) == n,
{
    lemma_le32_roundtrip(n);
}

/// Encodes `n` as four little-endian bytes.
pub fn u32_to_le(n: u32) -> (r: Vec<u8>)
    ensures
        r@ == le32(n),
{
    let mut r: Vec<u8> = Vec::new();
    r.push((n & 0xff) as u8);
    r.push(((n >> 8) & 0xff) as u8);
    r.push(((n >> 16) & 0xff) as u8);
    r.push(((n >> 24) & 0xff) as u8);
    proof {
        assert(r@ =~= le32(n));
    }
    r
}

/// Decodes the four little-endian bytes at offset `at` of `b`.
pub fn le_to_u32(b: &Vec<u8>, at: usize) -> (r: u32)
    requires
        at + 4 <= b@.len(),
    ensures
        r == le32_at(b@, at as int),
{
    // Binding the length as a usize lets the verifier bound the indices
    // below.
    let _n: usize = b.len();
    (b[at] as u32) | ((b[at + 1] as u32) << 8) | ((b[at + 2] as u32) << 16)
        | ((b[at + 3] as u32) << 24)
}

/// The request envelope: a 4-byte little-endian length prefix followed by the
/// payload itself.
pub open spec fn envelope(payload: Seq<u8>) -> Seq<u8> {
    le32(payload.len() as u32) + payload
}

/// Builds the request envelope for `payload`.
pub fn build_envelope(payload: &Vec<u8>) -> (r: Vec<u8>)
    requires
        payload@.len() <= u32::MAX,
    ensures
        r@ == envelope(payload@),
        r@.len() == payload@.len() + 4,
{
    let mut r = u32_to_le(payload.len() as u32);
    let mut i: usize = 0;
    while i < payload.len()
        invariant
            i <= payload@.len(),
            payload@.len() <= u32::MAX,
            r@ == le32(payload@.len() as u32) + payload@.subrange(0, i as int),
        decreases payload@.len() - i,
    {
        r.push(payload[i]);
        i = i + 1;
        proof {
            assert(r@ =~= le32(payload@.len() as u32) + payload@.subrange(0, i as int));
        }
    }
    proof {
        assert(payload@.subrange(0, payload@.len() as int) =~= payload@);
    }
    r
}

/// The memory after `data` is written at offset `a`: the bytes of `data`
/// replace the range `[a, a + data.len())`, the rest is untouched.
pub open spec fn splice_at(mem: Seq<u8>, a: int, data: Seq<u8>) -> Seq<u8> {
    mem.subrange(0, a) + data + mem.subrange(a + data.len(), mem.len() as int)
}

/// The memory after the envelope for `payload` is written at `base`.
pub open spec fn place_spec(mem: Seq<u8>, base: int, payload: Seq<u8>) -> Seq<u8> {
    splice_at(mem, base, envelope(payload))
}

/// The request payload framed at offset `at` of `mem`, if the envelope lies
/// within bounds: the 4-byte little-endian length, then that many bytes.
pub open spec fn request_in(mem: Seq<u8>, at: int) -> Option<Seq<u8>> {
    if at < 0 || at + 4 > mem.len() {
        None
    } else {
        let l = le32_at(mem, at) as int;
        if at + 4 + l > mem.len() {
            None
        } else {
            Some(mem.subrange(at + 4, at + 4 + l))
        }
    }
}

/// The guest-side counterpart of request placement: reads the 4-byte
/// little-endian length at `at`, then exactly that many payload bytes after
/// it. A memory too short for the declared length is rejected, never read
/// past its end nor silently truncated.
pub fn read_request(mem: &Vec<u8>, at: usize) -> (r: Option<Vec<u8>>)
    ensures
        match r {
            Some(p) => request_in(mem@, at as int) == Some(p@),
            None => request_in(mem@, at as int) is None,
        },
{
    let n: usize = mem.len();
    if at > n || n - at < 4 {
        return None;
    }
    let l = le_to_u32(mem, at);
    if (l as u64) > (n - at - 4) as u64 {
        return None;
    }
    let len = l as usize;
    let mut p: Vec<u8> = Vec::new();
    let mut i: usize = 0;
    while i < len
        invariant
            i <= len,
            at + 4 + len <= mem@.len(),
            mem@.len() <= usize::MAX,
            p@ == mem@.subrange(at as int + 4, at as int + 4 + i as int),
        decreases len - i,
    {
        p.push(mem[at + 4 + i]);
        i = i + 1;
        proof {
            assert(p@ =~= mem@.subrange(at as int + 4, at as int + 4 + i as int));
        }
    }
    Some(p)
}

/// The response descriptor: the payload length, then the payload address,
/// each as a 4-byte little-endian field.
pub open spec fn descriptor(length: u32, pointer: u32) -> Seq<u8> {
    le32(length) + le32(pointer)
}

/// The response payload located by the descriptor at offset `d` of `mem`, if
/// the descriptor and the range it points to lie within bounds: one level of
/// indirection, each step bounds-checked.
pub open spec fn resolve_in(mem: Seq<u8>, d: int) -> Option<Seq<u8>> {
    if d < 0 || d + 8 > mem.len() {
        None
    } else {
        let l = le32_at(mem, d) as int;
        let p = le32_at(mem, d + 4) as int;
        if p + l > mem.len() {
            None
        } else {
            Some(mem.subrange(p, p + l))
        }
    }
}

/// The guest-side counterpart of response resolution: appends the encoded
/// payload to the guest's retained storage, then a descriptor locating it,
/// and returns the descriptor's address. Resolving that address in the new
/// memory yields exactly the payload.
pub fn append_response(mem: &mut Vec<u8>, payload: &Vec<u8>) -> (r: u32)
    requires
        old(mem)@.len() + payload@.len() + 8 <= u32::MAX,
    ensures
        r == old(mem)@.len() + payload@.len(),
        final(mem)@ == old(mem)@ + payload@ + descriptor(
            payload@.len() as u32,
            old(mem)@.len() as u32,
        ),
        resolve_in(final(mem)@, r as int) == Some(payload@),
{
    let p: u32 = mem.len() as u32;
    let mut i: usize = 0;
    while i < payload.len()
        invariant
            i <= payload@.len(),
            p == old(mem)@.len(),
            old(mem)@.len() + payload@.len() + 8 <= u32::MAX,
            mem@ == old(mem)@ + payload@.subrange(0, i as int),
        decreases payload@.len() - i,
    {
        mem.push(payload[i]);
        i = i + 1;
        proof {
            assert(mem@ =~= old(mem)@ + payload@.subrange(0, i as int));
        }
    }
    proof {
        assert(payload@.subrange(0, payload@.len() as int) =~= payload@);
    }
    let d: u32 = mem.len() as u32;
    let len_field = u32_to_le(payload.len() as u32);
    let ptr_field = u32_to_le(p);
    let mut j: usize = 0;
    while j < 4
        invariant
            j <= 4,
            d == old(mem)@.len() + payload@.len(),
            len_field@ == le32(payload@.len() as u32),
            mem@ == old(mem)@ + payload@ + le32(payload@.len() as u32).subrange(0, j as int),
        decreases 4 - j,
    {
        mem.push(len_field[j]);
        j = j + 1;
        proof {
            assert(mem@ =~= old(mem)@ + payload@ + le32(payload@.len() as u32).subrange(
                0,
                j as int,
            ));
        }
    }
    let mut k: usize = 0;
    while k < 4
        invariant
            k <= 4,
            d == old(mem)@.len() + payload@.len(),
            p == old(mem)@.len(),
            ptr_field@ == le32(p),
            mem@ == old(mem)@ + payload@ + le32(payload@.len() as u32) + le32(p).subrange(
                0,
                k as int,
            ),
        decreases 4 - k,
    {
        mem.push(ptr_field[k]);
        k = k + 1;
        proof {
            assert(mem@ =~= old(mem)@ + payload@ + le32(payload@.len() as u32) + le32(p).subrange(
                0,
                k as int,
            ));
        }
    }
    proof {
        let l32 = payload@.len() as u32;
        assert(le32(l32).subrange(0, 4) =~= le32(l32));
        assert(le32(p).subrange(0, 4) =~= le32(p));
        let m2 = mem@;
        lemma_le32_at_eq(m2, d as int, l32);
        lemma_le32_at_eq(m2, d as int + 4, p);
        assert(m2.subrange(p as int, p as int + payload@.len()) =~= payload@);
        assert(m2 =~= old(mem)@ + payload@ + descriptor(l32, p));
    }
    d
}

/// Placing an envelope and reading it back reproduces the payload and its
/// length: what the host writes at `base` is exactly what the guest-side
/// reader finds there.
pub proof fn lemma_envelope_integrity(mem: Seq<u8>, base: int, payload: Seq<u8>)
    requires
        0 <= base,
        payload.len() <= u32::MAX,
        base + 4 + payload.len() <= mem.len(),
    ensures
        place_spec(mem, base, payload).len() == mem.len(),
        le32_at(place_spec(mem, base, payload), base) == payload.len(),
        place_spec(mem, base, payload).subrange(base + 4, base + 4 + payload.len()) == payload,
        request_in(place_spec(mem, base, payload), base) == Some(payload),
{
    let m2 = place_spec(mem, base, payload);
    let l32 = payload.len() as u32;
    assert forall|i: int| 0 <= i < 4 + payload.len() implies m2[base + i] == envelope(payload)[i]
    by {
    }
    lemma_le32_at_eq(m2, base, l32);
    assert(m2.subrange(base + 4, base + 4 + payload.len()) =~= payload);
}

/// Writing a descriptor `{length, pointer}` at `d` over memory that already
/// holds the payload at `pointer` makes `d` resolve to exactly those
/// `length` bytes.
pub proof fn lemma_indirection_correctness(mem: Seq<u8>, d: int, length: u32, pointer: u32)
    requires
        0 <= d,
        d + 8 <= mem.len(),
        mem.subrange(d, d + 8) == descriptor(length, pointer),
        pointer + length <= mem.len(),
    ensures
        resolve_in(mem, d) == Some(mem.subrange(pointer as int, pointer as int + length)),
{
    let ds = descriptor(length, pointer);
    assert forall|i: int| 0 <= i < 8 implies mem[d + i] == ds[i] by {
        assert(mem.subrange(d, d + 8)[i] == mem[d + i]);
    }
    assert(mem[d + 0] == ds[0] && mem[d + 1] == ds[1] && mem[d + 2] == ds[2] && mem[d + 3]
        == ds[3]);
    assert(mem[d + 4] == ds[4] && mem[d + 5] == ds[5] && mem[d + 6] == ds[6] && mem[d + 7]
        == ds[7]);
    assert(ds[0] == le32(length)[0] && ds[1] == le32(length)[1] && ds[2] == le32(length)[2]
        && ds[3] == le32(length)[3]);
    assert(ds[4] == le32(pointer)[0] && ds[5] == le32(pointer)[1] && ds[6] == le32(pointer)[2]
        && ds[7] == le32(pointer)[3]);
    lemma_le32_at_eq(mem, d, length);
    lemma_le32_at_eq(mem, d + 4, pointer);
}

} // verus!
