use vstd::prelude::*;

verus! {

/// The lowest `n` bytes of `v`, least significant first.
pub open spec fn le_bytes(v: nat, n: nat) -> Seq<u8>
    decreases n,
{
    if n == 0 {
        Seq::empty()
    } else {
        seq![(v % 256) as u8] + le_bytes(v / 256, (n - 1) as nat)
    }
}

/// The SCALE compact encoding of a 32-bit value: the two low bits of the first
/// byte give the mode (one, two or four bytes holding `4 * v + mode`, or a `3`
/// followed by the value in four bytes).
pub open spec fn compact_u32(v: u32) -> Seq<u8> {
    if v < 64 {
        seq![(4 * v) as u8]
    } else if v < 0x4000 {
        le_bytes((4 * v + 1) as nat, 2)
    } else if v < 0x4000_0000 {
        le_bytes((4 * v + 2) as nat, 4)
    } else {
        seq![3u8] + le_bytes(v as nat, 4)
    }
}

/// Relies on parity-scale-codec's `Encode` for `Compact<u32>`: the compact
/// encoding as `compact_u32` states it.
#[verifier::external_body]
pub(crate) fn compact_encode(v: u32) -> (r: Vec<u8>)
    ensures
        r@ == compact_u32(v),
{
    parity_scale_codec::Encode::encode(&parity_scale_codec::Compact(v))
}

/// Whether `b` begins with the bytes of `p`.
pub open spec fn starts_with(b: Seq<u8>, p: Seq<u8>) -> bool {
    p.len() <= b.len() && b.subrange(0, p.len() as int) == p
}

/// Relies on parity-scale-codec's `Decode` for `Compact<u32>` read from a byte
/// slice: it accepts exactly the canonical encodings, and hands back the value
/// and the bytes after it.
#[verifier::external_body]
pub(crate) fn compact_decode(b: &[u8]) -> (r: Option<(u32, Vec<u8>)>)
    ensures
        r.is_some() ==> b@ == compact_u32(r.unwrap().0) + r.unwrap().1@,
        forall|v: u32| #[trigger] starts_with(b@, compact_u32(v)) ==> r.is_some(),
{
    let mut input = b;
    let v = <parity_scale_codec::Compact<u32> as parity_scale_codec::Decode>::decode(&mut input).ok()?;
    Some((v.0, input.to_vec()))
}

/// The number of bytes in the compact encoding of `v`.
pub open spec fn compact_len(v: u32) -> nat {
    if v < 64 {
        1
    } else if v < 0x4000 {
        2
    } else if v < 0x4000_0000 {
        4
    } else {
        5
    }
}

/// The mode that the two low bits of the first byte give for `v`.
pub open spec fn compact_mode(v: u32) -> int {
    if v < 64 {
        0
    } else if v < 0x4000 {
        1
    } else if v < 0x4000_0000 {
        2
    } else {
        3
    }
}

proof fn lemma_le_bytes_len(v: nat, n: nat)
    ensures
        le_bytes(v, n).len() == n,
    decreases n,
{
    if n > 0 {
        lemma_le_bytes_len(v / 256, (n - 1) as nat);
    }
}

proof fn lemma_le_bytes_injective(x: nat, y: nat, n: nat, bound: nat)
    requires
        le_bytes(x, n) == le_bytes(y, n),
        x < bound,
        y < bound,
        bound == pow256(n),
    ensures
        x == y,
    decreases n,
{
    if n == 0 {
    } else {
        let p = pow256((n - 1) as nat);
        assert(le_bytes(x, n)[0] == le_bytes(y, n)[0]);
        assert(le_bytes(x, n) == seq![(x % 256) as u8] + le_bytes(x / 256, (n - 1) as nat));
        assert(le_bytes(y, n) == seq![(y % 256) as u8] + le_bytes(y / 256, (n - 1) as nat));
        assert((seq![(x % 256) as u8] + le_bytes(x / 256, (n - 1) as nat))[0] == (x % 256) as u8);
        assert((seq![(y % 256) as u8] + le_bytes(y / 256, (n - 1) as nat))[0] == (y % 256) as u8);
        assert(le_bytes(x / 256, (n - 1) as nat) =~= le_bytes(x, n).subrange(1, le_bytes(x, n).len() as int));
        assert(le_bytes(y / 256, (n - 1) as nat) =~= le_bytes(y, n).subrange(1, le_bytes(y, n).len() as int));
        assert(x / 256 < p) by (nonlinear_arith)
            requires x < bound, bound == 256 * p;
        assert(y / 256 < p) by (nonlinear_arith)
            requires y < bound, bound == 256 * p;
        lemma_le_bytes_injective(x / 256, y / 256, (n - 1) as nat, p);
        assert(x % 256 == y % 256);
        assert(x == 256 * (x / 256) + x % 256);
        assert(y == 256 * (y / 256) + y % 256);
    }
}

/// 256 to the power `n`.
pub open spec fn pow256(n: nat) -> nat
    decreases n,
{
    if n == 0 {
        1
    } else {
        256 * pow256((n - 1) as nat)
    }
}

/// The compact encoding has the length and first-byte mode of its value's class.
pub proof fn lemma_compact_shape(v: u32)
    ensures
        compact_u32(v).len() == compact_len(v),
        compact_u32(v)[0] % 4 == compact_mode(v),
{
    reveal_with_fuel(le_bytes, 5);
    lemma_le_bytes_len(v as nat, 4);
}

/// Distinct values have distinct compact encodings, and none is a proper
/// prefix of another's followed by more bytes.
pub proof fn lemma_compact_prefix_free(v: u32, w: u32, rv: Seq<u8>, rw: Seq<u8>)
    requires
        compact_u32(v) + rv == compact_u32(w) + rw,
    ensures
        v == w,
        rv == rw,
{
    lemma_compact_shape(v);
    lemma_compact_shape(w);
    let cv = compact_u32(v);
    let cw = compact_u32(w);
    assert(cv[0] == (cv + rv)[0]);
    assert(cw[0] == (cw + rw)[0]);
    assert(compact_mode(v) == compact_mode(w));
    let n = cv.len();
    assert(cv =~= (cv + rv).subrange(0, n as int));
    assert(cw =~= (cw + rw).subrange(0, n as int));
    assert(cv == cw);
    reveal_with_fuel(pow256, 5);
    if v < 64 {
    } else if v < 0x4000 {
        lemma_le_bytes_injective((4 * v + 1) as nat, (4 * w + 1) as nat, 2, pow256(2));
    } else if v < 0x4000_0000 {
        lemma_le_bytes_injective((4 * v + 2) as nat, (4 * w + 2) as nat, 4, pow256(4));
    } else {
        assert(le_bytes(v as nat, 4) =~= cv.subrange(1, 5));
        assert(le_bytes(w as nat, 4) =~= cw.subrange(1, 5));
        lemma_le_bytes_injective(v as nat, w as nat, 4, pow256(4));
    }
    assert(rv =~= (cv + rv).subrange(n as int, (cv + rv).len() as int));
    assert(rw =~= (cw + rw).subrange(n as int, (cw + rw).len() as int));
}

/// Relies on parity-scale-codec's `Decode` for `[u8; 32]` read from a byte
/// slice: it takes the first 32 bytes, and fails when there are fewer.
#[verifier::external_body]
pub(crate) fn decode_array32(b: &[u8]) -> (r: Option<Vec<u8>>)
    ensures
        r.is_some() == (b@.len() >= 32),
        r.is_some() ==> r.unwrap()@ == b@.subrange(0, 32),
{
    let mut input = b;
    <[u8; 32] as parity_scale_codec::Decode>::decode(&mut input).ok().map(|a| a.to_vec())
}

} // verus!
