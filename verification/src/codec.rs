//! Fixed-width little-endian integers, the building block of every stored
//! record and of the instruction payload.

use vstd::prelude::*;
use vstd::array::spec_array_update;

verus! {

/// 256 to the power `n`.
pub open spec fn pow256(n: nat) -> nat
    decreases n,
{
    if n == 0 {
        1
    } else {
        256 * pow256((n - 1) as nat)
    }
}

/// The number that `bytes` spells in little-endian order.
pub open spec fn le_value(bytes: Seq<u8>) -> nat
    decreases bytes.len(),
{
    if bytes.len() == 0 {
        0
    } else {
        bytes[0] as nat + 256 * le_value(bytes.drop_first())
    }
}

/// The `n` low-order bytes of `x`, least significant first.
pub open spec fn le_bytes(x: nat, n: nat) -> Seq<u8>
    decreases n,
{
    if n == 0 {
        Seq::empty()
    } else {
        seq![(x % 256) as u8] + le_bytes(x / 256, (n - 1) as nat)
    }
}

/// The unsigned 64-bit pattern of a signed value (two's complement).
pub open spec fn i64_bits(x: i64) -> u64 {
    if x >= 0 {
        x as u64
    } else {
        (x + 0x1_0000_0000_0000_0000) as u64
    }
}

/// The signed value of a 64-bit pattern (two's complement).
pub open spec fn i64_of_bits(bits: u64) -> i64 {
    if bits <= 0x7fff_ffff_ffff_ffff {
        bits as i64
    } else {
        (bits - 0x1_0000_0000_0000_0000) as i64
    }
}

/// Encoding of an unsigned 64-bit field.
pub open spec fn u64_le(x: u64) -> Seq<u8> {
    le_bytes(x as nat, 8)
}

/// Encoding of a signed 64-bit field.
pub open spec fn i64_le(x: i64) -> Seq<u8> {
    le_bytes(i64_bits(x) as nat, 8)
}

pub proof fn pow256_of_8()
    ensures
        pow256(8) == 0x1_0000_0000_0000_0000,
{
    reveal_with_fuel(pow256, 9);
}

pub proof fn le_bytes_len(x: nat, n: nat)
    ensures
        le_bytes(x, n).len() == n,
    decreases n,
{
    if n > 0 {
        le_bytes_len(x / 256, (n - 1) as nat);
    }
}

/// A little-endian number of `n` bytes is below `256^n`.
pub proof fn le_value_bound(bytes: Seq<u8>)
    ensures
        le_value(bytes) < pow256(bytes.len()),
    decreases bytes.len(),
{
    if bytes.len() > 0 {
        le_value_bound(bytes.drop_first());
    }
}

/// Reading back what was written gives the number, where it fits.
pub proof fn le_value_of_le_bytes(x: nat, n: nat)
    requires
        x < pow256(n),
    ensures
        le_value(le_bytes(x, n)) == x,
    decreases n,
{
    if n > 0 {
        let rest = le_bytes(x / 256, (n - 1) as nat);
        le_bytes_len(x / 256, (n - 1) as nat);
        assert(le_bytes(x, n).drop_first() =~= rest);
        le_value_of_le_bytes(x / 256, (n - 1) as nat);
    }
}

/// Writing what was read gives the bytes back.
pub proof fn le_bytes_of_le_value(bytes: Seq<u8>)
    ensures
        le_bytes(le_value(bytes), bytes.len()) == bytes,
    decreases bytes.len(),
{
    if bytes.len() > 0 {
        let tail = bytes.drop_first();
        le_bytes_of_le_value(tail);
        let x = le_value(bytes);
        assert(x % 256 == bytes[0] as nat);
        assert(x / 256 == le_value(tail));
        assert(le_bytes(x, bytes.len()) =~= bytes);
    }
}

/// Two numbers below `256^n` with the same `n` bytes are equal.
pub proof fn le_bytes_injective(x: nat, y: nat, n: nat)
    requires
        x < pow256(n),
        y < pow256(n),
        le_bytes(x, n) == le_bytes(y, n),
    ensures
        x == y,
{
    le_value_of_le_bytes(x, n);
    le_value_of_le_bytes(y, n);
}

/// The two's-complement pattern determines the signed value.
pub proof fn i64_bits_round_trip(x: i64)
    ensures
        i64_of_bits(i64_bits(x)) == x,
{
}

pub proof fn i64_of_bits_round_trip(bits: u64)
    ensures
        i64_bits(i64_of_bits(bits)) == bits,
{
}

/// Different unsigned fields have different encodings.
pub proof fn u64_le_injective(x: u64, y: u64)
    requires
        u64_le(x) == u64_le(y),
    ensures
        x == y,
{
    pow256_of_8();
    le_bytes_injective(x as nat, y as nat, 8);
}

/// Different signed fields have different encodings.
pub proof fn i64_le_injective(x: i64, y: i64)
    requires
        i64_le(x) == i64_le(y),
    ensures
        x == y,
{
    pow256_of_8();
    le_bytes_injective(i64_bits(x) as nat, i64_bits(y) as nat, 8);
    i64_bits_round_trip(x);
    i64_bits_round_trip(y);
}

/// Reads the unsigned 64-bit field that starts at `offset`.
pub fn read_u64(data: &[u8], offset: usize) -> (x: u64)
    requires
        offset + 8 <= data@.len(),
    ensures
        x == le_value(data@.subrange(offset as int, offset + 8)),
        u64_le(x) == data@.subrange(offset as int, offset + 8),
{
    let ghost field = data@.subrange(offset as int, offset + 8);
    let total: usize = data.len();
    let mut acc: u64 = 0;
    let mut i: usize = 8;
    while i > 0
        invariant
            i <= 8,
            offset + 8 <= data@.len(),
            total == data@.len(),
            field == data@.subrange(offset as int, offset + 8),
            acc == le_value(field.subrange(i as int, 8)),
        decreases i,
    {
        i = i - 1;
        let byte: u8 = data[offset + i];
        proof {
            let part = field.subrange(i as int, 8);
            assert(part.drop_first() =~= field.subrange(i + 1, 8));
            assert(part[0] == byte);
            le_value_bound(part);
            reveal_with_fuel(pow256, 9);
            assert(pow256(part.len()) <= pow256(8)) by {
                reveal_with_fuel(pow256, 9);
            }
        }
        acc = acc * 256 + byte as u64;
    }
    proof {
        assert(field.subrange(0, 8) =~= field);
        le_bytes_of_le_value(field);
    }
    acc
}

/// Reads the signed 64-bit field that starts at `offset`.
pub fn read_i64(data: &[u8], offset: usize) -> (x: i64)
    requires
        offset + 8 <= data@.len(),
    ensures
        i64_le(x) == data@.subrange(offset as int, offset + 8),
{
    let bits: u64 = read_u64(data, offset);
    let x: i64 = if bits <= 0x7fff_ffff_ffff_ffff {
        bits as i64
    } else {
        ((bits - 0x8000_0000_0000_0000) as i64) + i64::MIN
    };
    assert(x == i64_of_bits(bits));
    proof {
        i64_of_bits_round_trip(bits);
    }
    x
}

/// Appends the encoding of an unsigned 64-bit field.
pub fn write_u64(out: &mut Vec<u8>, x: u64)
    ensures
        final(out)@ == old(out)@ + u64_le(x),
{
    let ghost start = out@;
    let mut rest: u64 = x;
    let mut i: usize = 0;
    while i < 8
        invariant
            i <= 8,
            out@ + le_bytes(rest as nat, (8 - i) as nat) == start + le_bytes(x as nat, 8),
        decreases 8 - i,
    {
        let ghost before = out@;
        let low: u8 = (rest % 256) as u8;
        out.push(low);
        proof {
            let tail = le_bytes((rest / 256) as nat, (8 - i - 1) as nat);
            assert(le_bytes(rest as nat, (8 - i) as nat) == seq![low] + tail);
            assert(out@ + tail =~= before + (seq![low] + tail));
        }
        rest = rest / 256;
        i = i + 1;
    }
    assert(out@ + le_bytes(rest as nat, 0) =~= out@);
}

/// Appends the encoding of a signed 64-bit field.
pub fn write_i64(out: &mut Vec<u8>, x: i64)
    ensures
        final(out)@ == old(out)@ + i64_le(x),
{
    let bits: u64 = if x >= 0 {
        x as u64
    } else {
        ((x - i64::MIN) as u64) + 0x8000_0000_0000_0000
    };
    assert(bits == i64_bits(x));
    write_u64(out, bits);
}

/// Appends `count` bytes of `data`, starting at `offset`.
pub fn write_slice(out: &mut Vec<u8>, data: &[u8], offset: usize, count: usize)
    requires
        offset + count <= data@.len(),
    ensures
        final(out)@ == old(out)@ + data@.subrange(offset as int, offset + count),
{
    let ghost start = out@;
    let total: usize = data.len();
    let mut i: usize = 0;
    while i < count
        invariant
            i <= count,
            offset + count <= data@.len(),
            total == data@.len(),
            out@ == start + data@.subrange(offset as int, offset + i),
        decreases count - i,
    {
        out.push(data[offset + i]);
        assert(out@ =~= start + data@.subrange(offset as int, offset + i + 1));
        i = i + 1;
    }
}

/// Reads the `N` bytes that start at `offset`.
pub fn read_array<const N: usize>(data: &[u8], offset: usize) -> (bytes: [u8; N])
    requires
        offset + N <= data@.len(),
    ensures
        bytes@ == data@.subrange(offset as int, offset + N),
{
    let total: usize = data.len();
    let mut bytes: [u8; N] = [0u8; N];
    let mut i: usize = 0;
    while i < N
        invariant
            i <= N,
            offset + N <= data@.len(),
            total == data@.len(),
            forall|j: int| 0 <= j < i ==> bytes@[j] == data@[offset + j],
        decreases N - i,
    {
        bytes[i] = data[offset + i];
        i = i + 1;
    }
    assert(bytes@ =~= data@.subrange(offset as int, offset + N));
    bytes
}

/// Two byte arrays with the same contents are the same array.
pub proof fn array_ext_equal<const N: usize>(a: [u8; N], b: [u8; N])
    requires
        a@ == b@,
    ensures
        a == b,
{
    assert(forall|i: int| 0 <= i < N ==> a[i] == a@[i]);
    assert(forall|i: int| 0 <= i < N ==> b[i] == b@[i]);
    assert(a =~= b);
}

/// The array whose contents are `bytes`.
pub open spec fn bytes_from<const N: usize>(bytes: Seq<u8>) -> [u8; N]
    recommends
        bytes.len() == N,
{
    choose|array: [u8; N]| array@ == bytes
}

/// `base` with its first `upto` bytes taken from `bytes`.
spec fn filled<const N: usize>(base: [u8; N], bytes: Seq<u8>, upto: nat) -> [u8; N]
    decreases upto,
{
    if upto == 0 {
        base
    } else {
        spec_array_update(filled(base, bytes, (upto - 1) as nat), upto - 1, bytes[upto - 1])
    }
}

proof fn filled_view<const N: usize>(base: [u8; N], bytes: Seq<u8>, upto: nat)
    requires
        upto <= N,
        bytes.len() == N,
    ensures
        forall|i: int| 0 <= i < upto ==> filled(base, bytes, upto)@[i] == bytes[i],
        filled(base, bytes, upto)@.len() == N,
    decreases upto,
{
    if upto > 0 {
        filled_view(base, bytes, (upto - 1) as nat);
    }
}

/// Every sequence of `N` bytes is the contents of an array.
pub proof fn bytes_from_view<const N: usize>(bytes: Seq<u8>)
    requires
        bytes.len() == N,
    ensures
        bytes_from::<N>(bytes)@ == bytes,
{
    let base: [u8; N] = arbitrary();
    filled_view(base, bytes, N as nat);
    assert(filled(base, bytes, N as nat)@ =~= bytes);
}

/// An unsigned field can hold whatever eight bytes spell.
pub proof fn u64_le_of_le_value(bytes: Seq<u8>)
    requires
        bytes.len() == 8,
    ensures
        le_value(bytes) <= u64::MAX,
        u64_le(le_value(bytes) as u64) == bytes,
{
    le_value_bound(bytes);
    pow256_of_8();
    le_bytes_of_le_value(bytes);
}

/// A signed field can hold whatever eight bytes spell.
pub proof fn i64_le_of_le_value(bytes: Seq<u8>)
    requires
        bytes.len() == 8,
    ensures
        i64_le(i64_of_bits(le_value(bytes) as u64)) == bytes,
{
    u64_le_of_le_value(bytes);
    i64_of_bits_round_trip(le_value(bytes) as u64);
}

} // verus!
