//! Fixed-width big-endian integers.

use vstd::prelude::*;

verus! {

/// The number that `bytes` spell, the most significant byte first.
pub open spec fn be_value(bytes: Seq<u8>) -> nat
    decreases bytes.len(),
{
    if bytes.len() == 0 {
        0
    } else {
        256 * be_value(bytes.drop_last()) + bytes.last() as nat
    }
}

/// The low `width` bytes of `n`, the most significant byte first.
pub open spec fn be_bytes(n: nat, width: nat) -> Seq<u8>
    decreases width,
{
    if width == 0 {
        Seq::empty()
    } else {
        be_bytes(n / 256, (width - 1) as nat).push((n % 256) as u8)
    }
}

/// One more than the largest number of `width` bytes.
pub open spec fn byte_limit(width: nat) -> nat
    decreases width,
{
    if width == 0 {
        1
    } else {
        256 * byte_limit((width - 1) as nat)
    }
}

pub proof fn lemma_byte_limits()
    ensures
        byte_limit(4) == 0x1_0000_0000,
        byte_limit(8) == 0x1_0000_0000_0000_0000,
{
    reveal_with_fuel(byte_limit, 9);
}

pub proof fn lemma_be_value_bound(bytes: Seq<u8>)
    ensures
        be_value(bytes) < byte_limit(bytes.len()),
    decreases bytes.len(),
{
    if bytes.len() > 0 {
        lemma_be_value_bound(bytes.drop_last());
    }
}

/// Reading gives back what was written, where it fits.
pub proof fn lemma_be_round_trip(n: nat, width: nat)
    requires
        n < byte_limit(width),
    ensures
        be_bytes(n, width).len() == width,
        be_value(be_bytes(n, width)) == n,
    decreases width,
{
    if width > 0 {
        lemma_be_round_trip(n / 256, (width - 1) as nat);
        assert(be_bytes(n, width).drop_last() == be_bytes(n / 256, (width - 1) as nat));
    }
}

pub proof fn lemma_be_bytes_len(n: nat, width: nat)
    ensures
        be_bytes(n, width).len() == width,
    decreases width,
{
    if width > 0 {
        lemma_be_bytes_len(n / 256, (width - 1) as nat);
    }
}

/// Reads the big-endian number of `width` bytes that starts at `start`.
pub fn read_be(bytes: &[u8], start: usize, width: usize) -> (value: u64)
    requires
        width <= 8,
        start + width <= bytes@.len(),
    ensures
        value == be_value(bytes@.subrange(start as int, start + width)),
        value < byte_limit(width as nat),
{
    let ghost field = bytes@.subrange(start as int, start + width);
    let mut value: u64 = 0;
    let mut taken: usize = 0;
    assert(field.take(0) == Seq::<u8>::empty());
    while taken < width
        invariant
            taken <= width <= 8,
            start + width <= bytes.len(),
            field == bytes@.subrange(start as int, start + width),
            value == be_value(field.take(taken as int)),
        decreases width - taken,
    {
        proof {
            lemma_be_value_bound(field.take(taken as int));
            lemma_byte_limit_grows(taken as nat, 7);
            assert(byte_limit(7) == 0x100_0000_0000_0000) by {
                reveal_with_fuel(byte_limit, 9);
            }
            assert(field.take(taken + 1).drop_last() == field.take(taken as int));
        }
        value = value * 256 + bytes[start + taken] as u64;
        taken = taken + 1;
    }
    proof {
        assert(field.take(width as int) == field);
        lemma_be_value_bound(field);
    }
    value
}

pub proof fn lemma_byte_limit_grows(small: nat, large: nat)
    requires
        small <= large,
    ensures
        0 < byte_limit(small) <= byte_limit(large),
    decreases large,
{
    if small < large {
        lemma_byte_limit_grows(small, (large - 1) as nat);
    } else if small > 0 {
        lemma_byte_limit_grows((small - 1) as nat, (large - 1) as nat);
    }
}

/// Overwrites the `width` bytes that start at `start` with the low bytes of
/// `value`.
pub fn put_be(bytes: &mut Vec<u8>, start: usize, width: usize, value: u64)
    requires
        width <= 8,
        start + width <= old(bytes)@.len(),
    ensures
        final(bytes)@ == old(bytes)@.take(start as int) + be_bytes(value as nat, width as nat)
            + old(bytes)@.skip(start + width),
{
    let ghost before = bytes@;
    let mut rest: u64 = value;
    let mut left: usize = width;
    proof {
        lemma_be_bytes_len(value as nat, width as nat);
        assert(before.take(start as int) + be_bytes(value as nat, width as nat) + before.skip(
            start + width,
        ) == before.take(start as int) + be_bytes(rest as nat, left as nat) + bytes@.skip(
            start + left,
        ));
    }
    while left > 0
        invariant
            left <= width <= 8,
            start + width <= before.len(),
            bytes.len() == before.len(),
            bytes@.take(start as int) == before.take(start as int),
            before.take(start as int) + be_bytes(value as nat, width as nat) + before.skip(
                start + width,
            ) == before.take(start as int) + be_bytes(rest as nat, left as nat) + bytes@.skip(
                start + left,
            ),
        decreases left,
    {
        let ghost current = bytes@;
        let ghost rest0 = rest;
        left = left - 1;
        bytes[start + left] = (rest % 256) as u8;
        rest = rest / 256;
        proof {
            assert(be_bytes(rest0 as nat, left as nat + 1) == be_bytes(rest as nat, left as nat).push(
                (rest0 % 256) as u8,
            ));
            assert(bytes@.take(start as int) == current.take(start as int));
            assert(bytes@.skip(start + left) == seq![(rest0 % 256) as u8] + current.skip(
                start + left + 1,
            ));
            assert(before.take(start as int) + be_bytes(rest0 as nat, left as nat + 1)
                + current.skip(start + left + 1) == before.take(start as int) + be_bytes(
                rest as nat,
                left as nat,
            ) + bytes@.skip(start + left));
        }
    }
    assert(bytes@ == before.take(start as int) + be_bytes(rest as nat, 0) + bytes@.skip(
        start as int,
    ));
}

/// Appends the low `width` bytes of `value`.
pub fn push_be(bytes: &mut Vec<u8>, width: usize, value: u64)
    requires
        width <= 8,
    ensures
        final(bytes)@ == old(bytes)@ + be_bytes(value as nat, width as nat),
    decreases width,
{
    if width > 0 {
        push_be(bytes, width - 1, value / 256);
        bytes.push((value % 256) as u8);
    }
}

/// Four bytes, the most significant first.
pub open spec fn four_bytes(n: int) -> Seq<u8> {
    seq![
        ((n / 0x100_0000) % 256) as u8,
        ((n / 0x1_0000) % 256) as u8,
        ((n / 0x100) % 256) as u8,
        (n % 256) as u8,
    ]
}

/// Eight bytes, the most significant first.
pub open spec fn eight_bytes(n: int) -> Seq<u8> {
    four_bytes(n / 0x1_0000_0000) + four_bytes(n)
}

/// The fields of four and of eight bytes hold the most significant byte first.
pub proof fn lemma_fields(n: nat)
    ensures
        be_bytes(n, 4) == four_bytes(n as int),
        be_bytes(n, 8) == eight_bytes(n as int),
{
    let high = n / 0x1_0000_0000;
    lemma_four_bytes(n);
    lemma_four_bytes(high);
    reveal_with_fuel(be_bytes, 5);
    let n1 = n / 256;
    let n2 = n1 / 256;
    let n3 = n2 / 256;
    assert(n3 / 256 == high);
    assert(be_bytes(n3, 5) == be_bytes(high, 4).push((n3 % 256) as u8));
    assert(be_bytes(n2, 6) == be_bytes(n3, 5).push((n2 % 256) as u8));
    assert(be_bytes(n1, 7) == be_bytes(n2, 6).push((n1 % 256) as u8));
    assert(be_bytes(n, 8) == be_bytes(n1, 7).push((n % 256) as u8));
    assert(n1 % 256 == (n as int / 0x100) % 256);
    assert(n2 % 256 == (n as int / 0x1_0000) % 256);
    assert(n3 % 256 == (n as int / 0x100_0000) % 256);
    assert(be_bytes(n, 8) =~= eight_bytes(n as int));
}

proof fn lemma_four_bytes(n: nat)
    ensures
        be_bytes(n, 4) == four_bytes(n as int),
{
    reveal_with_fuel(be_bytes, 5);
    let n1 = n / 256;
    let n2 = n1 / 256;
    let n3 = n2 / 256;
    assert(n1 % 256 == (n as int / 0x100) % 256);
    assert(n2 % 256 == (n as int / 0x1_0000) % 256);
    assert(n3 % 256 == (n as int / 0x100_0000) % 256);
    assert(be_bytes(n, 4) =~= four_bytes(n as int));
}

/// The number in the four bytes from `start` on.
pub open spec fn four_byte_number(bytes: Seq<u8>, start: int) -> int {
    0x100_0000 * bytes[start] + 0x1_0000 * bytes[start + 1] + 0x100 * bytes[start + 2] + bytes[start
        + 3]
}

/// The number in the eight bytes from `start` on.
pub open spec fn eight_byte_number(bytes: Seq<u8>, start: int) -> int {
    0x1_0000_0000 * four_byte_number(bytes, start) + four_byte_number(bytes, start + 4)
}

/// The numbers in fields of four and of eight bytes.
pub proof fn lemma_field_numbers(bytes: Seq<u8>, start: int)
    requires
        0 <= start,
    ensures
        start + 4 <= bytes.len() ==> be_value(bytes.subrange(start, start + 4))
            == four_byte_number(bytes, start),
        start + 8 <= bytes.len() ==> be_value(bytes.subrange(start, start + 8))
            == eight_byte_number(bytes, start),
{
    if start + 4 <= bytes.len() {
        lemma_prefix_values(bytes, start, 4);
    }
    if start + 8 <= bytes.len() {
        lemma_prefix_values(bytes, start, 8);
    }
}

proof fn lemma_prefix_values(bytes: Seq<u8>, start: int, width: int)
    requires
        0 <= start,
        0 <= width,
        start + width <= bytes.len(),
    ensures
        width == 0 ==> be_value(bytes.subrange(start, start + width)) == 0,
        width > 0 ==> be_value(bytes.subrange(start, start + width)) == 256 * be_value(
            bytes.subrange(start, start + width - 1),
        ) + bytes[start + width - 1],
        width >= 4 ==> be_value(bytes.subrange(start, start + 4)) == four_byte_number(bytes, start),
        width >= 8 ==> be_value(bytes.subrange(start, start + 8)) == eight_byte_number(
            bytes,
            start,
        ),
    decreases width,
{
    if width > 0 {
        lemma_prefix_values(bytes, start, width - 1);
        assert(bytes.subrange(start, start + width).drop_last() == bytes.subrange(
            start,
            start + width - 1,
        ));
        if width == 4 || width == 8 {
            lemma_prefix_values(bytes, start, width - 2);
            lemma_prefix_values(bytes, start, width - 3);
            lemma_prefix_values(bytes, start, width - 4);
        }
    }
}

/// What is read of fields of four and of eight bytes.
pub proof fn lemma_read_fields(bytes: &[u8], start: usize, width: usize, value: u64)
    requires
        start + width <= bytes@.len(),
        width == 4 || width == 8,
        call_ensures(read_be, (bytes, start, width), value),
    ensures
        width == 4 ==> value == four_byte_number(bytes@, start as int),
        width == 8 ==> value == eight_byte_number(bytes@, start as int),
{
    lemma_field_numbers(bytes@, start as int);
}

/// What is overwritten with a field of four or of eight bytes, and that nothing else
/// is.
pub proof fn lemma_put_fields(bytes: &mut Vec<u8>, start: usize, width: usize, value: u64)
    requires
        start + width <= old(bytes)@.len(),
        width == 4 || width == 8,
        call_ensures(put_be, (bytes, start, width, value), ()),
    ensures
        final(bytes)@.len() == old(bytes)@.len(),
        forall|i: int|
            #![trigger final(bytes)@[i]]
            0 <= i < old(bytes)@.len() ==> final(bytes)@[i] == if i < start || i >= start + width {
                old(bytes)@[i]
            } else if width == 4 {
                four_bytes(value as int)[i - start]
            } else {
                eight_bytes(value as int)[i - start]
            },
{
    lemma_fields(value as nat);
    lemma_be_bytes_len(value as nat, width as nat);
}

/// What is appended as a field of four or of eight bytes.
pub proof fn lemma_pushed_fields(bytes: &mut Vec<u8>, width: usize, value: u64)
    requires
        width == 4 || width == 8,
        call_ensures(push_be, (bytes, width, value), ()),
    ensures
        width == 4 ==> final(bytes)@ == old(bytes)@ + four_bytes(value as int),
        width == 8 ==> final(bytes)@ == old(bytes)@ + eight_bytes(value as int),
{
    lemma_fields(value as nat);
}

} // verus!
