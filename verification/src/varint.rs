//! Base-128 varints: the integers of the structured-clone wire format.
//!
//! A number is written seven bits at a time, from the least significant group
//! to the most significant one. Every byte but the last has its high bit set.

use vstd::prelude::*;

verus! {

/// The most bytes that a 32-bit varint takes: four groups of seven bits and one
/// of four.
pub const U32_VARINT_MAX_BYTES: usize = 5;

/// The bytes of `n` as a varint, with no byte more than needed.
pub open spec fn varint_bytes(n: nat) -> Seq<u8>
    decreases n,
{
    if n < 128 {
        seq![n as u8]
    } else {
        seq![(n % 128 + 128) as u8] + varint_bytes(n / 128)
    }
}

/// How many bytes of `bytes` belong to the varint at its start: up to and with
/// the first byte whose high bit is clear, `None` when there is no such byte.
pub open spec fn varint_len(bytes: Seq<u8>) -> Option<nat>
    decreases bytes.len(),
{
    if bytes.len() == 0 {
        None
    } else if bytes[0] < 128 {
        Some(1)
    } else {
        match varint_len(bytes.skip(1)) {
            Some(n) => Some(n + 1),
            None => None,
        }
    }
}

/// The number whose seven-bit groups are the low bits of `bytes`, the least
/// significant group first.
pub open spec fn varint_value(bytes: Seq<u8>) -> nat
    decreases bytes.len(),
{
    if bytes.len() == 0 {
        0
    } else {
        (bytes[0] as nat) % 128 + 128 * varint_value(bytes.skip(1))
    }
}

/// What a reader that refuses malformed numbers makes of the start of `bytes`:
/// the number and the bytes that it takes. There is none when the number is cut
/// short, is longer than five bytes or does not fit in 32 bits.
pub open spec fn strict_u32_varint(bytes: Seq<u8>) -> Option<(u32, nat)> {
    match varint_len(bytes) {
        Some(n) => if n <= U32_VARINT_MAX_BYTES && varint_value(bytes.take(n as int)) <= u32::MAX {
            Some((varint_value(bytes.take(n as int)) as u32, n))
        } else {
            None
        },
        None => None,
    }
}

/// What V8's `ReadUint32` makes of the start of `bytes`: the number, cut to 32
/// bits, and the bytes that it takes. It stops after five bytes even where the
/// fifth announces another one, as long as there is another one.
pub open spec fn lenient_u32_varint(bytes: Seq<u8>) -> Option<(u32, nat)> {
    match varint_len(bytes) {
        Some(n) if n <= U32_VARINT_MAX_BYTES => Some(
            ((varint_value(bytes.take(n as int)) % 0x1_0000_0000) as u32, n),
        ),
        _ => if bytes.len() > U32_VARINT_MAX_BYTES {
            Some(
                (
                    (varint_value(bytes.take(U32_VARINT_MAX_BYTES as int)) % 0x1_0000_0000) as u32,
                    U32_VARINT_MAX_BYTES as nat,
                ),
            )
        } else {
            None
        },
    }
}

/// One more than the largest number that `count` groups of seven bits hold.
spec fn group_limit(count: nat) -> nat
    decreases count,
{
    if count == 0 {
        1
    } else {
        128 * group_limit((count - 1) as nat)
    }
}

proof fn lemma_group_limits()
    ensures
        group_limit(0) == 1,
        group_limit(1) == 0x80,
        group_limit(2) == 0x4000,
        group_limit(3) == 0x20_0000,
        group_limit(4) == 0x1000_0000,
        group_limit(5) == 0x8_0000_0000,
{
    reveal_with_fuel(group_limit, 6);
}

proof fn lemma_value_bound(bytes: Seq<u8>)
    ensures
        varint_value(bytes) < group_limit(bytes.len()),
    decreases bytes.len(),
{
    if bytes.len() > 0 {
        lemma_value_bound(bytes.skip(1));
    }
}

/// A varint takes at least one byte and no more than there are.
pub proof fn lemma_varint_len_bounds(bytes: Seq<u8>)
    ensures
        varint_len(bytes) matches Some(n) ==> 0 < n <= bytes.len(),
    decreases bytes.len(),
{
    if bytes.len() > 0 {
        lemma_varint_len_bounds(bytes.skip(1));
    }
}

/// What follows a complete varint does not change how it is read.
proof fn lemma_varint_len_prefix(bytes: Seq<u8>, rest: Seq<u8>)
    ensures
        varint_len(bytes) is Some ==> varint_len(bytes + rest) == varint_len(bytes),
    decreases bytes.len(),
{
    if bytes.len() > 0 {
        lemma_varint_len_prefix(bytes.skip(1), rest);
        assert((bytes + rest).skip(1) == bytes.skip(1) + rest);
    }
}

proof fn lemma_written_varint(n: nat)
    ensures
        varint_len(varint_bytes(n)) == Some(varint_bytes(n).len()),
        varint_value(varint_bytes(n)) == n,
    decreases n,
{
    let bytes = varint_bytes(n);
    if n < 128 {
        assert(varint_value(bytes.skip(1)) == 0);
        assert(varint_value(bytes) == n as u8 as nat % 128);
    } else {
        lemma_written_varint(n / 128);
        assert(bytes.skip(1) == varint_bytes(n / 128));
        assert(((n % 128 + 128) as u8) as nat % 128 == n % 128);
    }
}

proof fn lemma_written_len(n: nat, count: nat)
    requires
        0 < count,
        n < group_limit(count),
    ensures
        0 < varint_bytes(n).len() <= count,
    decreases count,
{
    reveal_with_fuel(group_limit, 2);
    if n >= 128 {
        assert(count >= 2) by {
            if count == 1 {
                assert(group_limit(1) == 128);
            }
        }
        lemma_written_len(n / 128, (count - 1) as nat);
    }
}

/// A 32-bit number takes one to five bytes.
pub proof fn lemma_u32_varint_len(n: u32)
    ensures
        0 < varint_bytes(n as nat).len() <= U32_VARINT_MAX_BYTES,
{
    lemma_group_limits();
    lemma_written_len(n as nat, U32_VARINT_MAX_BYTES as nat);
}

/// Reading gives back what was written: both readers find `n`, and nothing but
/// its bytes, at the start of its varint, whatever follows.
pub proof fn lemma_varint_round_trip(n: u32, rest: Seq<u8>)
    ensures
        strict_u32_varint(varint_bytes(n as nat) + rest) == Some(
            (n, varint_bytes(n as nat).len()),
        ),
        lenient_u32_varint(varint_bytes(n as nat) + rest) == Some(
            (n, varint_bytes(n as nat).len()),
        ),
{
    let bytes = varint_bytes(n as nat);
    lemma_written_varint(n as nat);
    lemma_u32_varint_len(n);
    lemma_varint_len_prefix(bytes, rest);
    assert((bytes + rest).take(bytes.len() as int) == bytes);
}

/// Where the strict reader accepts a number, the lenient one reads the same.
pub proof fn lemma_strict_agrees_with_lenient(bytes: Seq<u8>)
    ensures
        strict_u32_varint(bytes) is Some ==> lenient_u32_varint(bytes) == strict_u32_varint(bytes),
{
}

/// Appends `value` to `bytes` as a varint.
pub fn write_u32_varint(bytes: &mut Vec<u8>, value: u32)
    ensures
        final(bytes)@ == old(bytes)@ + varint_bytes(value as nat),
{
    let ghost before = bytes@;
    let mut rest: u32 = value;
    while rest >= 128
        invariant
            bytes@ + varint_bytes(rest as nat) == before + varint_bytes(value as nat),
        decreases rest,
    {
        let ghost written = bytes@;
        bytes.push((rest % 128 + 128) as u8);
        assert(bytes@ + varint_bytes(rest as nat / 128) == written + varint_bytes(rest as nat));
        rest = rest / 128;
    }
    bytes.push(rest as u8);
    assert(varint_bytes(rest as nat) == seq![rest as u8]);
}

/// Reads a varint of at most `budget` bytes that starts at `start`.
fn read_groups(bytes: &[u8], start: usize, budget: usize) -> (res: Option<(u64, usize)>)
    requires
        start <= bytes@.len(),
        budget <= U32_VARINT_MAX_BYTES,
    ensures
        match varint_len(bytes@.skip(start as int)) {
            Some(n) if n <= budget => res matches Some(found) && found.1 == n && found.0
                == varint_value(bytes@.skip(start as int).take(n as int)) && found.0
                < group_limit(budget as nat),
            _ => res is None,
        },
    decreases budget,
{
    let ghost tail = bytes@.skip(start as int);
    proof {
        lemma_varint_len_bounds(tail);
        lemma_group_limits();
        if tail.len() > 0 {
            lemma_varint_len_bounds(tail.skip(1));
        }
    }
    if budget == 0 || start == bytes.len() {
        return None;
    }
    let byte: u8 = bytes[start];
    if byte < 128 {
        proof {
            assert(tail.take(1).skip(1) == Seq::<u8>::empty());
            assert(varint_value(tail.take(1).skip(1)) == 0);
            assert(varint_value(tail.take(1)) == byte);
            lemma_value_bound(tail.take(1));
            lemma_limit_grows(1, budget as nat);
        }
        return Some((byte as u64, 1));
    }
    assert(tail.skip(1) == bytes@.skip(start + 1));
    match read_groups(bytes, start + 1, budget - 1) {
        Some((value, len)) => {
            proof {
                assert(tail.take(len + 1).skip(1) == tail.skip(1).take(len as int));
                reveal_with_fuel(group_limit, 2);
                assert(group_limit(budget as nat) == 128 * group_limit((budget - 1) as nat));
                lemma_limit_grows((budget - 1) as nat, 4);
            }
            Some((value * 128 + (byte % 128) as u64, len + 1))
        },
        None => None,
    }
}

proof fn lemma_limit_grows(small: nat, large: nat)
    requires
        small <= large,
    ensures
        0 < group_limit(small) <= group_limit(large),
    decreases large,
{
    if small < large {
        lemma_limit_grows(small, (large - 1) as nat);
    } else if small > 0 {
        lemma_limit_grows((small - 1) as nat, (large - 1) as nat);
    }
}

/// Reads the varint that starts at `start` and refuses a malformed one: gives
/// the number and the bytes that it takes.
pub fn read_strict_u32_varint(bytes: &[u8], start: usize) -> (res: Option<(u32, usize)>)
    requires
        start <= bytes@.len(),
    ensures
        match strict_u32_varint(bytes@.skip(start as int)) {
            Some((value, len)) => res matches Some(found) && found.0 == value && found.1 == len,
            None => res is None,
        },
{
    match read_groups(bytes, start, U32_VARINT_MAX_BYTES) {
        Some((value, len)) => if value <= u32::MAX as u64 {
            Some((value as u32, len))
        } else {
            None
        },
        None => None,
    }
}

/// Reads the number that V8's `ReadUint32` reads at `start`: gives the number
/// and the bytes that it takes.
pub fn read_lenient_u32_varint(bytes: &[u8], start: usize) -> (res: Option<(u32, usize)>)
    requires
        start <= bytes@.len(),
    ensures
        match lenient_u32_varint(bytes@.skip(start as int)) {
            Some((value, len)) => res matches Some(found) && found.0 == value && found.1 == len,
            None => res is None,
        },
{
    match read_groups(bytes, start, U32_VARINT_MAX_BYTES) {
        Some((value, len)) => Some(((value % 0x1_0000_0000) as u32, len)),
        None => if bytes.len() - start > U32_VARINT_MAX_BYTES {
            Some((read_five_groups(bytes, start), U32_VARINT_MAX_BYTES))
        } else {
            None
        },
    }
}

/// The low 32 bits of the five seven-bit groups that start at `start`.
fn read_five_groups(bytes: &[u8], start: usize) -> (value: u32)
    requires
        start + U32_VARINT_MAX_BYTES <= bytes@.len(),
    ensures
        value as nat == varint_value(
            bytes@.skip(start as int).take(U32_VARINT_MAX_BYTES as int),
        ) % 0x1_0000_0000,
{
    let ghost groups = bytes@.skip(start as int).take(U32_VARINT_MAX_BYTES as int);
    let mut value: u64 = 0;
    let mut left: usize = U32_VARINT_MAX_BYTES;
    proof {
        lemma_group_limits();
        assert(groups.skip(5) == Seq::<u8>::empty());
    }
    while left > 0
        invariant
            left <= U32_VARINT_MAX_BYTES,
            start + U32_VARINT_MAX_BYTES <= bytes.len(),
            groups == bytes@.skip(start as int).take(U32_VARINT_MAX_BYTES as int),
            value == varint_value(groups.skip(left as int)),
        decreases left,
    {
        proof {
            lemma_group_limits();
            lemma_value_bound(groups.skip(left as int));
            lemma_limit_grows((5 - left) as nat, 4);
            assert(groups.skip(left - 1).skip(1) == groups.skip(left as int));
        }
        left = left - 1;
        value = value * 128 + (bytes[start + left] % 128) as u64;
    }
    assert(groups.skip(0) == groups);
    (value % 0x1_0000_0000) as u32
}

/// The bytes of a 32-bit number, group by group.
pub open spec fn groups_of(n: u32) -> Seq<u8> {
    let group = |i: int| (n as int / i) % 128;
    if n < 0x80 {
        seq![n as u8]
    } else if n < 0x4000 {
        seq![(group(1) + 128) as u8, group(0x80) as u8]
    } else if n < 0x20_0000 {
        seq![(group(1) + 128) as u8, (group(0x80) + 128) as u8, group(0x4000) as u8]
    } else if n < 0x1000_0000 {
        seq![
            (group(1) + 128) as u8,
            (group(0x80) + 128) as u8,
            (group(0x4000) + 128) as u8,
            group(0x20_0000) as u8,
        ]
    } else {
        seq![
            (group(1) + 128) as u8,
            (group(0x80) + 128) as u8,
            (group(0x4000) + 128) as u8,
            (group(0x20_0000) + 128) as u8,
            group(0x1000_0000) as u8,
        ]
    }
}

/// A 32-bit number is written in groups of seven bits, the least significant first,
/// and every byte but the last is marked.
pub proof fn lemma_groups(n: u32)
    ensures
        varint_bytes(n as nat) == groups_of(n),
{
    reveal_with_fuel(varint_bytes, 6);
    assert(varint_bytes(n as nat) =~= groups_of(n));
}

/// A number is appended to what was written before it.
pub proof fn lemma_written_groups(bytes: &mut Vec<u8>, value: u32)
    requires
        call_ensures(write_u32_varint, (bytes, value), ()),
    ensures
        final(bytes)@ == old(bytes)@ + groups_of(value),
{
    lemma_groups(value);
}

/// Whether `bytes` holds, from `start` on, `count` bytes that are all marked but for
/// the last.
pub open spec fn ends_after(bytes: Seq<u8>, start: int, count: int) -> bool {
    &&& 0 < count
    &&& start + count <= bytes.len()
    &&& bytes[start + count - 1] < 128
    &&& forall|i: int| start <= i < start + count - 1 ==> #[trigger] bytes[i] >= 128
}

/// The number in `count` groups of seven bits, at most five, from `start` on.
pub open spec fn grouped(bytes: Seq<u8>, start: int, count: int) -> int {
    let group = |i: int|
        if i < count {
            bytes[start + i] as int % 128
        } else {
            0
        };
    group(0) + 0x80 * group(1) + 0x4000 * group(2) + 0x20_0000 * group(3) + 0x1000_0000 * group(4)
}

proof fn lemma_grouped(bytes: Seq<u8>, count: int)
    requires
        0 <= count <= 5,
        count <= bytes.len(),
    ensures
        varint_value(bytes.take(count)) == grouped(bytes, 0, count),
{
    reveal_with_fuel(varint_value, 6);
    let first = bytes.take(count);
    if count > 1 {
        assert(first.skip(1)[0] == first[1]);
    }
    if count > 2 {
        assert(first.skip(1).skip(1)[0] == first[2]);
    }
    if count > 3 {
        assert(first.skip(1).skip(1).skip(1)[0] == first[3]);
    }
    if count > 4 {
        assert(first.skip(1).skip(1).skip(1).skip(1)[0] == first[4]);
    }
}

proof fn lemma_ends_after(bytes: Seq<u8>, count: int)
    ensures
        ends_after(bytes, 0, count) <==> count > 0 && varint_len(bytes) == Some(count as nat),
    decreases bytes.len(),
{
    if bytes.len() > 0 && count > 0 {
        let rest = bytes.skip(1);
        lemma_varint_len_bounds(bytes);
        lemma_varint_len_bounds(rest);
        lemma_ends_after(rest, count - 1);
        assert forall|i: int| 0 < i < bytes.len() implies bytes[i] == #[trigger] rest[i - 1] by {}
        if ends_after(bytes, 0, count) && count > 1 {
            assert(bytes[0] >= 128);
            assert(rest[count - 2] == bytes[count - 1]);
            assert(ends_after(rest, 0, count - 1));
        }
        if count > 1 && varint_len(bytes) == Some(count as nat) {
            assert(ends_after(rest, 0, count - 1));
            assert forall|i: int| 0 <= i < count - 1 implies #[trigger] bytes[i] >= 128 by {
                if i > 0 {
                    assert(rest[i - 1] >= 128);
                }
            }
        }
    }
}

proof fn lemma_shifted(bytes: Seq<u8>, start: int, count: int)
    requires
        0 <= start <= bytes.len(),
    ensures
        ends_after(bytes, start, count) <==> ends_after(bytes.skip(start), 0, count),
        count <= bytes.len() - start ==> grouped(bytes, start, count) == grouped(
            bytes.skip(start),
            0,
            count,
        ),
{
    let tail = bytes.skip(start);
    assert forall|i: int|
        start <= i < bytes.len() implies bytes[i] == #[trigger] tail[i - start] by {}
    if ends_after(tail, 0, count) {
        assert(bytes[start + count - 1] == tail[count - 1]);
        assert forall|i: int| start <= i < start + count - 1 implies #[trigger] bytes[i] >= 128 by {
            assert(tail[i - start] >= 128);
        }
    }
    if ends_after(bytes, start, count) {
        assert(tail[count - 1] == bytes[start + count - 1]);
        assert forall|i: int| 0 <= i < count - 1 implies #[trigger] tail[i] >= 128 by {
            assert(bytes[start + i] >= 128);
        }
    }
}

/// Whether the strict reader is to find `value` in the `count` bytes from `start` on.
pub open spec fn is_strict(bytes: Seq<u8>, start: int, value: int, count: int) -> bool {
    &&& 0 < count <= 5
    &&& ends_after(bytes, start, count)
    &&& value == grouped(bytes, start, count)
    &&& value <= 0xFFFF_FFFF
}

/// Whether the lenient reader is to find `value` in the `count` bytes from `start` on.
pub open spec fn is_lenient(bytes: Seq<u8>, start: int, value: int, count: int) -> bool {
    &&& 0 < count <= 5
    &&& ends_after(bytes, start, count) || count == 5 && start + 5 < bytes.len() && forall|i: int|
        start <= i < start + 5 ==> #[trigger] bytes[i] >= 128
    &&& value == grouped(bytes, start, count) % 0x1_0000_0000
}

/// The strict reader finds a number exactly where one to five bytes end in an unmarked
/// one and their groups fit in 32 bits.
pub proof fn lemma_strict(bytes: Seq<u8>, start: int, value: u32, count: nat)
    requires
        0 <= start <= bytes.len(),
    ensures
        strict_u32_varint(bytes.skip(start)) == Some((value, count)) <==> is_strict(
            bytes,
            start,
            value as int,
            count as int,
        ),
{
    let tail = bytes.skip(start);
    lemma_shifted(bytes, start, count as int);
    lemma_ends_after(tail, count as int);
    lemma_varint_len_bounds(tail);
    if count <= 5 && count <= tail.len() {
        lemma_grouped(tail, count as int);
    }
}

/// The strict reader, as it is called.
pub proof fn lemma_strict_reader(bytes: &[u8], start: usize, res: Option<(u32, usize)>)
    requires
        start <= bytes@.len(),
        call_ensures(read_strict_u32_varint, (bytes, start), res),
    ensures
        res matches Some(found) ==> is_strict(
            bytes@,
            start as int,
            found.0 as int,
            found.1 as int,
        ),
        res is None ==> forall|value: int, count: int|
            0 <= value ==> !#[trigger] is_strict(bytes@, start as int, value, count),
{
    if let Some(found) = res {
        lemma_strict(bytes@, start as int, found.0, found.1 as nat);
    } else {
        assert forall|value: int, count: int|
            0 <= value implies !#[trigger] is_strict(bytes@, start as int, value, count) by {
            if is_strict(bytes@, start as int, value, count) {
                lemma_strict(bytes@, start as int, value as u32, count as nat);
            }
        }
    }
}

/// The lenient reader finds a number also where the groups do not fit in 32 bits, and
/// cuts it; and where five marked bytes are followed by another byte.
pub proof fn lemma_lenient(bytes: Seq<u8>, start: int, value: u32, count: nat)
    requires
        0 <= start <= bytes.len(),
    ensures
        lenient_u32_varint(bytes.skip(start)) == Some((value, count)) <==> is_lenient(
            bytes,
            start,
            value as int,
            count as int,
        ),
{
    let tail = bytes.skip(start);
    lemma_shifted(bytes, start, count as int);
    lemma_ends_after(tail, count as int);
    lemma_varint_len_bounds(tail);
    if count <= 5 && count <= tail.len() {
        lemma_grouped(tail, count as int);
    }
    if tail.len() > 5 {
        lemma_grouped(tail, 5);
        let marked = forall|i: int| start <= i < start + 5 ==> #[trigger] bytes[i] >= 128;
        if let Some(n) = varint_len(tail) {
            lemma_ends_after(tail, n as int);
            if n <= 5 {
                assert(bytes[start + n - 1] == tail[n - 1]);
                assert(!marked);
            }
            if n > 5 {
                assert(marked) by {
                    assert forall|i: int|
                        start <= i < start + 5 implies #[trigger] bytes[i] >= 128 by {
                        assert(tail[i - start] >= 128);
                    }
                }
            }
        } else {
            assert(marked) by {
                assert forall|i: int| start <= i < start + 5 implies #[trigger] bytes[i] >= 128 by {
                    if bytes[i] < 128 {
                        lemma_no_end(tail, i - start);
                    }
                }
            }
        }
    }
}

proof fn lemma_no_end(bytes: Seq<u8>, index: int)
    requires
        varint_len(bytes) is None,
        0 <= index < bytes.len(),
    ensures
        bytes[index] >= 128,
    decreases index,
{
    if index > 0 {
        lemma_no_end(bytes.skip(1), index - 1);
    }
}

/// The lenient reader, as it is called.
pub proof fn lemma_lenient_reader(bytes: &[u8], start: usize, res: Option<(u32, usize)>)
    requires
        start <= bytes@.len(),
        call_ensures(read_lenient_u32_varint, (bytes, start), res),
    ensures
        res matches Some(found) ==> is_lenient(
            bytes@,
            start as int,
            found.0 as int,
            found.1 as int,
        ),
        res is None ==> forall|value: int, count: int|
            !#[trigger] is_lenient(bytes@, start as int, value, count),
{
    if let Some(found) = res {
        lemma_lenient(bytes@, start as int, found.0, found.1 as nat);
    } else {
        assert forall|value: int, count: int| !#[trigger]
            is_lenient(bytes@, start as int, value, count) by {
            if is_lenient(bytes@, start as int, value, count) {
                lemma_lenient(bytes@, start as int, value as u32, count as nat);
            }
        }
    }
}

} // verus!
