//! What the host reads from the memory of a function and writes to it.
use vstd::prelude::*;

verus! {

/// Whether `len` bytes at `addr` lie in a memory.
pub open spec fn in_memory(memory: Seq<u8>, addr: i64, len: int) -> bool {
    0 <= addr && 0 <= len && addr + len <= memory.len()
}

/// A memory after bytes were written to it.
pub open spec fn written(memory: Seq<u8>, addr: int, value: Seq<u8>) -> Seq<u8> {
    Seq::new(
        memory.len(),
        |i: int|
            if addr <= i < addr + value.len() {
                value[i - addr]
            } else {
                memory[i]
            },
    )
}

/// Writes bytes to a memory.
pub fn write_memory(memory: &mut [u8], addr: i64, value: &[u8])
    requires
        in_memory(old(memory)@, addr, value@.len() as int),
    ensures
        final(memory)@ == written(old(memory)@, addr as int, value@),
{
    let ghost before = memory@;
    let total: usize = memory.len();
    let start: usize = addr as usize;
    let mut i: usize = 0;
    while i < value.len()
        invariant
            i <= value@.len(),
            start == addr,
            total == before.len(),
            start + value@.len() <= total,
            memory@ =~= written(before, addr as int, value@.take(i as int)),
        decreases value@.len() - i,
    {
        memory[start + i] = value[i];
        i = i + 1;
    }
    assert(value@.take(value@.len() as int) =~= value@);
}

/// The bytes at an address of a memory.
pub fn read_memory_owned(memory: &[u8], addr: i64, len: i64) -> (bytes: Vec<u8>)
    requires
        in_memory(memory@, addr, len as int),
    ensures
        bytes@ == memory@.subrange(addr as int, addr + len),
{
    let total: usize = memory.len();
    let start: usize = addr as usize;
    let count: usize = len as usize;
    let mut bytes: Vec<u8> = Vec::new();
    let mut i: usize = 0;
    while i < count
        invariant
            i <= count,
            start == addr,
            count == len,
            total == memory@.len(),
            start + count <= total,
            bytes@ =~= memory@.subrange(addr as int, addr + i),
        decreases count - i,
    {
        bytes.push(memory[start + i]);
        i = i + 1;
    }
    bytes
}

/// What was written to a memory is read from it, and nothing else there has changed.
pub proof fn written_bytes_are_read(memory: Seq<u8>, addr: i64, value: Seq<u8>)
    requires
        in_memory(memory, addr, value.len() as int),
    ensures
        written(memory, addr as int, value).subrange(addr as int, addr + value.len()) == value,
        forall|i: int|
            0 <= i < memory.len() && !(addr <= i < addr + value.len()) ==> #[trigger] written(
                memory,
                addr as int,
                value,
            )[i] == memory[i],
{
    assert(written(memory, addr as int, value).subrange(addr as int, addr + value.len())
        =~= value);
}

/// Where an answer lies in the memory of a function.
#[derive(Clone, Copy, Debug, PartialEq, Eq, Structural)]
pub struct PtrWithLen {
    pub ptr: i64,
    pub len: i64,
}

/// The bytes of a number, the lowest first.
pub open spec fn le_bytes(n: u64) -> Seq<u8> {
    seq![
        (n & 0xff) as u8,
        ((n >> 8) & 0xff) as u8,
        ((n >> 16) & 0xff) as u8,
        ((n >> 24) & 0xff) as u8,
        ((n >> 32) & 0xff) as u8,
        ((n >> 40) & 0xff) as u8,
        ((n >> 48) & 0xff) as u8,
        ((n >> 56) & 0xff) as u8,
    ]
}

fn push_le_bytes(bytes: &mut Vec<u8>, n: u64)
    ensures
        final(bytes)@ == old(bytes)@ + le_bytes(n),
{
    bytes.push((n & 0xff) as u8);
    bytes.push(((n >> 8) & 0xff) as u8);
    bytes.push(((n >> 16) & 0xff) as u8);
    bytes.push(((n >> 24) & 0xff) as u8);
    bytes.push(((n >> 32) & 0xff) as u8);
    bytes.push(((n >> 40) & 0xff) as u8);
    bytes.push(((n >> 48) & 0xff) as u8);
    bytes.push(((n >> 56) & 0xff) as u8);
    assert(bytes@ =~= old(bytes)@ + le_bytes(n));
}

/// The place of an answer as a function finds it: the address and then the length, each in eight
/// bytes with the lowest first.
pub open spec fn place_bytes(place: PtrWithLen) -> Seq<u8> {
    le_bytes(place.ptr as u64) + le_bytes(place.len as u64)
}

/// Writes the place of an answer to a memory.
pub fn write_memory_obj(memory: &mut [u8], addr: i64, place: PtrWithLen)
    requires
        in_memory(old(memory)@, addr, 16),
    ensures
        final(memory)@ == written(old(memory)@, addr as int, place_bytes(place)),
{
    let mut bytes: Vec<u8> = Vec::new();
    push_le_bytes(&mut bytes, place.ptr as u64);
    push_le_bytes(&mut bytes, place.len as u64);
    assert(bytes@ =~= place_bytes(place));
    write_memory(memory, addr, bytes.as_slice());
}

/// Hands an answer to a function: its bytes to the address that the function has given for them,
/// then their place to where the function looks for it.
pub fn write_answer(memory: &mut [u8], ptr: i64, answer: &[u8], output_ptr: i64)
    requires
        in_memory(old(memory)@, ptr, answer@.len() as int),
        in_memory(old(memory)@, output_ptr, 16),
        answer@.len() <= i64::MAX,
    ensures
        final(memory)@ == written(
            written(old(memory)@, ptr as int, answer@),
            output_ptr as int,
            place_bytes((PtrWithLen { ptr, len: answer@.len() as i64 })),
        ),
{
    write_memory(memory, ptr, answer);
    write_memory_obj(memory, output_ptr, PtrWithLen { ptr, len: answer.len() as i64 });
}

/// The length of the header of a message.
pub const HEADER_LENGTH: u32 = 4;

/// The number that four bytes hold, the lowest first.
pub open spec fn le_u32(bytes: Seq<u8>) -> u32 {
    (bytes[0] as u32) | ((bytes[1] as u32) << 8) | ((bytes[2] as u32) << 16) | ((bytes[3] as u32)
        << 24)
}

/// The four bytes of a number, the lowest first.
pub open spec fn le_u32_bytes(n: u32) -> Seq<u8> {
    seq![
        (n & 0xff) as u8,
        ((n >> 8) & 0xff) as u8,
        ((n >> 16) & 0xff) as u8,
        ((n >> 24) & 0xff) as u8,
    ]
}

/// Whether there is a whole message at an address: its length, and then as many bytes. Header and
/// body together are no longer than a 32-bit number tells.
pub open spec fn message_at(memory: Seq<u8>, ptr: u64) -> bool {
    &&& ptr + 4 <= memory.len()
    &&& le_u32(memory.subrange(ptr as int, ptr + 4)) <= u32::MAX - HEADER_LENGTH
    &&& ptr + 4 + le_u32(memory.subrange(ptr as int, ptr + 4)) <= memory.len()
}

/// A message that was read, and how many bytes are to be freed for it.
#[derive(Debug)]
pub struct ReadMessage {
    pub body: Vec<u8>,
    pub freed: u32,
}

/// Reads the message at an address.
pub fn read_message(memory: &[u8], ptr: u64) -> (message: ReadMessage)
    requires
        message_at(memory@, ptr),
    ensures
        message.body@ == memory@.subrange(
            ptr + 4,
            ptr + 4 + le_u32(memory@.subrange(ptr as int, ptr + 4)),
        ),
        message.freed == 4 + le_u32(memory@.subrange(ptr as int, ptr + 4)),
{
    let total: usize = memory.len();
    let at: usize = ptr as usize;
    let ghost header = memory@.subrange(ptr as int, ptr + 4);
    let length: u32 = (memory[at] as u32) | ((memory[at + 1] as u32) << 8) | ((memory[at + 2]
        as u32) << 16) | ((memory[at + 3] as u32) << 24);
    assert(length == le_u32(header));
    let mut body: Vec<u8> = Vec::new();
    let mut i: u32 = 0;
    while i < length
        invariant
            i <= length,
            at == ptr,
            total == memory@.len(),
            at + 4 + length <= total,
            body@ =~= memory@.subrange(ptr + 4, ptr + 4 + i),
        decreases length - i,
    {
        body.push(memory[at + 4 + i as usize]);
        i = i + 1;
    }
    ReadMessage { body, freed: HEADER_LENGTH + length }
}

/// A message with its header in front.
pub open spec fn framed(body: Seq<u8>) -> Seq<u8> {
    le_u32_bytes(body.len() as u32) + body
}

/// A message that was written with its header in front is there whole, and is read as it was
/// written.
pub proof fn framed_messages_are_read(memory: Seq<u8>, ptr: u64, body: Seq<u8>)
    requires
        body.len() <= u32::MAX - HEADER_LENGTH,
        ptr + 4 + body.len() <= memory.len(),
        memory.subrange(ptr as int, ptr + 4 + body.len()) == framed(body),
    ensures
        message_at(memory, ptr),
        memory.subrange(ptr + 4, ptr + 4 + le_u32(memory.subrange(ptr as int, ptr + 4))) == body,
{
    let n = body.len() as u32;
    let frame = memory.subrange(ptr as int, ptr + 4 + body.len());
    let header = memory.subrange(ptr as int, ptr + 4);
    assert(header =~= le_u32_bytes(n)) by {
        assert forall|i: int| 0 <= i < 4 implies header[i] == le_u32_bytes(n)[i] by {
            assert(header[i] == frame[i]);
        }
    }
    assert(((n & 0xff) as u8) as u32 | ((((n >> 8) & 0xff) as u8) as u32) << 8 | ((((n >> 16)
        & 0xff) as u8) as u32) << 16 | ((((n >> 24) & 0xff) as u8) as u32) << 24 == n)
        by (bit_vector);
    assert(le_u32(header) == n);
    assert(memory.subrange(ptr + 4, ptr + 4 + n) =~= body) by {
        assert forall|i: int| 0 <= i < n implies memory.subrange(ptr + 4, ptr + 4 + n)[i]
            == body[i] by {
            assert(le_u32_bytes(n).len() == 4);
            assert(framed(body)[4 + i] == body[i]);
            assert(frame[4 + i] == memory[ptr + 4 + i]);
        }
    }
}

/// The number that eight bytes make up, the lowest byte first.
pub open spec fn number_of(bytes: Seq<u8>) -> int {
    bytes[0] + 0x100 * bytes[1] + 0x1_0000 * bytes[2] + 0x100_0000 * bytes[3] + 0x1_0000_0000
        * bytes[4] + 0x100_0000_0000 * bytes[5] + 0x1_0000_0000_0000 * bytes[6]
        + 0x100_0000_0000_0000 * bytes[7]
}

proof fn lemma_le_bytes(n: u64)
    ensures
        le_bytes(n).len() == 8,
        number_of(le_bytes(n)) == n,
{
    assert(((n & 0xff) as u8) + 0x100 * (((n >> 8) & 0xff) as u8) + 0x1_0000 * (((n >> 16)
        & 0xff) as u8) + 0x100_0000 * (((n >> 24) & 0xff) as u8) + 0x1_0000_0000 * (((n >> 32)
        & 0xff) as u8) + 0x100_0000_0000 * (((n >> 40) & 0xff) as u8) + 0x1_0000_0000_0000 * (((n
        >> 48) & 0xff) as u8) + 0x100_0000_0000_0000 * (((n >> 56) & 0xff) as u8) == n)
        by (bit_vector);
}

proof fn lemma_le_u32(bytes: Seq<u8>)
    ensures
        le_u32(bytes) == bytes[0] + 0x100 * bytes[1] + 0x1_0000 * bytes[2] + 0x100_0000 * bytes[3],
{
    let a = bytes[0];
    let b = bytes[1];
    let c = bytes[2];
    let d = bytes[3];
    assert((a as u32) | ((b as u32) << 8) | ((c as u32) << 16) | ((d as u32) << 24) == a + 0x100 * b
        + 0x1_0000 * c + 0x100_0000 * d) by (bit_vector);
}

/// Where something lies is written as two numbers of eight bytes, the lowest byte first: its address,
/// then its length; every other byte stays.
pub proof fn places_are_written_as_numbers(addr: i64, place: PtrWithLen)
    requires
        0 <= addr,
        0 <= place.ptr,
        0 <= place.len,
    ensures
        forall|memory: &mut [u8]| #[trigger]
            call_ensures(write_memory_obj, (memory, addr, place), ()) && addr + 16 <= memory@.len()
                ==> {
                &&& final(memory)@.len() == memory@.len()
                &&& number_of(final(memory)@.subrange(addr as int, addr + 8)) == place.ptr
                &&& number_of(final(memory)@.subrange(addr + 8, addr + 16)) == place.len
                &&& forall|i: int|
                    0 <= i < memory@.len() && (i < addr || addr + 16 <= i) ==> #[trigger] final(
                        memory
                    )@[i] == memory@[i]
            },
{
    lemma_le_bytes(place.ptr as u64);
    lemma_le_bytes(place.len as u64);
    assert forall|memory: &mut [u8]| #[trigger]
        call_ensures(write_memory_obj, (memory, addr, place), ()) && addr + 16
            <= memory@.len() implies number_of(final(memory)@.subrange(addr as int, addr + 8))
        == place.ptr && number_of(final(memory)@.subrange(addr + 8, addr + 16)) == place.len by {
        let bytes = place_bytes(place);
        assert(final(memory)@ == written(memory@, addr as int, bytes));
        assert(final(memory)@.subrange(addr as int, addr + 8) =~= le_bytes(place.ptr as u64));
        assert(final(memory)@.subrange(addr + 8, addr + 16) =~= le_bytes(place.len as u64));
    }
}

/// An answer is written byte by byte where it is to lie, and where it lies is written where the function
/// looks for it.
pub proof fn answers_are_found_where_they_lie(ptr: i64, answer: &[u8], output_ptr: i64)
    requires
        0 <= ptr,
        0 <= output_ptr,
        answer@.len() <= i64::MAX,
        ptr + answer@.len() <= output_ptr || output_ptr + 16 <= ptr,
    ensures
        forall|memory: &mut [u8]| #[trigger]
            call_ensures(write_answer, (memory, ptr, answer, output_ptr), ()) && ptr + answer@.len()
                <= memory@.len() && output_ptr + 16 <= memory@.len() ==> {
                &&& final(memory)@.len() == memory@.len()
                &&& final(memory)@.subrange(ptr as int, ptr + answer@.len()) =~= answer@
                &&& number_of(final(memory)@.subrange(output_ptr as int, output_ptr + 8)) == ptr
                &&& number_of(final(memory)@.subrange(output_ptr + 8, output_ptr + 16))
                    == answer@.len()
            },
{
    let place = PtrWithLen { ptr, len: answer@.len() as i64 };
    lemma_le_bytes(place.ptr as u64);
    lemma_le_bytes(place.len as u64);
    assert forall|memory: &mut [u8]| #[trigger]
        call_ensures(write_answer, (memory, ptr, answer, output_ptr), ()) && ptr + answer@.len()
            <= memory@.len() && output_ptr + 16 <= memory@.len() implies number_of(
        final(memory)@.subrange(output_ptr as int, output_ptr + 8),
    ) == ptr && number_of(final(memory)@.subrange(output_ptr + 8, output_ptr + 16))
        == answer@.len() by {
        assert(final(memory)@.subrange(output_ptr as int, output_ptr + 8) =~= le_bytes(
            place.ptr as u64,
        ));
        assert(final(memory)@.subrange(output_ptr + 8, output_ptr + 16) =~= le_bytes(
            place.len as u64,
        ));
    }
}

/// A message is as long as the four bytes before it say, the lowest byte first, and is what follows
/// them; what is freed is the message with these bytes.
pub proof fn messages_are_as_long_as_they_say(memory: &[u8], ptr: u64, message: ReadMessage)
    requires
        ptr + 4 <= memory@.len(),
        ptr + 4 + memory@[ptr as int] + 0x100 * memory@[ptr + 1] + 0x1_0000 * memory@[ptr + 2]
            + 0x100_0000 * memory@[ptr + 3] <= memory@.len(),
        call_ensures(read_message, (memory, ptr), message),
    ensures
        message.body@.len() == memory@[ptr as int] + 0x100 * memory@[ptr + 1] + 0x1_0000
            * memory@[ptr + 2] + 0x100_0000 * memory@[ptr + 3],
        message.freed == message.body@.len() + 4,
        forall|i: int|
            0 <= i < message.body@.len() ==> #[trigger] message.body@[i] == memory@[ptr + 4 + i],
{
    lemma_le_u32(memory@.subrange(ptr as int, ptr + 4));
}

/// What is written stands byte by byte where it was written and every other byte stays; what is read is
/// what stands there.
pub proof fn bytes_are_read_and_written_in_place(
    addr: i64,
    value: &[u8],
    memory: &[u8],
    len: i64,
    bytes: Vec<u8>,
)
    requires
        0 <= addr,
        0 <= len,
        addr + len <= memory@.len(),
        call_ensures(read_memory_owned, (memory, addr, len), bytes),
    ensures
        bytes@.len() == len,
        forall|i: int| 0 <= i < len ==> #[trigger] bytes@[i] == memory@[addr + i],
        forall|view: &mut [u8]| #[trigger]
            call_ensures(write_memory, (view, addr, value), ()) && addr + value@.len() <= view@.len()
                ==> {
                &&& final(view)@.len() == view@.len()
                &&& final(view)@.subrange(addr as int, addr + value@.len()) =~= value@
                &&& forall|i: int|
                    0 <= i < view@.len() && (i < addr || addr + value@.len() <= i) ==> #[trigger] final(
                        view
                    )@[i] == view@[i]
            },
{
}

} // verus!
