//! Reading and writing the memory of a function.
use vstd::prelude::*;
use vstd::slice::{slice_subrange, slice_to_vec};

use crate::text;
use crate::text::decode_text;

verus! {

/// Why the memory of a function cannot be reached.
#[derive(Clone, Copy, Debug, PartialEq, Eq, Structural)]
pub enum FunctionMemoryError {
    /// memory export not found
    MemoryNotFound,
    /// exported memory is not a memory
    MemoryNotMemory,
}

/// Why a part of the memory cannot be read or written.
#[derive(Clone, Copy, Debug, PartialEq, Eq, Structural)]
pub enum FunctionMemoryAccessError {
    /// index into function memory is out of bounds of memory view
    OutOfBounds,
}

/// Why a text cannot be read from the memory.
#[derive(Clone, Copy, Debug, PartialEq, Eq, Structural)]
pub enum FunctionMemoryGetStringError {
    /// index into function memory is out of bounds of memory view
    OutOfBounds,
    /// failed to decode string as utf8
    FailedToDecode,
}

impl From<FunctionMemoryAccessError> for FunctionMemoryGetStringError {
    fn from(err: FunctionMemoryAccessError) -> (out: Self) {
        match err {
            FunctionMemoryAccessError::OutOfBounds => FunctionMemoryGetStringError::OutOfBounds,
        }
    }
}

impl vstd::std_specs::convert::FromSpecImpl<FunctionMemoryAccessError> for FunctionMemoryGetStringError {
    open spec fn obeys_from_spec() -> bool {
        true
    }

    open spec fn from_spec(err: FunctionMemoryAccessError) -> Self {
        FunctionMemoryGetStringError::OutOfBounds
    }
}

/// Whether `len` bytes from `ptr` on lie within `memory`.
pub open spec fn within(memory: Seq<u8>, ptr: u64, len: u64) -> bool {
    ptr + len <= memory.len()
}

/// The `len` bytes from `ptr` on.
pub open spec fn bytes_at(memory: Seq<u8>, ptr: u64, len: u64) -> Seq<u8> {
    memory.subrange(ptr as int, ptr + len)
}

/// The text of `len` bytes from `ptr` on.
pub open spec fn text_at(memory: Seq<u8>, ptr: u64, len: u64) -> Result<
    Seq<char>,
    FunctionMemoryGetStringError,
> {
    if !within(memory, ptr, len) {
        Err(FunctionMemoryGetStringError::OutOfBounds)
    } else {
        match text::utf8_text(bytes_at(memory, ptr, len)) {
            Some(t) => Ok(t),
            None => Err(FunctionMemoryGetStringError::FailedToDecode),
        }
    }
}

/// The memory with `bytes` written from `ptr` on.
pub open spec fn written(memory: Seq<u8>, ptr: u64, bytes: Seq<u8>) -> Seq<u8> {
    Seq::new(
        memory.len(),
        |i: int|
            if ptr <= i < ptr + bytes.len() {
                bytes[i - ptr]
            } else {
                memory[i]
            },
    )
}

/// The memory of a function, to be read.
pub struct FunctionMemoryView<'a> {
    pub view: &'a [u8],
}

impl<'a> FunctionMemoryView<'a> {
    pub fn slice(&self, ptr: u64, len: u64) -> (part: Result<&'a [u8], FunctionMemoryAccessError>)
        ensures
            match part {
                Ok(bytes) => within(self.view@, ptr, len) && bytes@ == bytes_at(
                    self.view@,
                    ptr,
                    len,
                ),
                Err(err) => !within(self.view@, ptr, len) && err
                    == FunctionMemoryAccessError::OutOfBounds,
            },
    {
        let size: u64 = self.view.len() as u64;
        if ptr > size || len > size - ptr {
            return Err(FunctionMemoryAccessError::OutOfBounds);
        }
        Ok(slice_subrange(self.view, ptr as usize, (ptr + len) as usize))
    }

    pub fn vec_clone(&self, ptr: u64, len: u64) -> (copy: Result<
        Vec<u8>,
        FunctionMemoryAccessError,
    >)
        ensures
            match copy {
                Ok(bytes) => within(self.view@, ptr, len) && bytes@ == bytes_at(
                    self.view@,
                    ptr,
                    len,
                ),
                Err(err) => !within(self.view@, ptr, len) && err
                    == FunctionMemoryAccessError::OutOfBounds,
            },
    {
        match self.slice(ptr, len) {
            Ok(bytes) => Ok(slice_to_vec(bytes)),
            Err(err) => Err(err),
        }
    }

    pub fn str_ref(&self, ptr: u64, len: u64) -> (part: Result<
        &'a str,
        FunctionMemoryGetStringError,
    >)
        ensures
            match part {
                Ok(t) => text_at(self.view@, ptr, len) == Ok::<
                    Seq<char>,
                    FunctionMemoryGetStringError,
                >(t@),
                Err(err) => text_at(self.view@, ptr, len) == Err::<
                    Seq<char>,
                    FunctionMemoryGetStringError,
                >(err),
            },
    {
        match self.slice(ptr, len) {
            Ok(bytes) => match decode_text(bytes) {
                Some(t) => Ok(t),
                None => Err(FunctionMemoryGetStringError::FailedToDecode),
            },
            Err(err) => Err(FunctionMemoryGetStringError::from(err)),
        }
    }
}

/// Writes `bytes` into a memory from `ptr` on.
pub fn copy_into(view: &mut [u8], ptr: u64, bytes: &[u8]) -> (done: Result<
    (),
    FunctionMemoryAccessError,
>)
    ensures
        match done {
            Ok(()) => ptr + bytes@.len() <= old(view)@.len() && final(view)@ == written(
                old(view)@,
                ptr,
                bytes@,
            ),
            Err(err) => ptr + bytes@.len() > old(view)@.len() && final(view)@ == old(view)@ && err
                == FunctionMemoryAccessError::OutOfBounds,
        },
{
    let size: u64 = view.len() as u64;
    let len: u64 = bytes.len() as u64;
    if ptr > size || len > size - ptr {
        return Err(FunctionMemoryAccessError::OutOfBounds);
    }
    let start: usize = ptr as usize;
    let mut i: usize = 0;
    while i < bytes.len()
        invariant
            i <= bytes@.len(),
            start == ptr,
            ptr + bytes@.len() <= view@.len(),
            view@.len() <= usize::MAX,
            view@ == written(old(view)@, ptr, bytes@.take(i as int)),
        decreases bytes@.len() - i,
    {
        view[start + i] = bytes[i];
        assert(view@ =~= written(old(view)@, ptr, bytes@.take(i + 1)));
        i = i + 1;
    }
    assert(bytes@.take(bytes@.len() as int) =~= bytes@);
    Ok(())
}

/// The memory of a function, to be written.
pub struct FunctionMemoryViewMut<'a> {
    pub view: &'a mut [u8],
}

impl<'a> FunctionMemoryViewMut<'a> {
    /// Writes `copy_from` into the `len` bytes from `ptr` on.
    pub fn copy_from_slice(&mut self, ptr: u64, len: u64, copy_from: &[u8]) -> (done: Result<
        (),
        FunctionMemoryAccessError,
    >)
        requires
            copy_from@.len() == len,
        ensures
            match done {
                Ok(()) => within(old(self).view@, ptr, len) && final(self).view@ == written(
                    old(self).view@,
                    ptr,
                    copy_from@,
                ),
                Err(err) => !within(old(self).view@, ptr, len) && final(self).view@ == old(
                    self,
                ).view@ && err == FunctionMemoryAccessError::OutOfBounds,
            },
    {
        copy_into(self.view, ptr, copy_from)
    }
}

/// What was written is read back, and every other byte is as it was.
pub proof fn writes_are_read_back(memory: Seq<u8>, ptr: u64, bytes: Seq<u8>)
    requires
        bytes.len() <= u64::MAX,
        within(memory, ptr, bytes.len() as u64),
    ensures
        within(written(memory, ptr, bytes), ptr, bytes.len() as u64),
        bytes_at(written(memory, ptr, bytes), ptr, bytes.len() as u64) == bytes,
        written(memory, ptr, bytes).len() == memory.len(),
        forall|i: int|
            0 <= i < memory.len() && !(ptr <= i < ptr + bytes.len()) ==> #[trigger] written(
                memory,
                ptr,
                bytes,
            )[i] == memory[i],
{
    assert(bytes_at(written(memory, ptr, bytes), ptr, bytes.len() as u64) =~= bytes);
}

/// A read gives the bytes that stand in its part of the memory, one by one and in their order, and
/// fails only where the part does not lie in the memory; so does a copy.
pub proof fn reads_give_the_bytes_of_their_part<'a>(
    memory: FunctionMemoryView<'a>,
    ptr: u64,
    len: u64,
    part: Result<&'a [u8], FunctionMemoryAccessError>,
    copy: Result<Vec<u8>, FunctionMemoryAccessError>,
)
    requires
        call_ensures(FunctionMemoryView::slice, (&memory, ptr, len), part),
        call_ensures(FunctionMemoryView::vec_clone, (&memory, ptr, len), copy),
    ensures
        part is Ok <==> ptr + len <= memory.view@.len(),
        copy is Ok <==> ptr + len <= memory.view@.len(),
        part matches Ok(bytes) ==> bytes@.len() == len && forall|i: int|
            0 <= i < len ==> #[trigger] bytes@[i] == memory.view@[ptr + i],
        copy matches Ok(bytes) ==> bytes@.len() == len && forall|i: int|
            0 <= i < len ==> #[trigger] bytes@[i] == memory.view@[ptr + i],
{
}

/// A text is read from the bytes of its part: it fails to be read outside of the memory, it fails to
/// decode where those bytes are no text, and is otherwise the text that they are.
pub proof fn texts_are_those_of_their_part<'a>(
    memory: FunctionMemoryView<'a>,
    ptr: u64,
    len: u64,
    bytes: Seq<u8>,
    part: Result<&'a str, FunctionMemoryGetStringError>,
)
    requires
        call_ensures(FunctionMemoryView::str_ref, (&memory, ptr, len), part),
        bytes.len() == len,
        ptr + len <= memory.view@.len() ==> forall|i: int|
            0 <= i < len ==> #[trigger] bytes[i] == memory.view@[ptr + i],
    ensures
        part matches Err(FunctionMemoryGetStringError::OutOfBounds) <==> ptr + len
            > memory.view@.len(),
        part matches Ok(t) ==> text::utf8_text(bytes) == Some(t@),
        part matches Err(FunctionMemoryGetStringError::FailedToDecode) ==> text::utf8_text(
            bytes,
        ) is None,
{
    if ptr + len <= memory.view@.len() {
        assert(bytes =~= memory.view@.subrange(ptr as int, ptr + len));
    }
}

/// A write puts its bytes one by one in their order from the given place on, keeps every other byte,
/// and where it would leave the memory it keeps them all.
pub proof fn writes_change_their_part_only(
    ptr: u64,
    bytes: &[u8],
    done: Result<(), FunctionMemoryAccessError>,
)
    ensures
        forall|view: &mut [u8]| #[trigger]
            call_ensures(copy_into, (view, ptr, bytes), done) ==> {
                &&& done is Ok <==> ptr + bytes@.len() <= view@.len()
                &&& final(view)@.len() == view@.len()
                &&& forall|i: int|
                    done is Ok && 0 <= i < bytes@.len() ==> final(view)@[#[trigger] (ptr + i)]
                        == bytes@[i]
                &&& forall|i: int|
                    0 <= i < view@.len() && (done is Err || i < ptr || ptr + bytes@.len() <= i)
                        ==> #[trigger] final(view)@[i] == view@[i]
            },
{
}

/// A copy into a view of the memory changes its part only, byte by byte, and nothing where it would leave
/// the memory.
pub proof fn copies_change_their_part_only<'a>(
    ptr: u64,
    bytes: &[u8],
    done: Result<(), FunctionMemoryAccessError>,
)
    requires
        bytes@.len() <= u64::MAX,
    ensures
        forall|memory: &mut FunctionMemoryViewMut<'a>| #[trigger]
            call_ensures(
                FunctionMemoryViewMut::copy_from_slice,
                (memory, ptr, bytes@.len() as u64, bytes),
                done,
            ) ==> {
                &&& done is Ok <==> ptr + bytes@.len() <= memory.view@.len()
                &&& final(memory).view@.len() == memory.view@.len()
                &&& done is Ok ==> final(memory).view@.subrange(ptr as int, ptr + bytes@.len())
                    =~= bytes@
                &&& forall|i: int|
                    0 <= i < memory.view@.len() && (done is Err || i < ptr || ptr + bytes@.len()
                        <= i) ==> #[trigger] final(memory).view@[i] == memory.view@[i]
            },
{
}

} // verus!
