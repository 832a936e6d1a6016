//! Randomness and time for functions.
use vstd::prelude::*;

use crate::function::memory;
use crate::function::memory::copy_into;

verus! {

/// `TryRngCore::try_fill_bytes` of `rand::rngs::OsRng`: bytes from the random source of the
/// system, as many as asked for, or nothing where the source fails.
#[verifier::external_body]
fn random_bytes(len: usize) -> (bytes: Option<Vec<u8>>)
    ensures
        bytes matches Some(b) ==> b@.len() == len,
{
    let mut bytes = vec![0u8; len];
    rand::TryRngCore::try_fill_bytes(&mut rand::rngs::OsRng, &mut bytes).ok().map(|()| bytes)
}

/// Whether `bytes` is something that the random source may give where `len` bytes are asked for.
pub closed spec fn is_draw(len: u64, bytes: Option<Vec<u8>>) -> bool {
    call_ensures(random_bytes, (len as usize,), bytes)
}

/// A memory after `bytes` were drawn for the part from `ptr` on: they stand there, and where there
/// were none the memory is as it was.
pub open spec fn filled_with(memory: Seq<u8>, ptr: u64, bytes: Option<Vec<u8>>) -> Seq<u8> {
    match bytes {
        Some(b) => memory::written(memory, ptr, b@),
        None => memory,
    }
}

/// Fills a part of the memory of a function with the bytes that were drawn for it, and says whether
/// there were any.
pub fn fill_drawn(view: &mut [u8], ptr: u64, bytes: Option<Vec<u8>>) -> (filled: bool)
    requires
        bytes matches Some(b) ==> ptr + b@.len() <= old(view)@.len(),
    ensures
        filled == (bytes is Some),
        final(view)@ == filled_with(old(view)@, ptr, bytes),
{
    match bytes {
        None => false,
        Some(bytes) => {
            let _ = copy_into(view, ptr, bytes.as_slice());
            true
        },
    }
}

/// Fills a part of the memory of a function with random bytes, and says whether the random source
/// gave them. The bytes around the part stay as they are; all do where the source failed.
pub fn fx_random_handler(view: &mut [u8], ptr: u64, len: u64) -> (filled: bool)
    requires
        memory::within(old(view)@, ptr, len),
    ensures
        final(view)@.len() == old(view)@.len(),
        forall|i: int|
            0 <= i < old(view)@.len() && !(ptr <= i < ptr + len) ==> #[trigger] final(view)@[i]
                == old(view)@[i],
        exists|bytes: Option<Vec<u8>>| #[trigger]
            is_draw(len, bytes) && (bytes matches Some(b) ==> b@.len() == len) && filled == (
            bytes is Some) && final(view)@ == filled_with(old(view)@, ptr, bytes),
{
    let size: usize = view.len();
    let bytes = random_bytes(len as usize);
    let ghost drawn = bytes;
    let filled = fill_drawn(view, ptr, bytes);
    assert(is_draw(len, drawn));
    filled
}

/// The time in milliseconds that a function is told, from the time since the epoch in seconds and
/// nanoseconds; it wraps around where it does not fit.
pub fn fx_time_handler(seconds: u64, nanoseconds: u32) -> (millis: u64)
    ensures
        millis == (seconds * 1000 + nanoseconds / 1_000_000) % 0x1_0000_0000_0000_0000,
{
    let total: u128 = seconds as u128 * 1000 + (nanoseconds / 1_000_000) as u128;
    (total % 0x1_0000_0000_0000_0000) as u64
}

/// A function is told whole milliseconds: those of the seconds and those that the nanoseconds make up,
/// rounded down.
pub proof fn times_are_told_in_milliseconds(seconds: u64, nanoseconds: u32, millis: u64)
    requires
        call_ensures(fx_time_handler, (seconds, nanoseconds), millis),
        seconds * 1000 + nanoseconds / 1_000_000 <= u64::MAX,
    ensures
        millis * 1_000_000 <= seconds * 1_000_000_000 + nanoseconds < (millis + 1) * 1_000_000,
{
}

/// The bytes that were drawn stand in their order from the given place on, and all other bytes stay;
/// where none were drawn, all do.
pub proof fn drawn_bytes_fill_their_part(ptr: u64, bytes: Vec<u8>, filled: bool, nothing: bool)
    ensures
        forall|view: &mut [u8]| #[trigger]
            call_ensures(fill_drawn, (view, ptr, Some(bytes)), filled) && ptr + bytes@.len()
                <= view@.len() ==> {
                &&& filled
                &&& final(view)@.len() == view@.len()
                &&& final(view)@.subrange(ptr as int, ptr + bytes@.len()) =~= bytes@
                &&& forall|i: int|
                    0 <= i < view@.len() && (i < ptr || ptr + bytes@.len() <= i) ==> #[trigger] final(
                        view
                    )@[i] == view@[i]
            },
        forall|view: &mut [u8]| #[trigger]
            call_ensures(fill_drawn, (view, ptr, None), nothing) ==> !nothing && final(view)@
                =~= view@,
{
}

} // verus!
