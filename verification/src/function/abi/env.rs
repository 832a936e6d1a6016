//! Environment variables of a function.
use vstd::prelude::*;

use crate::function::memory;
use crate::function::memory::{
    copy_into, FunctionMemoryError, FunctionMemoryGetStringError, FunctionMemoryView,
};
use crate::table::Table;
use crate::text::owned;

verus! {

/// What a function is told that asked for the length of a variable.
#[derive(Clone, Copy, Debug, PartialEq, Eq, Structural)]
pub enum EnvLenResultCode {
    Done,
    FailedToReadRequest,
    BadRequest,
    NotFound,
}

/// What a function is told that asked for a variable.
#[derive(Clone, Copy, Debug, PartialEq, Eq, Structural)]
pub enum EnvGetResult {
    Done,
    FailedToReadRequest,
    BadRequest,
    NotFound,
    FailedToWriteValue,
}

/// The length of a variable in bytes, and what the function is told; the length is nothing but
/// where the variable was found.
pub fn fx_env_len_handler(
    view: Result<&[u8], FunctionMemoryError>,
    env: &Table<String, String>,
    key_addr: u64,
    key_len: u64,
) -> (answer: (EnvLenResultCode, Option<u64>))
    requires
        env.wf(),
    ensures
        match view {
            Err(_) => answer == (EnvLenResultCode::FailedToReadRequest, None::<u64>),
            Ok(view) => match memory::text_at(view@, key_addr, key_len) {
                Err(FunctionMemoryGetStringError::OutOfBounds) => answer == (
                    EnvLenResultCode::FailedToReadRequest,
                    None::<u64>,
                ),
                Err(FunctionMemoryGetStringError::FailedToDecode) => answer == (
                    EnvLenResultCode::BadRequest,
                    None::<u64>,
                ),
                Ok(key) => if env@.dom().contains(key) {
                    answer.0 == EnvLenResultCode::Done && answer.1 is Some && answer.1->0
                        == vstd::utf8::encode_utf8(env@[key]@).len()
                } else {
                    answer == (EnvLenResultCode::NotFound, None::<u64>)
                },
            },
        },
{
    let view = match view {
        Err(_) => return (EnvLenResultCode::FailedToReadRequest, None),
        Ok(view) => FunctionMemoryView { view },
    };
    match view.str_ref(key_addr, key_len) {
        Err(FunctionMemoryGetStringError::OutOfBounds) => (
            EnvLenResultCode::FailedToReadRequest,
            None,
        ),
        Err(FunctionMemoryGetStringError::FailedToDecode) => (EnvLenResultCode::BadRequest, None),
        Ok(key) => match env.get(&owned(key)) {
            None => (EnvLenResultCode::NotFound, None),
            Some(value) => (EnvLenResultCode::Done, Some(value.as_str().as_bytes().len() as u64)),
        },
    }
}

/// Writes a variable into the memory of the function.
pub fn fx_env_get_handler(
    view: Result<&mut [u8], FunctionMemoryError>,
    env: &Table<String, String>,
    key_addr: u64,
    key_len: u64,
    value_addr: u64,
) -> (answer: EnvGetResult)
    requires
        env.wf(),
    ensures
        match view {
            Err(_) => answer == EnvGetResult::FailedToReadRequest,
            Ok(view) => match memory::text_at(view@, key_addr, key_len) {
                Err(FunctionMemoryGetStringError::OutOfBounds) => answer
                    == EnvGetResult::FailedToReadRequest && final(view)@ == view@,
                Err(FunctionMemoryGetStringError::FailedToDecode) => answer
                    == EnvGetResult::BadRequest && final(view)@ == view@,
                Ok(key) => if !env@.dom().contains(key) {
                    answer == EnvGetResult::NotFound && final(view)@ == view@
                } else {
                    let value = vstd::utf8::encode_utf8(env@[key]@);
                    if value_addr + value.len() <= view@.len() {
                        answer == EnvGetResult::Done && final(view)@ == memory::written(
                            view@,
                            value_addr,
                            value,
                        )
                    } else {
                        answer == EnvGetResult::FailedToWriteValue && final(view)@ == view@
                    }
                },
            },
        },
{
    let view = match view {
        Err(_) => return EnvGetResult::FailedToReadRequest,
        Ok(view) => view,
    };
    let value = match (FunctionMemoryView { view: &*view }).str_ref(key_addr, key_len) {
        Err(FunctionMemoryGetStringError::OutOfBounds) => return EnvGetResult::FailedToReadRequest,
        Err(FunctionMemoryGetStringError::FailedToDecode) => return EnvGetResult::BadRequest,
        Ok(key) => match env.get(&owned(key)) {
            None => return EnvGetResult::NotFound,
            Some(value) => value,
        },
    };
    let bytes = value.as_str().as_bytes();
    match copy_into(view, value_addr, bytes) {
        Ok(()) => EnvGetResult::Done,
        Err(_) => EnvGetResult::FailedToWriteValue,
    }
}

/// The value of the variable that the call names is written to the place that it names, and nothing
/// else changes; the length that is told for it is the length of what is written.
pub proof fn variables_are_written_where_asked(
    env: &Table<String, String>,
    key_addr: u64,
    key_len: u64,
    value_addr: u64,
    name: Seq<char>,
    answer: EnvGetResult,
    memory: &[u8],
    told: (EnvLenResultCode, Option<u64>),
)
    requires
        key_addr + key_len <= memory@.len(),
        crate::text::utf8_text(memory@.subrange(key_addr as int, key_addr + key_len)) == Some(name),
        call_ensures(
            fx_env_len_handler,
            (Ok::<&[u8], FunctionMemoryError>(memory), env, key_addr, key_len),
            told,
        ),
    ensures
        told.0 is Done <==> env@.dom().contains(name),
        told.0 is NotFound <==> !env@.dom().contains(name),
        told.1 is Some <==> told.0 is Done,
        told.0 is Done ==> told.1->0 == vstd::utf8::encode_utf8(env@[name]@).len(),
        forall|view: &mut [u8]| #[trigger]
            call_ensures(
                fx_env_get_handler,
                (
                    Ok::<&mut [u8], FunctionMemoryError>(view),
                    env,
                    key_addr,
                    key_len,
                    value_addr,
                ),
                answer,
            ) && view@ == memory@ ==> {
                let value = vstd::utf8::encode_utf8(env@[name]@);
                &&& answer is NotFound <==> !env@.dom().contains(name)
                &&& answer is Done <==> env@.dom().contains(name) && value_addr + value.len()
                    <= view@.len()
                &&& answer is FailedToWriteValue <==> env@.dom().contains(name) && value_addr
                    + value.len() > view@.len()
                &&& answer is Done ==> final(view)@.len() == view@.len() && final(view)@.subrange(
                    value_addr as int,
                    value_addr + value.len(),
                ) =~= value
                &&& forall|i: int|
                    0 <= i < view@.len() && (answer !is Done || i < value_addr || value_addr
                        + value.len() <= i) ==> #[trigger] final(view)@[i] == view@[i]
            },
{
}

/// A call whose name cannot be read is answered so: outside of the memory, or no text.
pub proof fn unreadable_names_are_told(
    env: &Table<String, String>,
    key_addr: u64,
    key_len: u64,
    view: Result<&[u8], FunctionMemoryError>,
    told: (EnvLenResultCode, Option<u64>),
)
    requires
        call_ensures(fx_env_len_handler, (view, env, key_addr, key_len), told),
    ensures
        told.0 is FailedToReadRequest <==> view is Err || key_addr + key_len > view->Ok_0@.len(),
        told.0 is BadRequest <==> view is Ok && key_addr + key_len <= view->Ok_0@.len()
            && crate::text::utf8_text(
            view->Ok_0@.subrange(key_addr as int, key_addr + key_len),
        ) is None,
{
}

/// A call for a value whose name cannot be read is answered so, and nothing is written.
pub proof fn nothing_is_written_for_unreadable_names(
    env: &Table<String, String>,
    key_addr: u64,
    key_len: u64,
    value_addr: u64,
    answer: EnvGetResult,
)
    ensures
        forall|view: &mut [u8]| #[trigger]
            call_ensures(
                fx_env_get_handler,
                (
                    Ok::<&mut [u8], FunctionMemoryError>(view),
                    env,
                    key_addr,
                    key_len,
                    value_addr,
                ),
                answer,
            ) ==> {
                &&& answer is FailedToReadRequest <==> key_addr + key_len > view@.len()
                &&& answer is BadRequest <==> key_addr + key_len <= view@.len()
                    && crate::text::utf8_text(
                    view@.subrange(key_addr as int, key_addr + key_len),
                ) is None
                &&& answer !is Done ==> final(view)@ == view@
            },
{
}

} // verus!
