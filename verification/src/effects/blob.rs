//! The blob store: requests, what they become, and what they are answered.
use vstd::prelude::*;

use crate::definitions::bindings::BlobBindingConfig;
use crate::function::memory;
use crate::function::memory::{
    FunctionMemoryAccessError, FunctionMemoryError, FunctionMemoryGetStringError,
    FunctionMemoryView,
};
use crate::resources::resource;
use crate::resources::resource::ResourceTable;
use crate::table::Table;
use crate::text::{owned, same_text};
use vstd::slice::{slice_subrange, slice_to_vec};

verus! {

/// A message to the store.
#[derive(Debug)]
pub enum BlobMessage {
    Put { bucket: String, key: Vec<u8>, value: Vec<u8> },
    Get { bucket: String, key: Vec<u8> },
    Delete { bucket: String, key: Vec<u8> },
}

/// That the store failed.
#[derive(Clone, Copy, Debug, PartialEq, Eq, Structural)]
pub struct BlobStorageError {}

/// Why a blob was not stored.
#[derive(Clone, Copy, Debug, PartialEq, Eq, Structural)]
pub enum BlobPutError {
    /// error in storage implementation
    StorageError,
}

/// Why a blob was not read.
#[derive(Clone, Copy, Debug, PartialEq, Eq, Structural)]
pub enum BlobGetError {
    /// bad request: failed to access memory
    BadRequestFailedToAccessMemory,
    /// bad request: argument out of bounds
    BadRequestArgumentOutOfBounds,
    /// bad request: argument failed to decode
    BadRequestArgumentFailedToDecode,
    /// binding does not exist
    BindingNotExists,
    /// error in storage implementation
    StorageError,
}

impl From<FunctionMemoryError> for BlobGetError {
    fn from(err: FunctionMemoryError) -> (out: Self) {
        match err {
            FunctionMemoryError::MemoryNotFound => BlobGetError::BadRequestFailedToAccessMemory,
            FunctionMemoryError::MemoryNotMemory => BlobGetError::BadRequestFailedToAccessMemory,
        }
    }
}

impl vstd::std_specs::convert::FromSpecImpl<FunctionMemoryError> for BlobGetError {
    open spec fn obeys_from_spec() -> bool {
        true
    }

    open spec fn from_spec(err: FunctionMemoryError) -> Self {
        BlobGetError::BadRequestFailedToAccessMemory
    }
}

impl From<FunctionMemoryAccessError> for BlobGetError {
    fn from(err: FunctionMemoryAccessError) -> (out: Self) {
        match err {
            FunctionMemoryAccessError::OutOfBounds => BlobGetError::BadRequestArgumentOutOfBounds,
        }
    }
}

impl vstd::std_specs::convert::FromSpecImpl<FunctionMemoryAccessError> for BlobGetError {
    open spec fn obeys_from_spec() -> bool {
        true
    }

    open spec fn from_spec(err: FunctionMemoryAccessError) -> Self {
        BlobGetError::BadRequestArgumentOutOfBounds
    }
}

impl From<FunctionMemoryGetStringError> for BlobGetError {
    fn from(err: FunctionMemoryGetStringError) -> (out: Self) {
        match err {
            FunctionMemoryGetStringError::OutOfBounds =>
                BlobGetError::BadRequestArgumentOutOfBounds,
            FunctionMemoryGetStringError::FailedToDecode =>
                BlobGetError::BadRequestArgumentFailedToDecode,
        }
    }
}

impl vstd::std_specs::convert::FromSpecImpl<FunctionMemoryGetStringError> for BlobGetError {
    open spec fn obeys_from_spec() -> bool {
        true
    }

    open spec fn from_spec(err: FunctionMemoryGetStringError) -> Self {
        match err {
            FunctionMemoryGetStringError::OutOfBounds =>
                BlobGetError::BadRequestArgumentOutOfBounds,
            FunctionMemoryGetStringError::FailedToDecode =>
                BlobGetError::BadRequestArgumentFailedToDecode,
        }
    }
}

/// Why a blob was not deleted.
#[derive(Clone, Copy, Debug, PartialEq, Eq, Structural)]
pub enum BlobDeleteError {
    /// failed to delete object because of unexpected error in blob storage implementation
    StorageError,
}

impl From<BlobStorageError> for BlobPutError {
    fn from(err: BlobStorageError) -> (out: Self) {
        BlobPutError::StorageError
    }
}

impl vstd::std_specs::convert::FromSpecImpl<BlobStorageError> for BlobPutError {
    open spec fn obeys_from_spec() -> bool {
        true
    }

    open spec fn from_spec(err: BlobStorageError) -> Self {
        BlobPutError::StorageError
    }
}

impl From<BlobStorageError> for BlobDeleteError {
    fn from(err: BlobStorageError) -> (out: Self) {
        BlobDeleteError::StorageError
    }
}

impl vstd::std_specs::convert::FromSpecImpl<BlobStorageError> for BlobDeleteError {
    open spec fn obeys_from_spec() -> bool {
        true
    }

    open spec fn from_spec(err: BlobStorageError) -> Self {
        BlobDeleteError::StorageError
    }
}

/// A request to the service that functions reach over HTTP.
#[derive(Debug)]
pub enum BlobRequest {
    Get { binding: String, key: Vec<u8> },
    Delete { binding: String, key: Vec<u8> },
}

/// What a path of the service stands for.
#[derive(Clone, Copy, Debug, PartialEq, Eq, Structural)]
pub enum BlobRoute {
    Get,
    Delete,
    /// Any other path, which is answered by [`crate::web::not_found`].
    NotFound,
}

/// What a path of the service stands for.
pub fn blob_route(path: &str) -> (route: BlobRoute)
    ensures
        route == (if path@ == "/get"@ {
            BlobRoute::Get
        } else if path@ == "/delete"@ {
            BlobRoute::Delete
        } else {
            BlobRoute::NotFound
        }),
{
    if same_text(path, "/get") {
        BlobRoute::Get
    } else if same_text(path, "/delete") {
        BlobRoute::Delete
    } else {
        BlobRoute::NotFound
    }
}

/// What a request of a function over HTTP becomes: a message to the store, or nothing more where
/// the binding of a read is unknown.
pub fn handle_blob_request(
    request: BlobRequest,
    bindings: &Table<String, BlobBindingConfig>,
) -> (message: Result<BlobMessage, BlobGetError>)
    requires
        bindings.wf(),
        request matches BlobRequest::Delete { binding, .. } ==> bindings@.dom().contains(binding@),
    ensures
        match request {
            BlobRequest::Get { binding, key } => if bindings@.dom().contains(binding@) {
                &&& message matches Ok(BlobMessage::Get { bucket, key: k })
                &&& bucket@ == bindings@[binding@].bucket@
                &&& k == key
            } else {
                message == Err::<BlobMessage, _>(BlobGetError::BindingNotExists)
            },
            BlobRequest::Delete { binding, key } => {
                &&& message matches Ok(BlobMessage::Delete { bucket, key: k })
                &&& bucket@ == bindings@[binding@].bucket@
                &&& k == key
            },
        },
{
    match request {
        BlobRequest::Get { binding, key } => match bindings.get(&binding) {
            None => Err(BlobGetError::BindingNotExists),
            Some(found) => Ok(BlobMessage::Get { bucket: found.bucket.clone(), key }),
        },
        BlobRequest::Delete { binding, key } => match bindings.get(&binding) {
            None => Err(BlobGetError::BindingNotExists),
            Some(found) => Ok(BlobMessage::Delete { bucket: found.bucket.clone(), key }),
        },
    }
}

/// What a read gives, from what the store answered.
pub fn blob_get_outcome(answer: Result<Option<Vec<u8>>, BlobStorageError>) -> (outcome: Result<
    Option<Vec<u8>>,
    BlobGetError,
>)
    ensures
        outcome == (match answer {
            Ok(value) => Ok::<Option<Vec<u8>>, BlobGetError>(value),
            Err(_) => Err(BlobGetError::StorageError),
        }),
{
    match answer {
        Ok(value) => Ok(value),
        Err(_) => Err(BlobGetError::StorageError),
    }
}

/// What a function is told about a blob that it asked for.
#[derive(Debug)]
pub enum BlobGetReply {
    NotFound,
    Value(Vec<u8>),
    BadRequestFailedToAccessMemory,
    BadRequestArgumentOutOfBounds,
    BadRequestArgumentFailedToDecode,
    BindingNotExists,
    StorageError,
}

/// What a function is told about a blob that it asked for.
pub open spec fn reply_of(outcome: Result<Option<Vec<u8>>, BlobGetError>) -> BlobGetReply {
    match outcome {
        Ok(None) => BlobGetReply::NotFound,
        Ok(Some(value)) => BlobGetReply::Value(value),
        Err(BlobGetError::BadRequestFailedToAccessMemory) =>
            BlobGetReply::BadRequestFailedToAccessMemory,
        Err(BlobGetError::BadRequestArgumentOutOfBounds) =>
            BlobGetReply::BadRequestArgumentOutOfBounds,
        Err(BlobGetError::BadRequestArgumentFailedToDecode) =>
            BlobGetReply::BadRequestArgumentFailedToDecode,
        Err(BlobGetError::BindingNotExists) => BlobGetReply::BindingNotExists,
        Err(BlobGetError::StorageError) => BlobGetReply::StorageError,
    }
}

/// What a function is told about a blob that it asked for.
pub fn blob_get_reply(outcome: Result<Option<Vec<u8>>, BlobGetError>) -> (reply: BlobGetReply)
    ensures
        reply == reply_of(outcome),
{
    match outcome {
        Ok(None) => BlobGetReply::NotFound,
        Ok(Some(value)) => BlobGetReply::Value(value),
        Err(BlobGetError::BadRequestFailedToAccessMemory) =>
            BlobGetReply::BadRequestFailedToAccessMemory,
        Err(BlobGetError::BadRequestArgumentOutOfBounds) =>
            BlobGetReply::BadRequestArgumentOutOfBounds,
        Err(BlobGetError::BadRequestArgumentFailedToDecode) =>
            BlobGetReply::BadRequestArgumentFailedToDecode,
        Err(BlobGetError::BindingNotExists) => BlobGetReply::BindingNotExists,
        Err(BlobGetError::StorageError) => BlobGetReply::StorageError,
    }
}

/// Takes the outcome of the reading of a blob, and says what the function is told; nothing where
/// there is no such outcome.
pub fn fx_blob_get_result_serialize(
    results: &mut ResourceTable<Result<Option<Vec<u8>>, BlobGetError>>,
    resource_id: u64,
) -> (reply: Option<BlobGetReply>)
    requires
        old(results).wf(),
    ensures
        final(results).wf(),
        final(results)@ == old(results)@.remove(resource::slot_key(resource_id)),
        if old(results)@.dom().contains(resource::slot_key(resource_id)) {
            reply == Some(reply_of(old(results)@[resource::slot_key(resource_id)]))
        } else {
            reply is None
        },
{
    match results.remove(resource_id) {
        None => None,
        Some(outcome) => Some(blob_get_reply(outcome)),
    }
}

/// Takes the outcome of the storing of a blob, which the function is told; nothing where there is
/// no such outcome.
pub fn fx_blob_put_result_serialize(
    results: &mut ResourceTable<Result<(), BlobPutError>>,
    resource_id: u64,
) -> (outcome: Option<Result<(), BlobPutError>>)
    requires
        old(results).wf(),
    ensures
        final(results).wf(),
        final(results)@ == old(results)@.remove(resource::slot_key(resource_id)),
        outcome == (if old(results)@.dom().contains(resource::slot_key(resource_id)) {
            Some(old(results)@[resource::slot_key(resource_id)])
        } else {
            None
        }),
{
    results.remove(resource_id)
}

/// Takes the outcome of the deletion of a blob, which the function is told; nothing where there
/// is no such outcome.
pub fn fx_blob_delete_result_serialize(
    results: &mut ResourceTable<Result<(), BlobDeleteError>>,
    resource_id: u64,
) -> (outcome: Option<Result<(), BlobDeleteError>>)
    requires
        old(results).wf(),
    ensures
        final(results).wf(),
        final(results)@ == old(results)@.remove(resource::slot_key(resource_id)),
        outcome == (if old(results)@.dom().contains(resource::slot_key(resource_id)) {
            Some(old(results)@[resource::slot_key(resource_id)])
        } else {
            None
        }),
{
    results.remove(resource_id)
}

/// A call of a function to read a blob. A message is sent, or the call has failed already.
pub fn fx_blob_get_handler(
    view: Result<&[u8], FunctionMemoryError>,
    bindings: &Table<String, BlobBindingConfig>,
    binding: (u64, u64),
    key: (u64, u64),
) -> (message: Result<BlobMessage, BlobGetError>)
    requires
        bindings.wf(),
    ensures
        match view {
            Err(_) => message == Err::<BlobMessage, _>(
                BlobGetError::BadRequestFailedToAccessMemory,
            ),
            Ok(view) => match memory::text_at(view@, binding.0, binding.1) {
                Err(FunctionMemoryGetStringError::OutOfBounds) => message == Err::<BlobMessage, _>(
                    BlobGetError::BadRequestArgumentOutOfBounds,
                ),
                Err(FunctionMemoryGetStringError::FailedToDecode) => message == Err::<
                    BlobMessage,
                    _,
                >(BlobGetError::BadRequestArgumentFailedToDecode),
                Ok(name) => if !memory::within(view@, key.0, key.1) {
                    message == Err::<BlobMessage, _>(BlobGetError::BadRequestArgumentOutOfBounds)
                } else if !bindings@.dom().contains(name) {
                    message == Err::<BlobMessage, _>(BlobGetError::BindingNotExists)
                } else {
                    &&& message matches Ok(BlobMessage::Get { bucket, key: k })
                    &&& bucket@ == bindings@[name].bucket@
                    &&& k@ == memory::bytes_at(view@, key.0, key.1)
                },
            },
        },
{
    let view = match view {
        Err(err) => return Err(BlobGetError::from(err)),
        Ok(view) => FunctionMemoryView { view },
    };
    let name = match view.str_ref(binding.0, binding.1) {
        Err(err) => return Err(BlobGetError::from(err)),
        Ok(name) => owned(name),
    };
    let key = match view.vec_clone(key.0, key.1) {
        Err(err) => return Err(BlobGetError::from(err)),
        Ok(key) => key,
    };
    match bindings.get(&name) {
        None => Err(BlobGetError::BindingNotExists),
        Some(found) => Ok(BlobMessage::Get { bucket: found.bucket.clone(), key }),
    }
}

/// Whether a call names, in the memory of the function, a blob binding that there is.
pub open spec fn names_bucket(
    view: Seq<u8>,
    bindings: Map<Seq<char>, BlobBindingConfig>,
    binding: (u64, u64),
) -> bool {
    memory::text_at(view, binding.0, binding.1) matches Ok(name) && bindings.dom().contains(name)
}

fn read_bucket(
    view: &[u8],
    bindings: &Table<String, BlobBindingConfig>,
    binding: (u64, u64),
) -> (bucket: String)
    requires
        bindings.wf(),
        names_bucket(view@, bindings@, binding),
    ensures
        bucket@ == bindings@[memory::text_at(view@, binding.0, binding.1)->Ok_0].bucket@,
{
    let name = (FunctionMemoryView { view }).str_ref(binding.0, binding.1).unwrap();
    bindings.get(&owned(name)).unwrap().bucket.clone()
}

/// A call of a function to store a blob.
pub fn fx_blob_put_handler(
    view: &[u8],
    bindings: &Table<String, BlobBindingConfig>,
    binding: (u64, u64),
    key: (u64, u64),
    value: (u64, u64),
) -> (message: BlobMessage)
    requires
        bindings.wf(),
        names_bucket(view@, bindings@, binding),
        memory::within(view@, key.0, key.1),
        memory::within(view@, value.0, value.1),
    ensures
        message matches BlobMessage::Put { bucket, key: k, value: v } && bucket@
            == bindings@[memory::text_at(view@, binding.0, binding.1)->Ok_0].bucket@ && k@
            == memory::bytes_at(view@, key.0, key.1) && v@ == memory::bytes_at(
            view@,
            value.0,
            value.1,
        ),
{
    let bucket = read_bucket(view, bindings, binding);
    let size: usize = view.len();
    let key = slice_to_vec(slice_subrange(view, key.0 as usize, (key.0 + key.1) as usize));
    let value = slice_to_vec(slice_subrange(view, value.0 as usize, (value.0 + value.1) as usize));
    BlobMessage::Put { bucket, key, value }
}

/// A call of a function to delete a blob.
pub fn fx_blob_delete_handler(
    view: &[u8],
    bindings: &Table<String, BlobBindingConfig>,
    binding: (u64, u64),
    key: (u64, u64),
) -> (message: BlobMessage)
    requires
        bindings.wf(),
        names_bucket(view@, bindings@, binding),
        memory::within(view@, key.0, key.1),
    ensures
        message matches BlobMessage::Delete { bucket, key: k } && bucket@
            == bindings@[memory::text_at(view@, binding.0, binding.1)->Ok_0].bucket@ && k@
            == memory::bytes_at(view@, key.0, key.1),
{
    let bucket = read_bucket(view, bindings, binding);
    let size: usize = view.len();
    let key = slice_to_vec(slice_subrange(view, key.0 as usize, (key.0 + key.1) as usize));
    BlobMessage::Delete { bucket, key }
}

/// Whether a call names, in the memory of the function, a binding of the given name.
pub open spec fn asks_for(view: Seq<u8>, binding: (u64, u64), name: Seq<char>) -> bool {
    binding.0 + binding.1 <= view.len() && crate::text::utf8_text(
        view.subrange(binding.0 as int, binding.0 + binding.1),
    ) == Some(name)
}

/// A blob is read from the bucket of the binding that the call names, under the key that it points to;
/// and the call is refused for what is wrong with it.
pub proof fn blobs_are_read_from_the_bound_bucket(
    view: &[u8],
    bindings: &Table<String, BlobBindingConfig>,
    binding: (u64, u64),
    key: (u64, u64),
    name: Seq<char>,
    message: Result<BlobMessage, BlobGetError>,
)
    requires
        asks_for(view@, binding, name),
        call_ensures(
            fx_blob_get_handler,
            (Ok::<_, FunctionMemoryError>(view), bindings, binding, key),
            message,
        ),
    ensures
        message is Ok <==> key.0 + key.1 <= view@.len() && bindings@.dom().contains(name),
        message is Ok ==> (message->Ok_0 matches BlobMessage::Get { bucket, key: sent } && bucket@
            == bindings@[name].bucket@ && sent@ == view@.subrange(key.0 as int, key.0 + key.1)),
        key.0 + key.1 > view@.len() ==> message == Err::<BlobMessage, _>(
            BlobGetError::BadRequestArgumentOutOfBounds,
        ),
        key.0 + key.1 <= view@.len() && !bindings@.dom().contains(name) ==> message == Err::<
            BlobMessage,
            _,
        >(BlobGetError::BindingNotExists),
{
}

/// A call whose binding cannot be read is refused: for lying outside of the memory, or for being no
/// text.
pub proof fn unreadable_bindings_are_told_apart(
    view: Result<&[u8], FunctionMemoryError>,
    bindings: &Table<String, BlobBindingConfig>,
    binding: (u64, u64),
    key: (u64, u64),
    message: Result<BlobMessage, BlobGetError>,
)
    requires
        call_ensures(fx_blob_get_handler, (view, bindings, binding, key), message),
    ensures
        view is Err <==> message == Err::<BlobMessage, _>(
            BlobGetError::BadRequestFailedToAccessMemory,
        ),
        view is Ok && binding.0 + binding.1 > view->Ok_0@.len() ==> message == Err::<BlobMessage, _>(
            BlobGetError::BadRequestArgumentOutOfBounds,
        ),
        view is Ok && binding.0 + binding.1 <= view->Ok_0@.len() ==> (message == Err::<
            BlobMessage,
            _,
        >(BlobGetError::BadRequestArgumentFailedToDecode) <==> crate::text::utf8_text(
            view->Ok_0@.subrange(binding.0 as int, binding.0 + binding.1),
        ) is None),
{
}

/// A blob is put into and deleted from the bucket of the binding that the call names, under the key
/// and with the value that it points to.
pub proof fn blobs_are_changed_in_the_bound_bucket(
    view: &[u8],
    bindings: &Table<String, BlobBindingConfig>,
    binding: (u64, u64),
    key: (u64, u64),
    value: (u64, u64),
    name: Seq<char>,
    put: BlobMessage,
    deleted: BlobMessage,
)
    requires
        asks_for(view@, binding, name),
        call_ensures(fx_blob_put_handler, (view, bindings, binding, key, value), put),
        call_ensures(fx_blob_delete_handler, (view, bindings, binding, key), deleted),
    ensures
        put matches BlobMessage::Put { bucket, key: sent, value: data } && bucket@
            == bindings@[name].bucket@ && sent@ == view@.subrange(key.0 as int, key.0 + key.1) && data@
            == view@.subrange(value.0 as int, value.0 + value.1),
        deleted matches BlobMessage::Delete { bucket, key: sent } && bucket@
            == bindings@[name].bucket@ && sent@ == view@.subrange(key.0 as int, key.0 + key.1),
{
}

/// A request goes to the bucket of the binding that it names, with its own key, and stays what it is.
pub proof fn requests_go_to_the_bound_bucket(
    request: BlobRequest,
    bindings: &Table<String, BlobBindingConfig>,
    message: Result<BlobMessage, BlobGetError>,
)
    requires
        call_ensures(handle_blob_request, (request, bindings), message),
    ensures
        request matches BlobRequest::Get { binding, key } ==> (message is Ok
            <==> bindings@.dom().contains(binding@)) && (message is Ok ==> (
        message->Ok_0 matches BlobMessage::Get { bucket, key: sent } && sent == key && bucket@
            == bindings@[binding@].bucket@)),
        request matches BlobRequest::Delete { binding, key } ==> (message
            matches Ok(BlobMessage::Delete { bucket, key: sent }) && sent == key && bucket@
            == bindings@[binding@].bucket@),
{
}

/// What the storage found is what the function is told: the value as it is, that there is none, or
/// that the storage failed.
pub proof fn stored_values_are_told(
    answer: Result<Option<Vec<u8>>, BlobStorageError>,
    outcome: Result<Option<Vec<u8>>, BlobGetError>,
    reply: BlobGetReply,
)
    requires
        call_ensures(blob_get_outcome, (answer,), outcome),
        call_ensures(blob_get_reply, (outcome,), reply),
    ensures
        answer matches Ok(Some(value)) ==> reply == BlobGetReply::Value(value),
        reply matches BlobGetReply::Value(value) ==> answer == Ok::<_, BlobStorageError>(Some(value)),
        answer matches Ok(None) <==> reply is NotFound,
        answer is Err <==> reply is StorageError,
{
}

/// A refusal is told as what it is.
pub proof fn refusals_are_told(err: BlobGetError, reply: BlobGetReply)
    requires
        call_ensures(blob_get_reply, (Err::<Option<Vec<u8>>, _>(err),), reply),
    ensures
        err is BadRequestFailedToAccessMemory <==> reply is BadRequestFailedToAccessMemory,
        err is BadRequestArgumentOutOfBounds <==> reply is BadRequestArgumentOutOfBounds,
        err is BadRequestArgumentFailedToDecode <==> reply is BadRequestArgumentFailedToDecode,
        err is BindingNotExists <==> reply is BindingNotExists,
        err is StorageError <==> reply is StorageError,
{
}

/// A result that is kept is told once, to the one who asks for its number, and the others stay kept.
pub proof fn kept_results_are_told_once(
    resource_id: u64,
    reply: Option<BlobGetReply>,
    value: Vec<u8>,
    other: u64,
)
    ensures
        forall|results: &mut ResourceTable<Result<Option<Vec<u8>>, BlobGetError>>| #[trigger]
            call_ensures(fx_blob_get_result_serialize, (results, resource_id), reply) ==> {
                let at = resource::slot_key(resource_id);
                &&& reply is Some <==> results@.dom().contains(at)
                &&& !final(results)@.dom().contains(at)
                &&& reply == Some(BlobGetReply::Value(value)) <==> results@.dom().contains(at)
                    && results@[at] == Ok::<Option<Vec<u8>>, BlobGetError>(Some(value))
                &&& other != at && results@.dom().contains(other) ==> final(results)@.dom().contains(
                other,
                ) && final(results)@[other] == results@[other]
            },
{
}

/// Each path has its own operation, and no other path has one.
pub proof fn blob_paths_have_their_operations(path: &str, route: BlobRoute)
    requires
        call_ensures(blob_route, (path,), route),
    ensures
        route is Get <==> path@ == "/get"@,
        route is Delete <==> path@ == "/delete"@,
{
    reveal_strlit("/get");
    reveal_strlit("/delete");
    assert("/get"@.len() != "/delete"@.len());
}

/// What came of putting and deleting is told as it was kept, once.
pub proof fn changes_are_told_once(
    resource_id: u64,
    put: Option<Result<(), BlobPutError>>,
    deleted: Option<Result<(), BlobDeleteError>>,
)
    ensures
        forall|results: &mut ResourceTable<Result<(), BlobPutError>>| #[trigger]
            call_ensures(fx_blob_put_result_serialize, (results, resource_id), put) ==> {
                let at = resource::slot_key(resource_id);
                &&& put is Some <==> results@.dom().contains(at)
                &&& put is Some ==> put->0 == results@[at]
                &&& !final(results)@.dom().contains(at)
            },
        forall|results: &mut ResourceTable<Result<(), BlobDeleteError>>| #[trigger]
            call_ensures(fx_blob_delete_result_serialize, (results, resource_id), deleted) ==> {
                let at = resource::slot_key(resource_id);
                &&& deleted is Some <==> results@.dom().contains(at)
                &&& deleted is Some ==> deleted->0 == results@[at]
                &&& !final(results)@.dom().contains(at)
            },
{
}

} // verus!
