//! Calls of a function to the key-value store.
use vstd::prelude::*;
use vstd::slice::{slice_subrange, slice_to_vec};

use crate::definitions::bindings::KvBindingConfig;
use crate::effects::kv::{
    KvDelexHandlerError, KvDelexRequest, KvGetHandlerError, KvMessage, KvOperation,
    KvPublishHandlerError, KvPublishRequest, KvSetRequest, KvSubscriptionHandlerError,
};
use crate::function::memory;
use crate::function::memory::{
    FunctionMemoryError, FunctionMemoryGetStringError, FunctionMemoryView,
};
use crate::poll::Poll;
use crate::resources::resource;
use crate::resources::resource::ResourceTable;
use crate::table::Table;
use crate::text;
use crate::text::{decode_text, owned};

verus! {

/// A call to the store to read a key. A message is sent, or the call has failed already.
pub fn fx_kv_get_handler(
    view: Result<&[u8], FunctionMemoryError>,
    bindings: &Table<String, KvBindingConfig>,
    binding_addr: u64,
    binding_len: u64,
    key_addr: u64,
    key_len: u64,
) -> (message: Result<KvMessage, KvGetHandlerError>)
    requires
        bindings.wf(),
    ensures
        match view {
            Err(_) => message == Err::<KvMessage, _>(KvGetHandlerError::FailedToReadRequest),
            Ok(view) => match memory::text_at(view@, binding_addr, binding_len) {
                Err(FunctionMemoryGetStringError::OutOfBounds) => message == Err::<KvMessage, _>(
                    KvGetHandlerError::FailedToReadRequest,
                ),
                Err(FunctionMemoryGetStringError::FailedToDecode) => message == Err::<
                    KvMessage,
                    _,
                >(KvGetHandlerError::BadRequest),
                Ok(name) => if !bindings@.dom().contains(name) {
                    message == Err::<KvMessage, _>(KvGetHandlerError::BindingNotFound)
                } else if !memory::within(view@, key_addr, key_len) {
                    message == Err::<KvMessage, _>(KvGetHandlerError::FailedToReadRequest)
                } else {
                    &&& message matches Ok(m)
                    &&& m.namespace@ == bindings@[name].namespace@
                    &&& m.operation matches KvOperation::Get { key }
                    &&& key@ == memory::bytes_at(view@, key_addr, key_len)
                },
            },
        },
{
    let view = match view {
        Err(_) => return Err(KvGetHandlerError::FailedToReadRequest),
        Ok(view) => FunctionMemoryView { view },
    };
    let namespace = match view.str_ref(binding_addr, binding_len) {
        Err(FunctionMemoryGetStringError::OutOfBounds) => return Err(
            KvGetHandlerError::FailedToReadRequest,
        ),
        Err(FunctionMemoryGetStringError::FailedToDecode) => return Err(
            KvGetHandlerError::BadRequest,
        ),
        Ok(name) => match bindings.get(&owned(name)) {
            None => return Err(KvGetHandlerError::BindingNotFound),
            Some(binding) => binding.namespace.clone(),
        },
    };
    match view.vec_clone(key_addr, key_len) {
        Err(_) => Err(KvGetHandlerError::FailedToReadRequest),
        Ok(key) => Ok(KvMessage { namespace, operation: KvOperation::Get { key } }),
    }
}

/// What a call to read a key gives: `answer` is nothing where the store was not reached or gave
/// no answer.
pub fn kv_get_outcome(answer: Option<Option<Vec<u8>>>) -> (outcome: Result<
    Vec<u8>,
    KvGetHandlerError,
>)
    ensures
        outcome == (match answer {
            None => Err::<Vec<u8>, _>(KvGetHandlerError::RuntimeShutdown),
            Some(None) => Err(KvGetHandlerError::KeyNotFound),
            Some(Some(value)) => Ok(value),
        }),
{
    match answer {
        None => Err(KvGetHandlerError::RuntimeShutdown),
        Some(None) => Err(KvGetHandlerError::KeyNotFound),
        Some(Some(value)) => Ok(value),
    }
}

/// Whether a call to set a key names a storage of the function, and the key and the value lie in
/// its memory.
pub open spec fn can_set(
    view: Seq<u8>,
    bindings: Map<Seq<char>, KvBindingConfig>,
    binding: (u64, u64),
    key: (u64, u64),
    value: (u64, u64),
) -> bool {
    &&& memory::text_at(view, binding.0, binding.1) matches Ok(name) && bindings.dom().contains(
        name,
    )
    &&& memory::within(view, key.0, key.1)
    &&& memory::within(view, value.0, value.1)
}

/// Whether a message asks a store to set a key, as a call of a function says it.
pub open spec fn sets(
    message: KvMessage,
    view: Seq<u8>,
    bindings: Map<Seq<char>, KvBindingConfig>,
    binding: (u64, u64),
    key: (u64, u64),
    value: (u64, u64),
    nx: bool,
    px_ms: Option<u64>,
) -> bool {
    &&& message.namespace@ == bindings[memory::text_at(
        view,
        binding.0,
        binding.1,
    )->Ok_0].namespace@
    &&& message.operation matches KvOperation::SetKey(request)
    &&& request.key@ == memory::bytes_at(view, key.0, key.1)
    &&& request.value@ == memory::bytes_at(view, value.0, value.1)
    &&& request.nx == nx
    &&& request.px_ms == px_ms
}

/// A call to the store to set a key, whatever its value, for good.
pub fn fx_kv_set_handler(
    view: &[u8],
    bindings: &Table<String, KvBindingConfig>,
    binding: (u64, u64),
    key: (u64, u64),
    value: (u64, u64),
) -> (message: KvMessage)
    requires
        bindings.wf(),
        can_set(view@, bindings@, binding, key, value),
    ensures
        sets(message, view@, bindings@, binding, key, value, false, None),
{
    fx_kv_set_nx_px_handler(view, bindings, binding, key, value, 0, 0)
}

/// A call to the store to set a key: only where it has no value, unless `nx` is zero, and for `px`
/// milliseconds where these are more than none.
pub fn fx_kv_set_nx_px_handler(
    view: &[u8],
    bindings: &Table<String, KvBindingConfig>,
    binding: (u64, u64),
    key: (u64, u64),
    value: (u64, u64),
    nx: u32,
    px: i64,
) -> (message: KvMessage)
    requires
        bindings.wf(),
        can_set(view@, bindings@, binding, key, value),
    ensures
        sets(
            message,
            view@,
            bindings@,
            binding,
            key,
            value,
            nx != 0,
            if px > 0 {
                Some(px as u64)
            } else {
                None
            },
        ),
{
    let memory = FunctionMemoryView { view };
    let name = owned(memory.str_ref(binding.0, binding.1).unwrap());
    let namespace = bindings.get(&name).unwrap().namespace.clone();
    let key = memory.vec_clone(key.0, key.1).unwrap();
    let value = memory.vec_clone(value.0, value.1).unwrap();
    let px_ms = if px > 0 {
        Some(px as u64)
    } else {
        None
    };
    let request = KvSetRequest::new(key, value).with_nx(nx != 0).with_px(px_ms);
    KvMessage { namespace, operation: KvOperation::SetKey(request) }
}

/// A call to the store to delete a key that still has a given value. A message is sent, or the
/// call has failed already.
pub fn fx_kv_delex_ifeq_handler(
    view: Result<&[u8], FunctionMemoryError>,
    bindings: &Table<String, KvBindingConfig>,
    binding: (u64, u64),
    key: (u64, u64),
    ifeq: (u64, u64),
) -> (message: Result<KvMessage, KvDelexHandlerError>)
    requires
        bindings.wf(),
    ensures
        match view {
            Err(_) => message == Err::<KvMessage, _>(KvDelexHandlerError::FailedToReadRequest),
            Ok(view) => match memory::text_at(view@, binding.0, binding.1) {
                Err(FunctionMemoryGetStringError::OutOfBounds) => message == Err::<KvMessage, _>(
                    KvDelexHandlerError::FailedToReadRequest,
                ),
                Err(FunctionMemoryGetStringError::FailedToDecode) => message == Err::<
                    KvMessage,
                    _,
                >(KvDelexHandlerError::BadRequest),
                Ok(name) => if !memory::within(view@, key.0, key.1) || !memory::within(
                    view@,
                    ifeq.0,
                    ifeq.1,
                ) {
                    message == Err::<KvMessage, _>(KvDelexHandlerError::FailedToReadRequest)
                } else if !bindings@.dom().contains(name) {
                    message == Err::<KvMessage, _>(KvDelexHandlerError::BindingNotFound)
                } else {
                    &&& message matches Ok(m)
                    &&& m.namespace@ == bindings@[name].namespace@
                    &&& m.operation matches KvOperation::Delex(request)
                    &&& request.key@ == memory::bytes_at(view@, key.0, key.1)
                    &&& request.ifeq@ == memory::bytes_at(view@, ifeq.0, ifeq.1)
                },
            },
        },
{
    let view = match view {
        Err(_) => return Err(KvDelexHandlerError::FailedToReadRequest),
        Ok(view) => FunctionMemoryView { view },
    };
    let name = match view.str_ref(binding.0, binding.1) {
        Err(FunctionMemoryGetStringError::OutOfBounds) => return Err(
            KvDelexHandlerError::FailedToReadRequest,
        ),
        Err(FunctionMemoryGetStringError::FailedToDecode) => return Err(
            KvDelexHandlerError::BadRequest,
        ),
        Ok(name) => owned(name),
    };
    let key = match view.vec_clone(key.0, key.1) {
        Err(_) => return Err(KvDelexHandlerError::FailedToReadRequest),
        Ok(key) => key,
    };
    let ifeq = match view.vec_clone(ifeq.0, ifeq.1) {
        Err(_) => return Err(KvDelexHandlerError::FailedToReadRequest),
        Ok(ifeq) => ifeq,
    };
    match bindings.get(&name) {
        None => Err(KvDelexHandlerError::BindingNotFound),
        Some(binding) => Ok(
            KvMessage {
                namespace: binding.namespace.clone(),
                operation: KvOperation::Delex(KvDelexRequest { key, ifeq }),
            },
        ),
    }
}

/// What a call to delete a key gives: `answered` says whether the store was reached and has
/// answered.
pub fn kv_delex_outcome(answered: bool) -> (outcome: Result<(), KvDelexHandlerError>)
    ensures
        outcome == (if answered {
            Ok::<(), KvDelexHandlerError>(())
        } else {
            Err(KvDelexHandlerError::RuntimeShutdown)
        }),
{
    if answered {
        Ok(())
    } else {
        Err(KvDelexHandlerError::RuntimeShutdown)
    }
}

/// What a function is told about a key that it wanted deleted.
#[derive(Clone, Copy, Debug, PartialEq, Eq, Structural)]
pub enum KvDelexReply {
    Done,
    ResourceNotFound,
    BadRequest,
    FailedToReadRequest,
    RuntimeShutdown,
    BindingNotFound,
}

/// Takes the outcome of a deletion, and says what the function is told.
pub fn fx_kv_delex_result_serialize(
    kv_delex_results: &mut ResourceTable<Result<(), KvDelexHandlerError>>,
    resource_id: u64,
) -> (reply: KvDelexReply)
    requires
        old(kv_delex_results).wf(),
    ensures
        final(kv_delex_results).wf(),
        final(kv_delex_results)@ == old(kv_delex_results)@.remove(resource::slot_key(resource_id)),
        if !old(kv_delex_results)@.dom().contains(resource::slot_key(resource_id)) {
            reply == KvDelexReply::ResourceNotFound
        } else {
            reply == (match old(kv_delex_results)@[resource::slot_key(resource_id)] {
                Ok(()) => KvDelexReply::Done,
                Err(KvDelexHandlerError::BadRequest) => KvDelexReply::BadRequest,
                Err(KvDelexHandlerError::FailedToReadRequest) => KvDelexReply::FailedToReadRequest,
                Err(KvDelexHandlerError::RuntimeShutdown) => KvDelexReply::RuntimeShutdown,
                Err(KvDelexHandlerError::BindingNotFound) => KvDelexReply::BindingNotFound,
            })
        },
{
    match kv_delex_results.remove(resource_id) {
        None => KvDelexReply::ResourceNotFound,
        Some(Ok(())) => KvDelexReply::Done,
        Some(Err(KvDelexHandlerError::BadRequest)) => KvDelexReply::BadRequest,
        Some(Err(KvDelexHandlerError::FailedToReadRequest)) => KvDelexReply::FailedToReadRequest,
        Some(Err(KvDelexHandlerError::RuntimeShutdown)) => KvDelexReply::RuntimeShutdown,
        Some(Err(KvDelexHandlerError::BindingNotFound)) => KvDelexReply::BindingNotFound,
    }
}

/// A call to the store to subscribe to a channel. A message is sent, or the call has failed
/// already.
pub fn fx_kv_subscribe_handler(
    view: Result<&[u8], FunctionMemoryError>,
    bindings: &Table<String, KvBindingConfig>,
    binding: (u64, u64),
    channel: (u64, u64),
) -> (message: Result<KvMessage, KvSubscriptionHandlerError>)
    requires
        bindings.wf(),
    ensures
        match view {
            Err(_) => message == Err::<KvMessage, _>(
                KvSubscriptionHandlerError::FailedToReadRequest,
            ),
            Ok(view) => match memory::text_at(view@, binding.0, binding.1) {
                Err(FunctionMemoryGetStringError::OutOfBounds) => message == Err::<KvMessage, _>(
                    KvSubscriptionHandlerError::FailedToReadRequest,
                ),
                Err(FunctionMemoryGetStringError::FailedToDecode) => message == Err::<
                    KvMessage,
                    _,
                >(KvSubscriptionHandlerError::BadRequest),
                Ok(name) => if !bindings@.dom().contains(name) {
                    message == Err::<KvMessage, _>(KvSubscriptionHandlerError::BindingNotFound)
                } else if !memory::within(view@, channel.0, channel.1) {
                    message == Err::<KvMessage, _>(KvSubscriptionHandlerError::FailedToReadRequest)
                } else {
                    &&& message matches Ok(m)
                    &&& m.namespace@ == bindings@[name].namespace@
                    &&& m.operation matches KvOperation::Subscribe { channel: bytes }
                    &&& bytes@ == memory::bytes_at(view@, channel.0, channel.1)
                },
            },
        },
{
    let view = match view {
        Err(_) => return Err(KvSubscriptionHandlerError::FailedToReadRequest),
        Ok(view) => FunctionMemoryView { view },
    };
    let namespace = match view.str_ref(binding.0, binding.1) {
        Err(FunctionMemoryGetStringError::OutOfBounds) => return Err(
            KvSubscriptionHandlerError::FailedToReadRequest,
        ),
        Err(FunctionMemoryGetStringError::FailedToDecode) => return Err(
            KvSubscriptionHandlerError::BadRequest,
        ),
        Ok(name) => match bindings.get(&owned(name)) {
            None => return Err(KvSubscriptionHandlerError::BindingNotFound),
            Some(binding) => binding.namespace.clone(),
        },
    };
    match view.vec_clone(channel.0, channel.1) {
        Err(_) => Err(KvSubscriptionHandlerError::FailedToReadRequest),
        Ok(channel) => Ok(KvMessage { namespace, operation: KvOperation::Subscribe { channel } }),
    }
}

/// What a function is told that asked a subscription for an item.
#[derive(Clone, Copy, Debug, PartialEq, Eq, Structural)]
pub struct KvSubscriptionStreamPollResult {
    pub tag: u64,
    pub resolved_resource_id: u64,
}

/// Says what a function is told that asked a subscription for an item: the item itself becomes a
/// resource. `item` is what the open subscription gave, or why there is none.
pub fn fx_kv_subscription_stream_poll_next(
    item: Result<Poll<Option<Vec<u8>>>, KvSubscriptionHandlerError>,
    bytes: &mut ResourceTable<Vec<u8>>,
) -> (told: KvSubscriptionStreamPollResult)
    requires
        old(bytes).wf(),
        item matches Ok(Poll::Ready(Some(_))) ==> old(bytes).has_room(),
    ensures
        final(bytes).wf(),
        match item {
            Ok(Poll::Ready(Some(value))) => told.tag == 1 && !old(bytes)@.dom().contains(
                told.resolved_resource_id,
            ) && resource::slot_key(told.resolved_resource_id) == told.resolved_resource_id && final(
                bytes
            )@ == old(bytes)@.insert(told.resolved_resource_id, value),
            Ok(Poll::Ready(None)) => told.tag == 0,
            Ok(Poll::Pending) => told.tag == 2,
            Err(KvSubscriptionHandlerError::RuntimeShutdown) => told.tag == 3,
            Err(KvSubscriptionHandlerError::BindingNotFound) => told.tag == 4,
            Err(KvSubscriptionHandlerError::BadRequest) => told.tag == 5,
            Err(KvSubscriptionHandlerError::FailedToReadRequest) => told.tag == 6,
        },
        told.tag != 1 ==> told.resolved_resource_id == 0 && *final(bytes) == *old(bytes),
{
    let tag: u64 = match item {
        Ok(Poll::Ready(Some(value))) => {
            let resolved_resource_id: u64 = bytes.insert(value);
            return KvSubscriptionStreamPollResult { tag: 1, resolved_resource_id };
        },
        Ok(Poll::Ready(None)) => 0,
        Ok(Poll::Pending) => 2,
        Err(KvSubscriptionHandlerError::RuntimeShutdown) => 3,
        Err(KvSubscriptionHandlerError::BindingNotFound) => 4,
        Err(KvSubscriptionHandlerError::BadRequest) => 5,
        Err(KvSubscriptionHandlerError::FailedToReadRequest) => 6,
    };
    KvSubscriptionStreamPollResult { tag, resolved_resource_id: 0 }
}

/// A call to the store to publish data to a channel. A message is sent, or the call has failed
/// already.
pub fn fx_kv_publish_handler(
    view: Option<&[u8]>,
    bindings: &Table<String, KvBindingConfig>,
    binding: (u64, u64),
    channel: (u64, u64),
    data: (u64, u64),
) -> (message: Result<KvMessage, KvPublishHandlerError>)
    requires
        bindings.wf(),
        view matches Some(view) ==> memory::within(view@, binding.0, binding.1),
        view matches Some(view) ==> (text::utf8_text(
            memory::bytes_at(view@, binding.0, binding.1),
        ) matches Some(name) ==> (bindings@.dom().contains(name) ==> memory::within(
            view@,
            channel.0,
            channel.1,
        ) && memory::within(view@, data.0, data.1))),
    ensures
        match view {
            None => message == Err::<KvMessage, _>(KvPublishHandlerError::FailedToReadRequest),
            Some(view) => match text::utf8_text(memory::bytes_at(view@, binding.0, binding.1)) {
                None => message == Err::<KvMessage, _>(KvPublishHandlerError::BadRequest),
                Some(name) => if !bindings@.dom().contains(name) {
                    message == Err::<KvMessage, _>(KvPublishHandlerError::BindingNotFound)
                } else {
                    &&& message matches Ok(m)
                    &&& m.namespace@ == bindings@[name].namespace@
                    &&& m.operation matches KvOperation::Publish(request)
                    &&& request.channel@ == memory::bytes_at(view@, channel.0, channel.1)
                    &&& request.data@ == memory::bytes_at(view@, data.0, data.1)
                },
            },
        },
{
    let view = match view {
        None => return Err(KvPublishHandlerError::FailedToReadRequest),
        Some(view) => view,
    };
    let size: usize = view.len();
    let name = match decode_text(
        slice_subrange(view, binding.0 as usize, (binding.0 + binding.1) as usize),
    ) {
        None => return Err(KvPublishHandlerError::BadRequest),
        Some(name) => owned(name),
    };
    match bindings.get(&name) {
        None => Err(KvPublishHandlerError::BindingNotFound),
        Some(found) => {
            let channel = slice_to_vec(
                slice_subrange(view, channel.0 as usize, (channel.0 + channel.1) as usize),
            );
            let data = slice_to_vec(
                slice_subrange(view, data.0 as usize, (data.0 + data.1) as usize),
            );
            Ok(
                KvMessage {
                    namespace: found.namespace.clone(),
                    operation: KvOperation::Publish(KvPublishRequest { channel, data }),
                },
            )
        },
    }
}

/// What a call to publish gives: `answered` says whether the store was reached and has answered.
pub fn kv_publish_outcome(answered: bool) -> (outcome: Result<(), KvPublishHandlerError>)
    ensures
        outcome == (if answered {
            Ok::<(), KvPublishHandlerError>(())
        } else {
            Err(KvPublishHandlerError::RuntimeShutdown)
        }),
{
    if answered {
        Ok(())
    } else {
        Err(KvPublishHandlerError::RuntimeShutdown)
    }
}

/// What a function is told about data that it published.
#[derive(Clone, Copy, Debug, PartialEq, Eq, Structural)]
pub enum KvPublishReply {
    Done,
    RuntimeShutdown,
    BindingNotFound,
    BadRequest,
    FailedToReadRequest,
}

/// Takes the outcome of a publication, and says what the function is told.
pub fn fx_kv_publish_result_serialize(
    kv_publish_results: &mut ResourceTable<Result<(), KvPublishHandlerError>>,
    resource_id: u64,
) -> (reply: KvPublishReply)
    requires
        old(kv_publish_results).wf(),
        old(kv_publish_results)@.dom().contains(resource::slot_key(resource_id)),
    ensures
        final(kv_publish_results).wf(),
        final(kv_publish_results)@ == old(kv_publish_results)@.remove(
            resource::slot_key(resource_id),
        ),
        reply == (match old(kv_publish_results)@[resource::slot_key(resource_id)] {
            Ok(()) => KvPublishReply::Done,
            Err(KvPublishHandlerError::RuntimeShutdown) => KvPublishReply::RuntimeShutdown,
            Err(KvPublishHandlerError::BindingNotFound) => KvPublishReply::BindingNotFound,
            Err(KvPublishHandlerError::BadRequest) => KvPublishReply::BadRequest,
            Err(KvPublishHandlerError::FailedToReadRequest) => KvPublishReply::FailedToReadRequest,
        }),
{
    match kv_publish_results.remove(resource_id).unwrap() {
        Ok(()) => KvPublishReply::Done,
        Err(KvPublishHandlerError::RuntimeShutdown) => KvPublishReply::RuntimeShutdown,
        Err(KvPublishHandlerError::BindingNotFound) => KvPublishReply::BindingNotFound,
        Err(KvPublishHandlerError::BadRequest) => KvPublishReply::BadRequest,
        Err(KvPublishHandlerError::FailedToReadRequest) => KvPublishReply::FailedToReadRequest,
    }
}

/// Whether a part lies in the memory of a function.
pub open spec fn lies_in(view: Seq<u8>, part: (u64, u64)) -> bool {
    part.0 + part.1 <= view.len()
}

/// The bytes that stand in a part of the memory of a function.
pub open spec fn stands_in(view: Seq<u8>, part: (u64, u64)) -> Seq<u8> {
    view.subrange(part.0 as int, part.0 + part.1)
}

/// Whether a call names, in the memory of the function, a binding of the given name.
pub open spec fn calls_for(view: Seq<u8>, binding: (u64, u64), name: Seq<char>) -> bool {
    lies_in(view, binding) && text::utf8_text(stands_in(view, binding)) == Some(name)
}

/// Whether a message goes to the namespace of the binding that a call names.
pub open spec fn goes_to(
    message: KvMessage,
    view: Seq<u8>,
    bindings: Map<Seq<char>, KvBindingConfig>,
    binding: (u64, u64),
) -> bool {
    exists|name: Seq<char>| #[trigger]
        calls_for(view, binding, name) && bindings.dom().contains(name) && message.namespace@
            == bindings[name].namespace@
}

/// A read goes to the namespace of the binding that the call names, for the key that it points to.
pub proof fn keys_are_read_in_the_bound_namespace(
    view: &[u8],
    bindings: &Table<String, KvBindingConfig>,
    binding: (u64, u64),
    key: (u64, u64),
    name: Seq<char>,
    message: Result<KvMessage, KvGetHandlerError>,
)
    requires
        call_ensures(
            fx_kv_get_handler,
            (Ok(view), bindings, binding.0, binding.1, key.0, key.1),
            message,
        ),
    ensures
        message matches Ok(message) ==> lies_in(view@, key)
            && goes_to(message, view@, bindings@, binding) && (
        message.operation matches KvOperation::Get { key: sent }
            && sent@ == stands_in(view@, key)),
        calls_for(view@, binding, name) && bindings@.dom().contains(name)
            && lies_in(view@, key) ==> message is Ok,
        calls_for(view@, binding, name) && !bindings@.dom().contains(name)
            && lies_in(view@, key) ==> message == Err::<KvMessage, _>(
            KvGetHandlerError::BindingNotFound,
        ),
        lies_in(view@, binding) && text::utf8_text(stands_in(view@, binding)) is None ==> message
            == Err::<KvMessage, _>(KvGetHandlerError::BadRequest),
{
    if let Ok(message) = message {
        assert(calls_for(view@, binding, text::utf8_text(stands_in(view@, binding))->0));
    }
}

/// A deletion goes to the namespace of the binding that the call names, for the key and the expected
/// value that it points to.
pub proof fn keys_are_deleted_in_the_bound_namespace(
    view: &[u8],
    bindings: &Table<String, KvBindingConfig>,
    binding: (u64, u64),
    key: (u64, u64),
    ifeq: (u64, u64),
    name: Seq<char>,
    message: Result<KvMessage, KvDelexHandlerError>,
)
    requires
        call_ensures(
            fx_kv_delex_ifeq_handler,
            (Ok(view), bindings, binding, key, ifeq),
            message,
        ),
    ensures
        message matches Ok(message) ==> lies_in(view@, key) && lies_in(view@, ifeq)
            && goes_to(message, view@, bindings@, binding) && (
        message.operation matches KvOperation::Delex(sent)
            && sent.key@ == stands_in(view@, key) && sent.ifeq@ == stands_in(view@, ifeq)),
        calls_for(view@, binding, name) && bindings@.dom().contains(name)
            && lies_in(view@, key) && lies_in(view@, ifeq) ==> message is Ok,
        calls_for(view@, binding, name) && !bindings@.dom().contains(name)
            && lies_in(view@, key) && lies_in(view@, ifeq) ==> message == Err::<KvMessage, _>(
            KvDelexHandlerError::BindingNotFound,
        ),
        lies_in(view@, binding) && text::utf8_text(stands_in(view@, binding)) is None ==> message
            == Err::<KvMessage, _>(KvDelexHandlerError::BadRequest),
{
    if let Ok(message) = message {
        assert(calls_for(view@, binding, text::utf8_text(stands_in(view@, binding))->0));
    }
}

/// A subscription goes to the namespace of the binding that the call names, for the channel that it
/// points to.
pub proof fn channels_are_read_in_the_bound_namespace(
    view: &[u8],
    bindings: &Table<String, KvBindingConfig>,
    binding: (u64, u64),
    channel: (u64, u64),
    name: Seq<char>,
    message: Result<KvMessage, KvSubscriptionHandlerError>,
)
    requires
        call_ensures(
            fx_kv_subscribe_handler,
            (Ok(view), bindings, binding, channel),
            message,
        ),
    ensures
        message matches Ok(message) ==> lies_in(view@, channel)
            && goes_to(message, view@, bindings@, binding) && (
        message.operation matches KvOperation::Subscribe { channel: sent }
            && sent@ == stands_in(view@, channel)),
        calls_for(view@, binding, name) && bindings@.dom().contains(name)
            && lies_in(view@, channel) ==> message is Ok,
        calls_for(view@, binding, name) && !bindings@.dom().contains(name)
            && lies_in(view@, channel) ==> message == Err::<KvMessage, _>(
            KvSubscriptionHandlerError::BindingNotFound,
        ),
        lies_in(view@, binding) && text::utf8_text(stands_in(view@, binding)) is None ==> message
            == Err::<KvMessage, _>(KvSubscriptionHandlerError::BadRequest),
{
    if let Ok(message) = message {
        assert(calls_for(view@, binding, text::utf8_text(stands_in(view@, binding))->0));
    }
}

/// Published data goes to the namespace of the binding that the call names, to the channel that it
/// points to.
pub proof fn data_is_published_in_the_bound_namespace(
    view: &[u8],
    bindings: &Table<String, KvBindingConfig>,
    binding: (u64, u64),
    channel: (u64, u64),
    data: (u64, u64),
    name: Seq<char>,
    message: Result<KvMessage, KvPublishHandlerError>,
)
    requires
        lies_in(view@, binding),
        lies_in(view@, channel),
        lies_in(view@, data),
        call_ensures(
            fx_kv_publish_handler,
            (Some(view), bindings, binding, channel, data),
            message,
        ),
    ensures
        message matches Ok(message) ==> lies_in(view@, channel) && lies_in(view@, data)
            && goes_to(message, view@, bindings@, binding) && (
        message.operation matches KvOperation::Publish(sent)
            && sent.channel@ == stands_in(view@, channel) && sent.data@ == stands_in(view@, data)),
        calls_for(view@, binding, name) && bindings@.dom().contains(name)
            && lies_in(view@, channel) && lies_in(view@, data) ==> message is Ok,
        calls_for(view@, binding, name) && !bindings@.dom().contains(name)
            && lies_in(view@, channel) && lies_in(view@, data) ==> message == Err::<KvMessage, _>(
            KvPublishHandlerError::BindingNotFound,
        ),
        lies_in(view@, binding) && text::utf8_text(stands_in(view@, binding)) is None ==> message
            == Err::<KvMessage, _>(KvPublishHandlerError::BadRequest),
{
    if let Ok(message) = message {
        assert(calls_for(view@, binding, text::utf8_text(stands_in(view@, binding))->0));
    }
}

/// A key is set in the namespace of the binding that the call names, to the value that the call
/// points to and not to another; only where it has none and for a time only where the call asks for
/// that.
pub proof fn keys_are_set_in_the_bound_namespace(
    view: &[u8],
    bindings: &Table<String, KvBindingConfig>,
    binding: (u64, u64),
    key: (u64, u64),
    value: (u64, u64),
    name: Seq<char>,
    nx: u32,
    px: i64,
    message: KvMessage,
)
    requires
        calls_for(view@, binding, name),
        call_ensures(
            fx_kv_set_nx_px_handler,
            (view, bindings, binding, key, value, nx, px),
            message,
        ) || (nx == 0 && px == 0 && call_ensures(
            fx_kv_set_handler,
            (view, bindings, binding, key, value),
            message,
        )),
    ensures
        message.namespace@ == bindings@[name].namespace@,
        message.operation matches KvOperation::SetKey(sent) && sent.key@ == stands_in(view@, key)
            && sent.value@ == stands_in(view@, value) && sent.nx == (nx != 0) && (px <= 0
            ==> sent.px_ms is None) && (px > 0 ==> (sent.px_ms matches Some(ms) && ms == px)),
{
}

/// A read is refused for what is wrong with it, the first of these: a name outside of the memory, a name
/// that is no text, a binding that is not there, and a key outside of the memory.
pub proof fn reads_tell_missing_bindings_first(
    view: Result<&[u8], FunctionMemoryError>,
    bindings: &Table<String, KvBindingConfig>,
    binding: (u64, u64),
    key: (u64, u64),
    message: Result<KvMessage, KvGetHandlerError>,
)
    requires
        call_ensures(
            fx_kv_get_handler,
            (view, bindings, binding.0, binding.1, key.0, key.1),
            message,
        ),
    ensures
        view is Err || !lies_in(view->Ok_0@, binding) ==> message == Err::<KvMessage, _>(
            KvGetHandlerError::FailedToReadRequest,
        ),
        view is Ok && lies_in(view->Ok_0@, binding) ==> {
            let name = text::utf8_text(stands_in(view->Ok_0@, binding));
            &&& (message matches Err(KvGetHandlerError::BadRequest)) <==> name is None
            &&& (message matches Err(KvGetHandlerError::BindingNotFound)) <==> name is Some
                && !bindings@.dom().contains(name->0)
            &&& (message matches Err(KvGetHandlerError::FailedToReadRequest)) <==> name is Some
                && bindings@.dom().contains(name->0) && !lies_in(view->Ok_0@, key)
        },
{
}

/// A subscription is refused for what is wrong with it, the first of these: a name outside of the
/// memory, a name that is no text, a binding that is not there, and a channel outside of the memory.
pub proof fn subscriptions_tell_missing_bindings_first(
    view: Result<&[u8], FunctionMemoryError>,
    bindings: &Table<String, KvBindingConfig>,
    binding: (u64, u64),
    channel: (u64, u64),
    message: Result<KvMessage, KvSubscriptionHandlerError>,
)
    requires
        call_ensures(
            fx_kv_subscribe_handler,
            (view, bindings, binding, channel),
            message,
        ),
    ensures
        view is Err || !lies_in(view->Ok_0@, binding) ==> message == Err::<KvMessage, _>(
            KvSubscriptionHandlerError::FailedToReadRequest,
        ),
        view is Ok && lies_in(view->Ok_0@, binding) ==> {
            let name = text::utf8_text(stands_in(view->Ok_0@, binding));
            &&& (message matches Err(KvSubscriptionHandlerError::BadRequest)) <==> name is None
            &&& (message matches Err(KvSubscriptionHandlerError::BindingNotFound)) <==> name is Some
                && !bindings@.dom().contains(name->0)
            &&& (message matches Err(KvSubscriptionHandlerError::FailedToReadRequest))
                <==> name is Some && bindings@.dom().contains(name->0) && !lies_in(
                view->Ok_0@,
                channel,
            )
        },
{
}

/// A deletion is refused for what is wrong with it, the first of these: a name outside of the memory, a
/// name that is no text, a key or a value outside of the memory, and a binding that is not there.
pub proof fn deletions_tell_missing_bindings_last(
    view: Result<&[u8], FunctionMemoryError>,
    bindings: &Table<String, KvBindingConfig>,
    binding: (u64, u64),
    key: (u64, u64),
    ifeq: (u64, u64),
    message: Result<KvMessage, KvDelexHandlerError>,
)
    requires
        call_ensures(
            fx_kv_delex_ifeq_handler,
            (view, bindings, binding, key, ifeq),
            message,
        ),
    ensures
        view is Err || !lies_in(view->Ok_0@, binding) ==> message == Err::<KvMessage, _>(
            KvDelexHandlerError::FailedToReadRequest,
        ),
        view is Ok && lies_in(view->Ok_0@, binding) ==> {
            let name = text::utf8_text(stands_in(view->Ok_0@, binding));
            let whole = lies_in(view->Ok_0@, key) && lies_in(view->Ok_0@, ifeq);
            &&& (message matches Err(KvDelexHandlerError::BadRequest)) <==> name is None
            &&& (message matches Err(KvDelexHandlerError::BindingNotFound)) <==> name is Some
                && whole && !bindings@.dom().contains(name->0)
            &&& (message matches Err(KvDelexHandlerError::FailedToReadRequest)) <==> name is Some
                && !whole
        },
{
}

/// What a store answered reaches the function that asked: a value as it is, a key without one as not
/// found, and no answer as a shutdown.
pub proof fn values_reach_the_function(
    answer: Option<Option<Vec<u8>>>,
    outcome: Result<Vec<u8>, KvGetHandlerError>,
)
    requires
        call_ensures(kv_get_outcome, (answer,), outcome),
    ensures
        outcome matches Ok(value) ==> answer == Some(Some(value)),
        answer matches Some(Some(value)) ==> outcome == Ok::<_, KvGetHandlerError>(value),
        answer matches Some(None) ==> outcome == Err::<Vec<u8>, _>(KvGetHandlerError::KeyNotFound),
        answer is None ==> outcome == Err::<Vec<u8>, _>(KvGetHandlerError::RuntimeShutdown),
{
}

/// An item of a subscription reaches the function as bytes that it can fetch under the number that it
/// is told; the end, an item that is still to come and each failure are told apart.
pub proof fn subscribed_items_reach_the_function(
    item: Result<Poll<Option<Vec<u8>>>, KvSubscriptionHandlerError>,
    told: KvSubscriptionStreamPollResult,
)
    ensures
        forall|bytes: &mut ResourceTable<Vec<u8>>| #[trigger]
            call_ensures(fx_kv_subscription_stream_poll_next, (item, bytes), told) ==> {
                &&& told.tag == 1 <==> (item matches Ok(Poll::Ready(Some(_))))
                &&& told.tag == 0 <==> (item matches Ok(Poll::Ready(None)))
                &&& told.tag == 2 <==> (item matches Ok(Poll::Pending))
                &&& told.tag == 3 <==> (item matches Err(KvSubscriptionHandlerError::RuntimeShutdown))
                &&& told.tag == 4 <==> (item matches Err(KvSubscriptionHandlerError::BindingNotFound))
                &&& told.tag == 5 <==> (item matches Err(KvSubscriptionHandlerError::BadRequest))
                &&& told.tag == 6 <==> (item matches Err(
                    KvSubscriptionHandlerError::FailedToReadRequest,
                ))
                &&& (item matches Ok(Poll::Ready(Some(value))) ==> final(bytes)@.dom().contains(
                    told.resolved_resource_id,
                ) && final(bytes)@[told.resolved_resource_id] == value && !bytes@.dom().contains(
                    told.resolved_resource_id,
                ))
                &&& forall|id: u64| #[trigger]
                    bytes@.dom().contains(id) ==> final(bytes)@.dom().contains(id) && final(bytes)@[id]
                        == bytes@[id]
            },
{
}

/// What came of a deletion and of a publication is told as what it was, to the one who asks for its
/// number; a deletion of which nothing is kept is told as such. What is told is no longer kept.
pub proof fn kept_outcomes_are_told(
    resource_id: u64,
    deleted: KvDelexReply,
    published: KvPublishReply,
    other: u64,
)
    ensures
        forall|results: &mut ResourceTable<Result<(), KvDelexHandlerError>>| #[trigger]
            call_ensures(fx_kv_delex_result_serialize, (results, resource_id), deleted) ==> {
                let at = resource::slot_key(resource_id);
                &&& deleted is ResourceNotFound <==> !results@.dom().contains(at)
                &&& results@.dom().contains(at) ==> {
                    &&& deleted is Done <==> results@[at] is Ok
                    &&& deleted is BadRequest <==> (results@[at] matches Err(
                        KvDelexHandlerError::BadRequest,
                    ))
                    &&& deleted is FailedToReadRequest <==> (results@[at] matches Err(
                        KvDelexHandlerError::FailedToReadRequest,
                    ))
                    &&& deleted is RuntimeShutdown <==> (results@[at] matches Err(
                        KvDelexHandlerError::RuntimeShutdown,
                    ))
                    &&& deleted is BindingNotFound <==> (results@[at] matches Err(
                        KvDelexHandlerError::BindingNotFound,
                    ))
                }
                &&& !final(results)@.dom().contains(at)
                &&& other != at && results@.dom().contains(other) ==> final(results)@.dom().contains(
                other,
                ) && final(results)@[other] == results@[other]
            },
        forall|results: &mut ResourceTable<Result<(), KvPublishHandlerError>>| #[trigger]
            call_ensures(fx_kv_publish_result_serialize, (results, resource_id), published) ==> {
                let at = resource::slot_key(resource_id);
                &&& published is Done <==> results@[at] is Ok
                &&& published is BadRequest <==> (results@[at] matches Err(
                    KvPublishHandlerError::BadRequest,
                ))
                &&& published is FailedToReadRequest <==> (results@[at] matches Err(
                    KvPublishHandlerError::FailedToReadRequest,
                ))
                &&& published is RuntimeShutdown <==> (results@[at] matches Err(
                    KvPublishHandlerError::RuntimeShutdown,
                ))
                &&& published is BindingNotFound <==> (results@[at] matches Err(
                    KvPublishHandlerError::BindingNotFound,
                ))
                &&& !final(results)@.dom().contains(at)
            },
{
}

/// A deletion and a publication succeeded exactly where they were answered; without an answer the host
/// has shut down.
pub proof fn unanswered_messages_are_told(
    answered: bool,
    deleted: Result<(), KvDelexHandlerError>,
    published: Result<(), KvPublishHandlerError>,
)
    requires
        call_ensures(kv_delex_outcome, (answered,), deleted),
        call_ensures(kv_publish_outcome, (answered,), published),
    ensures
        deleted is Ok <==> answered,
        published is Ok <==> answered,
        deleted is Err ==> deleted->Err_0 is RuntimeShutdown,
        published is Err ==> published->Err_0 is RuntimeShutdown,
{
}

} // verus!
