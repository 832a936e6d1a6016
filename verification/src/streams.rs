//! The streams that the host and the functions hand to each other. A stream leaves the pool when
//! it has ended, or when its owner takes it out.
use vstd::prelude::*;

use crate::function::id::FunctionId;
use crate::poll::Poll;
use crate::runtime::error::FxRuntimeError;
use crate::table::Table;
use crate::text::owned;

verus! {

/// The number of a stream in its pool.
#[derive(Clone, Copy, Debug, PartialEq, Eq, Structural)]
pub struct HostPoolIndex(pub u64);

/// A stream of the host, or one of a function.
pub enum FxStream<S> {
    HostStream(S),
    FunctionStream(FunctionId),
}

/// The streams by number, and the number of the next one.
pub struct StreamsPoolInner<S> {
    pub pool: Table<u64, FxStream<S>>,
    pub counter: u64,
}

/// What gives the next item of a stream.
pub enum StreamSource<'a> {
    /// There is no such stream.
    NotFound,
    /// The stream of the host itself.
    Host,
    /// A function, with the number of the stream.
    Function { function_id: &'a FunctionId, index: i64 },
}

/// What a poll of a stream gives.
pub type StreamPoll = Poll<Option<Result<Vec<u8>, FxRuntimeError>>>;

impl<S> StreamsPoolInner<S> {
    /// Every number was given before the next one.
    pub open spec fn wf(&self) -> bool {
        &&& self.pool.wf()
        &&& forall|i: u64| #[trigger] self.pool@.dom().contains(i) ==> i < self.counter
    }

    pub fn new() -> (pool: Self)
        ensures
            pool.wf(),
            pool.pool@ == Map::<u64, FxStream<S>>::empty(),
            pool.counter == 0,
    {
        StreamsPoolInner { pool: Table::new(), counter: 0 }
    }

    /// Puts a stream under a number that no other stream has had.
    pub fn push(&mut self, stream: FxStream<S>) -> (index: HostPoolIndex)
        requires
            old(self).wf(),
            old(self).counter < u64::MAX,
        ensures
            final(self).wf(),
            index.0 == old(self).counter,
            !old(self).pool@.dom().contains(index.0),
            final(self).pool@ == old(self).pool@.insert(index.0, stream),
            final(self).counter == old(self).counter + 1,
    {
        let counter: u64 = self.counter;
        self.counter = self.counter + 1;
        self.pool.insert(counter, stream);
        HostPoolIndex(counter)
    }

    /// What gives the next item of a stream.
    pub fn source(&self, index: &HostPoolIndex) -> (source: StreamSource<'_>)
        requires
            self.wf(),
        ensures
            match source {
                StreamSource::NotFound => !self.pool@.dom().contains(index.0),
                StreamSource::Host => self.pool@.dom().contains(index.0)
                    && self.pool@[index.0] is HostStream,
                StreamSource::Function { function_id, index: i } => self.pool@.dom().contains(
                    index.0,
                ) && self.pool@[index.0] == FxStream::<S>::FunctionStream(*function_id) && i
                    == index.0 as i64,
            },
    {
        match self.pool.get(&index.0) {
            None => StreamSource::NotFound,
            Some(FxStream::HostStream(_)) => StreamSource::Host,
            Some(FxStream::FunctionStream(function_id)) => StreamSource::Function {
                function_id,
                index: index.0 as i64,
            },
        }
    }

    /// What a poll gives, from what the source of the stream gave.
    pub fn poll_next(&self, index: &HostPoolIndex, polled: StreamPoll) -> (poll: StreamPoll)
        requires
            self.wf(),
        ensures
            poll == (if self.pool@.dom().contains(index.0) {
                polled
            } else {
                Poll::Ready(Some(Err(FxRuntimeError::StreamNotFound)))
            }),
    {
        if self.pool.contains_key(&index.0) {
            polled
        } else {
            Poll::Ready(Some(Err(FxRuntimeError::StreamNotFound)))
        }
    }

    pub fn remove(&mut self, index: &HostPoolIndex) -> (removed: Option<FxStream<S>>)
        requires
            old(self).wf(),
        ensures
            final(self).wf(),
            final(self).pool@ == old(self).pool@.remove(index.0),
            final(self).counter == old(self).counter,
            removed == (if old(self).pool@.dom().contains(index.0) {
                Some(old(self).pool@[index.0])
            } else {
                None
            }),
    {
        self.pool.remove(&index.0)
    }

    pub fn len(&self) -> (n: u64)
        ensures
            n == self.pool.entries@.len(),
    {
        self.pool.len() as u64
    }
}

/// A pool of streams, and whether a thread gave out while it held the pool.
pub struct StreamsPool<S> {
    pub inner: StreamsPoolInner<S>,
    pub poisoned: bool,
}

/// What is said of a pool that a thread gave out over.
pub const LOCK_POISONED: &'static str = "lock is poisoned: PoisonError { .. }";

fn lock_error() -> (err: FxRuntimeError)
    ensures
        is_lock_error(err),
{
    FxRuntimeError::StreamingError { reason: owned(LOCK_POISONED) }
}

/// Whether an error is the one of a pool that a thread gave out over.
pub open spec fn is_lock_error(err: FxRuntimeError) -> bool {
    err matches FxRuntimeError::StreamingError { reason } && reason@ == LOCK_POISONED@
}

/// A stream that was taken out of its pool to be read.
pub struct FxReadableStream<S> {
    pub index: i64,
    pub stream: FxStream<S>,
}

impl<S> StreamsPool<S> {
    pub open spec fn wf(&self) -> bool {
        self.inner.wf()
    }

    pub fn new() -> (pool: Self)
        ensures
            pool.wf(),
            !pool.poisoned,
            pool.inner.pool@ == Map::<u64, FxStream<S>>::empty(),
            pool.inner.counter == 0,
    {
        StreamsPool { inner: StreamsPoolInner::new(), poisoned: false }
    }

    /// Puts a stream of the host into the pool.
    pub fn push(&mut self, stream: S) -> (index: Result<HostPoolIndex, FxRuntimeError>)
        requires
            old(self).wf(),
            old(self).inner.counter < u64::MAX,
        ensures
            final(self).wf(),
            final(self).poisoned == old(self).poisoned,
            match index {
                Ok(i) => !old(self).poisoned && i.0 == old(self).inner.counter
                    && final(self).inner.pool@ == old(self).inner.pool@.insert(
                    i.0,
                    FxStream::HostStream(stream),
                ) && final(self).inner.counter == old(self).inner.counter + 1,
                Err(err) => old(self).poisoned && is_lock_error(err) && *final(self) == *old(self),
            },
    {
        if self.poisoned {
            return Err(lock_error());
        }
        Ok(self.inner.push(FxStream::HostStream(stream)))
    }

    /// Puts a stream of a function into the pool.
    pub fn push_function_stream(&mut self, function_id: FunctionId) -> (index: Result<
        HostPoolIndex,
        FxRuntimeError,
    >)
        requires
            old(self).wf(),
            old(self).inner.counter < u64::MAX,
        ensures
            final(self).wf(),
            final(self).poisoned == old(self).poisoned,
            match index {
                Ok(i) => !old(self).poisoned && i.0 == old(self).inner.counter
                    && final(self).inner.pool@ == old(self).inner.pool@.insert(
                    i.0,
                    FxStream::FunctionStream(function_id),
                ) && final(self).inner.counter == old(self).inner.counter + 1,
                Err(err) => old(self).poisoned && is_lock_error(err) && *final(self) == *old(self),
            },
    {
        if self.poisoned {
            return Err(lock_error());
        }
        Ok(self.inner.push(FxStream::FunctionStream(function_id)))
    }

    /// What a poll gives, from what the source of the stream gave. A stream that has ended leaves
    /// the pool.
    pub fn poll_next(&mut self, index: &HostPoolIndex, polled: StreamPoll) -> (poll: StreamPoll)
        requires
            old(self).wf(),
        ensures
            final(self).wf(),
            final(self).poisoned == old(self).poisoned,
            final(self).inner.counter == old(self).inner.counter,
            if old(self).poisoned {
                &&& poll matches Poll::Ready(Some(Err(err))) && is_lock_error(err)
                &&& *final(self) == *old(self)
            } else if !old(self).inner.pool@.dom().contains(index.0) {
                &&& poll == StreamPoll::Ready(Some(Err(FxRuntimeError::StreamNotFound)))
                &&& final(self).inner.pool@ == old(self).inner.pool@
            } else {
                &&& poll == polled
                &&& final(self).inner.pool@ == (if polled == StreamPoll::Ready(None) {
                    old(self).inner.pool@.remove(index.0)
                } else {
                    old(self).inner.pool@
                })
            },
    {
        if self.poisoned {
            return Poll::Ready(Some(Err(lock_error())));
        }
        match self.inner.poll_next(index, polled) {
            Poll::Pending => Poll::Pending,
            Poll::Ready(Some(item)) => Poll::Ready(Some(item)),
            Poll::Ready(None) => {
                let _removed = self.inner.remove(index);
                Poll::Ready(None)
            },
        }
    }

    pub fn remove(&mut self, index: &HostPoolIndex) -> (removed: Result<
        Option<FxStream<S>>,
        FxRuntimeError,
    >)
        requires
            old(self).wf(),
        ensures
            final(self).wf(),
            final(self).poisoned == old(self).poisoned,
            match removed {
                Ok(stream) => !old(self).poisoned && final(self).inner.pool@
                    == old(self).inner.pool@.remove(index.0) && final(self).inner.counter
                    == old(self).inner.counter && stream == (if old(self).inner.pool@.dom().contains(index.0) {
                    Some(old(self).inner.pool@[index.0])
                } else {
                    None
                }),
                Err(err) => old(self).poisoned && is_lock_error(err) && *final(self) == *old(self),
            },
    {
        if self.poisoned {
            return Err(lock_error());
        }
        Ok(self.inner.remove(index))
    }

    /// Takes a stream out of the pool to read it.
    pub fn read(&mut self, index: i64) -> (readable: Result<
        Option<FxReadableStream<S>>,
        FxRuntimeError,
    >)
        requires
            old(self).wf(),
        ensures
            final(self).wf(),
            final(self).poisoned == old(self).poisoned,
            final(self).inner.counter == old(self).inner.counter,
            match readable {
                Ok(Some(readable)) => !old(self).poisoned && old(self).inner.pool@.dom().contains(
                    index as u64,
                ) && readable.stream == old(self).inner.pool@[index as u64] && readable.index
                    == index && final(self).inner.pool@ == old(self).inner.pool@.remove(
                    index as u64,
                ),
                Ok(None) => !old(self).poisoned && !old(self).inner.pool@.dom().contains(
                    index as u64,
                ) && final(self).inner.pool@ == old(self).inner.pool@,
                Err(err) => old(self).poisoned && is_lock_error(err) && *final(self) == *old(self),
            },
    {
        let number: u64 = index as u64;
        match self.remove(&HostPoolIndex(number)) {
            Err(err) => Err(err),
            Ok(None) => {
                assert(self.inner.pool@ =~= old(self).inner.pool@);
                Ok(None)
            },
            Ok(Some(stream)) => Ok(Some(FxReadableStream { index, stream })),
        }
    }

    pub fn len(&self) -> (n: Result<u64, FxRuntimeError>)
        ensures
            match n {
                Ok(n) => !self.poisoned && n == self.inner.pool.entries@.len(),
                Err(err) => self.poisoned && is_lock_error(err),
            },
    {
        if self.poisoned {
            return Err(lock_error());
        }
        Ok(self.inner.len())
    }
}

impl<S> FxReadableStream<S> {
    /// The function that is to drop the stream when its reader is done, with the number of the
    /// stream there; a stream of the host needs nothing.
    pub fn dropped(&self) -> (drop: Option<(FunctionId, i64)>)
        ensures
            match drop {
                Some((function_id, index)) => self.stream matches FxStream::FunctionStream(f)
                    && function_id@ == f@ && index == self.index,
                None => self.stream is HostStream,
            },
    {
        match &self.stream {
            FxStream::HostStream(_) => None,
            FxStream::FunctionStream(function_id) => Some((function_id.clone(), self.index)),
        }
    }
}

/// To take a stream out again right after it was put in leaves the pool as it was.
pub proof fn taking_out_undoes_putting_in<S>(
    before: StreamsPoolInner<S>,
    index: u64,
    stream: FxStream<S>,
)
    requires
        before.wf(),
        index == before.counter,
    ensures
        before.pool@.insert(index, stream).remove(index) == before.pool@,
        before.pool@.insert(index, stream)[index] == stream,
{
    assert(!before.pool@.dom().contains(index));
    assert(before.pool@.insert(index, stream).remove(index) =~= before.pool@);
}

/// A stream that is put in is found under the number that was given for it, which no other stream has;
/// the others stay. Nothing is put in where the lock is broken.
pub proof fn streams_are_kept_under_their_numbers<S>(
    stream: S,
    index: Result<HostPoolIndex, FxRuntimeError>,
    function_id: FunctionId,
    number: Result<HostPoolIndex, FxRuntimeError>,
    other: u64,
)
    ensures
        forall|pool: &mut StreamsPool<S>| #[trigger]
            call_ensures(StreamsPool::<S>::push, (pool, stream), index) && pool.wf() ==> {
                &&& index is Ok <==> !pool.poisoned
                &&& index is Ok ==> !pool.inner.pool@.dom().contains(index->Ok_0.0)
                    && final(pool).inner.pool@.dom().contains(index->Ok_0.0)
                    && final(pool).inner.pool@[index->Ok_0.0] == FxStream::HostStream(stream)
                &&& pool.inner.pool@.dom().contains(other) ==> final(pool).inner.pool@.dom().contains(
                other,
                ) && final(pool).inner.pool@[other] == pool.inner.pool@[other]
            },
        forall|pool: &mut StreamsPool<S>| #[trigger]
            call_ensures(StreamsPool::<S>::push_function_stream, (pool, function_id), number)
                && pool.wf() ==> {
                &&& number is Ok <==> !pool.poisoned
                &&& number is Ok ==> !pool.inner.pool@.dom().contains(number->Ok_0.0)
                    && final(pool).inner.pool@.dom().contains(number->Ok_0.0)
                    && final(pool).inner.pool@[number->Ok_0.0] == FxStream::<S>::FunctionStream(
                    function_id,
                )
                &&& pool.inner.pool@.dom().contains(other) ==> final(pool).inner.pool@.dom().contains(
                other,
                ) && final(pool).inner.pool@[other] == pool.inner.pool@[other]
            },
{
}

/// Polling gives what the stream gave; a stream that has ended is no longer kept, one that goes on is,
/// and one that is not there is told as such.
pub proof fn ended_streams_are_let_go<S>(
    index: HostPoolIndex,
    polled: StreamPoll,
    poll: StreamPoll,
    other: u64,
)
    ensures
        forall|pool: &mut StreamsPool<S>| #[trigger]
            call_ensures(StreamsPool::<S>::poll_next, (pool, &index, polled), poll) ==> {
                &&& !pool.poisoned && pool.inner.pool@.dom().contains(index.0) ==> poll == polled
                    && (final(pool).inner.pool@.dom().contains(index.0) <==> polled
                    != StreamPoll::Ready(None))
                &&& !pool.poisoned && !pool.inner.pool@.dom().contains(index.0) ==> poll
                    == StreamPoll::Ready(Some(Err(FxRuntimeError::StreamNotFound)))
                &&& pool.poisoned ==> (poll matches Poll::Ready(Some(Err(
                    FxRuntimeError::StreamingError { reason },
                ))) && reason@ == "lock is poisoned: PoisonError { .. }"@)
                &&& other != index.0 && pool.inner.pool@.dom().contains(other) ==> final(
                    pool
                ).inner.pool@.dom().contains(other) && final(pool).inner.pool@[other]
                    == pool.inner.pool@[other]
            },
{
    assert(LOCK_POISONED@ == "lock is poisoned: PoisonError { .. }"@);
}

/// A stream that is taken out is the one that was kept under the number, and is no longer kept; the
/// others stay.
pub proof fn taken_streams_are_those_kept<S>(
    index: HostPoolIndex,
    removed: Result<Option<FxStream<S>>, FxRuntimeError>,
    at: i64,
    readable: Result<Option<FxReadableStream<S>>, FxRuntimeError>,
    other: u64,
)
    ensures
        forall|pool: &mut StreamsPool<S>| #[trigger]
            call_ensures(StreamsPool::<S>::remove, (pool, &index), removed) ==> {
                &&& removed is Ok <==> !pool.poisoned
                &&& removed is Ok ==> (removed->Ok_0 is Some <==> pool.inner.pool@.dom().contains(
                    index.0,
                )) && !final(pool).inner.pool@.dom().contains(index.0)
                &&& removed is Ok && removed->Ok_0 is Some ==> removed->Ok_0->0
                    == pool.inner.pool@[index.0]
                &&& other != index.0 && pool.inner.pool@.dom().contains(other) ==> final(
                    pool
                ).inner.pool@.dom().contains(other) && final(pool).inner.pool@[other]
                    == pool.inner.pool@[other]
            },
        forall|pool: &mut StreamsPool<S>| #[trigger]
            call_ensures(StreamsPool::<S>::read, (pool, at), readable) && at >= 0 ==> {
                &&& readable is Ok <==> !pool.poisoned
                &&& readable is Ok ==> (readable->Ok_0 is Some <==> pool.inner.pool@.dom().contains(
                    at as u64,
                )) && !final(pool).inner.pool@.dom().contains(at as u64)
                &&& readable is Ok && readable->Ok_0 is Some ==> readable->Ok_0->0.stream
                    == pool.inner.pool@[at as u64] && readable->Ok_0->0.index == at
                &&& other != at && pool.inner.pool@.dom().contains(other) ==> final(
                    pool
                ).inner.pool@.dom().contains(other) && final(pool).inner.pool@[other]
                    == pool.inner.pool@[other]
            },
{
}

/// Where a stream comes from is told as it is kept, and only a stream of a function that is given up is
/// to be dropped there, under its own number.
pub proof fn sources_of_streams_are_told<'a, S>(
    pool: &'a StreamsPoolInner<S>,
    index: HostPoolIndex,
    source: StreamSource<'a>,
    readable: FxReadableStream<S>,
    drop: Option<(FunctionId, i64)>,
)
    requires
        call_ensures(StreamsPoolInner::<S>::source, (pool, &index), source),
        call_ensures(FxReadableStream::<S>::dropped, (&readable,), drop),
    ensures
        source is NotFound <==> !pool.pool@.dom().contains(index.0),
        source is Host <==> pool.pool@.dom().contains(index.0) && pool.pool@[index.0] is HostStream,
        source matches StreamSource::Function { function_id, index: at } ==> pool.pool@[index.0]
            == FxStream::<S>::FunctionStream(*function_id) && at == index.0 as i64,
        drop is Some <==> readable.stream is FunctionStream,
        drop matches Some((function_id, at)) ==> (readable.stream matches FxStream::FunctionStream(
            of,
        ) && function_id@ == of@ && at == readable.index),
{
}

/// As many streams are counted as are kept, unless the lock is broken.
pub proof fn kept_streams_are_counted<S>(
    pool: StreamsPool<S>,
    n: Result<u64, FxRuntimeError>,
    inner: u64,
)
    requires
        call_ensures(StreamsPool::<S>::len, (&pool,), n),
        call_ensures(StreamsPoolInner::<S>::len, (&pool.inner,), inner),
    ensures
        n is Ok <==> !pool.poisoned,
        n is Ok ==> n->Ok_0 == pool.inner.pool.entries@.len(),
        inner == pool.inner.pool.entries@.len(),
{
}

} // verus!
