//! Blocking, pull-based consumption of a server stream.
//!
//! The caller owns the execution engine and the stream, and polls the stream
//! once per pull. `SyncStreamIterator` decides whether a pull polls at all and
//! what the consumer is handed for what the poll yielded.
//!
//! A non-success status ends the sequence: the pull that meets it returns the
//! error, and every later pull returns `None`.

use crate::error::TempoError;
use core::marker::PhantomData;
use tonic::Status;
use vstd::prelude::*;

verus! {

/// What the consumer is handed by a pull, given whether the sequence had
/// ended before and what the stream yielded: messages as they come, a
/// non-success status as an RPC error, and `None` at and after the end.
pub open spec fn deliver<T>(finished: bool, polled: Option<Result<T, Status>>) -> Option<
    Result<T, TempoError>,
> {
    if finished {
        None
    } else {
        match polled {
            Some(Ok(message)) => Some(Ok(message)),
            Some(Err(status)) => Some(Err(TempoError::Rpc(status))),
            None => None,
        }
    }
}

/// Whether the sequence has ended after a pull: it had ended before, or the
/// stream yielded its end or a non-success status.
pub open spec fn finishes<T>(finished: bool, polled: Option<Result<T, Status>>) -> bool {
    finished || !(polled matches Some(Ok(_)))
}

/// Whether the sequence has ended after one pull for each of `polls`, in
/// order.
pub open spec fn finished_after<T>(finished: bool, polls: Seq<Option<Result<T, Status>>>) -> bool
    decreases polls.len(),
{
    if polls.len() == 0 {
        finished
    } else {
        finishes(finished_after(finished, polls.drop_last()), polls.last())
    }
}

/// What the consumer is handed by one pull for each of `polls`, in order.
pub open spec fn delivered<T>(finished: bool, polls: Seq<Option<Result<T, Status>>>) -> Seq<
    Option<Result<T, TempoError>>,
>
    decreases polls.len(),
{
    if polls.len() == 0 {
        Seq::empty()
    } else {
        delivered(finished, polls.drop_last()).push(
            deliver(finished_after(finished, polls.drop_last()), polls.last()),
        )
    }
}

/// The state of a blocking consumer of one server stream.
pub struct SyncStreamIterator<T> {
    finished: bool,
    marker: PhantomData<T>,
}

impl<T> SyncStreamIterator<T> {
    /// Whether the sequence has ended.
    pub closed spec fn finished(&self) -> bool {
        self.finished
    }

    /// The state for a stream of which nothing has been pulled yet.
    pub fn new() -> (it: SyncStreamIterator<T>)
        ensures
            !it.finished(),
    {
        SyncStreamIterator { finished: false, marker: PhantomData }
    }

    /// Whether the sequence has ended. If so, a pull returns `None` without
    /// polling the stream.
    pub fn is_finished(&self) -> (finished: bool)
        ensures
            finished == self.finished(),
    {
        self.finished
    }

    /// One pull, given what polling the stream yielded. Hands on a message,
    /// turns a non-success status into an RPC error and ends the sequence
    /// there, and ends it at the stream's end. After the end the result is
    /// `None` whatever `polled` is.
    pub fn next(&mut self, polled: Option<Result<T, Status>>) -> (res: Option<
        Result<T, TempoError>,
    >)
        ensures
            res == deliver(old(self).finished(), polled),
            final(self).finished() == finishes(old(self).finished(), polled),
    {
        if self.finished {
            return None;
        }
        match polled {
            Some(Ok(message)) => Some(Ok(message)),
            Some(Err(status)) => {
                self.finished = true;
                Some(Err(TempoError::from(status)))
            },
            None => {
                self.finished = true;
                None
            },
        }
    }
}

/// The polls of a stream that yields `messages`, one after the other.
pub open spec fn polls_of<T>(messages: Seq<T>) -> Seq<Option<Result<T, Status>>> {
    Seq::new(messages.len(), |i: int| Some(Ok(messages[i])))
}

/// `messages` as the consumer is handed them, one per pull.
pub open spec fn handed_of<T>(messages: Seq<T>) -> Seq<Option<Result<T, TempoError>>> {
    Seq::new(messages.len(), |i: int| Some(Ok(messages[i])))
}

/// `n` pulls that each return `None`.
pub open spec fn silence<T>(n: nat) -> Seq<Option<Result<T, TempoError>>> {
    Seq::new(n, |i: int| None)
}

/// One pull is one step.
pub proof fn lemma_single_pull<T>(finished: bool, polled: Option<Result<T, Status>>)
    ensures
        finished_after(finished, seq![polled]) == finishes(finished, polled),
        delivered(finished, seq![polled]) == seq![deliver(finished, polled)],
{
    reveal_with_fuel(finished_after, 2);
    reveal_with_fuel(delivered, 2);
    assert(seq![polled].drop_last() =~= Seq::empty());
    assert(delivered(finished, seq![polled]) =~= seq![deliver(finished, polled)]);
}

/// Pulling for `first + then` is pulling for `first` and going on with `then`.
pub proof fn lemma_pulls_compose<T>(
    finished: bool,
    first: Seq<Option<Result<T, Status>>>,
    then: Seq<Option<Result<T, Status>>>,
)
    ensures
        finished_after(finished, first + then) == finished_after(
            finished_after(finished, first),
            then,
        ),
        delivered(finished, first + then) == delivered(finished, first) + delivered(
            finished_after(finished, first),
            then,
        ),
    decreases then.len(),
{
    if then.len() == 0 {
        assert(first + then =~= first);
        assert(delivered(finished, first) + delivered(finished_after(finished, first), then)
            =~= delivered(finished, first));
    } else {
        lemma_pulls_compose(finished, first, then.drop_last());
        assert((first + then).drop_last() =~= first + then.drop_last());
        assert((first + then).last() == then.last());
        assert(delivered(finished, first + then) =~= delivered(finished, first) + delivered(
            finished_after(finished, first),
            then,
        ));
    }
}

/// Once the sequence has ended it stays ended, and every pull returns
/// `None`, whatever the stream would yield.
pub proof fn lemma_end_is_final<T>(polls: Seq<Option<Result<T, Status>>>)
    ensures
        finished_after(true, polls),
        delivered(true, polls) == silence::<T>(polls.len()),
    decreases polls.len(),
{
    if polls.len() > 0 {
        lemma_end_is_final(polls.drop_last());
    }
    assert(delivered(true, polls) =~= silence::<T>(polls.len()));
}

/// While the stream yields messages, the consumer is handed exactly those
/// messages, in the order in which they came, and the sequence stays open.
pub proof fn lemma_messages_pass_in_order<T>(messages: Seq<T>)
    ensures
        !finished_after(false, polls_of(messages)),
        delivered(false, polls_of(messages)) == handed_of(messages),
    decreases messages.len(),
{
    if messages.len() > 0 {
        lemma_messages_pass_in_order(messages.drop_last());
        assert(polls_of(messages).drop_last() =~= polls_of(messages.drop_last()));
    }
    assert(delivered(false, polls_of(messages)) =~= handed_of(messages));
}

/// A stream that yields `messages` and then ends: the pulls return the
/// messages in order, then `None`, and `None` for every pull after that.
pub proof fn lemma_stream_to_end<T>(messages: Seq<T>, later: Seq<Option<Result<T, Status>>>)
    ensures
        delivered(false, polls_of(messages) + seq![None] + later) == handed_of(messages)
            + seq![None] + silence::<T>(later.len()),
        finished_after(false, polls_of(messages) + seq![None] + later),
{
    let end = seq![None::<Result<T, Status>>];
    lemma_messages_pass_in_order(messages);
    lemma_pulls_compose(false, polls_of(messages), end);
    lemma_pulls_compose(false, polls_of(messages) + end, later);
    lemma_single_pull(false, None::<Result<T, Status>>);
    lemma_end_is_final(later);
}

/// A stream that yields `messages` and then closes with a non-success
/// status: the pulls return the messages in order, then the status as an RPC
/// error, and `None` for every pull after that.
pub proof fn lemma_stream_to_error<T>(
    messages: Seq<T>,
    status: Status,
    later: Seq<Option<Result<T, Status>>>,
)
    ensures
        delivered(false, polls_of(messages) + seq![Some(Err(status))] + later) == handed_of(
            messages,
        ) + seq![Some(Err(TempoError::Rpc(status)))] + silence::<T>(later.len()),
        finished_after(false, polls_of(messages) + seq![Some(Err(status))] + later),
{
    let failure = seq![Some(Err::<T, Status>(status))];
    lemma_messages_pass_in_order(messages);
    lemma_pulls_compose(false, polls_of(messages), failure);
    lemma_pulls_compose(false, polls_of(messages) + failure, later);
    lemma_single_pull(false, Some(Err::<T, Status>(status)));
    lemma_end_is_final(later);
}

} // verus!
