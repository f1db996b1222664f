//! Turning a Python async generator into a Rust stream.
use vstd::prelude::*;

verus! {

/// What one attempt to fetch the generator's next item gave.
pub enum Fetched<T, E> {
    /// Calling `__anext__` (or scheduling its awaitable) failed.
    StartFailed(E),
    /// The generator yielded a value.
    Yielded(T),
    /// Awaiting the item raised an error other than `StopAsyncIteration`.
    Raised(E),
    /// Awaiting the item raised `StopAsyncIteration`: the generator is done.
    Exhausted,
}

/// What the stream does with a fetch.
pub enum StreamStep<T, E> {
    /// Pass this item on to the receiving side.
    Emit(Result<T, E>),
    /// End the stream.
    End,
}

/// The step taken on a fetch: every value and every error is passed on, in
/// order; only the generator's exhaustion ends the stream.
pub open spec fn stream_step<T, E>(f: Fetched<T, E>) -> StreamStep<T, E> {
    match f {
        Fetched::StartFailed(e) => StreamStep::Emit(Err(e)),
        Fetched::Yielded(v) => StreamStep::Emit(Ok(v)),
        Fetched::Raised(e) => StreamStep::Emit(Err(e)),
        Fetched::Exhausted => StreamStep::End,
    }
}

/// Decides what to do with one fetch.
pub fn next_step<T, E>(f: Fetched<T, E>) -> (s: StreamStep<T, E>)
    ensures
        s == stream_step(f),
{
    match f {
        Fetched::StartFailed(e) => StreamStep::Emit(Err(e)),
        Fetched::Yielded(v) => StreamStep::Emit(Ok(v)),
        Fetched::Raised(e) => StreamStep::Emit(Err(e)),
        Fetched::Exhausted => StreamStep::End,
    }
}

/// Whether fetching goes on after an item was offered: it stops once the
/// receiving side is gone.
pub fn keep_fetching(delivered: bool) -> (b: bool)
    ensures
        b == delivered,
{
    delivered
}

/// The items that reach a receiver that stays alive, for a run of fetches.
pub open spec fn stream_output<T, E>(fetches: Seq<Fetched<T, E>>) -> Seq<Result<T, E>>
    decreases fetches.len(),
{
    if fetches.len() == 0 {
        Seq::empty()
    } else {
        match stream_step(fetches[0]) {
            StreamStep::Emit(item) => seq![item] + stream_output(fetches.drop_first()),
            StreamStep::End => Seq::empty(),
        }
    }
}

/// The index of the first fetch that found the generator exhausted (or the
/// number of fetches when none did).
pub open spec fn end_index<T, E>(fetches: Seq<Fetched<T, E>>) -> nat
    decreases fetches.len(),
{
    if fetches.len() == 0 {
        0
    } else if fetches[0] is Exhausted {
        0
    } else {
        1 + end_index(fetches.drop_first())
    }
}

/// The item a fetch that did not end the stream stands for.
pub open spec fn fetched_item<T, E>(f: Fetched<T, E>) -> Result<T, E>
    recommends
        !(f is Exhausted),
{
    match f {
        Fetched::StartFailed(e) => Err(e),
        Fetched::Yielded(v) => Ok(v),
        Fetched::Raised(e) => Err(e),
        Fetched::Exhausted => arbitrary(),
    }
}

/// The stream hands on everything the generator produced, in the order it
/// was produced, up to the generator's end and nothing after it.
pub proof fn lemma_stream_forwards_in_order<T, E>(fetches: Seq<Fetched<T, E>>)
    ensures
        end_index(fetches) <= fetches.len(),
        stream_output(fetches).len() == end_index(fetches),
        forall|i: int|
            0 <= i < end_index(fetches) ==> #[trigger] stream_output(fetches)[i] == fetched_item(
                fetches[i],
            ),
    decreases fetches.len(),
{
    if fetches.len() > 0 && !(fetches[0] is Exhausted) {
        let rest = fetches.drop_first();
        lemma_stream_forwards_in_order(rest);
        assert forall|i: int| 0 <= i < end_index(fetches) implies #[trigger] stream_output(
            fetches,
        )[i] == fetched_item(fetches[i]) by {
            if i > 0 {
                assert(fetches[i] == rest[i - 1]);
                assert(stream_output(fetches)[i] == stream_output(rest)[i - 1]);
            }
        }
    }
}

/// The items a receiver actually takes when `accepted[i]` tells whether it
/// was still there to take the `i`-th offer: fetching stops at the first
/// offer that finds it gone.
pub open spec fn stream_delivered<T, E>(fetches: Seq<Fetched<T, E>>, accepted: Seq<bool>) -> Seq<
    Result<T, E>,
>
    decreases fetches.len(),
{
    if fetches.len() == 0 || accepted.len() == 0 {
        Seq::empty()
    } else {
        match stream_step(fetches[0]) {
            StreamStep::Emit(item) => if accepted[0] {
                seq![item] + stream_delivered(fetches.drop_first(), accepted.drop_first())
            } else {
                Seq::empty()
            },
            StreamStep::End => Seq::empty(),
        }
    }
}

/// A receiver that goes away only cuts the stream short: what it took is
/// the beginning of what a receiver that stays would take, never reordered,
/// duplicated or with gaps.
pub proof fn lemma_stream_cut_short_is_prefix<T, E>(
    fetches: Seq<Fetched<T, E>>,
    accepted: Seq<bool>,
)
    ensures
        stream_delivered(fetches, accepted).len() <= stream_output(fetches).len(),
        forall|i: int|
            0 <= i < stream_delivered(fetches, accepted).len() ==> #[trigger] stream_delivered(
                fetches,
                accepted,
            )[i] == stream_output(fetches)[i],
    decreases fetches.len(),
{
    if fetches.len() > 0 && accepted.len() > 0 {
        let rest = fetches.drop_first();
        let acc = accepted.drop_first();
        lemma_stream_cut_short_is_prefix(rest, acc);
        if accepted[0] && !(fetches[0] is Exhausted) {
            let d = stream_delivered(fetches, accepted);
            let o = stream_output(fetches);
            assert forall|i: int| 0 <= i < d.len() implies #[trigger] d[i] == o[i] by {
                if i > 0 {
                    assert(d[i] == stream_delivered(rest, acc)[i - 1]);
                    assert(o[i] == stream_output(rest)[i - 1]);
                }
            }
        }
    }
}

/// How many items the channel behind a generator converted with back-pressure
/// buffers before the generator is made to wait.
pub const STREAM_BUFFER: usize = 10;

/// The answer given to the Python side for an item it offers.
#[derive(PartialEq, Eq, Structural)]
pub enum SendReply {
    /// Taken at once: go on.
    Accepted,
    /// The channel is full: wait until there is room, then learn whether to go on.
    AwaitRoom,
    /// The receiving side is gone: stop.
    Refused,
}

/// The answer for an item, from whether the non-blocking send succeeded and,
/// when it did not, whether the channel was merely full.
pub fn send_reply(sent: bool, full: bool) -> (r: SendReply)
    ensures
        sent ==> r == SendReply::Accepted,
        !sent && full ==> r == SendReply::AwaitRoom,
        !sent && !full ==> r == SendReply::Refused,
        r == SendReply::Accepted <==> offer_lands(Offer::Accepted) && sent,
        r == SendReply::Refused ==> !offer_lands(Offer::Refused),
{
    if sent {
        SendReply::Accepted
    } else if full {
        SendReply::AwaitRoom
    } else {
        SendReply::Refused
    }
}

/// Whether the Python side goes on after waiting for room: only when both
/// making room and the send itself succeeded.
pub fn after_room(flushed: bool, sent: bool) -> (go_on: bool)
    ensures
        go_on == (flushed && sent),
        go_on == offer_lands(Offer::Waited { flushed, sent }),
{
    flushed && sent
}

/// How the offer of one item to a channel with back-pressure went.
pub enum Offer {
    /// Taken at once.
    Accepted,
    /// The channel was full: the Python side waited for room, then learned
    /// whether making room and sending succeeded.
    Waited { flushed: bool, sent: bool },
    /// The receiving side was gone.
    Refused,
}

/// Whether an offer put its item into the channel; the Python side goes on
/// with the next item exactly then (see [`send_reply`] and [`after_room`]).
pub open spec fn offer_lands(o: Offer) -> bool {
    match o {
        Offer::Accepted => true,
        Offer::Waited { flushed, sent } => flushed && sent,
        Offer::Refused => false,
    }
}

/// The items that end up in the channel, for the generator's `items` and the
/// way each offer went; the generator is left at the first offer that does
/// not land.
pub open spec fn channel_contents<T>(items: Seq<T>, offers: Seq<Offer>) -> Seq<T>
    decreases items.len(),
{
    if items.len() == 0 || offers.len() == 0 {
        Seq::empty()
    } else if offer_lands(offers[0]) {
        seq![items[0]] + channel_contents(items.drop_first(), offers.drop_first())
    } else {
        Seq::empty()
    }
}

/// With back-pressure the generator's items reach the channel in the order
/// they were produced and without gaps: what the channel holds is always the
/// beginning of what the generator yielded.
pub proof fn lemma_backpressure_keeps_order<T>(items: Seq<T>, offers: Seq<Offer>)
    ensures
        channel_contents(items, offers).len() <= items.len(),
        channel_contents(items, offers) =~= items.take(channel_contents(items, offers).len() as int),
    decreases items.len(),
{
    if items.len() > 0 && offers.len() > 0 && offer_lands(offers[0]) {
        lemma_backpressure_keeps_order(items.drop_first(), offers.drop_first());
        let c = channel_contents(items, offers);
        let r = channel_contents(items.drop_first(), offers.drop_first());
        assert forall|i: int| 0 <= i < c.len() implies #[trigger] c[i] == items[i] by {
            if i > 0 {
                assert(c[i] == r[i - 1]);
                assert(r[i - 1] == items.drop_first()[i - 1]);
            }
        }
    }
}

} // verus!
