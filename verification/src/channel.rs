//! The channel over which a dynamic page talks to the browsers viewing it.
use hyper::body::{Body, Bytes};
use tokio::stream::StreamExt;
use tokio::sync::broadcast;
use vstd::prelude::*;

verus! {

/// Declares `tokio::sync::broadcast::Sender`, the sending half of a broadcast
/// channel, as an opaque type.
#[verifier::external_type_specification]
#[verifier::external_body]
#[verifier::reject_recursive_types(T)]
pub struct ExSender<T>(broadcast::Sender<T>);

/// Declares `tokio::sync::broadcast::SendError`, what `send` returns when
/// nobody is receiving, as an opaque type.
#[verifier::external_type_specification]
#[verifier::external_body]
#[verifier::reject_recursive_types(T)]
pub struct ExSendError<T>(broadcast::SendError<T>);

/// Declares `tokio::sync::broadcast::RecvError` with its two public variants,
/// `Closed` and `Lagged`.
#[verifier::external_type_specification]
pub struct ExRecvError(broadcast::RecvError);

/// Declares `hyper::body::Bytes`, a shared array of bytes, as an opaque type.
#[verifier::external_type_specification]
#[verifier::external_body]
pub struct ExBytes(Bytes);

/// Declares `hyper::body::Body`, the body of a response, as an opaque type.
#[verifier::external_type_specification]
#[verifier::external_body]
pub struct ExBody(Body);

/// The messages handed to a channel through its sending half, the oldest first.
///
/// This is a record for proofs. The channel itself keeps a message only until
/// its receivers have read it, or until a newer one pushes it out.
pub uninterp spec fn handed(sender: broadcast::Sender<Bytes>) -> Seq<Seq<char>>;

/// How many receivers each of the messages handed to a channel found there, the
/// oldest first.
///
/// This is a record for proofs of what the sends reported.
pub uninterp spec fn reported(sender: broadcast::Sender<Bytes>) -> Seq<nat>;

/// How many receivers a channel had each time that they were counted, the oldest
/// first.
///
/// This is a record for proofs of what the counts gave.
pub uninterp spec fn counted(sender: broadcast::Sender<Bytes>) -> Seq<nat>;

/// How many streams have been opened on a channel through its sending half.
///
/// This too is a record for proofs. The channel itself counts only the streams
/// that are still there, which are never more.
pub uninterp spec fn opened(sender: broadcast::Sender<Bytes>) -> nat;

/// How many messages a channel was made to buffer.
pub uninterp spec fn room(sender: broadcast::Sender<Bytes>) -> nat;

/// The messages that had been handed over before a stream was opened. The stream
/// delivers none of them.
pub uninterp spec fn missed(stream: Body) -> Seq<Seq<char>>;

/// The messages that a stream delivers, one after the other and without waiting,
/// when the given ones have been handed over since it was opened, and the first
/// so many of these are behind it: read, or lost.
pub uninterp spec fn delivered(stream: Body, later: Seq<Seq<char>>, passed: nat) -> Seq<Seq<char>>;

/// The newest messages that fit in a buffer, the oldest first.
pub open spec fn newest(messages: Seq<Seq<char>>, room: nat) -> Seq<Seq<char>> {
    if messages.len() <= room {
        messages
    } else {
        messages.skip(messages.len() - room)
    }
}

/// Opens a channel with `tokio::sync::broadcast::channel` and keeps its sending
/// half.
///
/// Nothing has been handed to a new channel, and no stream has been opened on it:
/// the receiving half that `channel` gives is dropped. `channel` rounds the
/// capacity up to a power of two, so there may be more room than asked for, but
/// less than twice as much. It panics on a capacity of zero, and on one whose
/// buffer cannot be allocated.
#[verifier::external_body]
fn open(capacity: usize) -> (sender: broadcast::Sender<Bytes>)
    requires
        0 < capacity <= 1024,
    ensures
        handed(sender) == Seq::<Seq<char>>::empty(),
        reported(sender) == Seq::<nat>::empty(),
        counted(sender) == Seq::<nat>::empty(),
        opened(sender) == 0,
        capacity <= room(sender) < 2 * capacity,
{
    broadcast::channel(capacity).0
}

/// Hands a message to a channel with `tokio::sync::broadcast::Sender::send`.
///
/// The message joins those handed over before. `Ok` gives the number of
/// receivers that the channel had, which is never zero, and never more than the
/// streams that were opened on it; `Err` says that it had none. The number joins
/// those that the sends before reported. What it is depends on who is connected.
#[verifier::external_body]
fn send(sender: &mut broadcast::Sender<Bytes>, message: String) -> (sent: Result<
    usize,
    broadcast::SendError<Bytes>,
>)
    ensures
        handed(*final(sender)) == handed(*old(sender)).push(message@),
        reported(*final(sender)) == reported(*old(sender)).push(
            match sent {
                Ok(receivers) => receivers as nat,
                Err(_) => 0,
            },
        ),
        counted(*final(sender)) == counted(*old(sender)),
        opened(*final(sender)) == opened(*old(sender)),
        room(*final(sender)) == room(*old(sender)),
        sent matches Ok(receivers) ==> 0 < receivers <= opened(*old(sender)),
{
    sender.send(message.into())
}

/// Counts the receivers of a channel with
/// `tokio::sync::broadcast::Sender::receiver_count`.
///
/// Each stream that was opened on the channel and is still there counts as one,
/// so there are never more than were opened. The number joins those that were
/// counted before. What it is depends on who is connected. Nothing happens to the
/// channel.
#[verifier::external_body]
fn receiver_count(sender: &mut broadcast::Sender<Bytes>) -> (receivers: usize)
    ensures
        receivers <= opened(*old(sender)),
        counted(*final(sender)) == counted(*old(sender)).push(receivers as nat),
        handed(*final(sender)) == handed(*old(sender)),
        reported(*final(sender)) == reported(*old(sender)),
        opened(*final(sender)) == opened(*old(sender)),
        room(*final(sender)) == room(*old(sender)),
{
    sender.receiver_count()
}

/// Opens a stream of what is handed to a channel from now on: a receiver, with
/// `tokio::sync::broadcast::Sender::subscribe`; without the items that [`keep`]
/// rejects, with `tokio::stream::StreamExt::filter`; and as the body of a
/// response, with `hyper::body::Body::wrap_stream`.
///
/// A new receiver starts behind the newest message, so what was handed over
/// before is what the stream misses. What a receiver has not read yet stays in
/// the buffer of the channel until newer messages push it out, and is read in the
/// order in which it was handed over. A receiver that lost messages gives notice
/// of it and goes on with those that are left; the notice is what `keep` rejects.
///
/// One more stream has been opened, and nothing is handed to the channel.
/// `subscribe` panics at a quarter of `usize::MAX` receivers, more than fit in
/// memory.
#[verifier::external_body]
fn subscribe(sender: &mut broadcast::Sender<Bytes>) -> (stream: Body)
    ensures
        missed(stream) == handed(*old(sender)),
        forall|later: Seq<Seq<char>>, passed: nat|
            passed <= later.len() ==> #[trigger] delivered(stream, later, passed) == newest(
                later.skip(passed as int),
                room(*old(sender)),
            ),
        handed(*final(sender)) == handed(*old(sender)),
        reported(*final(sender)) == reported(*old(sender)),
        counted(*final(sender)) == counted(*old(sender)),
        opened(*final(sender)) == opened(*old(sender)) + 1,
        room(*final(sender)) == room(*old(sender)),
{
    Body::wrap_stream(sender.subscribe().filter(|received| keep(received)))
}

/// Whether a stream of updates passes on what it has received.
///
/// The notice that the receiver lagged behind and lost messages is left out: as
/// an error it would end the stream, and the newest update still gets through.
pub fn keep(received: &Result<Bytes, broadcast::RecvError>) -> (kept: bool)
    ensures
        kept == !(received matches Err(broadcast::RecvError::Lagged(_))),
{
    match received {
        Err(broadcast::RecvError::Lagged(_)) => false,
        _ => true,
    }
}

/// The number of clients that a send has reached: none where it failed.
pub fn reached(sent: Result<usize, broadcast::SendError<Bytes>>) -> (clients: usize)
    ensures
        clients == (match sent {
            Ok(receivers) => receivers,
            Err(_) => 0,
        }),
{
    match sent {
        Ok(receivers) => receivers,
        Err(_) => 0,
    }
}

/// How many messages are buffered for a client before one is dropped. This is one,
/// because dropped updates are harmless: the newest message always gets through
/// once things quiesce.
pub const UPDATE_BUFFER_SIZE: usize = 1;

/// The channel to the clients of a page.
///
/// Its sending half is never cloned and never handed out, so that all that
/// happens on the channel happens here.
#[derive(Debug)]
pub struct Updates {
    sender: broadcast::Sender<Bytes>,
}

/// The channel to the clients of a page as values.
pub struct UpdatesView {
    /// The messages handed to the channel, the oldest first.
    pub told: Seq<Seq<char>>,
    /// How many clients there have been so far, gone or not.
    pub clients: nat,
}

impl View for Updates {
    type V = UpdatesView;

    closed spec fn view(&self) -> UpdatesView {
        UpdatesView { told: handed(self.sender), clients: opened(self.sender) }
    }
}

impl UpdatesView {
    /// A new channel.
    pub open spec fn new() -> UpdatesView {
        UpdatesView { told: Seq::empty(), clients: 0 }
    }

    /// The channel after one more message.
    pub open spec fn tell(self, message: Seq<char>) -> UpdatesView {
        UpdatesView { told: self.told.push(message), clients: self.clients }
    }

    /// The channel with one more client.
    pub open spec fn join(self) -> UpdatesView {
        UpdatesView { told: self.told, clients: self.clients + 1 }
    }
}

/// Whether a stream was opened on a channel in the given state, and delivers what
/// is handed to it from then on: in order, and of what a client has not read yet
/// the newest that there is room for.
pub open spec fn is_opened_on(stream: Body, updates: UpdatesView) -> bool {
    &&& missed(stream) == updates.told
    &&& forall|later: Seq<Seq<char>>, passed: nat|
        passed <= later.len() ==> #[trigger] delivered(stream, later, passed) == newest(
            later.skip(passed as int),
            UPDATE_BUFFER_SIZE as nat,
        )
}

impl Updates {
    /// Every channel buffers [`UPDATE_BUFFER_SIZE`] messages.
    #[verifier::type_invariant]
    spec fn has_room(self) -> bool {
        room(self.sender) == UPDATE_BUFFER_SIZE
    }

    /// How many clients each message reached, the oldest first: what the sends
    /// reported.
    pub closed spec fn reached(self) -> Seq<nat> {
        reported(self.sender)
    }

    /// How many clients there were each time that they were counted, the oldest
    /// first.
    pub closed spec fn counted(self) -> Seq<nat> {
        counted(self.sender)
    }

    /// What is seen of a channel is what its sending half has on record.
    proof fn law_channel_is_seen_as_it_is(updates: Updates)
        ensures
            updates@.told == handed(updates.sender),
            updates@.clients == opened(updates.sender),
            updates.reached() == reported(updates.sender),
            updates.counted() == counted(updates.sender),
    {
    }

    /// Opens a channel.
    pub(crate) fn open() -> (updates: Updates)
        ensures
            updates@ == UpdatesView::new(),
            updates.reached() == Seq::<nat>::empty(),
            updates.counted() == Seq::<nat>::empty(),
    {
        Updates { sender: open(UPDATE_BUFFER_SIZE) }
    }

    /// Takes the sending half out to work with it, and leaves that of a new channel
    /// in its place, so that every channel has its room at every moment.
    fn take(&mut self) -> (sender: broadcast::Sender<Bytes>)
        ensures
            sender == old(self).sender,
            room(sender) == UPDATE_BUFFER_SIZE,
    {
        proof {
            use_type_invariant(&*self);
        }
        let mut sender = open(UPDATE_BUFFER_SIZE);
        std::mem::swap(&mut sender, &mut self.sender);
        sender
    }

    /// Hands a message to the clients and returns how many it reached.
    pub(crate) fn tell(&mut self, message: String) -> (clients: usize)
        ensures
            final(self)@ == old(self)@.tell(message@),
            clients <= old(self)@.clients,
            final(self).reached() == old(self).reached().push(clients as nat),
            final(self).counted() == old(self).counted(),
    {
        let mut sender = self.take();
        let sent = send(&mut sender, message);
        self.sender = sender;
        reached(sent)
    }

    /// Counts the clients that are still there.
    pub(crate) fn receiver_count(&mut self) -> (receivers: usize)
        ensures
            final(self)@ == old(self)@,
            receivers <= old(self)@.clients,
            final(self).reached() == old(self).reached(),
            final(self).counted() == old(self).counted().push(receivers as nat),
    {
        let mut sender = self.take();
        let receivers = receiver_count(&mut sender);
        self.sender = sender;
        receivers
    }

    /// Opens a stream of what is handed to the clients from now on.
    pub(crate) fn subscribe(&mut self) -> (stream: Body)
        ensures
            is_opened_on(stream, old(self)@),
            final(self)@ == old(self)@.join(),
            final(self).reached() == old(self).reached(),
            final(self).counted() == old(self).counted(),
    {
        let mut sender = self.take();
        let stream = subscribe(&mut sender);
        self.sender = sender;
        stream
    }
}

/// A stream whose reader falls behind, wherever it is, loses the oldest messages
/// only, and does not end for it: it goes on with all that is still buffered, in
/// order, and no notice of the loss comes between.
pub proof fn law_lag_loses_the_oldest_only(
    stream: Body,
    channel: UpdatesView,
    later: Seq<Seq<char>>,
    passed: nat,
)
    requires
        is_opened_on(stream, channel),
        passed <= later.len(),
    ensures
        ({
            let unread = later.skip(passed as int);
            let got = delivered(stream, later, passed);
            &&& got.is_suffix_of(unread)
            &&& got.len() == if unread.len() <= UPDATE_BUFFER_SIZE {
                unread.len()
            } else {
                UPDATE_BUFFER_SIZE as nat
            }
        }),
{
    let unread = later.skip(passed as int);
    assert(newest(unread, UPDATE_BUFFER_SIZE as nat).is_suffix_of(unread));
}

} // verus!
