//! A typed channel: a sender that turns typed messages into generic ones, and
//! a receiver that turns the generic messages of a connection back into typed
//! ones. The connection itself belongs to the caller, who pulls from it and
//! pushes to it; the channel decides what is pushed and what a pull yields.

use std::sync::Arc;
use vstd::prelude::*;

verus! {

/// The sending half: a sink that the caller drives, and the function that
/// makes a generic message of a typed one.
pub struct ApiChannelSender<Sink, Convert> {
    pub sink: Sink,
    pub convert_typed_message_fn: Convert,
}

/// A sink that waits for its conversion function.
pub struct ApiChannelSenderBuilder<Sink> {
    pub sink: Sink,
}

impl<Sink> ApiChannelSender<Sink, ()> {
    /// Starts a sender over `sink`.
    pub fn with_sink(sink: Sink) -> (builder: ApiChannelSenderBuilder<Sink>)
        ensures
            builder.sink == sink,
    {
        ApiChannelSenderBuilder { sink }
    }
}

impl<Sink> ApiChannelSenderBuilder<Sink> {
    /// Completes the sender with the function that makes generic messages.
    pub fn and_convert_typed_message_fn<Convert>(self, convert: Convert) -> (sender:
        ApiChannelSender<Sink, Convert>)
        ensures
            sender.sink == self.sink,
            sender.convert_typed_message_fn == convert,
    {
        ApiChannelSender { sink: self.sink, convert_typed_message_fn: convert }
    }
}

impl<Sink, Convert> ApiChannelSender<Sink, Convert> {
    /// Makes the generic message that stands for `message`. On `Ok` the
    /// caller forwards it to the sink; on `Err` nothing is to be sent, and
    /// the send has failed.
    pub fn prepare<Typed, Generic, Error>(&self, message: Typed) -> (outcome: Result<
        Generic,
        Error,
    >) where Convert: Fn(Typed) -> Result<Generic, Error>
        requires
            call_requires(self.convert_typed_message_fn, (message,)),
        ensures
            call_ensures(self.convert_typed_message_fn, (message,), outcome),
    {
        (self.convert_typed_message_fn)(message)
    }
}

/// Why a send failed.
#[derive(Debug)]
pub enum SendError<ConvertError, SinkError> {
    /// The typed message could not be made into a generic one; nothing was
    /// forwarded.
    Convert(ConvertError),
    /// The sink refused the generic message.
    Sink(SinkError),
}

impl<Sink, Convert> ApiChannelSender<Sink, Convert> {
    /// Sends `message`: makes the generic message and hands it to `forward`,
    /// which stands for the sink. The send fails where the conversion fails,
    /// and then `forward` is not called, or where `forward` fails.
    pub fn send<Typed, Generic, ConvertError, SinkError, Forward>(
        &self,
        message: Typed,
        forward: Forward,
    ) -> (outcome: Result<(), SendError<ConvertError, SinkError>>) where
        Convert: Fn(Typed) -> Result<Generic, ConvertError>,
        Forward: FnOnce(Generic) -> Result<(), SinkError>,

        requires
            call_requires(self.convert_typed_message_fn, (message,)),
            forall|generic: Generic| call_requires(forward, (generic,)),
        ensures
            match outcome {
                Ok(()) => exists|generic: Generic|
                    {
                        &&& call_ensures(self.convert_typed_message_fn, (message,), Ok(generic))
                        &&& call_ensures(forward, (generic,), Ok(()))
                    },
                Err(SendError::Convert(error)) => call_ensures(
                    self.convert_typed_message_fn,
                    (message,),
                    Err(error),
                ),
                Err(SendError::Sink(error)) => exists|generic: Generic|
                    {
                        &&& call_ensures(self.convert_typed_message_fn, (message,), Ok(generic))
                        &&& call_ensures(forward, (generic,), Err(error))
                    },
            },
    {
        match self.prepare(message) {
            Ok(generic) => {
                let ghost sent = generic;
                let forwarded = forward(generic);
                assert(call_ensures(self.convert_typed_message_fn, (message,), Ok(sent)));
                assert(call_ensures(forward, (sent,), forwarded));
                match forwarded {
                    Ok(done) => {
                        assert(call_ensures(forward, (sent,), Ok(())));
                        Ok(done)
                    },
                    Err(error) => Err(SendError::Sink(error)),
                }
            },
            Err(error) => Err(SendError::Convert(error)),
        }
    }
}

/// The receiving half: a stream that the caller drives, the function that
/// makes a typed message of a generic one, and whether the sequence of
/// messages has ended.
pub struct ApiChannelReceiver<Stream, Convert> {
    pub stream: Stream,
    pub convert_generic_message_fn: Convert,
    open: bool,
}

/// A stream that waits for its conversion function.
pub struct ApiChannelReceiverBuilder<Stream> {
    pub stream: Stream,
}

impl<Stream> ApiChannelReceiver<Stream, ()> {
    /// Starts a receiver over `stream`.
    pub fn with_stream(stream: Stream) -> (builder: ApiChannelReceiverBuilder<Stream>)
        ensures
            builder.stream == stream,
    {
        ApiChannelReceiverBuilder { stream }
    }
}

impl<Stream> ApiChannelReceiverBuilder<Stream> {
    /// Completes the receiver with the function that makes typed messages.
    /// The receiver starts open.
    pub fn and_convert_generic_message_fn<Convert>(self, convert: Convert) -> (receiver:
        ApiChannelReceiver<Stream, Convert>)
        ensures
            receiver.spec_stream() == self.stream,
            receiver.spec_convert() == convert,
            receiver.is_open(),
    {
        ApiChannelReceiver { stream: self.stream, convert_generic_message_fn: convert, open: true }
    }
}

/// What a pull yields: nothing once the sequence has ended or where the
/// connection ends or fails at this pull; else the conversion of the generic
/// message that came, be it a typed message or a failure.
pub open spec fn yields<Generic, Typed, Error, Fault, Convert>(
    convert: Convert,
    open: bool,
    pulled: Option<Result<Generic, Fault>>,
    item: Option<Result<Typed, Error>>,
) -> bool where Convert: Fn(Generic) -> Result<Typed, Error> {
    match pulled {
        Some(Ok(generic)) if open => item matches Some(converted) && call_ensures(
            convert,
            (generic,),
            converted,
        ),
        _ => item is None,
    }
}

/// The sequence goes on after a pull only if it had not ended and a generic
/// message came, whether or not it could be converted.
pub open spec fn stays_open<Generic, Fault>(
    open: bool,
    pulled: Option<Result<Generic, Fault>>,
) -> bool {
    open && pulled matches Some(Ok(_))
}

impl<Stream, Convert> ApiChannelReceiver<Stream, Convert> {
    /// The sequence has not ended.
    pub closed spec fn is_open(&self) -> bool {
        self.open
    }

    /// The stream that the caller pulls from.
    pub closed spec fn spec_stream(&self) -> Stream {
        self.stream
    }

    /// The function that converts what was pulled.
    pub closed spec fn spec_convert(&self) -> Convert {
        self.convert_generic_message_fn
    }

    /// Tells whether the sequence has not ended.
    #[verifier::when_used_as_spec(is_open)]
    pub fn open(&self) -> (open: bool)
        ensures
            open == self.is_open(),
    {
        self.open
    }

    /// Takes what the caller pulled from the stream and gives the next item
    /// of the sequence. A message that cannot be converted gives one `Err`
    /// and leaves the sequence open; the end of the stream or a fault of the
    /// connection ends the sequence for good.
    pub fn accept<Generic, Typed, Error, Fault>(
        &mut self,
        pulled: Option<Result<Generic, Fault>>,
    ) -> (item: Option<Result<Typed, Error>>) where
        Convert: Fn(Generic) -> Result<Typed, Error>,

        requires
            pulled matches Some(Ok(generic)) ==> call_requires(
                old(self).spec_convert(),
                (generic,),
            ),
        ensures
            yields(old(self).spec_convert(), old(self).is_open(), pulled, item),
            final(self).is_open() == stays_open(old(self).is_open(), pulled),
            final(self).spec_stream() == old(self).spec_stream(),
            final(self).spec_convert() == old(self).spec_convert(),
    {
        if !self.open {
            return None;
        }
        match pulled {
            Some(Ok(generic)) => Some((self.convert_generic_message_fn)(generic)),
            _ => {
                self.open = false;
                None
            },
        }
    }
}

/// A connection on its way to becoming a channel: its two halves, and the
/// extensions of the request that asked for it.
pub struct StreamableRequest<Sink, Stream, Origin> {
    pub sink: Sink,
    pub stream: Stream,
    pub extensions: Origin,
}

/// The extensions of a channel in the form that its user wants, made from
/// those of the request that asked for the connection.
pub trait ApiChannelExtensions<Origin>: Sized {
    /// `extensions` is what `create` may make of `origin`. A type that does
    /// not say more may make anything of it.
    open spec fn created_from(origin: Origin, extensions: Self) -> bool {
        true
    }

    fn create(origin: Origin) -> (extensions: Self)
        ensures
            Self::created_from(origin, extensions),
    ;
}

/// A user that wants nothing of the request.
impl<Origin> ApiChannelExtensions<Origin> for () {
    fn create(origin: Origin) -> (extensions: ()) {
        ()
    }
}

/// A user that wants the shared bag of the request as it is.
impl<E> ApiChannelExtensions<Arc<E>> for Arc<E> {
    open spec fn created_from(origin: Arc<E>, extensions: Arc<E>) -> bool {
        extensions == origin
    }

    fn create(origin: Arc<E>) -> (extensions: Arc<E>) {
        origin
    }
}

/// A channel: the two halves of one connection, and the extensions that its
/// user is handed with them.
pub struct ApiChannel<Extensions, Sender, Receiver> {
    pub extensions: Extensions,
    pub sender: Sender,
    pub receiver: Receiver,
}

/// The answer of a sink that takes no more messages.
#[derive(Clone, Copy, Debug, PartialEq, Eq, Structural)]
pub struct Closed;

/// A connection from a sender straight back to a receiver in the same
/// process: what is pushed is pulled again, first in, first out. Once closed
/// it takes nothing more; what it holds can still be pulled.
pub struct Loopback<Generic> {
    queue: Vec<Generic>,
    closed: bool,
}

/// What a push leaves on a connection that held `queued`.
pub open spec fn queued_after_send<Generic, Error>(
    queued: Seq<Generic>,
    closed: bool,
    prepared: Result<Generic, Error>,
) -> Seq<Generic> {
    match prepared {
        Ok(generic) if !closed => queued.push(generic),
        _ => queued,
    }
}

/// How a send over a loopback ends: it fails where the conversion failed or
/// the connection is closed.
pub open spec fn send_verdict<Generic, Error>(
    closed: bool,
    prepared: Result<Generic, Error>,
) -> Result<(), SendError<Error, Closed>> {
    match prepared {
        Err(error) => Err(SendError::Convert(error)),
        Ok(_) => if closed {
            Err(SendError::Sink(Closed))
        } else {
            Ok(())
        },
    }
}

/// What a pull finds on a connection that holds `queued`: its oldest
/// message, or the end.
pub open spec fn front<Generic>(queued: Seq<Generic>) -> Option<Result<Generic, Closed>> {
    if queued.len() > 0 {
        Some(Ok(queued[0]))
    } else {
        None
    }
}

impl<Generic> Loopback<Generic> {
    /// The messages on the way, oldest first.
    pub closed spec fn queued(&self) -> Seq<Generic> {
        self.queue@
    }

    /// The connection takes no more messages.
    pub closed spec fn is_closed(&self) -> bool {
        self.closed
    }

    /// An open connection with nothing on the way.
    pub fn new() -> (wire: Self)
        ensures
            wire.queued() == Seq::<Generic>::empty(),
            !wire.is_closed(),
    {
        Loopback { queue: Vec::new(), closed: false }
    }

    /// The number of messages on the way.
    pub fn len(&self) -> (n: usize)
        ensures
            n == self.queued().len(),
    {
        self.queue.len()
    }

    /// Closes the connection for sending.
    pub fn close(&mut self)
        ensures
            final(self).is_closed(),
            final(self).queued() == old(self).queued(),
    {
        self.closed = true;
    }

    /// Puts a message on the connection, behind those that are there.
    pub fn push(&mut self, message: Generic) -> (outcome: Result<(), Closed>)
        ensures
            final(self).is_closed() == old(self).is_closed(),
            outcome is Err == old(self).is_closed(),
            final(self).queued() == if old(self).is_closed() {
                old(self).queued()
            } else {
                old(self).queued().push(message)
            },
    {
        if self.closed {
            return Err(Closed);
        }
        self.queue.push(message);
        Ok(())
    }

    /// Takes the oldest message off the connection.
    pub fn pull(&mut self) -> (pulled: Option<Result<Generic, Closed>>)
        ensures
            final(self).is_closed() == old(self).is_closed(),
            pulled == front(old(self).queued()),
            final(self).queued() == if old(self).queued().len() > 0 {
                old(self).queued().drop_first()
            } else {
                old(self).queued()
            },
    {
        if self.queue.len() == 0 {
            return None;
        }
        let message = self.queue.remove(0);
        assert(self.queue@ =~= old(self).queue@.drop_first());
        Some(Ok(message))
    }
}

impl<Sink, Convert> ApiChannelSender<Sink, Convert> {
    /// Sends `message` over a loopback.
    pub fn send_over<Typed, Generic, Error>(
        &self,
        wire: &mut Loopback<Generic>,
        message: Typed,
    ) -> (outcome: Result<(), SendError<Error, Closed>>) where
        Convert: Fn(Typed) -> Result<Generic, Error>,

        requires
            call_requires(self.convert_typed_message_fn, (message,)),
        ensures
            final(wire).is_closed() == old(wire).is_closed(),
            exists|prepared: Result<Generic, Error>|
                {
                    &&& call_ensures(self.convert_typed_message_fn, (message,), prepared)
                    &&& outcome == send_verdict(old(wire).is_closed(), prepared)
                    &&& final(wire).queued() == queued_after_send(
                        old(wire).queued(),
                        old(wire).is_closed(),
                        prepared,
                    )
                },
    {
        let prepared = self.prepare(message);
        let ghost witness = prepared;
        let outcome = match prepared {
            Ok(generic) => match wire.push(generic) {
                Ok(done) => Ok(done),
                Err(closed) => Err(SendError::Sink(closed)),
            },
            Err(error) => Err(SendError::Convert(error)),
        };
        assert(outcome == send_verdict(old(wire).is_closed(), witness));
        assert(wire.queued() == queued_after_send(
            old(wire).queued(),
            old(wire).is_closed(),
            witness,
        ));
        outcome
    }
}

impl<Stream, Convert> ApiChannelReceiver<Stream, Convert> {
    /// Gives the next item of the sequence from a loopback. A receiver whose
    /// sequence has ended pulls nothing.
    pub fn next_from<Generic, Typed, Error>(&mut self, wire: &mut Loopback<Generic>) -> (item:
        Option<Result<Typed, Error>>) where Convert: Fn(Generic) -> Result<Typed, Error>
        requires
            forall|generic: Generic| call_requires(old(self).spec_convert(), (generic,)),
        ensures
            yields(old(self).spec_convert(), old(self).is_open(), front(old(wire).queued()), item),
            final(self).is_open() == stays_open(old(self).is_open(), front(old(wire).queued())),
            final(self).spec_stream() == old(self).spec_stream(),
            final(self).spec_convert() == old(self).spec_convert(),
            final(wire).is_closed() == old(wire).is_closed(),
            final(wire).queued() == if old(self).is_open() && old(wire).queued().len() > 0 {
                old(wire).queued().drop_first()
            } else {
                old(wire).queued()
            },
    {
        if !self.open {
            return None;
        }
        let pulled = wire.pull();
        self.accept(pulled)
    }
}

/// `deserialize` undoes `serialize`: whatever generic message `serialize`
/// makes of a typed one, `deserialize` makes that typed message of it.
pub open spec fn is_inverse<Typed, Generic, SendError, ReceiveError, Serialize, Deserialize>(
    serialize: Serialize,
    deserialize: Deserialize,
) -> bool where
    Serialize: Fn(Typed) -> Result<Generic, SendError>,
    Deserialize: Fn(Generic) -> Result<Typed, ReceiveError>,
 {
    forall|message: Typed, generic: Generic, converted: Result<Typed, ReceiveError>|
        #![trigger call_ensures(serialize, (message,), Ok(generic)), call_ensures(deserialize, (generic,), converted)]
        call_ensures(serialize, (message,), Ok(generic)) && call_ensures(
            deserialize,
            (generic,),
            converted,
        ) ==> converted == Ok::<Typed, ReceiveError>(message)
}

/// Round trip. Where the receiver's function undoes the sender's, a message
/// that was sent with success over an empty open loopback is what the next
/// pull of an open receiver yields.
pub proof fn law_round_trip<Typed, Generic, SendError, ReceiveError, Serialize, Deserialize>(
    serialize: Serialize,
    deserialize: Deserialize,
    message: Typed,
    prepared: Result<Generic, SendError>,
    item: Option<Result<Typed, ReceiveError>>,
) where
    Serialize: Fn(Typed) -> Result<Generic, SendError>,
    Deserialize: Fn(Generic) -> Result<Typed, ReceiveError>,

    requires
        is_inverse(serialize, deserialize),
        call_ensures(serialize, (message,), prepared),
        send_verdict(false, prepared) is Ok,
        yields(
            deserialize,
            true,
            front(queued_after_send(Seq::<Generic>::empty(), false, prepared)),
            item,
        ),
    ensures
        item == Some(Ok::<Typed, ReceiveError>(message)),
{
    let generic = prepared->Ok_0;
    assert(queued_after_send(Seq::<Generic>::empty(), false, prepared)[0] == generic);
}

/// Order. A message that is sent joins the connection behind those that are
/// on the way: they stay in front in their order, and it is pulled right
/// after them.
pub proof fn law_messages_keep_their_order<Generic, Error>(queued: Seq<Generic>, generic: Generic)
    ensures
        queued_after_send(queued, false, Ok::<Generic, Error>(generic)).take(queued.len() as int)
            == queued,
        queued_after_send(queued, false, Ok::<Generic, Error>(generic)).skip(queued.len() as int)
            == seq![generic],
{
    let after = queued_after_send(queued, false, Ok::<Generic, Error>(generic));
    assert(after.take(queued.len() as int) =~= queued);
    assert(after.skip(queued.len() as int) =~= seq![generic]);
}

/// What a connection that is open holds after `messages` were sent over it
/// one after the other.
pub open spec fn queued_after_sends<Generic>(
    queued: Seq<Generic>,
    messages: Seq<Generic>,
) -> Seq<Generic>
    decreases messages.len(),
{
    if messages.len() == 0 {
        queued
    } else {
        queued_after_sends(
            queued_after_send(queued, false, Ok::<Generic, Closed>(messages[0])),
            messages.drop_first(),
        )
    }
}

/// What a connection holds after `count` pulls, each of which took a
/// message if there was one.
pub open spec fn queued_after_pulls<Generic>(queued: Seq<Generic>, count: nat) -> Seq<Generic>
    decreases count,
{
    if count == 0 {
        queued
    } else if queued.len() > 0 {
        queued_after_pulls(queued.drop_first(), (count - 1) as nat)
    } else {
        queued
    }
}

/// Many sends join the connection in their order, behind what is on the
/// way.
pub proof fn law_sends_queue_in_order<Generic>(queued: Seq<Generic>, messages: Seq<Generic>)
    ensures
        queued_after_sends(queued, messages) == queued + messages,
    decreases messages.len(),
{
    if messages.len() == 0 {
        assert(queued + messages =~= queued);
    } else {
        law_sends_queue_in_order(queued.push(messages[0]), messages.drop_first());
        assert(queued.push(messages[0]) + messages.drop_first() =~= queued + messages);
    }
}

/// The order of arrival is the order of sending. Of the messages sent over
/// an empty open connection, the pull after `count` pulls finds the message
/// that was sent after `count` sends, and the pull after all of them finds
/// the end.
pub proof fn law_arrival_follows_sending<Generic>(messages: Seq<Generic>, count: nat)
    requires
        count <= messages.len(),
    ensures
        queued_after_pulls(queued_after_sends(Seq::<Generic>::empty(), messages), count)
            == messages.skip(count as int),
        front(queued_after_pulls(queued_after_sends(Seq::<Generic>::empty(), messages), count))
            == if count < messages.len() {
            Some(Ok::<Generic, Closed>(messages[count as int]))
        } else {
            None
        },
{
    law_sends_queue_in_order(Seq::<Generic>::empty(), messages);
    assert(Seq::<Generic>::empty() + messages =~= messages);
    lemma_pulls_skip(messages, count);
}

/// Pulls take messages from the front.
proof fn lemma_pulls_skip<Generic>(queued: Seq<Generic>, count: nat)
    requires
        count <= queued.len(),
    ensures
        queued_after_pulls(queued, count) == queued.skip(count as int),
    decreases count,
{
    if count == 0 {
        assert(queued.skip(0) =~= queued);
    } else {
        lemma_pulls_skip(queued.drop_first(), (count - 1) as nat);
        assert(queued.drop_first().skip(count - 1) =~= queued.skip(count as int));
    }
}

/// A message that cannot be converted does not end the sequence. An open
/// receiver that pulls a malformed message and then a well-formed one yields
/// a failure, then the typed message, and is open afterwards.
pub proof fn law_failure_keeps_sequence_open<Generic, Typed, Error, Fault, Convert>(
    convert: Convert,
    malformed: Generic,
    well_formed: Generic,
    message: Typed,
    first: Option<Result<Typed, Error>>,
    second: Option<Result<Typed, Error>>,
) where Convert: Fn(Generic) -> Result<Typed, Error>
    requires
        forall|converted: Result<Typed, Error>|
            call_ensures(convert, (malformed,), converted) ==> converted is Err,
        forall|converted: Result<Typed, Error>|
            call_ensures(convert, (well_formed,), converted) ==> converted == Ok::<Typed, Error>(
                message,
            ),
        yields(convert, true, Some(Ok::<Generic, Fault>(malformed)), first),
        yields(
            convert,
            stays_open(true, Some(Ok::<Generic, Fault>(malformed))),
            Some(Ok::<Generic, Fault>(well_formed)),
            second,
        ),
    ensures
        first matches Some(Err(_)),
        second == Some(Ok::<Typed, Error>(message)),
        stays_open(
            stays_open(true, Some(Ok::<Generic, Fault>(malformed))),
            Some(Ok::<Generic, Fault>(well_formed)),
        ),
{
}

/// The end is final. Once a pull has found the end of the connection or a
/// fault, the sequence is over: no later pull yields anything, whatever the
/// connection brings.
pub proof fn law_end_is_final<Generic, Typed, Error, Fault, Convert>(
    convert: Convert,
    open: bool,
    ending: Option<Result<Generic, Fault>>,
    later: Option<Result<Generic, Fault>>,
    item: Option<Result<Typed, Error>>,
) where Convert: Fn(Generic) -> Result<Typed, Error>
    requires
        !(ending matches Some(Ok(_))),
        yields(convert, stays_open(open, ending), later, item),
    ensures
        !stays_open(open, ending),
        !stays_open(stays_open(open, ending), later),
        item is None,
{
}

} // verus!
