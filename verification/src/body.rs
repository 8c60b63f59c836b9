//! The outbound adapter: queued messages in, framed bytes out.
//!
//! A [`StreamingBody`] never touches the queue itself. Whoever drives it reports what
//! the queue did as a [`QueueEvent`] and does what the returned [`BodyAction`] asks
//! for. One poll by the transport is the event [`QueueEvent::Polled`], followed by one
//! event for each receive that the body asked for, until the body answers with
//! something other than [`BodyAction::Receive`].

use actix_http::ws::Codec;
use bytes::BytesMut;
use std::collections::VecDeque;
use vstd::prelude::*;

use crate::codec::{
    buffer_is_empty, buffered, codec_state, encode_frame, encoding, fresh_codec_state,
    new_buffer, new_codec, take_buffer, CodecState,
};
use crate::message::{message_views, Message, MessageView, StreamError, StreamErrorView};

verus! {

/// What encoding a run of messages gives.
#[verifier::ext_equal]
pub ghost struct Encoded {
    /// The frames of the messages that were encoded, one behind the other.
    pub bytes: Seq<u8>,
    /// The state of the codec afterwards.
    pub state: CodecState,
    /// How many messages were encoded.
    pub done: nat,
    /// The error that the codec gave for the message after those, if it gave one.
    pub error: Option<StreamErrorView>,
}

/// Encodes message after message, each frame behind the one before, until the
/// messages are used up or the codec refuses one.
pub open spec fn encode_all(state: CodecState, messages: Seq<MessageView>) -> Encoded
    decreases messages.len(),
{
    if messages.len() == 0 {
        Encoded { bytes: Seq::empty(), state, done: 0, error: None }
    } else {
        let first = encoding(state, messages.first());
        match first.result {
            Ok(frame) => after_frame(frame, encode_all(first.state, messages.drop_first())),
            Err(error) => Encoded {
                bytes: Seq::empty(),
                state: first.state,
                done: 0,
                error: Some(StreamErrorView::Codec(error)),
            },
        }
    }
}

/// `later`, with one more frame in front of its own.
pub open spec fn after_frame(frame: Seq<u8>, later: Encoded) -> Encoded {
    Encoded { bytes: frame + later.bytes, done: later.done + 1, ..later }
}

/// No message of the sequence is a fragment of a fragmented message.
pub open spec fn whole_messages(messages: Seq<MessageView>) -> bool {
    forall|i: int| 0 <= i < messages.len() ==> !(#[trigger] messages[i] is Continuation)
}

/// What the queue did, as the driver of a [`StreamingBody`] reports it.
#[derive(Debug)]
pub enum QueueEvent {
    /// The transport asks for the next chunk of bytes.
    Polled,
    /// A receive gave this message.
    Message(Message),
    /// A receive found the queue closed: every producer is gone and nothing is left
    /// in it.
    Closed,
    /// A receive found nothing for now.
    Empty,
}

/// The mathematical value of a [`QueueEvent`].
pub ghost enum QueueEventView {
    Polled,
    Message(MessageView),
    Closed,
    Empty,
}

impl View for QueueEvent {
    type V = QueueEventView;

    open spec fn view(&self) -> QueueEventView {
        match *self {
            QueueEvent::Polled => QueueEventView::Polled,
            QueueEvent::Message(message) => QueueEventView::Message(message@),
            QueueEvent::Closed => QueueEventView::Closed,
            QueueEvent::Empty => QueueEventView::Empty,
        }
    }
}

/// What a [`StreamingBody`] asks of its driver.
#[derive(Debug)]
pub enum BodyAction {
    /// Try once to receive from the queue, without blocking, and report what came of
    /// it.
    Receive,
    /// Hand these bytes to the transport.
    Yield(Vec<u8>),
    /// Hand this error to the transport: it is the last item of the sequence.
    Fail(StreamError),
    /// Tell the transport that the sequence has ended.
    Finish,
    /// Tell the transport that there are no bytes yet.
    Wait,
}

/// The mathematical value of a [`BodyAction`].
pub ghost enum BodyActionView {
    Receive,
    Yield(Seq<u8>),
    Fail(StreamErrorView),
    Finish,
    Wait,
}

impl View for BodyAction {
    type V = BodyActionView;

    open spec fn view(&self) -> BodyActionView {
        match *self {
            BodyAction::Receive => BodyActionView::Receive,
            BodyAction::Yield(bytes) => BodyActionView::Yield(bytes@),
            BodyAction::Fail(error) => BodyActionView::Fail(error@),
            BodyAction::Finish => BodyActionView::Finish,
            BodyAction::Wait => BodyActionView::Wait,
        }
    }
}

/// The state of a [`StreamingBody`], with its history.
#[verifier::ext_equal]
pub ghost struct BodyView {
    /// The messages that are received and not encoded yet, oldest first.
    pub pending: Seq<MessageView>,
    /// The bytes that are encoded and not handed out yet.
    pub buffered: Seq<u8>,
    /// The state of the codec.
    pub codec: CodecState,
    /// The queue is closed and drained.
    pub closing: bool,
    /// The sequence has ended with an error.
    pub failed: bool,
    /// Every message that was ever encoded, in order.
    pub encoded: Seq<MessageView>,
    /// Every byte that was ever handed out, in order.
    pub produced: Seq<u8>,
}

impl BodyView {
    /// The state of a body that has seen nothing yet.
    pub open spec fn fresh() -> BodyView {
        BodyView {
            pending: Seq::empty(),
            buffered: Seq::empty(),
            codec: fresh_codec_state(),
            closing: false,
            failed: false,
            encoded: Seq::empty(),
            produced: Seq::empty(),
        }
    }

    /// Every message that was received so far, encoded or not, in order.
    pub open spec fn accepted(self) -> Seq<MessageView> {
        self.encoded + self.pending
    }

    /// The bytes handed out so far, with those that are buffered, are the frames of
    /// the messages encoded so far, in the order of the messages.
    pub open spec fn tracks_output(self) -> bool {
        encode_all(fresh_codec_state(), self.encoded) == (Encoded {
            bytes: self.produced + self.buffered,
            state: self.codec,
            done: self.encoded.len(),
            error: None,
        })
    }

    /// The state is one that a body can be in between two events.
    pub open spec fn wf(self) -> bool {
        !self.failed ==> {
            &&& self.tracks_output()
            &&& !self.codec.masking
            &&& self.buffered.len() == 0
            &&& self.closing ==> self.pending.len() == 0
        }
    }

    /// The state after the pending messages were encoded, as far as the codec took
    /// them. The message that the codec refused is dropped.
    pub open spec fn encode(self) -> BodyView {
        let encoded = encode_all(self.codec, self.pending);
        BodyView {
            pending: if encoded.error is Some {
                self.pending.skip(encoded.done as int + 1)
            } else {
                Seq::empty()
            },
            buffered: self.buffered + encoded.bytes,
            codec: encoded.state,
            failed: encoded.error is Some,
            encoded: self.encoded + self.pending.take(encoded.done as int),
            ..self
        }
    }

    /// Hands out what is buffered if that is anything; else ends the sequence if the
    /// queue is closed; else asks the transport to wait.
    pub open spec fn settle(self) -> (BodyView, BodyActionView) {
        if self.buffered.len() > 0 {
            (
                BodyView {
                    buffered: Seq::empty(),
                    produced: self.produced + self.buffered,
                    ..self
                },
                BodyActionView::Yield(self.buffered),
            )
        } else if self.closing {
            (self, BodyActionView::Finish)
        } else {
            (self, BodyActionView::Wait)
        }
    }

    /// Encodes what is pending, then fails with the error of the codec, or settles.
    pub open spec fn flush(self) -> (BodyView, BodyActionView) {
        let next = self.encode();
        match encode_all(self.codec, self.pending).error {
            Some(error) => (next, BodyActionView::Fail(error)),
            None => next.settle(),
        }
    }

    /// The state that an event leads to, and what the body asks for in answer.
    pub open spec fn step(self, event: QueueEventView) -> (BodyView, BodyActionView) {
        if self.failed || self.closing {
            (self, BodyActionView::Finish)
        } else {
            match event {
                QueueEventView::Polled => (self, BodyActionView::Receive),
                QueueEventView::Message(message) => (
                    BodyView { pending: self.pending.push(message), ..self },
                    BodyActionView::Receive,
                ),
                QueueEventView::Closed => (BodyView { closing: true, ..self }).flush(),
                QueueEventView::Empty => self.flush(),
            }
        }
    }
}

/// A lazily driven sequence of the bytes that go to the peer.
pub struct StreamingBody {
    messages: VecDeque<Message>,
    buf: BytesMut,
    codec: Codec,
    closing: bool,
    failed: bool,
    encoded: Ghost<Seq<MessageView>>,
    produced: Ghost<Seq<u8>>,
}

impl View for StreamingBody {
    type V = BodyView;

    closed spec fn view(&self) -> BodyView {
        BodyView {
            pending: message_views(self.messages@),
            buffered: buffered(self.buf),
            codec: codec_state(self.codec),
            closing: self.closing,
            failed: self.failed,
            encoded: self.encoded@,
            produced: self.produced@,
        }
    }
}

impl StreamingBody {
    /// A body that has seen nothing yet.
    pub fn new() -> (body: StreamingBody)
        ensures
            body@ == BodyView::fresh(),
            body@.wf(),
    {
        StreamingBody {
            messages: VecDeque::new(),
            buf: new_buffer(),
            codec: new_codec(),
            closing: false,
            failed: false,
            encoded: Ghost(Seq::empty()),
            produced: Ghost(Seq::empty()),
        }
    }

    /// Takes one event and answers with what to do next.
    ///
    /// - Once the sequence has failed, or the queue was found closed, every event is
    ///   answered with [`BodyAction::Finish`].
    /// - [`QueueEvent::Polled`]: the body asks for a receive.
    /// - [`QueueEvent::Message`]: the message joins the pending ones, and the body
    ///   asks for another receive.
    /// - [`QueueEvent::Closed`] and [`QueueEvent::Empty`]: every pending message is
    ///   encoded, in the order of arrival, each frame behind the one before (the
    ///   first after it was noted that the queue is closed). An error of the codec
    ///   fails the sequence. Else the frames are handed out as one chunk; without a
    ///   frame the sequence ends if the queue is closed, and the transport is asked
    ///   to wait if it is not.
    ///
    /// The codec refuses nothing but fragments, so a body that is given whole
    /// messages only never fails.
    pub fn poll_next(&mut self, event: QueueEvent) -> (action: BodyAction)
        requires
            old(self)@.wf(),
        ensures
            final(self)@.wf(),
            (final(self)@, action@) == old(self)@.step(event@),
            whole_messages(old(self)@.pending) ==> !(action is Fail),
    {
        if self.failed || self.closing {
            return BodyAction::Finish;
        }
        match event {
            QueueEvent::Polled => BodyAction::Receive,
            QueueEvent::Message(message) => {
                self.messages.push_back(message);
                BodyAction::Receive
            },
            QueueEvent::Closed => {
                self.closing = true;
                self.flush()
            },
            QueueEvent::Empty => self.flush(),
        }
    }

    /// Encodes what is pending; then fails, or settles.
    fn flush(&mut self) -> (action: BodyAction)
        requires
            !old(self)@.failed,
            old(self)@.tracks_output(),
            !old(self)@.codec.masking,
            old(self)@.buffered.len() == 0,
        ensures
            final(self)@.wf(),
            (final(self)@, action@) == old(self)@.flush(),
            whole_messages(old(self)@.pending) ==> !(action is Fail),
    {
        match self.encode() {
            Err(error) => BodyAction::Fail(error),
            Ok(()) => self.settle(),
        }
    }

    /// Hands out what is buffered, or says that there is nothing.
    fn settle(&mut self) -> (action: BodyAction)
        requires
            !old(self)@.failed,
            old(self)@.tracks_output(),
            !old(self)@.codec.masking,
            old(self)@.pending.len() == 0,
        ensures
            final(self)@.wf(),
            (final(self)@, action@) == old(self)@.settle(),
    {
        if !buffer_is_empty(&self.buf) {
            let bytes = take_buffer(&mut self.buf);
            self.produced = Ghost(self.produced@ + bytes@);
            BodyAction::Yield(bytes)
        } else if self.closing {
            BodyAction::Finish
        } else {
            BodyAction::Wait
        }
    }

    /// Encodes the pending messages in order, each frame behind what is buffered
    /// already. Stops with the error at the first message that the codec refuses.
    fn encode(&mut self) -> (r: Result<(), StreamError>)
        requires
            !old(self)@.failed,
            old(self)@.tracks_output(),
            !old(self)@.codec.masking,
        ensures
            final(self)@ == old(self)@.encode(),
            !final(self)@.failed ==> final(self)@.tracks_output() && !final(self)@.codec.masking,
            match r {
                Ok(()) => encode_all(old(self)@.codec, old(self)@.pending).error is None,
                Err(error) => encode_all(old(self)@.codec, old(self)@.pending).error == Some(
                    error@,
                ),
            },
            whole_messages(old(self)@.pending) ==> r is Ok,
    {
        let ghost before = self@;
        let ghost mut frames: Seq<u8> = Seq::empty();
        let ghost mut count: nat = 0;
        loop
            invariant
                before == old(self)@,
                !self@.failed,
                self@.tracks_output(),
                !self@.codec.masking,
                count <= before.pending.len(),
                self@ == (BodyView {
                    pending: before.pending.skip(count as int),
                    buffered: before.buffered + frames,
                    codec: self@.codec,
                    encoded: before.encoded + before.pending.take(count as int),
                    ..before
                }),
                encode_all(before.codec, before.pending) == (Encoded {
                    bytes: frames + encode_all(self@.codec, self@.pending).bytes,
                    done: count + encode_all(self@.codec, self@.pending).done,
                    ..encode_all(self@.codec, self@.pending)
                }),
            decreases self@.pending.len(),
        {
            let ghost current = self@;
            match self.messages.pop_front() {
                None => {
                    return Ok(());
                },
                Some(message) => {
                    proof {
                        assert(self@.pending =~= current.pending.drop_first());
                    }
                    let ghost step = encoding(current.codec, message@);
                    match encode_frame(&mut self.codec, message, &mut self.buf) {
                        Err(error) => {
                            self.failed = true;
                            return Err(StreamError::Codec(error));
                        },
                        Ok(()) => {
                            proof {
                                let frame = step.result->Ok_0;
                                encode_all_push(fresh_codec_state(), current.encoded, message@);
                                assert(current.produced + (current.buffered + frame)
                                    =~= current.produced + current.buffered + frame);
                                frames = frames + frame;
                                count = count + 1;
                            }
                            self.encoded = Ghost(self.encoded@.push(message@));
                        },
                    }
                },
            }
        }
    }
}

/// Encoding one more message behind a run that was encoded without an error.
pub proof fn encode_all_push(state: CodecState, messages: Seq<MessageView>, last: MessageView)
    requires
        encode_all(state, messages).error is None,
    ensures
        encode_all(state, messages).done == messages.len(),
        encode_all(state, messages.push(last)) == (match encoding(
            encode_all(state, messages).state,
            last,
        ).result {
            Ok(frame) => Encoded {
                bytes: encode_all(state, messages).bytes + frame,
                state: encoding(encode_all(state, messages).state, last).state,
                done: messages.len() + 1,
                error: None,
            },
            Err(error) => Encoded {
                bytes: encode_all(state, messages).bytes,
                state: encoding(encode_all(state, messages).state, last).state,
                done: messages.len(),
                error: Some(StreamErrorView::Codec(error)),
            },
        }),
    decreases messages.len(),
{
    let longer = messages.push(last);
    if messages.len() == 0 {
        assert(encode_all(encoding(state, last).state, longer.drop_first()).done == 0);
    } else {
        assert(longer.drop_first() =~= messages.drop_first().push(last));
        encode_all_push(encoding(state, messages.first()).state, messages.drop_first(), last);
    }
}

/// The state that a run of events leads to, and the answers along the way.
pub open spec fn run(body: BodyView, events: Seq<QueueEventView>) -> (
    BodyView,
    Seq<BodyActionView>,
)
    decreases events.len(),
{
    if events.len() == 0 {
        (body, Seq::empty())
    } else {
        let (next, action) = body.step(events.first());
        let (last, actions) = run(next, events.drop_first());
        (last, seq![action] + actions)
    }
}

/// The messages that `reader` finds in `bytes`, reading frame after frame from the
/// front. `reader` gives, for bytes that start with a frame, the message of that frame
/// and the number of bytes that the frame takes.
pub open spec fn read_back(
    reader: spec_fn(Seq<u8>) -> Option<(MessageView, nat)>,
    bytes: Seq<u8>,
) -> Seq<MessageView>
    decreases bytes.len(),
{
    if bytes.len() == 0 {
        Seq::empty()
    } else {
        match reader(bytes) {
            Some((message, taken)) => if 0 < taken <= bytes.len() {
                seq![message] + read_back(reader, bytes.skip(taken as int))
            } else {
                Seq::empty()
            },
            None => Seq::empty(),
        }
    }
}

/// `reader` reads back each frame that encoding `messages` gives: the codec encodes
/// every message, to at least one byte, and from that frame, whatever bytes stand
/// behind it, `reader` gets the message and the frame's length.
pub open spec fn reads_each_frame(
    reader: spec_fn(Seq<u8>) -> Option<(MessageView, nat)>,
    state: CodecState,
    messages: Seq<MessageView>,
) -> bool
    decreases messages.len(),
{
    messages.len() == 0 || {
        let first = encoding(state, messages.first());
        &&& first.result matches Ok(frame) && frame.len() > 0 && forall|behind: Seq<u8>|
            #[trigger] reader(frame + behind) == Some((messages.first(), frame.len()))
        &&& reads_each_frame(reader, first.state, messages.drop_first())
    }
}

/// A body that has encoded everything it received has handed out exactly the frames
/// of the messages it received, in the order in which it received them, each frame in
/// one piece behind the one before.
pub proof fn drained_body_has_produced_every_frame(body: BodyView)
    requires
        body.wf(),
        !body.failed,
        body.pending.len() == 0,
    ensures
        encode_all(fresh_codec_state(), body.accepted()) == (Encoded {
            bytes: body.produced,
            state: body.codec,
            done: body.accepted().len(),
            error: None,
        }),
{
}

/// What was encoded can be read back. The bytes that encoding a run of messages gives
/// hold, for every reader that reads back each single frame, exactly those messages
/// in the same order.
pub proof fn frames_read_back_in_order(
    reader: spec_fn(Seq<u8>) -> Option<(MessageView, nat)>,
    state: CodecState,
    messages: Seq<MessageView>,
)
    requires
        reads_each_frame(reader, state, messages),
    ensures
        encode_all(state, messages).error is None,
        read_back(reader, encode_all(state, messages).bytes) == messages,
    decreases messages.len(),
{
    if messages.len() > 0 {
        let first = encoding(state, messages.first());
        let frame = first.result->Ok_0;
        let tail = encode_all(first.state, messages.drop_first());
        frames_read_back_in_order(reader, first.state, messages.drop_first());
        assert((frame + tail.bytes).skip(frame.len() as int) =~= tail.bytes);
    }
}

/// What was sent reads back. The bytes that a body has handed out, once it has
/// encoded everything it received, hold exactly the messages it received, in the same
/// order, for every reader that reads back each single frame.
pub proof fn what_was_sent_reads_back(
    body: BodyView,
    reader: spec_fn(Seq<u8>) -> Option<(MessageView, nat)>,
)
    requires
        body.wf(),
        !body.failed,
        body.pending.len() == 0,
        reads_each_frame(reader, fresh_codec_state(), body.accepted()),
    ensures
        read_back(reader, body.produced) == body.accepted(),
{
    drained_body_has_produced_every_frame(body);
    frames_read_back_in_order(reader, fresh_codec_state(), body.accepted());
}

/// The sequence ends only when nothing is left to encode or to hand out and the queue
/// is closed, or after it has failed.
pub proof fn finish_means_nothing_is_left(body: BodyView, event: QueueEventView)
    requires
        body.wf(),
        !body.failed,
        body.step(event).1 == BodyActionView::Finish,
    ensures
        body.step(event).0.pending.len() == 0,
        body.step(event).0.buffered.len() == 0,
        body.step(event).0.closing,
        !body.step(event).0.failed,
{
}

/// After the sequence has ended, with an error or because the queue was closed, it
/// yields no further item: every event is answered with [`BodyAction::Finish`], and
/// the state stays as it is.
pub proof fn ended_body_yields_nothing(body: BodyView, events: Seq<QueueEventView>)
    requires
        body.failed || body.closing,
    ensures
        run(body, events).0 == body,
        run(body, events).1.len() == events.len(),
        forall|i: int|
            0 <= i < events.len() ==> #[trigger] run(body, events).1[i]
                == BodyActionView::Finish,
    decreases events.len(),
{
    if events.len() > 0 {
        ended_body_yields_nothing(body, events.drop_first());
    }
}

} // verus!
