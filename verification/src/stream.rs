//! The inbound adapter: raw bytes in, decoded messages out.
//!
//! A [`MessageStream`] never reads the transport itself. Whoever drives it reports
//! what the transport did as a [`ReadEvent`] and does what the returned
//! [`StreamAction`] asks for. One poll by the application is the event
//! [`ReadEvent::Polled`], followed by one event for each read that the stream asked
//! for, until the stream answers with something other than [`StreamAction::Read`].

use actix_http::ws::Codec;
use bytes::BytesMut;
use std::collections::VecDeque;
use vstd::prelude::*;

use crate::codec::{
    buffered, codec_state, decode_frame, decode_step, extend_buffer, fresh_codec_state,
    new_buffer, new_codec, CodecState,
};
use crate::message::{
    message_of, message_views, Message, MessageView, StreamError, StreamErrorView,
};

verus! {

/// What decoding as far as possible gives.
#[verifier::ext_equal]
pub ghost struct Decoded {
    /// The messages of the frames that were decoded, in order.
    pub messages: Seq<MessageView>,
    /// The state of the codec afterwards.
    pub state: CodecState,
    /// The bytes that are left undecoded.
    pub rest: Seq<u8>,
    /// The error that stopped the decoding, if one did.
    pub error: Option<StreamErrorView>,
}

/// Decodes frame after frame from the front of `input`, until the codec asks for
/// more bytes or fails, or a text frame is not UTF-8.
pub open spec fn decode_all(state: CodecState, input: Seq<u8>) -> Decoded
    decreases input.len(),
{
    let step = decode_step(state, input);
    let after = input.skip(step.consumed as int);
    match step.result {
        Ok(Some(frame)) => if 0 < step.consumed <= input.len() {
            match message_of(frame) {
                Some(message) => with_earlier(seq![message], decode_all(step.state, after)),
                None => Decoded {
                    messages: Seq::empty(),
                    state: step.state,
                    rest: after,
                    error: Some(StreamErrorView::InvalidUtf8),
                },
            }
        } else {
            nothing_decoded(state, input)
        },
        Ok(None) => nothing_decoded(state, input),
        Err(error) => Decoded {
            messages: Seq::empty(),
            state: step.state,
            rest: after,
            error: Some(StreamErrorView::Codec(error)),
        },
    }
}

/// The outcome of a decoding that found no complete frame.
pub open spec fn nothing_decoded(state: CodecState, input: Seq<u8>) -> Decoded {
    Decoded { messages: Seq::empty(), state, rest: input, error: None }
}

/// `later`, with the messages `earlier` in front of its own.
pub open spec fn with_earlier(earlier: Seq<MessageView>, later: Decoded) -> Decoded {
    Decoded { messages: earlier + later.messages, ..later }
}

/// What the transport did, as the driver of a [`MessageStream`] reports it.
#[derive(Debug)]
pub enum ReadEvent {
    /// The application asks for the next message.
    Polled,
    /// A read gave these bytes.
    Chunk(Vec<u8>),
    /// A read found the transport exhausted: no byte will follow.
    Exhausted,
    /// A read failed; the text says how.
    Failed(String),
    /// A read found nothing for now.
    Idle,
}

/// The mathematical value of a [`ReadEvent`].
pub ghost enum ReadEventView {
    Polled,
    Chunk(Seq<u8>),
    Exhausted,
    Failed(Seq<char>),
    Idle,
}

impl View for ReadEvent {
    type V = ReadEventView;

    open spec fn view(&self) -> ReadEventView {
        match *self {
            ReadEvent::Polled => ReadEventView::Polled,
            ReadEvent::Chunk(bytes) => ReadEventView::Chunk(bytes@),
            ReadEvent::Exhausted => ReadEventView::Exhausted,
            ReadEvent::Failed(text) => ReadEventView::Failed(text@),
            ReadEvent::Idle => ReadEventView::Idle,
        }
    }
}

/// What a [`MessageStream`] asks of its driver.
#[derive(Debug)]
pub enum StreamAction {
    /// Read the transport once, without blocking, and report what came of it.
    Read,
    /// Hand this message to the application.
    Yield(Message),
    /// Hand this error to the application: it is the last item of the sequence.
    Fail(StreamError),
    /// Tell the application that the sequence has ended.
    Finish,
    /// Tell the application that no message is ready yet.
    Wait,
}

/// The mathematical value of a [`StreamAction`].
pub ghost enum StreamActionView {
    Read,
    Yield(MessageView),
    Fail(StreamErrorView),
    Finish,
    Wait,
}

impl View for StreamAction {
    type V = StreamActionView;

    open spec fn view(&self) -> StreamActionView {
        match *self {
            StreamAction::Read => StreamActionView::Read,
            StreamAction::Yield(message) => StreamActionView::Yield(message@),
            StreamAction::Fail(error) => StreamActionView::Fail(error@),
            StreamAction::Finish => StreamActionView::Finish,
            StreamAction::Wait => StreamActionView::Wait,
        }
    }
}

/// The state of a [`MessageStream`], with its history.
#[verifier::ext_equal]
pub ghost struct StreamView {
    /// The messages that are decoded and not handed out yet, oldest first.
    pub pending: Seq<MessageView>,
    /// The bytes that are received and not decoded yet.
    pub buffered: Seq<u8>,
    /// The state of the codec.
    pub codec: CodecState,
    /// The transport is exhausted.
    pub closing: bool,
    /// The sequence has ended with an error.
    pub failed: bool,
    /// Every byte that was ever received, in order.
    pub received: Seq<u8>,
    /// Every message that was ever handed out, in order.
    pub yielded: Seq<MessageView>,
}

impl StreamView {
    /// The state of a stream that has seen nothing yet.
    pub open spec fn fresh() -> StreamView {
        StreamView {
            pending: Seq::empty(),
            buffered: Seq::empty(),
            codec: fresh_codec_state(),
            closing: false,
            failed: false,
            received: Seq::empty(),
            yielded: Seq::empty(),
        }
    }

    /// Every message that was decoded so far, handed out or not, in order.
    pub open spec fn decoded(self) -> Seq<MessageView> {
        self.yielded + self.pending
    }

    /// Nothing more comes out of the bytes that are buffered: they hold no complete
    /// frame.
    pub open spec fn caught_up(self) -> bool {
        decode_all(self.codec, self.buffered) == nothing_decoded(self.codec, self.buffered)
    }

    /// What was decoded so far and what is still buffered are what decoding everything
    /// received gives, and stay so whatever bytes come next.
    pub open spec fn tracks_input(self) -> bool {
        forall|more: Seq<u8>| #[trigger]
            decode_all(fresh_codec_state(), self.received + more) == with_earlier(
                self.decoded(),
                decode_all(self.codec, self.buffered + more),
            )
    }

    /// The state is one that a stream can be in.
    pub open spec fn wf(self) -> bool {
        !self.failed ==> self.tracks_input()
    }

    /// The state after `bytes` were received.
    pub open spec fn absorb(self, bytes: Seq<u8>) -> StreamView {
        StreamView {
            buffered: self.buffered + bytes,
            received: self.received + bytes,
            ..self
        }
    }

    /// The state after everything buffered was decoded as far as possible.
    pub open spec fn decode(self) -> StreamView {
        let decoded = decode_all(self.codec, self.buffered);
        StreamView {
            pending: self.pending + decoded.messages,
            buffered: decoded.rest,
            codec: decoded.state,
            failed: decoded.error is Some,
            ..self
        }
    }

    /// Hands out the oldest pending message if there is one; else ends the sequence
    /// if the transport is exhausted; else asks the application to wait.
    pub open spec fn settle(self) -> (StreamView, StreamActionView) {
        if self.pending.len() > 0 {
            (
                StreamView {
                    pending: self.pending.drop_first(),
                    yielded: self.yielded.push(self.pending.first()),
                    ..self
                },
                StreamActionView::Yield(self.pending.first()),
            )
        } else if self.closing {
            (self, StreamActionView::Finish)
        } else {
            (self, StreamActionView::Wait)
        }
    }

    /// Decodes what is buffered, then fails with the error that stopped the decoding,
    /// or settles.
    pub open spec fn conclude(self) -> (StreamView, StreamActionView) {
        let next = self.decode();
        match decode_all(self.codec, self.buffered).error {
            Some(error) => (next, StreamActionView::Fail(error)),
            None => next.settle(),
        }
    }

    /// The state that an event leads to, and what the stream asks for in answer.
    pub open spec fn step(self, event: ReadEventView) -> (StreamView, StreamActionView) {
        if self.failed {
            (self, StreamActionView::Finish)
        } else {
            match event {
                ReadEventView::Polled => if self.pending.len() > 0 {
                    self.settle()
                } else if !self.closing {
                    (self, StreamActionView::Read)
                } else {
                    self.conclude()
                },
                ReadEventView::Chunk(bytes) => (self.absorb(bytes), StreamActionView::Read),
                ReadEventView::Exhausted => (StreamView { closing: true, ..self }).conclude(),
                ReadEventView::Failed(text) => (
                    StreamView { failed: true, ..self },
                    StreamActionView::Fail(StreamErrorView::Io(text)),
                ),
                ReadEventView::Idle => self.conclude(),
            }
        }
    }
}

/// A lazily driven sequence of the messages that a peer sends.
pub struct MessageStream {
    messages: VecDeque<Message>,
    buf: BytesMut,
    codec: Codec,
    closing: bool,
    failed: bool,
    received: Ghost<Seq<u8>>,
    yielded: Ghost<Seq<MessageView>>,
}

impl View for MessageStream {
    type V = StreamView;

    closed spec fn view(&self) -> StreamView {
        StreamView {
            pending: message_views(self.messages@),
            buffered: buffered(self.buf),
            codec: codec_state(self.codec),
            closing: self.closing,
            failed: self.failed,
            received: self.received@,
            yielded: self.yielded@,
        }
    }
}

impl MessageStream {
    /// A stream that has seen nothing yet.
    pub fn new() -> (stream: MessageStream)
        ensures
            stream@ == StreamView::fresh(),
            stream@.wf(),
    {
        proof {
            fresh_stream_is_wf();
        }
        MessageStream {
            messages: VecDeque::new(),
            buf: new_buffer(),
            codec: new_codec(),
            closing: false,
            failed: false,
            received: Ghost(Seq::empty()),
            yielded: Ghost(Seq::empty()),
        }
    }

    /// Takes one event and answers with what to do next.
    ///
    /// - Once the sequence has failed, every event is answered with
    ///   [`StreamAction::Finish`].
    /// - [`ReadEvent::Polled`]: a message that is already decoded is handed out at
    ///   once. Else the stream asks for a read, unless the transport is exhausted:
    ///   then it goes on as for [`ReadEvent::Idle`].
    /// - [`ReadEvent::Chunk`]: the bytes are appended to what is buffered, and the
    ///   stream asks for another read.
    /// - [`ReadEvent::Failed`]: the sequence fails with that error.
    /// - [`ReadEvent::Exhausted`] and [`ReadEvent::Idle`]: every complete frame is
    ///   decoded from what is buffered (the first after it was noted that no byte
    ///   will follow). An error of the codec, or a text frame that is not UTF-8,
    ///   fails the sequence. Else the oldest decoded message is handed out; without
    ///   one the sequence ends if the transport is exhausted, and the application is
    ///   asked to wait if it is not.
    pub fn poll_next(&mut self, event: ReadEvent) -> (action: StreamAction)
        requires
            old(self)@.wf(),
        ensures
            final(self)@.wf(),
            (final(self)@, action@) == old(self)@.step(event@),
    {
        if self.failed {
            return StreamAction::Finish;
        }
        match event {
            ReadEvent::Polled => {
                if self.messages.len() > 0 {
                    self.settle()
                } else if !self.closing {
                    StreamAction::Read
                } else {
                    self.conclude()
                }
            },
            ReadEvent::Chunk(bytes) => {
                proof {
                    absorb_keeps_wf(self@, bytes@);
                }
                extend_buffer(&mut self.buf, bytes.as_slice());
                self.received = Ghost(self.received@ + bytes@);
                StreamAction::Read
            },
            ReadEvent::Exhausted => {
                self.closing = true;
                self.conclude()
            },
            ReadEvent::Failed(text) => {
                self.failed = true;
                StreamAction::Fail(StreamError::Io(text))
            },
            ReadEvent::Idle => self.conclude(),
        }
    }

    /// Decodes what is buffered; then fails, or settles.
    fn conclude(&mut self) -> (action: StreamAction)
        requires
            old(self)@.wf(),
            !old(self)@.failed,
        ensures
            final(self)@.wf(),
            (final(self)@, action@) == old(self)@.conclude(),
    {
        match self.decode() {
            Err(error) => StreamAction::Fail(error),
            Ok(()) => self.settle(),
        }
    }

    /// Hands out the oldest pending message, or says that there is none.
    fn settle(&mut self) -> (action: StreamAction)
        requires
            old(self)@.wf(),
            !old(self)@.failed,
        ensures
            final(self)@.wf(),
            (final(self)@, action@) == old(self)@.settle(),
    {
        let ghost before = self@;
        match self.messages.pop_front() {
            Some(message) => {
                self.yielded = Ghost(self.yielded@.push(message@));
                proof {
                    assert(self@.decoded() =~= before.decoded());
                }
                StreamAction::Yield(message)
            },
            None => {
                if self.closing {
                    StreamAction::Finish
                } else {
                    StreamAction::Wait
                }
            },
        }
    }

    /// Decodes every complete frame from the front of what is buffered and appends
    /// the messages to the pending ones. Stops with the error at the first frame
    /// that the codec refuses or whose text is not UTF-8.
    fn decode(&mut self) -> (r: Result<(), StreamError>)
        requires
            old(self)@.wf(),
            !old(self)@.failed,
        ensures
            final(self)@.wf(),
            final(self)@ == old(self)@.decode(),
            match r {
                Ok(()) => decode_all(old(self)@.codec, old(self)@.buffered).error is None,
                Err(error) => decode_all(old(self)@.codec, old(self)@.buffered).error == Some(
                    error@,
                ),
            },
    {
        let ghost before = self@;
        let ghost mut done: Seq<MessageView> = Seq::empty();
        loop
            invariant
                before == old(self)@,
                self@.wf(),
                !self@.failed,
                self@ == (StreamView {
                    pending: before.pending + done,
                    buffered: self@.buffered,
                    codec: self@.codec,
                    ..before
                }),
                decode_all(before.codec, before.buffered) == with_earlier(
                    done,
                    decode_all(self@.codec, self@.buffered),
                ),
            decreases self@.buffered.len(),
        {
            let ghost current = self@;
            match decode_frame(&mut self.codec, &mut self.buf) {
                Err(error) => {
                    self.failed = true;
                    return Err(StreamError::Codec(error));
                },
                Ok(None) => {
                    proof {
                        assert(current.buffered.skip(0) =~= current.buffered);
                    }
                    return Ok(());
                },
                Ok(Some(frame)) => {
                    match frame.into_message() {
                        Err(error) => {
                            self.failed = true;
                            return Err(error);
                        },
                        Ok(message) => {
                            proof {
                                frame_keeps_wf(current, message@);
                                assert(message_views(self.messages@.push(message))
                                    =~= message_views(self.messages@).push(message@));
                                done = done.push(message@);
                            }
                            self.messages.push_back(message);
                        },
                    }
                },
            }
        }
    }
}

/// A fresh stream tracks its input: nothing was received and nothing decoded.
pub proof fn fresh_stream_is_wf()
    ensures
        StreamView::fresh().wf(),
{
}

/// Receiving bytes keeps a stream in step with its input.
pub proof fn absorb_keeps_wf(stream: StreamView, bytes: Seq<u8>)
    requires
        stream.wf(),
    ensures
        stream.absorb(bytes).wf(),
{
    let next = stream.absorb(bytes);
    if !stream.failed {
        assert forall|more: Seq<u8>| #[trigger]
            decode_all(fresh_codec_state(), next.received + more) == with_earlier(
                next.decoded(),
                decode_all(next.codec, next.buffered + more),
            ) by {
            assert(next.received + more =~= stream.received + (bytes + more));
            assert(next.buffered + more =~= stream.buffered + (bytes + more));
        }
    }
}

/// One decoded frame moves from the buffered bytes to the decoded messages, and the
/// stream stays in step with its input.
proof fn frame_keeps_wf(stream: StreamView, message: MessageView)
    requires
        stream.wf(),
        !stream.failed,
        decode_step(stream.codec, stream.buffered).result matches Ok(Some(frame)) && message_of(
            frame,
        ) == Some(message),
        0 < decode_step(stream.codec, stream.buffered).consumed <= stream.buffered.len(),
        forall|more: Seq<u8>| #[trigger]
            decode_step(stream.codec, stream.buffered + more) == decode_step(
                stream.codec,
                stream.buffered,
            ),
    ensures
        (StreamView {
            pending: stream.pending.push(message),
            buffered: stream.buffered.skip(
                decode_step(stream.codec, stream.buffered).consumed as int,
            ),
            codec: decode_step(stream.codec, stream.buffered).state,
            ..stream
        }).wf(),
{
    let step = decode_step(stream.codec, stream.buffered);
    let next = StreamView {
        pending: stream.pending.push(message),
        buffered: stream.buffered.skip(step.consumed as int),
        codec: step.state,
        ..stream
    };
    assert forall|more: Seq<u8>| #[trigger]
        decode_all(fresh_codec_state(), next.received + more) == with_earlier(
            next.decoded(),
            decode_all(next.codec, next.buffered + more),
        ) by {
        let input = stream.buffered + more;
        assert(input.skip(step.consumed as int) =~= next.buffered + more);
        assert(decode_all(stream.codec, input) == with_earlier(
            seq![message],
            decode_all(next.codec, next.buffered + more),
        ));
    }
}

/// Decoding again what decoding left over gives nothing more.
pub proof fn decode_all_leaves_nothing(state: CodecState, input: Seq<u8>)
    ensures
        decode_all(state, input).error is None ==> decode_all(
            decode_all(state, input).state,
            decode_all(state, input).rest,
        ) == nothing_decoded(decode_all(state, input).state, decode_all(state, input).rest),
    decreases input.len(),
{
    let step = decode_step(state, input);
    if step.result matches Ok(Some(frame)) && 0 < step.consumed <= input.len() && message_of(frame)
        is Some {
        decode_all_leaves_nothing(step.state, input.skip(step.consumed as int));
    }
}

/// Where decoding stands after `count` frames were decoded from the front of `input`
/// and each gave a message: the state of the codec and the bytes that are left.
/// `None` if fewer than `count` frames can be decoded so.
pub open spec fn after_frames(state: CodecState, input: Seq<u8>, count: nat) -> Option<
    (CodecState, Seq<u8>),
>
    decreases count,
{
    if count == 0 {
        Some((state, input))
    } else {
        let step = decode_step(state, input);
        if step.result matches Ok(Some(frame)) && message_of(frame) is Some && 0 < step.consumed
            <= input.len() {
            after_frames(step.state, input.skip(step.consumed as int), (count - 1) as nat)
        } else {
            None
        }
    }
}

/// The state that a run of events leads to, and the answers along the way.
pub open spec fn run(stream: StreamView, events: Seq<ReadEventView>) -> (
    StreamView,
    Seq<StreamActionView>,
)
    decreases events.len(),
{
    if events.len() == 0 {
        (stream, Seq::empty())
    } else {
        let (next, action) = stream.step(events.first());
        let (last, actions) = run(next, events.drop_first());
        (last, seq![action] + actions)
    }
}

/// A stream that has decoded what it could holds every message of its input: the
/// messages decoded so far are those that decoding all received bytes in one piece
/// gives.
pub proof fn caught_up_stream_has_decoded_its_input(stream: StreamView)
    requires
        stream.wf(),
        !stream.failed,
        stream.caught_up(),
    ensures
        decode_all(fresh_codec_state(), stream.received) == (Decoded {
            messages: stream.decoded(),
            state: stream.codec,
            rest: stream.buffered,
            error: None,
        }),
{
    assert(stream.received + Seq::<u8>::empty() =~= stream.received);
    assert(stream.buffered + Seq::<u8>::empty() =~= stream.buffered);
}

/// Chunk boundaries leave no trace. Two streams that received the same bytes, however
/// those were cut into chunks, and that have both decoded what they could, have decoded
/// the same messages in the same order, hold the same undecoded bytes and have their
/// codecs in the same state. Once both have handed out all they decoded, they have
/// handed out the same messages.
pub proof fn chunk_boundaries_leave_no_trace(a: StreamView, b: StreamView)
    requires
        a.wf(),
        b.wf(),
        !a.failed,
        !b.failed,
        a.caught_up(),
        b.caught_up(),
        a.received == b.received,
    ensures
        a.decoded() == b.decoded(),
        a.buffered == b.buffered,
        a.codec == b.codec,
        a.pending.len() == 0 && b.pending.len() == 0 ==> a.yielded == b.yielded,
{
    caught_up_stream_has_decoded_its_input(a);
    caught_up_stream_has_decoded_its_input(b);
}

/// After the stream has decoded what is buffered without an error, it is caught up.
pub proof fn conclude_catches_up(stream: StreamView)
    ensures
        !stream.conclude().0.failed ==> stream.conclude().0.caught_up(),
        !stream.decode().failed ==> stream.decode().caught_up(),
{
    decode_all_leaves_nothing(stream.codec, stream.buffered);
}

/// The sequence ends only when nothing is left to hand out and the transport is
/// exhausted, or after it has failed.
pub proof fn finish_means_nothing_is_left(stream: StreamView, event: ReadEventView)
    requires
        stream.step(event).1 == StreamActionView::Finish,
        !stream.failed,
    ensures
        stream.step(event).0.pending.len() == 0,
        stream.step(event).0.closing,
        !stream.step(event).0.failed,
{
}

/// Messages leave in the order in which they were decoded: what is handed out is the
/// oldest pending message, and the messages decoded so far stay the same sequence.
pub proof fn messages_leave_in_order(stream: StreamView, event: ReadEventView)
    requires
        stream.step(event).1 is Yield,
    ensures
        stream.pending.len() > 0 ==> stream.step(event).1 == StreamActionView::Yield(
            stream.pending.first(),
        ),
        stream.step(event).0.yielded == stream.yielded.push(stream.step(event).1->Yield_0),
        stream.step(event).0.decoded() == stream.decode().decoded() || stream.step(
            event,
        ).0.decoded() == stream.decoded(),
{
    if !(event is Polled && stream.pending.len() > 0) {
        assert((StreamView { closing: true, ..stream }).decode().decoded()
            == stream.decode().decoded());
    }
}

/// A text frame that is not UTF-8 ends the sequence with an error, however many good
/// frames are buffered in front of it: the stream fails with
/// [`StreamError::InvalidUtf8`] as soon as it decodes what is buffered.
pub proof fn invalid_text_fails_the_stream(stream: StreamView, good_frames: nat)
    requires
        !stream.failed,
        after_frames(stream.codec, stream.buffered, good_frames) matches Some((state, rest))
            && decode_step(state, rest).result matches Ok(Some(frame)) && message_of(frame)
            is None && 0 < decode_step(state, rest).consumed <= rest.len(),
    ensures
        stream.conclude().1 == StreamActionView::Fail(StreamErrorView::InvalidUtf8),
        stream.conclude().0.failed,
{
    invalid_text_stops_decoding(stream.codec, stream.buffered, good_frames);
}

/// Decoding stops with [`StreamError::InvalidUtf8`] at the first text frame that is
/// not UTF-8.
proof fn invalid_text_stops_decoding(state: CodecState, input: Seq<u8>, good_frames: nat)
    requires
        after_frames(state, input, good_frames) matches Some((last, rest)) && decode_step(
            last,
            rest,
        ).result matches Ok(Some(frame)) && message_of(frame) is None && 0 < decode_step(
            last,
            rest,
        ).consumed <= rest.len(),
    ensures
        decode_all(state, input).error == Some(StreamErrorView::InvalidUtf8),
    decreases good_frames,
{
    if good_frames > 0 {
        let step = decode_step(state, input);
        invalid_text_stops_decoding(
            step.state,
            input.skip(step.consumed as int),
            (good_frames - 1) as nat,
        );
    }
}

/// After the sequence has failed it yields no further item: every event is answered
/// with [`StreamAction::Finish`], and the state stays as it is.
pub proof fn failed_stream_yields_nothing(stream: StreamView, events: Seq<ReadEventView>)
    requires
        stream.failed,
    ensures
        run(stream, events).0 == stream,
        run(stream, events).1.len() == events.len(),
        forall|i: int|
            0 <= i < events.len() ==> #[trigger] run(stream, events).1[i]
                == StreamActionView::Finish,
    decreases events.len(),
{
    if events.len() > 0 {
        failed_stream_yields_nothing(stream, events.drop_first());
    }
}

} // verus!
