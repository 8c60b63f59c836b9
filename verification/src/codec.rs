//! The frame codec and the byte buffer it works on.
//!
//! Framing is the work of `actix_http::ws::Codec`, and the bytes wait in a
//! `bytes::BytesMut`. Verus does not look inside either. What this module says about
//! them is believed, not proved: each item below names the outside function it stands
//! for and says what is claimed of it. The step from bytes to text, which is
//! `String::from_utf8`, is stated here too.

use actix_http::ws::Codec;
use bytes::BytesMut;
use tokio_util::codec::{Decoder, Encoder};
use vstd::prelude::*;
use vstd::utf8::{decode_utf8, valid_utf8};

use crate::message::{Frame, FrameView, Message, MessageView};

verus! {

/// `actix_http::ws::Codec`, the frame codec. Its state is read through [`codec_state`].
#[verifier::external_type_specification]
#[verifier::external_body]
pub struct ExCodec(actix_http::ws::Codec);

/// `actix_http::ws::Item`, one fragment of a fragmented message. Carried, never read.
#[verifier::external_type_specification]
#[verifier::external_body]
pub struct ExItem(actix_http::ws::Item);

/// `actix_http::ws::CloseReason`, the reason in a close message. Carried, never read.
#[verifier::external_type_specification]
#[verifier::external_body]
pub struct ExCloseReason(actix_http::ws::CloseReason);

/// `actix_http::ws::ProtocolError`, the codec's error. Carried, never read.
#[verifier::external_type_specification]
#[verifier::external_body]
pub struct ExCodecError(actix_http::ws::ProtocolError);

/// `bytes::BytesMut`, a growable byte buffer. Its contents are [`buffered`].
#[verifier::external_type_specification]
#[verifier::external_body]
pub struct ExBytesMut(bytes::BytesMut);

/// What a codec was made with and what it remembers between two frames.
pub ghost struct CodecState {
    /// The codec works for a client: it masks what it writes, each frame with a fresh
    /// random key, and expects unmasked frames.
    pub masking: bool,
    /// The longest payload that decoding accepts.
    pub frame_limit: nat,
    /// A fragmented message is being received.
    pub reading_fragments: bool,
    /// A fragmented message is being sent.
    pub writing_fragments: bool,
}

/// What encoding one message gives: the bytes of the frame or the codec's error, and
/// the state the codec is in afterwards.
pub ghost struct Encoding {
    pub result: Result<Seq<u8>, actix_http::ws::ProtocolError>,
    pub state: CodecState,
}

/// What one decoding step gives: a frame, the wish for more bytes (`Ok(None)`) or the
/// codec's error; how many bytes left the front of the input; and the state the codec
/// is in afterwards.
pub ghost struct Decoding {
    pub result: Result<Option<FrameView>, actix_http::ws::ProtocolError>,
    pub consumed: nat,
    pub state: CodecState,
}

/// The state of a codec: the mode and size limit it was made with and its two
/// fragmentation flags.
pub uninterp spec fn codec_state(codec: Codec) -> CodecState;

/// The bytes that a buffer holds, first to last.
pub uninterp spec fn buffered(buf: BytesMut) -> Seq<u8>;

/// What `Codec::encode` does with a message when the codec is in the given state.
pub uninterp spec fn encoding(state: CodecState, message: MessageView) -> Encoding;

/// What `Codec::decode` does with the given input when the codec is in the given
/// state, on a machine whose `usize` has `word_bits` bits.
pub uninterp spec fn decoding(state: CodecState, input: Seq<u8>, word_bits: nat) -> Decoding;

/// The state of a codec that was just made: it works for a server, accepts payloads
/// of up to 64 KiB and is in the middle of no fragmented message.
pub open spec fn fresh_codec_state() -> CodecState {
    CodecState {
        masking: false,
        frame_limit: 65536,
        reading_fragments: false,
        writing_fragments: false,
    }
}

/// The decoding step of this machine.
pub open spec fn decode_step(state: CodecState, input: Seq<u8>) -> Decoding {
    decoding(state, input, usize::BITS as nat)
}

/// The view of what a decoding step returned.
pub open spec fn decoded_view(
    r: Result<Option<Frame>, actix_http::ws::ProtocolError>,
) -> Result<Option<FrameView>, actix_http::ws::ProtocolError> {
    match r {
        Ok(Some(frame)) => Ok(Some(frame@)),
        Ok(None) => Ok(None),
        Err(error) => Err(error),
    }
}

/// `Codec::new`. The new codec is in [`fresh_codec_state`]: server mode, the default
/// size limit, no fragmentation flag set.
#[verifier::external_body]
pub(crate) fn new_codec() -> (codec: Codec)
    ensures
        codec_state(codec) == fresh_codec_state(),
{
    Codec::new()
}

/// `Codec::encode` (the `Encoder<Message>` impl), for a codec that does not mask.
///
/// Claimed: the outcome is [`encoding`] of the codec's state and the message. On
/// success the frame's bytes are appended to `dst` and nothing else in it changes; on
/// an error `dst` is as it was. The codec still does not mask afterwards. A message
/// that is no fragment is always encoded, and leaves the codec's state as it was:
/// only fragments can fail, and only they move the fragmentation flag.
#[verifier::external_body]
pub(crate) fn encode_frame(codec: &mut Codec, message: Message, dst: &mut BytesMut) -> (r: Result<
    (),
    actix_http::ws::ProtocolError,
>)
    requires
        !codec_state(*old(codec)).masking,
    ensures
        codec_state(*final(codec)) == encoding(codec_state(*old(codec)), message@).state,
        match encoding(codec_state(*old(codec)), message@).result {
            Ok(bytes) => r is Ok && buffered(*final(dst)) == buffered(*old(dst)) + bytes,
            Err(error) => r == Err::<(), actix_http::ws::ProtocolError>(error) && buffered(
                *final(dst),
            ) == buffered(*old(dst)),
        },
        !codec_state(*final(codec)).masking,
        !(message is Continuation) ==> r is Ok && codec_state(*final(codec)) == codec_state(
            *old(codec),
        ),
{
    let item = match message {
        Message::Text(text) => actix_http::ws::Message::Text(text.into()),
        Message::Binary(bytes) => actix_http::ws::Message::Binary(bytes.into()),
        Message::Continuation(item) => actix_http::ws::Message::Continuation(item),
        Message::Ping(bytes) => actix_http::ws::Message::Ping(bytes.into()),
        Message::Pong(bytes) => actix_http::ws::Message::Pong(bytes.into()),
        Message::Close(reason) => actix_http::ws::Message::Close(reason),
    };
    codec.encode(item, dst)
}

/// `Codec::decode` (the `Decoder` impl).
///
/// Claimed: the outcome is [`decode_step`] of the codec's state and the buffered
/// bytes. What the step consumed has left the front of `src`, and the rest is as it
/// was. When more bytes are needed, nothing is consumed and the codec's state is as
/// it was. A frame takes at least its two header bytes, and it is decided by the
/// bytes it takes: with more bytes behind them the step would have gone the same
/// way.
#[verifier::external_body]
pub(crate) fn decode_frame(codec: &mut Codec, src: &mut BytesMut) -> (r: Result<
    Option<Frame>,
    actix_http::ws::ProtocolError,
>)
    ensures
        ({
            let step = decoding(
                codec_state(*old(codec)),
                buffered(*old(src)),
                usize::BITS as nat,
            );
            &&& decoded_view(r) == step.result
            &&& codec_state(*final(codec)) == step.state
            &&& step.consumed <= buffered(*old(src)).len()
            &&& buffered(*final(src)) == buffered(*old(src)).skip(step.consumed as int)
            &&& r matches Ok(Some(_)) ==> step.consumed >= 2
            &&& r matches Ok(None) ==> step.consumed == 0 && step.state == codec_state(
                *old(codec),
            )
            &&& r matches Ok(Some(_)) ==> forall|more: Seq<u8>| #[trigger]
                decode_step(codec_state(*old(codec)), buffered(*old(src)) + more) == step
        }),
{
    Ok(match codec.decode(src)? {
        None => None,
        Some(actix_http::ws::Frame::Text(bytes)) => Some(Frame::Text(bytes.into())),
        Some(actix_http::ws::Frame::Binary(bytes)) => Some(Frame::Binary(bytes.into())),
        Some(actix_http::ws::Frame::Continuation(item)) => Some(Frame::Continuation(item)),
        Some(actix_http::ws::Frame::Ping(bytes)) => Some(Frame::Ping(bytes.into())),
        Some(actix_http::ws::Frame::Pong(bytes)) => Some(Frame::Pong(bytes.into())),
        Some(actix_http::ws::Frame::Close(reason)) => Some(Frame::Close(reason)),
    })
}

/// `BytesMut::new`: an empty buffer.
#[verifier::external_body]
pub(crate) fn new_buffer() -> (buf: BytesMut)
    ensures
        buffered(buf) == Seq::<u8>::empty(),
{
    BytesMut::new()
}

/// `BytesMut::extend_from_slice`: the bytes of `chunk` are appended to the buffer.
#[verifier::external_body]
pub(crate) fn extend_buffer(buf: &mut BytesMut, chunk: &[u8])
    ensures
        buffered(*final(buf)) == buffered(*old(buf)) + chunk@,
{
    buf.extend_from_slice(chunk)
}

/// `BytesMut::is_empty`: whether the buffer holds no byte.
#[verifier::external_body]
pub(crate) fn buffer_is_empty(buf: &BytesMut) -> (r: bool)
    ensures
        r == (buffered(*buf).len() == 0),
{
    buf.is_empty()
}

/// `BytesMut::split`: everything that the buffer holds is taken out of it, in order,
/// and the buffer is left empty.
#[verifier::external_body]
pub(crate) fn take_buffer(buf: &mut BytesMut) -> (bytes: Vec<u8>)
    ensures
        bytes@ == buffered(*old(buf)),
        buffered(*final(buf)) == Seq::<u8>::empty(),
{
    buf.split().into()
}

/// `String::from_utf8`: the text that the bytes spell, if they are UTF-8, and `None`
/// if they are not.
#[verifier::external_body]
pub(crate) fn text_from_utf8(bytes: Vec<u8>) -> (r: Option<String>)
    ensures
        match r {
            Some(text) => valid_utf8(bytes@) && text@ == decode_utf8(bytes@),
            None => !valid_utf8(bytes@),
        },
{
    match String::from_utf8(bytes) {
        Ok(text) => Some(text),
        Err(_) => None,
    }
}

} // verus!
