//! The values that travel through a session: messages, frames and errors.
//!
//! A [`Message`] is what the application sends and receives. A [`Frame`] is what the
//! frame codec hands back for one wire-level unit: it differs from a message only in
//! that the payload of a text frame is still raw bytes. Fragment items and close
//! reasons are carried through as the codec defines them; nothing here looks inside.

use actix_http::ws::{CloseReason, Item};
use vstd::prelude::*;
use vstd::utf8::{decode_utf8, valid_utf8};

use crate::codec::text_from_utf8;

verus! {

/// One application-level message.
#[derive(Debug, PartialEq, Eq)]
pub enum Message {
    /// UTF-8 text.
    Text(String),
    /// Arbitrary bytes.
    Binary(Vec<u8>),
    /// One fragment of a message that is sent in several frames.
    Continuation(Item),
    /// A ping with its payload.
    Ping(Vec<u8>),
    /// A pong with its payload.
    Pong(Vec<u8>),
    /// The close message, with the reason if one is given.
    Close(Option<CloseReason>),
}

/// The mathematical value of a [`Message`].
pub ghost enum MessageView {
    Text(Seq<char>),
    Binary(Seq<u8>),
    Continuation(Item),
    Ping(Seq<u8>),
    Pong(Seq<u8>),
    Close(Option<CloseReason>),
}

impl View for Message {
    type V = MessageView;

    open spec fn view(&self) -> MessageView {
        match *self {
            Message::Text(text) => MessageView::Text(text@),
            Message::Binary(bytes) => MessageView::Binary(bytes@),
            Message::Continuation(item) => MessageView::Continuation(item),
            Message::Ping(bytes) => MessageView::Ping(bytes@),
            Message::Pong(bytes) => MessageView::Pong(bytes@),
            Message::Close(reason) => MessageView::Close(reason),
        }
    }
}

/// The views of a sequence of messages, in order.
pub open spec fn message_views(messages: Seq<Message>) -> Seq<MessageView> {
    messages.map_values(|message: Message| message@)
}

/// One decoded wire-level frame.
#[derive(Debug, PartialEq, Eq)]
pub enum Frame {
    /// A text frame; the payload has not been checked to be UTF-8 yet.
    Text(Vec<u8>),
    /// A binary frame.
    Binary(Vec<u8>),
    /// One fragment of a fragmented message.
    Continuation(Item),
    /// A ping frame.
    Ping(Vec<u8>),
    /// A pong frame.
    Pong(Vec<u8>),
    /// A close frame.
    Close(Option<CloseReason>),
}

/// The mathematical value of a [`Frame`].
pub ghost enum FrameView {
    Text(Seq<u8>),
    Binary(Seq<u8>),
    Continuation(Item),
    Ping(Seq<u8>),
    Pong(Seq<u8>),
    Close(Option<CloseReason>),
}

impl View for Frame {
    type V = FrameView;

    open spec fn view(&self) -> FrameView {
        match *self {
            Frame::Text(bytes) => FrameView::Text(bytes@),
            Frame::Binary(bytes) => FrameView::Binary(bytes@),
            Frame::Continuation(item) => FrameView::Continuation(item),
            Frame::Ping(bytes) => FrameView::Ping(bytes@),
            Frame::Pong(bytes) => FrameView::Pong(bytes@),
            Frame::Close(reason) => FrameView::Close(reason),
        }
    }
}

/// Why a direction of the session ended with an error.
#[derive(Debug)]
pub enum StreamError {
    /// The frame codec refused a frame or a message.
    Codec(actix_http::ws::ProtocolError),
    /// A text frame whose payload is not UTF-8.
    InvalidUtf8,
    /// The transport failed; the text says how.
    Io(String),
}

/// The mathematical value of a [`StreamError`].
pub ghost enum StreamErrorView {
    Codec(actix_http::ws::ProtocolError),
    InvalidUtf8,
    Io(Seq<char>),
}

impl View for StreamError {
    type V = StreamErrorView;

    open spec fn view(&self) -> StreamErrorView {
        match *self {
            StreamError::Codec(error) => StreamErrorView::Codec(error),
            StreamError::InvalidUtf8 => StreamErrorView::InvalidUtf8,
            StreamError::Io(text) => StreamErrorView::Io(text@),
        }
    }
}

/// The message that a frame stands for, or `None` for a text frame whose payload is
/// not UTF-8. Every other frame is the message of the same kind with the same payload.
pub open spec fn message_of(frame: FrameView) -> Option<MessageView> {
    match frame {
        FrameView::Text(bytes) => if valid_utf8(bytes) {
            Some(MessageView::Text(decode_utf8(bytes)))
        } else {
            None
        },
        FrameView::Binary(bytes) => Some(MessageView::Binary(bytes)),
        FrameView::Continuation(item) => Some(MessageView::Continuation(item)),
        FrameView::Ping(bytes) => Some(MessageView::Ping(bytes)),
        FrameView::Pong(bytes) => Some(MessageView::Pong(bytes)),
        FrameView::Close(reason) => Some(MessageView::Close(reason)),
    }
}

impl Frame {
    /// Turns a frame into the message it stands for. The payload of a text frame is
    /// checked to be UTF-8 here, and the frame is refused if it is not.
    pub fn into_message(self) -> (r: Result<Message, StreamError>)
        ensures
            match message_of(self@) {
                Some(message) => r is Ok && r->Ok_0@ == message,
                None => r is Err && r->Err_0@ == StreamErrorView::InvalidUtf8,
            },
    {
        match self {
            Frame::Text(bytes) => match text_from_utf8(bytes) {
                Some(text) => Ok(Message::Text(text)),
                None => Err(StreamError::InvalidUtf8),
            },
            Frame::Binary(bytes) => Ok(Message::Binary(bytes)),
            Frame::Continuation(item) => Ok(Message::Continuation(item)),
            Frame::Ping(bytes) => Ok(Message::Ping(bytes)),
            Frame::Pong(bytes) => Ok(Message::Pong(bytes)),
            Frame::Close(reason) => Ok(Message::Close(reason)),
        }
    }
}

/// A copy of the bytes of a slice.
pub(crate) fn copy_of(bytes: &[u8]) -> (copy: Vec<u8>)
    ensures
        copy@ == bytes@,
{
    let mut copy: Vec<u8> = Vec::new();
    let mut i: usize = 0;
    while i < bytes.len()
        invariant
            i <= bytes.len(),
            copy@ == bytes@.take(i as int),
        decreases bytes.len() - i,
    {
        copy.push(bytes[i]);
        proof {
        }
        i = i + 1;
    }
    proof {
    }
    copy
}

} // verus!
