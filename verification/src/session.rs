//! The session handle: the application's side of the outbound direction.
//!
//! A [`Session`] decides; it does not wait. Each operation says whether a message may
//! still go out and hands back the message to put on the queue. Putting it there, and
//! waiting while the queue is full, is left to the caller, who reports the outcome to
//! [`Session::delivered`].
//!
//! All clones of a session share one flag. The first clone to close the session sets
//! it, in one atomic step that also tells that clone that it was the first. A clone
//! that finds the flag set lets go of its producer handle and fails from then on.

use actix_http::ws::CloseReason;
use std::sync::atomic::AtomicBool;
use std::sync::atomic::Ordering;
use std::sync::Arc;
use tokio::sync::mpsc::Sender;
use vstd::prelude::*;

use crate::message::{copy_of, Message, MessageView};
use crate::queue::{another_producer, same_flag};

verus! {

/// The error of every operation on a session that is closed.
#[derive(Debug)]
pub struct Closed;

/// The application's handle for sending messages.
pub struct Session {
    inner: Option<Sender<Message>>,
    closed: Arc<AtomicBool>,
}

/// The state of one [`Session`] handle.
pub ghost struct SessionView {
    /// The handle still holds its producer half of the queue.
    pub open: bool,
}

impl SessionView {
    /// What sending `message` comes to when the shared flag reads `closed`: the state
    /// of the handle afterwards, and the message to put on the queue if one may go
    /// out. A handle that finds the flag set, or has no producer, lets go of its
    /// producer and sends nothing.
    pub open spec fn send(self, closed: bool, message: MessageView) -> (
        SessionView,
        Option<MessageView>,
    ) {
        if self.open && !closed {
            (self, Some(message))
        } else {
            (SessionView { open: false }, None)
        }
    }

    /// What closing comes to when the shared flag read `closed` just before this
    /// handle set it: the handle lets go of its producer either way, and the close
    /// message goes out if the handle had a producer and was the first to set the
    /// flag.
    pub open spec fn close(self, closed: bool, reason: Option<CloseReason>) -> (
        SessionView,
        Option<MessageView>,
    ) {
        (
            SessionView { open: false },
            if self.open && !closed {
                Some(MessageView::Close(reason))
            } else {
                None
            },
        )
    }
}

impl SessionView {
    /// `after` and `sent` are what sending `message` comes to for one of the two
    /// readings of the shared flag.
    pub open spec fn sends(
        self,
        message: MessageView,
        after: SessionView,
        sent: Option<MessageView>,
    ) -> bool {
        (after, sent) == self.send(true, message) || (after, sent) == self.send(false, message)
    }

    /// `after` and `sent` are what closing comes to for one of the two readings of
    /// the shared flag.
    pub open spec fn closes(
        self,
        reason: Option<CloseReason>,
        after: SessionView,
        sent: Option<MessageView>,
    ) -> bool {
        (after, sent) == self.close(true, reason) || (after, sent) == self.close(false, reason)
    }
}

/// The view of what a send operation returned.
pub open spec fn sent_view(r: Result<Message, Closed>) -> Option<MessageView> {
    match r {
        Ok(message) => Some(message@),
        Err(_) => None,
    }
}

/// The view of what closing returned.
pub open spec fn closed_view(r: Result<(Sender<Message>, Message), Closed>) -> Option<
    MessageView,
> {
    match r {
        Ok((_, message)) => Some(message@),
        Err(_) => None,
    }
}

impl View for Session {
    type V = SessionView;

    closed spec fn view(&self) -> SessionView {
        SessionView { open: self.inner is Some }
    }
}

impl Session {
    /// The producer half of the queue that this handle holds, if it holds one.
    pub closed spec fn producer(&self) -> Option<Sender<Message>> {
        self.inner
    }

    /// A handle is open as long as it holds its producer.
    pub proof fn open_with_producer(&self)
        ensures
            self@.open == self.producer() is Some,
    {
    }
}

impl Clone for Session {
    /// Another handle of the same session: it shares the flag and the queue, and holds
    /// a producer if this one does.
    fn clone(&self) -> (copy: Session)
        ensures
            copy@ == self@,
    {
        let inner = match &self.inner {
            Some(inner) => Some(another_producer(inner)),
            None => None,
        };
        Session { inner, closed: same_flag(&self.closed) }
    }
}

impl Session {
    /// A session around the producer half of a queue, with a flag of its own that is
    /// not set.
    pub fn new(inner: Sender<Message>) -> (session: Session)
        ensures
            session@.open,
            session.producer() == Some(inner),
    {
        Session { inner: Some(inner), closed: Arc::new(AtomicBool::new(false)) }
    }

    /// Reads the shared flag, and lets go of the producer if the flag is set.
    fn pre_check(&mut self) -> (closed: bool)
        ensures
            final(self)@.open == (old(self)@.open && !closed),
            final(self)@.open ==> final(self).producer() == old(self).producer(),
    {
        let closed = self.closed.load(Ordering::Relaxed);
        if closed {
            self.inner.take();
        }
        closed
    }

    /// The decision of every send operation, for a given reading of the shared flag:
    /// `message` may go out if this handle has its producer and the flag is not set.
    /// Else the handle lets go of its producer and the operation fails.
    pub fn decide(&mut self, closed: bool, message: Message) -> (r: Result<Message, Closed>)
        ensures
            (final(self)@, sent_view(r)) == old(self)@.send(closed, message@),
            final(self)@.open ==> final(self).producer() == old(self).producer(),
    {
        if closed {
            self.inner.take();
        }
        if self.inner.is_some() {
            Ok(message)
        } else {
            Err(Closed)
        }
    }

    /// Reads the shared flag and decides on it whether `message` may go out.
    fn send(&mut self, message: Message) -> (r: Result<Message, Closed>)
        ensures
            old(self)@.sends(message@, final(self)@, sent_view(r)),
            final(self)@.open ==> final(self).producer() == old(self).producer(),
    {
        let closed = self.pre_check();
        self.decide(closed, message)
    }

    /// Sends a text message. The handle reads the shared flag: if the flag is set, or
    /// the handle has no producer, the handle lets go of its producer and the
    /// operation fails; else it hands back the message to put on the queue.
    pub fn text(&mut self, msg: String) -> (r: Result<Message, Closed>)
        ensures
            old(self)@.sends(MessageView::Text(msg@), final(self)@, sent_view(r)),
            final(self)@.open ==> final(self).producer() == old(self).producer(),
    {
        self.send(Message::Text(msg))
    }

    /// Sends a binary message. The handle reads the shared flag: if the flag is set,
    /// or the handle has no producer, the handle lets go of its producer and the
    /// operation fails; else it hands back the message to put on the queue.
    pub fn binary(&mut self, msg: Vec<u8>) -> (r: Result<Message, Closed>)
        ensures
            old(self)@.sends(MessageView::Binary(msg@), final(self)@, sent_view(r)),
            final(self)@.open ==> final(self).producer() == old(self).producer(),
    {
        self.send(Message::Binary(msg))
    }

    /// Sends a ping with a copy of `msg` as its payload. The handle reads the shared
    /// flag: if the flag is set, or the handle has no producer, the handle lets go of
    /// its producer and the operation fails; else it hands back the message to put on
    /// the queue.
    pub fn ping(&mut self, msg: &[u8]) -> (r: Result<Message, Closed>)
        ensures
            old(self)@.sends(MessageView::Ping(msg@), final(self)@, sent_view(r)),
            final(self)@.open ==> final(self).producer() == old(self).producer(),
    {
        self.send(Message::Ping(copy_of(msg)))
    }

    /// Sends a pong with a copy of `msg` as its payload. The handle reads the shared
    /// flag: if the flag is set, or the handle has no producer, the handle lets go of
    /// its producer and the operation fails; else it hands back the message to put on
    /// the queue.
    pub fn pong(&mut self, msg: &[u8]) -> (r: Result<Message, Closed>)
        ensures
            old(self)@.sends(MessageView::Pong(msg@), final(self)@, sent_view(r)),
            final(self)@.open ==> final(self).producer() == old(self).producer(),
    {
        self.send(Message::Pong(copy_of(msg)))
    }

    /// The decision of closing, for a given reading of the shared flag, taken in the
    /// same atomic step that set it: the handle lets go of its producer; if it had
    /// one and the flag was not set before, it hands back that producer with the
    /// close message to put on the queue through it.
    pub fn claim(&mut self, closed: bool, reason: Option<CloseReason>) -> (r: Result<
        (Sender<Message>, Message),
        Closed,
    >)
        ensures
            (final(self)@, closed_view(r)) == old(self)@.close(closed, reason),
            r matches Ok((inner, _)) ==> old(self).producer() == Some(inner),
    {
        match self.inner.take() {
            Some(inner) => if closed {
                Err(Closed)
            } else {
                Ok((inner, Message::Close(reason)))
            },
            None => Err(Closed),
        }
    }

    /// Closes the session. A handle without a producer fails and leaves the shared
    /// flag alone. Any other handle sets the flag and lets go of its producer; it
    /// fails if the flag was set already, else it hands back the producer with the
    /// close message to put on the queue through it.
    pub fn close(&mut self, reason: Option<CloseReason>) -> (r: Result<
        (Sender<Message>, Message),
        Closed,
    >)
        ensures
            old(self)@.closes(reason, final(self)@, closed_view(r)),
            r matches Ok((inner, _)) ==> old(self).producer() == Some(inner),
    {
        if self.inner.is_none() {
            return Err(Closed);
        }
        let closed = self.closed.swap(true, Ordering::Relaxed);
        self.claim(closed, reason)
    }

    /// The producer half of the queue, while this handle holds it.
    pub fn sender(&self) -> (inner: Option<&Sender<Message>>)
        ensures
            inner is Some == self@.open,
            inner matches Some(producer) ==> self.producer() == Some(*producer),
    {
        self.inner.as_ref()
    }

    /// What an operation returns once the queue has answered: success if the queue
    /// took the message, and [`Closed`] if it did not because its consumer is gone.
    pub fn delivered(accepted: bool) -> (r: Result<(), Closed>)
        ensures
            r is Ok == accepted,
    {
        if accepted {
            Ok(())
        } else {
            Err(Closed)
        }
    }
}

} // verus!
