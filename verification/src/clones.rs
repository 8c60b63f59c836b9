//! All clones of one session, around the flag and the queue that they share.
//!
//! This is a model: it has no executable part. A [`Group`] holds the shared flag, the
//! messages that the queue took so far and the state of every handle. A [`Move`] is
//! one atomic step of one handle or of the queue. An operation on a session takes two
//! moves: the handle decides, reading or setting the flag as [`Session`] does, and
//! later the queue answers. Between the two, other handles may move, which is how
//! concurrent callers are modelled.
//!
//! [`Session`]: crate::session::Session

use actix_http::ws::CloseReason;
use vstd::prelude::*;

use crate::body::whole_messages;
use crate::message::MessageView;
use crate::session::SessionView;

verus! {

/// One handle and the message it waits to put on the queue, if it waits with one.
pub ghost struct Handle {
    pub session: SessionView,
    pub outgoing: Option<MessageView>,
}

/// All handles of a session with what they share.
#[verifier::ext_equal]
pub ghost struct Group {
    /// The shared flag is set.
    pub closed: bool,
    /// Every message that the queue took so far, in order.
    pub queued: Seq<MessageView>,
    /// The consumer half of the queue is gone.
    pub consumer_gone: bool,
    /// The handles.
    pub handles: Seq<Handle>,
}

/// One atomic step.
pub ghost enum Move {
    /// Handle `who` starts to send `message`, which is a text, binary, ping or pong
    /// message.
    Send { who: int, message: MessageView },
    /// Handle `who` starts to close the session.
    Close { who: int, reason: Option<CloseReason> },
    /// The queue answers handle `who`, which waits with a message.
    Deliver { who: int },
    /// Handle `who` is cloned.
    Duplicate { who: int },
    /// The consumer half of the queue is dropped.
    DropConsumer,
}

/// What a move comes to for the one who made it.
pub ghost enum Outcome {
    /// The operation failed at once: the session is closed.
    Refused,
    /// The handle now waits to put its message on the queue.
    Waiting,
    /// The queue took the message: the operation succeeded.
    Delivered,
    /// The queue did not take the message, its consumer being gone: the operation
    /// failed.
    Lost,
    /// The move was none of an operation, or could not be made.
    Nothing,
}

impl Handle {
    /// The handle waits with a close message.
    pub open spec fn closing(self) -> bool {
        self.outgoing matches Some(message) && message is Close
    }
}

/// The messages that the send operations of a session put on the queue.
pub open spec fn sendable(message: MessageView) -> bool {
    message is Text || message is Binary || message is Ping || message is Pong
}

impl Group {
    /// `who` is a handle that waits with no message.
    pub open spec fn idle(self, who: int) -> bool {
        0 <= who < self.handles.len() && self.handles[who].outgoing is None
    }

    /// No handle waits with a message.
    pub open spec fn quiet(self) -> bool {
        forall|who: int| 0 <= who < self.handles.len() ==> (#[trigger] self.handles[who]).outgoing
            is None
    }

    /// The group after one move, and what the move came to.
    pub open spec fn step(self, mv: Move) -> (Group, Outcome) {
        match mv {
            Move::Send { who, message } => if self.idle(who) && sendable(message) {
                let (session, outgoing) = self.handles[who].session.send(self.closed, message);
                (
                    Group {
                        handles: self.handles.update(who, Handle { session, outgoing }),
                        ..self
                    },
                    if outgoing is Some {
                        Outcome::Waiting
                    } else {
                        Outcome::Refused
                    },
                )
            } else {
                (self, Outcome::Nothing)
            },
            Move::Close { who, reason } => if self.idle(who) {
                if self.handles[who].session.open {
                    let (session, outgoing) = self.handles[who].session.close(
                        self.closed,
                        reason,
                    );
                    (
                        Group {
                            closed: true,
                            handles: self.handles.update(who, Handle { session, outgoing }),
                            ..self
                        },
                        if outgoing is Some {
                            Outcome::Waiting
                        } else {
                            Outcome::Refused
                        },
                    )
                } else {
                    (self, Outcome::Refused)
                }
            } else {
                (self, Outcome::Nothing)
            },
            Move::Deliver { who } => if 0 <= who < self.handles.len()
                && self.handles[who].outgoing is Some {
                let emptied = self.handles.update(
                    who,
                    Handle { outgoing: None, ..self.handles[who] },
                );
                if self.consumer_gone {
                    (Group { handles: emptied, ..self }, Outcome::Lost)
                } else {
                    (
                        Group {
                            queued: self.queued.push(self.handles[who].outgoing->Some_0),
                            handles: emptied,
                            ..self
                        },
                        Outcome::Delivered,
                    )
                }
            } else {
                (self, Outcome::Nothing)
            },
            Move::Duplicate { who } => if 0 <= who < self.handles.len() {
                (
                    Group {
                        handles: self.handles.push(
                            Handle { session: self.handles[who].session, outgoing: None },
                        ),
                        ..self
                    },
                    Outcome::Nothing,
                )
            } else {
                (self, Outcome::Nothing)
            },
            Move::DropConsumer => (Group { consumer_gone: true, ..self }, Outcome::Nothing),
        }
    }

    /// The group after a run of moves, and what each move came to.
    pub open spec fn run(self, moves: Seq<Move>) -> (Group, Seq<Outcome>)
        decreases moves.len(),
    {
        if moves.len() == 0 {
            (self, Seq::empty())
        } else {
            let (next, outcome) = self.step(moves.first());
            let (last, outcomes) = next.run(moves.drop_first());
            (last, seq![outcome] + outcomes)
        }
    }

    /// Every message on the queue or on its way there is one that a session sends: a
    /// text, binary, ping, pong or close message.
    pub open spec fn carries_session_messages(self) -> bool {
        &&& forall|i: int|
            0 <= i < self.queued.len() ==> {
                ||| sendable(#[trigger] self.queued[i])
                ||| self.queued[i] is Close
            }
        &&& forall|who: int|
            0 <= who < self.handles.len() ==> ((#[trigger] self.handles[who]).outgoing
                matches Some(message) ==> sendable(message) || message is Close)
    }

    /// At most one close message exists, on the queue or on its way there, and none
    /// at all while the flag is not set.
    pub open spec fn closes_once(self) -> bool {
        &&& !self.closed ==> {
            &&& forall|i: int| 0 <= i < self.queued.len() ==> !(#[trigger] self.queued[i] is Close)
            &&& forall|who: int|
                0 <= who < self.handles.len() ==> !(#[trigger] self.handles[who]).closing()
        }
        &&& forall|i: int, j: int|
            0 <= i < self.queued.len() && 0 <= j < self.queued.len() && (
            #[trigger] self.queued[i]) is Close && (#[trigger] self.queued[j]) is Close ==> i == j
        &&& forall|a: int, b: int|
            0 <= a < self.handles.len() && 0 <= b < self.handles.len() && (
            #[trigger] self.handles[a]).closing() && (#[trigger] self.handles[b]).closing() ==> a
                == b
        &&& forall|i: int, who: int|
            0 <= i < self.queued.len() && 0 <= who < self.handles.len() ==> !((
            #[trigger] self.queued[i]) is Close && (#[trigger] self.handles[who]).closing())
    }
}

/// The first handle to close wins: while the flag is not set, a handle that has its
/// producer and closes sets the flag, lets go of its producer and goes on to put its
/// close message on the queue.
pub proof fn first_close_wins(group: Group, who: int, reason: Option<CloseReason>)
    requires
        !group.closed,
        group.idle(who),
        group.handles[who].session.open,
    ensures
        group.step(Move::Close { who, reason }).1 == Outcome::Waiting,
        group.step(Move::Close { who, reason }).0.closed,
        group.step(Move::Close { who, reason }).0.handles[who] == (Handle {
            session: SessionView { open: false },
            outgoing: Some(MessageView::Close(reason)),
        }),
{
}

/// Once the flag is set, every operation that is started fails at once, on whichever
/// handle, and leaves that handle without a producer: nothing new is on its way to
/// the queue.
pub proof fn closed_session_refuses(group: Group, mv: Move)
    requires
        group.closed,
        mv is Send || mv is Close,
    ensures
        group.step(mv).1 == Outcome::Refused || group.step(mv).1 == Outcome::Nothing,
        group.step(mv).0.closed,
        group.step(mv).0.queued == group.queued,
        group.quiet() ==> group.step(mv).0.quiet(),
        group.step(mv).1 == Outcome::Refused ==> match mv {
            Move::Send { who, .. } => !group.step(mv).0.handles[who].session.open,
            Move::Close { who, .. } => !group.step(mv).0.handles[who].session.open,
            _ => true,
        },
{
}

/// Of two handles that close the session one after the other in however short a
/// time, the first sets the flag and goes on with the one close message; the second
/// finds the flag set, fails and puts nothing on the queue. When the queue then
/// answers the first, exactly one close message has been put on it.
pub proof fn racing_closes_send_one_close(
    group: Group,
    first: int,
    second: int,
    first_reason: Option<CloseReason>,
    second_reason: Option<CloseReason>,
)
    requires
        !group.closed,
        !group.consumer_gone,
        first != second,
        group.idle(first),
        group.idle(second),
        group.handles[first].session.open,
    ensures
        ({
            let (claimed, won) = group.step(Move::Close { who: first, reason: first_reason });
            let (refused, lost) = claimed.step(Move::Close { who: second, reason: second_reason });
            let (answered, done) = refused.step(Move::Deliver { who: first });
            let (same, nothing) = answered.step(Move::Deliver { who: second });
            &&& won == Outcome::Waiting
            &&& lost == Outcome::Refused
            &&& done == Outcome::Delivered
            &&& nothing == Outcome::Nothing
            &&& same == answered
            &&& answered.queued == group.queued.push(MessageView::Close(first_reason))
            &&& !answered.handles[first].session.open
            &&& !answered.handles[second].session.open
            &&& answered.quiet() == (forall|who: int|
                0 <= who < group.handles.len() && who != first && who != second ==> (
                #[trigger] group.handles[who]).outgoing is None)
        }),
{
    let claimed = group.step(Move::Close { who: first, reason: first_reason }).0;
    let refused = claimed.step(Move::Close { who: second, reason: second_reason }).0;
    let answered = refused.step(Move::Deliver { who: first }).0;
    if answered.quiet() {
        assert forall|who: int|
            0 <= who < group.handles.len() && who != first && who != second implies (
        #[trigger] group.handles[who]).outgoing is None by {
            assert(answered.handles[who] == group.handles[who]);
        }
    }
}

/// No move breaks [`Group::closes_once`].
pub proof fn step_closes_once(group: Group, mv: Move)
    requires
        group.closes_once(),
    ensures
        group.step(mv).0.closes_once(),
        group.closed ==> group.step(mv).0.closed,
{
}

/// At most one close message is ever put on the queue, whatever the handles do and in
/// whatever order: a group in which at most one close message exists stays so through
/// every run of moves.
pub proof fn at_most_one_close_message(group: Group, moves: Seq<Move>)
    requires
        group.closes_once(),
    ensures
        group.run(moves).0.closes_once(),
        group.closed ==> group.run(moves).0.closed,
    decreases moves.len(),
{
    if moves.len() > 0 {
        step_closes_once(group, moves.first());
        at_most_one_close_message(group.step(moves.first()).0, moves.drop_first());
    }
}

/// Sessions put no fragment on the queue. Whatever the handles do, every message that
/// the queue takes is a text, binary, ping, pong or close message, so the body that
/// encodes them is given whole messages only.
pub proof fn sessions_queue_whole_messages(group: Group, moves: Seq<Move>)
    requires
        group.carries_session_messages(),
    ensures
        group.run(moves).0.carries_session_messages(),
        whole_messages(group.run(moves).0.queued),
    decreases moves.len(),
{
    if moves.len() > 0 {
        sessions_queue_whole_messages(group.step(moves.first()).0, moves.drop_first());
    }
}

/// After the session is closed nothing more is sent. Once the flag is set and no
/// handle waits with a message, as it is when a close has succeeded and no other
/// operation was under way, every operation that any handle starts fails at once,
/// clones made later included, and no message is put on the queue any more.
pub proof fn nothing_is_sent_after_close(group: Group, moves: Seq<Move>)
    requires
        group.closed,
        group.quiet(),
    ensures
        group.run(moves).0.closed,
        group.run(moves).0.quiet(),
        group.run(moves).0.queued == group.queued,
        group.run(moves).1.len() == moves.len(),
        forall|i: int|
            0 <= i < moves.len() ==> (#[trigger] group.run(moves).1[i]) == Outcome::Refused
                || group.run(moves).1[i] == Outcome::Nothing,
    decreases moves.len(),
{
    if moves.len() > 0 {
        let mv = moves.first();
        if mv is Send || mv is Close {
            closed_session_refuses(group, mv);
        }
        nothing_is_sent_after_close(group.step(mv).0, moves.drop_first());
    }
}

/// Nothing follows a close that succeeded. When a handle closes the session while no
/// operation is under way, and the queue takes its close message, then that message
/// is the last that the queue ever takes: whatever any handle starts afterwards, on
/// the closing handle, on another or on a clone made later, fails at once.
pub proof fn nothing_follows_a_close_that_succeeded(
    group: Group,
    who: int,
    reason: Option<CloseReason>,
    later: Seq<Move>,
)
    requires
        group.quiet(),
        group.idle(who),
        group.step(Move::Close { who, reason }).0.step(Move::Deliver { who }).1
            == Outcome::Delivered,
    ensures
        ({
            let claimed = group.step(Move::Close { who, reason }).0;
            let closed = claimed.step(Move::Deliver { who }).0;
            let (last, outcomes) = closed.run(later);
            &&& closed.queued == group.queued.push(MessageView::Close(reason))
            &&& last.queued == closed.queued
            &&& outcomes.len() == later.len()
            &&& forall|i: int|
                0 <= i < later.len() ==> (#[trigger] outcomes[i]) == Outcome::Refused
                    || outcomes[i] == Outcome::Nothing
        }),
{
    let claimed = group.step(Move::Close { who, reason }).0;
    nothing_is_sent_after_close(claimed.step(Move::Deliver { who }).0, later);
}

} // verus!
