//! The per-exchange session record: one client-server exchange's pair of
//! transfer identifiers, its sequence counter, and the latest message.
use crate::msg::AnyMessage;
use vstd::prelude::*;

verus! {

/// A transfer identifier: one side's endpoint for an exchange.
pub type TID = u16;

/// Counts the messages recorded in one exchange.
pub type SequenceNumber = u16;

/// One exchange's state: the two endpoint identifiers, how many messages
/// have been recorded, and the most recently recorded message.
#[derive(Debug)]
pub struct Connection {
    local_tid: TID,
    remote_tid: TID,
    curr_seq: SequenceNumber,
    last_msg: Option<AnyMessage>,
}

impl Connection {
    /// The local endpoint's transfer identifier.
    pub closed spec fn spec_local_tid(self) -> TID {
        self.local_tid
    }

    /// The remote endpoint's transfer identifier.
    pub closed spec fn spec_remote_tid(self) -> TID {
        self.remote_tid
    }

    /// How many messages have been recorded.
    pub closed spec fn spec_curr_seq(self) -> SequenceNumber {
        self.curr_seq
    }

    /// The most recently recorded message, if any.
    pub closed spec fn spec_last_msg(self) -> Option<AnyMessage> {
        self.last_msg
    }

    /// The record a fresh exchange starts from: sequence zero, no
    /// message yet.
    pub closed spec fn spec_new(local_tid: TID, remote_tid: TID) -> Connection {
        Connection { local_tid, remote_tid, curr_seq: 0, last_msg: None }
    }

    /// The record after one more message is recorded: the message
    /// becomes the latest, the counter advances by exactly one, and the
    /// identifiers are untouched.
    pub closed spec fn spec_add_msg(self, message: AnyMessage) -> Connection {
        Connection {
            local_tid: self.local_tid,
            remote_tid: self.remote_tid,
            curr_seq: (self.curr_seq + 1) as u16,
            last_msg: Some(message),
        }
    }

    /// Opens an exchange between two endpoints. Zero is a legal
    /// identifier like any other.
    pub fn new(local_tid: TID, remote_tid: TID) -> (r: Self)
        ensures
            r == Self::spec_new(local_tid, remote_tid),
            r.spec_local_tid() == local_tid,
            r.spec_remote_tid() == remote_tid,
            r.spec_curr_seq() == 0,
            r.spec_last_msg() is None,
    {
        Connection { local_tid, remote_tid, curr_seq: 0, last_msg: None }
    }

    /// The local endpoint's transfer identifier.
    pub fn local_tid(&self) -> (r: TID)
        ensures
            r == self.spec_local_tid(),
    {
        self.local_tid
    }

    /// The remote endpoint's transfer identifier.
    pub fn remote_tid(&self) -> (r: TID)
        ensures
            r == self.spec_remote_tid(),
    {
        self.remote_tid
    }

    /// How many messages have been recorded in this exchange.
    pub fn curr_seq(&self) -> (r: SequenceNumber)
        ensures
            r == self.spec_curr_seq(),
    {
        self.curr_seq
    }

    /// An independent copy of the most recently recorded message, if
    /// any; the record's own copy cannot be reached through it.
    pub fn last_msg(&self) -> (r: Option<AnyMessage>)
        ensures
            match r {
                None => self.spec_last_msg() is None,
                Some(m) => self.spec_last_msg() matches Some(n) && m.content_eq(n),
            },
    {
        match &self.last_msg {
            None => None,
            Some(m) => Some(m.clone()),
        }
    }

    /// Records a message: stores it as the latest and advances the
    /// sequence counter by exactly one.
    pub fn add_msg(&mut self, message: AnyMessage)
        requires
            old(self).spec_curr_seq() < 0xFFFF,
        ensures
            *final(self) == old(self).spec_add_msg(message),
            final(self).spec_curr_seq() == old(self).spec_curr_seq() + 1,
            final(self).spec_last_msg() == Some(message),
            final(self).spec_local_tid() == old(self).spec_local_tid(),
            final(self).spec_remote_tid() == old(self).spec_remote_tid(),
    {
        self.last_msg = Some(message);
        self.curr_seq = self.curr_seq + 1;
    }

    /// The record after a whole sequence of messages is recorded in
    /// order.
    pub open spec fn spec_record_all(c: Connection, msgs: Seq<AnyMessage>) -> Connection
        decreases msgs.len(),
    {
        if msgs.len() == 0 {
            c
        } else {
            Self::spec_record_all(c.spec_add_msg(msgs[0]), msgs.drop_first())
        }
    }

    /// Recording a sequence of messages advances the counter by its
    /// length and leaves its last message as the latest.
    proof fn lemma_record_all(c: Connection, msgs: Seq<AnyMessage>)
        requires
            c.spec_curr_seq() + msgs.len() <= 0xFFFF,
        ensures
            Self::spec_record_all(c, msgs).spec_curr_seq() == c.spec_curr_seq() + msgs.len(),
            msgs.len() > 0 ==> Self::spec_record_all(c, msgs).spec_last_msg() == Some(msgs.last()),
            msgs.len() == 0 ==> Self::spec_record_all(c, msgs).spec_last_msg()
                == c.spec_last_msg(),
            Self::spec_record_all(c, msgs).spec_local_tid() == c.spec_local_tid(),
            Self::spec_record_all(c, msgs).spec_remote_tid() == c.spec_remote_tid(),
        decreases msgs.len(),
    {
        if msgs.len() > 0 {
            Self::lemma_record_all(c.spec_add_msg(msgs[0]), msgs.drop_first());
            if msgs.len() > 1 {
                assert(msgs.drop_first().last() == msgs.last());
            }
        }
    }

    /// Sequence monotonicity: a fresh record, after recording N messages
    /// in order, has sequence number N, holds the Nth message as its
    /// latest, and keeps its endpoint identifiers.
    pub proof fn lemma_sequence_monotonicity(local_tid: TID, remote_tid: TID, msgs: Seq<AnyMessage>)
        requires
            msgs.len() <= 0xFFFF,
        ensures
            ({
                let c = Self::spec_record_all(Self::spec_new(local_tid, remote_tid), msgs);
                c.spec_curr_seq() == msgs.len() && (msgs.len() > 0 ==> c.spec_last_msg() == Some(
                    msgs.last(),
                )) && (msgs.len() == 0 ==> c.spec_last_msg() is None) && c.spec_local_tid()
                    == local_tid && c.spec_remote_tid() == remote_tid
            }),
    {
        Self::lemma_record_all(Self::spec_new(local_tid, remote_tid), msgs);
    }
}

} // verus!
