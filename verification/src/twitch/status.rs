//! The life cycle of a message.
use vstd::prelude::*;
use vstd::string::*;

verus! {

/// Lifecycle stage of a message. A message only ever moves forward:
/// `Unverified → Awaiting → InProcess → Completed`.
#[derive(Clone, Copy, Debug, PartialEq, Eq, Structural)]
pub enum MessageStatus {
    /// Waiting for a moderator's approval.
    Unverified,
    /// In the backlog, waiting to be served.
    Awaiting,
    /// Claimed by the poller and being handled.
    InProcess,
    /// Done; never touched again.
    Completed,
}

pub const UNVERIFIED: &'static str = "UNVERIFIED";

pub const AWAITING: &'static str = "AWAITING";

pub const IN_PROCESS: &'static str = "IN_PROCESS";

pub const COMPLETED: &'static str = "COMPLETED";

/// Why a stored tag could not be read back.
#[derive(Clone, Copy, Debug, PartialEq, Eq, Structural)]
pub enum TagError {
    /// The text names no status.
    UnknownStatus,
    /// The text names no command.
    UnknownCommand,
}

impl MessageStatus {
    /// Position of the stage in the progression.
    pub open spec fn rank(self) -> nat {
        match self {
            MessageStatus::Unverified => 0,
            MessageStatus::Awaiting => 1,
            MessageStatus::InProcess => 2,
            MessageStatus::Completed => 3,
        }
    }

    /// The transitions that exist: a moderator's approval, the poller's claim
    /// and completion, and the router's claim, which completes an awaiting
    /// message directly.
    pub open spec fn allows(self, to: MessageStatus) -> bool {
        ||| self == MessageStatus::Unverified && to == MessageStatus::Awaiting
        ||| self == MessageStatus::Awaiting && to == MessageStatus::InProcess
        ||| self == MessageStatus::Awaiting && to == MessageStatus::Completed
        ||| self == MessageStatus::InProcess && to == MessageStatus::Completed
    }

    /// The stages at which a message enters the log: waiting for approval,
    /// or awaiting service.
    pub open spec fn enters(self) -> bool {
        self == MessageStatus::Unverified || self == MessageStatus::Awaiting
    }

    /// The tag under which the stage is persisted.
    pub open spec fn tag(self) -> Seq<char> {
        match self {
            MessageStatus::Unverified => UNVERIFIED@,
            MessageStatus::Awaiting => AWAITING@,
            MessageStatus::InProcess => IN_PROCESS@,
            MessageStatus::Completed => COMPLETED@,
        }
    }

    /// The stage that a tag names, if any.
    pub open spec fn of_tag(tag: Seq<char>) -> Option<MessageStatus> {
        if tag == UNVERIFIED@ {
            Some(MessageStatus::Unverified)
        } else if tag == AWAITING@ {
            Some(MessageStatus::Awaiting)
        } else if tag == IN_PROCESS@ {
            Some(MessageStatus::InProcess)
        } else if tag == COMPLETED@ {
            Some(MessageStatus::Completed)
        } else {
            None
        }
    }

    /// Whether a message may enter the log at this stage.
    pub fn is_entry(self) -> (r: bool)
        ensures
            r == self.enters(),
    {
        match self {
            MessageStatus::Unverified => true,
            MessageStatus::Awaiting => true,
            MessageStatus::InProcess => false,
            MessageStatus::Completed => false,
        }
    }

    pub fn can_become(self, to: MessageStatus) -> (r: bool)
        ensures
            r == self.allows(to),
    {
        match self {
            MessageStatus::Unverified => to == MessageStatus::Awaiting,
            MessageStatus::Awaiting => to == MessageStatus::InProcess || to
                == MessageStatus::Completed,
            MessageStatus::InProcess => to == MessageStatus::Completed,
            MessageStatus::Completed => false,
        }
    }

    /// Whether no transition leaves this stage.
    pub fn is_terminal(self) -> (r: bool)
        ensures
            r == (self == MessageStatus::Completed),
            r == (forall|to: MessageStatus| !self.allows(to)),
    {
        proof {
            if self != MessageStatus::Completed {
                assert(self.allows(MessageStatus::Awaiting) || self.allows(
                    MessageStatus::Completed,
                ));
            }
        }
        self == MessageStatus::Completed
    }

    pub fn to_string(&self) -> (r: String)
        ensures
            r@ == self.tag(),
    {
        match self {
            MessageStatus::Unverified => String::from_str(UNVERIFIED),
            MessageStatus::Awaiting => String::from_str(AWAITING),
            MessageStatus::InProcess => String::from_str(IN_PROCESS),
            MessageStatus::Completed => String::from_str(COMPLETED),
        }
    }

    pub fn from_str(tag: &str) -> (r: Result<MessageStatus, TagError>)
        ensures
            match r {
                Ok(status) => MessageStatus::of_tag(tag@) == Some(status),
                Err(e) => e == TagError::UnknownStatus && MessageStatus::of_tag(tag@) is None,
            },
    {
        let given = String::from_str(tag);
        if given == String::from_str(UNVERIFIED) {
            Ok(MessageStatus::Unverified)
        } else if given == String::from_str(AWAITING) {
            Ok(MessageStatus::Awaiting)
        } else if given == String::from_str(IN_PROCESS) {
            Ok(MessageStatus::InProcess)
        } else if given == String::from_str(COMPLETED) {
            Ok(MessageStatus::Completed)
        } else {
            Err(TagError::UnknownStatus)
        }
    }
}

/// Every transition moves strictly forward, so no sequence of transitions
/// returns to a stage already left.
pub proof fn lemma_transitions_advance(from: MessageStatus, to: MessageStatus)
    requires
        from.allows(to),
    ensures
        from.rank() < to.rank(),
{
}

/// Reading back the tag of a stage gives that stage.
pub proof fn lemma_status_tag_round_trip(status: MessageStatus)
    ensures
        MessageStatus::of_tag(status.tag()) == Some(status),
{
    reveal_strlit("UNVERIFIED");
    reveal_strlit("AWAITING");
    reveal_strlit("IN_PROCESS");
    reveal_strlit("COMPLETED");
    assert(AWAITING@.len() == 8);
    assert(IN_PROCESS@[0] == 'I');
    assert(COMPLETED@[0] == 'C');
}

} // verus!
