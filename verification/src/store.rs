//! The message log: an append-only table of messages, ordered by creation,
//! with the queries and the status transitions that its consumers use.
use crate::twitch::chat_message::{ChatMessage, MessageId, MessageView};
use crate::twitch::commands::MessageCommands;
use crate::twitch::status::MessageStatus;
use vstd::prelude::*;
use vstd::string::*;

verus! {

/// Why the store refused an operation.
#[derive(Clone, Copy, Debug, PartialEq, Eq, Structural)]
pub enum StoreError {
    /// No message has the given identifier.
    NotFound,
    /// The message's status does not allow the transition asked for.
    IllegalTransition,
    /// The message is at a stage at which no message enters the log.
    NotAdmitted,
}

/// A request to move one message from one stage to another. It is met only
/// if the message is at stage `from` when the request is carried out.
#[derive(Clone, Copy, Debug, PartialEq, Eq, Structural)]
pub struct Claim {
    pub id: MessageId,
    pub from: MessageStatus,
    pub to: MessageStatus,
}

/// A request for the oldest message at a stage, among those of one kind if
/// a kind is given.
#[derive(Clone, Copy, Debug, PartialEq, Eq, Structural)]
pub struct Query {
    pub status: MessageStatus,
    pub command: Option<MessageCommands>,
}

/// What the query finds in the log.
pub open spec fn found(log: Seq<MessageView>, query: Query) -> Option<MessageView> {
    match oldest(log, query.status, query.command) {
        Some(at) => Some(log[at]),
        None => None,
    }
}

/// Identifiers and ordering keys follow the order of insertion.
pub open spec fn well_formed(log: Seq<MessageView>) -> bool {
    forall|i: int|
        0 <= i < log.len() ==> {
            &&& (#[trigger] log[i]).id == Some(MessageId(i as u128))
            &&& log[i].created_at == i
        }
}

/// The predicate "is at stage `status`".
pub open spec fn at_stage(status: MessageStatus) -> spec_fn(MessageView) -> bool {
    |m: MessageView| m.status == status
}

/// Number of messages at stage `status`.
pub open spec fn count_of(log: Seq<MessageView>, status: MessageStatus) -> nat {
    log.filter(at_stage(status)).len()
}

/// Whether a query for `status`, narrowed to `command` if one is given,
/// selects the message.
pub open spec fn selects(
    m: MessageView,
    status: MessageStatus,
    command: Option<MessageCommands>,
) -> bool {
    m.status == status && (command matches Some(kind) ==> m.kind == kind)
}

/// Position of the first message at or after `from` that the query selects.
pub open spec fn oldest_from(
    log: Seq<MessageView>,
    status: MessageStatus,
    command: Option<MessageCommands>,
    from: int,
) -> Option<int>
    decreases log.len() - from,
{
    if from < 0 || from >= log.len() {
        None
    } else if selects(log[from], status, command) {
        Some(from)
    } else {
        oldest_from(log, status, command, from + 1)
    }
}

/// `oldest_from` gives the first selected position at or after `from`.
pub proof fn lemma_oldest_from(
    log: Seq<MessageView>,
    status: MessageStatus,
    command: Option<MessageCommands>,
    from: int,
)
    requires
        0 <= from,
    ensures
        match oldest_from(log, status, command, from) {
            Some(at) => {
                &&& from <= at < log.len()
                &&& selects(log[at], status, command)
                &&& forall|i: int| from <= i < at ==> !selects(#[trigger] log[i], status, command)
            },
            None => forall|i: int|
                from <= i < log.len() ==> !selects(#[trigger] log[i], status, command),
        },
    decreases log.len() - from,
{
    if from < log.len() && !selects(log[from], status, command) {
        lemma_oldest_from(log, status, command, from + 1);
    }
}

/// Position of the oldest message that the query selects.
pub open spec fn oldest(
    log: Seq<MessageView>,
    status: MessageStatus,
    command: Option<MessageCommands>,
) -> Option<int> {
    oldest_from(log, status, command, 0)
}

/// Position of the first message at or after `from` that `username` wrote
/// and that is at stage `status`.
pub open spec fn oldest_by_from(
    log: Seq<MessageView>,
    status: MessageStatus,
    username: Seq<char>,
    from: int,
) -> Option<int>
    decreases log.len() - from,
{
    if from < 0 || from >= log.len() {
        None
    } else if log[from].status == status && log[from].username == username {
        Some(from)
    } else {
        oldest_by_from(log, status, username, from + 1)
    }
}

/// Whether some message carries `text`.
pub open spec fn has_text(log: Seq<MessageView>, text: Seq<char>) -> bool {
    exists|i: int| 0 <= i < log.len() && (#[trigger] log[i]).text == text
}

/// Whether some message of `username` is at stage `status`.
pub open spec fn has_author_at(
    log: Seq<MessageView>,
    username: Seq<char>,
    status: MessageStatus,
) -> bool {
    exists|i: int|
        0 <= i < log.len() && (#[trigger] log[i]).username == username && log[i].status == status
}

/// The message as the store keeps it: with the next identifier and the
/// next ordering key.
pub open spec fn stored(log: Seq<MessageView>, m: MessageView) -> MessageView {
    MessageView { id: Some(MessageId(log.len() as u128)), created_at: log.len() as u64, ..m }
}

/// The log after `m` is appended.
pub open spec fn inserted(log: Seq<MessageView>, m: MessageView) -> Seq<MessageView> {
    log.push(stored(log, m))
}

/// The log after `m` has asked to enter: appended if it is at a stage at
/// which messages enter, and left out otherwise.
pub open spec fn entered(log: Seq<MessageView>, m: MessageView) -> Seq<MessageView> {
    if m.status.enters() {
        inserted(log, m)
    } else {
        log
    }
}

/// Position of the message with identifier `id`: identifiers are given
/// out in the order of insertion, so that the identifier tells the position.
pub open spec fn position(log: Seq<MessageView>, id: MessageId) -> Option<int> {
    if id.0 < log.len() {
        Some(id.0 as int)
    } else {
        None
    }
}

/// In a well-formed log, the position of an identifier is where the message
/// with that identifier stands, and there is none if no message has it.
pub proof fn lemma_position(log: Seq<MessageView>, id: MessageId)
    requires
        well_formed(log),
    ensures
        forall|at: int|
            position(log, id) == Some(at) <==> 0 <= at < log.len() && (#[trigger] log[at]).id
                == Some(id),
        position(log, id) is None <==> forall|at: int|
            0 <= at < log.len() ==> (#[trigger] log[at]).id != Some(id),
{
    if id.0 < log.len() {
        assert(log[id.0 as int].id == Some(id));
    }
}

/// The log after the message at `at` moves to stage `to`.
pub open spec fn moved(log: Seq<MessageView>, at: int, to: MessageStatus) -> Seq<MessageView> {
    log.update(at, log[at].with_status(to))
}

/// The log after a request to move the message with identifier `id` to
/// stage `to`: the message moves if it exists and its status allows it, and
/// nothing changes otherwise.
pub open spec fn transitioned(log: Seq<MessageView>, id: MessageId, to: MessageStatus) -> Seq<
    MessageView,
> {
    match position(log, id) {
        Some(at) => if log[at].status.allows(to) {
            moved(log, at, to)
        } else {
            log
        },
        None => log,
    }
}

/// The log after a claim on the message with identifier `id`: the message
/// moves from stage `from` to stage `to` if it exists, is at stage `from`
/// and that stage allows the move, and nothing changes otherwise.
pub open spec fn transitioned_from(
    log: Seq<MessageView>,
    id: MessageId,
    from: MessageStatus,
    to: MessageStatus,
) -> Seq<MessageView> {
    match position(log, id) {
        Some(at) => if log[at].status == from && from.allows(to) {
            moved(log, at, to)
        } else {
            log
        },
        None => log,
    }
}

/// The log after the claim has been carried out.
pub open spec fn applied(log: Seq<MessageView>, claim: Claim) -> Seq<MessageView> {
    transitioned_from(log, claim.id, claim.from, claim.to)
}

/// The log after the claims have been carried out, one after the other.
pub open spec fn applied_all(log: Seq<MessageView>, claims: Seq<Claim>) -> Seq<MessageView>
    decreases claims.len(),
{
    if claims.len() == 0 {
        log
    } else {
        applied(applied_all(log, claims.drop_last()), claims.last())
    }
}

/// The claims by which a moderator's approval of `ids` is carried out: for
/// each identifier, in order, the move from unverified to awaiting.
pub open spec fn approvals_of(ids: Seq<MessageId>) -> Seq<Claim> {
    Seq::new(
        ids.len(),
        |i: int|
            Claim { id: ids[i], from: MessageStatus::Unverified, to: MessageStatus::Awaiting },
    )
}

/// The claims by which a moderator's approval of `ids` is carried out.
pub fn approvals(ids: &Vec<MessageId>) -> (r: Vec<Claim>)
    ensures
        r@ == approvals_of(ids@),
{
    let n: usize = ids.len();
    let mut claims: Vec<Claim> = Vec::new();
    let mut k: usize = 0;
    while k < n
        invariant
            0 <= k <= n,
            n == ids@.len(),
            claims@ == approvals_of(ids@.take(k as int)),
        decreases n - k,
    {
        claims.push(
            Claim { id: ids[k], from: MessageStatus::Unverified, to: MessageStatus::Awaiting },
        );
        assert(claims@ =~= approvals_of(ids@.take(k + 1)));
        k = k + 1;
    }
    assert(ids@.take(n as int) =~= ids@);
    claims
}

/// Carrying out the approvals of `ids` one after the other approves `ids`.
pub proof fn lemma_approvals_approve(log: Seq<MessageView>, ids: Seq<MessageId>)
    requires
        well_formed(log),
    ensures
        applied_all(log, approvals_of(ids)) == approved(log, ids),
    decreases ids.len(),
{
    if ids.len() == 0 {
        assert(applied_all(log, approvals_of(ids)) =~= approved(log, ids));
    } else {
        let init = ids.drop_last();
        let id = ids.last();
        lemma_approvals_approve(log, init);
        assert(approvals_of(ids).drop_last() =~= approvals_of(init));
        assert forall|x: MessageId| ids.contains(x) <==> (init.contains(x) || x == id) by {
            if x == id {
                assert(ids[ids.len() - 1] == x);
            }
            if init.contains(x) {
                let j = choose|j: int| 0 <= j < init.len() && init[j] == x;
                assert(ids[j] == x);
            }
            if ids.contains(x) && x != id {
                let j = choose|j: int| 0 <= j < ids.len() && ids[j] == x;
                assert(init[j] == x);
            }
        }
        assert(applied(approved(log, init), approvals_of(ids).last()) =~= approved(log, ids));
    }
}

/// The log after a moderator approves `ids`: each unverified message among
/// them awaits service, and nothing else changes.
pub open spec fn approved(log: Seq<MessageView>, ids: Seq<MessageId>) -> Seq<MessageView> {
    Seq::new(
        log.len(),
        |i: int|
            if log[i].status == MessageStatus::Unverified && ids.contains(MessageId(i as u128)) {
                log[i].with_status(MessageStatus::Awaiting)
            } else {
                log[i]
            },
    )
}

/// The oldest selected message is selected, and no message before it is;
/// there is none exactly when no message is selected.
pub proof fn lemma_oldest(
    log: Seq<MessageView>,
    status: MessageStatus,
    command: Option<MessageCommands>,
)
    ensures
        match oldest(log, status, command) {
            Some(at) => {
                &&& 0 <= at < log.len()
                &&& selects(log[at], status, command)
                &&& forall|i: int|
                    0 <= i < at ==> !selects(#[trigger] log[i], status, command)
            },
            None => forall|i: int|
                0 <= i < log.len() ==> !selects(#[trigger] log[i], status, command),
        },
{
    lemma_oldest_from(log, status, command, 0);
}

/// `oldest_by_from` gives the first position at or after `from` of a
/// message of `username` at stage `status`.
pub proof fn lemma_oldest_by_from(
    log: Seq<MessageView>,
    status: MessageStatus,
    username: Seq<char>,
    from: int,
)
    requires
        0 <= from,
    ensures
        match oldest_by_from(log, status, username, from) {
            Some(at) => {
                &&& from <= at < log.len()
                &&& log[at].status == status
                &&& log[at].username == username
                &&& forall|i: int|
                    from <= i < at ==> !((#[trigger] log[i]).status == status && log[i].username
                        == username)
            },
            None => forall|i: int|
                from <= i < log.len() ==> !((#[trigger] log[i]).status == status && log[i].username
                    == username),
        },
    decreases log.len() - from,
{
    if from < log.len() && !(log[from].status == status && log[from].username == username) {
        lemma_oldest_by_from(log, status, username, from + 1);
    }
}

/// Moving one message changes the count of a stage by the message that
/// leaves the stage and the one that enters it.
pub proof fn lemma_count_moved(
    log: Seq<MessageView>,
    at: int,
    to: MessageStatus,
    status: MessageStatus,
)
    requires
        0 <= at < log.len(),
    ensures
        count_of(moved(log, at, to), status) == count_of(log, status) - (if log[at].status
            == status {
            1int
        } else {
            0int
        }) + (if to == status {
            1int
        } else {
            0int
        }),
{
    let pred = at_stage(status);
    let head = log.take(at);
    let tail = log.skip(at + 1);
    let before = seq![log[at]];
    let after = seq![log[at].with_status(to)];
    assert(log =~= head + before + tail);
    assert(moved(log, at, to) =~= head + after + tail);
    Seq::<MessageView>::empty().lemma_filter_push(log[at], pred);
    Seq::<MessageView>::empty().lemma_filter_push(log[at].with_status(to), pred);
}

/// Appending a message raises the count of its stage by one and no other.
pub proof fn lemma_count_inserted(log: Seq<MessageView>, m: MessageView, status: MessageStatus)
    ensures
        count_of(inserted(log, m), status) == count_of(log, status) + (if m.status == status {
            1int
        } else {
            0int
        }),
{
    log.lemma_filter_push(stored(log, m), at_stage(status));
}

/// Two logs whose messages are at the same stages have the same counts.
pub proof fn lemma_count_by_stage(a: Seq<MessageView>, b: Seq<MessageView>, status: MessageStatus)
    requires
        a.len() == b.len(),
        forall|i: int| 0 <= i < a.len() ==> (a[i].status == status) == (b[i].status == status),
    ensures
        count_of(a, status) == count_of(b, status),
    decreases a.len(),
{
    let pred = at_stage(status);
    if a.len() > 0 {
        lemma_count_by_stage(a.drop_last(), b.drop_last(), status);
        assert(a =~= a.drop_last().push(a.last()));
        assert(b =~= b.drop_last().push(b.last()));
        a.drop_last().lemma_filter_push(a.last(), pred);
        b.drop_last().lemma_filter_push(b.last(), pred);
    }
}

/// A stage that no message is at has the count zero, and conversely.
pub proof fn lemma_count_zero(log: Seq<MessageView>, status: MessageStatus)
    ensures
        count_of(log, status) == 0 <==> forall|i: int|
            0 <= i < log.len() ==> (#[trigger] log[i]).status != status,
    decreases log.len(),
{
    let pred = at_stage(status);
    if log.len() > 0 {
        let init = log.drop_last();
        lemma_count_zero(init, status);
        assert(log =~= init.push(log.last()));
        init.lemma_filter_push(log.last(), pred);
    }
}

/// An in-memory message log.
pub struct Store {
    rows: Vec<ChatMessage>,
}

impl View for Store {
    type V = Seq<MessageView>;

    closed spec fn view(&self) -> Seq<MessageView> {
        self.rows@.map_values(|m: ChatMessage| m@)
    }
}

impl Store {
    /// Identifiers and ordering keys follow the order of insertion.
    #[verifier::type_invariant]
    pub open spec fn wf(&self) -> bool {
        well_formed(self@)
    }

    pub fn new() -> (r: Store)
        ensures
            r@ == Seq::<MessageView>::empty(),
    {
        Store { rows: Vec::new() }
    }

    pub fn len(&self) -> (r: usize)
        ensures
            r == self@.len(),
            well_formed(self@),
    {
        proof {
            use_type_invariant(self);
        }
        self.rows.len()
    }

    /// Appends `message`, giving it the next identifier and ordering key. A
    /// message enters unverified or awaiting service; one at a later stage
    /// is refused.
    pub fn insert(&mut self, message: ChatMessage) -> (r: Result<MessageId, StoreError>)
        ensures
            well_formed(final(self)@),
            final(self)@ == entered(old(self)@, message@),
            match r {
                Ok(id) => message@.status.enters() && id == MessageId(old(self)@.len() as u128),
                Err(e) => !message@.status.enters() && e == StoreError::NotAdmitted,
            },
    {
        proof {
            use_type_invariant(&*self);
        }
        if message.status.is_entry() {
            Ok(self.append(message))
        } else {
            Err(StoreError::NotAdmitted)
        }
    }

    /// Appends a message that is at a stage at which messages enter.
    pub(crate) fn append(&mut self, message: ChatMessage) -> (id: MessageId)
        requires
            message@.status.enters(),
        ensures
            well_formed(final(self)@),
            final(self)@ == inserted(old(self)@, message@),
            id == MessageId(old(self)@.len() as u128),
    {
        proof {
            use_type_invariant(&*self);
        }
        let mut rows = self.take_rows();
        let n: usize = rows.len();
        let id = MessageId(n as u128);
        let row = ChatMessage {
            id: Some(id),
            command: message.command,
            username: message.username,
            status: message.status,
            created_at: n as u64,
        };
        rows.push(row);
        assert(rows@.map_values(|m: ChatMessage| m@) =~= inserted(old(self)@, message@));
        *self = Store { rows };
        id
    }

    /// Takes the rows out, leaving an empty log behind.
    fn take_rows(&mut self) -> (rows: Vec<ChatMessage>)
        ensures
            rows@.map_values(|m: ChatMessage| m@) == old(self)@,
            final(self)@ == Seq::<MessageView>::empty(),
    {
        let mut taken = Store { rows: Vec::new() };
        std::mem::swap(self, &mut taken);
        let Store { rows } = taken;
        rows
    }

    /// The message with identifier `id`.
    pub fn get(&self, id: MessageId) -> (r: Option<ChatMessage>)
        ensures
            match r {
                Some(message) => position(self@, id) == Some(id.0 as int) && message@
                    == self@[id.0 as int],
                None => position(self@, id) is None,
            },
    {
        if id.0 < self.rows.len() as u128 {
            let at: usize = id.0 as usize;
            Some(self.rows[at].clone())
        } else {
            None
        }
    }

    /// Whether some message carries `text`.
    pub fn exists_by_text(&self, text: &str) -> (r: bool)
        ensures
            r == has_text(self@, text@),
    {
        let wanted = String::from_str(text);
        let n: usize = self.rows.len();
        let mut i: usize = 0;
        while i < n
            invariant
                0 <= i <= n,
                n == self.rows@.len(),
                wanted@ == text@,
                forall|j: int| 0 <= j < i ==> (#[trigger] self@[j]).text != text@,
            decreases n - i,
        {
            if *self.rows[i].text() == wanted {
                assert(self@[i as int].text == text@);
                return true;
            }
            i = i + 1;
        }
        false
    }

    /// Whether some message of `username` is at stage `status`.
    pub fn exists_by_author_and_status(&self, username: &str, status: MessageStatus) -> (r: bool)
        ensures
            r == has_author_at(self@, username@, status),
    {
        let wanted = String::from_str(username);
        let n: usize = self.rows.len();
        let mut i: usize = 0;
        while i < n
            invariant
                0 <= i <= n,
                n == self.rows@.len(),
                wanted@ == username@,
                forall|j: int|
                    0 <= j < i ==> !((#[trigger] self@[j]).username == username@ && self@[j].status
                        == status),
            decreases n - i,
        {
            if self.rows[i].status == status && self.rows[i].username == wanted {
                assert(self@[i as int].username == username@ && self@[i as int].status == status);
                return true;
            }
            i = i + 1;
        }
        false
    }

    /// Moves the message with identifier `id` to stage `to`, if its status
    /// allows that.
    pub fn update_status(&mut self, id: MessageId, to: MessageStatus) -> (r: Result<
        (),
        StoreError,
    >)
        ensures
            well_formed(final(self)@),
            final(self)@ == transitioned(old(self)@, id, to),
            match r {
                Ok(()) => {
                    &&& position(old(self)@, id) == Some(id.0 as int)
                    &&& old(self)@[id.0 as int].status.allows(to)
                    &&& final(self)@ == moved(old(self)@, id.0 as int, to)
                },
                Err(StoreError::NotFound) => {
                    &&& position(old(self)@, id) is None
                    &&& final(self)@ == old(self)@
                },
                Err(StoreError::IllegalTransition) => {
                    &&& position(old(self)@, id) == Some(id.0 as int)
                    &&& !old(self)@[id.0 as int].status.allows(to)
                    &&& final(self)@ == old(self)@
                },
                Err(StoreError::NotAdmitted) => false,
            },
    {
        proof {
            use_type_invariant(&*self);
        }
        if id.0 >= self.rows.len() as u128 {
            return Err(StoreError::NotFound);
        }
        let at: usize = id.0 as usize;
        if !self.rows[at].status.can_become(to) {
            return Err(StoreError::IllegalTransition);
        }
        let mut rows = self.take_rows();
        let mut row = rows[at].clone();
        row.status = to;
        rows.set(at, row);
        assert(rows@.map_values(|m: ChatMessage| m@) =~= moved(old(self)@, id.0 as int, to));
        *self = Store { rows };
        Ok(())
    }

    /// Moves the message with identifier `id` from stage `from` to stage
    /// `to`, in one step: it succeeds only if the message is at stage `from`
    /// when the call is made, so that of two consumers that claim one
    /// message only the first succeeds.
    pub fn claim(&mut self, id: MessageId, from: MessageStatus, to: MessageStatus) -> (r: Result<
        (),
        StoreError,
    >)
        ensures
            well_formed(final(self)@),
            final(self)@ == transitioned_from(old(self)@, id, from, to),
            match r {
                Ok(()) => {
                    &&& position(old(self)@, id) == Some(id.0 as int)
                    &&& old(self)@[id.0 as int].status == from
                    &&& from.allows(to)
                    &&& final(self)@ == moved(old(self)@, id.0 as int, to)
                },
                Err(StoreError::NotFound) => position(old(self)@, id) is None,
                Err(StoreError::IllegalTransition) => {
                    &&& position(old(self)@, id) == Some(id.0 as int)
                    &&& !(old(self)@[id.0 as int].status == from && from.allows(to))
                },
                Err(StoreError::NotAdmitted) => false,
            },
    {
        proof {
            use_type_invariant(&*self);
        }
        if id.0 >= self.rows.len() as u128 {
            return Err(StoreError::NotFound);
        }
        let at: usize = id.0 as usize;
        if self.rows[at].status != from {
            return Err(StoreError::IllegalTransition);
        }
        self.update_status(id, to)
    }

    /// Carries out `claim`: the message moves if it is at the stage that
    /// the claim expects and that stage allows the move.
    pub fn apply(&mut self, claim: Claim) -> (r: Result<(), StoreError>)
        ensures
            well_formed(final(self)@),
            final(self)@ == applied(old(self)@, claim),
            r is Ok <==> final(self)@ != old(self)@,
            r is Ok <==> {
                &&& position(old(self)@, claim.id) is Some
                &&& old(self)@[claim.id.0 as int].status == claim.from
                &&& claim.from.allows(claim.to)
            },
            r matches Err(e) ==> e != StoreError::NotAdmitted && (e == StoreError::NotFound
                <==> position(old(self)@, claim.id) is None),
    {
        self.claim(claim.id, claim.from, claim.to)
    }

    /// The oldest message at stage `status`, among those of kind `command`
    /// if one is given.
    pub fn select_oldest(&self, status: MessageStatus, command: Option<MessageCommands>) -> (r:
        Option<ChatMessage>)
        ensures
            match r {
                Some(message) => oldest(self@, status, command) is Some && message@
                    == self@[oldest(self@, status, command)->Some_0],
                None => oldest(self@, status, command) is None,
            },
    {
        let n: usize = self.rows.len();
        let mut i: usize = 0;
        while i < n
            invariant
                0 <= i <= n,
                n == self.rows@.len(),
                oldest(self@, status, command) == oldest_from(self@, status, command, i as int),
            decreases n - i,
        {
            let row = &self.rows[i];
            let kind_fits = match command {
                Some(kind) => row.command.kind() == kind,
                None => true,
            };
            if row.status == status && kind_fits {
                return Some(row.clone());
            }
            i = i + 1;
        }
        None
    }

    /// What `query` finds: the oldest message that it selects.
    pub fn select(&self, query: Query) -> (r: Option<ChatMessage>)
        ensures
            match r {
                Some(message) => found(self@, query) == Some(message@),
                None => found(self@, query) is None,
            },
    {
        self.select_oldest(query.status, query.command)
    }

    /// The oldest message at stage `status` that `username` wrote.
    pub fn select_oldest_by(&self, status: MessageStatus, username: &str) -> (r: Option<
        ChatMessage,
    >)
        ensures
            match r {
                Some(message) => oldest_by_from(self@, status, username@, 0) is Some && message@
                    == self@[oldest_by_from(self@, status, username@, 0)->Some_0],
                None => oldest_by_from(self@, status, username@, 0) is None,
            },
    {
        let wanted = String::from_str(username);
        let n: usize = self.rows.len();
        let mut i: usize = 0;
        while i < n
            invariant
                0 <= i <= n,
                n == self.rows@.len(),
                wanted@ == username@,
                oldest_by_from(self@, status, username@, 0) == oldest_by_from(
                    self@,
                    status,
                    username@,
                    i as int,
                ),
            decreases n - i,
        {
            let row = &self.rows[i];
            if row.status == status && row.username == wanted {
                return Some(row.clone());
            }
            i = i + 1;
        }
        None
    }

    /// The messages at stage `status`, oldest first.
    pub fn select_all(&self, status: MessageStatus) -> (r: Vec<ChatMessage>)
        ensures
            r@.map_values(|m: ChatMessage| m@) == self@.filter(at_stage(status)),
    {
        let n: usize = self.rows.len();
        let mut found: Vec<ChatMessage> = Vec::new();
        let mut i: usize = 0;
        while i < n
            invariant
                0 <= i <= n,
                n == self.rows@.len(),
                found@.map_values(|m: ChatMessage| m@) == self@.take(i as int).filter(
                    at_stage(status),
                ),
            decreases n - i,
        {
            let ghost seen = self@.take(i as int);
            proof {
                assert(self@.take(i + 1) =~= seen.push(self@[i as int]));
                seen.lemma_filter_push(self@[i as int], at_stage(status));
            }
            if self.rows[i].status == status {
                found.push(self.rows[i].clone());
            }
            i = i + 1;
        }
        assert(self@.take(n as int) =~= self@);
        found
    }

    /// Number of messages at stage `status`.
    pub fn count(&self, status: MessageStatus) -> (r: usize)
        ensures
            r == count_of(self@, status),
    {
        let n: usize = self.rows.len();
        let mut found: usize = 0;
        let mut i: usize = 0;
        while i < n
            invariant
                0 <= i <= n,
                n == self.rows@.len(),
                found <= i,
                found == count_of(self@.take(i as int), status),
            decreases n - i,
        {
            proof {
                let seen = self@.take(i as int);
                assert(self@.take(i + 1) =~= seen.push(self@[i as int]));
                seen.lemma_filter_push(self@[i as int], at_stage(status));
            }
            if self.rows[i].status == status {
                found = found + 1;
            }
            i = i + 1;
        }
        assert(self@.take(n as int) =~= self@);
        found
    }

    /// Approves the messages named by `ids`: those that are unverified await
    /// service from now on; the others are left as they are.
    pub fn bulk_approve(&mut self, ids: &Vec<MessageId>)
        ensures
            well_formed(final(self)@),
            final(self)@ == approved(old(self)@, ids@),
            final(self)@ == applied_all(old(self)@, approvals_of(ids@)),
    {
        proof {
            use_type_invariant(&*self);
            lemma_approvals_approve(old(self)@, ids@);
        }
        let claims = approvals(ids);
        let n: usize = claims.len();
        let mut k: usize = 0;
        while k < n
            invariant
                0 <= k <= n,
                n == claims@.len(),
                self@ == applied_all(old(self)@, claims@.take(k as int)),
            decreases n - k,
        {
            assert(claims@.take(k + 1).drop_last() =~= claims@.take(k as int));
            let _ = self.apply(claims[k]);
            k = k + 1;
        }
        assert(claims@.take(n as int) =~= claims@);
    }
}

} // verus!
