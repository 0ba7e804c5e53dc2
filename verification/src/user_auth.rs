//! The gateway's user records: finding a user by e-mail, creating one when
//! none exists, and reading the answer of the device-ownership question.
use vstd::prelude::*;

verus! {

/// Whether a 128-bit value, read as the big-endian bytes of a UUID, is a
/// random (version 4) UUID of the RFC 4122 variant.
pub open spec fn is_random_uuid(id: u128) -> bool {
    &&& (id >> 76u128) & 0xfu128 == 4
    &&& (id >> 62u128) & 0x3u128 == 2
}

/// Calls `uuid::Uuid::new_v4` and hands back the UUID as a `u128`
/// (`Uuid::as_u128`, big-endian). Claimed: the version nibble is 4 and the
/// variant bits are `10`, as `new_v4` masks them in. The other 122 bits are
/// random, and nothing is claimed of them.
#[verifier::external_body]
fn new_user_id() -> (id: u128)
    ensures
        is_random_uuid(id),
{
    uuid::Uuid::new_v4().as_u128()
}

/// Where the search for a user stands.
#[derive(Clone, Copy, PartialEq, Eq, Structural, Debug)]
pub enum LookupPhase {
    /// Looking the e-mail up.
    Finding,
    /// Inserting a new user.
    Inserting,
    /// The user's id has been handed back.
    Resolved,
    /// A query failed; its error is handed to the caller.
    Failed,
}

/// What the last requested query came back with.
pub enum LookupEvent {
    /// The id of the user with the e-mail, if there is one.
    UserFound(Option<u128>),
    /// The new user was inserted.
    Inserted,
    /// The query failed.
    Failed,
}

/// The next thing to do.
pub enum LookupAction {
    /// Look up the id of the user with this e-mail.
    FindUser { email: String },
    /// Insert a user with this id and e-mail.
    InsertUser { id: u128, email: String },
    /// Hand this user id to the caller.
    ReturnUser(u128),
    /// Hand the error of the failed query to the caller.
    ReturnError,
    /// Nothing: the event does not answer a pending query.
    Ignore,
}

/// One transition of a lookup for `email`: from `phase` holding the new id
/// `id`, on `event`, to `next` holding `next_id`, with `action`.
pub open spec fn lookup_step(
    phase: LookupPhase,
    id: u128,
    event: LookupEvent,
    email: Seq<char>,
    next: LookupPhase,
    next_id: u128,
    action: LookupAction,
) -> bool {
    match (phase, event) {
        (LookupPhase::Finding, LookupEvent::UserFound(Some(found))) => {
            &&& next == LookupPhase::Resolved
            &&& next_id == id
            &&& action == LookupAction::ReturnUser(found)
        },
        (LookupPhase::Finding, LookupEvent::UserFound(None)) => {
            &&& next == LookupPhase::Inserting
            &&& is_random_uuid(next_id)
            &&& action matches LookupAction::InsertUser { id: new_id, email: e } && new_id == next_id
                && e@ == email
        },
        (LookupPhase::Inserting, LookupEvent::Inserted) => {
            &&& next == LookupPhase::Resolved
            &&& next_id == id
            &&& action == LookupAction::ReturnUser(id)
        },
        (LookupPhase::Finding, LookupEvent::Failed) | (LookupPhase::Inserting, LookupEvent::Failed) => {
            &&& next == LookupPhase::Failed
            &&& next_id == id
            &&& action is ReturnError
        },
        _ => {
            &&& next == phase
            &&& next_id == id
            &&& action is Ignore
        },
    }
}

/// The search for the user with an e-mail, creating the user when none exists.
pub struct UserLookup {
    email: String,
    new_id: u128,
    phase: LookupPhase,
}

impl UserLookup {
    /// The e-mail looked up.
    pub closed spec fn spec_email(&self) -> Seq<char> {
        self.email@
    }

    /// The id chosen for a new user (meaningful once one was chosen).
    pub closed spec fn spec_new_id(&self) -> u128 {
        self.new_id
    }

    /// Where the lookup stands.
    pub closed spec fn spec_phase(&self) -> LookupPhase {
        self.phase
    }

    /// Starts the lookup of `email`: first ask for the user with that e-mail.
    pub fn start(email: String) -> (r: (UserLookup, LookupAction))
        ensures
            r.0.spec_email() == email@,
            r.0.spec_phase() == LookupPhase::Finding,
            r.1 matches LookupAction::FindUser { email: e } && e@ == email@,
    {
        let asked = email.clone();
        (UserLookup { email, new_id: 0, phase: LookupPhase::Finding }, LookupAction::FindUser { email: asked })
    }

    /// Where the lookup stands.
    pub fn phase(&self) -> (r: LookupPhase)
        ensures
            r == self.spec_phase(),
    {
        self.phase
    }

    /// Takes the outcome of the pending query and says what to do next.
    pub fn step(&mut self, event: LookupEvent) -> (action: LookupAction)
        ensures
            final(self).spec_email() == old(self).spec_email(),
            lookup_step(
                old(self).spec_phase(),
                old(self).spec_new_id(),
                event,
                old(self).spec_email(),
                final(self).spec_phase(),
                final(self).spec_new_id(),
                action,
            ),
    {
        match (self.phase, event) {
            (LookupPhase::Finding, LookupEvent::UserFound(Some(found))) => {
                self.phase = LookupPhase::Resolved;
                LookupAction::ReturnUser(found)
            },
            (LookupPhase::Finding, LookupEvent::UserFound(None)) => {
                let id = new_user_id();
                self.new_id = id;
                self.phase = LookupPhase::Inserting;
                LookupAction::InsertUser { id, email: self.email.clone() }
            },
            (LookupPhase::Inserting, LookupEvent::Inserted) => {
                self.phase = LookupPhase::Resolved;
                LookupAction::ReturnUser(self.new_id)
            },
            (LookupPhase::Finding, LookupEvent::Failed) | (LookupPhase::Inserting, LookupEvent::Failed) => {
                self.phase = LookupPhase::Failed;
                LookupAction::ReturnError
            },
            _ => LookupAction::Ignore,
        }
    }
}

/// The answer to "does this user own this device": the query's answer, with
/// no answer read as "no".
pub fn device_ownership(answer: Option<bool>) -> (r: bool)
    ensures
        r == (answer == Some(true)),
{
    match answer {
        Some(owned) => owned,
        None => false,
    }
}

/// A user who already exists is handed back as found, and nothing is inserted.
pub proof fn lemma_existing_user_returned(
    id: u128,
    found: u128,
    email: Seq<char>,
    next: LookupPhase,
    next_id: u128,
    action: LookupAction,
)
    requires
        lookup_step(LookupPhase::Finding, id, LookupEvent::UserFound(Some(found)), email, next, next_id, action),
    ensures
        action == LookupAction::ReturnUser(found),
        next == LookupPhase::Resolved,
{
}

/// A user is inserted only when the lookup found none.
pub proof fn lemma_insert_only_when_missing(
    phase: LookupPhase,
    id: u128,
    event: LookupEvent,
    email: Seq<char>,
    next: LookupPhase,
    next_id: u128,
    action: LookupAction,
)
    requires
        lookup_step(phase, id, event, email, next, next_id, action),
        action is InsertUser,
    ensures
        phase == LookupPhase::Finding,
        event == LookupEvent::UserFound(None),
        action matches LookupAction::InsertUser { id: new_id, email: e } && is_random_uuid(new_id) && e@ == email,
{
}

/// The id handed back for a new user is the id it was inserted with.
pub proof fn lemma_created_user_id_returned(
    phase0: LookupPhase,
    id0: u128,
    event0: LookupEvent,
    email: Seq<char>,
    phase1: LookupPhase,
    id1: u128,
    action1: LookupAction,
    phase2: LookupPhase,
    id2: u128,
    action2: LookupAction,
)
    requires
        lookup_step(phase0, id0, event0, email, phase1, id1, action1),
        action1 is InsertUser,
        lookup_step(phase1, id1, LookupEvent::Inserted, email, phase2, id2, action2),
    ensures
        action1 matches LookupAction::InsertUser { id: inserted, .. } && action2 == LookupAction::ReturnUser(
            inserted,
        ),
        phase2 == LookupPhase::Resolved,
{
}

/// A lookup that is over (resolved or failed) does nothing more.
pub proof fn lemma_finished_lookup_is_inert(
    phase: LookupPhase,
    id: u128,
    event: LookupEvent,
    email: Seq<char>,
    next: LookupPhase,
    next_id: u128,
    action: LookupAction,
)
    requires
        lookup_step(phase, id, event, email, next, next_id, action),
        phase == LookupPhase::Resolved || phase == LookupPhase::Failed,
    ensures
        next == phase,
        action is Ignore,
{
}

/// What a users table mapping e-mails to ids answers for `email`.
pub open spec fn table_entry(table: Map<Seq<char>, u128>, email: Seq<char>) -> Option<u128> {
    if table.dom().contains(email) {
        Some(table[email])
    } else {
        None
    }
}

/// Looking the same e-mail up twice, with no other write to the users table
/// in between, gives the same user, and the second lookup inserts nothing.
/// The first lookup runs against `table` (its insert, if any, gives
/// `table1`); the second runs against `table1`.
pub proof fn lemma_repeated_lookup_returns_same_user(
    table: Map<Seq<char>, u128>,
    email: Seq<char>,
    id0: u128,
    phase1: LookupPhase,
    id1: u128,
    action1: LookupAction,
    phase2: LookupPhase,
    id2: u128,
    action2: LookupAction,
    table1: Map<Seq<char>, u128>,
    again_id: u128,
    again_phase: LookupPhase,
    again_next_id: u128,
    again: LookupAction,
)
    requires
        lookup_step(
            LookupPhase::Finding,
            id0,
            LookupEvent::UserFound(table_entry(table, email)),
            email,
            phase1,
            id1,
            action1,
        ),
        action1 is InsertUser ==> lookup_step(phase1, id1, LookupEvent::Inserted, email, phase2, id2, action2),
        table1 == (match action1 {
            LookupAction::InsertUser { id, .. } => table.insert(email, id),
            _ => table,
        }),
        lookup_step(
            LookupPhase::Finding,
            again_id,
            LookupEvent::UserFound(table_entry(table1, email)),
            email,
            again_phase,
            again_next_id,
            again,
        ),
    ensures
        again is ReturnUser,
        again == (if action1 is InsertUser {
            action2
        } else {
            action1
        }),
{
}

} // verus!
