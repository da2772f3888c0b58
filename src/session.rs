use vstd::prelude::*;
use crate::api::{like_request_urls, like_requests};
use crate::auth::SpotifyAuth;
use crate::error::SyncError;
use crate::text::same_text;
use crate::types::{texts, Track};

verus! {

/// One of the two account contexts of a session.
#[derive(Clone, Copy, PartialEq, Eq, Structural, Debug)]
pub enum Slot {
    /// The account whose library is read.
    From,
    /// The account whose library is written.
    To,
}

/// The name of a slot, as it appears in the authorize state and in file names.
pub open spec fn slot_name(s: Slot) -> Seq<char> {
    match s {
        Slot::From => "from"@,
        Slot::To => "to"@,
    }
}

/// The slot that a name stands for, if any.
pub open spec fn slot_named(t: Seq<char>) -> Option<Slot> {
    if t == "from"@ {
        Some(Slot::From)
    } else if t == "to"@ {
        Some(Slot::To)
    } else {
        None
    }
}

/// The slot that is not `s`.
pub open spec fn other_slot(s: Slot) -> Slot {
    match s {
        Slot::From => Slot::To,
        Slot::To => Slot::From,
    }
}

impl Slot {
    /// The slot named `panel`: "from" or "to"; any other name is no slot.
    pub fn parse(panel: &str) -> (r: Option<Slot>)
        ensures
            r == slot_named(panel@),
    {
        if same_text(panel, "from") {
            Some(Slot::From)
        } else if same_text(panel, "to") {
            Some(Slot::To)
        } else {
            None
        }
    }

    /// The name of the slot.
    pub fn name(&self) -> (r: &'static str)
        ensures
            r@ == slot_name(*self),
    {
        match self {
            Slot::From => "from",
            Slot::To => "to",
        }
    }
}

/// Where one slot stands: no credential yet; a credential; or a credential and
/// the library fetched with it.
pub enum SlotState {
    Unauthenticated,
    Authenticated(SpotifyAuth),
    Populated(SpotifyAuth, Vec<Track>),
}

/// The credential that a slot holds, if any.
pub open spec fn credential_of(st: SlotState) -> Option<SpotifyAuth> {
    match st {
        SlotState::Unauthenticated => None,
        SlotState::Authenticated(a) => Some(a),
        SlotState::Populated(a, _) => Some(a),
    }
}

/// The library that a slot holds, if it was fetched.
pub open spec fn library_of(st: SlotState) -> Option<Seq<Track>> {
    match st {
        SlotState::Populated(_, v) => Some(v@),
        _ => None,
    }
}

/// The requests of a transfer: the destination's bearer token and the write
/// requests for the source's library, in order.
pub struct TransferPlan {
    pub access_token: String,
    pub urls: Vec<String>,
}

/// The state of both slots. Each slot is changed only by its own operations;
/// a transfer only reads.
pub struct Session {
    from: SlotState,
    to: SlotState,
}

fn token_of(st: &SlotState) -> (r: Option<String>)
    ensures
        r.is_some() == credential_of(*st).is_some(),
        r matches Some(t) ==> t@ == credential_of(*st)->0.access_token@,
{
    match st {
        SlotState::Unauthenticated => None,
        SlotState::Authenticated(a) => Some(a.access_token.clone()),
        SlotState::Populated(a, _) => Some(a.access_token.clone()),
    }
}

fn populate(st: &mut SlotState, tracks: Vec<Track>) -> (r: Result<(), SyncError>)
    ensures
        credential_of(*old(st)) matches Some(a) ==> r is Ok && *final(st) == SlotState::Populated(a, tracks),
        credential_of(*old(st)) is None ==> r == Err::<(), SyncError>(SyncError::Precondition) && *final(st)
            == *old(st),
{
    let mut cur = SlotState::Unauthenticated;
    core::mem::swap(st, &mut cur);
    match cur {
        SlotState::Unauthenticated => Err(SyncError::Precondition),
        SlotState::Authenticated(a) => {
            *st = SlotState::Populated(a, tracks);
            Ok(())
        },
        SlotState::Populated(a, _) => {
            *st = SlotState::Populated(a, tracks);
            Ok(())
        },
    }
}

impl Session {
    /// The state of a slot.
    pub closed spec fn state_of(&self, slot: Slot) -> SlotState {
        match slot {
            Slot::From => self.from,
            Slot::To => self.to,
        }
    }

    /// A session in which neither slot is authenticated.
    pub fn new() -> (r: Session)
        ensures
            r.state_of(Slot::From) == SlotState::Unauthenticated,
            r.state_of(Slot::To) == SlotState::Unauthenticated,
    {
        Session { from: SlotState::Unauthenticated, to: SlotState::Unauthenticated }
    }

    /// The state of a slot.
    pub fn state(&self, slot: Slot) -> (r: &SlotState)
        ensures
            *r == self.state_of(slot),
    {
        match slot {
            Slot::From => &self.from,
            Slot::To => &self.to,
        }
    }

    /// Stores a new credential for a slot. Whatever the slot held is dropped,
    /// its fetched library too: it may belong to another account.
    pub fn authenticate(&mut self, slot: Slot, auth: SpotifyAuth)
        ensures
            final(self).state_of(slot) == SlotState::Authenticated(auth),
            final(self).state_of(other_slot(slot)) == old(self).state_of(other_slot(slot)),
    {
        match slot {
            Slot::From => self.from = SlotState::Authenticated(auth),
            Slot::To => self.to = SlotState::Authenticated(auth),
        }
    }

    /// The bearer token to fetch a slot's library with; a slot without a
    /// credential cannot be fetched.
    pub fn access_token(&self, slot: Slot) -> (r: Result<String, SyncError>)
        ensures
            credential_of(self.state_of(slot)) matches Some(a) ==> r matches Ok(t) && t@
                == a.access_token@,
            credential_of(self.state_of(slot)) is None ==> r == Err::<String, SyncError>(
                SyncError::Precondition,
            ),
    {
        match token_of(self.state(slot)) {
            Some(t) => Ok(t),
            None => Err(SyncError::Precondition),
        }
    }

    /// Records the outcome of a fetch of a slot's library. A failed fetch leaves
    /// the session as it was and passes its error on; a library is kept only for
    /// a slot that holds a credential.
    pub fn record_fetch(&mut self, slot: Slot, outcome: Result<Vec<Track>, SyncError>) -> (r: Result<
        (),
        SyncError,
    >)
        ensures
            final(self).state_of(other_slot(slot)) == old(self).state_of(other_slot(slot)),
            outcome matches Err(e) ==> r == Err::<(), SyncError>(e) && *final(self) == *old(self),
            outcome matches Ok(v) ==> match credential_of(old(self).state_of(slot)) {
                Some(a) => r is Ok && final(self).state_of(slot) == SlotState::Populated(a, v),
                None => r == Err::<(), SyncError>(SyncError::Precondition) && *final(self)
                    == *old(self),
            },
    {
        match outcome {
            Err(e) => Err(e),
            Ok(tracks) => match slot {
                Slot::From => populate(&mut self.from, tracks),
                Slot::To => populate(&mut self.to, tracks),
            },
        }
    }

    /// The requests that copy the source's fetched library into the destination
    /// account. The source must hold a fetched library and the destination a
    /// credential; otherwise there is nothing to send.
    pub fn plan_transfer(&self) -> (r: Result<TransferPlan, SyncError>)
        ensures
            r.is_err() <==> library_of(self.state_of(Slot::From)) is None || credential_of(
                self.state_of(Slot::To),
            ) is None,
            r matches Err(e) ==> e == SyncError::Precondition,
            r matches Ok(p) ==> p.access_token@ == credential_of(self.state_of(Slot::To))->0.access_token@
                && texts(p.urls@) == like_requests(library_of(self.state_of(Slot::From))->0),
    {
        let token = match token_of(&self.to) {
            Some(t) => t,
            None => {
                return Err(SyncError::Precondition);
            },
        };
        match &self.from {
            SlotState::Populated(_, tracks) => {
                Ok(TransferPlan { access_token: token, urls: like_request_urls(tracks) })
            },
            _ => Err(SyncError::Precondition),
        }
    }
}

/// The slots whose stored token is not empty, "from" first.
pub fn saved_slots(from_token: &str, to_token: &str) -> (r: Vec<Slot>)
    ensures
        r@ == (if from_token@.len() > 0 {
            seq![Slot::From]
        } else {
            Seq::empty()
        }) + (if to_token@.len() > 0 {
            seq![Slot::To]
        } else {
            Seq::empty()
        }),
{
    let mut r: Vec<Slot> = Vec::new();
    if from_token.unicode_len() > 0 {
        r.push(Slot::From);
    }
    if to_token.unicode_len() > 0 {
        r.push(Slot::To);
    }
    assert(r@ =~= (if from_token@.len() > 0 {
        seq![Slot::From]
    } else {
        Seq::empty()
    }) + (if to_token@.len() > 0 {
        seq![Slot::To]
    } else {
        Seq::empty()
    }));
    r
}

} // verus!
