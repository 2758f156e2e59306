use vstd::prelude::*;

use crate::PlayerId;

verus! {

/// Identity of a stored document (the 96 bits of its object id).
pub type DocId = u128;

/// Whose counters a document holds: one player's, or the whole network's.
#[derive(PartialEq, Eq, Structural, Clone, Copy, Debug)]
pub enum Scope {
    Player(PlayerId),
    Global,
}

/// One request to the document store, made on behalf of an ensure run for a
/// (scope, namespace) pair.
#[derive(PartialEq, Eq, Structural, Clone, Copy, Debug)]
pub enum StoreAction {
    /// Upsert the player's profile with no name, so that the document has a referent.
    TrackProfile,
    /// Find the pair's document, read under the expected schema.
    FindDocument,
    /// Find the pair's document again, read as a raw document.
    FetchRaw,
    /// Copy the raw document with this id into quarantine under a new id.
    Quarantine(DocId),
    /// Delete the document with this id from its source collection.
    DeleteOriginal(DocId),
    /// Send a corruption report naming the quarantine record with this id.
    ReportCorruption(DocId),
    /// Log that the corrupt document vanished before it could be quarantined.
    WarnMissing,
    /// Insert a fresh document with no counters for the pair.
    InsertEmpty,
}

/// What the store answered to the last action.
#[derive(PartialEq, Eq, Structural, Clone, Copy, Debug)]
pub enum StoreEvent {
    /// The action was carried out.
    Done,
    /// The typed find matched a readable document.
    Found,
    /// The find matched nothing.
    NotFound,
    /// The typed find matched a document that does not fit the schema.
    ShapeError,
    /// The raw find matched the document with this id.
    RawFound(DocId),
    /// The quarantine copy was stored under this id.
    Quarantined(DocId),
    /// The action failed.
    Failed,
}

/// Where an ensure run stands.
#[derive(PartialEq, Eq, Structural, Clone, Copy, Debug)]
pub enum Phase {
    Start,
    Finding,
    Fetching,
    WarningMissing,
    Copying(DocId),
    Deleting(DocId, DocId),
    Reporting(DocId),
    Inserting,
    Succeeded,
    Failed,
}

impl Phase {
    pub open spec fn is_terminal(self) -> bool {
        self is Succeeded || self is Failed
    }
}

/// The request that a run in `phase` makes next; none once it has ended.
pub open spec fn phase_action(scope: Scope, phase: Phase) -> Option<StoreAction> {
    match phase {
        Phase::Start => if scope is Player {
            Some(StoreAction::TrackProfile)
        } else {
            Some(StoreAction::FindDocument)
        },
        Phase::Finding => Some(StoreAction::FindDocument),
        Phase::Fetching => Some(StoreAction::FetchRaw),
        Phase::WarningMissing => Some(StoreAction::WarnMissing),
        Phase::Copying(orig) => Some(StoreAction::Quarantine(orig)),
        Phase::Deleting(orig, _) => Some(StoreAction::DeleteOriginal(orig)),
        Phase::Reporting(q) => Some(StoreAction::ReportCorruption(q)),
        Phase::Inserting => Some(StoreAction::InsertEmpty),
        Phase::Succeeded | Phase::Failed => None,
    }
}

/// The phase after the store answered `event` to the request of `phase`. An
/// answer that the request cannot have is a failure.
pub open spec fn next_phase(scope: Scope, phase: Phase, event: StoreEvent) -> Phase {
    match (phase, event) {
        (Phase::Start, StoreEvent::Done) => if scope is Player {
            Phase::Finding
        } else {
            Phase::Failed
        },
        (Phase::Start, StoreEvent::Found) => if scope is Global {
            Phase::Succeeded
        } else {
            Phase::Failed
        },
        (Phase::Start, StoreEvent::NotFound) => if scope is Global {
            Phase::Inserting
        } else {
            Phase::Failed
        },
        (Phase::Start, StoreEvent::ShapeError) => if scope is Global {
            Phase::Fetching
        } else {
            Phase::Failed
        },
        (Phase::Finding, StoreEvent::Found) => Phase::Succeeded,
        (Phase::Finding, StoreEvent::NotFound) => Phase::Inserting,
        (Phase::Finding, StoreEvent::ShapeError) => Phase::Fetching,
        (Phase::Fetching, StoreEvent::RawFound(orig)) => Phase::Copying(orig),
        (Phase::Fetching, StoreEvent::NotFound) => Phase::WarningMissing,
        (Phase::WarningMissing, StoreEvent::Done) => Phase::Inserting,
        (Phase::Copying(orig), StoreEvent::Quarantined(q)) => Phase::Deleting(orig, q),
        (Phase::Deleting(_, q), StoreEvent::Done) => Phase::Reporting(q),
        (Phase::Reporting(_), StoreEvent::Done) => Phase::Inserting,
        (Phase::Inserting, StoreEvent::Done) => Phase::Succeeded,
        (Phase::Succeeded, _) => Phase::Succeeded,
        _ => Phase::Failed,
    }
}

/// A run that makes sure exactly one readable counter document exists for a
/// (scope, namespace) pair, quarantining one that does not fit the schema.
pub struct EnsureDocument {
    pub scope: Scope,
    pub namespace: String,
    pub phase: Phase,
}

impl EnsureDocument {
    /// A run that has made no request yet.
    pub fn new(scope: Scope, namespace: String) -> (r: EnsureDocument)
        ensures
            r.scope == scope,
            r.namespace == namespace,
            r.phase == Phase::Start,
    {
        EnsureDocument { scope, namespace, phase: Phase::Start }
    }

    /// The request to make next, or `None` once the run has ended.
    pub fn action(&self) -> (r: Option<StoreAction>)
        ensures
            r == phase_action(self.scope, self.phase),
            r is None <==> self.phase.is_terminal(),
    {
        match self.phase {
            Phase::Start => match self.scope {
                Scope::Player(_) => Some(StoreAction::TrackProfile),
                Scope::Global => Some(StoreAction::FindDocument),
            },
            Phase::Finding => Some(StoreAction::FindDocument),
            Phase::Fetching => Some(StoreAction::FetchRaw),
            Phase::WarningMissing => Some(StoreAction::WarnMissing),
            Phase::Copying(orig) => Some(StoreAction::Quarantine(orig)),
            Phase::Deleting(orig, _) => Some(StoreAction::DeleteOriginal(orig)),
            Phase::Reporting(q) => Some(StoreAction::ReportCorruption(q)),
            Phase::Inserting => Some(StoreAction::InsertEmpty),
            Phase::Succeeded | Phase::Failed => None,
        }
    }

    /// Takes the store's answer to the last request.
    pub fn advance(&mut self, event: StoreEvent)
        ensures
            final(self).scope == old(self).scope,
            final(self).namespace == old(self).namespace,
            final(self).phase == next_phase(old(self).scope, old(self).phase, event),
    {
        let player = match self.scope {
            Scope::Player(_) => true,
            Scope::Global => false,
        };
        let next = match (self.phase, event) {
            (Phase::Start, StoreEvent::Done) => if player {
                Phase::Finding
            } else {
                Phase::Failed
            },
            (Phase::Start, StoreEvent::Found) => if player {
                Phase::Failed
            } else {
                Phase::Succeeded
            },
            (Phase::Start, StoreEvent::NotFound) => if player {
                Phase::Failed
            } else {
                Phase::Inserting
            },
            (Phase::Start, StoreEvent::ShapeError) => if player {
                Phase::Failed
            } else {
                Phase::Fetching
            },
            (Phase::Finding, StoreEvent::Found) => Phase::Succeeded,
            (Phase::Finding, StoreEvent::NotFound) => Phase::Inserting,
            (Phase::Finding, StoreEvent::ShapeError) => Phase::Fetching,
            (Phase::Fetching, StoreEvent::RawFound(orig)) => Phase::Copying(orig),
            (Phase::Fetching, StoreEvent::NotFound) => Phase::WarningMissing,
            (Phase::WarningMissing, StoreEvent::Done) => Phase::Inserting,
            (Phase::Copying(orig), StoreEvent::Quarantined(q)) => Phase::Deleting(orig, q),
            (Phase::Deleting(_, q), StoreEvent::Done) => Phase::Reporting(q),
            (Phase::Reporting(_), StoreEvent::Done) => Phase::Inserting,
            (Phase::Inserting, StoreEvent::Done) => Phase::Succeeded,
            (Phase::Succeeded, _) => Phase::Succeeded,
            _ => Phase::Failed,
        };
        self.phase = next;
    }

    /// Whether the run has ended with the document in place.
    pub fn succeeded(&self) -> (r: bool)
        ensures
            r == (self.phase is Succeeded),
    {
        match self.phase {
            Phase::Succeeded => true,
            _ => false,
        }
    }
}

} // verus!
