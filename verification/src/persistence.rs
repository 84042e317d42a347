//! The remembered severity of every registered check, and the tokens that
//! stand for it in a stored document.

use crate::status::lemma_token_round_trip;
use crate::status::Status;
use vstd::prelude::*;

verus! {

/// The registered checks, in registration order.
#[derive(Clone, Copy, Debug, PartialEq, Eq, Structural)]
pub enum CheckId {
    Disk,
    FailedUnits,
}

impl CheckId {
    /// The key under which the check's severity is stored.
    pub open spec fn key_text(self) -> Seq<char> {
        match self {
            CheckId::Disk => "disk"@,
            CheckId::FailedUnits => "failed_units"@,
        }
    }

    /// The key under which the check's severity is stored.
    pub fn key(self) -> (key: &'static str)
        ensures
            key@ == self.key_text(),
    {
        match self {
            CheckId::Disk => "disk",
            CheckId::FailedUnits => "failed_units",
        }
    }
}

/// The last observed severity of every registered check: one entry for each,
/// and no others.
#[derive(Clone, Copy, Debug, PartialEq, Eq, Structural)]
pub struct Persistence {
    pub disk: Status,
    pub failed_units: Status,
}

/// The severity tokens found in a stored document, by check; `None` where the
/// document has no entry for the check.
#[derive(Debug, PartialEq, Eq)]
pub struct StoredFields {
    pub disk: Option<String>,
    pub failed_units: Option<String>,
}

/// What a stored entry says: the default severity where it is missing, the
/// severity its token stands for, or `None` for a token that is none of the
/// three.
pub open spec fn entry_status(entry: Option<String>) -> Option<Status> {
    match entry {
        None => Some(Status::Nominal),
        Some(token) => Status::of_token(token@),
    }
}

impl Persistence {
    /// The state in which every check stands at the default severity.
    pub open spec fn initial() -> Persistence {
        Persistence { disk: Status::Nominal, failed_units: Status::Nominal }
    }

    /// The remembered severity of `id`.
    pub open spec fn status_of(self, id: CheckId) -> Status {
        match id {
            CheckId::Disk => self.disk,
            CheckId::FailedUnits => self.failed_units,
        }
    }

    /// This state with the severity of `id` replaced by `status`.
    pub open spec fn with(self, id: CheckId, status: Status) -> Persistence {
        match id {
            CheckId::Disk => Persistence { disk: status, ..self },
            CheckId::FailedUnits => Persistence { failed_units: status, ..self },
        }
    }

    /// The state that `fields` describe, or `None` if one of their tokens is
    /// not a severity token.
    pub open spec fn decoded(fields: StoredFields) -> Option<Persistence> {
        match (entry_status(fields.disk), entry_status(fields.failed_units)) {
            (Some(disk), Some(failed_units)) => Some(Persistence { disk, failed_units }),
            _ => None,
        }
    }

    /// The state to start a run from, given what reading the stored document
    /// gave: `None` stands for a document that is absent, unreadable or not
    /// well-formed.
    pub open spec fn restored(document: Option<StoredFields>) -> Persistence {
        match document {
            Some(fields) => match Persistence::decoded(fields) {
                Some(state) => state,
                None => Persistence::initial(),
            },
            None => Persistence::initial(),
        }
    }

    /// The remembered severity of `id`.
    pub fn get(&self, id: CheckId) -> (status: Status)
        ensures
            status == self.status_of(id),
    {
        match id {
            CheckId::Disk => self.disk,
            CheckId::FailedUnits => self.failed_units,
        }
    }

    /// Replaces the remembered severity of `id`; every other entry is kept.
    pub fn set(&mut self, id: CheckId, status: Status)
        ensures
            *final(self) == old(self).with(id, status),
    {
        match id {
            CheckId::Disk => {
                self.disk = status;
            },
            CheckId::FailedUnits => {
                self.failed_units = status;
            },
        }
    }

    /// The tokens to store for this state: one for every check.
    pub fn encode(&self) -> (fields: StoredFields)
        ensures
            fields.disk matches Some(token) && token@ == self.disk.token_text(),
            fields.failed_units matches Some(token) && token@
                == self.failed_units.token_text(),
            Persistence::decoded(fields) == Some(*self),
    {
        proof {
            lemma_token_round_trip(self.disk);
            lemma_token_round_trip(self.failed_units);
        }
        StoredFields {
            disk: Some(self.disk.token().to_owned()),
            failed_units: Some(self.failed_units.token().to_owned()),
        }
    }

    /// Reads stored tokens. A missing entry counts as the default severity;
    /// a token that is none of the three makes the whole document unusable.
    pub fn decode(fields: &StoredFields) -> (state: Option<Persistence>)
        ensures
            state == Persistence::decoded(*fields),
    {
        let disk = match &fields.disk {
            None => Some(Status::Nominal),
            Some(token) => Status::from_token(token.as_str()),
        };
        let failed_units = match &fields.failed_units {
            None => Some(Status::Nominal),
            Some(token) => Status::from_token(token.as_str()),
        };
        match (disk, failed_units) {
            (Some(disk), Some(failed_units)) => Some(Persistence { disk, failed_units }),
            _ => None,
        }
    }

    /// The state to start a run from. It never fails: without a usable
    /// document the run starts from the default state.
    pub fn restore(document: Option<StoredFields>) -> (state: Persistence)
        ensures
            state == Persistence::restored(document),
    {
        match document {
            Some(fields) => match Persistence::decode(&fields) {
                Some(state) => state,
                None => Persistence::default(),
            },
            None => Persistence::default(),
        }
    }
}

impl Default for Persistence {
    /// Every check at the default severity.
    fn default() -> (state: Persistence)
        ensures
            state == Persistence::initial(),
    {
        Persistence { disk: Status::Nominal, failed_units: Status::Nominal }
    }
}

/// A state that is stored and read back is the state that was stored.
pub proof fn lemma_store_round_trip(state: Persistence, fields: StoredFields)
    requires
        fields.disk matches Some(token) && token@ == state.disk.token_text(),
        fields.failed_units matches Some(token) && token@ == state.failed_units.token_text(),
    ensures
        Persistence::restored(Some(fields)) == state,
{
    lemma_token_round_trip(state.disk);
    lemma_token_round_trip(state.failed_units);
}

/// Without a usable document, or with a token that is no severity token, a
/// run starts from the default state.
pub proof fn lemma_unusable_document_is_default(fields: StoredFields)
    requires
        entry_status(fields.disk) is None || entry_status(fields.failed_units) is None,
    ensures
        Persistence::restored(None) == Persistence::initial(),
        Persistence::restored(Some(fields)) == Persistence::initial(),
{
}

} // verus!
