//! The three-valued severity scale and its total order.

use std::cmp::Ordering;
use crate::text::same_text;
use vstd::prelude::*;
use vstd::std_specs::cmp::PartialOrdSpecImpl;

verus! {

/// Severity of one observation, ordered `Nominal < Warning < Critical`.
#[derive(Clone, Copy, Debug, PartialEq, Eq, Structural, Ord)]
pub enum Status {
    Nominal,
    Warning,
    Critical,
}

impl Status {
    /// Position on the severity scale: the order of statuses is the order of
    /// their ranks.
    pub open spec fn rank(self) -> nat {
        match self {
            Status::Nominal => 0,
            Status::Warning => 1,
            Status::Critical => 2,
        }
    }

    /// How `self` stands to `other` on the severity scale.
    pub open spec fn compare(self, other: Status) -> Ordering {
        if self.rank() < other.rank() {
            Ordering::Less
        } else if self.rank() == other.rank() {
            Ordering::Equal
        } else {
            Ordering::Greater
        }
    }

    /// The capitalised name used in group headings.
    pub open spec fn repr(self) -> Seq<char> {
        match self {
            Status::Nominal => "Nominal"@,
            Status::Warning => "Warning"@,
            Status::Critical => "Critical"@,
        }
    }

    /// The lower-case token that stands for the status in a stored document.
    pub open spec fn token_text(self) -> Seq<char> {
        match self {
            Status::Nominal => "nominal"@,
            Status::Warning => "warning"@,
            Status::Critical => "critical"@,
        }
    }

    /// The status that a token stands for, if it is one of the three tokens.
    pub open spec fn of_token(token: Seq<char>) -> Option<Status> {
        if token == Status::Nominal.token_text() {
            Some(Status::Nominal)
        } else if token == Status::Warning.token_text() {
            Some(Status::Warning)
        } else if token == Status::Critical.token_text() {
            Some(Status::Critical)
        } else {
            None
        }
    }

    /// The rank as a machine integer.
    pub fn severity(self) -> (r: u8)
        ensures
            r == self.rank(),
    {
        match self {
            Status::Nominal => 0,
            Status::Warning => 1,
            Status::Critical => 2,
        }
    }

    /// The capitalised name of the status, as shown in group headings.
    pub fn as_repr(self) -> (name: &'static str)
        ensures
            name@ == self.repr(),
    {
        match self {
            Status::Nominal => "Nominal",
            Status::Warning => "Warning",
            Status::Critical => "Critical",
        }
    }

    /// The token that stands for the status in a stored document.
    pub fn token(self) -> (token: &'static str)
        ensures
            token@ == self.token_text(),
    {
        match self {
            Status::Nominal => "nominal",
            Status::Warning => "warning",
            Status::Critical => "critical",
        }
    }

    /// Reads a stored token: `Some` for exactly the three tokens, which are
    /// case-sensitive, and `None` for every other text.
    pub fn from_token(token: &str) -> (status: Option<Status>)
        ensures
            status == Status::of_token(token@),
    {
        if same_text(token, Status::Nominal.token()) {
            Some(Status::Nominal)
        } else if same_text(token, Status::Warning.token()) {
            Some(Status::Warning)
        } else if same_text(token, Status::Critical.token()) {
            Some(Status::Critical)
        } else {
            None
        }
    }
}

impl Default for Status {
    /// The lowest severity.
    fn default() -> (s: Status)
        ensures
            s == Status::Nominal,
    {
        Status::Nominal
    }
}

impl PartialOrd for Status {
    fn partial_cmp(&self, other: &Status) -> (r: Option<Ordering>) {
        let a = self.severity();
        let b = other.severity();
        if a < b {
            Some(Ordering::Less)
        } else if a == b {
            Some(Ordering::Equal)
        } else {
            Some(Ordering::Greater)
        }
    }
}

impl PartialOrdSpecImpl for Status {
    open spec fn obeys_partial_cmp_spec() -> bool {
        true
    }

    open spec fn partial_cmp_spec(&self, other: &Status) -> Option<Ordering> {
        Some(self.compare(*other))
    }
}

/// The three tokens are pairwise different.
pub proof fn lemma_tokens_differ(a: Status, b: Status)
    ensures
        a.token_text() == b.token_text() <==> a == b,
{
    reveal_strlit("nominal");
    reveal_strlit("warning");
    reveal_strlit("critical");
    assert("nominal"@[0] == 'n');
    assert("warning"@[0] == 'w');
    assert("critical"@[0] == 'c');
}

/// Every status is read back from its own token.
pub proof fn lemma_token_round_trip(s: Status)
    ensures
        Status::of_token(s.token_text()) == Some(s),
{
    lemma_tokens_differ(s, Status::Nominal);
    lemma_tokens_differ(s, Status::Warning);
    lemma_tokens_differ(s, Status::Critical);
}

/// The order of statuses is total, and `Nominal < Warning < Critical`.
pub proof fn lemma_order_is_total(a: Status, b: Status, c: Status)
    ensures
        Status::Nominal.compare(Status::Warning) == Ordering::Less,
        Status::Warning.compare(Status::Critical) == Ordering::Less,
        a.compare(a) == Ordering::Equal,
        a.compare(b) == Ordering::Equal <==> a == b,
        a.compare(b) == Ordering::Less <==> b.compare(a) == Ordering::Greater,
        a.compare(b) == Ordering::Less && b.compare(c) == Ordering::Less ==> a.compare(c)
            == Ordering::Less,
{
}

} // verus!
