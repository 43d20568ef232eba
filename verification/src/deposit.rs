//! The deposit lifecycle states the API reports.

use vstd::prelude::*;
use crate::text::str_eq;

verus! {

/// State of a deposit.
#[derive(Debug, Clone, Copy, PartialEq, Eq, Structural)]
pub enum DepositState {
    /// In progress.
    Processing,
    /// Completed.
    Accepted,
    /// Canceled.
    Canceled,
    /// Rejected.
    Rejected,
    /// Awaiting the extra travel-rule identification.
    TravelRuleSuspected,
    /// Refund in progress.
    Refunding,
    /// Refunded.
    Refunded,
}

/// The deposit state a wire word stands for. The server spells the
/// canceled state with doubled `l`.
pub open spec fn spec_deposit_state(s: Seq<char>) -> Option<DepositState> {
    if s == "processing"@ {
        Some(DepositState::Processing)
    } else if s == "accepted"@ {
        Some(DepositState::Accepted)
    } else if s == "cancelled"@ {
        Some(DepositState::Canceled)
    } else if s == "rejected"@ {
        Some(DepositState::Rejected)
    } else if s == "travel_rule_suspected"@ {
        Some(DepositState::TravelRuleSuspected)
    } else if s == "refunding"@ {
        Some(DepositState::Refunding)
    } else if s == "refunded"@ {
        Some(DepositState::Refunded)
    } else {
        None
    }
}

/// The wire text of a deposit state.
pub open spec fn spec_deposit_state_text(s: DepositState) -> Seq<char> {
    match s {
        DepositState::Processing => "processing"@,
        DepositState::Accepted => "accepted"@,
        DepositState::Canceled => "cancelled"@,
        DepositState::Rejected => "rejected"@,
        DepositState::TravelRuleSuspected => "travel_rule_suspected"@,
        DepositState::Refunding => "refunding"@,
        DepositState::Refunded => "refunded"@,
    }
}

/// Reading back the wire text of a state gives the state: the two
/// mappings are mutually inverse.
pub proof fn lemma_deposit_state_roundtrip(s: DepositState)
    ensures
        spec_deposit_state(spec_deposit_state_text(s)) == Some(s),
{
    reveal_strlit("processing");
    reveal_strlit("accepted");
    reveal_strlit("cancelled");
    reveal_strlit("rejected");
    reveal_strlit("travel_rule_suspected");
    reveal_strlit("refunding");
    reveal_strlit("refunded");
    assert("processing"@.len() == 10);
    assert("accepted"@.len() == 8);
    assert("cancelled"@.len() == 9);
    assert("rejected"@.len() == 8);
    assert("travel_rule_suspected"@.len() == 21);
    assert("refunding"@.len() == 9);
    assert("refunded"@.len() == 8);
    assert("accepted"@[0] == 'a');
    assert("rejected"@[0] == 'r');
    assert("rejected"@[2] == 'j');
    assert("refunded"@[0] == 'r');
    assert("refunded"@[2] == 'f');
    assert("cancelled"@[0] == 'c');
    assert("refunding"@[0] == 'r');
}

impl DepositState {
    /// The wire text of this state. The server spells the canceled
    /// state with doubled `l`.
    pub fn to_text(&self) -> (r: String)
        ensures
            r@ == spec_deposit_state_text(*self),
            spec_deposit_state(r@) == Some(*self),
    {
        proof {
            lemma_deposit_state_roundtrip(*self);
        }
        match self {
            DepositState::Processing => "processing".to_owned(),
            DepositState::Accepted => "accepted".to_owned(),
            DepositState::Canceled => "cancelled".to_owned(),
            DepositState::Rejected => "rejected".to_owned(),
            DepositState::TravelRuleSuspected => "travel_rule_suspected".to_owned(),
            DepositState::Refunding => "refunding".to_owned(),
            DepositState::Refunded => "refunded".to_owned(),
        }
    }

    /// Reads the wire text; `None` for anything outside the closed set.
    pub fn parse(value: &str) -> (r: Option<Self>)
        ensures
            r == spec_deposit_state(value@),
    {
        if str_eq(value, "processing") {
            Some(DepositState::Processing)
        } else if str_eq(value, "accepted") {
            Some(DepositState::Accepted)
        } else if str_eq(value, "cancelled") {
            Some(DepositState::Canceled)
        } else if str_eq(value, "rejected") {
            Some(DepositState::Rejected)
        } else if str_eq(value, "travel_rule_suspected") {
            Some(DepositState::TravelRuleSuspected)
        } else if str_eq(value, "refunding") {
            Some(DepositState::Refunding)
        } else if str_eq(value, "refunded") {
            Some(DepositState::Refunded)
        } else {
            None
        }
    }
}

} // verus!
