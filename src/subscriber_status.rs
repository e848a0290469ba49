use vstd::prelude::*;

verus! {

/// Where a subscriber stands: waiting for confirmation, or confirmed.
#[derive(Debug, Clone, Copy, PartialEq, Eq, Structural)]
pub enum SubscriberStatus {
    PendingConfirmation,
    Confirmed,
}

/// The text under which a status is persisted.
pub open spec fn status_text(s: SubscriberStatus) -> Seq<char> {
    match s {
        SubscriberStatus::PendingConfirmation => "pending_confirmation"@,
        SubscriberStatus::Confirmed => "confirmed"@,
    }
}

impl SubscriberStatus {
    /// The text under which this status is persisted.
    pub fn as_str(&self) -> (r: &'static str)
        ensures
            r@ == status_text(*self),
    {
        match self {
            SubscriberStatus::PendingConfirmation => "pending_confirmation",
            SubscriberStatus::Confirmed => "confirmed",
        }
    }
}

} // verus!
