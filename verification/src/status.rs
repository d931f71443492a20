//! Status codes that the session and the dispatcher report.

use vstd::prelude::*;

verus! {

/// Outcome of a request, or of one operation of a request on a list.
#[derive(Clone, Copy, Debug, PartialEq, Eq, Structural)]
pub enum StatusCode {
    Good,
    /// No handler serves this kind of message.
    BadServiceUnsupported,
    /// The session holds no subscription of this id.
    BadSubscriptionIdInvalid,
    /// The subscription holds no monitored item of this id.
    BadMonitoredItemIdInvalid,
    /// The session may not hold another subscription.
    BadTooManySubscriptions,
    /// A publish request came for a session without subscriptions.
    BadNoSubscription,
    /// The session may not queue another publish request.
    BadTooManyPublishRequests,
}

impl StatusCode {
    pub open spec fn good(self) -> bool {
        self == StatusCode::Good
    }

    pub fn is_good(&self) -> (good: bool)
        ensures
            good == self.good(),
    {
        match self {
            StatusCode::Good => true,
            _ => false,
        }
    }

    pub fn is_bad(&self) -> (bad: bool)
        ensures
            bad == !self.good(),
    {
        !self.is_good()
    }
}

} // verus!
