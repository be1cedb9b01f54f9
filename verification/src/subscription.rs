//! Web-push subscriptions of browsers.

use vstd::prelude::*;

verus! {

/// The keys with which push messages to a browser are encrypted.
#[derive(Debug, Clone)]
pub struct SubscriptionKeys {
    pub p256dh: String,
    pub auth: String,
}

/// The endpoint and keys of a browser's push subscription.
#[derive(Debug, Clone)]
pub struct SubscriptionInfo {
    pub endpoint: String,
    pub keys: SubscriptionKeys,
}

impl SubscriptionInfo {
    /// A subscription made of the given endpoint and keys.
    pub fn new(endpoint: String, p256dh: String, auth: String) -> (s: SubscriptionInfo)
        ensures
            s.endpoint == endpoint,
            s.keys.p256dh == p256dh,
            s.keys.auth == auth,
    {
        SubscriptionInfo { endpoint, keys: SubscriptionKeys { p256dh, auth } }
    }
}

} // verus!
