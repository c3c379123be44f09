//! Event Subscription Service (ESS) v4.

use crate::text::concat2;
use vstd::prelude::*;
use vstd::string::*;

verus! {

/// Path of the topic list.
pub const TOPICS_PATH: &'static str = "/events/v4/topics";

/// Path of the subscription list.
pub const SUBSCRIPTIONS_PATH: &'static str = "/events/v4/subscriptions";

/// Path on which webhook subscriptions are created or updated.
pub const WEBHOOK_SUBSCRIPTION_PATH: &'static str = "/events/v4/subscriptions/webhook";

/// Path of one subscription.
pub fn subscription_path(subscription_id: &str) -> (r: String)
    ensures
        r@ == "/events/v4/subscriptions/"@ + subscription_id@,
{
    concat2("/events/v4/subscriptions/", subscription_id)
}

/// A webhook subscription.
#[derive(Debug, Clone)]
pub struct Subscription {
    pub id: String,
    pub filter: String,
    pub topic: String,
    pub webhook_config: WebhookConfig,
    pub application_id: Option<String>,
    pub scope: Option<String>,
    pub groups: Option<Vec<String>>,
    pub company_ids: Option<Vec<String>>,
}

/// Where a webhook delivers events.
#[derive(Debug, Clone)]
pub struct WebhookConfig {
    pub endpoint: String,
}

/// The outcome of a subscription change.
#[derive(Debug, Clone)]
pub struct SubscriptionResult {
    pub message: String,
}

/// What a successful deletion reports: `Subscription '<id>' marked for deletion`.
pub fn deletion_result(subscription_id: &str) -> (r: SubscriptionResult)
    ensures
        r.message@ == "Subscription '"@ + subscription_id@ + "' marked for deletion"@,
{
    let mut m = concat2("Subscription '", subscription_id);
    m.append("' marked for deletion");
    SubscriptionResult { message: m }
}

/// Common ESS event envelope.
#[derive(Debug, Clone)]
pub struct EssEvent<T> {
    pub event_type: String,
    pub time_stamp: String,
    pub correlation_id: Option<String>,
    pub facts: T,
}

} // verus!
