//! Billing: what a subscription event of the payment provider means for the
//! tier of a user.
//!
//! The provider's events are taken here as plain values. Times are seconds
//! since the Unix epoch, and the present time is handed in by the caller.

use crate::errors::{Denial, Status};
use crate::payloads::CreateSubscriptionPayload;
use crate::principal::User;
use crate::text::opt_text;
use crate::tier::PLAN_FREE;
use vstd::prelude::*;
use vstd::string::*;

verus! {

/// Where the provider sends a customer who has paid.
pub const CHECKOUT_SUCCESS_URL: &'static str = "http://localhost:8000";

/// Where the provider sends a customer who has given up.
pub const CHECKOUT_CANCEL_URL: &'static str = "http://localhost:8000/cancel";

/// A checkout that the provider is asked to open.
#[derive(Debug)]
pub struct CheckoutRequest {
    /// The billing customer.
    pub customer: String,
    /// The plan identifier.
    pub price: String,
    /// How many subscriptions of the plan.
    pub quantity: u64,
    pub success_url: String,
    pub cancel_url: String,
}

/// A subscription as the provider reports it.
#[derive(Debug)]
pub struct Subscription {
    pub id: String,
    /// The billing customer.
    pub customer: String,
    /// The plan identifier of the first item of the subscription.
    pub price: Option<String>,
    /// Whether the collection of payments is paused.
    pub paused: bool,
    /// When the subscription was cancelled, if it was.
    pub canceled_at: Option<i64>,
    /// When the subscription ends, if an end is set.
    pub cancel_at: Option<i64>,
}

/// The kinds of events that the provider reports.
#[derive(Debug, Clone, Copy, PartialEq, Eq, Structural)]
pub enum EventType {
    CheckoutSessionCompleted,
    CustomerSubscriptionCreated,
    CustomerSubscriptionUpdated,
    CustomerSubscriptionDeleted,
    CustomerSubscriptionPaused,
    CustomerSubscriptionResumed,
    /// Any other kind.
    Other,
}

/// What an event is about.
#[derive(Debug)]
pub enum EventObject {
    /// A checkout, with the identifier of the subscription it paid for, if
    /// it paid for one.
    CheckoutSession { subscription: Option<String> },
    Subscription(Subscription),
    /// Anything else.
    Other,
}

/// An event of the provider whose signature was found good.
#[derive(Debug)]
pub struct Event {
    pub type_: EventType,
    pub object: EventObject,
}

/// What is to be done to the stored plan of a billing customer.
#[derive(Debug)]
pub enum TierChange {
    /// The plan of `customer` becomes `plan`.
    Assign { customer: String, plan: String },
    /// Nothing changes.
    Keep,
}

/// The mathematical content of a `TierChange`.
pub enum TierChangeView {
    Assign { customer: Seq<char>, plan: Seq<char> },
    Keep,
}

impl View for TierChange {
    type V = TierChangeView;

    open spec fn view(&self) -> TierChangeView {
        match self {
            TierChange::Assign { customer, plan } => TierChangeView::Assign {
                customer: customer@,
                plan: plan@,
            },
            TierChange::Keep => TierChangeView::Keep,
        }
    }
}

/// What the webhook does with a call.
#[derive(Debug)]
pub enum WebhookAction {
    /// The call is turned down as a bad request.
    Reject,
    /// The call is taken note of and nothing is done.
    Ignore,
    /// A checkout was paid: the caller fetches the subscription of the given
    /// identifier from the provider, if there is one, and stores the plan
    /// that `checkout_session_completed` names for it.
    CompleteCheckout { subscription: Option<String> },
    /// A subscription changed: the caller stores the change.
    UpdateSubscription(TierChange),
}

impl Subscription {
    /// Whether the subscription is running: neither paused nor cancelled.
    pub open spec fn is_active(self) -> bool {
        !self.paused && self.canceled_at is None
    }

    /// What the state of the subscription at time `now` means for the plan
    /// of its customer. A running subscription sets the plan it is for. One
    /// that is paused or cancelled with an end that is still to come changes
    /// nothing yet; any other puts the customer back on the free plan.
    pub open spec fn tier_change(self, now: int) -> TierChangeView {
        if self.is_active() {
            match self.price {
                Some(plan) => TierChangeView::Assign { customer: self.customer@, plan: plan@ },
                None => TierChangeView::Keep,
            }
        } else if self.cancel_at is Some && self.cancel_at->0 > now {
            TierChangeView::Keep
        } else {
            TierChangeView::Assign { customer: self.customer@, plan: PLAN_FREE@ }
        }
    }

    /// What a paid checkout of the subscription means for the plan of its
    /// customer: the plan becomes the one the subscription is for.
    pub open spec fn checkout_change(self) -> TierChangeView {
        match self.price {
            Some(plan) => TierChangeView::Assign { customer: self.customer@, plan: plan@ },
            None => TierChangeView::Keep,
        }
    }
}

/// Asks for a checkout of the plan in `metadata` for `user`. A user without
/// a billing customer cannot subscribe.
pub fn subscribe(metadata: &CreateSubscriptionPayload, user: &User) -> (outcome: Result<
    CheckoutRequest,
    Denial,
>)
    ensures
        match user.stripe_id {
            Some(customer) => outcome is Ok && {
                let request = outcome->Ok_0;
                &&& request.customer@ == customer@
                &&& request.price@ == metadata.price@
                &&& request.quantity == 1
                &&& request.success_url@ == CHECKOUT_SUCCESS_URL@
                &&& request.cancel_url@ == CHECKOUT_CANCEL_URL@
            },
            None => outcome is Err && outcome->Err_0 == Denial::ExpectationFailed,
        },
{
    match &user.stripe_id {
        None => Err(Denial::ExpectationFailed),
        Some(customer) => Ok(
            CheckoutRequest {
                customer: customer.clone(),
                price: metadata.price.clone(),
                quantity: 1,
                success_url: String::from_str(CHECKOUT_SUCCESS_URL),
                cancel_url: String::from_str(CHECKOUT_CANCEL_URL),
            },
        ),
    }
}

/// What a paid checkout means for the plan of the customer. `subscription`
/// is the subscription that the checkout paid for, as the provider returned
/// it; a checkout that paid for none changes nothing.
pub fn checkout_session_completed(subscription: Option<&Subscription>) -> (change: TierChange)
    ensures
        change@ == match subscription {
            Some(paid) => paid.checkout_change(),
            None => TierChangeView::Keep,
        },
{
    match subscription {
        Some(paid) => match &paid.price {
            Some(plan) => TierChange::Assign { customer: paid.customer.clone(), plan: plan.clone() },
            None => TierChange::Keep,
        },
        None => TierChange::Keep,
    }
}

/// What the state of `subscription` at time `now` means for the plan of its
/// customer.
pub fn handle_customer_subscription(subscription: &Subscription, now: i64) -> (change: TierChange)
    ensures
        change@ == subscription.tier_change(now as int),
{
    if !subscription.paused && subscription.canceled_at.is_none() {
        return match &subscription.price {
            Some(plan) => TierChange::Assign {
                customer: subscription.customer.clone(),
                plan: plan.clone(),
            },
            None => TierChange::Keep,
        };
    }
    match subscription.cancel_at {
        Some(end) => {
            if end > now {
                return TierChange::Keep;
            }
        },
        None => {},
    }
    TierChange::Assign { customer: subscription.customer.clone(), plan: String::from_str(PLAN_FREE) }
}

/// What a subscription event does: the change of its subscription is
/// stored; an event that is about no subscription is turned down.
pub fn handle_subscription_update(object: &EventObject, now: i64) -> (action: WebhookAction)
    ensures
        match object {
            EventObject::Subscription(subscription) => action matches WebhookAction::UpdateSubscription(
                change,
            ) && change@ == subscription.tier_change(now as int),
            _ => action is Reject,
        },
{
    match object {
        EventObject::Subscription(subscription) => WebhookAction::UpdateSubscription(
            handle_customer_subscription(subscription, now),
        ),
        _ => WebhookAction::Reject,
    }
}

/// What the webhook does with a call. `event` is the event of the call
/// where its signature was found good, `None` where not. A call without a
/// good signature is turned down. A paid checkout and the five subscription
/// events are acted on if they are about what their kind says, and turned
/// down if not. Events of any other kind are taken note of.
pub fn webhook(event: Option<&Event>, now: i64) -> (action: WebhookAction)
    ensures
        match event {
            None => action is Reject,
            Some(e) => match e.type_ {
                EventType::CheckoutSessionCompleted => match e.object {
                    EventObject::CheckoutSession { subscription } => action matches WebhookAction::CompleteCheckout {
                        subscription: asked,
                    } && opt_text(asked) == opt_text(subscription),
                    _ => action is Reject,
                },
                EventType::Other => action is Ignore,
                _ => match e.object {
                    EventObject::Subscription(subscription) => action matches WebhookAction::UpdateSubscription(
                        change,
                    ) && change@ == subscription.tier_change(now as int),
                    _ => action is Reject,
                },
            },
        },
{
    let e = match event {
        Some(e) => e,
        None => {
            return WebhookAction::Reject;
        },
    };
    match e.type_ {
        EventType::CheckoutSessionCompleted => match &e.object {
            EventObject::CheckoutSession { subscription } => WebhookAction::CompleteCheckout {
                subscription: match subscription {
                    Some(id) => Some(id.clone()),
                    None => None,
                },
            },
            _ => WebhookAction::Reject,
        },
        EventType::CustomerSubscriptionUpdated => handle_subscription_update(&e.object, now),
        EventType::CustomerSubscriptionDeleted => handle_subscription_update(&e.object, now),
        EventType::CustomerSubscriptionPaused => handle_subscription_update(&e.object, now),
        EventType::CustomerSubscriptionCreated => handle_subscription_update(&e.object, now),
        EventType::CustomerSubscriptionResumed => handle_subscription_update(&e.object, now),
        EventType::Other => WebhookAction::Ignore,
    }
}

impl WebhookAction {
    /// The status that answers a call once what the action asks for is
    /// done: a bad request for a call that was turned down, `Accepted` for
    /// one that was only taken note of, `Success` for any other.
    pub fn status(&self) -> (status: Status)
        ensures
            status == match self {
                WebhookAction::Reject => Status::Denied(Denial::BadRequest),
                WebhookAction::Ignore => Status::Accepted,
                _ => Status::Success,
            },
    {
        match self {
            WebhookAction::Reject => Status::Denied(Denial::BadRequest),
            WebhookAction::Ignore => Status::Accepted,
            _ => Status::Success,
        }
    }
}

/// A subscription that is paused or cancelled, and whose end is not still to
/// come, puts its customer back on the free plan.
pub proof fn lemma_ended_subscription_is_free(subscription: Subscription, now: int)
    requires
        !subscription.is_active(),
        subscription.cancel_at is None || subscription.cancel_at->0 <= now,
    ensures
        subscription.tier_change(now) == (TierChangeView::Assign {
            customer: subscription.customer@,
            plan: PLAN_FREE@,
        }),
{
}

} // verus!
