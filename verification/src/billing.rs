//! Subscription billing with the payment provider: the webhook events the
//! platform reacts to, the actions it derives from them, and what each
//! action does to the white label concerned.
use std::collections::HashMap;
use vstd::prelude::*;
use crate::jobs::JobType;
use crate::labels::LabelStatus;
use crate::text::{push_str, str_eq, to_owned_string};
use crate::webhook_signature::{signature_valid, verify_signature};

verus! {

broadcast use vstd::string::group_string_axioms;

/// Why a call to or from the payment provider failed.
#[derive(Debug)]
pub enum StripeError {
    ApiError(String),
    WebhookVerificationFailed(String),
    InvalidEventType(String),
    MissingField(String),
}

/// A customer of the payment provider.
pub struct Customer {
    pub id: String,
    pub email: String,
    pub metadata: HashMap<String, String>,
}

/// The fields of an invoice that the platform reads.
pub struct InvoiceFields {
    pub id: String,
    pub customer: String,
    pub subscription: Option<String>,
    pub amount_paid: i64,
    pub amount_due: i64,
}

/// The fields of a subscription that the platform reads.
pub struct SubscriptionFields {
    pub id: String,
    pub customer: String,
    pub status: String,
}

/// What a webhook event asks of the platform.
#[allow(inconsistent_fields)]
pub enum WebhookAction {
    PaymentSucceeded { customer_id: String, invoice_id: String, amount: i64, subscription_id: Option<String> },
    PaymentFailed { customer_id: String, invoice_id: String, amount: i64, subscription_id: Option<String> },
    SubscriptionUpdated { subscription_id: String, customer_id: String, status: String },
    SubscriptionDeleted { subscription_id: String, customer_id: String },
    SubscriptionCreated { subscription_id: String, customer_id: String, status: String },
    Ignore,
}

/// The kinds of webhook event, by their `type` field.
#[derive(Debug, Clone, Copy, PartialEq, Eq, Structural)]
pub enum EventKind {
    PaymentSucceeded,
    PaymentFailed,
    SubscriptionUpdated,
    SubscriptionDeleted,
    SubscriptionCreated,
    Other,
}

pub open spec fn event_kind(event_type: Seq<char>) -> EventKind {
    if event_type == "invoice.payment_succeeded"@ {
        EventKind::PaymentSucceeded
    } else if event_type == "invoice.payment_failed"@ {
        EventKind::PaymentFailed
    } else if event_type == "customer.subscription.updated"@ {
        EventKind::SubscriptionUpdated
    } else if event_type == "customer.subscription.deleted"@ {
        EventKind::SubscriptionDeleted
    } else if event_type == "customer.subscription.created"@ {
        EventKind::SubscriptionCreated
    } else {
        EventKind::Other
    }
}

/// The five event types the platform acts on are the provider's fixed type
/// names, each read as its own kind, and every other type is `Other`:
/// `invoice.payment_succeeded`, `invoice.payment_failed`,
/// `customer.subscription.updated`, `customer.subscription.deleted` and
/// `customer.subscription.created`.
pub proof fn law_event_kinds(t: Seq<char>)
    ensures
        event_kind(t) == EventKind::PaymentSucceeded <==> t == "invoice.payment_succeeded"@,
        event_kind(t) == EventKind::PaymentFailed <==> t == "invoice.payment_failed"@,
        event_kind(t) == EventKind::SubscriptionUpdated <==> t == "customer.subscription.updated"@,
        event_kind(t) == EventKind::SubscriptionDeleted <==> t == "customer.subscription.deleted"@,
        event_kind(t) == EventKind::SubscriptionCreated <==> t == "customer.subscription.created"@,
        event_kind(t) == EventKind::Other <==> !(t == "invoice.payment_succeeded"@ || t == "invoice.payment_failed"@
            || t == "customer.subscription.updated"@ || t == "customer.subscription.deleted"@
            || t == "customer.subscription.created"@),
{
    reveal_strlit("invoice.payment_succeeded");
    reveal_strlit("invoice.payment_failed");
    reveal_strlit("customer.subscription.updated");
    reveal_strlit("customer.subscription.deleted");
    reveal_strlit("customer.subscription.created");
    assert("invoice.payment_succeeded"@ != "invoice.payment_failed"@) by {
        assert("invoice.payment_succeeded"@.len() != "invoice.payment_failed"@.len());
    }
    assert("customer.subscription.updated"@ != "customer.subscription.deleted"@) by {
        assert("customer.subscription.updated"@[22] != "customer.subscription.deleted"@[22]);
    }
    assert("customer.subscription.updated"@ != "customer.subscription.created"@) by {
        assert("customer.subscription.updated"@[22] != "customer.subscription.created"@[22]);
    }
    assert("customer.subscription.deleted"@ != "customer.subscription.created"@) by {
        assert("customer.subscription.deleted"@[22] != "customer.subscription.created"@[22]);
    }
    assert("invoice.payment_succeeded"@ != "customer.subscription.updated"@) by {
        assert("invoice.payment_succeeded"@[0] != "customer.subscription.updated"@[0]);
    }
    assert("invoice.payment_succeeded"@ != "customer.subscription.deleted"@) by {
        assert("invoice.payment_succeeded"@[0] != "customer.subscription.deleted"@[0]);
    }
    assert("invoice.payment_succeeded"@ != "customer.subscription.created"@) by {
        assert("invoice.payment_succeeded"@[0] != "customer.subscription.created"@[0]);
    }
    assert("invoice.payment_failed"@ != "customer.subscription.updated"@) by {
        assert("invoice.payment_failed"@[0] != "customer.subscription.updated"@[0]);
    }
    assert("invoice.payment_failed"@ != "customer.subscription.deleted"@) by {
        assert("invoice.payment_failed"@[0] != "customer.subscription.deleted"@[0]);
    }
    assert("invoice.payment_failed"@ != "customer.subscription.created"@) by {
        assert("invoice.payment_failed"@[0] != "customer.subscription.created"@[0]);
    }
}

/// The kind of an event from its `type` field.
pub fn classify_event(event_type: &str) -> (res: EventKind)
    ensures
        res == event_kind(event_type@),
{
    if str_eq(event_type, "invoice.payment_succeeded") {
        EventKind::PaymentSucceeded
    } else if str_eq(event_type, "invoice.payment_failed") {
        EventKind::PaymentFailed
    } else if str_eq(event_type, "customer.subscription.updated") {
        EventKind::SubscriptionUpdated
    } else if str_eq(event_type, "customer.subscription.deleted") {
        EventKind::SubscriptionDeleted
    } else if str_eq(event_type, "customer.subscription.created") {
        EventKind::SubscriptionCreated
    } else {
        EventKind::Other
    }
}

/// Whether events of a kind carry an invoice (the others carry a
/// subscription, or nothing that is read).
pub open spec fn carries_invoice(k: EventKind) -> bool {
    k == EventKind::PaymentSucceeded || k == EventKind::PaymentFailed
}

/// The action of an invoice event: a success reports the amount paid, a
/// failure the amount due.
pub fn invoice_action(kind: EventKind, invoice: InvoiceFields) -> (res: WebhookAction)
    requires
        carries_invoice(kind),
    ensures
        kind == EventKind::PaymentSucceeded ==> res == (WebhookAction::PaymentSucceeded {
            customer_id: invoice.customer,
            invoice_id: invoice.id,
            amount: invoice.amount_paid,
            subscription_id: invoice.subscription,
        }),
        kind == EventKind::PaymentFailed ==> res == (WebhookAction::PaymentFailed {
            customer_id: invoice.customer,
            invoice_id: invoice.id,
            amount: invoice.amount_due,
            subscription_id: invoice.subscription,
        }),
{
    if kind == EventKind::PaymentSucceeded {
        WebhookAction::PaymentSucceeded {
            customer_id: invoice.customer,
            invoice_id: invoice.id,
            amount: invoice.amount_paid,
            subscription_id: invoice.subscription,
        }
    } else {
        WebhookAction::PaymentFailed {
            customer_id: invoice.customer,
            invoice_id: invoice.id,
            amount: invoice.amount_due,
            subscription_id: invoice.subscription,
        }
    }
}

/// The action of a subscription event.
pub fn subscription_action(kind: EventKind, sub: SubscriptionFields) -> (res: WebhookAction)
    requires
        !carries_invoice(kind),
        kind != EventKind::Other,
    ensures
        kind == EventKind::SubscriptionUpdated ==> res == (WebhookAction::SubscriptionUpdated {
            subscription_id: sub.id,
            customer_id: sub.customer,
            status: sub.status,
        }),
        kind == EventKind::SubscriptionDeleted ==> res == (WebhookAction::SubscriptionDeleted {
            subscription_id: sub.id,
            customer_id: sub.customer,
        }),
        kind == EventKind::SubscriptionCreated ==> res == (WebhookAction::SubscriptionCreated {
            subscription_id: sub.id,
            customer_id: sub.customer,
            status: sub.status,
        }),
{
    if kind == EventKind::SubscriptionUpdated {
        WebhookAction::SubscriptionUpdated { subscription_id: sub.id, customer_id: sub.customer, status: sub.status }
    } else if kind == EventKind::SubscriptionDeleted {
        WebhookAction::SubscriptionDeleted { subscription_id: sub.id, customer_id: sub.customer }
    } else {
        WebhookAction::SubscriptionCreated { subscription_id: sub.id, customer_id: sub.customer, status: sub.status }
    }
}

/// The status a white label moves to after an action: a payment brings it
/// back to `White`, a failed payment makes it `Gray`, a cancelled
/// subscription `Red`; other actions leave it as it is.
pub open spec fn status_after(action: WebhookAction) -> Option<LabelStatus> {
    match action {
        WebhookAction::PaymentSucceeded { .. } => Some(LabelStatus::White),
        WebhookAction::PaymentFailed { .. } => Some(LabelStatus::Gray),
        WebhookAction::SubscriptionDeleted { .. } => Some(LabelStatus::Red),
        _ => None,
    }
}

/// Only the three actions that concern a label's standing change it: a paid
/// invoice makes the label `White`, a failed payment `Gray` and a cancelled
/// subscription `Red`, and every other action leaves the status alone.
pub proof fn law_status_after_actions(action: WebhookAction)
    ensures
        status_after(action) == Some(LabelStatus::White) <==> action is PaymentSucceeded,
        status_after(action) == Some(LabelStatus::Gray) <==> action is PaymentFailed,
        status_after(action) == Some(LabelStatus::Red) <==> action is SubscriptionDeleted,
        status_after(action) is None <==> !(action is PaymentSucceeded || action is PaymentFailed
            || action is SubscriptionDeleted),
        status_after(action) != Some(LabelStatus::Black),
{
}

/// The label status an action sets, if any.
pub fn label_status_after(action: &WebhookAction) -> (res: Option<LabelStatus>)
    ensures
        res == status_after(*action),
{
    match action {
        WebhookAction::PaymentSucceeded { .. } => Some(LabelStatus::White),
        WebhookAction::PaymentFailed { .. } => Some(LabelStatus::Gray),
        WebhookAction::SubscriptionDeleted { .. } => Some(LabelStatus::Red),
        _ => None,
    }
}

/// The e-mail job an action triggers for the site at `domain`: a payment
/// receipt for a success, a payment-failed notice (with the amount already
/// written as text) for a failure, none otherwise.
pub fn follow_up_job(action: &WebhookAction, domain: &str, amount_text: &str) -> (res: Option<JobType>)
    ensures
        action matches WebhookAction::PaymentSucceeded { invoice_id, .. } ==> (res matches Some(
            JobType::SendPaymentSuccessEmail { domain: d, invoice_id: i },
        ) && d@ == domain@ && i@ == invoice_id@),
        action is PaymentFailed ==> (res matches Some(JobType::SendPaymentFailedEmail { domain: d, amount: a })
            && d@ == domain@ && a@ == amount_text@),
        !(action is PaymentSucceeded || action is PaymentFailed) ==> res is None,
{
    match action {
        WebhookAction::PaymentSucceeded { invoice_id, .. } => Some(JobType::SendPaymentSuccessEmail {
            domain: to_owned_string(domain),
            invoice_id: invoice_id.clone(),
        }),
        WebhookAction::PaymentFailed { .. } => Some(JobType::SendPaymentFailedEmail {
            domain: to_owned_string(domain),
            amount: to_owned_string(amount_text),
        }),
        _ => None,
    }
}

/// The activity-log entry kind an action is recorded under, if any.
pub fn activity_kind(action: &WebhookAction) -> (res: Option<&'static str>)
    ensures
        action is PaymentSucceeded ==> (res matches Some(k) && k@ == "payment_received"@),
        action is PaymentFailed ==> (res matches Some(k) && k@ == "payment_failed"@),
        action is SubscriptionDeleted ==> (res matches Some(k) && k@ == "subscription_cancelled"@),
        !(action is PaymentSucceeded || action is PaymentFailed || action is SubscriptionDeleted) ==> res is None,
{
    match action {
        WebhookAction::PaymentSucceeded { .. } => Some("payment_received"),
        WebhookAction::PaymentFailed { .. } => Some("payment_failed"),
        WebhookAction::SubscriptionDeleted { .. } => Some("subscription_cancelled"),
        _ => None,
    }
}

/// The form field under which customer metadata `key` is sent:
/// `metadata[<key>]`.
pub fn metadata_field(key: &str) -> (res: String)
    ensures
        res@ == "metadata["@ + key@ + "]"@,
{
    let mut s = String::new();
    push_str(&mut s, "metadata[");
    push_str(&mut s, key);
    push_str(&mut s, "]");
    s
}

/// The address that cancels a subscription.
pub fn subscription_url(subscription_id: &str) -> (res: String)
    ensures
        res@ == "https://api.stripe.com/v1/subscriptions/"@ + subscription_id@,
{
    let mut s = String::new();
    push_str(&mut s, "https://api.stripe.com/v1/subscriptions/");
    push_str(&mut s, subscription_id);
    s
}

/// The activity-log note of a received webhook: `Webhook event: <type>`.
pub fn webhook_note(event_type: &str) -> (res: String)
    ensures
        res@ == "Webhook event: "@ + event_type@,
{
    let mut s = String::new();
    push_str(&mut s, "Webhook event: ");
    push_str(&mut s, event_type);
    s
}

// ---------------------------------------------------------------------------
// What an acknowledged event does
// ---------------------------------------------------------------------------

/// The white label that a customer id was found to belong to.
pub struct LabelRef {
    pub id: String,
    pub domain: String,
}

/// One step of the handling of an event, in the order they are carried out.
#[allow(inconsistent_fields)]
pub enum WebhookEffect {
    /// Record an entry in the activity log.
    LogActivity { label_id: Option<String>, action: String, description: String, admin_action: bool },
    /// Set the status of a white label.
    SetStatus { label_id: String, status: LabelStatus },
    /// Enqueue a background job.
    Enqueue { job: JobType },
}

/// `e` records a non-administrative activity-log entry with this label,
/// action and description.
pub open spec fn is_log(e: WebhookEffect, label: Option<Seq<char>>, action: Seq<char>, description: Seq<char>) -> bool {
    &&& e matches WebhookEffect::LogActivity { label_id, action: a, description: d, admin_action }
    &&& !admin_action && a@ == action && d@ == description
    &&& match label_id {
        None => label is None,
        Some(id) => label == Some(id@),
    }
}

/// `e` sets the status of the label with id `id` to `status`.
pub open spec fn is_set_status(e: WebhookEffect, id: Seq<char>, status: LabelStatus) -> bool {
    e matches WebhookEffect::SetStatus { label_id, status: s } && label_id@ == id && s == status
}

/// `e` is the record of a received webhook.
pub open spec fn is_received_log(e: WebhookEffect) -> bool {
    e matches WebhookEffect::LogActivity { action, .. } && action@ == "stripe_webhook_received"@
}

fn log_effect(label_id: Option<String>, action: &str, description: String) -> (res: WebhookEffect)
    ensures
        is_log(res, match label_id { Some(id) => Some(id@), None => None }, action@, description@),
{
    WebhookEffect::LogActivity { label_id, action: to_owned_string(action), description, admin_action: false }
}

/// What the platform does with an acknowledged event of type `event_type`
/// whose action is `action`, given the white label found for its customer
/// (if any) and the amount written as text: first, always and only once,
/// the record `stripe_webhook_received` / `Webhook event: <type>`; then,
/// for a paid invoice, the label turns white, a receipt is enqueued and
/// `payment_received` is recorded; for a failed payment, the label turns
/// gray, a notice is enqueued and `payment_failed` is recorded; for a
/// cancelled subscription, the label turns red and `subscription_cancelled`
/// is recorded.  Without a label, or for any other action, nothing follows
/// the first record.
pub fn webhook_effects(
    event_type: &str,
    action: &WebhookAction,
    label: Option<&LabelRef>,
    amount_text: &str,
) -> (res: Vec<WebhookEffect>)
    ensures
        res@.len() >= 1,
        is_log(res@[0], None, "stripe_webhook_received"@, "Webhook event: "@ + event_type@),
        forall|i: int| 1 <= i < res@.len() ==> !is_received_log(#[trigger] res@[i]),
        label is None || !(action is PaymentSucceeded || action is PaymentFailed || action is SubscriptionDeleted)
            ==> res@.len() == 1,
        label matches Some(l) ==> (action matches WebhookAction::PaymentSucceeded { invoice_id, .. } ==> {
            &&& res@.len() == 4
            &&& is_set_status(res@[1], l.id@, LabelStatus::White)
            &&& res@[2] matches WebhookEffect::Enqueue { job: JobType::SendPaymentSuccessEmail { domain, invoice_id: inv } }
                && domain@ == l.domain@ && inv@ == invoice_id@
            &&& is_log(res@[3], Some(l.id@), "payment_received"@, "Payment succeeded: \u{20ac}"@ + amount_text@)
        }),
        label matches Some(l) ==> (action is PaymentFailed ==> {
            &&& res@.len() == 4
            &&& is_set_status(res@[1], l.id@, LabelStatus::Gray)
            &&& res@[2] matches WebhookEffect::Enqueue { job: JobType::SendPaymentFailedEmail { domain, amount } }
                && domain@ == l.domain@ && amount@ == amount_text@
            &&& is_log(res@[3], Some(l.id@), "payment_failed"@, "Payment failed: \u{20ac}"@ + amount_text@)
        }),
        label matches Some(l) ==> (action is SubscriptionDeleted ==> {
            &&& res@.len() == 3
            &&& is_set_status(res@[1], l.id@, LabelStatus::Red)
            &&& is_log(res@[2], Some(l.id@), "subscription_cancelled"@, "Subscription cancelled"@)
        }),
{
    proof {
        reveal_strlit("stripe_webhook_received");
        reveal_strlit("payment_received");
        reveal_strlit("payment_failed");
        reveal_strlit("subscription_cancelled");
    }
    let mut res: Vec<WebhookEffect> = Vec::new();
    res.push(log_effect(None, "stripe_webhook_received", webhook_note(event_type)));
    let l = match label {
        None => return res,
        Some(l) => l,
    };
    match action {
        WebhookAction::PaymentSucceeded { invoice_id, .. } => {
            res.push(WebhookEffect::SetStatus { label_id: l.id.clone(), status: LabelStatus::White });
            res.push(WebhookEffect::Enqueue {
                job: JobType::SendPaymentSuccessEmail { domain: l.domain.clone(), invoice_id: invoice_id.clone() },
            });
            res.push(log_effect(Some(l.id.clone()), "payment_received", prefixed("Payment succeeded: \u{20ac}", to_owned_string(amount_text))));
        },
        WebhookAction::PaymentFailed { .. } => {
            res.push(WebhookEffect::SetStatus { label_id: l.id.clone(), status: LabelStatus::Gray });
            res.push(WebhookEffect::Enqueue {
                job: JobType::SendPaymentFailedEmail { domain: l.domain.clone(), amount: to_owned_string(amount_text) },
            });
            res.push(log_effect(Some(l.id.clone()), "payment_failed", prefixed("Payment failed: \u{20ac}", to_owned_string(amount_text))));
        },
        WebhookAction::SubscriptionDeleted { .. } => {
            res.push(WebhookEffect::SetStatus { label_id: l.id.clone(), status: LabelStatus::Red });
            res.push(log_effect(Some(l.id.clone()), "subscription_cancelled", to_owned_string("Subscription cancelled")));
        },
        _ => {},
    }
    proof {
        assert("payment_received"@.len() != "stripe_webhook_received"@.len());
        assert("payment_failed"@.len() != "stripe_webhook_received"@.len());
        assert("subscription_cancelled"@.len() != "stripe_webhook_received"@.len());
    }
    res
}

// ---------------------------------------------------------------------------
// Event dispatch and the webhook's answer
// ---------------------------------------------------------------------------

impl StripeError {
    /// The error's message.
    pub fn message(&self) -> (res: String)
        ensures
            res@ == match self {
                StripeError::ApiError(m) => "Stripe API error: "@ + m@,
                StripeError::WebhookVerificationFailed(m) => "Webhook verification failed: "@ + m@,
                StripeError::InvalidEventType(m) => "Invalid event type: "@ + m@,
                StripeError::MissingField(m) => "Missing field: "@ + m@,
            },
    {
        let (mut s, m) = match self {
            StripeError::ApiError(m) => (to_owned_string("Stripe API error: "), m),
            StripeError::WebhookVerificationFailed(m) => (to_owned_string("Webhook verification failed: "), m),
            StripeError::InvalidEventType(m) => (to_owned_string("Invalid event type: "), m),
            StripeError::MissingField(m) => (to_owned_string("Missing field: "), m),
        };
        push_str(&mut s, m.as_str());
        s
    }
}

fn prefixed(prefix: &str, m: String) -> (res: String)
    ensures
        res@ == prefix@ + m@,
{
    let mut s = to_owned_string(prefix);
    push_str(&mut s, m.as_str());
    s
}

/// The action of a webhook event, given its `type` and its `data.object`
/// read as an invoice and as a subscription (each an error text when the
/// object does not read as one): the five handled types give their action
/// from the object they carry, a missing field is `MissingField` with
/// `invoice: ` or `subscription: ` before the reader's message, and every
/// other type is `Ignore`.
pub fn handle_event(
    event_type: &str,
    invoice: Result<InvoiceFields, String>,
    subscription: Result<SubscriptionFields, String>,
) -> (res: Result<WebhookAction, StripeError>)
    ensures
        event_kind(event_type@) == EventKind::Other ==> (res matches Ok(WebhookAction::Ignore)),
        carries_invoice(event_kind(event_type@)) ==> match invoice {
            Err(e) => res matches Err(StripeError::MissingField(m)) && m@ == "invoice: "@ + e@,
            Ok(i) => if event_kind(event_type@) == EventKind::PaymentSucceeded {
                res == Ok::<WebhookAction, StripeError>(WebhookAction::PaymentSucceeded {
                    customer_id: i.customer,
                    invoice_id: i.id,
                    amount: i.amount_paid,
                    subscription_id: i.subscription,
                })
            } else {
                res == Ok::<WebhookAction, StripeError>(WebhookAction::PaymentFailed {
                    customer_id: i.customer,
                    invoice_id: i.id,
                    amount: i.amount_due,
                    subscription_id: i.subscription,
                })
            },
        },
        !carries_invoice(event_kind(event_type@)) && event_kind(event_type@) != EventKind::Other ==> match subscription {
            Err(e) => res matches Err(StripeError::MissingField(m)) && m@ == "subscription: "@ + e@,
            Ok(sub) => if event_kind(event_type@) == EventKind::SubscriptionUpdated {
                res == Ok::<WebhookAction, StripeError>(WebhookAction::SubscriptionUpdated {
                    subscription_id: sub.id,
                    customer_id: sub.customer,
                    status: sub.status,
                })
            } else if event_kind(event_type@) == EventKind::SubscriptionDeleted {
                res == Ok::<WebhookAction, StripeError>(WebhookAction::SubscriptionDeleted {
                    subscription_id: sub.id,
                    customer_id: sub.customer,
                })
            } else {
                res == Ok::<WebhookAction, StripeError>(WebhookAction::SubscriptionCreated {
                    subscription_id: sub.id,
                    customer_id: sub.customer,
                    status: sub.status,
                })
            },
        },
{
    let kind = classify_event(event_type);
    if kind == EventKind::Other {
        return Ok(WebhookAction::Ignore);
    }
    if kind == EventKind::PaymentSucceeded || kind == EventKind::PaymentFailed {
        match invoice {
            Err(e) => Err(StripeError::MissingField(prefixed("invoice: ", e))),
            Ok(i) => Ok(invoice_action(kind, i)),
        }
    } else {
        match subscription {
            Err(e) => Err(StripeError::MissingField(prefixed("subscription: ", e))),
            Ok(sub) => Ok(subscription_action(kind, sub)),
        }
    }
}

/// The answer of the webhook endpoint.
pub enum WebhookReply {
    /// `400 Bad Request` with this message.
    BadRequest(String),
    /// `500 Internal Server Error` with this message.
    ServerError(String),
    /// `200 OK` with `{"received": true, "event_id": <id>}`.
    Received { event_id: String },
}

/// The message of a webhook whose signature does not check out.
pub open spec fn signature_mismatch_text() -> Seq<char> {
    "signature does not match the payload"@
}

/// The webhook's answer from its stages, in order: a request without a
/// `stripe-signature` header, a body that is not UTF-8 (the decoder's
/// message), a header that is not a genuine signature of the body under the
/// webhook secret, or an event that does not read (the reader's message) is
/// a bad request; a failure while recording or handling the event is a
/// server error; otherwise the event is acknowledged with its id.
pub fn webhook_reply(
    signature: Option<&str>,
    webhook_secret: &str,
    payload: Result<&str, String>,
    event: Result<String, String>,
    handled: Result<(), String>,
) -> (res: WebhookReply)
    ensures
        signature is None ==> (res matches WebhookReply::BadRequest(m) && m@ == "Missing signature"@),
        signature is Some && payload is Err ==> (res matches WebhookReply::BadRequest(m) && m == payload->Err_0),
        signature matches Some(sig) ==> (payload matches Ok(body) ==> (!signature_valid(webhook_secret@, body@, sig@)
            ==> (res matches WebhookReply::BadRequest(m) && m@ == "Webhook verification failed: "@
            + signature_mismatch_text()))),
        signature matches Some(sig) ==> (payload matches Ok(body) ==> (signature_valid(webhook_secret@, body@, sig@) ==> {
            &&& event is Err ==> (res matches WebhookReply::BadRequest(m) && m@ == "Webhook verification failed: "@
                + event->Err_0@)
            &&& event is Ok && handled is Err ==> (res matches WebhookReply::ServerError(m) && m == handled->Err_0)
            &&& event is Ok && handled is Ok ==> (res matches WebhookReply::Received { event_id }
                && event_id == event->Ok_0)
        })),
{
    let sig = match signature {
        None => return WebhookReply::BadRequest(to_owned_string("Missing signature")),
        Some(sig) => sig,
    };
    let body = match payload {
        Err(e) => return WebhookReply::BadRequest(e),
        Ok(body) => body,
    };
    if !verify_signature(webhook_secret, body, sig) {
        return WebhookReply::BadRequest(
            prefixed("Webhook verification failed: ", to_owned_string("signature does not match the payload")),
        );
    }
    match event {
        Err(e) => WebhookReply::BadRequest(prefixed("Webhook verification failed: ", e)),
        Ok(id) => match handled {
            Err(e) => WebhookReply::ServerError(e),
            Ok(()) => WebhookReply::Received { event_id: id },
        },
    }
}

} // verus!
