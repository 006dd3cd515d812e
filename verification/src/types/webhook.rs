//! Notifications that the API sends, and what they are verified with.

use crate::amount::Amount;
use crate::text::same_text;
use std::collections::HashMap;
use vstd::prelude::*;

verus! {

/// The events that the API notifies of. The list is closed: a name outside
/// it is no event.
#[derive(Debug, Clone, Copy, PartialEq, Eq, Structural)]
pub enum WebhookEventType {
    OrderCompleted,
    OrderFailed,
    OrderCancelled,
    OrderRefunded,
    PaymentCompleted,
    PaymentFailed,
    InstallmentCompleted,
    InstallmentFailed,
}

impl WebhookEventType {
    /// The name that the API gives to the event.
    pub open spec fn wire_name(self) -> Seq<char> {
        match self {
            WebhookEventType::OrderCompleted => "order.completed"@,
            WebhookEventType::OrderFailed => "order.failed"@,
            WebhookEventType::OrderCancelled => "order.cancelled"@,
            WebhookEventType::OrderRefunded => "order.refunded"@,
            WebhookEventType::PaymentCompleted => "payment.completed"@,
            WebhookEventType::PaymentFailed => "payment.failed"@,
            WebhookEventType::InstallmentCompleted => "installment.completed"@,
            WebhookEventType::InstallmentFailed => "installment.failed"@,
        }
    }

    /// The event that the API gives the name `name` to, if any.
    pub open spec fn named(name: Seq<char>) -> Option<WebhookEventType> {
        if name == "order.completed"@ {
            Some(WebhookEventType::OrderCompleted)
        } else if name == "order.failed"@ {
            Some(WebhookEventType::OrderFailed)
        } else if name == "order.cancelled"@ {
            Some(WebhookEventType::OrderCancelled)
        } else if name == "order.refunded"@ {
            Some(WebhookEventType::OrderRefunded)
        } else if name == "payment.completed"@ {
            Some(WebhookEventType::PaymentCompleted)
        } else if name == "payment.failed"@ {
            Some(WebhookEventType::PaymentFailed)
        } else if name == "installment.completed"@ {
            Some(WebhookEventType::InstallmentCompleted)
        } else if name == "installment.failed"@ {
            Some(WebhookEventType::InstallmentFailed)
        } else {
            None
        }
    }

    /// Every event has a name of its own: the name of one is the name of no
    /// other.
    pub proof fn lemma_name_is_own(value: WebhookEventType)
        ensures
            Self::named(value.wire_name()) == Some(value),
    {
        reveal_strlit("order.completed");
        reveal_strlit("order.failed");
        reveal_strlit("order.cancelled");
        reveal_strlit("order.refunded");
        reveal_strlit("payment.completed");
        reveal_strlit("payment.failed");
        reveal_strlit("installment.completed");
        reveal_strlit("installment.failed");
        assert("order.completed"@.len() == 15);
        assert("order.failed"@.len() == 12);
        assert("order.cancelled"@.len() == 15);
        assert("order.refunded"@.len() == 14);
        assert("payment.completed"@.len() == 17);
        assert("payment.failed"@.len() == 14);
        assert("installment.completed"@.len() == 21);
        assert("installment.failed"@.len() == 18);
        assert("order.cancelled"@[7] == 'a');
        assert("order.completed"@[7] == 'o');
        assert("payment.failed"@[0] == 'p');
        assert("order.refunded"@[0] == 'o');
    }

    /// The name that the API gives to the event.
    pub fn name(&self) -> (s: &'static str)
        ensures
            s@ == self.wire_name(),
    {
        match self {
            WebhookEventType::OrderCompleted => "order.completed",
            WebhookEventType::OrderFailed => "order.failed",
            WebhookEventType::OrderCancelled => "order.cancelled",
            WebhookEventType::OrderRefunded => "order.refunded",
            WebhookEventType::PaymentCompleted => "payment.completed",
            WebhookEventType::PaymentFailed => "payment.failed",
            WebhookEventType::InstallmentCompleted => "installment.completed",
            WebhookEventType::InstallmentFailed => "installment.failed",
        }
    }

    /// The event with the given name. A name that the API does not use
    /// gives none.
    pub fn from_name(name: &str) -> (r: Option<WebhookEventType>)
        ensures
            r == Self::named(name@),
    {
        if same_text(name, "order.completed") {
            Some(WebhookEventType::OrderCompleted)
        } else if same_text(name, "order.failed") {
            Some(WebhookEventType::OrderFailed)
        } else if same_text(name, "order.cancelled") {
            Some(WebhookEventType::OrderCancelled)
        } else if same_text(name, "order.refunded") {
            Some(WebhookEventType::OrderRefunded)
        } else if same_text(name, "payment.completed") {
            Some(WebhookEventType::PaymentCompleted)
        } else if same_text(name, "payment.failed") {
            Some(WebhookEventType::PaymentFailed)
        } else if same_text(name, "installment.completed") {
            Some(WebhookEventType::InstallmentCompleted)
        } else if same_text(name, "installment.failed") {
            Some(WebhookEventType::InstallmentFailed)
        } else {
            None
        }
    }
}

/// A notification sent by the API.
#[derive(Debug, Clone)]
pub struct WebhookEvent {
    pub event_type: WebhookEventType,
    pub data: WebhookData,
    pub timestamp: String,
    pub signature: Option<String>,
}

/// What a notification is about.
#[derive(Debug, Clone)]
pub struct WebhookData {
    pub order_id: Option<String>,
    pub payment_id: Option<String>,
    pub installment_id: Option<String>,
    pub amount: Option<Amount>,
    pub currency: Option<String>,
    pub status: Option<String>,
    pub metadata: Option<HashMap<String, serde_json::Value>>,
}

/// The outcome of verifying a notification: whether it is authentic, and if
/// not, why.
#[derive(Debug, Clone)]
pub struct WebhookVerificationResult {
    pub is_valid: bool,
    pub error: Option<String>,
}

/// What a notification is verified with: the shared secret, and how far its
/// time stamp may lie from the present, in seconds.
#[derive(Debug, Clone)]
pub struct WebhookVerificationConfig {
    pub secret: String,
    pub tolerance_seconds: Option<u64>,
}

} // verus!
