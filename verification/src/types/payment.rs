//! Payments.

use crate::amount::Amount;
use crate::text::same_text;
use vstd::prelude::*;

verus! {

/// The states of a payment.
#[derive(Debug, Clone, Copy, PartialEq, Eq, Structural)]
pub enum PaymentStatus {
    Pending,
    Processing,
    Completed,
    Failed,
    Cancelled,
}

impl PaymentStatus {
    /// The name that the API gives to the state.
    pub open spec fn wire_name(self) -> Seq<char> {
        match self {
            PaymentStatus::Pending => "pending"@,
            PaymentStatus::Processing => "processing"@,
            PaymentStatus::Completed => "completed"@,
            PaymentStatus::Failed => "failed"@,
            PaymentStatus::Cancelled => "cancelled"@,
        }
    }

    /// The state that the API gives the name `name` to, if any.
    pub open spec fn named(name: Seq<char>) -> Option<PaymentStatus> {
        if name == "pending"@ {
            Some(PaymentStatus::Pending)
        } else if name == "processing"@ {
            Some(PaymentStatus::Processing)
        } else if name == "completed"@ {
            Some(PaymentStatus::Completed)
        } else if name == "failed"@ {
            Some(PaymentStatus::Failed)
        } else if name == "cancelled"@ {
            Some(PaymentStatus::Cancelled)
        } else {
            None
        }
    }

    /// Every state has a name of its own: the name of one is the name of no
    /// other.
    pub proof fn lemma_name_is_own(value: PaymentStatus)
        ensures
            Self::named(value.wire_name()) == Some(value),
    {
        reveal_strlit("pending");
        reveal_strlit("processing");
        reveal_strlit("completed");
        reveal_strlit("failed");
        reveal_strlit("cancelled");
        assert("pending"@.len() == 7);
        assert("processing"@.len() == 10);
        assert("completed"@.len() == 9);
        assert("failed"@.len() == 6);
        assert("cancelled"@.len() == 9);
        assert("cancelled"@[1] == 'a');
        assert("completed"@[1] == 'o');
    }

    /// The name that the API gives to the state.
    pub fn name(&self) -> (s: &'static str)
        ensures
            s@ == self.wire_name(),
    {
        match self {
            PaymentStatus::Pending => "pending",
            PaymentStatus::Processing => "processing",
            PaymentStatus::Completed => "completed",
            PaymentStatus::Failed => "failed",
            PaymentStatus::Cancelled => "cancelled",
        }
    }

    /// The state with the given name. A name that the API does not use
    /// gives none.
    pub fn from_name(name: &str) -> (r: Option<PaymentStatus>)
        ensures
            r == Self::named(name@),
    {
        if same_text(name, "pending") {
            Some(PaymentStatus::Pending)
        } else if same_text(name, "processing") {
            Some(PaymentStatus::Processing)
        } else if same_text(name, "completed") {
            Some(PaymentStatus::Completed)
        } else if same_text(name, "failed") {
            Some(PaymentStatus::Failed)
        } else if same_text(name, "cancelled") {
            Some(PaymentStatus::Cancelled)
        } else {
            None
        }
    }
}

/// A payment, as the API reports one.
#[derive(Debug, Clone)]
pub struct Payment {
    pub id: String,
    pub amount: Amount,
    pub currency: String,
    pub status: PaymentStatus,
    pub description: Option<String>,
    pub customer_id: Option<String>,
    pub created_at: String,
    pub updated_at: String,
}

/// What is needed to create a payment.
#[derive(Debug, Clone)]
pub struct CreatePaymentRequest {
    pub amount: Amount,
    pub currency: String,
    pub description: Option<String>,
    pub customer_id: Option<String>,
    pub callback_url: Option<String>,
}

/// A payment with the address of its checkout page.
#[derive(Debug, Clone)]
pub struct PaymentResponse {
    pub payment: Payment,
    pub checkout_url: Option<String>,
}

} // verus!
