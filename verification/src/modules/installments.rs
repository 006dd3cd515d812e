//! Installment plans: a schedule that splits the payment of an order into
//! dated portions.

use crate::amount::Amount;
use crate::call::{
    call_or_fault, joined, paged, pagination_query, payload_of, payload_or_failure, require_id,
    ApiCall, PayloadModel,
};
use crate::client::{HttpMethod, TapsilatClient};
use crate::error::{ErrorModel, TapsilatError};
use crate::modules::validators::{amount_fault, installments_message, Validators};
use crate::text::same_text;
use crate::types::common::{ApiResponse, PaginatedResponse, PaginationParams};
use std::sync::Arc;
use vstd::prelude::*;
use vstd::string::StringExecFns;

verus! {

/// The states of an installment and of a plan.
#[derive(Debug, Clone, Copy, PartialEq, Eq, Structural)]
pub enum InstallmentStatus {
    Pending,
    Paid,
    Overdue,
    Cancelled,
    Refunded,
}

/// A schedule of installments for one order.
#[derive(Debug, Clone)]
pub struct InstallmentPlan {
    pub id: String,
    pub order_id: String,
    pub total_installments: u8,
    pub installment_amount: Amount,
    pub currency: String,
    pub status: InstallmentStatus,
    pub installments: Vec<Installment>,
    pub created_at: String,
    pub updated_at: String,
}

/// One dated portion of a plan.
#[derive(Debug, Clone)]
pub struct Installment {
    pub id: String,
    pub installment_number: u8,
    pub amount: Amount,
    pub due_date: String,
    pub paid_at: Option<String>,
    pub status: InstallmentStatus,
}

/// What is needed to create a plan: the order, the number of installments
/// and the day on which the first one is due, as an ISO 8601 date.
#[derive(Debug, Clone)]
pub struct CreateInstallmentPlanRequest {
    pub order_id: String,
    pub installment_count: u8,
    pub first_installment_date: String,
}

/// What to change of an installment.
#[derive(Debug, Clone)]
pub struct UpdateInstallmentRequest {
    pub due_date: Option<String>,
    pub amount: Option<Amount>,
}

/// What to refund of an installment: an amount, or all of it where none is
/// given.
#[derive(Debug, Clone)]
pub struct RefundInstallmentRequest {
    pub amount: Option<Amount>,
    pub reason: Option<String>,
}

/// The operations on installment plans.
pub struct InstallmentModule {
    client: Arc<TapsilatClient>,
}

impl InstallmentStatus {
    /// The name that the API gives to the state.
    pub open spec fn wire_name(self) -> Seq<char> {
        match self {
            InstallmentStatus::Pending => "pending"@,
            InstallmentStatus::Paid => "paid"@,
            InstallmentStatus::Overdue => "overdue"@,
            InstallmentStatus::Cancelled => "cancelled"@,
            InstallmentStatus::Refunded => "refunded"@,
        }
    }

    /// The state that the API gives the name `name` to, if any.
    pub open spec fn named(name: Seq<char>) -> Option<InstallmentStatus> {
        if name == "pending"@ {
            Some(InstallmentStatus::Pending)
        } else if name == "paid"@ {
            Some(InstallmentStatus::Paid)
        } else if name == "overdue"@ {
            Some(InstallmentStatus::Overdue)
        } else if name == "cancelled"@ {
            Some(InstallmentStatus::Cancelled)
        } else if name == "refunded"@ {
            Some(InstallmentStatus::Refunded)
        } else {
            None
        }
    }

    /// Whether nothing follows the state: an installment that is paid,
    /// cancelled or refunded stays so.
    pub open spec fn terminal(self) -> bool {
        self == InstallmentStatus::Paid || self == InstallmentStatus::Cancelled || self
            == InstallmentStatus::Refunded
    }

    /// Whether an installment in this state can pass to the state `next`:
    /// a pending one can be paid, fall overdue, be cancelled or refunded;
    /// an overdue one can still be paid.
    pub open spec fn leads_to(self, next: InstallmentStatus) -> bool {
        match self {
            InstallmentStatus::Pending => next != InstallmentStatus::Pending,
            InstallmentStatus::Overdue => next == InstallmentStatus::Paid,
            _ => false,
        }
    }

    /// Every state has a name of its own: the name of one is the name of no
    /// other.
    pub proof fn lemma_name_is_own(value: InstallmentStatus)
        ensures
            Self::named(value.wire_name()) == Some(value),
    {
        reveal_strlit("pending");
        reveal_strlit("paid");
        reveal_strlit("overdue");
        reveal_strlit("cancelled");
        reveal_strlit("refunded");
        assert("pending"@.len() == 7);
        assert("paid"@.len() == 4);
        assert("overdue"@.len() == 7);
        assert("cancelled"@.len() == 9);
        assert("refunded"@.len() == 8);
        assert("overdue"@[0] == 'o');
        assert("pending"@[0] == 'p');
    }

    /// The name that the API gives to the state.
    pub fn name(&self) -> (s: &'static str)
        ensures
            s@ == self.wire_name(),
    {
        match self {
            InstallmentStatus::Pending => "pending",
            InstallmentStatus::Paid => "paid",
            InstallmentStatus::Overdue => "overdue",
            InstallmentStatus::Cancelled => "cancelled",
            InstallmentStatus::Refunded => "refunded",
        }
    }

    /// The state with the given name. A name that the API does not use
    /// gives none.
    pub fn from_name(name: &str) -> (r: Option<InstallmentStatus>)
        ensures
            r == Self::named(name@),
    {
        if same_text(name, "pending") {
            Some(InstallmentStatus::Pending)
        } else if same_text(name, "paid") {
            Some(InstallmentStatus::Paid)
        } else if same_text(name, "overdue") {
            Some(InstallmentStatus::Overdue)
        } else if same_text(name, "cancelled") {
            Some(InstallmentStatus::Cancelled)
        } else if same_text(name, "refunded") {
            Some(InstallmentStatus::Refunded)
        } else {
            None
        }
    }

    /// Tells whether nothing follows the state.
    pub fn is_terminal(&self) -> (b: bool)
        ensures
            b == self.terminal(),
    {
        match self {
            InstallmentStatus::Paid | InstallmentStatus::Cancelled | InstallmentStatus::Refunded => true,
            _ => false,
        }
    }

    /// Tells whether an installment in this state can pass to `next`.
    pub fn can_become(&self, next: InstallmentStatus) -> (b: bool)
        ensures
            b == self.leads_to(next),
    {
        match self {
            InstallmentStatus::Pending => match next {
                InstallmentStatus::Pending => false,
                _ => true,
            },
            InstallmentStatus::Overdue => match next {
                InstallmentStatus::Paid => true,
                _ => false,
            },
            _ => false,
        }
    }
}

/// Nothing follows a terminal state.
pub proof fn lemma_terminal_is_final(from: InstallmentStatus, to: InstallmentStatus)
    requires
        from.terminal(),
    ensures
        !from.leads_to(to),
{
}

/// What is wrong with a request to create a plan, if anything: the order
/// is not named, the number of installments is out of range, or the first
/// day is not named; looked at in this order.
pub open spec fn plan_request_fault(request: CreateInstallmentPlanRequest) -> Option<Seq<char>> {
    if request.order_id@.len() == 0 {
        Some("Order ID cannot be empty"@)
    } else if !(1 <= request.installment_count <= 12) {
        Some(installments_message(request.installment_count))
    } else if request.first_installment_date@.len() == 0 {
        Some("First installment date cannot be empty"@)
    } else {
        None
    }
}

/// What is wrong with an identifier and an amount that may come with it,
/// if anything: the identifier is empty, which is reported with `empty`,
/// or the amount is given and faulty.
pub open spec fn target_fault(id: Seq<char>, empty: Seq<char>, amount: Option<Amount>) -> Option<
    Seq<char>,
> {
    if id.len() == 0 {
        Some(empty)
    } else {
        match amount {
            Some(a) => amount_fault(a.units as int),
            None => None,
        }
    }
}

impl InstallmentModule {
    /// The client that the operations are made for.
    pub closed spec fn owner(&self) -> TapsilatClient {
        *self.client
    }

    /// The operations on installment plans, for `client`.
    pub fn new(client: Arc<TapsilatClient>) -> (module: InstallmentModule)
        ensures
            module.owner() == *client,
    {
        InstallmentModule { client }
    }

    /// The client that the operations are made for.
    pub fn client(&self) -> (client: &TapsilatClient)
        ensures
            *client == self.owner(),
    {
        &self.client
    }

    /// Checks a request to create a plan.
    pub fn validate_create_request(&self, request: &CreateInstallmentPlanRequest) -> (r: Result<
        (),
        TapsilatError,
    >)
        ensures
            match plan_request_fault(*request) {
                None => r is Ok,
                Some(m) => r matches Err(e) && e@ == ErrorModel::ValidationError(m),
            },
    {
        if request.order_id.as_str().is_empty() {
            return Err(TapsilatError::validation("Order ID cannot be empty"));
        }
        match Validators::validate_installments(request.installment_count) {
            Ok(()) => {},
            Err(e) => {
                return Err(e);
            },
        }
        if request.first_installment_date.as_str().is_empty() {
            return Err(TapsilatError::validation("First installment date cannot be empty"));
        }
        Ok(())
    }

    /// The call that creates a plan, if the request is in order.
    pub fn create_plan(&self, request: &CreateInstallmentPlanRequest) -> (r: Result<
        ApiCall,
        TapsilatError,
    >)
        ensures
            call_or_fault(
                r,
                plan_request_fault(*request),
                HttpMethod::Post,
                "installments/plans"@,
                PayloadModel::Request,
            ),
    {
        match self.validate_create_request(request) {
            Ok(()) => Ok(
                ApiCall::with_request(HttpMethod::Post, String::from_str("installments/plans")),
            ),
            Err(e) => Err(e),
        }
    }

    /// The call that fetches the plan `plan_id`.
    pub fn get_plan(&self, plan_id: &str) -> (r: Result<ApiCall, TapsilatError>)
        ensures
            call_or_fault(
                r,
                target_fault(plan_id@, "Plan ID cannot be empty"@, None),
                HttpMethod::Get,
                "installments/plans/"@ + plan_id@,
                PayloadModel::Nothing,
            ),
    {
        match require_id(plan_id, "Plan ID cannot be empty") {
            Ok(()) => Ok(ApiCall::get(String::from_str("installments/plans/").concat(plan_id))),
            Err(e) => Err(e),
        }
    }

    /// The call that fetches the plans of the order `order_id`.
    pub fn get_plans_by_order(&self, order_id: &str) -> (r: Result<ApiCall, TapsilatError>)
        ensures
            call_or_fault(
                r,
                target_fault(order_id@, "Order ID cannot be empty"@, None),
                HttpMethod::Get,
                "orders/"@ + order_id@ + "/installments/plans"@,
                PayloadModel::Nothing,
            ),
    {
        match require_id(order_id, "Order ID cannot be empty") {
            Ok(()) => Ok(ApiCall::get(joined("orders/", order_id, "/installments/plans"))),
            Err(e) => Err(e),
        }
    }

    /// The call that changes the installment `installment_id`, if the
    /// request is in order: where it names an amount, a valid one.
    pub fn update_installment(&self, installment_id: &str, request: &UpdateInstallmentRequest) -> (r:
        Result<ApiCall, TapsilatError>)
        ensures
            call_or_fault(
                r,
                target_fault(installment_id@, "Installment ID cannot be empty"@, request.amount),
                HttpMethod::Put,
                "installments/"@ + installment_id@,
                PayloadModel::Request,
            ),
    {
        match Self::check_target(installment_id, request.amount) {
            Ok(()) => Ok(
                ApiCall::with_request(
                    HttpMethod::Put,
                    String::from_str("installments/").concat(installment_id),
                ),
            ),
            Err(e) => Err(e),
        }
    }

    /// The call that cancels the plan `plan_id`.
    pub fn cancel_plan(&self, plan_id: &str) -> (r: Result<ApiCall, TapsilatError>)
        ensures
            call_or_fault(
                r,
                target_fault(plan_id@, "Plan ID cannot be empty"@, None),
                HttpMethod::Post,
                "installments/plans/"@ + plan_id@ + "/cancel"@,
                PayloadModel::Nothing,
            ),
    {
        match require_id(plan_id, "Plan ID cannot be empty") {
            Ok(()) => Ok(ApiCall::post(joined("installments/plans/", plan_id, "/cancel"))),
            Err(e) => Err(e),
        }
    }

    /// The call that refunds the installment `installment_id`, if the
    /// request is in order: where it names an amount, a valid one.
    pub fn refund_installment(&self, installment_id: &str, request: &RefundInstallmentRequest) -> (r:
        Result<ApiCall, TapsilatError>)
        ensures
            call_or_fault(
                r,
                target_fault(installment_id@, "Installment ID cannot be empty"@, request.amount),
                HttpMethod::Post,
                "installments/"@ + installment_id@ + "/refund"@,
                PayloadModel::Request,
            ),
    {
        match Self::check_target(installment_id, request.amount) {
            Ok(()) => Ok(
                ApiCall::with_request(
                    HttpMethod::Post,
                    joined("installments/", installment_id, "/refund"),
                ),
            ),
            Err(e) => Err(e),
        }
    }

    /// The call that lists the plans, a page of them where `pagination`
    /// names one.
    pub fn list_plans(&self, pagination: &Option<PaginationParams>) -> (call: ApiCall)
        ensures
            call.is(
                HttpMethod::Get,
                "installments/plans"@ + pagination_query(*pagination),
                PayloadModel::Nothing,
            ),
    {
        ApiCall::get(paged("installments/plans", pagination))
    }

    /// Checks the identifier of an installment and the amount that may
    /// come with it.
    fn check_target(installment_id: &str, amount: Option<Amount>) -> (r: Result<(), TapsilatError>)
        ensures
            match target_fault(installment_id@, "Installment ID cannot be empty"@, amount) {
                None => r is Ok,
                Some(m) => r matches Err(e) && e@ == ErrorModel::ValidationError(m),
            },
    {
        match require_id(installment_id, "Installment ID cannot be empty") {
            Ok(()) => {},
            Err(e) => {
                return Err(e);
            },
        }
        match amount {
            Some(a) => Validators::validate_amount(a),
            None => Ok(()),
        }
    }

    /// The plan that a decoded answer holds.
    pub fn plan_from(&self, decoded: Result<ApiResponse<InstallmentPlan>, String>) -> (r: Result<
        InstallmentPlan,
        TapsilatError,
    >)
        ensures
            payload_or_failure(r, decoded, "No installment plan data in response"@),
    {
        payload_of(decoded, "No installment plan data in response")
    }

    /// The plans that a decoded answer holds.
    pub fn plans_from(&self, decoded: Result<ApiResponse<Vec<InstallmentPlan>>, String>) -> (r:
        Result<Vec<InstallmentPlan>, TapsilatError>)
        ensures
            payload_or_failure(r, decoded, "No installment plans data in response"@),
    {
        payload_of(decoded, "No installment plans data in response")
    }

    /// The page of plans that a decoded answer holds.
    pub fn plan_page_from(
        &self,
        decoded: Result<ApiResponse<PaginatedResponse<InstallmentPlan>>, String>,
    ) -> (r: Result<PaginatedResponse<InstallmentPlan>, TapsilatError>)
        ensures
            payload_or_failure(r, decoded, "No installment plans data in response"@),
    {
        payload_of(decoded, "No installment plans data in response")
    }

    /// The installment that a decoded answer holds.
    pub fn installment_from(&self, decoded: Result<ApiResponse<Installment>, String>) -> (r: Result<
        Installment,
        TapsilatError,
    >)
        ensures
            payload_or_failure(r, decoded, "No installment data in response"@),
    {
        payload_of(decoded, "No installment data in response")
    }
}

} // verus!
