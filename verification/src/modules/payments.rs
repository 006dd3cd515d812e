//! Payments.

use crate::call::{
    call_or_fault, joined, paged, pagination_query, payload_of, payload_or_failure, require_id,
    ApiCall, PayloadModel,
};
use crate::client::{HttpMethod, TapsilatClient};
use crate::error::TapsilatError;
use crate::modules::validators::{amount_fault, Validators};
use crate::types::common::{ApiResponse, PaginatedResponse, PaginationParams};
use crate::types::payment::{CreatePaymentRequest, Payment, PaymentResponse};
use std::sync::Arc;
use vstd::prelude::*;
use vstd::string::StringExecFns;

verus! {

/// The operations on payments.
pub struct PaymentModule {
    client: Arc<TapsilatClient>,
}

/// What is wrong with the identifier of a payment, if anything.
pub open spec fn payment_id_fault(payment_id: Seq<char>) -> Option<Seq<char>> {
    if payment_id.len() == 0 {
        Some("Payment ID cannot be empty"@)
    } else {
        None
    }
}

impl PaymentModule {
    /// The client that the operations are made for.
    pub closed spec fn owner(&self) -> TapsilatClient {
        *self.client
    }

    /// The operations on payments, for `client`.
    pub fn new(client: Arc<TapsilatClient>) -> (module: PaymentModule)
        ensures
            module.owner() == *client,
    {
        PaymentModule { client }
    }

    /// The client that the operations are made for.
    pub fn client(&self) -> (client: &TapsilatClient)
        ensures
            *client == self.owner(),
    {
        &self.client
    }

    /// The call that creates a payment, if its amount is valid.
    pub fn create(&self, request: &CreatePaymentRequest) -> (r: Result<ApiCall, TapsilatError>)
        ensures
            call_or_fault(
                r,
                amount_fault(request.amount.units as int),
                HttpMethod::Post,
                "payments"@,
                PayloadModel::Request,
            ),
    {
        match Validators::validate_amount(request.amount) {
            Ok(()) => Ok(ApiCall::with_request(HttpMethod::Post, String::from_str("payments"))),
            Err(e) => Err(e),
        }
    }

    /// The call that fetches the payment `payment_id`.
    pub fn get(&self, payment_id: &str) -> (r: Result<ApiCall, TapsilatError>)
        ensures
            call_or_fault(
                r,
                payment_id_fault(payment_id@),
                HttpMethod::Get,
                "payments/"@ + payment_id@,
                PayloadModel::Nothing,
            ),
    {
        match require_id(payment_id, "Payment ID cannot be empty") {
            Ok(()) => Ok(ApiCall::get(String::from_str("payments/").concat(payment_id))),
            Err(e) => Err(e),
        }
    }

    /// The call that lists the payments, a page of them where `pagination`
    /// names one.
    pub fn list(&self, pagination: &Option<PaginationParams>) -> (call: ApiCall)
        ensures
            call.is(
                HttpMethod::Get,
                "payments"@ + pagination_query(*pagination),
                PayloadModel::Nothing,
            ),
    {
        ApiCall::get(paged("payments", pagination))
    }

    /// The call that cancels the payment `payment_id`.
    pub fn cancel(&self, payment_id: &str) -> (r: Result<ApiCall, TapsilatError>)
        ensures
            call_or_fault(
                r,
                payment_id_fault(payment_id@),
                HttpMethod::Post,
                "payments/"@ + payment_id@ + "/cancel"@,
                PayloadModel::Nothing,
            ),
    {
        match require_id(payment_id, "Payment ID cannot be empty") {
            Ok(()) => Ok(ApiCall::post(joined("payments/", payment_id, "/cancel"))),
            Err(e) => Err(e),
        }
    }

    /// The payment with its checkout page that a decoded answer holds.
    pub fn created_from(&self, decoded: Result<ApiResponse<PaymentResponse>, String>) -> (r: Result<
        PaymentResponse,
        TapsilatError,
    >)
        ensures
            payload_or_failure(r, decoded, "No payment data in response"@),
    {
        payload_of(decoded, "No payment data in response")
    }

    /// The payment that a decoded answer holds.
    pub fn payment_from(&self, decoded: Result<ApiResponse<Payment>, String>) -> (r: Result<
        Payment,
        TapsilatError,
    >)
        ensures
            payload_or_failure(r, decoded, "No payment data in response"@),
    {
        payload_of(decoded, "No payment data in response")
    }

    /// The page of payments that a decoded answer holds.
    pub fn page_from(&self, decoded: Result<ApiResponse<PaginatedResponse<Payment>>, String>) -> (r:
        Result<PaginatedResponse<Payment>, TapsilatError>)
        ensures
            payload_or_failure(r, decoded, "No payments data in response"@),
    {
        payload_of(decoded, "No payments data in response")
    }
}

} // verus!
