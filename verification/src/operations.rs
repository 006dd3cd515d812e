//! The operations of the API as methods of the client: the groups of
//! operations, the operations that belong to no group, and short cuts to
//! those of the groups.

use crate::call::{
    decoded_or, joined, one_member, page_query, query_for, unreadable_or, ApiCall, PayloadModel,
};
use crate::client::{HttpMethod, TapsilatClient};
use crate::error::{ErrorModel, TapsilatError};
use crate::modules::installments::InstallmentModule;
use crate::modules::orders::OrderModule;
use crate::modules::payments::PaymentModule;
use crate::modules::subscriptions::SubscriptionModule;
use crate::modules::webhooks::{bare_signature, expected_signature, WebhookModule};
use crate::types::order::{
    CreateOrderRequest, Order, OrderAccountingRequest, OrderPaymentTermCreateDTO,
    OrderPaymentTermUpdateDTO, OrderPostAuthRequest, OrderResponse, OrderTermRefundRequest,
    RefundOrderRequest,
};
use crate::types::subscription::{
    SubscriptionCancelRequest, SubscriptionCreateRequest, SubscriptionGetRequest,
    SubscriptionRedirectRequest,
};
use std::sync::Arc;
use vstd::prelude::*;
use vstd::string::StringExecFns;

verus! {

impl TapsilatClient {
    /// The operations on payments.
    pub fn payments(&self) -> (module: PaymentModule)
        ensures
            module.owner().settings() == self.settings(),
    {
        PaymentModule::new(Arc::new(self.clone()))
    }

    /// The operations on orders.
    pub fn orders(&self) -> (module: OrderModule)
        ensures
            module.owner().settings() == self.settings(),
    {
        OrderModule::new(Arc::new(self.clone()))
    }

    /// The operations on installment plans.
    pub fn installments(&self) -> (module: InstallmentModule)
        ensures
            module.owner().settings() == self.settings(),
    {
        InstallmentModule::new(Arc::new(self.clone()))
    }

    /// The operations on subscriptions.
    pub fn subscriptions(&self) -> (module: SubscriptionModule)
        ensures
            module.owner().settings() == self.settings(),
    {
        SubscriptionModule::new(Arc::new(self.clone()))
    }

    /// The call that fetches the order of the conversation
    /// `conversation_id`.
    pub fn get_order_by_conversation_id(&self, conversation_id: &str) -> (call: ApiCall)
        ensures
            call.is(
                HttpMethod::Get,
                "order/conversation/"@ + conversation_id@,
                PayloadModel::Nothing,
            ),
    {
        ApiCall::get(String::from_str("order/conversation/").concat(conversation_id))
    }

    /// What the decoded answer to `get_order_by_conversation_id` comes to.
    pub fn order_reference_from(&self, decoded: Result<OrderResponse, String>) -> (r: Result<
        OrderResponse,
        TapsilatError,
    >)
        ensures
            decoded_or(r, decoded, "Failed to parse order response: "@),
    {
        unreadable_or(decoded, "Failed to parse order response: ")
    }

    /// The call that lists one page of the sub-merchants of orders.
    pub fn get_order_submerchants(&self, page: u32, per_page: u32) -> (call: ApiCall)
        ensures
            call.is(
                HttpMethod::Get,
                "order/submerchants"@ + page_query(Some(page), Some(per_page)),
                PayloadModel::Nothing,
            ),
    {
        ApiCall::get(
            String::from_str("order/submerchants").concat(
                query_for(Some(page), Some(per_page)).as_str(),
            ),
        )
    }

    /// The call that fetches the transactions of the order `reference_id`.
    pub fn get_order_transactions(&self, reference_id: &str) -> (call: ApiCall)
        ensures
            call.is(
                HttpMethod::Get,
                "order/"@ + reference_id@ + "/transactions"@,
                PayloadModel::Nothing,
            ),
    {
        ApiCall::get(joined("order/", reference_id, "/transactions"))
    }

    /// The call that fetches the payment details of the order
    /// `reference_id`: by its address, or, where a conversation is named,
    /// by an object that names both.
    pub fn get_order_payment_details(&self, reference_id: &str, conversation_id: Option<String>)
        -> (call: ApiCall)
        ensures
            match conversation_id {
                Some(conversation) => call.is(
                    HttpMethod::Post,
                    "order/payment-details"@,
                    PayloadModel::Object(
                        one_member("conversation_id"@, conversation@).insert(
                            "reference_id"@,
                            Some(reference_id@),
                        ),
                    ),
                ),
                None => call.is(
                    HttpMethod::Get,
                    "order/"@ + reference_id@ + "/payment-details"@,
                    PayloadModel::Nothing,
                ),
            },
    {
        match conversation_id {
            Some(conversation) => ApiCall::post_members(
                "order/payment-details",
                "conversation_id",
                conversation.as_str(),
                "reference_id",
                Some(reference_id),
            ),
            None => ApiCall::get(joined("order/", reference_id, "/payment-details")),
        }
    }

    /// The call that lists the states that the API knows for orders.
    pub fn get_system_order_statuses(&self) -> (call: ApiCall)
        ensures
            call.is(HttpMethod::Get, "system/order-statuses"@, PayloadModel::Nothing),
    {
        ApiCall::get(String::from_str("system/order-statuses"))
    }

    /// The call that fetches the settings of the organization.
    pub fn get_organization_settings(&self) -> (call: ApiCall)
        ensures
            call.is(HttpMethod::Get, "organization/settings"@, PayloadModel::Nothing),
    {
        ApiCall::get(String::from_str("organization/settings"))
    }

    /// The call that asks the API whether it is up.
    pub fn health_check(&self) -> (call: ApiCall)
        ensures
            call.is(HttpMethod::Get, "health"@, PayloadModel::Nothing),
    {
        ApiCall::get(String::from_str("health"))
    }

    /// The call that fetches the payment term `term_reference_id`.
    pub fn get_order_term(&self, term_reference_id: &str) -> (call: ApiCall)
        ensures
            call.is(HttpMethod::Get, "order/term/"@ + term_reference_id@, PayloadModel::Nothing),
    {
        ApiCall::get(String::from_str("order/term/").concat(term_reference_id))
    }

    /// The call that creates an order.
    pub fn create_order(&self, request: &CreateOrderRequest) -> (call: ApiCall)
        ensures
            call.is(HttpMethod::Post, "order/create"@, PayloadModel::Request),
    {
        self.orders().create(request)
    }

    /// The call that fetches the order `reference_id`.
    pub fn get_order(&self, reference_id: &str) -> (call: ApiCall)
        ensures
            call.is(HttpMethod::Get, "order/"@ + reference_id@, PayloadModel::Nothing),
    {
        self.orders().get(reference_id)
    }

    /// The call that cancels the order `reference_id`.
    pub fn cancel_order(&self, reference_id: &str) -> (call: ApiCall)
        ensures
            call.is(
                HttpMethod::Post,
                "order/cancel"@,
                PayloadModel::Object(one_member("reference_id"@, reference_id@)),
            ),
    {
        self.orders().cancel(reference_id)
    }

    /// The call that refunds an order, all of it or a part.
    pub fn refund_order(&self, request: &RefundOrderRequest) -> (call: ApiCall)
        ensures
            call.is(HttpMethod::Post, "order/refund"@, PayloadModel::Request),
    {
        self.orders().refund(request)
    }

    /// The call that refunds every item of the order `reference_id`.
    pub fn refund_all_order(&self, reference_id: &str) -> (call: ApiCall)
        ensures
            call.is(
                HttpMethod::Post,
                "order/refund-all"@,
                PayloadModel::Object(one_member("reference_id"@, reference_id@)),
            ),
    {
        self.orders().refund_all(reference_id)
    }

    /// The call that lists one page of the orders, those of one buyer
    /// where `buyer_id` is given.
    pub fn get_order_list(&self, page: u32, per_page: u32, buyer_id: Option<String>) -> (call:
        ApiCall)
        ensures
            call.is(
                HttpMethod::Get,
                "order/list"@ + page_query(Some(page), Some(per_page)) + match buyer_id {
                    Some(id) => "&buyer_id="@ + id@,
                    None => Seq::empty(),
                },
                PayloadModel::Nothing,
            ),
    {
        self.orders().list(page, per_page, buyer_id)
    }

    /// The call that fetches the status of the order `reference_id`.
    pub fn get_order_status(&self, reference_id: &str) -> (call: ApiCall)
        ensures
            call.is(
                HttpMethod::Get,
                "order/"@ + reference_id@ + "/status"@,
                PayloadModel::Nothing,
            ),
    {
        self.orders().get_status(reference_id)
    }

    /// The address of the checkout page of an order, which it has to
    /// carry.
    pub fn get_checkout_url(&self, order: Order) -> (r: Result<String, TapsilatError>)
        ensures
            match order.checkout_url {
                Some(url) => r == Ok::<String, TapsilatError>(url),
                None => r matches Err(e) && e@ == ErrorModel::InvalidResponse(
                    "Checkout URL not found"@,
                ),
            },
    {
        self.orders().get_checkout_url(order)
    }

    /// The call that triggers the callback of the order `reference_id` by
    /// hand, with the conversation that it belongs to where one is given.
    pub fn order_manual_callback(&self, reference_id: &str, conversation_id: Option<String>)
        -> (call: ApiCall)
        ensures
            call.is(
                HttpMethod::Post,
                "order/manual-callback"@,
                PayloadModel::Object(
                    match conversation_id {
                        Some(text) => one_member("reference_id"@, reference_id@).insert(
                            "conversation_id"@,
                            Some(text@),
                        ),
                        None => one_member("reference_id"@, reference_id@),
                    },
                ),
            ),
    {
        self.orders().manual_callback(reference_id, conversation_id)
    }

    /// The call that adds a payment term to an order.
    pub fn create_order_term(&self, request: &OrderPaymentTermCreateDTO) -> (call: ApiCall)
        ensures
            call.is(HttpMethod::Post, "order/term"@, PayloadModel::Request),
    {
        self.orders().create_term(request)
    }

    /// The call that changes a payment term.
    pub fn update_order_term(&self, request: &OrderPaymentTermUpdateDTO) -> (call: ApiCall)
        ensures
            call.is(HttpMethod::Post, "order/term/update"@, PayloadModel::Request),
    {
        self.orders().update_term(request)
    }

    /// The call that deletes the term `term_reference_id` of the order
    /// `order_id`.
    pub fn delete_order_term(&self, order_id: &str, term_reference_id: &str) -> (call: ApiCall)
        ensures
            call.is(
                HttpMethod::Post,
                "order/term/delete"@,
                PayloadModel::Object(
                    one_member("order_id"@, order_id@).insert(
                        "term_reference_id"@,
                        Some(term_reference_id@),
                    ),
                ),
            ),
    {
        self.orders().delete_term(order_id, term_reference_id)
    }

    /// The call that refunds a payment term.
    pub fn refund_order_term(&self, request: &OrderTermRefundRequest) -> (call: ApiCall)
        ensures
            call.is(HttpMethod::Post, "order/term/refund"@, PayloadModel::Request),
    {
        self.orders().refund_term(request)
    }

    /// The call that terminates the order `reference_id`.
    pub fn order_terminate(&self, reference_id: &str) -> (call: ApiCall)
        ensures
            call.is(
                HttpMethod::Post,
                "order/terminate"@,
                PayloadModel::Object(one_member("reference_id"@, reference_id@)),
            ),
    {
        self.orders().terminate(reference_id)
    }

    /// The call that terminates the term `term_reference_id`, with the
    /// reason for it where one is given.
    pub fn terminate_order_term(&self, term_reference_id: &str, reason: Option<String>) -> (call:
        ApiCall)
        ensures
            call.is(
                HttpMethod::Post,
                "order/term/terminate"@,
                PayloadModel::Object(
                    match reason {
                        Some(text) => one_member("term_reference_id"@, term_reference_id@).insert(
                            "reason"@,
                            Some(text@),
                        ),
                        None => one_member("term_reference_id"@, term_reference_id@),
                    },
                ),
            ),
    {
        self.orders().terminate_term(term_reference_id, reason)
    }

    /// The call that accounts for an order.
    pub fn order_accounting(&self, request: &OrderAccountingRequest) -> (call: ApiCall)
        ensures
            call.is(HttpMethod::Post, "order/accounting"@, PayloadModel::Request),
    {
        self.orders().accounting(request)
    }

    /// The call that captures a pre-authorized order.
    pub fn order_postauth(&self, request: &OrderPostAuthRequest) -> (call: ApiCall)
        ensures
            call.is(HttpMethod::Post, "order/postauth"@, PayloadModel::Request),
    {
        self.orders().postauth(request)
    }

    /// The call that relates the order `reference_id` to the order
    /// `related_reference_id`.
    pub fn order_related_update(&self, reference_id: &str, related_reference_id: &str) -> (call:
        ApiCall)
        ensures
            call.is(
                HttpMethod::Post,
                "order/related-update"@,
                PayloadModel::Object(
                    one_member("reference_id"@, reference_id@).insert(
                        "related_reference_id"@,
                        Some(related_reference_id@),
                    ),
                ),
            ),
    {
        self.orders().related_update(reference_id, related_reference_id)
    }

    /// Tells whether `signature` is the signature of `payload` under
    /// `secret`, with `sha256=` before it or without.
    pub fn verify_webhook(&self, payload: &str, signature: &str, secret: &str) -> (b: bool)
        ensures
            b == (bare_signature(signature@) == expected_signature(payload@, secret@)),
    {
        WebhookModule::verify_signature(payload, signature, secret)
    }

    /// The call that fetches a subscription.
    pub fn get_subscription(&self, request: &SubscriptionGetRequest) -> (call: ApiCall)
        ensures
            call.is(HttpMethod::Post, "subscription"@, PayloadModel::Request),
    {
        self.subscriptions().get(request)
    }

    /// The call that cancels a subscription.
    pub fn cancel_subscription(&self, request: &SubscriptionCancelRequest) -> (call: ApiCall)
        ensures
            call.is(HttpMethod::Post, "subscription/cancel"@, PayloadModel::Request),
    {
        self.subscriptions().cancel(request)
    }

    /// The call that creates a subscription.
    pub fn create_subscription(&self, request: &SubscriptionCreateRequest) -> (call: ApiCall)
        ensures
            call.is(HttpMethod::Post, "subscription/create"@, PayloadModel::Request),
    {
        self.subscriptions().create(request)
    }

    /// The call that lists one page of the subscriptions.
    pub fn list_subscriptions(&self, page: u32, per_page: u32) -> (call: ApiCall)
        ensures
            call.is(
                HttpMethod::Get,
                "subscription/list"@ + page_query(Some(page), Some(per_page)),
                PayloadModel::Nothing,
            ),
    {
        self.subscriptions().list(page, per_page)
    }

    /// The call that asks for the payment page of a subscription.
    pub fn redirect_subscription(&self, request: &SubscriptionRedirectRequest) -> (call: ApiCall)
        ensures
            call.is(HttpMethod::Post, "subscription/redirect"@, PayloadModel::Request),
    {
        self.subscriptions().redirect(request)
    }
}

} // verus!
