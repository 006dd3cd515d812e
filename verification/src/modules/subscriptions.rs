//! Subscriptions.

use crate::call::{decoded_or, page_query, query_for, unreadable_or, ApiCall, PayloadModel};
use crate::client::{HttpMethod, TapsilatClient};
use crate::error::TapsilatError;
use crate::types::subscription::{
    SubscriptionCancelRequest, SubscriptionCreateRequest, SubscriptionCreateResponse,
    SubscriptionDetail, SubscriptionGetRequest, SubscriptionRedirectRequest,
    SubscriptionRedirectResponse,
};
use std::sync::Arc;
use vstd::prelude::*;
use vstd::string::StringExecFns;

verus! {

/// The operations on subscriptions.
pub struct SubscriptionModule {
    client: Arc<TapsilatClient>,
}

impl SubscriptionModule {
    /// The client that the operations are made for.
    pub closed spec fn owner(&self) -> TapsilatClient {
        *self.client
    }

    /// The operations on subscriptions, for `client`.
    pub fn new(client: Arc<TapsilatClient>) -> (module: SubscriptionModule)
        ensures
            module.owner() == *client,
    {
        SubscriptionModule { client }
    }

    /// The client that the operations are made for.
    pub fn client(&self) -> (client: &TapsilatClient)
        ensures
            *client == self.owner(),
    {
        &self.client
    }

    /// The call that creates a subscription.
    pub fn create(&self, request: &SubscriptionCreateRequest) -> (call: ApiCall)
        ensures
            call.is(HttpMethod::Post, "subscription/create"@, PayloadModel::Request),
    {
        ApiCall::with_request(HttpMethod::Post, String::from_str("subscription/create"))
    }

    /// The call that fetches a subscription.
    pub fn get(&self, request: &SubscriptionGetRequest) -> (call: ApiCall)
        ensures
            call.is(HttpMethod::Post, "subscription"@, PayloadModel::Request),
    {
        ApiCall::with_request(HttpMethod::Post, String::from_str("subscription"))
    }

    /// The call that cancels a subscription.
    pub fn cancel(&self, request: &SubscriptionCancelRequest) -> (call: ApiCall)
        ensures
            call.is(HttpMethod::Post, "subscription/cancel"@, PayloadModel::Request),
    {
        ApiCall::with_request(HttpMethod::Post, String::from_str("subscription/cancel"))
    }

    /// The call that lists one page of the subscriptions.
    pub fn list(&self, page: u32, per_page: u32) -> (call: ApiCall)
        ensures
            call.is(
                HttpMethod::Get,
                "subscription/list"@ + page_query(Some(page), Some(per_page)),
                PayloadModel::Nothing,
            ),
    {
        ApiCall::get(
            String::from_str("subscription/list").concat(
                query_for(Some(page), Some(per_page)).as_str(),
            ),
        )
    }

    /// The call that asks for the payment page of a subscription.
    pub fn redirect(&self, request: &SubscriptionRedirectRequest) -> (call: ApiCall)
        ensures
            call.is(HttpMethod::Post, "subscription/redirect"@, PayloadModel::Request),
    {
        ApiCall::with_request(HttpMethod::Post, String::from_str("subscription/redirect"))
    }

    /// What the decoded answer to `create` comes to.
    pub fn created_from(&self, decoded: Result<SubscriptionCreateResponse, String>) -> (r: Result<
        SubscriptionCreateResponse,
        TapsilatError,
    >)
        ensures
            decoded_or(r, decoded, "Failed to parse subscription create response: "@),
    {
        unreadable_or(decoded, "Failed to parse subscription create response: ")
    }

    /// What the decoded answer to `get` comes to.
    pub fn detail_from(&self, decoded: Result<SubscriptionDetail, String>) -> (r: Result<
        SubscriptionDetail,
        TapsilatError,
    >)
        ensures
            decoded_or(r, decoded, "Failed to parse subscription detail response: "@),
    {
        unreadable_or(decoded, "Failed to parse subscription detail response: ")
    }

    /// What the decoded answer to `redirect` comes to.
    pub fn redirect_from(&self, decoded: Result<SubscriptionRedirectResponse, String>) -> (r:
        Result<SubscriptionRedirectResponse, TapsilatError>)
        ensures
            decoded_or(r, decoded, "Failed to parse subscription redirect response: "@),
    {
        unreadable_or(decoded, "Failed to parse subscription redirect response: ")
    }
}

} // verus!
