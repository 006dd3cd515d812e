//! Subscriptions: recurring payments and the orders that they give rise to.

use crate::amount::Amount;
use vstd::prelude::*;

verus! {

/// The billing contact of a subscription.
#[derive(Debug, Clone)]
pub struct SubscriptionBilling {
    pub address: Option<String>,
    pub city: Option<String>,
    pub contact_name: Option<String>,
    pub country: Option<String>,
    pub vat_number: Option<String>,
    pub zip_code: Option<String>,
}

/// The subscriber.
#[derive(Debug, Clone)]
pub struct SubscriptionUser {
    pub address: Option<String>,
    pub city: Option<String>,
    pub country: Option<String>,
    pub email: Option<String>,
    pub first_name: Option<String>,
    pub id: Option<String>,
    pub identity_number: Option<String>,
    pub last_name: Option<String>,
    pub phone: Option<String>,
    pub zip_code: Option<String>,
}

/// One occurrence of a subscription: the order of one period.
#[derive(Debug, Clone)]
pub struct SubscriptionOrder {
    pub amount: Option<String>,
    pub currency: Option<String>,
    pub payment_date: Option<String>,
    pub payment_url: Option<String>,
    pub reference_id: Option<String>,
    pub status: Option<String>,
}

/// A subscription with the orders of its periods.
#[derive(Debug, Clone)]
pub struct SubscriptionDetail {
    pub amount: Option<String>,
    pub currency: Option<String>,
    pub due_date: Option<String>,
    pub external_reference_id: Option<String>,
    pub is_active: Option<bool>,
    pub orders: Option<Vec<SubscriptionOrder>>,
    pub payment_date: Option<i32>,
    pub payment_status: Option<String>,
    pub period: Option<i32>,
    pub title: Option<String>,
    pub user: Option<SubscriptionUser>,
}

/// A subscription, as a list shows it.
#[derive(Debug, Clone)]
pub struct SubscriptionListItem {
    pub amount: Option<String>,
    pub currency: Option<String>,
    pub external_reference_id: Option<String>,
    pub is_active: Option<bool>,
    pub payment_date: Option<i32>,
    pub payment_status: Option<String>,
    pub period: Option<i32>,
    pub reference_id: Option<String>,
    pub title: Option<String>,
}

/// What is needed to create a subscription.
#[derive(Debug, Clone)]
pub struct SubscriptionCreateRequest {
    pub amount: Option<Amount>,
    pub billing: Option<SubscriptionBilling>,
    pub card_id: Option<String>,
    pub currency: Option<String>,
    pub cycle: Option<i32>,
    pub external_reference_id: Option<String>,
    pub failure_url: Option<String>,
    pub payment_date: Option<i32>,
    pub period: Option<i32>,
    pub success_url: Option<String>,
    pub title: Option<String>,
    pub user: Option<SubscriptionUser>,
}

/// How the API answers the creation of a subscription.
#[derive(Debug, Clone)]
pub struct SubscriptionCreateResponse {
    pub code: Option<i32>,
    pub message: Option<String>,
    pub order_reference_id: Option<String>,
    pub reference_id: Option<String>,
}

/// Which subscription to look up.
#[derive(Debug, Clone)]
pub struct SubscriptionGetRequest {
    pub external_reference_id: Option<String>,
    pub reference_id: Option<String>,
}

/// Which subscription to cancel.
#[derive(Debug, Clone)]
pub struct SubscriptionCancelRequest {
    pub external_reference_id: Option<String>,
    pub reference_id: Option<String>,
}

/// Which subscription to get the payment page of.
#[derive(Debug, Clone)]
pub struct SubscriptionRedirectRequest {
    pub subscription_id: Option<String>,
}

/// The address of the payment page of a subscription.
#[derive(Debug, Clone)]
pub struct SubscriptionRedirectResponse {
    pub url: Option<String>,
}

} // verus!
