//! Buyers and addresses.

use vstd::prelude::*;

verus! {

/// A buyer, as the API reports one.
#[derive(Debug, Clone)]
pub struct Buyer {
    pub id: Option<String>,
    pub name: String,
    pub surname: String,
    pub email: Option<String>,
    pub gsm_number: Option<String>,
    pub identity_number: Option<String>,
    pub last_login_date: Option<String>,
    pub registration_date: Option<String>,
    pub registration_address: Option<String>,
    pub ip: Option<String>,
    pub city: Option<String>,
    pub country: Option<String>,
    pub zip_code: Option<String>,
}

/// A postal address with the contact it belongs to.
#[derive(Debug, Clone)]
pub struct Address {
    pub country: Option<String>,
    pub city: Option<String>,
    pub district: Option<String>,
    pub address: Option<String>,
    pub postal_code: Option<String>,
    pub contact_name: Option<String>,
    pub title: Option<String>,
    pub tax_office: Option<String>,
    pub vat_number: Option<String>,
}

/// The buyer of an order that is being created.
#[derive(Debug, Clone)]
pub struct CreateBuyerRequest {
    pub name: String,
    pub surname: String,
    pub email: Option<String>,
    pub gsm_number: Option<String>,
    pub identity_number: Option<String>,
    pub registration_address: Option<String>,
    pub ip: Option<String>,
    pub city: Option<String>,
    pub country: Option<String>,
    pub zip_code: Option<String>,
}

/// An address handed in with a request.
#[derive(Debug, Clone)]
pub struct CreateAddressRequest {
    pub country: Option<String>,
    pub city: Option<String>,
    pub address: Option<String>,
    pub zip_code: Option<String>,
    pub contact_name: Option<String>,
}

} // verus!
