//! Orders: what is sent to create and change them, and what comes back.

use crate::amount::Amount;
use crate::text::same_text;
use crate::types::buyer::{Buyer, CreateBuyerRequest};
use vstd::prelude::*;

verus! {

/// The states of an order.
#[derive(Debug, Clone, Copy, PartialEq, Eq, Structural)]
pub enum OrderStatus {
    Pending,
    Processing,
    Completed,
    Failed,
    Cancelled,
    Refunded,
    PartiallyRefunded,
}

impl OrderStatus {
    /// The name that the API gives to the state.
    pub open spec fn wire_name(self) -> Seq<char> {
        match self {
            OrderStatus::Pending => "pending"@,
            OrderStatus::Processing => "processing"@,
            OrderStatus::Completed => "completed"@,
            OrderStatus::Failed => "failed"@,
            OrderStatus::Cancelled => "cancelled"@,
            OrderStatus::Refunded => "refunded"@,
            OrderStatus::PartiallyRefunded => "partially_refunded"@,
        }
    }

    /// The state that the API gives the name `name` to, if any.
    pub open spec fn named(name: Seq<char>) -> Option<OrderStatus> {
        if name == "pending"@ {
            Some(OrderStatus::Pending)
        } else if name == "processing"@ {
            Some(OrderStatus::Processing)
        } else if name == "completed"@ {
            Some(OrderStatus::Completed)
        } else if name == "failed"@ {
            Some(OrderStatus::Failed)
        } else if name == "cancelled"@ {
            Some(OrderStatus::Cancelled)
        } else if name == "refunded"@ {
            Some(OrderStatus::Refunded)
        } else if name == "partially_refunded"@ {
            Some(OrderStatus::PartiallyRefunded)
        } else {
            None
        }
    }

    /// Every state has a name of its own: the name of one is the name of no
    /// other.
    pub proof fn lemma_name_is_own(value: OrderStatus)
        ensures
            Self::named(value.wire_name()) == Some(value),
    {
        reveal_strlit("pending");
        reveal_strlit("processing");
        reveal_strlit("completed");
        reveal_strlit("failed");
        reveal_strlit("cancelled");
        reveal_strlit("refunded");
        reveal_strlit("partially_refunded");
        assert("pending"@.len() == 7);
        assert("processing"@.len() == 10);
        assert("completed"@.len() == 9);
        assert("failed"@.len() == 6);
        assert("cancelled"@.len() == 9);
        assert("refunded"@.len() == 8);
        assert("partially_refunded"@.len() == 18);
        assert("cancelled"@[1] == 'a');
        assert("completed"@[1] == 'o');
    }

    /// The name that the API gives to the state.
    pub fn name(&self) -> (s: &'static str)
        ensures
            s@ == self.wire_name(),
    {
        match self {
            OrderStatus::Pending => "pending",
            OrderStatus::Processing => "processing",
            OrderStatus::Completed => "completed",
            OrderStatus::Failed => "failed",
            OrderStatus::Cancelled => "cancelled",
            OrderStatus::Refunded => "refunded",
            OrderStatus::PartiallyRefunded => "partially_refunded",
        }
    }

    /// The state with the given name. A name that the API does not use
    /// gives none.
    pub fn from_name(name: &str) -> (r: Option<OrderStatus>)
        ensures
            r == Self::named(name@),
    {
        if same_text(name, "pending") {
            Some(OrderStatus::Pending)
        } else if same_text(name, "processing") {
            Some(OrderStatus::Processing)
        } else if same_text(name, "completed") {
            Some(OrderStatus::Completed)
        } else if same_text(name, "failed") {
            Some(OrderStatus::Failed)
        } else if same_text(name, "cancelled") {
            Some(OrderStatus::Cancelled)
        } else if same_text(name, "refunded") {
            Some(OrderStatus::Refunded)
        } else if same_text(name, "partially_refunded") {
            Some(OrderStatus::PartiallyRefunded)
        } else {
            None
        }
    }
}

/// The currencies that the API settles in.
#[derive(Debug, Clone, Copy, PartialEq, Eq, Structural)]
pub enum Currency {
    TRY,
    USD,
    EUR,
    GBP,
}

impl Currency {
    /// The name that the API gives to the currency.
    pub open spec fn wire_name(self) -> Seq<char> {
        match self {
            Currency::TRY => "TRY"@,
            Currency::USD => "USD"@,
            Currency::EUR => "EUR"@,
            Currency::GBP => "GBP"@,
        }
    }

    /// The currency that the API gives the name `name` to, if any.
    pub open spec fn named(name: Seq<char>) -> Option<Currency> {
        if name == "TRY"@ {
            Some(Currency::TRY)
        } else if name == "USD"@ {
            Some(Currency::USD)
        } else if name == "EUR"@ {
            Some(Currency::EUR)
        } else if name == "GBP"@ {
            Some(Currency::GBP)
        } else {
            None
        }
    }

    /// Every currency has a name of its own: the name of one is the name of no
    /// other.
    pub proof fn lemma_name_is_own(value: Currency)
        ensures
            Self::named(value.wire_name()) == Some(value),
    {
        reveal_strlit("TRY");
        reveal_strlit("USD");
        reveal_strlit("EUR");
        reveal_strlit("GBP");
        assert("TRY"@.len() == 3);
        assert("USD"@.len() == 3);
        assert("EUR"@.len() == 3);
        assert("GBP"@.len() == 3);
        assert("USD"@[0] == 'U');
        assert("TRY"@[0] == 'T');
        assert("EUR"@[0] == 'E');
        assert("GBP"@[0] == 'G');
    }

    /// The name that the API gives to the currency.
    pub fn name(&self) -> (s: &'static str)
        ensures
            s@ == self.wire_name(),
    {
        match self {
            Currency::TRY => "TRY",
            Currency::USD => "USD",
            Currency::EUR => "EUR",
            Currency::GBP => "GBP",
        }
    }

    /// The currency with the given name. A name that the API does not use
    /// gives none.
    pub fn from_name(name: &str) -> (r: Option<Currency>)
        ensures
            r == Self::named(name@),
    {
        if same_text(name, "TRY") {
            Some(Currency::TRY)
        } else if same_text(name, "USD") {
            Some(Currency::USD)
        } else if same_text(name, "EUR") {
            Some(Currency::EUR)
        } else if same_text(name, "GBP") {
            Some(Currency::GBP)
        } else {
            None
        }
    }
}

/// An order, as the API reports one.
#[derive(Debug, Clone)]
pub struct Order {
    pub id: Option<String>,
    pub reference_id: Option<String>,
    
    pub amount: Option<String>, 
    pub total: Option<String>,
    pub paid_amount: Option<String>,
    pub refunded_amount: Option<String>,
    
    pub currency: Option<String>,
    
    pub status: Option<i32>,
    pub status_enum: Option<String>,
    
    pub description: Option<String>,
    pub buyer: Option<Buyer>,
    pub items: Option<Vec<OrderItem>>,
    
    pub basket_items: Option<Vec<BasketItemDTO>>,
    
    pub callback_url: Option<String>,
    pub checkout_url: Option<String>,
    pub created_at: Option<String>,
    pub updated_at: Option<String>,
    pub metadata: Option<Vec<MetadataDTO>>,
}

/// A line of an order.
#[derive(Debug, Clone)]
pub struct OrderItem {
    pub name: String,
    pub price: Amount,
    pub quantity: i32,
    pub description: Option<String>,
}

/// What is needed to create an order.
#[derive(Debug, Clone)]
pub struct CreateOrderRequest {
    pub amount: Amount,
    pub currency: String,
    pub locale: String,
    pub buyer: CreateBuyerRequest,
    pub basket_items: Option<Vec<BasketItemDTO>>,
    pub billing_address: Option<BillingAddressDTO>,
    pub checkout_design: Option<CheckoutDesignDTO>,
    pub conversation_id: Option<String>,
    pub enabled_installments: Option<Vec<i32>>,
    pub external_reference_id: Option<String>,
    pub metadata: Option<Vec<MetadataDTO>>,
    pub order_cards: Option<OrderCardDTO>,
    pub paid_amount: Option<Amount>,
    pub partial_payment: Option<bool>,
    pub payment_failure_url: Option<String>,
    pub payment_methods: Option<bool>,
    pub payment_mode: Option<String>,
    pub payment_options: Option<Vec<String>>,
    pub payment_success_url: Option<String>,
    pub payment_terms: Option<Vec<PaymentTermDTO>>,
    pub pf_sub_merchant: Option<OrderPFSubMerchantDTO>,
    pub redirect_failure_url: Option<String>,
    pub redirect_success_url: Option<String>,
    pub shipping_address: Option<ShippingAddressDTO>,
    pub sub_organization: Option<SubOrganizationDTO>,
    pub submerchants: Option<Vec<SubmerchantDTO>>,
    pub tax_amount: Option<Amount>,
    pub three_d_force: Option<bool>,
}

/// A line of an order that is being created.
#[derive(Debug, Clone)]
pub struct CreateOrderItemRequest {
    pub name: String,
    pub price: Amount,
    pub quantity: i32,
    pub description: Option<String>,
}

/// How the API refers to an order.
#[derive(Debug, Clone)]
pub struct OrderResponse {
    pub order_id: Option<String>,
    pub reference_id: Option<String>,
    pub checkout_url: Option<String>,
}

/// How the API refers to an order that it has created.
#[derive(Debug, Clone)]
pub struct CreateOrderResponse {
    pub order_id: Option<String>,
    pub reference_id: Option<String>,
    pub checkout_url: Option<String>,
}

/// What to refund of an order.
#[derive(Debug, Clone)]
pub struct RefundOrderRequest {
    pub amount: Amount,
    pub reference_id: String,
    pub order_item_id: Option<String>,
    pub order_item_payment_id: Option<String>,
}

/// The outcome of a refund.
#[derive(Debug, Clone)]
pub struct RefundOrderResponse {
    pub order: Order,
    pub refund_amount: Amount,
    pub refund_id: String,
}

/// One key with its value, as orders carry them.
#[derive(Debug, Clone)]
pub struct MetadataDTO {
    pub key: String,
    pub value: String,
}

/// A purchasable line of an order.
#[derive(Debug, Clone)]
pub struct BasketItemDTO {
    pub category1: Option<String>,
    pub category2: Option<String>,
    pub commission_amount: Option<Amount>,
    pub coupon: Option<String>,
    pub coupon_discount: Option<Amount>,
    pub data: Option<String>,
    pub id: Option<String>,
    pub item_type: Option<String>,
    pub name: Option<String>,
    pub paid_amount: Option<Amount>,
    pub payer: Option<BasketItemPayerDTO>,
    pub price: Option<Amount>,
    pub quantity: Option<i32>,
    pub quantity_float: Option<Amount>,
    pub quantity_unit: Option<String>,
    pub sub_merchant_key: Option<String>,
    pub sub_merchant_price: Option<String>,
}

/// Who pays for a basket item.
#[derive(Debug, Clone)]
pub struct BasketItemPayerDTO {
    pub address: Option<String>,
    pub reference_id: Option<String>,
    pub tax_office: Option<String>,
    pub title: Option<String>,
    pub type_: Option<String>,
    pub vat: Option<String>,
}

/// Where the bill of an order goes.
#[derive(Debug, Clone)]
pub struct BillingAddressDTO {
    pub address: Option<String>,
    pub billing_type: Option<String>,
    pub citizenship: Option<String>,
    pub city: Option<String>,
    pub contact_name: Option<String>,
    pub contact_phone: Option<String>,
    pub country: Option<String>,
    pub district: Option<String>,
    pub tax_office: Option<String>,
    pub title: Option<String>,
    pub vat_number: Option<String>,
    pub zip_code: Option<String>,
}

/// How the checkout page of an order looks.
#[derive(Debug, Clone)]
pub struct CheckoutDesignDTO {
    pub input_background_color: Option<String>,
    pub input_text_color: Option<String>,
    pub label_text_color: Option<String>,
    pub left_background_color: Option<String>,
    pub logo: Option<String>,
    pub order_detail_html: Option<String>,
    pub pay_button_color: Option<String>,
    pub redirect_url: Option<String>,
    pub right_background_color: Option<String>,
    pub text_color: Option<String>,
}

/// A stored card to pay an order with.
#[derive(Debug, Clone)]
pub struct OrderCardDTO {
    pub card_id: String,
    pub card_sequence: i32,
}

/// One term of the payment schedule of an order.
#[derive(Debug, Clone)]
pub struct PaymentTermDTO {
    pub amount: Option<Amount>,
    pub data: Option<String>,
    pub due_date: Option<String>,
    pub paid_date: Option<String>,
    pub required: Option<bool>,
    pub status: Option<String>,
    pub term_reference_id: Option<String>,
    pub term_sequence: Option<i32>,
}

/// The sub-merchant of a payment facilitator.
#[derive(Debug, Clone)]
pub struct OrderPFSubMerchantDTO {
    pub address: Option<String>,
    pub city: Option<String>,
    pub country: Option<String>,
    pub country_iso_code: Option<String>,
    pub id: Option<String>,
    pub mcc: Option<String>,
    pub name: Option<String>,
    pub org_id: Option<String>,
    pub postal_code: Option<String>,
    pub submerchant_nin: Option<String>,
    pub submerchant_url: Option<String>,
    pub terminal_no: Option<String>,
}

/// Where an order is shipped to.
#[derive(Debug, Clone)]
pub struct ShippingAddressDTO {
    pub address: Option<String>,
    pub city: Option<String>,
    pub contact_name: Option<String>,
    pub country: Option<String>,
    pub shipping_date: Option<String>,
    pub tracking_code: Option<String>,
    pub zip_code: Option<String>,
}

/// The sub-organization that an order belongs to.
#[derive(Debug, Clone)]
pub struct SubOrganizationDTO {
    pub acquirer: Option<String>,
    pub address: Option<String>,
    pub contact_first_name: Option<String>,
    pub contact_last_name: Option<String>,
    pub currency: Option<String>,
    pub email: Option<String>,
    pub gsm_number: Option<String>,
    pub iban: Option<String>,
    pub identity_number: Option<String>,
    pub legal_company_title: Option<String>,
    pub organization_name: Option<String>,
    pub sub_merchant_external_id: Option<String>,
    pub sub_merchant_key: Option<String>,
    pub sub_merchant_type: Option<String>,
    pub tax_number: Option<String>,
    pub tax_office: Option<String>,
}

/// The share of a sub-merchant in an order.
#[derive(Debug, Clone)]
pub struct SubmerchantDTO {
    pub amount: Option<Amount>,
    pub merchant_reference_id: Option<String>,
    pub order_basket_item_id: Option<String>,
}

/// Which order to account for.
#[derive(Debug, Clone)]
pub struct OrderAccountingRequest {
    pub order_reference_id: String,
}

/// How much of a pre-authorized order to capture.
#[derive(Debug, Clone)]
pub struct OrderPostAuthRequest {
    pub amount: Amount,
    pub reference_id: String,
}

/// A payment term to add to an order.
#[derive(Debug, Clone)]
pub struct OrderPaymentTermCreateDTO {
    pub order_id: String,
    pub term_reference_id: String,
    pub amount: Amount,
    pub due_date: String,
    pub term_sequence: i32,
    pub required: bool,
    pub status: String,
    pub data: Option<String>,
    pub paid_date: Option<String>,
}

/// What to change of a payment term.
#[derive(Debug, Clone)]
pub struct OrderPaymentTermUpdateDTO {
    pub term_reference_id: String,
    pub amount: Option<Amount>,
    pub due_date: Option<String>,
    pub paid_date: Option<String>,
    pub required: Option<bool>,
    pub status: Option<String>,
    pub term_sequence: Option<i32>,
}

/// What to refund of a payment term.
#[derive(Debug, Clone)]
pub struct OrderTermRefundRequest {
    pub term_id: String,
    pub amount: Amount,
    pub reference_id: Option<String>,
    pub term_payment_id: Option<String>,
}

} // verus!
