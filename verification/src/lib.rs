//! Client-side building blocks for the Tapsilat payment API.
//!
//! The crate validates what a caller hands in, describes the requests of
//! the API's operations, reads the answers, and verifies the notifications
//! that the API sends. It opens no connection and reads no clock: a
//! request is handed out as a value for a transport to send, and what the
//! transport brings back is handed in.
//!
//! - [`config`] and [`client`]: the settings of a client, how a request is
//!   put together and how an answer is read.
//! - [`call`]: what an operation asks for.
//! - [`modules`]: the operations, group by group, the validators and the
//!   verification of notifications; [`operations`]: the same operations
//!   as methods of the client.
//! - [`types`]: the values that go to the API and come back.
//! - [`amount`], [`text`], [`time`]: money as a decimal, texts, time stamps.
//! - [`json`], [`mac`], [`pattern`]: what the crate has from `serde_json`,
//!   from `hmac` and `sha2`, and from `regex`.

pub mod amount;
pub mod call;
pub mod client;
pub mod config;
pub mod error;
pub mod json;
pub mod mac;
pub mod modules;
pub mod operations;
pub mod pattern;
pub mod text;
pub mod time;
pub mod types;

pub use amount::Amount;
pub use call::{ApiCall, Payload};
pub use client::{Header, HttpMethod, HttpRequest, RequestBody, TapsilatClient};
pub use config::Config;
pub use error::TapsilatError;
pub use modules::installments::{
    CreateInstallmentPlanRequest, Installment, InstallmentPlan, InstallmentStatus,
    RefundInstallmentRequest, UpdateInstallmentRequest,
};
pub use modules::{
    InstallmentModule, OrderModule, PaymentModule, SubscriptionModule, Validators, WebhookModule,
};
pub use types::{
    Address, ApiResponse, BasketItemDTO, BasketItemPayerDTO, BillingAddressDTO, Buyer,
    CheckoutDesignDTO, CreateAddressRequest, CreateBuyerRequest, CreateOrderItemRequest,
    CreateOrderRequest, CreateOrderResponse, CreatePaymentRequest, Currency, MetadataDTO, Order,
    OrderAccountingRequest, OrderCardDTO, OrderItem, OrderPFSubMerchantDTO,
    OrderPaymentTermCreateDTO, OrderPaymentTermUpdateDTO, OrderPostAuthRequest, OrderResponse,
    OrderStatus, OrderTermRefundRequest, PaginatedResponse, PaginationInfo, PaginationParams,
    Payment, PaymentResponse, PaymentStatus, PaymentTermDTO, RefundOrderRequest,
    RefundOrderResponse, ShippingAddressDTO, SubOrganizationDTO, SubmerchantDTO,
    SubscriptionBilling, SubscriptionCancelRequest, SubscriptionCreateRequest,
    SubscriptionCreateResponse, SubscriptionDetail, SubscriptionGetRequest, SubscriptionListItem,
    SubscriptionOrder, SubscriptionRedirectRequest, SubscriptionRedirectResponse,
    SubscriptionUser, WebhookData, WebhookEvent, WebhookEventType, WebhookVerificationConfig,
    WebhookVerificationResult,
};
