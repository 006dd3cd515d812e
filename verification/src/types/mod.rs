//! The values that go to the API and come back from it.

pub mod buyer;
pub mod common;
pub mod order;
pub mod payment;
pub mod subscription;
pub mod webhook;

pub use buyer::{Address, Buyer, CreateAddressRequest, CreateBuyerRequest};
pub use common::{ApiResponse, PaginatedResponse, PaginationInfo, PaginationParams};
pub use order::{BasketItemDTO, BasketItemPayerDTO, BillingAddressDTO, CheckoutDesignDTO, CreateOrderItemRequest, CreateOrderRequest, CreateOrderResponse, Currency, MetadataDTO, Order, OrderAccountingRequest, OrderCardDTO, OrderItem, OrderPFSubMerchantDTO, OrderPaymentTermCreateDTO, OrderPaymentTermUpdateDTO, OrderPostAuthRequest, OrderResponse, OrderStatus, OrderTermRefundRequest, PaymentTermDTO, RefundOrderRequest, RefundOrderResponse, ShippingAddressDTO, SubOrganizationDTO, SubmerchantDTO};
pub use payment::{CreatePaymentRequest, Payment, PaymentResponse, PaymentStatus};
pub use subscription::{SubscriptionBilling, SubscriptionCancelRequest, SubscriptionCreateRequest, SubscriptionCreateResponse, SubscriptionDetail, SubscriptionGetRequest, SubscriptionListItem, SubscriptionOrder, SubscriptionRedirectRequest, SubscriptionRedirectResponse, SubscriptionUser};
pub use webhook::{WebhookData, WebhookEvent, WebhookEventType, WebhookVerificationConfig, WebhookVerificationResult};
