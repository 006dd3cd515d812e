//! Orders: creating, looking up, cancelling and refunding them, and the
//! terms of their payment schedules.

use crate::amount::{decimal_text, Amount};
use crate::call::{
    borrowed, decoded_or, joined, one_member, page_query, query_for, unreadable, unreadable_or,
    ApiCall, PayloadModel,
};
use crate::client::{HttpMethod, TapsilatClient};
use crate::error::{ErrorModel, TapsilatError};
use crate::modules::validators::{amount_fault, Validators};
use crate::types::common::ApiResponse;
use crate::types::order::{
    BasketItemDTO, CreateOrderRequest, CreateOrderResponse, Order, OrderAccountingRequest,
    OrderPaymentTermCreateDTO, OrderPaymentTermUpdateDTO, OrderPostAuthRequest,
    OrderTermRefundRequest, RefundOrderRequest,
};
use std::sync::Arc;
use vstd::prelude::*;
use vstd::string::StringExecFns;

verus! {

/// The operations on orders.
pub struct OrderModule {
    client: Arc<TapsilatClient>,
}

/// The price of a basket item in ten-billionths; zero where none is given.
pub open spec fn item_price(item: BasketItemDTO) -> int {
    match item.price {
        Some(price) => price.units as int,
        None => 0,
    }
}

/// How many pieces a basket item stands for; one where no number is given.
pub open spec fn item_quantity(item: BasketItemDTO) -> int {
    match item.quantity {
        Some(quantity) => quantity as int,
        None => 1,
    }
}

/// The sum of price times quantity over the items of a basket.
pub open spec fn basket_total(items: Seq<BasketItemDTO>) -> int
    decreases items.len(),
{
    if items.len() == 0 {
        0
    } else {
        basket_total(items.drop_last()) + item_price(items.last()) * item_quantity(items.last())
    }
}

/// A total as it is written in a message: as a decimal, or as
/// `out of range` where it cannot be held in 128 bits.
pub open spec fn total_text(total: int) -> Seq<char> {
    if total > i128::MAX || total < i128::MIN {
        "out of range"@
    } else {
        decimal_text(total)
    }
}

/// The message for an order whose amount is not the total of its basket.
pub open spec fn mismatch_message(amount: int, total: int) -> Seq<char> {
    "Order amount ("@ + decimal_text(amount) + ") does not match basket items total ("@
        + total_text(total) + ")"@
}

/// What is wrong with a request to create an order, if anything: its
/// amount is not valid; or it has a basket, and the total of the basket is
/// not the amount.
pub open spec fn order_fault(request: CreateOrderRequest) -> Option<Seq<char>> {
    let amount = request.amount.units as int;
    if amount_fault(amount) is Some {
        amount_fault(amount)
    } else {
        match request.basket_items {
            None => None,
            Some(items) => if basket_total(items@) != amount {
                Some(mismatch_message(amount, basket_total(items@)))
            } else {
                None
            },
        }
    }
}

/// Whether `r` is what the decoded answer to a refund comes to: the
/// payload of the envelope; the failure that an envelope without payload
/// stands for; or the error that says that the answer had not its shape.
pub open spec fn refund_outcome(
    r: Result<serde_json::Value, TapsilatError>,
    decoded: Result<ApiResponse<serde_json::Value>, String>,
) -> bool {
    match decoded {
        Ok(envelope) => match envelope.data {
            Some(value) => r == Ok::<serde_json::Value, TapsilatError>(value),
            None => r matches Err(e) && e@ == ErrorModel::InvalidResponse(
                envelope.failure_message("No refund data in response"@),
            ),
        },
        Err(detail) => r matches Err(e) && e@ == ErrorModel::ConfigError(
            "Failed to parse refund response: "@ + detail@,
        ),
    }
}

/// Whether `r` is what the decoded answer to the look-up of an order comes
/// to.
pub open spec fn order_outcome(
    r: Result<Order, TapsilatError>,
    decoded: Result<ApiResponse<Order>, String>,
) -> bool {
    match decoded {
        Ok(envelope) => match envelope.data {
            Some(order) => r == Ok::<Order, TapsilatError>(order),
            None => r matches Err(e) && e@ == ErrorModel::InvalidResponse(
                envelope.failure_message("No data"@),
            ),
        },
        Err(detail) => r matches Err(e) && e@ == ErrorModel::ConfigError(
            "Failed to parse order response: "@ + detail@,
        ),
    }
}

/// What one unit of the high part of a wide number stands for: two to the
/// 96th.
const LIMB: u128 = 0x1_0000_0000_0000_0000_0000_0000;

/// The number that a high and a low part stand for. A basket can have a
/// total beyond 128 bits on the way to one that fits, so the total is
/// summed in two parts.
spec fn wide(high: u128, low: u128) -> int {
    high * LIMB + low
}

/// The price of an item; zero where none is given.
fn price_of(item: &BasketItemDTO) -> (price: Amount)
    ensures
        price.units == item_price(*item),
{
    match item.price {
        Some(price) => price,
        None => Amount { units: 0 },
    }
}

/// The quantity of an item; one where none is given.
fn quantity_of(item: &BasketItemDTO) -> (quantity: i32)
    ensures
        quantity == item_quantity(*item),
{
    match item.quantity {
        Some(quantity) => quantity,
        None => 1,
    }
}

/// The product of two numbers without sign, in two parts.
fn wide_product(m: u128, k: u128) -> (r: (u128, u128))
    requires
        m <= 0x8000_0000_0000_0000_0000_0000_0000_0000,
        k <= 0x8000_0000,
    ensures
        wide(r.0, r.1) == m * k,
        r.1 < LIMB,
        r.0 < 0x8000_0000_0000_0000,
{
    let high = m / LIMB;
    let low = m % LIMB;
    proof {
        assert(high <= 0x8000_0000);
        assert(high * k <= 0x8000_0000 * 0x8000_0000) by (nonlinear_arith)
            requires
                0 <= high <= 0x8000_0000,
                0 <= k <= 0x8000_0000,
        ;
        assert(low * k <= (LIMB - 1) * 0x8000_0000) by (nonlinear_arith)
            requires
                0 <= low <= LIMB - 1,
                0 <= k <= 0x8000_0000,
        ;
        assert((high * LIMB + low) * k == (high * k) * LIMB + low * k) by (nonlinear_arith);
    }
    let a = high * k;
    let b = low * k;
    (a + b / LIMB, b % LIMB)
}

/// The sum of two wide numbers.
fn wide_sum(high: u128, low: u128, more_high: u128, more_low: u128) -> (r: (u128, u128))
    requires
        low < LIMB,
        more_low < LIMB,
        high + more_high + 1 <= u128::MAX,
    ensures
        wide(r.0, r.1) == wide(high, low) + wide(more_high, more_low),
        r.1 < LIMB,
        r.0 <= high + more_high + 1,
{
    let sum = low + more_low;
    if sum >= LIMB {
        (high + more_high + 1, sum - LIMB)
    } else {
        (high + more_high, sum)
    }
}

/// The difference of two wide numbers, where it can be held in 128 bits.
fn wide_difference(high: u128, low: u128, less_high: u128, less_low: u128) -> (r: Option<i128>)
    requires
        low < LIMB,
        less_low < LIMB,
        high <= 0x8000_0000_0000_0000_0000_0000_0000_0000,
        less_high <= 0x8000_0000_0000_0000_0000_0000_0000_0000,
    ensures
        match r {
            Some(d) => d == wide(high, low) - wide(less_high, less_low),
            None => wide(high, low) - wide(less_high, less_low) > i128::MAX || wide(high, low)
                - wide(less_high, less_low) < i128::MIN,
        },
{
    // The limbs between the two high parts; with the low parts, which
    // differ by less than one limb, they make the difference.
    let (above, by) = if high >= less_high {
        (true, high - less_high)
    } else {
        (false, less_high - high)
    };
    if by > 0x8000_0000 {
        return None;
    }
    if above {
        if low >= less_low {
            if by == 0x8000_0000 {
                return None;
            }
            Some((by * LIMB + (low - less_low)) as i128)
        } else if by == 0 {
            Some(-((less_low - low) as i128))
        } else {
            Some(((by - 1) * LIMB + (LIMB - (less_low - low))) as i128)
        }
    } else {
        if less_low >= low {
            let rest = less_low - low;
            if by == 0x8000_0000 {
                // Two to the 127th below zero is the least that 128 bits hold.
                return if rest == 0 {
                    Some(i128::MIN)
                } else {
                    None
                };
            }
            Some(-((by * LIMB + rest) as i128))
        } else {
            Some(-(((by - 1) * LIMB + (LIMB - (low - less_low))) as i128))
        }
    }
}

/// The size of a number without its sign.
fn magnitude(n: i128) -> (m: u128)
    ensures
        m == if n < 0 {
            -n
        } else {
            n as int
        },
        m <= 0x8000_0000_0000_0000_0000_0000_0000_0000,
{
    if n >= 0 {
        n as u128
    } else {
        (-(n + 1)) as u128 + 1
    }
}

/// The total of a basket, where it can be held in 128 bits. Lines above
/// zero and lines below zero are summed apart, each in two parts, so that
/// no sum on the way is lost.
fn total_of(items: &Vec<BasketItemDTO>) -> (total: Option<Amount>)
    ensures
        match total {
            Some(sum) => sum.units == basket_total(items@),
            None => basket_total(items@) > i128::MAX || basket_total(items@) < i128::MIN,
        },
{
    let mut gain: (u128, u128) = (0, 0);
    let mut loss: (u128, u128) = (0, 0);
    let mut i: usize = 0;
    while i < items.len()
        invariant
            i <= items.len(),
            gain.1 < LIMB,
            loss.1 < LIMB,
            gain.0 <= i * 0x8000_0000_0000_0000,
            loss.0 <= i * 0x8000_0000_0000_0000,
            wide(gain.0, gain.1) - wide(loss.0, loss.1) == basket_total(items@.take(i as int)),
        decreases items.len() - i,
    {
        let price = price_of(&items[i]).units;
        let quantity = quantity_of(&items[i]);
        let m = magnitude(price);
        let k = magnitude(quantity as i128);
        let line = wide_product(m, k);
        proof {
            assert(items@.take(i + 1).drop_last() =~= items@.take(i as int));
            assert(items@.take(i + 1).last() == items@[i as int]);
            let p = price as int;
            let q = quantity as int;
            assert(p * q == if (p < 0) != (q < 0) {
                -(m * k)
            } else {
                m * k
            }) by (nonlinear_arith)
                requires
                    m == if p < 0 {
                        -p
                    } else {
                        p
                    },
                    k == if q < 0 {
                        -q
                    } else {
                        q
                    },
            ;
            assert(i < 0x1_0000_0000_0000_0000);
        }
        if (price < 0) != (quantity < 0) {
            loss = wide_sum(loss.0, loss.1, line.0, line.1);
        } else {
            gain = wide_sum(gain.0, gain.1, line.0, line.1);
        }
        i += 1;
    }
    assert(items@.take(items@.len() as int) =~= items@);
    assert(i < 0x1_0000_0000_0000_0000);
    match wide_difference(gain.0, gain.1, loss.0, loss.1) {
        Some(units) => Some(Amount { units }),
        None => None,
    }
}

impl OrderModule {
    /// The client that the operations are made for.
    pub closed spec fn owner(&self) -> TapsilatClient {
        *self.client
    }

    /// The operations on orders, for `client`.
    pub fn new(client: Arc<TapsilatClient>) -> (module: OrderModule)
        ensures
            module.owner() == *client,
    {
        OrderModule { client }
    }

    /// The client that the operations are made for.
    pub fn client(&self) -> (client: &TapsilatClient)
        ensures
            *client == self.owner(),
    {
        &self.client
    }

    /// Checks a request to create an order: its amount has to be valid,
    /// and where it has a basket, the amount has to be the total of the
    /// basket. Nothing calls for this check before `create`; it is there
    /// for the caller who wants it.
    pub fn validate_create_request(&self, request: &CreateOrderRequest) -> (r: Result<
        (),
        TapsilatError,
    >)
        ensures
            match order_fault(*request) {
                None => r is Ok,
                Some(m) => r matches Err(e) && e@ == ErrorModel::ValidationError(m),
            },
    {
        match Validators::validate_amount(request.amount) {
            Ok(()) => {},
            Err(e) => {
                return Err(e);
            },
        }
        let items = match &request.basket_items {
            Some(items) => items,
            None => {
                return Ok(());
            },
        };
        let total = total_of(items);
        let written = match total {
            Some(sum) => {
                if sum.units == request.amount.units {
                    return Ok(());
                }
                sum.to_text()
            },
            None => String::from_str("out of range"),
        };
        let message = String::from_str("Order amount (").concat(
            request.amount.to_text().as_str(),
        ).concat(") does not match basket items total (").concat(written.as_str()).concat(")");
        Err(TapsilatError::ValidationError(message))
    }

    /// The call that creates an order.
    pub fn create(&self, request: &CreateOrderRequest) -> (call: ApiCall)
        ensures
            call.is(HttpMethod::Post, "order/create"@, PayloadModel::Request),
    {
        ApiCall::with_request(HttpMethod::Post, String::from_str("order/create"))
    }

    /// The call that fetches the order `reference_id`.
    pub fn get(&self, reference_id: &str) -> (call: ApiCall)
        ensures
            call.is(HttpMethod::Get, "order/"@ + reference_id@, PayloadModel::Nothing),
    {
        ApiCall::get(String::from_str("order/").concat(reference_id))
    }

    /// The call that fetches the status of the order `reference_id`.
    pub fn get_status(&self, reference_id: &str) -> (call: ApiCall)
        ensures
            call.is(
                HttpMethod::Get,
                "order/"@ + reference_id@ + "/status"@,
                PayloadModel::Nothing,
            ),
    {
        ApiCall::get(joined("order/", reference_id, "/status"))
    }

    /// The call that lists one page of the orders, those of one buyer
    /// where `buyer_id` is given.
    pub fn list(&self, page: u32, per_page: u32, buyer_id: Option<String>) -> (call: ApiCall)
        ensures
            call.is(
                HttpMethod::Get,
                "order/list"@ + page_query(Some(page), Some(per_page)) + match buyer_id {
                    Some(id) => "&buyer_id="@ + id@,
                    None => Seq::empty(),
                },
                PayloadModel::Nothing,
            ),
    {
        let paged = String::from_str("order/list").concat(
            query_for(Some(page), Some(per_page)).as_str(),
        );
        let endpoint = match buyer_id {
            Some(id) => {
                assert(paged@ + ("&buyer_id="@ + id@) =~= paged@ + "&buyer_id="@ + id@);
                paged.concat("&buyer_id=").concat(id.as_str())
            },
            None => {
                assert(paged@ + Seq::<char>::empty() =~= paged@);
                paged
            },
        };
        ApiCall::get(endpoint)
    }

    /// The call that cancels the order `reference_id`.
    pub fn cancel(&self, reference_id: &str) -> (call: ApiCall)
        ensures
            call.is(
                HttpMethod::Post,
                "order/cancel"@,
                PayloadModel::Object(one_member("reference_id"@, reference_id@)),
            ),
    {
        ApiCall::post_member("order/cancel", "reference_id", reference_id)
    }

    /// The call that refunds an order, all of it or a part.
    pub fn refund(&self, request: &RefundOrderRequest) -> (call: ApiCall)
        ensures
            call.is(HttpMethod::Post, "order/refund"@, PayloadModel::Request),
    {
        ApiCall::with_request(HttpMethod::Post, String::from_str("order/refund"))
    }

    /// The call that refunds every item of the order `reference_id`.
    pub fn refund_all(&self, reference_id: &str) -> (call: ApiCall)
        ensures
            call.is(
                HttpMethod::Post,
                "order/refund-all"@,
                PayloadModel::Object(one_member("reference_id"@, reference_id@)),
            ),
    {
        ApiCall::post_member("order/refund-all", "reference_id", reference_id)
    }

    /// The address of the checkout page of an order, which it has to
    /// carry.
    pub fn get_checkout_url(&self, order: Order) -> (r: Result<String, TapsilatError>)
        ensures
            match order.checkout_url {
                Some(url) => r == Ok::<String, TapsilatError>(url),
                None => r matches Err(e) && e@ == ErrorModel::InvalidResponse(
                    "Checkout URL not found"@,
                ),
            },
    {
        match order.checkout_url {
            Some(url) => Ok(url),
            None => Err(TapsilatError::invalid_response("Checkout URL not found")),
        }
    }

    /// The call that adds a payment term to an order.
    pub fn create_term(&self, request: &OrderPaymentTermCreateDTO) -> (call: ApiCall)
        ensures
            call.is(HttpMethod::Post, "order/term"@, PayloadModel::Request),
    {
        ApiCall::with_request(HttpMethod::Post, String::from_str("order/term"))
    }

    /// The call that changes a payment term.
    pub fn update_term(&self, request: &OrderPaymentTermUpdateDTO) -> (call: ApiCall)
        ensures
            call.is(HttpMethod::Post, "order/term/update"@, PayloadModel::Request),
    {
        ApiCall::with_request(HttpMethod::Post, String::from_str("order/term/update"))
    }

    /// The call that deletes the term `term_reference_id` of the order
    /// `order_id`.
    pub fn delete_term(&self, order_id: &str, term_reference_id: &str) -> (call: ApiCall)
        ensures
            call.is(
                HttpMethod::Post,
                "order/term/delete"@,
                PayloadModel::Object(
                    one_member("order_id"@, order_id@).insert(
                        "term_reference_id"@,
                        Some(term_reference_id@),
                    ),
                ),
            ),
    {
        ApiCall::post_members(
            "order/term/delete",
            "order_id",
            order_id,
            "term_reference_id",
            Some(term_reference_id),
        )
    }

    /// The call that refunds a payment term.
    pub fn refund_term(&self, request: &OrderTermRefundRequest) -> (call: ApiCall)
        ensures
            call.is(HttpMethod::Post, "order/term/refund"@, PayloadModel::Request),
    {
        ApiCall::with_request(HttpMethod::Post, String::from_str("order/term/refund"))
    }

    /// The call that terminates the term `term_reference_id`, with the
    /// reason for it where one is given.
    pub fn terminate_term(&self, term_reference_id: &str, reason: Option<String>) -> (call: ApiCall)
        ensures
            call.is(
                HttpMethod::Post,
                "order/term/terminate"@,
                PayloadModel::Object(
                    match reason {
                        Some(text) => one_member("term_reference_id"@, term_reference_id@).insert(
                            "reason"@,
                            Some(text@),
                        ),
                        None => one_member("term_reference_id"@, term_reference_id@),
                    },
                ),
            ),
    {
        ApiCall::post_members(
            "order/term/terminate",
            "term_reference_id",
            term_reference_id,
            "reason",
            borrowed(&reason),
        )
    }

    /// The call that terminates the order `reference_id`.
    pub fn terminate(&self, reference_id: &str) -> (call: ApiCall)
        ensures
            call.is(
                HttpMethod::Post,
                "order/terminate"@,
                PayloadModel::Object(one_member("reference_id"@, reference_id@)),
            ),
    {
        ApiCall::post_member("order/terminate", "reference_id", reference_id)
    }

    /// The call that triggers the callback of the order `reference_id` by
    /// hand, with the conversation that it belongs to where one is given.
    pub fn manual_callback(&self, reference_id: &str, conversation_id: Option<String>) -> (call:
        ApiCall)
        ensures
            call.is(
                HttpMethod::Post,
                "order/manual-callback"@,
                PayloadModel::Object(
                    match conversation_id {
                        Some(text) => one_member("reference_id"@, reference_id@).insert(
                            "conversation_id"@,
                            Some(text@),
                        ),
                        None => one_member("reference_id"@, reference_id@),
                    },
                ),
            ),
    {
        ApiCall::post_members(
            "order/manual-callback",
            "reference_id",
            reference_id,
            "conversation_id",
            borrowed(&conversation_id),
        )
    }

    /// The call that relates the order `reference_id` to the order
    /// `related_reference_id`.
    pub fn related_update(&self, reference_id: &str, related_reference_id: &str) -> (call: ApiCall)
        ensures
            call.is(
                HttpMethod::Post,
                "order/related-update"@,
                PayloadModel::Object(
                    one_member("reference_id"@, reference_id@).insert(
                        "related_reference_id"@,
                        Some(related_reference_id@),
                    ),
                ),
            ),
    {
        ApiCall::post_members(
            "order/related-update",
            "reference_id",
            reference_id,
            "related_reference_id",
            Some(related_reference_id),
        )
    }

    /// The call that accounts for an order.
    pub fn accounting(&self, request: &OrderAccountingRequest) -> (call: ApiCall)
        ensures
            call.is(HttpMethod::Post, "order/accounting"@, PayloadModel::Request),
    {
        ApiCall::with_request(HttpMethod::Post, String::from_str("order/accounting"))
    }

    /// The call that captures a pre-authorized order.
    pub fn postauth(&self, request: &OrderPostAuthRequest) -> (call: ApiCall)
        ensures
            call.is(HttpMethod::Post, "order/postauth"@, PayloadModel::Request),
    {
        ApiCall::with_request(HttpMethod::Post, String::from_str("order/postauth"))
    }

    /// What the decoded answer to `create` comes to.
    pub fn created_from(&self, decoded: Result<CreateOrderResponse, String>) -> (r: Result<
        CreateOrderResponse,
        TapsilatError,
    >)
        ensures
            decoded_or(r, decoded, "Failed to parse create order response: "@),
    {
        unreadable_or(decoded, "Failed to parse create order response: ")
    }

    /// What the decoded answer to `get` comes to: the order in the
    /// envelope.
    pub fn order_from(&self, decoded: Result<ApiResponse<Order>, String>) -> (r: Result<
        Order,
        TapsilatError,
    >)
        ensures
            order_outcome(r, decoded),
    {
        match decoded {
            Ok(envelope) => envelope.into_data("No data"),
            Err(detail) => Err(unreadable("Failed to parse order response: ", detail.as_str())),
        }
    }

    /// What the decoded answer to `refund` comes to: the payload of the
    /// envelope. An envelope without payload is a failure.
    pub fn refund_from(&self, decoded: Result<ApiResponse<serde_json::Value>, String>) -> (r:
        Result<serde_json::Value, TapsilatError>)
        ensures
            refund_outcome(r, decoded),
    {
        match decoded {
            Ok(envelope) => envelope.into_data("No refund data in response"),
            Err(detail) => Err(unreadable("Failed to parse refund response: ", detail.as_str())),
        }
    }
}

} // verus!
