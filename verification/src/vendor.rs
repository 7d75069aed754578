//! The vendor's payloads, field for field as they travel as JSON. Whoever
//! decodes or encodes the JSON text works with these shapes.

use crate::model::Amount;
use vstd::prelude::*;

verus! {

/// One entry of the account list.
#[derive(Debug)]
pub struct ETradeAccount {
    /// `accountId`: the public account number.
    pub account_id: String,
    /// `accountIdKey`: the key by which the vendor's endpoints address the account.
    pub account_id_key: String,
    /// `accountName`
    pub account_name: Option<String>,
}

/// `Accounts`
#[derive(Debug)]
pub struct AccountsWrapper {
    /// `Account`
    pub account: Vec<ETradeAccount>,
}

/// `AccountListResponse`
#[derive(Debug)]
pub struct AccountListInner {
    /// `Accounts`
    pub accounts: AccountsWrapper,
}

/// The reply of the account list endpoint.
#[derive(Debug)]
pub struct AccountListResponse {
    /// `AccountListResponse`
    pub response: AccountListInner,
}

/// `RealTimeValues`
#[derive(Clone, Copy, Debug)]
pub struct RealTimeValues {
    /// `totalAccountValue`
    pub total_account_value: Option<Amount>,
    /// `netMv`
    pub net_mv: Option<Amount>,
    /// `totalLongValue`
    pub total_long_value: Option<Amount>,
}

/// `Computed`
#[derive(Clone, Copy, Debug)]
pub struct ComputedBalance {
    /// `RealTimeValues`
    pub real_time: Option<RealTimeValues>,
}

/// `BalanceResponse`
#[derive(Clone, Copy, Debug)]
pub struct BalanceInner {
    /// `Computed`
    pub computed: Option<ComputedBalance>,
}

/// The reply of the balance endpoint.
#[derive(Clone, Copy, Debug)]
pub struct BalanceResponse {
    /// `BalanceResponse`
    pub response: BalanceInner,
}

/// `Quick`
#[derive(Clone, Copy, Debug)]
pub struct QuickView {
    /// `lastTrade`: the live quote.
    pub last_trade: Option<Amount>,
}

/// `Product`
#[derive(Debug)]
pub struct ProductInfo {
    pub symbol: String,
}

/// One entry of a portfolio's `Position` list.
#[derive(Debug)]
pub struct ETradePosition {
    /// `Product`
    pub product: ProductInfo,
    pub quantity: Option<Amount>,
    /// `costPerShare`: the recorded cost basis.
    pub cost_per_share: Option<Amount>,
    /// `marketValue`
    pub market_value: Option<Amount>,
    /// `totalGain`
    pub total_gain: Option<Amount>,
    /// `totalGainPct`
    pub total_gain_pct: Option<Amount>,
    /// `Quick`
    pub quick: Option<QuickView>,
}

/// One entry of `AccountPortfolio`.
#[derive(Debug)]
pub struct AccountPortfolio {
    /// `Position`
    pub position: Option<Vec<ETradePosition>>,
}

/// `PortfolioResponse`
#[derive(Debug)]
pub struct PortfolioInner {
    /// `AccountPortfolio`
    pub account_portfolio: Option<Vec<AccountPortfolio>>,
}

/// The reply of the portfolio endpoint.
#[derive(Debug)]
pub struct PortfolioResponse {
    /// `PortfolioResponse`
    pub response: Option<PortfolioInner>,
}

/// `Product` of an instrument to trade.
#[derive(Debug)]
pub struct ProductInner {
    /// `securityType`
    pub security_type: String,
    pub symbol: String,
}

/// One entry of `Instrument`.
#[derive(Debug)]
pub struct InstrumentInner {
    /// `Product`
    pub product: ProductInner,
    /// `orderAction`
    pub order_action: String,
    /// `quantityType`
    pub quantity_type: String,
    pub quantity: Amount,
}

/// One entry of `Order`.
#[derive(Debug)]
pub struct OrderInner {
    /// `allOrNone`
    pub all_or_none: bool,
    /// `priceType`
    pub price_type: String,
    /// `orderTerm`
    pub order_term: String,
    /// `marketSession`
    pub market_session: String,
    /// `limitPrice`, left out of the JSON when absent.
    pub limit_price: Option<Amount>,
    /// `Instrument`
    pub instrument: Vec<InstrumentInner>,
}

/// `PlaceOrderRequest`
#[derive(Debug)]
pub struct PlaceOrderInner {
    /// `orderType`
    pub order_type: String,
    /// `clientOrderId`
    pub client_order_id: String,
    /// `Order`
    pub order: Vec<OrderInner>,
}

/// The body of a request to the order placement endpoint.
#[derive(Debug)]
pub struct PlaceOrderRequest {
    /// `PlaceOrderRequest`
    pub request: PlaceOrderInner,
}

/// One entry of `OrderIds`.
#[derive(Clone, Copy, Debug)]
pub struct OrderIdInfo {
    /// `orderId`
    pub order_id: i64,
}

/// `PlaceOrderResponse`
#[derive(Debug)]
pub struct PlaceOrderResult {
    /// `OrderIds`
    pub order_ids: Option<Vec<OrderIdInfo>>,
}

/// The reply of the order placement endpoint.
#[derive(Debug)]
pub struct PlaceOrderResponse {
    /// `PlaceOrderResponse`
    pub response: PlaceOrderResult,
}

/// One listed account with what its balance and portfolio requests brought.
/// An `Err` holds the message of a request that failed.
#[derive(Debug)]
pub struct FetchedAccount {
    pub account: ETradeAccount,
    pub balance: Result<BalanceResponse, String>,
    pub portfolio: Result<PortfolioResponse, String>,
}

} // verus!
