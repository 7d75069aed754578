//! The broker-agnostic records that the adapter hands to its callers.

use crate::canonical::{params_view, Param};
use crate::clock::Timestamp;
use vstd::prelude::*;
use vstd::string::*;

verus! {

/// A price, an amount of money or a quantity: the bit pattern of an IEEE 754
/// double. The adapter never computes with amounts; it passes them on or
/// puts zero in their place.
#[derive(Clone, Copy, Debug, PartialEq, Eq, Structural)]
pub struct Amount {
    pub bits: u64,
}

impl Amount {
    /// Positive zero.
    pub open spec fn zero_spec() -> Amount {
        Amount { bits: 0 }
    }

    /// Positive zero.
    #[verifier::when_used_as_spec(zero_spec)]
    pub fn zero() -> (amount: Amount)
        ensures
            amount == Amount::zero_spec(),
    {
        Amount { bits: 0 }
    }

    /// The amount if there is one, else zero.
    pub open spec fn or_zero_spec(amount: Option<Amount>) -> Amount {
        match amount {
            Some(a) => a,
            None => Amount::zero_spec(),
        }
    }

    /// The amount if there is one, else zero.
    #[verifier::when_used_as_spec(or_zero_spec)]
    pub fn or_zero(amount: Option<Amount>) -> (value: Amount)
        ensures
            value == Amount::or_zero_spec(amount),
    {
        match amount {
            Some(a) => a,
            None => Amount::zero(),
        }
    }
}

/// An open bag of vendor-specific entries, in contracts.
pub open spec fn extensions_view(extensions: Option<Vec<(String, String)>>) -> Option<Seq<Param>> {
    match extensions {
        Some(entries) => Some(params_view(entries@)),
        None => None,
    }
}

/// A copy of a list of pairs.
pub fn clone_pairs(pairs: &Vec<(String, String)>) -> (copy: Vec<(String, String)>)
    ensures
        params_view(copy@) == params_view(pairs@),
{
    let mut copy: Vec<(String, String)> = Vec::new();
    let n = pairs.len();
    for i in 0..n
        invariant
            n == pairs@.len(),
            copy@.len() == i,
            forall|j: int|
                0 <= j < i ==> (#[trigger] copy@[j]).0@ == pairs@[j].0@ && copy@[j].1@
                    == pairs@[j].1@,
    {
        let ghost before = copy@;
        copy.push((pairs[i].0.clone(), pairs[i].1.clone()));
        assert forall|j: int| 0 <= j < i + 1 implies (#[trigger] copy@[j]).0@ == pairs@[j].0@
            && copy@[j].1@ == pairs@[j].1@ by {
            if j < i {
                assert(copy@[j] == before[j]);
            }
        }
    }
    assert(params_view(copy@) =~= params_view(pairs@));
    copy
}

/// The money in an account.
#[derive(Debug)]
pub struct AccountBalance {
    pub currency: String,
    pub total_equity: Amount,
    pub available_cash: Amount,
    pub buying_power: Amount,
    pub locked_cash: Amount,
}

/// A balance in contracts.
pub struct AccountBalanceView {
    pub currency: Seq<char>,
    pub total_equity: Amount,
    pub available_cash: Amount,
    pub buying_power: Amount,
    pub locked_cash: Amount,
}

impl View for AccountBalance {
    type V = AccountBalanceView;

    open spec fn view(&self) -> AccountBalanceView {
        AccountBalanceView {
            currency: self.currency@,
            total_equity: self.total_equity,
            available_cash: self.available_cash,
            buying_power: self.buying_power,
            locked_cash: self.locked_cash,
        }
    }
}

/// The balance in US dollars with every amount zero.
pub open spec fn zero_balance() -> AccountBalanceView {
    AccountBalanceView {
        currency: "USD"@,
        total_equity: Amount::zero_spec(),
        available_cash: Amount::zero_spec(),
        buying_power: Amount::zero_spec(),
        locked_cash: Amount::zero_spec(),
    }
}

impl AccountBalance {
    /// The balance in US dollars with every amount zero.
    pub fn zero() -> (balance: AccountBalance)
        ensures
            balance@ == zero_balance(),
    {
        AccountBalance {
            currency: "USD".to_owned(),
            total_equity: Amount::zero(),
            available_cash: Amount::zero(),
            buying_power: Amount::zero(),
            locked_cash: Amount::zero(),
        }
    }
}

/// A holding in one instrument.
#[derive(Debug)]
pub struct Position {
    pub symbol_id: String,
    pub quantity: Amount,
    pub average_price: Amount,
    pub current_price: Amount,
    pub unrealized_pnl: Amount,
    pub unrealized_pnl_percent: Amount,
}

/// A position in contracts.
pub struct PositionView {
    pub symbol_id: Seq<char>,
    pub quantity: Amount,
    pub average_price: Amount,
    pub current_price: Amount,
    pub unrealized_pnl: Amount,
    pub unrealized_pnl_percent: Amount,
}

impl View for Position {
    type V = PositionView;

    open spec fn view(&self) -> PositionView {
        PositionView {
            symbol_id: self.symbol_id@,
            quantity: self.quantity,
            average_price: self.average_price,
            current_price: self.current_price,
            unrealized_pnl: self.unrealized_pnl,
            unrealized_pnl_percent: self.unrealized_pnl_percent,
        }
    }
}

/// What a list of positions stands for.
pub open spec fn positions_view(positions: Seq<Position>) -> Seq<PositionView> {
    Seq::new(positions.len(), |i: int| positions[i]@)
}

/// One account with its balance and holdings.
#[derive(Debug)]
pub struct AccountSummary {
    pub id: String,
    pub name: String,
    pub broker_id: String,
    pub is_paper: bool,
    pub balance: AccountBalance,
    pub positions: Vec<Position>,
    pub updated_at: Timestamp,
    pub extensions: Option<Vec<(String, String)>>,
}

/// An account summary in contracts.
pub struct AccountSummaryView {
    pub id: Seq<char>,
    pub name: Seq<char>,
    pub broker_id: Seq<char>,
    pub is_paper: bool,
    pub balance: AccountBalanceView,
    pub positions: Seq<PositionView>,
    pub updated_at: Timestamp,
    pub extensions: Option<Seq<Param>>,
}

impl View for AccountSummary {
    type V = AccountSummaryView;

    open spec fn view(&self) -> AccountSummaryView {
        AccountSummaryView {
            id: self.id@,
            name: self.name@,
            broker_id: self.broker_id@,
            is_paper: self.is_paper,
            balance: self.balance@,
            positions: positions_view(self.positions@),
            updated_at: self.updated_at,
            extensions: extensions_view(self.extensions),
        }
    }
}

/// What a list of accounts stands for.
pub open spec fn accounts_view(accounts: Seq<AccountSummary>) -> Seq<AccountSummaryView> {
    Seq::new(accounts.len(), |i: int| accounts[i]@)
}

/// Whether to buy or to sell.
#[derive(Clone, Copy, Debug, PartialEq, Eq, Structural)]
pub enum OrderSide {
    Buy,
    Sell,
}

/// How the price of an order is set.
#[derive(Clone, Copy, Debug, PartialEq, Eq, Structural)]
pub enum OrderType {
    Market,
    Limit,
    Stop,
    StopLimit,
}

/// Where an order stands. The adapter itself only ever reports an order as
/// submitted or as rejected.
#[derive(Clone, Copy, Debug, PartialEq, Eq, Structural)]
pub enum OrderStatus {
    Submitted,
    Rejected,
}

/// What the caller asks to have placed.
#[derive(Debug)]
pub struct OrderRequest {
    pub symbol_id: String,
    pub side: OrderSide,
    pub order_type: OrderType,
    pub quantity: Amount,
    pub limit_price: Option<Amount>,
    pub persona_id: String,
}

/// An order request in contracts.
pub struct OrderRequestView {
    pub symbol_id: Seq<char>,
    pub side: OrderSide,
    pub order_type: OrderType,
    pub quantity: Amount,
    pub limit_price: Option<Amount>,
    pub persona_id: Seq<char>,
}

impl View for OrderRequest {
    type V = OrderRequestView;

    open spec fn view(&self) -> OrderRequestView {
        OrderRequestView {
            symbol_id: self.symbol_id@,
            side: self.side,
            order_type: self.order_type,
            quantity: self.quantity,
            limit_price: self.limit_price,
            persona_id: self.persona_id@,
        }
    }
}

impl Clone for OrderRequest {
    fn clone(&self) -> (copy: OrderRequest)
        ensures
            copy@ == self@,
    {
        OrderRequest {
            symbol_id: self.symbol_id.clone(),
            side: self.side,
            order_type: self.order_type,
            quantity: self.quantity,
            limit_price: self.limit_price,
            persona_id: self.persona_id.clone(),
        }
    }
}

/// An order as the adapter recorded it.
#[derive(Debug)]
pub struct Order {
    pub id: String,
    pub request: OrderRequest,
    pub status: OrderStatus,
    pub created_at: Timestamp,
    pub updated_at: Timestamp,
    pub filled_quantity: Amount,
    pub average_filled_price: Option<Amount>,
    pub extensions: Option<Vec<(String, String)>>,
    pub persona_id: String,
}

/// An order in contracts.
pub struct OrderView {
    pub id: Seq<char>,
    pub request: OrderRequestView,
    pub status: OrderStatus,
    pub created_at: Timestamp,
    pub updated_at: Timestamp,
    pub filled_quantity: Amount,
    pub average_filled_price: Option<Amount>,
    pub extensions: Option<Seq<Param>>,
    pub persona_id: Seq<char>,
}

impl View for Order {
    type V = OrderView;

    open spec fn view(&self) -> OrderView {
        OrderView {
            id: self.id@,
            request: self.request@,
            status: self.status,
            created_at: self.created_at,
            updated_at: self.updated_at,
            filled_quantity: self.filled_quantity,
            average_filled_price: self.average_filled_price,
            extensions: extensions_view(self.extensions),
            persona_id: self.persona_id@,
        }
    }
}

impl Clone for Order {
    fn clone(&self) -> (copy: Order)
        ensures
            copy@ == self@,
    {
        let extensions = match &self.extensions {
            Some(entries) => Some(clone_pairs(entries)),
            None => None,
        };
        Order {
            id: self.id.clone(),
            request: self.request.clone(),
            status: self.status,
            created_at: self.created_at,
            updated_at: self.updated_at,
            filled_quantity: self.filled_quantity,
            average_filled_price: self.average_filled_price,
            extensions,
            persona_id: self.persona_id.clone(),
        }
    }
}

/// A request to place an order in an account.
#[derive(Debug)]
pub struct SubmitOrderRequest {
    pub account_id: String,
    pub order: OrderRequest,
}

} // verus!
