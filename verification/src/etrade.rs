//! The E*TRADE client: its credentials, the signed requests it sends, and
//! the mapping from the vendor's payloads to the adapter's own records.

use crate::canonical::{params_view, Param};
use crate::clock::{utc_now, Timestamp};
use crate::model::{
    accounts_view, positions_view, zero_balance, AccountBalance, AccountBalanceView,
    AccountSummary, AccountSummaryView, Amount, Order, OrderRequest, OrderRequestView, OrderSide,
    OrderStatus, OrderType, OrderView, Position, PositionView,
};
use crate::oauth::{
    authorization_header, oauth_parameters, oauth_signature, random_u64, render_header,
    sign_request,
};
use crate::text::{
    ascii_string, decimal, decimal_text, hex16_bytes, hex16_text,
    lemma_decimal_text_is_not_empty, lemma_lower_hex_digits_ascii,
};
use crate::transport::{HttpMethod, HttpRequest, HttpRequestView, REQUEST_TIMEOUT_MS};
use crate::vendor::{
    AccountPortfolio, BalanceResponse, ETradePosition, FetchedAccount, InstrumentInner,
    OrderInner, PlaceOrderInner, PlaceOrderRequest, PlaceOrderResponse, PortfolioResponse,
    ProductInner, RealTimeValues,
};
use vstd::prelude::*;
use vstd::string::*;

verus! {

/// A client for one pair of credentials and one environment, both fixed
/// when it is made.
pub struct ETradeClient {
    consumer_key: String,
    consumer_secret: String,
    oauth_token: String,
    oauth_token_secret: String,
    base_url: String,
    is_sandbox: bool,
}

/// A client in contracts.
pub struct ClientView {
    pub consumer_key: Seq<char>,
    pub consumer_secret: Seq<char>,
    pub oauth_token: Seq<char>,
    pub oauth_token_secret: Seq<char>,
    pub base_url: Seq<char>,
    pub is_sandbox: bool,
}

impl View for ETradeClient {
    type V = ClientView;

    closed spec fn view(&self) -> ClientView {
        ClientView {
            consumer_key: self.consumer_key@,
            consumer_secret: self.consumer_secret@,
            oauth_token: self.oauth_token@,
            oauth_token_secret: self.oauth_token_secret@,
            base_url: self.base_url@,
            is_sandbox: self.is_sandbox,
        }
    }
}

/// The vendor's base URL: the sandbox or production.
pub open spec fn base_url_of(is_sandbox: bool) -> Seq<char> {
    if is_sandbox {
        "https://apisb.etrade.com"@
    } else {
        "https://api.etrade.com"@
    }
}

impl ClientView {
    /// The `Authorization` header of this client for a request made at
    /// `timestamp` with `nonce`.
    pub open spec fn header(
        self,
        method: Seq<char>,
        url: Seq<char>,
        timestamp: int,
        nonce: u64,
    ) -> Seq<char> {
        authorization_header(
            self.consumer_key,
            self.consumer_secret,
            self.oauth_token,
            self.oauth_token_secret,
            method,
            url,
            timestamp,
            nonce,
        )
    }

    /// The headers of a signed request, with a content type where it has a body.
    pub open spec fn headers(
        self,
        method: Seq<char>,
        url: Seq<char>,
        has_body: bool,
        timestamp: int,
        nonce: u64,
    ) -> Seq<Param> {
        let plain = seq![
            ("Authorization"@, self.header(method, url, timestamp, nonce)),
            ("Accept"@, "application/json"@),
        ];
        if has_body {
            plain.push(("Content-Type"@, "application/json"@))
        } else {
            plain
        }
    }

    /// The signed GET request for a path under the base URL.
    pub open spec fn get_request(self, path: Seq<char>, timestamp: int, nonce: u64) -> HttpRequestView {
        HttpRequestView {
            method: HttpMethod::Get,
            url: self.base_url + path,
            headers: self.headers("GET"@, self.base_url + path, false, timestamp, nonce),
            body: None,
            timeout_ms: REQUEST_TIMEOUT_MS,
        }
    }

    /// The signed POST request for a path under the base URL, with a JSON body.
    pub open spec fn post_request(
        self,
        path: Seq<char>,
        body: Seq<char>,
        timestamp: int,
        nonce: u64,
    ) -> HttpRequestView {
        HttpRequestView {
            method: HttpMethod::Post,
            url: self.base_url + path,
            headers: self.headers("POST"@, self.base_url + path, true, timestamp, nonce),
            body: Some(body),
            timeout_ms: REQUEST_TIMEOUT_MS,
        }
    }
}

/// The path of the account list endpoint.
pub open spec fn accounts_path_text() -> Seq<char> {
    "/v1/accounts/list"@
}

/// The path of an account's balance endpoint.
pub open spec fn balance_path_text(account_id_key: Seq<char>) -> Seq<char> {
    "/v1/accounts/"@ + account_id_key + "/balance?instType=BROKERAGE&realTimeNAV=true"@
}

/// The path of an account's portfolio endpoint.
pub open spec fn portfolio_path_text(account_id: Seq<char>) -> Seq<char> {
    "/v1/accounts/"@ + account_id + "/portfolio"@
}

/// The path of an account's order placement endpoint.
pub open spec fn place_order_path_text(account_id: Seq<char>) -> Seq<char> {
    "/v1/accounts/"@ + account_id + "/orders/place"@
}

/// The real-time values of a balance reply, where it has them.
pub open spec fn real_time_of(response: BalanceResponse) -> Option<RealTimeValues> {
    match response.response.computed {
        Some(computed) => computed.real_time,
        None => None,
    }
}

/// The balance that a balance reply stands for. Whatever is missing counts
/// as zero, and so does everything when the request failed.
pub open spec fn balance_of(reply: Result<BalanceResponse, String>) -> AccountBalanceView {
    match reply {
        Ok(response) => match real_time_of(response) {
            Some(values) => AccountBalanceView {
                currency: "USD"@,
                total_equity: Amount::or_zero_spec(values.total_account_value),
                available_cash: Amount::or_zero_spec(values.net_mv),
                buying_power: Amount::or_zero_spec(values.total_long_value),
                locked_cash: Amount::zero_spec(),
            },
            None => zero_balance(),
        },
        Err(_) => zero_balance(),
    }
}

/// The current price of a holding: the live quote, else the cost basis,
/// else zero.
pub open spec fn current_price_of(position: ETradePosition) -> Amount {
    match position.quick {
        Some(quick) => match quick.last_trade {
            Some(price) => price,
            None => Amount::or_zero_spec(position.cost_per_share),
        },
        None => Amount::or_zero_spec(position.cost_per_share),
    }
}

/// The position that one vendor entry stands for.
pub open spec fn position_of(position: ETradePosition) -> PositionView {
    PositionView {
        symbol_id: position.product.symbol@,
        quantity: Amount::or_zero_spec(position.quantity),
        average_price: Amount::or_zero_spec(position.cost_per_share),
        current_price: current_price_of(position),
        unrealized_pnl: Amount::or_zero_spec(position.total_gain),
        unrealized_pnl_percent: Amount::or_zero_spec(position.total_gain_pct),
    }
}

/// The positions of a list of vendor entries.
pub open spec fn listed_positions(entries: Seq<ETradePosition>) -> Seq<PositionView> {
    Seq::new(entries.len(), |i: int| position_of(entries[i]))
}

/// The positions of one portfolio; none where it has no list.
pub open spec fn portfolio_positions(portfolio: AccountPortfolio) -> Seq<PositionView> {
    match portfolio.position {
        Some(entries) => listed_positions(entries@),
        None => Seq::empty(),
    }
}

/// The positions of all the portfolios, in order.
pub open spec fn all_positions(portfolios: Seq<AccountPortfolio>) -> Seq<PositionView>
    decreases portfolios.len(),
{
    if portfolios.len() == 0 {
        Seq::empty()
    } else {
        all_positions(portfolios.drop_last()) + portfolio_positions(portfolios.last())
    }
}

/// The positions that a portfolio reply holds; none where a level is absent.
pub open spec fn positions_of(response: PortfolioResponse) -> Seq<PositionView> {
    match response.response {
        Some(inner) => match inner.account_portfolio {
            Some(portfolios) => all_positions(portfolios@),
            None => Seq::empty(),
        },
        None => Seq::empty(),
    }
}

/// The positions of an account in a summary: those of the reply, or none
/// when the request failed.
pub open spec fn positions_or_none(reply: Result<PortfolioResponse, String>) -> Seq<PositionView> {
    match reply {
        Ok(response) => positions_of(response),
        Err(_) => Seq::empty(),
    }
}

/// The summary of one fetched account.
pub open spec fn account_summary(
    fetched: FetchedAccount,
    is_paper: bool,
    now: Timestamp,
) -> AccountSummaryView {
    AccountSummaryView {
        id: fetched.account.account_id@,
        name: match fetched.account.account_name {
            Some(name) => name@,
            None => "E*TRADE "@ + fetched.account.account_id@,
        },
        broker_id: "broker-etrade"@,
        is_paper: is_paper,
        balance: balance_of(fetched.balance),
        positions: positions_or_none(fetched.portfolio),
        updated_at: now,
        extensions: Some(seq![("account_id_key"@, fetched.account.account_id_key@)]),
    }
}

/// The summaries of the fetched accounts, each from its own data alone.
pub open spec fn account_summaries(
    fetched: Seq<FetchedAccount>,
    is_paper: bool,
    now: Timestamp,
) -> Seq<AccountSummaryView> {
    Seq::new(fetched.len(), |i: int| account_summary(fetched[i], is_paper, now))
}

/// The vendor's word for an order type.
pub open spec fn price_type_text(order_type: OrderType) -> Seq<char> {
    match order_type {
        OrderType::Market => "MARKET"@,
        OrderType::Limit => "LIMIT"@,
        OrderType::Stop => "STOP"@,
        OrderType::StopLimit => "STOP_LIMIT"@,
    }
}

/// The vendor's word for an order side.
pub open spec fn order_action_text(side: OrderSide) -> Seq<char> {
    match side {
        OrderSide::Buy => "BUY"@,
        OrderSide::Sell => "SELL"@,
    }
}

/// The client order id made from a random value: `KL` and sixteen
/// hexadecimal digits.
pub open spec fn client_order_id_text(nonce: u64) -> Seq<char> {
    "KL"@ + hex16_text(nonce)
}

/// `body` places `order` under `client_order_id`: one equity order with one
/// instrument, good for the day, in the regular session, for a number of
/// shares, in the vendor's words for its type and side.
pub open spec fn is_place_order_body(
    body: PlaceOrderRequest,
    order: OrderRequestView,
    client_order_id: Seq<char>,
) -> bool {
    &&& body.request.order_type@ == "EQ"@
    &&& body.request.client_order_id@ == client_order_id
    &&& body.request.order@.len() == 1
    &&& body.request.order@[0].all_or_none == false
    &&& body.request.order@[0].price_type@ == price_type_text(order.order_type)
    &&& body.request.order@[0].order_term@ == "GOOD_FOR_DAY"@
    &&& body.request.order@[0].market_session@ == "REGULAR"@
    &&& body.request.order@[0].limit_price == order.limit_price
    &&& body.request.order@[0].instrument@.len() == 1
    &&& body.request.order@[0].instrument@[0].product.security_type@ == "EQ"@
    &&& body.request.order@[0].instrument@[0].product.symbol@ == order.symbol_id
    &&& body.request.order@[0].instrument@[0].order_action@ == order_action_text(order.side)
    &&& body.request.order@[0].instrument@[0].quantity_type@ == "QUANTITY"@
    &&& body.request.order@[0].instrument@[0].quantity == order.quantity
}

/// The first order id that the vendor assigned, if it assigned any.
pub open spec fn vendor_order_id(response: PlaceOrderResponse) -> Option<int> {
    match response.response.order_ids {
        Some(ids) => if ids@.len() > 0 {
            Some(ids@[0].order_id as int)
        } else {
            None
        },
        None => None,
    }
}

/// The record of an order that the vendor accepted.
pub open spec fn submitted_order(
    order: OrderRequestView,
    client_order_id: Seq<char>,
    response: PlaceOrderResponse,
    now: Timestamp,
) -> OrderView {
    OrderView {
        id: match vendor_order_id(response) {
            Some(id) => decimal_text(id),
            None => client_order_id,
        },
        request: order,
        status: OrderStatus::Submitted,
        created_at: now,
        updated_at: now,
        filled_quantity: Amount::zero_spec(),
        average_filled_price: None,
        extensions: Some(seq![("client_order_id"@, client_order_id)]),
        persona_id: order.persona_id,
    }
}

/// An account whose balance request failed is still listed, under its own
/// id and with a total equity of zero; and no account's summary depends on
/// what was fetched for another.
pub proof fn lemma_failed_balance_leaves_accounts_listed(
    fetched: Seq<FetchedAccount>,
    other: Seq<FetchedAccount>,
    failed: int,
    is_paper: bool,
    now: Timestamp,
)
    requires
        0 <= failed < fetched.len(),
        fetched[failed].balance is Err,
        other.len() == fetched.len(),
        forall|j: int| 0 <= j < fetched.len() && j != failed ==> other[j] == fetched[j],
    ensures
        account_summaries(fetched, is_paper, now).len() == fetched.len(),
        account_summaries(fetched, is_paper, now)[failed].id == fetched[failed].account.account_id@,
        account_summaries(fetched, is_paper, now)[failed].balance == zero_balance(),
        account_summaries(fetched, is_paper, now)[failed].balance.total_equity
            == Amount::zero_spec(),
        forall|j: int|
            0 <= j < fetched.len() && j != failed ==> account_summaries(fetched, is_paper, now)[j]
                == account_summaries(other, is_paper, now)[j],
{
}

/// An accepted order always has an id to go by: the vendor's, or else the
/// client order id that was made for it.
pub proof fn lemma_submitted_order_has_id(
    order: OrderRequestView,
    nonce: u64,
    response: PlaceOrderResponse,
    now: Timestamp,
)
    ensures
        submitted_order(order, client_order_id_text(nonce), response, now).id.len() > 0,
{
    lemma_lower_hex_digits_ascii(nonce as nat, 16);
    match vendor_order_id(response) {
        Some(id) => lemma_decimal_text_is_not_empty(id),
        None => {},
    }
}

/// A portfolio reply in which no portfolio has a position list holds no
/// position.
pub proof fn lemma_no_position_list_no_positions(portfolios: Seq<AccountPortfolio>)
    requires
        forall|i: int| 0 <= i < portfolios.len() ==> portfolios[i].position is None,
    ensures
        all_positions(portfolios) == Seq::<PositionView>::empty(),
    decreases portfolios.len(),
{
    if portfolios.len() > 0 {
        lemma_no_position_list_no_positions(portfolios.drop_last());
        assert(portfolios[portfolios.len() - 1].position is None);
        assert(all_positions(portfolios) =~= Seq::<PositionView>::empty());
    }
}

/// The path of an account's balance endpoint.
pub fn balance_path(account_id_key: &str) -> (path: String)
    ensures
        path@ == balance_path_text(account_id_key@),
{
    let mut path = "/v1/accounts/".to_owned();
    path.append(account_id_key);
    path.append("/balance?instType=BROKERAGE&realTimeNAV=true");
    path
}

/// The path of an account's portfolio endpoint.
pub fn portfolio_path(account_id: &str) -> (path: String)
    ensures
        path@ == portfolio_path_text(account_id@),
{
    let mut path = "/v1/accounts/".to_owned();
    path.append(account_id);
    path.append("/portfolio");
    path
}

/// The path of an account's order placement endpoint.
pub fn place_order_path(account_id: &str) -> (path: String)
    ensures
        path@ == place_order_path_text(account_id@),
{
    let mut path = "/v1/accounts/".to_owned();
    path.append(account_id);
    path.append("/orders/place");
    path
}

/// The client order id for a random value.
pub fn client_order_id(nonce: u64) -> (id: String)
    ensures
        id@ == client_order_id_text(nonce),
{
    let mut id = "KL".to_owned();
    id.append(ascii_string(hex16_bytes(nonce)).as_str());
    id
}

/// A new client order id from a fresh random value.
pub fn fresh_client_order_id() -> (id: String)
    ensures
        exists|nonce: u64| id@ == #[trigger] client_order_id_text(nonce),
{
    client_order_id(random_u64())
}

fn position_from(entry: &ETradePosition) -> (position: Position)
    ensures
        position@ == position_of(*entry),
{
    let current_price = match entry.quick {
        Some(quick) => match quick.last_trade {
            Some(price) => price,
            None => Amount::or_zero(entry.cost_per_share),
        },
        None => Amount::or_zero(entry.cost_per_share),
    };
    Position {
        symbol_id: entry.product.symbol.clone(),
        quantity: Amount::or_zero(entry.quantity),
        average_price: Amount::or_zero(entry.cost_per_share),
        current_price,
        unrealized_pnl: Amount::or_zero(entry.total_gain),
        unrealized_pnl_percent: Amount::or_zero(entry.total_gain_pct),
    }
}

fn balance_from(reply: &Result<BalanceResponse, String>) -> (balance: AccountBalance)
    ensures
        balance@ == balance_of(*reply),
{
    match reply {
        Ok(response) => {
            let values = match response.response.computed {
                Some(computed) => computed.real_time,
                None => None,
            };
            match values {
                Some(values) => AccountBalance {
                    currency: "USD".to_owned(),
                    total_equity: Amount::or_zero(values.total_account_value),
                    available_cash: Amount::or_zero(values.net_mv),
                    buying_power: Amount::or_zero(values.total_long_value),
                    locked_cash: Amount::zero(),
                },
                None => AccountBalance::zero(),
            }
        },
        Err(_) => AccountBalance::zero(),
    }
}

fn positions_from(response: &PortfolioResponse) -> (positions: Vec<Position>)
    ensures
        positions_view(positions@) == positions_of(*response),
{
    let mut positions: Vec<Position> = Vec::new();
    assert(positions_view(positions@) =~= Seq::<PositionView>::empty());
    if let Some(inner) = &response.response {
        if let Some(portfolios) = &inner.account_portfolio {
            let n = portfolios.len();
            assert(portfolios@.take(0) =~= Seq::<AccountPortfolio>::empty());
            for i in 0..n
                invariant
                    n == portfolios@.len(),
                    positions_view(positions@) == all_positions(portfolios@.take(i as int)),
            {
                let ghost done = positions_view(positions@);
                proof {
                    assert(portfolios@.take(i + 1).drop_last() =~= portfolios@.take(i as int));
                    assert(portfolios@.take(i + 1).last() == portfolios@[i as int]);
                }
                if let Some(entries) = &portfolios[i].position {
                    let m = entries.len();
                    assert(done + listed_positions(entries@.take(0)) =~= done);
                    for j in 0..m
                        invariant
                            m == entries@.len(),
                            positions_view(positions@) == done + listed_positions(
                                entries@.take(j as int),
                            ),
                    {
                        let ghost before = positions_view(positions@);
                        positions.push(position_from(&entries[j]));
                        assert(positions_view(positions@) =~= before.push(
                            position_of(entries@[j as int]),
                        ));
                        assert(done + listed_positions(entries@.take(j + 1)) =~= (done
                            + listed_positions(entries@.take(j as int))).push(
                            position_of(entries@[j as int]),
                        ));
                    }
                    assert(entries@.take(m as int) =~= entries@);
                } else {
                    assert(done + Seq::<PositionView>::empty() =~= done);
                }
            }
            assert(portfolios@.take(n as int) =~= portfolios@);
        }
    }
    positions
}

impl ETradeClient {
    /// A client for the given credentials, against the sandbox or against
    /// production.
    pub fn new(
        consumer_key: String,
        consumer_secret: String,
        oauth_token: String,
        oauth_token_secret: String,
        is_sandbox: bool,
    ) -> (client: ETradeClient)
        ensures
            client@ == (ClientView {
                consumer_key: consumer_key@,
                consumer_secret: consumer_secret@,
                oauth_token: oauth_token@,
                oauth_token_secret: oauth_token_secret@,
                base_url: base_url_of(is_sandbox),
                is_sandbox: is_sandbox,
            }),
    {
        let base_url = if is_sandbox {
            "https://apisb.etrade.com".to_owned()
        } else {
            "https://api.etrade.com".to_owned()
        };
        ETradeClient {
            consumer_key,
            consumer_secret,
            oauth_token,
            oauth_token_secret,
            base_url,
            is_sandbox,
        }
    }

    /// Whether the client works against the sandbox.
    pub fn is_sandbox(&self) -> (sandbox: bool)
        ensures
            sandbox == self@.is_sandbox,
    {
        self.is_sandbox
    }

    /// The OAuth signature of a request with the given parameters, under
    /// this client's secrets.
    pub fn generate_oauth_signature(
        &self,
        method: &str,
        url: &str,
        params: &Vec<(String, String)>,
    ) -> (signature: String)
        ensures
            signature@ == oauth_signature(
                self@.consumer_secret,
                self@.oauth_token_secret,
                method@,
                url@,
                params_view(params@),
            ),
    {
        sign_request(
            self.consumer_secret.as_str(),
            self.oauth_token_secret.as_str(),
            method,
            url,
            params,
        )
    }

    /// The `Authorization` header for a request made at `timestamp`, in
    /// seconds since the Unix epoch, with `nonce`.
    pub fn build_auth_header_at(&self, method: &str, url: &str, timestamp: i64, nonce: u64) -> (header:
        String)
        ensures
            header@ == self@.header(method@, url@, timestamp as int, nonce),
    {
        let mut params: Vec<(String, String)> = Vec::new();
        params.push(("oauth_consumer_key".to_owned(), self.consumer_key.clone()));
        params.push(("oauth_token".to_owned(), self.oauth_token.clone()));
        params.push(("oauth_signature_method".to_owned(), "HMAC-SHA1".to_owned()));
        params.push(("oauth_timestamp".to_owned(), decimal(timestamp as i128)));
        params.push(("oauth_nonce".to_owned(), ascii_string(hex16_bytes(nonce))));
        params.push(("oauth_version".to_owned(), "1.0".to_owned()));
        let ghost protocol = oauth_parameters(
            self@.consumer_key,
            self@.oauth_token,
            timestamp as int,
            nonce,
        );
        assert(params_view(params@) =~= protocol);
        let signature = self.generate_oauth_signature(method, url, &params);
        params.push(("oauth_signature".to_owned(), signature));
        assert(params_view(params@) =~= protocol.push(("oauth_signature"@, signature@)));
        render_header(&params)
    }

    /// The `Authorization` header for a request made now, with a fresh
    /// random nonce.
    pub fn build_auth_header(&self, method: &str, url: &str) -> (header: String)
        ensures
            exists|timestamp: int, nonce: u64|
                header@ == #[trigger] self@.header(method@, url@, timestamp, nonce),
    {
        let now = utc_now();
        let nonce = random_u64();
        self.build_auth_header_at(method, url, now.secs, nonce)
    }

    /// The signed GET request for `path`, as made at `timestamp` with `nonce`.
    pub fn api_get_at(&self, path: &str, timestamp: i64, nonce: u64) -> (request: HttpRequest)
        ensures
            request@ == self@.get_request(path@, timestamp as int, nonce),
    {
        let mut url = self.base_url.clone();
        url.append(path);
        let header = self.build_auth_header_at("GET", url.as_str(), timestamp, nonce);
        let mut headers: Vec<(String, String)> = Vec::new();
        headers.push(("Authorization".to_owned(), header));
        headers.push(("Accept".to_owned(), "application/json".to_owned()));
        assert(params_view(headers@) =~= self@.headers(
            "GET"@,
            url@,
            false,
            timestamp as int,
            nonce,
        ));
        HttpRequest {
            method: HttpMethod::Get,
            url,
            headers,
            body: None,
            timeout_ms: REQUEST_TIMEOUT_MS,
        }
    }

    /// The signed GET request for `path`, made now.
    pub fn api_get(&self, path: &str) -> (request: HttpRequest)
        ensures
            exists|timestamp: int, nonce: u64|
                request@ == #[trigger] self@.get_request(path@, timestamp, nonce),
    {
        let now = utc_now();
        let nonce = random_u64();
        self.api_get_at(path, now.secs, nonce)
    }

    /// The signed POST request for `path` with a JSON body, as made at
    /// `timestamp` with `nonce`.
    pub fn api_post_at(&self, path: &str, body: String, timestamp: i64, nonce: u64) -> (request:
        HttpRequest)
        ensures
            request@ == self@.post_request(path@, body@, timestamp as int, nonce),
    {
        let mut url = self.base_url.clone();
        url.append(path);
        let header = self.build_auth_header_at("POST", url.as_str(), timestamp, nonce);
        let mut headers: Vec<(String, String)> = Vec::new();
        headers.push(("Authorization".to_owned(), header));
        headers.push(("Accept".to_owned(), "application/json".to_owned()));
        headers.push(("Content-Type".to_owned(), "application/json".to_owned()));
        assert(params_view(headers@) =~= self@.headers(
            "POST"@,
            url@,
            true,
            timestamp as int,
            nonce,
        ));
        HttpRequest {
            method: HttpMethod::Post,
            url,
            headers,
            body: Some(body),
            timeout_ms: REQUEST_TIMEOUT_MS,
        }
    }

    /// The signed POST request for `path` with a JSON body, made now.
    pub fn api_post(&self, path: &str, body: String) -> (request: HttpRequest)
        ensures
            exists|timestamp: int, nonce: u64|
                request@ == #[trigger] self@.post_request(path@, body@, timestamp, nonce),
    {
        let now = utc_now();
        let nonce = random_u64();
        self.api_post_at(path, body, now.secs, nonce)
    }

    /// The summaries of the listed accounts, as of `now`. A failure of the
    /// list request itself is handed on; a failed balance or portfolio
    /// request only empties that part of its account.
    pub fn list_accounts(&self, fetched: &Result<Vec<FetchedAccount>, String>, now: Timestamp) -> (result:
        Result<Vec<AccountSummary>, String>)
        ensures
            match *fetched {
                Ok(list) => result is Ok && accounts_view(result->Ok_0@) == account_summaries(
                    list@,
                    self@.is_sandbox,
                    now,
                ),
                Err(message) => result is Err && result->Err_0@ == message@,
            },
    {
        match fetched {
            Ok(list) => {
                let mut accounts: Vec<AccountSummary> = Vec::new();
                let n = list.len();
                for i in 0..n
                    invariant
                        n == list@.len(),
                        accounts@.len() == i,
                        forall|j: int|
                            0 <= j < i ==> (#[trigger] accounts@[j])@ == account_summary(
                                list@[j],
                                self@.is_sandbox,
                                now,
                            ),
                {
                    let entry = &list[i];
                    let (balance, positions) = ETradeClient::get_account_details(
                        &entry.balance,
                        &entry.portfolio,
                    );
                    let name = match &entry.account.account_name {
                        Some(name) => name.clone(),
                        None => {
                            let mut name = "E*TRADE ".to_owned();
                            name.append(entry.account.account_id.as_str());
                            name
                        },
                    };
                    let mut extensions: Vec<(String, String)> = Vec::new();
                    extensions.push(
                        ("account_id_key".to_owned(), entry.account.account_id_key.clone()),
                    );
                    assert(params_view(extensions@) =~= seq![
                        ("account_id_key"@, entry.account.account_id_key@),
                    ]);
                    let summary = AccountSummary {
                        id: entry.account.account_id.clone(),
                        name,
                        broker_id: "broker-etrade".to_owned(),
                        is_paper: self.is_sandbox,
                        balance,
                        positions,
                        updated_at: now,
                        extensions: Some(extensions),
                    };
                    let ghost before = accounts@;
                    accounts.push(summary);
                    assert forall|j: int| 0 <= j < i + 1 implies (#[trigger] accounts@[j])@
                        == account_summary(list@[j], self@.is_sandbox, now) by {
                        if j < i {
                            assert(accounts@[j] == before[j]);
                        }
                    }
                }
                assert(accounts_view(accounts@) =~= account_summaries(
                    list@,
                    self@.is_sandbox,
                    now,
                ));
                Ok(accounts)
            },
            Err(message) => Err(message.clone()),
        }
    }

    /// The balance and the positions of an account, from what its two
    /// requests brought: zeros for a failed balance request, no positions
    /// for a failed portfolio request.
    pub fn get_account_details(
        balance: &Result<BalanceResponse, String>,
        portfolio: &Result<PortfolioResponse, String>,
    ) -> (details: (AccountBalance, Vec<Position>))
        ensures
            details.0@ == balance_of(*balance),
            positions_view(details.1@) == positions_or_none(*portfolio),
    {
        let balance = balance_from(balance);
        let positions = match ETradeClient::get_positions(portfolio) {
            Ok(positions) => positions,
            Err(_) => {
                let none: Vec<Position> = Vec::new();
                assert(positions_view(none@) =~= Seq::<PositionView>::empty());
                none
            },
        };
        (balance, positions)
    }

    /// The positions that a portfolio reply holds. A level that is absent
    /// from the reply means no positions; only a failed request is an error.
    pub fn get_positions(reply: &Result<PortfolioResponse, String>) -> (result: Result<
        Vec<Position>,
        String,
    >)
        ensures
            match *reply {
                Ok(response) => result is Ok && positions_view(result->Ok_0@) == positions_of(
                    response,
                ),
                Err(message) => result is Err && result->Err_0@ == message@,
            },
    {
        match reply {
            Ok(response) => Ok(positions_from(response)),
            Err(message) => Err(message.clone()),
        }
    }

    /// The body of the request that places `order` under `client_order_id`:
    /// one equity order, good for the day, in the regular session, for a
    /// number of shares.
    pub fn place_order_request(order: &OrderRequest, client_order_id: &str) -> (body:
        PlaceOrderRequest)
        ensures
            is_place_order_body(body, order@, client_order_id@),
    {
        let price_type = match order.order_type {
            OrderType::Market => "MARKET",
            OrderType::Limit => "LIMIT",
            OrderType::Stop => "STOP",
            OrderType::StopLimit => "STOP_LIMIT",
        };
        let order_action = match order.side {
            OrderSide::Buy => "BUY",
            OrderSide::Sell => "SELL",
        };
        let mut instrument: Vec<InstrumentInner> = Vec::new();
        instrument.push(
            InstrumentInner {
                product: ProductInner {
                    security_type: "EQ".to_owned(),
                    symbol: order.symbol_id.clone(),
                },
                order_action: order_action.to_owned(),
                quantity_type: "QUANTITY".to_owned(),
                quantity: order.quantity,
            },
        );
        let mut orders: Vec<OrderInner> = Vec::new();
        orders.push(
            OrderInner {
                all_or_none: false,
                price_type: price_type.to_owned(),
                order_term: "GOOD_FOR_DAY".to_owned(),
                market_session: "REGULAR".to_owned(),
                limit_price: order.limit_price,
                instrument,
            },
        );
        PlaceOrderRequest {
            request: PlaceOrderInner {
                order_type: "EQ".to_owned(),
                client_order_id: client_order_id.to_owned(),
                order: orders,
            },
        }
    }

    /// The record of `order`, placed under `client_order_id` at `now`, from
    /// the vendor's reply: submitted, nothing filled, under the vendor's
    /// order id where it assigned one and under the client order id
    /// otherwise. A failed request is handed on as its message.
    pub fn submit_order(
        order: &OrderRequest,
        client_order_id: &str,
        reply: &Result<PlaceOrderResponse, String>,
        now: Timestamp,
    ) -> (result: Result<Order, String>)
        ensures
            match *reply {
                Ok(response) => result is Ok && result->Ok_0@ == submitted_order(
                    order@,
                    client_order_id@,
                    response,
                    now,
                ),
                Err(message) => result is Err && result->Err_0@ == message@,
            },
    {
        match reply {
            Ok(response) => {
                let vendor_id = match &response.response.order_ids {
                    Some(ids) => if ids.len() > 0 {
                        Some(ids[0].order_id)
                    } else {
                        None
                    },
                    None => None,
                };
                let id = match vendor_id {
                    Some(id) => decimal(id as i128),
                    None => client_order_id.to_owned(),
                };
                let mut extensions: Vec<(String, String)> = Vec::new();
                extensions.push(("client_order_id".to_owned(), client_order_id.to_owned()));
                assert(params_view(extensions@) =~= seq![("client_order_id"@, client_order_id@)]);
                Ok(
                    Order {
                        id,
                        request: order.clone(),
                        status: OrderStatus::Submitted,
                        created_at: now,
                        updated_at: now,
                        filled_quantity: Amount::zero(),
                        average_filled_price: None,
                        extensions: Some(extensions),
                        persona_id: order.persona_id.clone(),
                    },
                )
            },
            Err(message) => Err(message.clone()),
        }
    }
}

} // verus!
