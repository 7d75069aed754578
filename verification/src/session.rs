//! The broker session: whether the adapter holds credentials, the entry
//! points that are gated on it, and the steps by which each operation
//! proceeds.
//!
//! An operation is a sequence of steps. Each step either names outside work
//! for the caller to do (send a request, encode a body) or ends the
//! operation with its result; the caller reports what the work brought to
//! the function that continues the operation. A request that failed, at the
//! transport or at decoding, is reported as `Err` with its message.

use crate::canonical::params_view;
use crate::clock::{utc_now, Timestamp};
use crate::etrade::{
    account_summaries, accounts_path_text, balance_path, balance_path_text, client_order_id_text,
    fresh_client_order_id, is_place_order_body, place_order_path, place_order_path_text, portfolio_path,
    portfolio_path_text, positions_or_none, submitted_order, ClientView, ETradeClient,
};
use crate::ledger::OrderLedger;
use crate::model::{
    accounts_view, positions_view, zero_balance, AccountBalance, AccountSummary,
    AccountSummaryView, Amount, Order, OrderRequest, OrderRequestView, OrderStatus, OrderView,
    Position, PositionView, SubmitOrderRequest,
};
use crate::text::{decimal, decimal_text, lemma_decimal_text_is_not_empty};
use crate::transport::HttpRequest;
use crate::vendor::{
    AccountListResponse, BalanceResponse, ETradeAccount, FetchedAccount, PlaceOrderRequest,
    PlaceOrderResponse, PortfolioResponse,
};
use vstd::prelude::*;
use vstd::string::*;

verus! {

/// Whether the session can operate.
#[derive(Clone, Copy, Debug, PartialEq, Eq, Structural)]
pub enum SessionState {
    /// No client: credentials are missing, and every operation answers with
    /// its error-shaped default.
    Uninitialized,
    /// A client with consumer credentials and a token pair.
    Authenticated,
}

/// The state of the adapter: the client, once credentials are complete, the
/// ledger of placed orders, and a count of them for diagnostics.
pub struct BrokerState {
    pub client: Option<ETradeClient>,
    pub orders: OrderLedger,
    pub next_order_id: u64,
}

/// The configuration handed to `initialize`. An entry that the configuration
/// lacks is `None`.
#[derive(Debug)]
pub struct PluginConfig {
    pub consumer_key: Option<String>,
    pub consumer_secret: Option<String>,
    pub oauth_token: Option<String>,
    pub oauth_token_secret: Option<String>,
    pub is_sandbox: Option<bool>,
}

/// What `initialize` reports back.
#[derive(Debug)]
pub struct InitReport {
    pub success: bool,
    pub message: String,
    pub requires_auth: bool,
    pub auth_url: Option<String>,
}

/// Where the user authorizes the adapter.
pub open spec fn authorize_url_text() -> Seq<char> {
    "https://us.etrade.com/e/t/etws/authorize"@
}

/// The error of an operation that found no client.
pub open spec fn accounts_unavailable_text() -> Seq<char> {
    "Plugin not initialized or OAuth not completed"@
}

/// The error of an order that found no client.
pub open spec fn order_unavailable_text() -> Seq<char> {
    "Plugin not initialized"@
}

impl PluginConfig {
    /// Consumer key and secret are there and not empty, and so is the whole
    /// token pair.
    pub open spec fn is_complete(&self) -> bool {
        &&& self.consumer_key matches Some(key) && key@.len() > 0
        &&& self.consumer_secret matches Some(secret) && secret@.len() > 0
        &&& self.oauth_token is Some
        &&& self.oauth_token_secret is Some
    }

    /// The environment asked for: the sandbox unless production is named.
    pub open spec fn sandbox(&self) -> bool {
        match self.is_sandbox {
            Some(sandbox) => sandbox,
            None => true,
        }
    }

    /// The client that a complete configuration makes.
    pub open spec fn client(&self) -> ClientView
        recommends
            self.is_complete(),
    {
        ClientView {
            consumer_key: self.consumer_key->Some_0@,
            consumer_secret: self.consumer_secret->Some_0@,
            oauth_token: self.oauth_token->Some_0@,
            oauth_token_secret: self.oauth_token_secret->Some_0@,
            base_url: crate::etrade::base_url_of(self.sandbox()),
            is_sandbox: self.sandbox(),
        }
    }
}

/// The message of a successful initialization.
pub open spec fn initialized_text(sandbox: bool) -> Seq<char> {
    if sandbox {
        "E*TRADE plugin initialized (sandbox)"@
    } else {
        "E*TRADE plugin initialized (production)"@
    }
}

/// The synthetic account that stands for a failed account listing.
pub open spec fn error_account(error: Seq<char>, now: Timestamp) -> AccountSummaryView {
    AccountSummaryView {
        id: "error"@,
        name: "Error: "@ + error,
        broker_id: "broker-etrade"@,
        is_paper: true,
        balance: zero_balance(),
        positions: Seq::empty(),
        updated_at: now,
        extensions: None,
    }
}

/// The rejected order that stands for a failed submission.
pub open spec fn error_order(order: OrderRequestView, error: Seq<char>, now: Timestamp) -> OrderView {
    OrderView {
        id: "error_"@ + decimal_text(now.millis()),
        request: order,
        status: OrderStatus::Rejected,
        created_at: now,
        updated_at: now,
        filled_quantity: Amount::zero_spec(),
        average_filled_price: None,
        extensions: Some(seq![("error"@, error)]),
        persona_id: order.persona_id,
    }
}

/// The order that stands for a failed submission is rejected, has an id,
/// nothing filled, and carries the error message.
pub proof fn lemma_error_order_is_rejected(order: OrderRequestView, error: Seq<char>, now: Timestamp)
    ensures
        error_order(order, error, now).status == OrderStatus::Rejected,
        error_order(order, error, now).id.len() > 0,
        error_order(order, error, now).filled_quantity == Amount::zero_spec(),
        error_order(order, error, now).extensions == Some(seq![("error"@, error)]),
        error_order(order, error, now).request == order,
{
    lemma_decimal_text_is_not_empty(now.millis());
}

/// `request` is the client's signed GET request for `path`, made at some
/// time with some nonce.
pub open spec fn is_get_for(request: HttpRequest, client: ClientView, path: Seq<char>) -> bool {
    exists|timestamp: int, nonce: u64|
        request@ == #[trigger] client.get_request(path, timestamp, nonce)
}

/// `request` is the client's signed POST request for `path` with `body`,
/// made at some time with some nonce.
pub open spec fn is_post_for(
    request: HttpRequest,
    client: ClientView,
    path: Seq<char>,
    body: Seq<char>,
) -> bool {
    exists|timestamp: int, nonce: u64|
        request@ == #[trigger] client.post_request(path, body, timestamp, nonce)
}

/// `accounts` is the one synthetic account for `error`, made at some time.
pub open spec fn is_error_listing(accounts: Seq<AccountSummary>, error: Seq<char>) -> bool {
    exists|now: Timestamp| accounts_view(accounts) == seq![#[trigger] error_account(error, now)]
}

/// `accounts` are the summaries of `fetched`, made at some time.
pub open spec fn is_listing_of(
    accounts: Seq<AccountSummary>,
    fetched: Seq<FetchedAccount>,
    is_paper: bool,
) -> bool {
    exists|now: Timestamp|
        accounts_view(accounts) == #[trigger] account_summaries(fetched, is_paper, now)
}

/// `order` is the rejected order for `request` and `error`, made at some time.
pub open spec fn is_error_order(order: Order, request: OrderRequestView, error: Seq<char>) -> bool {
    exists|now: Timestamp| order@ == #[trigger] error_order(request, error, now)
}

/// What a listing has fetched once the first `done` of the listed accounts
/// are through, given what the balance and portfolio requests of each bring.
pub open spec fn fetched_prefix(
    listed: Seq<ETradeAccount>,
    balances: Seq<Result<BalanceResponse, String>>,
    portfolios: Seq<Result<PortfolioResponse, String>>,
    done: int,
) -> Seq<FetchedAccount> {
    Seq::new(
        done as nat,
        |i: int|
            FetchedAccount { account: listed[i], balance: balances[i], portfolio: portfolios[i] },
    )
}

/// The listing of `listed` is through with the first `done` accounts: the
/// others are pending, in order.
pub open spec fn is_progress_at(
    progress: AccountsProgress,
    listed: Seq<ETradeAccount>,
    balances: Seq<Result<BalanceResponse, String>>,
    portfolios: Seq<Result<PortfolioResponse, String>>,
    done: int,
) -> bool {
    &&& 0 <= done <= listed.len()
    &&& progress.pending@ == listed.skip(done)
    &&& progress.fetched@ == fetched_prefix(listed, balances, portfolios, done)
}

/// A listing goes through the listed accounts in order. It starts with all
/// of them pending; each account that is reported moves it on by one; and
/// the report of the last account leaves every listed account fetched, each
/// with its own replies.
pub proof fn lemma_listing_goes_through_the_accounts(
    progress: AccountsProgress,
    next: AccountsProgress,
    listed: Seq<ETradeAccount>,
    balances: Seq<Result<BalanceResponse, String>>,
    portfolios: Seq<Result<PortfolioResponse, String>>,
    done: int,
)
    requires
        is_progress_at(progress, listed, balances, portfolios, done),
        done < listed.len(),
        next.pending@ == progress.pending@.drop_first(),
        next.fetched@ == progress.fetched@.push(
            FetchedAccount {
                account: progress.pending@[0],
                balance: balances[done],
                portfolio: portfolios[done],
            },
        ),
    ensures
        is_progress_at(next, listed, balances, portfolios, done + 1),
        progress.pending@.len() == 1 <==> done + 1 == listed.len(),
        done + 1 == listed.len() ==> next.pending@.len() == 0 && next.fetched@.len()
            == listed.len(),
        forall|first: AccountsProgress|
            first.pending@ == listed && first.fetched@.len() == 0 ==> is_progress_at(
                first,
                listed,
                balances,
                portfolios,
                0,
            ),
{
    assert(listed.skip(done).drop_first() =~= listed.skip(done + 1));
    assert(next.fetched@ =~= fetched_prefix(listed, balances, portfolios, done + 1));
    assert forall|first: AccountsProgress|
        first.pending@ == listed && first.fetched@.len() == 0 implies is_progress_at(
        first,
        listed,
        balances,
        portfolios,
        0,
    ) by {
        assert(listed.skip(0) =~= listed);
        assert(first.fetched@ =~= fetched_prefix(listed, balances, portfolios, 0));
    }
}

/// The accounts that are still to be fetched, the first of them being the
/// one in work, and what was fetched for those before them.
#[derive(Debug)]
pub struct AccountsProgress {
    pub pending: Vec<ETradeAccount>,
    pub fetched: Vec<FetchedAccount>,
}

/// A step of the account listing.
#[derive(Debug)]
pub enum AccountsStep {
    /// Send the request; report the decoded account list to `accounts_listed`.
    FetchList(HttpRequest),
    /// Send the request; report the decoded balance to `balance_fetched`.
    FetchBalance(HttpRequest, AccountsProgress),
    /// Send the request; report the decoded portfolio, with the balance
    /// reply held here, to `portfolio_fetched`.
    FetchPortfolio(HttpRequest, AccountsProgress, Result<BalanceResponse, String>),
    /// The listing is complete.
    Done(Vec<AccountSummary>),
}

/// A step of a position query.
#[derive(Debug)]
pub enum PositionsStep {
    /// Send the request; hand the decoded portfolio to `positions_fetched`.
    Fetch(HttpRequest),
    /// The query is complete.
    Done(Vec<Position>),
}

/// An order on its way to the vendor.
#[derive(Debug)]
pub struct OrderProgress {
    pub account_id: String,
    pub order: OrderRequest,
    pub client_order_id: String,
}

/// A step of an order submission.
#[derive(Debug)]
pub enum OrderStep {
    /// Encode the body as JSON; report the text to `order_encoded`.
    Encode(PlaceOrderRequest, OrderProgress),
    /// Send the request; report the decoded reply to `order_placed`.
    Send(HttpRequest, OrderProgress),
    /// The submission is complete.
    Done(Order),
}

/// The synthetic account that stands for a failed account listing.
pub fn create_error_account(error: &str, now: Timestamp) -> (account: AccountSummary)
    ensures
        account@ == error_account(error@, now),
{
    let mut name = "Error: ".to_owned();
    name.append(error);
    let positions: Vec<Position> = Vec::new();
    assert(positions_view(positions@) =~= Seq::<PositionView>::empty());
    AccountSummary {
        id: "error".to_owned(),
        name,
        broker_id: "broker-etrade".to_owned(),
        is_paper: true,
        balance: AccountBalance::zero(),
        positions,
        updated_at: now,
        extensions: None,
    }
}

/// The rejected order that stands for a failed submission of `order`.
pub fn create_error_order(order: &OrderRequest, error: &str, now: Timestamp) -> (rejected: Order)
    ensures
        rejected@ == error_order(order@, error@, now),
{
    let mut id = "error_".to_owned();
    id.append(decimal(now.timestamp_millis()).as_str());
    let mut extensions: Vec<(String, String)> = Vec::new();
    extensions.push(("error".to_owned(), error.to_owned()));
    assert(params_view(extensions@) =~= seq![("error"@, error@)]);
    Order {
        id,
        request: order.clone(),
        status: OrderStatus::Rejected,
        created_at: now,
        updated_at: now,
        filled_quantity: Amount::zero(),
        average_filled_price: None,
        extensions: Some(extensions),
        persona_id: order.persona_id.clone(),
    }
}

fn error_listing(error: &str) -> (accounts: Vec<AccountSummary>)
    ensures
        is_error_listing(accounts@, error@),
{
    let now = utc_now();
    let mut accounts: Vec<AccountSummary> = Vec::new();
    accounts.push(create_error_account(error, now));
    assert(accounts_view(accounts@) =~= seq![error_account(error@, now)]);
    accounts
}

fn rejected(order: &OrderRequest, error: &str) -> (rejected: Order)
    ensures
        is_error_order(rejected, order@, error@),
{
    let now = utc_now();
    let rejected = create_error_order(order, error, now);
    assert(rejected@ == error_order(order@, error@, now));
    rejected
}

fn finished_listing(client: &ETradeClient, fetched: Vec<FetchedAccount>) -> (accounts: Vec<
    AccountSummary,
>)
    ensures
        is_listing_of(accounts@, fetched@, client@.is_sandbox),
{
    let now = utc_now();
    let ghost list = fetched@;
    let all: Result<Vec<FetchedAccount>, String> = Ok(fetched);
    let accounts = client.list_accounts(&all, now).unwrap();
    assert(accounts_view(accounts@) == account_summaries(list, client@.is_sandbox, now));
    accounts
}

impl BrokerState {
    /// Whether the session holds a client.
    pub open spec fn session(&self) -> SessionState {
        if self.client is Some {
            SessionState::Authenticated
        } else {
            SessionState::Uninitialized
        }
    }

    /// A session without credentials and without orders.
    pub fn new() -> (state: BrokerState)
        ensures
            state.session() == SessionState::Uninitialized,
            state.orders@ == Map::<Seq<char>, OrderView>::empty(),
            state.next_order_id == 1,
    {
        BrokerState { client: None, orders: OrderLedger::new(), next_order_id: 1 }
    }

    /// Whether the session holds a client.
    pub fn session_state(&self) -> (session: SessionState)
        ensures
            session == self.session(),
    {
        match self.client {
            Some(_) => SessionState::Authenticated,
            None => SessionState::Uninitialized,
        }
    }
}

/// Configures the session. With consumer key, consumer secret and the token
/// pair all there, the session gets a client for the environment asked for
/// and is authenticated from then on. Otherwise the session is left as it
/// was, and the report asks for interactive authorization at the vendor's
/// URL. The call itself succeeds either way.
pub fn initialize(state: &mut BrokerState, config: PluginConfig) -> (report: InitReport)
    ensures
        report.success,
        final(state).orders == old(state).orders,
        final(state).next_order_id == old(state).next_order_id,
        config.is_complete() ==> {
            &&& final(state).client matches Some(client) && client@ == config.client()
            &&& report.message@ == initialized_text(config.sandbox())
            &&& !report.requires_auth
            &&& report.auth_url is None
        },
        !config.is_complete() ==> {
            &&& final(state).client == old(state).client
            &&& report.message@ == "E*TRADE plugin initialized. OAuth authorization required."@
            &&& report.requires_auth
            &&& report.auth_url matches Some(url) && url@ == authorize_url_text()
        },
{
    let is_sandbox = match config.is_sandbox {
        Some(sandbox) => sandbox,
        None => true,
    };
    let PluginConfig { consumer_key, consumer_secret, oauth_token, oauth_token_secret, is_sandbox: _ } =
        config;
    match (consumer_key, consumer_secret, oauth_token, oauth_token_secret) {
        (Some(key), Some(secret), Some(token), Some(token_secret)) => {
            if !key.as_str().is_empty() && !secret.as_str().is_empty() {
                state.client = Some(ETradeClient::new(key, secret, token, token_secret, is_sandbox));
                let message = if is_sandbox {
                    "E*TRADE plugin initialized (sandbox)".to_owned()
                } else {
                    "E*TRADE plugin initialized (production)".to_owned()
                };
                return InitReport { success: true, message, requires_auth: false, auth_url: None };
            }
        },
        _ => {},
    }
    InitReport {
        success: true,
        message: "E*TRADE plugin initialized. OAuth authorization required.".to_owned(),
        requires_auth: true,
        auth_url: Some("https://us.etrade.com/e/t/etws/authorize".to_owned()),
    }
}

/// Starts an account listing. Without a client it ends at once, with the
/// one synthetic error account; with one it asks for the account list.
pub fn get_accounts(state: &BrokerState) -> (step: AccountsStep)
    ensures
        match state.client {
            None => step matches AccountsStep::Done(accounts) && is_error_listing(
                accounts@,
                accounts_unavailable_text(),
            ),
            Some(client) => step matches AccountsStep::FetchList(request) && is_get_for(
                request,
                client@,
                accounts_path_text(),
            ),
        },
{
    match &state.client {
        None => AccountsStep::Done(error_listing("Plugin not initialized or OAuth not completed")),
        Some(client) => AccountsStep::FetchList(client.api_get("/v1/accounts/list")),
    }
}

fn next_account(client: &ETradeClient, progress: AccountsProgress) -> (step: AccountsStep)
    ensures
        progress.pending@.len() == 0 ==> (step matches AccountsStep::Done(accounts)
            && is_listing_of(accounts@, progress.fetched@, client@.is_sandbox)),
        progress.pending@.len() > 0 ==> (step matches AccountsStep::FetchBalance(request, next)
            && next == progress && is_get_for(
            request,
            client@,
            balance_path_text(progress.pending@[0].account_id_key@),
        )),
{
    if progress.pending.len() == 0 {
        AccountsStep::Done(finished_listing(client, progress.fetched))
    } else {
        let path = balance_path(progress.pending[0].account_id_key.as_str());
        let request = client.api_get(path.as_str());
        AccountsStep::FetchBalance(request, progress)
    }
}

/// Continues an account listing with what the list request brought. A
/// failed request ends the listing with the synthetic error account for its
/// message; an empty list ends it with no accounts; otherwise the balance of
/// the first account is asked for.
pub fn accounts_listed(state: &BrokerState, reply: Result<AccountListResponse, String>) -> (step:
    AccountsStep)
    ensures
        match (state.client, reply) {
            (None, _) => step matches AccountsStep::Done(accounts) && is_error_listing(
                accounts@,
                accounts_unavailable_text(),
            ),
            (Some(_), Err(message)) => step matches AccountsStep::Done(accounts)
                && is_error_listing(accounts@, message@),
            (Some(client), Ok(list)) => {
                let listed = list.response.accounts.account;
                if listed@.len() == 0 {
                    step matches AccountsStep::Done(accounts) && accounts@.len() == 0
                } else {
                    step matches AccountsStep::FetchBalance(request, progress) && progress.pending
                        == listed && progress.fetched@.len() == 0 && is_get_for(
                        request,
                        client@,
                        balance_path_text(listed@[0].account_id_key@),
                    )
                }
            },
        },
{
    match &state.client {
        None => AccountsStep::Done(error_listing("Plugin not initialized or OAuth not completed")),
        Some(client) => match reply {
            Err(message) => AccountsStep::Done(error_listing(message.as_str())),
            Ok(list) => {
                let progress = AccountsProgress {
                    pending: list.response.accounts.account,
                    fetched: Vec::new(),
                };
                let step = next_account(client, progress);
                proof {
                    if step is Done {
                        let accounts = step->Done_0;
                        let now = choose|now: Timestamp|
                            accounts_view(accounts@) == #[trigger] account_summaries(
                                progress.fetched@,
                                client@.is_sandbox,
                                now,
                            );
                        assert(accounts_view(accounts@).len() == 0);
                    }
                }
                step
            },
        },
    }
}

/// Continues an account listing with what the balance request of the
/// account in work brought, failed or not: its portfolio is asked for next.
pub fn balance_fetched(
    state: &BrokerState,
    progress: AccountsProgress,
    reply: Result<BalanceResponse, String>,
) -> (step: AccountsStep)
    ensures
        match state.client {
            None => step matches AccountsStep::Done(accounts) && is_error_listing(
                accounts@,
                accounts_unavailable_text(),
            ),
            Some(client) => if progress.pending@.len() == 0 {
                step matches AccountsStep::Done(accounts) && is_listing_of(
                    accounts@,
                    progress.fetched@,
                    client@.is_sandbox,
                )
            } else {
                step matches AccountsStep::FetchPortfolio(request, next, balance) && next
                    == progress && balance == reply && is_get_for(
                    request,
                    client@,
                    portfolio_path_text(progress.pending@[0].account_id_key@),
                )
            },
        },
{
    match &state.client {
        None => AccountsStep::Done(error_listing("Plugin not initialized or OAuth not completed")),
        Some(client) => {
            if progress.pending.len() == 0 {
                AccountsStep::Done(finished_listing(client, progress.fetched))
            } else {
                let path = portfolio_path(progress.pending[0].account_id_key.as_str());
                let request = client.api_get(path.as_str());
                AccountsStep::FetchPortfolio(request, progress, reply)
            }
        },
    }
}

/// Continues an account listing with what the portfolio request of the
/// account in work brought, failed or not. The account is then fetched: the
/// balance of the next account is asked for, or, after the last account,
/// the listing ends with the summaries of all of them.
pub fn portfolio_fetched(
    state: &BrokerState,
    progress: AccountsProgress,
    balance: Result<BalanceResponse, String>,
    reply: Result<PortfolioResponse, String>,
) -> (step: AccountsStep)
    ensures
        match state.client {
            None => step matches AccountsStep::Done(accounts) && is_error_listing(
                accounts@,
                accounts_unavailable_text(),
            ),
            Some(client) => if progress.pending@.len() == 0 {
                step matches AccountsStep::Done(accounts) && is_listing_of(
                    accounts@,
                    progress.fetched@,
                    client@.is_sandbox,
                )
            } else {
                let fetched = progress.fetched@.push(
                    FetchedAccount {
                        account: progress.pending@[0],
                        balance: balance,
                        portfolio: reply,
                    },
                );
                if progress.pending@.len() == 1 {
                    step matches AccountsStep::Done(accounts) && is_listing_of(
                        accounts@,
                        fetched,
                        client@.is_sandbox,
                    )
                } else {
                    step matches AccountsStep::FetchBalance(request, next) && next.pending@
                        == progress.pending@.drop_first() && next.fetched@ == fetched
                        && is_get_for(
                        request,
                        client@,
                        balance_path_text(progress.pending@[1].account_id_key@),
                    )
                }
            },
        },
{
    match &state.client {
        None => AccountsStep::Done(error_listing("Plugin not initialized or OAuth not completed")),
        Some(client) => {
            let AccountsProgress { mut pending, mut fetched } = progress;
            if pending.len() == 0 {
                AccountsStep::Done(finished_listing(client, fetched))
            } else {
                let account = pending.remove(0);
                fetched.push(FetchedAccount { account, balance, portfolio: reply });
                assert(pending@ =~= progress.pending@.drop_first());
                next_account(client, AccountsProgress { pending, fetched })
            }
        },
    }
}

/// Starts a position query for an account. Without a client it ends at
/// once, with no positions; with one it asks for the account's portfolio.
pub fn get_positions(state: &BrokerState, account_id: &str) -> (step: PositionsStep)
    ensures
        match state.client {
            None => step matches PositionsStep::Done(positions) && positions@.len() == 0,
            Some(client) => step matches PositionsStep::Fetch(request) && is_get_for(
                request,
                client@,
                portfolio_path_text(account_id@),
            ),
        },
{
    match &state.client {
        None => PositionsStep::Done(Vec::new()),
        Some(client) => {
            let path = portfolio_path(account_id);
            PositionsStep::Fetch(client.api_get(path.as_str()))
        },
    }
}

/// Ends a position query with what the portfolio request brought: the
/// positions of the reply, or none where the request failed.
pub fn positions_fetched(reply: Result<PortfolioResponse, String>) -> (positions: Vec<Position>)
    ensures
        positions_view(positions@) == positions_or_none(reply),
{
    match ETradeClient::get_positions(&reply) {
        Ok(positions) => positions,
        Err(_) => {
            let none: Vec<Position> = Vec::new();
            assert(positions_view(none@) =~= Seq::<PositionView>::empty());
            none
        },
    }
}

/// Starts an order submission. Without a client it ends at once, with a
/// rejected order; with one it makes a fresh client order id and asks for
/// the request body to be encoded.
pub fn submit_order(state: &BrokerState, request: &SubmitOrderRequest) -> (step: OrderStep)
    ensures
        match state.client {
            None => step matches OrderStep::Done(order) && is_error_order(
                order,
                request.order@,
                order_unavailable_text(),
            ),
            Some(_) => step matches OrderStep::Encode(body, progress) && {
                &&& progress.account_id@ == request.account_id@
                &&& progress.order@ == request.order@
                &&& exists|nonce: u64|
                    progress.client_order_id@ == #[trigger] client_order_id_text(nonce)
                &&& is_place_order_body(body, request.order@, progress.client_order_id@)
            },
        },
{
    match &state.client {
        None => OrderStep::Done(rejected(&request.order, "Plugin not initialized")),
        Some(_) => {
            let client_order_id = fresh_client_order_id();
            let body = ETradeClient::place_order_request(&request.order, client_order_id.as_str());
            OrderStep::Encode(
                body,
                OrderProgress {
                    account_id: request.account_id.clone(),
                    order: request.order.clone(),
                    client_order_id,
                },
            )
        },
    }
}

/// Continues an order submission with the encoded body. A body that could
/// not be encoded ends the submission with a rejected order for the
/// encoder's message; otherwise the order is sent to the account's order
/// placement endpoint.
pub fn order_encoded(state: &BrokerState, progress: OrderProgress, encoded: Result<String, String>) -> (step:
    OrderStep)
    ensures
        match (state.client, encoded) {
            (None, _) => step matches OrderStep::Done(order) && is_error_order(
                order,
                progress.order@,
                order_unavailable_text(),
            ),
            (Some(_), Err(message)) => step matches OrderStep::Done(order) && is_error_order(
                order,
                progress.order@,
                message@,
            ),
            (Some(client), Ok(body)) => step matches OrderStep::Send(request, next) && next
                == progress && is_post_for(
                request,
                client@,
                place_order_path_text(progress.account_id@),
                body@,
            ),
        },
{
    match &state.client {
        None => OrderStep::Done(rejected(&progress.order, "Plugin not initialized")),
        Some(client) => match encoded {
            Err(message) => OrderStep::Done(rejected(&progress.order, message.as_str())),
            Ok(body) => {
                let path = place_order_path(progress.account_id.as_str());
                let request = client.api_post(path.as_str(), body);
                OrderStep::Send(request, progress)
            },
        },
    }
}

/// The count of placed orders after one more.
pub open spec fn next_count(count: u64) -> u64 {
    if count < u64::MAX {
        (count + 1) as u64
    } else {
        count
    }
}

/// Ends an order submission with what the placement request brought. An
/// accepted order is recorded in the ledger under its id and counted; a
/// failed request leaves the session as it was and gives a rejected order
/// for its message.
pub fn order_placed(
    state: &mut BrokerState,
    progress: OrderProgress,
    reply: Result<PlaceOrderResponse, String>,
) -> (order: Order)
    ensures
        final(state).client == old(state).client,
        match reply {
            Ok(response) => {
                &&& exists|now: Timestamp|
                    order@ == #[trigger] submitted_order(
                        progress.order@,
                        progress.client_order_id@,
                        response,
                        now,
                    )
                &&& final(state).orders@ == old(state).orders@.insert(order.id@, order@)
                &&& final(state).next_order_id == next_count(old(state).next_order_id)
            },
            Err(message) => {
                &&& is_error_order(order, progress.order@, message@)
                &&& final(state).orders == old(state).orders
                &&& final(state).next_order_id == old(state).next_order_id
            },
        },
{
    let now = utc_now();
    match ETradeClient::submit_order(
        &progress.order,
        progress.client_order_id.as_str(),
        &reply,
        now,
    ) {
        Ok(order) => {
            assert(order@ == submitted_order(
                progress.order@,
                progress.client_order_id@,
                reply->Ok_0,
                now,
            ));
            state.orders.insert(order.clone());
            if state.next_order_id < u64::MAX {
                state.next_order_id = state.next_order_id + 1;
            }
            order
        },
        Err(message) => rejected(&progress.order, message.as_str()),
    }
}

} // verus!
