use broker_etrade::clock::Timestamp;
use broker_etrade::ledger::{same_text, OrderLedger};
use broker_etrade::model::{
    Amount, Order, OrderRequest, OrderSide, OrderStatus, OrderType, SubmitOrderRequest,
};
use broker_etrade::session::{
    accounts_listed, balance_fetched, create_error_account, create_error_order, get_accounts,
    get_positions, initialize, order_encoded, order_placed, portfolio_fetched, positions_fetched,
    submit_order, AccountsProgress, AccountsStep, BrokerState, OrderProgress, OrderStep,
    PluginConfig, PositionsStep, SessionState,
};
use broker_etrade::transport::HttpMethod;
use broker_etrade::vendor::{
    AccountListInner, AccountListResponse, AccountPortfolio, AccountsWrapper, BalanceInner,
    BalanceResponse, ComputedBalance, ETradeAccount, ETradePosition, OrderIdInfo,
    PlaceOrderResponse, PlaceOrderResult, PortfolioInner, PortfolioResponse, ProductInfo,
    RealTimeValues,
};

fn amount(value: f64) -> Amount {
    Amount { bits: value.to_bits() }
}

fn number(amount: Amount) -> f64 {
    f64::from_bits(amount.bits)
}

fn config(
    key: Option<&str>,
    secret: Option<&str>,
    token: Option<&str>,
    token_secret: Option<&str>,
    sandbox: Option<bool>,
) -> PluginConfig {
    PluginConfig {
        consumer_key: key.map(|s| s.to_string()),
        consumer_secret: secret.map(|s| s.to_string()),
        oauth_token: token.map(|s| s.to_string()),
        oauth_token_secret: token_secret.map(|s| s.to_string()),
        is_sandbox: sandbox,
    }
}

fn authenticated(sandbox: Option<bool>) -> BrokerState {
    let mut state = BrokerState::new();
    initialize(&mut state, config(Some("ck"), Some("cs"), Some("tok"), Some("ts"), sandbox));
    state
}

fn request(symbol: &str) -> SubmitOrderRequest {
    SubmitOrderRequest {
        account_id: "ACC1".to_string(),
        order: OrderRequest {
            symbol_id: symbol.to_string(),
            side: OrderSide::Buy,
            order_type: OrderType::Market,
            quantity: amount(10.0),
            limit_price: None,
            persona_id: "persona-1".to_string(),
        },
    }
}

fn account_list(ids: &[(&str, &str)]) -> AccountListResponse {
    AccountListResponse {
        response: AccountListInner {
            accounts: AccountsWrapper {
                account: ids
                    .iter()
                    .map(|(id, key)| ETradeAccount {
                        account_id: id.to_string(),
                        account_id_key: key.to_string(),
                        account_name: None,
                    })
                    .collect(),
            },
        },
    }
}

fn balance(total: f64) -> BalanceResponse {
    BalanceResponse {
        response: BalanceInner {
            computed: Some(ComputedBalance {
                real_time: Some(RealTimeValues {
                    total_account_value: Some(amount(total)),
                    net_mv: None,
                    total_long_value: None,
                }),
            }),
        },
    }
}

fn holdings(symbols: &[&str]) -> PortfolioResponse {
    PortfolioResponse {
        response: Some(PortfolioInner {
            account_portfolio: Some(vec![AccountPortfolio {
                position: Some(
                    symbols
                        .iter()
                        .map(|s| ETradePosition {
                            product: ProductInfo { symbol: s.to_string() },
                            quantity: Some(amount(1.0)),
                            cost_per_share: None,
                            market_value: None,
                            total_gain: None,
                            total_gain_pct: None,
                            quick: None,
                        })
                        .collect(),
                ),
            }]),
        }),
    }
}

fn placed(id: i64) -> Result<PlaceOrderResponse, String> {
    Ok(PlaceOrderResponse {
        response: PlaceOrderResult { order_ids: Some(vec![OrderIdInfo { order_id: id }]) },
    })
}

fn progress_for(request: &SubmitOrderRequest, client_order_id: &str) -> OrderProgress {
    OrderProgress {
        account_id: request.account_id.clone(),
        order: request.order.clone(),
        client_order_id: client_order_id.to_string(),
    }
}

fn order_with_id(id: &str, symbol: &str) -> Order {
    let mut order = create_error_order(&request(symbol).order, "e", Timestamp { secs: 0, nanos: 0 });
    order.id = id.to_string();
    order
}

#[test]
fn new_session_is_uninitialized() {
    let state = BrokerState::new();
    assert_eq!(state.session_state(), SessionState::Uninitialized);
    assert!(state.client.is_none());
    assert_eq!(state.next_order_id, 1);
    assert!(state.orders.get("anything").is_none());
}

#[test]
fn complete_configuration_authenticates() {
    let mut state = BrokerState::new();
    let report = initialize(
        &mut state,
        config(Some("ck"), Some("cs"), Some("tok"), Some("ts"), Some(false)),
    );
    assert!(report.success);
    assert_eq!(report.message, "E*TRADE plugin initialized (production)");
    assert!(!report.requires_auth);
    assert_eq!(report.auth_url, None);
    assert_eq!(state.session_state(), SessionState::Authenticated);
    assert!(!state.client.as_ref().unwrap().is_sandbox());
}

#[test]
fn sandbox_is_the_default_environment() {
    let mut state = BrokerState::new();
    let report =
        initialize(&mut state, config(Some("ck"), Some("cs"), Some("tok"), Some("ts"), None));
    assert_eq!(report.message, "E*TRADE plugin initialized (sandbox)");
    assert!(state.client.as_ref().unwrap().is_sandbox());
    let explicit = authenticated(Some(true));
    assert!(explicit.client.as_ref().unwrap().is_sandbox());
}

#[test]
fn empty_tokens_count_as_present() {
    let mut state = BrokerState::new();
    let report = initialize(&mut state, config(Some("ck"), Some("cs"), Some(""), Some(""), None));
    assert!(!report.requires_auth);
    assert_eq!(state.session_state(), SessionState::Authenticated);
}

#[test]
fn incomplete_configuration_asks_for_authorization() {
    let incomplete = [
        config(Some("ck"), Some("cs"), None, None, None),
        config(Some("ck"), Some("cs"), Some("tok"), None, Some(false)),
        config(Some("ck"), Some("cs"), None, Some("ts"), None),
        config(None, Some("cs"), Some("tok"), Some("ts"), None),
        config(Some("ck"), None, Some("tok"), Some("ts"), None),
        config(Some(""), Some("cs"), Some("tok"), Some("ts"), None),
        config(Some("ck"), Some(""), Some("tok"), Some("ts"), None),
        config(None, None, None, None, None),
    ];
    for config in incomplete {
        let mut state = BrokerState::new();
        let report = initialize(&mut state, config);
        assert!(report.success);
        assert!(report.requires_auth);
        assert_eq!(report.message, "E*TRADE plugin initialized. OAuth authorization required.");
        assert_eq!(report.auth_url.as_deref(), Some("https://us.etrade.com/e/t/etws/authorize"));
        assert_eq!(state.session_state(), SessionState::Uninitialized);
    }
}

#[test]
fn incomplete_configuration_leaves_the_session_as_it_was() {
    let mut state = authenticated(Some(false));
    let report = initialize(&mut state, config(Some("ck"), Some("cs"), None, None, Some(true)));
    assert!(report.requires_auth);
    assert_eq!(state.session_state(), SessionState::Authenticated);
    assert!(!state.client.as_ref().unwrap().is_sandbox());
}

#[test]
fn error_account_shape() {
    let now = Timestamp { secs: 5, nanos: 6 };
    let account = create_error_account("API error 500: down", now);
    assert_eq!(account.id, "error");
    assert_eq!(account.name, "Error: API error 500: down");
    assert_eq!(account.broker_id, "broker-etrade");
    assert!(account.is_paper);
    assert_eq!(account.balance.currency, "USD");
    assert_eq!(number(account.balance.total_equity), 0.0);
    assert_eq!(number(account.balance.available_cash), 0.0);
    assert_eq!(number(account.balance.buying_power), 0.0);
    assert_eq!(number(account.balance.locked_cash), 0.0);
    assert!(account.positions.is_empty());
    assert_eq!(account.updated_at, now);
    assert_eq!(account.extensions, None);
}

#[test]
fn error_order_shape() {
    let now = Timestamp { secs: 1_700_000_000, nanos: 123_456_789 };
    let order = create_error_order(&request("AAPL").order, "boom", now);
    assert_eq!(order.id, "error_1700000000123");
    assert_eq!(order.status, OrderStatus::Rejected);
    assert_eq!(order.created_at, now);
    assert_eq!(order.updated_at, now);
    assert_eq!(number(order.filled_quantity), 0.0);
    assert_eq!(order.average_filled_price, None);
    assert_eq!(order.extensions, Some(vec![("error".to_string(), "boom".to_string())]));
    assert_eq!(order.persona_id, "persona-1");
    assert_eq!(order.request.symbol_id, "AAPL");
    let early = create_error_order(&request("AAPL").order, "", Timestamp { secs: -2, nanos: 0 });
    assert_eq!(early.id, "error_-2000");
}

#[test]
fn accounts_without_a_client_are_one_error_account() {
    let state = BrokerState::new();
    match get_accounts(&state) {
        AccountsStep::Done(accounts) => {
            assert_eq!(accounts.len(), 1);
            assert_eq!(accounts[0].id, "error");
            assert_eq!(accounts[0].name, "Error: Plugin not initialized or OAuth not completed");
        }
        other => panic!("unexpected step {:?}", other),
    }
    match accounts_listed(&state, Ok(account_list(&[("1", "K1")]))) {
        AccountsStep::Done(accounts) => assert_eq!(accounts[0].id, "error"),
        other => panic!("unexpected step {:?}", other),
    }
    let progress = AccountsProgress { pending: account_list(&[("1", "K1")]).response.accounts.account, fetched: vec![] };
    match balance_fetched(&state, progress, Ok(balance(1.0))) {
        AccountsStep::Done(accounts) => assert_eq!(accounts[0].id, "error"),
        other => panic!("unexpected step {:?}", other),
    }
    let progress = AccountsProgress { pending: account_list(&[("1", "K1")]).response.accounts.account, fetched: vec![] };
    match portfolio_fetched(&state, progress, Ok(balance(1.0)), Ok(holdings(&[]))) {
        AccountsStep::Done(accounts) => assert_eq!(accounts[0].id, "error"),
        other => panic!("unexpected step {:?}", other),
    }
}

#[test]
fn failed_account_list_is_one_error_account() {
    let state = authenticated(None);
    match accounts_listed(&state, Err("API error 401: unauthorized".to_string())) {
        AccountsStep::Done(accounts) => {
            assert_eq!(accounts.len(), 1);
            assert_eq!(accounts[0].id, "error");
            assert_eq!(accounts[0].name, "Error: API error 401: unauthorized");
        }
        other => panic!("unexpected step {:?}", other),
    }
}

#[test]
fn empty_account_list_ends_the_listing() {
    let state = authenticated(None);
    match accounts_listed(&state, Ok(account_list(&[]))) {
        AccountsStep::Done(accounts) => assert!(accounts.is_empty()),
        other => panic!("unexpected step {:?}", other),
    }
}

#[test]
fn account_listing_runs_account_by_account() {
    let state = authenticated(Some(true));
    let request = match get_accounts(&state) {
        AccountsStep::FetchList(request) => request,
        other => panic!("unexpected step {:?}", other),
    };
    assert_eq!(request.method, HttpMethod::Get);
    assert_eq!(request.url, "https://apisb.etrade.com/v1/accounts/list");
    assert_eq!(request.headers[0].0, "Authorization");

    let listed = account_list(&[("1001", "KEY1"), ("1002", "KEY2")]);
    let (request, progress) = match accounts_listed(&state, Ok(listed)) {
        AccountsStep::FetchBalance(request, progress) => (request, progress),
        other => panic!("unexpected step {:?}", other),
    };
    assert_eq!(
        request.url,
        "https://apisb.etrade.com/v1/accounts/KEY1/balance?instType=BROKERAGE&realTimeNAV=true"
    );
    assert_eq!(progress.pending.len(), 2);
    assert!(progress.fetched.is_empty());

    let (request, progress, held) = match balance_fetched(&state, progress, Ok(balance(100.0))) {
        AccountsStep::FetchPortfolio(request, progress, held) => (request, progress, held),
        other => panic!("unexpected step {:?}", other),
    };
    assert_eq!(request.url, "https://apisb.etrade.com/v1/accounts/KEY1/portfolio");
    assert_eq!(progress.pending.len(), 2);

    let (request, progress) =
        match portfolio_fetched(&state, progress, held, Ok(holdings(&["AAPL"]))) {
            AccountsStep::FetchBalance(request, progress) => (request, progress),
            other => panic!("unexpected step {:?}", other),
        };
    assert_eq!(
        request.url,
        "https://apisb.etrade.com/v1/accounts/KEY2/balance?instType=BROKERAGE&realTimeNAV=true"
    );
    assert_eq!(progress.pending.len(), 1);
    assert_eq!(progress.fetched.len(), 1);

    let (request, progress, held) =
        match balance_fetched(&state, progress, Err("API error 500: down".to_string())) {
            AccountsStep::FetchPortfolio(request, progress, held) => (request, progress, held),
            other => panic!("unexpected step {:?}", other),
        };
    assert_eq!(request.url, "https://apisb.etrade.com/v1/accounts/KEY2/portfolio");
    assert!(held.is_err());

    let accounts = match portfolio_fetched(&state, progress, held, Ok(holdings(&["MSFT", "TSLA"])))
    {
        AccountsStep::Done(accounts) => accounts,
        other => panic!("unexpected step {:?}", other),
    };
    assert_eq!(accounts.len(), 2);
    assert_eq!(accounts[0].id, "1001");
    assert_eq!(accounts[0].name, "E*TRADE 1001");
    assert!(accounts[0].is_paper);
    assert_eq!(number(accounts[0].balance.total_equity), 100.0);
    assert_eq!(accounts[0].positions.len(), 1);
    assert_eq!(accounts[0].positions[0].symbol_id, "AAPL");
    assert_eq!(accounts[1].id, "1002");
    assert_eq!(number(accounts[1].balance.total_equity), 0.0);
    assert_eq!(accounts[1].positions.len(), 2);
    assert_eq!(
        accounts[1].extensions,
        Some(vec![("account_id_key".to_string(), "KEY2".to_string())])
    );
}

#[test]
fn listing_with_nothing_pending_ends_with_what_was_fetched() {
    let state = authenticated(None);
    let progress = AccountsProgress { pending: vec![], fetched: vec![] };
    match balance_fetched(&state, progress, Ok(balance(1.0))) {
        AccountsStep::Done(accounts) => assert!(accounts.is_empty()),
        other => panic!("unexpected step {:?}", other),
    }
    let progress = AccountsProgress { pending: vec![], fetched: vec![] };
    match portfolio_fetched(&state, progress, Ok(balance(1.0)), Ok(holdings(&["X"]))) {
        AccountsStep::Done(accounts) => assert!(accounts.is_empty()),
        other => panic!("unexpected step {:?}", other),
    }
}

#[test]
fn positions_without_a_client_are_empty() {
    let state = BrokerState::new();
    match get_positions(&state, "ACC1") {
        PositionsStep::Done(positions) => assert!(positions.is_empty()),
        other => panic!("unexpected step {:?}", other),
    }
}

#[test]
fn positions_are_asked_for_the_account() {
    let state = authenticated(Some(false));
    match get_positions(&state, "ACC1") {
        PositionsStep::Fetch(request) => {
            assert_eq!(request.method, HttpMethod::Get);
            assert_eq!(request.url, "https://api.etrade.com/v1/accounts/ACC1/portfolio");
            assert_eq!(request.body, None);
        }
        other => panic!("unexpected step {:?}", other),
    }
}

#[test]
fn fetched_positions_or_none() {
    let positions = positions_fetched(Ok(holdings(&["AAPL", "MSFT"])));
    assert_eq!(positions.len(), 2);
    assert_eq!(positions[1].symbol_id, "MSFT");
    assert!(positions_fetched(Err("API error 500: down".to_string())).is_empty());
    assert!(positions_fetched(Ok(PortfolioResponse { response: None })).is_empty());
}

#[test]
fn order_without_a_client_is_rejected() {
    let state = BrokerState::new();
    let order = match submit_order(&state, &request("AAPL")) {
        OrderStep::Done(order) => order,
        other => panic!("unexpected step {:?}", other),
    };
    assert_eq!(order.status, OrderStatus::Rejected);
    assert_eq!(
        order.extensions,
        Some(vec![("error".to_string(), "Plugin not initialized".to_string())])
    );
    assert!(order.id.starts_with("error_"));
    assert!(order.id["error_".len()..].parse::<i64>().is_ok());
    assert_eq!(order.request.symbol_id, "AAPL");
    assert_eq!(order.persona_id, "persona-1");
    assert_eq!(number(order.filled_quantity), 0.0);

    let progress = progress_for(&request("AAPL"), "KLabc");
    match order_encoded(&state, progress, Ok("{}".to_string())) {
        OrderStep::Done(order) => assert_eq!(order.status, OrderStatus::Rejected),
        other => panic!("unexpected step {:?}", other),
    }
}

#[test]
fn order_submission_runs_to_the_ledger() {
    let mut state = authenticated(Some(true));
    let (body, progress) = match submit_order(&state, &request("AAPL")) {
        OrderStep::Encode(body, progress) => (body, progress),
        other => panic!("unexpected step {:?}", other),
    };
    assert_eq!(progress.account_id, "ACC1");
    assert_eq!(progress.client_order_id.len(), 18);
    assert!(progress.client_order_id.starts_with("KL"));
    assert_eq!(body.request.client_order_id, progress.client_order_id);
    assert_eq!(body.request.order[0].price_type, "MARKET");
    assert_eq!(body.request.order[0].instrument[0].product.symbol, "AAPL");
    let client_order_id = progress.client_order_id.clone();

    let (request, progress) = match order_encoded(&state, progress, Ok("{\"a\":1}".to_string())) {
        OrderStep::Send(request, progress) => (request, progress),
        other => panic!("unexpected step {:?}", other),
    };
    assert_eq!(request.method, HttpMethod::Post);
    assert_eq!(request.url, "https://apisb.etrade.com/v1/accounts/ACC1/orders/place");
    assert_eq!(request.body, Some("{\"a\":1}".to_string()));
    assert_eq!(request.headers.len(), 3);

    let order = order_placed(&mut state, progress, placed(12345));
    assert_eq!(order.id, "12345");
    assert_eq!(order.status, OrderStatus::Submitted);
    assert_eq!(number(order.filled_quantity), 0.0);
    assert_eq!(
        order.extensions,
        Some(vec![("client_order_id".to_string(), client_order_id)])
    );
    assert_eq!(state.next_order_id, 2);
    let held = state.orders.get("12345").unwrap();
    assert_eq!(held.id, "12345");
    assert_eq!(held.request.symbol_id, "AAPL");
    assert_eq!(held.status, OrderStatus::Submitted);
    assert!(state.orders.get("12346").is_none());
    assert_eq!(state.session_state(), SessionState::Authenticated);
}

#[test]
fn body_that_cannot_be_encoded_rejects_the_order() {
    let state = authenticated(None);
    let progress = progress_for(&request("AAPL"), "KLabc");
    match order_encoded(&state, progress, Err("key must be a string".to_string())) {
        OrderStep::Done(order) => {
            assert_eq!(order.status, OrderStatus::Rejected);
            assert_eq!(
                order.extensions,
                Some(vec![("error".to_string(), "key must be a string".to_string())])
            );
        }
        other => panic!("unexpected step {:?}", other),
    }
}

#[test]
fn failed_placement_rejects_the_order_and_records_nothing() {
    let mut state = authenticated(None);
    let progress = progress_for(&request("AAPL"), "KLabc");
    let order = order_placed(&mut state, progress, Err("API error 400: bad order".to_string()));
    assert_eq!(order.status, OrderStatus::Rejected);
    assert_eq!(
        order.extensions,
        Some(vec![("error".to_string(), "API error 400: bad order".to_string())])
    );
    assert_eq!(state.next_order_id, 1);
    assert!(state.orders.get(&order.id).is_none());
}

#[test]
fn every_placed_order_is_counted() {
    let mut state = authenticated(None);
    for (n, id) in [11i64, 12, 13].iter().enumerate() {
        let progress = progress_for(&request("AAPL"), "KLabc");
        order_placed(&mut state, progress, placed(*id));
        assert_eq!(state.next_order_id, n as u64 + 2);
    }
    assert!(state.orders.get("11").is_some());
    assert!(state.orders.get("12").is_some());
    assert!(state.orders.get("13").is_some());
    state.next_order_id = u64::MAX;
    order_placed(&mut state, progress_for(&request("AAPL"), "KLabc"), placed(14));
    assert_eq!(state.next_order_id, u64::MAX);
    assert!(state.orders.get("14").is_some());
}

#[test]
fn order_without_vendor_id_is_held_under_the_client_order_id() {
    let mut state = authenticated(None);
    let progress = progress_for(&request("AAPL"), "KL00000000000000aa");
    let reply = Ok(PlaceOrderResponse { response: PlaceOrderResult { order_ids: None } });
    let order = order_placed(&mut state, progress, reply);
    assert_eq!(order.id, "KL00000000000000aa");
    assert!(state.orders.get("KL00000000000000aa").is_some());
}

#[test]
fn ledger_holds_each_id_once() {
    let mut ledger = OrderLedger::new();
    assert!(ledger.get("a").is_none());
    ledger.insert(order_with_id("a", "AAPL"));
    ledger.insert(order_with_id("b", "MSFT"));
    assert_eq!(ledger.get("a").unwrap().request.symbol_id, "AAPL");
    assert_eq!(ledger.get("b").unwrap().request.symbol_id, "MSFT");
    ledger.insert(order_with_id("a", "TSLA"));
    assert_eq!(ledger.get("a").unwrap().request.symbol_id, "TSLA");
    assert_eq!(ledger.get("b").unwrap().request.symbol_id, "MSFT");
    assert!(ledger.get("").is_none());
    assert!(ledger.get("ab").is_none());
}

#[test]
fn texts_are_compared_whole() {
    assert!(same_text("", ""));
    assert!(same_text("abc", "abc"));
    assert!(!same_text("abc", "abd"));
    assert!(!same_text("abc", "ab"));
    assert!(!same_text("ab", "abc"));
    assert!(same_text("é", "é"));
}
