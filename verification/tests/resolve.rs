use firstrade_mcp::dispatch::dispatch_plan;
use firstrade_mcp::host::HostConfig;
use firstrade_mcp::request::Method;
use firstrade_mcp::request::Operation;
use firstrade_mcp::request::RequestPlan;
use firstrade_mcp::request::ToolRequest;
use firstrade_mcp::url::account_balances;
use firstrade_mcp::url::account_history;
use firstrade_mcp::url::cash_dividend;
use firstrade_mcp::url::company_profile;
use firstrade_mcp::url::corp_calendar;
use firstrade_mcp::url::fundamental;
use firstrade_mcp::url::market_time;
use firstrade_mcp::url::position;
use firstrade_mcp::url::single_quote;
use firstrade_mcp::url::user_info;
use firstrade_mcp::url::watchlist;
use firstrade_mcp::url::watchlist_quote;
use firstrade_mcp::url::watchlists;

fn localhost() -> HostConfig {
    HostConfig::new("localhost", 3001)
}

fn plan_of(op: Operation, req: &ToolRequest) -> RequestPlan {
    dispatch_plan(op, req, &localhost()).expect("operation should resolve")
}

#[test]
fn host_base_is_host_colon_port() {
    assert_eq!(localhost().base(), "localhost:3001");
    assert_eq!(HostConfig::new("127.0.0.1", 65535).base(), "127.0.0.1:65535");
}

#[test]
fn url_table_matches_the_backend_paths() {
    let h = localhost();
    assert_eq!(user_info(&h), "localhost:3001/user-info");
    assert_eq!(position(&h), "localhost:3001/position");
    assert_eq!(account_balances(&h), "localhost:3001/balances");
    assert_eq!(market_time(&h), "localhost:3001/market-time");
    assert_eq!(account_history(&h), "localhost:3001/history");
    assert_eq!(watchlists(&h), "localhost:3001/watchlists");
    assert_eq!(watchlist_quote(&h, 5), "localhost:3001/watchlists/5");
    assert_eq!(watchlist(&h), "localhost:3001/watchlist");
    assert_eq!(single_quote(&h, "AAPL"), "localhost:3001/stock-quote/AAPL");
    assert_eq!(fundamental(&h, "AAPL"), "localhost:3001/fundamental/AAPL");
    assert_eq!(company_profile(&h, "MSFT"), "localhost:3001/company-profile/MSFT");
    assert_eq!(cash_dividend(&h, "KO"), "localhost:3001/cash-dividend/KO");
    assert_eq!(corp_calendar(&h, "IBM"), "localhost:3001/corp-calendar/IBM");
}

#[test]
fn bare_operations_resolve_as_get_without_body() {
    let req = ToolRequest::empty();
    let cases = [
        (Operation::UserInfo, "localhost:3001/user-info"),
        (Operation::Positions, "localhost:3001/position"),
        (Operation::Balances, "localhost:3001/balances"),
        (Operation::MarketTime, "localhost:3001/market-time"),
        (Operation::History, "localhost:3001/history"),
        (Operation::ListWatchlists, "localhost:3001/watchlists"),
    ];
    for (op, url) in cases {
        let plan = plan_of(op, &req);
        assert_eq!(plan.method, Method::Get);
        assert_eq!(plan.url, url);
        assert!(plan.form.is_none());
    }
}

#[test]
fn get_watchlist_quote_resolves_by_id() {
    let req = ToolRequest { id: Some(5), name: None, symbol: None };
    let plan = plan_of(Operation::WatchlistQuotes, &req);
    assert_eq!(plan.method, Method::Get);
    assert_eq!(plan.url, "localhost:3001/watchlists/5");
    assert!(plan.form.is_none());
}

#[test]
fn add_new_watchlist_posts_the_name_with_no_body() {
    let req = ToolRequest { id: None, name: Some("Tech".to_string()), symbol: None };
    let plan = plan_of(Operation::AddWatchlist, &req);
    assert_eq!(plan.method, Method::Post);
    assert_eq!(plan.url, "localhost:3001/watchlists/Tech");
    assert!(plan.form.is_none());
}

#[test]
fn delete_watchlist_resolves_by_id() {
    let req = ToolRequest { id: Some(7), name: None, symbol: None };
    let plan = plan_of(Operation::DeleteWatchlist, &req);
    assert_eq!(plan.method, Method::Delete);
    assert_eq!(plan.url, "localhost:3001/watchlists/7");
    assert!(plan.form.is_none());
}

#[test]
fn watchlist_add_symbol_posts_a_form_body() {
    let req = ToolRequest { id: Some(5), name: None, symbol: Some("AAPL".to_string()) };
    let plan = plan_of(Operation::AddSymbol, &req);
    assert_eq!(plan.method, Method::Post);
    assert_eq!(plan.url, "localhost:3001/watchlist/5");
    let form = plan.form.expect("a form body is owed");
    assert_eq!(form.key, "symbol");
    assert_eq!(form.value, "AAPL");
}

#[test]
fn watchlist_remove_symbol_resolves_by_id() {
    let req = ToolRequest { id: Some(9), name: None, symbol: None };
    let plan = plan_of(Operation::RemoveSymbol, &req);
    assert_eq!(plan.method, Method::Delete);
    assert_eq!(plan.url, "localhost:3001/watchlist/9");
    assert!(plan.form.is_none());
}

#[test]
fn symbol_operations_resolve_as_get() {
    let req = ToolRequest { id: None, name: None, symbol: Some("NVDA".to_string()) };
    let cases = [
        (Operation::SingleQuote, "localhost:3001/stock-quote/NVDA"),
        (Operation::Fundamentals, "localhost:3001/fundamental/NVDA"),
        (Operation::CompanyProfile, "localhost:3001/company-profile/NVDA"),
        (Operation::CashDividend, "localhost:3001/cash-dividend/NVDA"),
        (Operation::CorpCalendar, "localhost:3001/corp-calendar/NVDA"),
    ];
    for (op, url) in cases {
        let plan = plan_of(op, &req);
        assert_eq!(plan.method, Method::Get);
        assert_eq!(plan.url, url);
        assert!(plan.form.is_none());
    }
}

#[test]
fn id_zero_and_id_max_substitute_verbatim() {
    let h = localhost();
    assert_eq!(watchlist_quote(&h, 0), "localhost:3001/watchlists/0");
    assert_eq!(watchlist_quote(&h, 255), "localhost:3001/watchlists/255");
}

#[test]
fn another_host_prefixes_every_url() {
    let h = HostConfig::new("broker.example", 8080);
    assert_eq!(user_info(&h), "broker.example:8080/user-info");
    assert_eq!(watchlist_quote(&h, 3), "broker.example:8080/watchlists/3");
}
