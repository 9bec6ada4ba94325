//! The dispatcher: for each operation it validates the required parameters,
//! resolves the method and URL, and — once the outbound call has been made —
//! normalizes the outcome into the uniform error shape.

use vstd::prelude::*;
use crate::digits::spec_udec;
use crate::digits::u16_dec;
use crate::error::AdapterError;
use crate::error::missing_parameter;
use crate::error::transport_failure;
use crate::host::HostConfig;
use crate::payload::decode_body;
use crate::payload::json_ok;
use crate::request::FormField;
use crate::request::Method;
use crate::request::Operation;
use crate::request::RequestPlan;
use crate::request::ToolRequest;
use crate::url::account_balances;
use crate::url::account_history;
use crate::url::cash_dividend;
use crate::url::company_profile;
use crate::url::corp_calendar;
use crate::url::fundamental;
use crate::url::market_time;
use crate::url::position;
use crate::url::single_quote;
use crate::url::user_info;
use crate::url::watchlist;
use crate::url::watchlist_quote;
use crate::url::watchlists;

verus! {

/// Whether `op` needs the numeric watchlist id.
pub open spec fn needs_id(op: Operation) -> bool {
    match op {
        Operation::WatchlistQuotes => true,
        Operation::DeleteWatchlist => true,
        Operation::AddSymbol => true,
        Operation::RemoveSymbol => true,
        _ => false,
    }
}

/// Whether `op` needs the watchlist name.
pub open spec fn needs_name(op: Operation) -> bool {
    op == Operation::AddWatchlist
}

/// Whether `op` needs the stock symbol.
pub open spec fn needs_symbol(op: Operation) -> bool {
    match op {
        Operation::AddSymbol => true,
        Operation::SingleQuote => true,
        Operation::Fundamentals => true,
        Operation::CompanyProfile => true,
        Operation::CashDividend => true,
        Operation::CorpCalendar => true,
        _ => false,
    }
}

/// The fixed HTTP method of `op`.
pub open spec fn method_of(op: Operation) -> Method {
    match op {
        Operation::AddWatchlist => Method::Post,
        Operation::AddSymbol => Method::Post,
        Operation::DeleteWatchlist => Method::Delete,
        Operation::RemoveSymbol => Method::Delete,
        _ => Method::Get,
    }
}

/// The exact URL `op` resolves to over `base`, assuming the parameters the
/// operation needs are present in `req`: path segments are substituted
/// verbatim.
pub open spec fn url_of(op: Operation, req: ToolRequest, base: Seq<char>) -> Seq<char> {
    match op {
        Operation::UserInfo => base + "/user-info"@,
        Operation::Positions => base + "/position"@,
        Operation::Balances => base + "/balances"@,
        Operation::MarketTime => base + "/market-time"@,
        Operation::History => base + "/history"@,
        Operation::ListWatchlists => base + "/watchlists"@,
        Operation::WatchlistQuotes => base + "/watchlists/"@ + spec_udec(req.id.unwrap() as nat),
        Operation::AddWatchlist => base + "/watchlists/"@ + req.name.unwrap()@,
        Operation::DeleteWatchlist => base + "/watchlists/"@ + spec_udec(req.id.unwrap() as nat),
        Operation::AddSymbol => base + "/watchlist/"@ + spec_udec(req.id.unwrap() as nat),
        Operation::RemoveSymbol => base + "/watchlist/"@ + spec_udec(req.id.unwrap() as nat),
        Operation::SingleQuote => base + "/stock-quote/"@ + req.symbol.unwrap()@,
        Operation::Fundamentals => base + "/fundamental/"@ + req.symbol.unwrap()@,
        Operation::CompanyProfile => base + "/company-profile/"@ + req.symbol.unwrap()@,
        Operation::CashDividend => base + "/cash-dividend/"@ + req.symbol.unwrap()@,
        Operation::CorpCalendar => base + "/corp-calendar/"@ + req.symbol.unwrap()@,
    }
}

/// The first parameter `op` needs that `req` does not carry, if any: the id
/// is checked before the name, the name before the symbol.
pub open spec fn missing_param_of(op: Operation, req: ToolRequest) -> Option<Seq<char>> {
    if needs_id(op) && req.id is None {
        Some("id"@)
    } else if needs_name(op) && req.name is None {
        Some("name"@)
    } else if needs_symbol(op) && req.symbol is None {
        Some("symbol"@)
    } else {
        None
    }
}

/// Resolve one invocation to an outbound call, or reject it. An operation
/// invoked without a parameter it needs yields a `MissingParameter` error
/// naming that parameter — resolution is pure, so no network work has
/// happened by then. With the parameters present, the plan carries the
/// operation's fixed method, its exact URL, and a form body only for the
/// add-symbol operation.
pub fn dispatch_plan(op: Operation, req: &ToolRequest, host: &HostConfig) -> (r: Result<
    RequestPlan,
    AdapterError,
>)
    ensures
        (missing_param_of(op, *req) matches Some(p) ==> (r matches Err(e) && e matches
            AdapterError::MissingParameter { param } && param@ == p)),
        (missing_param_of(op, *req) is None ==> (r matches Ok(plan) && plan.method == method_of(op)
            && plan.url@ == url_of(op, *req, host@) && (op == Operation::AddSymbol
            ==> (plan.form matches Some(f) && f.key@ == "symbol"@ && f.value@
            == req.symbol.unwrap()@)) && (op != Operation::AddSymbol ==> plan.form is None))),
{
    match op {
        Operation::UserInfo => Ok(
            RequestPlan { method: Method::Get, url: user_info(host), form: None },
        ),
        Operation::Positions => Ok(
            RequestPlan { method: Method::Get, url: position(host), form: None },
        ),
        Operation::Balances => Ok(
            RequestPlan { method: Method::Get, url: account_balances(host), form: None },
        ),
        Operation::MarketTime => Ok(
            RequestPlan { method: Method::Get, url: market_time(host), form: None },
        ),
        Operation::History => Ok(
            RequestPlan { method: Method::Get, url: account_history(host), form: None },
        ),
        Operation::ListWatchlists => Ok(
            RequestPlan { method: Method::Get, url: watchlists(host), form: None },
        ),
        Operation::WatchlistQuotes => match req.id {
            None => Err(missing_parameter("id")),
            Some(id) => Ok(
                RequestPlan { method: Method::Get, url: watchlist_quote(host, id), form: None },
            ),
        },
        Operation::AddWatchlist => match &req.name {
            None => Err(missing_parameter("name")),
            Some(name) => {
                let url = watchlists(host).concat("/").concat(name.as_str());
                proof {
                    reveal_strlit("/watchlists");
                    reveal_strlit("/watchlists/");
                    reveal_strlit("/");
                    assert(host@ + "/watchlists"@ + "/"@ + name@ =~= host@ + "/watchlists/"@
                        + name@);
                }
                Ok(RequestPlan { method: Method::Post, url, form: None })
            },
        },
        Operation::DeleteWatchlist => match req.id {
            None => Err(missing_parameter("id")),
            Some(id) => {
                let n = u16_dec(id as u16);
                let url = watchlists(host).concat("/").concat(n.as_str());
                proof {
                    reveal_strlit("/watchlists");
                    reveal_strlit("/watchlists/");
                    reveal_strlit("/");
                    assert(host@ + "/watchlists"@ + "/"@ + spec_udec(id as nat) =~= host@
                        + "/watchlists/"@ + spec_udec(id as nat));
                }
                Ok(RequestPlan { method: Method::Delete, url, form: None })
            },
        },
        Operation::AddSymbol => match (req.id, &req.symbol) {
            (None, _) => Err(missing_parameter("id")),
            (_, None) => Err(missing_parameter("symbol")),
            (Some(id), Some(symbol)) => {
                let n = u16_dec(id as u16);
                let url = watchlist(host).concat("/").concat(n.as_str());
                proof {
                    reveal_strlit("/watchlist");
                    reveal_strlit("/watchlist/");
                    reveal_strlit("/");
                    assert(host@ + "/watchlist"@ + "/"@ + spec_udec(id as nat) =~= host@
                        + "/watchlist/"@ + spec_udec(id as nat));
                }
                let form = FormField { key: "symbol".to_owned(), value: symbol.clone() };
                Ok(RequestPlan { method: Method::Post, url, form: Some(form) })
            },
        },
        Operation::RemoveSymbol => match req.id {
            None => Err(missing_parameter("id")),
            Some(id) => {
                let n = u16_dec(id as u16);
                let url = watchlist(host).concat("/").concat(n.as_str());
                proof {
                    reveal_strlit("/watchlist");
                    reveal_strlit("/watchlist/");
                    reveal_strlit("/");
                    assert(host@ + "/watchlist"@ + "/"@ + spec_udec(id as nat) =~= host@
                        + "/watchlist/"@ + spec_udec(id as nat));
                }
                Ok(RequestPlan { method: Method::Delete, url, form: None })
            },
        },
        Operation::SingleQuote => match &req.symbol {
            None => Err(missing_parameter("symbol")),
            Some(symbol) => Ok(
                RequestPlan { method: Method::Get, url: single_quote(host, symbol.as_str()), form: None },
            ),
        },
        Operation::Fundamentals => match &req.symbol {
            None => Err(missing_parameter("symbol")),
            Some(symbol) => Ok(
                RequestPlan { method: Method::Get, url: fundamental(host, symbol.as_str()), form: None },
            ),
        },
        Operation::CompanyProfile => match &req.symbol {
            None => Err(missing_parameter("symbol")),
            Some(symbol) => Ok(
                RequestPlan {
                    method: Method::Get,
                    url: company_profile(host, symbol.as_str()),
                    form: None,
                },
            ),
        },
        Operation::CashDividend => match &req.symbol {
            None => Err(missing_parameter("symbol")),
            Some(symbol) => Ok(
                RequestPlan { method: Method::Get, url: cash_dividend(host, symbol.as_str()), form: None },
            ),
        },
        Operation::CorpCalendar => match &req.symbol {
            None => Err(missing_parameter("symbol")),
            Some(symbol) => Ok(
                RequestPlan { method: Method::Get, url: corp_calendar(host, symbol.as_str()), form: None },
            ),
        },
    }
}

/// What one outbound call came back with: the raw body of a completed
/// response, or the textual description of a transport-level failure.
pub enum FetchOutcome {
    Body(Vec<u8>),
    Failed(String),
}

/// Normalize the outcome of the call made for `url`. A transport-level
/// failure yields a `TransportFailure` carrying that URL and the cause; a
/// completed response yields its parsed JSON payload, or a `DecodeFailure`
/// if the body is not valid JSON.
pub fn complete_call(url: String, outcome: FetchOutcome) -> (r: Result<
    serde_json::Value,
    AdapterError,
>)
    ensures
        (outcome matches FetchOutcome::Failed(why) ==> (r matches Err(e) && e matches
            AdapterError::TransportFailure { url: u, reason } && u@ == url@ && reason@ == why@)),
        (outcome matches FetchOutcome::Body(b) ==> ((r is Ok <==> json_ok(b@)) && (r matches Err(e)
            ==> e is DecodeFailure))),
{
    match outcome {
        FetchOutcome::Failed(why) => Err(transport_failure(url, why)),
        FetchOutcome::Body(b) => decode_body(b.as_slice()),
    }
}

} // verus!
