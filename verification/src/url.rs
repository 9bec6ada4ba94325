//! The endpoint table: one pure function per backend path, each producing
//! the fully qualified URL for the configured host.

use vstd::prelude::*;
use crate::digits::spec_udec;
use crate::digits::u16_dec;
use crate::host::HostConfig;

verus! {

/// URL of the market clock endpoint.
pub fn market_time(host: &HostConfig) -> (r: String)
    ensures
        r@ == host@ + "/market-time"@,
{
    host.base().concat("/market-time")
}

/// URL of the account owner's profile endpoint.
pub fn user_info(host: &HostConfig) -> (r: String)
    ensures
        r@ == host@ + "/user-info"@,
{
    host.base().concat("/user-info")
}

/// URL of the open positions endpoint.
pub fn position(host: &HostConfig) -> (r: String)
    ensures
        r@ == host@ + "/position"@,
{
    host.base().concat("/position")
}

/// URL of the account balances endpoint.
pub fn account_balances(host: &HostConfig) -> (r: String)
    ensures
        r@ == host@ + "/balances"@,
{
    host.base().concat("/balances")
}

/// URL of the account history endpoint.
pub fn account_history(host: &HostConfig) -> (r: String)
    ensures
        r@ == host@ + "/history"@,
{
    host.base().concat("/history")
}

/// URL of the watchlist collection endpoint.
pub fn watchlists(host: &HostConfig) -> (r: String)
    ensures
        r@ == host@ + "/watchlists"@,
{
    host.base().concat("/watchlists")
}

/// URL of the quotes of one watchlist, by its id.
pub fn watchlist_quote(host: &HostConfig, id: u8) -> (r: String)
    ensures
        r@ == host@ + "/watchlists/"@ + spec_udec(id as nat),
{
    let n = u16_dec(id as u16);
    host.base().concat("/watchlists/").concat(n.as_str())
}

/// URL of the single-watchlist endpoint used when a symbol is added or
/// removed; the id is appended by the dispatcher.
pub fn watchlist(host: &HostConfig) -> (r: String)
    ensures
        r@ == host@ + "/watchlist"@,
{
    host.base().concat("/watchlist")
}

/// URL of one stock's quote.
pub fn single_quote(host: &HostConfig, symbol: &str) -> (r: String)
    ensures
        r@ == host@ + "/stock-quote/"@ + symbol@,
{
    host.base().concat("/stock-quote/").concat(symbol)
}

/// URL of one stock's fundamental data.
pub fn fundamental(host: &HostConfig, symbol: &str) -> (r: String)
    ensures
        r@ == host@ + "/fundamental/"@ + symbol@,
{
    host.base().concat("/fundamental/").concat(symbol)
}

/// URL of one stock's company profile.
pub fn company_profile(host: &HostConfig, symbol: &str) -> (r: String)
    ensures
        r@ == host@ + "/company-profile/"@ + symbol@,
{
    host.base().concat("/company-profile/").concat(symbol)
}

/// URL of one stock's cash dividend record.
pub fn cash_dividend(host: &HostConfig, symbol: &str) -> (r: String)
    ensures
        r@ == host@ + "/cash-dividend/"@ + symbol@,
{
    host.base().concat("/cash-dividend/").concat(symbol)
}

/// URL of one stock's corporate calendar.
pub fn corp_calendar(host: &HostConfig, symbol: &str) -> (r: String)
    ensures
        r@ == host@ + "/corp-calendar/"@ + symbol@,
{
    host.base().concat("/corp-calendar/").concat(symbol)
}

} // verus!
