//! The operation table and the typed parameter bundle of one tool
//! invocation.

use vstd::prelude::*;

verus! {

/// The HTTP method of a resolved operation.
#[derive(Clone, Copy, PartialEq, Eq, Structural, Debug)]
pub enum Method {
    Get,
    Post,
    Delete,
}

/// One logical backend operation; each has a fixed method and URL shape.
#[derive(Clone, Copy, PartialEq, Eq, Structural, Debug)]
pub enum Operation {
    UserInfo,
    Positions,
    Balances,
    MarketTime,
    History,
    ListWatchlists,
    WatchlistQuotes,
    AddWatchlist,
    DeleteWatchlist,
    AddSymbol,
    RemoveSymbol,
    SingleQuote,
    Fundamentals,
    CompanyProfile,
    CashDividend,
    CorpCalendar,
}

/// The parameter bundle of one invocation. Every field is optional at the
/// schema level; the dispatcher enforces which ones an operation needs.
#[derive(Clone, Debug)]
pub struct ToolRequest {
    pub id: Option<u8>,
    pub name: Option<String>,
    pub symbol: Option<String>,
}

impl ToolRequest {
    /// A request with no parameters set.
    pub fn empty() -> (r: ToolRequest)
        ensures
            r.id is None,
            r.name is None,
            r.symbol is None,
    {
        ToolRequest { id: None, name: None, symbol: None }
    }
}

/// One field of a form-encoded request body.
#[derive(Clone, Debug)]
pub struct FormField {
    pub key: String,
    pub value: String,
}

/// A fully resolved outbound call: the method, the URL, and the form body
/// if the operation carries one.
#[derive(Clone, Debug)]
pub struct RequestPlan {
    pub method: Method,
    pub url: String,
    pub form: Option<FormField>,
}

} // verus!
