//! The broker endpoints of the DSE service: where they are and which
//! requests they take.

use crate::dse::provider::DEFAULT_BASE_URL;
use crate::text::{
    integer_text,
    integer_to_text,
    join,
    trim_trailing,
    trim_trailing_pair,
    trim_whitespace,
    trimmed,
    without_trailing,
    without_trailing_pair,
};
use vstd::prelude::*;

verus! {

/// The path of the accounts endpoint.
pub const ACCOUNTS_PATH: &'static str = "/api/v1/broker/accounts";

/// The address to use for a configured one: the configured address without
/// the white space around it and the slashes at its end; the default where
/// nothing is configured or nothing is left of it.
pub open spec fn broker_address(configured: Option<String>) -> Seq<char> {
    match configured {
        Some(url) => {
            let bare = without_trailing(trimmed(url@), '/');
            if bare.len() > 0 {
                bare
            } else {
                DEFAULT_BASE_URL@
            }
        },
        None => DEFAULT_BASE_URL@,
    }
}

/// One parameter of a query, with the `&` that ends it; nothing for a
/// parameter that is absent.
pub open spec fn query_part(name: Seq<char>, value: Option<Seq<char>>) -> Seq<char> {
    match value {
        Some(v) => name + "="@ + v + "&"@,
        None => Seq::empty(),
    }
}

/// The decimal text of an optional integer.
pub open spec fn opt_integer_text(value: Option<i64>) -> Option<Seq<char>> {
    match value {
        Some(n) => Some(integer_text(n as int)),
        None => None,
    }
}

/// The characters of an optional text.
pub open spec fn opt_chars(value: Option<&str>) -> Option<Seq<char>> {
    match value {
        Some(v) => Some(v@),
        None => None,
    }
}

/// The path of the activities of an account: the parameters that are
/// present, in the order start date, end date, offset, limit, and neither
/// `&` nor `?` left at the end.
pub open spec fn activities_path_of(
    account_id: Seq<char>,
    start_date: Option<Seq<char>>,
    end_date: Option<Seq<char>>,
    offset: Option<Seq<char>>,
    limit: Option<Seq<char>>,
) -> Seq<char> {
    without_trailing_pair(
        "/api/v1/broker/accounts/"@ + account_id + "/activities?"@ + query_part(
            "start_date"@,
            start_date,
        ) + query_part("end_date"@, end_date) + query_part("offset"@, offset) + query_part(
            "limit"@,
            limit,
        ),
        '&',
        '?',
    )
}

/// The path of the holdings of an account.
pub open spec fn holdings_path_of(account_id: Seq<char>) -> Seq<char> {
    "/api/v1/broker/accounts/"@ + account_id + "/holdings"@
}

fn push_query_part(path: &mut String, name: &str, value: Option<&str>)
    ensures
        final(path)@ == old(path)@ + query_part(name@, opt_chars(value)),
{
    match value {
        Some(v) => {
            let ghost before = path@;
            path.append(name);
            path.append("=");
            path.append(v);
            path.append("&");
            assert(path@ =~= before + (name@ + "="@ + v@ + "&"@));
        },
        None => {
            assert(path@ + Seq::<char>::empty() =~= path@);
        },
    }
}

/// The client's configuration: where the service is, and the key to present
/// to it.
#[derive(Debug)]
pub struct DseBrokerApiClient {
    base_url: String,
    api_key: String,
}

impl DseBrokerApiClient {
    /// The address of the service.
    pub closed spec fn address(self) -> Seq<char> {
        self.base_url@
    }

    /// The key presented to the service.
    pub closed spec fn key(self) -> Seq<char> {
        self.api_key@
    }

    /// A client for the service at the configured address, or at the default
    /// one.
    pub fn new(api_key: String, configured_url: Option<String>) -> (r: DseBrokerApiClient)
        ensures
            r.address() == broker_address(configured_url),
            r.key() == api_key@,
    {
        let base_url = match configured_url {
            Some(url) => {
                let inner = trim_whitespace(url.as_str());
                let bare = trim_trailing(inner.as_str(), '/');
                if bare.as_str().is_empty() {
                    DEFAULT_BASE_URL.to_owned()
                } else {
                    bare
                }
            },
            None => DEFAULT_BASE_URL.to_owned(),
        };
        DseBrokerApiClient { base_url, api_key }
    }

    pub fn base_url(&self) -> (r: &str)
        ensures
            r@ == self.address(),
    {
        self.base_url.as_str()
    }

    pub fn api_key(&self) -> (r: &str)
        ensures
            r@ == self.key(),
    {
        self.api_key.as_str()
    }

    /// The address of a request: the address of the service, then the path.
    pub fn request_url(&self, path: &str) -> (r: String)
        ensures
            r@ == self.address() + path@,
    {
        join(self.base_url.as_str(), path)
    }
}

/// The path of the activities of an account, with the parameters that are
/// given.
pub fn activities_path(
    account_id: &str,
    start_date: Option<&str>,
    end_date: Option<&str>,
    offset: Option<i64>,
    limit: Option<i64>,
) -> (r: String)
    ensures
        r@ == activities_path_of(
            account_id@,
            opt_chars(start_date),
            opt_chars(end_date),
            opt_integer_text(offset),
            opt_integer_text(limit),
        ),
{
    let mut path = join("/api/v1/broker/accounts/", account_id);
    path.append("/activities?");
    push_query_part(&mut path, "start_date", start_date);
    push_query_part(&mut path, "end_date", end_date);
    match offset {
        Some(n) => {
            let text = integer_to_text(n);
            push_query_part(&mut path, "offset", Some(text.as_str()));
        },
        None => {
            push_query_part(&mut path, "offset", None);
        },
    }
    match limit {
        Some(n) => {
            let text = integer_to_text(n);
            push_query_part(&mut path, "limit", Some(text.as_str()));
        },
        None => {
            push_query_part(&mut path, "limit", None);
        },
    }
    trim_trailing_pair(path.as_str(), '&', '?')
}

/// The path of the holdings of an account.
pub fn holdings_path(account_id: &str) -> (r: String)
    ensures
        r@ == holdings_path_of(account_id@),
{
    let head = join("/api/v1/broker/accounts/", account_id);
    join(head.as_str(), "/holdings")
}

} // verus!
