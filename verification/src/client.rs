//! The conditional-fetch protocol of the relay-list endpoint: request
//! construction, interpretation of the observed status, and validator
//! handling.
//!
//! The HTTP transport is an external collaborator. A caller asks
//! [`RelayListProxy::request_plan`] for the prepared request, executes it,
//! decodes the body of a fresh response, and hands status, validator header
//! and decoding outcome to [`RelayListProxy::interpret_response`], which
//! decides the result of the whole fetch.

use vstd::prelude::*;

use crate::domain::{RelayList, RelayListModel};
use crate::topology::spec_into_relay_list;
use crate::wire::{ServerRelayList, ServerRelayListModel};

verus! {

/// The status of a fresh response.
pub const STATUS_OK: u16 = 200;

/// The status of a not-modified response to a conditional request.
pub const STATUS_NOT_MODIFIED: u16 = 304;

/// The fixed request timeout, independent of any transport-wide default.
pub const RELAY_LIST_TIMEOUT_SECS: u64 = 15;

/// The relative path of the relay-list endpoint.
pub open spec fn spec_relay_list_path() -> Seq<char> {
    "app/v1/relays"@
}

/// Exactly two statuses are acceptable: fresh and not-modified.
pub open spec fn spec_status_acceptable(status: u16) -> bool {
    status == STATUS_OK || status == STATUS_NOT_MODIFIED
}

/// A prepared relay-list request, for the transport to execute: the
/// endpoint path, the precondition header value if a prior validator is
/// known, and the fixed timeout.
#[derive(Debug, Clone, PartialEq)]
pub struct RequestPlan {
    pub path: String,
    pub if_none_match: Option<String>,
    pub timeout_secs: u64,
}

/// Mathematical model of [`RequestPlan`].
#[verifier::ext_equal]
pub struct RequestPlanModel {
    pub path: Seq<char>,
    pub if_none_match: Option<Seq<char>>,
    pub timeout_secs: u64,
}

impl DeepView for RequestPlan {
    type V = RequestPlanModel;

    open spec fn deep_view(&self) -> RequestPlanModel {
        RequestPlanModel {
            path: self.path@,
            if_none_match: self.if_none_match.deep_view(),
            timeout_secs: self.timeout_secs,
        }
    }
}

/// What can fail a fetch as a whole. Row-level data problems never do: they
/// drop the row and the fetch succeeds.
#[derive(Debug, Clone, PartialEq)]
pub enum Error {
    /// Network, TLS or timeout failure, surfaced from the transport.
    Transport(String),
    /// A response status other than fresh or not-modified.
    UnexpectedStatus(u16),
    /// A malformed body; no partial result is ever produced.
    Decode(String),
}

/// Mathematical model of [`Error`].
#[verifier::ext_equal]
pub enum ErrorModel {
    Transport(Seq<char>),
    UnexpectedStatus(u16),
    Decode(Seq<char>),
}

impl DeepView for Error {
    type V = ErrorModel;

    open spec fn deep_view(&self) -> ErrorModel {
        match self {
            Error::Transport(m) => ErrorModel::Transport(m@),
            Error::UnexpectedStatus(s) => ErrorModel::UnexpectedStatus(*s),
            Error::Decode(m) => ErrorModel::Decode(m@),
        }
    }
}

/// The model of a decoding outcome handed in by the caller: the decoded
/// payload, or the decoder's message.
pub open spec fn spec_body_model(b: Result<ServerRelayList, String>) -> Result<
    ServerRelayListModel,
    Seq<char>,
> {
    match b {
        Result::Ok(w) => Result::Ok(w.deep_view()),
        Result::Err(m) => Result::Err(m@),
    }
}

/// The model of a fetch result.
pub open spec fn spec_fetch_model(r: Result<Option<RelayList>, Error>) -> Result<
    Option<RelayListModel>,
    ErrorModel,
> {
    match r {
        Result::Ok(Some(list)) => Result::Ok(Some(list.deep_view())),
        Result::Ok(None) => Result::Ok(None),
        Result::Err(e) => Result::Err(e.deep_view()),
    }
}

/// What a fetch returns for each observed status: a not-modified response
/// means "no update" (even the defensive case in which no precondition was
/// sent), a fresh response is decoded and transformed, and any other status
/// fails the call with that status.
pub open spec fn spec_response_result(
    status: u16,
    response_etag: Option<Seq<char>>,
    body: Result<ServerRelayListModel, Seq<char>>,
) -> Result<Option<RelayListModel>, ErrorModel> {
    if status == STATUS_NOT_MODIFIED {
        Result::Ok(None)
    } else if status == STATUS_OK {
        match body {
            Result::Ok(w) => Result::Ok(Some(spec_into_relay_list(w, response_etag))),
            Result::Err(m) => Result::Err(ErrorModel::Decode(m)),
        }
    } else {
        Result::Err(ErrorModel::UnexpectedStatus(status))
    }
}

/// Fetches the relay list from the relay-list endpoint with conditional
/// caching.
#[derive(Debug, Clone)]
pub struct RelayListProxy {}

impl RelayListProxy {
    /// Constructs a new relay-list client.
    pub fn new() -> (proxy: Self) {
        RelayListProxy {}
    }

    /// Prepares the conditional request: the endpoint path, the prior
    /// validator as precondition header when one is known, and the fixed
    /// timeout.
    pub fn request_plan(&self, etag: &Option<String>) -> (plan: RequestPlan)
        ensures
            plan.path@ == spec_relay_list_path(),
            plan.if_none_match.deep_view() == etag.deep_view(),
            plan.timeout_secs == RELAY_LIST_TIMEOUT_SECS,
    {
        RequestPlan {
            path: String::from_str("app/v1/relays"),
            if_none_match: match etag {
                Some(tag) => Some(tag.clone()),
                None => None,
            },
            timeout_secs: RELAY_LIST_TIMEOUT_SECS,
        }
    }

    /// Decides the fetch from the observed status, the validator header (if
    /// present and readable as text) and the body's decoding outcome. The
    /// caller decodes the body only for a fresh response; for any other
    /// status the outcome handed in is ignored.
    pub fn interpret_response(
        &self,
        status: u16,
        response_etag: Option<String>,
        body: Result<ServerRelayList, String>,
    ) -> (r: Result<Option<RelayList>, Error>)
        ensures
            spec_fetch_model(r) == spec_response_result(
                status,
                response_etag.deep_view(),
                spec_body_model(body),
            ),
            !spec_status_acceptable(status) <==> spec_fetch_model(r) == Result::<
                Option<RelayListModel>,
                ErrorModel,
            >::Err(ErrorModel::UnexpectedStatus(status)),
    {
        if status == STATUS_NOT_MODIFIED {
            Ok(None)
        } else if status == STATUS_OK {
            match body {
                Ok(wire) => Ok(Some(wire.into_relay_list(response_etag))),
                Err(message) => Err(Error::Decode(message)),
            }
        } else {
            Err(Error::UnexpectedStatus(status))
        }
    }
}

} // verus!
