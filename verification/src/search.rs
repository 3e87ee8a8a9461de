//! One search, step by step: what to send, and what each answer from outside
//! leads to.

use crate::domain::{DomainFilter, FilterModel};
use crate::provider::{BraveSearchProvider, ProviderModel, BRAVE_API_BASE_URL, BRAVE_API_KEY};
use crate::request::{request_for, BraveSearchRequest};
use crate::response::{provider_response, BraveResponseModel, BraveSearchResponse};
use crate::text::{decimal, join};
use crate::types::{
    outcome, ErrorModel, ResponseModel, ToolError, WebSearchArguments, WebSearchProviderResponse,
    WebSearchToolParam,
};
use vstd::prelude::*;

verus! {

/// A `GET` to make.
pub struct HttpRequest {
    pub url: String,
    pub params: Vec<(String, String)>,
    /// The one header to set, by name and value.
    pub header: (String, String),
}

/// [`HttpRequest`] over character sequences.
pub struct HttpModel {
    pub url: Seq<char>,
    pub params: Seq<(Seq<char>, Seq<char>)>,
    pub header: (Seq<char>, Seq<char>),
}

impl View for HttpRequest {
    type V = HttpModel;

    open spec fn view(&self) -> HttpModel {
        HttpModel {
            url: self.url@,
            params: self.params.deep_view(),
            header: (self.header.0@, self.header.1@),
        }
    }
}

/// A search that waits for the reply to its request. It does not hold the request.
pub struct PendingSearch {
    pub query: String,
    pub filter: DomainFilter,
}

/// [`PendingSearch`] over character sequences.
pub struct PendingModel {
    pub query: Seq<char>,
    pub filter: FilterModel,
}

impl View for PendingSearch {
    type V = PendingModel;

    open spec fn view(&self) -> PendingModel {
        PendingModel { query: self.query@, filter: self.filter@ }
    }
}

/// A search whose reply is to be decoded.
pub struct RepliedSearch {
    /// The reply's body, which should be JSON.
    pub body: String,
    pub query: String,
    pub filter: DomainFilter,
}

/// [`RepliedSearch`] over character sequences.
pub struct RepliedModel {
    pub body: Seq<char>,
    pub query: Seq<char>,
    pub filter: FilterModel,
}

impl View for RepliedSearch {
    type V = RepliedModel;

    open spec fn view(&self) -> RepliedModel {
        RepliedModel { body: self.body@, query: self.query@, filter: self.filter@ }
    }
}

/// The message for a setting that is missing.
pub open spec fn unset_message(variable: Seq<char>) -> Seq<char> {
    variable + " must be set to use the web_search tool"@
}

/// What a call starts with: the request to send and the search that waits for its
/// reply, or why there is none. A missing key is reported before a missing base URL,
/// and both before a refused count.
pub open spec fn search_start(
    provider: ProviderModel,
    query: Seq<char>,
    args: WebSearchArguments,
    config: WebSearchToolParam,
) -> Result<(HttpModel, PendingModel), ErrorModel> {
    match (provider.api_key, provider.base_url) {
        (None, _) => Err(ErrorModel::Config(unset_message(BRAVE_API_KEY@))),
        (Some(_), None) => Err(ErrorModel::Config(unset_message(BRAVE_API_BASE_URL@))),
        (Some(key), Some(base)) => match request_for(query, args, config) {
            Ok(request) => Ok(
                (
                    HttpModel {
                        url: base + "/res/v1/web/search"@,
                        params: request.params(),
                        header: ("X-Subscription-Token"@, key),
                    },
                    PendingModel { query: request.query, filter: request.domain_filter },
                ),
            ),
            Err(error) => Err(error),
        },
    }
}

/// The error for a request that could not be sent or got no reply.
pub open spec fn send_error(error: Seq<char>) -> ErrorModel {
    ErrorModel::Execution("Brave search request failed: "@ + error)
}

/// A status code's number and reason.
pub uninterp spec fn status_line(status: u16) -> Seq<char>;

/// Writes a status code with its reason.
///
/// Trusted: `reqwest::StatusCode::from_u16` accepts every code from 100 to 999,
/// and the `Display` text of the result is the number, a space and a reason, and
/// depends on the number alone. Nothing is claimed of the reasons.
#[verifier::external_body]
fn status_text(status: u16) -> (text: String)
    requires
        100 <= status <= 999,
    ensures
        text@ == status_line(status),
        (decimal(status as nat) + " "@).is_prefix_of(text@),
{
    match reqwest::StatusCode::from_u16(status) {
        Ok(status) => status.to_string(),
        Err(_) => String::new(),
    }
}

/// Whether a status code reports success.
pub open spec fn success(status: u16) -> bool {
    200 <= status < 300
}

/// The hint on when to try again, where the reply gives one.
pub open spec fn retry_note(retry_after: Option<Seq<char>>) -> Seq<char> {
    match retry_after {
        Some(value) => " (retry after "@ + value + "s)"@,
        None => Seq::empty(),
    }
}

/// The message for a reply that does not report success.
pub open spec fn rejection_message(
    status: Seq<char>,
    retry_after: Option<Seq<char>>,
    body: Seq<char>,
) -> Seq<char> {
    "Brave search returned "@ + status + retry_note(retry_after) + ": "@ + body
}

/// A body as far as it could be read.
pub open spec fn body_or_empty(body: Result<Seq<char>, ErrorModel>) -> Seq<char> {
    match body {
        Ok(text) => text,
        Err(_) => Seq::empty(),
    }
}

/// A decoded body, or why it could not be decoded, over character sequences.
pub open spec fn decoded_model(decoded: Result<BraveSearchResponse, String>) -> Result<
    BraveResponseModel,
    Seq<char>,
> {
    match decoded {
        Ok(response) => Ok(response@),
        Err(message) => Err(message@),
    }
}

/// What a reply leads to. One that does not report success is an error that gives
/// the status, the hint on when to try again and the body, if that could be read.
/// With success, a body that could not be read is an error as it stands.
pub open spec fn reply_result(
    pending: PendingModel,
    status: u16,
    retry_after: Option<Seq<char>>,
    body: Result<Seq<char>, ErrorModel>,
) -> Result<RepliedModel, ErrorModel> {
    if success(status) {
        match body {
            Ok(text) => Ok(
                RepliedModel { body: text, query: pending.query, filter: pending.filter },
            ),
            Err(error) => Err(error),
        }
    } else {
        Err(
            ErrorModel::Execution(
                rejection_message(status_line(status), retry_after, body_or_empty(body)),
            ),
        )
    }
}

/// What decoding a reply leads to.
pub open spec fn decode_result(
    replied: RepliedModel,
    decoded: Result<BraveResponseModel, Seq<char>>,
) -> Result<ResponseModel, ErrorModel> {
    match decoded {
        Ok(response) => Ok(
            provider_response(response, replied.query, replied.filter),
        ),
        Err(error) => Err(
            ErrorModel::Execution("Brave search returned invalid JSON: "@ + error),
        ),
    }
}

/// The error for a reply that does not report success.
pub fn rejection(status: &str, retry_after: Option<&str>, body: &str) -> (error: ToolError)
    ensures
        error@ == ErrorModel::Execution(
            rejection_message(status@, retry_after.deep_view(), body@),
        ),
{
    let note = match retry_after {
        Some(value) => join(" (retry after ", value, "s)"),
        None => String::new(),
    };
    let mut message = join("Brave search returned ", status, note.as_str());
    message.append(": ");
    message.append(body);
    ToolError::Execution(message)
}

fn unset(variable: &str) -> (error: ToolError)
    ensures
        error@ == ErrorModel::Config(unset_message(variable@)),
{
    let mut message = variable.to_owned();
    message.append(" must be set to use the web_search tool");
    ToolError::Config(message)
}

impl BraveSearchProvider {
    /// Starts a search: the request to send and the search that waits for its
    /// reply, or why there is none.
    pub fn search(
        &self,
        query: &str,
        args: &WebSearchArguments,
        config: &WebSearchToolParam,
    ) -> (r: Result<(HttpRequest, PendingSearch), ToolError>)
        ensures
            outcome(r) == search_start(self@, query@, *args, *config),
    {
        let key = match &self.api_key {
            Some(key) => key,
            None => {
                return Err(unset(BRAVE_API_KEY));
            },
        };
        let base = match &self.base_url {
            Some(base) => base,
            None => {
                return Err(unset(BRAVE_API_BASE_URL));
            },
        };
        let request = BraveSearchRequest::from_args_and_config(query, args, config)?;
        let mut url = base.clone();
        url.append("/res/v1/web/search");
        let http = HttpRequest {
            url,
            params: request.query_params(),
            header: ("X-Subscription-Token".to_owned(), key.0.clone()),
        };
        Ok((http, PendingSearch { query: request.query, filter: request.domain_filter }))
    }
}

impl PendingSearch {
    /// The error for a request that could not be sent or got no reply.
    pub fn send_failed(self, error: &str) -> (r: ToolError)
        ensures
            r@ == send_error(error@),
    {
        let mut message = "Brave search request failed: ".to_owned();
        message.append(error);
        ToolError::Execution(message)
    }

    /// Takes a reply: its status code, the value of its `retry-after` header, and
    /// its body or the error that reading it ended in.
    pub fn replied(
        self,
        status: u16,
        retry_after: Option<&str>,
        body: Result<String, ToolError>,
    ) -> (r: Result<RepliedSearch, ToolError>)
        requires
            100 <= status <= 999,
        ensures
            outcome(r) == reply_result(
                self@,
                status,
                retry_after.deep_view(),
                outcome(body),
            ),
            !success(status) ==> (r matches Err(ToolError::Execution(message))
                && ("Brave search returned "@ + decimal(status as nat) + " "@).is_prefix_of(
                message@,
            )),
    {
        if 200 <= status && status < 300 {
            match body {
                Ok(text) => Ok(
                    RepliedSearch { body: text, query: self.query, filter: self.filter },
                ),
                Err(error) => Err(error),
            }
        } else {
            let text = match body {
                Ok(text) => text,
                Err(_) => String::new(),
            };
            let status_text = status_text(status);
            proof {
                let number = decimal(status as nat) + " "@;
                let message = rejection_message(
                    status_text@,
                    retry_after.deep_view(),
                    text@,
                );
                let start = "Brave search returned "@ + decimal(status as nat) + " "@;
                assert(start =~= "Brave search returned "@ + number);
                assert(number =~= status_text@.subrange(0, number.len() as int));
                assert(start =~= message.subrange(0, start.len() as int));
            }
            Err(rejection(status_text.as_str(), retry_after, text.as_str()))
        }
    }
}

impl RepliedSearch {
    /// Takes the decoded body, or why it could not be decoded.
    pub fn decoded(self, decoded: Result<BraveSearchResponse, String>) -> (r: Result<
        WebSearchProviderResponse,
        ToolError,
    >)
        ensures
            outcome(r) == decode_result(self@, decoded_model(decoded)),
    {
        match decoded {
            Ok(response) => Ok(
                response.into_provider_response(self.query.as_str(), &self.filter),
            ),
            Err(message) => {
                let mut text = "Brave search returned invalid JSON: ".to_owned();
                text.append(message.as_str());
                Err(ToolError::Execution(text))
            },
        }
    }
}

} // verus!
