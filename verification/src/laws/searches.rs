//! What each step of a search answers.

use crate::provider::{ProviderModel, BRAVE_API_BASE_URL, BRAVE_API_KEY};
use crate::request::{request_for, RequestModel};
use crate::response::{provider_response, BraveResponseModel};
use crate::search::{
    decode_result, reply_result, search_start, send_error, status_line, HttpModel, PendingModel,
    RepliedModel,
};
use crate::types::{ErrorModel, ResponseModel, WebSearchArguments, WebSearchToolParam};
use vstd::prelude::*;

verus! {

/// A search that cannot start says which setting is missing, the key first, or hands
/// on why its request was refused. Every other search starts.
pub proof fn law_why_a_search_does_not_start(
    provider: ProviderModel,
    query: Seq<char>,
    args: WebSearchArguments,
    config: WebSearchToolParam,
)
    ensures
        provider.api_key is None ==> search_start(provider, query, args, config) == Err::<
            (HttpModel, PendingModel),
            ErrorModel,
        >(ErrorModel::Config(BRAVE_API_KEY@ + " must be set to use the web_search tool"@)),
        provider.api_key is Some && provider.base_url is None ==> search_start(
            provider,
            query,
            args,
            config,
        ) == Err::<(HttpModel, PendingModel), ErrorModel>(
            ErrorModel::Config(BRAVE_API_BASE_URL@ + " must be set to use the web_search tool"@),
        ),
        provider.api_key is Some && provider.base_url is Some && request_for(
            query,
            args,
            config,
        ) is Err ==> search_start(provider, query, args, config) == Err::<
            (HttpModel, PendingModel),
            ErrorModel,
        >(request_for(query, args, config)->Err_0),
        search_start(provider, query, args, config) is Ok <==> provider.api_key is Some
            && provider.base_url is Some && args.count != Some(0u16),
{
}

/// A search that starts sends its request's parameters under the base URL with the
/// key in the one header, and waits with its request's query and filter.
pub proof fn law_how_a_search_starts(
    provider: ProviderModel,
    query: Seq<char>,
    args: WebSearchArguments,
    config: WebSearchToolParam,
    key: Seq<char>,
    base: Seq<char>,
    request: RequestModel,
)
    requires
        provider.api_key == Some(key),
        provider.base_url == Some(base),
        request_for(query, args, config) == Ok::<RequestModel, ErrorModel>(request),
    ensures
        search_start(provider, query, args, config) matches Ok((sent, pending)) && sent.url == base
            + "/res/v1/web/search"@ && sent.params == request.params() && sent.header.0
            == "X-Subscription-Token"@ && sent.header.1 == key && pending.query == request.query
            && pending.filter == request.domain_filter,
{
}

/// A request that fails is answered with the whole of what went wrong.
pub proof fn law_how_a_failed_request_is_answered(error: Seq<char>)
    ensures
        send_error(error) == ErrorModel::Execution("Brave search request failed: "@ + error),
{
}

/// A reply with a status from 200 to 299 is decoded as it was read, or ends the search
/// with the error that reading it ended in, whatever its hint says.
pub proof fn law_how_a_success_is_taken(
    pending: PendingModel,
    status: u16,
    retry_after: Option<Seq<char>>,
    body: Result<Seq<char>, ErrorModel>,
)
    requires
        200 <= status <= 299,
    ensures
        body matches Ok(text) ==> (reply_result(
            pending,
            status,
            retry_after,
            body,
        ) matches Ok(replied) && replied.body == text && replied.query == pending.query
            && replied.filter == pending.filter),
        body matches Err(error) ==> reply_result(pending, status, retry_after, body) == Err::<
            RepliedModel,
            ErrorModel,
        >(error),
{
}

/// A reply with any other status ends the search with the status, then the hint on
/// when to try again where there is one, then the body, empty where it could not be
/// read.
pub proof fn law_how_a_rejection_is_answered(
    pending: PendingModel,
    status: u16,
    retry_after: Option<Seq<char>>,
    body: Result<Seq<char>, ErrorModel>,
)
    requires
        !(200 <= status <= 299),
    ensures
        ({
            let hint = match retry_after {
                Some(value) => " (retry after "@ + value + "s)"@,
                None => Seq::empty(),
            };
            let text = match body {
                Ok(text) => text,
                Err(_) => Seq::empty(),
            };
            reply_result(pending, status, retry_after, body) == Err::<RepliedModel, ErrorModel>(
                ErrorModel::Execution(
                    "Brave search returned "@ + status_line(status) + hint + ": "@ + text,
                ),
            )
        }),
{
}

/// A body that decodes is mapped with the search's own query and filter, and one that
/// does not ends the search with the whole of what went wrong.
pub proof fn law_how_a_body_is_taken(
    replied: RepliedModel,
    decoded: Result<BraveResponseModel, Seq<char>>,
)
    ensures
        decoded matches Ok(response) ==> decode_result(replied, decoded) == Ok::<
            ResponseModel,
            ErrorModel,
        >(provider_response(response, replied.query, replied.filter)),
        decoded matches Err(error) ==> decode_result(replied, decoded) == Err::<
            ResponseModel,
            ErrorModel,
        >(ErrorModel::Execution("Brave search returned invalid JSON: "@ + error)),
{
}

} // verus!
