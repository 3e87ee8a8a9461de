//! The models leave nothing out: a value's model has each of its fields.

use crate::domain::DomainFilter;
use crate::provider::BraveSearchProvider;
use crate::request::BraveSearchRequest;
use crate::response::{BraveResult, BraveResults, BraveSearchResponse};
use crate::search::{decoded_model, HttpRequest, PendingSearch, RepliedSearch};
use crate::types::{
    outcome, result_models, ErrorModel, ToolError, WebSearchProviderMetadata,
    WebSearchProviderResponse, WebSearchResult,
};
use vstd::prelude::*;

verus! {

/// An error's model has its kind and its whole message.
pub proof fn law_error_models(message: String)
    ensures
        ToolError::Config(message)@ == ErrorModel::Config(message@),
        ToolError::InvalidArguments(message)@ == ErrorModel::InvalidArguments(message@),
        ToolError::Execution(message)@ == ErrorModel::Execution(message@),
{
}

/// A fallible result's model succeeds with the value's model or fails with the
/// error's.
pub proof fn law_outcomes<T: View>(value: T, error: ToolError)
    ensures
        outcome(Ok::<T, ToolError>(value)) == Ok::<T::V, ErrorModel>(value@),
        outcome(Err::<T, ToolError>(error)) == Err::<T::V, ErrorModel>(error@),
{
}

/// The models of what a request is made of.
pub proof fn law_request_models(request: BraveSearchRequest, filter: DomainFilter)
    ensures
        request@.query == request.query@,
        request@.count == request.count,
        request@.freshness == request.freshness,
        request@.country == request.country.deep_view(),
        request@.language == request.language.deep_view(),
        request@.domain_filter == request.domain_filter@,
        filter@.included == filter.included.deep_view(),
        filter@.excluded == filter.excluded.deep_view(),
{
}

/// The models of what a response is made of.
pub proof fn law_response_models(
    response: WebSearchProviderResponse,
    metadata: WebSearchProviderMetadata,
    result: WebSearchResult,
)
    ensures
        response@.web == result_models(response.web@),
        response@.news == result_models(response.news@),
        response@.metadata == response.metadata@,
        metadata@.provider == metadata.provider,
        metadata@.query == metadata.query@,
        metadata@.search_uuid == metadata.search_uuid.deep_view(),
        metadata@.latency == metadata.latency,
        result@.url == result.url@,
        result@.title == result.title.deep_view(),
        result@.description == result.description.deep_view(),
        result@.thumbnail_url == result.thumbnail_url.deep_view(),
{
}

/// A list's model has the model of each result, at its place.
pub proof fn law_list_models(results: Seq<WebSearchResult>)
    ensures
        result_models(results).len() == results.len(),
        forall|i: int|
            0 <= i < results.len() ==> #[trigger] result_models(results)[i] == results[i]@,
{
}

/// The models of what an envelope is made of.
pub proof fn law_envelope_models(
    response: BraveSearchResponse,
    section: BraveResults,
    item: BraveResult,
)
    ensures
        response@.web == response.web@,
        response@.news == response.news@,
        response@.search_term == response.query.search_term.deep_view(),
        section@.len() == section.results@.len(),
        forall|i: int|
            0 <= i < section.results@.len() ==> #[trigger] section@[i] == section.results@[i]@,
        item@.title == item.title.deep_view(),
        item@.description == item.description.deep_view(),
        item@.url == item.url.deep_view(),
{
}

/// The models of a provider and of the steps of a search.
pub proof fn law_search_models(
    provider: BraveSearchProvider,
    request: HttpRequest,
    pending: PendingSearch,
    replied: RepliedSearch,
)
    ensures
        provider.api_key matches Some(key) ==> provider@.api_key == Some(key.0@),
        provider.api_key is None ==> provider@.api_key is None,
        provider@.base_url == provider.base_url.deep_view(),
        request@.url == request.url@,
        request@.params == request.params.deep_view(),
        request@.header.0 == request.header.0@,
        request@.header.1 == request.header.1@,
        pending@.query == pending.query@,
        pending@.filter == pending.filter@,
        replied@.body == replied.body@,
        replied@.query == replied.query@,
        replied@.filter == replied.filter@,
{
}

/// A decoded body's model is the envelope's model or the whole message.
pub proof fn law_decoded_models(response: BraveSearchResponse, message: String)
    ensures
        decoded_model(Ok(response)) matches Ok(model) && model == response@,
        decoded_model(Err(message)) matches Err(text) && text == message@,
{
}

} // verus!
