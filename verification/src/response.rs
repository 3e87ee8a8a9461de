//! Brave's response envelope and its mapping onto provider-neutral results.

use crate::domain::{DomainFilter, FilterModel};
use crate::types::{
    result_models, MetadataModel, ResponseModel, ResultModel, WebSearchProviderKind,
    WebSearchProviderMetadata, WebSearchProviderResponse, WebSearchResult,
};
use vstd::prelude::*;

verus! {

/// One Brave result item. Every field may be missing.
#[derive(Debug)]
pub struct BraveResult {
    pub title: Option<String>,
    pub description: Option<String>,
    pub url: Option<String>,
}

/// One section of results.
#[derive(Debug)]
pub struct BraveResults {
    pub results: Vec<BraveResult>,
}

/// The query as Brave understood it.
#[derive(Debug)]
pub struct BraveQuery {
    pub search_term: Option<String>,
}

/// Brave's `GET /res/v1/web/search` response envelope. A section that the reply
/// leaves out is empty.
#[derive(Debug)]
pub struct BraveSearchResponse {
    pub web: BraveResults,
    pub news: BraveResults,
    pub query: BraveQuery,
}

/// [`BraveResult`] over character sequences.
pub struct BraveResultModel {
    pub title: Option<Seq<char>>,
    pub description: Option<Seq<char>>,
    pub url: Option<Seq<char>>,
}

impl View for BraveResult {
    type V = BraveResultModel;

    open spec fn view(&self) -> BraveResultModel {
        BraveResultModel {
            title: self.title.deep_view(),
            description: self.description.deep_view(),
            url: self.url.deep_view(),
        }
    }
}

impl View for BraveResults {
    type V = Seq<BraveResultModel>;

    open spec fn view(&self) -> Seq<BraveResultModel> {
        Seq::new(self.results@.len(), |i: int| self.results@[i]@)
    }
}

/// [`BraveSearchResponse`] over character sequences.
pub struct BraveResponseModel {
    pub web: Seq<BraveResultModel>,
    pub news: Seq<BraveResultModel>,
    pub search_term: Option<Seq<char>>,
}

impl View for BraveSearchResponse {
    type V = BraveResponseModel;

    open spec fn view(&self) -> BraveResponseModel {
        BraveResponseModel {
            web: self.web@,
            news: self.news@,
            search_term: self.query.search_term.deep_view(),
        }
    }
}

impl Default for BraveResult {
    fn default() -> (result: Self)
        ensures
            result == (BraveResult { title: None, description: None, url: None }),
    {
        BraveResult { title: None, description: None, url: None }
    }
}

impl Default for BraveResults {
    fn default() -> (section: Self)
        ensures
            section@ == Seq::<BraveResultModel>::empty(),
    {
        let section = BraveResults { results: Vec::new() };
        assert(section@ =~= Seq::empty());
        section
    }
}

impl Default for BraveQuery {
    fn default() -> (query: Self)
        ensures
            query == (BraveQuery { search_term: None }),
    {
        BraveQuery { search_term: None }
    }
}

impl Default for BraveSearchResponse {
    fn default() -> (response: Self)
        ensures
            response@ == (BraveResponseModel {
                web: Seq::empty(),
                news: Seq::empty(),
                search_term: None,
            }),
    {
        BraveSearchResponse {
            web: BraveResults::default(),
            news: BraveResults::default(),
            query: BraveQuery::default(),
        }
    }
}

/// A Brave item as a provider-neutral result: a missing URL is an empty one, and
/// what Brave does not document stays unset.
pub open spec fn mapped(result: BraveResultModel) -> ResultModel {
    ResultModel {
        url: match result.url {
            Some(url) => url,
            None => Seq::empty(),
        },
        title: result.title,
        description: result.description,
        thumbnail_url: None,
    }
}

/// A section's items, mapped, without those whose URL the filter does not admit.
pub open spec fn filtered(section: Seq<BraveResultModel>, filter: FilterModel) -> Seq<ResultModel> {
    section.map_values(|r: BraveResultModel| mapped(r)).filter(
        |r: ResultModel| filter.admits_url(r.url),
    )
}

/// The provider-neutral response. It names the query as Brave understood it, or
/// `query` where Brave does not say.
pub open spec fn provider_response(
    response: BraveResponseModel,
    query: Seq<char>,
    filter: FilterModel,
) -> ResponseModel {
    ResponseModel {
        web: filtered(response.web, filter),
        news: filtered(response.news, filter),
        metadata: MetadataModel {
            provider: WebSearchProviderKind::Brave,
            query: match response.search_term {
                Some(term) => term,
                None => query,
            },
            search_uuid: None,
            latency: None,
        },
    }
}

/// Maps one Brave item.
pub fn into_web_search_result(result: BraveResult) -> (r: WebSearchResult)
    ensures
        r@ == mapped(result@),
{
    WebSearchResult {
        url: match result.url {
            Some(url) => url,
            None => String::new(),
        },
        title: result.title,
        description: result.description,
        thumbnail_url: None,
    }
}

proof fn lemma_filter_models(results: Seq<WebSearchResult>, filter: FilterModel)
    ensures
        result_models(
            results.filter(|r: WebSearchResult| filter.admits_url(r.url@)),
        ) == result_models(results).filter(
            |r: ResultModel| filter.admits_url(r.url),
        ),
    decreases results.len(),
{
    reveal(Seq::filter);
    let models = result_models(results);
    if results.len() > 0 {
        lemma_filter_models(results.drop_last(), filter);
        assert(result_models(results.drop_last()) =~= models.drop_last());
    }
    assert(result_models(
        results.filter(|r: WebSearchResult| filter.admits_url(r.url@)),
    ) =~= models.filter(|r: ResultModel| filter.admits_url(r.url)));
}

fn map_section(section: BraveResults, filter: &DomainFilter) -> (results: Vec<WebSearchResult>)
    ensures
        result_models(results@) == filtered(section@, filter@),
{
    let ghost items = section.results@;
    let mut results: Vec<WebSearchResult> = Vec::new();
    for item in it: section.results.into_iter()
        invariant
            it.seq() == items,
            results@.len() == it.index(),
            forall|j: int| 0 <= j < it.index() ==> (#[trigger] results@[j])@ == mapped(items[j]@),
    {
        results.push(into_web_search_result(item));
    }
    let ghost unfiltered = results@;
    filter.retain(&mut results);
    proof {
        lemma_filter_models(unfiltered, filter@);
        assert(result_models(unfiltered) =~= section@.map_values(
            |r: BraveResultModel| mapped(r),
        ));
    }
    results
}

impl BraveSearchResponse {
    /// Maps the envelope and drops the results that the filter does not admit.
    pub fn into_provider_response(
        self,
        query: &str,
        filter: &DomainFilter,
    ) -> (r: WebSearchProviderResponse)
        ensures
            r@ == provider_response(self@, query@, filter@),
    {
        let web = map_section(self.web, filter);
        let news = map_section(self.news, filter);
        WebSearchProviderResponse {
            web,
            news,
            metadata: WebSearchProviderMetadata {
                provider: WebSearchProviderKind::Brave,
                query: match self.query.search_term {
                    Some(term) => term,
                    None => query.to_owned(),
                },
                search_uuid: None,
                latency: None,
            },
        }
    }
}

} // verus!
