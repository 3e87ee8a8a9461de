//! What the `web_search` tool exchanges with its providers: arguments,
//! request-level configuration, results and errors.

use crate::text::{trim, trimmed};
use vstd::prelude::*;

verus! {

/// Why a search produced no results.
#[derive(Debug, Clone, PartialEq, Eq)]
pub enum ToolError {
    /// The tool is not set up.
    Config(String),
    /// The caller's arguments cannot be used.
    InvalidArguments(String),
    /// The search was attempted and failed.
    Execution(String),
}

/// [`ToolError`] with its message as a character sequence.
pub enum ErrorModel {
    Config(Seq<char>),
    InvalidArguments(Seq<char>),
    Execution(Seq<char>),
}

impl View for ToolError {
    type V = ErrorModel;

    open spec fn view(&self) -> ErrorModel {
        match self {
            ToolError::Config(message) => ErrorModel::Config(message@),
            ToolError::InvalidArguments(message) => ErrorModel::InvalidArguments(message@),
            ToolError::Execution(message) => ErrorModel::Execution(message@),
        }
    }
}

/// A fallible result over the views of what it holds.
pub open spec fn outcome<T: View>(r: Result<T, ToolError>) -> Result<T::V, ErrorModel> {
    match r {
        Ok(value) => Ok(value@),
        Err(error) => Err(error@),
    }
}

/// The search services that can stand behind the tool.
#[derive(Debug, Clone, Copy, PartialEq, Eq, Structural)]
pub enum WebSearchProviderKind {
    Brave,
    You,
}

/// How much context the caller wants from a search.
#[derive(Debug, Clone, Copy, PartialEq, Eq, Structural)]
pub enum WebSearchContextSize {
    Low,
    Medium,
    High,
}

impl WebSearchContextSize {
    /// The number of results that a context size asks for.
    pub open spec fn result_count(self) -> u8 {
        match self {
            WebSearchContextSize::Low => 5,
            WebSearchContextSize::Medium => 10,
            WebSearchContextSize::High => 20,
        }
    }

    /// The number of results to ask for when the call names none.
    pub fn default_count(self) -> (count: u8)
        ensures
            count == self.result_count(),
    {
        match self {
            WebSearchContextSize::Low => 5,
            WebSearchContextSize::Medium => 10,
            WebSearchContextSize::High => 20,
        }
    }
}

/// Domains that the request allows or blocks.
#[derive(Debug, Clone, PartialEq, Eq)]
pub struct WebSearchFilters {
    pub allowed_domains: Option<Vec<String>>,
    pub blocked_domains: Option<Vec<String>>,
}

/// Where the user is.
#[derive(Debug, Clone, PartialEq, Eq)]
pub struct WebSearchUserLocation {
    pub country: Option<String>,
    pub region: Option<String>,
    pub city: Option<String>,
    pub timezone: Option<String>,
}

impl Default for WebSearchUserLocation {
    fn default() -> (location: Self)
        ensures
            location == (WebSearchUserLocation {
                country: None,
                region: None,
                city: None,
                timezone: None,
            }),
    {
        WebSearchUserLocation { country: None, region: None, city: None, timezone: None }
    }
}

/// Request-level configuration of the tool.
#[derive(Debug, Clone, PartialEq, Eq)]
pub struct WebSearchToolParam {
    pub search_context_size: Option<WebSearchContextSize>,
    pub filters: Option<WebSearchFilters>,
    pub user_location: Option<WebSearchUserLocation>,
}

impl Default for WebSearchToolParam {
    fn default() -> (param: Self)
        ensures
            param == (WebSearchToolParam {
                search_context_size: None,
                filters: None,
                user_location: None,
            }),
    {
        WebSearchToolParam { search_context_size: None, filters: None, user_location: None }
    }
}

/// A calendar date.
#[derive(Debug, Clone, Copy, PartialEq, Eq, Structural)]
pub struct Date {
    pub year: u16,
    pub month: u8,
    pub day: u8,
}

/// How recent results have to be.
#[derive(Debug, Clone, Copy, PartialEq, Eq, Structural)]
pub enum Freshness {
    Day,
    Week,
    Month,
    Year,
    Range { start: Date, end: Date },
}

/// The arguments of one call of the tool, besides the query itself.
#[derive(Debug, Clone, PartialEq, Eq)]
pub struct WebSearchArguments {
    pub count: Option<u16>,
    pub freshness: Option<Freshness>,
    pub country: Option<String>,
    pub language: Option<String>,
    pub include_domains: Option<Vec<String>>,
    pub exclude_domains: Option<Vec<String>>,
    pub boost_domains: Option<Vec<String>>,
    pub livecrawl: Option<String>,
    pub livecrawl_formats: Option<Vec<String>>,
    pub crawl_timeout: Option<u16>,
}

impl Default for WebSearchArguments {
    fn default() -> (args: Self)
        ensures
            args == (WebSearchArguments {
                count: None,
                freshness: None,
                country: None,
                language: None,
                include_domains: None,
                exclude_domains: None,
                boost_domains: None,
                livecrawl: None,
                livecrawl_formats: None,
                crawl_timeout: None,
            }),
    {
        WebSearchArguments {
            count: None,
            freshness: None,
            country: None,
            language: None,
            include_domains: None,
            exclude_domains: None,
            boost_domains: None,
            livecrawl: None,
            livecrawl_formats: None,
            crawl_timeout: None,
        }
    }
}

/// One search result, whichever provider it came from.
#[derive(Debug, Clone, PartialEq, Eq)]
pub struct WebSearchResult {
    pub url: String,
    pub title: Option<String>,
    pub description: Option<String>,
    pub thumbnail_url: Option<String>,
}

/// [`WebSearchResult`] over character sequences.
pub struct ResultModel {
    pub url: Seq<char>,
    pub title: Option<Seq<char>>,
    pub description: Option<Seq<char>>,
    pub thumbnail_url: Option<Seq<char>>,
}

impl View for WebSearchResult {
    type V = ResultModel;

    open spec fn view(&self) -> ResultModel {
        ResultModel {
            url: self.url@,
            title: self.title.deep_view(),
            description: self.description.deep_view(),
            thumbnail_url: self.thumbnail_url.deep_view(),
        }
    }
}

impl Default for WebSearchResult {
    fn default() -> (result: Self)
        ensures
            result@ == (ResultModel {
                url: Seq::empty(),
                title: None,
                description: None,
                thumbnail_url: None,
            }),
    {
        WebSearchResult { url: String::new(), title: None, description: None, thumbnail_url: None }
    }
}

/// Where results came from and for which query.
#[derive(Debug, Clone, PartialEq, Eq)]
pub struct WebSearchProviderMetadata {
    pub provider: WebSearchProviderKind,
    pub query: String,
    pub search_uuid: Option<String>,
    /// Milliseconds that the provider reports to have taken.
    pub latency: Option<u64>,
}

/// [`WebSearchProviderMetadata`] over character sequences.
pub struct MetadataModel {
    pub provider: WebSearchProviderKind,
    pub query: Seq<char>,
    pub search_uuid: Option<Seq<char>>,
    pub latency: Option<u64>,
}

impl View for WebSearchProviderMetadata {
    type V = MetadataModel;

    open spec fn view(&self) -> MetadataModel {
        MetadataModel {
            provider: self.provider,
            query: self.query@,
            search_uuid: self.search_uuid.deep_view(),
            latency: self.latency,
        }
    }
}

/// The results of one search.
#[derive(Debug, Clone, PartialEq, Eq)]
pub struct WebSearchProviderResponse {
    pub web: Vec<WebSearchResult>,
    pub news: Vec<WebSearchResult>,
    pub metadata: WebSearchProviderMetadata,
}

/// [`WebSearchProviderResponse`] over character sequences.
pub struct ResponseModel {
    pub web: Seq<ResultModel>,
    pub news: Seq<ResultModel>,
    pub metadata: MetadataModel,
}

/// A list of results, each over character sequences.
pub open spec fn result_models(results: Seq<WebSearchResult>) -> Seq<ResultModel> {
    Seq::new(results.len(), |i: int| results[i]@)
}

impl View for WebSearchProviderResponse {
    type V = ResponseModel;

    open spec fn view(&self) -> ResponseModel {
        ResponseModel {
            web: result_models(self.web@),
            news: result_models(self.news@),
            metadata: self.metadata@,
        }
    }
}

/// `s` trimmed, or nothing where that leaves nothing.
pub open spec fn nonblank(s: Seq<char>) -> Option<Seq<char>> {
    if trimmed(s).len() > 0 {
        Some(trimmed(s))
    } else {
        None
    }
}

/// The entries of `list` trimmed, without those that are blank.
pub open spec fn clean_entries(list: Seq<Seq<char>>) -> Seq<Seq<char>> {
    list.map_values(|s: Seq<char>| trimmed(s)).filter(|s: Seq<char>| s.len() > 0)
}

/// The clean entries of `list`, or nothing where there are none.
pub open spec fn clean_list(list: Option<Seq<Seq<char>>>) -> Option<Seq<Seq<char>>> {
    match list {
        Some(entries) if clean_entries(entries).len() > 0 => Some(clean_entries(entries)),
        _ => None,
    }
}

/// Trims an optional value; a blank one counts as unset.
pub fn clean_string(value: Option<&str>) -> (r: Option<String>)
    ensures
        r.deep_view() == (match value {
            Some(text) => nonblank(text@),
            None => None,
        }),
{
    match value {
        Some(text) => {
            let text = trim(text);
            if text.is_empty() {
                None
            } else {
                Some(text.to_owned())
            }
        },
        None => None,
    }
}

/// Trims the entries of an optional list and drops blank ones; a list with
/// nothing left counts as unset.
pub fn clean_vec(values: Option<&[String]>) -> (r: Option<Vec<String>>)
    ensures
        r.deep_view() == clean_list(values.deep_view()),
{
    match values {
        Some(values) => {
            let ghost texts = values.deep_view().map_values(|s: Seq<char>| trimmed(s));
            let ghost kept = |s: Seq<char>| s.len() > 0;
            let mut clean: Vec<String> = Vec::new();
            let mut i: usize = 0;
            assert(texts.take(0).filter(kept) =~= Seq::empty()) by {
                reveal(Seq::filter);
            }
            while i < values.len()
                invariant
                    i <= values.len() == texts.len(),
                    texts == values.deep_view().map_values(|s: Seq<char>| trimmed(s)),
                    kept == (|s: Seq<char>| s.len() > 0),
                    clean.deep_view() == texts.take(i as int).filter(kept),
                decreases values.len() - i,
            {
                let text = trim(values[i].as_str());
                proof {
                    reveal(Seq::filter);
                    assert(texts.take(i + 1).drop_last() == texts.take(i as int));
                    assert(texts.take(i + 1).last() == text@);
                }
                if !text.is_empty() {
                    clean.push(text.to_owned());
                }
                assert(clean.deep_view() =~= texts.take(i + 1).filter(kept));
                i += 1;
            }
            assert(texts.take(i as int) == texts);
            if clean.is_empty() {
                None
            } else {
                Some(clean)
            }
        },
        None => None,
    }
}

/// The message for a count of zero.
pub open spec fn count_message() -> Seq<char> {
    "web_search count must be at least 1"@
}

/// What a requested count comes to: zero asks for nothing and is refused, and
/// a count past what a byte holds is taken as the largest byte.
pub open spec fn valid_count(count: u16) -> Result<u8, ErrorModel> {
    if count == 0 {
        Err(ErrorModel::InvalidArguments(count_message()))
    } else if count <= 255 {
        Ok(count as u8)
    } else {
        Ok(255)
    }
}

/// Checks a requested count and brings it into a byte.
pub fn validate_count(count: u16) -> (r: Result<u8, ToolError>)
    ensures
        outcome(r) == valid_count(count),
{
    if count == 0 {
        Err(ToolError::InvalidArguments("web_search count must be at least 1".to_owned()))
    } else if count <= 255 {
        Ok(count as u8)
    } else {
        Ok(255)
    }
}

} // verus!
