//! The query parameters of Brave's `GET /res/v1/web/search`.

use crate::domain::{listed, DomainFilter, FilterModel};
use crate::text::{decimal, decimal_numeral, to_ascii_uppercase, trim, trimmed, uppercase};
use crate::types::{
    clean_list, clean_string, clean_vec, nonblank, outcome, valid_count, validate_count,
    ErrorModel, Freshness, ToolError, WebSearchArguments, WebSearchToolParam,
};
use vstd::prelude::*;

verus! {

/// Free-tier cap on results per section. A requested count above it is lowered
/// to it rather than refused, since a caller cannot know a provider's limit.
pub const BRAVE_MAX_COUNT: u8 = 20;

/// One search as Brave takes it, with the domains that only the results can be
/// held to: Brave has no domain filter of its own.
#[derive(Debug, PartialEq)]
pub struct BraveSearchRequest {
    pub query: String,
    pub count: Option<u8>,
    pub freshness: Option<Freshness>,
    pub country: Option<String>,
    pub language: Option<String>,
    pub domain_filter: DomainFilter,
}

/// [`BraveSearchRequest`] over character sequences.
pub struct RequestModel {
    pub query: Seq<char>,
    pub count: Option<u8>,
    pub freshness: Option<Freshness>,
    pub country: Option<Seq<char>>,
    pub language: Option<Seq<char>>,
    pub domain_filter: FilterModel,
}

impl View for BraveSearchRequest {
    type V = RequestModel;

    open spec fn view(&self) -> RequestModel {
        RequestModel {
            query: self.query@,
            count: self.count,
            freshness: self.freshness,
            country: self.country.deep_view(),
            language: self.language.deep_view(),
            domain_filter: self.domain_filter@,
        }
    }
}

/// Brave's word for a freshness, which a date range does not have.
pub open spec fn freshness_word(freshness: Freshness) -> Option<Seq<char>> {
    match freshness {
        Freshness::Day => Some("pd"@),
        Freshness::Week => Some("pw"@),
        Freshness::Month => Some("pm"@),
        Freshness::Year => Some("py"@),
        Freshness::Range { .. } => None,
    }
}

/// The parameter `key`, where there is a value for it.
pub open spec fn optional_param(key: Seq<char>, value: Option<Seq<char>>) -> Seq<
    (Seq<char>, Seq<char>),
> {
    match value {
        Some(value) => seq![(key, value)],
        None => Seq::empty(),
    }
}

impl RequestModel {
    /// The value of `count`.
    pub open spec fn count_value(self) -> Option<Seq<char>> {
        match self.count {
            Some(count) => Some(decimal(count as nat)),
            None => None,
        }
    }

    /// The value of `freshness`.
    pub open spec fn freshness_value(self) -> Option<Seq<char>> {
        match self.freshness {
            Some(freshness) => freshness_word(freshness),
            None => None,
        }
    }

    /// The query parameters, in the order in which they are sent.
    pub open spec fn params(self) -> Seq<(Seq<char>, Seq<char>)> {
        seq![("q"@, self.query), ("result_filter"@, "web,news"@)] + optional_param(
            "count"@,
            self.count_value(),
        ) + optional_param("freshness"@, self.freshness_value()) + optional_param(
            "country"@,
            self.country,
        ) + optional_param("search_lang"@, self.language)
    }
}

/// A requested count held to Brave's cap.
pub open spec fn capped_count(count: u16) -> Result<u8, ErrorModel> {
    match valid_count(count) {
        Ok(valid) => Ok(
            if valid < BRAVE_MAX_COUNT {
                valid
            } else {
                BRAVE_MAX_COUNT
            },
        ),
        Err(error) => Err(error),
    }
}

/// The count that a call asks for: its own, else what its context size stands for.
pub open spec fn requested_count(args: WebSearchArguments, config: WebSearchToolParam) -> Option<
    u16,
> {
    match (args.count, config.search_context_size) {
        (Some(count), _) => Some(count),
        (None, Some(size)) => Some(size.result_count() as u16),
        (None, None) => None,
    }
}

/// The configured list, cleaned, where that leaves anything; else the call's own.
pub open spec fn chosen_domains(
    configured: Option<Seq<Seq<char>>>,
    own: Option<Seq<Seq<char>>>,
) -> Seq<Seq<char>> {
    match clean_list(configured) {
        Some(domains) => domains,
        None => listed(own),
    }
}

/// The filter that a call's results are held to. Each of the two configured
/// lists takes the place of the call's own.
pub open spec fn chosen_filter(args: WebSearchArguments, config: WebSearchToolParam) -> FilterModel {
    let (allowed, blocked) = match config.filters {
        Some(filters) => (filters.allowed_domains.deep_view(), filters.blocked_domains.deep_view()),
        None => (None, None),
    };
    FilterModel {
        included: chosen_domains(allowed, args.include_domains.deep_view()),
        excluded: chosen_domains(blocked, args.exclude_domains.deep_view()),
    }
}

/// The country that the user's location names, unless that is blank; else the
/// call's own.
pub open spec fn chosen_country(args: WebSearchArguments, config: WebSearchToolParam) -> Option<
    Seq<char>,
> {
    let located = match config.user_location {
        Some(location) => match location.country {
            Some(country) => nonblank(country@),
            None => None,
        },
        None => None,
    };
    match (located, args.country) {
        (Some(country), _) => Some(country),
        (None, Some(country)) => Some(country@),
        (None, None) => None,
    }
}

/// The request for a call, or the error for a count that is refused.
pub open spec fn request_for(
    query: Seq<char>,
    args: WebSearchArguments,
    config: WebSearchToolParam,
) -> Result<RequestModel, ErrorModel> {
    let capped = match requested_count(args, config) {
        Some(count) => match capped_count(count) {
            Ok(count) => Ok(Some(count)),
            Err(error) => Err(error),
        },
        None => Ok(None),
    };
    match capped {
        Ok(count) => Ok(
            RequestModel {
                query: trimmed(query),
                count,
                freshness: args.freshness,
                country: match chosen_country(args, config) {
                    Some(country) => Some(uppercase(country)),
                    None => None,
                },
                language: args.language.deep_view(),
                domain_filter: chosen_filter(args, config),
            },
        ),
        Err(error) => Err(error),
    }
}

/// Renders a freshness in Brave's words.
///
/// A date range has no counterpart at Brave. It renders to an empty string,
/// which is left out of the query.
pub fn brave_freshness(freshness: &Freshness) -> (word: String)
    ensures
        word@ == (match freshness_word(*freshness) {
            Some(word) => word,
            None => Seq::empty(),
        }),
{
    match freshness {
        Freshness::Day => "pd".to_owned(),
        Freshness::Week => "pw".to_owned(),
        Freshness::Month => "pm".to_owned(),
        Freshness::Year => "py".to_owned(),
        Freshness::Range { .. } => String::new(),
    }
}

/// Holds a requested count to Brave's cap without failing the call for it.
pub fn clamp_count(count: u16) -> (r: Result<u8, ToolError>)
    ensures
        outcome(r) == capped_count(count),
{
    let valid: u8 = validate_count(count)?;
    if valid < BRAVE_MAX_COUNT {
        Ok(valid)
    } else {
        Ok(BRAVE_MAX_COUNT)
    }
}

fn slice_of(list: &Option<Vec<String>>) -> (slice: Option<&[String]>)
    ensures
        slice.deep_view() == list.deep_view(),
{
    match list {
        Some(list) => {
            let slice = list.as_slice();
            assert(slice.deep_view() =~= list.deep_view());
            Some(slice)
        },
        None => None,
    }
}

fn push_param(params: &mut Vec<(String, String)>, key: &str, value: String)
    ensures
        final(params).deep_view() == old(params).deep_view() + optional_param(key@, Some(value@)),
{
    let ghost before = params.deep_view();
    params.push((key.to_owned(), value));
    assert(params.deep_view() =~= before + optional_param(key@, Some(value@)));
}

impl BraveSearchRequest {
    /// The query parameters to send.
    pub fn query_params(&self) -> (params: Vec<(String, String)>)
        ensures
            params.deep_view() == self@.params(),
    {
        let mut params: Vec<(String, String)> = Vec::new();
        push_param(&mut params, "q", self.query.clone());
        push_param(&mut params, "result_filter", "web,news".to_owned());
        assert(params.deep_view() =~= seq![("q"@, self.query@), ("result_filter"@, "web,news"@)]);
        let ghost fixed = params.deep_view();
        if let Some(count) = self.count {
            push_param(&mut params, "count", decimal_numeral(count as u16));
        }
        let ghost counted = params.deep_view();
        assert(counted =~= fixed + optional_param("count"@, self@.count_value()));
        if let Some(freshness) = &self.freshness {
            let rendered = brave_freshness(freshness);
            proof {
                reveal_strlit("pd");
                reveal_strlit("pw");
                reveal_strlit("pm");
                reveal_strlit("py");
            }
            if !rendered.as_str().is_empty() {
                push_param(&mut params, "freshness", rendered);
            }
        }
        let ghost dated = params.deep_view();
        assert(dated =~= counted + optional_param("freshness"@, self@.freshness_value()));
        if let Some(country) = &self.country {
            push_param(&mut params, "country", country.clone());
        }
        let ghost placed = params.deep_view();
        assert(placed =~= dated + optional_param("country"@, self@.country));
        if let Some(language) = &self.language {
            push_param(&mut params, "search_lang", language.clone());
        }
        assert(params.deep_view() =~= placed + optional_param("search_lang"@, self@.language));
        params
    }

    /// Builds the request for a call. The configuration's domain lists and
    /// location take the place of the call's own. Arguments that Brave has no
    /// use for (boosted domains and the live-crawl ones) are passed over.
    pub fn from_args_and_config(
        query: &str,
        args: &WebSearchArguments,
        config: &WebSearchToolParam,
    ) -> (r: Result<Self, ToolError>)
        ensures
            outcome(r) == request_for(query@, *args, *config),
    {
        let requested: Option<u16> = match (args.count, config.search_context_size) {
            (Some(count), _) => Some(count),
            (None, Some(size)) => Some(size.default_count() as u16),
            (None, None) => None,
        };
        let count: Option<u8> = match requested {
            Some(count) => Some(clamp_count(count)?),
            None => None,
        };
        let (allowed, blocked) = match &config.filters {
            Some(filters) => (
                clean_vec(slice_of(&filters.allowed_domains)),
                clean_vec(slice_of(&filters.blocked_domains)),
            ),
            None => (None, None),
        };
        let domain_filter = DomainFilter::new(
            match &allowed {
                Some(domains) => Some(domains.as_slice()),
                None => slice_of(&args.include_domains),
            },
            match &blocked {
                Some(domains) => Some(domains.as_slice()),
                None => slice_of(&args.exclude_domains),
            },
        );
        let located = match &config.user_location {
            Some(location) => match &location.country {
                Some(country) => clean_string(Some(country.as_str())),
                None => None,
            },
            None => None,
        };
        let country = match (&located, &args.country) {
            (Some(country), _) => Some(to_ascii_uppercase(country.as_str())),
            (None, Some(country)) => Some(to_ascii_uppercase(country.as_str())),
            (None, None) => None,
        };
        Ok(
            BraveSearchRequest {
                query: trim(query).to_owned(),
                count,
                freshness: args.freshness,
                country,
                language: args.language.clone(),
                domain_filter,
            },
        )
    }
}

} // verus!
