use brave_search::domain::DomainFilter;
use brave_search::provider::{
    ApiKey, BraveSearchProvider, BRAVE_DEFAULT_BASE_URL, BRAVE_MAX_CONCURRENT_REQUESTS,
};
use brave_search::request::{BraveSearchRequest, BRAVE_MAX_COUNT};
use brave_search::response::{BraveQuery, BraveResult, BraveResults, BraveSearchResponse};
use brave_search::types::{
    Date, Freshness, WebSearchArguments, WebSearchContextSize, WebSearchFilters,
    WebSearchProviderKind, WebSearchToolParam, WebSearchUserLocation,
};
use serde_json::Value;
use std::sync::Arc;

fn text(value: &Value, key: &str) -> Option<String> {
    value.get(key).and_then(Value::as_str).map(str::to_owned)
}

fn texts(value: &Value, key: &str) -> Option<Vec<String>> {
    let list = value.get(key)?.as_array()?;
    Some(list.iter().map(|entry| entry.as_str().unwrap().to_owned()).collect())
}

fn date(text: &str) -> Date {
    let mut parts = text.split('-');
    Date {
        year: parts.next().unwrap().parse().unwrap(),
        month: parts.next().unwrap().parse().unwrap(),
        day: parts.next().unwrap().parse().unwrap(),
    }
}

fn freshness(text: &str) -> Freshness {
    match text {
        "day" => Freshness::Day,
        "week" => Freshness::Week,
        "month" => Freshness::Month,
        "year" => Freshness::Year,
        range => {
            let (start, end) = range.split_once("to").unwrap();
            Freshness::Range { start: date(start), end: date(end) }
        }
    }
}

fn args(json: &str) -> WebSearchArguments {
    let value: Value = serde_json::from_str(json).unwrap();
    WebSearchArguments {
        count: value.get("count").and_then(Value::as_u64).map(|count| count as u16),
        freshness: text(&value, "freshness").map(|word| freshness(&word)),
        country: text(&value, "country"),
        language: text(&value, "language"),
        include_domains: texts(&value, "include_domains"),
        exclude_domains: texts(&value, "exclude_domains"),
        ..WebSearchArguments::default()
    }
}

fn section(value: &Value, key: &str) -> BraveResults {
    let items = value.get(key).and_then(|section| section.get("results")).and_then(Value::as_array);
    BraveResults {
        results: items.map_or_else(Vec::new, |items| {
            items
                .iter()
                .map(|item| BraveResult {
                    title: text(item, "title"),
                    description: text(item, "description"),
                    url: text(item, "url"),
                })
                .collect()
        }),
    }
}

fn response(json: &str) -> BraveSearchResponse {
    let value: Value = serde_json::from_str(json).unwrap();
    BraveSearchResponse {
        web: section(&value, "web"),
        news: section(&value, "news"),
        query: BraveQuery {
            search_term: value.get("query").and_then(|query| text(query, "search_term")),
        },
    }
}

#[test]
fn api_key_debug_is_redacted() {
    let provider = BraveSearchProvider::from_values(
        Some("super-secret-key".to_owned()),
        Some("https://api.example".to_owned()),
    );
    let client = Arc::new(reqwest::Client::new());
    let rendered = provider.debug_text(&format!("{client:?}"));
    assert!(!rendered.contains("super-secret-key"));
    assert!(rendered.contains("ApiKey(<redacted>)"));
    assert_eq!(ApiKey("k".to_owned()).debug_text(), "ApiKey(<redacted>)");
}

#[test]
fn from_values_defaults_base_url_and_treats_blank_credentials_as_unset() {
    let provider = BraveSearchProvider::from_values(None, None);
    assert!(provider.api_key.is_none());
    assert_eq!(provider.base_url.as_deref(), Some(BRAVE_DEFAULT_BASE_URL));

    let provider = BraveSearchProvider::from_values(
        Some("  ".to_owned()),
        Some(" https://api.example/// ".to_owned()),
    );
    assert!(provider.api_key.is_none());
    assert_eq!(provider.base_url.as_deref(), Some("https://api.example"));

    let provider = BraveSearchProvider::from_values(Some("k".to_owned()), None);
    assert_eq!(provider.base_url.as_deref(), Some(BRAVE_DEFAULT_BASE_URL));
}

#[test]
fn provider_caps_concurrency_to_one() {
    let provider = BraveSearchProvider::from_values(Some("k".to_owned()), None);
    assert_eq!(provider.max_concurrent_requests(), Some(BRAVE_MAX_CONCURRENT_REQUESTS));
}

#[test]
fn request_renders_brave_query_params() {
    let args = args(
        r#"{"query":" rust ","count":5,"freshness":"day","country":"us","language":"en","exclude_domains":["a.example"]}"#,
    );
    let request =
        BraveSearchRequest::from_args_and_config(" rust ", &args, &WebSearchToolParam::default())
            .unwrap();
    let expected = [
        ("q", "rust"),
        ("result_filter", "web,news"),
        ("count", "5"),
        ("freshness", "pd"),
        ("country", "US"),
        ("search_lang", "en"),
    ]
    .map(|(key, value)| (key.to_owned(), value.to_owned()));
    assert_eq!(request.query_params(), expected);
}

#[test]
fn request_clamps_count_to_brave_cap() {
    let args = args(r#"{"query":"rust","count":50}"#);
    let request =
        BraveSearchRequest::from_args_and_config("rust", &args, &WebSearchToolParam::default())
            .unwrap();
    assert_eq!(request.count, Some(BRAVE_MAX_COUNT));
}

#[test]
fn request_drops_unrenderable_date_range_freshness() {
    let args = args(r#"{"query":"rust","freshness":"2024-01-01to2024-02-01"}"#);
    let request =
        BraveSearchRequest::from_args_and_config("rust", &args, &WebSearchToolParam::default())
            .unwrap();
    let expected = [("q", "rust"), ("result_filter", "web,news")]
        .map(|(key, value)| (key.to_owned(), value.to_owned()));
    assert_eq!(request.query_params(), expected);
}

#[test]
fn request_applies_context_size_default_and_tool_config_overrides() {
    let config = WebSearchToolParam {
        search_context_size: Some(WebSearchContextSize::High),
        filters: Some(WebSearchFilters {
            allowed_domains: Some(vec![" docs.example ".to_owned()]),
            blocked_domains: Some(vec!["bad.example".to_owned()]),
        }),
        user_location: Some(WebSearchUserLocation {
            country: Some(" de ".to_owned()),
            ..WebSearchUserLocation::default()
        }),
    };
    let args = args(r#"{"query":"rust","country":"us","include_domains":["other.example"]}"#);
    let request = BraveSearchRequest::from_args_and_config("rust", &args, &config).unwrap();
    // Config filters win over argument filters; allowlist is hard.
    assert!(request.domain_filter.allows("https://docs.example/page"));
    assert!(!request.domain_filter.allows("https://bad.example/page"));
    assert!(!request.domain_filter.allows("https://other.example/page"));
    assert_eq!(request.country.as_deref(), Some("DE"));
}

#[test]
fn domain_filter_respects_label_boundaries() {
    let filter = DomainFilter::new(
        Some(&["example.com".to_owned()]),
        Some(&["a.example.com".to_owned()]),
    );
    assert!(filter.allows("https://example.com/"));
    assert!(filter.allows("https://sub.example.com/x"));
    assert!(!filter.allows("https://notexample.com/"));
    assert!(!filter.allows("https://a.example.com/"));
    // Unparseable URL is rejected whenever any filter is active (fail closed).
    assert!(!filter.allows("not a url"));
}

#[test]
fn response_maps_documented_fields_and_tolerates_nulls() {
    let response = response(
        r#"{
            "web": {"results": [
                {"title": "Rust", "description": "desc", "url": "https://example.com/rust", "unknown_key": 1}
            ]},
            "news": {"results": []},
            "query": {"search_term": "rust"}
        }"#,
    );
    let mapped = response.into_provider_response("rust", &DomainFilter::default());
    assert!(mapped.news.is_empty());
    assert_eq!(mapped.metadata.provider, WebSearchProviderKind::Brave);
    assert_eq!(mapped.metadata.query, "rust");
    let result = &mapped.web[0];
    assert_eq!(result.url, "https://example.com/rust");
    assert_eq!(result.title.as_deref(), Some("Rust"));
    assert_eq!(result.description.as_deref(), Some("desc"));
}

#[test]
fn response_applies_domain_post_filter() {
    let response = response(
        r#"{
            "web": {"results": [
                {"title": "A", "url": "https://example.com/a"},
                {"title": "B", "url": "https://bad.example/b"}
            ]},
            "query": {}
        }"#,
    );
    let filter = DomainFilter::new(None, Some(&["bad.example".to_owned()]));
    let mapped = response.into_provider_response("rust", &filter);
    assert_eq!(mapped.web.len(), 1);
    assert_eq!(mapped.web[0].url, "https://example.com/a");
}

#[test]
fn response_tolerates_missing_envelope_sections() {
    let response = response("{}");
    let mapped = response.into_provider_response("rust", &DomainFilter::default());
    assert!(mapped.web.is_empty());
    assert!(mapped.news.is_empty());
    assert_eq!(mapped.metadata.query, "rust");
}
