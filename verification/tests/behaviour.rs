use brave_search::domain::{domain_matches, DomainFilter};
use brave_search::provider::{
    clean_base_url, ApiKey, BraveSearchProvider, BRAVE_DEFAULT_BASE_URL,
};
use brave_search::request::{brave_freshness, clamp_count, BraveSearchRequest};
use brave_search::response::{
    into_web_search_result, BraveQuery, BraveResult, BraveResults, BraveSearchResponse,
};
use brave_search::search::{rejection, HttpRequest, PendingSearch};
use brave_search::text::{
    decimal_numeral, is_whitespace, join, to_ascii_lowercase, to_ascii_uppercase, trim,
    trim_end_matches,
};
use brave_search::types::{
    clean_string, clean_vec, validate_count, Date, Freshness, ToolError, WebSearchArguments,
    WebSearchContextSize, WebSearchFilters, WebSearchResult, WebSearchToolParam,
    WebSearchUserLocation,
};

fn owned(list: &[&str]) -> Vec<String> {
    list.iter().map(|entry| (*entry).to_owned()).collect()
}

fn request(args: &WebSearchArguments, config: &WebSearchToolParam) -> BraveSearchRequest {
    BraveSearchRequest::from_args_and_config("q", args, config).unwrap()
}

fn params(args: &WebSearchArguments) -> Vec<(String, String)> {
    request(args, &WebSearchToolParam::default()).query_params()
}

fn keyed() -> BraveSearchProvider {
    BraveSearchProvider::from_values(
        Some(" secret ".to_owned()),
        Some("https://api.example/".to_owned()),
    )
}

fn started(args: &WebSearchArguments) -> (HttpRequest, PendingSearch) {
    keyed().search(" rust ", args, &WebSearchToolParam::default()).ok().unwrap()
}

fn pending(args: &WebSearchArguments) -> PendingSearch {
    started(args).1
}

fn item(url: &str) -> BraveResult {
    BraveResult { title: None, description: None, url: Some(url.to_owned()) }
}

fn range() -> Freshness {
    Freshness::Range {
        start: Date { year: 2024, month: 1, day: 1 },
        end: Date { year: 2024, month: 2, day: 1 },
    }
}

#[test]
fn whitespace_is_what_the_standard_library_says() {
    for n in 0..=0x10FFFFu32 {
        if let Some(c) = char::from_u32(n) {
            assert_eq!(is_whitespace(c), c.is_whitespace());
        }
    }
}

#[test]
fn trimming_agrees_with_the_standard_library() {
    for text in ["", " ", " a ", "a b", "\u{3000}\u{e9} x\t\n", "\u{200b}a\u{200b}", "//", " a/ /"] {
        assert_eq!(trim(text), text.trim());
        assert_eq!(trim(trim(text)), trim(text));
        assert_eq!(trim_end_matches(text, '/'), text.trim_end_matches('/'));
    }
    assert_eq!(trim(" rust "), "rust");
}

#[test]
fn ascii_case_agrees_with_the_standard_library() {
    for text in ["", "us", "aZ{`@[", "stra\u{df}e", "\u{e9}A", "\u{3c3}x"] {
        assert_eq!(to_ascii_uppercase(text), text.to_ascii_uppercase());
        assert_eq!(to_ascii_lowercase(text), text.to_ascii_lowercase());
    }
    assert_eq!(to_ascii_uppercase("de"), "DE");
}

#[test]
fn numerals_are_decimal() {
    for n in 0..=u16::MAX {
        assert_eq!(decimal_numeral(n), n.to_string());
    }
}

#[test]
fn joins_in_order() {
    assert_eq!(join("a", "b", "c"), "abc");
}

#[test]
fn cleaning_trims_and_drops_blanks() {
    assert_eq!(clean_string(None), None);
    assert_eq!(clean_string(Some(" \t")), None);
    assert_eq!(clean_string(Some(" x ")), Some("x".to_owned()));
    assert_eq!(clean_vec(None), None);
    assert_eq!(clean_vec(Some(&owned(&["", "  "]))), None);
    assert_eq!(clean_vec(Some(&owned(&[" a", "", "b "]))), Some(owned(&["a", "b"])));
}

#[test]
fn zero_is_the_only_refused_count() {
    let error = ToolError::InvalidArguments("web_search count must be at least 1".to_owned());
    assert_eq!(validate_count(0), Err(error.clone()));
    assert_eq!(clamp_count(0), Err(error.clone()));
    assert_eq!(validate_count(7), Ok(7));
    assert_eq!(validate_count(300), Ok(255));
    let args = WebSearchArguments { count: Some(0), ..WebSearchArguments::default() };
    let config = WebSearchToolParam::default();
    assert_eq!(BraveSearchRequest::from_args_and_config("q", &args, &config), Err(error));
}

#[test]
fn counts_above_the_cap_are_lowered_to_it() {
    for count in 1..=u16::MAX {
        assert_eq!(clamp_count(count), Ok(count.min(20) as u8));
    }
}

#[test]
fn context_size_sets_the_count_where_the_call_does_not() {
    let sizes = [
        (WebSearchContextSize::Low, 5u8),
        (WebSearchContextSize::Medium, 10),
        (WebSearchContextSize::High, 20),
    ];
    for (size, count) in sizes {
        let config = WebSearchToolParam {
            search_context_size: Some(size),
            ..WebSearchToolParam::default()
        };
        let args = WebSearchArguments::default();
        assert_eq!(request(&args, &config).count, Some(count));
        let args = WebSearchArguments { count: Some(3), ..WebSearchArguments::default() };
        assert_eq!(request(&args, &config).count, Some(3));
    }
    assert_eq!(request(&WebSearchArguments::default(), &WebSearchToolParam::default()).count, None);
}

#[test]
fn freshness_has_a_word_unless_it_is_a_range() {
    let words = [
        (Freshness::Day, "pd"),
        (Freshness::Week, "pw"),
        (Freshness::Month, "pm"),
        (Freshness::Year, "py"),
    ];
    for (freshness, word) in words {
        assert_eq!(brave_freshness(&freshness), word);
        let args =
            WebSearchArguments { freshness: Some(freshness), ..WebSearchArguments::default() };
        assert_eq!(params(&args)[2], ("freshness".to_owned(), word.to_owned()));
    }
    assert_eq!(brave_freshness(&range()), "");
    let args = WebSearchArguments { freshness: Some(range()), ..WebSearchArguments::default() };
    assert_eq!(params(&args), params(&WebSearchArguments::default()));
}

#[test]
fn unsupported_arguments_and_domains_are_not_sent() {
    let args = WebSearchArguments {
        include_domains: Some(owned(&["a.example"])),
        exclude_domains: Some(owned(&["b.example"])),
        boost_domains: Some(owned(&["c.example"])),
        livecrawl: Some("web".to_owned()),
        livecrawl_formats: Some(owned(&["html"])),
        crawl_timeout: Some(10),
        ..WebSearchArguments::default()
    };
    assert_eq!(params(&args), params(&WebSearchArguments::default()));
}

#[test]
fn blank_configuration_falls_back_to_the_call() {
    let args = WebSearchArguments {
        country: Some("us".to_owned()),
        include_domains: Some(owned(&["in.example"])),
        exclude_domains: Some(owned(&["out.example"])),
        ..WebSearchArguments::default()
    };
    let config = WebSearchToolParam {
        search_context_size: None,
        filters: Some(WebSearchFilters {
            allowed_domains: Some(owned(&[" "])),
            blocked_domains: None,
        }),
        user_location: Some(WebSearchUserLocation {
            country: Some(" ".to_owned()),
            ..WebSearchUserLocation::default()
        }),
    };
    let request = request(&args, &config);
    assert_eq!(request.country.as_deref(), Some("US"));
    assert_eq!(request.domain_filter.included, owned(&["in.example"]));
    assert_eq!(request.domain_filter.excluded, owned(&["out.example"]));
}

#[test]
fn domains_match_whole_labels_in_any_case() {
    assert!(domain_matches("example.com", "example.com"));
    assert!(domain_matches("a.b.example.com", "B.Example.com"));
    assert!(!domain_matches("notexample.com", "example.com"));
    assert!(!domain_matches("com", "example.com"));
    assert!(!domain_matches("example.com.org", "example.com"));
    assert!(domain_matches("x.y.z", "y.z") && domain_matches("y.z", "z"));
    assert!(domain_matches("x.y.z", "z"));
}

#[test]
fn hosts_are_read_from_urls() {
    let filter = DomainFilter::new(Some(&owned(&["example.com"])), None);
    assert!(filter.allows("HTTPS://user@EXAMPLE.com:8080/path?q=other.org"));
    assert!(!filter.allows("https://other.org/example.com"));
    assert!(!filter.allows("example.com"));
    assert!(!filter.allows("mailto:me@example.com"));
    assert!(filter.allows_host(Some("example.com")));
    assert!(!filter.allows_host(None));
}

#[test]
fn no_filter_keeps_everything() {
    let filter = DomainFilter::default();
    assert!(filter.allows("not a url"));
    assert!(filter.allows_host(None));
    let filter = DomainFilter::new(Some(&[]), None);
    assert!(filter.allows("not a url"));
}

#[test]
fn retaining_keeps_order_and_repeats() {
    let filter = DomainFilter::new(None, Some(&owned(&["bad.example"])));
    let urls = [
        "https://c.example/",
        "https://bad.example/1",
        "https://a.example/",
        "not a url",
        "https://c.example/",
        "https://x.bad.example/2",
    ];
    let mut results: Vec<WebSearchResult> = urls
        .iter()
        .map(|url| WebSearchResult { url: (*url).to_owned(), ..WebSearchResult::default() })
        .collect();
    filter.retain(&mut results);
    let kept: Vec<&str> = results.iter().map(|result| result.url.as_str()).collect();
    assert_eq!(kept, ["https://c.example/", "https://a.example/", "https://c.example/"]);
}

#[test]
fn a_missing_url_maps_to_an_empty_one() {
    let result = into_web_search_result(BraveResult::default());
    assert_eq!(result, WebSearchResult::default());
    let response = BraveSearchResponse {
        news: BraveResults { results: vec![BraveResult::default(), item("https://a.example/")] },
        ..BraveSearchResponse::default()
    };
    let filter = DomainFilter::new(Some(&owned(&["a.example"])), None);
    let mapped = response.into_provider_response("q", &filter);
    assert_eq!(mapped.news.len(), 1);
    assert_eq!(mapped.news[0].url, "https://a.example/");
    assert_eq!(mapped.metadata.search_uuid, None);
    assert_eq!(mapped.metadata.latency, None);
}

#[test]
fn base_urls_lose_whitespace_and_then_slashes() {
    assert_eq!(clean_base_url(""), None);
    assert_eq!(clean_base_url(" /// "), None);
    assert_eq!(clean_base_url(" https://api.example// ").as_deref(), Some("https://api.example"));
    assert_eq!(clean_base_url("x /").as_deref(), Some("x "));
    let provider = BraveSearchProvider::from_values(None, Some(" / ".to_owned()));
    assert_eq!(provider.base_url.as_deref(), Some(BRAVE_DEFAULT_BASE_URL));
}

#[test]
fn providers_show_their_base_url_in_quotes_and_hide_their_key() {
    let shown = "BraveSearchProvider { client: Client, api_key: Some(ApiKey(<redacted>)), base_url: Some(\"https://api.example\") }";
    assert_eq!(keyed().debug_text("Client"), shown);
    let mut provider = keyed();
    provider.api_key = None;
    provider.base_url = Some("a\"b".to_owned());
    assert_eq!(
        provider.debug_text(""),
        "BraveSearchProvider { client: , api_key: None, base_url: Some(\"a\\\"b\") }"
    );
    provider.base_url = None;
    assert_eq!(
        provider.debug_text("C"),
        "BraveSearchProvider { client: C, api_key: None, base_url: None }"
    );
    assert_eq!(
        provider.debug_text_with("C", Some("z")),
        "BraveSearchProvider { client: C, api_key: None, base_url: Some(z) }"
    );
}

#[test]
fn searches_need_a_key_and_a_base_url() {
    let args = WebSearchArguments { count: Some(0), ..WebSearchArguments::default() };
    let config = WebSearchToolParam::default();
    let provider = BraveSearchProvider { api_key: None, base_url: None };
    assert_eq!(
        provider.search("q", &args, &config).err(),
        Some(ToolError::Config(
            "BRAVE_API_KEY must be set to use the web_search tool".to_owned()
        ))
    );
    let mut provider = keyed();
    provider.base_url = None;
    assert_eq!(
        provider.search("q", &args, &config).err(),
        Some(ToolError::Config(
            "BRAVE_API_BASE_URL must be set to use the web_search tool".to_owned()
        ))
    );
    assert_eq!(
        keyed().search("q", &args, &config).err(),
        Some(ToolError::InvalidArguments("web_search count must be at least 1".to_owned()))
    );
}

#[test]
fn searches_ask_under_the_base_url_with_the_key_in_the_header() {
    let (request, pending) = started(&WebSearchArguments::default());
    assert_eq!(request.url, "https://api.example/res/v1/web/search");
    assert_eq!(
        request.header,
        ("X-Subscription-Token".to_owned(), "secret".to_owned())
    );
    assert_eq!(request.params[0], ("q".to_owned(), "rust".to_owned()));
    assert_eq!(pending.query, "rust");
    assert_eq!(
        pending.send_failed("timed out"),
        ToolError::Execution("Brave search request failed: timed out".to_owned())
    );
}

#[test]
fn listed_domains_never_reach_the_request() {
    let args = WebSearchArguments {
        include_domains: Some(owned(&["in.example"])),
        exclude_domains: Some(owned(&["out.example"])),
        ..WebSearchArguments::default()
    };
    let (request, pending) = started(&args);
    let (plain, _) = started(&WebSearchArguments::default());
    assert_eq!(request.url, plain.url);
    assert_eq!(request.params, plain.params);
    assert_eq!(request.header, plain.header);
    assert_eq!(pending.filter.included, owned(&["in.example"]));
}

#[test]
fn rejections_give_status_hint_and_body() {
    let args = WebSearchArguments::default();
    assert_eq!(
        pending(&args).replied(429, Some("2"), Ok("slow down".to_owned())).err(),
        Some(ToolError::Execution(
            "Brave search returned 429 Too Many Requests (retry after 2s): slow down".to_owned()
        ))
    );
    let unread = Err(ToolError::Execution("too long".to_owned()));
    assert_eq!(
        pending(&args).replied(799, None, unread).err(),
        Some(ToolError::Execution(
            "Brave search returned 799 <unknown status code>: ".to_owned()
        ))
    );
    for status in 100..=999u16 {
        let replied = pending(&args).replied(status, None, Ok(String::new()));
        if (200..300).contains(&status) {
            assert!(replied.is_ok());
        } else if let Some(ToolError::Execution(message)) = replied.err() {
            assert!(message.starts_with(&format!("Brave search returned {status} ")));
        } else {
            panic!("a rejection is an execution error");
        }
    }
    assert_eq!(
        rejection("500 X", Some("9"), "b"),
        ToolError::Execution("Brave search returned 500 X (retry after 9s): b".to_owned())
    );
}

#[test]
fn replies_are_decoded_filtered_and_named_after_the_query() {
    let args = WebSearchArguments {
        exclude_domains: Some(owned(&["bad.example"])),
        ..WebSearchArguments::default()
    };
    let replied = pending(&args).replied(200, None, Ok("{}".to_owned())).ok().unwrap();
    assert_eq!(replied.body, "{}");
    let decoded = BraveSearchResponse {
        web: BraveResults {
            results: vec![item("https://bad.example/"), item("https://good.example/")],
        },
        news: BraveResults::default(),
        query: BraveQuery::default(),
    };
    let response = replied.decoded(Ok(decoded)).unwrap();
    assert_eq!(response.web.len(), 1);
    assert_eq!(response.web[0].url, "https://good.example/");
    assert_eq!(response.metadata.query, "rust");

    let replied = pending(&args).replied(204, None, Ok(String::new())).ok().unwrap();
    assert_eq!(
        replied.decoded(Err("EOF".to_owned())),
        Err(ToolError::Execution("Brave search returned invalid JSON: EOF".to_owned()))
    );

    let unread = ToolError::Execution("too long".to_owned());
    assert_eq!(pending(&args).replied(200, None, Err(unread.clone())).err(), Some(unread));
}

struct Hidden;

impl std::fmt::Debug for Hidden {
    fn fmt(&self, f: &mut std::fmt::Formatter<'_>) -> std::fmt::Result {
        f.write_str("ApiKey(<redacted>)")
    }
}

/// Holds what the provider's text names, to be shown by the compiler's own `Debug`.
#[derive(Debug)]
#[allow(dead_code)]
struct Shown {
    client: Vec<u8>,
    api_key: Option<Hidden>,
    base_url: Option<String>,
}

#[test]
fn providers_are_shown_as_a_derived_debug_would() {
    for base_url in [None, Some("https://api.example"), Some("a\"\\\n\u{e9}\u{200b}")] {
        for api_key in [None, Some("secret")] {
            let provider = BraveSearchProvider {
                api_key: api_key.map(|key| ApiKey(key.to_owned())),
                base_url: base_url.map(str::to_owned),
            };
            let derived = Shown {
                client: vec![1, 2],
                api_key: api_key.map(|_| Hidden),
                base_url: base_url.map(str::to_owned),
            };
            let expected = format!("{derived:?}").replacen("Shown", "BraveSearchProvider", 1);
            assert_eq!(provider.debug_text("[1, 2]"), expected);
        }
    }
}
