//! The provider's own settings: its credential, its base URL and its limits.

use crate::text::{trim, trim_end_matches, trimmed, without_trailing};
use crate::types::{clean_string, nonblank};
use vstd::prelude::*;

verus! {

/// The environment variable that names the API key.
pub const BRAVE_API_KEY: &'static str = "BRAVE_API_KEY";

/// The environment variable that names the base URL.
pub const BRAVE_API_BASE_URL: &'static str = "BRAVE_API_BASE_URL";

/// The base URL where none is configured.
pub const BRAVE_DEFAULT_BASE_URL: &'static str = "https://api.search.brave.com";

/// Free-tier rate limit of about one query per second: never more than one
/// request in flight.
pub const BRAVE_MAX_CONCURRENT_REQUESTS: usize = 1;

/// A credential that is never shown.
#[derive(Clone)]
pub struct ApiKey(pub String);

/// A Brave account and the endpoint to use it at.
#[derive(Clone)]
pub struct BraveSearchProvider {
    pub api_key: Option<ApiKey>,
    pub base_url: Option<String>,
}

/// [`BraveSearchProvider`] over character sequences.
pub struct ProviderModel {
    pub api_key: Option<Seq<char>>,
    pub base_url: Option<Seq<char>>,
}

impl View for BraveSearchProvider {
    type V = ProviderModel;

    open spec fn view(&self) -> ProviderModel {
        ProviderModel {
            api_key: match self.api_key {
                Some(key) => Some(key.0@),
                None => None,
            },
            base_url: self.base_url.deep_view(),
        }
    }
}

/// A base URL without surrounding whitespace and then without trailing slashes,
/// or nothing where that leaves nothing.
pub open spec fn base_url_of(value: Seq<char>) -> Option<Seq<char>> {
    let base = without_trailing(trimmed(value), '/');
    if base.len() > 0 {
        Some(base)
    } else {
        None
    }
}

/// The provider that environment-style values describe.
pub open spec fn provider_from(
    api_key: Option<Seq<char>>,
    base_url: Option<Seq<char>>,
) -> ProviderModel {
    ProviderModel {
        api_key: match api_key {
            Some(value) => nonblank(value),
            None => None,
        },
        base_url: match base_url {
            Some(value) => match base_url_of(value) {
                Some(base) => Some(base),
                None => Some(BRAVE_DEFAULT_BASE_URL@),
            },
            None => Some(BRAVE_DEFAULT_BASE_URL@),
        },
    }
}

/// How a credential is shown.
pub open spec fn key_text() -> Seq<char> {
    "ApiKey(<redacted>)"@
}

/// `text` in an optional value's notation.
pub open spec fn optional_text(text: Option<Seq<char>>) -> Seq<char> {
    match text {
        Some(text) => "Some("@ + text + ")"@,
        None => "None"@,
    }
}

/// How a provider is shown, given the text of its client and its base URL in quotes.
pub open spec fn provider_text(
    client: Seq<char>,
    has_key: bool,
    quoted_base_url: Option<Seq<char>>,
) -> Seq<char> {
    "BraveSearchProvider { client: "@ + client + ", api_key: "@ + optional_text(
        if has_key {
            Some(key_text())
        } else {
            None
        },
    ) + ", base_url: "@ + optional_text(quoted_base_url) + " }"@
}

/// `text` in quotes, with characters escaped as in a string literal.
pub uninterp spec fn quoted(text: Seq<char>) -> Seq<char>;

/// How a provider is shown, given the text of its client.
pub open spec fn shown(client: Seq<char>, provider: ProviderModel) -> Seq<char> {
    provider_text(
        client,
        provider.api_key is Some,
        match provider.base_url {
            Some(base) => Some(quoted(base)),
            None => None,
        },
    )
}

/// Puts text in quotes.
///
/// Trusted: formatting a `str` with `{:?}` depends on its text alone. Nothing is
/// claimed of which characters are escaped.
#[verifier::external_body]
fn quote(text: &str) -> (r: String)
    ensures
        r@ == quoted(text@),
{
    format!("{:?}", text)
}

fn wrap_optional(text: Option<&str>) -> (r: String)
    ensures
        r@ == optional_text(text.deep_view()),
{
    match text {
        Some(text) => {
            let mut r = "Some(".to_owned();
            r.append(text);
            r.append(")");
            r
        },
        None => "None".to_owned(),
    }
}

/// Cleans a base URL; one that is blank or nothing but slashes counts as unset.
pub fn clean_base_url(value: &str) -> (r: Option<String>)
    ensures
        r.deep_view() == base_url_of(value@),
{
    let base = trim_end_matches(trim(value), '/');
    if base.is_empty() {
        None
    } else {
        Some(base.to_owned())
    }
}

impl ApiKey {
    /// How the credential is shown: the same for every credential.
    pub fn debug_text(&self) -> (r: String)
        ensures
            r@ == key_text(),
    {
        "ApiKey(<redacted>)".to_owned()
    }
}

impl BraveSearchProvider {
    /// Builds a provider from optional environment-style values. A blank key
    /// counts as unset and fails when a search is made. A blank base URL falls
    /// back to [`BRAVE_DEFAULT_BASE_URL`].
    pub fn from_values(api_key: Option<String>, base_url: Option<String>) -> (provider: Self)
        ensures
            provider@ == provider_from(api_key.deep_view(), base_url.deep_view()),
    {
        let api_key = match &api_key {
            Some(value) => match clean_string(Some(value.as_str())) {
                Some(key) => Some(ApiKey(key)),
                None => None,
            },
            None => None,
        };
        let base_url = match &base_url {
            Some(value) => match clean_base_url(value.as_str()) {
                Some(base) => base,
                None => BRAVE_DEFAULT_BASE_URL.to_owned(),
            },
            None => BRAVE_DEFAULT_BASE_URL.to_owned(),
        };
        BraveSearchProvider { api_key, base_url: Some(base_url) }
    }

    /// The number of requests that may be in flight at once.
    pub fn max_concurrent_requests(&self) -> (limit: Option<usize>)
        ensures
            limit == Some(1usize),
    {
        Some(BRAVE_MAX_CONCURRENT_REQUESTS)
    }

    /// How the provider is shown, given the text of its client and its base URL in
    /// quotes.
    pub fn debug_text_with(&self, client: &str, quoted_base_url: Option<&str>) -> (r: String)
        ensures
            r@ == provider_text(client@, self.api_key is Some, quoted_base_url.deep_view()),
    {
        let key = match &self.api_key {
            Some(key) => wrap_optional(Some(key.debug_text().as_str())),
            None => wrap_optional(None),
        };
        let mut r = "BraveSearchProvider { client: ".to_owned();
        r.append(client);
        r.append(", api_key: ");
        r.append(key.as_str());
        r.append(", base_url: ");
        r.append(wrap_optional(quoted_base_url).as_str());
        r.append(" }");
        r
    }

    /// How the provider is shown, given the text of the client that it is used
    /// with. The credential itself is left out.
    pub fn debug_text(&self, client: &str) -> (r: String)
        ensures
            r@ == shown(client@, self@),
    {
        match &self.base_url {
            Some(base) => self.debug_text_with(client, Some(quote(base.as_str()).as_str())),
            None => self.debug_text_with(client, None),
        }
    }
}

} // verus!
