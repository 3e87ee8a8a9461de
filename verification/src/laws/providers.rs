//! What the values that a provider is built from come to, and how it is shown.

use crate::laws::texts::{law_a_value_counts_unless_blank, law_only_the_trailing_run_goes};
use crate::laws::{blank, law_blank_text_trims_to_nothing};
use crate::provider::{base_url_of, provider_from, quoted, shown, ProviderModel};
use crate::text::trimmed;
use vstd::prelude::*;

verus! {

/// Whether every character of `s` is a slash.
pub open spec fn only_slashes(s: Seq<char>) -> bool {
    forall|i: int| 0 <= i < s.len() ==> #[trigger] s[i] == '/'
}

/// A base URL is used exactly if its trimmed value has a character that is no slash.
/// What is used is then the trimmed value up to the last such character: a run of
/// slashes after it makes up the trimmed value again.
pub proof fn law_a_configured_base_url_is_used(value: Seq<char>)
    ensures
        base_url_of(value) is None <==> only_slashes(trimmed(value)),
        base_url_of(value) matches Some(base) ==> {
            &&& base.len() > 0
            &&& base.last() != '/'
            &&& base.len() <= trimmed(value).len()
            &&& trimmed(value) == base + trimmed(value).skip(base.len() as int)
            &&& only_slashes(trimmed(value).skip(base.len() as int))
        },
{
    let whole = trimmed(value);
    law_only_the_trailing_run_goes(whole, '/');
    let base = crate::text::without_trailing(whole, '/');
    assert(whole =~= base + whole.skip(base.len() as int));
    if base.len() > 0 {
        assert(whole[base.len() - 1] == base.last());
    }
    assert forall|i: int| 0 <= i < whole.len() - base.len() implies #[trigger] whole.skip(
        base.len() as int,
    )[i] == '/' by {
        assert(whole[base.len() + i] == '/');
    }
}

/// A provider goes to the configured base URL wherever that holds anything besides
/// whitespace at its ends and trailing slashes, whatever the key. The default is used
/// only where nothing else is left, or no value is given.
pub proof fn law_the_base_url_of_a_provider(
    api_key: Option<Seq<char>>,
    base_url: Option<Seq<char>>,
)
    ensures
        base_url matches Some(value) ==> !only_slashes(trimmed(value)) ==> (provider_from(
            api_key,
            base_url,
        ).base_url matches Some(base) && base.len() > 0 && base.last() != '/' && base.len()
            <= trimmed(value).len() && trimmed(value) == base + trimmed(value).skip(
            base.len() as int,
        ) && only_slashes(trimmed(value).skip(base.len() as int))),
        (base_url is None || only_slashes(trimmed(base_url->Some_0))) ==> provider_from(
            api_key,
            base_url,
        ).base_url == Some("https://api.search.brave.com"@),
{
    if let Some(value) = base_url {
        law_a_configured_base_url_is_used(value);
    }
}

/// A provider has a key exactly if it is given one that is not blank, and then it is
/// that one, trimmed, whatever the base URL.
pub proof fn law_the_key_of_a_provider(api_key: Option<Seq<char>>, base_url: Option<Seq<char>>)
    ensures
        api_key matches Some(value) ==> !blank(value) ==> provider_from(api_key, base_url).api_key
            == Some(trimmed(value)),
        (api_key is None || blank(api_key->Some_0)) ==> provider_from(
            api_key,
            base_url,
        ).api_key is None,
{
    if let Some(value) = api_key {
        law_a_value_counts_unless_blank(value);
        law_blank_text_trims_to_nothing(value);
    }
}

/// A provider's text names its client, then whether there is a key, then its base
/// URL in quotes, in the notation of a structure with three fields.
pub proof fn law_how_a_provider_is_shown(client: Seq<char>, provider: ProviderModel)
    ensures
        ({
            let key = if provider.api_key is Some {
                "Some("@ + "ApiKey(<redacted>)"@ + ")"@
            } else {
                "None"@
            };
            let base = match provider.base_url {
                Some(base) => "Some("@ + quoted(base) + ")"@,
                None => "None"@,
            };
            shown(client, provider) == "BraveSearchProvider { client: "@ + client + ", api_key: "@
                + key + ", base_url: "@ + base + " }"@
        }),
{
}

} // verus!
