//! Which results a filter keeps, by the lists that it was given.

use crate::domain::{host_within, listed, url_host, FilterModel};
use crate::laws::{labels, law_domains_match_on_label_boundaries};
use crate::text::lowercase;
use vstd::prelude::*;

verus! {

/// A host within any one of the included domains, wherever in the list that stands,
/// stays unless it lies within an excluded one.
pub proof fn law_every_included_domain_counts(filter: FilterModel, host: Seq<char>, i: int)
    requires
        0 <= i < filter.included.len(),
        host_within(host, filter.included[i]),
        forall|j: int|
            0 <= j < filter.excluded.len() ==> !host_within(host, #[trigger] filter.excluded[j]),
    ensures
        filter.admits(Some(host)),
{
}

/// Where no domain is included, every host stays that lies within no excluded one.
pub proof fn law_an_empty_allowlist_allows(filter: FilterModel, host: Seq<char>)
    requires
        filter.included.len() == 0,
        forall|j: int|
            0 <= j < filter.excluded.len() ==> !host_within(host, #[trigger] filter.excluded[j]),
    ensures
        filter.admits(Some(host)),
{
}

/// A host within any one of the excluded domains, wherever in the list that stands,
/// does not stay, whatever is included.
pub proof fn law_every_excluded_domain_counts(filter: FilterModel, host: Seq<char>, j: int)
    requires
        0 <= j < filter.excluded.len(),
        host_within(host, filter.excluded[j]),
    ensures
        !filter.admits(Some(host)),
{
}

/// Where domains are included, a host within none of them does not stay.
pub proof fn law_a_host_outside_the_allowlist_goes(filter: FilterModel, host: Seq<char>)
    requires
        filter.included.len() > 0,
        forall|i: int|
            0 <= i < filter.included.len() ==> !host_within(host, #[trigger] filter.included[i]),
    ensures
        !filter.admits(Some(host)),
{
}

/// A result without a host stays exactly if no domain is listed at all.
pub proof fn law_a_missing_host_needs_an_empty_filter(filter: FilterModel)
    ensures
        filter.admits(None) <==> filter.included.len() == 0 && filter.excluded.len() == 0,
{
}

/// A URL stays by its host alone: exactly if its host is within an included domain,
/// where any is listed, and within no excluded one, or if no domain is listed.
pub proof fn law_urls_stay_by_their_host(filter: FilterModel, url: Seq<char>)
    ensures
        filter.admits_url(url) <==> (match url_host(url) {
            Some(host) => {
                &&& filter.included.len() == 0 || exists|i: int|
                    0 <= i < filter.included.len() && labels(
                        lowercase(#[trigger] filter.included[i]),
                    ).is_suffix_of(labels(lowercase(host)))
                &&& forall|j: int|
                    0 <= j < filter.excluded.len() ==> !labels(
                        lowercase(#[trigger] filter.excluded[j]),
                    ).is_suffix_of(labels(lowercase(host)))
            },
            None => filter.included.len() == 0 && filter.excluded.len() == 0,
        }),
{
    if let Some(host) = url_host(url) {
        assert forall|i: int| 0 <= i < filter.included.len() implies (host_within(
            host,
            #[trigger] filter.included[i],
        ) <==> labels(lowercase(filter.included[i])).is_suffix_of(labels(lowercase(host)))) by {
            law_domains_match_on_label_boundaries(host, filter.included[i]);
        }
        assert forall|j: int| 0 <= j < filter.excluded.len() implies (host_within(
            host,
            #[trigger] filter.excluded[j],
        ) <==> labels(lowercase(filter.excluded[j])).is_suffix_of(labels(lowercase(host)))) by {
            law_domains_match_on_label_boundaries(host, filter.excluded[j]);
        }
    }
}

/// Listing one more included domain, where some are listed, drops no host; listing
/// one more excluded domain keeps none that went before.
pub proof fn law_longer_lists(filter: FilterModel, host: Option<Seq<char>>, domain: Seq<char>)
    requires
        filter.included.len() > 0,
    ensures
        filter.admits(host) ==> (FilterModel {
            included: filter.included.push(domain),
            excluded: filter.excluded,
        }).admits(host),
        (FilterModel {
            included: filter.included,
            excluded: filter.excluded.push(domain),
        }).admits(host) ==> filter.admits(host),
{
    if let Some(host) = host {
        let longer = filter.included.push(domain);
        if filter.admits(Some(host)) {
            let i = choose|i: int|
                0 <= i < filter.included.len() && host_within(host, #[trigger] filter.included[i]);
            assert(longer[i] == filter.included[i]);
        }
        let more = FilterModel {
            included: filter.included,
            excluded: filter.excluded.push(domain),
        };
        if more.admits(Some(host)) {
            assert forall|j: int| 0 <= j < filter.excluded.len() implies !host_within(
                host,
                #[trigger] filter.excluded[j],
            ) by {
                assert(more.excluded[j] == filter.excluded[j]);
            }
        }
    }
}

/// A filter lists the domains that it is given, and none where the list is unset.
pub proof fn law_filters_list_what_they_are_given(domains: Seq<Seq<char>>)
    ensures
        listed(Some(domains)) == domains,
        listed(None).len() == 0,
{
}

} // verus!
