//! Filtering of results by the domain of their URL.

use crate::text::{chars, lowercase, to_ascii_lowercase};
use crate::types::WebSearchResult;
use vstd::prelude::*;

verus! {

/// The host part of `url`, where `url` is an absolute URL that has one.
pub uninterp spec fn url_host(url: Seq<char>) -> Option<Seq<char>>;

/// Reads the host part of an absolute URL.
///
/// Trusted: `reqwest::Url::parse` followed by `reqwest::Url::host_str` depends
/// on the URL's text alone. Nothing is claimed of how a host is found, only
/// that text which does not parse and a URL without a host both give nothing.
#[verifier::external_body]
fn host_of(url: &str) -> (host: Option<String>)
    ensures
        host.deep_view() == url_host(url@),
{
    match reqwest::Url::parse(url) {
        Ok(parsed) => parsed.host_str().map(str::to_owned),
        Err(_) => None,
    }
}

/// Whether `host` is `domain` or lies below it: ignoring ASCII case, the host is
/// the domain, or ends with a dot and the domain.
pub open spec fn host_within(host: Seq<char>, domain: Seq<char>) -> bool {
    let host = lowercase(host);
    let domain = lowercase(domain);
    host == domain || (seq!['.'] + domain).is_suffix_of(host)
}

/// Whether `host` lies within one of `domains`.
pub open spec fn host_within_any(host: Seq<char>, domains: Seq<Seq<char>>) -> bool {
    exists|i: int| 0 <= i < domains.len() && host_within(host, #[trigger] domains[i])
}

/// [`DomainFilter`] over character sequences.
pub struct FilterModel {
    pub included: Seq<Seq<char>>,
    pub excluded: Seq<Seq<char>>,
}

impl FilterModel {
    /// Whether the filter restricts anything.
    pub open spec fn active(self) -> bool {
        self.included.len() > 0 || self.excluded.len() > 0
    }

    /// Whether a result from `host` may stay. With an active filter a result
    /// without a host may not; with one, the host has to lie within an included
    /// domain, where any are listed, and within no excluded one.
    pub open spec fn admits(self, host: Option<Seq<char>>) -> bool {
        self.active() ==> match host {
            Some(host) => {
                &&& self.included.len() > 0 ==> host_within_any(host, self.included)
                &&& !host_within_any(host, self.excluded)
            },
            None => false,
        }
    }

    /// Whether a result with this URL may stay.
    pub open spec fn admits_url(self, url: Seq<char>) -> bool {
        self.admits(url_host(url))
    }
}

/// Domains that results have to come from and domains that they must not come
/// from. An empty list restricts nothing.
#[derive(Debug, Clone, PartialEq, Eq)]
pub struct DomainFilter {
    pub included: Vec<String>,
    pub excluded: Vec<String>,
}

impl View for DomainFilter {
    type V = FilterModel;

    open spec fn view(&self) -> FilterModel {
        FilterModel { included: self.included.deep_view(), excluded: self.excluded.deep_view() }
    }
}

impl Default for DomainFilter {
    fn default() -> (filter: Self)
        ensures
            filter@ == (FilterModel { included: Seq::empty(), excluded: Seq::empty() }),
    {
        let filter = DomainFilter { included: Vec::new(), excluded: Vec::new() };
        assert(filter@.included =~= Seq::empty());
        assert(filter@.excluded =~= Seq::empty());
        filter
    }
}

/// The listed domains, none where the list is unset.
pub open spec fn listed(domains: Option<Seq<Seq<char>>>) -> Seq<Seq<char>> {
    match domains {
        Some(domains) => domains,
        None => Seq::empty(),
    }
}

fn copy_list(domains: Option<&[String]>) -> (list: Vec<String>)
    ensures
        list.deep_view() == listed(domains.deep_view()),
{
    let mut list: Vec<String> = Vec::new();
    if let Some(domains) = domains {
        let mut i: usize = 0;
        while i < domains.len()
            invariant
                i <= domains.len(),
                list.deep_view() == domains.deep_view().take(i as int),
            decreases domains.len() - i,
        {
            let ghost before = list.deep_view();
            list.push(domains[i].clone());
            assert(list.deep_view() =~= before.push(domains.deep_view()[i as int]));
            assert(list.deep_view() =~= domains.deep_view().take(i + 1));
            i += 1;
        }
        assert(domains.deep_view().take(i as int) =~= domains.deep_view());
    }
    list
}

/// Whether `host` is `domain` or lies below it.
pub fn domain_matches(host: &str, domain: &str) -> (b: bool)
    ensures
        b == host_within(host@, domain@),
{
    let h: Vec<char> = chars(to_ascii_lowercase(host).as_str());
    let d: Vec<char> = chars(to_ascii_lowercase(domain).as_str());
    let ghost dotted = seq!['.'] + d@;
    if h.len() < d.len() {
        return false;
    }
    let offset: usize = h.len() - d.len();
    let mut i: usize = 0;
    while i < d.len()
        invariant
            i <= d.len(),
            offset + d.len() == h.len(),
            h@ == lowercase(host@),
            d@ == lowercase(domain@),
            dotted == seq!['.'] + d@,
            forall|j: int| 0 <= j < i ==> h@[offset + j] == d@[j],
        decreases d.len() - i,
    {
        if h[offset + i] != d[i] {
            proof {
                if dotted.is_suffix_of(h@) {
                    assert(h@.subrange(offset - 1, h@.len() as int)[i + 1] == dotted[i + 1]);
                }
            }
            return false;
        }
        i += 1;
    }
    if offset == 0 {
        assert(h@ =~= d@);
        true
    } else {
        proof {
            let tail = h@.subrange(offset - 1, h@.len() as int);
            if h@[offset - 1] == '.' {
                assert(tail =~= dotted);
            } else {
                assert(tail[0] != dotted[0]);
            }
        }
        h[offset - 1] == '.'
    }
}

fn matches_any(host: &str, domains: &Vec<String>) -> (b: bool)
    ensures
        b == host_within_any(host@, domains.deep_view()),
{
    let mut i: usize = 0;
    while i < domains.len()
        invariant
            i <= domains.len(),
            forall|j: int|
                0 <= j < i ==> !host_within(host@, #[trigger] domains.deep_view()[j]),
        decreases domains.len() - i,
    {
        if domain_matches(host, domains[i].as_str()) {
            assert(host_within(host@, domains.deep_view()[i as int]));
            return true;
        }
        i += 1;
    }
    false
}

impl DomainFilter {
    /// A filter over the listed domains; an unset list restricts nothing.
    pub fn new(included: Option<&[String]>, excluded: Option<&[String]>) -> (filter: Self)
        ensures
            filter@.included == listed(included.deep_view()),
            filter@.excluded == listed(excluded.deep_view()),
    {
        DomainFilter { included: copy_list(included), excluded: copy_list(excluded) }
    }

    /// Whether a result from `host` may stay; `None` stands for a URL without a
    /// host or one that does not parse.
    pub fn allows_host(&self, host: Option<&str>) -> (b: bool)
        ensures
            b == self@.admits(host.deep_view()),
    {
        if self.included.is_empty() && self.excluded.is_empty() {
            return true;
        }
        match host {
            Some(host) => (self.included.is_empty() || matches_any(host, &self.included))
                && !matches_any(host, &self.excluded),
            None => false,
        }
    }

    /// Whether a result with this URL may stay.
    pub fn allows(&self, url: &str) -> (b: bool)
        ensures
            b == self@.admits_url(url@),
    {
        let host = host_of(url);
        match &host {
            Some(host) => self.allows_host(Some(host.as_str())),
            None => self.allows_host(None),
        }
    }

    /// Drops the results that may not stay and keeps the others in order.
    pub fn retain(&self, results: &mut Vec<WebSearchResult>)
        ensures
            final(results)@ == old(results)@.filter(
                |r: WebSearchResult| self@.admits_url(r.url@),
            ),
    {
        let ghost all = results@;
        let ghost kept = |r: WebSearchResult| self@.admits_url(r.url@);
        let mut i: usize = 0;
        let ghost mut seen: int = 0;
        assert(all.take(0).filter(kept) =~= Seq::empty()) by {
            reveal(Seq::filter);
        }
        while i < results.len()
            invariant
                i <= results.len(),
                0 <= seen <= all.len(),
                kept == (|r: WebSearchResult| self@.admits_url(r.url@)),
                results@.take(i as int) == all.take(seen).filter(kept),
                results@.skip(i as int) == all.skip(seen),
            decreases results.len() - i,
        {
            let ghost before = results@;
            proof {
                reveal(Seq::filter);
                assert(all.skip(seen).len() == before.skip(i as int).len());
                assert(before.skip(i as int)[0] == all.skip(seen)[0]);
                assert(all.take(seen + 1).drop_last() == all.take(seen));
                assert(all.take(seen + 1).last() == before[i as int]);
                assert(before.skip(i as int).drop_first() == all.skip(seen).drop_first());
                assert(all.skip(seen).drop_first() == all.skip(seen + 1));
                assert(before.skip(i as int).drop_first() == before.skip(i + 1));
            }
            if self.allows(results[i].url.as_str()) {
                i += 1;
                assert(results@.take(i as int) == before.take(i - 1).push(before[i - 1]));
            } else {
                results.remove(i);
                assert(results@.take(i as int) == before.take(i as int));
                assert(results@.skip(i as int) == before.skip(i + 1));
            }
            proof {
                seen = seen + 1;
            }
        }
        proof {
            assert(results@.skip(i as int).len() == 0);
            assert(seen == all.len());
            assert(all.take(seen) == all);
            assert(results@.take(i as int) == results@);
        }
    }
}

} // verus!
