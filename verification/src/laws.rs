//! What holds of the provider as a whole.

pub mod filters;
pub mod providers;
pub mod requests;
pub mod responses;
pub mod searches;
pub mod texts;
pub mod views;

use crate::domain::{host_within, host_within_any, listed, url_host, FilterModel};
use crate::provider::{provider_from, shown, ProviderModel, BRAVE_API_KEY, BRAVE_DEFAULT_BASE_URL};
use crate::request::{
    capped_count, chosen_country, chosen_filter, optional_param, request_for, RequestModel,
    BRAVE_MAX_COUNT,
};
use crate::response::{filtered, mapped, provider_response, BraveResponseModel, BraveResultModel};
use crate::search::{
    decode_result, rejection_message, reply_result, search_start, send_error, status_line,
    unset_message, HttpModel, PendingModel, RepliedModel,
};
use crate::text::{lowercase, strip_back, strip_front, trimmed, whitespace, without_trailing};
use crate::types::{
    clean_list, nonblank, ErrorModel, ResponseModel, WebSearchArguments, WebSearchFilters, WebSearchToolParam,
    WebSearchUserLocation,
};
use vstd::prelude::*;

verus! {

/// Whether every character of `s` is whitespace.
pub open spec fn blank(s: Seq<char>) -> bool {
    forall|i: int| 0 <= i < s.len() ==> whitespace(#[trigger] s[i])
}

proof fn lemma_strip_front(s: Seq<char>) -> (head: Seq<char>)
    ensures
        s == head + strip_front(s),
        blank(head),
        strip_front(s).len() > 0 ==> !whitespace(strip_front(s).first()),
    decreases s.len(),
{
    if s.len() > 0 && whitespace(s.first()) {
        let rest = lemma_strip_front(s.drop_first());
        let head = seq![s.first()] + rest;
        assert(s =~= seq![s.first()] + s.drop_first());
        assert(head + strip_front(s) =~= seq![s.first()] + (rest + strip_front(s.drop_first())));
        head
    } else {
        assert(s =~= Seq::empty() + s);
        Seq::empty()
    }
}

proof fn lemma_strip_back(s: Seq<char>) -> (tail: Seq<char>)
    ensures
        s == strip_back(s) + tail,
        blank(tail),
        strip_back(s).len() > 0 ==> !whitespace(strip_back(s).last()),
    decreases s.len(),
{
    if s.len() > 0 && whitespace(s.last()) {
        let rest = lemma_strip_back(s.drop_last());
        let tail = rest.push(s.last());
        assert(s =~= s.drop_last().push(s.last()));
        assert(strip_back(s) + tail =~= (strip_back(s.drop_last()) + rest).push(s.last()));
        tail
    } else {
        assert(s =~= s + Seq::empty());
        Seq::empty()
    }
}

/// Trimming takes nothing but whitespace, from the two ends alone, and leaves
/// none there.
pub proof fn law_trimming(s: Seq<char>)
    ensures
        exists|head: Seq<char>, tail: Seq<char>|
            #![trigger blank(head), blank(tail)]
            blank(head) && blank(tail) && s == head + trimmed(s) + tail,
        trimmed(s).len() > 0 ==> !whitespace(trimmed(s).first()) && !whitespace(trimmed(s).last()),
{
    let head = lemma_strip_front(s);
    let tail = lemma_strip_back(strip_front(s));
    assert(s =~= head + trimmed(s) + tail);
    if trimmed(s).len() > 0 {
        assert(trimmed(s).first() == strip_front(s).first());
    }
}

/// Trimming twice is trimming once.
pub proof fn law_trimming_is_idempotent(s: Seq<char>)
    ensures
        trimmed(trimmed(s)) == trimmed(s),
{
    law_trimming(s);
    assert(strip_front(trimmed(s)) == trimmed(s));
}

/// Trimming leaves nothing exactly of text that is all whitespace.
pub proof fn law_blank_text_trims_to_nothing(s: Seq<char>)
    ensures
        blank(s) <==> trimmed(s).len() == 0,
{
    let head = lemma_strip_front(s);
    let tail = lemma_strip_back(strip_front(s));
    assert(s =~= head + trimmed(s) + tail);
    if trimmed(s).len() > 0 {
        assert(s[head.len() as int] == trimmed(s).first());
        assert(trimmed(s).first() == strip_front(s).first());
    } else {
        assert forall|i: int| 0 <= i < s.len() implies whitespace(#[trigger] s[i]) by {
            if i < head.len() {
                assert(s[i] == head[i]);
            } else {
                assert(s[i] == tail[i - head.len()]);
            }
        }
    }
}

/// A configured list that counts has at least one entry, and none of its entries
/// is blank or has whitespace at either end.
pub proof fn law_configured_domains_are_clean(list: Option<Seq<Seq<char>>>)
    ensures
        clean_list(list) matches Some(domains) ==> {
            &&& domains.len() > 0
            &&& forall|i: int|
                0 <= i < domains.len() ==> (#[trigger] domains[i]).len() > 0 && trimmed(domains[i])
                    == domains[i]
        },
{
    if let Some(entries) = list {
        let texts = entries.map_values(|s: Seq<char>| trimmed(s));
        let kept = |s: Seq<char>| s.len() > 0;
        lemma_filter_picks(texts, kept);
        assert forall|i: int| 0 <= i < texts.filter(kept).len() implies trimmed(
            #[trigger] texts.filter(kept)[i],
        ) == texts.filter(kept)[i] by {
            let k = choose|k: int| 0 <= k < texts.len() && texts[k] == texts.filter(kept)[i];
            law_trimming_is_idempotent(entries[k]);
        }
    }
}

proof fn lemma_filter_picks(list: Seq<Seq<char>>, kept: spec_fn(Seq<char>) -> bool)
    ensures
        forall|i: int|
            0 <= i < list.filter(kept).len() ==> kept(#[trigger] list.filter(kept)[i]) && exists|
                k: int,
            |
                0 <= k < list.len() && list[k] == list.filter(kept)[i],
    decreases list.len(),
{
    reveal(Seq::filter);
    if list.len() > 0 {
        let shorter = list.drop_last();
        lemma_filter_picks(shorter, kept);
        assert forall|i: int| 0 <= i < list.filter(kept).len() implies kept(
            #[trigger] list.filter(kept)[i],
        ) && exists|k: int| 0 <= k < list.len() && list[k] == list.filter(kept)[i] by {
            if i < shorter.filter(kept).len() {
                assert(list.filter(kept)[i] == shorter.filter(kept)[i]);
                let k = choose|k: int|
                    0 <= k < shorter.len() && shorter[k] == shorter.filter(kept)[i];
                assert(list[k] == list.filter(kept)[i]);
            } else {
                assert(list[list.len() - 1] == list.filter(kept)[i]);
            }
        }
    }
}

/// A count from one up to the cap is sent as it is, and a larger one, however
/// large, is lowered to the cap rather than refused.
pub proof fn law_counts_above_the_cap_are_clamped(count: u16)
    requires
        count > 0,
    ensures
        capped_count(count) == Ok::<u8, ErrorModel>(
            if count < BRAVE_MAX_COUNT {
                count as u8
            } else {
                BRAVE_MAX_COUNT
            },
        ),
{
}

/// No request asks for more results than the cap, or for none.
pub proof fn law_requests_stay_within_the_cap(
    query: Seq<char>,
    args: WebSearchArguments,
    config: WebSearchToolParam,
)
    ensures
        request_for(query, args, config) matches Ok(request) ==> (request.count matches Some(
            count,
        ) ==> 1 <= count <= BRAVE_MAX_COUNT),
{
}

/// A request can be built for every call but one that asks for zero results.
pub proof fn law_only_a_zero_count_is_refused(
    query: Seq<char>,
    args: WebSearchArguments,
    config: WebSearchToolParam,
)
    ensures
        request_for(query, args, config) is Err <==> args.count == Some(0u16),
{
}

/// The arguments that Brave does not support change nothing.
pub proof fn law_unsupported_arguments_are_ignored(
    query: Seq<char>,
    args: WebSearchArguments,
    other: WebSearchArguments,
    config: WebSearchToolParam,
)
    requires
        other.count == args.count,
        other.freshness == args.freshness,
        other.country.deep_view() == args.country.deep_view(),
        other.language.deep_view() == args.language.deep_view(),
        other.include_domains.deep_view() == args.include_domains.deep_view(),
        other.exclude_domains.deep_view() == args.exclude_domains.deep_view(),
    ensures
        request_for(query, other, config) == request_for(query, args, config),
{
}

/// A configured list of allowed domains takes the place of the call's own list,
/// unless nothing in it is left once blank entries are gone. The same holds of
/// the blocked ones.
pub proof fn law_configured_domains_win(
    args: WebSearchArguments,
    config: WebSearchToolParam,
    filters: WebSearchFilters,
)
    requires
        config.filters == Some(filters),
    ensures
        clean_list(filters.allowed_domains.deep_view()) matches Some(domains) ==> chosen_filter(
            args,
            config,
        ).included == domains,
        clean_list(filters.allowed_domains.deep_view()) is None ==> chosen_filter(
            args,
            config,
        ).included == listed(args.include_domains.deep_view()),
        clean_list(filters.blocked_domains.deep_view()) matches Some(domains) ==> chosen_filter(
            args,
            config,
        ).excluded == domains,
        clean_list(filters.blocked_domains.deep_view()) is None ==> chosen_filter(
            args,
            config,
        ).excluded == listed(args.exclude_domains.deep_view()),
{
}

/// The country of the user's location takes the place of the call's own, unless
/// it is blank.
pub proof fn law_location_wins(
    args: WebSearchArguments,
    config: WebSearchToolParam,
    location: WebSearchUserLocation,
    country: String,
)
    requires
        config.user_location == Some(location),
        location.country == Some(country),
    ensures
        nonblank(country@) is Some ==> chosen_country(args, config) == nonblank(country@),
        nonblank(country@) is None ==> chosen_country(args, config) == args.country.deep_view(),
{
}

/// A request's country holds no ASCII letter in lower case.
pub proof fn law_country_is_in_upper_case(
    query: Seq<char>,
    args: WebSearchArguments,
    config: WebSearchToolParam,
)
    ensures
        request_for(query, args, config) matches Ok(request) ==> (request.country matches Some(
            country,
        ) ==> forall|i: int| 0 <= i < country.len() ==> !('a' <= #[trigger] country[i] <= 'z')),
{
}

/// The query goes first and the sections second, and no parameter is sent twice.
pub proof fn law_parameters_are_distinct(request: RequestModel)
    ensures
        request.params().len() >= 2,
        request.params()[0] == ("q"@, request.query),
        request.params()[1] == ("result_filter"@, "web,news"@),
        forall|i: int, j: int|
            0 <= i < j < request.params().len() ==> (#[trigger] request.params()[i]).0 != (
            #[trigger] request.params()[j]).0,
{
    reveal_strlit("q");
    reveal_strlit("result_filter");
    reveal_strlit("count");
    reveal_strlit("freshness");
    reveal_strlit("country");
    reveal_strlit("search_lang");
    assert("q"@.len() == 1);
    assert("result_filter"@.len() == 13);
    assert("count"@.len() == 5);
    assert("freshness"@.len() == 9);
    assert("country"@.len() == 7);
    assert("search_lang"@.len() == 11);
    let fixed = seq![("q"@, request.query), ("result_filter"@, "web,news"@)];
    let counted = fixed + optional_param("count"@, request.count_value());
    let dated = counted + optional_param("freshness"@, request.freshness_value());
    let placed = dated + optional_param("country"@, request.country);
    assert(request.params() == placed + optional_param("search_lang"@, request.language));
}

/// A date range is sent as no freshness at all.
pub proof fn law_date_ranges_are_left_out(request: RequestModel, undated: RequestModel)
    requires
        request.freshness matches Some(freshness) && freshness is Range,
        undated == (RequestModel { freshness: None, ..request }),
    ensures
        request.params() == undated.params(),
{
}

/// The domains of a request are never sent.
pub proof fn law_domains_are_not_sent(request: RequestModel, filter: FilterModel)
    ensures
        (RequestModel { domain_filter: filter, ..request }).params() == request.params(),
{
}

/// The labels of a host name: what stands between its dots.
pub open spec fn labels(name: Seq<char>) -> Seq<Seq<char>>
    decreases name.len(),
{
    if name.len() == 0 {
        seq![Seq::empty()]
    } else {
        let before = labels(name.drop_last());
        if name.last() == '.' {
            before.push(Seq::empty())
        } else {
            before.drop_last().push(before.last().push(name.last()))
        }
    }
}

/// `list` with a dot between every two of its entries.
spec fn dotted(list: Seq<Seq<char>>) -> Seq<char>
    decreases list.len(),
{
    if list.len() <= 1 {
        list[0]
    } else {
        dotted(list.drop_last()).push('.') + list.last()
    }
}

proof fn lemma_labels_nonempty(name: Seq<char>)
    ensures
        labels(name).len() > 0,
    decreases name.len(),
{
    if name.len() > 0 {
        lemma_labels_nonempty(name.drop_last());
    }
}

proof fn lemma_labels_of_joined(head: Seq<char>, tail: Seq<char>)
    ensures
        labels(head.push('.') + tail) == labels(head) + labels(tail),
    decreases tail.len(),
{
    let whole = head.push('.') + tail;
    if tail.len() == 0 {
        assert(whole.drop_last() =~= head);
        assert(labels(whole) =~= labels(head) + labels(tail));
    } else {
        lemma_labels_of_joined(head, tail.drop_last());
        lemma_labels_nonempty(tail.drop_last());
        assert(whole.drop_last() =~= head.push('.') + tail.drop_last());
        assert(labels(whole) =~= labels(head) + labels(tail));
    }
}

proof fn lemma_dotted_labels(name: Seq<char>)
    ensures
        dotted(labels(name)) == name,
    decreases name.len(),
{
    if name.len() > 0 {
        let before = labels(name.drop_last());
        lemma_dotted_labels(name.drop_last());
        lemma_labels_nonempty(name.drop_last());
        let all = labels(name);
        if name.last() == '.' {
            assert(all.drop_last() =~= before);
            assert(dotted(all) =~= name);
        } else {
            assert(all.drop_last() =~= before.drop_last());
            assert(dotted(all) =~= dotted(before).push(name.last()));
            assert(name =~= name.drop_last().push(name.last()));
        }
    }
}

proof fn lemma_dotted_joined(head: Seq<Seq<char>>, tail: Seq<Seq<char>>)
    requires
        head.len() > 0,
        tail.len() > 0,
    ensures
        dotted(head + tail) == dotted(head).push('.') + dotted(tail),
    decreases tail.len(),
{
    let whole = head + tail;
    if tail.len() == 1 {
        assert(whole.drop_last() =~= head);
    } else {
        lemma_dotted_joined(head, tail.drop_last());
        assert(whole.drop_last() =~= head + tail.drop_last());
        assert(dotted(whole) =~= dotted(head).push('.') + dotted(tail));
    }
}

/// A host lies within a domain exactly if, ignoring ASCII case, the host's labels
/// end with all of the domain's labels: only whole labels match.
pub proof fn law_domains_match_on_label_boundaries(host: Seq<char>, domain: Seq<char>)
    ensures
        host_within(host, domain) <==> labels(lowercase(domain)).is_suffix_of(
            labels(lowercase(host)),
        ),
{
    let h = lowercase(host);
    let d = lowercase(domain);
    let all = labels(h);
    let end = labels(d);
    let suffix = seq!['.'] + d;
    lemma_labels_nonempty(d);
    if h == d {
        assert(end =~= all.subrange(0, all.len() as int));
    } else if suffix.is_suffix_of(h) {
        let head = h.take(h.len() - suffix.len());
        assert(h =~= head + suffix);
        assert(h =~= head.push('.') + d);
        lemma_labels_of_joined(head, d);
        assert(end =~= all.subrange(all.len() - end.len(), all.len() as int));
    }
    if end.is_suffix_of(all) {
        let head = all.take(all.len() - end.len());
        assert(all =~= head + end);
        lemma_dotted_labels(h);
        lemma_dotted_labels(d);
        if head.len() == 0 {
            assert(all =~= end);
        } else {
            lemma_dotted_joined(head, end);
            assert(h == dotted(head).push('.') + d);
            assert(suffix =~= h.subrange(h.len() - suffix.len(), h.len() as int));
        }
    }
}

/// What lies within a subdomain lies within the domain.
pub proof fn law_subdomains_nest(host: Seq<char>, inner: Seq<char>, outer: Seq<char>)
    requires
        host_within(host, inner),
        host_within(inner, outer),
    ensures
        host_within(host, outer),
{
    let h = lowercase(host);
    let i = lowercase(inner);
    let o = lowercase(outer);
    if h != i && i != o {
        let long = seq!['.'] + i;
        let short = seq!['.'] + o;
        let start = i.len() - short.len();
        assert(short =~= i.subrange(start, i.len() as int));
        assert forall|k: int| 0 <= k < short.len() implies short[k] == h.subrange(
            h.len() - short.len(),
            h.len() as int,
        )[k] by {
            assert(short[k] == i[start + k]);
            assert(i[start + k] == long[start + k + 1]);
            assert(long[start + k + 1] == h.subrange(h.len() - long.len(), h.len() as int)[start + k
                + 1]);
        }
        assert(short =~= h.subrange(h.len() - short.len(), h.len() as int));
    }
}

/// With a list of included domains, nothing from outside them stays.
pub proof fn law_the_allowlist_is_hard(filter: FilterModel, url: Seq<char>)
    requires
        filter.included.len() > 0,
        filter.admits_url(url),
    ensures
        url_host(url) matches Some(host) && host_within_any(host, filter.included),
{
}

/// What lies within an excluded domain never stays, included or not.
pub proof fn law_exclusion_wins(filter: FilterModel, host: Seq<char>)
    requires
        host_within_any(host, filter.excluded),
    ensures
        !filter.admits(Some(host)),
{
}

/// A URL that does not parse, or has no host, is dropped by every active filter
/// and kept by an inactive one.
pub proof fn law_filters_fail_closed(filter: FilterModel, url: Seq<char>)
    requires
        url_host(url) is None,
    ensures
        filter.admits_url(url) <==> !filter.active(),
{
}

/// An inactive filter keeps every result.
pub proof fn law_no_filter_keeps_everything(section: Seq<BraveResultModel>, filter: FilterModel)
    requires
        !filter.active(),
    ensures
        filtered(section, filter) == section.map_values(|r: BraveResultModel| mapped(r)),
    decreases section.len(),
{
    reveal(Seq::filter);
    let items = section.map_values(|r: BraveResultModel| mapped(r));
    if section.len() > 0 {
        law_no_filter_keeps_everything(section.drop_last(), filter);
        assert(section.drop_last().map_values(|r: BraveResultModel| mapped(r))
            =~= items.drop_last());
        assert(items =~= items.drop_last().push(items.last()));
    }
    assert(filtered(section, filter) =~= items);
}

/// Whether `picks` are the positions, in order, of the items of `section` whose
/// URL the filter admits.
pub open spec fn picks_admitted(
    section: Seq<BraveResultModel>,
    filter: FilterModel,
    picks: Seq<int>,
) -> bool {
    &&& forall|i: int, j: int| 0 <= i < j < picks.len() ==> picks[i] < picks[j]
    &&& forall|i: int| 0 <= i < picks.len() ==> 0 <= #[trigger] picks[i] < section.len()
    &&& forall|k: int|
        0 <= k < section.len() ==> (picks.contains(k) <==> filter.admits_url(
            mapped(#[trigger] section[k]).url,
        ))
}

/// Filtering keeps exactly the items whose URL is admitted, each as often as it
/// came and in the order in which they came.
pub proof fn law_filtering_keeps_order(section: Seq<BraveResultModel>, filter: FilterModel) -> (picks:
    Seq<int>)
    ensures
        picks_admitted(section, filter, picks),
        filtered(section, filter) == picks.map_values(|k: int| mapped(section[k])),
    decreases section.len(),
{
    reveal(Seq::filter);
    let items = section.map_values(|r: BraveResultModel| mapped(r));
    if section.len() == 0 {
        let picks = Seq::<int>::empty();
        assert(filtered(section, filter) =~= picks.map_values(|k: int| mapped(section[k])));
        picks
    } else {
        let shorter = section.drop_last();
        let last = section.len() - 1;
        let before = law_filtering_keeps_order(shorter, filter);
        assert(shorter.map_values(|r: BraveResultModel| mapped(r)) =~= items.drop_last());
        let picks = if filter.admits_url(mapped(section[last]).url) {
            before.push(last)
        } else {
            before
        };
        assert(filtered(section, filter) =~= picks.map_values(|k: int| mapped(section[k])));
        assert forall|k: int| 0 <= k < section.len() implies (picks.contains(k)
            <==> filter.admits_url(mapped(#[trigger] section[k]).url)) by {
            if k < last {
                assert(shorter[k] == section[k]);
                if before.contains(k) {
                    let i = before.index_of(k);
                    assert(picks[i] == k);
                }
                if picks.contains(k) {
                    let i = picks.index_of(k);
                    assert(before[i] == k);
                }
            } else {
                if filter.admits_url(mapped(section[last]).url) {
                    assert(picks[picks.len() - 1] == last);
                } else if picks.contains(k) {
                    let i = picks.index_of(k);
                    assert(before[i] < shorter.len());
                }
            }
        }
        picks
    }
}

/// Every result of a search that succeeds is admitted by the filter that the
/// call's arguments and configuration ask for, and the response names the query
/// that Brave reports, else the call's own without surrounding whitespace.
pub proof fn law_results_obey_the_filter(
    provider: ProviderModel,
    query: Seq<char>,
    args: WebSearchArguments,
    config: WebSearchToolParam,
    status: u16,
    retry_after: Option<Seq<char>>,
    body: Result<Seq<char>, ErrorModel>,
    decoded: Result<BraveResponseModel, Seq<char>>,
)
    requires
        search_start(provider, query, args, config) is Ok,
        reply_result(
            search_start(provider, query, args, config)->Ok_0.1,
            status,
            retry_after,
            body,
        ) is Ok,
        decoded is Ok,
    ensures
        ({
            let pending = search_start(provider, query, args, config)->Ok_0.1;
            let replied = reply_result(pending, status, retry_after, body)->Ok_0;
            let filter = chosen_filter(args, config);
            &&& decode_result(replied, decoded) matches Ok(response)
            &&& response == provider_response(decoded->Ok_0, trimmed(query), filter)
            &&& forall|i: int|
                0 <= i < response.web.len() ==> filter.admits_url(
                    (#[trigger] response.web[i]).url,
                )
            &&& forall|i: int|
                0 <= i < response.news.len() ==> filter.admits_url(
                    (#[trigger] response.news[i]).url,
                )
            &&& response.metadata.query == (match decoded->Ok_0.search_term {
                Some(term) => term,
                None => trimmed(query),
            })
        }),
{
    let filter = chosen_filter(args, config);
    let response = provider_response(decoded->Ok_0, trimmed(query), filter);
    let web = law_filtering_keeps_order(decoded->Ok_0.web, filter);
    let news = law_filtering_keeps_order(decoded->Ok_0.news, filter);
    assert forall|i: int| 0 <= i < response.web.len() implies filter.admits_url(
        (#[trigger] response.web[i]).url,
    ) by {
        assert(web.contains(web[i]));
    }
    assert forall|i: int| 0 <= i < response.news.len() implies filter.admits_url(
        (#[trigger] response.news[i]).url,
    ) by {
        assert(news.contains(news[i]));
    }
}

proof fn lemma_without_trailing(s: Seq<char>, c: char)
    ensures
        without_trailing(s, c).len() > 0 ==> without_trailing(s, c).last() != c,
    decreases s.len(),
{
    if s.len() > 0 && s.last() == c {
        lemma_without_trailing(s.drop_last(), c);
    }
}

/// A provider built from values always has a base URL, and that is not empty and
/// does not end with a slash.
pub proof fn law_base_url_is_always_set(api_key: Option<Seq<char>>, base_url: Option<Seq<char>>)
    ensures
        provider_from(api_key, base_url).base_url matches Some(base) && base.len() > 0
            && base.last() != '/',
{
    reveal_strlit("https://api.search.brave.com");
    if let Some(value) = base_url {
        lemma_without_trailing(trimmed(value), '/');
    }
}

/// A blank key is as good as none: every search fails for want of one.
pub proof fn law_a_blank_key_is_unset(
    api_key: Option<Seq<char>>,
    base_url: Option<Seq<char>>,
    query: Seq<char>,
    args: WebSearchArguments,
    config: WebSearchToolParam,
)
    requires
        api_key matches Some(value) ==> blank(value),
    ensures
        search_start(provider_from(api_key, base_url), query, args, config) is Err,
        search_start(provider_from(api_key, base_url), query, args, config)->Err_0
            == ErrorModel::Config(unset_message(BRAVE_API_KEY@)),
{
    if let Some(value) = api_key {
        law_blank_text_trims_to_nothing(value);
    }
}

/// A blank base URL falls back to the default one.
pub proof fn law_a_blank_base_url_falls_back(api_key: Option<Seq<char>>, base_url: Option<Seq<char>>)
    requires
        base_url matches Some(value) ==> blank(value),
    ensures
        provider_from(api_key, base_url).base_url == Some(BRAVE_DEFAULT_BASE_URL@),
{
    if let Some(value) = base_url {
        law_blank_text_trims_to_nothing(value);
    }
}

/// A reply that does not report success gives no results. It is answered with its
/// status, its hint on when to try again and its body, and with an empty body
/// where that could not be read.
pub proof fn law_rejections_are_reported(
    pending: PendingModel,
    status: u16,
    retry_after: Option<Seq<char>>,
    body: Seq<char>,
    error: ErrorModel,
)
    requires
        !(200 <= status <= 299),
    ensures
        reply_result(pending, status, retry_after, Ok(body)) == Err::<RepliedModel, ErrorModel>(
            ErrorModel::Execution(rejection_message(status_line(status), retry_after, body)),
        ),
        reply_result(pending, status, retry_after, Err(error)) == reply_result(
            pending,
            status,
            retry_after,
            Ok(Seq::empty()),
        ),
{
}

/// A provider built from values with a key that is not blank starts every search
/// but one that asks for zero results, and asks Brave under its base URL, with a
/// single slash where that ends.
pub proof fn law_a_keyed_provider_searches(
    api_key: Seq<char>,
    base_url: Option<Seq<char>>,
    query: Seq<char>,
    args: WebSearchArguments,
    config: WebSearchToolParam,
)
    requires
        !blank(api_key),
    ensures
        ({
            let provider = provider_from(Some(api_key), base_url);
            let start = search_start(provider, query, args, config);
            &&& start is Ok <==> args.count != Some(0u16)
            &&& start matches Ok((request, _)) ==> {
                let base = provider.base_url->Some_0;
                &&& request.url == base + "/res/v1/web/search"@
                &&& base.last() != '/'
                &&& request.header == ("X-Subscription-Token"@, trimmed(api_key))
            }
        }),
{
    law_blank_text_trims_to_nothing(api_key);
    law_base_url_is_always_set(Some(api_key), base_url);
    law_only_a_zero_count_is_refused(query, args, config);
}

/// The credential goes into the value of the request's header and nowhere else:
/// with another credential all else is the same, errors too.
pub proof fn law_the_key_only_goes_into_the_header(
    base_url: Option<Seq<char>>,
    key: Seq<char>,
    other: Seq<char>,
    query: Seq<char>,
    args: WebSearchArguments,
    config: WebSearchToolParam,
)
    ensures
        ({
            let one = search_start(
                ProviderModel { api_key: Some(key), base_url },
                query,
                args,
                config,
            );
            let two = search_start(
                ProviderModel { api_key: Some(other), base_url },
                query,
                args,
                config,
            );
            match (one, two) {
                (Ok((a, waiting)), Ok((b, also_waiting))) => {
                    &&& a.header.1 == key
                    &&& b.header.1 == other
                    &&& a.header.0 == b.header.0
                    &&& a.url == b.url
                    &&& a.params == b.params
                    &&& waiting == also_waiting
                },
                (Err(a), Err(b)) => a == b,
                _ => false,
            }
        }),
{
}

/// A provider is shown the same whatever its credential is.
pub proof fn law_the_key_is_never_shown(
    client: Seq<char>,
    base_url: Option<Seq<char>>,
    key: Seq<char>,
    other: Seq<char>,
)
    ensures
        shown(client, ProviderModel { api_key: Some(key), base_url }) == shown(
            client,
            ProviderModel { api_key: Some(other), base_url },
        ),
{
}

/// One call of the search.
pub struct SearchCall {
    pub provider: ProviderModel,
    pub query: Seq<char>,
    pub args: WebSearchArguments,
    pub config: WebSearchToolParam,
}

impl SearchCall {
    /// What the call starts with.
    pub open spec fn start(self) -> Result<(HttpModel, PendingModel), ErrorModel> {
        search_start(self.provider, self.query, self.args, self.config)
    }
}

/// How far a search has come.
pub enum SearchState {
    Called(SearchCall),
    Pending(PendingModel),
    Replied(RepliedModel),
    Finished,
}

/// What happens to a search from outside.
pub enum SearchEvent {
    Started,
    SendFailed(Seq<char>),
    Replied {
        status: u16,
        retry_after: Option<Seq<char>>,
        body: Result<Seq<char>, ErrorModel>,
    },
    Decoded(Result<BraveResponseModel, Seq<char>>),
}

/// What a search asks for.
pub enum SearchAction {
    Send(HttpModel),
    Decode(Seq<char>),
    Finish(Result<ResponseModel, ErrorModel>),
    Nothing,
}

/// The next state of a search and what it asks for. An event that its state does
/// not wait for changes nothing.
pub open spec fn search_step(state: SearchState, event: SearchEvent) -> (
    SearchState,
    SearchAction,
) {
    match (state, event) {
        (SearchState::Called(call), SearchEvent::Started) => match call.start() {
            Ok((request, pending)) => (
                SearchState::Pending(pending),
                SearchAction::Send(request),
            ),
            Err(error) => (SearchState::Finished, SearchAction::Finish(Err(error))),
        },
        (SearchState::Pending(_), SearchEvent::SendFailed(error)) => (
            SearchState::Finished,
            SearchAction::Finish(Err(send_error(error))),
        ),
        (
            SearchState::Pending(pending),
            SearchEvent::Replied { status, retry_after, body },
        ) => match reply_result(pending, status, retry_after, body) {
            Ok(replied) => (
                SearchState::Replied(replied),
                SearchAction::Decode(replied.body),
            ),
            Err(error) => (SearchState::Finished, SearchAction::Finish(Err(error))),
        },
        (SearchState::Replied(replied), SearchEvent::Decoded(decoded)) => (
            SearchState::Finished,
            SearchAction::Finish(decode_result(replied, decoded)),
        ),
        _ => (state, SearchAction::Nothing),
    }
}

/// The requests that a search asks to send in the course of `events`, in order.
pub open spec fn requests_sent(state: SearchState, events: Seq<SearchEvent>) -> Seq<HttpModel>
    decreases events.len(),
{
    if events.len() == 0 {
        Seq::empty()
    } else {
        let (next, action) = search_step(state, events.first());
        let later = requests_sent(next, events.drop_first());
        match action {
            SearchAction::Send(request) => seq![request] + later,
            _ => later,
        }
    }
}

proof fn lemma_nothing_is_sent_later(state: SearchState, events: Seq<SearchEvent>)
    requires
        !(state is Called),
    ensures
        requests_sent(state, events) == Seq::<HttpModel>::empty(),
    decreases events.len(),
{
    if events.len() > 0 {
        let (next, _) = search_step(state, events.first());
        lemma_nothing_is_sent_later(next, events.drop_first());
    }
}

/// Whatever happens, and however often, a search sends the request that its call
/// starts with, once, when it is started, and never another: no failure and no
/// reply leads to a second one. A call that starts with an error sends none.
pub proof fn law_a_search_sends_one_request(call: SearchCall, events: Seq<SearchEvent>)
    ensures
        requests_sent(SearchState::Called(call), events) == (match call.start() {
            Ok((request, _)) => if events.contains(SearchEvent::Started) {
                seq![request]
            } else {
                Seq::empty()
            },
            Err(_) => Seq::empty(),
        }),
        requests_sent(SearchState::Called(call), events).len() <= 1,
    decreases events.len(),
{
    let state = SearchState::Called(call);
    if events.len() > 0 {
        let rest = events.drop_first();
        if events.first() is Started {
            assert(events[0] == SearchEvent::Started);
            let (next, _) = search_step(state, events.first());
            lemma_nothing_is_sent_later(next, rest);
        } else {
            law_a_search_sends_one_request(call, rest);
            if events.contains(SearchEvent::Started) {
                let i = events.index_of(SearchEvent::Started);
                assert(rest[i - 1] == SearchEvent::Started);
            }
            if rest.contains(SearchEvent::Started) {
                let i = rest.index_of(SearchEvent::Started);
                assert(events[i + 1] == SearchEvent::Started);
            }
        }
    }
}

/// The request that a search sends asks for the results of its query under the
/// base URL, with the query parameters of the call's request, and sets one header,
/// the one that names the key.
pub proof fn law_the_request_sent(
    call: SearchCall,
    events: Seq<SearchEvent>,
    key: Seq<char>,
    base: Seq<char>,
    request: RequestModel,
)
    requires
        call.provider.api_key == Some(key),
        call.provider.base_url == Some(base),
        request_for(call.query, call.args, call.config) == Ok::<RequestModel, ErrorModel>(request),
        events.contains(SearchEvent::Started),
    ensures
        requests_sent(SearchState::Called(call), events) == seq![
            HttpModel {
                url: base + "/res/v1/web/search"@,
                params: request.params(),
                header: ("X-Subscription-Token"@, key),
            },
        ],
{
    law_a_search_sends_one_request(call, events);
}

/// No listed domain reaches the request that is sent: whatever the call and the
/// configuration list, the request is the same.
pub proof fn law_domains_never_reach_the_request(
    call: SearchCall,
    other: SearchCall,
    events: Seq<SearchEvent>,
)
    requires
        other.provider == call.provider,
        other.query == call.query,
        other.args == (WebSearchArguments {
            include_domains: other.args.include_domains,
            exclude_domains: other.args.exclude_domains,
            boost_domains: other.args.boost_domains,
            ..call.args
        }),
        other.config == (WebSearchToolParam { filters: other.config.filters, ..call.config }),
    ensures
        requests_sent(SearchState::Called(other), events) == requests_sent(
            SearchState::Called(call),
            events,
        ),
{
    law_a_search_sends_one_request(call, events);
    law_a_search_sends_one_request(other, events);
}

} // verus!
