//! What each section of a response is made of.

use crate::domain::FilterModel;
use crate::laws::texts::{lemma_filter_positions, positions};
use crate::response::{
    filtered, mapped, provider_response, BraveResponseModel, BraveResultModel,
};
use crate::types::{ResultModel, WebSearchProviderKind};
use vstd::prelude::*;

verus! {

/// The URL of an item, empty where it has none.
pub open spec fn item_url(item: BraveResultModel) -> Seq<char> {
    match item.url {
        Some(url) => url,
        None => Seq::empty(),
    }
}

/// Whether `result` shows what `item` documents, and nothing else.
pub open spec fn shows(result: ResultModel, item: BraveResultModel) -> bool {
    &&& result.url == item_url(item)
    &&& result.title == item.title
    &&& result.description == item.description
    &&& result.thumbnail_url is None
}

/// Whether `results` show exactly the items of `section` whose URL the filter
/// admits, in order; `picks` are the positions of those items.
pub open spec fn selects(
    results: Seq<ResultModel>,
    section: Seq<BraveResultModel>,
    filter: FilterModel,
    picks: Seq<int>,
) -> bool {
    &&& positions(picks, section.len())
    &&& forall|k: int|
        0 <= k < section.len() ==> (picks.contains(k) <==> filter.admits_url(
            item_url(#[trigger] section[k]),
        ))
    &&& results.len() == picks.len()
    &&& forall|i: int| 0 <= i < picks.len() ==> shows(results[i], section[#[trigger] picks[i]])
}

proof fn lemma_section(section: Seq<BraveResultModel>, filter: FilterModel) -> (picks: Seq<int>)
    ensures
        selects(filtered(section, filter), section, filter, picks),
{
    let items = section.map_values(|r: BraveResultModel| mapped(r));
    let kept = |r: ResultModel| filter.admits_url(r.url);
    let picks = lemma_filter_positions(items, kept);
    assert(filtered(section, filter) == items.filter(kept));
    assert forall|k: int| 0 <= k < section.len() implies (picks.contains(k) <==> filter.admits_url(
        item_url(#[trigger] section[k]),
    )) by {
        assert(items[k].url == item_url(section[k]));
    }
    assert forall|i: int| 0 <= i < picks.len() implies shows(
        filtered(section, filter)[i],
        section[#[trigger] picks[i]],
    ) by {
        assert(items[picks[i]] == mapped(section[picks[i]]));
    }
    picks
}

/// Each section of a response shows the admitted items of that section of the
/// envelope, all of them and in order, whatever the other section holds.
pub proof fn law_sections_stand_alone(
    response: BraveResponseModel,
    query: Seq<char>,
    filter: FilterModel,
) -> (picks: (Seq<int>, Seq<int>))
    ensures
        selects(
            provider_response(response, query, filter).web,
            response.web,
            filter,
            picks.0,
        ),
        selects(
            provider_response(response, query, filter).news,
            response.news,
            filter,
            picks.1,
        ),
{
    (lemma_section(response.web, filter), lemma_section(response.news, filter))
}

proof fn lemma_all_positions(picks: Seq<int>, len: nat)
    requires
        positions(picks, len),
        forall|k: int| 0 <= k < len ==> #[trigger] picks.contains(k),
    ensures
        picks.len() == len,
        forall|i: int| 0 <= i < len ==> #[trigger] picks[i] == i,
    decreases len,
{
    if len == 0 {
        if picks.len() > 0 {
            assert(0 <= picks[0] < len);
        }
    } else {
        let last = len - 1;
        assert(picks.contains(last));
        let at = picks.index_of(last);
        if at < picks.len() - 1 {
            assert(picks[at] < picks[picks.len() - 1]);
        }
        let shorter = picks.drop_last();
        assert forall|i: int| 0 <= i < shorter.len() implies 0 <= #[trigger] shorter[i] < last by {
            assert(picks[i] < picks[picks.len() - 1]);
        }
        assert forall|k: int| 0 <= k < last implies #[trigger] shorter.contains(k) by {
            assert(picks.contains(k));
            let i = picks.index_of(k);
            assert(shorter[i] == k);
        }
        assert forall|i: int, j: int| 0 <= i < j < shorter.len() implies shorter[i] < shorter[j] by {
            assert(picks[i] < picks[j]);
        }
        lemma_all_positions(shorter, last as nat);
        assert forall|i: int| 0 <= i < len implies #[trigger] picks[i] == i by {
            if i < last {
                assert(shorter[i] == picks[i]);
            }
        }
    }
}

/// Where no domain is listed, each section of a response has as many results as that
/// section of the envelope has items, and each place shows the item at that place.
pub proof fn law_sections_are_whole_without_a_filter(
    response: BraveResponseModel,
    query: Seq<char>,
    filter: FilterModel,
)
    requires
        filter.included.len() == 0,
        filter.excluded.len() == 0,
    ensures
        provider_response(response, query, filter).web.len() == response.web.len(),
        forall|i: int|
            0 <= i < response.web.len() ==> shows(
                #[trigger] provider_response(response, query, filter).web[i],
                response.web[i],
            ),
        provider_response(response, query, filter).news.len() == response.news.len(),
        forall|i: int|
            0 <= i < response.news.len() ==> shows(
                #[trigger] provider_response(response, query, filter).news[i],
                response.news[i],
            ),
{
    let (web, news) = law_sections_stand_alone(response, query, filter);
    assert forall|k: int| 0 <= k < response.web.len() implies #[trigger] web.contains(k) by {
        assert(filter.admits_url(item_url(response.web[k])));
    }
    lemma_all_positions(web, response.web.len());
    assert forall|k: int| 0 <= k < response.news.len() implies #[trigger] news.contains(k) by {
        assert(filter.admits_url(item_url(response.news[k])));
    }
    lemma_all_positions(news, response.news.len());
    assert forall|i: int| 0 <= i < response.web.len() implies shows(
        #[trigger] provider_response(response, query, filter).web[i],
        response.web[i],
    ) by {
        assert(web[i] == i);
    }
    assert forall|i: int| 0 <= i < response.news.len() implies shows(
        #[trigger] provider_response(response, query, filter).news[i],
        response.news[i],
    ) by {
        assert(news[i] == i);
    }
}

/// A response says that it is Brave's, names the term that Brave reports, even an
/// empty one, and else the query, and claims no identifier and no latency, whatever
/// its results are.
pub proof fn law_what_a_response_says_of_itself(
    response: BraveResponseModel,
    query: Seq<char>,
    filter: FilterModel,
)
    ensures
        ({
            let said = provider_response(response, query, filter).metadata;
            &&& said.provider is Brave
            &&& response.search_term matches Some(term) ==> said.query == term
            &&& response.search_term is None ==> said.query == query
            &&& said.search_uuid is None
            &&& said.latency is None
        }),
{
    assert(provider_response(response, query, filter).metadata.provider
        == WebSearchProviderKind::Brave);
}

} // verus!
