//! What a call's arguments and configuration come to in its request and in the
//! parameters that are sent.

use crate::laws::blank;
use crate::laws::texts::law_a_value_counts_unless_blank;
use crate::request::{capped_count, freshness_word, optional_param, request_for, RequestModel};
use crate::text::{decimal, trimmed, uppercase};
use crate::types::{
    clean_list, valid_count, ErrorModel, Freshness, WebSearchArguments, WebSearchFilters,
    WebSearchToolParam,
};
use vstd::prelude::*;

verus! {

/// Every count that fits a byte is valid as it is, but for zero, and a larger one is
/// the largest byte.
pub proof fn law_valid_counts(count: u16)
    ensures
        valid_count(count) is Err <==> count == 0,
        valid_count(count) matches Ok(valid) ==> valid <= count && (valid == count || (valid == 255
            && count > 255)),
        capped_count(count) is Err <==> count == 0,
        capped_count(count) matches Ok(capped) ==> capped <= 20 && capped <= count && (capped
            == count || capped == 20),
{
}

/// The call's own count is what is asked for, up to twenty, whatever the context
/// size. Without one the context size decides, and without either no count is set.
/// Nothing else has a part in it.
pub proof fn law_the_count_of_a_request(
    query: Seq<char>,
    args: WebSearchArguments,
    config: WebSearchToolParam,
)
    ensures
        args.count matches Some(count) ==> (if count == 0 {
            request_for(query, args, config) == Err::<RequestModel, ErrorModel>(
                ErrorModel::InvalidArguments("web_search count must be at least 1"@),
            )
        } else {
            request_for(query, args, config) matches Ok(request) && request.count == Some(
                if count < 20 {
                    count as u8
                } else {
                    20u8
                },
            )
        }),
        args.count is None ==> (request_for(query, args, config) matches Ok(request)
            && request.count == (match config.search_context_size {
            Some(size) => Some(size.result_count()),
            None => None,
        })),
{
}

/// A request asks for the trimmed query, with the freshness and language of the call
/// as they are, whatever else the call and the configuration hold.
pub proof fn law_a_request_carries_its_call(
    query: Seq<char>,
    args: WebSearchArguments,
    config: WebSearchToolParam,
)
    requires
        args.count != Some(0u16),
    ensures
        request_for(query, args, config) matches Ok(request) && request.query == trimmed(query)
            && request.freshness == args.freshness && request.language
            == args.language.deep_view(),
{
}

/// The entries of an optional list, none where it is unset.
pub open spec fn own_entries(list: Option<Vec<String>>) -> Seq<Seq<char>> {
    match list {
        Some(entries) => entries.deep_view(),
        None => Seq::empty(),
    }
}

/// Without configured filters a request's filter has exactly the call's own lists,
/// each whatever the other is.
pub proof fn law_own_domains_without_configuration(
    query: Seq<char>,
    args: WebSearchArguments,
    config: WebSearchToolParam,
)
    requires
        args.count != Some(0u16),
        config.filters is None,
    ensures
        request_for(query, args, config) matches Ok(request) && request.domain_filter.included
            == own_entries(args.include_domains) && request.domain_filter.excluded == own_entries(
            args.exclude_domains,
        ),
{
}

/// With configured filters each of the two lists is the configured one, cleaned,
/// where that leaves anything, and else the call's own. Neither depends on the other.
pub proof fn law_domains_with_configuration(
    query: Seq<char>,
    args: WebSearchArguments,
    config: WebSearchToolParam,
    filters: WebSearchFilters,
)
    requires
        args.count != Some(0u16),
        config.filters == Some(filters),
    ensures
        request_for(query, args, config) is Ok,
        request_for(query, args, config)->Ok_0.domain_filter.included == (match clean_list(
            filters.allowed_domains.deep_view(),
        ) {
            Some(domains) => domains,
            None => own_entries(args.include_domains),
        }),
        request_for(query, args, config)->Ok_0.domain_filter.excluded == (match clean_list(
            filters.blocked_domains.deep_view(),
        ) {
            Some(domains) => domains,
            None => own_entries(args.exclude_domains),
        }),
{
}

/// A request's country is, in upper case, the one of the user's location, trimmed,
/// where that is given and not blank, and else the call's own as it is. Nothing else
/// has a part in it.
pub proof fn law_the_country_of_a_request(
    query: Seq<char>,
    args: WebSearchArguments,
    config: WebSearchToolParam,
)
    requires
        args.count != Some(0u16),
    ensures
        ({
            let located = match config.user_location {
                Some(location) => location.country.deep_view(),
                None => None,
            };
            let request = request_for(query, args, config)->Ok_0;
            &&& request_for(query, args, config) is Ok
            &&& located matches Some(country) ==> !blank(country) ==> request.country == Some(
                uppercase(trimmed(country)),
            )
            &&& (located is None || blank(located->Some_0)) ==> request.country == (
            match args.country {
                Some(country) => Some(uppercase(country@)),
                None => None,
            })
        }),
{
    if let Some(location) = config.user_location {
        if let Some(country) = location.country {
            law_a_value_counts_unless_blank(country@);
        }
    }
}

/// Every freshness but a date range has a word of its own.
pub proof fn law_freshness_words(one: Freshness, two: Freshness)
    ensures
        freshness_word(one) is None <==> one is Range,
        !(one is Range) && freshness_word(one) == freshness_word(two) ==> one == two,
{
    reveal_strlit("pd");
    reveal_strlit("pw");
    reveal_strlit("pm");
    reveal_strlit("py");
    assert("pd"@[1] == 'd' && "pw"@[1] == 'w' && "pm"@[1] == 'm' && "py"@[1] == 'y');
}

/// Where a parameter stands among the others that are sent.
pub open spec fn rank(key: Seq<char>) -> int {
    if key == "q"@ {
        0
    } else if key == "result_filter"@ {
        1
    } else if key == "count"@ {
        2
    } else if key == "freshness"@ {
        3
    } else if key == "country"@ {
        4
    } else {
        5
    }
}

/// Whether `value` is what a request has to send for `key`.
pub open spec fn owes(request: RequestModel, key: Seq<char>, value: Seq<char>) -> bool {
    ||| key == "q"@ && value == request.query
    ||| key == "result_filter"@ && value == "web,news"@
    ||| key == "count"@ && (request.count matches Some(count) && value == decimal(count as nat))
    ||| key == "freshness"@ && (request.freshness matches Some(freshness) && match freshness {
        Freshness::Day => value == "pd"@,
        Freshness::Week => value == "pw"@,
        Freshness::Month => value == "pm"@,
        Freshness::Year => value == "py"@,
        Freshness::Range { .. } => false,
    })
    ||| key == "country"@ && request.country == Some(value)
    ||| key == "search_lang"@ && request.language == Some(value)
}

/// A parameter is sent exactly if the field that it comes from is set, with that
/// field's value, whatever the other fields are: the count as a decimal numeral, the
/// freshness unless it is a date range, the country and the language as they are, the
/// query and the sections always.
pub proof fn law_parameters_are_sent_as_set(request: RequestModel, key: Seq<char>, value: Seq<char>)
    ensures
        request.params().contains((key, value)) <==> owes(request, key, value),
{
    let fixed = seq![("q"@, request.query), ("result_filter"@, "web,news"@)];
    let count = optional_param("count"@, request.count_value());
    let freshness = optional_param("freshness"@, request.freshness_value());
    let country = optional_param("country"@, request.country);
    let language = optional_param("search_lang"@, request.language);
    let params = request.params();
    assert(params == fixed + count + freshness + country + language);
    let counted = fixed + count;
    let dated = counted + freshness;
    let placed = dated + country;
    assert(params == placed + language);
    if params.contains((key, value)) {
        let i = params.index_of((key, value));
        assert(params[i] == (key, value));
        if i < 2 {
            assert(params[i] == fixed[i]);
        } else if i < counted.len() {
            assert(params[i] == count[i - 2]);
        } else if i < dated.len() {
            assert(params[i] == freshness[i - counted.len()]);
        } else if i < placed.len() {
            assert(params[i] == country[i - dated.len()]);
        } else {
            assert(params[i] == language[i - placed.len()]);
        }
    }
    if owes(request, key, value) {
        if key == "q"@ && value == request.query {
            assert(params[0] == (key, value));
        } else if key == "result_filter"@ && value == "web,news"@ {
            assert(params[1] == (key, value));
        } else if count.len() > 0 && count[0] == (key, value) {
            assert(params[2] == (key, value));
        } else if freshness.len() > 0 && freshness[0] == (key, value) {
            assert(params[counted.len() as int] == (key, value));
        } else if country.len() > 0 && country[0] == (key, value) {
            assert(params[dated.len() as int] == (key, value));
        } else {
            assert(language[0] == (key, value));
            assert(params[placed.len() as int] == (key, value));
        }
    }
}

/// Parameters are sent in one order: query, sections, count, freshness, country,
/// language.
pub proof fn law_parameters_are_in_order(request: RequestModel, i: int, j: int)
    requires
        0 <= i < j < request.params().len(),
    ensures
        rank(request.params()[i].0) < rank(request.params()[j].0),
{
    reveal_strlit("q");
    reveal_strlit("result_filter");
    reveal_strlit("count");
    reveal_strlit("freshness");
    reveal_strlit("country");
    reveal_strlit("search_lang");
    assert("q"@.len() == 1);
    assert("result_filter"@.len() == 13);
    assert("count"@.len() == 5);
    assert("freshness"@.len() == 9);
    assert("country"@.len() == 7);
    assert("search_lang"@.len() == 11);
    let fixed = seq![("q"@, request.query), ("result_filter"@, "web,news"@)];
    let counted = fixed + optional_param("count"@, request.count_value());
    let dated = counted + optional_param("freshness"@, request.freshness_value());
    let placed = dated + optional_param("country"@, request.country);
    assert(request.params() == placed + optional_param("search_lang"@, request.language));
}

} // verus!
