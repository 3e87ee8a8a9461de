//! What trimming, cleaning and changing case leave of a text.

use crate::laws::{
    blank, law_blank_text_trims_to_nothing, law_trimming, law_trimming_is_idempotent,
};
use crate::text::{lower_char, lowercase, trimmed, upper_char, uppercase, without_trailing};
use crate::types::{clean_entries, clean_list, nonblank};
use vstd::prelude::*;

verus! {

/// Taking a trailing run of `c` away leaves the text up to the last character that
/// is not `c`.
pub proof fn law_only_the_trailing_run_goes(s: Seq<char>, c: char)
    ensures
        without_trailing(s, c).len() <= s.len(),
        without_trailing(s, c) == s.take(without_trailing(s, c).len() as int),
        forall|i: int| without_trailing(s, c).len() <= i < s.len() ==> #[trigger] s[i] == c,
        without_trailing(s, c).len() > 0 ==> without_trailing(s, c).last() != c,
    decreases s.len(),
{
    if s.len() > 0 && s.last() == c {
        let shorter = s.drop_last();
        law_only_the_trailing_run_goes(shorter, c);
        assert(shorter.take(without_trailing(s, c).len() as int) =~= s.take(
            without_trailing(s, c).len() as int,
        ));
        assert forall|i: int| without_trailing(s, c).len() <= i < s.len() implies #[trigger] s[i]
            == c by {
            if i < shorter.len() {
                assert(s[i] == shorter[i]);
            }
        }
    } else {
        assert(s =~= s.take(s.len() as int));
    }
}

/// Upper case moves each ASCII letter in lower case to its counterpart and leaves
/// every other character at its place.
pub proof fn law_upper_case(s: Seq<char>, i: int)
    requires
        0 <= i < s.len(),
    ensures
        uppercase(s).len() == s.len(),
        'a' <= s[i] <= 'z' ==> uppercase(s)[i] as u32 == s[i] as u32 - 32,
        !('a' <= s[i] <= 'z') ==> uppercase(s)[i] == s[i],
{
}

/// Lower case moves each ASCII letter in upper case to its counterpart and leaves
/// every other character at its place.
pub proof fn law_lower_case(s: Seq<char>, i: int)
    requires
        0 <= i < s.len(),
    ensures
        lowercase(s).len() == s.len(),
        'A' <= s[i] <= 'Z' ==> lowercase(s)[i] as u32 == s[i] as u32 + 32,
        !('A' <= s[i] <= 'Z') ==> lowercase(s)[i] == s[i],
{
}

/// The two cases undo each other on letters: lower case does not tell a text from
/// its upper case.
pub proof fn law_cases_agree(s: Seq<char>)
    ensures
        lowercase(uppercase(s)) == lowercase(s),
        uppercase(lowercase(s)) == uppercase(s),
{
    assert forall|c: char| lower_char(#[trigger] upper_char(c)) == lower_char(c) by {}
    assert forall|c: char| upper_char(#[trigger] lower_char(c)) == upper_char(c) by {}
    assert(lowercase(uppercase(s)) =~= lowercase(s));
    assert(uppercase(lowercase(s)) =~= uppercase(s));
}

/// A value counts exactly if it is not blank, and then it is what stands between
/// the whitespace at its ends.
pub proof fn law_a_value_counts_unless_blank(s: Seq<char>)
    ensures
        blank(s) <==> nonblank(s) is None,
        nonblank(s) matches Some(value) ==> {
            &&& value.len() > 0
            &&& trimmed(value) == value
            &&& exists|head: Seq<char>, tail: Seq<char>|
                #![trigger blank(head), blank(tail)]
                blank(head) && blank(tail) && s == head + value + tail
        },
{
    law_blank_text_trims_to_nothing(s);
    law_trimming(s);
    law_trimming_is_idempotent(s);
}

/// Whether `picks` are positions in a list of `len` entries, in order.
pub open spec fn positions(picks: Seq<int>, len: nat) -> bool {
    &&& forall|i: int, j: int| 0 <= i < j < picks.len() ==> picks[i] < picks[j]
    &&& forall|i: int| 0 <= i < picks.len() ==> 0 <= #[trigger] picks[i] < len
}

/// The entries of a filtered list, by their positions in the whole one.
pub(crate) proof fn lemma_filter_positions<A>(list: Seq<A>, kept: spec_fn(A) -> bool) -> (picks: Seq<
    int,
>)
    ensures
        positions(picks, list.len()),
        forall|k: int| 0 <= k < list.len() ==> (picks.contains(k) <==> kept(#[trigger] list[k])),
        list.filter(kept).len() == picks.len(),
        forall|i: int| 0 <= i < picks.len() ==> list.filter(kept)[i] == list[#[trigger] picks[i]],
    decreases list.len(),
{
    reveal(Seq::filter);
    if list.len() == 0 {
        Seq::empty()
    } else {
        let shorter = list.drop_last();
        let last = list.len() - 1;
        let before = lemma_filter_positions(shorter, kept);
        let picks = if kept(list[last]) {
            before.push(last)
        } else {
            before
        };
        assert forall|k: int| 0 <= k < list.len() implies (picks.contains(k) <==> kept(
            #[trigger] list[k],
        )) by {
            if k < last {
                assert(shorter[k] == list[k]);
                if before.contains(k) {
                    let i = before.index_of(k);
                    assert(picks[i] == k);
                }
                if picks.contains(k) {
                    let i = picks.index_of(k);
                    assert(before[i] == k);
                }
            } else if kept(list[last]) {
                assert(picks[picks.len() - 1] == last);
            } else if picks.contains(k) {
                let i = picks.index_of(k);
                assert(before[i] < shorter.len());
            }
        }
        assert forall|i: int| 0 <= i < picks.len() implies list.filter(kept)[i]
            == list[#[trigger] picks[i]] by {
            if i < before.len() {
                assert(shorter[before[i]] == list[picks[i]]);
            }
        }
        picks
    }
}

/// A list counts exactly if some entry is not blank. It then holds those entries,
/// all of them and in order, each trimmed.
pub proof fn law_cleaning_keeps_what_is_not_blank(list: Seq<Seq<char>>) -> (picks: Seq<int>)
    ensures
        positions(picks, list.len()),
        forall|k: int| 0 <= k < list.len() ==> (picks.contains(k) <==> !blank(#[trigger] list[k])),
        clean_list(Some(list)) is None <==> (forall|k: int|
            0 <= k < list.len() ==> blank(#[trigger] list[k])),
        clean_list(Some(list)) matches Some(entries) ==> {
            &&& entries.len() == picks.len()
            &&& forall|i: int|
                0 <= i < picks.len() ==> entries[i] == trimmed(list[#[trigger] picks[i]])
        },
        clean_list(None) is None,
{
    let texts = list.map_values(|s: Seq<char>| trimmed(s));
    let kept = |s: Seq<char>| s.len() > 0;
    let picks = lemma_filter_positions(texts, kept);
    assert forall|k: int| 0 <= k < list.len() implies (picks.contains(k) <==> !blank(
        #[trigger] list[k],
    )) by {
        assert(texts[k] == trimmed(list[k]));
        law_blank_text_trims_to_nothing(list[k]);
    }
    assert(clean_entries(list) == texts.filter(kept));
    if clean_entries(list).len() > 0 {
        assert(picks.contains(picks[0]));
        assert(!blank(list[picks[0]]));
    } else {
        assert forall|k: int| 0 <= k < list.len() implies blank(#[trigger] list[k]) by {
            assert(!picks.contains(k));
        }
    }
    picks
}

} // verus!
