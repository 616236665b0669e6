use crate::common::Warning;
use crate::ranking::{rules_out, rules_warnings, texts, texts_out, texts_warnings, translate_rules, translate_text_rules};
use crate::v1::{self, UpdateState};
use crate::v2::{Settings, Synonyms, Unchecked};
use vstd::prelude::*;

verus! {

/// A tri-state field as the second schema holds it: untouched is `None`, cleared is
/// `Some(None)`, set to `v` is `Some(Some(v))`.
pub open spec fn tri_state<T>(s: UpdateState<T>) -> Option<Option<T>> {
    match s {
        UpdateState::Update(v) => Some(Some(v)),
        UpdateState::Clear => Some(None),
        UpdateState::Nothing => None,
    }
}

/// Re-expresses a tri-state field of the first schema in the second.
pub fn update_state_into<T>(s: UpdateState<T>) -> (r: Option<Option<T>>)
    ensures
        r == tri_state(s),
{
    match s {
        UpdateState::Update(v) => Some(Some(v)),
        UpdateState::Clear => Some(None),
        UpdateState::Nothing => None,
    }
}

/// Whether `r` holds the stored rule texts that `src` becomes.
pub open spec fn text_rules_translated(src: Option<Option<Vec<String>>>, r: Option<Option<Vec<String>>>) -> bool {
    match src {
        Some(Some(v)) => match r {
            Some(Some(o)) => texts(o@) == texts_out(v@),
            _ => false,
        },
        _ => r == src,
    }
}

/// Whether `r` is the translation of the full settings `src`.
pub open spec fn settings_translated<S>(src: v1::Settings, r: Settings<S>) -> bool {
    &&& r.displayed_attributes == src.displayed_attributes
    &&& r.searchable_attributes == src.searchable_attributes
    &&& r.filterable_attributes == src.attributes_for_faceting
    &&& text_rules_translated(src.ranking_rules, r.ranking_rules)
    &&& r.stop_words == src.stop_words
    &&& r.synonyms == src.synonyms
    &&& r.distinct_attribute == src.distinct_attribute
}

/// The warnings that translating the full settings of the index `uid` reports.
pub open spec fn settings_warnings(uid: String, src: v1::Settings) -> Seq<Warning> {
    match src.ranking_rules {
        Some(Some(v)) => texts_warnings(uid, v@),
        _ => seq![],
    }
}

/// Translates the full settings of the index `uid`: faceting attributes become filterable
/// attributes, and the ranking rules are translated one by one.
pub fn settings_from_v1(src: v1::Settings, uid: &String, warnings: &mut Vec<Warning>) -> (r: Settings<Unchecked>)
    ensures
        settings_translated(src, r),
        final(warnings)@ == old(warnings)@ + settings_warnings(*uid, src),
{
    let ranking_rules = match src.ranking_rules {
        Some(Some(v)) => Some(Some(translate_text_rules(&v, uid, warnings))),
        other => {
            assert(warnings@ =~= old(warnings)@ + Seq::<Warning>::empty());
            other
        },
    };
    Settings {
        displayed_attributes: src.displayed_attributes,
        searchable_attributes: src.searchable_attributes,
        filterable_attributes: src.attributes_for_faceting,
        ranking_rules,
        stop_words: src.stop_words,
        synonyms: src.synonyms,
        distinct_attribute: src.distinct_attribute,
        state: Unchecked,
    }
}

/// Whether `r` holds the texts of the criteria that the tri-state rules `src` become.
pub open spec fn update_rules_translated(src: UpdateState<Vec<v1::RankingRule>>, r: Option<Option<Vec<String>>>) -> bool {
    match src {
        UpdateState::Update(v) => match r {
            Some(Some(o)) => texts(o@) == rules_out(v@),
            _ => false,
        },
        UpdateState::Clear => r == Some(None::<Vec<String>>),
        UpdateState::Nothing => r is None,
    }
}

/// Whether `r` is the translation of the partial settings update `src`.
pub open spec fn update_translated<S>(src: v1::SettingsUpdate, r: Settings<S>) -> bool {
    &&& r.displayed_attributes == tri_state(src.displayed_attributes)
    &&& r.searchable_attributes == tri_state(src.searchable_attributes)
    &&& r.filterable_attributes == tri_state(src.attributes_for_faceting)
    &&& update_rules_translated(src.ranking_rules, r.ranking_rules)
    &&& r.stop_words == tri_state(src.stop_words)
    &&& r.synonyms == tri_state(src.synonyms)
    &&& r.distinct_attribute == tri_state(src.distinct_attribute)
}

/// The warnings that translating a partial settings update of the index `uid` reports.
pub open spec fn update_warnings(uid: String, src: v1::SettingsUpdate) -> Seq<Warning> {
    match src.ranking_rules {
        UpdateState::Update(v) => rules_warnings(uid, v@),
        _ => seq![],
    }
}

/// Translates a partial settings update of the index `uid`, keeping each field's three-way
/// state; the primary key, which the second schema's settings do not hold, is left out.
pub fn settings_from_update(src: v1::SettingsUpdate, uid: &String, warnings: &mut Vec<Warning>) -> (r: Settings<Unchecked>)
    ensures
        update_translated(src, r),
        final(warnings)@ == old(warnings)@ + update_warnings(*uid, src),
{
    let ranking_rules = match src.ranking_rules {
        UpdateState::Update(v) => Some(Some(translate_rules(&v, uid, warnings))),
        UpdateState::Clear => {
            assert(warnings@ =~= old(warnings)@ + Seq::<Warning>::empty());
            Some(None)
        },
        UpdateState::Nothing => {
            assert(warnings@ =~= old(warnings)@ + Seq::<Warning>::empty());
            None
        },
    };
    Settings {
        displayed_attributes: update_state_into(src.displayed_attributes),
        searchable_attributes: update_state_into(src.searchable_attributes),
        filterable_attributes: update_state_into(src.attributes_for_faceting),
        ranking_rules,
        stop_words: update_state_into(src.stop_words),
        synonyms: update_state_into(src.synonyms),
        distinct_attribute: update_state_into(src.distinct_attribute),
        state: Unchecked,
    }
}

/// An optional attribute list, seen through the views of its list.
pub open spec fn list_view(o: Option<Option<Vec<String>>>) -> Option<Option<Seq<String>>> {
    match o {
        Some(Some(v)) => Some(Some(v@)),
        Some(None) => Some(None),
        None => None,
    }
}

/// Synonyms, each word with the view of its list.
pub open spec fn synonym_views(v: Seq<(String, Vec<String>)>) -> Seq<(String, Seq<String>)> {
    v.map_values(|p: (String, Vec<String>)| (p.0, p.1@))
}

/// Optional synonyms, seen through the views of their lists.
pub open spec fn synonyms_view(o: Option<Option<Synonyms>>) -> Option<Option<Seq<(String, Seq<String>)>>> {
    match o {
        Some(Some(v)) => Some(Some(synonym_views(v@))),
        Some(None) => Some(None),
        None => None,
    }
}

/// Whether two full settings of the first schema hold the same values.
pub open spec fn same_v1_settings(a: v1::Settings, b: v1::Settings) -> bool {
    &&& list_view(a.ranking_rules) == list_view(b.ranking_rules)
    &&& a.distinct_attribute == b.distinct_attribute
    &&& list_view(a.searchable_attributes) == list_view(b.searchable_attributes)
    &&& list_view(a.displayed_attributes) == list_view(b.displayed_attributes)
    &&& list_view(a.stop_words) == list_view(b.stop_words)
    &&& synonyms_view(a.synonyms) == synonyms_view(b.synonyms)
    &&& list_view(a.attributes_for_faceting) == list_view(b.attributes_for_faceting)
}

fn copy_strings(v: &Vec<String>) -> (r: Vec<String>)
    ensures
        r@ == v@,
{
    let mut r: Vec<String> = Vec::new();
    let mut i: usize = 0;
    while i < v.len()
        invariant
            i <= v@.len(),
            r@ == v@.take(i as int),
        decreases v@.len() - i,
    {
        r.push(v[i].clone());
        assert(r@ =~= v@.take(i + 1));
        i = i + 1;
    }
    assert(v@.take(i as int) =~= v@);
    r
}

fn copy_list(o: &Option<Option<Vec<String>>>) -> (r: Option<Option<Vec<String>>>)
    ensures
        list_view(r) == list_view(*o),
{
    match o {
        Some(Some(v)) => Some(Some(copy_strings(v))),
        Some(None) => Some(None),
        None => None,
    }
}

fn copy_synonyms(o: &Option<Option<Synonyms>>) -> (r: Option<Option<Synonyms>>)
    ensures
        synonyms_view(r) == synonyms_view(*o),
{
    match o {
        Some(Some(v)) => {
            let mut r: Synonyms = Vec::new();
            let mut i: usize = 0;
            while i < v.len()
                invariant
                    i <= v@.len(),
                    r@.len() == i,
                    synonym_views(r@) == synonym_views(v@.take(i as int)),
                decreases v@.len() - i,
            {
                let ghost prev = r@;
                let word = v[i].0.clone();
                let others = copy_strings(&v[i].1);
                r.push((word, others));
                assert(synonym_views(r@) =~= synonym_views(v@.take(i + 1))) by {
                    assert forall|k: int| 0 <= k < i implies synonym_views(r@)[k] == synonym_views(v@.take(i + 1))[k] by {
                        assert(r@[k] == prev[k]);
                        assert(synonym_views(prev)[k] == synonym_views(v@.take(i as int))[k]);
                    }
                }
                i = i + 1;
            }
            assert(v@.take(i as int) =~= v@);
            Some(Some(r))
        },
        Some(None) => Some(None),
        None => None,
    }
}

fn copy_text(o: &Option<Option<String>>) -> (r: Option<Option<String>>)
    ensures
        r == *o,
{
    match o {
        Some(Some(t)) => Some(Some(t.clone())),
        Some(None) => Some(None),
        None => None,
    }
}

/// A copy of full settings of the first schema, with the same values.
pub fn copy_v1_settings(s: &v1::Settings) -> (r: v1::Settings)
    ensures
        same_v1_settings(r, *s),
{
    v1::Settings {
        ranking_rules: copy_list(&s.ranking_rules),
        distinct_attribute: copy_text(&s.distinct_attribute),
        searchable_attributes: copy_list(&s.searchable_attributes),
        displayed_attributes: copy_list(&s.displayed_attributes),
        stop_words: copy_list(&s.stop_words),
        synonyms: copy_synonyms(&s.synonyms),
        attributes_for_faceting: copy_list(&s.attributes_for_faceting),
    }
}

} // verus!
