//! The OnlySQ model catalog as shown in the `/model` picker: which catalog
//! entries become presets, what each preset says, and their order.
use vstd::prelude::*;

use crate::text::{
    equal_ignoring_ascii_case, lemma_lex_less_total, lemma_lex_less_transitive, lex_less,
    str_eq_ignore_ascii_case, str_less,
};

verus! {

/// The reasoning effort a preset starts with.
#[derive(Debug, Clone, Copy, PartialEq, Eq, Structural)]
pub enum ReasoningEffort {
    /// No reasoning (the protocol's `none` effort).
    Off,
    /// Medium reasoning effort.
    Medium,
}

/// One entry of the catalog's `models` object, keyed elsewhere by its id.
#[derive(Debug, Clone)]
pub struct OnlySqModel {
    /// The human-readable name; may be empty.
    pub name: String,
    /// A free-form description.
    pub description: String,
    /// Whether the model can reason (`can-think`).
    pub can_think: bool,
    /// The service status; `work` (in any ASCII case) or empty means usable.
    pub status: String,
}

/// A reasoning effort a model offers, with the text that describes it.
#[derive(Debug, Clone)]
pub struct ReasoningEffortPreset {
    /// The effort.
    pub effort: ReasoningEffort,
    /// What the effort is good for.
    pub description: String,
}

/// A model choice offered by the picker.
#[derive(Debug, Clone)]
pub struct ModelPreset {
    /// The catalog id.
    pub id: String,
    /// The model slug sent in requests; the catalog id.
    pub model: String,
    /// The name shown in the picker.
    pub display_name: String,
    /// The description shown in the picker.
    pub description: String,
    /// The effort a new conversation starts with.
    pub default_reasoning_effort: ReasoningEffort,
    /// The efforts the picker offers for this model.
    pub supported_reasoning_efforts: Vec<ReasoningEffortPreset>,
    /// Whether the model supports a personality setting.
    pub supports_personality: bool,
    /// Speed tiers offered beside the default one, by name.
    pub additional_speed_tiers: Vec<String>,
    /// Service tiers the model can be used in, by name.
    pub service_tiers: Vec<String>,
    /// The service tier a conversation starts in, by name.
    pub default_service_tier: Option<String>,
    /// Whether this is the default model.
    pub is_default: bool,
    /// The model the picker suggests upgrading to, by slug.
    pub upgrade: Option<String>,
    /// Whether the picker lists this preset.
    pub show_in_picker: bool,
    /// A notice shown once about the model's availability.
    pub availability_nux: Option<String>,
    /// Whether the model can be used through the API.
    pub supported_in_api: bool,
    /// The kinds of input the model accepts, by name.
    pub input_modalities: Vec<String>,
}

/// A preset, with its texts as characters and its lists as sequences.
pub struct PresetView {
    pub id: Seq<char>,
    pub model: Seq<char>,
    pub display_name: Seq<char>,
    pub description: Seq<char>,
    pub default_reasoning_effort: ReasoningEffort,
    pub supported_reasoning_efforts: Seq<(ReasoningEffort, Seq<char>)>,
    pub supports_personality: bool,
    pub additional_speed_tiers: Seq<Seq<char>>,
    pub service_tiers: Seq<Seq<char>>,
    pub default_service_tier: Option<Seq<char>>,
    pub is_default: bool,
    pub upgrade: Option<Seq<char>>,
    pub show_in_picker: bool,
    pub availability_nux: Option<Seq<char>>,
    pub supported_in_api: bool,
    pub input_modalities: Seq<Seq<char>>,
}

/// The efforts of a list, each with its description as characters.
pub open spec fn effort_views(s: Seq<ReasoningEffortPreset>) -> Seq<(ReasoningEffort, Seq<char>)> {
    s.map_values(|e: ReasoningEffortPreset| (e.effort, e.description@))
}

impl View for ModelPreset {
    type V = PresetView;

    open spec fn view(&self) -> PresetView {
        PresetView {
            id: self.id@,
            model: self.model@,
            display_name: self.display_name@,
            description: self.description@,
            default_reasoning_effort: self.default_reasoning_effort,
            supported_reasoning_efforts: effort_views(self.supported_reasoning_efforts@),
            supports_personality: self.supports_personality,
            additional_speed_tiers: self.additional_speed_tiers.deep_view(),
            service_tiers: self.service_tiers.deep_view(),
            default_service_tier: self.default_service_tier.deep_view(),
            is_default: self.is_default,
            upgrade: self.upgrade.deep_view(),
            show_in_picker: self.show_in_picker,
            availability_nux: self.availability_nux.deep_view(),
            supported_in_api: self.supported_in_api,
            input_modalities: self.input_modalities.deep_view(),
        }
    }
}

/// The views of a list of presets.
pub open spec fn preset_views(s: Seq<ModelPreset>) -> Seq<PresetView> {
    s.map_values(|p: ModelPreset| p@)
}

/// A catalog entry is offered when its status is `work` in any ASCII case,
/// or empty.
pub open spec fn is_available(m: OnlySqModel) -> bool {
    equal_ignoring_ascii_case(m.status@, "work"@) || m.status@.len() == 0
}

/// The preset made from the catalog entry `id`: the name falls back to the id
/// when empty, and a model that can reason starts at medium effort. It is not
/// the default, is listed and usable through the API, has no personality
/// setting, and offers no effort list, speed or service tiers, upgrade,
/// availability notice or input kinds.
pub open spec fn preset_for(id: String, m: OnlySqModel) -> PresetView {
    PresetView {
        id: id@,
        model: id@,
        display_name: if m.name@.len() == 0 {
            id@
        } else {
            m.name@
        },
        description: m.description@,
        default_reasoning_effort: if m.can_think {
            ReasoningEffort::Medium
        } else {
            ReasoningEffort::Off
        },
        supported_reasoning_efforts: Seq::empty(),
        supports_personality: false,
        additional_speed_tiers: Seq::empty(),
        service_tiers: Seq::empty(),
        default_service_tier: None,
        is_default: false,
        upgrade: None,
        show_in_picker: true,
        availability_nux: None,
        supported_in_api: true,
        input_modalities: Seq::empty(),
    }
}

/// The presets of the available entries, in catalog order.
pub open spec fn available_presets(models: Seq<(String, OnlySqModel)>) -> Seq<PresetView>
    decreases models.len(),
{
    if models.len() == 0 {
        Seq::empty()
    } else {
        let rest = available_presets(models.drop_last());
        let entry = models.last();
        if is_available(entry.1) {
            rest.push(preset_for(entry.0, entry.1))
        } else {
            rest
        }
    }
}

/// Where a preset named `name` goes in `sorted`: before the first preset whose
/// name comes after `name`, so that presets with equal names keep their order.
pub open spec fn insertion_index(sorted: Seq<PresetView>, name: Seq<char>) -> int
    decreases sorted.len(),
{
    if sorted.len() == 0 {
        0
    } else if lex_less(name, sorted[0].display_name) {
        0
    } else {
        1 + insertion_index(sorted.drop_first(), name)
    }
}

/// `presets` stably sorted by display name.
pub open spec fn sorted_by_display_name(presets: Seq<PresetView>) -> Seq<PresetView>
    decreases presets.len(),
{
    if presets.len() == 0 {
        presets
    } else {
        let sorted = sorted_by_display_name(presets.drop_last());
        let last = presets.last();
        sorted.insert(insertion_index(sorted, last.display_name), last)
    }
}

/// The picker's presets for a catalog: the available entries, stably sorted
/// by display name.
pub open spec fn catalog_presets(models: Seq<(String, OnlySqModel)>) -> Seq<PresetView> {
    sorted_by_display_name(available_presets(models))
}

/// Whether a catalog entry is offered: its status is `work` in any ASCII case,
/// or empty.
pub fn model_is_available(m: &OnlySqModel) -> (r: bool)
    ensures
        r == is_available(*m),
{
    str_eq_ignore_ascii_case(m.status.as_str(), "work") || m.status.as_str().is_empty()
}

/// The preset for the catalog entry `id`.
pub fn preset_from_model(id: &String, m: &OnlySqModel) -> (r: ModelPreset)
    ensures
        r@ == preset_for(*id, *m),
{
    let default_effort = if m.can_think {
        ReasoningEffort::Medium
    } else {
        ReasoningEffort::Off
    };
    let r = ModelPreset {
        id: id.clone(),
        model: id.clone(),
        display_name: if m.name.as_str().is_empty() {
            id.clone()
        } else {
            m.name.clone()
        },
        description: m.description.clone(),
        default_reasoning_effort: default_effort,
        supported_reasoning_efforts: Vec::new(),
        supports_personality: false,
        additional_speed_tiers: Vec::new(),
        service_tiers: Vec::new(),
        default_service_tier: None,
        is_default: false,
        upgrade: None,
        show_in_picker: true,
        availability_nux: None,
        supported_in_api: true,
        input_modalities: Vec::new(),
    };
    proof {
        assert(r@.supported_reasoning_efforts =~= Seq::<(ReasoningEffort, Seq<char>)>::empty());
        assert(r@.additional_speed_tiers =~= Seq::<Seq<char>>::empty());
        assert(r@.service_tiers =~= Seq::<Seq<char>>::empty());
        assert(r@.input_modalities =~= Seq::<Seq<char>>::empty());
    }
    r
}

/// The index at which a preset named `name` is inserted into `sorted`.
fn find_insertion_index(sorted: &Vec<ModelPreset>, name: &String) -> (r: usize)
    ensures
        r == insertion_index(preset_views(sorted@), name@),
        r <= sorted@.len(),
{
    let ghost views = preset_views(sorted@);
    let mut j: usize = 0;
    assert(views.skip(0) =~= views);
    while j < sorted.len() && !str_less(name.as_str(), sorted[j].display_name.as_str())
        invariant
            j <= sorted@.len(),
            views == preset_views(sorted@),
            insertion_index(views, name@) == j + insertion_index(views.skip(j as int), name@),
        decreases sorted@.len() - j,
    {
        proof {
            let t = views.skip(j as int);
            assert(t[0] == views[j as int]);
            assert(t.drop_first() =~= views.skip(j + 1));
        }
        j = j + 1;
    }
    proof {
        let t = views.skip(j as int);
        if j < sorted@.len() {
            assert(t[0] == views[j as int]);
        } else {
            assert(t.len() == 0);
        }
    }
    j
}

/// The picker's presets for the catalog entries `models` (id and entry, in
/// the catalog's order): the available entries as presets, stably sorted by
/// display name.
pub fn presets_from_catalog(models: &Vec<(String, OnlySqModel)>) -> (r: Vec<ModelPreset>)
    ensures
        preset_views(r@) == catalog_presets(models@),
        ids_ascending(models@) ==> ties_in_id_order(preset_views(r@)),
{
    let mut sorted: Vec<ModelPreset> = Vec::new();
    let mut i: usize = 0;
    assert(preset_views(sorted@) =~= Seq::<PresetView>::empty());
    while i < models.len()
        invariant
            i <= models@.len(),
            preset_views(sorted@) == sorted_by_display_name(available_presets(models@.take(i as int))),
        decreases models@.len() - i,
    {
        let ghost prev = models@.take(i as int);
        let ghost next = models@.take(i + 1);
        proof {
            assert(next.drop_last() =~= prev);
            assert(next.last() == models@[i as int]);
        }
        if model_is_available(&models[i].1) {
            let p = preset_from_model(&models[i].0, &models[i].1);
            let k = find_insertion_index(&sorted, &p.display_name);
            let ghost before = sorted@;
            proof {
                let a = available_presets(next);
                assert(a.drop_last() =~= available_presets(prev));
                assert(a.last() == p@);
            }
            sorted.insert(k, p);
            proof {
                assert(preset_views(sorted@) =~= preset_views(before).insert(k as int, p@));
            }
        }
        i = i + 1;
    }
    proof {
        assert(models@.take(i as int) =~= models@);
        if ids_ascending(models@) {
            lemma_catalog_ties_come_in_id_order(models@);
        }
    }
    sorted
}

/// No preset comes after a preset whose display name is greater.
pub open spec fn ordered_by_display_name(s: Seq<PresetView>) -> bool {
    forall|i: int, j: int|
        0 <= i < j < s.len() ==> !lex_less(
            #[trigger] s[j].display_name,
            #[trigger] s[i].display_name,
        )
}

/// In an ordered sequence, the insertion index of `name` splits the presets
/// into those not after `name` and those after it.
proof fn lemma_insertion_index_splits(t: Seq<PresetView>, name: Seq<char>)
    requires
        ordered_by_display_name(t),
    ensures
        0 <= insertion_index(t, name) <= t.len(),
        forall|i: int|
            0 <= i < insertion_index(t, name) ==> !lex_less(name, #[trigger] t[i].display_name),
        forall|i: int|
            insertion_index(t, name) <= i < t.len() ==> lex_less(name, #[trigger] t[i].display_name),
    decreases t.len(),
{
    if t.len() > 0 {
        let rest = t.drop_first();
        assert(ordered_by_display_name(rest)) by {
            assert forall|i: int, j: int| 0 <= i < j < rest.len() implies !lex_less(
                #[trigger] rest[j].display_name,
                #[trigger] rest[i].display_name,
            ) by {
                assert(rest[i] == t[i + 1] && rest[j] == t[j + 1]);
            }
        }
        if lex_less(name, t[0].display_name) {
            assert forall|i: int| 0 <= i < t.len() implies lex_less(
                name,
                #[trigger] t[i].display_name,
            ) by {
                if i > 0 {
                    lemma_lex_less_total(t[0].display_name, t[i].display_name);
                    if t[0].display_name != t[i].display_name {
                        lemma_lex_less_transitive(name, t[0].display_name, t[i].display_name);
                    }
                }
            }
        } else {
            lemma_insertion_index_splits(rest, name);
            assert forall|i: int| 0 <= i < insertion_index(t, name) implies !lex_less(
                name,
                #[trigger] t[i].display_name,
            ) by {
                if i > 0 {
                    assert(t[i] == rest[i - 1]);
                }
            }
            assert forall|i: int| insertion_index(t, name) <= i < t.len() implies lex_less(
                name,
                #[trigger] t[i].display_name,
            ) by {
                assert(t[i] == rest[i - 1]);
            }
        }
    }
}

/// Sorting orders the presets by display name and keeps each of them.
pub proof fn lemma_sorted_by_display_name(presets: Seq<PresetView>)
    ensures
        ordered_by_display_name(sorted_by_display_name(presets)),
        sorted_by_display_name(presets).to_multiset() == presets.to_multiset(),
        sorted_by_display_name(presets).len() == presets.len(),
    decreases presets.len(),
{
    broadcast use vstd::seq_lib::to_multiset_build, vstd::seq_lib::to_multiset_insert;

    if presets.len() > 0 {
        let prev = presets.drop_last();
        let x = presets.last();
        lemma_sorted_by_display_name(prev);
        let t = sorted_by_display_name(prev);
        let name = x.display_name;
        lemma_insertion_index_splits(t, name);
        let k = insertion_index(t, name);
        let r = t.insert(k, x);
        assert(r == sorted_by_display_name(presets));
        assert forall|i: int, j: int| 0 <= i < j < r.len() implies !lex_less(
            #[trigger] r[j].display_name,
            #[trigger] r[i].display_name,
        ) by {
            if i < k && j < k {
                assert(r[i] == t[i] && r[j] == t[j]);
            } else if i < k && j == k {
                assert(r[i] == t[i] && r[j] == x);
            } else if i < k {
                assert(r[i] == t[i] && r[j] == t[j - 1]);
            } else if i == k {
                assert(r[i] == x && r[j] == t[j - 1]);
                lemma_lex_less_total(name, r[j].display_name);
            } else {
                assert(r[i] == t[i - 1] && r[j] == t[j - 1]);
            }
            if i < k && j == k {
                lemma_lex_less_total(name, r[i].display_name);
                if r[i].display_name != name {
                    assert(!lex_less(name, t[i].display_name));
                }
            }
            if i < k && j > k {
                assert(!lex_less(name, t[i].display_name));
                assert(lex_less(name, t[j - 1].display_name));
                lemma_lex_less_total(name, t[i].display_name);
                if lex_less(t[j - 1].display_name, t[i].display_name) {
                    if t[i].display_name == name {
                        lemma_lex_less_total(name, t[j - 1].display_name);
                    } else {
                        lemma_lex_less_transitive(t[j - 1].display_name, t[i].display_name, name);
                        lemma_lex_less_total(name, t[j - 1].display_name);
                    }
                }
            }
        }
        assert(presets =~= prev.push(x));
    }
}

/// A preset is among the available presets exactly when it is the preset of an
/// available catalog entry.
pub proof fn lemma_available_presets_are_the_available_entries(
    models: Seq<(String, OnlySqModel)>,
    p: PresetView,
)
    ensures
        available_presets(models).contains(p) <==> exists|i: int|
            0 <= i < models.len() && is_available(#[trigger] models[i].1) && p == preset_for(
                models[i].0,
                models[i].1,
            ),
    decreases models.len(),
{
    if models.len() > 0 {
        let prev = models.drop_last();
        let last = models.last();
        lemma_available_presets_are_the_available_entries(prev, p);
        let rest = available_presets(prev);
        if available_presets(models).contains(p) {
            if rest.contains(p) {
                let i = choose|i: int|
                    0 <= i < prev.len() && is_available(#[trigger] prev[i].1) && p == preset_for(
                        prev[i].0,
                        prev[i].1,
                    );
                assert(models[i] == prev[i]);
            } else {
                let a = available_presets(models);
                let j = choose|j: int| 0 <= j < a.len() && a[j] == p;
                if !is_available(last.1) {
                    assert(a == rest);
                    assert(rest.contains(p));
                }
                assert(a == rest.push(preset_for(last.0, last.1)));
                if j < rest.len() {
                    assert(a[j] == rest[j]);
                    assert(rest.contains(p));
                }
                let k = models.len() - 1;
                assert(models[k] == last);
                assert(is_available(models[k].1) && p == preset_for(models[k].0, models[k].1));
            }
        }
        if exists|i: int|
            0 <= i < models.len() && is_available(#[trigger] models[i].1) && p == preset_for(
                models[i].0,
                models[i].1,
            ) {
            let i = choose|i: int|
                0 <= i < models.len() && is_available(#[trigger] models[i].1) && p == preset_for(
                    models[i].0,
                    models[i].1,
                );
            let a = available_presets(models);
            if i < prev.len() {
                assert(prev[i] == models[i]);
                assert(is_available(prev[i].1) && p == preset_for(prev[i].0, prev[i].1));
                assert(rest.contains(p));
                let j = choose|j: int| 0 <= j < rest.len() && rest[j] == p;
                if is_available(last.1) {
                    assert(a == rest.push(preset_for(last.0, last.1)));
                    assert(a[j] == p);
                } else {
                    assert(a == rest);
                }
                assert(a.contains(p));
            } else {
                assert(models[i] == last);
                assert(a == rest.push(p));
                assert(a[rest.len() as int] == p);
                assert(a.contains(p));
            }
        }
    }
}

/// The picker lists the available catalog entries, each once, in display-name
/// order; entries with the same display name keep their catalog order.
pub proof fn lemma_catalog_presets_are_ordered_available_presets(
    models: Seq<(String, OnlySqModel)>,
)
    ensures
        ordered_by_display_name(catalog_presets(models)),
        catalog_presets(models).to_multiset() == available_presets(models).to_multiset(),
        forall|p: PresetView|
            catalog_presets(models).contains(p) <==> exists|i: int|
                0 <= i < models.len() && is_available(#[trigger] models[i].1) && p == preset_for(
                    models[i].0,
                    models[i].1,
                ),
        forall|name: Seq<char>|
            #[trigger] with_display_name(catalog_presets(models), name) == with_display_name(
                available_presets(models),
                name,
            ),
{
    broadcast use vstd::seq_lib::to_multiset_contains;

    assert forall|name: Seq<char>|
        #[trigger] with_display_name(catalog_presets(models), name) == with_display_name(
            available_presets(models),
            name,
        ) by {
        lemma_sort_keeps_order_of_equal_names(available_presets(models), name);
    }

    lemma_sorted_by_display_name(available_presets(models));
    assert forall|p: PresetView|
        catalog_presets(models).contains(p) <==> exists|i: int|
            0 <= i < models.len() && is_available(#[trigger] models[i].1) && p == preset_for(
                models[i].0,
                models[i].1,
            ) by {
        lemma_available_presets_are_the_available_entries(models, p);
        vstd::seq_lib::to_multiset_contains(catalog_presets(models), p);
        vstd::seq_lib::to_multiset_contains(available_presets(models), p);
    }
}

/// The presets of `s` whose display name is `name`, in order.
pub open spec fn with_display_name(s: Seq<PresetView>, name: Seq<char>) -> Seq<PresetView>
    decreases s.len(),
{
    if s.len() == 0 {
        Seq::empty()
    } else {
        let rest = with_display_name(s.drop_last(), name);
        if s.last().display_name == name {
            rest.push(s.last())
        } else {
            rest
        }
    }
}

proof fn lemma_with_display_name_append(a: Seq<PresetView>, b: Seq<PresetView>, name: Seq<char>)
    ensures
        with_display_name(a + b, name) == with_display_name(a, name) + with_display_name(b, name),
    decreases b.len(),
{
    if b.len() == 0 {
        assert(a + b =~= a);
        assert(with_display_name(a, name) + with_display_name(b, name) =~= with_display_name(a, name));
    } else {
        lemma_with_display_name_append(a, b.drop_last(), name);
        assert((a + b).drop_last() =~= a + b.drop_last());
        assert((a + b).last() == b.last());
        if b.last().display_name == name {
            assert(with_display_name(a, name) + with_display_name(b.drop_last(), name).push(b.last())
                =~= (with_display_name(a, name) + with_display_name(b.drop_last(), name)).push(
                b.last(),
            ));
        }
    }
}

proof fn lemma_with_display_name_none(s: Seq<PresetView>, name: Seq<char>)
    requires
        forall|i: int| 0 <= i < s.len() ==> (#[trigger] s[i]).display_name != name,
    ensures
        with_display_name(s, name) == Seq::<PresetView>::empty(),
    decreases s.len(),
{
    if s.len() > 0 {
        assert(s.last() == s[s.len() - 1]);
        lemma_with_display_name_none(s.drop_last(), name);
    }
}

/// Sorting keeps the catalog order among presets with the same display name:
/// for every name, the presets carrying it come out in the order they came in.
pub proof fn lemma_sort_keeps_order_of_equal_names(presets: Seq<PresetView>, name: Seq<char>)
    ensures
        with_display_name(sorted_by_display_name(presets), name) == with_display_name(presets, name),
    decreases presets.len(),
{
    if presets.len() > 0 {
        let prev = presets.drop_last();
        let x = presets.last();
        lemma_sort_keeps_order_of_equal_names(prev, name);
        lemma_sorted_by_display_name(prev);
        let t = sorted_by_display_name(prev);
        let xn = x.display_name;
        lemma_insertion_index_splits(t, xn);
        let k = insertion_index(t, xn);
        let head = t.take(k);
        let tail = t.skip(k);
        assert(t =~= head + tail);
        assert(t.insert(k, x) =~= head + seq![x] + tail);
        lemma_with_display_name_append(head + seq![x], tail, name);
        lemma_with_display_name_append(head, seq![x], name);
        lemma_with_display_name_append(head, tail, name);
        assert(seq![x].drop_last() =~= Seq::<PresetView>::empty());
        assert(seq![x].last() == x);
        let wh = with_display_name(head, name);
        let wt = with_display_name(tail, name);
        let wx = with_display_name(seq![x], name);
        assert(with_display_name(seq![x].drop_last(), name) =~= Seq::<PresetView>::empty());
        assert(sorted_by_display_name(presets) == t.insert(k, x));
        assert(with_display_name(sorted_by_display_name(presets), name) == wh + wx + wt);
        assert(with_display_name(t, name) == wh + wt);
        assert(presets =~= prev.push(x));
        assert(presets.drop_last() =~= prev);
        if name == xn {
            assert forall|i: int| 0 <= i < tail.len() implies (#[trigger] tail[i]).display_name != name by {
                assert(tail[i] == t[k + i]);
                assert(lex_less(xn, t[k + i].display_name));
                lemma_lex_less_total(xn, xn);
            }
            lemma_with_display_name_none(tail, name);
            assert(wx =~= seq![x]);
            assert(wh + wx + wt =~= (wh + wt).push(x));
        } else {
            assert(wx =~= Seq::<PresetView>::empty());
            assert(wh + wx + wt =~= wh + wt);
        }
    }
}

/// The catalog's ids come in strictly ascending order, as the keys of the
/// catalog's map do.
pub open spec fn ids_ascending(models: Seq<(String, OnlySqModel)>) -> bool {
    forall|i: int, j: int|
        0 <= i < j < models.len() ==> lex_less(#[trigger] models[i].0@, #[trigger] models[j].0@)
}

/// Presets with the same display name come in ascending id order.
pub open spec fn ties_in_id_order(s: Seq<PresetView>) -> bool {
    forall|i: int, j: int|
        0 <= i < j < s.len() && s[i].display_name == s[j].display_name ==> lex_less(
            #[trigger] s[i].id,
            #[trigger] s[j].id,
        )
}

/// Every preset comes before the presets of greater id.
spec fn preset_ids_ascending(s: Seq<PresetView>) -> bool {
    forall|i: int, j: int| 0 <= i < j < s.len() ==> lex_less(#[trigger] s[i].id, #[trigger] s[j].id)
}

/// Dropping entries keeps the ids of the rest in ascending order.
proof fn lemma_available_presets_ids_ascending(models: Seq<(String, OnlySqModel)>)
    requires
        ids_ascending(models),
    ensures
        preset_ids_ascending(available_presets(models)),
    decreases models.len(),
{
    if models.len() > 0 {
        let prev = models.drop_last();
        let last = models.last();
        assert(ids_ascending(prev)) by {
            assert forall|i: int, j: int| 0 <= i < j < prev.len() implies lex_less(
                #[trigger] prev[i].0@,
                #[trigger] prev[j].0@,
            ) by {
                assert(prev[i] == models[i] && prev[j] == models[j]);
            }
        }
        lemma_available_presets_ids_ascending(prev);
        let rest = available_presets(prev);
        if is_available(last.1) {
            let a = rest.push(preset_for(last.0, last.1));
            assert forall|i: int, j: int| 0 <= i < j < a.len() implies lex_less(
                #[trigger] a[i].id,
                #[trigger] a[j].id,
            ) by {
                if j == rest.len() {
                    assert(a[i] == rest[i]);
                    assert(rest.contains(rest[i]));
                    lemma_available_presets_are_the_available_entries(prev, rest[i]);
                    let m = choose|m: int|
                        0 <= m < prev.len() && is_available(#[trigger] prev[m].1) && rest[i]
                            == preset_for(prev[m].0, prev[m].1);
                    assert(prev[m] == models[m]);
                    assert(models[models.len() - 1] == last);
                    assert(lex_less(models[m].0@, models[models.len() - 1].0@));
                } else {
                    assert(a[i] == rest[i] && a[j] == rest[j]);
                }
            }
        }
    }
}

/// Stable sorting of presets in ascending id order leaves presets with the
/// same display name in ascending id order.
proof fn lemma_sort_keeps_ties_in_id_order(presets: Seq<PresetView>)
    requires
        preset_ids_ascending(presets),
    ensures
        ties_in_id_order(sorted_by_display_name(presets)),
    decreases presets.len(),
{
    broadcast use vstd::seq_lib::to_multiset_contains;

    if presets.len() > 0 {
        let prev = presets.drop_last();
        let x = presets.last();
        assert(preset_ids_ascending(prev)) by {
            assert forall|i: int, j: int| 0 <= i < j < prev.len() implies lex_less(
                #[trigger] prev[i].id,
                #[trigger] prev[j].id,
            ) by {
                assert(prev[i] == presets[i] && prev[j] == presets[j]);
            }
        }
        lemma_sort_keeps_ties_in_id_order(prev);
        lemma_sorted_by_display_name(prev);
        let t = sorted_by_display_name(prev);
        let name = x.display_name;
        lemma_insertion_index_splits(t, name);
        let k = insertion_index(t, name);
        let r = t.insert(k, x);
        assert(r == sorted_by_display_name(presets));
        assert forall|i: int, j: int|
            0 <= i < j < r.len() && r[i].display_name == r[j].display_name implies lex_less(
            #[trigger] r[i].id,
            #[trigger] r[j].id,
        ) by {
            if j < k {
                assert(r[i] == t[i] && r[j] == t[j]);
            } else if j == k {
                assert(r[i] == t[i] && r[j] == x);
                vstd::seq_lib::to_multiset_contains(t, t[i]);
                assert(t.contains(t[i]));
                assert(prev.contains(t[i]));
                let m = choose|m: int| 0 <= m < prev.len() && prev[m] == t[i];
                assert(presets[m] == prev[m]);
                assert(presets[presets.len() - 1] == x);
            } else if i == k {
                assert(r[i] == x && r[j] == t[j - 1]);
                lemma_lex_less_total(name, name);
            } else if i < k {
                assert(r[i] == t[i] && r[j] == t[j - 1]);
                assert(!lex_less(name, t[i].display_name));
                assert(lex_less(name, t[j - 1].display_name));
            } else {
                assert(r[i] == t[i - 1] && r[j] == t[j - 1]);
            }
        }
    }
}

/// When the catalog's ids ascend, as the keys of its map do, presets with the
/// same display name come out in ascending id order.
pub proof fn lemma_catalog_ties_come_in_id_order(models: Seq<(String, OnlySqModel)>)
    requires
        ids_ascending(models),
    ensures
        ties_in_id_order(catalog_presets(models)),
{
    lemma_available_presets_ids_ascending(models);
    lemma_sort_keeps_ties_in_id_order(available_presets(models));
}

/// The preset of a catalog entry: the id is both its id and its model slug;
/// the name is shown, or the id when the name is empty; the description is
/// kept; a model that can reason starts at medium effort and one that cannot
/// at none; the preset is listed, usable through the API, not the default,
/// without personality, and offers no effort list, tiers, upgrade, notice or
/// input kinds.
pub proof fn lemma_preset_of_an_entry(id: String, m: OnlySqModel)
    ensures
        preset_for(id, m).id == id@,
        preset_for(id, m).model == id@,
        m.name@.len() == 0 ==> preset_for(id, m).display_name == id@,
        m.name@.len() > 0 ==> preset_for(id, m).display_name == m.name@,
        preset_for(id, m).description == m.description@,
        m.can_think ==> preset_for(id, m).default_reasoning_effort == ReasoningEffort::Medium,
        !m.can_think ==> preset_for(id, m).default_reasoning_effort == ReasoningEffort::Off,
        preset_for(id, m).supported_reasoning_efforts.len() == 0,
        !preset_for(id, m).supports_personality,
        preset_for(id, m).additional_speed_tiers.len() == 0,
        preset_for(id, m).service_tiers.len() == 0,
        preset_for(id, m).default_service_tier is None,
        !preset_for(id, m).is_default,
        preset_for(id, m).upgrade is None,
        preset_for(id, m).show_in_picker,
        preset_for(id, m).availability_nux is None,
        preset_for(id, m).supported_in_api,
        preset_for(id, m).input_modalities.len() == 0,
{
}

/// An entry is offered exactly when its status is empty or is `work` up to
/// ASCII case.
pub proof fn lemma_availability(m: OnlySqModel)
    ensures
        is_available(m) <==> (m.status@.len() == 0 || equal_ignoring_ascii_case(m.status@, "work"@)),
{
}

} // verus!
