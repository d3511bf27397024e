//! The model picker of the orchestration settings: which models it offers for a harness,
//! the model each harness last had, and how harness and mode changes move the chosen model.
use vstd::prelude::*;
use vstd::string::*;

use crate::llm_catalog::names_of;
use crate::orchestration::{OrchestrationEditState, OrchestrationExecutionMode};
use crate::start_agent::HarnessLookup;
use crate::text::{all_ws, eq_ignore_ascii_case_spec, is_blank, str_eq};

verus! {

/// What a harness name stands for: the built-in harness, or another known one. A name that
/// stands for none is treated as the built-in harness.
#[derive(Debug, Clone, Copy, PartialEq, Eq, Structural)]
pub enum HarnessKind {
    Oz,
    Other,
}

/// The models that the picker offers for the built-in harness in the run's mode, in order,
/// and the first model of the agent-mode picker.
#[derive(Debug, Clone, PartialEq, Eq)]
pub struct PickerCatalog {
    pub base_choices: Vec<String>,
    pub first_base_choice: Option<String>,
}

/// A model id is among those offered for a harness: for the built-in harness (or a name
/// that stands for none) one of the catalogue's models; for another harness only the
/// default entry, whose id is empty.
pub open spec fn in_choices_spec(model_id: Seq<char>, kind: Option<HarnessKind>, catalog: PickerCatalog) -> bool {
    match kind {
        Some(HarnessKind::Other) => model_id.len() == 0,
        _ => names_of(catalog.base_choices@).contains(model_id),
    }
}

/// Whether a model id is among those offered for a harness; see [`in_choices_spec`].
pub fn is_model_in_filtered_choices(model_id: &str, kind: Option<HarnessKind>, catalog: &PickerCatalog) -> (r: bool)
    ensures
        r == in_choices_spec(model_id@, kind, *catalog),
{
    match kind {
        Some(HarnessKind::Other) => model_id.unicode_len() == 0,
        _ => crate::execution_profiles::contains_string(&catalog.base_choices, model_id),
    }
}

/// The model a harness starts with: the first agent-mode model for the built-in harness,
/// the default entry for another.
pub open spec fn first_filtered_spec(kind: Option<HarnessKind>, catalog: PickerCatalog) -> Option<Seq<char>> {
    match kind {
        Some(HarnessKind::Other) => Some(Seq::empty()),
        _ => match catalog.first_base_choice {
            Some(f) => Some(f@),
            None => None,
        },
    }
}

/// The model a harness starts with; see [`first_filtered_spec`].
pub fn first_filtered_model_id(kind: Option<HarnessKind>, catalog: &PickerCatalog) -> (r: Option<String>)
    ensures
        match r {
            Some(s) => first_filtered_spec(kind, *catalog) == Some(s@),
            None => first_filtered_spec(kind, *catalog) is None,
        },
{
    match kind {
        Some(HarnessKind::Other) => Some(String::new()),
        _ => match &catalog.first_base_choice {
            Some(f) => Some(f.clone()),
            None => None,
        },
    }
}

/// The model a picker falls back to when its model is not offered: the conversation's base
/// model when offered, else the harness's first model, else the default entry.
pub open spec fn reset_model_spec(fallback: Option<Seq<char>>, kind: Option<HarnessKind>, catalog: PickerCatalog) -> Seq<
    char,
> {
    match fallback {
        Some(f) => if in_choices_spec(f, kind, catalog) {
            f
        } else {
            match first_filtered_spec(kind, catalog) {
                Some(x) => x,
                None => Seq::empty(),
            }
        },
        None => match first_filtered_spec(kind, catalog) {
            Some(x) => x,
            None => Seq::empty(),
        },
    }
}

fn reset_model(fallback: Option<String>, kind: Option<HarnessKind>, catalog: &PickerCatalog) -> (r: String)
    ensures
        r@ == reset_model_spec(
            match fallback {
                Some(f) => Some(f@),
                None => None,
            },
            kind,
            *catalog,
        ),
{
    if let Some(f) = fallback {
        if is_model_in_filtered_choices(f.as_str(), kind, catalog) {
            return f;
        }
    }
    match first_filtered_model_id(kind, catalog) {
        Some(x) => x,
        None => String::new(),
    }
}

/// The map that a list of (key, value) entries describes, a later entry for a key
/// replacing an earlier one.
pub open spec fn map_of(entries: Seq<(String, String)>) -> Map<Seq<char>, Seq<char>>
    decreases entries.len(),
{
    if entries.len() == 0 {
        Map::empty()
    } else {
        map_of(entries.drop_last()).insert(entries.last().0@, entries.last().1@)
    }
}

/// No two entries share a key.
pub open spec fn keys_unique(entries: Seq<(String, String)>) -> bool {
    forall|i: int, j: int| 0 <= i < j < entries.len() ==> (#[trigger] entries[i]).0@ != (#[trigger] entries[j]).0@
}

proof fn lemma_map_of_keys(entries: Seq<(String, String)>, k: Seq<char>)
    ensures
        map_of(entries).contains_key(k) <==> exists|i: int| 0 <= i < entries.len() && (#[trigger] entries[i]).0@ == k,
    decreases entries.len(),
{
    if entries.len() > 0 {
        lemma_map_of_keys(entries.drop_last(), k);
        if exists|i: int| 0 <= i < entries.len() && (#[trigger] entries[i]).0@ == k {
            let i = choose|i: int| 0 <= i < entries.len() && (#[trigger] entries[i]).0@ == k;
            if i < entries.len() - 1 {
                assert(entries.drop_last()[i] == entries[i]);
            }
        }
        if exists|i: int| 0 <= i < entries.drop_last().len() && (#[trigger] entries.drop_last()[i]).0@ == k {
            let i = choose|i: int| 0 <= i < entries.drop_last().len() && (#[trigger] entries.drop_last()[i]).0@ == k;
            assert(entries[i] == entries.drop_last()[i]);
        }
    }
}

proof fn lemma_map_of_update(entries: Seq<(String, String)>, j: int, e: (String, String))
    requires
        keys_unique(entries),
        0 <= j < entries.len(),
        e.0@ == entries[j].0@,
    ensures
        map_of(entries.update(j, e)) == map_of(entries).insert(e.0@, e.1@),
        keys_unique(entries.update(j, e)),
    decreases entries.len(),
{
    let u = entries.update(j, e);
    assert forall|a: int, b: int| 0 <= a < b < u.len() implies (#[trigger] u[a]).0@ != (#[trigger] u[b]).0@ by {
        assert(entries[a].0@ != entries[b].0@);
    }
    if j == entries.len() - 1 {
        assert(u.drop_last() =~= entries.drop_last());
        lemma_map_of_keys(entries.drop_last(), e.0@);
        assert(map_of(entries).insert(e.0@, e.1@) =~= map_of(entries.drop_last()).insert(e.0@, e.1@));
    } else {
        assert(u.drop_last() =~= entries.drop_last().update(j, e));
        assert(keys_unique(entries.drop_last())) by {
            assert forall|a: int, b: int| 0 <= a < b < entries.drop_last().len() implies (#[trigger] entries.drop_last()[a]).0@
                != (#[trigger] entries.drop_last()[b]).0@ by {
                assert(entries.drop_last()[a] == entries[a]);
                assert(entries.drop_last()[b] == entries[b]);
            }
        }
        lemma_map_of_update(entries.drop_last(), j, e);
        assert(entries.last().0@ != e.0@) by {
            assert(entries[j].0@ != entries[entries.len() - 1].0@);
        }
        assert(map_of(u) =~= map_of(entries).insert(e.0@, e.1@));
    }
}

/// The model each harness last had, by the harness's save key.
pub struct SavedModelPerHarness {
    entries: Vec<(String, String)>,
}

impl SavedModelPerHarness {
    #[verifier::type_invariant]
    closed spec fn unique(self) -> bool {
        keys_unique(self.entries@)
    }

    /// The saved models, by save key.
    pub closed spec fn view(&self) -> Map<Seq<char>, Seq<char>> {
        map_of(self.entries@)
    }

    /// Nothing saved yet.
    pub fn new() -> (r: Self)
        ensures
            r@ == Map::<Seq<char>, Seq<char>>::empty(),
    {
        SavedModelPerHarness { entries: Vec::new() }
    }

    /// The model saved for a key.
    pub fn get(&self, key: &str) -> (r: Option<&str>)
        ensures
            match r {
                Some(v) => self@.contains_key(key@) && self@[key@] == v@,
                None => !self@.contains_key(key@),
            },
    {
        proof {
            use_type_invariant(self);
        }
        let mut i: usize = self.entries.len();
        while i > 0
            invariant
                i <= self.entries@.len(),
                keys_unique(self.entries@),
                forall|j: int| i <= j < self.entries@.len() ==> (#[trigger] self.entries@[j]).0@ != key@,
            decreases i,
        {
            i = i - 1;
            if str_eq(self.entries[i].0.as_str(), key) {
                proof {
                    self.lemma_lookup_at(i as int);
                }
                return Some(self.entries[i].1.as_str());
            }
        }
        proof {
            lemma_map_of_keys(self.entries@, key@);
        }
        None
    }

    proof fn lemma_lookup_at(&self, i: int)
        requires
            keys_unique(self.entries@),
            0 <= i < self.entries@.len(),
        ensures
            self@.contains_key(self.entries@[i].0@),
            self@[self.entries@[i].0@] == self.entries@[i].1@,
    {
        let e = self.entries@[i];
        lemma_map_of_update(self.entries@, i, e);
        assert(self.entries@.update(i, e) =~= self.entries@);
    }

    /// Saves a model for a key, replacing what was saved for it.
    pub fn insert(&mut self, key: String, value: String)
        ensures
            final(self)@ == old(self)@.insert(key@, value@),
    {
        proof {
            use_type_invariant(&*self);
        }
        let n = self.entries.len();
        let mut i: usize = 0;
        while i < n
            invariant
                n == self.entries@.len(),
                i <= n,
                self.entries@ == old(self).entries@,
                keys_unique(self.entries@),
                forall|j: int| 0 <= j < i ==> (#[trigger] self.entries@[j]).0@ != key@,
            decreases n - i,
        {
            if str_eq(self.entries[i].0.as_str(), key.as_str()) {
                let ghost before = self.entries@;
                let ghost e = (key, value);
                proof {
                    lemma_map_of_update(before, i as int, e);
                }
                let mut entries = Vec::new();
                std::mem::swap(&mut entries, &mut self.entries);
                entries.set(i, (key, value));
                self.entries = entries;
                return;
            }
            i = i + 1;
        }
        let ghost before = self.entries@;
        proof {
            assert forall|a: int, b: int| 0 <= a < b < before.len() + 1 implies (#[trigger] before.push((key, value))[a]).0@
                != (#[trigger] before.push((key, value))[b]).0@ by {
                if b == before.len() {
                    assert(before.push((key, value))[a] == before[a]);
                } else {
                    assert(before.push((key, value))[a] == before[a]);
                    assert(before.push((key, value))[b] == before[b]);
                }
            }
            assert(before.push((key, value)).drop_last() =~= before);
        }
        let mut entries = Vec::new();
        std::mem::swap(&mut entries, &mut self.entries);
        entries.push((key, value));
        self.entries = entries;
    }
}

/// The save key of a harness name: the empty name stands for `oz`.
pub open spec fn save_key_spec(harness_type: Seq<char>) -> Seq<char> {
    if harness_type.len() == 0 {
        "oz"@
    } else {
        harness_type
    }
}

/// The harness, model and saved models after the harness picker chose `new_harness`. The
/// current model is saved under the old harness; a local run of a harness that this build
/// switched off (`disabled`) becomes the built-in harness with no model; then the model
/// saved for the resulting harness comes back when it is offered, else the current model
/// stays when it is offered, else the picker falls back (see [`reset_model_spec`]). `kind`
/// is what `new_harness` stands for.
pub open spec fn harness_change_spec(
    is_local: bool,
    old_harness: Seq<char>,
    old_model: Seq<char>,
    memory: Map<Seq<char>, Seq<char>>,
    new_harness: Seq<char>,
    disabled: bool,
    kind: Option<HarnessKind>,
    catalog: PickerCatalog,
    fallback: Option<Seq<char>>,
) -> (Seq<char>, Seq<char>, Map<Seq<char>, Seq<char>>) {
    let saved = memory.insert(save_key_spec(old_harness), old_model);
    let sanitized = is_local && disabled;
    let harness = if sanitized {
        "oz"@
    } else {
        new_harness
    };
    let k = if sanitized {
        Some(HarnessKind::Oz)
    } else {
        kind
    };
    let model = if sanitized {
        Seq::empty()
    } else {
        old_model
    };
    let key = save_key_spec(harness);
    let chosen = if saved.contains_key(key) && in_choices_spec(saved[key], k, catalog) {
        saved[key]
    } else if in_choices_spec(model, k, catalog) {
        model
    } else {
        reset_model_spec(fallback, k, catalog)
    };
    (harness, chosen, saved)
}

/// The harness picker chose `new_harness_type`; see [`harness_change_spec`]. `lookup` is
/// the registry's answer for the new harness, `new_kind` what its name stands for, and
/// `catalog` the models offered in the run's mode. The auth secret is reset: no saved secret
/// is kept for any harness.
pub fn apply_harness_change(
    state: &mut OrchestrationEditState,
    memory: &mut SavedModelPerHarness,
    new_harness_type: &str,
    lookup: &HarnessLookup,
    new_kind: Option<HarnessKind>,
    catalog: &PickerCatalog,
    fallback_base_model_id: Option<String>,
)
    ensures
        ({
            let r = harness_change_spec(
                old(state).execution_mode is Local,
                old(state).harness_type@,
                old(state).model_id@,
                old(memory)@,
                new_harness_type@,
                lookup is Disabled,
                new_kind,
                *catalog,
                match fallback_base_model_id {
                    Some(f) => Some(f@),
                    None => None,
                },
            );
            &&& final(state).harness_type@ == r.0
            &&& final(state).model_id@ == r.1
            &&& final(memory)@ == r.2
        }),
        final(state).execution_mode == old(state).execution_mode,
        final(state).auth_secret_name is None,
{
    let ghost fallback = crate::execution_profiles::opt_string_view(fallback_base_model_id);
    let ghost spec_r = harness_change_spec(
        state.execution_mode is Local,
        state.harness_type@,
        state.model_id@,
        memory@,
        new_harness_type@,
        lookup is Disabled,
        new_kind,
        *catalog,
        fallback,
    );
    let old_key = String::from_str(crate::orchestration::harness_save_key(state.harness_type.as_str()));
    memory.insert(old_key, state.model_id.clone());
    state.harness_type = String::from_str(new_harness_type);
    let is_local = match state.execution_mode {
        OrchestrationExecutionMode::Local => true,
        OrchestrationExecutionMode::Remote { .. } => false,
    };
    let mut kind = new_kind;
    if is_local {
        if let HarnessLookup::Disabled(_) = lookup {
            kind = Some(HarnessKind::Oz);
        }
        state.sanitize_for_local_execution(lookup);
    }
    proof {
        reveal_strlit("oz");
    }
    let ghost sanitized = is_local && lookup is Disabled;
    let ghost m = if sanitized {
        Seq::<char>::empty()
    } else {
        old(state).model_id@
    };
    assert(state.harness_type@ == spec_r.0);
    assert(state.model_id@ == m);
    assert(memory@ == spec_r.2);
    let key = crate::orchestration::harness_save_key(state.harness_type.as_str());
    assert(key@ == save_key_spec(spec_r.0));
    let restored = match memory.get(key) {
        Some(id) => if is_model_in_filtered_choices(id, kind, catalog) {
            Some(String::from_str(id))
        } else {
            None
        },
        None => None,
    };
    match restored {
        Some(saved_id) => {
            state.model_id = saved_id;
        },
        None => {
            let offered = is_model_in_filtered_choices(state.model_id.as_str(), kind, catalog);
            assert(offered == in_choices_spec(m, kind, *catalog));
            if !offered {
                let reset = reset_model(fallback_base_model_id, kind, catalog);
                assert(reset@ == reset_model_spec(fallback, kind, *catalog));
                state.model_id = reset;
            }
        },
    }
    state.auth_secret_name = None;
}

/// The settings after the mode toggle: see
/// [`OrchestrationEditState::toggle_execution_mode_to_remote`] for harness and mode; then a
/// model that the new mode does not offer falls back (see [`reset_model_spec`]). `kind` is
/// what the current harness stands for, `lookup` the registry's answer for it, and
/// `catalog` the models offered in the new mode.
pub fn apply_execution_mode_change(
    state: &mut OrchestrationEditState,
    is_remote: bool,
    lookup: &HarnessLookup,
    kind: Option<HarnessKind>,
    catalog: &PickerCatalog,
    fallback_base_model_id: Option<String>,
)
    ensures
        ({
            let opencode = eq_ignore_ascii_case_spec(old(state).harness_type@, "opencode"@);
            let to_oz = (is_remote && opencode) || (!is_remote && lookup is Disabled);
            let k = if to_oz {
                Some(HarnessKind::Oz)
            } else {
                kind
            };
            let m = if !is_remote && lookup is Disabled {
                Seq::<char>::empty()
            } else {
                old(state).model_id@
            };
            &&& final(state).harness_type@ == if to_oz {
                "oz"@
            } else {
                old(state).harness_type@
            }
            &&& final(state).model_id@ == if in_choices_spec(m, k, *catalog) {
                m
            } else {
                reset_model_spec(
                    match fallback_base_model_id {
                        Some(f) => Some(f@),
                        None => None,
                    },
                    k,
                    *catalog,
                )
            }
            &&& is_remote ==> {
                &&& old(state).execution_mode is Remote ==> final(state).execution_mode == old(state).execution_mode
                &&& old(state).execution_mode is Local ==> (final(state).execution_mode matches OrchestrationExecutionMode::Remote {
                    environment_id,
                    worker_host,
                } && environment_id@.len() == 0 && worker_host@ == "warp"@)
            }
            &&& !is_remote ==> final(state).execution_mode == OrchestrationExecutionMode::Local
        }),
        final(state).auth_secret_name == old(state).auth_secret_name,
{
    let opencode = crate::text::eq_ignore_ascii_case(state.harness_type.as_str(), "opencode");
    proof {
        reveal_strlit("opencode");
    }
    state.toggle_execution_mode_to_remote(is_remote, lookup);
    let to_oz = (is_remote && opencode) || (!is_remote && matches!(lookup, HarnessLookup::Disabled(_)));
    let k = if to_oz {
        Some(HarnessKind::Oz)
    } else {
        kind
    };
    let ghost m = state.model_id@;
    assert(m == if !is_remote && lookup is Disabled {
        Seq::<char>::empty()
    } else {
        old(state).model_id@
    });
    assert(k == if (is_remote && eq_ignore_ascii_case_spec(old(state).harness_type@, "opencode"@)) || (!is_remote
        && lookup is Disabled) {
        Some(HarnessKind::Oz)
    } else {
        kind
    });
    let offered = is_model_in_filtered_choices(state.model_id.as_str(), k, catalog);
    assert(offered == in_choices_spec(m, k, *catalog));
    if !offered {
        let fb = fallback_base_model_id;
        let reset = reset_model(fb, k, catalog);
        assert(reset@ == reset_model_spec(
            match fallback_base_model_id {
                Some(f) => Some(f@),
                None => None,
            },
            k,
            *catalog,
        ));
        state.model_id = reset;
    }
}

/// The settings after the catalogue changed: a local run is made to fit (see
/// [`OrchestrationEditState::sanitize_for_local_execution`]); then a model that is no longer
/// offered becomes the harness's first model, when it has one.
pub fn repopulate_all_pickers(
    state: &mut OrchestrationEditState,
    lookup: &HarnessLookup,
    kind: Option<HarnessKind>,
    catalog: &PickerCatalog,
)
    ensures
        ({
            let sanitized = old(state).execution_mode is Local && lookup is Disabled;
            let k = if sanitized {
                Some(HarnessKind::Oz)
            } else {
                kind
            };
            let m = if sanitized {
                Seq::<char>::empty()
            } else {
                old(state).model_id@
            };
            &&& final(state).harness_type@ == if sanitized {
                "oz"@
            } else {
                old(state).harness_type@
            }
            &&& final(state).model_id@ == if !in_choices_spec(m, k, *catalog) && first_filtered_spec(k, *catalog) is Some {
                first_filtered_spec(k, *catalog)->0
            } else {
                m
            }
        }),
        final(state).execution_mode == old(state).execution_mode,
        final(state).auth_secret_name == old(state).auth_secret_name,
{
    let ghost sanitized = old(state).execution_mode is Local && lookup is Disabled;
    let ghost m = if sanitized {
        Seq::<char>::empty()
    } else {
        old(state).model_id@
    };
    let mut k = kind;
    if let OrchestrationExecutionMode::Local = state.execution_mode {
        if let HarnessLookup::Disabled(_) = lookup {
            k = Some(HarnessKind::Oz);
        }
        state.sanitize_for_local_execution(lookup);
    }
    assert(state.model_id@ == m);
    let offered = is_model_in_filtered_choices(state.model_id.as_str(), k, catalog);
    assert(offered == in_choices_spec(m, k, *catalog));
    if !offered {
        if let Some(first) = first_filtered_model_id(k, catalog) {
            state.model_id = first;
        }
    }
}

/// Whether the auth-secret picker is shown: for a remote run of a known harness other than
/// the built-in one that accepts some kind of secret.
pub fn should_show_auth_secret_picker(
    state: &OrchestrationEditState,
    kind: Option<HarnessKind>,
    harness_has_secret_types: bool,
) -> (r: bool)
    ensures
        r == (state.execution_mode is Remote && kind == Some(HarnessKind::Other) && harness_has_secret_types),
{
    match state.execution_mode {
        OrchestrationExecutionMode::Local => false,
        OrchestrationExecutionMode::Remote { .. } => match kind {
            Some(HarnessKind::Other) => harness_has_secret_types,
            _ => false,
        },
    }
}

/// Records the auth secret the user picked; a blank name stands for none.
pub fn apply_auth_secret_change(state: &mut OrchestrationEditState, new_name: Option<String>)
    ensures
        final(state).auth_secret_name == match new_name {
            Some(name) => if all_ws(name@) {
                None
            } else {
                Some(name)
            },
            None => None,
        },
        final(state).model_id == old(state).model_id,
        final(state).harness_type == old(state).harness_type,
        final(state).execution_mode == old(state).execution_mode,
{
    state.auth_secret_name = match new_name {
        Some(name) => if is_blank(name.as_str()) {
            None
        } else {
            Some(name)
        },
        None => None,
    };
}

/// Switching the harness away and back brings back the model the first harness had, when
/// it is still offered and neither harness is switched off for the run.
pub proof fn lemma_harness_round_trip(
    is_local: bool,
    h1: Seq<char>,
    m: Seq<char>,
    memory: Map<Seq<char>, Seq<char>>,
    h2: Seq<char>,
    k1: Option<HarnessKind>,
    k2: Option<HarnessKind>,
    catalog: PickerCatalog,
    fallback: Option<Seq<char>>,
)
    requires
        save_key_spec(h1) != save_key_spec(h2),
        in_choices_spec(m, k1, catalog),
    ensures
        ({
            let away = harness_change_spec(is_local, h1, m, memory, h2, false, k2, catalog, fallback);
            let back = harness_change_spec(is_local, away.0, away.1, away.2, h1, false, k1, catalog, fallback);
            back.0 == h1 && back.1 == m
        }),
{
    let away = harness_change_spec(is_local, h1, m, memory, h2, false, k2, catalog, fallback);
    assert(away.2.contains_key(save_key_spec(h1)));
    assert(away.2.insert(save_key_spec(h2), away.1)[save_key_spec(h1)] == m);
}

} // verus!
