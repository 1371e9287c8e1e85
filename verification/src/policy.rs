//! Deterministic, single-pass model selection and the policy text that a provider sees.
use vstd::prelude::*;

use crate::error::{Error, ErrorView};
use crate::text::{
    append, contains_blank, debug_quoted, equal_ignoring_case, join, same_text, starts_with,
};
use crate::text_map::TextMap;

verus! {

/// Whether a model identifier names a Composer model.
pub open spec fn is_composer(model: Seq<char>) -> bool {
    crate::text::has_prefix(model, "composer-"@)
}

/// Composer model identifiers begin with `composer-`, as `composer-2.5` does.
pub fn is_composer_model(model_id: &str) -> (r: bool)
    ensures
        r == is_composer(model_id@),
{
    starts_with(model_id, "composer-")
}

/// The target of one rule: a model and how it is to run.
#[derive(Debug, PartialEq, Eq)]
pub struct ModelTarget {
    pub model: String,
    pub effort: Option<String>,
    pub fast: bool,
}

/// The value of a [`ModelTarget`].
pub struct TargetView {
    pub model: Seq<char>,
    pub effort: Option<Seq<char>>,
    pub fast: bool,
}

/// The value of an optional text.
pub open spec fn optional_text(text: Option<String>) -> Option<Seq<char>> {
    match text {
        Some(text) => Some(text@),
        None => None,
    }
}

impl View for ModelTarget {
    type V = TargetView;

    open spec fn view(&self) -> TargetView {
        TargetView { model: self.model@, effort: optional_text(self.effort), fast: self.fast }
    }
}

impl Clone for ModelTarget {
    fn clone(&self) -> (r: Self)
        ensures
            r@ == self@,
    {
        let effort: Option<String> = match &self.effort {
            Some(effort) => Some(effort.clone()),
            None => None,
        };
        ModelTarget { model: self.model.clone(), effort, fast: self.fast }
    }
}

impl TargetView {
    /// The target that names a model and nothing else.
    pub open spec fn of_model(model: Seq<char>) -> TargetView {
        TargetView { model, effort: None, fast: false }
    }
}

impl ModelTarget {
    /// The target that names a model and nothing else.
    pub fn model_only(model: &str) -> (r: Self)
        ensures
            r@ == TargetView::of_model(model@),
    {
        ModelTarget { model: model.to_owned(), effort: None, fast: false }
    }
}

/// The rules that choose the model of a subagent.
#[derive(Debug, PartialEq, Eq)]
pub struct Policy {
    /// The target of every subagent that no other rule covers.
    pub fallback: Option<ModelTarget>,
    /// Targets by subagent type.
    pub types: TextMap<ModelTarget>,
    /// Targets by requested model.
    pub mapping: TextMap<ModelTarget>,
}

/// The value of a [`Policy`].
pub struct PolicyView {
    pub fallback: Option<TargetView>,
    pub types: Map<Seq<char>, TargetView>,
    pub mapping: Map<Seq<char>, TargetView>,
}

/// The value of an optional target.
pub open spec fn optional_target(target: Option<ModelTarget>) -> Option<TargetView> {
    match target {
        Some(target) => Some(target@),
        None => None,
    }
}

impl View for Policy {
    type V = PolicyView;

    open spec fn view(&self) -> PolicyView {
        PolicyView {
            fallback: optional_target(self.fallback),
            types: self.types@,
            mapping: self.mapping@,
        }
    }
}

/// Which rule chose a target.
#[derive(Clone, Copy, Debug, PartialEq, Eq, Structural)]
pub enum ResolutionReason {
    Type,
    Mapping,
    Fallback,
    Original,
}

/// A chosen target and the rule that chose it.
#[derive(Debug, PartialEq, Eq)]
pub struct Resolution {
    /// Configured targets never name `inherit`. It appears only with
    /// [`ResolutionReason::Original`], where the request itself asks to inherit; the caller
    /// then resolves the parent.
    pub target: ModelTarget,
    pub reason: ResolutionReason,
}

/// The value of a [`Resolution`].
pub struct ResolutionView {
    pub target: TargetView,
    pub reason: ResolutionReason,
}

impl View for Resolution {
    type V = ResolutionView;

    open spec fn view(&self) -> ResolutionView {
        ResolutionView { target: self.target@, reason: self.reason }
    }
}

impl Clone for Resolution {
    fn clone(&self) -> (r: Self)
        ensures
            r@ == self@,
    {
        Resolution { target: self.target.clone(), reason: self.reason }
    }
}

/// A policy in force. A snapshot that is held on to never changes.
#[derive(Debug)]
pub struct PolicySnapshot {
    /// Grows only when the validated policy changes, not when its file is written differently.
    pub version: u64,
    pub policy: Policy,
}

impl PolicyView {
    /// The policy without rules.
    pub open spec fn empty() -> PolicyView {
        PolicyView { fallback: None, types: Map::empty(), mapping: Map::empty() }
    }

    /// The choice for a subagent type and a requested model: the rule for the type, else the
    /// rule for the model, else the fallback, else the request as it stands.
    pub open spec fn resolution(self, kind: Seq<char>, requested: Seq<char>) -> ResolutionView {
        if self.types.contains_key(kind) {
            ResolutionView { target: self.types[kind], reason: ResolutionReason::Type }
        } else if self.mapping.contains_key(requested) {
            ResolutionView { target: self.mapping[requested], reason: ResolutionReason::Mapping }
        } else if self.fallback is Some {
            ResolutionView { target: self.fallback->0, reason: ResolutionReason::Fallback }
        } else {
            ResolutionView {
                target: TargetView::of_model(requested),
                reason: ResolutionReason::Original,
            }
        }
    }
}

/// A rule for the type wins over one for the requested model, and that over the fallback;
/// without any of them the request stands. The chosen target is taken whole.
pub proof fn law_rules_have_an_order(policy: PolicyView, kind: Seq<char>, requested: Seq<char>)
    ensures
        policy.types.contains_key(kind) ==> policy.resolution(kind, requested) == (ResolutionView {
            target: policy.types[kind],
            reason: ResolutionReason::Type,
        }),
        !policy.types.contains_key(kind) && policy.mapping.contains_key(requested)
            ==> policy.resolution(kind, requested) == (ResolutionView {
            target: policy.mapping[requested],
            reason: ResolutionReason::Mapping,
        }),
        !policy.types.contains_key(kind) && !policy.mapping.contains_key(requested)
            && policy.fallback is Some ==> policy.resolution(kind, requested) == (ResolutionView {
            target: policy.fallback->0,
            reason: ResolutionReason::Fallback,
        }),
        !policy.types.contains_key(kind) && !policy.mapping.contains_key(requested)
            && policy.fallback is None ==> policy.resolution(kind, requested).target
            == TargetView::of_model(requested),
{
}

/// Mapping is single-pass: where one requested model is mapped to a second one, and the second
/// is mapped too, the first still gets the second.
pub proof fn law_mapping_is_single_pass(policy: PolicyView, kind: Seq<char>, requested: Seq<char>)
    requires
        !policy.types.contains_key(kind),
        policy.mapping.contains_key(requested),
        policy.mapping.contains_key(policy.mapping[requested].model),
    ensures
        policy.resolution(kind, requested).target == policy.mapping[requested],
{
}

impl Default for Policy {
    fn default() -> (r: Self)
        ensures
            r@ == PolicyView::empty(),
    {
        Policy { fallback: None, types: TextMap::new(), mapping: TextMap::new() }
    }
}

impl PolicySnapshot {
    /// Chooses the target for a subagent type and a requested model.
    pub fn resolve(&self, subagent_type: &str, requested: &str) -> (r: Resolution)
        ensures
            r@ == self.policy@.resolution(subagent_type@, requested@),
    {
        self.policy.resolve(subagent_type, requested)
    }
}

impl Policy {
    /// Chooses the target for a subagent type and a requested model. The chosen target is
    /// taken whole, and no rule is applied to it again.
    pub fn resolve(&self, subagent_type: &str, requested: &str) -> (r: Resolution)
        ensures
            r@ == self@.resolution(subagent_type@, requested@),
    {
        if let Some(target) = self.types.get(subagent_type) {
            Resolution { target: target.clone(), reason: ResolutionReason::Type }
        } else if let Some(target) = self.mapping.get(requested) {
            Resolution { target: target.clone(), reason: ResolutionReason::Mapping }
        } else if let Some(target) = &self.fallback {
            Resolution { target: target.clone(), reason: ResolutionReason::Fallback }
        } else {
            Resolution {
                target: ModelTarget::model_only(requested),
                reason: ResolutionReason::Original,
            }
        }
    }
}

/// Why a text is no identifier of a policy: it is empty or holds white space or a control
/// character.
pub open spec fn identifier_error(value: Seq<char>) -> Option<ErrorView> {
    if value.len() == 0 || crate::text::has_blank(value) {
        Some(
            ErrorView::Config(
                "invalid subagent policy identifier: "@ + crate::text::debug_text(value),
            ),
        )
    } else {
        None
    }
}

/// Why a text is no effort: it is empty, is `none` in any case, or holds white space or a
/// control character.
pub open spec fn effort_error(value: Seq<char>) -> Option<ErrorView> {
    if value.len() == 0 || crate::text::same_ignoring_case(value, "none"@)
        || crate::text::has_blank(value) {
        Some(
            ErrorView::Config(
                "invalid subagent policy effort: "@ + crate::text::debug_text(value),
            ),
        )
    } else {
        None
    }
}

/// Why a rule may not have a target: it names `inherit` or no identifier, it is a Composer
/// model with an effort, or another model without a valid one.
pub open spec fn target_error(target: TargetView) -> Option<ErrorView> {
    if target.model == "inherit"@ {
        Some(
            ErrorView::Config(
                "subagent policy target model cannot be \"inherit\"; use Task.model inherit instead"@,
            ),
        )
    } else if identifier_error(target.model) is Some {
        identifier_error(target.model)
    } else if is_composer(target.model) {
        if target.effort is Some {
            Some(
                ErrorView::Config(
                    "subagent policy Composer target "@ + target.model + " must not set effort"@,
                ),
            )
        } else {
            None
        }
    } else {
        match target.effort {
            Some(effort) => effort_error(effort),
            None => Some(
                ErrorView::Config(
                    "subagent policy non-Composer target "@ + target.model + " requires effort"@,
                ),
            ),
        }
    }
}

/// Whether a check fails with the given error, or passes where there is none.
pub open spec fn fails_with<T>(result: Result<T, Error>, error: Option<ErrorView>) -> bool {
    match result {
        Ok(_) => error is None,
        Err(e) => error == Some(e@),
    }
}

/// Refuses a text that is empty or holds white space or a control character.
pub fn validate_identifier(value: &str) -> (r: Result<(), Error>)
    ensures
        fails_with(r, identifier_error(value@)),
{
    if value.is_empty() || contains_blank(value) {
        let quoted: String = debug_quoted(value);
        return Err(Error::Config(append("invalid subagent policy identifier: ", quoted.as_str())));
    }
    Ok(())
}

/// Refuses an effort that is empty, is `none` in any case, or holds white space or a control
/// character.
pub fn validate_effort(value: &str) -> (r: Result<(), Error>)
    ensures
        fails_with(r, effort_error(value@)),
{
    if value.is_empty() || equal_ignoring_case(value, "none") || contains_blank(value) {
        let quoted: String = debug_quoted(value);
        return Err(Error::Config(append("invalid subagent policy effort: ", quoted.as_str())));
    }
    Ok(())
}

/// Refuses a target that no rule may have.
pub fn validate_configured_target(target: &ModelTarget) -> (r: Result<(), Error>)
    ensures
        fails_with(r, target_error(target@)),
{
    if same_text(target.model.as_str(), "inherit") {
        return Err(
            Error::Config(
                "subagent policy target model cannot be \"inherit\"; use Task.model inherit instead".to_owned(),
            ),
        );
    }
    match validate_identifier(target.model.as_str()) {
        Ok(()) => {},
        Err(error) => {
            return Err(error);
        },
    }
    if is_composer_model(target.model.as_str()) {
        if target.effort.is_some() {
            return Err(
                Error::Config(
                    join(
                        "subagent policy Composer target ",
                        target.model.as_str(),
                        " must not set effort",
                    ),
                ),
            );
        }
        return Ok(());
    }
    match &target.effort {
        Some(effort) => validate_effort(effort.as_str()),
        None => Err(
            Error::Config(
                join(
                    "subagent policy non-Composer target ",
                    target.model.as_str(),
                    " requires effort",
                ),
            ),
        ),
    }
}

/// The values of a map in the order of their keys.
pub open spec fn values_in_order<V>(map: Map<Seq<char>, V>) -> Seq<V> {
    let order = crate::text_map::sorted_texts(map.dom());
    Seq::new(order.len(), |i: int| map[order[i]])
}

impl PolicyView {
    /// The targets of all rules: the fallback, then those of the types, then those of the
    /// requested models, each in the order of their keys.
    pub open spec fn configured_targets(self) -> Seq<TargetView> {
        let fallback = match self.fallback {
            Some(target) => seq![target],
            None => seq![],
        };
        fallback + values_in_order(self.types) + values_in_order(self.mapping)
    }

    /// Whether the policy names a model: as `inherit`, as the target of a rule, or as a
    /// requested model that has one.
    pub open spec fn references(self, model: Seq<char>) -> bool {
        ||| model == "inherit"@
        ||| self.fallback is Some && self.fallback->0.model == model
        ||| exists|kind: Seq<char>|
            self.types.contains_key(kind) && (#[trigger] self.types[kind]).model == model
        ||| self.mapping.contains_key(model)
        ||| exists|requested: Seq<char>|
            self.mapping.contains_key(requested) && (#[trigger] self.mapping[requested]).model
                == model
    }

    /// The models that the policy names, in lexicographic order.
    pub open spec fn referenced_models(self) -> Seq<Seq<char>> {
        crate::text_map::sorted_texts(Set::new(|model: Seq<char>| self.references(model)))
    }
}

/// The values of a list of targets.
pub open spec fn target_views(targets: Seq<&ModelTarget>) -> Seq<TargetView> {
    Seq::new(targets.len(), |i: int| targets[i]@)
}

/// Adds the values of a map to a list, in the order of their keys.
fn push_values<'a>(targets: &mut Vec<&'a ModelTarget>, map: &'a TextMap<ModelTarget>)
    ensures
        target_views(final(targets)@) == target_views(old(targets)@) + values_in_order(map@),
{
    let ghost before = target_views(targets@);
    let len: usize = map.len();
    let mut i: usize = 0;
    proof {
        assert(target_views(targets@) =~= before + values_in_order(map@).take(0));
    }
    while i < len
        invariant
            i <= len,
            len == crate::text_map::sorted_texts(map@.dom()).len(),
            target_views(targets@) == before + values_in_order(map@).take(i as int),
        decreases len - i,
    {
        let (_, target) = map.entry(i);
        let ghost held = target_views(targets@);
        targets.push(target);
        proof {
            assert(target_views(targets@) =~= held.push(target@));
            assert(values_in_order(map@).take(i + 1) =~= values_in_order(map@).take(i as int).push(
                target@,
            ));
            assert(target_views(targets@) =~= before + values_in_order(map@).take(i + 1));
        }
        i += 1;
    }
    proof {
        assert(values_in_order(map@).take(len as int) =~= values_in_order(map@));
    }
}

impl Policy {
    /// The targets of all rules: the fallback, then those of the types, then those of the
    /// requested models, each in the order of their keys.
    pub fn configured_targets(&self) -> (r: Vec<&ModelTarget>)
        ensures
            target_views(r@) == self@.configured_targets(),
    {
        let mut targets: Vec<&ModelTarget> = Vec::new();
        if let Some(target) = &self.fallback {
            targets.push(target);
        }
        let ghost first = target_views(targets@);
        proof {
            match self@.fallback {
                Some(target) => assert(first =~= seq![target]),
                None => assert(first =~= seq![]),
            }
        }
        push_values(&mut targets, &self.types);
        push_values(&mut targets, &self.mapping);
        targets
    }

    /// The models that the policy names. `inherit` is always among them: a request may ask for
    /// it, though no rule may have it as its target.
    pub fn referenced_models(&self) -> (r: TextMap<()>)
        ensures
            r@.dom() == Set::new(|model: Seq<char>| self@.references(model)),
    {
        let mut models: TextMap<()> = TextMap::new();
        models.insert("inherit".to_owned(), ());
        if let Some(target) = &self.fallback {
            models.insert(target.model.clone(), ());
        }
        let ghost before = models@.dom();
        insert_models(&mut models, &self.types, false);
        insert_models(&mut models, &self.mapping, true);
        proof {
            assert(models@.dom() =~= Set::new(|model: Seq<char>| self@.references(model)));
        }
        models
    }
}

/// Whether a map has a target with the given model, or, if keys count, the model as a key.
pub open spec fn map_names(map: Map<Seq<char>, TargetView>, model: Seq<char>, keys: bool) -> bool {
    ||| exists|key: Seq<char>| map.contains_key(key) && (#[trigger] map[key]).model == model
    ||| keys && map.contains_key(model)
}

/// Adds the models of a map's targets to a set, and its keys where they count.
fn insert_models(models: &mut TextMap<()>, map: &TextMap<ModelTarget>, keys: bool)
    ensures
        forall|model: Seq<char>| #[trigger]
            final(models)@.dom().contains(model) == (old(models)@.dom().contains(model)
                || map_names(map@, model, keys)),
{
    let ghost before = models@.dom();
    let ghost order = crate::text_map::sorted_texts(map@.dom());
    let len: usize = map.len();
    let mut i: usize = 0;
    while i < len
        invariant
            i <= len,
            order == crate::text_map::sorted_texts(map@.dom()),
            len == order.len(),
            forall|model: Seq<char>|
                before.contains(model) ==> #[trigger] models@.dom().contains(model),
            forall|model: Seq<char>| #[trigger]
                models@.dom().contains(model) ==> before.contains(model) || map_names(
                    map@,
                    model,
                    keys,
                ),
            forall|j: int|
                0 <= j < i ==> models@.dom().contains(map@[#[trigger] order[j]].model) && (keys
                    ==> models@.dom().contains(order[j])),
        decreases len - i,
    {
        let (key, target) = map.entry(i);
        models.insert(target.model.clone(), ());
        if keys {
            models.insert(key.to_owned(), ());
        }
        i += 1;
    }
    proof {
        assert forall|model: Seq<char>| map_names(map@, model, keys) implies #[trigger]
            models@.dom().contains(model) by {
            if keys && map@.contains_key(model) {
                assert(order.to_set().contains(model));
                let j = choose|j: int| 0 <= j < order.len() && order[j] == model;
                assert(models@.dom().contains(order[j]));
            } else {
                let key = choose|key: Seq<char>|
                    map@.contains_key(key) && (#[trigger] map@[key]).model == model;
                assert(order.to_set().contains(key));
                let j = choose|j: int| 0 <= j < order.len() && order[j] == key;
                assert(models@.dom().contains(map@[order[j]].model));
            }
        }
    }
}

/// An identifier of a Composer model is `composer-` with anything behind it.
pub proof fn law_composer_models_are_told_by_their_beginning(model: Seq<char>)
    ensures
        is_composer(model) <==> exists|rest: Seq<char>| #[trigger] ("composer-"@ + rest) == model,
{
    crate::text_laws::law_prefix_is_what_a_text_begins_with(model, "composer-"@);
}

/// A subagent that no rule covers gets the model that it asks for, and nothing is decided about it.
pub proof fn law_uncovered_requests_stand(
    policy: PolicyView,
    kind: Seq<char>,
    requested: Seq<char>,
)
    requires
        !policy.types.contains_key(kind),
        !policy.mapping.contains_key(requested),
        policy.fallback is None,
    ensures
        policy.resolution(kind, requested).reason == ResolutionReason::Original,
        policy.resolution(kind, requested).target.model == requested,
        policy.resolution(kind, requested).target.effort is None,
        !policy.resolution(kind, requested).target.fast,
        PolicyView::empty().resolution(kind, requested).reason == ResolutionReason::Original,
        PolicyView::empty().resolution(kind, requested).target.model == requested,
{
}

/// A text is an identifier exactly where it is not empty and each of its characters is neither
/// white space nor a control character.
pub proof fn law_identifiers_are_unblank(value: Seq<char>)
    ensures
        identifier_error(value) is None <==> value.len() > 0 && forall|i: int|
            0 <= i < value.len() ==> !crate::text::is_space(#[trigger] value[i])
                && !crate::text::is_control(value[i]),
        identifier_error(value) matches Some(error) ==> error == ErrorView::Config(
            "invalid subagent policy identifier: "@ + crate::text::debug_text(value),
        ),
{
}

/// A text is an effort exactly where it is an identifier and not `none` in any case.
pub proof fn law_efforts_are_unblank_and_not_none(value: Seq<char>)
    ensures
        effort_error(value) is None <==> value.len() > 0 && !crate::text::same_ignoring_case(
            value,
            "none"@,
        ) && forall|i: int|
            0 <= i < value.len() ==> !crate::text::is_space(#[trigger] value[i])
                && !crate::text::is_control(value[i]),
        effort_error(value) matches Some(error) ==> error == ErrorView::Config(
            "invalid subagent policy effort: "@ + crate::text::debug_text(value),
        ),
{
}

/// A rule may have a target exactly where its model is an identifier other than `inherit` and it
/// has an effort, unless it is a Composer model, which has none.
pub proof fn law_targets_name_a_model_and_its_effort(target: TargetView)
    ensures
        target_error(target) is None <==> {
            &&& target.model != "inherit"@
            &&& target.model.len() > 0
            &&& forall|i: int|
                0 <= i < target.model.len() ==> !crate::text::is_space(#[trigger] target.model[i])
                    && !crate::text::is_control(target.model[i])
            &&& crate::text::has_prefix(target.model, "composer-"@) ==> target.effort is None
            &&& !crate::text::has_prefix(target.model, "composer-"@) ==> target.effort is Some
                && effort_error(target.effort->0) is None
        },
{
    law_identifiers_are_unblank(target.model);
}

/// Why a rule may not have a target.
pub proof fn law_refused_targets_say_why(target: TargetView)
    ensures
        target.model == "inherit"@ ==> target_error(target) == Some(
            ErrorView::Config(
                "subagent policy target model cannot be \"inherit\"; use Task.model inherit instead"@,
            ),
        ),
        target.model != "inherit"@ && (target.model.len() == 0 || crate::text::has_blank(
            target.model,
        )) ==> target_error(target) == Some(
            ErrorView::Config(
                "invalid subagent policy identifier: "@ + crate::text::debug_text(target.model),
            ),
        ),
        target.model.len() > 0 && !crate::text::has_blank(target.model) && crate::text::has_prefix(
            target.model,
            "composer-"@,
        ) && target.effort is Some ==> target_error(target) == Some(
            ErrorView::Config(
                "subagent policy Composer target "@ + target.model + " must not set effort"@,
            ),
        ),
        target.model != "inherit"@ && target.model.len() > 0 && !crate::text::has_blank(
            target.model,
        ) && !crate::text::has_prefix(target.model, "composer-"@) && target.effort is None
            ==> target_error(target) == Some(
            ErrorView::Config(
                "subagent policy non-Composer target "@ + target.model + " requires effort"@,
            ),
        ),
        target.model != "inherit"@ && target.model.len() > 0 && !crate::text::has_blank(
            target.model,
        ) && !crate::text::has_prefix(target.model, "composer-"@) && target.effort is Some
            ==> target_error(target) == effort_error(target.effort->0),
{
    reveal_strlit("inherit");
    reveal_strlit("composer-");
    assert("inherit"@.len() == 7);
    assert("composer-"@.len() == 9);
}

/// The targets of all rules are those of the fallback, of every type and of every requested model,
/// and no others.
pub proof fn law_configured_targets_are_those_of_the_rules(policy: PolicyView, target: TargetView)
    requires
        policy.types.dom().finite(),
        policy.mapping.dom().finite(),
    ensures
        policy.configured_targets().contains(target) <==> (policy.fallback == Some(target) || (
        exists|kind: Seq<char>|
            policy.types.contains_key(kind) && #[trigger] policy.types[kind] == target) || (exists|
            requested: Seq<char>,
        |
            policy.mapping.contains_key(requested) && #[trigger] policy.mapping[requested]
                == target)),
        policy.configured_targets().len() == (if policy.fallback is Some {
            1int
        } else {
            0int
        }) + policy.types.dom().len() + policy.mapping.dom().len(),
{
    let targets = policy.configured_targets();
    let fallback: Seq<TargetView> = match policy.fallback {
        Some(target) => seq![target],
        None => seq![],
    };
    lemma_values_are_those_of_the_map(policy.types, target);
    lemma_values_are_those_of_the_map(policy.mapping, target);
    let types = values_in_order(policy.types);
    let mapping = values_in_order(policy.mapping);
    if targets.contains(target) {
        let i = choose|i: int| 0 <= i < targets.len() && targets[i] == target;
        if i < fallback.len() {
            assert(fallback[i] == target);
        } else if i < fallback.len() + types.len() {
            assert(types[i - fallback.len()] == target);
            assert(types.contains(target));
        } else {
            assert(mapping[i - fallback.len() - types.len()] == target);
            assert(mapping.contains(target));
        }
    }
    if policy.fallback == Some(target) {
        assert(targets[0] == target);
    }
    if types.contains(target) {
        let i = choose|i: int| 0 <= i < types.len() && types[i] == target;
        assert(targets[fallback.len() + i] == target);
    }
    if mapping.contains(target) {
        let i = choose|i: int| 0 <= i < mapping.len() && mapping[i] == target;
        assert(targets[fallback.len() + types.len() + i] == target);
    }
}

proof fn lemma_values_are_those_of_the_map(map: Map<Seq<char>, TargetView>, target: TargetView)
    requires
        map.dom().finite(),
    ensures
        values_in_order(map).contains(target) <==> exists|key: Seq<char>|
            map.contains_key(key) && #[trigger] map[key] == target,
        values_in_order(map).len() == map.dom().len(),
{
    let order = crate::text_map::sorted_texts(map.dom());
    let values = values_in_order(map);
    crate::text_map::lemma_finite_set_is_sorted(map.dom());
    if values.contains(target) {
        let i = choose|i: int| 0 <= i < values.len() && values[i] == target;
        assert(order.to_set().contains(order[i]));
        assert(map.contains_key(order[i]) && map[order[i]] == target);
    }
    if exists|key: Seq<char>| map.contains_key(key) && #[trigger] map[key] == target {
        let key = choose|key: Seq<char>| map.contains_key(key) && #[trigger] map[key] == target;
        assert(order.to_set().contains(key));
        let i = choose|i: int| 0 <= i < order.len() && order[i] == key;
        assert(values[i] == target);
    }
    assert(order.no_duplicates()) by {
        assert forall|i: int, j: int|
            0 <= i < order.len() && 0 <= j < order.len() && i != j implies order[i] != order[j] by {
            if i < j {
                crate::text::lemma_precedes_asymmetric(order[i], order[j]);
            } else {
                crate::text::lemma_precedes_asymmetric(order[j], order[i]);
            }
        }
    }
    order.unique_seq_to_set();
}

/// A policy names `inherit`, the models of all its targets and the requested models that it maps,
/// and no others: the key of a type is no model.
pub proof fn law_policy_names_its_targets_and_mapped_models(
    policy: PolicyView,
    model: Seq<char>,
    kind: Seq<char>,
    requested: Seq<char>,
)
    ensures
        policy.references("inherit"@),
        policy.fallback is Some ==> policy.references(policy.fallback->0.model),
        policy.types.contains_key(kind) ==> policy.references(policy.types[kind].model),
        policy.mapping.contains_key(requested) ==> policy.references(requested)
            && policy.references(policy.mapping[requested].model),
        policy.references(model) && model != "inherit"@ && !policy.mapping.contains_key(model) ==> (
        policy.fallback is Some && policy.fallback->0.model == model) || (exists|key: Seq<char>|
            policy.types.contains_key(key) && (#[trigger] policy.types[key]).model == model) || (
        exists|key: Seq<char>|
            policy.mapping.contains_key(key) && (#[trigger] policy.mapping[key]).model == model),
{
}

/// A check passes exactly where there is no error, and fails with the one that there is.
pub proof fn law_checks_fail_with_their_error(value: (), error: Error, expected: Option<ErrorView>)
    ensures
        fails_with(Ok::<(), Error>(value), expected) <==> expected is None,
        fails_with(Err::<(), Error>(error), expected) <==> expected == Some(error@),
{
}

} // verus!
