//! Checks of a policy file before the policy comes into force.
use vstd::prelude::*;

use crate::error::{Error, ErrorView};
use crate::plugin::parse_model_id;
use crate::policy::{validate_configured_target, validate_identifier, ModelTarget, Policy};
use crate::text::{append, looks_like_model_hash, starts_with};
use crate::text_map::TextMap;

verus! {

/// Whether a YAML document is a mapping, or why the bytes are no YAML document.
pub uninterp spec fn yaml_shape(bytes: Seq<u8>) -> Result<bool, Seq<char>>;

/// The value of a check that fails with a text.
pub open spec fn shape_view(shape: Result<bool, String>) -> Result<bool, Seq<char>> {
    match shape {
        Ok(is_mapping) => Ok(is_mapping),
        Err(text) => Err(text@),
    }
}

/// `serde_yaml::from_slice` reads the bytes as a `serde_yaml::Value`, of which `is_mapping`
/// says whether it is a mapping; where the bytes cannot be read, the error is written out.
/// All of it is told by the bytes alone; which bytes are a document, and the wording of the
/// errors, are left unsaid.
#[verifier::external_body]
fn read_yaml(bytes: &[u8]) -> (r: Result<bool, String>)
    ensures
        shape_view(r) == yaml_shape(bytes@),
{
    match serde_yaml::from_slice::<serde_yaml::Value>(bytes) {
        Ok(value) => Ok(value.is_mapping()),
        Err(error) => Err(error.to_string()),
    }
}

/// Why a document of the given shape is no policy. An empty document is usually an
/// interrupted save and no request to clear the policy.
pub open spec fn document_error(shape: Result<bool, Seq<char>>) -> Option<ErrorView> {
    match shape {
        Err(text) => Some(ErrorView::Config("invalid subagent model policy: "@ + text)),
        Ok(false) => Some(
            ErrorView::Config(
                "subagent model policy must be a YAML mapping; use {} to clear it"@,
            ),
        ),
        Ok(true) => None,
    }
}

/// Refuses a document that is no mapping or no YAML.
pub fn check_document(shape: &Result<bool, String>) -> (r: Result<(), Error>)
    ensures
        crate::policy::fails_with(r, document_error(shape_view(*shape))),
{
    match shape {
        Err(text) => Err(
            Error::Config(append("invalid subagent model policy: ", text.as_str())),
        ),
        Ok(is_mapping) => {
            if *is_mapping {
                Ok(())
            } else {
                Err(
                    Error::Config(
                        "subagent model policy must be a YAML mapping; use {} to clear it".to_owned(),
                    ),
                )
            }
        },
    }
}

/// The first error that a list of texts gives as identifiers.
pub open spec fn first_identifier_error(values: Seq<Seq<char>>) -> Option<ErrorView>
    decreases values.len(),
{
    if values.len() == 0 {
        None
    } else if crate::policy::identifier_error(values[0]) is Some {
        crate::policy::identifier_error(values[0])
    } else {
        first_identifier_error(values.drop_first())
    }
}

/// The first error that a list of targets gives.
pub open spec fn first_target_error(targets: Seq<crate::policy::TargetView>) -> Option<ErrorView>
    decreases targets.len(),
{
    if targets.len() == 0 {
        None
    } else if crate::policy::target_error(targets[0]) is Some {
        crate::policy::target_error(targets[0])
    } else {
        first_target_error(targets.drop_first())
    }
}

/// The first error of the rules: a type that is no identifier, then a target that no rule may
/// have.
pub open spec fn rule_error(policy: crate::policy::PolicyView) -> Option<ErrorView> {
    let kinds = first_identifier_error(crate::text_map::sorted_texts(policy.types.dom()));
    if kinds is Some {
        kinds
    } else {
        first_target_error(policy.configured_targets())
    }
}

impl Policy {
    /// Refuses the first type that is no identifier, else the first target that no rule may
    /// have.
    pub fn check_rules(&self) -> (r: Result<(), Error>)
        ensures
            crate::policy::fails_with(r, rule_error(self@)),
            r is Ok ==> self@.is_valid(),
    {
        proof {
            crate::text_map::lemma_map_is_finite(self.types);
            crate::text_map::lemma_map_is_finite(self.mapping);
        }
        let len: usize = self.types.len();
        let ghost kinds = crate::text_map::sorted_texts(self.types@.dom());
        let mut i: usize = 0;
        proof {
            assert(kinds.skip(0) =~= kinds);
        }
        while i < len
            invariant
                i <= len == kinds.len(),
                kinds == crate::text_map::sorted_texts(self.types@.dom()),
                first_identifier_error(kinds) == first_identifier_error(kinds.skip(i as int)),
            decreases len - i,
        {
            let (kind, _) = self.types.entry(i);
            proof {
                assert(kinds.skip(i as int).drop_first() =~= kinds.skip(i + 1));
            }
            match validate_identifier(kind) {
                Ok(()) => {},
                Err(error) => {
                    return Err(error);
                },
            }
            i += 1;
        }
        let targets: Vec<&ModelTarget> = self.configured_targets();
        let ghost views = crate::policy::target_views(targets@);
        let mut j: usize = 0;
        proof {
            assert(views.skip(0) =~= views);
        }
        while j < targets.len()
            invariant
                j <= targets.len(),
                views == crate::policy::target_views(targets@),
                views == self@.configured_targets(),
                kinds == crate::text_map::sorted_texts(self@.types.dom()),
                first_identifier_error(kinds) is None,
                first_target_error(views) == first_target_error(views.skip(j as int)),
            decreases targets.len() - j,
        {
            proof {
                assert(views.skip(j as int).drop_first() =~= views.skip(j + 1));
            }
            match validate_configured_target(targets[j]) {
                Ok(()) => {},
                Err(error) => {
                    return Err(error);
                },
            }
            j += 1;
        }
        Ok(())
    }
}

/// What the check of a policy's models comes to.
#[derive(Debug, PartialEq, Eq)]
pub enum ReferenceStep {
    /// Every model may be named.
    Accepted,
    /// A model may not be named.
    Rejected(Error),
    /// The store must first say whether it holds a model of this hash.
    Lookup(String),
}

/// The value of a [`ReferenceStep`].
pub enum ReferenceStepView {
    Accepted,
    Rejected(ErrorView),
    Lookup(Seq<char>),
}

impl View for ReferenceStep {
    type V = ReferenceStepView;

    open spec fn view(&self) -> ReferenceStepView {
        match self {
            ReferenceStep::Accepted => ReferenceStepView::Accepted,
            ReferenceStep::Rejected(error) => ReferenceStepView::Rejected(error@),
            ReferenceStep::Lookup(model) => ReferenceStepView::Lookup(model@),
        }
    }
}

/// What the check of one model comes to, given what the store has answered: an identifier that
/// begins as a plugin's must be well formed, and a hash must be one of the store's.
pub open spec fn reference_step(
    model: Seq<char>,
    answers: Map<Seq<char>, bool>,
) -> ReferenceStepView {
    if crate::policy::identifier_error(model) is Some {
        ReferenceStepView::Rejected(crate::policy::identifier_error(model)->0)
    } else if crate::text::has_prefix(model, "plugin:"@) {
        if crate::plugin::is_plugin_model(model) {
            ReferenceStepView::Accepted
        } else {
            ReferenceStepView::Rejected(ErrorView::Config("invalid plugin model ID: "@ + model))
        }
    } else if crate::text::is_model_hash(model) {
        if !answers.contains_key(model) {
            ReferenceStepView::Lookup(model)
        } else if answers[model] {
            ReferenceStepView::Accepted
        } else {
            ReferenceStepView::Rejected(ErrorView::Config("unknown local model hash: "@ + model))
        }
    } else {
        ReferenceStepView::Accepted
    }
}

/// What the check of a list of models comes to: the first one that is not accepted decides.
pub open spec fn reference_steps(
    models: Seq<Seq<char>>,
    answers: Map<Seq<char>, bool>,
) -> ReferenceStepView
    decreases models.len(),
{
    if models.len() == 0 {
        ReferenceStepView::Accepted
    } else if reference_step(models[0], answers) !is Accepted {
        reference_step(models[0], answers)
    } else {
        reference_steps(models.drop_first(), answers)
    }
}

/// Checks one model that a policy names, given what the store has answered.
pub fn check_reference(model: &str, answers: &TextMap<bool>) -> (r: ReferenceStep)
    ensures
        r@ == reference_step(model@, answers@),
{
    match validate_identifier(model) {
        Ok(()) => {},
        Err(error) => {
            return ReferenceStep::Rejected(error);
        },
    }
    if starts_with(model, "plugin:") {
        if parse_model_id(model).is_none() {
            return ReferenceStep::Rejected(
                Error::Config(append("invalid plugin model ID: ", model)),
            );
        }
        return ReferenceStep::Accepted;
    }
    if looks_like_model_hash(model) {
        return match answers.get(model) {
            None => ReferenceStep::Lookup(model.to_owned()),
            Some(known) => {
                if *known {
                    ReferenceStep::Accepted
                } else {
                    ReferenceStep::Rejected(
                        Error::Config(append("unknown local model hash: ", model)),
                    )
                }
            },
        };
    }
    ReferenceStep::Accepted
}

impl Policy {
    /// Checks the models that the policy names, in lexicographic order, given what the store
    /// has answered so far. The caller asks the store about each hash that comes back, and
    /// checks again with the answer.
    pub fn check_references(&self, answers: &TextMap<bool>) -> (r: ReferenceStep)
        ensures
            r@ == reference_steps(self@.referenced_models(), answers@),
    {
        let models: TextMap<()> = self.referenced_models();
        let ghost order = self@.referenced_models();
        let len: usize = models.len();
        let mut i: usize = 0;
        proof {
            assert(order.skip(0) =~= order);
        }
        while i < len
            invariant
                i <= len == order.len(),
                order == crate::text_map::sorted_texts(models@.dom()),
                order == self@.referenced_models(),
                reference_steps(order, answers@) == reference_steps(order.skip(i as int), answers@),
            decreases len - i,
        {
            let (model, _) = models.entry(i);
            proof {
                assert(order.skip(i as int).drop_first() =~= order.skip(i + 1));
            }
            match check_reference(model, answers) {
                ReferenceStep::Accepted => {},
                step => {
                    return step;
                },
            }
            i += 1;
        }
        ReferenceStep::Accepted
    }

    /// Makes a policy of the bytes of its file. `decoded` is what the document holds as a
    /// policy, or why it holds none; its rules are checked here, the models that it names by
    /// [`Policy::check_references`].
    pub fn parse(bytes: &[u8], decoded: Result<Policy, String>) -> (r: Result<Policy, Error>)
        ensures
            crate::policy::fails_with(r, parse_error(yaml_shape(bytes@), decoded_view(decoded))),
            r matches Ok(policy) ==> decoded == Ok::<Policy, String>(policy)
                && policy@.is_valid(),
    {
        let shape: Result<bool, String> = read_yaml(bytes);
        Policy::parse_document(&shape, decoded)
    }

    /// Makes a policy of a document of the given shape, as [`Policy::parse`] does.
    pub fn parse_document(shape: &Result<bool, String>, decoded: Result<Policy, String>) -> (r:
        Result<Policy, Error>)
        ensures
            crate::policy::fails_with(r, parse_error(shape_view(*shape), decoded_view(decoded))),
            r matches Ok(policy) ==> decoded == Ok::<Policy, String>(policy)
                && policy@.is_valid(),
    {
        match check_document(shape) {
            Ok(()) => {},
            Err(error) => {
                return Err(error);
            },
        }
        match decoded {
            Err(text) => Err(
                Error::Config(append("invalid subagent model policy: ", text.as_str())),
            ),
            Ok(policy) => match policy.check_rules() {
                Ok(()) => Ok(policy),
                Err(error) => Err(error),
            },
        }
    }
}

/// The value of a decoded policy.
pub open spec fn decoded_view(decoded: Result<Policy, String>) -> Result<
    crate::policy::PolicyView,
    Seq<char>,
> {
    match decoded {
        Ok(policy) => Ok(policy@),
        Err(text) => Err(text@),
    }
}

/// Why a file is no policy: its document is none, or does not decode to one, or has a rule
/// that no policy may have.
pub open spec fn parse_error(
    shape: Result<bool, Seq<char>>,
    decoded: Result<crate::policy::PolicyView, Seq<char>>,
) -> Option<ErrorView> {
    if document_error(shape) is Some {
        document_error(shape)
    } else {
        match decoded {
            Err(text) => Some(ErrorView::Config("invalid subagent model policy: "@ + text)),
            Ok(policy) => rule_error(policy),
        }
    }
}

impl crate::policy::PolicyView {
    /// Whether the policy has finitely many rules, as every policy does that is held.
    pub open spec fn is_finite(self) -> bool {
        self.types.dom().finite() && self.mapping.dom().finite()
    }

    /// Whether the policy may come into force: its rules are accepted.
    pub open spec fn is_valid(self) -> bool {
        self.is_finite() && rule_error(self) is None
    }
}

/// The policy without rules may come into force.
pub proof fn lemma_empty_policy_is_valid()
    ensures
        crate::policy::PolicyView::empty().is_valid(),
{
    let policy = crate::policy::PolicyView::empty();
    let none = Seq::<Seq<char>>::empty();
    assert(none.to_set() =~= policy.types.dom());
    assert(none.to_set() =~= policy.mapping.dom());
    crate::text_map::lemma_sorted_texts(none);
    assert(policy.configured_targets() =~= seq![]);
}

proof fn lemma_no_target_error(targets: Seq<crate::policy::TargetView>, i: int)
    requires
        first_target_error(targets) is None,
        0 <= i < targets.len(),
    ensures
        crate::policy::target_error(targets[i]) is None,
    decreases targets.len(),
{
    if i > 0 {
        lemma_no_target_error(targets.drop_first(), i - 1);
    }
}

/// In a policy whose rules were accepted, whatever rule chooses a target: it never names
/// `inherit`, it has an effort where it is no Composer model, and none where it is one.
pub proof fn law_accepted_rules_choose_valid_targets(
    policy: crate::policy::PolicyView,
    kind: Seq<char>,
    requested: Seq<char>,
)
    requires
        policy.is_valid(),
        policy.resolution(kind, requested).reason != crate::policy::ResolutionReason::Original,
    ensures
        crate::policy::target_error(policy.resolution(kind, requested).target) is None,
        policy.resolution(kind, requested).target.model != "inherit"@,
        policy.resolution(kind, requested).target.effort is Some <==> !crate::policy::is_composer(
            policy.resolution(kind, requested).target.model,
        ),
{
    let target = policy.resolution(kind, requested).target;
    let targets = policy.configured_targets();
    let fallback: Seq<crate::policy::TargetView> = match policy.fallback {
        Some(target) => seq![target],
        None => seq![],
    };
    let types = crate::text_map::sorted_texts(policy.types.dom());
    let mapping = crate::text_map::sorted_texts(policy.mapping.dom());
    crate::text_map::lemma_finite_set_is_sorted(policy.types.dom());
    crate::text_map::lemma_finite_set_is_sorted(policy.mapping.dom());
    if policy.types.contains_key(kind) {
        assert(types.to_set().contains(kind));
        let i = choose|i: int| 0 <= i < types.len() && types[i] == kind;
        assert(targets[fallback.len() + i] == target);
        lemma_no_target_error(targets, fallback.len() + i);
    } else if policy.mapping.contains_key(requested) {
        assert(mapping.to_set().contains(requested));
        let i = choose|i: int| 0 <= i < mapping.len() && mapping[i] == requested;
        assert(targets[fallback.len() + types.len() + i] == target);
        lemma_no_target_error(targets, fallback.len() + types.len() + i);
    } else {
        assert(targets[0] == target);
        lemma_no_target_error(targets, 0);
    }
}

proof fn lemma_reference_accepted(
    models: Seq<Seq<char>>,
    answers: Map<Seq<char>, bool>,
    i: int,
)
    requires
        reference_steps(models, answers) is Accepted,
        0 <= i < models.len(),
    ensures
        reference_step(models[i], answers) is Accepted,
    decreases models.len(),
{
    if i > 0 {
        lemma_reference_accepted(models.drop_first(), answers, i - 1);
    }
}

proof fn lemma_references_are_finite(policy: crate::policy::PolicyView)
    requires
        policy.is_finite(),
    ensures
        Set::new(|model: Seq<char>| policy.references(model)).finite(),
{
    let named = Set::new(|model: Seq<char>| policy.references(model));
    let fallback: Set<Seq<char>> = match policy.fallback {
        Some(target) => set![target.model],
        None => set![],
    };
    let types = policy.types.dom().map(|kind: Seq<char>| policy.types[kind].model);
    let mapping = policy.mapping.dom().map(|model: Seq<char>| policy.mapping[model].model);
    policy.types.dom().lemma_map_finite(|kind: Seq<char>| policy.types[kind].model);
    policy.mapping.dom().lemma_map_finite(|model: Seq<char>| policy.mapping[model].model);
    let all = set!["inherit"@] + fallback + types + policy.mapping.dom() + mapping;
    assert forall|model: Seq<char>| named.contains(model) implies all.contains(model) by {
        if exists|kind: Seq<char>|
            policy.types.contains_key(kind) && (#[trigger] policy.types[kind]).model == model {
            let kind = choose|kind: Seq<char>|
                policy.types.contains_key(kind) && (#[trigger] policy.types[kind]).model == model;
            assert(policy.types.dom().contains(kind));
            assert(types.contains(model));
        }
        if exists|requested: Seq<char>|
            policy.mapping.contains_key(requested) && (#[trigger] policy.mapping[requested]).model
                == model {
            let requested = choose|requested: Seq<char>|
                policy.mapping.contains_key(requested)
                    && (#[trigger] policy.mapping[requested]).model == model;
            assert(policy.mapping.dom().contains(requested));
            assert(mapping.contains(model));
        }
    }
    assert(named.subset_of(all));
    assert(all.finite());
    vstd::set_lib::lemma_set_subset_finite(all, named);
}

/// A hash that the store is asked about is one that the policy names and that the store was not
/// asked about before, so the asking ends.
pub proof fn law_lookups_ask_something_new(models: Seq<Seq<char>>, answers: Map<Seq<char>, bool>)
    requires
        reference_steps(models, answers) is Lookup,
    ensures
        models.contains(reference_steps(models, answers)->Lookup_0),
        !answers.contains_key(reference_steps(models, answers)->Lookup_0),
        crate::text::is_model_hash(reference_steps(models, answers)->Lookup_0),
    decreases models.len(),
{
    if reference_step(models[0], answers) is Accepted {
        law_lookups_ask_something_new(models.drop_first(), answers);
        let model = reference_steps(models, answers)->Lookup_0;
        let i = choose|i: int| 0 <= i < models.drop_first().len() && models.drop_first()[i] == model;
        assert(models[i + 1] == model);
    } else {
        assert(models[0] == reference_steps(models, answers)->Lookup_0);
    }
}

/// In a policy whose models were accepted, every model that it names is an identifier, is well
/// formed where it begins as a plugin's, and is held by the store where it is a hash.
pub proof fn law_accepted_references_are_known(
    policy: crate::policy::PolicyView,
    answers: Map<Seq<char>, bool>,
    model: Seq<char>,
)
    requires
        policy.is_finite(),
        reference_steps(policy.referenced_models(), answers) is Accepted,
        policy.references(model),
    ensures
        crate::policy::identifier_error(model) is None,
        crate::text::has_prefix(model, "plugin:"@) ==> crate::plugin::is_plugin_model(model),
        crate::text::is_model_hash(model) && !crate::text::has_prefix(model, "plugin:"@)
            ==> answers.contains_key(model) && answers[model],
{
    let named = Set::new(|model: Seq<char>| policy.references(model));
    let order = policy.referenced_models();
    lemma_references_are_finite(policy);
    crate::text_map::lemma_finite_set_is_sorted(named);
    assert(named.contains(model));
    assert(order.to_set().contains(model));
    let i = choose|i: int| 0 <= i < order.len() && order[i] == model;
    lemma_reference_accepted(order, answers, i);
}

proof fn lemma_first_identifier_error(values: Seq<Seq<char>>, i: int)
    requires
        0 <= i <= values.len(),
        forall|j: int|
            0 <= j < i ==> crate::policy::identifier_error(#[trigger] values[j]) is None,
        i < values.len() ==> crate::policy::identifier_error(values[i]) is Some,
    ensures
        first_identifier_error(values) == if i < values.len() {
            crate::policy::identifier_error(values[i])
        } else {
            None
        },
    decreases i,
{
    if i > 0 {
        assert(crate::policy::identifier_error(values[0]) is None);
        let rest = values.drop_first();
        assert forall|j: int| 0 <= j < i - 1 implies crate::policy::identifier_error(
            #[trigger] rest[j],
        ) is None by {
            assert(rest[j] == values[j + 1]);
        }
        lemma_first_identifier_error(rest, i - 1);
    }
}

proof fn lemma_first_target_error(targets: Seq<crate::policy::TargetView>, i: int)
    requires
        0 <= i <= targets.len(),
        forall|j: int| 0 <= j < i ==> crate::policy::target_error(#[trigger] targets[j]) is None,
        i < targets.len() ==> crate::policy::target_error(targets[i]) is Some,
    ensures
        first_target_error(targets) == if i < targets.len() {
            crate::policy::target_error(targets[i])
        } else {
            None
        },
    decreases i,
{
    if i > 0 {
        assert(crate::policy::target_error(targets[0]) is None);
        let rest = targets.drop_first();
        assert forall|j: int| 0 <= j < i - 1 implies crate::policy::target_error(
            #[trigger] rest[j],
        ) is None by {
            assert(rest[j] == targets[j + 1]);
        }
        lemma_first_target_error(rest, i - 1);
    }
}

proof fn lemma_no_identifier_error(values: Seq<Seq<char>>, i: int)
    requires
        first_identifier_error(values) is None,
        0 <= i < values.len(),
    ensures
        crate::policy::identifier_error(values[i]) is None,
    decreases values.len(),
{
    if i > 0 {
        lemma_no_identifier_error(values.drop_first(), i - 1);
    }
}

/// A policy is accepted exactly where each of its types is an identifier, neither empty nor with
/// white space or a control character in it, and each target, of the fallback, of a type and of a
/// requested model, is one that a rule may have. How many rules there are of each kind, and what
/// they have to do with each other, does not matter.
pub proof fn law_rules_are_accepted_exactly_where_each_is(policy: crate::policy::PolicyView)
    requires
        policy.types.dom().finite(),
        policy.mapping.dom().finite(),
    ensures
        rule_error(policy) is None <==> {
            &&& forall|kind: Seq<char>| #[trigger]
                policy.types.contains_key(kind) ==> kind.len() > 0 && !crate::text::has_blank(kind)
            &&& policy.fallback is Some ==> crate::policy::target_error(policy.fallback->0) is None
            &&& forall|kind: Seq<char>| #[trigger]
                policy.types.contains_key(kind) ==> crate::policy::target_error(policy.types[kind])
                    is None
            &&& forall|requested: Seq<char>| #[trigger]
                policy.mapping.contains_key(requested) ==> crate::policy::target_error(
                    policy.mapping[requested],
                ) is None
        },
        policy.is_valid() <==> rule_error(policy) is None,
{
    let kinds = crate::text_map::sorted_texts(policy.types.dom());
    let targets = policy.configured_targets();
    crate::text_map::lemma_finite_set_is_sorted(policy.types.dom());
    if rule_error(policy) is None {
        assert forall|kind: Seq<char>| #[trigger] policy.types.contains_key(kind) implies kind.len()
            > 0 && !crate::text::has_blank(kind) && crate::policy::target_error(policy.types[kind])
            is None by {
            assert(kinds.to_set().contains(kind));
            let i = choose|i: int| 0 <= i < kinds.len() && kinds[i] == kind;
            lemma_no_identifier_error(kinds, i);
            lemma_accepted_target(policy, policy.types[kind]);
        }
        assert forall|requested: Seq<char>| #[trigger]
            policy.mapping.contains_key(requested) implies crate::policy::target_error(
            policy.mapping[requested],
        ) is None by {
            lemma_accepted_target(policy, policy.mapping[requested]);
        }
        if policy.fallback is Some {
            lemma_accepted_target(policy, policy.fallback->0);
        }
    }
    if (forall|kind: Seq<char>| #[trigger]
        policy.types.contains_key(kind) ==> kind.len() > 0 && !crate::text::has_blank(kind)) && (
    policy.fallback is Some ==> crate::policy::target_error(policy.fallback->0) is None) && (forall|
        kind: Seq<char>,
    | #[trigger]
        policy.types.contains_key(kind) ==> crate::policy::target_error(policy.types[kind]) is None)
        && (forall|requested: Seq<char>| #[trigger]
        policy.mapping.contains_key(requested) ==> crate::policy::target_error(
            policy.mapping[requested],
        ) is None) {
        assert forall|i: int| 0 <= i < kinds.len() implies crate::policy::identifier_error(
            #[trigger] kinds[i],
        ) is None by {
            assert(kinds.to_set().contains(kinds[i]));
            assert(policy.types.contains_key(kinds[i]));
        }
        lemma_first_identifier_error(kinds, kinds.len() as int);
        assert forall|i: int| 0 <= i < targets.len() implies crate::policy::target_error(
            #[trigger] targets[i],
        ) is None by {
            let target = targets[i];
            assert(targets.contains(target));
            crate::policy::law_configured_targets_are_those_of_the_rules(policy, target);
            if exists|kind: Seq<char>|
                policy.types.contains_key(kind) && #[trigger] policy.types[kind] == target {
                let kind = choose|kind: Seq<char>|
                    policy.types.contains_key(kind) && #[trigger] policy.types[kind] == target;
                assert(policy.types.contains_key(kind));
            }
            if exists|requested: Seq<char>|
                policy.mapping.contains_key(requested) && #[trigger] policy.mapping[requested]
                    == target {
                let requested = choose|requested: Seq<char>|
                    policy.mapping.contains_key(requested) && #[trigger] policy.mapping[requested]
                        == target;
                assert(policy.mapping.contains_key(requested));
            }
        }
        lemma_first_target_error(targets, targets.len() as int);
    }
}

proof fn lemma_accepted_target(
    policy: crate::policy::PolicyView,
    target: crate::policy::TargetView,
)
    requires
        policy.types.dom().finite(),
        policy.mapping.dom().finite(),
        rule_error(policy) is None,
        policy.fallback == Some(target) || (exists|kind: Seq<char>|
            policy.types.contains_key(kind) && #[trigger] policy.types[kind] == target) || (exists|
            requested: Seq<char>,
        |
            policy.mapping.contains_key(requested) && #[trigger] policy.mapping[requested]
                == target),
    ensures
        crate::policy::target_error(target) is None,
{
    let targets = policy.configured_targets();
    crate::policy::law_configured_targets_are_those_of_the_rules(policy, target);
    let i = choose|i: int| 0 <= i < targets.len() && targets[i] == target;
    lemma_no_target_error(targets, i);
}

/// A policy that is refused is refused for its first type that is no identifier, in lexicographic
/// order.
pub proof fn law_first_faulty_type_is_reported(
    policy: crate::policy::PolicyView,
    kind: Seq<char>,
)
    requires
        policy.types.dom().finite(),
        policy.mapping.dom().finite(),
        policy.types.contains_key(kind),
        kind.len() == 0 || crate::text::has_blank(kind),
        forall|other: Seq<char>| #[trigger]
            policy.types.contains_key(other) && crate::text::precedes(other, kind) ==> other.len()
                > 0 && !crate::text::has_blank(other),
    ensures
        rule_error(policy) == Some(
            ErrorView::Config(
                "invalid subagent policy identifier: "@ + crate::text::debug_text(kind),
            ),
        ),
{
    let kinds = crate::text_map::sorted_texts(policy.types.dom());
    crate::text_map::lemma_finite_set_is_sorted(policy.types.dom());
    assert(kinds.to_set().contains(kind));
    let i = choose|i: int| 0 <= i < kinds.len() && kinds[i] == kind;
    assert forall|j: int| 0 <= j < i implies crate::policy::identifier_error(
        #[trigger] kinds[j],
    ) is None by {
        assert(kinds.to_set().contains(kinds[j]));
        assert(policy.types.contains_key(kinds[j]));
        assert(crate::text::precedes(kinds[j], kinds[i]));
    }
    lemma_first_identifier_error(kinds, i);
}

/// A policy whose types are identifiers is refused for its first target that no rule may have: that
/// of the fallback, else that of the first type, else that of the first requested model, each in
/// lexicographic order.
pub proof fn law_first_faulty_target_is_reported(
    policy: crate::policy::PolicyView,
    key: Seq<char>,
)
    requires
        policy.types.dom().finite(),
        policy.mapping.dom().finite(),
        forall|kind: Seq<char>| #[trigger]
            policy.types.contains_key(kind) ==> kind.len() > 0 && !crate::text::has_blank(kind),
    ensures
        policy.fallback is Some && crate::policy::target_error(policy.fallback->0) is Some
            ==> rule_error(policy) == crate::policy::target_error(policy.fallback->0),
        (policy.fallback is Some ==> crate::policy::target_error(policy.fallback->0) is None)
            && policy.types.contains_key(key) && crate::policy::target_error(policy.types[key])
            is Some && (forall|other: Seq<char>| #[trigger]
            policy.types.contains_key(other) && crate::text::precedes(other, key)
                ==> crate::policy::target_error(policy.types[other]) is None) ==> rule_error(policy)
            == crate::policy::target_error(policy.types[key]),
        (policy.fallback is Some ==> crate::policy::target_error(policy.fallback->0) is None) && (
        forall|kind: Seq<char>| #[trigger]
            policy.types.contains_key(kind) ==> crate::policy::target_error(policy.types[kind])
                is None) && policy.mapping.contains_key(key) && crate::policy::target_error(
            policy.mapping[key],
        ) is Some && (forall|other: Seq<char>| #[trigger]
            policy.mapping.contains_key(other) && crate::text::precedes(other, key)
                ==> crate::policy::target_error(policy.mapping[other]) is None) ==> rule_error(
            policy,
        ) == crate::policy::target_error(policy.mapping[key]),
{
    let kinds = crate::text_map::sorted_texts(policy.types.dom());
    let models = crate::text_map::sorted_texts(policy.mapping.dom());
    let targets = policy.configured_targets();
    let fallback: Seq<crate::policy::TargetView> = match policy.fallback {
        Some(target) => seq![target],
        None => seq![],
    };
    crate::text_map::lemma_finite_set_is_sorted(policy.types.dom());
    crate::text_map::lemma_finite_set_is_sorted(policy.mapping.dom());
    assert forall|i: int| 0 <= i < kinds.len() implies policy.types.contains_key(
        #[trigger] kinds[i],
    ) by {
        assert(kinds.to_set().contains(kinds[i]));
    }
    assert forall|i: int| 0 <= i < models.len() implies policy.mapping.contains_key(
        #[trigger] models[i],
    ) by {
        assert(models.to_set().contains(models[i]));
    }
    assert forall|i: int| 0 <= i < kinds.len() implies targets[fallback.len() + i]
        == policy.types[#[trigger] kinds[i]] by {}
    assert forall|i: int| 0 <= i < models.len() implies targets[fallback.len() + kinds.len() + i]
        == policy.mapping[#[trigger] models[i]] by {}
    assert forall|i: int| 0 <= i < kinds.len() implies crate::policy::identifier_error(
        #[trigger] kinds[i],
    ) is None by {
        assert(policy.types.contains_key(kinds[i]));
    }
    lemma_first_identifier_error(kinds, kinds.len() as int);
    if policy.fallback is Some && crate::policy::target_error(policy.fallback->0) is Some {
        assert(targets[0] == policy.fallback->0);
        lemma_first_target_error(targets, 0);
    } else {
        if policy.fallback is Some {
            assert(targets[0] == policy.fallback->0);
        }
        if policy.types.contains_key(key) && crate::policy::target_error(policy.types[key]) is Some
            && (forall|other: Seq<char>| #[trigger]
            policy.types.contains_key(other) && crate::text::precedes(other, key)
                ==> crate::policy::target_error(policy.types[other]) is None) {
            assert(kinds.to_set().contains(key));
            let i = choose|i: int| 0 <= i < kinds.len() && kinds[i] == key;
            assert forall|j: int| 0 <= j < fallback.len() + i implies crate::policy::target_error(
                #[trigger] targets[j],
            ) is None by {
                if j >= fallback.len() {
                    let k = j - fallback.len();
                    assert(crate::text::precedes(kinds[k], kinds[i]));
                    assert(policy.types.contains_key(kinds[k]));
                    assert(targets[fallback.len() + k] == policy.types[kinds[k]]);
                }
            }
            assert(targets[fallback.len() + i] == policy.types[kinds[i]]);
            lemma_first_target_error(targets, fallback.len() + i);
        }
        if (forall|kind: Seq<char>| #[trigger]
            policy.types.contains_key(kind) ==> crate::policy::target_error(policy.types[kind])
                is None) && policy.mapping.contains_key(key) && crate::policy::target_error(
            policy.mapping[key],
        ) is Some && (forall|other: Seq<char>| #[trigger]
            policy.mapping.contains_key(other) && crate::text::precedes(other, key)
                ==> crate::policy::target_error(policy.mapping[other]) is None) {
            assert(models.to_set().contains(key));
            let i = choose|i: int| 0 <= i < models.len() && models[i] == key;
            let before = fallback.len() + kinds.len();
            assert forall|j: int| 0 <= j < before + i implies crate::policy::target_error(
                #[trigger] targets[j],
            ) is None by {
                if j >= before {
                    let k = j - before;
                    assert(crate::text::precedes(models[k], models[i]));
                    assert(policy.mapping.contains_key(models[k]));
                    assert(targets[before + k] == policy.mapping[models[k]]);
                } else if j >= fallback.len() {
                    let k = j - fallback.len();
                    assert(policy.types.contains_key(kinds[k]));
                    assert(targets[fallback.len() + k] == policy.types[kinds[k]]);
                }
            }
            assert(targets[before + i] == policy.mapping[models[i]]);
            lemma_first_target_error(targets, before + i);
        }
    }
}

/// A document is a policy exactly where it is a mapping, decodes to a policy, and each rule of that
/// is accepted. One that is not is refused for the first of these that does not hold.
pub proof fn law_documents_are_policies_or_say_why_not(
    shape: Result<bool, Seq<char>>,
    decoded: Result<crate::policy::PolicyView, Seq<char>>,
)
    ensures
        shape matches Err(text) ==> parse_error(shape, decoded) == Some(
            ErrorView::Config("invalid subagent model policy: "@ + text),
        ),
        shape == Ok::<bool, Seq<char>>(false) ==> parse_error(shape, decoded) == Some(
            ErrorView::Config(
                "subagent model policy must be a YAML mapping; use {} to clear it"@,
            ),
        ),
        shape == Ok::<bool, Seq<char>>(true) && decoded is Err ==> parse_error(shape, decoded)
            == Some(ErrorView::Config("invalid subagent model policy: "@ + decoded->Err_0)),
        shape == Ok::<bool, Seq<char>>(true) && decoded is Ok
            && decoded->Ok_0.types.dom().finite() && decoded->Ok_0.mapping.dom().finite() ==> (
        parse_error(shape, decoded) is None <==> {
            &&& forall|kind: Seq<char>| #[trigger]
                decoded->Ok_0.types.contains_key(kind) ==> kind.len() > 0
                    && !crate::text::has_blank(kind) && crate::policy::target_error(
                    decoded->Ok_0.types[kind],
                ) is None
            &&& decoded->Ok_0.fallback is Some ==> crate::policy::target_error(
                decoded->Ok_0.fallback->0,
            ) is None
            &&& forall|requested: Seq<char>| #[trigger]
                decoded->Ok_0.mapping.contains_key(requested) ==> crate::policy::target_error(
                    decoded->Ok_0.mapping[requested],
                ) is None
        }),
{
    if decoded is Ok && decoded->Ok_0.types.dom().finite() && decoded->Ok_0.mapping.dom().finite() {
        law_rules_are_accepted_exactly_where_each_is(decoded->Ok_0);
    }
}

/// What the check of one model comes to: no identifier is refused; one that begins as a plugin's is
/// accepted where it is well formed; a hash is accepted where the store holds it, and looked up
/// where that is not known; everything else is accepted.
pub proof fn law_models_are_checked_by_their_form(
    model: Seq<char>,
    answers: Map<Seq<char>, bool>,
)
    ensures
        model.len() == 0 || crate::text::has_blank(model) ==> reference_step(model, answers)
            == ReferenceStepView::Rejected(
            ErrorView::Config(
                "invalid subagent policy identifier: "@ + crate::text::debug_text(model),
            ),
        ),
        model.len() > 0 && !crate::text::has_blank(model) && crate::text::has_prefix(
            model,
            "plugin:"@,
        ) ==> reference_step(model, answers) == if crate::plugin::is_plugin_model(model) {
            ReferenceStepView::Accepted
        } else {
            ReferenceStepView::Rejected(ErrorView::Config("invalid plugin model ID: "@ + model))
        },
        model.len() > 0 && !crate::text::has_blank(model) && !crate::text::has_prefix(
            model,
            "plugin:"@,
        ) && crate::text::is_model_hash(model) ==> reference_step(model, answers) == (
        if !answers.contains_key(model) {
            ReferenceStepView::Lookup(model)
        } else if answers[model] {
            ReferenceStepView::Accepted
        } else {
            ReferenceStepView::Rejected(ErrorView::Config("unknown local model hash: "@ + model))
        }),
        model.len() > 0 && !crate::text::has_blank(model) && !crate::text::has_prefix(
            model,
            "plugin:"@,
        ) && !crate::text::is_model_hash(model) ==> reference_step(model, answers)
            == ReferenceStepView::Accepted,
{
}

proof fn lemma_first_reference(models: Seq<Seq<char>>, answers: Map<Seq<char>, bool>, i: int)
    requires
        0 <= i <= models.len(),
        forall|j: int| 0 <= j < i ==> reference_step(#[trigger] models[j], answers) is Accepted,
        i < models.len() ==> reference_step(models[i], answers) !is Accepted,
    ensures
        reference_steps(models, answers) == if i < models.len() {
            reference_step(models[i], answers)
        } else {
            ReferenceStepView::Accepted
        },
    decreases i,
{
    if i > 0 {
        assert(reference_step(models[0], answers) is Accepted);
        let rest = models.drop_first();
        assert forall|j: int| 0 <= j < i - 1 implies reference_step(
            #[trigger] rest[j],
            answers,
        ) is Accepted by {
            assert(rest[j] == models[j + 1]);
        }
        lemma_first_reference(rest, answers, i - 1);
    }
}

/// The models of a policy are accepted exactly where each model that it names is. Else the first
/// one that is not, in lexicographic order, decides what the check comes to.
pub proof fn law_first_model_that_is_not_accepted_decides(
    policy: crate::policy::PolicyView,
    answers: Map<Seq<char>, bool>,
    model: Seq<char>,
)
    requires
        policy.types.dom().finite(),
        policy.mapping.dom().finite(),
    ensures
        reference_steps(policy.referenced_models(), answers) is Accepted <==> forall|
            named: Seq<char>,
        | #[trigger]
            policy.references(named) ==> reference_step(named, answers) is Accepted,
        policy.references(model) && reference_step(model, answers) !is Accepted && (forall|
            named: Seq<char>,
        | #[trigger]
            policy.references(named) && crate::text::precedes(named, model) ==> reference_step(
                named,
                answers,
            ) is Accepted) ==> reference_steps(policy.referenced_models(), answers)
            == reference_step(model, answers),
{
    let named = Set::new(|model: Seq<char>| policy.references(model));
    let order = policy.referenced_models();
    lemma_references_are_finite(policy);
    crate::text_map::lemma_finite_set_is_sorted(named);
    assert forall|i: int| 0 <= i < order.len() implies policy.references(#[trigger] order[i]) by {
        assert(order.to_set().contains(order[i]));
        assert(named.contains(order[i]));
    }
    if reference_steps(order, answers) is Accepted {
        assert forall|model: Seq<char>| #[trigger] policy.references(model) implies reference_step(
            model,
            answers,
        ) is Accepted by {
            assert(named.contains(model));
            assert(order.to_set().contains(model));
            let i = choose|i: int| 0 <= i < order.len() && order[i] == model;
            lemma_reference_accepted(order, answers, i);
        }
    }
    if forall|model: Seq<char>| #[trigger]
        policy.references(model) ==> reference_step(model, answers) is Accepted {
        assert forall|j: int| 0 <= j < order.len() implies reference_step(
            #[trigger] order[j],
            answers,
        ) is Accepted by {
            assert(policy.references(order[j]));
        }
        lemma_first_reference(order, answers, order.len() as int);
    }
    if policy.references(model) && reference_step(model, answers) !is Accepted && (forall|
        named: Seq<char>,
    | #[trigger]
        policy.references(named) && crate::text::precedes(named, model) ==> reference_step(
            named,
            answers,
        ) is Accepted) {
        assert(named.contains(model));
        assert(order.to_set().contains(model));
        let i = choose|i: int| 0 <= i < order.len() && order[i] == model;
        assert forall|j: int| 0 <= j < i implies reference_step(
            #[trigger] order[j],
            answers,
        ) is Accepted by {
            assert(policy.references(order[j]));
            assert(crate::text::precedes(order[j], order[i]));
        }
        lemma_first_reference(order, answers, i);
    }
}

} // verus!
