//! Resolves the model selections of a client's request.
use vstd::prelude::*;

use crate::error::{Error, ErrorView};
use crate::text::{append, join, same_text, trim};
use crate::wire::{AgentRunRequest, ModelDetails, ModelParameterValue, RequestedModel, Selection};

verus! {

/// A type of subagent.
#[derive(Debug, PartialEq, Eq)]
pub enum SubagentKind {
    GeneralPurpose,
    Named(String),
}

/// The value of a [`SubagentKind`].
pub enum KindView {
    GeneralPurpose,
    Named(Seq<char>),
}

impl View for SubagentKind {
    type V = KindView;

    open spec fn view(&self) -> KindView {
        match self {
            SubagentKind::GeneralPurpose => KindView::GeneralPurpose,
            SubagentKind::Named(name) => KindView::Named(name@),
        }
    }
}

/// The type that a name stands for; names are exact and case-sensitive.
pub open spec fn kind_of(name: Seq<char>) -> KindView {
    if name == "generalPurpose"@ {
        KindView::GeneralPurpose
    } else {
        KindView::Named(name)
    }
}

impl SubagentKind {
    /// The type that a name stands for.
    pub fn from_type_name(value: &str) -> (r: Self)
        ensures
            r@ == kind_of(value@),
    {
        if same_text(value, "generalPurpose") {
            SubagentKind::GeneralPurpose
        } else {
            SubagentKind::Named(value.to_owned())
        }
    }

    /// Whether two types are the same.
    pub fn same(&self, other: &SubagentKind) -> (r: bool)
        ensures
            r == (self@ == other@),
    {
        match (self, other) {
            (SubagentKind::GeneralPurpose, SubagentKind::GeneralPurpose) => true,
            (SubagentKind::Named(a), SubagentKind::Named(b)) => same_text(a.as_str(), b.as_str()),
            _ => false,
        }
    }
}

/// The type of subagent that a name stands for.
pub fn subagent_kind(value: &str) -> (r: SubagentKind)
    ensures
        r@ == kind_of(value@),
{
    SubagentKind::from_type_name(value)
}

/// How soon a model is to answer.
#[derive(Clone, Copy, Debug, PartialEq, Eq, Structural)]
pub enum ModelLatency {
    Standard,
    Fast,
}

/// How a model is to reason.
#[derive(Debug, PartialEq, Eq)]
pub struct ReasoningSpec {
    pub enabled: bool,
    pub effort: Option<String>,
}

/// The value of a [`ReasoningSpec`].
pub struct ReasoningView {
    pub enabled: bool,
    pub effort: Option<Seq<char>>,
}

impl View for ReasoningSpec {
    type V = ReasoningView;

    open spec fn view(&self) -> ReasoningView {
        ReasoningView {
            enabled: self.enabled,
            effort: crate::policy::optional_text(self.effort),
        }
    }
}

/// A model and how it is to run.
#[derive(Debug, PartialEq, Eq)]
pub struct ModelSpec {
    pub model_id: String,
    pub display_name: Option<String>,
    pub reasoning: ReasoningSpec,
    pub latency: ModelLatency,
    pub max_output_tokens: Option<u64>,
    pub context_window_tokens: Option<u64>,
    pub supports_image_generation: bool,
}

/// The value of a [`ModelSpec`].
pub struct SpecView {
    pub model_id: Seq<char>,
    pub display_name: Option<Seq<char>>,
    pub reasoning: ReasoningView,
    pub latency: ModelLatency,
    pub max_output_tokens: Option<u64>,
    pub context_window_tokens: Option<u64>,
    pub supports_image_generation: bool,
}

impl View for ModelSpec {
    type V = SpecView;

    open spec fn view(&self) -> SpecView {
        SpecView {
            model_id: self.model_id@,
            display_name: crate::policy::optional_text(self.display_name),
            reasoning: self.reasoning@,
            latency: self.latency,
            max_output_tokens: self.max_output_tokens,
            context_window_tokens: self.context_window_tokens,
            supports_image_generation: self.supports_image_generation,
        }
    }
}

impl SpecView {
    /// A model that runs as it does when nothing is asked of it.
    pub open spec fn plain(
        model_id: Seq<char>,
        display_name: Option<Seq<char>>,
        enabled: bool,
    ) -> SpecView {
        SpecView {
            model_id,
            display_name,
            reasoning: ReasoningView { enabled, effort: None },
            latency: ModelLatency::Standard,
            max_output_tokens: None,
            context_window_tokens: None,
            supports_image_generation: false,
        }
    }
}

/// The same optional text in memory of its own.
pub fn copy_optional_text(text: &Option<String>) -> (r: Option<String>)
    ensures
        crate::policy::optional_text(r) == crate::policy::optional_text(*text),
{
    match text {
        Some(text) => Some(text.clone()),
        None => None,
    }
}

impl Clone for ModelSpec {
    fn clone(&self) -> (r: Self)
        ensures
            r@ == self@,
    {
        ModelSpec {
            model_id: self.model_id.clone(),
            display_name: copy_optional_text(&self.display_name),
            reasoning: ReasoningSpec {
                enabled: self.reasoning.enabled,
                effort: copy_optional_text(&self.reasoning.effort),
            },
            latency: self.latency,
            max_output_tokens: self.max_output_tokens,
            context_window_tokens: self.context_window_tokens,
            supports_image_generation: self.supports_image_generation,
        }
    }
}

impl ModelSpec {
    /// A model that runs as it does when nothing is asked of it.
    pub fn new(model_id: &str) -> (r: Self)
        ensures
            r@ == SpecView::plain(model_id@, None, false),
    {
        ModelSpec {
            model_id: model_id.to_owned(),
            display_name: None,
            reasoning: ReasoningSpec { enabled: false, effort: None },
            latency: ModelLatency::Standard,
            max_output_tokens: None,
            context_window_tokens: None,
            supports_image_generation: false,
        }
    }
}

/// The display name that the details of a model give.
pub open spec fn display_name(details: Option<crate::wire::DetailsView>) -> Option<Seq<char>> {
    if details is Some && details->0.display_name.len() > 0 {
        Some(details->0.display_name)
    } else {
        None
    }
}

/// Whether the details of a model speak of how it thinks.
pub open spec fn thinks(details: Option<crate::wire::DetailsView>) -> bool {
    details is Some && details->0.thinking_details
}

/// The value of optional details.
pub open spec fn optional_details(details: Option<&ModelDetails>) -> Option<
    crate::wire::DetailsView,
> {
    match details {
        Some(details) => Some(details@),
        None => None,
    }
}

/// The boolean that a parameter holds.
pub open spec fn bool_parameter(parameter: crate::wire::ParameterView) -> Result<bool, ErrorView> {
    if parameter.value == "true"@ {
        Ok(true)
    } else if parameter.value == "false"@ {
        Ok(false)
    } else {
        Err(
            ErrorView::Protocol(
                "invalid Cursor boolean model parameter "@ + parameter.id + "="@ + parameter.value,
            ),
        )
    }
}

/// The value of a result that may be an error.
pub open spec fn result_view<T: View>(result: Result<T, Error>) -> Result<
    <T as View>::V,
    ErrorView,
> {
    match result {
        Ok(value) => Ok(value@),
        Err(error) => Err(error@),
    }
}

/// The boolean that a parameter holds.
pub fn parse_bool(parameter: &ModelParameterValue) -> (r: Result<bool, Error>)
    ensures
        result_view(r) == bool_parameter(parameter@),
{
    if same_text(parameter.value.as_str(), "true") {
        Ok(true)
    } else if same_text(parameter.value.as_str(), "false") {
        Ok(false)
    } else {
        let mut text: String = append(
            "invalid Cursor boolean model parameter ",
            parameter.id.as_str(),
        );
        text.append("=");
        text.append(parameter.value.as_str());
        Err(Error::Protocol(text))
    }
}

/// The effort that the value of an effort parameter stands for: none where it is empty or
/// `none`.
pub open spec fn effort_of(value: Seq<char>) -> Option<Seq<char>> {
    let effort = crate::text::trimmed(value);
    if effort != "none"@ && effort.len() > 0 {
        Some(effort)
    } else {
        None
    }
}

/// Whether a parameter sets the effort; it goes by two names.
pub open spec fn sets_effort(id: Seq<char>) -> bool {
    id == "effort"@ || id == "reasoning"@
}

impl SpecView {
    /// The model with one parameter taken into account; a parameter of another name says
    /// nothing.
    pub open spec fn with_parameter(self, parameter: crate::wire::ParameterView) -> Result<
        SpecView,
        ErrorView,
    > {
        if sets_effort(parameter.id) {
            let effort = effort_of(parameter.value);
            Ok(
                SpecView {
                    reasoning: ReasoningView {
                        enabled: self.reasoning.enabled || effort is Some,
                        effort,
                    },
                    ..self
                },
            )
        } else if parameter.id == "thinking"@ {
            match bool_parameter(parameter) {
                Ok(enabled) => Ok(
                    SpecView {
                        reasoning: ReasoningView {
                            enabled: self.reasoning.enabled || enabled,
                            effort: self.reasoning.effort,
                        },
                        ..self
                    },
                ),
                Err(error) => Err(error),
            }
        } else if parameter.id == "fast"@ {
            match bool_parameter(parameter) {
                Ok(true) => Ok(SpecView { latency: ModelLatency::Fast, ..self }),
                Ok(false) => Ok(self),
                Err(error) => Err(error),
            }
        } else if parameter.id == "context"@ {
            match parameter.token_count {
                Some(count) => Ok(SpecView { context_window_tokens: Some(count), ..self }),
                None => Err(
                    ErrorView::Protocol(
                        "invalid Cursor context token count: "@ + parameter.value,
                    ),
                ),
            }
        } else {
            Ok(self)
        }
    }

    /// The model with parameters taken into account in order, up to the first that is wrong.
    pub open spec fn with_parameters(self, parameters: Seq<crate::wire::ParameterView>) -> Result<
        SpecView,
        ErrorView,
    >
        decreases parameters.len(),
    {
        if parameters.len() == 0 {
            Ok(self)
        } else {
            match self.with_parameter(parameters[0]) {
                Ok(spec) => spec.with_parameters(parameters.drop_first()),
                Err(error) => Err(error),
            }
        }
    }

    /// The model that a request for it and its details describe.
    pub open spec fn of_requested(
        model: crate::wire::RequestedView,
        details: Option<crate::wire::DetailsView>,
    ) -> Result<SpecView, ErrorView> {
        SpecView::plain(
            model.model_id,
            display_name(details),
            model.max_mode || thinks(details),
        ).with_parameters(model.parameters)
    }
}

/// Takes one parameter into account.
fn apply_parameter(spec: &mut ModelSpec, parameter: &ModelParameterValue) -> (r: Result<(), Error>)
    ensures
        match r {
            Ok(()) => old(spec)@.with_parameter(parameter@) == Ok::<SpecView, ErrorView>(
                final(spec)@,
            ),
            Err(error) => old(spec)@.with_parameter(parameter@) == Err::<SpecView, ErrorView>(
                error@,
            ),
        },
{
    let id: &str = parameter.id.as_str();
    if same_text(id, "effort") || same_text(id, "reasoning") {
        let effort: String = trim(parameter.value.as_str());
        let effort: Option<String> = if !same_text(effort.as_str(), "none")
            && !effort.as_str().is_empty() {
            Some(effort)
        } else {
            None
        };
        spec.reasoning.enabled = spec.reasoning.enabled || effort.is_some();
        spec.reasoning.effort = effort;
    } else if same_text(id, "thinking") {
        match parse_bool(parameter) {
            Ok(enabled) => {
                spec.reasoning.enabled = spec.reasoning.enabled || enabled;
            },
            Err(error) => {
                return Err(error);
            },
        }
    } else if same_text(id, "fast") {
        match parse_bool(parameter) {
            Ok(fast) => {
                if fast {
                    spec.latency = ModelLatency::Fast;
                }
            },
            Err(error) => {
                return Err(error);
            },
        }
    } else if same_text(id, "context") {
        match parameter.token_count {
            Some(count) => {
                spec.context_window_tokens = Some(count);
            },
            None => {
                return Err(
                    Error::Protocol(
                        append("invalid Cursor context token count: ", parameter.value.as_str()),
                    ),
                );
            },
        }
    }
    Ok(())
}

/// The display name that the details of a model give.
fn name_of(details: Option<&ModelDetails>) -> (r: Option<String>)
    ensures
        crate::policy::optional_text(r) == display_name(optional_details(details)),
{
    match details {
        Some(details) => {
            if details.display_name.as_str().is_empty() {
                None
            } else {
                Some(details.display_name.clone())
            }
        },
        None => None,
    }
}

/// The model that a request for it and its details describe. Parameters of unknown names are
/// passed over.
pub fn from_requested(model: &RequestedModel, details: Option<&ModelDetails>) -> (r: Result<
    ModelSpec,
    Error,
>)
    ensures
        result_view(r) == SpecView::of_requested(model@, optional_details(details)),
{
    let thinking: bool = match details {
        Some(details) => details.thinking_details,
        None => false,
    };
    let mut spec: ModelSpec = ModelSpec::new(model.model_id.as_str());
    spec.display_name = name_of(details);
    spec.reasoning.enabled = model.max_mode || thinking;
    let ghost parameters = model@.parameters;
    let ghost whole = spec@.with_parameters(parameters);
    let mut i: usize = 0;
    proof {
        assert(parameters.skip(0) =~= parameters);
    }
    while i < model.parameters.len()
        invariant
            i <= model.parameters.len(),
            parameters == crate::wire::parameter_views(model.parameters@),
            whole == SpecView::of_requested(model@, optional_details(details)),
            whole == spec@.with_parameters(parameters.skip(i as int)),
        decreases model.parameters.len() - i,
    {
        proof {
            assert(parameters.skip(i as int).drop_first() =~= parameters.skip(i + 1));
        }
        match apply_parameter(&mut spec, &model.parameters[i]) {
            Ok(()) => {},
            Err(error) => {
                return Err(error);
            },
        }
        i += 1;
    }
    Ok(spec)
}

/// The model that a request selects, by the requested model or else by its details.
pub open spec fn requested_spec(request: crate::wire::RequestView) -> Result<SpecView, ErrorView> {
    match request.requested_model {
        Some(requested) => SpecView::of_requested(requested, request.model_details),
        None => match request.model_id() {
            Some(model) => Ok(
                SpecView::plain(
                    model,
                    display_name(request.model_details),
                    thinks(request.model_details),
                ),
            ),
            None => Err(ErrorView::Protocol("Cursor Run does not select a model"@)),
        },
    }
}

/// The model that a request selects, by the requested model or else by its details.
pub fn requested_model(request: &AgentRunRequest) -> (r: Result<ModelSpec, Error>)
    ensures
        result_view(r) == requested_spec(request@),
{
    let details: Option<&ModelDetails> = request.model_details.as_ref();
    if let Some(requested) = &request.requested_model {
        return from_requested(requested, details);
    }
    match request.model_id() {
        Some(model) => {
            let mut spec: ModelSpec = ModelSpec::new(model);
            spec.display_name = name_of(details);
            spec.reasoning.enabled = match details {
                Some(details) => details.thinking_details,
                None => false,
            };
            Ok(spec)
        },
        None => Err(Error::Protocol("Cursor Run does not select a model".to_owned())),
    }
}

/// What a request chooses for one type of subagent.
#[derive(Debug, PartialEq, Eq)]
pub enum SubagentModelOverride {
    Inherit,
    Disabled,
    Explicit(ModelSpec),
}

/// The value of a [`SubagentModelOverride`].
pub enum ChoiceView {
    Inherit,
    Disabled,
    Explicit(SpecView),
}

impl View for SubagentModelOverride {
    type V = ChoiceView;

    open spec fn view(&self) -> ChoiceView {
        match self {
            SubagentModelOverride::Inherit => ChoiceView::Inherit,
            SubagentModelOverride::Disabled => ChoiceView::Disabled,
            SubagentModelOverride::Explicit(model) => ChoiceView::Explicit(model@),
        }
    }
}

/// The choice that one selection stands for. The model `default` means to inherit.
pub open spec fn choice_of(value: crate::wire::OverrideView) -> Result<ChoiceView, ErrorView> {
    match value.selection {
        Some(crate::wire::SelectionView::Model(model)) => if model.model_id == "default"@ {
            Ok(ChoiceView::Inherit)
        } else {
            match SpecView::of_requested(model, None) {
                Ok(spec) => Ok(ChoiceView::Explicit(spec)),
                Err(error) => Err(error),
            }
        },
        Some(crate::wire::SelectionView::Inherit(true)) => Ok(ChoiceView::Inherit),
        Some(crate::wire::SelectionView::Disabled(true)) => Ok(ChoiceView::Disabled),
        _ => Err(
            ErrorView::Protocol(
                "Cursor subagent model override "@ + value.subagent_type
                    + " has no active selection"@,
            ),
        ),
    }
}

/// The types and choices that a list of selections stands for, or the first error.
pub open spec fn choices_of(values: Seq<crate::wire::OverrideView>) -> Result<
    Seq<(KindView, ChoiceView)>,
    ErrorView,
>
    decreases values.len(),
{
    if values.len() == 0 {
        Ok(seq![])
    } else {
        match choices_of(values.drop_last()) {
            Err(error) => Err(error),
            Ok(choices) => match choice_of(values.last()) {
                Err(error) => Err(error),
                Ok(choice) => Ok(choices.push((kind_of(values.last().subagent_type), choice))),
            },
        }
    }
}

/// The values of a list of types and choices.
pub open spec fn choice_views(choices: Seq<(SubagentKind, SubagentModelOverride)>) -> Seq<
    (KindView, ChoiceView),
> {
    Seq::new(choices.len(), |i: int| (choices[i].0@, choices[i].1@))
}

/// The choice that one selection stands for.
fn choose_override(value: &crate::wire::SubagentModelOverride) -> (r: Result<
    SubagentModelOverride,
    Error,
>)
    ensures
        result_view(r) == choice_of(value@),
{
    match &value.selection {
        Some(Selection::Model(model)) => {
            if same_text(model.model_id.as_str(), "default") {
                Ok(SubagentModelOverride::Inherit)
            } else {
                match from_requested(model, None) {
                    Ok(spec) => Ok(SubagentModelOverride::Explicit(spec)),
                    Err(error) => Err(error),
                }
            }
        },
        Some(Selection::Inherit(true)) => Ok(SubagentModelOverride::Inherit),
        Some(Selection::Disabled(true)) => Ok(SubagentModelOverride::Disabled),
        _ => Err(
            Error::Protocol(
                join(
                    "Cursor subagent model override ",
                    value.subagent_type.as_str(),
                    " has no active selection",
                ),
            ),
        ),
    }
}

proof fn lemma_choices_error_stays(values: Seq<crate::wire::OverrideView>, i: int)
    requires
        0 <= i <= values.len(),
        choices_of(values.take(i)) is Err,
    ensures
        choices_of(values) == choices_of(values.take(i)),
    decreases values.len() - i,
{
    if i == values.len() {
        assert(values.take(i) =~= values);
    } else {
        assert(values.take(i + 1).drop_last() =~= values.take(i));
        lemma_choices_error_stays(values, i + 1);
    }
}

/// The types and choices of a request's selections, or the first error.
pub fn overrides(request: &AgentRunRequest) -> (r: Result<
    Vec<(SubagentKind, SubagentModelOverride)>,
    Error,
>)
    ensures
        match r {
            Ok(choices) => choices_of(request@.subagent_model_overrides) == Ok::<
                Seq<(KindView, ChoiceView)>,
                ErrorView,
            >(choice_views(choices@)),
            Err(error) => choices_of(request@.subagent_model_overrides) == Err::<
                Seq<(KindView, ChoiceView)>,
                ErrorView,
            >(error@),
        },
{
    let ghost views = request@.subagent_model_overrides;
    let mut choices: Vec<(SubagentKind, SubagentModelOverride)> = Vec::new();
    let mut i: usize = 0;
    proof {
        assert(choice_views(choices@) =~= seq![]);
    }
    while i < request.subagent_model_overrides.len()
        invariant
            i <= request.subagent_model_overrides.len(),
            views == crate::wire::override_views(request.subagent_model_overrides@),
            views == request@.subagent_model_overrides,
            choices_of(views.take(i as int)) == Ok::<Seq<(KindView, ChoiceView)>, ErrorView>(
                choice_views(choices@),
            ),
        decreases request.subagent_model_overrides.len() - i,
    {
        let value = &request.subagent_model_overrides[i];
        proof {
            assert(views.take(i + 1).drop_last() =~= views.take(i as int));
            assert(views.take(i + 1).last() == value@);
        }
        match choose_override(value) {
            Ok(choice) => {
                let kind: SubagentKind = subagent_kind(value.subagent_type.as_str());
                let ghost held = choice_views(choices@);
                choices.push((kind, choice));
                proof {
                    assert(choice_views(choices@) =~= held.push((kind@, choice@)));
                }
            },
            Err(error) => {
                proof {
                    lemma_choices_error_stays(views, i + 1);
                }
                return Err(error);
            },
        }
        i += 1;
    }
    proof {
        assert(views.take(i as int) =~= views);
    }
    Ok(choices)
}

/// The first choice for a type of subagent.
pub open spec fn choice_for(choices: Seq<(KindView, ChoiceView)>, kind: KindView) -> Option<
    ChoiceView,
>
    decreases choices.len(),
{
    if choices.len() == 0 {
        None
    } else if choices[0].0 == kind {
        Some(choices[0].1)
    } else {
        choice_for(choices.drop_first(), kind)
    }
}

/// The value of an optional choice.
pub open spec fn optional_choice(choice: Option<&SubagentModelOverride>) -> Option<ChoiceView> {
    match choice {
        Some(choice) => Some(choice@),
        None => None,
    }
}

/// The first choice for a type of subagent.
pub fn override_for<'a>(
    overrides: &'a Vec<(SubagentKind, SubagentModelOverride)>,
    kind: &SubagentKind,
) -> (r: Option<&'a SubagentModelOverride>)
    ensures
        optional_choice(r) == choice_for(choice_views(overrides@), kind@),
{
    let ghost views = choice_views(overrides@);
    let mut i: usize = 0;
    proof {
        assert(views.skip(0) =~= views);
    }
    while i < overrides.len()
        invariant
            i <= overrides.len(),
            views == choice_views(overrides@),
            choice_for(views, kind@) == choice_for(views.skip(i as int), kind@),
        decreases overrides.len() - i,
    {
        proof {
            assert(views.skip(i as int).drop_first() =~= views.skip(i + 1));
        }
        if overrides[i].0.same(kind) {
            return Some(&overrides[i].1);
        }
        i += 1;
    }
    None
}

/// The model that a request explicitly chooses for the subagent that it runs.
pub open spec fn hijack_spec(request: crate::wire::RequestView) -> Result<
    Option<SpecView>,
    ErrorView,
> {
    match request.kind() {
        None => Ok(None),
        Some(kind) => match choices_of(request.subagent_model_overrides) {
            Err(error) => Err(error),
            Ok(choices) => match choice_for(choices, kind_of(kind)) {
                Some(ChoiceView::Explicit(model)) => Ok(Some(model)),
                _ => Ok(None),
            },
        },
    }
}

/// The value of a result that holds an optional model or an error.
pub open spec fn optional_spec(result: Result<Option<ModelSpec>, Error>) -> Result<
    Option<SpecView>,
    ErrorView,
> {
    match result {
        Ok(Some(model)) => Ok(Some(model@)),
        Ok(None) => Ok(None),
        Err(error) => Err(error@),
    }
}

/// The model that a request explicitly chooses for the subagent that it runs; there is none for
/// a primary agent. Whether that model is served locally is for the caller to find out.
pub fn local_subagent_hijack_model(request: &AgentRunRequest) -> (r: Result<
    Option<ModelSpec>,
    Error,
>)
    ensures
        optional_spec(r) == hijack_spec(request@),
{
    let kind: SubagentKind = match request.kind() {
        Some(kind) => subagent_kind(kind),
        None => {
            return Ok(None);
        },
    };
    match overrides(request) {
        Err(error) => Err(error),
        Ok(overrides) => match override_for(&overrides, &kind) {
            Some(SubagentModelOverride::Explicit(model)) => Ok(Some(model.clone())),
            _ => Ok(None),
        },
    }
}

/// Whether a parameter can be read: one that says yes or no holds `true` or `false`, and one that
/// counts tokens holds a count. Every other parameter can be.
pub open spec fn can_be_read(parameter: crate::wire::ParameterView) -> bool {
    &&& parameter.id == "thinking"@ || parameter.id == "fast"@ ==> parameter.value == "true"@
        || parameter.value == "false"@
    &&& parameter.id == "context"@ ==> parameter.token_count is Some
}

/// The names of the parameters that are read are different ones.
proof fn lemma_parameter_names()
    ensures
        "thinking"@ != "effort"@,
        "thinking"@ != "reasoning"@,
        "thinking"@ != "fast"@,
        "thinking"@ != "context"@,
        "fast"@ != "effort"@,
        "fast"@ != "reasoning"@,
        "fast"@ != "context"@,
        "context"@ != "effort"@,
        "context"@ != "reasoning"@,
        "effort"@ != "reasoning"@,
        "true"@ != "false"@,
{
    reveal_strlit("thinking");
    reveal_strlit("effort");
    reveal_strlit("reasoning");
    reveal_strlit("fast");
    reveal_strlit("context");
    reveal_strlit("true");
    reveal_strlit("false");
    assert("thinking"@.len() == 8);
    assert("effort"@.len() == 6);
    assert("reasoning"@.len() == 9);
    assert("fast"@.len() == 4);
    assert("context"@.len() == 7);
    assert("true"@.len() == 4);
    assert("false"@.len() == 5);
}

/// What one parameter that can be read does to a model.
proof fn lemma_parameter_read(spec: SpecView, parameter: crate::wire::ParameterView)
    requires
        can_be_read(parameter),
    ensures
        spec.with_parameter(parameter) matches Ok(after) && {
            &&& after.model_id == spec.model_id
            &&& after.display_name == spec.display_name
            &&& after.max_output_tokens == spec.max_output_tokens
            &&& after.supports_image_generation == spec.supports_image_generation
            &&& after.reasoning.enabled <==> spec.reasoning.enabled || (parameter.id == "thinking"@
                && parameter.value == "true"@) || ((parameter.id == "effort"@ || parameter.id
                == "reasoning"@) && crate::text::trimmed(parameter.value).len() > 0
                && crate::text::trimmed(parameter.value) != "none"@)
            &&& after.latency is Fast <==> spec.latency is Fast || (parameter.id == "fast"@
                && parameter.value == "true"@)
            &&& parameter.id != "context"@ ==> after.context_window_tokens
                == spec.context_window_tokens
            &&& parameter.id == "context"@ ==> after.context_window_tokens == parameter.token_count
            &&& parameter.id != "effort"@ && parameter.id != "reasoning"@ ==> after.reasoning.effort
                == spec.reasoning.effort
            &&& parameter.id == "effort"@ || parameter.id == "reasoning"@ ==> after.reasoning.effort
                == if crate::text::trimmed(parameter.value).len() > 0 && crate::text::trimmed(
                parameter.value,
            ) != "none"@ {
                Some(crate::text::trimmed(parameter.value))
            } else {
                None
            }
        },
{
    lemma_parameter_names();
}

proof fn lemma_parameters_read(spec: SpecView, parameters: Seq<crate::wire::ParameterView>)
    requires
        forall|i: int| 0 <= i < parameters.len() ==> can_be_read(#[trigger] parameters[i]),
    ensures
        spec.with_parameters(parameters) matches Ok(after) && {
            &&& after.model_id == spec.model_id
            &&& after.display_name == spec.display_name
            &&& after.max_output_tokens == spec.max_output_tokens
            &&& after.supports_image_generation == spec.supports_image_generation
            &&& after.reasoning.enabled <==> spec.reasoning.enabled || exists|i: int|
                0 <= i < parameters.len() && (((#[trigger] parameters[i]).id == "thinking"@
                    && parameters[i].value == "true"@) || ((parameters[i].id == "effort"@
                    || parameters[i].id == "reasoning"@) && crate::text::trimmed(
                    parameters[i].value,
                ).len() > 0 && crate::text::trimmed(parameters[i].value) != "none"@))
            &&& after.latency is Fast <==> spec.latency is Fast || exists|i: int|
                0 <= i < parameters.len() && (#[trigger] parameters[i]).id == "fast"@
                    && parameters[i].value == "true"@
        },
    decreases parameters.len(),
{
    if parameters.len() > 0 {
        let first = parameters[0];
        let rest = parameters.drop_first();
        assert(can_be_read(first));
        lemma_parameter_read(spec, first);
        let next = spec.with_parameter(first)->Ok_0;
        assert forall|i: int| 0 <= i < rest.len() implies can_be_read(#[trigger] rest[i]) by {
            assert(rest[i] == parameters[i + 1]);
        }
        lemma_parameters_read(next, rest);
        let after = spec.with_parameters(parameters)->Ok_0;
        assert(after == next.with_parameters(rest)->Ok_0);
        assert forall|i: int| 1 <= i < parameters.len() implies #[trigger] parameters[i] == rest[i
            - 1] by {}
        assert forall|i: int| 0 <= i < rest.len() implies #[trigger] rest[i] == parameters[i
            + 1] by {}
        if exists|i: int|
            0 <= i < parameters.len() && (((#[trigger] parameters[i]).id == "thinking"@
                && parameters[i].value == "true"@) || ((parameters[i].id == "effort"@
                || parameters[i].id == "reasoning"@) && crate::text::trimmed(
                parameters[i].value,
            ).len() > 0 && crate::text::trimmed(parameters[i].value) != "none"@)) {
            let i = choose|i: int|
                0 <= i < parameters.len() && (((#[trigger] parameters[i]).id == "thinking"@
                    && parameters[i].value == "true"@) || ((parameters[i].id == "effort"@
                    || parameters[i].id == "reasoning"@) && crate::text::trimmed(
                    parameters[i].value,
                ).len() > 0 && crate::text::trimmed(parameters[i].value) != "none"@));
            if i > 0 {
                assert(rest[i - 1] == parameters[i]);
            }
            assert(after.reasoning.enabled);
        }
        if exists|i: int|
            0 <= i < parameters.len() && (#[trigger] parameters[i]).id == "fast"@
                && parameters[i].value == "true"@ {
            let i = choose|i: int|
                0 <= i < parameters.len() && (#[trigger] parameters[i]).id == "fast"@
                    && parameters[i].value == "true"@;
            if i > 0 {
                assert(rest[i - 1] == parameters[i]);
            }
            assert(after.latency is Fast);
        }
    }
}

/// A request whose parameters can all be read is read. The model reasons exactly where it is asked
/// to: by its mode, by details that speak of thinking, by a parameter `thinking` that is `true`, or
/// by an effort, under either name, that is neither empty nor `none`. It answers fast exactly where
/// a parameter `fast` is `true`. Its name is the one that the details give, where they give one.
pub proof fn law_readable_requests_are_read(
    model: crate::wire::RequestedView,
    details: Option<crate::wire::DetailsView>,
)
    requires
        forall|i: int|
            0 <= i < model.parameters.len() ==> can_be_read(#[trigger] model.parameters[i]),
    ensures
        SpecView::of_requested(model, details) matches Ok(spec) && {
            &&& spec.model_id == model.model_id
            &&& spec.reasoning.enabled <==> model.max_mode || (details is Some
                && details->0.thinking_details) || exists|i: int|
                0 <= i < model.parameters.len() && (((#[trigger] model.parameters[i]).id
                    == "thinking"@ && model.parameters[i].value == "true"@) || ((
                model.parameters[i].id == "effort"@ || model.parameters[i].id == "reasoning"@)
                    && crate::text::trimmed(model.parameters[i].value).len() > 0
                    && crate::text::trimmed(model.parameters[i].value) != "none"@))
            &&& spec.latency is Fast <==> exists|i: int|
                0 <= i < model.parameters.len() && (#[trigger] model.parameters[i]).id == "fast"@
                    && model.parameters[i].value == "true"@
            &&& spec.display_name == if details is Some && details->0.display_name.len() > 0 {
                Some(details->0.display_name)
            } else {
                None
            }
            &&& spec.max_output_tokens is None
            &&& !spec.supports_image_generation
        },
{
    let plain = SpecView::plain(
        model.model_id,
        display_name(details),
        model.max_mode || thinks(details),
    );
    lemma_parameters_read(plain, model.parameters);
}

proof fn lemma_last_parameters_decide(
    spec: SpecView,
    parameters: Seq<crate::wire::ParameterView>,
    effort: int,
    context: int,
)
    requires
        forall|i: int| 0 <= i < parameters.len() ==> can_be_read(#[trigger] parameters[i]),
        -1 <= effort < parameters.len(),
        -1 <= context < parameters.len(),
        effort >= 0 ==> parameters[effort].id == "effort"@ || parameters[effort].id
            == "reasoning"@,
        context >= 0 ==> parameters[context].id == "context"@,
        forall|i: int|
            effort < i < parameters.len() ==> (#[trigger] parameters[i]).id != "effort"@
                && parameters[i].id != "reasoning"@,
        forall|i: int|
            context < i < parameters.len() ==> (#[trigger] parameters[i]).id != "context"@,
    ensures
        spec.with_parameters(parameters) matches Ok(after) && {
            &&& after.reasoning.effort == if effort < 0 {
                spec.reasoning.effort
            } else if crate::text::trimmed(parameters[effort].value).len() > 0
                && crate::text::trimmed(parameters[effort].value) != "none"@ {
                Some(crate::text::trimmed(parameters[effort].value))
            } else {
                None
            }
            &&& after.context_window_tokens == if context < 0 {
                spec.context_window_tokens
            } else {
                parameters[context].token_count
            }
        },
    decreases parameters.len(),
{
    if parameters.len() > 0 {
        let rest = parameters.drop_first();
        assert(can_be_read(parameters[0]));
        lemma_parameter_names();
        lemma_parameter_read(spec, parameters[0]);
        let next = spec.with_parameter(parameters[0])->Ok_0;
        assert forall|i: int| 0 <= i < rest.len() implies #[trigger] rest[i] == parameters[i
            + 1] by {}
        lemma_last_parameters_decide(
            next,
            rest,
            if effort > 0 {
                effort - 1
            } else {
                -1
            },
            if context > 0 {
                context - 1
            } else {
                -1
            },
        );
    }
}

/// The last parameter that sets the effort, under either name, decides it: the effort is its value
/// without white space around it, or none where that is empty or `none`. The last count of tokens
/// is the size of the context. Without such a parameter there is neither. (An index of -1 says that
/// there is none.)
pub proof fn law_last_parameter_decides(
    model: crate::wire::RequestedView,
    details: Option<crate::wire::DetailsView>,
    effort: int,
    context: int,
)
    requires
        forall|i: int|
            0 <= i < model.parameters.len() ==> can_be_read(#[trigger] model.parameters[i]),
        -1 <= effort < model.parameters.len(),
        -1 <= context < model.parameters.len(),
        effort >= 0 ==> model.parameters[effort].id == "effort"@ || model.parameters[effort].id
            == "reasoning"@,
        context >= 0 ==> model.parameters[context].id == "context"@,
        forall|i: int|
            effort < i < model.parameters.len() ==> (#[trigger] model.parameters[i]).id
                != "effort"@ && model.parameters[i].id != "reasoning"@,
        forall|i: int|
            context < i < model.parameters.len() ==> (#[trigger] model.parameters[i]).id
                != "context"@,
    ensures
        SpecView::of_requested(model, details) matches Ok(spec) && {
            &&& spec.reasoning.effort == if effort >= 0 && crate::text::trimmed(
                model.parameters[effort].value,
            ).len() > 0 && crate::text::trimmed(model.parameters[effort].value) != "none"@ {
                Some(crate::text::trimmed(model.parameters[effort].value))
            } else {
                None
            }
            &&& spec.context_window_tokens == if context < 0 {
                None
            } else {
                model.parameters[context].token_count
            }
        },
{
    let plain = SpecView::plain(
        model.model_id,
        display_name(details),
        model.max_mode || thinks(details),
    );
    lemma_last_parameters_decide(plain, model.parameters, effort, context);
}

proof fn lemma_first_unreadable(
    spec: SpecView,
    parameters: Seq<crate::wire::ParameterView>,
    i: int,
)
    requires
        0 <= i < parameters.len(),
        !can_be_read(parameters[i]),
        forall|j: int| 0 <= j < i ==> can_be_read(#[trigger] parameters[j]),
    ensures
        spec.with_parameters(parameters) == Err::<SpecView, ErrorView>(
            ErrorView::Protocol(
                if parameters[i].id == "context"@ {
                    "invalid Cursor context token count: "@ + parameters[i].value
                } else {
                    "invalid Cursor boolean model parameter "@ + parameters[i].id + "="@
                        + parameters[i].value
                },
            ),
        ),
    decreases i,
{
    lemma_parameter_names();
    if i > 0 {
        let rest = parameters.drop_first();
        assert(can_be_read(parameters[0]));
        lemma_parameter_read(spec, parameters[0]);
        assert forall|j: int| 0 <= j < i - 1 implies can_be_read(#[trigger] rest[j]) by {
            assert(rest[j] == parameters[j + 1]);
        }
        lemma_first_unreadable(spec.with_parameter(parameters[0])->Ok_0, rest, i - 1);
    }
}

/// A request is refused for its first parameter that cannot be read.
pub proof fn law_first_unreadable_parameter_refuses(
    model: crate::wire::RequestedView,
    details: Option<crate::wire::DetailsView>,
    i: int,
)
    requires
        0 <= i < model.parameters.len(),
        !can_be_read(model.parameters[i]),
        forall|j: int| 0 <= j < i ==> can_be_read(#[trigger] model.parameters[j]),
    ensures
        SpecView::of_requested(model, details) == Err::<SpecView, ErrorView>(
            ErrorView::Protocol(
                if model.parameters[i].id == "context"@ {
                    "invalid Cursor context token count: "@ + model.parameters[i].value
                } else {
                    "invalid Cursor boolean model parameter "@ + model.parameters[i].id + "="@
                        + model.parameters[i].value
                },
            ),
        ),
{
    let plain = SpecView::plain(
        model.model_id,
        display_name(details),
        model.max_mode || thinks(details),
    );
    lemma_first_unreadable(plain, model.parameters, i);
}

/// The model that a request names itself goes before the one that its details name, which is used
/// as it is; a request that names none is refused.
pub proof fn law_request_selects_by_its_model_or_its_details(request: crate::wire::RequestView)
    ensures
        request.requested_model matches Some(requested) ==> requested_spec(request)
            == SpecView::of_requested(requested, request.model_details),
        request.requested_model is None && request.model_details is Some
            && request.model_details->0.model_id.len() > 0 ==> (requested_spec(request) matches Ok(
            spec,
        ) && {
            &&& spec.model_id == request.model_details->0.model_id
            &&& spec.display_name == if request.model_details->0.display_name.len() > 0 {
                Some(request.model_details->0.display_name)
            } else {
                None
            }
            &&& spec.reasoning.enabled == request.model_details->0.thinking_details
            &&& spec.reasoning.effort is None
            &&& spec.latency is Standard
            &&& spec.max_output_tokens is None
            &&& spec.context_window_tokens is None
            &&& !spec.supports_image_generation
        }),
        request.requested_model is None && (request.model_details is None
            || request.model_details->0.model_id.len() == 0) ==> requested_spec(request) == Err::<
            SpecView,
            ErrorView,
        >(ErrorView::Protocol("Cursor Run does not select a model"@)),
{
}

/// The type of general use has one name, and every other name is a type of its own.
pub proof fn law_types_are_told_by_their_names(name: Seq<char>, other: Seq<char>)
    ensures
        kind_of("generalPurpose"@) == KindView::GeneralPurpose,
        name != "generalPurpose"@ ==> kind_of(name) == KindView::Named(name),
        kind_of(name) == kind_of(other) <==> name == other,
{
}

/// What one selection of a client chooses. A switch that is off chooses nothing, and is refused.
pub proof fn law_choice_of_a_selection(value: crate::wire::OverrideView)
    ensures
        value.selection matches Some(crate::wire::SelectionView::Model(model)) ==> choice_of(value)
            == if model.model_id == "default"@ {
            Ok::<ChoiceView, ErrorView>(ChoiceView::Inherit)
        } else {
            match SpecView::of_requested(model, None) {
                Ok(spec) => Ok(ChoiceView::Explicit(spec)),
                Err(error) => Err(error),
            }
        },
        value.selection == Some(crate::wire::SelectionView::Inherit(true)) ==> choice_of(value)
            == Ok::<ChoiceView, ErrorView>(ChoiceView::Inherit),
        value.selection == Some(crate::wire::SelectionView::Disabled(true)) ==> choice_of(value)
            == Ok::<ChoiceView, ErrorView>(ChoiceView::Disabled),
        value.selection is None || value.selection == Some(
            crate::wire::SelectionView::Inherit(false),
        ) || value.selection == Some(crate::wire::SelectionView::Disabled(false)) ==> choice_of(
            value,
        ) == Err::<ChoiceView, ErrorView>(
            ErrorView::Protocol(
                "Cursor subagent model override "@ + value.subagent_type
                    + " has no active selection"@,
            ),
        ),
{
}

/// A list of selections gives the choice of each of them, in order, under its type, or the error
/// of the first one that is refused. (An index as large as the list says that none is.)
pub proof fn law_choices_are_those_of_the_selections(
    values: Seq<crate::wire::OverrideView>,
    i: int,
)
    requires
        0 <= i <= values.len(),
        forall|j: int| 0 <= j < i ==> choice_of(#[trigger] values[j]) is Ok,
        i < values.len() ==> choice_of(values[i]) is Err,
    ensures
        i == values.len() ==> (choices_of(values) matches Ok(choices) && choices.len()
            == values.len() && forall|j: int|
            0 <= j < values.len() ==> #[trigger] choices[j] == (
                kind_of(values[j].subagent_type),
                choice_of(values[j])->Ok_0,
            )),
        i < values.len() ==> choices_of(values) == Err::<Seq<(KindView, ChoiceView)>, ErrorView>(
            choice_of(values[i])->Err_0,
        ),
    decreases values.len(),
{
    if values.len() > 0 {
        let front = values.drop_last();
        if i == values.len() {
            assert(choice_of(values[values.len() - 1]) is Ok);
        }
        assert forall|j: int| 0 <= j < front.len() implies #[trigger] front[j] == values[j] by {}
        law_choices_are_those_of_the_selections(
            front,
            if i == values.len() {
                i - 1
            } else {
                i
            },
        );
    }
}

/// The choice for a type is the first one under the type. (An index as large as the list says that
/// there is none.)
pub proof fn law_first_choice_is_taken(choices: Seq<(KindView, ChoiceView)>, kind: KindView, i: int)
    requires
        0 <= i <= choices.len(),
        forall|j: int| 0 <= j < i ==> (#[trigger] choices[j]).0 != kind,
        i < choices.len() ==> choices[i].0 == kind,
    ensures
        choice_for(choices, kind) == if i < choices.len() {
            Some(choices[i].1)
        } else {
            None
        },
    decreases i,
{
    if i > 0 {
        assert(choices[0].0 != kind);
        let rest = choices.drop_first();
        assert forall|j: int| 0 <= j < i - 1 implies (#[trigger] rest[j]).0 != kind by {
            assert(rest[j] == choices[j + 1]);
        }
        law_first_choice_is_taken(rest, kind, i - 1);
    }
}

/// A subagent explicitly chooses a model exactly where the first selection for its type is of one
/// that is not `default`. (An index as large as the list says that there is none.)
pub proof fn law_first_selection_of_the_type_is_explicit(request: crate::wire::RequestView, i: int)
    requires
        request.subagent_type_name is Some,
        request.subagent_type_name->0.len() > 0,
        forall|j: int|
            0 <= j < request.subagent_model_overrides.len() ==> choice_of(
                #[trigger] request.subagent_model_overrides[j],
            ) is Ok,
        0 <= i <= request.subagent_model_overrides.len(),
        forall|j: int|
            0 <= j < i ==> (#[trigger] request.subagent_model_overrides[j]).subagent_type
                != request.subagent_type_name->0,
        i < request.subagent_model_overrides.len()
            ==> request.subagent_model_overrides[i].subagent_type == request.subagent_type_name->0,
    ensures
        i < request.subagent_model_overrides.len() && request.subagent_model_overrides[i].selection
            is Some && request.subagent_model_overrides[i].selection->0 is Model
            && request.subagent_model_overrides[i].selection->0->Model_0.model_id != "default"@
            ==> (hijack_spec(request) matches Ok(Some(spec)) && SpecView::of_requested(
            request.subagent_model_overrides[i].selection->0->Model_0,
            None,
        ) == Ok::<SpecView, ErrorView>(spec)),
        !(i < request.subagent_model_overrides.len()
            && request.subagent_model_overrides[i].selection is Some
            && request.subagent_model_overrides[i].selection->0 is Model
            && request.subagent_model_overrides[i].selection->0->Model_0.model_id != "default"@)
            ==> hijack_spec(request) == Ok::<Option<SpecView>, ErrorView>(None),
{
    let values = request.subagent_model_overrides;
    let kind = kind_of(request.subagent_type_name->0);
    law_choices_are_those_of_the_selections(values, values.len() as int);
    let choices = choices_of(values)->Ok_0;
    assert forall|j: int| 0 <= j < i implies (#[trigger] choices[j]).0 != kind by {
        assert(values[j].subagent_type != request.subagent_type_name->0);
    }
    law_first_choice_is_taken(choices, kind, i);
    if i < values.len() {
        assert(choice_of(values[i]) is Ok);
    }
}

/// A primary agent explicitly chooses no model, whatever it selects for its subagents; a subagent
/// whose selections hold a refused one is refused for the first of those.
pub proof fn law_other_requests_choose_no_model(request: crate::wire::RequestView, i: int)
    ensures
        request.subagent_type_name is None || request.subagent_type_name->0.len() == 0
            ==> hijack_spec(request) == Ok::<Option<SpecView>, ErrorView>(None),
        request.subagent_type_name is Some && request.subagent_type_name->0.len() > 0 && 0 <= i
            < request.subagent_model_overrides.len() && choice_of(
            request.subagent_model_overrides[i],
        ) is Err && (forall|j: int|
            0 <= j < i ==> choice_of(#[trigger] request.subagent_model_overrides[j]) is Ok)
            ==> hijack_spec(request) == Err::<Option<SpecView>, ErrorView>(
            choice_of(request.subagent_model_overrides[i])->Err_0,
        ),
{
    let values = request.subagent_model_overrides;
    if 0 <= i < values.len() && choice_of(values[i]) is Err && (forall|j: int|
        0 <= j < i ==> choice_of(#[trigger] values[j]) is Ok) {
        law_choices_are_those_of_the_selections(values, i);
    }
}

} // verus!
