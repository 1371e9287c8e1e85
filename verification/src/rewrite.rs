//! Rewrites a client's request so that it asks for the model that was selected.
use vstd::prelude::*;

use crate::model::{subagent_kind, ModelSpec, SubagentKind};
use crate::text::same_text;
use crate::wire::{AgentRunRequest, ModelParameterValue, RequestedModel, Selection};

verus! {

/// What becomes of the effort that a request asks for.
#[derive(Debug, PartialEq, Eq)]
pub enum EffortAction {
    /// The request keeps what it asks for.
    Unchanged,
    /// This effort takes the place of what the request asks for.
    SetTo(String),
    /// The request no longer asks for any.
    Clear,
}

/// The value of an [`EffortAction`].
pub enum EffortView {
    Unchanged,
    SetTo(Seq<char>),
    Clear,
}

impl View for EffortAction {
    type V = EffortView;

    open spec fn view(&self) -> EffortView {
        match self {
            EffortAction::Unchanged => EffortView::Unchanged,
            EffortAction::SetTo(effort) => EffortView::SetTo(effort@),
            EffortAction::Clear => EffortView::Clear,
        }
    }
}

impl Clone for EffortAction {
    fn clone(&self) -> (r: Self)
        ensures
            r@ == self@,
    {
        match self {
            EffortAction::Unchanged => EffortAction::Unchanged,
            EffortAction::SetTo(effort) => EffortAction::SetTo(effort.clone()),
            EffortAction::Clear => EffortAction::Clear,
        }
    }
}

impl EffortAction {
    /// Whether the action changes the parameters of a request.
    pub fn rewrites_parameters(&self) -> (r: bool)
        ensures
            r == (self@ !is Unchanged),
    {
        match self {
            EffortAction::Unchanged => false,
            _ => true,
        }
    }

    /// Whether two actions are the same.
    pub fn same(&self, other: &EffortAction) -> (r: bool)
        ensures
            r == (self@ == other@),
    {
        match (self, other) {
            (EffortAction::Unchanged, EffortAction::Unchanged) => true,
            (EffortAction::Clear, EffortAction::Clear) => true,
            (EffortAction::SetTo(a), EffortAction::SetTo(b)) => same_text(a.as_str(), b.as_str()),
            _ => false,
        }
    }
}

impl crate::wire::OverrideView {
    /// Whether the selection is of a model with the given identifier.
    pub open spec fn selects(self, model_id: Seq<char>) -> bool {
        match self.selection {
            Some(crate::wire::SelectionView::Model(requested)) => requested.model_id == model_id,
            _ => false,
        }
    }
}

/// The first selection of a model with the given identifier for a type of subagent.
pub open spec fn selected_model(
    overrides: Seq<crate::wire::OverrideView>,
    kind: crate::model::KindView,
    model_id: Seq<char>,
) -> Option<crate::wire::RequestedView>
    decreases overrides.len(),
{
    if overrides.len() == 0 {
        None
    } else if crate::model::kind_of(overrides[0].subagent_type) == kind
        && overrides[0].selects(model_id) {
        Some(overrides[0].selection->0->Model_0)
    } else {
        selected_model(overrides.drop_first(), kind, model_id)
    }
}

/// The request that asks for a model: as the request selects that model for the subagent that
/// it runs, where it does, else by the identifier alone. The details follow.
pub open spec fn request_for(
    request: crate::wire::RequestView,
    model: crate::model::SpecView,
) -> crate::wire::RequestView {
    let selected = match request.kind() {
        Some(kind) => selected_model(
            request.subagent_model_overrides,
            crate::model::kind_of(kind),
            model.model_id,
        ),
        None => None,
    };
    crate::wire::RequestView {
        requested_model: Some(
            match selected {
                Some(requested) => requested,
                None => crate::wire::RequestedView::fresh(model.model_id, seq![]),
            },
        ),
        model_details: match request.model_details {
            Some(details) => Some(
                crate::wire::DetailsView {
                    model_id: model.model_id,
                    display_name: match model.display_name {
                        Some(name) => name,
                        None => details.display_name,
                    },
                    ..details
                },
            ),
            None => None,
        },
        ..request
    }
}

/// The value of an optional requested model.
pub open spec fn optional_requested(requested: Option<RequestedModel>) -> Option<
    crate::wire::RequestedView,
> {
    match requested {
        Some(requested) => Some(requested@),
        None => None,
    }
}

/// The first selection of a model with the given identifier for a type of subagent.
fn find_selected(
    overrides: &Vec<crate::wire::SubagentModelOverride>,
    kind: &SubagentKind,
    model_id: &str,
) -> (r: Option<RequestedModel>)
    ensures
        optional_requested(r) == selected_model(
            crate::wire::override_views(overrides@),
            kind@,
            model_id@,
        ),
{
    let ghost views = crate::wire::override_views(overrides@);
    let mut i: usize = 0;
    proof {
        assert(views.skip(0) =~= views);
    }
    while i < overrides.len()
        invariant
            i <= overrides.len(),
            views == crate::wire::override_views(overrides@),
            selected_model(views, kind@, model_id@) == selected_model(
                views.skip(i as int),
                kind@,
                model_id@,
            ),
        decreases overrides.len() - i,
    {
        proof {
            assert(views.skip(i as int).drop_first() =~= views.skip(i + 1));
            assert(views.skip(i as int)[0] == overrides@[i as int]@);
        }
        let entry: SubagentKind = subagent_kind(overrides[i].subagent_type.as_str());
        if entry.same(kind) {
            if let Some(Selection::Model(requested)) = &overrides[i].selection {
                if same_text(requested.model_id.as_str(), model_id) {
                    return Some(requested.clone());
                }
            }
        }
        i += 1;
    }
    None
}

/// Rewrites a request so that it asks for a model.
pub fn rewrite_requested_model(request: &mut AgentRunRequest, model: &ModelSpec)
    ensures
        final(request)@ == request_for(old(request)@, model@),
{
    let selected: Option<RequestedModel> = match request.kind() {
        Some(kind) => find_selected(
            &request.subagent_model_overrides,
            &subagent_kind(kind),
            model.model_id.as_str(),
        ),
        None => None,
    };
    let requested: RequestedModel = match selected {
        Some(requested) => requested,
        None => {
            let parameters: Vec<ModelParameterValue> = Vec::new();
            proof {
                assert(crate::wire::parameter_views(parameters@) =~= seq![]);
            }
            fresh_request(model.model_id.as_str(), parameters)
        },
    };
    request.requested_model = Some(requested);
    if let Some(details) = &mut request.model_details {
        details.model_id = model.model_id.clone();
        if let Some(name) = &model.display_name {
            details.display_name = name.clone();
        }
    }
}

/// The request for a model with given parameters and nothing else.
fn fresh_request(model_id: &str, parameters: Vec<ModelParameterValue>) -> (r: RequestedModel)
    ensures
        r@ == crate::wire::RequestedView::fresh(
            model_id@,
            crate::wire::parameter_views(parameters@),
        ),
{
    let r = RequestedModel {
        model_id: model_id.to_owned(),
        max_mode: false,
        parameters,
        other: Vec::new(),
    };
    proof {
        assert(r.other@ =~= seq![]);
    }
    r
}

/// A rewritten request asks for the model, by whichever of its fields the model is read.
pub proof fn law_rewritten_request_selects_model(
    request: crate::wire::RequestView,
    model: crate::model::SpecView,
)
    ensures
        request_for(request, model).model_id() == Some(model.model_id),
        request_for(request, model).model_details matches Some(details) ==> details.model_id
            == model.model_id,
{
    if request.kind() is Some {
        lemma_selected_has_id(
            request.subagent_model_overrides,
            crate::model::kind_of(request.kind()->0),
            model.model_id,
        );
    }
}

proof fn lemma_selected_has_id(
    overrides: Seq<crate::wire::OverrideView>,
    kind: crate::model::KindView,
    model_id: Seq<char>,
)
    ensures
        selected_model(overrides, kind, model_id) matches Some(requested) ==> requested.model_id
            == model_id,
    decreases overrides.len(),
{
    if overrides.len() > 0 {
        lemma_selected_has_id(overrides.drop_first(), kind, model_id);
    }
}

/// The model that was selected for a run, and what becomes of its parameters.
#[derive(Debug, PartialEq, Eq)]
pub struct ModelRewrite {
    pub model_id: String,
    pub effort: EffortAction,
    /// Whether the model is to answer fast; `None` keeps what the request asks for.
    pub fast: Option<bool>,
}

/// The value of a [`ModelRewrite`].
pub struct RewriteView {
    pub model_id: Seq<char>,
    pub effort: EffortView,
    pub fast: Option<bool>,
}

impl View for ModelRewrite {
    type V = RewriteView;

    open spec fn view(&self) -> RewriteView {
        RewriteView { model_id: self.model_id@, effort: self.effort@, fast: self.fast }
    }
}

/// The parameter of a given name and value.
pub open spec fn parameter(id: Seq<char>, value: Seq<char>) -> crate::wire::ParameterView {
    crate::wire::ParameterView { id, value, token_count: None }
}

/// The text of a boolean parameter.
pub open spec fn bool_text(value: bool) -> Seq<char> {
    if value {
        "true"@
    } else {
        "false"@
    }
}

impl RewriteView {
    /// Whether the rewriting decides the effort or the speed.
    pub open spec fn decides(self) -> bool {
        self.effort !is Unchanged || self.fast is Some
    }

    /// Whether a parameter of this name gives way.
    pub open spec fn drops(self, id: Seq<char>) -> bool {
        ||| self.effort !is Unchanged && crate::model::sets_effort(id)
        ||| self.fast is Some && id == "fast"@
    }

    /// The parameters that do not give way, in their order.
    pub open spec fn kept(self, parameters: Seq<crate::wire::ParameterView>) -> Seq<
        crate::wire::ParameterView,
    >
        decreases parameters.len(),
    {
        if parameters.len() == 0 {
            seq![]
        } else if self.drops(parameters.last().id) {
            self.kept(parameters.drop_last())
        } else {
            self.kept(parameters.drop_last()).push(parameters.last())
        }
    }

    /// The parameters that are added: the effort, then the speed, as far as each is decided.
    pub open spec fn added(self) -> Seq<crate::wire::ParameterView> {
        let effort: Seq<crate::wire::ParameterView> = match self.effort {
            EffortView::SetTo(effort) => seq![parameter("effort"@, effort)],
            _ => seq![],
        };
        let fast: Seq<crate::wire::ParameterView> = match self.fast {
            Some(fast) => seq![parameter("fast"@, bool_text(fast))],
            None => seq![],
        };
        effort + fast
    }

    /// The request after the rewriting. A request for another model is made anew, without the
    /// details of the one that it asked for; a request for the same model keeps what is not
    /// decided.
    pub open spec fn applied(self, request: crate::wire::RequestView) -> crate::wire::RequestView {
        if request.model_id() != Some(self.model_id) {
            crate::wire::RequestView {
                requested_model: Some(
                    crate::wire::RequestedView::fresh(self.model_id, self.added()),
                ),
                model_details: None,
                ..request
            }
        } else {
            crate::wire::RequestView {
                requested_model: match request.requested_model {
                    Some(requested) => Some(
                        crate::wire::RequestedView {
                            parameters: self.kept(requested.parameters) + self.added(),
                            ..requested
                        },
                    ),
                    None => if self.decides() {
                        Some(crate::wire::RequestedView::fresh(self.model_id, self.added()))
                    } else {
                        None
                    },
                },
                ..request
            }
        }
    }
}

/// Adds the parameters that a rewriting decides.
fn add_decided(parameters: &mut Vec<ModelParameterValue>, rewrite: &ModelRewrite)
    ensures
        crate::wire::parameter_views(final(parameters)@) == crate::wire::parameter_views(
            old(parameters)@,
        ) + rewrite@.added(),
{
    let ghost before = crate::wire::parameter_views(parameters@);
    if let EffortAction::SetTo(effort) = &rewrite.effort {
        parameters.push(
            ModelParameterValue {
                id: "effort".to_owned(),
                value: effort.clone(),
                token_count: None,
            },
        );
        proof {
            assert(crate::wire::parameter_views(parameters@) =~= before.push(
                parameter("effort"@, effort@),
            ));
        }
    }
    let ghost middle = crate::wire::parameter_views(parameters@);
    if let Some(fast) = rewrite.fast {
        let value: String = if fast {
            "true".to_owned()
        } else {
            "false".to_owned()
        };
        parameters.push(
            ModelParameterValue { id: "fast".to_owned(), value, token_count: None },
        );
        proof {
            assert(crate::wire::parameter_views(parameters@) =~= middle.push(
                parameter("fast"@, bool_text(fast)),
            ));
        }
    }
    proof {
        assert(crate::wire::parameter_views(parameters@) =~= before + rewrite@.added());
    }
}

impl ModelRewrite {
    /// Whether a parameter of this name gives way.
    fn drops(&self, id: &str) -> (r: bool)
        ensures
            r == self@.drops(id@),
    {
        (self.effort.rewrites_parameters() && (same_text(id, "effort") || same_text(
            id,
            "reasoning",
        ))) || (self.fast.is_some() && same_text(id, "fast"))
    }

    /// The parameters that do not give way, in their order.
    fn keep(&self, parameters: &Vec<ModelParameterValue>) -> (r: Vec<ModelParameterValue>)
        ensures
            crate::wire::parameter_views(r@) == self@.kept(
                crate::wire::parameter_views(parameters@),
            ),
    {
        let ghost views = crate::wire::parameter_views(parameters@);
        let mut kept: Vec<ModelParameterValue> = Vec::new();
        let mut i: usize = 0;
        while i < parameters.len()
            invariant
                i <= parameters.len(),
                views == crate::wire::parameter_views(parameters@),
                crate::wire::parameter_views(kept@) =~= self@.kept(views.take(i as int)),
            decreases parameters.len() - i,
        {
            proof {
                assert(views.take(i + 1).drop_last() =~= views.take(i as int));
            }
            if !self.drops(parameters[i].id.as_str()) {
                let ghost held = crate::wire::parameter_views(kept@);
                kept.push(parameters[i].clone());
                proof {
                    assert(crate::wire::parameter_views(kept@) =~= held.push(views[i as int]));
                }
            }
            i += 1;
        }
        proof {
            assert(views.take(i as int) =~= views);
        }
        kept
    }

    /// Rewrites a request so that it asks for the selected model.
    pub fn apply(&self, request: &mut AgentRunRequest)
        ensures
            final(request)@ == self@.applied(old(request)@),
    {
        let same: bool = match request.model_id() {
            Some(model) => same_text(model, self.model_id.as_str()),
            None => false,
        };
        if same {
            if let Some(requested) = &mut request.requested_model {
                let mut parameters: Vec<ModelParameterValue> = self.keep(&requested.parameters);
                add_decided(&mut parameters, self);
                requested.parameters = parameters;
                return;
            }
            if !self.effort.rewrites_parameters() && self.fast.is_none() {
                return;
            }
        } else {
            request.model_details = None;
        }
        let mut parameters: Vec<ModelParameterValue> = Vec::new();
        add_decided(&mut parameters, self);
        proof {
            assert(crate::wire::parameter_views(parameters@) =~= self@.added());
        }
        request.requested_model = Some(fresh_request(self.model_id.as_str(), parameters));
    }
}

proof fn lemma_kept_append(
    rewrite: RewriteView,
    a: Seq<crate::wire::ParameterView>,
    b: Seq<crate::wire::ParameterView>,
)
    ensures
        rewrite.kept(a + b) == rewrite.kept(a) + rewrite.kept(b),
    decreases b.len(),
{
    if b.len() == 0 {
        assert(a + b =~= a);
        assert(rewrite.kept(a) + rewrite.kept(b) =~= rewrite.kept(a));
    } else {
        lemma_kept_append(rewrite, a, b.drop_last());
        assert((a + b).drop_last() =~= a + b.drop_last());
        assert(rewrite.kept(a + b) =~= rewrite.kept(a) + rewrite.kept(b));
    }
}

proof fn lemma_kept_is_undropped(
    rewrite: RewriteView,
    parameters: Seq<crate::wire::ParameterView>,
)
    ensures
        forall|i: int|
            0 <= i < rewrite.kept(parameters).len() ==> !rewrite.drops(
                (#[trigger] rewrite.kept(parameters)[i]).id,
            ),
    decreases parameters.len(),
{
    if parameters.len() > 0 {
        lemma_kept_is_undropped(rewrite, parameters.drop_last());
    }
}

proof fn lemma_undropped_is_kept(
    rewrite: RewriteView,
    parameters: Seq<crate::wire::ParameterView>,
)
    requires
        forall|i: int|
            0 <= i < parameters.len() ==> !rewrite.drops((#[trigger] parameters[i]).id),
    ensures
        rewrite.kept(parameters) == parameters,
    decreases parameters.len(),
{
    if parameters.len() > 0 {
        let front = parameters.drop_last();
        assert forall|i: int| 0 <= i < front.len() implies !rewrite.drops(
            (#[trigger] front[i]).id,
        ) by {
            assert(front[i] == parameters[i]);
        }
        lemma_undropped_is_kept(rewrite, front);
        assert(!rewrite.drops(parameters[parameters.len() - 1].id));
        assert(front.push(parameters.last()) =~= parameters);
    }
}

proof fn lemma_added_is_dropped(rewrite: RewriteView)
    ensures
        rewrite.kept(rewrite.added()) == Seq::<crate::wire::ParameterView>::empty(),
{
    reveal_with_fuel(RewriteView::kept, 3);
    assert(rewrite.kept(rewrite.added()) =~= Seq::<crate::wire::ParameterView>::empty());
}

/// A rewritten request asks for the selected model.
pub proof fn law_applied_request_selects_model(
    rewrite: RewriteView,
    request: crate::wire::RequestView,
)
    ensures
        rewrite.applied(request).model_id() == Some(rewrite.model_id),
{
}

/// Where nothing is decided and the request already asks for the model, it stays as it is.
pub proof fn law_undecided_rewrite_changes_nothing(
    rewrite: RewriteView,
    request: crate::wire::RequestView,
)
    requires
        !rewrite.decides(),
        request.model_id() == Some(rewrite.model_id),
    ensures
        rewrite.applied(request) == request,
{
    if request.requested_model is Some {
        let parameters = request.requested_model->0.parameters;
        lemma_undropped_is_kept(rewrite, parameters);
        assert(parameters + rewrite.added() =~= parameters);
    }
}

/// To rewrite a request twice is to rewrite it once.
pub proof fn law_rewrite_is_idempotent(rewrite: RewriteView, request: crate::wire::RequestView)
    ensures
        rewrite.applied(rewrite.applied(request)) == rewrite.applied(request),
{
    let once = rewrite.applied(request);
    if once.requested_model is Some {
        let base = if request.model_id() == Some(rewrite.model_id)
            && request.requested_model is Some {
            rewrite.kept(request.requested_model->0.parameters)
        } else {
            Seq::<crate::wire::ParameterView>::empty()
        };
        let parameters = once.requested_model->0.parameters;
        assert(parameters =~= base + rewrite.added());
        lemma_kept_append(rewrite, base, rewrite.added());
        lemma_added_is_dropped(rewrite);
        if request.requested_model is Some {
            lemma_kept_is_undropped(rewrite, request.requested_model->0.parameters);
        }
        lemma_undropped_is_kept(rewrite, base);
        assert(rewrite.kept(parameters) + rewrite.added() =~= parameters);
    }
}

proof fn lemma_parameters_append(
    spec: crate::model::SpecView,
    a: Seq<crate::wire::ParameterView>,
    b: Seq<crate::wire::ParameterView>,
)
    ensures
        spec.with_parameters(a + b) == match spec.with_parameters(a) {
            Ok(middle) => middle.with_parameters(b),
            Err(error) => Err(error),
        },
    decreases a.len(),
{
    if a.len() == 0 {
        assert(a + b =~= b);
    } else {
        assert((a + b)[0] == a[0]);
        assert((a + b).drop_first() =~= a.drop_first() + b);
        match spec.with_parameter(a[0]) {
            Ok(next) => lemma_parameters_append(next, a.drop_first(), b),
            Err(_) => {},
        }
    }
}

/// Parameters that set neither the effort nor the speed leave both as they are.
proof fn lemma_other_parameters(
    spec: crate::model::SpecView,
    parameters: Seq<crate::wire::ParameterView>,
)
    requires
        forall|i: int|
            0 <= i < parameters.len() ==> !crate::model::sets_effort(
                (#[trigger] parameters[i]).id,
            ) && parameters[i].id != "fast"@,
    ensures
        spec.with_parameters(parameters) matches Ok(after) ==> after.model_id == spec.model_id
            && after.reasoning.effort == spec.reasoning.effort && after.latency == spec.latency,
    decreases parameters.len(),
{
    if parameters.len() > 0 {
        assert(!crate::model::sets_effort(parameters[0].id));
        let rest = parameters.drop_first();
        assert forall|i: int| 0 <= i < rest.len() implies !crate::model::sets_effort(
            (#[trigger] rest[i]).id,
        ) && rest[i].id != "fast"@ by {
            assert(rest[i] == parameters[i + 1]);
        }
        match spec.with_parameter(parameters[0]) {
            Ok(next) => lemma_other_parameters(next, rest),
            Err(_) => {},
        }
    }
}

/// What a rewriting decides is what is read from the rewritten request: its model; its effort,
/// whatever the request asked for under either name, or none where it is cleared; its speed.
/// A request for another model can always be read.
pub proof fn law_decided_parameters_are_read_back(
    rewrite: RewriteView,
    request: crate::wire::RequestView,
)
    requires
        rewrite.effort !is Unchanged,
        rewrite.fast is Some,
        rewrite.effort matches EffortView::SetTo(effort) ==> crate::policy::effort_error(effort)
            is None,
    ensures
        crate::model::requested_spec(rewrite.applied(request)) matches Ok(spec) ==> {
            &&& spec.model_id == rewrite.model_id
            &&& spec.reasoning.effort == match rewrite.effort {
                EffortView::SetTo(effort) => Some(effort),
                _ => None,
            }
            &&& (spec.latency is Fast) == rewrite.fast->0
        },
        request.model_id() != Some(rewrite.model_id) ==> crate::model::requested_spec(
            rewrite.applied(request),
        ) is Ok,
{
    let applied = rewrite.applied(request);
    let requested = applied.requested_model->0;
    let base = if request.model_id() == Some(rewrite.model_id) && request.requested_model is Some {
        rewrite.kept(request.requested_model->0.parameters)
    } else {
        Seq::<crate::wire::ParameterView>::empty()
    };
    assert(requested.parameters =~= base + rewrite.added());
    let plain = crate::model::SpecView::plain(
        requested.model_id,
        crate::model::display_name(applied.model_details),
        requested.max_mode || crate::model::thinks(applied.model_details),
    );
    lemma_parameters_append(plain, base, rewrite.added());
    if request.requested_model is Some {
        lemma_kept_is_undropped(rewrite, request.requested_model->0.parameters);
    }
    assert forall|i: int| 0 <= i < base.len() implies !crate::model::sets_effort(
        (#[trigger] base[i]).id,
    ) && base[i].id != "fast"@ by {
        assert(!rewrite.drops(base[i].id));
    }
    lemma_other_parameters(plain, base);
    lemma_effort_and_fast_differ();
    if let Ok(middle) = plain.with_parameters(base) {
        let speed = parameter("fast"@, bool_text(rewrite.fast->0));
        match rewrite.effort {
            EffortView::SetTo(effort) => {
                lemma_valid_effort_is_read(effort);
                assert(rewrite.added() =~= seq![parameter("effort"@, effort), speed]);
                let next = middle.with_parameter(parameter("effort"@, effort))->Ok_0;
                assert(rewrite.added().drop_first() =~= seq![speed]);
                assert(seq![speed].drop_first() =~= seq![]);
                assert(next.with_parameters(seq![speed]) == next.with_parameter(speed)) by {
                    reveal_with_fuel(crate::model::SpecView::with_parameters, 2);
                }
            },
            _ => {
                assert(rewrite.added() =~= seq![speed]);
                assert(seq![speed].drop_first() =~= seq![]);
                assert(middle.with_parameters(seq![speed]) == middle.with_parameter(speed)) by {
                    reveal_with_fuel(crate::model::SpecView::with_parameters, 2);
                }
            },
        }
    }
}

proof fn lemma_effort_and_fast_differ()
    ensures
        !crate::model::sets_effort("fast"@),
        "fast"@ != "thinking"@,
        "true"@ != "false"@,
{
    reveal_strlit("fast");
    reveal_strlit("effort");
    reveal_strlit("reasoning");
    reveal_strlit("thinking");
    reveal_strlit("true");
    reveal_strlit("false");
    assert("fast"@.len() == 4);
    assert("true"@.len() == 4);
    assert("false"@.len() == 5);
}

/// An effort that a policy may set is read as it was written.
pub proof fn lemma_valid_effort_is_read(effort: Seq<char>)
    requires
        crate::policy::effort_error(effort) is None,
    ensures
        crate::model::effort_of(effort) == Some(effort),
{
    crate::text::lemma_trim_keeps_unblank(effort);
    if effort == "none"@ {
        assert(crate::text::same_ignoring_case(effort, "none"@));
    }
}

/// A rewriting touches nothing but the model that is asked for: the type of the subagent and the
/// client's own selections stay, and with them what kind of agent the request is for.
pub proof fn law_rewrite_keeps_the_rest_of_the_request(
    rewrite: RewriteView,
    request: crate::wire::RequestView,
)
    ensures
        rewrite.applied(request).subagent_type_name == request.subagent_type_name,
        rewrite.applied(request).subagent_model_overrides == request.subagent_model_overrides,
        rewrite.applied(request).kind() == request.kind(),
{
}

/// A request for another model than was selected is made anew: for the selected model, without the
/// details, the mode and the parameters of the one that it asked for.
pub proof fn law_other_models_are_asked_for_anew(
    rewrite: RewriteView,
    request: crate::wire::RequestView,
)
    requires
        request.requested_model is Some ==> request.requested_model->0.model_id
            != rewrite.model_id,
        request.requested_model is None ==> (request.model_details is None
            || request.model_details->0.model_id.len() == 0
            || request.model_details->0.model_id != rewrite.model_id),
    ensures
        rewrite.applied(request).model_details is None,
        rewrite.applied(request).requested_model matches Some(requested) && {
            &&& requested.model_id == rewrite.model_id
            &&& !requested.max_mode
            &&& requested.other.len() == 0
            &&& decided_parameters(rewrite, requested.parameters)
        },
{
    lemma_added_parameters_are_those_decided(rewrite);
}

/// Whether parameters are exactly those that a rewriting decides: the effort that it sets, under
/// that name, and then the speed, each as far as it is decided.
pub open spec fn decided_parameters(
    rewrite: RewriteView,
    parameters: Seq<crate::wire::ParameterView>,
) -> bool {
    match (rewrite.effort, rewrite.fast) {
        (EffortView::SetTo(effort), Some(fast)) => {
            &&& parameters.len() == 2
            &&& parameters[0].id == "effort"@
            &&& parameters[0].value == effort
            &&& parameters[0].token_count is None
            &&& parameters[1].id == "fast"@
            &&& parameters[1].value == (if fast { "true"@ } else { "false"@ })
            &&& parameters[1].token_count is None
        },
        (EffortView::SetTo(effort), None) => {
            &&& parameters.len() == 1
            &&& parameters[0].id == "effort"@
            &&& parameters[0].value == effort
            &&& parameters[0].token_count is None
        },
        (_, Some(fast)) => {
            &&& parameters.len() == 1
            &&& parameters[0].id == "fast"@
            &&& parameters[0].value == (if fast { "true"@ } else { "false"@ })
            &&& parameters[0].token_count is None
        },
        (_, None) => parameters.len() == 0,
    }
}

/// What a rewriting adds is what it decides.
proof fn lemma_added_parameters_are_those_decided(rewrite: RewriteView)
    ensures
        decided_parameters(rewrite, rewrite.added()),
{
}

/// A request that already asks for the selected model keeps its mode and its details, and its
/// parameters in their order but for those of the names that are decided; what is decided comes
/// behind them.
pub proof fn law_same_model_keeps_what_is_not_decided(
    rewrite: RewriteView,
    request: crate::wire::RequestView,
    added: Seq<crate::wire::ParameterView>,
)
    requires
        request.requested_model is Some,
        request.requested_model->0.model_id == rewrite.model_id,
        decided_parameters(rewrite, added),
    ensures
        rewrite.applied(request).model_details == request.model_details,
        rewrite.applied(request).requested_model matches Some(requested) && {
            &&& requested.model_id == rewrite.model_id
            &&& requested.max_mode == request.requested_model->0.max_mode
            &&& requested.other == request.requested_model->0.other
            &&& requested.parameters == request.requested_model->0.parameters.filter(
                |parameter: crate::wire::ParameterView|
                    !(rewrite.effort != EffortView::Unchanged && (parameter.id == "effort"@
                        || parameter.id == "reasoning"@)) && !(rewrite.fast is Some && parameter.id
                        == "fast"@),
            ) + added
        },
{
    lemma_kept_is_filtered(rewrite, request.requested_model->0.parameters);
    assert(rewrite.added() =~= added);
}

proof fn lemma_kept_is_filtered(
    rewrite: RewriteView,
    parameters: Seq<crate::wire::ParameterView>,
)
    ensures
        rewrite.kept(parameters) == parameters.filter(
            |parameter: crate::wire::ParameterView|
                !(rewrite.effort != EffortView::Unchanged && (parameter.id == "effort"@
                    || parameter.id == "reasoning"@)) && !(rewrite.fast is Some && parameter.id
                    == "fast"@),
        ),
    decreases parameters.len(),
{
    reveal(Seq::filter);
    if parameters.len() > 0 {
        lemma_kept_is_filtered(rewrite, parameters.drop_last());
    }
}

/// A request that asks for the selected model by its details alone keeps them. It names the model
/// itself only where something is decided.
pub proof fn law_details_alone_keep_their_model(
    rewrite: RewriteView,
    request: crate::wire::RequestView,
)
    requires
        request.requested_model is None,
        request.model_details is Some,
        request.model_details->0.model_id.len() > 0,
        request.model_details->0.model_id == rewrite.model_id,
    ensures
        rewrite.applied(request).model_details == request.model_details,
        rewrite.effort == EffortView::Unchanged && rewrite.fast is None ==> rewrite.applied(
            request,
        ).requested_model is None,
        rewrite.effort != EffortView::Unchanged || rewrite.fast is Some ==> (rewrite.applied(
            request,
        ).requested_model matches Some(requested) && requested.model_id == rewrite.model_id
            && !requested.max_mode && requested.other.len() == 0 && decided_parameters(
            rewrite,
            requested.parameters,
        )),
{
    lemma_added_parameters_are_those_decided(rewrite);
}

/// A request that is made to ask for a model keeps the type of its subagent and the client's own
/// selections. Its details, where it has any, name the model and keep the rest, and the name to be
/// shown unless the model has one.
pub proof fn law_request_for_a_model_keeps_the_rest(
    request: crate::wire::RequestView,
    model: crate::model::SpecView,
)
    ensures
        request_for(request, model).subagent_type_name == request.subagent_type_name,
        request_for(request, model).subagent_model_overrides == request.subagent_model_overrides,
        request.model_details is None ==> request_for(request, model).model_details is None,
        request.model_details matches Some(before) ==> (request_for(request, model).model_details
            matches Some(after) && {
            &&& after.model_id == model.model_id
            &&& after.thinking_details == before.thinking_details
            &&& after.other == before.other
            &&& model.display_name is None ==> after.display_name == before.display_name
            &&& model.display_name matches Some(name) ==> after.display_name == name
        }),
{
}

/// A request that is made to ask for a model asks for it as the client's first selection of that
/// model for the type of its subagent does, with all that this selection holds.
pub proof fn law_selected_model_is_asked_for_whole(
    request: crate::wire::RequestView,
    model: crate::model::SpecView,
    i: int,
    selected: crate::wire::RequestedView,
)
    requires
        request.subagent_type_name is Some,
        request.subagent_type_name->0.len() > 0,
        0 <= i < request.subagent_model_overrides.len(),
        request.subagent_model_overrides[i].subagent_type == request.subagent_type_name->0,
        request.subagent_model_overrides[i].selection == Some(
            crate::wire::SelectionView::Model(selected),
        ),
        selected.model_id == model.model_id,
        forall|j: int|
            0 <= j < i ==> !((#[trigger] request.subagent_model_overrides[j]).subagent_type
                == request.subagent_type_name->0 && request.subagent_model_overrides[j].selection
                is Some && request.subagent_model_overrides[j].selection->0 is Model
                && request.subagent_model_overrides[j].selection->0->Model_0.model_id
                == model.model_id),
    ensures
        request_for(request, model).requested_model == Some(selected),
{
    lemma_first_selected(
        request.subagent_model_overrides,
        request.subagent_type_name->0,
        model.model_id,
        i,
    );
}

/// Without such a selection a request that is made to ask for a model asks for it by its
/// identifier and for nothing else; so does that of a primary agent.
pub proof fn law_unselected_model_is_asked_for_plainly(
    request: crate::wire::RequestView,
    model: crate::model::SpecView,
)
    requires
        request.subagent_type_name is Some && request.subagent_type_name->0.len() > 0 ==> forall|
            j: int,
        |
            0 <= j < request.subagent_model_overrides.len()
                ==> !((#[trigger] request.subagent_model_overrides[j]).subagent_type
                == request.subagent_type_name->0 && request.subagent_model_overrides[j].selection
                is Some && request.subagent_model_overrides[j].selection->0 is Model
                && request.subagent_model_overrides[j].selection->0->Model_0.model_id
                == model.model_id),
    ensures
        request_for(request, model).requested_model matches Some(requested) && requested.model_id
            == model.model_id && !requested.max_mode && requested.parameters.len() == 0
            && requested.other.len() == 0,
{
    if request.kind() is Some {
        lemma_first_selected(
            request.subagent_model_overrides,
            request.subagent_type_name->0,
            model.model_id,
            request.subagent_model_overrides.len() as int,
        );
    }
}

proof fn lemma_first_selected(
    overrides: Seq<crate::wire::OverrideView>,
    kind: Seq<char>,
    model_id: Seq<char>,
    i: int,
)
    requires
        0 <= i <= overrides.len(),
        forall|j: int|
            0 <= j < i ==> !((#[trigger] overrides[j]).subagent_type == kind
                && overrides[j].selection is Some && overrides[j].selection->0 is Model
                && overrides[j].selection->0->Model_0.model_id == model_id),
        i < overrides.len() ==> overrides[i].subagent_type == kind && overrides[i].selects(
            model_id,
        ),
    ensures
        selected_model(overrides, crate::model::kind_of(kind), model_id) == if i
            < overrides.len() {
            Some(overrides[i].selection->0->Model_0)
        } else {
            None
        },
    decreases i,
{
    if i > 0 {
        let rest = overrides.drop_first();
        assert(!(overrides[0].subagent_type == kind && overrides[0].selects(model_id)));
        assert forall|j: int| 0 <= j < i - 1 implies !((#[trigger] rest[j]).subagent_type == kind
            && rest[j].selection is Some && rest[j].selection->0 is Model
            && rest[j].selection->0->Model_0.model_id == model_id) by {
            assert(rest[j] == overrides[j + 1]);
        }
        lemma_first_selected(rest, kind, model_id, i - 1);
    }
}

} // verus!
