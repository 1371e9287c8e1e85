//! Which model a message asks for: the candidate that the policy gives for a run.
use axum::http::HeaderMap;
use vstd::prelude::*;

use crate::error::{Error, ErrorView};
use crate::http::{first_value, text_of_value};
use crate::policy::{is_composer_model, Resolution, ResolutionReason};
use crate::registry::{AdmittedRun, ModelRole, PreparedRunModel, TransportRegistry};
use crate::rewrite::{EffortAction, EffortView, ModelRewrite};
use crate::text::{join, same_text};
use crate::wire::{AgentRunRequest, ClientMessage, DecodedAppend, Selection};

verus! {

/// The run and the tool call that a subagent was started by.
#[derive(Debug, PartialEq, Eq)]
pub struct TransportParent {
    pub request_id: String,
    pub tool_call_id: String,
}

/// The value of a [`TransportParent`].
pub struct ParentView {
    pub request_id: Seq<char>,
    pub tool_call_id: Seq<char>,
}

impl View for TransportParent {
    type V = ParentView;

    open spec fn view(&self) -> ParentView {
        ParentView { request_id: self.request_id@, tool_call_id: self.tool_call_id@ }
    }
}

/// The value of a result that may hold nothing.
pub open spec fn optional_result<T: View>(result: Result<Option<T>, Error>) -> Result<
    Option<<T as View>::V>,
    ErrorView,
> {
    match result {
        Ok(Some(value)) => Ok(Some(value@)),
        Ok(None) => Ok(None),
        Err(error) => Err(error@),
    }
}

/// The text of a header, where it is there.
pub open spec fn text_of_header(headers: Map<Seq<char>, Seq<Seq<u8>>>, name: Seq<char>) -> Result<
    Option<Seq<char>>,
    ErrorView,
> {
    match crate::http::header_value(headers, name) {
        None => Ok(None),
        Some(value) => match crate::http::visible_text(value) {
            Some(text) => Ok(Some(text)),
            None => Err(
                ErrorView::Protocol(
                    "invalid "@ + name + " header: failed to convert header to a str"@,
                ),
            ),
        },
    }
}

/// The text of a header, where it is there.
pub fn header_text(headers: &HeaderMap, name: &str) -> (r: Result<Option<String>, Error>)
    requires
        crate::http::is_header_name(name@),
    ensures
        optional_result(r) == text_of_header(crate::http::headers_of(*headers), name@),
{
    match first_value(headers, name) {
        None => Ok(None),
        Some(value) => match text_of_value(value.as_slice()) {
            Some(text) => Ok(Some(text)),
            None => Err(
                Error::Protocol(
                    join("invalid ", name, " header: failed to convert header to a str"),
                ),
            ),
        },
    }
}

/// The parent that the headers of a request name: both of them or none.
pub open spec fn parent_of(headers: Map<Seq<char>, Seq<Seq<u8>>>) -> Result<
    Option<ParentView>,
    ErrorView,
> {
    match text_of_header(headers, "x-parent-request-id"@) {
        Err(error) => Err(error),
        Ok(request_id) => match text_of_header(headers, "x-parent-agent-tool-call-id"@) {
            Err(error) => Err(error),
            Ok(tool_call_id) => match (request_id, tool_call_id) {
                (None, None) => Ok(None),
                (Some(request_id), Some(tool_call_id)) => Ok(
                    Some(ParentView { request_id, tool_call_id }),
                ),
                _ => Err(
                    ErrorView::Protocol(
                        "Cursor subagent request must include both parent headers"@,
                    ),
                ),
            },
        },
    }
}

proof fn lemma_parent_header_names()
    ensures
        crate::http::is_header_name("x-parent-request-id"@),
        crate::http::is_header_name("x-parent-agent-tool-call-id"@),
{
    reveal_strlit("x-parent-request-id");
    reveal_strlit("x-parent-agent-tool-call-id");
}

/// The parent that the headers of a request name: both of them or none.
pub fn parent_headers(headers: &HeaderMap) -> (r: Result<Option<TransportParent>, Error>)
    ensures
        optional_result(r) == parent_of(crate::http::headers_of(*headers)),
{
    proof {
        lemma_parent_header_names();
    }
    let request_id = match header_text(headers, "x-parent-request-id") {
        Ok(text) => text,
        Err(error) => {
            return Err(error);
        },
    };
    let tool_call_id = match header_text(headers, "x-parent-agent-tool-call-id") {
        Ok(text) => text,
        Err(error) => {
            return Err(error);
        },
    };
    match (request_id, tool_call_id) {
        (None, None) => Ok(None),
        (Some(request_id), Some(tool_call_id)) => Ok(
            Some(TransportParent { request_id, tool_call_id }),
        ),
        _ => Err(
            Error::Protocol(
                "Cursor subagent request must include both parent headers".to_owned(),
            ),
        ),
    }
}

/// What a client selects for a type of subagent: the first entry for the type.
pub open spec fn selection_for(overrides: Seq<crate::wire::OverrideView>, kind: Seq<char>) -> Option<
    crate::wire::SelectionView,
>
    decreases overrides.len(),
{
    if overrides.len() == 0 {
        None
    } else if overrides[0].subagent_type == kind {
        overrides[0].selection
    } else {
        selection_for(overrides.skip(1), kind)
    }
}

/// Whether a client switches a type of subagent off.
pub open spec fn is_disabled(request: crate::wire::RequestView, kind: Seq<char>) -> bool {
    selection_for(request.subagent_model_overrides, kind) == Some(
        crate::wire::SelectionView::Disabled(true),
    )
}

/// Whether a client switches a type of subagent off.
pub fn disables(request: &AgentRunRequest, kind: &str) -> (r: bool)
    ensures
        r == is_disabled(request@, kind@),
{
    let ghost views = request@.subagent_model_overrides;
    let mut i: usize = 0;
    proof {
        assert(views.skip(0) =~= views);
    }
    while i < request.subagent_model_overrides.len()
        invariant
            i <= request.subagent_model_overrides.len(),
            views == crate::wire::override_views(request.subagent_model_overrides@),
            selection_for(views, kind@) == selection_for(views.skip(i as int), kind@),
        decreases request.subagent_model_overrides.len() - i,
    {
        let entry = &request.subagent_model_overrides[i];
        proof {
            assert(views.skip(i as int)[0] == entry@);
            assert(views.skip(i as int).skip(1) =~= views.skip(i + 1));
        }
        if same_text(entry.subagent_type.as_str(), kind) {
            return match &entry.selection {
                Some(Selection::Disabled(disabled)) => *disabled,
                _ => false,
            };
        }
        i += 1;
    }
    false
}

/// The model that a chosen target stands for: `inherit` is the model that the parent has now.
pub open spec fn inherited(
    registry: crate::registry::RegistryView,
    headers: Map<Seq<char>, Seq<Seq<u8>>>,
    model: Seq<char>,
) -> Result<Seq<char>, ErrorView> {
    if model != "inherit"@ {
        Ok(model)
    } else {
        match parent_of(headers) {
            Err(error) => Err(error),
            Ok(None) => Err(
                ErrorView::Protocol("subagent model inherit requires parent headers"@),
            ),
            Ok(Some(parent)) => match registry.run_model(parent.request_id) {
                Some(model) => Ok(model),
                None => Err(
                    ErrorView::Protocol("subagent model inherit requires an active parent model"@),
                ),
            },
        }
    }
}

/// The value of a result that is a text.
pub open spec fn text_result(result: Result<String, Error>) -> Result<Seq<char>, ErrorView> {
    match result {
        Ok(text) => Ok(text@),
        Err(error) => Err(error@),
    }
}

/// The model that a chosen target stands for: `inherit` is the model that the parent has now.
pub fn resolve_inherit(registry: &TransportRegistry, headers: &HeaderMap, model: &str) -> (r: Result<
    String,
    Error,
>)
    ensures
        text_result(r) == inherited(registry@, crate::http::headers_of(*headers), model@),
{
    if !same_text(model, "inherit") {
        return Ok(model.to_owned());
    }
    match parent_headers(headers) {
        Err(error) => Err(error),
        Ok(None) => Err(
            Error::Protocol("subagent model inherit requires parent headers".to_owned()),
        ),
        Ok(Some(parent)) => match registry.run_model(parent.request_id.as_str()) {
            Some(model) => Ok(model),
            None => Err(
                Error::Protocol(
                    "subagent model inherit requires an active parent model".to_owned(),
                ),
            ),
        },
    }
}

/// What a choice decides of the effort and the speed. Without a rule nothing is decided. A
/// Composer model runs without an effort; every other one needs it.
pub open spec fn decided(
    resolution: crate::policy::ResolutionView,
    model: Seq<char>,
) -> Result<(EffortView, Option<bool>), ErrorView> {
    if resolution.reason == ResolutionReason::Original {
        Ok((EffortView::Unchanged, None))
    } else if crate::policy::is_composer(model) {
        Ok((EffortView::Clear, Some(resolution.target.fast)))
    } else {
        match resolution.target.effort {
            Some(effort) => Ok((EffortView::SetTo(effort), Some(resolution.target.fast))),
            None => Err(
                ErrorView::Config(
                    "subagent policy non-Composer target "@ + model + " requires effort"@,
                ),
            ),
        }
    }
}

/// The value of a result that is an effort and a speed.
pub open spec fn decision_view(result: Result<(EffortAction, Option<bool>), Error>) -> Result<
    (EffortView, Option<bool>),
    ErrorView,
> {
    match result {
        Ok((effort, fast)) => Ok((effort@, fast)),
        Err(error) => Err(error@),
    }
}

/// What a choice decides of the effort and the speed of a model.
pub fn decide(resolution: &Resolution, model: &str) -> (r: Result<
    (EffortAction, Option<bool>),
    Error,
>)
    ensures
        decision_view(r) == decided(resolution@, model@),
{
    if resolution.reason == ResolutionReason::Original {
        return Ok((EffortAction::Unchanged, None));
    }
    if is_composer_model(model) {
        return Ok((EffortAction::Clear, Some(resolution.target.fast)));
    }
    match &resolution.target.effort {
        Some(effort) => Ok((EffortAction::SetTo(effort.clone()), Some(resolution.target.fast))),
        None => Err(
            Error::Config(
                join("subagent policy non-Composer target ", model, " requires effort"),
            ),
        ),
    }
}

/// The candidate for the run of a subagent of a type.
pub open spec fn child_candidate(
    registry: crate::registry::RegistryView,
    request: crate::wire::RequestView,
    headers: Map<Seq<char>, Seq<Seq<u8>>>,
    kind: Seq<char>,
    original: Seq<char>,
) -> Result<crate::registry::PreparedView, ErrorView> {
    let kept = crate::registry::PreparedView {
        original,
        model: original,
        effort: EffortView::Unchanged,
        fast: None,
        role: ModelRole::Child,
    };
    if is_disabled(request, kind) {
        Ok(kept)
    } else {
        let resolution = registry.models.policy.resolution(kind, original);
        match inherited(registry, headers, resolution.target.model) {
            Err(error) => Err(error),
            Ok(model) => match decided(resolution, model) {
                Err(error) => Err(error),
                Ok((effort, fast)) => Ok(
                    crate::registry::PreparedView { model, effort, fast, ..kept },
                ),
            },
        }
    }
}

/// The candidate for the run that a message requests. A primary agent keeps the model that it
/// asks for. A message that selects no model has no candidate.
pub open spec fn candidate(
    registry: crate::registry::RegistryView,
    decoded: crate::wire::AppendView,
    headers: Map<Seq<char>, Seq<Seq<u8>>>,
) -> Result<Option<crate::registry::PreparedView>, ErrorView> {
    match decoded.message {
        crate::wire::MessageView::Other => Ok(None),
        crate::wire::MessageView::RunRequest(request) => match request.model_id() {
            None => Ok(None),
            Some(original) => match request.kind() {
                None => Ok(
                    Some(
                        crate::registry::PreparedView {
                            original,
                            model: original,
                            effort: EffortView::Unchanged,
                            fast: None,
                            role: ModelRole::Primary,
                        },
                    ),
                ),
                Some(kind) => match child_candidate(registry, request, headers, kind, original) {
                    Ok(prepared) => Ok(Some(prepared)),
                    Err(error) => Err(error),
                },
            },
        },
    }
}

/// The candidate for the run of a subagent of a type.
fn prepare_child(
    registry: &TransportRegistry,
    request: &AgentRunRequest,
    headers: &HeaderMap,
    kind: &str,
    original: &str,
) -> (r: Result<PreparedRunModel, Error>)
    ensures
        crate::model::result_view(r) == child_candidate(
            registry@,
            request@,
            crate::http::headers_of(*headers),
            kind@,
            original@,
        ),
{
    if disables(request, kind) {
        return Ok(
            PreparedRunModel {
                original: original.to_owned(),
                model: original.to_owned(),
                effort: EffortAction::Unchanged,
                fast: None,
                role: ModelRole::Child,
            },
        );
    }
    let resolution = registry.subagent_models().snapshot().resolve(kind, original);
    let model = match resolve_inherit(registry, headers, resolution.target.model.as_str()) {
        Ok(model) => model,
        Err(error) => {
            return Err(error);
        },
    };
    match decide(&resolution, model.as_str()) {
        Ok((effort, fast)) => Ok(
            PreparedRunModel {
                original: original.to_owned(),
                model,
                effort,
                fast,
                role: ModelRole::Child,
            },
        ),
        Err(error) => Err(error),
    }
}

/// The candidate for the run that a message requests. Who owns the run and where it is served
/// is decided at admission.
pub fn select_run_model(
    registry: &TransportRegistry,
    decoded: &DecodedAppend,
    headers: &HeaderMap,
) -> (r: Result<Option<PreparedRunModel>, Error>)
    ensures
        optional_result(r) == candidate(registry@, decoded@, crate::http::headers_of(*headers)),
{
    let request = match &decoded.message {
        ClientMessage::RunRequest(request) => request,
        ClientMessage::Other => {
            return Ok(None);
        },
    };
    let original = match request.model_id() {
        Some(original) => original,
        None => {
            return Ok(None);
        },
    };
    match request.kind() {
        Some(kind) => match prepare_child(registry, request, headers, kind, original) {
            Ok(prepared) => Ok(Some(prepared)),
            Err(error) => Err(error),
        },
        None => Ok(
            Some(
                PreparedRunModel {
                    original: original.to_owned(),
                    model: original.to_owned(),
                    effort: EffortAction::Unchanged,
                    fast: None,
                    role: ModelRole::Primary,
                },
            ),
        ),
    }
}

impl crate::registry::AdmittedView {
    /// The rewriting that makes a request ask for what was admitted.
    pub open spec fn rewrite(self) -> crate::rewrite::RewriteView {
        crate::rewrite::RewriteView { model_id: self.model, effort: self.effort, fast: self.fast }
    }
}

impl crate::wire::AppendView {
    /// The message after a rewriting; one that requests no run stays as it is.
    pub open spec fn rewritten(self, rewrite: crate::rewrite::RewriteView) -> Self {
        match self.message {
            crate::wire::MessageView::RunRequest(request) => crate::wire::AppendView {
                message: crate::wire::MessageView::RunRequest(rewrite.applied(request)),
                ..self
            },
            crate::wire::MessageView::Other => self,
        }
    }
}

/// Makes a message ask for the model that its run was admitted with.
pub fn sync_decoded_model(decoded: &mut DecodedAppend, admitted: &AdmittedRun)
    ensures
        final(decoded)@ == old(decoded)@.rewritten(admitted@.rewrite()),
{
    let rewrite = ModelRewrite {
        model_id: admitted.model.clone(),
        effort: admitted.effort.clone(),
        fast: admitted.fast,
    };
    match &mut decoded.message {
        ClientMessage::RunRequest(request) => {
            rewrite.apply(request);
        },
        ClientMessage::Other => {},
    }
}

/// Whether a run was admitted with something else than its candidate: it was where an active
/// lifecycle keeps what it has.
pub fn selection_differs(prepared: &PreparedRunModel, admitted: &AdmittedRun) -> (r: bool)
    ensures
        r == (prepared@.model != admitted@.model || prepared@.effort != admitted@.effort
            || prepared@.fast != admitted@.fast),
{
    let same_fast = match (prepared.fast, admitted.fast) {
        (Some(a), Some(b)) => a == b,
        (None, None) => true,
        _ => false,
    };
    !same_text(prepared.model.as_str(), admitted.model.as_str()) || !prepared.effort.same(
        &admitted.effort,
    ) || !same_fast
}

/// A request that asks for nothing but what its candidate is, and whose candidate no active
/// lifecycle stands against, goes on as it came: it needs no rewriting, and rewriting it would
/// change nothing.
pub proof fn law_undecided_requests_keep_their_wire(
    registry: crate::registry::RegistryView,
    decoded: crate::wire::AppendView,
    prepared: crate::registry::PreparedView,
    local: bool,
)
    requires
        decoded.model_id() == Some(prepared.original),
        prepared.model == prepared.original,
        prepared.role == ModelRole::Child ==> prepared.effort is Unchanged && prepared.fast is None
            && registry.active_child(decoded.request_id) is None,
    ensures
        ({
            let owned = registry.owned(decoded.request_id, prepared);
            let admitted = registry.admitted(decoded.request_id, prepared, owned, local);
            &&& !admitted.rewrites_wire(prepared.original)
            &&& decoded.rewritten(admitted.rewrite()) == decoded
        }),
{
    let owned = registry.owned(decoded.request_id, prepared);
    let admitted = registry.admitted(decoded.request_id, prepared, owned, local);
    crate::lifecycle::law_candidate_is_admitted_as_it_is(
        registry,
        decoded.request_id,
        prepared,
        local,
    );
    match decoded.message {
        crate::wire::MessageView::RunRequest(request) => {
            crate::rewrite::law_undecided_rewrite_changes_nothing(admitted.rewrite(), request);
        },
        crate::wire::MessageView::Other => {},
    }
}

/// The run of a primary agent, one without a type or with an empty one, is a candidate for the
/// model that it asks for, whatever the policy says.
pub proof fn law_primary_agents_keep_their_model(
    registry: crate::registry::RegistryView,
    decoded: crate::wire::AppendView,
    headers: Map<Seq<char>, Seq<Seq<u8>>>,
    request: crate::wire::RequestView,
)
    requires
        decoded.message == crate::wire::MessageView::RunRequest(request),
        request.model_id() is Some,
        request.subagent_type_name is None || request.subagent_type_name->0.len() == 0,
    ensures
        candidate(registry, decoded, headers) matches Ok(Some(prepared)) && prepared.role
            == ModelRole::Primary && prepared.model == prepared.original && Some(prepared.original)
            == request.model_id(),
{
}

/// The run of a subagent whose type the client switches off is a candidate for the model that it
/// asks for, whatever the policy says.
pub proof fn law_disabled_subagents_keep_their_model(
    registry: crate::registry::RegistryView,
    decoded: crate::wire::AppendView,
    headers: Map<Seq<char>, Seq<Seq<u8>>>,
    request: crate::wire::RequestView,
)
    requires
        decoded.message == crate::wire::MessageView::RunRequest(request),
        request.model_id() is Some,
        request.kind() is Some,
        is_disabled(request, request.kind()->0),
    ensures
        candidate(registry, decoded, headers) matches Ok(Some(prepared)) && prepared.role
            == ModelRole::Child && prepared.model == prepared.original && Some(prepared.original)
            == request.model_id() && prepared.effort is Unchanged && prepared.fast is None,
{
}

/// The run of a subagent that no rule covers is a candidate for the model that it asks for, as
/// it asks for it, unless it asks to inherit.
pub proof fn law_unmatched_subagents_keep_their_model(
    registry: crate::registry::RegistryView,
    decoded: crate::wire::AppendView,
    headers: Map<Seq<char>, Seq<Seq<u8>>>,
    request: crate::wire::RequestView,
)
    requires
        decoded.message == crate::wire::MessageView::RunRequest(request),
        request.model_id() is Some,
        request.model_id()->0 != "inherit"@,
        request.kind() is Some,
        !registry.models.policy.types.contains_key(request.kind()->0),
        !registry.models.policy.mapping.contains_key(request.model_id()->0),
        registry.models.policy.fallback is None,
    ensures
        candidate(registry, decoded, headers) matches Ok(Some(prepared)) && prepared.role
            == ModelRole::Child && prepared.model == prepared.original && Some(prepared.original)
            == request.model_id() && prepared.effort is Unchanged && prepared.fast is None,
{
}

/// A subagent that asks to inherit, and that no rule covers, is a candidate for the model that
/// its parent has, as it is: no mapping is applied to that model.
pub proof fn law_inherit_is_the_parent_model(
    registry: crate::registry::RegistryView,
    decoded: crate::wire::AppendView,
    headers: Map<Seq<char>, Seq<Seq<u8>>>,
    request: crate::wire::RequestView,
    parent: ParentView,
    model: Seq<char>,
)
    requires
        decoded.message == crate::wire::MessageView::RunRequest(request),
        request.model_id() == Some("inherit"@),
        request.kind() is Some,
        !is_disabled(request, request.kind()->0),
        !registry.models.policy.types.contains_key(request.kind()->0),
        !registry.models.policy.mapping.contains_key("inherit"@),
        registry.models.policy.fallback is None,
        parent_of(headers) == Ok::<Option<ParentView>, ErrorView>(Some(parent)),
        registry.run_model(parent.request_id) == Some(model),
    ensures
        candidate(registry, decoded, headers) matches Ok(Some(prepared)) && prepared.model == model
            && prepared.effort is Unchanged && prepared.fast is None,
{
}

/// Under a policy whose rules were accepted, a run that does not ask to inherit always has its
/// candidate. A Composer model that a rule chose runs without an effort, every other one with
/// the effort of the rule, and each with the speed of the rule.
pub proof fn law_accepted_rules_always_decide(
    registry: crate::registry::RegistryView,
    request: crate::wire::RequestView,
    headers: Map<Seq<char>, Seq<Seq<u8>>>,
    kind: Seq<char>,
    original: Seq<char>,
)
    requires
        registry.models.is_valid(),
        original != "inherit"@,
    ensures
        child_candidate(registry, request, headers, kind, original) is Ok,
        ({
            let resolution = registry.models.policy.resolution(kind, original);
            let prepared = child_candidate(registry, request, headers, kind, original)->Ok_0;
            !is_disabled(request, kind) && resolution.reason != ResolutionReason::Original ==> {
                &&& prepared.model == resolution.target.model
                &&& prepared.fast == Some(resolution.target.fast)
                &&& prepared.effort == if crate::policy::is_composer(prepared.model) {
                    EffortView::Clear
                } else {
                    EffortView::SetTo(resolution.target.effort->0)
                }
            }
        }),
{
    if registry.models.policy.resolution(kind, original).reason != ResolutionReason::Original {
        crate::policy_file::law_accepted_rules_choose_valid_targets(
            registry.models.policy,
            kind,
            original,
        );
    }
}

/// Under a policy whose rules were accepted, a run of a subagent that a rule covers is always
/// written anew, even for the model that it asks for: its effort and its speed are decided.
pub proof fn law_matched_subagents_are_rewritten(
    registry: crate::registry::RegistryView,
    request: crate::wire::RequestView,
    headers: Map<Seq<char>, Seq<Seq<u8>>>,
    id: Seq<char>,
    kind: Seq<char>,
    original: Seq<char>,
    local: bool,
)
    requires
        registry.models.is_valid(),
        registry.models.policy.resolution(kind, original).reason != ResolutionReason::Original,
        !is_disabled(request, kind),
        registry.active_child(id) is None,
    ensures
        child_candidate(registry, request, headers, kind, original) matches Ok(prepared)
            && registry.admitted(
            id,
            prepared,
            registry.owned(id, prepared),
            local,
        ).rewrites_wire(original),
{
    crate::policy_file::law_accepted_rules_choose_valid_targets(
        registry.models.policy,
        kind,
        original,
    );
    let prepared = child_candidate(registry, request, headers, kind, original)->Ok_0;
    crate::lifecycle::law_candidate_is_admitted_as_it_is(registry, id, prepared, local);
}

/// A model that an accepted policy names is served here or goes upstream, and is never refused,
/// for as long as the store holds the hashes that it held when the policy was accepted.
pub proof fn law_accepted_models_are_not_refused(
    policy: crate::policy::PolicyView,
    answers: Map<Seq<char>, bool>,
    model: Seq<char>,
    known: bool,
)
    requires
        policy.is_finite(),
        crate::policy_file::reference_steps(policy.referenced_models(), answers) is Accepted,
        policy.references(model),
        answers.contains_key(model) && answers[model] ==> known,
    ensures
        crate::registry::locality(model, known) is Ok,
{
    crate::policy_file::law_accepted_references_are_known(policy, answers, model);
}

/// After it was made to ask for what its run was admitted with, a message that requests a run
/// asks for the admitted model.
pub proof fn law_synced_message_asks_for_the_admitted_model(
    decoded: crate::wire::AppendView,
    admitted: crate::registry::AdmittedView,
)
    requires
        decoded.message is RunRequest,
    ensures
        decoded.rewritten(admitted.rewrite()).model_id() == Some(admitted.model),
        decoded.rewritten(admitted.rewrite()).request_id == decoded.request_id,
        decoded.rewritten(admitted.rewrite()).seqno == decoded.seqno,
{
    crate::rewrite::law_applied_request_selects_model(
        admitted.rewrite(),
        decoded.message->RunRequest_0,
    );
}

/// The run of a subagent that a rule covers is a candidate for the target of that rule, whatever
/// model it asks for, `inherit` included, and whatever its headers say and its parent runs: the
/// rule for the type, else that for the model that it asks for, else the fallback. A Composer model
/// runs without an effort, every other one with that of the rule, or is refused for want of it.
pub proof fn law_covered_subagents_follow_their_rule(
    registry: crate::registry::RegistryView,
    decoded: crate::wire::AppendView,
    headers: Map<Seq<char>, Seq<Seq<u8>>>,
    request: crate::wire::RequestView,
    kind: Seq<char>,
    original: Seq<char>,
    target: crate::policy::TargetView,
)
    requires
        decoded.message == crate::wire::MessageView::RunRequest(request),
        request.subagent_type_name == Some(kind),
        kind.len() > 0,
        request.model_id() == Some(original),
        !is_disabled(request, kind),
        registry.models.policy.types.contains_key(kind) ==> target
            == registry.models.policy.types[kind],
        !registry.models.policy.types.contains_key(kind)
            && registry.models.policy.mapping.contains_key(original) ==> target
            == registry.models.policy.mapping[original],
        !registry.models.policy.types.contains_key(kind)
            && !registry.models.policy.mapping.contains_key(original)
            ==> registry.models.policy.fallback == Some(target),
        target.model != "inherit"@,
    ensures
        crate::text::has_prefix(target.model, "composer-"@) ==> candidate(
            registry,
            decoded,
            headers,
        ) == Ok::<_, ErrorView>(
            Some(
                crate::registry::PreparedView {
                    original,
                    model: target.model,
                    effort: EffortView::Clear,
                    fast: Some(target.fast),
                    role: ModelRole::Child,
                },
            ),
        ),
        !crate::text::has_prefix(target.model, "composer-"@) && target.effort is Some
            ==> candidate(registry, decoded, headers) == Ok::<_, ErrorView>(
            Some(
                crate::registry::PreparedView {
                    original,
                    model: target.model,
                    effort: EffortView::SetTo(target.effort->0),
                    fast: Some(target.fast),
                    role: ModelRole::Child,
                },
            ),
        ),
        !crate::text::has_prefix(target.model, "composer-"@) && target.effort is None
            ==> candidate(registry, decoded, headers) == Err::<
            Option<crate::registry::PreparedView>,
            _,
        >(
            ErrorView::Config(
                "subagent policy non-Composer target "@ + target.model + " requires effort"@,
            ),
        ),
{
}

/// Under a policy whose rules were accepted, a subagent that a rule covers is never refused: it is
/// a candidate for the target of the rule, also where it asks to inherit, whatever its headers say
/// and its parent runs.
pub proof fn law_accepted_rules_cover_inherit(
    registry: crate::registry::RegistryView,
    decoded: crate::wire::AppendView,
    headers: Map<Seq<char>, Seq<Seq<u8>>>,
    request: crate::wire::RequestView,
    kind: Seq<char>,
    original: Seq<char>,
    target: crate::policy::TargetView,
)
    requires
        registry.models.is_valid(),
        decoded.message == crate::wire::MessageView::RunRequest(request),
        request.subagent_type_name == Some(kind),
        kind.len() > 0,
        request.model_id() == Some(original),
        !is_disabled(request, kind),
        registry.models.policy.types.contains_key(kind) ==> target
            == registry.models.policy.types[kind],
        !registry.models.policy.types.contains_key(kind)
            && registry.models.policy.mapping.contains_key(original) ==> target
            == registry.models.policy.mapping[original],
        !registry.models.policy.types.contains_key(kind)
            && !registry.models.policy.mapping.contains_key(original)
            ==> registry.models.policy.fallback == Some(target),
    ensures
        candidate(registry, decoded, headers) matches Ok(Some(prepared)) && {
            &&& prepared.original == original
            &&& prepared.model == target.model
            &&& prepared.fast == Some(target.fast)
            &&& prepared.role == ModelRole::Child
            &&& crate::text::has_prefix(target.model, "composer-"@) ==> prepared.effort
                == EffortView::Clear
            &&& !crate::text::has_prefix(target.model, "composer-"@) ==> target.effort is Some
                && prepared.effort == EffortView::SetTo(target.effort->0)
        },
{
    crate::policy_file::law_accepted_rules_choose_valid_targets(
        registry.models.policy,
        kind,
        original,
    );
    law_covered_subagents_follow_their_rule(
        registry,
        decoded,
        headers,
        request,
        kind,
        original,
        target,
    );
}

/// A subagent that asks to inherit, that no rule covers and that is not switched off, gets the
/// model of its parent as it is, or is refused: for what is wrong with its headers, for want of
/// them, or because its parent has no model.
pub proof fn law_inherit_is_the_parent_model_or_refused(
    registry: crate::registry::RegistryView,
    decoded: crate::wire::AppendView,
    headers: Map<Seq<char>, Seq<Seq<u8>>>,
    request: crate::wire::RequestView,
    kind: Seq<char>,
)
    requires
        decoded.message == crate::wire::MessageView::RunRequest(request),
        request.subagent_type_name == Some(kind),
        kind.len() > 0,
        request.model_id() == Some("inherit"@),
        !is_disabled(request, kind),
        !registry.models.policy.types.contains_key(kind),
        !registry.models.policy.mapping.contains_key("inherit"@),
        registry.models.policy.fallback is None,
    ensures
        parent_of(headers) matches Err(error) ==> candidate(registry, decoded, headers) == Err::<
            Option<crate::registry::PreparedView>,
            _,
        >(error),
        parent_of(headers) matches Ok(None) ==> candidate(registry, decoded, headers) == Err::<
            Option<crate::registry::PreparedView>,
            _,
        >(ErrorView::Protocol("subagent model inherit requires parent headers"@)),
        parent_of(headers) matches Ok(Some(parent)) ==> match registry.run_model(
            parent.request_id,
        ) {
            None => candidate(registry, decoded, headers) == Err::<
                Option<crate::registry::PreparedView>,
                _,
            >(ErrorView::Protocol("subagent model inherit requires an active parent model"@)),
            Some(model) => candidate(registry, decoded, headers) == Ok::<_, ErrorView>(
                Some(
                    crate::registry::PreparedView {
                        original: "inherit"@,
                        model,
                        effort: EffortView::Unchanged,
                        fast: None,
                        role: ModelRole::Child,
                    },
                ),
            ),
        },
{
}

/// What no rule and no parent decides goes on exactly as it was asked for: the run of a primary
/// agent, that of a subagent that is switched off, and that of one that no rule covers and that
/// names a model. A message that requests no run, or selects no model, has no candidate.
pub proof fn law_undecided_runs_are_kept_whole(
    registry: crate::registry::RegistryView,
    decoded: crate::wire::AppendView,
    headers: Map<Seq<char>, Seq<Seq<u8>>>,
    request: crate::wire::RequestView,
)
    ensures
        decoded.message == crate::wire::MessageView::Other ==> candidate(registry, decoded, headers)
            == Ok::<Option<crate::registry::PreparedView>, ErrorView>(None),
        decoded.message == crate::wire::MessageView::RunRequest(request) && request.model_id()
            is None ==> candidate(registry, decoded, headers) == Ok::<
            Option<crate::registry::PreparedView>,
            ErrorView,
        >(None),
        decoded.message == crate::wire::MessageView::RunRequest(request) && request.model_id()
            is Some && (request.subagent_type_name is None || request.subagent_type_name->0.len()
            == 0) ==> candidate(registry, decoded, headers) == Ok::<_, ErrorView>(
            Some(
                crate::registry::PreparedView {
                    original: request.model_id()->0,
                    model: request.model_id()->0,
                    effort: EffortView::Unchanged,
                    fast: None,
                    role: ModelRole::Primary,
                },
            ),
        ),
        decoded.message == crate::wire::MessageView::RunRequest(request) && request.model_id()
            is Some && request.subagent_type_name is Some && request.subagent_type_name->0.len() > 0
            && (is_disabled(request, request.subagent_type_name->0) || (request.model_id()->0
            != "inherit"@ && !registry.models.policy.types.contains_key(
            request.subagent_type_name->0,
        ) && !registry.models.policy.mapping.contains_key(request.model_id()->0)
            && registry.models.policy.fallback is None)) ==> candidate(registry, decoded, headers)
            == Ok::<_, ErrorView>(
            Some(
                crate::registry::PreparedView {
                    original: request.model_id()->0,
                    model: request.model_id()->0,
                    effort: EffortView::Unchanged,
                    fast: None,
                    role: ModelRole::Child,
                },
            ),
        ),
{
}

/// The first entry for a type decides whether the type is switched off; without an entry it is
/// not.
pub proof fn law_first_entry_switches_off(
    request: crate::wire::RequestView,
    kind: Seq<char>,
    i: int,
)
    requires
        0 <= i <= request.subagent_model_overrides.len(),
        forall|j: int|
            0 <= j < i ==> (#[trigger] request.subagent_model_overrides[j]).subagent_type != kind,
        i < request.subagent_model_overrides.len()
            ==> request.subagent_model_overrides[i].subagent_type == kind,
    ensures
        is_disabled(request, kind) <==> i < request.subagent_model_overrides.len()
            && request.subagent_model_overrides[i].selection == Some(
            crate::wire::SelectionView::Disabled(true),
        ),
{
    lemma_first_selection(request.subagent_model_overrides, kind, i);
}

proof fn lemma_first_selection(overrides: Seq<crate::wire::OverrideView>, kind: Seq<char>, i: int)
    requires
        0 <= i <= overrides.len(),
        forall|j: int| 0 <= j < i ==> (#[trigger] overrides[j]).subagent_type != kind,
        i < overrides.len() ==> overrides[i].subagent_type == kind,
    ensures
        selection_for(overrides, kind) == if i < overrides.len() {
            overrides[i].selection
        } else {
            None
        },
    decreases i,
{
    if i > 0 {
        assert(overrides[0].subagent_type != kind);
        let rest = overrides.skip(1);
        assert forall|j: int| 0 <= j < i - 1 implies (#[trigger] rest[j]).subagent_type != kind by {
            assert(rest[j] == overrides[j + 1]);
        }
        lemma_first_selection(rest, kind, i - 1);
    }
}

/// The text of a header is that of its first value. A header that is not there has none, and one
/// that cannot be read as text is refused by its name.
pub proof fn law_header_text_is_that_of_its_value(
    headers: Map<Seq<char>, Seq<Seq<u8>>>,
    name: Seq<char>,
)
    ensures
        crate::http::header_value(headers, name) is None ==> text_of_header(headers, name) == Ok::<
            Option<Seq<char>>,
            ErrorView,
        >(None),
        crate::http::header_value(headers, name) is Some && crate::http::visible_text(
            crate::http::header_value(headers, name)->0,
        ) is Some ==> text_of_header(headers, name) == Ok::<_, ErrorView>(
            crate::http::visible_text(crate::http::header_value(headers, name)->0),
        ),
        crate::http::header_value(headers, name) is Some && crate::http::visible_text(
            crate::http::header_value(headers, name)->0,
        ) is None ==> text_of_header(headers, name) == Err::<Option<Seq<char>>, ErrorView>(
            ErrorView::Protocol(
                "invalid "@ + name + " header: failed to convert header to a str"@,
            ),
        ),
{
}

/// A parent is named by two headers, the request and the tool call, and by both or by none of
/// them. One that cannot be read is refused, that of the request first.
pub proof fn law_parents_are_named_by_two_headers(headers: Map<Seq<char>, Seq<Seq<u8>>>)
    ensures
        ({
            let id = text_of_header(headers, "x-parent-request-id"@);
            let call = text_of_header(headers, "x-parent-agent-tool-call-id"@);
            &&& id matches Err(error) ==> parent_of(headers) == Err::<Option<ParentView>, ErrorView>(
                error,
            )
            &&& id is Ok && call is Err ==> parent_of(headers) == Err::<
                Option<ParentView>,
                ErrorView,
            >(call->Err_0)
            &&& id == Ok::<Option<Seq<char>>, ErrorView>(None) && call == Ok::<
                Option<Seq<char>>,
                ErrorView,
            >(None) ==> parent_of(headers) == Ok::<Option<ParentView>, ErrorView>(None)
            &&& id is Ok && id->Ok_0 is Some && call is Ok && call->Ok_0 is Some ==> (parent_of(
                headers,
            ) matches Ok(Some(parent)) && parent.request_id == id->Ok_0->0 && parent.tool_call_id
                == call->Ok_0->0)
            &&& id is Ok && call is Ok && (id->Ok_0 is Some) != (call->Ok_0 is Some) ==> parent_of(
                headers,
            ) == Err::<Option<ParentView>, ErrorView>(
                ErrorView::Protocol("Cursor subagent request must include both parent headers"@),
            )
        }),
{
}

/// A message is written anew with what its run was admitted with: the model, the effort and the
/// speed. One that requests no run stays as it is.
pub proof fn law_messages_are_written_with_what_was_admitted(
    decoded: crate::wire::AppendView,
    admitted: crate::registry::AdmittedView,
    rewrite: crate::rewrite::RewriteView,
    request: crate::wire::RequestView,
)
    ensures
        admitted.rewrite().model_id == admitted.model,
        admitted.rewrite().effort == admitted.effort,
        admitted.rewrite().fast == admitted.fast,
        decoded.message == crate::wire::MessageView::Other ==> decoded.rewritten(rewrite)
            == decoded,
        decoded.message == crate::wire::MessageView::RunRequest(request) ==> decoded.rewritten(
            rewrite,
        ).message == crate::wire::MessageView::RunRequest(rewrite.applied(request)),
        decoded.rewritten(rewrite).request_id == decoded.request_id,
        decoded.rewritten(rewrite).seqno == decoded.seqno,
{
}

/// A rule that names `inherit`, which no accepted policy has, stands for the model of the parent,
/// with the effort and the speed of the rule, and is refused as a request to inherit is.
pub proof fn law_rule_that_inherits_takes_the_parent_model(
    registry: crate::registry::RegistryView,
    decoded: crate::wire::AppendView,
    headers: Map<Seq<char>, Seq<Seq<u8>>>,
    request: crate::wire::RequestView,
    kind: Seq<char>,
    original: Seq<char>,
    target: crate::policy::TargetView,
    model: Seq<char>,
)
    requires
        decoded.message == crate::wire::MessageView::RunRequest(request),
        request.subagent_type_name == Some(kind),
        kind.len() > 0,
        request.model_id() == Some(original),
        !is_disabled(request, kind),
        registry.models.policy.types.contains_key(kind) ==> target
            == registry.models.policy.types[kind],
        !registry.models.policy.types.contains_key(kind)
            && registry.models.policy.mapping.contains_key(original) ==> target
            == registry.models.policy.mapping[original],
        !registry.models.policy.types.contains_key(kind)
            && !registry.models.policy.mapping.contains_key(original)
            ==> registry.models.policy.fallback == Some(target),
        target.model == "inherit"@,
    ensures
        parent_of(headers) matches Err(error) ==> candidate(registry, decoded, headers) == Err::<
            Option<crate::registry::PreparedView>,
            _,
        >(error),
        parent_of(headers) matches Ok(None) ==> candidate(registry, decoded, headers) == Err::<
            Option<crate::registry::PreparedView>,
            _,
        >(ErrorView::Protocol("subagent model inherit requires parent headers"@)),
        parent_of(headers) matches Ok(Some(parent)) ==> {
            &&& registry.run_model(parent.request_id) is None ==> candidate(
                registry,
                decoded,
                headers,
            ) == Err::<Option<crate::registry::PreparedView>, _>(
                ErrorView::Protocol("subagent model inherit requires an active parent model"@),
            )
            &&& registry.run_model(parent.request_id) == Some(model) && crate::text::has_prefix(
                model,
                "composer-"@,
            ) ==> candidate(registry, decoded, headers) == Ok::<_, ErrorView>(
                Some(
                    crate::registry::PreparedView {
                        original,
                        model,
                        effort: EffortView::Clear,
                        fast: Some(target.fast),
                        role: ModelRole::Child,
                    },
                ),
            )
            &&& registry.run_model(parent.request_id) == Some(model) && !crate::text::has_prefix(
                model,
                "composer-"@,
            ) ==> candidate(registry, decoded, headers) == match target.effort {
                Some(effort) => Ok::<_, ErrorView>(
                    Some(
                        crate::registry::PreparedView {
                            original,
                            model,
                            effort: EffortView::SetTo(effort),
                            fast: Some(target.fast),
                            role: ModelRole::Child,
                        },
                    ),
                ),
                None => Err(
                    ErrorView::Config(
                        "subagent policy non-Composer target "@ + model + " requires effort"@,
                    ),
                ),
            }
        },
{
}

} // verus!
