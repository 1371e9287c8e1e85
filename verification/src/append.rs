//! How a message that a client appends is taken: refused, admitted, or passed on.
use axum::http::HeaderMap;
use vstd::prelude::*;

use crate::error::{Error, ErrorView};
use crate::http::set_content_length;
use crate::registry::{AdmittedRun, PreparedRunModel, TransportRegistry};
use crate::selection::{parent_headers, select_run_model, sync_decoded_model, TransportParent};
use crate::wire::DecodedAppend;

verus! {

/// What is recorded of a message.
#[derive(Debug, PartialEq, Eq)]
pub struct TraceOutcome {
    pub accepted: bool,
    pub route_outcome: String,
    pub error: Option<String>,
}

/// The value of a [`TraceOutcome`].
pub struct OutcomeView {
    pub accepted: bool,
    pub route_outcome: Seq<char>,
    pub error: Option<Seq<char>>,
}

impl View for TraceOutcome {
    type V = OutcomeView;

    open spec fn view(&self) -> OutcomeView {
        OutcomeView {
            accepted: self.accepted,
            route_outcome: self.route_outcome@,
            error: crate::policy::optional_text(self.error),
        }
    }
}

/// The value of one field of a record.
#[derive(Debug, PartialEq, Eq)]
pub enum TraceField {
    Flag(bool),
    Text(String),
}

/// The value of a [`TraceField`].
pub enum FieldView {
    Flag(bool),
    Text(Seq<char>),
}

impl View for TraceField {
    type V = FieldView;

    open spec fn view(&self) -> FieldView {
        match self {
            TraceField::Flag(flag) => FieldView::Flag(*flag),
            TraceField::Text(text) => FieldView::Text(text@),
        }
    }
}

/// The values of named fields.
pub open spec fn field_views(fields: Seq<(String, TraceField)>) -> Seq<(Seq<char>, FieldView)> {
    fields.map_values(|field: (String, TraceField)| (field.0@, field.1@))
}

impl OutcomeView {
    /// The fields that a record gets, in the order in which they are set.
    pub open spec fn fields(self) -> Seq<(Seq<char>, FieldView)> {
        let fields = seq![
            ("accepted"@, FieldView::Flag(self.accepted)),
            ("route_outcome"@, FieldView::Text(self.route_outcome)),
        ];
        match self.error {
            Some(error) => fields.push(("error"@, FieldView::Text(error))),
            None => fields,
        }
    }
}

/// The fields that a record gets, in the order in which they are set.
pub fn trace_outcome(outcome: TraceOutcome) -> (r: Vec<(String, TraceField)>)
    ensures
        field_views(r@) == outcome@.fields(),
{
    let mut fields: Vec<(String, TraceField)> = Vec::new();
    fields.push(("accepted".to_owned(), TraceField::Flag(outcome.accepted)));
    fields.push(("route_outcome".to_owned(), TraceField::Text(outcome.route_outcome)));
    if let Some(error) = outcome.error {
        fields.push(("error".to_owned(), TraceField::Text(error)));
    }
    proof {
        assert(field_views(fields@) =~= outcome@.fields());
    }
    fields
}

/// Why a message is refused, and what is recorded of it.
#[derive(Debug, PartialEq, Eq)]
pub struct Refusal {
    pub error: Error,
    /// The route under which a new record begins; `None` goes on with the record that is there.
    pub route: Option<String>,
    /// What is recorded, where anything is.
    pub outcome: Option<TraceOutcome>,
}

/// The value of a [`Refusal`].
pub struct RefusalView {
    pub error: ErrorView,
    pub route: Option<Seq<char>>,
    pub outcome: Option<OutcomeView>,
}

impl View for Refusal {
    type V = RefusalView;

    open spec fn view(&self) -> RefusalView {
        RefusalView {
            error: self.error@,
            route: crate::policy::optional_text(self.route),
            outcome: match self.outcome {
                Some(outcome) => Some(outcome@),
                None => None,
            },
        }
    }
}

/// What becomes of a message that is not refused at once.
#[derive(Debug, PartialEq, Eq)]
pub enum AppendPlan {
    /// It requests a run, which is to be admitted.
    Admit { prepared: PreparedRunModel, parent: Option<TransportParent> },
    /// It belongs to a run that is served locally or upstream.
    Resume { local: bool, parent: Option<TransportParent> },
}

/// The value of an [`AppendPlan`].
pub enum PlanView {
    Admit {
        prepared: crate::registry::PreparedView,
        parent: Option<crate::selection::ParentView>,
    },
    Resume { local: bool, parent: Option<crate::selection::ParentView> },
}

/// The value of an optional parent.
pub open spec fn optional_parent(parent: Option<TransportParent>) -> Option<
    crate::selection::ParentView,
> {
    match parent {
        Some(parent) => Some(parent@),
        None => None,
    }
}

impl View for AppendPlan {
    type V = PlanView;

    open spec fn view(&self) -> PlanView {
        match self {
            AppendPlan::Admit { prepared, parent } => PlanView::Admit {
                prepared: prepared@,
                parent: optional_parent(*parent),
            },
            AppendPlan::Resume { local, parent } => PlanView::Resume {
                local: *local,
                parent: optional_parent(*parent),
            },
        }
    }
}

/// The refusal of a message whose headers name no parent as they should.
pub open spec fn invalid_parent(error: ErrorView, selects: bool) -> RefusalView {
    RefusalView {
        error,
        route: if selects {
            Some("rejected"@)
        } else {
            None
        },
        outcome: Some(
            OutcomeView {
                accepted: false,
                route_outcome: "invalid_parent"@,
                error: Some(error.text()),
            },
        ),
    }
}

/// The refusal of a message that belongs to no run.
pub open spec fn missing_transport() -> RefusalView {
    RefusalView {
        error: ErrorView::Protocol("first BidiAppend message must select a model"@),
        route: None,
        outcome: Some(
            OutcomeView { accepted: false, route_outcome: "missing_transport"@, error: None },
        ),
    }
}

/// What becomes of a message: one that requests a run is to be admitted, any other goes to the
/// transport that its run has, the local one first. The headers are checked before that, so that
/// a refused message binds nothing.
pub open spec fn append_plan(
    registry: crate::registry::RegistryView,
    decoded: crate::wire::AppendView,
    headers: Map<Seq<char>, Seq<Seq<u8>>>,
) -> Result<PlanView, RefusalView> {
    match crate::selection::candidate(registry, decoded, headers) {
        Err(error) => Err(RefusalView { error, route: None, outcome: None }),
        Ok(prepared) => match crate::selection::parent_of(headers) {
            Err(error) => Err(invalid_parent(error, prepared is Some)),
            Ok(parent) => match prepared {
                Some(prepared) => Ok(PlanView::Admit { prepared, parent }),
                None => match registry.route(decoded.request_id) {
                    Some(route) => Ok(
                        PlanView::Resume {
                            local: route == crate::registry::TransportRoute::Local,
                            parent,
                        },
                    ),
                    None => Err(missing_transport()),
                },
            },
        },
    }
}

/// The value of a plan or a refusal.
pub open spec fn plan_view(plan: Result<AppendPlan, Refusal>) -> Result<PlanView, RefusalView> {
    match plan {
        Ok(plan) => Ok(plan@),
        Err(refusal) => Err(refusal@),
    }
}

/// Decides what becomes of a message. Nothing is bound yet.
pub fn begin_append(
    registry: &TransportRegistry,
    decoded: &DecodedAppend,
    headers: &HeaderMap,
) -> (r: Result<AppendPlan, Refusal>)
    ensures
        plan_view(r) == append_plan(registry@, decoded@, crate::http::headers_of(*headers)),
{
    let prepared = match select_run_model(registry, decoded, headers) {
        Ok(prepared) => prepared,
        Err(error) => {
            return Err(Refusal { error, route: None, outcome: None });
        },
    };
    let parent = match parent_headers(headers) {
        Ok(parent) => parent,
        Err(error) => {
            let route = if prepared.is_some() {
                Some("rejected".to_owned())
            } else {
                None
            };
            let outcome = TraceOutcome {
                accepted: false,
                route_outcome: "invalid_parent".to_owned(),
                error: Some(error.message().to_owned()),
            };
            return Err(Refusal { error, route, outcome: Some(outcome) });
        },
    };
    if let Some(prepared) = prepared {
        return Ok(AppendPlan::Admit { prepared, parent });
    }
    if registry.local(decoded.request_id.as_str()).is_some() {
        return Ok(AppendPlan::Resume { local: true, parent });
    }
    if registry.upstream(decoded.request_id.as_str()) {
        return Ok(AppendPlan::Resume { local: false, parent });
    }
    Err(
        Refusal {
            error: Error::Protocol("first BidiAppend message must select a model".to_owned()),
            route: None,
            outcome: Some(
                TraceOutcome {
                    accepted: false,
                    route_outcome: "missing_transport".to_owned(),
                    error: None,
                },
            ),
        },
    )
}

/// Admits the run that a message requests, and makes the message ask for what was admitted.
/// Returns the admission and whether the message must be written anew. `known` is whether the
/// store holds the model of [`TransportRegistry::owned_selection`]. A refused admission changes
/// nothing.
pub fn admit_append(
    registry: &mut TransportRegistry,
    decoded: &mut DecodedAppend,
    prepared: &PreparedRunModel,
    known: bool,
) -> (r: Result<(AdmittedRun, bool), Error>)
    requires
        crate::registry::locality(
            old(registry)@.owned(old(decoded)@.request_id, prepared@).model,
            known,
        ) == Ok::<bool, ErrorView>(false) ==> old(registry)@.upstream_generation(
            old(decoded)@.request_id,
        ) < u64::MAX,
    ensures
        ({
            let id = old(decoded)@.request_id;
            let owned = old(registry)@.owned(id, prepared@);
            match crate::registry::locality(owned.model, known) {
                Ok(local) => {
                    let admitted = old(registry)@.admitted(id, prepared@, owned, local);
                    &&& r is Ok
                    &&& r->Ok_0.0@ == admitted
                    &&& r->Ok_0.1 == admitted.rewrites_wire(prepared@.original)
                    &&& final(registry)@ == old(registry)@.after_admission(
                        id,
                        prepared@,
                        owned,
                        local,
                    )
                    &&& final(decoded)@ == old(decoded)@.rewritten(admitted.rewrite())
                },
                Err(error) => {
                    &&& r is Err
                    &&& r->Err_0@ == error
                    &&& final(registry)@ == old(registry)@
                    &&& final(decoded)@ == old(decoded)@
                },
            }
        }),
{
    match registry.admit_run_model(decoded.request_id.as_str(), prepared, known) {
        Ok(admitted) => {
            sync_decoded_model(decoded, &admitted);
            let changed = admitted.rewrites_wire(prepared.original.as_str());
            Ok((admitted, changed))
        },
        Err(error) => Err(error),
    }
}

/// The body that a message goes upstream with.
#[derive(Debug, PartialEq, Eq)]
pub enum ForwardedBody {
    /// The bytes that came.
    Original,
    /// Bytes that were written anew.
    Rewritten(Vec<u8>),
}

impl ForwardedBody {
    /// The bytes, given those that came.
    pub open spec fn bytes(self, original: Seq<u8>) -> Seq<u8> {
        match self {
            ForwardedBody::Original => original,
            ForwardedBody::Rewritten(bytes) => bytes@,
        }
    }
}

/// The body that a message goes upstream with: the bytes that came, untouched, or the message
/// written anew, whose length the headers then tell.
pub fn forwarded_body(rewritten: Option<Vec<u8>>, headers: &mut HeaderMap) -> (r: ForwardedBody)
    requires
        rewritten is Some ==> crate::http::headers_of(*old(headers)).dom().len()
            <= crate::http::MAX_HEADER_NAMES,
    ensures
        match rewritten {
            Some(bytes) => r == ForwardedBody::Rewritten(bytes) && crate::http::headers_of(
                *final(headers),
            ) == crate::http::with_length(crate::http::headers_of(*old(headers)), bytes@.len()),
            None => r is Original && *final(headers) == *old(headers),
        },
{
    match rewritten {
        Some(bytes) => {
            set_content_length(headers, bytes.len());
            ForwardedBody::Rewritten(bytes)
        },
        None => ForwardedBody::Original,
    }
}

/// The name of the route of a run.
pub open spec fn route_name(local: bool) -> Seq<char> {
    if local {
        "local_byok"@
    } else {
        "cursor_official"@
    }
}

/// The name of the route of a run.
pub fn route_label(local: bool) -> (r: &'static str)
    ensures
        r@ == route_name(local),
{
    if local {
        "local_byok"
    } else {
        "cursor_official"
    }
}

/// The route under which a new record begins for a message that selects a model; any other goes
/// on with the record that is there.
pub fn trace_route(decoded: &DecodedAppend, local: bool) -> (r: Option<String>)
    ensures
        crate::policy::optional_text(r) == if decoded@.model_id() is Some {
            Some(route_name(local))
        } else {
            None
        },
{
    if decoded.model_id().is_some() {
        Some(route_label(local).to_owned())
    } else {
        None
    }
}

/// What is recorded of a message that went upstream.
pub fn upstream_outcome() -> (r: TraceOutcome)
    ensures
        r@ == (OutcomeView { accepted: true, route_outcome: "upstream"@, error: None }),
{
    TraceOutcome { accepted: true, route_outcome: "upstream".to_owned(), error: None }
}

/// What is recorded of a message that was given to a local transport, which may have refused it.
pub fn local_outcome(failure: Option<&str>) -> (r: TraceOutcome)
    ensures
        r@ == match failure {
            None => (OutcomeView { accepted: true, route_outcome: "local"@, error: None }),
            Some(text) => (OutcomeView {
                accepted: false,
                route_outcome: "command_rejected"@,
                error: Some(text@),
            }),
        },
{
    match failure {
        None => TraceOutcome { accepted: true, route_outcome: "local".to_owned(), error: None },
        Some(text) => TraceOutcome {
            accepted: false,
            route_outcome: "command_rejected".to_owned(),
            error: Some(text.to_owned()),
        },
    }
}

/// A message that selects no model is never admitted: it is refused, or goes where its run is
/// served. One that selects a model is refused or is to be admitted.
pub proof fn law_only_selecting_messages_are_admitted(
    registry: crate::registry::RegistryView,
    decoded: crate::wire::AppendView,
    headers: Map<Seq<char>, Seq<Seq<u8>>>,
)
    ensures
        append_plan(registry, decoded, headers) matches Ok(plan) ==> (plan is Admit
            <==> decoded.model_id() is Some),
        append_plan(registry, decoded, headers) matches Ok(PlanView::Resume { local, .. }) ==> (
        local <==> registry.local.contains_key(decoded.request_id)) && (local
            || registry.upstream.contains_key(decoded.request_id)),
{
}

/// A message is refused for its headers whatever else it asks for, and before anything is bound.
pub proof fn law_half_a_parent_is_refused(
    registry: crate::registry::RegistryView,
    decoded: crate::wire::AppendView,
    headers: Map<Seq<char>, Seq<Seq<u8>>>,
)
    requires
        crate::selection::parent_of(headers) is Err,
    ensures
        append_plan(registry, decoded, headers) is Err,
{
}

/// The fields of a record are whether the message was accepted, where it went, and the error, where
/// there was one, in this order.
pub proof fn law_records_have_their_fields(outcome: OutcomeView)
    ensures
        outcome.fields().len() == if outcome.error is Some {
            3nat
        } else {
            2nat
        },
        outcome.fields()[0].0 == "accepted"@,
        outcome.fields()[0].1 == FieldView::Flag(outcome.accepted),
        outcome.fields()[1].0 == "route_outcome"@,
        outcome.fields()[1].1 == FieldView::Text(outcome.route_outcome),
        outcome.error matches Some(error) ==> outcome.fields()[2].0 == "error"@
            && outcome.fields()[2].1 == FieldView::Text(error),
{
}

/// A message whose run has no candidate because of an error is refused for that error, and nothing
/// is recorded of it.
pub proof fn law_refused_candidates_are_not_recorded(
    registry: crate::registry::RegistryView,
    decoded: crate::wire::AppendView,
    headers: Map<Seq<char>, Seq<Seq<u8>>>,
    error: ErrorView,
)
    requires
        crate::selection::candidate(registry, decoded, headers) == Err::<
            Option<crate::registry::PreparedView>,
            ErrorView,
        >(error),
    ensures
        append_plan(registry, decoded, headers) matches Err(refusal) && refusal.error == error
            && refusal.route is None && refusal.outcome is None,
{
}

/// A message whose headers name no parent as they should is refused for that, and recorded as not
/// accepted with the error: under a route of its own where it selects a model, else under the one
/// that its run has.
pub proof fn law_invalid_parents_are_recorded(
    registry: crate::registry::RegistryView,
    decoded: crate::wire::AppendView,
    headers: Map<Seq<char>, Seq<Seq<u8>>>,
    error: ErrorView,
)
    requires
        crate::selection::parent_of(headers) == Err::<
            Option<crate::selection::ParentView>,
            ErrorView,
        >(error),
        crate::selection::candidate(registry, decoded, headers) is Ok,
    ensures
        append_plan(registry, decoded, headers) matches Err(refusal) && {
            &&& refusal.error == error
            &&& decoded.model_id() is Some ==> refusal.route == Some("rejected"@)
            &&& decoded.model_id() is None ==> refusal.route is None
            &&& refusal.outcome matches Some(outcome) && !outcome.accepted && outcome.route_outcome
                == "invalid_parent"@ && outcome.error == Some(error.text())
        },
{
}

/// A message whose headers are in order is to be admitted with its candidate where it has one.
/// Else it goes to the transport of its run: the local one, or the upstream one where there is no
/// local one. Where there is neither it is refused, and recorded as not accepted.
pub proof fn law_messages_go_where_their_run_is(
    registry: crate::registry::RegistryView,
    decoded: crate::wire::AppendView,
    headers: Map<Seq<char>, Seq<Seq<u8>>>,
    parent: Option<crate::selection::ParentView>,
)
    requires
        crate::selection::parent_of(headers) == Ok::<
            Option<crate::selection::ParentView>,
            ErrorView,
        >(parent),
    ensures
        crate::selection::candidate(registry, decoded, headers) matches Ok(Some(prepared))
            ==> append_plan(registry, decoded, headers) == Ok::<PlanView, RefusalView>(
            PlanView::Admit { prepared, parent },
        ),
        crate::selection::candidate(registry, decoded, headers) matches Ok(None) ==> {
            &&& registry.local.contains_key(decoded.request_id) ==> append_plan(
                registry,
                decoded,
                headers,
            ) == Ok::<PlanView, RefusalView>(PlanView::Resume { local: true, parent })
            &&& !registry.local.contains_key(decoded.request_id) && registry.upstream.contains_key(
                decoded.request_id,
            ) ==> append_plan(registry, decoded, headers) == Ok::<PlanView, RefusalView>(
                PlanView::Resume { local: false, parent },
            )
            &&& !registry.local.contains_key(decoded.request_id) && !registry.upstream.contains_key(
                decoded.request_id,
            ) ==> (append_plan(registry, decoded, headers) matches Err(refusal) && refusal.error
                == ErrorView::Protocol("first BidiAppend message must select a model"@)
                && refusal.route is None && refusal.outcome is Some && !refusal.outcome->0.accepted
                && refusal.outcome->0.route_outcome == "missing_transport"@
                && refusal.outcome->0.error is None)
        },
{
}

/// The names of the two routes, and the bytes that go upstream: those that came, or those that were
/// written anew.
pub proof fn law_routes_and_bodies_have_their_forms(original: Seq<u8>, rewritten: Vec<u8>)
    ensures
        route_name(true) == "local_byok"@,
        route_name(false) == "cursor_official"@,
        ForwardedBody::Original.bytes(original) == original,
        ForwardedBody::Rewritten(rewritten).bytes(original) == rewritten@,
{
}

} // verus!
