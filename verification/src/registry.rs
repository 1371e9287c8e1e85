//! Which transport serves a request, and which model owns it.
use vstd::prelude::*;

use crate::error::{Error, ErrorView};
use crate::plugin::{parse_model_id, ADAPTER_ID_PREFIX};
use crate::policy::Policy;
use crate::rewrite::{EffortAction, EffortView};
use crate::subagent::SubagentModels;
use crate::text::{append, looks_like_model_hash, same_text, starts_with};
use crate::text_map::TextMap;

verus! {

/// Whose model a selection is: a subagent keeps the one that it got first, a primary agent
/// may change its own.
#[derive(Clone, Copy, Debug, PartialEq, Eq, Structural)]
pub enum ModelRole {
    Primary,
    Child,
}

/// A model that a run is bound to.
#[derive(Debug, PartialEq, Eq)]
pub struct RunModelBinding {
    pub model: String,
    pub effort: EffortAction,
    pub fast: Option<bool>,
    pub role: ModelRole,
}

/// The value of a [`RunModelBinding`].
pub struct BindingView {
    pub model: Seq<char>,
    pub effort: EffortView,
    pub fast: Option<bool>,
    pub role: ModelRole,
}

impl View for RunModelBinding {
    type V = BindingView;

    open spec fn view(&self) -> BindingView {
        BindingView {
            model: self.model@,
            effort: self.effort@,
            fast: self.fast,
            role: self.role,
        }
    }
}

impl Clone for RunModelBinding {
    fn clone(&self) -> (r: Self)
        ensures
            r@ == self@,
    {
        RunModelBinding {
            model: self.model.clone(),
            effort: self.effort.clone(),
            fast: self.fast,
            role: self.role,
        }
    }
}

impl BindingView {
    /// The binding of a primary agent, which decides nothing but the model.
    pub open spec fn primary(model: Seq<char>) -> BindingView {
        BindingView { model, effort: EffortView::Unchanged, fast: None, role: ModelRole::Primary }
    }
}

impl RunModelBinding {
    /// The binding of a primary agent, which decides nothing but the model.
    pub fn primary(model: &str) -> (r: Self)
        ensures
            r@ == BindingView::primary(model@),
    {
        RunModelBinding {
            model: model.to_owned(),
            effort: EffortAction::Unchanged,
            fast: None,
            role: ModelRole::Primary,
        }
    }
}

/// The value of an optional binding.
pub open spec fn optional_binding(binding: Option<RunModelBinding>) -> Option<BindingView> {
    match binding {
        Some(binding) => Some(binding@),
        None => None,
    }
}

/// The same optional binding in memory of its own.
fn copy_binding(binding: &Option<RunModelBinding>) -> (r: Option<RunModelBinding>)
    ensures
        optional_binding(r) == optional_binding(*binding),
{
    match binding {
        Some(binding) => Some(binding.clone()),
        None => None,
    }
}

/// One lifecycle of a local transport.
#[derive(Debug, PartialEq, Eq)]
pub struct TransportHandle {
    pub request_id: String,
    /// Tells the lifecycles of one request apart.
    pub generation: u64,
}

/// The value of a [`TransportHandle`].
pub struct HandleView {
    pub request_id: Seq<char>,
    pub generation: u64,
}

impl View for TransportHandle {
    type V = HandleView;

    open spec fn view(&self) -> HandleView {
        HandleView { request_id: self.request_id@, generation: self.generation }
    }
}

impl Clone for TransportHandle {
    fn clone(&self) -> (r: Self)
        ensures
            r@ == self@,
    {
        TransportHandle { request_id: self.request_id.clone(), generation: self.generation }
    }
}

/// The local transport of a request.
#[derive(Debug)]
struct LocalTransport {
    generation: u64,
    accepting: bool,
    selection: Option<RunModelBinding>,
}

/// The value of the local transport of a request.
pub struct LocalView {
    pub generation: u64,
    /// Whether the transport still takes messages; a closing one does not.
    pub accepting: bool,
    pub selection: Option<BindingView>,
}

impl View for LocalTransport {
    type V = LocalView;

    closed spec fn view(&self) -> LocalView {
        LocalView {
            generation: self.generation,
            accepting: self.accepting,
            selection: optional_binding(self.selection),
        }
    }
}

/// The upstream route of a request.
#[derive(Debug)]
struct UpstreamRoute {
    generation: u64,
    selection: Option<RunModelBinding>,
}

/// The value of the upstream route of a request.
pub struct RouteView {
    pub generation: u64,
    pub selection: Option<BindingView>,
}

impl View for UpstreamRoute {
    type V = RouteView;

    closed spec fn view(&self) -> RouteView {
        RouteView { generation: self.generation, selection: optional_binding(self.selection) }
    }
}

/// Where a request is served.
#[derive(Clone, Copy, Debug, PartialEq, Eq, Structural)]
pub enum TransportRoute {
    Local,
    Upstream(u64),
}

/// The candidate that the policy gives for a run; who owns the run is decided at admission.
#[derive(Debug, PartialEq, Eq)]
pub struct PreparedRunModel {
    /// The model that the request asked for.
    pub original: String,
    /// The candidate; that of a subagent may lose to the model that its lifecycle has.
    pub model: String,
    /// What becomes of the effort; nothing does for a primary agent.
    pub effort: EffortAction,
    pub fast: Option<bool>,
    pub role: ModelRole,
}

/// The value of a [`PreparedRunModel`].
pub struct PreparedView {
    pub original: Seq<char>,
    pub model: Seq<char>,
    pub effort: EffortView,
    pub fast: Option<bool>,
    pub role: ModelRole,
}

impl View for PreparedRunModel {
    type V = PreparedView;

    open spec fn view(&self) -> PreparedView {
        PreparedView {
            original: self.original@,
            model: self.model@,
            effort: self.effort@,
            fast: self.fast,
            role: self.role,
        }
    }
}

impl PreparedView {
    /// The binding that the candidate asks for.
    pub open spec fn candidate(self) -> BindingView {
        match self.role {
            ModelRole::Child => BindingView {
                model: self.model,
                effort: self.effort,
                fast: self.fast,
                role: ModelRole::Child,
            },
            ModelRole::Primary => BindingView::primary(self.model),
        }
    }
}

/// The model and route that a run was admitted with.
#[derive(Debug, PartialEq, Eq)]
pub struct AdmittedRun {
    pub model: String,
    pub effort: EffortAction,
    pub fast: Option<bool>,
    pub role: ModelRole,
    pub local: bool,
    /// The local transport, for a local run.
    pub handle: Option<TransportHandle>,
    /// Whether the identity of a local primary agent is still to be committed: it is once the
    /// transport has taken the message.
    pub defer_primary: bool,
    /// Whether the local transport is new: the caller then starts it and wakes those that wait
    /// for a route.
    pub created: bool,
}

/// The value of an [`AdmittedRun`].
pub struct AdmittedView {
    pub model: Seq<char>,
    pub effort: EffortView,
    pub fast: Option<bool>,
    pub role: ModelRole,
    pub local: bool,
    pub handle: Option<HandleView>,
    pub defer_primary: bool,
    pub created: bool,
}

impl View for AdmittedRun {
    type V = AdmittedView;

    open spec fn view(&self) -> AdmittedView {
        AdmittedView {
            model: self.model@,
            effort: self.effort@,
            fast: self.fast,
            role: self.role,
            local: self.local,
            handle: match self.handle {
                Some(handle) => Some(handle@),
                None => None,
            },
            defer_primary: self.defer_primary,
            created: self.created,
        }
    }
}

impl AdmittedView {
    /// Whether a request for the original model must be rewritten to ask for what was admitted.
    pub open spec fn rewrites_wire(self, original: Seq<char>) -> bool {
        self.model != original || self.effort !is Unchanged || self.fast is Some
    }
}

impl AdmittedRun {
    /// Whether a request for the original model must be rewritten to ask for what was admitted.
    pub fn rewrites_wire(&self, original_model: &str) -> (r: bool)
        ensures
            r == self@.rewrites_wire(original_model@),
    {
        !same_text(self.model.as_str(), original_model) || self.effort.rewrites_parameters()
            || self.fast.is_some()
    }
}

/// Whether a model is served locally, given whether the store holds it. A plugin's identifier
/// must be well formed, and a hash must be one of the store's.
pub open spec fn locality(model: Seq<char>, known: bool) -> Result<bool, ErrorView> {
    if crate::text::has_prefix(model, "plugin:"@) {
        if crate::plugin::is_plugin_model(model) {
            Ok(true)
        } else {
            Err(ErrorView::Config("invalid plugin model ID: "@ + model))
        }
    } else if known {
        Ok(true)
    } else if crate::text::is_model_hash(model) {
        Err(ErrorView::Config("unknown local model hash: "@ + model))
    } else {
        Ok(false)
    }
}

/// Whether a model is served locally, given whether the store holds it.
pub fn model_is_local(model_id: &str, known: bool) -> (r: Result<bool, Error>)
    ensures
        crate::model::result_view(r) == locality(model_id@, known),
{
    if starts_with(model_id, ADAPTER_ID_PREFIX) {
        if parse_model_id(model_id).is_none() {
            return Err(Error::Config(append("invalid plugin model ID: ", model_id)));
        }
        return Ok(true);
    }
    if known {
        return Ok(true);
    }
    if looks_like_model_hash(model_id) {
        return Err(Error::Config(append("unknown local model hash: ", model_id)));
    }
    Ok(false)
}

/// The binding that owns a slot after a candidate was applied to it: a primary agent takes
/// the slot, a subagent only where no subagent has it.
pub open spec fn owner(slot: Option<BindingView>, candidate: BindingView) -> BindingView {
    match candidate.role {
        ModelRole::Primary => BindingView::primary(candidate.model),
        ModelRole::Child => if slot is Some && slot->0.role == ModelRole::Child {
            slot->0
        } else {
            candidate
        },
    }
}

/// Applies a candidate to a slot, and returns the binding that owns it then.
pub fn apply_selection(
    slot: &mut Option<RunModelBinding>,
    model: &str,
    effort: EffortAction,
    fast: Option<bool>,
    role: ModelRole,
) -> (r: RunModelBinding)
    ensures
        r@ == owner(
            optional_binding(*old(slot)),
            BindingView { model: model@, effort: effort@, fast, role },
        ),
        optional_binding(*final(slot)) == Some(r@),
{
    let selection: RunModelBinding = match role {
        ModelRole::Primary => RunModelBinding::primary(model),
        ModelRole::Child => {
            if let Some(existing) = &*slot {
                if existing.role == ModelRole::Child {
                    return existing.clone();
                }
            }
            RunModelBinding { model: model.to_owned(), effort, fast, role }
        },
    };
    *slot = Some(selection.clone());
    selection
}

/// The transports of all requests, and the policy that chooses their models.
#[derive(Debug)]
pub struct TransportRegistry {
    local: TextMap<LocalTransport>,
    next_local_generation: u64,
    upstream: TextMap<UpstreamRoute>,
    subagent_models: SubagentModels,
}

/// The value of a [`TransportRegistry`].
pub struct RegistryView {
    /// Local transports by request.
    pub local: Map<Seq<char>, LocalView>,
    /// The generation that the next local transport gets.
    pub next_local_generation: u64,
    /// Upstream routes by request.
    pub upstream: Map<Seq<char>, RouteView>,
    pub models: crate::subagent::ModelsView,
}

impl View for TransportRegistry {
    type V = RegistryView;

    closed spec fn view(&self) -> RegistryView {
        RegistryView {
            local: self.local@,
            next_local_generation: self.next_local_generation,
            upstream: self.upstream@,
            models: self.subagent_models@,
        }
    }
}

/// What a request gets as its local transport.
#[derive(Debug, PartialEq, Eq)]
pub struct Appended {
    pub handle: TransportHandle,
    /// The binding that owns the transport, where one was to be bound.
    pub selection: Option<RunModelBinding>,
    /// Whether the transport is new: the caller then starts it and wakes those that wait for a
    /// route.
    pub created: bool,
}

/// The value of an [`Appended`].
pub struct AppendedView {
    pub handle: HandleView,
    pub selection: Option<BindingView>,
    pub created: bool,
}

impl View for Appended {
    type V = AppendedView;

    open spec fn view(&self) -> AppendedView {
        AppendedView {
            handle: self.handle@,
            selection: optional_binding(self.selection),
            created: self.created,
        }
    }
}

/// The binding where it is that of a subagent.
pub open spec fn child_of(selection: Option<BindingView>) -> Option<BindingView> {
    if selection is Some && selection->0.role == ModelRole::Child {
        selection
    } else {
        None
    }
}

impl RegistryView {
    /// The registry of a start, with a policy in force.
    pub open spec fn fresh(models: crate::subagent::ModelsView) -> RegistryView {
        RegistryView {
            local: Map::empty(),
            next_local_generation: 1,
            upstream: Map::empty(),
            models,
        }
    }

    /// The model that a run has now, for a subagent that inherits it.
    pub open spec fn run_model(self, id: Seq<char>) -> Option<Seq<char>> {
        if self.local.contains_key(id) && self.local[id].selection is Some {
            Some(self.local[id].selection->0.model)
        } else if self.upstream.contains_key(id) && self.upstream[id].selection is Some {
            Some(self.upstream[id].selection->0.model)
        } else {
            None
        }
    }

    /// The binding of a subagent whose lifecycle is active: that of a local transport which
    /// still takes messages, else that of the upstream route.
    pub open spec fn active_child(self, id: Seq<char>) -> Option<BindingView> {
        if self.local.contains_key(id) && self.local[id].accepting && child_of(
            self.local[id].selection,
        ) is Some {
            self.local[id].selection
        } else if self.upstream.contains_key(id) {
            child_of(self.upstream[id].selection)
        } else {
            None
        }
    }

    /// The binding that a candidate comes to own or to share.
    pub open spec fn owned(self, id: Seq<char>, prepared: PreparedView) -> BindingView {
        if prepared.role == ModelRole::Child && self.active_child(id) is Some {
            self.active_child(id)->0
        } else {
            prepared.candidate()
        }
    }

    /// Whether a message goes to the local transport that a request has: it does while the
    /// transport takes messages, and also later unless a closing one is to be replaced.
    pub open spec fn reuses(self, id: Seq<char>, replace_closing: bool) -> bool {
        self.local.contains_key(id) && (self.local[id].accepting || !replace_closing)
    }

    /// What a request gets as its local transport.
    pub open spec fn appended(
        self,
        id: Seq<char>,
        replace_closing: bool,
        admission: Option<BindingView>,
    ) -> AppendedView {
        let reuses = self.reuses(id, replace_closing);
        let slot = if reuses {
            self.local[id].selection
        } else {
            None
        };
        AppendedView {
            handle: HandleView {
                request_id: id,
                generation: if reuses {
                    self.local[id].generation
                } else {
                    self.next_local_generation
                },
            },
            selection: match admission {
                Some(candidate) => Some(owner(slot, candidate)),
                None => None,
            },
            created: !reuses,
        }
    }

    /// The registry after a request got its local transport.
    pub open spec fn after_append(
        self,
        id: Seq<char>,
        replace_closing: bool,
        admission: Option<BindingView>,
    ) -> RegistryView {
        let appended = self.appended(id, replace_closing, admission);
        if self.reuses(id, replace_closing) {
            if admission is Some {
                RegistryView {
                    local: self.local.insert(
                        id,
                        LocalView { selection: appended.selection, ..self.local[id] },
                    ),
                    ..self
                }
            } else {
                self
            }
        } else {
            RegistryView {
                local: self.local.insert(
                    id,
                    LocalView {
                        generation: self.next_local_generation,
                        accepting: true,
                        selection: appended.selection,
                    },
                ),
                next_local_generation: wrapping_next(self.next_local_generation),
                ..self
            }
        }
    }

    /// The generation of a request's upstream route; zero where it has none.
    pub open spec fn upstream_generation(self, id: Seq<char>) -> u64 {
        if self.upstream.contains_key(id) {
            self.upstream[id].generation
        } else {
            0
        }
    }

    /// The binding that owns the next generation of a request's upstream route.
    pub open spec fn upstream_owner(self, id: Seq<char>, candidate: BindingView) -> BindingView {
        owner(
            if self.upstream.contains_key(id) {
                self.upstream[id].selection
            } else {
                None
            },
            candidate,
        )
    }

    /// The registry after a request was routed upstream.
    pub open spec fn after_mark(self, id: Seq<char>, candidate: BindingView) -> RegistryView {
        RegistryView {
            upstream: self.upstream.insert(
                id,
                RouteView {
                    generation: (self.upstream_generation(id) + 1) as u64,
                    selection: Some(self.upstream_owner(id, candidate)),
                },
            ),
            ..self
        }
    }

    /// The binding that a local admission asks for: that of a primary agent is left until the
    /// transport has taken the message.
    pub open spec fn bound(prepared: PreparedView, owned: BindingView) -> Option<BindingView> {
        match prepared.role {
            ModelRole::Child => Some(owned),
            ModelRole::Primary => None,
        }
    }

    /// What a candidate is admitted as, where the binding that it comes to own is served locally
    /// or upstream.
    pub open spec fn admitted(
        self,
        id: Seq<char>,
        prepared: PreparedView,
        owned: BindingView,
        local: bool,
    ) -> AdmittedView {
        if local {
            let appended = self.appended(id, true, Self::bound(prepared, owned));
            let selection = match appended.selection {
                Some(selection) => selection,
                None => owned,
            };
            AdmittedView {
                model: selection.model,
                effort: selection.effort,
                fast: selection.fast,
                role: prepared.role,
                local: true,
                handle: Some(appended.handle),
                defer_primary: prepared.role == ModelRole::Primary,
                created: appended.created,
            }
        } else {
            let selection = self.upstream_owner(id, BindingView { role: prepared.role, ..owned });
            AdmittedView {
                model: selection.model,
                effort: selection.effort,
                fast: selection.fast,
                role: prepared.role,
                local: false,
                handle: None,
                defer_primary: false,
                created: false,
            }
        }
    }

    /// The registry after an admission.
    pub open spec fn after_admission(
        self,
        id: Seq<char>,
        prepared: PreparedView,
        owned: BindingView,
        local: bool,
    ) -> RegistryView {
        if local {
            self.after_append(id, true, Self::bound(prepared, owned))
        } else {
            self.after_mark(id, BindingView { role: prepared.role, ..owned })
        }
    }

    /// Whether the identity of a primary agent can be committed: its local transport is there
    /// and takes messages.
    pub open spec fn commits(self, id: Seq<char>) -> bool {
        self.local.contains_key(id) && self.local[id].accepting
    }

    /// The registry after the identity of a primary agent was committed.
    pub open spec fn after_commit(self, id: Seq<char>, model: Seq<char>) -> RegistryView {
        RegistryView {
            local: self.local.insert(
                id,
                LocalView { selection: Some(BindingView::primary(model)), ..self.local[id] },
            ),
            ..self
        }
    }

    /// The registry after a shutdown.
    pub open spec fn after_shutdown(self) -> RegistryView {
        RegistryView { local: Map::empty(), upstream: Map::empty(), ..self }
    }

    /// The handles of all local transports, in the order of their requests.
    pub open spec fn handles(self) -> Seq<HandleView> {
        crate::text_map::sorted_texts(self.local.dom()).map_values(
            |id: Seq<char>|
                HandleView { request_id: id, generation: self.local[id].generation },
        )
    }

    /// Where a request is served: locally before upstream.
    pub open spec fn route(self, id: Seq<char>) -> Option<TransportRoute> {
        if self.local.contains_key(id) {
            Some(TransportRoute::Local)
        } else if self.upstream.contains_key(id) {
            Some(TransportRoute::Upstream(self.upstream[id].generation))
        } else {
            None
        }
    }

    /// The registry after a generation of a request's upstream route has ended; a later
    /// generation goes on.
    pub open spec fn after_finish(self, id: Seq<char>, generation: u64) -> RegistryView {
        if self.upstream.contains_key(id) && self.upstream[id].generation == generation {
            RegistryView { upstream: self.upstream.remove(id), ..self }
        } else {
            self
        }
    }

    /// Whether a handle is of the lifecycle that its request has now.
    pub open spec fn is_current(self, handle: HandleView) -> bool {
        self.local.contains_key(handle.request_id) && self.local[handle.request_id].generation
            == handle.generation
    }

    /// The registry after a local transport began to close.
    pub open spec fn after_begin_close(self, handle: HandleView) -> RegistryView {
        if self.is_current(handle) {
            RegistryView {
                local: self.local.insert(
                    handle.request_id,
                    LocalView { accepting: false, ..self.local[handle.request_id] },
                ),
                ..self
            }
        } else {
            self
        }
    }

    /// The registry after a local transport was closed; a later lifecycle goes on.
    pub open spec fn after_close(self, handle: HandleView) -> RegistryView {
        if self.is_current(handle) {
            RegistryView { local: self.local.remove(handle.request_id), ..self }
        } else {
            self
        }
    }
}

/// The values of handles.
pub open spec fn handle_views(handles: Seq<TransportHandle>) -> Seq<HandleView> {
    handles.map_values(|handle: TransportHandle| handle@)
}

/// The number after another one, round the end of the range.
pub open spec fn wrapping_next(n: u64) -> u64 {
    if n == u64::MAX {
        0
    } else {
        (n + 1) as u64
    }
}

/// The binding where it is that of a subagent.
fn child_binding(selection: &Option<RunModelBinding>) -> (r: Option<RunModelBinding>)
    ensures
        optional_binding(r) == child_of(optional_binding(*selection)),
{
    match selection {
        Some(selection) => {
            if selection.role == ModelRole::Child {
                Some(selection.clone())
            } else {
                None
            }
        },
        None => None,
    }
}

impl TransportRegistry {
    /// A registry without transports and without a policy.
    pub fn new() -> (r: Self)
        ensures
            r@ == RegistryView::fresh(
                crate::subagent::ModelsView {
                    version: 1,
                    policy: crate::policy::PolicyView::empty(),
                },
            ),
            r@.models.is_valid(),
    {
        TransportRegistry::with_subagent_models(SubagentModels::empty())
    }

    /// A registry without transports.
    pub fn with_subagent_models(subagent_models: SubagentModels) -> (r: Self)
        ensures
            r@ == RegistryView::fresh(subagent_models@),
    {
        TransportRegistry {
            local: TextMap::new(),
            next_local_generation: 1,
            upstream: TextMap::new(),
            subagent_models,
        }
    }

    /// The policy that chooses the models of subagents.
    pub fn subagent_models(&self) -> (r: &SubagentModels)
        ensures
            r@ == self@.models,
    {
        &self.subagent_models
    }

    /// Puts a policy in force where it differs from the one that is. A file that holds none
    /// leaves everything as it is.
    pub fn publish(&mut self, parsed: Result<Policy, Error>) -> (r: Result<(), Error>)
        requires
            parsed is Ok && parsed->Ok_0@ != old(self)@.models.policy ==> old(self)@.models.version
                < u64::MAX,
        ensures
            match parsed {
                Ok(policy) => r is Ok && final(self)@ == (RegistryView {
                    models: old(self)@.models.published(policy@),
                    ..old(self)@
                }),
                Err(error) => r == Err::<(), Error>(error) && final(self)@ == old(self)@,
            },
            old(self)@.models.is_valid() && (parsed is Ok ==> parsed->Ok_0@.is_valid())
                ==> final(self)@.models.is_valid(),
    {
        self.subagent_models.publish(parsed)
    }

    /// The model that a run has now, for a subagent that inherits it.
    pub fn run_model(&self, request_id: &str) -> (r: Option<String>)
        ensures
            crate::policy::optional_text(r) == self@.run_model(request_id@),
    {
        if let Some(transport) = self.local.get(request_id) {
            if let Some(selection) = &transport.selection {
                return Some(selection.model.clone());
            }
        }
        match self.upstream.get(request_id) {
            Some(route) => match &route.selection {
                Some(selection) => Some(selection.model.clone()),
                None => None,
            },
            None => None,
        }
    }

    /// The model of a subagent whose lifecycle is active.
    pub fn active_child_model(&self, request_id: &str) -> (r: Option<String>)
        ensures
            crate::policy::optional_text(r) == match self@.active_child(request_id@) {
                Some(binding) => Some(binding.model),
                None => None,
            },
    {
        match self.active_child_binding(request_id) {
            Some(binding) => Some(binding.model),
            None => None,
        }
    }

    /// The binding of a subagent whose lifecycle is active.
    pub fn active_child_binding(&self, request_id: &str) -> (r: Option<RunModelBinding>)
        ensures
            optional_binding(r) == self@.active_child(request_id@),
    {
        if let Some(selection) = self.active_local_child(request_id) {
            return Some(selection);
        }
        self.active_upstream_child(request_id)
    }

    /// The binding of a subagent whose local transport still takes messages.
    fn active_local_child(&self, request_id: &str) -> (r: Option<RunModelBinding>)
        ensures
            optional_binding(r) == if self@.local.contains_key(request_id@)
                && self@.local[request_id@].accepting {
                child_of(self@.local[request_id@].selection)
            } else {
                None
            },
    {
        match self.local.get(request_id) {
            Some(transport) => {
                if transport.accepting {
                    child_binding(&transport.selection)
                } else {
                    None
                }
            },
            None => None,
        }
    }

    /// The binding of a subagent that is routed upstream.
    fn active_upstream_child(&self, request_id: &str) -> (r: Option<RunModelBinding>)
        ensures
            optional_binding(r) == if self@.upstream.contains_key(request_id@) {
                child_of(self@.upstream[request_id@].selection)
            } else {
                None
            },
    {
        match self.upstream.get(request_id) {
            Some(route) => child_binding(&route.selection),
            None => None,
        }
    }

    /// The local transport of a request, made where it has none.
    pub fn get_or_create(&mut self, request_id: &str) -> (r: Appended)
        ensures
            r@ == old(self)@.appended(request_id@, false, None),
            final(self)@ == old(self)@.after_append(request_id@, false, None),
    {
        self.get_or_create_for_append(request_id, false, None)
    }

    /// The local transport of a request for a message, made where it has none or a closing one
    /// is to be replaced, and bound to the model of the admission.
    pub fn get_or_create_for_append(
        &mut self,
        request_id: &str,
        replace_closing: bool,
        admission: Option<RunModelBinding>,
    ) -> (r: Appended)
        ensures
            r@ == old(self)@.appended(request_id@, replace_closing, optional_binding(admission)),
            final(self)@ == old(self)@.after_append(
                request_id@,
                replace_closing,
                optional_binding(admission),
            ),
    {
        if let Some(transport) = self.local.get(request_id) {
            if transport.accepting || !replace_closing {
                let generation: u64 = transport.generation;
                let accepting = transport.accepting;
                let mut slot = copy_binding(&transport.selection);
                let handle = TransportHandle { request_id: request_id.to_owned(), generation };
                let owned = match admission {
                    Some(candidate) => {
                        let owned = apply_selection(
                            &mut slot,
                            candidate.model.as_str(),
                            candidate.effort,
                            candidate.fast,
                            candidate.role,
                        );
                        self.local.insert(
                            request_id.to_owned(),
                            LocalTransport { generation, accepting, selection: slot },
                        );
                        Some(owned)
                    },
                    None => None,
                };
                return Appended { handle, selection: owned, created: false };
            }
        }
        let generation: u64 = self.next_local_generation;
        self.next_local_generation = generation.wrapping_add(1);
        let mut slot: Option<RunModelBinding> = None;
        let owned = match admission {
            Some(candidate) => Some(
                apply_selection(
                    &mut slot,
                    candidate.model.as_str(),
                    candidate.effort,
                    candidate.fast,
                    candidate.role,
                ),
            ),
            None => None,
        };
        self.local.insert(
            request_id.to_owned(),
            LocalTransport { generation, accepting: true, selection: slot },
        );
        let handle = TransportHandle { request_id: request_id.to_owned(), generation };
        Appended { handle, selection: owned, created: true }
    }

    /// The binding that a candidate comes to own or to share. Whether the store holds its model
    /// is what an admission then asks.
    pub fn owned_selection(&self, request_id: &str, prepared: &PreparedRunModel) -> (r:
        RunModelBinding)
        ensures
            r@ == self@.owned(request_id@, prepared@),
    {
        match prepared.role {
            ModelRole::Child => match self.active_child_binding(request_id) {
                Some(binding) => binding,
                None => RunModelBinding {
                    model: prepared.model.clone(),
                    effort: prepared.effort.clone(),
                    fast: prepared.fast,
                    role: ModelRole::Child,
                },
            },
            ModelRole::Primary => RunModelBinding::primary(prepared.model.as_str()),
        }
    }

    /// Decides which model owns a run, whether it is served locally, and binds the route. A
    /// subagent keeps the model that its active lifecycle has; the identity of a local primary
    /// agent is left to be committed. `known` is whether the store holds the model of
    /// [`TransportRegistry::owned_selection`]. A refused admission changes nothing.
    pub fn admit_run_model(
        &mut self,
        request_id: &str,
        prepared: &PreparedRunModel,
        known: bool,
    ) -> (r: Result<AdmittedRun, Error>)
        requires
            locality(old(self)@.owned(request_id@, prepared@).model, known) == Ok::<bool, ErrorView>(
                false,
            ) ==> old(self)@.upstream_generation(request_id@) < u64::MAX,
        ensures
            match locality(old(self)@.owned(request_id@, prepared@).model, known) {
                Ok(local) => {
                    let owned = old(self)@.owned(request_id@, prepared@);
                    &&& r is Ok
                    &&& r->Ok_0@ == old(self)@.admitted(request_id@, prepared@, owned, local)
                    &&& final(self)@ == old(self)@.after_admission(
                        request_id@,
                        prepared@,
                        owned,
                        local,
                    )
                },
                Err(error) => r is Err && r->Err_0@ == error && final(self)@ == old(self)@,
            },
    {
        let owned = self.owned_selection(request_id, prepared);
        match model_is_local(owned.model.as_str(), known) {
            Err(error) => Err(error),
            Ok(true) => {
                let bind = match prepared.role {
                    ModelRole::Child => Some(owned.clone()),
                    ModelRole::Primary => None,
                };
                let appended = self.get_or_create_for_append(request_id, true, bind);
                let selection = match appended.selection {
                    Some(selection) => selection,
                    None => owned,
                };
                Ok(
                    AdmittedRun {
                        model: selection.model,
                        effort: selection.effort,
                        fast: selection.fast,
                        role: prepared.role,
                        local: true,
                        handle: Some(appended.handle),
                        defer_primary: prepared.role == ModelRole::Primary,
                        created: appended.created,
                    },
                )
            },
            Ok(false) => {
                let selection = self.mark_upstream(
                    request_id,
                    owned.model.as_str(),
                    owned.effort,
                    owned.fast,
                    prepared.role,
                );
                Ok(
                    AdmittedRun {
                        model: selection.model,
                        effort: selection.effort,
                        fast: selection.fast,
                        role: prepared.role,
                        local: false,
                        handle: None,
                        defer_primary: false,
                        created: false,
                    },
                )
            },
        }
    }

    /// Commits the identity of a primary agent, once its local transport has taken the message.
    pub fn commit_primary_model(&mut self, request_id: &str, model: &str) -> (r: Result<(), Error>)
        ensures
            if old(self)@.commits(request_id@) {
                r is Ok && final(self)@ == old(self)@.after_commit(request_id@, model@)
            } else {
                r is Err && r->Err_0@ == ErrorView::RunNotFound(request_id@) && final(self)@ == old(
                    self,
                )@
            },
    {
        let generation: u64 = match self.local.get(request_id) {
            Some(transport) => {
                if !transport.accepting {
                    return Err(Error::RunNotFound(request_id.to_owned()));
                }
                transport.generation
            },
            None => {
                return Err(Error::RunNotFound(request_id.to_owned()));
            },
        };
        self.local.insert(
            request_id.to_owned(),
            LocalTransport {
                generation,
                accepting: true,
                selection: Some(RunModelBinding::primary(model)),
            },
        );
        Ok(())
    }

    /// Stops a local transport from taking messages. The handle of an earlier lifecycle stops
    /// nothing.
    pub fn begin_close(&mut self, handle: &TransportHandle)
        ensures
            final(self)@ == old(self)@.after_begin_close(handle@),
    {
        let selection = match self.local.get(handle.request_id.as_str()) {
            Some(transport) => {
                if transport.generation != handle.generation {
                    return;
                }
                copy_binding(&transport.selection)
            },
            None => {
                return;
            },
        };
        self.local.insert(
            handle.request_id.clone(),
            LocalTransport { generation: handle.generation, accepting: false, selection },
        );
    }

    /// Takes out a local transport that was closed. The handle of an earlier lifecycle takes out
    /// nothing.
    pub fn transport_closed(&mut self, handle: &TransportHandle)
        ensures
            final(self)@ == old(self)@.after_close(handle@),
    {
        let current = match self.local.get(handle.request_id.as_str()) {
            Some(transport) => transport.generation == handle.generation,
            None => false,
        };
        if current {
            self.local.remove(handle.request_id.as_str());
        }
    }

    /// The local transport of a request.
    pub fn local(&self, request_id: &str) -> (r: Option<TransportHandle>)
        ensures
            match r {
                Some(handle) => self@.is_current(handle@) && handle@.request_id == request_id@,
                None => !self@.local.contains_key(request_id@),
            },
    {
        match self.local.get(request_id) {
            Some(transport) => Some(
                TransportHandle {
                    request_id: request_id.to_owned(),
                    generation: transport.generation,
                },
            ),
            None => None,
        }
    }

    /// Routes a request upstream, and returns the binding that owns the new generation of its
    /// route.
    pub fn mark_upstream(
        &mut self,
        request_id: &str,
        model: &str,
        effort: EffortAction,
        fast: Option<bool>,
        role: ModelRole,
    ) -> (r: RunModelBinding)
        requires
            old(self)@.upstream_generation(request_id@) < u64::MAX,
        ensures
            r@ == old(self)@.upstream_owner(
                request_id@,
                BindingView { model: model@, effort: effort@, fast, role },
            ),
            final(self)@ == old(self)@.after_mark(
                request_id@,
                BindingView { model: model@, effort: effort@, fast, role },
            ),
    {
        let mut generation: u64 = 0;
        let mut slot: Option<RunModelBinding> = None;
        if let Some(route) = self.upstream.get(request_id) {
            generation = route.generation;
            slot = copy_binding(&route.selection);
        }
        let owned = apply_selection(&mut slot, model, effort, fast, role);
        self.upstream.insert(
            request_id.to_owned(),
            UpstreamRoute { generation: generation + 1, selection: slot },
        );
        owned
    }

    /// The generation of a request's upstream route; zero where it has none.
    pub fn upstream_generation(&self, request_id: &str) -> (r: u64)
        ensures
            r == self@.upstream_generation(request_id@),
    {
        match self.upstream.get(request_id) {
            Some(route) => route.generation,
            None => 0,
        }
    }

    /// Whether a request is routed upstream.
    pub fn upstream(&self, request_id: &str) -> (r: bool)
        ensures
            r == self@.upstream.contains_key(request_id@),
    {
        self.upstream.contains_key(request_id)
    }

    /// Where a request is served; `None` is to wait until a route comes.
    pub fn wait_route(&self, request_id: &str) -> (r: Option<TransportRoute>)
        ensures
            r == self@.route(request_id@),
    {
        if self.local.contains_key(request_id) {
            return Some(TransportRoute::Local);
        }
        match self.upstream.get(request_id) {
            Some(route) => Some(TransportRoute::Upstream(route.generation)),
            None => None,
        }
    }

    /// Ends a generation of a request's upstream route.
    pub fn finish_upstream(&mut self, request_id: &str, generation: u64)
        ensures
            final(self)@ == old(self)@.after_finish(request_id@, generation),
    {
        let current = match self.upstream.get(request_id) {
            Some(route) => route.generation == generation,
            None => false,
        };
        if current {
            self.upstream.remove(request_id);
        }
    }

    /// Takes all transports out, and returns those that the caller is to disconnect.
    pub fn shutdown(&mut self) -> (r: Vec<TransportHandle>)
        ensures
            handle_views(r@) == old(self)@.handles(),
            final(self)@ == old(self)@.after_shutdown(),
    {
        let count: usize = self.local.len();
        let mut handles: Vec<TransportHandle> = Vec::new();
        let mut i: usize = 0;
        while i < count
            invariant
                i <= count,
                count == crate::text_map::sorted_texts(self@.local.dom()).len(),
                self@ == old(self)@,
                handles@.len() == i,
                handle_views(handles@) == self@.handles().take(i as int),
            decreases count - i,
        {
            let (request_id, transport) = self.local.entry(i);
            let ghost before = handles@;
            handles.push(
                TransportHandle {
                    request_id: request_id.to_owned(),
                    generation: transport.generation,
                },
            );
            proof {
                let handle = handles@[i as int];
                assert(self@.handles()[i as int] == handle@);
                assert(handle_views(handles@) =~= handle_views(before).push(handle@));
                assert(self@.handles().take(i + 1) =~= self@.handles().take(i as int).push(
                    handle@,
                ));
            }
            i += 1;
        }
        proof {
            assert(self@.handles().take(count as int) =~= self@.handles());
        }
        self.local = TextMap::new();
        self.upstream = TextMap::new();
        handles
    }
}

} // verus!
