//! What holds of a registry over its lifetime.
use vstd::prelude::*;

use crate::registry::{ModelRole, RegistryView};

verus! {

/// One thing that requests, transports and the policy file do to a registry. Not among them are
/// [`crate::registry::TransportRegistry::mark_upstream`] and
/// [`crate::registry::TransportRegistry::get_or_create_for_append`] with an admission: they are
/// the halves of an admission, and called on their own they can bind a subagent to two models,
/// which no sound registry does.
pub enum Operation {
    /// A request gets its local transport.
    GetOrCreate { id: Seq<char> },
    /// A candidate is admitted.
    Admit { id: Seq<char>, prepared: crate::registry::PreparedView, known: bool },
    /// The identity of a primary agent is committed.
    Commit { id: Seq<char>, model: Seq<char> },
    /// A local transport begins to close.
    BeginClose { handle: crate::registry::HandleView },
    /// A local transport was closed.
    Close { handle: crate::registry::HandleView },
    /// A generation of an upstream route has ended.
    Finish { id: Seq<char>, generation: u64 },
    /// A policy is put in force.
    Publish { policy: crate::policy::PolicyView },
    /// All transports are taken out.
    Shutdown,
}

impl Operation {
    /// The request that the operation is about.
    pub open spec fn request(self) -> Option<Seq<char>> {
        match self {
            Operation::GetOrCreate { id } => Some(id),
            Operation::Admit { id, .. } => Some(id),
            Operation::Commit { id, .. } => Some(id),
            Operation::BeginClose { handle } => Some(handle.request_id),
            Operation::Close { handle } => Some(handle.request_id),
            Operation::Finish { id, .. } => Some(id),
            Operation::Publish { .. } => None,
            Operation::Shutdown => None,
        }
    }
}

/// Whether a binding, where there is one, decides no more than the model for a primary agent.
pub open spec fn is_plain(selection: Option<crate::registry::BindingView>) -> bool {
    selection is Some && selection->0.role == ModelRole::Primary ==> selection->0
        == crate::registry::BindingView::primary(selection->0.model)
}

impl RegistryView {
    /// The registry after an operation.
    pub open spec fn after(self, operation: Operation) -> RegistryView {
        match operation {
            Operation::GetOrCreate { id } => self.after_append(id, false, None),
            Operation::Admit { id, prepared, known } => {
                let owned = self.owned(id, prepared);
                match crate::registry::locality(owned.model, known) {
                    Ok(local) => self.after_admission(id, prepared, owned, local),
                    Err(_) => self,
                }
            },
            Operation::Commit { id, model } => if self.commits(id) {
                self.after_commit(id, model)
            } else {
                self
            },
            Operation::BeginClose { handle } => self.after_begin_close(handle),
            Operation::Close { handle } => self.after_close(handle),
            Operation::Finish { id, generation } => self.after_finish(id, generation),
            Operation::Publish { policy } => RegistryView {
                models: self.models.published(policy),
                ..self
            },
            Operation::Shutdown => self.after_shutdown(),
        }
    }

    /// The binding of a subagent that a local transport holds while it takes messages.
    pub open spec fn local_child(self, id: Seq<char>) -> Option<crate::registry::BindingView> {
        if self.local.contains_key(id) && self.local[id].accepting {
            crate::registry::child_of(self.local[id].selection)
        } else {
            None
        }
    }

    /// The binding of a subagent that an upstream route holds.
    pub open spec fn upstream_child(self, id: Seq<char>) -> Option<crate::registry::BindingView> {
        if self.upstream.contains_key(id) {
            crate::registry::child_of(self.upstream[id].selection)
        } else {
            None
        }
    }

    /// What every operation keeps for a request: its transports have generations that were
    /// given out, a primary agent decides no more than its model, an upstream route has an
    /// owner, and a subagent has one binding.
    pub open spec fn is_sound_for(self, id: Seq<char>) -> bool {
        &&& self.local.contains_key(id) ==> self.local[id].generation < self.next_local_generation
            && is_plain(self.local[id].selection)
        &&& self.upstream.contains_key(id) ==> self.upstream[id].generation >= 1
            && self.upstream[id].selection is Some && is_plain(self.upstream[id].selection)
        &&& self.local_child(id) is Some && self.upstream_child(id) is Some ==> self.local_child(id)
            == self.upstream_child(id)
    }

    /// What every operation keeps.
    pub open spec fn is_sound(self) -> bool {
        forall|id: Seq<char>| #[trigger] self.is_sound_for(id)
    }

    /// Whether the generations that an operation may give out are still to be had.
    pub open spec fn has_room_for(self, operation: Operation) -> bool {
        &&& self.next_local_generation < u64::MAX
        &&& operation.request() is Some ==> self.upstream_generation(operation.request()->0)
            < u64::MAX
    }

    /// Whether an operation ends the lifecycle that gives a subagent its model.
    pub open spec fn ends(self, operation: Operation, id: Seq<char>) -> bool {
        match operation {
            Operation::GetOrCreate { .. } => false,
            Operation::Admit { id: admitted, prepared, known } => admitted == id && prepared.role
                == ModelRole::Primary && crate::registry::locality(
                self.owned(id, prepared).model,
                known,
            ) == Ok::<bool, crate::error::ErrorView>(false) && self.local_child(id) is None,
            Operation::Commit { id: committed, .. } => committed == id && self.commits(id)
                && self.upstream_child(id) is None,
            Operation::BeginClose { handle } => handle.request_id == id && self.is_current(handle)
                && self.upstream_child(id) is None,
            Operation::Close { handle } => handle.request_id == id && self.is_current(handle)
                && self.upstream_child(id) is None,
            Operation::Finish { id: finished, generation } => finished == id
                && self.upstream.contains_key(id) && self.upstream[id].generation == generation
                && self.local_child(id) is None,
            Operation::Publish { .. } => false,
            Operation::Shutdown => true,
        }
    }
}

/// A registry is sound when it starts.
pub proof fn law_fresh_registry_is_sound(models: crate::subagent::ModelsView)
    ensures
        RegistryView::fresh(models).is_sound(),
{
}

/// An operation leaves the transports of every request that it is not about as they are, and so
/// the model, the subagent binding and the route of that request. (A shutdown is about all.)
pub proof fn law_other_requests_are_untouched(
    registry: RegistryView,
    operation: Operation,
    other: Seq<char>,
)
    requires
        operation !is Shutdown,
        operation.request() != Some(other),
    ensures
        registry.after(operation).local.contains_key(other) == registry.local.contains_key(other),
        registry.local.contains_key(other) ==> registry.after(operation).local[other]
            == registry.local[other],
        registry.after(operation).upstream.contains_key(other) == registry.upstream.contains_key(
            other,
        ),
        registry.upstream.contains_key(other) ==> registry.after(operation).upstream[other]
            == registry.upstream[other],
        registry.after(operation).run_model(other) == registry.run_model(other),
        registry.after(operation).active_child(other) == registry.active_child(other),
        registry.after(operation).route(other) == registry.route(other),
{
}

/// Every [`Operation`] keeps a sound registry sound. (A route that is marked, or a transport that
/// is bound, outside of an admission need not.)
pub proof fn law_operations_keep_a_registry_sound(registry: RegistryView, operation: Operation)
    requires
        registry.is_sound(),
        registry.has_room_for(operation),
    ensures
        registry.after(operation).is_sound(),
{
    let after = registry.after(operation);
    assert forall|id: Seq<char>| #[trigger] after.is_sound_for(id) by {
        assert(registry.is_sound_for(id));
        if operation.request() != Some(id) && operation !is Shutdown {
            law_other_requests_are_untouched(registry, operation, id);
        }
    }
}

/// A subagent keeps its model, effort and speed until its lifecycle ends: no other operation
/// changes them.
pub proof fn law_active_subagent_keeps_its_binding(
    registry: RegistryView,
    operation: Operation,
    id: Seq<char>,
)
    requires
        registry.is_sound(),
        registry.active_child(id) is Some,
        !registry.ends(operation, id),
    ensures
        registry.after(operation).active_child(id) == registry.active_child(id),
{
    assert(registry.is_sound_for(id));
    if operation.request() != Some(id) && operation !is Shutdown {
        law_other_requests_are_untouched(registry, operation, id);
    }
}

/// A candidate for a subagent whose lifecycle is active is admitted with the binding that the
/// lifecycle has, wherever it is served.
pub proof fn law_active_subagent_is_admitted_with_its_binding(
    registry: RegistryView,
    id: Seq<char>,
    prepared: crate::registry::PreparedView,
    local: bool,
)
    requires
        registry.is_sound(),
        prepared.role == ModelRole::Child,
        registry.active_child(id) is Some,
    ensures
        ({
            let active = registry.active_child(id)->0;
            let admitted = registry.admitted(id, prepared, registry.owned(id, prepared), local);
            &&& admitted.model == active.model
            &&& admitted.effort == active.effort
            &&& admitted.fast == active.fast
        }),
{
    assert(registry.is_sound_for(id));
}

/// Of the candidates that are admitted for a subagent one after the other, the first one wins.
pub proof fn law_first_admission_wins(
    registry: RegistryView,
    id: Seq<char>,
    first: crate::registry::PreparedView,
    first_local: bool,
    second: crate::registry::PreparedView,
    second_local: bool,
)
    requires
        registry.is_sound(),
        first.role == ModelRole::Child,
        second.role == ModelRole::Child,
    ensures
        ({
            let owned = registry.owned(id, first);
            let admitted = registry.admitted(id, first, owned, first_local);
            let then = registry.after_admission(id, first, owned, first_local);
            let next = then.admitted(id, second, then.owned(id, second), second_local);
            &&& next.model == admitted.model
            &&& next.effort == admitted.effort
            &&& next.fast == admitted.fast
        }),
{
    assert(registry.is_sound_for(id));
}

/// A subagent without an active lifecycle gets its candidate as it is.
pub proof fn law_candidate_is_admitted_as_it_is(
    registry: RegistryView,
    id: Seq<char>,
    prepared: crate::registry::PreparedView,
    local: bool,
)
    requires
        prepared.role == ModelRole::Child ==> registry.active_child(id) is None,
    ensures
        ({
            let admitted = registry.admitted(id, prepared, registry.owned(id, prepared), local);
            &&& admitted.model == prepared.model
            &&& admitted.effort == prepared.candidate().effort
            &&& admitted.fast == prepared.candidate().fast
            &&& admitted.role == prepared.role
        }),
{
}

/// The end of the current generation of an upstream route frees the subagent where no local
/// transport holds it, and leaves it without a model where it has no local transport. An earlier
/// generation that ends changes nothing.
pub proof fn law_finished_route_frees_the_subagent(
    registry: RegistryView,
    id: Seq<char>,
    generation: u64,
)
    requires
        registry.upstream.contains_key(id),
    ensures
        registry.upstream[id].generation == generation && registry.local_child(id) is None
            ==> registry.after_finish(id, generation).active_child(id) is None,
        registry.upstream[id].generation == generation && !registry.local.contains_key(id)
            ==> registry.after_finish(id, generation).run_model(id) is None
            && registry.after_finish(id, generation).route(id) is None,
        registry.upstream[id].generation != generation ==> registry.after_finish(id, generation)
            == registry,
{
}

/// A local transport that closes frees the subagent where no upstream route holds it.
pub proof fn law_closing_transport_frees_the_subagent(
    registry: RegistryView,
    handle: crate::registry::HandleView,
)
    requires
        registry.is_current(handle),
        registry.upstream_child(handle.request_id) is None,
    ensures
        registry.after_begin_close(handle).active_child(handle.request_id) is None,
        registry.after_close(handle).active_child(handle.request_id) is None,
{
}

/// A transport that replaces a closing one is of a lifecycle of its own: what is then done with
/// the handle of the closed one changes nothing.
pub proof fn law_stale_handle_changes_nothing(
    registry: RegistryView,
    handle: crate::registry::HandleView,
    admission: Option<crate::registry::BindingView>,
)
    requires
        registry.is_sound(),
        registry.is_current(handle),
        !registry.local[handle.request_id].accepting,
    ensures
        ({
            let id = handle.request_id;
            let after = registry.after_append(id, true, admission);
            &&& registry.appended(id, true, admission).created
            &&& !after.is_current(handle)
            &&& after.after_close(handle) == after
            &&& after.after_begin_close(handle) == after
            &&& after.commits(id)
        }),
{
    assert(registry.is_sound_for(handle.request_id));
}

/// A subagent that inherits sees the model that its parent committed last, or the model that its
/// parent was last routed upstream with where no local transport of the parent has a model.
pub proof fn law_parent_model_is_the_latest(
    registry: RegistryView,
    id: Seq<char>,
    prepared: crate::registry::PreparedView,
    model: Seq<char>,
)
    requires
        prepared.role == ModelRole::Primary,
    ensures
        registry.commits(id) ==> registry.after_commit(id, model).run_model(id) == Some(model),
        !(registry.local.contains_key(id) && registry.local[id].selection is Some)
            ==> registry.after_admission(
            id,
            prepared,
            registry.owned(id, prepared),
            false,
        ).run_model(id) == Some(prepared.model),
{
}

/// A model that only this side knows never goes upstream: the model that a run is admitted with
/// upstream is one that the store does not hold, and neither a plugin's nor the hash of a model.
pub proof fn law_local_models_never_go_upstream(
    registry: RegistryView,
    id: Seq<char>,
    prepared: crate::registry::PreparedView,
    known: bool,
)
    requires
        registry.is_sound(),
        crate::registry::locality(registry.owned(id, prepared).model, known) == Ok::<
            bool,
            crate::error::ErrorView,
        >(false),
    ensures
        !known,
        ({
            let owned = registry.owned(id, prepared);
            let admitted = registry.admitted(id, prepared, owned, false);
            &&& admitted.model == owned.model
            &&& !crate::text::has_prefix(admitted.model, "plugin:"@)
            &&& !crate::text::is_model_hash(admitted.model)
        }),
{
    assert(registry.is_sound_for(id));
}

/// The policy in force stays one whose rules were accepted, whatever happens to the registry, as
/// long as only such policies are published.
pub proof fn law_operations_keep_the_policy_valid(registry: RegistryView, operation: Operation)
    requires
        registry.models.is_valid(),
        operation matches Operation::Publish { policy } ==> policy.is_valid(),
    ensures
        registry.after(operation).models.is_valid(),
{
}

/// After a subagent was admitted, the model of its run is the admitted one, unless it went
/// upstream while a local transport of the request still has another model.
pub proof fn law_admitted_subagent_runs_its_model(
    registry: RegistryView,
    id: Seq<char>,
    prepared: crate::registry::PreparedView,
    local: bool,
)
    requires
        prepared.role == ModelRole::Child,
        !local && registry.local.contains_key(id) && registry.local[id].selection is Some
            ==> registry.local[id].selection->0.model == registry.admitted(
            id,
            prepared,
            registry.owned(id, prepared),
            false,
        ).model,
    ensures
        registry.after_admission(id, prepared, registry.owned(id, prepared), local).run_model(id)
            == Some(
            registry.admitted(id, prepared, registry.owned(id, prepared), local).model,
        ),
{
}

} // verus!
