//! What each operation on a registry reads and changes.
use vstd::prelude::*;

use crate::error::ErrorView;
use crate::registry::{ModelRole, RegistryView, TransportRoute};
use crate::rewrite::EffortView;

verus! {

/// Where a model is served: one that begins as a plugin's is served here where it is well formed
/// and refused where it is not; one that the store holds is served here; a hash that the store does
/// not hold is refused; every other one goes upstream.
pub proof fn law_models_are_served_by_their_form(model: Seq<char>, known: bool)
    ensures
        crate::text::has_prefix(model, "plugin:"@) && crate::plugin::is_plugin_model(model)
            ==> crate::registry::locality(model, known) == Ok::<bool, ErrorView>(true),
        crate::text::has_prefix(model, "plugin:"@) && !crate::plugin::is_plugin_model(model)
            ==> crate::registry::locality(model, known) == Err::<bool, ErrorView>(
            ErrorView::Config("invalid plugin model ID: "@ + model),
        ),
        !crate::text::has_prefix(model, "plugin:"@) ==> crate::registry::locality(model, true)
            == Ok::<bool, ErrorView>(true),
        !crate::text::has_prefix(model, "plugin:"@) && crate::text::is_model_hash(model)
            ==> crate::registry::locality(model, false) == Err::<bool, ErrorView>(
            ErrorView::Config("unknown local model hash: "@ + model),
        ),
        !crate::text::has_prefix(model, "plugin:"@) && !crate::text::is_model_hash(model)
            ==> crate::registry::locality(model, false) == Ok::<bool, ErrorView>(false),
{
}

/// Who owns a transport after a candidate came to it: a primary agent by its model alone, whoever
/// owned it before; a subagent only where no subagent owned it before, and then as it is.
pub proof fn law_subagents_keep_what_they_own(
    slot: Option<crate::registry::BindingView>,
    candidate: crate::registry::BindingView,
)
    ensures
        candidate.role == ModelRole::Primary ==> {
            let owner = crate::registry::owner(slot, candidate);
            &&& owner.model == candidate.model
            &&& owner.effort == EffortView::Unchanged
            &&& owner.fast is None
            &&& owner.role == ModelRole::Primary
        },
        candidate.role == ModelRole::Child && slot is Some && slot->0.role == ModelRole::Child
            ==> crate::registry::owner(slot, candidate) == slot->0,
        candidate.role == ModelRole::Child && (slot is None || slot->0.role == ModelRole::Primary)
            ==> crate::registry::owner(slot, candidate) == candidate,
{
}

/// What a candidate would bind: a subagent its model, effort and speed, a primary agent its model
/// alone.
pub proof fn law_candidates_bind_by_their_role(prepared: crate::registry::PreparedView)
    ensures
        prepared.candidate().model == prepared.model,
        prepared.candidate().role == prepared.role,
        prepared.role == ModelRole::Child ==> prepared.candidate().effort == prepared.effort
            && prepared.candidate().fast == prepared.fast,
        prepared.role == ModelRole::Primary ==> prepared.candidate().effort
            == EffortView::Unchanged && prepared.candidate().fast is None,
{
}

/// The request of an admitted run is written anew exactly where it asks for another model, or its
/// effort or its speed is decided.
pub proof fn law_decided_runs_are_written_anew(
    admitted: crate::registry::AdmittedView,
    original: Seq<char>,
)
    ensures
        admitted.rewrites_wire(original) <==> !(admitted.model == original && admitted.effort
            == EffortView::Unchanged && admitted.fast is None),
{
}

/// A registry begins without transports, with the first generation to be given out, and with the
/// policy that it was made with.
pub proof fn law_fresh_registry_has_no_transports(
    models: crate::subagent::ModelsView,
    id: Seq<char>,
)
    ensures
        !RegistryView::fresh(models).local.contains_key(id),
        !RegistryView::fresh(models).upstream.contains_key(id),
        RegistryView::fresh(models).next_local_generation == 1,
        RegistryView::fresh(models).models == models,
        RegistryView::fresh(models).route(id) is None,
        RegistryView::fresh(models).run_model(id) is None,
        RegistryView::fresh(models).active_child(id) is None,
        RegistryView::fresh(models).upstream_generation(id) == 0,
{
}

/// The model of a run is that of its local transport, whether or not that still takes messages, and
/// where that has none, that of its upstream route.
pub proof fn law_local_model_goes_before_upstream(registry: RegistryView, id: Seq<char>)
    ensures
        registry.local.contains_key(id) && registry.local[id].selection is Some
            ==> registry.run_model(id) == Some(registry.local[id].selection->0.model),
        !(registry.local.contains_key(id) && registry.local[id].selection is Some)
            && registry.upstream.contains_key(id) && registry.upstream[id].selection is Some
            ==> registry.run_model(id) == Some(registry.upstream[id].selection->0.model),
        !(registry.local.contains_key(id) && registry.local[id].selection is Some) && !(
        registry.upstream.contains_key(id) && registry.upstream[id].selection is Some)
            ==> registry.run_model(id) is None,
{
}

/// The binding of an active subagent is the one that its local transport holds while it takes
/// messages, and else the one that its upstream route holds. The binding of a primary agent is
/// none.
pub proof fn law_active_subagents_are_held_by_a_transport(registry: RegistryView, id: Seq<char>)
    ensures
        registry.local.contains_key(id) && registry.local[id].accepting
            && registry.local[id].selection is Some && registry.local[id].selection->0.role
            == ModelRole::Child ==> registry.active_child(id) == registry.local[id].selection,
        !(registry.local.contains_key(id) && registry.local[id].accepting
            && registry.local[id].selection is Some && registry.local[id].selection->0.role
            == ModelRole::Child) && registry.upstream.contains_key(id)
            && registry.upstream[id].selection is Some && registry.upstream[id].selection->0.role
            == ModelRole::Child ==> registry.active_child(id) == registry.upstream[id].selection,
        !(registry.local.contains_key(id) && registry.local[id].accepting
            && registry.local[id].selection is Some && registry.local[id].selection->0.role
            == ModelRole::Child) && !(registry.upstream.contains_key(id)
            && registry.upstream[id].selection is Some && registry.upstream[id].selection->0.role
            == ModelRole::Child) ==> registry.active_child(id) is None,
{
}

/// A request is routed to its local transport, and where it has none, to its upstream route with
/// the generation of that.
pub proof fn law_local_route_goes_before_upstream(registry: RegistryView, id: Seq<char>)
    ensures
        registry.local.contains_key(id) ==> registry.route(id) == Some(TransportRoute::Local),
        !registry.local.contains_key(id) && registry.upstream.contains_key(id) ==> registry.route(
            id,
        ) == Some(TransportRoute::Upstream(registry.upstream[id].generation)),
        !registry.local.contains_key(id) && !registry.upstream.contains_key(id) ==> registry.route(
            id,
        ) is None,
        registry.upstream.contains_key(id) ==> registry.upstream_generation(id)
            == registry.upstream[id].generation,
        !registry.upstream.contains_key(id) ==> registry.upstream_generation(id) == 0,
{
}

/// What a run would be admitted with: an active subagent what it has, whatever the candidate is,
/// every other one its candidate.
pub proof fn law_runs_are_owned_by_active_subagents(
    registry: RegistryView,
    id: Seq<char>,
    prepared: crate::registry::PreparedView,
)
    ensures
        prepared.role == ModelRole::Child && registry.active_child(id) is Some ==> registry.owned(
            id,
            prepared,
        ) == registry.active_child(id)->0,
        prepared.role == ModelRole::Child && registry.active_child(id) is None ==> {
            let owned = registry.owned(id, prepared);
            &&& owned.model == prepared.model
            &&& owned.effort == prepared.effort
            &&& owned.fast == prepared.fast
            &&& owned.role == ModelRole::Child
        },
        prepared.role == ModelRole::Primary ==> {
            let owned = registry.owned(id, prepared);
            &&& owned.model == prepared.model
            &&& owned.effort == EffortView::Unchanged
            &&& owned.fast is None
            &&& owned.role == ModelRole::Primary
        },
{
}

/// A request whose transport takes messages, or that does not replace one that closes, gets the
/// transport that is there, of the same generation; without a candidate nothing changes at all.
pub proof fn law_held_transports_are_reused(
    registry: RegistryView,
    id: Seq<char>,
    replace_closing: bool,
    candidate: crate::registry::BindingView,
)
    requires
        registry.local.contains_key(id),
        registry.local[id].accepting || !replace_closing,
    ensures
        ({
            let appended = registry.appended(id, replace_closing, None);
            &&& appended.handle.request_id == id
            &&& appended.handle.generation == registry.local[id].generation
            &&& appended.selection is None
            &&& !appended.created
        }),
        registry.after_append(id, replace_closing, None) == registry,
        ({
            let appended = registry.appended(id, replace_closing, Some(candidate));
            let after = registry.after_append(id, replace_closing, Some(candidate));
            let owner = crate::registry::owner(registry.local[id].selection, candidate);
            &&& appended.handle.request_id == id
            &&& appended.handle.generation == registry.local[id].generation
            &&& appended.selection == Some(owner)
            &&& !appended.created
            &&& after.local.dom() == registry.local.dom()
            &&& after.local[id].selection == Some(owner)
            &&& after.local[id].generation == registry.local[id].generation
            &&& after.local[id].accepting == registry.local[id].accepting
            &&& after.next_local_generation == registry.next_local_generation
            &&& after.upstream == registry.upstream
            &&& after.models == registry.models
        }),
{
    assert(registry.after_append(id, replace_closing, Some(candidate)).local.dom()
        =~= registry.local.dom());
}

/// A request without a transport, or one that replaces a transport that closes, gets a new one that
/// takes messages, of the next generation, and with no owner but its candidate.
pub proof fn law_new_transports_have_new_generations(
    registry: RegistryView,
    id: Seq<char>,
    replace_closing: bool,
    admission: Option<crate::registry::BindingView>,
)
    requires
        registry.local.contains_key(id) ==> !registry.local[id].accepting && replace_closing,
    ensures
        ({
            let appended = registry.appended(id, replace_closing, admission);
            let after = registry.after_append(id, replace_closing, admission);
            &&& appended.handle.request_id == id
            &&& appended.handle.generation == registry.next_local_generation
            &&& appended.created
            &&& after.local.contains_key(id)
            &&& after.local.dom() == registry.local.dom().insert(id)
            &&& after.local[id].generation == registry.next_local_generation
            &&& after.local[id].accepting
            &&& after.local[id].selection == appended.selection
            &&& admission is None ==> appended.selection is None
            &&& admission matches Some(candidate) ==> appended.selection == Some(
                crate::registry::owner(None, candidate),
            )
            &&& registry.next_local_generation < u64::MAX ==> after.next_local_generation
                == registry.next_local_generation + 1
            &&& registry.next_local_generation == u64::MAX ==> after.next_local_generation == 0
            &&& after.upstream == registry.upstream
            &&& after.models == registry.models
        }),
{
    assert(registry.after_append(id, replace_closing, admission).local.dom()
        =~= registry.local.dom().insert(id));
}

/// A route that is marked gets the next generation, and its owner; nothing else changes.
pub proof fn law_marked_routes_have_new_generations(
    registry: RegistryView,
    id: Seq<char>,
    candidate: crate::registry::BindingView,
)
    requires
        registry.upstream.contains_key(id) ==> registry.upstream[id].generation < u64::MAX,
    ensures
        ({
            let after = registry.after_mark(id, candidate);
            let slot = if registry.upstream.contains_key(id) {
                registry.upstream[id].selection
            } else {
                None
            };
            &&& registry.upstream_owner(id, candidate) == crate::registry::owner(slot, candidate)
            &&& after.upstream.dom() == registry.upstream.dom().insert(id)
            &&& after.upstream[id].selection == Some(crate::registry::owner(slot, candidate))
            &&& registry.upstream.contains_key(id) ==> after.upstream[id].generation
                == registry.upstream[id].generation + 1
            &&& !registry.upstream.contains_key(id) ==> after.upstream[id].generation == 1
            &&& after.local == registry.local
            &&& after.next_local_generation == registry.next_local_generation
            &&& after.models == registry.models
        }),
{
    assert(registry.after_mark(id, candidate).upstream.dom() =~= registry.upstream.dom().insert(
        id,
    ));
}

/// A run that is admitted here has a handle to its transport, which is a new one exactly where none
/// takes messages. A subagent is bound at once, with what it is admitted with; a primary agent is
/// not bound yet, and is admitted with its model alone. Nothing changes upstream.
pub proof fn law_local_runs_are_admitted_to_their_transport(
    registry: RegistryView,
    id: Seq<char>,
    prepared: crate::registry::PreparedView,
)
    ensures
        ({
            let owned = registry.owned(id, prepared);
            let admitted = registry.admitted(id, prepared, owned, true);
            let after = registry.after_admission(id, prepared, owned, true);
            let held = registry.local.contains_key(id) && registry.local[id].accepting;
            &&& admitted.local
            &&& admitted.role == prepared.role
            &&& admitted.handle is Some
            &&& admitted.handle->0.request_id == id
            &&& admitted.handle->0.generation == after.local[id].generation
            &&& admitted.created <==> !held
            &&& admitted.defer_primary <==> prepared.role == ModelRole::Primary
            &&& after.local.dom() == registry.local.dom().insert(id)
            &&& after.local[id].accepting
            &&& held ==> after.local[id].generation == registry.local[id].generation
            &&& !held ==> after.local[id].generation == registry.next_local_generation
            &&& after.upstream == registry.upstream
            &&& after.models == registry.models
            &&& prepared.role == ModelRole::Primary ==> {
                &&& admitted.model == prepared.model
                &&& admitted.effort == EffortView::Unchanged
                &&& admitted.fast is None
                &&& held ==> after.local[id].selection == registry.local[id].selection
                &&& !held ==> after.local[id].selection is None
            }
            &&& prepared.role == ModelRole::Child ==> {
                &&& after.local[id].selection == Some(
                    crate::registry::owner(
                        if held {
                            registry.local[id].selection
                        } else {
                            None
                        },
                        owned,
                    ),
                )
                &&& after.local[id].selection->0.model == admitted.model
                &&& after.local[id].selection->0.effort == admitted.effort
                &&& after.local[id].selection->0.fast == admitted.fast
                &&& after.local[id].selection->0.role == ModelRole::Child
            }
        }),
{
    assert(registry.after_admission(
        id,
        prepared,
        registry.owned(id, prepared),
        true,
    ).local.dom() =~= registry.local.dom().insert(id));
}

/// A run that is admitted upstream has no handle, and binds its route at once, subagent or not. The
/// route gets its next generation. Nothing changes here.
pub proof fn law_upstream_runs_are_admitted_to_their_route(
    registry: RegistryView,
    id: Seq<char>,
    prepared: crate::registry::PreparedView,
)
    requires
        registry.upstream.contains_key(id) ==> registry.upstream[id].generation < u64::MAX,
    ensures
        ({
            let owned = registry.owned(id, prepared);
            let admitted = registry.admitted(id, prepared, owned, false);
            let after = registry.after_admission(id, prepared, owned, false);
            &&& !admitted.local
            &&& admitted.role == prepared.role
            &&& admitted.handle is None
            &&& !admitted.created
            &&& !admitted.defer_primary
            &&& after.local == registry.local
            &&& after.next_local_generation == registry.next_local_generation
            &&& after.models == registry.models
            &&& after.upstream.dom() == registry.upstream.dom().insert(id)
            &&& registry.upstream.contains_key(id) ==> after.upstream[id].generation
                == registry.upstream[id].generation + 1
            &&& !registry.upstream.contains_key(id) ==> after.upstream[id].generation == 1
            &&& after.upstream[id].selection is Some
            &&& prepared.role == ModelRole::Child ==> after.upstream[id].selection == Some(
                crate::registry::owner(
                    if registry.upstream.contains_key(id) {
                        registry.upstream[id].selection
                    } else {
                        None
                    },
                    owned,
                ),
            )
            &&& after.upstream[id].selection->0.model == admitted.model
            &&& after.upstream[id].selection->0.effort == admitted.effort
            &&& after.upstream[id].selection->0.fast == admitted.fast
            &&& after.upstream[id].selection->0.role == prepared.role
            &&& prepared.role == ModelRole::Primary ==> admitted.model == prepared.model
                && admitted.effort == EffortView::Unchanged && admitted.fast is None
        }),
{
    assert(registry.after_admission(
        id,
        prepared,
        registry.owned(id, prepared),
        false,
    ).upstream.dom() =~= registry.upstream.dom().insert(id));
}

/// The identity of a primary agent is committed exactly where its transport takes messages. The
/// transport is then owned by a primary agent with that model and nothing else, and is the same
/// otherwise.
pub proof fn law_committed_models_own_their_transport(
    registry: RegistryView,
    id: Seq<char>,
    model: Seq<char>,
)
    ensures
        registry.commits(id) <==> registry.local.contains_key(id) && registry.local[id].accepting,
        registry.local.contains_key(id) ==> {
            let after = registry.after_commit(id, model);
            &&& after.local.dom() == registry.local.dom()
            &&& after.local[id].selection is Some
            &&& after.local[id].selection->0.model == model
            &&& after.local[id].selection->0.effort == EffortView::Unchanged
            &&& after.local[id].selection->0.fast is None
            &&& after.local[id].selection->0.role == ModelRole::Primary
            &&& after.local[id].generation == registry.local[id].generation
            &&& after.local[id].accepting == registry.local[id].accepting
            &&& after.next_local_generation == registry.next_local_generation
            &&& after.upstream == registry.upstream
            &&& after.models == registry.models
        },
{
    if registry.local.contains_key(id) {
        assert(registry.after_commit(id, model).local.dom() =~= registry.local.dom());
    }
}

/// A transport that begins to close takes no more messages, and keeps its generation and its owner;
/// one that was closed is gone. Only a handle of the generation that is there does either, and
/// nothing else changes.
pub proof fn law_closing_touches_the_current_transport_alone(
    registry: RegistryView,
    handle: crate::registry::HandleView,
)
    ensures
        registry.is_current(handle) <==> registry.local.contains_key(handle.request_id)
            && registry.local[handle.request_id].generation == handle.generation,
        registry.is_current(handle) ==> {
            let after = registry.after_begin_close(handle);
            &&& after.local.dom() == registry.local.dom()
            &&& !after.local[handle.request_id].accepting
            &&& after.local[handle.request_id].generation
                == registry.local[handle.request_id].generation
            &&& after.local[handle.request_id].selection
                == registry.local[handle.request_id].selection
            &&& after.next_local_generation == registry.next_local_generation
            &&& after.upstream == registry.upstream
            &&& after.models == registry.models
        },
        registry.is_current(handle) ==> {
            let after = registry.after_close(handle);
            &&& !after.local.contains_key(handle.request_id)
            &&& after.local == registry.local.remove(handle.request_id)
            &&& after.next_local_generation == registry.next_local_generation
            &&& after.upstream == registry.upstream
            &&& after.models == registry.models
        },
        !registry.is_current(handle) ==> registry.after_begin_close(handle) == registry
            && registry.after_close(handle) == registry,
{
    if registry.is_current(handle) {
        assert(registry.after_begin_close(handle).local.dom() =~= registry.local.dom());
    }
}

/// The end of the generation that a route has takes the route out; the end of any other one, or of
/// a route that is not there, changes nothing.
pub proof fn law_finishing_touches_the_current_route_alone(
    registry: RegistryView,
    id: Seq<char>,
    generation: u64,
)
    ensures
        registry.upstream.contains_key(id) && registry.upstream[id].generation == generation ==> {
            let after = registry.after_finish(id, generation);
            &&& !after.upstream.contains_key(id)
            &&& after.upstream == registry.upstream.remove(id)
            &&& after.local == registry.local
            &&& after.next_local_generation == registry.next_local_generation
            &&& after.models == registry.models
        },
        !(registry.upstream.contains_key(id) && registry.upstream[id].generation == generation)
            ==> registry.after_finish(id, generation) == registry,
{
}

/// A shutdown takes out every transport and every route, and keeps the generations that were given
/// out and the policy. It hands out the handle of each local transport once, in the order of the
/// requests.
pub proof fn law_shutdown_hands_out_every_transport(
    registry: RegistryView,
    id: Seq<char>,
    handle: crate::registry::HandleView,
)
    requires
        registry.local.dom().finite(),
    ensures
        !registry.after_shutdown().local.contains_key(id),
        !registry.after_shutdown().upstream.contains_key(id),
        registry.after_shutdown().next_local_generation == registry.next_local_generation,
        registry.after_shutdown().models == registry.models,
        registry.handles().contains(handle) <==> registry.local.contains_key(handle.request_id)
            && registry.local[handle.request_id].generation == handle.generation,
        forall|i: int, j: int|
            0 <= i < j < registry.handles().len() ==> crate::text::precedes(
                (#[trigger] registry.handles()[i]).request_id,
                (#[trigger] registry.handles()[j]).request_id,
            ),
{
    let order = crate::text_map::sorted_texts(registry.local.dom());
    let handles = registry.handles();
    crate::text_map::lemma_finite_set_is_sorted(registry.local.dom());
    if handles.contains(handle) {
        let i = choose|i: int| 0 <= i < handles.len() && handles[i] == handle;
        assert(order.to_set().contains(order[i]));
    }
    if registry.local.contains_key(handle.request_id)
        && registry.local[handle.request_id].generation == handle.generation {
        assert(order.to_set().contains(handle.request_id));
        let i = choose|i: int| 0 <= i < order.len() && order[i] == handle.request_id;
        assert(handles[i] == handle);
    }
    assert forall|i: int, j: int| 0 <= i < j < handles.len() implies crate::text::precedes(
        (#[trigger] handles[i]).request_id,
        (#[trigger] handles[j]).request_id,
    ) by {
        assert(crate::text::precedes(order[i], order[j]));
    }
}

/// What is bound and routed changes no policy: only a policy that is published does, and that
/// changes nothing else.
pub proof fn law_only_publishing_changes_the_policy(
    registry: RegistryView,
    operation: crate::lifecycle::Operation,
)
    ensures
        operation !is Publish ==> registry.after(operation).models == registry.models,
        operation matches crate::lifecycle::Operation::Publish { policy } ==> registry.after(
            operation,
        ).models == registry.models.published(policy) && registry.after(operation).local
            == registry.local && registry.after(operation).upstream == registry.upstream
            && registry.after(operation).next_local_generation == registry.next_local_generation,
{
}

/// Each operation is what the registry does for it. A candidate whose model is refused, and a commit
/// for a request that no transport takes messages for, change nothing.
pub proof fn law_operations_are_what_the_registry_does(
    registry: RegistryView,
    id: Seq<char>,
    prepared: crate::registry::PreparedView,
    known: bool,
    model: Seq<char>,
    handle: crate::registry::HandleView,
    generation: u64,
)
    ensures
        registry.after(crate::lifecycle::Operation::GetOrCreate { id }) == registry.after_append(
            id,
            false,
            None,
        ),
        ({
            let owned = registry.owned(id, prepared);
            let after = registry.after(
                crate::lifecycle::Operation::Admit { id, prepared, known },
            );
            match crate::registry::locality(owned.model, known) {
                Ok(local) => after == registry.after_admission(id, prepared, owned, local),
                Err(_) => after == registry,
            }
        }),
        registry.local.contains_key(id) && registry.local[id].accepting ==> registry.after(
            crate::lifecycle::Operation::Commit { id, model },
        ) == registry.after_commit(id, model),
        !(registry.local.contains_key(id) && registry.local[id].accepting) ==> registry.after(
            crate::lifecycle::Operation::Commit { id, model },
        ) == registry,
        registry.after(crate::lifecycle::Operation::BeginClose { handle })
            == registry.after_begin_close(handle),
        registry.after(crate::lifecycle::Operation::Close { handle }) == registry.after_close(
            handle,
        ),
        registry.after(crate::lifecycle::Operation::Finish { id, generation })
            == registry.after_finish(id, generation),
        registry.after(crate::lifecycle::Operation::Shutdown) == registry.after_shutdown(),
{
}

} // verus!
