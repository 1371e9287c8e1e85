use cursor_routing::error::Error;
use cursor_routing::registry::{
    model_is_local, ModelRole, PreparedRunModel, RunModelBinding, TransportRegistry,
    TransportRoute,
};
use cursor_routing::rewrite::EffortAction;

fn set(effort: &str) -> EffortAction {
    EffortAction::SetTo(effort.into())
}

fn child_binding(model: &str, effort: EffortAction, fast: Option<bool>) -> RunModelBinding {
    RunModelBinding { model: model.into(), effort, fast, role: ModelRole::Child }
}

fn prepare(model: &str, effort: &str, fast: bool) -> PreparedRunModel {
    PreparedRunModel {
        original: "source".into(),
        model: model.into(),
        effort: set(effort),
        fast: Some(fast),
        role: ModelRole::Child,
    }
}

fn primary(model: &str) -> PreparedRunModel {
    PreparedRunModel {
        original: model.into(),
        model: model.into(),
        effort: EffortAction::Unchanged,
        fast: None,
        role: ModelRole::Primary,
    }
}

#[test]
fn concurrent_selections_share_one_model_until_lifecycle_finishes() {
    let mut registry = TransportRegistry::new();
    let first = registry.mark_upstream("child", "model-a", set("high"), Some(true), ModelRole::Child);
    let second = registry.mark_upstream("child", "model-b", set("low"), Some(false), ModelRole::Child);
    assert_eq!(first, second);
    assert_eq!(registry.run_model("child").as_deref(), Some(first.model.as_str()));
    assert_eq!(registry.active_child_model("child").as_deref(), Some(first.model.as_str()));
    let Some(TransportRoute::Upstream(generation)) = registry.wait_route("child") else {
        panic!("expected upstream route")
    };
    registry.finish_upstream("child", generation);
    assert!(registry.run_model("child").is_none());
    let owned =
        registry.mark_upstream("child", "model-c", set("medium"), Some(false), ModelRole::Child);
    assert_eq!(owned.model, "model-c");
    assert_eq!(owned.effort, set("medium"));
    assert_eq!(owned.fast, Some(false));
    assert_eq!(registry.run_model("child").as_deref(), Some("model-c"));
    registry.shutdown();
    assert!(registry.run_model("child").is_none());
}

#[test]
fn stale_upstream_completion_keeps_newer_generation_selection() {
    let mut registry = TransportRegistry::new();
    registry.mark_upstream("child", "selected", set("high"), Some(true), ModelRole::Child);
    registry.mark_upstream("child", "ignored-retry", set("low"), Some(false), ModelRole::Child);
    registry.finish_upstream("child", 1);
    assert_eq!(registry.run_model("child").as_deref(), Some("selected"));
    assert_eq!(registry.wait_route("child"), Some(TransportRoute::Upstream(2)));
    registry.shutdown();
}

#[test]
fn replacing_closing_local_lifecycle_takes_new_child_selection() {
    let mut registry = TransportRegistry::new();
    let first = registry.get_or_create_for_append(
        "child",
        true,
        Some(child_binding("model-a", set("high"), Some(true))),
    );
    let owned_a = first.selection;
    assert_eq!(owned_a.as_ref().map(|value| value.model.as_str()), Some("model-a"));
    assert_eq!(owned_a.as_ref().map(|value| value.effort.clone()), Some(set("high")));
    assert_eq!(owned_a.as_ref().and_then(|value| value.fast), Some(true));
    registry.begin_close(&first.handle);
    let second = registry.get_or_create_for_append(
        "child",
        true,
        Some(child_binding("model-b", set("low"), Some(false))),
    );
    assert_eq!(second.handle.request_id, "child");
    assert!(second.created);
    let owned_b = second.selection;
    assert_eq!(owned_b.as_ref().map(|value| value.model.as_str()), Some("model-b"));
    assert_eq!(owned_b.as_ref().map(|value| value.effort.clone()), Some(set("low")));
    assert_eq!(owned_b.as_ref().and_then(|value| value.fast), Some(false));
    assert_eq!(registry.run_model("child").as_deref(), Some("model-b"));
    registry.transport_closed(&first.handle);
    assert_eq!(registry.run_model("child").as_deref(), Some("model-b"));
    assert_eq!(registry.local("child"), Some(second.handle));
    registry.shutdown();
}

#[test]
fn primary_model_updates_on_same_local_lifecycle() {
    let mut registry = TransportRegistry::new();
    registry.get_or_create_for_append("parent", true, None);
    registry.commit_primary_model("parent", "model-a").unwrap();
    assert_eq!(registry.run_model("parent").as_deref(), Some("model-a"));
    registry.commit_primary_model("parent", "model-b").unwrap();
    assert_eq!(registry.run_model("parent").as_deref(), Some("model-b"));
    registry.shutdown();
}

#[test]
fn concurrent_admit_run_model_keeps_decoded_route_and_owned_model_aligned() {
    let mut registry = TransportRegistry::new();
    let left = registry.admit_run_model("child", &prepare("model-a", "high", true), false).unwrap();
    let right = registry.admit_run_model("child", &prepare("model-b", "low", false), false).unwrap();
    assert_eq!(left.model, right.model);
    assert_eq!(left.effort, right.effort);
    assert_eq!(left.fast, right.fast);
    assert_eq!(left.local, right.local);
    assert!(!left.local);
    assert_eq!(registry.run_model("child").as_deref(), Some(left.model.as_str()));
    assert_eq!(registry.active_child_model("child").as_deref(), Some(left.model.as_str()));
    registry.shutdown();
}

#[test]
fn closing_between_prepare_and_admit_uses_candidate_not_stale_pin() {
    let mut registry = TransportRegistry::new();
    let prepared_a = prepare("plugin:example/provider/a", "high", true);
    let first = registry.admit_run_model("local-child", &prepared_a, false).unwrap();
    assert!(first.local);
    assert_eq!(first.model, "plugin:example/provider/a");
    assert_eq!(first.effort, set("high"));
    assert_eq!(first.fast, Some(true));
    let closing = first.handle.unwrap();
    registry.begin_close(&closing);
    assert!(registry.active_child_model("local-child").is_none());

    let prepared_b = prepare("plugin:example/provider/b", "low", false);
    let second = registry.admit_run_model("local-child", &prepared_b, false).unwrap();
    assert_eq!(second.model, "plugin:example/provider/b");
    assert_eq!(second.effort, set("low"));
    assert_eq!(second.fast, Some(false));
    assert_eq!(registry.run_model("local-child").as_deref(), Some("plugin:example/provider/b"));
    registry.transport_closed(&closing);
    assert_eq!(registry.run_model("local-child").as_deref(), Some("plugin:example/provider/b"));
    registry.shutdown();
}

#[test]
fn rejected_transport_admit_does_not_commit_primary_identity() {
    let mut registry = TransportRegistry::new();
    let handle = registry.get_or_create_for_append("parent", true, None).handle;
    registry.commit_primary_model("parent", "model-a").unwrap();
    assert_eq!(registry.run_model("parent").as_deref(), Some("model-a"));

    registry.begin_close(&handle);
    assert!(registry.commit_primary_model("parent", "model-b").is_err());
    assert_eq!(registry.run_model("parent").as_deref(), Some("model-a"));
    registry.shutdown();
}

#[test]
fn commit_without_a_transport_is_refused() {
    let mut registry = TransportRegistry::new();
    assert_eq!(
        registry.commit_primary_model("parent", "model-a").unwrap_err(),
        Error::RunNotFound("parent".into())
    );
    registry.mark_upstream("parent", "model-a", EffortAction::Unchanged, None, ModelRole::Primary);
    assert!(registry.commit_primary_model("parent", "model-b").is_err());
    assert_eq!(registry.run_model("parent").as_deref(), Some("model-a"));
}

#[test]
fn transports_are_reused_while_they_take_messages() {
    let mut registry = TransportRegistry::new();
    let first = registry.get_or_create("a");
    assert!(first.created);
    assert_eq!(first.handle.generation, 1);
    let again = registry.get_or_create("a");
    assert!(!again.created);
    assert_eq!(again.handle, first.handle);
    registry.begin_close(&first.handle);
    assert_eq!(registry.get_or_create("a").handle, first.handle);
    let replaced = registry.get_or_create_for_append("a", true, None);
    assert!(replaced.created);
    assert_eq!(replaced.handle.generation, 2);
    registry.begin_close(&first.handle);
    assert!(registry.commit_primary_model("a", "m").is_ok());
    registry.transport_closed(&replaced.handle);
    assert_eq!(registry.local("a"), None);
    assert_eq!(registry.wait_route("a"), None);
}

#[test]
fn local_route_comes_first_and_requests_do_not_touch_each_other() {
    let mut registry = TransportRegistry::new();
    registry.mark_upstream("a", "m", EffortAction::Unchanged, None, ModelRole::Primary);
    assert!(registry.upstream("a"));
    assert!(!registry.upstream("b"));
    assert_eq!(registry.wait_route("b"), None);
    registry.get_or_create("a");
    assert_eq!(registry.wait_route("a"), Some(TransportRoute::Local));
    assert_eq!(registry.run_model("a").as_deref(), Some("m"));
    registry.get_or_create("b");
    let mut handles: Vec<String> =
        registry.shutdown().into_iter().map(|handle| handle.request_id).collect();
    handles.sort();
    assert_eq!(handles, vec!["a".to_owned(), "b".to_owned()]);
    assert_eq!(registry.wait_route("a"), None);
}

#[test]
fn refused_admission_binds_nothing() {
    let mut registry = TransportRegistry::new();
    let hash = prepare("0123456789abcdef", "high", true);
    assert_eq!(
        registry.admit_run_model("child", &hash, false).unwrap_err(),
        Error::Config("unknown local model hash: 0123456789abcdef".into())
    );
    let plugin = prepare("plugin:malformed", "high", true);
    assert_eq!(
        registry.admit_run_model("child", &plugin, false).unwrap_err(),
        Error::Config("invalid plugin model ID: plugin:malformed".into())
    );
    assert!(registry.run_model("child").is_none());
    assert_eq!(registry.wait_route("child"), None);
    let admitted = registry.admit_run_model("child", &hash, true).unwrap();
    assert!(admitted.local && admitted.created);
    assert!(!admitted.defer_primary);
}

#[test]
fn local_primary_is_left_to_be_committed() {
    let mut registry = TransportRegistry::new();
    let admitted =
        registry.admit_run_model("p", &primary("plugin:example/provider/m"), false).unwrap();
    assert!(admitted.local && admitted.defer_primary);
    assert!(!admitted.rewrites_wire("plugin:example/provider/m"));
    assert!(registry.run_model("p").is_none());
    registry.commit_primary_model("p", &admitted.model).unwrap();
    assert_eq!(registry.run_model("p").as_deref(), Some("plugin:example/provider/m"));
    let upstream = registry.admit_run_model("q", &primary("official"), false).unwrap();
    assert!(!upstream.local && !upstream.defer_primary && upstream.handle.is_none());
    assert_eq!(registry.run_model("q").as_deref(), Some("official"));
}

#[test]
fn subagent_keeps_its_model_across_routes() {
    let mut registry = TransportRegistry::new();
    let first = registry.admit_run_model("c", &prepare("official", "high", true), false).unwrap();
    assert!(!first.local);
    // The store came to hold the model in the meantime.
    let second = registry.admit_run_model("c", &prepare("other", "low", false), true).unwrap();
    assert!(second.local);
    assert_eq!((second.model.as_str(), second.effort, second.fast), ("official", set("high"), Some(true)));
}

#[test]
fn locality_of_models() {
    assert_eq!(model_is_local("official", false), Ok(false));
    assert_eq!(model_is_local("official", true), Ok(true));
    assert_eq!(model_is_local("0123456789ABCDEF", true), Ok(true));
    assert!(model_is_local("0123456789ABCDEF", false).is_err());
    assert_eq!(model_is_local("0123456789ABCDEG", false), Ok(false));
    assert_eq!(model_is_local("plugin:example/provider/m", false), Ok(true));
    assert!(model_is_local("plugin:m", true).is_err());
}
