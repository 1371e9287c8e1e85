use axum::http::header;
use axum::http::{HeaderMap, HeaderValue};
use cursor_routing::append::{
    admit_append, begin_append, forwarded_body, local_outcome, route_label, trace_outcome,
    trace_route, upstream_outcome, AppendPlan, ForwardedBody, TraceField, TraceOutcome,
};
use cursor_routing::error::Error;
use cursor_routing::policy::{ModelTarget, Policy};
use cursor_routing::policy_file::ReferenceStep;
use cursor_routing::registry::{
    model_is_local, AdmittedRun, ModelRole, TransportRegistry, TransportRoute,
};
use cursor_routing::rewrite::EffortAction;
use cursor_routing::routes::{dispatch, routes, Endpoint, RequestMethod, RouteMethod};
use cursor_routing::selection::{
    header_text, parent_headers, select_run_model, selection_differs, TransportParent,
};
use cursor_routing::subagent::{PolicyFile, ReloadState, SubagentModels};
use cursor_routing::text_map::TextMap;
use cursor_routing::wire::{
    AgentRunRequest, ClientMessage, DecodedAppend, ModelDetails, ModelParameterValue,
    RequestedModel, Selection, SubagentModelOverride,
};
use serde_yaml::Value;

// What a document holds as a policy.

fn decode_target(value: &Value) -> Result<ModelTarget, String> {
    let mapping = value.as_mapping().ok_or("a target is a mapping")?;
    let mut model = None;
    let mut effort = None;
    let mut fast = false;
    for (key, value) in mapping {
        match key.as_str() {
            Some("model") => model = Some(value.as_str().ok_or("a model is a string")?.to_owned()),
            Some("effort") if value.is_null() => {}
            Some("effort") => {
                effort = Some(value.as_str().ok_or("an effort is a string")?.to_owned())
            }
            Some("fast") => fast = value.as_bool().ok_or("fast is a boolean")?,
            _ => return Err("unknown field".into()),
        }
    }
    Ok(ModelTarget { model: model.ok_or("missing field `model`")?, effort, fast })
}

fn decode_rules(value: &Value) -> Result<TextMap<ModelTarget>, String> {
    let mut rules = TextMap::new();
    for (key, value) in value.as_mapping().ok_or("rules are a mapping")? {
        let key = key.as_str().ok_or("a key is a string")?;
        rules.insert(key.to_owned(), decode_target(value)?);
    }
    Ok(rules)
}

fn decode_policy(text: &str) -> Result<Policy, String> {
    let value: Value = serde_yaml::from_str(text).map_err(|error| error.to_string())?;
    let mut policy = Policy::default();
    for (key, value) in value.as_mapping().ok_or("a policy is a mapping")? {
        match key.as_str() {
            Some("fallback") if value.is_null() => {}
            Some("fallback") => policy.fallback = Some(decode_target(value)?),
            Some("types") => policy.types = decode_rules(value)?,
            Some("mapping") => policy.mapping = decode_rules(value)?,
            _ => return Err("unknown field".into()),
        }
    }
    Ok(policy)
}

fn parse(text: &str, store: &[&str]) -> Result<Policy, Error> {
    let policy = Policy::parse(text.as_bytes(), decode_policy(text))?;
    let mut answers = TextMap::new();
    loop {
        match policy.check_references(&answers) {
            ReferenceStep::Accepted => return Ok(policy),
            ReferenceStep::Rejected(error) => return Err(error),
            ReferenceStep::Lookup(model) => {
                let known = store.contains(&model.as_str());
                answers.insert(model, known);
            }
        }
    }
}

fn load(text: &str, store: &[&str]) -> Result<SubagentModels, Error> {
    SubagentModels::load("subagent-models.yaml", PolicyFile::Read(parse(text, store)))
}

#[test]
fn startup_and_validation() {
    let empty = SubagentModels::load("subagent-models.yaml", PolicyFile::Missing).unwrap();
    assert_eq!(empty.snapshot().policy, Policy::default());
    for invalid in [
        "",
        "null",
        "[]",
        "typo: value",
        "fallback: ''",
        "fallback: future-official-model",
        "fallback: {model: ''}",
        "fallback: {model: plugin:bad}",
        "fallback: {model: 0123456789abcdef}",
        "fallback: {model: ok}",
        "fallback: {model: ok, effort: ''}",
        "fallback: {model: ok, effort: none}",
        "fallback: {model: ok, effort: ' none'}",
        "fallback: {model: composer-2.5, effort: high}",
        "fallback: {model: official-A, effort: high, fast: yes}",
        "fallback: {model: official-A, effort: high, fast: \"true\"}",
        "types: {explore: string-target}",
        "types: {explore: {model: inherit}}",
        "types: {explore: {model: inherit, effort: high}}",
        "mapping: {source: {model: inherit}}",
        "mapping: {0123456789abcdef: {model: inherit, effort: high}}",
    ] {
        assert!(load(invalid, &[]).is_err(), "accepted {invalid:?}");
    }
    for valid in [
        "{}",
        "fallback: {model: future-official-model, effort: high}",
        "fallback: {model: plugin:example/provider/upstream/model, effort: high}",
        "fallback: {model: composer-2.5}",
        "fallback: {model: composer-2.5, fast: true}",
        "fallback: {model: official-A, effort: high, fast: false}",
        "fallback: {model: official-A, effort: high, fast: true}",
        "types: {explore: {model: x, effort: medium}}",
        "mapping: {composer-2.5: {model: official-B, effort: high}}",
        "mapping: {official-A: {model: composer-2.5}}",
        "mapping: {official-A: {model: composer-2.5, fast: true}}",
    ] {
        load(valid, &[]).unwrap();
    }
}

#[test]
fn documents_that_are_no_policy_say_why() {
    for text in ["", "null", "[]", "text"] {
        assert_eq!(
            Policy::parse(text.as_bytes(), Ok(Policy::default())).unwrap_err(),
            Error::Config(
                "subagent model policy must be a YAML mapping; use {} to clear it".into()
            )
        );
    }
    let broken = Policy::parse(b"fallback: [", Ok(Policy::default())).unwrap_err();
    let why = serde_yaml::from_slice::<Value>(b"fallback: [").unwrap_err();
    assert_eq!(broken, Error::Config(format!("invalid subagent model policy: {why}")));
    assert_eq!(
        Policy::parse(b"typo: 1", Err("unknown field `typo`".into())).unwrap_err(),
        Error::Config("invalid subagent model policy: unknown field `typo`".into())
    );
    assert_eq!(
        load("fallback: {model: 0123456789abcdef, effort: high}", &[]).unwrap_err(),
        Error::Config(
            "subagent-models.yaml: unknown local model hash: 0123456789abcdef".into()
        )
    );
    assert_eq!(
        parse("mapping: {'plugin:bad': {model: ok, effort: high}}", &[]).unwrap_err(),
        Error::Config("invalid plugin model ID: plugin:bad".into())
    );
    assert_eq!(
        parse("types: {'': {model: ok, effort: high}}", &[]).unwrap_err(),
        Error::Config("invalid subagent policy identifier: \"\"".into())
    );
}

#[test]
fn non_composer_missing_effort_rejected_and_reload_keeps_previous_snapshot() {
    let mut models = load("fallback: {model: official-target, effort: high}", &[]).unwrap();
    let error = models
        .publish(parse("fallback: {model: official-target}", &[]))
        .unwrap_err();
    assert!(error.message().contains("requires effort"), "{}", error.message());
    assert_eq!(models.snapshot().version, 1);
    assert_eq!(
        models.snapshot().policy,
        decode_policy("fallback: {model: official-target, effort: high}").unwrap()
    );
}

#[test]
fn composer_effort_forbidden_and_omitted_allowed() {
    let error = load("fallback: {model: composer-2.5, effort: high}", &[])
        .err()
        .expect("composer effort must be rejected");
    assert!(error.message().contains("must not set effort"), "{}", error.message());
    let models = load("types: {explore: {model: composer-2.5}}", &[]).unwrap();
    assert_eq!(
        models.snapshot().resolve("explore", "source").target,
        ModelTarget { model: "composer-2.5".into(), effort: None, fast: false }
    );
}

#[test]
fn fast_omitted_defaults_false_and_explicit_values_load() {
    let models = load(
        "types:\n  explore: {model: official-A, effort: high}\n  shell: {model: composer-2.5, fast: true}\nmapping:\n  source: {model: official-B, effort: medium, fast: false}",
        &[],
    )
    .unwrap();
    let explore = models.snapshot().resolve("explore", "source").target;
    assert!(!explore.fast);
    assert_eq!(explore.model, "official-A");
    let shell = models.snapshot().resolve("shell", "source").target;
    assert!(shell.fast);
    assert_eq!(shell.model, "composer-2.5");
    let mapped = models.snapshot().resolve("other", "source").target;
    assert!(!mapped.fast);
    assert_eq!(mapped.model, "official-B");
}

#[test]
fn accepts_persisted_local_hashes_and_rejects_deleted_ones() {
    let hash = "fedcba9876543210";
    let text = format!("fallback: {{model: '{hash}', effort: high}}");
    let mut models = load(&text, &[hash]).unwrap();
    assert_eq!(
        models.snapshot().resolve("explore", "inherit").target,
        ModelTarget { model: hash.into(), effort: Some("high".into()), fast: false }
    );
    assert!(load(&text, &[]).is_err());
    assert!(models.publish(parse(&text, &[])).is_err());
    assert_eq!(models.snapshot().version, 1);
}

#[test]
fn reload_retains_invalid_and_deleted_but_empty_mapping_clears() {
    let original = "fallback: {model: original, effort: high}";
    let mut models = load(original, &[]).unwrap();
    assert!(models.publish(parse("fallback: [invalid]", &[])).is_err());
    assert_eq!(models.snapshot().version, 1);
    models
        .publish(parse("# formatting only\nfallback: {model: original, effort: high}\n", &[]))
        .unwrap();
    assert_eq!(models.snapshot().version, 1);
    assert!(models.publish(parse("fallback: {model: original, effort: ''}", &[])).is_err());
    assert_eq!(models.snapshot().version, 1);
    assert_eq!(
        models
            .snapshot()
            .policy
            .fallback
            .as_ref()
            .map(|target| (target.model.as_str(), target.effort.as_deref())),
        Some(("original", Some("high")))
    );
    models.publish(parse("{}", &[])).unwrap();
    assert_eq!(models.snapshot().version, 2);
    assert_eq!(models.snapshot().policy, Policy::default());
    models.publish(parse(original, &[])).unwrap();
    assert_eq!(models.snapshot().version, 3);
    assert_eq!(models.snapshot().policy, decode_policy(original).unwrap());
}

#[test]
fn changed_bytes_are_published_once_they_are_stable() {
    let mut state = ReloadState::new();
    assert!(!state.observe(b"one"));
    assert!(state.observe(b"one"));
    assert!(!state.observe(b"one"));
    assert!(!state.observe(b"two"));
    assert!(!state.observe(b"one"));
    assert!(!state.observe(b"two"));
    assert!(state.observe(b"two"));
    assert!(!state.record(None));
    assert!(state.record(Some("broken".into())));
    assert!(!state.record(Some("broken".into())));
    assert!(state.record(Some("missing".into())));
    assert!(!state.record(None));
    assert!(state.record(Some("missing".into())));
}

// Runs and their routes.

struct Fixture {
    registry: TransportRegistry,
    store: Vec<&'static str>,
}

fn fixture(policy: &str) -> Fixture {
    fixture_with(policy, &[])
}

fn fixture_with(policy: &str, store: &[&'static str]) -> Fixture {
    Fixture {
        registry: TransportRegistry::with_subagent_models(load(policy, store).unwrap()),
        store: store.to_vec(),
    }
}

impl Fixture {
    fn reload(&mut self, policy: &str) -> Result<(), Error> {
        let parsed = parse(policy, &self.store);
        self.registry.publish(parsed)
    }

    /// Takes a message as far as its body: where it goes, what was admitted, and with what.
    fn append(
        &mut self,
        decoded: &mut DecodedAppend,
        headers: &mut HeaderMap,
    ) -> Result<(bool, Option<AdmittedRun>, ForwardedBody), Error> {
        match begin_append(&self.registry, decoded, headers).map_err(|refusal| refusal.error)? {
            AppendPlan::Resume { local, .. } => Ok((local, None, forwarded_body(None, headers))),
            AppendPlan::Admit { prepared, .. } => {
                let owned = self.registry.owned_selection(&decoded.request_id, &prepared);
                let known = self.store.contains(&owned.model.as_str());
                let (admitted, changed) =
                    admit_append(&mut self.registry, decoded, &prepared, known)?;
                let rewritten = if changed { Some(encode(decoded)) } else { None };
                let body = forwarded_body(rewritten, headers);
                Ok((admitted.local, Some(admitted), body))
            }
        }
    }

    fn admit_selected(&mut self, decoded: &mut DecodedAppend, headers: &HeaderMap) -> AdmittedRun {
        self.append(decoded, &mut headers.clone()).unwrap().1.unwrap()
    }
}

fn encode(decoded: &DecodedAppend) -> Vec<u8> {
    format!("{decoded:?}").into_bytes()
}

fn parameter(id: &str, value: &str) -> ModelParameterValue {
    ModelParameterValue { id: id.into(), value: value.into(), token_count: None }
}

fn effort_and_fast(effort: &str, fast: bool) -> Vec<ModelParameterValue> {
    vec![parameter("effort", effort), parameter("fast", if fast { "true" } else { "false" })]
}

fn fast_only(fast: bool) -> Vec<ModelParameterValue> {
    vec![parameter("fast", if fast { "true" } else { "false" })]
}

fn request(id: &str, kind: Option<&str>, model: &str) -> DecodedAppend {
    request_with_params(id, kind, model, vec![parameter("effort", "high")])
}

fn request_with_params(
    id: &str,
    kind: Option<&str>,
    model: &str,
    parameters: Vec<ModelParameterValue>,
) -> DecodedAppend {
    DecodedAppend {
        request_id: id.into(),
        seqno: 7,
        message: ClientMessage::RunRequest(AgentRunRequest {
            requested_model: Some(RequestedModel {
                model_id: model.into(),
                max_mode: true,
                parameters,
                ..Default::default()
            }),
            model_details: Some(ModelDetails {
                model_id: model.into(),
                display_name: "Source display name".into(),
                ..Default::default()
            }),
            subagent_type_name: kind.map(str::to_owned),
            subagent_model_overrides: vec![SubagentModelOverride {
                subagent_type: "explore".into(),
                selection: Some(Selection::Model(RequestedModel {
                    model_id: "plugin:example/provider/ui-model".into(),
                    ..Default::default()
                })),
            }],
        }),
    }
}

fn run(decoded: &mut DecodedAppend) -> &mut AgentRunRequest {
    match &mut decoded.message {
        ClientMessage::RunRequest(request) => request,
        ClientMessage::Other => panic!("expected RunRequest"),
    }
}

fn run_requested_model(decoded: &mut DecodedAppend) -> &RequestedModel {
    run(decoded).requested_model.as_ref().expect("requested model")
}

fn set(effort: &str) -> EffortAction {
    EffortAction::SetTo(effort.into())
}

fn child_of(parent: &str) -> HeaderMap {
    let mut headers = HeaderMap::new();
    headers.insert("x-parent-request-id", HeaderValue::from_str(parent).unwrap());
    headers.insert("x-parent-agent-tool-call-id", HeaderValue::from_static("tool"));
    headers
}

#[test]
fn handler_preserves_primary_wire_including_empty_child_type_and_unknown_fields() {
    let mut fixture = fixture("fallback: {model: plugin:example/provider/local, effort: high}");
    for (id, kind) in [("primary-absent", None), ("primary-empty", Some(""))] {
        let mut decoded = request(id, kind, "official-A");
        let mut headers = HeaderMap::new();
        headers.insert(header::CONTENT_LENGTH, HeaderValue::from_static("12"));
        let (local, _, body) = fixture.append(&mut decoded, &mut headers).unwrap();
        assert!(!local);
        assert_eq!(body, ForwardedBody::Original);
        assert_eq!(headers[header::CONTENT_LENGTH], "12");
        assert_eq!(decoded, request(id, kind, "official-A"));
    }
}

#[test]
fn disabled_child_type_preserves_original_request_despite_local_yaml_target() {
    let mut fixture = fixture("fallback: {model: plugin:example/provider/local, effort: high}");
    let mut wire = request("disabled-child", Some("explore"), "official-A");
    run(&mut wire).subagent_model_overrides[0].selection = Some(Selection::Disabled(true));
    let (local, _, body) = fixture.append(&mut wire, &mut HeaderMap::new()).unwrap();
    assert!(!local);
    assert_eq!(body, ForwardedBody::Original);
    assert_eq!(fixture.registry.run_model("disabled-child").as_deref(), Some("official-A"));

    // Disabling one child type does not suppress policy selection for another type.
    let mut other = wire;
    other.request_id = "enabled-child".into();
    run(&mut other).subagent_type_name = Some("shell".into());
    let prepared =
        select_run_model(&fixture.registry, &other, &HeaderMap::new()).unwrap().unwrap();
    assert_ne!(prepared.model, prepared.original);
    fixture.admit_selected(&mut other, &HeaderMap::new());
    assert_eq!(other.model_id(), Some("plugin:example/provider/local"));
}

#[test]
fn official_target_rewrites_the_message_and_content_length() {
    let mut fixture = fixture(
        "mapping:\n  source: {model: official-target, effort: high}\n  official-target: {model: wrong-recursive-target, effort: high}",
    );
    let mut decoded = request("raw", Some("explore"), "source");
    let mut headers = HeaderMap::new();
    headers.append(header::CONTENT_LENGTH, HeaderValue::from_static("1"));
    headers.append("x-other", HeaderValue::from_static("kept"));
    let prepared = select_run_model(&fixture.registry, &decoded, &headers).unwrap().unwrap();
    assert_ne!(prepared.model, prepared.original);
    let (_, admitted, body) = fixture.append(&mut decoded, &mut headers).unwrap();
    assert!(admitted.unwrap().rewrites_wire(&prepared.original));
    assert_eq!(model_is_local(decoded.model_id().unwrap(), false), Ok(false));
    let ForwardedBody::Rewritten(bytes) = body else { panic!("expected a new body") };
    assert_eq!(headers[header::CONTENT_LENGTH], bytes.len().to_string());
    assert_eq!(headers["x-other"], "kept");
    assert_eq!(decoded.seqno, 7);
    assert_eq!(decoded.model_id(), Some("official-target"));
    let run = run(&mut decoded);
    assert!(run.model_details.is_none());
    let model = run.requested_model.as_ref().unwrap();
    assert!(!model.max_mode);
    assert_eq!(model.parameters, effort_and_fast("high", false));
    assert_eq!(run.subagent_model_overrides.len(), 1);
}

#[test]
fn primary_runs_and_unmatched_children_keep_original_bytes_and_ui_explicit_does_not_hijack() {
    for (policy, kind) in [
        ("fallback: {model: changed, effort: high}", None),
        ("{}", Some("explore")),
        ("mapping: {source: {model: source, effort: high}}", Some("explore")),
    ] {
        let fixture = fixture(policy);
        let decoded = request("unchanged", kind, "source");
        let mut headers = HeaderMap::new();
        let prepared = select_run_model(&fixture.registry, &decoded, &headers).unwrap().unwrap();
        assert_eq!(prepared.model, prepared.original);
        assert_eq!(forwarded_body(None, &mut headers), ForwardedBody::Original);
        assert!(headers.is_empty());
        assert_eq!(model_is_local(decoded.model_id().unwrap(), false), Ok(false));
    }
}

#[test]
fn policy_applies_before_local_gate_in_both_directions() {
    for (source, target, local) in [
        ("official", "plugin:example/provider/local", true),
        ("plugin:example/provider/local", "official", false),
    ] {
        let mut fixture = fixture(&format!("fallback: {{model: {target}, effort: high}}"));
        let mut decoded = request("child", Some("explore"), source);
        let admitted = fixture.admit_selected(&mut decoded, &HeaderMap::new());
        assert_eq!(decoded.model_id(), Some(target));
        assert_eq!(admitted.local, local);
        assert_eq!(model_is_local(target, false), Ok(local));
    }
}

#[test]
fn same_lifecycle_is_pinned_across_policy_reload_but_new_request_uses_new_policy() {
    let mut fixture = fixture("fallback: {model: original-target, effort: high}");
    let mut first = request("existing", Some("explore"), "source");
    let admitted = fixture.admit_selected(&mut first, &HeaderMap::new());
    assert_eq!(admitted.model, "original-target");
    fixture.reload("fallback: {model: replacement-target, effort: high}").unwrap();
    assert_eq!(fixture.registry.subagent_models().snapshot().version, 2);
    let mut retry = request("existing", Some("explore"), "source");
    let prepared =
        select_run_model(&fixture.registry, &retry, &HeaderMap::new()).unwrap().unwrap();
    assert_eq!(prepared.model, "replacement-target");
    let admitted = fixture.admit_selected(&mut retry, &HeaderMap::new());
    assert_eq!(admitted.model, "original-target");
    assert!(selection_differs(&prepared, &admitted));
    assert_eq!(retry.model_id(), Some("original-target"));
    let mut next = request("new", Some("explore"), "source");
    let admitted = fixture.admit_selected(&mut next, &HeaderMap::new());
    assert_eq!(admitted.model, "replacement-target");
    assert_eq!(next.model_id(), Some("replacement-target"));
    let Some(TransportRoute::Upstream(generation)) = fixture.registry.wait_route("existing") else {
        panic!()
    };
    fixture.registry.finish_upstream("existing", generation);
    assert!(fixture.registry.run_model("existing").is_none());
    let mut restarted = request("existing", Some("explore"), "source");
    let admitted = fixture.admit_selected(&mut restarted, &HeaderMap::new());
    assert_eq!(admitted.model, "replacement-target");
    assert_eq!(restarted.model_id(), Some("replacement-target"));
}

#[test]
fn configured_hash_target_is_local_and_non_run_messages_are_not_rewritten() {
    let hash = "00112233445566aa";
    let mut fixture =
        fixture_with(&format!("fallback: {{model: {hash}, effort: high}}"), &["00112233445566aa"]);
    let mut decoded = request("hash-child", Some("explore"), "official");
    let admitted = fixture.admit_selected(&mut decoded, &HeaderMap::new());
    assert_eq!(decoded.model_id(), Some(hash));
    assert!(admitted.local);
    assert_eq!(model_is_local(hash, true), Ok(true));
    let mut continuation = DecodedAppend {
        request_id: "hash-child".into(),
        seqno: 8,
        message: ClientMessage::Other,
    };
    assert!(select_run_model(&fixture.registry, &continuation, &HeaderMap::new())
        .unwrap()
        .is_none());
    let (local, admitted, body) =
        fixture.append(&mut continuation, &mut HeaderMap::new()).unwrap();
    assert!(local && admitted.is_none());
    assert_eq!(body, ForwardedBody::Original);
    assert_eq!(continuation.message, ClientMessage::Other);

    // The policy still names the hash after its model was deleted: the run fails here, and the
    // hash never goes upstream.
    fixture.store.clear();
    let mut wire = request("deleted-hash-child", Some("explore"), "official");
    let error = fixture.append(&mut wire, &mut HeaderMap::new()).unwrap_err();
    assert!(error.message().contains("unknown local model hash"));
    assert_eq!(fixture.registry.wait_route("deleted-hash-child"), None);
}

#[test]
fn invalid_local_id_is_rejected_before_any_upstream_request() {
    let mut fixture = fixture("{}");
    for model in ["0123456789abcdef", "plugin:malformed"] {
        let mut wire = request(model, Some("explore"), model);
        let error = fixture.append(&mut wire, &mut HeaderMap::new()).unwrap_err();
        assert!(matches!(error, Error::Config(_)));
        assert!(!fixture.registry.upstream(model));
    }
}

#[test]
fn inherit_uses_parent_identity_without_applying_mapping_again() {
    let mut fixture = fixture("mapping:\n  parent-model: {model: incorrect, effort: high}");
    let mut parent = request("parent", None, "parent-model");
    let prepared =
        select_run_model(&fixture.registry, &parent, &HeaderMap::new()).unwrap().unwrap();
    assert_eq!(prepared.model, prepared.original);
    assert_eq!(prepared.role, ModelRole::Primary);
    let admitted = fixture.admit_selected(&mut parent, &HeaderMap::new());
    assert!(!admitted.local);
    assert_eq!(admitted.model, "parent-model");
    let mut child = request("child", Some("explore"), "inherit");
    let admitted = fixture.admit_selected(&mut child, &child_of("parent"));
    assert_eq!(admitted.model, "parent-model");
    assert_eq!(child.model_id(), Some("parent-model"));
}

#[test]
fn failed_startup_does_not_pin_so_repaired_yaml_same_id_can_retry() {
    let mut fixture =
        fixture_with("fallback: {model: 00112233445566aa, effort: high}", &["00112233445566aa"]);
    fixture.store.clear();
    let mut wire = request("retry-child", Some("explore"), "official");
    let error = fixture.append(&mut wire, &mut HeaderMap::new()).unwrap_err();
    assert!(error.message().contains("unknown local model hash"));
    assert!(fixture.registry.run_model("retry-child").is_none());

    fixture.reload("fallback: {model: official-repaired, effort: high}").unwrap();
    let (local, _, body) = fixture.append(&mut wire, &mut HeaderMap::new()).unwrap();
    assert!(!local);
    assert!(matches!(body, ForwardedBody::Rewritten(_)));
    assert_eq!(wire.model_id(), Some("official-repaired"));
    assert_eq!(
        fixture.registry.run_model("retry-child").as_deref(),
        Some("official-repaired")
    );
}

#[test]
fn replacing_closing_lifecycle_uses_updated_policy_and_survives_stale_cleanup() {
    let mut fixture = fixture("fallback: {model: plugin:example/provider/first, effort: high}");
    let mut first = request("child", Some("explore"), "source");
    let admitted = fixture.admit_selected(&mut first, &HeaderMap::new());
    assert!(admitted.local);
    let closing = admitted.handle.unwrap();
    assert_eq!(
        fixture.registry.run_model("child").as_deref(),
        Some("plugin:example/provider/first")
    );
    fixture.registry.begin_close(&closing);
    assert!(fixture.registry.active_child_model("child").is_none());
    fixture.reload("fallback: {model: plugin:example/provider/second, effort: high}").unwrap();

    let mut next = request("child", Some("explore"), "source");
    let admitted = fixture.admit_selected(&mut next, &HeaderMap::new());
    assert_eq!(admitted.model, "plugin:example/provider/second");
    assert_eq!(
        fixture.registry.run_model("child").as_deref(),
        Some("plugin:example/provider/second")
    );
    fixture.registry.transport_closed(&closing);
    assert_eq!(
        fixture.registry.run_model("child").as_deref(),
        Some("plugin:example/provider/second")
    );
    assert_eq!(
        fixture.registry.active_child_model("child").as_deref(),
        Some("plugin:example/provider/second")
    );
}

#[test]
fn primary_model_updates_on_same_transport_so_child_inherit_sees_latest() {
    let mut fixture = fixture(
        "mapping:\n  model-a: {model: wrong-a, effort: high}\n  model-b: {model: wrong-b, effort: high}",
    );
    let admitted =
        fixture.admit_selected(&mut request("parent", None, "model-a"), &HeaderMap::new());
    assert!(!admitted.local);
    assert_eq!(fixture.registry.run_model("parent").as_deref(), Some("model-a"));

    let admitted =
        fixture.admit_selected(&mut request("parent", None, "model-b"), &HeaderMap::new());
    assert_eq!(admitted.model, "model-b");
    assert_eq!(fixture.registry.run_model("parent").as_deref(), Some("model-b"));

    let mut child = request("child", Some("explore"), "inherit");
    let admitted = fixture.admit_selected(&mut child, &child_of("parent"));
    assert_eq!(admitted.model, "model-b");
    assert_eq!(child.model_id(), Some("model-b"));
}

#[test]
fn later_admissions_forward_the_owned_model() {
    let mut fixture = fixture(
        "mapping:\n  source-a: {model: owned-shared, effort: high}\n  source-b: {model: other-target, effort: high}",
    );
    let mut left = request("race-child", Some("explore"), "source-a");
    let mut right = request("race-child", Some("explore"), "source-b");
    fixture.admit_selected(&mut left, &HeaderMap::new());
    fixture.admit_selected(&mut right, &HeaderMap::new());
    assert_eq!(fixture.registry.run_model("race-child").as_deref(), Some("owned-shared"));
    assert_eq!(left.model_id(), Some("owned-shared"));
    assert_eq!(right.model_id(), Some("owned-shared"));
}

#[test]
fn official_a_to_b_with_high_effort_is_forwarded_to_upstream() {
    let mut fixture = fixture("mapping: {official-A: {model: official-B, effort: high}}");
    let mut decoded = request("a-to-b-high", Some("explore"), "official-A");
    let (local, _, body) = fixture.append(&mut decoded, &mut HeaderMap::new()).unwrap();
    assert!(!local);
    assert!(matches!(body, ForwardedBody::Rewritten(_)));
    assert_eq!(decoded.model_id(), Some("official-B"));
    let model = run_requested_model(&mut decoded);
    assert_eq!(model.parameters, effort_and_fast("high", false));
    assert!(!model.max_mode);
}

#[test]
fn official_same_model_effort_only_rewrites_forwarded_payload() {
    let mut fixture = fixture("mapping: {official-A: {model: official-A, effort: high}}");
    let mut decoded = request_with_params(
        "a-to-a-high",
        Some("explore"),
        "official-A",
        vec![parameter("reasoning", "medium"), parameter("fast", "true")],
    );
    let (_, _, body) = fixture.append(&mut decoded, &mut HeaderMap::new()).unwrap();
    assert!(matches!(body, ForwardedBody::Rewritten(_)));
    assert_eq!(decoded.model_id(), Some("official-A"));
    assert_eq!(
        run_requested_model(&mut decoded)
            .parameters
            .iter()
            .map(|parameter| (parameter.id.as_str(), parameter.value.as_str()))
            .collect::<Vec<_>>(),
        vec![("effort", "high"), ("fast", "false")]
    );
}

#[test]
fn official_same_model_fast_only_rewrites_forwarded_payload() {
    let mut fixture =
        fixture("mapping: {official-A: {model: official-A, effort: high, fast: true}}");
    let mut decoded = request_with_params(
        "a-to-a-fast",
        Some("explore"),
        "official-A",
        vec![parameter("effort", "low"), parameter("thinking", "true")],
    );
    let (_, _, body) = fixture.append(&mut decoded, &mut HeaderMap::new()).unwrap();
    assert!(matches!(body, ForwardedBody::Rewritten(_)));
    assert_eq!(
        run_requested_model(&mut decoded)
            .parameters
            .iter()
            .map(|parameter| (parameter.id.as_str(), parameter.value.as_str()))
            .collect::<Vec<_>>(),
        vec![("thinking", "true"), ("effort", "high"), ("fast", "true")]
    );
}

#[test]
fn hash_and_plugin_targets_carry_final_effort() {
    let mut fixture = fixture_with(
        "types:\n  explore: {model: 00112233445566aa, effort: high}\n  shell: {model: plugin:example/provider/plugin-model, effort: high}",
        &["00112233445566aa"],
    );
    let mut hash_child = request("hash-effort", Some("explore"), "official");
    let admitted = fixture.admit_selected(&mut hash_child, &HeaderMap::new());
    assert!(admitted.local);
    assert_eq!(admitted.effort, set("high"));
    assert_eq!(admitted.fast, Some(false));
    assert_eq!(run_requested_model(&mut hash_child).parameters, effort_and_fast("high", false));

    let mut plugin_child = request("plugin-effort", Some("shell"), "official");
    let admitted = fixture.admit_selected(&mut plugin_child, &HeaderMap::new());
    assert!(admitted.local);
    assert_eq!(admitted.model, "plugin:example/provider/plugin-model");
    assert_eq!(admitted.effort, set("high"));
    assert_eq!(admitted.fast, Some(false));
    assert_eq!(run_requested_model(&mut plugin_child).parameters, effort_and_fast("high", false));
}

#[test]
fn composer_target_clears_effort_and_unmatched_passthrough_keeps_bytes() {
    let mut composed = fixture(
        "mapping:\n  composer-source: {model: composer-2.5}\n  source: {model: official-B, effort: high}",
    );
    let mut composer = request_with_params(
        "composer-clear",
        Some("explore"),
        "composer-source",
        vec![
            parameter("effort", "high"),
            parameter("reasoning", "medium"),
            parameter("fast", "true"),
        ],
    );
    let admitted = composed.admit_selected(&mut composer, &HeaderMap::new());
    assert_eq!(admitted.model, "composer-2.5");
    assert_eq!(admitted.effort, EffortAction::Clear);
    assert_eq!(admitted.fast, Some(false));
    assert!(admitted.rewrites_wire("composer-source"));
    let model = run_requested_model(&mut composer);
    assert!(!model.max_mode);
    assert_eq!(model.parameters, fast_only(false));

    let mut plain = fixture("{}");
    let mut wire = request("unmatched-bytes", Some("explore"), "source");
    let (_, _, body) = plain.append(&mut wire, &mut HeaderMap::new()).unwrap();
    assert_eq!(body, ForwardedBody::Original);

    let mut changed = request("changed-model", Some("explore"), "source");
    let mut mapped = fixture("mapping: {source: {model: official-B, effort: high}}");
    let admitted = mapped.admit_selected(&mut changed, &HeaderMap::new());
    assert_eq!(admitted.model, "official-B");
    assert_eq!(admitted.effort, set("high"));
    assert_eq!(admitted.fast, Some(false));
    let model = run_requested_model(&mut changed);
    assert!(!model.max_mode);
    assert_eq!(model.parameters, effort_and_fast("high", false));
}

#[test]
fn local_byok_and_composer_honor_explicit_fast_true() {
    let mut fixture = fixture_with(
        "types:\n  explore: {model: 00112233445566aa, effort: high, fast: true}\n  shell: {model: composer-2.5, fast: true}",
        &["00112233445566aa"],
    );
    let mut hash_child = request_with_params(
        "hash-fast",
        Some("explore"),
        "official",
        vec![parameter("fast", "false")],
    );
    let admitted = fixture.admit_selected(&mut hash_child, &HeaderMap::new());
    assert!(admitted.local);
    assert_eq!(admitted.fast, Some(true));
    assert_eq!(run_requested_model(&mut hash_child).parameters, effort_and_fast("high", true));

    let mut composer = request_with_params(
        "composer-fast",
        Some("shell"),
        "composer-source",
        vec![parameter("fast", "false")],
    );
    let admitted = fixture.admit_selected(&mut composer, &HeaderMap::new());
    assert!(!admitted.local);
    assert_eq!(admitted.model, "composer-2.5");
    assert_eq!(admitted.effort, EffortAction::Clear);
    assert_eq!(admitted.fast, Some(true));
    assert_eq!(run_requested_model(&mut composer).parameters, fast_only(true));
}

#[test]
fn unmatched_child_keeps_request_fast_bytes_unchanged() {
    let mut fixture = fixture("{}");
    let wire = || {
        request_with_params(
            "unmatched-fast",
            Some("explore"),
            "source",
            vec![parameter("effort", "medium"), parameter("fast", "true")],
        )
    };
    let mut decoded = wire();
    let (_, _, body) = fixture.append(&mut decoded, &mut HeaderMap::new()).unwrap();
    assert_eq!(body, ForwardedBody::Original);
    assert_eq!(decoded, wire());
    let admitted = fixture.admit_selected(&mut wire(), &HeaderMap::new());
    assert_eq!(admitted.effort, EffortAction::Unchanged);
    assert_eq!(admitted.fast, None);
    assert!(!admitted.rewrites_wire("source"));
}

#[test]
fn conflict_aliases_are_cleared_for_explicit_effort() {
    let mut fixture = fixture("mapping: {official-A: {model: official-A, effort: high}}");
    let mut decoded = request_with_params(
        "alias-conflict",
        Some("explore"),
        "official-A",
        vec![parameter("effort", "low"), parameter("reasoning", "medium")],
    );
    let admitted = fixture.admit_selected(&mut decoded, &HeaderMap::new());
    assert_eq!(admitted.effort, set("high"));
    assert_eq!(admitted.fast, Some(false));
    assert_eq!(
        run_requested_model(&mut decoded)
            .parameters
            .iter()
            .map(|parameter| (parameter.id.as_str(), parameter.value.as_str()))
            .collect::<Vec<_>>(),
        vec![("effort", "high"), ("fast", "false")]
    );
}

#[test]
fn primary_and_disabled_remain_unaffected_by_effort_policy() {
    let mut fixture = fixture("fallback: {model: plugin:example/provider/local, effort: high}");
    let mut primary = request("primary-effort", None, "official-A");
    let (_, _, body) = fixture.append(&mut primary, &mut HeaderMap::new()).unwrap();
    assert_eq!(body, ForwardedBody::Original);

    let mut wire = request("disabled-effort", Some("explore"), "official-A");
    run(&mut wire).subagent_model_overrides[0].selection = Some(Selection::Disabled(true));
    let (_, _, body) = fixture.append(&mut wire, &mut HeaderMap::new()).unwrap();
    assert_eq!(body, ForwardedBody::Original);
}

#[test]
fn effort_only_hot_reload_keeps_existing_child_and_applies_to_new_child() {
    let mut fixture = fixture("fallback: {model: official-target, effort: high}");
    let mut existing = request("existing-effort", Some("explore"), "source");
    let admitted = fixture.admit_selected(&mut existing, &HeaderMap::new());
    assert_eq!(admitted.effort, set("high"));
    assert_eq!(admitted.fast, Some(false));

    fixture.reload("fallback: {model: official-target, effort: low, fast: true}").unwrap();

    let mut retry = request("existing-effort", Some("explore"), "source");
    let prepared =
        select_run_model(&fixture.registry, &retry, &HeaderMap::new()).unwrap().unwrap();
    assert_eq!(prepared.effort, set("low"));
    assert_eq!(prepared.fast, Some(true));
    let admitted = fixture.admit_selected(&mut retry, &HeaderMap::new());
    assert_eq!(admitted.effort, set("high"));
    assert_eq!(admitted.fast, Some(false));
    assert!(selection_differs(&prepared, &admitted));
    assert_eq!(run_requested_model(&mut retry).parameters, effort_and_fast("high", false));

    let mut next = request("new-effort", Some("explore"), "source");
    let admitted = fixture.admit_selected(&mut next, &HeaderMap::new());
    assert_eq!(admitted.effort, set("low"));
    assert_eq!(admitted.fast, Some(true));
    assert_eq!(run_requested_model(&mut next).parameters, effort_and_fast("low", true));
}

#[test]
fn concurrent_effort_admission_and_closing_lifecycle_pin_effort() {
    for (first, second, pinned) in [
        ("source-a", "source-b", ("high", true)),
        ("source-b", "source-a", ("low", false)),
    ] {
        let mut fixture = fixture(
            "mapping:\n  source-a: {model: shared, effort: high, fast: true}\n  source-b: {model: other, effort: low, fast: false}",
        );
        let mut left = request("race-effort", Some("explore"), first);
        let mut right = request("race-effort", Some("explore"), second);
        let (left_local, _, _) = fixture.append(&mut left, &mut HeaderMap::new()).unwrap();
        let (right_local, _, _) = fixture.append(&mut right, &mut HeaderMap::new()).unwrap();
        assert!(!left_local && !right_local);
        let first_params = run_requested_model(&mut left).parameters.clone();
        let second_params = run_requested_model(&mut right).parameters.clone();
        assert_eq!(first_params, second_params);
        assert_eq!(first_params, effort_and_fast(pinned.0, pinned.1));
    }

    let mut fixture =
        fixture("fallback: {model: plugin:example/provider/first, effort: high, fast: true}");
    let mut first = request("close-effort", Some("explore"), "source");
    let admitted = fixture.admit_selected(&mut first, &HeaderMap::new());
    assert_eq!(admitted.effort, set("high"));
    assert_eq!(admitted.fast, Some(true));
    let closing = admitted.handle.unwrap();
    fixture.registry.begin_close(&closing);
    fixture
        .reload("fallback: {model: plugin:example/provider/second, effort: low, fast: false}")
        .unwrap();
    let mut next = request("close-effort", Some("explore"), "source");
    let admitted = fixture.admit_selected(&mut next, &HeaderMap::new());
    assert_eq!(admitted.model, "plugin:example/provider/second");
    assert_eq!(admitted.effort, set("low"));
    assert_eq!(admitted.fast, Some(false));
    fixture.registry.transport_closed(&closing);
    assert_eq!(
        fixture.registry.run_model("close-effort").as_deref(),
        Some("plugin:example/provider/second")
    );
}

#[test]
fn reloaded_candidate_is_distinguished_from_pinned_selection() {
    let mut fixture = fixture("fallback: {model: official-target, effort: high}");
    fixture
        .admit_selected(&mut request("logged-child", Some("explore"), "source"), &HeaderMap::new());
    fixture.reload("fallback: {model: official-new, effort: low, fast: true}").unwrap();
    let mut decoded = request("logged-child", Some("explore"), "source");
    let candidate =
        select_run_model(&fixture.registry, &decoded, &HeaderMap::new()).unwrap().unwrap();
    let selected = fixture.admit_selected(&mut decoded, &HeaderMap::new());
    assert_eq!(decoded.model_id(), Some("official-target"));
    assert_eq!(run_requested_model(&mut decoded).parameters, effort_and_fast("high", false));
    assert_eq!(candidate.model, "official-new");
    assert_eq!(candidate.effort, set("low"));
    assert_eq!(candidate.fast, Some(true));
    assert_eq!(selected.model, "official-target");
    assert_eq!(selected.effort, set("high"));
    assert_eq!(selected.fast, Some(false));
    assert!(selection_differs(&candidate, &selected));
}

#[test]
fn invalid_effort_config_is_retained_and_does_not_publish() {
    let mut fixture = fixture("fallback: {model: official-target, effort: high}");
    assert!(fixture.reload("fallback: {model: official-target, effort: none}").is_err());
    assert_eq!(fixture.registry.subagent_models().snapshot().version, 1);
    let mut child = request("retain-effort", Some("explore"), "source");
    let admitted = fixture.admit_selected(&mut child, &HeaderMap::new());
    assert_eq!(admitted.effort, set("high"));
}

// Headers, records and routes.

#[test]
fn parents_are_named_by_both_headers_or_none() {
    assert_eq!(parent_headers(&HeaderMap::new()), Ok(None));
    assert_eq!(
        parent_headers(&child_of("run")),
        Ok(Some(TransportParent { request_id: "run".into(), tool_call_id: "tool".into() }))
    );
    let mut half = child_of("run");
    half.remove("x-parent-agent-tool-call-id");
    assert_eq!(
        parent_headers(&half),
        Err(Error::Protocol("Cursor subagent request must include both parent headers".into()))
    );
    let mut unreadable = child_of("run");
    unreadable.insert("x-parent-request-id", HeaderValue::from_bytes(b"caf\xe9").unwrap());
    assert_eq!(
        header_text(&unreadable, "x-parent-request-id"),
        Err(Error::Protocol(format!(
            "invalid x-parent-request-id header: {}",
            unreadable["x-parent-request-id"].to_str().unwrap_err()
        )))
    );
    let mut twice = child_of("first");
    twice.append("x-parent-request-id", HeaderValue::from_static("second"));
    assert_eq!(header_text(&twice, "x-parent-request-id"), Ok(Some("first".into())));
    let mut tab = HeaderMap::new();
    tab.insert("x-a", HeaderValue::from_bytes(b"a\tb ~").unwrap());
    assert_eq!(header_text(&tab, "x-a"), Ok(Some("a\tb ~".into())));
}

#[test]
fn inheriting_needs_a_parent_that_runs() {
    let fixture = fixture("{}");
    let child = request("child", Some("explore"), "inherit");
    assert_eq!(
        select_run_model(&fixture.registry, &child, &HeaderMap::new()).unwrap_err(),
        Error::Protocol("subagent model inherit requires parent headers".into())
    );
    assert_eq!(
        select_run_model(&fixture.registry, &child, &child_of("parent")).unwrap_err(),
        Error::Protocol("subagent model inherit requires an active parent model".into())
    );
}

#[test]
fn a_target_without_an_effort_is_refused() {
    let policy = decode_policy("fallback: {model: official}").unwrap();
    let models =
        SubagentModels::load("subagent-models.yaml", PolicyFile::Read(Ok(policy))).unwrap();
    let registry = TransportRegistry::with_subagent_models(models);
    let child = request("child", Some("explore"), "source");
    assert_eq!(
        select_run_model(&registry, &child, &HeaderMap::new()).unwrap_err(),
        Error::Config("subagent policy non-Composer target official requires effort".into())
    );
}

#[test]
fn refused_messages_are_recorded() {
    let mut fixture = fixture("{}");
    let mut half = child_of("parent");
    half.remove("x-parent-request-id");
    let selecting = request("child", Some("explore"), "source");
    let refusal = begin_append(&fixture.registry, &selecting, &half).unwrap_err();
    let text = "Cursor subagent request must include both parent headers";
    assert_eq!(refusal.error, Error::Protocol(text.into()));
    assert_eq!(refusal.route.as_deref(), Some("rejected"));
    assert_eq!(
        refusal.outcome,
        Some(TraceOutcome {
            accepted: false,
            route_outcome: "invalid_parent".into(),
            error: Some(text.into()),
        })
    );
    let other =
        DecodedAppend { request_id: "child".into(), seqno: 1, message: ClientMessage::Other };
    assert_eq!(begin_append(&fixture.registry, &other, &half).unwrap_err().route, None);
    let missing = begin_append(&fixture.registry, &other, &HeaderMap::new()).unwrap_err();
    assert_eq!(
        missing.error,
        Error::Protocol("first BidiAppend message must select a model".into())
    );
    assert_eq!(missing.route, None);
    assert_eq!(missing.outcome.unwrap().route_outcome, "missing_transport");
    let inherit = request("child", Some("explore"), "inherit");
    let refusal = begin_append(&fixture.registry, &inherit, &HeaderMap::new()).unwrap_err();
    assert_eq!(refusal.outcome, None);

    fixture.admit_selected(&mut request("child", Some("explore"), "source"), &HeaderMap::new());
    assert_eq!(
        begin_append(&fixture.registry, &other, &HeaderMap::new()),
        Ok(AppendPlan::Resume { local: false, parent: None })
    );
}

#[test]
fn outcomes_are_fields() {
    assert_eq!(
        trace_outcome(upstream_outcome()),
        vec![
            ("accepted".to_owned(), TraceField::Flag(true)),
            ("route_outcome".to_owned(), TraceField::Text("upstream".into())),
        ]
    );
    assert_eq!(
        trace_outcome(local_outcome(Some("closed"))),
        vec![
            ("accepted".to_owned(), TraceField::Flag(false)),
            ("route_outcome".to_owned(), TraceField::Text("command_rejected".into())),
            ("error".to_owned(), TraceField::Text("closed".into())),
        ]
    );
    assert_eq!(local_outcome(None).route_outcome, "local");
    let selecting = request("child", Some("explore"), "source");
    assert_eq!(trace_route(&selecting, true).as_deref(), Some("local_byok"));
    assert_eq!(trace_route(&selecting, false).as_deref(), Some("cursor_official"));
    let other =
        DecodedAppend { request_id: "child".into(), seqno: 1, message: ClientMessage::Other };
    assert_eq!(trace_route(&other, true), None);
    assert_eq!(route_label(true), "local_byok");
}

#[test]
fn every_path_has_one_route() {
    let routes = routes("/statsig");
    assert_eq!(routes.len(), 32);
    let mut paths: Vec<&str> = routes.iter().map(|route| route.path.as_str()).collect();
    paths.sort();
    paths.dedup();
    assert_eq!(paths.len(), 32);
    let find = |path: &str| {
        let route = routes.iter().find(|route| route.path == path).unwrap();
        (route.method, route.endpoint)
    };
    assert_eq!(find("/__byok-api__/healthz"), (RouteMethod::Get, Endpoint::Health));
    assert_eq!(find("/statsig"), (RouteMethod::Post, Endpoint::BootstrapStatsig));
    assert_eq!(
        find("/aiserver.v1.BidiService/BidiAppend"),
        (RouteMethod::Post, Endpoint::BidiAppend)
    );
    assert_eq!(find("/auth/stripe_profile"), (RouteMethod::Get, Endpoint::StripeProfile));
    assert_eq!(
        routes.iter().filter(|route| route.method == RouteMethod::Get).count(),
        3
    );
}

#[test]
fn requests_outside_the_routes_go_to_the_official_service() {
    let serve = |method: RequestMethod, path: &str| dispatch(method, path, "/statsig");
    assert_eq!(serve(RequestMethod::Get, "/__byok-api__/healthz"), Some(Endpoint::Health));
    assert_eq!(serve(RequestMethod::Head, "/__byok-api__/healthz"), Some(Endpoint::Health));
    assert_eq!(serve(RequestMethod::Post, "/__byok-api__/healthz"), None);
    assert_eq!(serve(RequestMethod::Post, "/statsig"), Some(Endpoint::BootstrapStatsig));
    let bidi = "/aiserver.v1.BidiService/BidiAppend";
    assert_eq!(serve(RequestMethod::Post, bidi), Some(Endpoint::BidiAppend));
    assert_eq!(serve(RequestMethod::Get, bidi), None);
    assert_eq!(serve(RequestMethod::Other, bidi), None);
    assert_eq!(serve(RequestMethod::Post, "/aiserver.v1.BidiService/BidiAppend/"), None);
    assert_eq!(serve(RequestMethod::Post, "/unknown"), None);
    for route in routes("/statsig") {
        let method = match route.method {
            RouteMethod::Get => RequestMethod::Get,
            RouteMethod::Post => RequestMethod::Post,
        };
        assert_eq!(serve(method, &route.path), Some(route.endpoint));
    }
}
