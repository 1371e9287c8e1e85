use cursor_routing::error::Error;
use cursor_routing::model::{
    from_requested, local_subagent_hijack_model, override_for, overrides, parse_bool,
    requested_model, subagent_kind, ModelLatency, ModelSpec, SubagentKind, SubagentModelOverride,
};
use cursor_routing::plugin::parse_model_id;
use cursor_routing::rewrite::{rewrite_requested_model, EffortAction, ModelRewrite};
use cursor_routing::wire;
use cursor_routing::wire::{
    AgentRunRequest, ModelDetails, ModelParameterValue, RequestedModel, Selection,
};

fn parameter(id: &str, value: &str) -> ModelParameterValue {
    ModelParameterValue { id: id.into(), value: value.into(), token_count: None }
}

fn asking_for(model_id: &str, parameters: Vec<ModelParameterValue>) -> RequestedModel {
    RequestedModel { model_id: model_id.into(), parameters, ..Default::default() }
}

#[test]
fn ignores_unknown_cursor_model_parameters() {
    let requested = asking_for("test-model", vec![parameter("optimize_for", "quality")]);

    let model = from_requested(&requested, None).expect("unknown parameter should be ignored");

    assert_eq!(model.model_id, "test-model");
    assert_eq!(model.latency, ModelLatency::Standard);
    assert!(!model.reasoning.enabled);
}

fn explore_override(model_id: &str) -> wire::SubagentModelOverride {
    wire::SubagentModelOverride {
        subagent_type: "explore".into(),
        selection: Some(Selection::Model(asking_for(
            model_id,
            vec![parameter("reasoning", "medium")],
        ))),
    }
}

fn inherit_override(subagent_type: &str) -> wire::SubagentModelOverride {
    wire::SubagentModelOverride {
        subagent_type: subagent_type.into(),
        selection: Some(Selection::Inherit(true)),
    }
}

#[test]
fn override_for_matches_named_kind() {
    let overrides = vec![
        (
            SubagentKind::Named("explore".into()),
            SubagentModelOverride::Explicit(ModelSpec::new("luna")),
        ),
        (SubagentKind::GeneralPurpose, SubagentModelOverride::Inherit),
    ];
    assert!(matches!(
        override_for(&overrides, &SubagentKind::Named("explore".into())),
        Some(SubagentModelOverride::Explicit(model)) if model.model_id == "luna"
    ));
    assert!(matches!(
        override_for(&overrides, &SubagentKind::GeneralPurpose),
        Some(SubagentModelOverride::Inherit)
    ));
    assert!(override_for(&overrides, &SubagentKind::Named("shell".into())).is_none());
}

#[test]
fn hijack_requires_subagent_type_and_explicit_local_override() {
    let mut request = AgentRunRequest {
        requested_model: Some(asking_for("composer-2.5", vec![])),
        subagent_model_overrides: vec![explore_override("luna-hash")],
        ..Default::default()
    };
    assert!(local_subagent_hijack_model(&request).unwrap().is_none());

    request.subagent_type_name = Some("explore".into());
    let hijack = local_subagent_hijack_model(&request)
        .unwrap()
        .expect("explore + explicit should hijack");
    assert_eq!(hijack.model_id, "luna-hash");
    assert_eq!(hijack.reasoning.effort.as_deref(), Some("medium"));
}

#[test]
fn hijack_accepts_plugin_adapter_model_ids() {
    let plugin_id = "plugin:dev.cursorbyok.examples.codex-auth/codex/gpt-6-luna";
    let request = AgentRunRequest {
        requested_model: Some(asking_for("grok-4.5", vec![])),
        subagent_type_name: Some("explore".into()),
        subagent_model_overrides: vec![explore_override(plugin_id)],
        ..Default::default()
    };
    let hijack = local_subagent_hijack_model(&request)
        .unwrap()
        .expect("explicit plugin override should be a hijack candidate");
    assert_eq!(hijack.model_id, plugin_id);
    assert!(hijack.model_id.starts_with("plugin:"));
}

#[test]
fn hijack_skips_inherit_override() {
    let request = AgentRunRequest {
        requested_model: Some(asking_for("composer-2.5", vec![])),
        subagent_type_name: Some("explore".into()),
        subagent_model_overrides: vec![inherit_override("explore")],
        ..Default::default()
    };
    assert!(local_subagent_hijack_model(&request).unwrap().is_none());
}

#[test]
fn rewrite_requested_model_copies_override_parameters() {
    let mut request = AgentRunRequest {
        requested_model: Some(asking_for("composer-2.5", vec![])),
        model_details: Some(ModelDetails {
            model_id: "composer-2.5".into(),
            display_name: "Composer".into(),
            ..Default::default()
        }),
        subagent_type_name: Some("explore".into()),
        subagent_model_overrides: vec![explore_override("luna-hash")],
    };
    let model = local_subagent_hijack_model(&request).unwrap().unwrap();
    rewrite_requested_model(&mut request, &model);
    let requested = request.requested_model.as_ref().unwrap();
    assert_eq!(requested.model_id, "luna-hash");
    assert_eq!(
        requested
            .parameters
            .iter()
            .find(|parameter| parameter.id == "reasoning")
            .map(|parameter| parameter.value.as_str()),
        Some("medium")
    );
    assert_eq!(request.model_details.as_ref().unwrap().model_id, "luna-hash");
}

#[test]
fn rewriting_without_a_matching_override_starts_afresh() {
    let mut request = AgentRunRequest {
        requested_model: Some(asking_for("old", vec![parameter("fast", "true")])),
        model_details: Some(ModelDetails {
            model_id: "old".into(),
            display_name: "Old".into(),
            ..Default::default()
        }),
        subagent_type_name: Some("shell".into()),
        subagent_model_overrides: vec![explore_override("new")],
    };
    let mut model = ModelSpec::new("new");
    model.display_name = Some("New".into());
    rewrite_requested_model(&mut request, &model);
    assert_eq!(request.requested_model.unwrap(), asking_for("new", vec![]));
    let details = request.model_details.unwrap();
    assert_eq!((details.model_id.as_str(), details.display_name.as_str()), ("new", "New"));
}

#[test]
fn parameters_are_read() {
    let requested = RequestedModel {
        parameters: vec![
            parameter("reasoning", " high\n"),
            parameter("fast", "true"),
            parameter("fast", "false"),
            ModelParameterValue {
                id: "context".into(),
                value: "200k".into(),
                token_count: Some(200_000),
            },
        ],
        ..asking_for("m", vec![])
    };
    let details = ModelDetails { display_name: "M".into(), ..Default::default() };
    let model = from_requested(&requested, Some(&details)).unwrap();
    assert_eq!(model.display_name.as_deref(), Some("M"));
    assert_eq!(model.reasoning.effort.as_deref(), Some("high"));
    assert!(model.reasoning.enabled);
    assert_eq!(model.latency, ModelLatency::Fast);
    assert_eq!(model.context_window_tokens, Some(200_000));

    let cleared = from_requested(
        &asking_for("m", vec![parameter("effort", "high"), parameter("reasoning", "none")]),
        None,
    )
    .unwrap();
    assert_eq!(cleared.reasoning.effort, None);
    assert!(cleared.reasoning.enabled);
}

#[test]
fn unreadable_parameters_are_refused() {
    assert_eq!(
        from_requested(&asking_for("m", vec![parameter("thinking", "yes")]), None).unwrap_err(),
        Error::Protocol("invalid Cursor boolean model parameter thinking=yes".into())
    );
    assert_eq!(
        from_requested(&asking_for("m", vec![parameter("context", "many")]), None).unwrap_err(),
        Error::Protocol("invalid Cursor context token count: many".into())
    );
    assert!(parse_bool(&parameter("fast", "true")).unwrap());
    assert!(!parse_bool(&parameter("fast", "false")).unwrap());
}

#[test]
fn a_run_must_select_a_model() {
    assert_eq!(
        requested_model(&AgentRunRequest::default()).unwrap_err(),
        Error::Protocol("Cursor Run does not select a model".into())
    );
    let request = AgentRunRequest {
        model_details: Some(ModelDetails {
            model_id: "detailed".into(),
            display_name: "Detailed".into(),
            thinking_details: true,
            ..Default::default()
        }),
        ..Default::default()
    };
    let model = requested_model(&request).unwrap();
    assert_eq!(model.model_id, "detailed");
    assert_eq!(model.display_name.as_deref(), Some("Detailed"));
    assert!(model.reasoning.enabled);
}

#[test]
fn overrides_without_an_active_selection_are_refused() {
    for selection in [None, Some(Selection::Inherit(false)), Some(Selection::Disabled(false))] {
        let request = AgentRunRequest {
            subagent_model_overrides: vec![wire::SubagentModelOverride {
                subagent_type: "shell".into(),
                selection,
            }],
            ..Default::default()
        };
        assert_eq!(
            overrides(&request).unwrap_err(),
            Error::Protocol("Cursor subagent model override shell has no active selection".into())
        );
    }
    let request = AgentRunRequest {
        subagent_model_overrides: vec![
            wire::SubagentModelOverride {
                subagent_type: "generalPurpose".into(),
                selection: Some(Selection::Model(asking_for("default", vec![]))),
            },
            wire::SubagentModelOverride {
                subagent_type: "shell".into(),
                selection: Some(Selection::Disabled(true)),
            },
        ],
        ..Default::default()
    };
    assert_eq!(
        overrides(&request).unwrap(),
        vec![
            (SubagentKind::GeneralPurpose, SubagentModelOverride::Inherit),
            (SubagentKind::Named("shell".into()), SubagentModelOverride::Disabled),
        ]
    );
    assert_eq!(subagent_kind("explore"), SubagentKind::Named("explore".into()));
}

#[test]
fn rewriting_twice_is_rewriting_once() {
    let rewrite = ModelRewrite {
        model_id: "m".into(),
        effort: EffortAction::SetTo("high".into()),
        fast: Some(true),
    };
    let mut request = AgentRunRequest {
        requested_model: Some(asking_for(
            "m",
            vec![
                parameter("effort", "low"),
                parameter("thinking", "true"),
                parameter("reasoning", "low"),
                parameter("fast", "false"),
            ],
        )),
        ..Default::default()
    };
    rewrite.apply(&mut request);
    let expected =
        vec![parameter("thinking", "true"), parameter("effort", "high"), parameter("fast", "true")];
    assert_eq!(request.requested_model.as_ref().unwrap().parameters, expected);
    rewrite.apply(&mut request);
    assert_eq!(request.requested_model.as_ref().unwrap().parameters, expected);
    let read = requested_model(&request).unwrap();
    assert_eq!(read.reasoning.effort.as_deref(), Some("high"));
    assert_eq!(read.latency, ModelLatency::Fast);
}

#[test]
fn undecided_rewriting_changes_nothing() {
    let rewrite =
        ModelRewrite { model_id: "m".into(), effort: EffortAction::Unchanged, fast: None };
    let parameters = vec![parameter("effort", "low"), parameter("fast", "true")];
    let mut request = AgentRunRequest {
        requested_model: Some(RequestedModel {
            max_mode: true,
            other: vec![1, 2, 3],
            ..asking_for("m", parameters.clone())
        }),
        ..Default::default()
    };
    rewrite.apply(&mut request);
    let requested = request.requested_model.unwrap();
    assert!(requested.max_mode);
    assert_eq!(requested.parameters, parameters);
    assert_eq!(requested.other, vec![1, 2, 3]);
}

#[test]
fn plugin_models_have_three_parts() {
    let id = parse_model_id("plugin:example/provider/upstream/model").unwrap();
    assert_eq!(id.plugin_id, "example");
    assert_eq!(id.provider_id, "provider");
    assert_eq!(id.model_id, "upstream/model");
    for invalid in ["plugin:bad", "plugin:malformed", "plugin:", "plugin:a//b", "plugin:/a/b", "a/b/c"]
    {
        assert!(parse_model_id(invalid).is_none(), "{invalid}");
    }
}
