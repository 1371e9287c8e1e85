use cursor_routing::error::Error;
use cursor_routing::policy::{
    is_composer_model, validate_configured_target, validate_effort, validate_identifier,
    ModelTarget, Policy, PolicySnapshot, Resolution, ResolutionReason,
};
use cursor_routing::policy_context::format_target;
use cursor_routing::text_map::TextMap;

fn target(model: &str) -> ModelTarget {
    ModelTarget::model_only(model)
}

fn target_with_effort(model: &str, effort: &str) -> ModelTarget {
    ModelTarget { model: model.into(), effort: Some(effort.into()), fast: false }
}

fn rules<const N: usize>(entries: [(&str, ModelTarget); N]) -> TextMap<ModelTarget> {
    let mut map = TextMap::new();
    for (key, value) in entries {
        map.insert(key.to_owned(), value);
    }
    map
}

#[test]
fn composer_ids_use_composer_prefix() {
    assert!(is_composer_model("composer-2.5"));
    assert!(is_composer_model("composer-2.5-fast"));
    assert!(!is_composer_model("cursor-grok-4.5-high"));
    assert!(!is_composer_model("inherit"));
}

#[test]
fn precedence_is_single_pass_and_does_not_merge_effort() {
    let policy = Policy {
        fallback: Some(target_with_effort("fallback", "low")),
        types: rules([("explore", target_with_effort("type-model", "high"))]),
        mapping: rules([
            ("original", target_with_effort("mapped", "medium")),
            ("mapped", target_with_effort("recursive", "low")),
            ("inherit", target_with_effort("not-parent", "high")),
        ]),
    };
    assert_eq!(
        policy.resolve("explore", "original"),
        Resolution {
            target: target_with_effort("type-model", "high"),
            reason: ResolutionReason::Type
        }
    );
    assert_eq!(
        policy.resolve("other", "original"),
        Resolution {
            target: target_with_effort("mapped", "medium"),
            reason: ResolutionReason::Mapping
        }
    );
    assert_eq!(
        policy.resolve("other", "unknown"),
        Resolution {
            target: target_with_effort("fallback", "low"),
            reason: ResolutionReason::Fallback
        }
    );
    assert_eq!(
        Policy::default().resolve("other", "inherit"),
        Resolution { target: target("inherit"), reason: ResolutionReason::Original }
    );
    // A rule for the type without an effort does not take that of the fallback.
    let no_merge = Policy {
        fallback: Some(target_with_effort("fallback", "low")),
        types: rules([("explore", target("type-only"))]),
        mapping: TextMap::new(),
    };
    assert_eq!(
        no_merge.resolve("explore", "original"),
        Resolution { target: target("type-only"), reason: ResolutionReason::Type }
    );
}

#[test]
fn context_is_sorted_complete_and_version_independent() {
    let policy = Policy {
        fallback: Some(target_with_effort("fallback", "high")),
        types: rules([
            ("z", target("composer-2.5")),
            ("a", target_with_effort("type-target", "medium")),
        ]),
        mapping: rules([("mapping-key", target_with_effort("mapped-target", "low"))]),
    };
    let context = policy.context();
    for id in ["inherit", "fallback", "composer-2.5", "type-target", "mapping-key", "mapped-target"]
    {
        assert!(context.contains(&format!("- {id:?}\n")));
    }
    assert!(context.contains("model=\"type-target\" effort=\"medium\""));
    assert!(context.contains("model=\"composer-2.5\""));
    assert!(context.contains("Fallback: model=\"fallback\" effort=\"high\""));
    assert!(context.contains("YAML targets must not use model \"inherit\""));
    assert!(context.find("- \"a\" ->").unwrap() < context.find("- \"z\" ->").unwrap());
    assert_eq!(context, PolicySnapshot { version: 99, policy }.context());
}

#[test]
fn configured_target_validation_rules() {
    assert!(validate_configured_target(&target_with_effort("official", "high")).is_ok());
    assert!(validate_configured_target(&target("composer-2.5")).is_ok());
    assert!(validate_configured_target(&target("official"))
        .unwrap_err()
        .message()
        .contains("requires effort"));
    assert!(validate_configured_target(&target_with_effort("composer-2.5", "high"))
        .unwrap_err()
        .message()
        .contains("must not set effort"));
    assert!(validate_configured_target(&target_with_effort("inherit", "high"))
        .unwrap_err()
        .message()
        .contains("cannot be \"inherit\""));
    assert!(validate_configured_target(&target("inherit"))
        .unwrap_err()
        .message()
        .contains("cannot be \"inherit\""));
}

#[test]
fn refused_targets_say_why() {
    assert_eq!(
        validate_configured_target(&target("official")).unwrap_err(),
        Error::Config("subagent policy non-Composer target official requires effort".into())
    );
    assert_eq!(
        validate_configured_target(&target_with_effort("composer-2.5", "high")).unwrap_err(),
        Error::Config("subagent policy Composer target composer-2.5 must not set effort".into())
    );
    assert_eq!(
        validate_configured_target(&target("inherit")).unwrap_err(),
        Error::Config(
            "subagent policy target model cannot be \"inherit\"; use Task.model inherit instead"
                .into()
        )
    );
    assert_eq!(
        validate_configured_target(&target_with_effort("official", "none")).unwrap_err(),
        Error::Config("invalid subagent policy effort: \"none\"".into())
    );
}

#[test]
fn identifiers_and_efforts_hold_no_blanks() {
    assert!(validate_identifier("official-A").is_ok());
    for invalid in ["", "a b", "a\tb", "a\u{a0}b", "a\u{7f}", "\u{2003}a", "a\u{85}"] {
        assert_eq!(
            validate_identifier(invalid).unwrap_err(),
            Error::Config(format!("invalid subagent policy identifier: {invalid:?}"))
        );
    }
    assert!(validate_effort("high").is_ok());
    assert!(validate_effort("nonesuch").is_ok());
    for invalid in ["", "none", "NONE", "NoNe", " none", "very high", "high\n"] {
        assert_eq!(
            validate_effort(invalid).unwrap_err(),
            Error::Config(format!("invalid subagent policy effort: {invalid:?}"))
        );
    }
}

#[test]
fn context_of_a_policy_without_rules() {
    let context = Policy::default().context();
    assert!(context.starts_with("Subagent model policy (supersedes earlier model lists):\n"));
    assert!(context.ends_with(
        "- \"inherit\"\nType overrides:\nRequested-model mappings:\nFallback: none; preserve the original requested model.\n"
    ));
}

#[test]
fn targets_are_quoted_with_their_escapes() {
    assert_eq!(format_target(&target("a\"b")), "model=\"a\\\"b\"");
    assert_eq!(
        format_target(&target_with_effort("m", "h\u{e9}\n")),
        "model=\"m\" effort=\"h\u{e9}\\n\""
    );
}

#[test]
fn models_that_rules_name_are_listed_once() {
    let policy = Policy {
        fallback: Some(target_with_effort("b", "high")),
        types: rules([("explore", target_with_effort("b", "low"))]),
        mapping: rules([("a", target_with_effort("b", "low"))]),
    };
    let models = policy.referenced_models();
    assert_eq!(models.len(), 3);
    assert_eq!(models.entry(0).0, "a");
    assert_eq!(models.entry(1).0, "b");
    assert_eq!(models.entry(2).0, "inherit");
    let targets: Vec<(&str, Option<&str>)> = policy
        .configured_targets()
        .into_iter()
        .map(|target| (target.model.as_str(), target.effort.as_deref()))
        .collect();
    assert_eq!(targets, vec![("b", Some("high")), ("b", Some("low")), ("b", Some("low"))]);
}

#[test]
fn maps_keep_their_keys_in_order() {
    let mut map: TextMap<bool> = TextMap::new();
    for key in ["b", "", "ab", "\u{10348}", "\u{fffd}", "a"] {
        map.insert(key.to_owned(), false);
    }
    map.insert("ab".to_owned(), true);
    let keys: Vec<&str> = (0..map.len()).map(|i| map.entry(i).0).collect();
    assert_eq!(keys, vec!["", "a", "ab", "b", "\u{fffd}", "\u{10348}"]);
    assert_eq!(map.get("ab"), Some(&true));
    assert_eq!(map.get("abc"), None);
    map.remove("a");
    map.remove("missing");
    assert_eq!(map.len(), 5);
    assert!(!map.contains_key("a"));
    assert!(map.contains_key(""));
}

/// The quoted form of a text.
fn quoted(text: &str) -> String {
    format_target(&target(text)).strip_prefix("model=").unwrap().to_owned()
}

/// The characters that a quoted form stands for, and what follows its closing quotation mark.
fn read_back(form: &str) -> (String, &str) {
    let mut chars = form.strip_prefix('"').unwrap().char_indices();
    let mut text = String::new();
    while let Some((at, c)) = chars.next() {
        match c {
            '"' => return (text, &form[at + 2..]),
            '\\' => match chars.next().unwrap().1 {
                'n' => text.push('\n'),
                'r' => text.push('\r'),
                't' => text.push('\t'),
                '0' => text.push('\0'),
                'u' => {
                    assert_eq!(chars.next().unwrap().1, '{');
                    let digits: String =
                        chars.by_ref().map(|(_, c)| c).take_while(|c| *c != '}').collect();
                    let code = u32::from_str_radix(&digits, 16).unwrap();
                    text.push(char::from_u32(code).unwrap());
                }
                other => text.push(other),
            },
            other => text.push(other),
        }
    }
    panic!("no closing quotation mark")
}

#[test]
fn quoted_texts_read_back() {
    for c in '\0'..=char::MAX {
        let text = format!("{c}{c}x");
        let form = quoted(&text);
        assert_eq!(read_back(&form), (text, ""));
    }
    for text in ["", "\\", "\"", "\\\"", "a\" effort=\"b", "e\u{301}", "\u{301}e", "'", "\\n", "\n"] {
        let form = format!("{} -> tail", quoted(text));
        assert_eq!(read_back(&form), (text.to_owned(), " -> tail"));
    }
}

#[test]
fn context_tells_policies_apart() {
    let base = || Policy {
        fallback: Some(target_with_effort("f", "high")),
        types: rules([("explore", target_with_effort("t", "high"))]),
        mapping: rules([("a", target_with_effort("m", "high"))]),
    };
    let context = base().context();
    let mut same = base();
    same.fallback.as_mut().unwrap().fast = true;
    assert_eq!(same.context(), context);
    let mut others = vec![base(), base(), base(), base(), base(), base(), base()];
    others[0].fallback = None;
    others[1].fallback = Some(target("f"));
    others[2].types = rules([("shell", target_with_effort("t", "high"))]);
    others[3].types = rules([("explore", target_with_effort("t", "low"))]);
    others[4].mapping = rules([("a", target("m"))]);
    others[5].mapping = rules([("b", target_with_effort("m", "high"))]);
    others[6].mapping = rules([("a", target("m\" effort=\"high"))]);
    for other in others {
        assert_ne!(other.context(), context);
    }
}
