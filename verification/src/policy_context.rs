//! The text by which a parent agent learns of the subagent model policy.
use vstd::prelude::*;

use crate::policy::{ModelTarget, Policy, PolicySnapshot};
use crate::text::debug_quoted;
use crate::text_map::TextMap;

verus! {

/// What the text says before it lists anything.
pub open spec fn preamble() -> Seq<char> {
    "Subagent model policy (supersedes earlier model lists):\nUse only the referenced model IDs below when selecting Task.model. The latest server policy at child startup is authoritative, even if this context predates a reload.\nSelection is single-pass: exact type override > exact requested-model mapping > fallback > original requested model. Selected targets are never mapped again. A hit uses the whole target object; effort is not merged from lower-priority rules.\nYAML targets must not use model \"inherit\". Task.model \"inherit\" still selects the parent model identity, then this policy applies.\nNon-Composer YAML targets require effort; Composer targets (`composer-*`) forbid effort.\nReferenced model IDs (including mapping keys; not an exhaustive official-model catalog):\n"@
}

/// The line of one quoted model.
pub open spec fn model_line(model: Seq<char>) -> Seq<char> {
    "- "@ + model + "\n"@
}

/// The lines of quoted models, one after the other.
pub open spec fn model_lines(models: Seq<Seq<char>>) -> Seq<char>
    decreases models.len(),
{
    if models.len() == 0 {
        seq![]
    } else {
        model_lines(models.drop_last()) + model_line(models.last())
    }
}

/// The line of one rule: its quoted key and the text of its target.
pub open spec fn rule_line(rule: (Seq<char>, Seq<char>)) -> Seq<char> {
    "- "@ + rule.0 + " -> "@ + rule.1 + "\n"@
}

/// The lines of rules, one after the other.
pub open spec fn rule_lines(rules: Seq<(Seq<char>, Seq<char>)>) -> Seq<char>
    decreases rules.len(),
{
    if rules.len() == 0 {
        seq![]
    } else {
        rule_lines(rules.drop_last()) + rule_line(rules.last())
    }
}

/// The line of the fallback.
pub open spec fn fallback_line(fallback: Option<Seq<char>>) -> Seq<char> {
    match fallback {
        Some(target) => "Fallback: "@ + target + "\n"@,
        None => "Fallback: none; preserve the original requested model.\n"@,
    }
}

/// The whole text, from models and keys that are quoted and targets that are written out.
pub open spec fn context_text(
    models: Seq<Seq<char>>,
    types: Seq<(Seq<char>, Seq<char>)>,
    mappings: Seq<(Seq<char>, Seq<char>)>,
    fallback: Option<Seq<char>>,
) -> Seq<char> {
    preamble() + model_lines(models) + "Type overrides:\n"@ + rule_lines(types)
        + "Requested-model mappings:\n"@ + rule_lines(mappings) + fallback_line(fallback)
}

/// The text of a target, from its quoted model and effort.
pub open spec fn target_text(model: Seq<char>, effort: Option<Seq<char>>) -> Seq<char> {
    match effort {
        Some(effort) => "model="@ + model + " effort="@ + effort,
        None => "model="@ + model,
    }
}

/// The values of a list of texts.
pub open spec fn text_views(texts: Seq<String>) -> Seq<Seq<char>> {
    Seq::new(texts.len(), |i: int| texts[i]@)
}

/// The values of a list of pairs of texts.
pub open spec fn pair_views(pairs: Seq<(String, String)>) -> Seq<(Seq<char>, Seq<char>)> {
    Seq::new(pairs.len(), |i: int| (pairs[i].0@, pairs[i].1@))
}

/// Writes a target out, from its quoted model and effort.
pub fn write_target(model: &str, effort: Option<&str>) -> (r: String)
    ensures
        r@ == target_text(
            model@,
            match effort {
                Some(effort) => Some(effort@),
                None => None,
            },
        ),
{
    let mut text: String = "model=".to_owned();
    text.append(model);
    if let Some(effort) = effort {
        text.append(" effort=");
        text.append(effort);
    }
    text
}

/// Adds the line of each rule to a text.
fn append_rules(text: &mut String, rules: &Vec<(String, String)>)
    ensures
        final(text)@ == old(text)@ + rule_lines(pair_views(rules@)),
{
    let ghost before = text@;
    let ghost views = pair_views(rules@);
    let mut i: usize = 0;
    proof {
        assert(text@ =~= before + rule_lines(views.take(0)));
    }
    while i < rules.len()
        invariant
            i <= rules.len(),
            views == pair_views(rules@),
            text@ == before + rule_lines(views.take(i as int)),
        decreases rules.len() - i,
    {
        text.append("- ");
        text.append(rules[i].0.as_str());
        text.append(" -> ");
        text.append(rules[i].1.as_str());
        text.append("\n");
        proof {
            assert(views.take(i + 1).drop_last() =~= views.take(i as int));
            assert(views.take(i + 1).last() == (rules@[i as int].0@, rules@[i as int].1@));
            assert(text@ =~= before + rule_lines(views.take(i + 1)));
        }
        i += 1;
    }
    proof {
        assert(views.take(i as int) =~= views);
    }
}

/// Writes the whole text, from models and keys that are quoted and targets that are written
/// out.
pub fn write_context(
    models: &Vec<String>,
    types: &Vec<(String, String)>,
    mappings: &Vec<(String, String)>,
    fallback: &Option<String>,
) -> (r: String)
    ensures
        r@ == context_text(
            text_views(models@),
            pair_views(types@),
            pair_views(mappings@),
            crate::policy::optional_text(*fallback),
        ),
{
    let mut text: String = "Subagent model policy (supersedes earlier model lists):\nUse only the referenced model IDs below when selecting Task.model. The latest server policy at child startup is authoritative, even if this context predates a reload.\nSelection is single-pass: exact type override > exact requested-model mapping > fallback > original requested model. Selected targets are never mapped again. A hit uses the whole target object; effort is not merged from lower-priority rules.\nYAML targets must not use model \"inherit\". Task.model \"inherit\" still selects the parent model identity, then this policy applies.\nNon-Composer YAML targets require effort; Composer targets (`composer-*`) forbid effort.\nReferenced model IDs (including mapping keys; not an exhaustive official-model catalog):\n".to_owned();
    let ghost views = text_views(models@);
    let mut i: usize = 0;
    proof {
        assert(text@ =~= preamble() + model_lines(views.take(0)));
    }
    while i < models.len()
        invariant
            i <= models.len(),
            views == text_views(models@),
            text@ == preamble() + model_lines(views.take(i as int)),
        decreases models.len() - i,
    {
        text.append("- ");
        text.append(models[i].as_str());
        text.append("\n");
        proof {
            assert(views.take(i + 1).drop_last() =~= views.take(i as int));
            assert(views.take(i + 1).last() == models@[i as int]@);
            assert(text@ =~= preamble() + model_lines(views.take(i + 1)));
        }
        i += 1;
    }
    proof {
        assert(views.take(i as int) =~= views);
    }
    text.append("Type overrides:\n");
    append_rules(&mut text, types);
    text.append("Requested-model mappings:\n");
    append_rules(&mut text, mappings);
    match fallback {
        Some(target) => {
            let ghost before = text@;
            text.append("Fallback: ");
            text.append(target.as_str());
            text.append("\n");
            proof {
                assert(text@ =~= before + ("Fallback: "@ + target@ + "\n"@));
            }
        },
        None => {
            text.append("Fallback: none; preserve the original requested model.\n");
        },
    }
    text
}

/// The text of a target.
pub open spec fn described(target: crate::policy::TargetView) -> Seq<char> {
    target_text(
        crate::text::debug_text(target.model),
        match target.effort {
            Some(effort) => Some(crate::text::debug_text(effort)),
            None => None,
        },
    )
}

/// The rules of a map in the order of their keys: each key quoted, each target written out.
pub open spec fn described_rules(map: Map<Seq<char>, crate::policy::TargetView>) -> Seq<
    (Seq<char>, Seq<char>),
> {
    let order = crate::text_map::sorted_texts(map.dom());
    Seq::new(order.len(), |i: int| (crate::text::debug_text(order[i]), described(map[order[i]])))
}

/// The quoted forms of a list of texts.
pub open spec fn quoted(texts: Seq<Seq<char>>) -> Seq<Seq<char>> {
    Seq::new(texts.len(), |i: int| crate::text::debug_text(texts[i]))
}

/// The text by which a parent agent learns of a policy.
pub open spec fn policy_context(policy: crate::policy::PolicyView) -> Seq<char> {
    context_text(
        quoted(policy.referenced_models()),
        described_rules(policy.types),
        described_rules(policy.mapping),
        match policy.fallback {
            Some(target) => Some(described(target)),
            None => None,
        },
    )
}

/// Whether a text holds another one somewhere.
pub open spec fn holds(text: Seq<char>, part: Seq<char>) -> bool {
    exists|i: int|
        0 <= i && i + part.len() <= text.len() && #[trigger] text.subrange(i, i + part.len())
            == part
}

/// Writes a target out.
pub fn format_target(target: &ModelTarget) -> (r: String)
    ensures
        r@ == described(target@),
        crate::policy_reading::is_readable_target(target@),
{
    let model: String = debug_quoted(target.model.as_str());
    match &target.effort {
        Some(effort) => {
            let effort: String = debug_quoted(effort.as_str());
            write_target(model.as_str(), Some(effort.as_str()))
        },
        None => write_target(model.as_str(), None),
    }
}

/// The rules of a map in the order of their keys: each key quoted, each target written out.
fn describe_rules(map: &TextMap<ModelTarget>) -> (r: Vec<(String, String)>)
    ensures
        pair_views(r@) == described_rules(map@),
        crate::policy_reading::are_readable_rules(crate::policy_reading::rules_of(map@)),
{
    let mut rules: Vec<(String, String)> = Vec::new();
    let len: usize = map.len();
    let mut i: usize = 0;
    while i < len
        invariant
            i <= len,
            len == crate::text_map::sorted_texts(map@.dom()).len(),
            pair_views(rules@) =~= described_rules(map@).take(i as int),
            crate::policy_reading::are_readable_rules(
                crate::policy_reading::rules_of(map@).take(i as int),
            ),
        decreases len - i,
    {
        let (key, target) = map.entry(i);
        let ghost held = pair_views(rules@);
        rules.push((debug_quoted(key), format_target(target)));
        proof {
            assert(pair_views(rules@) =~= held.push(described_rules(map@)[i as int]));
            let listed = crate::policy_reading::rules_of(map@);
            assert(listed[i as int] == (key@, target@));
            assert forall|j: int|
                0 <= j < listed.take(i + 1).len() implies crate::policy_reading::is_readable_rule(
                #[trigger] listed.take(i + 1)[j],
            ) by {
                if j < i {
                    assert(listed.take(i + 1)[j] == listed.take(i as int)[j]);
                }
            }
        }
        i += 1;
    }
    proof {
        let listed = crate::policy_reading::rules_of(map@);
        assert(listed.take(len as int) =~= listed);
        assert(described_rules(map@).take(len as int) =~= described_rules(map@));
    }
    rules
}

/// The keys of a map, quoted and in order.
fn quote_keys(map: &TextMap<()>) -> (r: Vec<String>)
    ensures
        text_views(r@) == quoted(crate::text_map::sorted_texts(map@.dom())),
        crate::text_map::sorted_texts(map@.dom()).to_set() == map@.dom(),
        crate::policy_reading::are_readable(crate::text_map::sorted_texts(map@.dom())),
{
    let mut keys: Vec<String> = Vec::new();
    let len: usize = map.len();
    let ghost order = quoted(crate::text_map::sorted_texts(map@.dom()));
    let mut i: usize = 0;
    while i < len
        invariant
            i <= len,
            len == crate::text_map::sorted_texts(map@.dom()).len(),
            order == quoted(crate::text_map::sorted_texts(map@.dom())),
            text_views(keys@) =~= order.take(i as int),
            forall|j: int|
                0 <= j < i ==> crate::policy_reading::is_readable(
                    #[trigger] crate::text_map::sorted_texts(map@.dom())[j],
                ),
        decreases len - i,
    {
        let (key, _) = map.entry(i);
        let ghost held = text_views(keys@);
        keys.push(debug_quoted(key));
        proof {
            assert(text_views(keys@) =~= held.push(order[i as int]));
        }
        i += 1;
    }
    proof {
        assert(order.take(len as int) =~= order);
    }
    keys
}

impl Policy {
    /// The text by which a parent agent learns of the policy. It lists every model that the
    /// policy names, and leaves out no rule, target model, effort or fallback: another policy has
    /// the same text exactly where it has the same rules, apart from the speed of their targets,
    /// which the text does not show.
    pub fn context(&self) -> (r: String)
        ensures
            r@ == policy_context(self@),
            forall|model: Seq<char>| #[trigger]
                self@.references(model) ==> holds(r@, model_line(crate::text::debug_text(model))),
            forall|other: crate::policy::PolicyView|
                other.is_finite() ==> (#[trigger] policy_context(other) == r@
                    <==> other.has_same_rules(self@)),
    {
        let models: TextMap<()> = self.referenced_models();
        let models: Vec<String> = quote_keys(&models);
        let types: Vec<(String, String)> = describe_rules(&self.types);
        let mappings: Vec<(String, String)> = describe_rules(&self.mapping);
        let fallback: Option<String> = match &self.fallback {
            Some(target) => Some(format_target(target)),
            None => None,
        };
        let text: String = write_context(&models, &types, &mappings, &fallback);
        proof {
            let order = self@.referenced_models();
            assert forall|model: Seq<char>| #[trigger] self@.references(model) implies holds(
                text@,
                model_line(crate::text::debug_text(model)),
            ) by {
                let set = Set::new(|model: Seq<char>| self@.references(model));
                assert(set.contains(model));
                assert(order.to_set().contains(model));
                let i = choose|i: int| 0 <= i < order.len() && order[i] == model;
                lemma_context_holds_model(
                    quoted(order),
                    described_rules(self@.types),
                    described_rules(self@.mapping),
                    crate::policy::optional_text(fallback),
                    i,
                );
            }
            crate::text_map::lemma_map_is_finite(self.types);
            crate::text_map::lemma_map_is_finite(self.mapping);
            assert forall|other: crate::policy::PolicyView| other.is_finite() implies (
            #[trigger] policy_context(other) == text@ <==> other.has_same_rules(self@)) by {
                if policy_context(other) == text@ {
                    crate::policy_reading::lemma_context_is_read(self@, other);
                }
                if other.has_same_rules(self@) {
                    crate::policy_reading::law_context_shows_only_the_rules(other, self@);
                }
            }
        }
        text
    }
}

impl PolicySnapshot {
    /// The text by which a parent agent learns of the policy. It has no part of the version.
    pub fn context(&self) -> (r: String)
        ensures
            r@ == policy_context(self.policy@),
            forall|other: crate::policy::PolicyView|
                other.is_finite() ==> (#[trigger] policy_context(other) == r@
                    <==> other.has_same_rules(self.policy@)),
    {
        self.policy.context()
    }
}

proof fn lemma_lines_hold_model(models: Seq<Seq<char>>, i: int)
    requires
        0 <= i < models.len(),
    ensures
        holds(model_lines(models), model_line(models[i])),
    decreases models.len(),
{
    let line = model_line(models[i]);
    let head = model_lines(models.drop_last());
    let whole = model_lines(models);
    if i == models.len() - 1 {
        assert(whole.subrange(head.len() as int, whole.len() as int) =~= line);
    } else {
        lemma_lines_hold_model(models.drop_last(), i);
        let k = choose|k: int|
            0 <= k && k + line.len() <= head.len() && #[trigger] head.subrange(k, k + line.len())
                == line;
        assert(whole.subrange(k, k + line.len()) =~= head.subrange(k, k + line.len()));
    }
}

proof fn lemma_context_holds_model(
    models: Seq<Seq<char>>,
    types: Seq<(Seq<char>, Seq<char>)>,
    mappings: Seq<(Seq<char>, Seq<char>)>,
    fallback: Option<Seq<char>>,
    i: int,
)
    requires
        0 <= i < models.len(),
    ensures
        holds(context_text(models, types, mappings, fallback), model_line(models[i])),
{
    let line = model_line(models[i]);
    let lines = model_lines(models);
    let whole = context_text(models, types, mappings, fallback);
    lemma_lines_hold_model(models, i);
    let k = choose|k: int|
        0 <= k && k + line.len() <= lines.len() && #[trigger] lines.subrange(k, k + line.len())
            == line;
    let at = preamble().len() + k;
    assert(whole.subrange(at, at + line.len()) =~= lines.subrange(k, k + line.len()));
}

/// The text is written in sections: what it says first, the line of each model, the line of each
/// rule for a type, that of each rule for a requested model, and the line of the fallback. Lines
/// follow one another in the order of what they are of.
pub proof fn law_context_is_written_in_sections(
    models: Seq<Seq<char>>,
    model: Seq<char>,
    types: Seq<(Seq<char>, Seq<char>)>,
    mappings: Seq<(Seq<char>, Seq<char>)>,
    rule: (Seq<char>, Seq<char>),
    fallback: Option<Seq<char>>,
)
    ensures
        model_lines(seq![]).len() == 0,
        model_lines(models.push(model)) == model_lines(models) + ("- "@ + model + "\n"@),
        rule_lines(seq![]).len() == 0,
        rule_lines(types.push(rule)) == rule_lines(types) + ("- "@ + rule.0 + " -> "@ + rule.1
            + "\n"@),
        context_text(models, types, mappings, fallback)
            == "Subagent model policy (supersedes earlier model lists):\nUse only the referenced model IDs below when selecting Task.model. The latest server policy at child startup is authoritative, even if this context predates a reload.\nSelection is single-pass: exact type override > exact requested-model mapping > fallback > original requested model. Selected targets are never mapped again. A hit uses the whole target object; effort is not merged from lower-priority rules.\nYAML targets must not use model \"inherit\". Task.model \"inherit\" still selects the parent model identity, then this policy applies.\nNon-Composer YAML targets require effort; Composer targets (`composer-*`) forbid effort.\nReferenced model IDs (including mapping keys; not an exhaustive official-model catalog):\n"@
            + model_lines(models) + "Type overrides:\n"@ + rule_lines(types)
            + "Requested-model mappings:\n"@ + rule_lines(mappings) + (match fallback {
            Some(target) => "Fallback: "@ + target + "\n"@,
            None => "Fallback: none; preserve the original requested model.\n"@,
        }),
{
    assert(models.push(model).drop_last() =~= models);
    assert(types.push(rule).drop_last() =~= types);
}

/// What a policy says is what its text lists: the models that it names, quoted and in
/// lexicographic order, and its rules in the order of their keys, each with its key, the model of
/// its target and, where it has one, the effort.
pub proof fn law_context_lists_what_the_policy_says(
    policy: crate::policy::PolicyView,
    models: Seq<Seq<char>>,
    kinds: Seq<Seq<char>>,
    requested: Seq<Seq<char>>,
)
    requires
        forall|i: int, j: int|
            0 <= i < j < models.len() ==> crate::text::precedes(
                #[trigger] models[i],
                #[trigger] models[j],
            ),
        forall|model: Seq<char>| #[trigger]
            models.contains(model) <==> policy.references(model),
        forall|i: int, j: int|
            0 <= i < j < kinds.len() ==> crate::text::precedes(
                #[trigger] kinds[i],
                #[trigger] kinds[j],
            ),
        forall|kind: Seq<char>| #[trigger]
            kinds.contains(kind) <==> policy.types.contains_key(kind),
        forall|i: int, j: int|
            0 <= i < j < requested.len() ==> crate::text::precedes(
                #[trigger] requested[i],
                #[trigger] requested[j],
            ),
        forall|model: Seq<char>| #[trigger]
            requested.contains(model) <==> policy.mapping.contains_key(model),
    ensures
        policy_context(policy) == context_text(
            models.map_values(|model: Seq<char>| crate::text::debug_text(model)),
            kinds.map_values(
                |kind: Seq<char>|
                    (
                        crate::text::debug_text(kind),
                        match policy.types[kind].effort {
                            Some(effort) => "model="@ + crate::text::debug_text(
                                policy.types[kind].model,
                            ) + " effort="@ + crate::text::debug_text(effort),
                            None => "model="@ + crate::text::debug_text(policy.types[kind].model),
                        },
                    ),
            ),
            requested.map_values(
                |model: Seq<char>|
                    (
                        crate::text::debug_text(model),
                        match policy.mapping[model].effort {
                            Some(effort) => "model="@ + crate::text::debug_text(
                                policy.mapping[model].model,
                            ) + " effort="@ + crate::text::debug_text(effort),
                            None => "model="@ + crate::text::debug_text(
                                policy.mapping[model].model,
                            ),
                        },
                    ),
            ),
            match policy.fallback {
                Some(target) => Some(
                    match target.effort {
                        Some(effort) => "model="@ + crate::text::debug_text(target.model)
                            + " effort="@ + crate::text::debug_text(effort),
                        None => "model="@ + crate::text::debug_text(target.model),
                    },
                ),
                None => None,
            },
        ),
{
    let named = Set::new(|model: Seq<char>| policy.references(model));
    assert(models.to_set() =~= named);
    crate::text_map::lemma_sorted_texts(models);
    assert(kinds.to_set() =~= policy.types.dom()) by {
        assert forall|kind: Seq<char>| kinds.to_set().contains(kind)
            == policy.types.dom().contains(kind) by {
            assert(kinds.contains(kind) <==> policy.types.contains_key(kind));
        }
    }
    crate::text_map::lemma_sorted_texts(kinds);
    assert(requested.to_set() =~= policy.mapping.dom()) by {
        assert forall|model: Seq<char>| requested.to_set().contains(model)
            == policy.mapping.dom().contains(model) by {
            assert(requested.contains(model) <==> policy.mapping.contains_key(model));
        }
    }
    crate::text_map::lemma_sorted_texts(requested);
    assert(quoted(policy.referenced_models()) =~= models.map_values(
        |model: Seq<char>| crate::text::debug_text(model),
    ));
    assert(described_rules(policy.types) =~= kinds.map_values(
        |kind: Seq<char>|
            (
                crate::text::debug_text(kind),
                match policy.types[kind].effort {
                    Some(effort) => "model="@ + crate::text::debug_text(policy.types[kind].model)
                        + " effort="@ + crate::text::debug_text(effort),
                    None => "model="@ + crate::text::debug_text(policy.types[kind].model),
                },
            ),
    ));
    assert(described_rules(policy.mapping) =~= requested.map_values(
        |model: Seq<char>|
            (
                crate::text::debug_text(model),
                match policy.mapping[model].effort {
                    Some(effort) => "model="@ + crate::text::debug_text(policy.mapping[model].model)
                        + " effort="@ + crate::text::debug_text(effort),
                    None => "model="@ + crate::text::debug_text(policy.mapping[model].model),
                },
            ),
    ));
}

} // verus!
