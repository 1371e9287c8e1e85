//! What can be read back from the text that describes a policy.
use vstd::prelude::*;

verus! {

impl crate::policy::TargetView {
    /// Whether two targets are the same, apart from the speed.
    pub open spec fn has_same_model(self, other: Self) -> bool {
        self.model == other.model && self.effort == other.effort
    }
}

/// Whether two maps have the same rules, apart from the speed of their targets.
pub open spec fn same_rules(
    a: Map<Seq<char>, crate::policy::TargetView>,
    b: Map<Seq<char>, crate::policy::TargetView>,
) -> bool {
    a.dom() == b.dom() && forall|key: Seq<char>|
        a.contains_key(key) ==> (#[trigger] a[key]).has_same_model(b[key])
}

impl crate::policy::PolicyView {
    /// Whether two policies have the same rules, apart from the speed of their targets.
    pub open spec fn has_same_rules(self, other: Self) -> bool {
        &&& self.fallback is Some <==> other.fallback is Some
        &&& self.fallback is Some ==> self.fallback->0.has_same_model(other.fallback->0)
        &&& same_rules(self.types, other.types)
        &&& same_rules(self.mapping, other.mapping)
    }
}

/// Whether the quoted form of a text is of that text alone.
pub open spec fn is_readable(text: Seq<char>) -> bool {
    crate::text::tells_apart(text, crate::text::debug_text(text))
}

/// Whether the quoted forms of texts are of those texts alone.
pub open spec fn are_readable(texts: Seq<Seq<char>>) -> bool {
    forall|i: int| 0 <= i < texts.len() ==> is_readable(#[trigger] texts[i])
}

/// Whether what is quoted of a target is of it alone.
pub open spec fn is_readable_target(target: crate::policy::TargetView) -> bool {
    is_readable(target.model) && (target.effort is Some ==> is_readable(target.effort->0))
}

/// Whether what is quoted of a rule is of it alone.
pub open spec fn is_readable_rule(rule: (Seq<char>, crate::policy::TargetView)) -> bool {
    is_readable(rule.0) && is_readable_target(rule.1)
}

/// Whether what is quoted of rules is of them alone.
pub open spec fn are_readable_rules(rules: Seq<(Seq<char>, crate::policy::TargetView)>) -> bool {
    forall|i: int| 0 <= i < rules.len() ==> is_readable_rule(#[trigger] rules[i])
}

/// The rules of a map in the order of their keys.
pub open spec fn rules_of(map: Map<Seq<char>, crate::policy::TargetView>) -> Seq<
    (Seq<char>, crate::policy::TargetView),
> {
    let order = crate::text_map::sorted_texts(map.dom());
    Seq::new(order.len(), |i: int| (order[i], map[order[i]]))
}

/// Rules as the text writes them.
spec fn written(rules: Seq<(Seq<char>, crate::policy::TargetView)>) -> Seq<(Seq<char>, Seq<char>)> {
    Seq::new(
        rules.len(),
        |i: int|
            (crate::text::debug_text(rules[i].0), crate::policy_context::described(rules[i].1)),
    )
}

/// What follows the same beginning is the same.
proof fn lemma_same_beginning(begin: Seq<char>, s: Seq<char>, t: Seq<char>)
    requires
        begin + s == begin + t,
    ensures
        s == t,
{
    assert(s =~= (begin + s).skip(begin.len() as int));
    assert(t =~= (begin + t).skip(begin.len() as int));
}

/// A quoted text is read from the beginning of what follows.
proof fn lemma_quoted_is_read(a: Seq<char>, b: Seq<char>, s: Seq<char>, t: Seq<char>)
    requires
        is_readable(a),
        crate::text::debug_text(a) + s == crate::text::debug_text(b) + t,
    ensures
        a == b,
        s == t,
{
    let x = crate::text::debug_text(a);
    let y = crate::text::debug_text(b);
    let whole = x + s;
    assert(x =~= whole.take(x.len() as int));
    assert(y =~= whole.take(y.len() as int));
    if x.len() <= y.len() {
        assert(y.take(x.len() as int) =~= x);
        assert(crate::text::has_prefix(y, x));
    } else {
        assert(x.take(y.len() as int) =~= y);
        assert(crate::text::has_prefix(x, y));
    }
    lemma_same_beginning(x, s, t);
}

/// The first line of models, and the rest.
proof fn lemma_first_model(models: Seq<Seq<char>>)
    requires
        models.len() > 0,
    ensures
        crate::policy_context::model_lines(models) == crate::policy_context::model_line(models[0])
            + crate::policy_context::model_lines(models.drop_first()),
    decreases models.len(),
{
    let lines = crate::policy_context::model_lines(models);
    let rest = models.drop_first();
    if models.len() == 1 {
        assert(models.drop_last() =~= seq![]);
        assert(rest =~= seq![]);
        assert(crate::policy_context::model_lines(models.drop_last()).len() == 0);
        assert(lines =~= crate::policy_context::model_line(models[0]));
        assert(lines =~= crate::policy_context::model_line(models[0])
            + crate::policy_context::model_lines(rest));
    } else {
        lemma_first_model(models.drop_last());
        assert(models.drop_last().drop_first() =~= rest.drop_last());
        assert(lines =~= crate::policy_context::model_line(models[0])
            + crate::policy_context::model_lines(rest));
    }
}

/// The first line of rules, and the rest.
proof fn lemma_first_rule(rules: Seq<(Seq<char>, Seq<char>)>)
    requires
        rules.len() > 0,
    ensures
        crate::policy_context::rule_lines(rules) == crate::policy_context::rule_line(rules[0])
            + crate::policy_context::rule_lines(rules.drop_first()),
    decreases rules.len(),
{
    let lines = crate::policy_context::rule_lines(rules);
    let rest = rules.drop_first();
    if rules.len() == 1 {
        assert(rules.drop_last() =~= seq![]);
        assert(rest =~= seq![]);
        assert(crate::policy_context::rule_lines(rules.drop_last()).len() == 0);
        assert(lines =~= crate::policy_context::rule_line(rules[0]));
        assert(lines =~= crate::policy_context::rule_line(rules[0])
            + crate::policy_context::rule_lines(rest));
    } else {
        lemma_first_rule(rules.drop_last());
        assert(rules.drop_last().drop_first() =~= rest.drop_last());
        assert(lines =~= crate::policy_context::rule_line(rules[0])
            + crate::policy_context::rule_lines(rest));
    }
}

/// What a list of rules begins with, part by part.
proof fn lemma_rules_begin(rules: Seq<(Seq<char>, Seq<char>)>, s: Seq<char>)
    requires
        rules.len() > 0,
    ensures
        crate::policy_context::rule_lines(rules) + s == "- "@ + (rules[0].0 + (" -> "@ + (
        rules[0].1 + ("\n"@ + (crate::policy_context::rule_lines(rules.drop_first()) + s))))),
{
    lemma_first_rule(rules);
    let rest = crate::policy_context::rule_lines(rules.drop_first());
    assert((crate::policy_context::rule_line(rules[0]) + rest) + s =~= "- "@ + (rules[0].0 + (
    " -> "@ + (rules[0].1 + ("\n"@ + (rest + s))))));
}

/// A rule is read from the beginning of what follows.
proof fn lemma_rule_is_read(
    a: (Seq<char>, crate::policy::TargetView),
    b: (Seq<char>, crate::policy::TargetView),
    s: Seq<char>,
    t: Seq<char>,
)
    requires
        is_readable_rule(a),
        "- "@ + (crate::text::debug_text(a.0) + (" -> "@ + (crate::policy_context::described(a.1)
            + ("\n"@ + s)))) == "- "@ + (crate::text::debug_text(b.0) + (" -> "@ + (
        crate::policy_context::described(b.1) + ("\n"@ + t)))),
    ensures
        a.0 == b.0,
        a.1.has_same_model(b.1),
        s == t,
{
    let after_a = crate::policy_context::described(a.1) + ("\n"@ + s);
    let after_b = crate::policy_context::described(b.1) + ("\n"@ + t);
    lemma_same_beginning(
        "- "@,
        crate::text::debug_text(a.0) + (" -> "@ + after_a),
        crate::text::debug_text(b.0) + (" -> "@ + after_b),
    );
    lemma_quoted_is_read(a.0, b.0, " -> "@ + after_a, " -> "@ + after_b);
    lemma_same_beginning(" -> "@, after_a, after_b);
    reveal_strlit("\n");
    lemma_target_is_read(a.1, b.1, "\n"@ + s, "\n"@ + t);
    lemma_same_beginning("\n"@, s, t);
}

/// Lists of models are read from the beginning of what follows, up to what is no line of a list.
proof fn lemma_models_are_read(a: Seq<Seq<char>>, b: Seq<Seq<char>>, s: Seq<char>, t: Seq<char>)
    requires
        are_readable(a),
        s.len() > 0 && s[0] != '-',
        t.len() > 0 && t[0] != '-',
        crate::policy_context::model_lines(crate::policy_context::quoted(a)) + s
            == crate::policy_context::model_lines(crate::policy_context::quoted(b)) + t,
    ensures
        a == b,
        s == t,
    decreases a.len(),
{
    let x = crate::policy_context::quoted(a);
    let y = crate::policy_context::quoted(b);
    let whole = crate::policy_context::model_lines(x) + s;
    reveal_strlit("- ");
    reveal_strlit("\n");
    if a.len() > 0 {
        lemma_first_model(x);
        assert(whole[0] == '-');
    } else {
        assert(whole =~= s);
    }
    if b.len() > 0 {
        lemma_first_model(y);
        assert(whole[0] == '-');
    } else {
        assert(whole =~= t);
    }
    if a.len() > 0 {
        let more = crate::policy_context::model_lines(x.drop_first()) + s;
        let rest = crate::policy_context::model_lines(y.drop_first()) + t;
        assert(whole =~= "- "@ + (x[0] + ("\n"@ + more)));
        assert(whole =~= "- "@ + (y[0] + ("\n"@ + rest)));
        lemma_same_beginning("- "@, x[0] + ("\n"@ + more), y[0] + ("\n"@ + rest));
        lemma_quoted_is_read(a[0], b[0], "\n"@ + more, "\n"@ + rest);
        lemma_same_beginning("\n"@, more, rest);
        assert(x.drop_first() =~= crate::policy_context::quoted(a.drop_first()));
        assert(y.drop_first() =~= crate::policy_context::quoted(b.drop_first()));
        assert forall|i: int| 0 <= i < a.drop_first().len() implies is_readable(
            #[trigger] a.drop_first()[i],
        ) by {
            assert(is_readable(a[i + 1]));
        }
        lemma_models_are_read(a.drop_first(), b.drop_first(), s, t);
        assert(a =~= seq![a[0]] + a.drop_first());
        assert(b =~= seq![b[0]] + b.drop_first());
    } else {
        assert(a =~= b);
    }
}

/// A target is read from the beginning of what follows, up to the end of its line.
proof fn lemma_target_is_read(
    a: crate::policy::TargetView,
    b: crate::policy::TargetView,
    s: Seq<char>,
    t: Seq<char>,
)
    requires
        is_readable_target(a),
        s.len() > 0 && s[0] == '\n',
        t.len() > 0 && t[0] == '\n',
        crate::policy_context::described(a) + s == crate::policy_context::described(b) + t,
    ensures
        a.has_same_model(b),
        s == t,
{
    let m = crate::text::debug_text(a.model);
    let n = crate::text::debug_text(b.model);
    let after_a = match a.effort {
        Some(effort) => " effort="@ + (crate::text::debug_text(effort) + s),
        None => s,
    };
    let after_b = match b.effort {
        Some(effort) => " effort="@ + (crate::text::debug_text(effort) + t),
        None => t,
    };
    assert(crate::policy_context::described(a) + s =~= "model="@ + (m + after_a));
    assert(crate::policy_context::described(b) + t =~= "model="@ + (n + after_b));
    lemma_same_beginning("model="@, m + after_a, n + after_b);
    lemma_quoted_is_read(a.model, b.model, after_a, after_b);
    reveal_strlit(" effort=");
    if a.effort is Some {
        assert(after_a[0] == ' ');
    }
    if b.effort is Some {
        assert(after_b[0] == ' ');
    }
    if a.effort is Some {
        let e = a.effort->0;
        let f = b.effort->0;
        lemma_same_beginning(
            " effort="@,
            crate::text::debug_text(e) + s,
            crate::text::debug_text(f) + t,
        );
        lemma_quoted_is_read(e, f, s, t);
    }
}

/// Lists of rules are read from the beginning of what follows, up to what is no line of a list.
proof fn lemma_rules_are_read(
    a: Seq<(Seq<char>, crate::policy::TargetView)>,
    b: Seq<(Seq<char>, crate::policy::TargetView)>,
    s: Seq<char>,
    t: Seq<char>,
)
    requires
        are_readable_rules(a),
        s.len() > 0 && s[0] != '-',
        t.len() > 0 && t[0] != '-',
        crate::policy_context::rule_lines(written(a)) + s == crate::policy_context::rule_lines(
            written(b),
        ) + t,
    ensures
        a.len() == b.len(),
        forall|i: int|
            0 <= i < a.len() ==> (#[trigger] a[i]).0 == b[i].0 && a[i].1.has_same_model(b[i].1),
        s == t,
    decreases a.len(),
{
    let x = written(a);
    let y = written(b);
    let whole = crate::policy_context::rule_lines(x) + s;
    reveal_strlit("- ");
    if a.len() > 0 {
        lemma_rules_begin(x, s);
        assert(whole[0] == '-');
    } else {
        assert(whole =~= s);
    }
    if b.len() > 0 {
        lemma_rules_begin(y, t);
        assert(whole[0] == '-');
    } else {
        assert(whole =~= t);
    }
    if a.len() > 0 {
        let more = crate::policy_context::rule_lines(x.drop_first()) + s;
        let rest = crate::policy_context::rule_lines(y.drop_first()) + t;
        assert(is_readable_rule(a[0]));
        lemma_rule_is_read(a[0], b[0], more, rest);
        assert(x.drop_first() =~= written(a.drop_first()));
        assert(y.drop_first() =~= written(b.drop_first()));
        assert forall|i: int| 0 <= i < a.drop_first().len() implies is_readable_rule(
            #[trigger] a.drop_first()[i],
        ) by {
            assert(is_readable_rule(a[i + 1]));
        }
        lemma_rules_are_read(a.drop_first(), b.drop_first(), s, t);
        assert forall|i: int| 0 <= i < a.len() implies (#[trigger] a[i]).0 == b[i].0
            && a[i].1.has_same_model(b[i].1) by {
            if i > 0 {
                assert(a.drop_first()[i - 1] == a[i]);
                assert(b.drop_first()[i - 1] == b[i]);
            }
        }
    }
}

/// Maps whose lists of rules are the same, apart from the speed, have the same rules.
proof fn lemma_listed_rules_are_the_same(
    a: Map<Seq<char>, crate::policy::TargetView>,
    b: Map<Seq<char>, crate::policy::TargetView>,
)
    requires
        a.dom().finite(),
        b.dom().finite(),
        rules_of(a).len() == rules_of(b).len(),
        forall|i: int|
            0 <= i < rules_of(a).len() ==> (#[trigger] rules_of(a)[i]).0 == rules_of(b)[i].0
                && rules_of(a)[i].1.has_same_model(rules_of(b)[i].1),
    ensures
        same_rules(b, a),
{
    let order = crate::text_map::sorted_texts(a.dom());
    let other = crate::text_map::sorted_texts(b.dom());
    crate::text_map::lemma_finite_set_is_sorted(a.dom());
    crate::text_map::lemma_finite_set_is_sorted(b.dom());
    assert forall|i: int| 0 <= i < order.len() implies order[i] == other[i] by {
        assert(rules_of(a)[i].0 == rules_of(b)[i].0);
    }
    assert(order =~= other);
    assert forall|key: Seq<char>| b.contains_key(key) implies (#[trigger] b[key]).has_same_model(
        a[key],
    ) by {
        assert(other.to_set().contains(key));
        let i = choose|i: int| 0 <= i < other.len() && other[i] == key;
        assert(rules_of(a)[i].1.has_same_model(rules_of(b)[i].1));
    }
}

/// Policies with the same text have the same rules, apart from the speed, where what is quoted of
/// one of them is of it alone.
pub proof fn lemma_context_is_read(
    policy: crate::policy::PolicyView,
    other: crate::policy::PolicyView,
)
    requires
        policy.is_finite(),
        other.is_finite(),
        are_readable(policy.referenced_models()),
        are_readable_rules(rules_of(policy.types)),
        are_readable_rules(rules_of(policy.mapping)),
        policy.fallback is Some ==> is_readable_target(policy.fallback->0),
        crate::policy_context::policy_context(other) == crate::policy_context::policy_context(
            policy,
        ),
    ensures
        other.has_same_rules(policy),
{
    let fallback_a = crate::policy_context::fallback_line(described_fallback(policy));
    let fallback_b = crate::policy_context::fallback_line(described_fallback(other));
    let types_a = rules_of(policy.types);
    let types_b = rules_of(other.types);
    let mapping_a = rules_of(policy.mapping);
    let mapping_b = rules_of(other.mapping);
    let lines_a = crate::policy_context::rule_lines(written(mapping_a)) + fallback_a;
    let lines_b = crate::policy_context::rule_lines(written(mapping_b)) + fallback_b;
    let mappings_a = "Requested-model mappings:\n"@ + lines_a;
    let mappings_b = "Requested-model mappings:\n"@ + lines_b;
    let rules_a = crate::policy_context::rule_lines(written(types_a)) + mappings_a;
    let rules_b = crate::policy_context::rule_lines(written(types_b)) + mappings_b;
    let overrides_a = "Type overrides:\n"@ + rules_a;
    let overrides_b = "Type overrides:\n"@ + rules_b;
    let models_a = crate::policy_context::model_lines(
        crate::policy_context::quoted(policy.referenced_models()),
    ) + overrides_a;
    let models_b = crate::policy_context::model_lines(
        crate::policy_context::quoted(other.referenced_models()),
    ) + overrides_b;
    lemma_context_parts(policy);
    lemma_context_parts(other);
    lemma_same_beginning(crate::policy_context::preamble(), models_a, models_b);
    reveal_strlit("Type overrides:\n");
    reveal_strlit("Requested-model mappings:\n");
    reveal_strlit("Fallback: ");
    reveal_strlit("Fallback: none; preserve the original requested model.\n");
    lemma_models_are_read(
        policy.referenced_models(),
        other.referenced_models(),
        overrides_a,
        overrides_b,
    );
    lemma_same_beginning("Type overrides:\n"@, rules_a, rules_b);
    lemma_rules_are_read(types_a, types_b, mappings_a, mappings_b);
    lemma_same_beginning("Requested-model mappings:\n"@, lines_a, lines_b);
    lemma_rules_are_read(mapping_a, mapping_b, fallback_a, fallback_b);
    lemma_listed_rules_are_the_same(policy.types, other.types);
    lemma_listed_rules_are_the_same(policy.mapping, other.mapping);
    lemma_fallback_is_read(policy, other);
}

/// The text of the fallback.
spec fn described_fallback(policy: crate::policy::PolicyView) -> Option<Seq<char>> {
    match policy.fallback {
        Some(target) => Some(crate::policy_context::described(target)),
        None => None,
    }
}

/// The text of a policy, part by part.
proof fn lemma_context_parts(policy: crate::policy::PolicyView)
    ensures
        crate::policy_context::policy_context(policy) == crate::policy_context::preamble() + (
        crate::policy_context::model_lines(
            crate::policy_context::quoted(policy.referenced_models()),
        ) + ("Type overrides:\n"@ + (crate::policy_context::rule_lines(
            written(rules_of(policy.types)),
        ) + ("Requested-model mappings:\n"@ + (crate::policy_context::rule_lines(
            written(rules_of(policy.mapping)),
        ) + crate::policy_context::fallback_line(described_fallback(policy))))))),
{
    assert(written(rules_of(policy.types)) =~= crate::policy_context::described_rules(
        policy.types,
    ));
    assert(written(rules_of(policy.mapping)) =~= crate::policy_context::described_rules(
        policy.mapping,
    ));
    assert(crate::policy_context::policy_context(policy) =~= crate::policy_context::preamble() + (
    crate::policy_context::model_lines(
        crate::policy_context::quoted(policy.referenced_models()),
    ) + ("Type overrides:\n"@ + (crate::policy_context::rule_lines(
        written(rules_of(policy.types)),
    ) + ("Requested-model mappings:\n"@ + (crate::policy_context::rule_lines(
        written(rules_of(policy.mapping)),
    ) + crate::policy_context::fallback_line(described_fallback(policy))))))));
}

/// The fallback is read from its line.
proof fn lemma_fallback_is_read(
    policy: crate::policy::PolicyView,
    other: crate::policy::PolicyView,
)
    requires
        policy.fallback is Some ==> is_readable_target(policy.fallback->0),
        crate::policy_context::fallback_line(described_fallback(policy))
            == crate::policy_context::fallback_line(described_fallback(other)),
    ensures
        policy.fallback is Some <==> other.fallback is Some,
        policy.fallback is Some ==> other.fallback->0.has_same_model(policy.fallback->0),
{
    let line = crate::policy_context::fallback_line(described_fallback(policy));
    reveal_strlit("Fallback: ");
    reveal_strlit("Fallback: none; preserve the original requested model.\n");
    reveal_strlit("model=");
    reveal_strlit("\n");
    if policy.fallback is Some {
        assert(line[10] == 'm');
    } else {
        assert(line[10] == 'n');
    }
    if other.fallback is Some {
        assert(line[10] == 'm');
    } else {
        assert(line[10] == 'n');
    }
    if policy.fallback is Some {
        let a = policy.fallback->0;
        let b = other.fallback->0;
        let x = crate::policy_context::described(a) + "\n"@;
        let y = crate::policy_context::described(b) + "\n"@;
        assert(line =~= "Fallback: "@ + x);
        assert(line =~= "Fallback: "@ + y);
        lemma_same_beginning("Fallback: "@, x, y);
        lemma_target_is_read(a, b, "\n"@, "\n"@);
    }
}

/// The text shows the rules of a policy and nothing else: policies with the same rules, apart from
/// the speed of their targets, have the same text.
pub proof fn law_context_shows_only_the_rules(
    a: crate::policy::PolicyView,
    b: crate::policy::PolicyView,
)
    requires
        a.has_same_rules(b),
        a.is_finite(),
    ensures
        crate::policy_context::policy_context(a) == crate::policy_context::policy_context(b),
{
    lemma_same_lines(a.types, b.types);
    lemma_same_lines(a.mapping, b.mapping);
    let named_a = Set::new(|model: Seq<char>| a.references(model));
    let named_b = Set::new(|model: Seq<char>| b.references(model));
    assert forall|model: Seq<char>| a.references(model) == b.references(model) by {
        lemma_references_carry_over(a, b, model);
        lemma_same_rules_both_ways(a, b);
        lemma_references_carry_over(b, a, model);
    }
    assert(named_a =~= named_b);
}

proof fn lemma_same_rules_both_ways(
    a: crate::policy::PolicyView,
    b: crate::policy::PolicyView,
)
    requires
        a.has_same_rules(b),
    ensures
        b.has_same_rules(a),
{
    assert forall|key: Seq<char>| b.types.contains_key(key) implies (
    #[trigger] b.types[key]).has_same_model(a.types[key]) by {
        assert(a.types.dom().contains(key));
        assert(a.types[key].has_same_model(b.types[key]));
    }
    assert forall|key: Seq<char>| b.mapping.contains_key(key) implies (
    #[trigger] b.mapping[key]).has_same_model(a.mapping[key]) by {
        assert(a.mapping.dom().contains(key));
        assert(a.mapping[key].has_same_model(b.mapping[key]));
    }
}

proof fn lemma_references_carry_over(
    a: crate::policy::PolicyView,
    b: crate::policy::PolicyView,
    model: Seq<char>,
)
    requires
        a.has_same_rules(b),
    ensures
        a.references(model) ==> b.references(model),
{
    assert forall|key: Seq<char>| a.types.contains_key(key) implies b.types.contains_key(key)
        && b.types[key].model == (#[trigger] a.types[key]).model by {
        assert(b.types.dom().contains(key));
    }
    assert forall|key: Seq<char>| a.mapping.contains_key(key) implies b.mapping.contains_key(key)
        && b.mapping[key].model == (#[trigger] a.mapping[key]).model by {
        assert(b.mapping.dom().contains(key));
    }
    assert(a.mapping.contains_key(model) == b.mapping.contains_key(model));
}

proof fn lemma_same_lines(
    a: Map<Seq<char>, crate::policy::TargetView>,
    b: Map<Seq<char>, crate::policy::TargetView>,
)
    requires
        a.dom().finite(),
        same_rules(a, b),
    ensures
        crate::policy_context::described_rules(a) == crate::policy_context::described_rules(b),
{
    let order = crate::text_map::sorted_texts(a.dom());
    crate::text_map::lemma_finite_set_is_sorted(a.dom());
    assert forall|i: int| 0 <= i < order.len() implies crate::policy_context::described(
        a[#[trigger] order[i]],
    ) == crate::policy_context::described(b[order[i]]) by {
        assert(order.to_set().contains(order[i]));
        assert(a.contains_key(order[i]));
        assert(a[order[i]].has_same_model(b[order[i]]));
    }
    assert(crate::policy_context::described_rules(a) =~= crate::policy_context::described_rules(b));
}

} // verus!
