//! Identifiers of models that a plugin provides.
use vstd::prelude::*;

use crate::text::{chars_of, starts_with};

verus! {

/// What every plugin model identifier begins with.
pub const ADAPTER_ID_PREFIX: &'static str = "plugin:";

/// The grammar `plugin:<plugin>/<provider>/<model>`: the three parts are not empty, and only
/// the last may hold a slash.
pub open spec fn is_plugin_id(
    text: Seq<char>,
    plugin: Seq<char>,
    provider: Seq<char>,
    model: Seq<char>,
) -> bool {
    &&& text == "plugin:"@ + plugin + seq!['/'] + provider + seq!['/'] + model
    &&& plugin.len() > 0
    &&& provider.len() > 0
    &&& model.len() > 0
    &&& !plugin.contains('/')
    &&& !provider.contains('/')
}

/// Whether `text` is a well-formed plugin model identifier.
pub open spec fn is_plugin_model(text: Seq<char>) -> bool {
    exists|plugin: Seq<char>, provider: Seq<char>, model: Seq<char>|
        is_plugin_id(text, plugin, provider, model)
}

/// The parts of a plugin model identifier.
#[derive(Debug, PartialEq, Eq)]
pub struct PluginModelId {
    pub plugin_id: String,
    pub provider_id: String,
    pub model_id: String,
}

/// The first place from `from` on that holds a slash, or the length.
fn find_slash(chars: &Vec<char>, from: usize) -> (r: usize)
    requires
        from <= chars@.len(),
    ensures
        from <= r <= chars@.len(),
        forall|j: int| from <= j < r ==> chars@[j] != '/',
        r < chars@.len() ==> chars@[r as int] == '/',
{
    let mut i: usize = from;
    while i < chars.len() && chars[i] != '/'
        invariant
            from <= i <= chars@.len(),
            forall|j: int| from <= j < i ==> chars@[j] != '/',
        decreases chars@.len() - i,
    {
        i += 1;
    }
    i
}

/// The text of the characters from `from` up to `to`.
fn part(chars: &Vec<char>, from: usize, to: usize) -> (r: String)
    requires
        from <= to <= chars@.len(),
    ensures
        r@ == chars@.subrange(from as int, to as int),
{
    let mut r: String = String::new();
    let mut i: usize = from;
    while i < to
        invariant
            from <= i <= to <= chars@.len(),
            r@ == chars@.subrange(from as int, i as int),
        decreases to - i,
    {
        r.push(chars[i]);
        proof {
            assert(r@ =~= chars@.subrange(from as int, i + 1));
        }
        i += 1;
    }
    r
}

/// Where the slashes of a well-formed identifier stand.
pub proof fn lemma_slash_places(
    text: Seq<char>,
    plugin: Seq<char>,
    provider: Seq<char>,
    model: Seq<char>,
)
    requires
        is_plugin_id(text, plugin, provider, model),
    ensures
        text.len() == 7 + plugin.len() + 1 + provider.len() + 1 + model.len(),
        forall|j: int| 7 <= j < 7 + plugin.len() ==> text[j] != '/',
        text[7 + plugin.len() as int] == '/',
        forall|j: int|
            8 + plugin.len() <= j < 8 + plugin.len() + provider.len() ==> text[j] != '/',
        text[8 + plugin.len() as int + provider.len() as int] == '/',
        crate::text::has_prefix(text, "plugin:"@),
{
    reveal_strlit("plugin:");
    assert forall|j: int| 7 <= j < 7 + plugin.len() implies text[j] != '/' by {
        assert(text[j] == plugin[j - 7]);
        assert(plugin.contains(plugin[j - 7]));
    }
    assert forall|j: int|
        8 + plugin.len() <= j < 8 + plugin.len() + provider.len() implies text[j] != '/' by {
        assert(text[j] == provider[j - 8 - plugin.len()]);
        assert(provider.contains(provider[j - 8 - plugin.len()]));
    }
    assert(text.take(7) =~= "plugin:"@);
}

/// Splits a plugin model identifier into its parts; `None` where it is not well formed.
pub fn parse_model_id(text: &str) -> (r: Option<PluginModelId>)
    ensures
        match r {
            Some(id) => is_plugin_id(text@, id.plugin_id@, id.provider_id@, id.model_id@),
            None => !is_plugin_model(text@),
        },
{
    proof {
        reveal_strlit("plugin:");
        if is_plugin_model(text@) {
            let (a, b, c) = choose|a: Seq<char>, b: Seq<char>, c: Seq<char>|
                is_plugin_id(text@, a, b, c);
            lemma_slash_places(text@, a, b, c);
        }
    }
    if !starts_with(text, ADAPTER_ID_PREFIX) {
        return None;
    }
    let chars: Vec<char> = chars_of(text);
    let first: usize = find_slash(&chars, 7);
    if first == 7 || first >= chars.len() {
        return None;
    }
    let second: usize = find_slash(&chars, first + 1);
    if second == first + 1 || second >= chars.len() || second + 1 == chars.len() {
        return None;
    }
    let id = PluginModelId {
        plugin_id: part(&chars, 7, first),
        provider_id: part(&chars, first + 1, second),
        model_id: part(&chars, second + 1, chars.len()),
    };
    proof {
        assert(text@.take(7) =~= "plugin:"@);
        assert(text@ =~= "plugin:"@ + id.plugin_id@ + seq!['/'] + id.provider_id@ + seq!['/']
            + id.model_id@);
    }
    Some(id)
}

} // verus!
