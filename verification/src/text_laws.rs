//! What holds of operations on text.
use vstd::prelude::*;

verus! {

/// A text begins with another one exactly where it is that one with something behind it.
pub proof fn law_prefix_is_what_a_text_begins_with(text: Seq<char>, prefix: Seq<char>)
    ensures
        crate::text::has_prefix(text, prefix) <==> exists|rest: Seq<char>| #[trigger]
            (prefix + rest) == text,
{
    if crate::text::has_prefix(text, prefix) {
        assert(prefix + text.skip(prefix.len() as int) =~= text);
    }
    if exists|rest: Seq<char>| #[trigger] (prefix + rest) == text {
        let rest = choose|rest: Seq<char>| #[trigger] (prefix + rest) == text;
        assert((prefix + rest).take(prefix.len() as int) =~= prefix);
    }
}

/// Texts are ordered by the first character in which they differ, and a text comes before every
/// longer one that begins with it.
pub proof fn law_texts_are_ordered_by_their_first_difference(
    same: Seq<char>,
    a: char,
    b: char,
    s: Seq<char>,
    t: Seq<char>,
)
    ensures
        (a as u32) < (b as u32) ==> crate::text::precedes(same + seq![a] + s, same + seq![b] + t),
        (a as u32) < (b as u32) ==> !crate::text::precedes(same + seq![b] + t, same + seq![a] + s),
        crate::text::precedes(same, same + seq![a] + s),
        !crate::text::precedes(same + seq![a] + s, same),
        !crate::text::precedes(same, same),
{
    let x = same + seq![a] + s;
    let y = same + seq![b] + t;
    if (a as u32) < (b as u32) {
        assert(crate::text::parts_at(x, y, same.len() as int));
        crate::text::lemma_precedes_asymmetric(x, y);
    }
    assert(crate::text::parts_at(same, x, same.len() as int));
    crate::text::lemma_precedes_asymmetric(same, x);
    crate::text::lemma_precedes_irreflexive(same);
}

/// White space are the blanks that Unicode knows, the wide ones of other scripts among them, and
/// the control characters that move on; control characters are the first of ASCII and of the block
/// behind it, and the last of ASCII. No other character of either block is one of them.
pub proof fn law_blank_characters(c: char)
    ensures
        c as int <= 0x20 ==> crate::text::is_space(c) || crate::text::is_control(c),
        0x21 <= c as int <= 0x7e ==> !crate::text::is_space(c) && !crate::text::is_control(c),
        0x7f <= c as int <= 0xa0 ==> crate::text::is_space(c) || crate::text::is_control(c),
        0xa1 <= c as int <= 0x167f ==> !crate::text::is_space(c) && !crate::text::is_control(c),
        c as int > 0x3000 ==> !crate::text::is_space(c) && !crate::text::is_control(c),
        c == '\t' || c == '\n' || c == '\r' || c == ' ' || c == '\u{b}' || c == '\u{c}' || c
            == '\u{85}' || c == '\u{a0}' || c == '\u{1680}' || c == '\u{2028}' || c == '\u{2029}'
            || c == '\u{202f}' || c == '\u{205f}' || c == '\u{3000}' || (0x2000 <= c as int
            <= 0x200a) <==> crate::text::is_space(c),
        c as int <= 0x1f || (0x7f <= c as int <= 0x9f) <==> crate::text::is_control(c),
{
}

/// A text has a blank exactly where one of its characters is one: two texts have one together
/// exactly where one of them has.
pub proof fn law_blanks_are_found_anywhere(a: Seq<char>, c: char, b: Seq<char>)
    ensures
        crate::text::has_blank(a + seq![c] + b) <==> crate::text::has_blank(a)
            || crate::text::is_space(c) || crate::text::is_control(c) || crate::text::has_blank(b),
        !crate::text::has_blank(seq![]),
{
    let whole = a + seq![c] + b;
    if crate::text::has_blank(a) {
        let i = choose|i: int|
            0 <= i < a.len() && (crate::text::is_space(#[trigger] a[i])
                || crate::text::is_control(a[i]));
        assert(whole[i] == a[i]);
    }
    assert(whole[a.len() as int] == c);
    if crate::text::has_blank(b) {
        let i = choose|i: int|
            0 <= i < b.len() && (crate::text::is_space(#[trigger] b[i])
                || crate::text::is_control(b[i]));
        assert(whole[a.len() + 1 + i] == b[i]);
    }
    if crate::text::has_blank(whole) {
        let i = choose|i: int|
            0 <= i < whole.len() && (crate::text::is_space(#[trigger] whole[i])
                || crate::text::is_control(whole[i]));
        if i < a.len() {
            assert(a[i] == whole[i]);
        } else if i > a.len() {
            assert(b[i - a.len() - 1] == whole[i]);
        }
    }
}

/// Texts that agree but for the case of ASCII letters are those whose characters are the same, or
/// are the two cases of one letter.
pub proof fn law_case_is_that_of_ascii_letters(a: Seq<char>, b: Seq<char>)
    ensures
        crate::text::same_ignoring_case(a, b) <==> a.len() == b.len() && forall|i: int|
            0 <= i < a.len() ==> #[trigger] a[i] == b[i] || (65 <= a[i] as int <= 90 && b[i] as int
                == a[i] as int + 32) || (97 <= a[i] as int <= 122 && b[i] as int == a[i] as int
                - 32),
{
    assert forall|c: char, d: char|
        crate::text::ascii_lower(c) == crate::text::ascii_lower(d) <==> c == d || (65 <= c as int
            <= 90 && d as int == c as int + 32) || (97 <= c as int <= 122 && d as int == c as int
            - 32) by {
        vstd::utf8::char_u32_cast(c, c as u32);
        vstd::utf8::char_u32_cast(d, d as u32);
    }
}

/// A model hash is what eight bytes are in hexadecimal digits, in either case of the letters.
pub proof fn law_model_hashes_are_eight_bytes(bytes: Seq<u8>, text: Seq<char>)
    ensures
        crate::text::is_model_hash(crate::text::hex_text(bytes)) <==> bytes.len() == 8,
        crate::text::is_model_hash(text) <==> text.len() == 16 && forall|i: int|
            0 <= i < 16 ==> ('0' <= #[trigger] text[i] <= '9') || ('a' <= text[i] <= 'f') || ('A'
                <= text[i] <= 'F'),
{
    reveal_strlit("0123456789abcdef");
    let digits = crate::text::hex_text(bytes);
    if forall|i: int|
        0 <= i < 16 ==> ('0' <= #[trigger] text[i] <= '9') || ('a' <= text[i] <= 'f') || ('A'
            <= text[i] <= 'F') {
        assert forall|i: int| 0 <= i < 16 implies crate::text::is_hex_digit(#[trigger] text[i]) by {
            vstd::utf8::char_u32_cast(text[i], text[i] as u32);
        }
    }
    if crate::text::is_model_hash(text) {
        assert forall|i: int| 0 <= i < 16 implies ('0' <= #[trigger] text[i] <= '9') || ('a'
            <= text[i] <= 'f') || ('A' <= text[i] <= 'F') by {
            assert(crate::text::is_hex_digit(text[i]));
            vstd::utf8::char_u32_cast(text[i], text[i] as u32);
        }
    }
    assert forall|i: int| 0 <= i < digits.len() implies crate::text::is_hex_digit(
        #[trigger] digits[i],
    ) by {
        assert(0 <= bytes[i / 2] as int / 16 < 16);
        assert(0 <= bytes[i / 2] as int % 16 < 16);
    }
}

/// Trimming takes white space off both ends and nothing else: what is left neither begins nor
/// ends with it, and what was taken off is white space.
pub proof fn law_trimming_takes_off_white_space(text: Seq<char>)
    ensures
        crate::text::trimmed(text).len() > 0 ==> !crate::text::is_space(
            crate::text::trimmed(text)[0],
        ) && !crate::text::is_space(crate::text::trimmed(text).last()),
        exists|before: Seq<char>, after: Seq<char>|
            #![trigger before + crate::text::trimmed(text) + after]
            text == before + crate::text::trimmed(text) + after && (forall|i: int|
                0 <= i < before.len() ==> crate::text::is_space(#[trigger] before[i])) && (forall|
                i: int,
            |
                0 <= i < after.len() ==> crate::text::is_space(#[trigger] after[i])),
    decreases text.len(),
{
    let trimmed = crate::text::trimmed(text);
    if text.len() > 0 && crate::text::is_space(text.first()) {
        let rest = text.drop_first();
        law_trimming_takes_off_white_space(rest);
        let (before, after) = choose|before: Seq<char>, after: Seq<char>|
            #![trigger before + trimmed + after]
            rest == before + trimmed + after && (forall|i: int|
                0 <= i < before.len() ==> crate::text::is_space(#[trigger] before[i])) && (forall|
                i: int,
            |
                0 <= i < after.len() ==> crate::text::is_space(#[trigger] after[i]));
        assert(trimmed == crate::text::trimmed(rest));
        let more = seq![text[0]] + before;
        assert(text =~= seq![text[0]] + rest);
        assert(text =~= more + trimmed + after);
    } else if text.len() > 0 && crate::text::is_space(text.last()) {
        let rest = text.drop_last();
        law_trimming_takes_off_white_space(rest);
        let (before, after) = choose|before: Seq<char>, after: Seq<char>|
            #![trigger before + trimmed + after]
            rest == before + trimmed + after && (forall|i: int|
                0 <= i < before.len() ==> crate::text::is_space(#[trigger] before[i])) && (forall|
                i: int,
            |
                0 <= i < after.len() ==> crate::text::is_space(#[trigger] after[i]));
        assert(trimmed == crate::text::trimmed(rest));
        let more = after.push(text.last());
        assert(text =~= rest.push(text.last()));
        assert(text =~= before + trimmed + more);
    } else {
        assert(text =~= Seq::<char>::empty() + trimmed + Seq::<char>::empty());
    }
}

/// The value of a lower-case hexadecimal digit.
pub open spec fn hex_value(c: char) -> int {
    if '0' <= c <= '9' {
        c as int - '0' as int
    } else {
        c as int - 'a' as int + 10
    }
}

/// The two digits of a byte give the byte back.
pub proof fn law_hex_digits_give_their_byte(bytes: Seq<u8>, i: int)
    requires
        0 <= i < bytes.len(),
    ensures
        crate::text::hex_text(bytes).len() == 2 * bytes.len(),
        hex_value(crate::text::hex_text(bytes)[2 * i]) * 16 + hex_value(
            crate::text::hex_text(bytes)[2 * i + 1],
        ) == bytes[i],
        forall|j: int|
            0 <= j < crate::text::hex_text(bytes).len() ==> ('0' <= #[trigger] crate::text::hex_text(
                bytes,
            )[j] <= '9') || ('a' <= crate::text::hex_text(bytes)[j] <= 'f'),
{
    reveal_strlit("0123456789abcdef");
    let high = bytes[i] as int / 16;
    let low = bytes[i] as int % 16;
    assert(hex_value("0123456789abcdef"@[high]) == high);
    assert(hex_value("0123456789abcdef"@[low]) == low);
    assert((2 * i) / 2 == i);
    assert((2 * i + 1) / 2 == i);
    assert forall|j: int| 0 <= j < crate::text::hex_text(bytes).len() implies ('0'
        <= #[trigger] crate::text::hex_text(bytes)[j] <= '9') || ('a' <= crate::text::hex_text(
        bytes,
    )[j] <= 'f') by {
        assert(0 <= bytes[j / 2] as int / 16 < 16);
        assert(0 <= bytes[j / 2] as int % 16 < 16);
    }
}

/// The number that decimal digits stand for.
pub open spec fn decimal_value(digits: Seq<char>) -> int
    decreases digits.len(),
{
    if digits.len() == 0 {
        0
    } else {
        decimal_value(digits.drop_last()) * 10 + (digits.last() as int - '0' as int)
    }
}

/// The decimal digits of a number stand for it, and do not begin with a zero but for zero itself.
pub proof fn law_decimal_digits_stand_for_their_number(n: nat)
    ensures
        decimal_value(crate::text::decimal_text(n)) == n,
        n > 0 ==> crate::text::decimal_text(n)[0] != '0',
        crate::text::decimal_text(0) == "0"@,
        forall|i: int|
            0 <= i < crate::text::decimal_text(n).len() ==> '0' <= #[trigger] crate::text::decimal_text(
                n,
            )[i] <= '9',
    decreases n,
{
    reveal_strlit("0123456789");
    reveal_strlit("0");
    assert(crate::text::decimal_text(0) =~= "0"@);
    crate::text::lemma_decimal_is_digits(n);
    let digits = crate::text::decimal_text(n);
    if n < 10 {
        assert(digits.drop_last() =~= Seq::<char>::empty());
        assert(decimal_value(digits.drop_last()) == 0);
        assert(digits.last() as int - '0' as int == n);
    } else {
        law_decimal_digits_stand_for_their_number(n / 10);
        crate::text::lemma_decimal_is_digits(n / 10);
        assert(digits.drop_last() =~= crate::text::decimal_text(n / 10));
        assert(digits.last() as int - '0' as int == n % 10);
    }
}

/// A plugin model identifier is made of three parts, and made of them in one way only.
pub proof fn law_plugin_identifiers_have_three_parts(
    plugin: Seq<char>,
    provider: Seq<char>,
    model: Seq<char>,
)
    requires
        plugin.len() > 0,
        provider.len() > 0,
        model.len() > 0,
        !plugin.contains('/'),
        !provider.contains('/'),
    ensures
        crate::plugin::is_plugin_model("plugin:"@ + plugin + "/"@ + provider + "/"@ + model),
        forall|a: Seq<char>, b: Seq<char>, c: Seq<char>| #[trigger]
            crate::plugin::is_plugin_id(
                "plugin:"@ + plugin + "/"@ + provider + "/"@ + model,
                a,
                b,
                c,
            ) ==> a == plugin && b == provider && c == model,
{
    reveal_strlit("plugin:");
    reveal_strlit("/");
    let whole = "plugin:"@ + plugin + "/"@ + provider + "/"@ + model;
    assert("/"@ =~= seq!['/']);
    assert(crate::plugin::is_plugin_id(whole, plugin, provider, model));
    crate::plugin::lemma_slash_places(whole, plugin, provider, model);
    assert forall|a: Seq<char>, b: Seq<char>, c: Seq<char>| #[trigger]
        crate::plugin::is_plugin_id(whole, a, b, c) implies a == plugin && b == provider && c
        == model by {
        crate::plugin::lemma_slash_places(whole, a, b, c);
        assert(a.len() == plugin.len());
        assert(a =~= whole.subrange(7, 7 + a.len() as int));
        assert(plugin =~= whole.subrange(7, 7 + plugin.len() as int));
        let start = 8 + a.len() as int;
        assert(b.len() == provider.len());
        assert(b =~= whole.subrange(start, start + b.len()));
        assert(provider =~= whole.subrange(start, start + provider.len()));
        assert(c =~= whole.skip(start + b.len() + 1));
        assert(model =~= whole.skip(start + provider.len() + 1));
    }
}

/// A text is a plugin model identifier only where it is made of three such parts.
pub proof fn law_only_three_parts_are_a_plugin_identifier(
    text: Seq<char>,
    plugin: Seq<char>,
    provider: Seq<char>,
    model: Seq<char>,
)
    ensures
        crate::plugin::is_plugin_id(text, plugin, provider, model) ==> {
            &&& text == "plugin:"@ + plugin + "/"@ + provider + "/"@ + model
            &&& plugin.len() > 0 && provider.len() > 0 && model.len() > 0
            &&& !plugin.contains('/') && !provider.contains('/')
        },
        crate::plugin::is_plugin_model(text) ==> exists|a: Seq<char>, b: Seq<char>, c: Seq<char>|
            #[trigger] ("plugin:"@ + a + "/"@ + b + "/"@ + c) == text && a.len() > 0 && b.len() > 0
                && c.len() > 0 && !a.contains('/') && !b.contains('/'),
{
    reveal_strlit("/");
    assert("/"@ =~= seq!['/']);
    if crate::plugin::is_plugin_model(text) {
        let (a, b, c) = choose|a: Seq<char>, b: Seq<char>, c: Seq<char>|
            crate::plugin::is_plugin_id(text, a, b, c);
        assert("plugin:"@ + a + "/"@ + b + "/"@ + c == text);
    }
}

} // verus!
