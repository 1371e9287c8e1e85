//! Operations on text: comparison, prefixes, character classes and formatting.
use vstd::prelude::*;

verus! {

/// `String::push` appends one character to the end of the string.
pub assume_specification[ String::push ](text: &mut String, c: char)
    ensures
        final(text)@ == old(text)@.push(c),
;

/// The text between quotes as the `Debug` form of a string writes it, with its escapes.
pub uninterp spec fn debug_text(text: Seq<char>) -> Seq<char>;

/// Whether the form of a text is of that text alone: the form of no other text begins with it, nor
/// does it begin with the form of another one.
pub open spec fn tells_apart(text: Seq<char>, form: Seq<char>) -> bool {
    forall|other: Seq<char>|
        has_prefix(#[trigger] debug_text(other), form) || has_prefix(form, debug_text(other))
            ==> other == text
}

/// `format!` with `{:?}` writes the `Debug` form of a string, which is told by the string
/// alone. The form stands between quotation marks and has the literal escape codes of the
/// characters between them, so it ends at the first quotation mark that is not escaped and reads
/// back as one string: the form of no other string begins with it, nor it with another form.
/// Which characters are escaped, and how, is left unsaid.
#[verifier::external_body]
pub(crate) fn debug_quoted(text: &str) -> (r: String)
    ensures
        r@ == debug_text(text@),
        tells_apart(text@, r@),
{
    format!("{text:?}")
}

/// Whether `text` begins with `prefix`.
pub open spec fn has_prefix(text: Seq<char>, prefix: Seq<char>) -> bool {
    text.len() >= prefix.len() && text.take(prefix.len() as int) == prefix
}

/// The characters of `text`, in order.
pub fn chars_of(text: &str) -> (r: Vec<char>)
    ensures
        r@ == text@,
{
    let mut r: Vec<char> = Vec::new();
    for c in it: text.chars()
        invariant
            it.seq() == text@,
            r@ == text@.take(it.index() as int),
    {
        r.push(c);
    }
    r
}

/// Whether two texts hold the same characters.
pub fn same_text(a: &str, b: &str) -> (r: bool)
    ensures
        r == (a@ == b@),
{
    let left: Vec<char> = chars_of(a);
    let right: Vec<char> = chars_of(b);
    if left.len() != right.len() {
        return false;
    }
    let mut i: usize = 0;
    while i < left.len()
        invariant
            i <= left.len(),
            left@ == a@,
            right@ == b@,
            left.len() == right.len(),
            forall|j: int| 0 <= j < i ==> left@[j] == right@[j],
        decreases left.len() - i,
    {
        if left[i] != right[i] {
            return false;
        }
        i += 1;
    }
    proof {
        assert(a@ =~= b@);
    }
    true
}

/// Whether `text` begins with `prefix`.
pub fn starts_with(text: &str, prefix: &str) -> (r: bool)
    ensures
        r == has_prefix(text@, prefix@),
{
    let whole: Vec<char> = chars_of(text);
    let head: Vec<char> = chars_of(prefix);
    if whole.len() < head.len() {
        return false;
    }
    let mut i: usize = 0;
    while i < head.len()
        invariant
            i <= head.len() <= whole.len(),
            whole@ == text@,
            head@ == prefix@,
            forall|j: int| 0 <= j < i ==> whole@[j] == head@[j],
        decreases head.len() - i,
    {
        if whole[i] != head[i] {
            proof {
                assert(text@.take(prefix@.len() as int)[i as int] != prefix@[i as int]);
            }
            return false;
        }
        i += 1;
    }
    proof {
        assert(text@.take(prefix@.len() as int) =~= prefix@);
    }
    true
}

/// Where two texts part: they agree before `i`, and there `a` ends or holds the smaller
/// character.
pub open spec fn parts_at(a: Seq<char>, b: Seq<char>, i: int) -> bool {
    &&& 0 <= i <= a.len()
    &&& i < b.len()
    &&& forall|j: int| 0 <= j < i ==> a[j] == b[j]
    &&& i == a.len() || (a[i] as u32) < (b[i] as u32)
}

/// Lexicographic order by code point, which is the order of the UTF-8 bytes.
pub open spec fn precedes(a: Seq<char>, b: Seq<char>) -> bool {
    exists|i: int| parts_at(a, b, i)
}

/// How one text stands to another in lexicographic order.
#[derive(Clone, Copy, Debug, PartialEq, Eq, Structural)]
pub enum TextOrder {
    Before,
    Same,
    After,
}

/// Compares two texts in lexicographic order by code point.
pub fn text_order(a: &str, b: &str) -> (r: TextOrder)
    ensures
        (r is Before) == precedes(a@, b@),
        (r is Same) == (a@ == b@),
        (r is After) == precedes(b@, a@),
{
    let left: Vec<char> = chars_of(a);
    let right: Vec<char> = chars_of(b);
    let mut i: usize = 0;
    while i < left.len() && i < right.len() && left[i] == right[i]
        invariant
            i <= left.len(),
            i <= right.len(),
            left@ == a@,
            right@ == b@,
            forall|j: int| 0 <= j < i ==> left@[j] == right@[j],
        decreases left.len() - i,
    {
        i += 1;
    }
    if i == left.len() && i == right.len() {
        proof {
            assert(a@ =~= b@);
            lemma_precedes_irreflexive(a@);
        }
        TextOrder::Same
    } else if i == left.len() || (i < right.len() && (left[i] as u32) < (right[i] as u32)) {
        proof {
            assert(parts_at(a@, b@, i as int));
            lemma_precedes_asymmetric(a@, b@);
        }
        TextOrder::Before
    } else {
        proof {
            if i < b@.len() {
                vstd::utf8::char_u32_cast(a@[i as int], a@[i as int] as u32);
                vstd::utf8::char_u32_cast(b@[i as int], b@[i as int] as u32);
            }
            assert(parts_at(b@, a@, i as int));
            lemma_precedes_asymmetric(b@, a@);
        }
        TextOrder::After
    }
}

/// No text precedes itself.
pub proof fn lemma_precedes_irreflexive(a: Seq<char>)
    ensures
        !precedes(a, a),
{
}

/// Of two texts at most one precedes the other, and then they differ.
pub proof fn lemma_precedes_asymmetric(a: Seq<char>, b: Seq<char>)
    requires
        precedes(a, b),
    ensures
        !precedes(b, a),
        a != b,
{
    if precedes(b, a) {
        lemma_precedes_transitive(a, b, a);
    }
    lemma_precedes_irreflexive(a);
}

/// Lexicographic order is transitive.
pub proof fn lemma_precedes_transitive(a: Seq<char>, b: Seq<char>, c: Seq<char>)
    requires
        precedes(a, b),
        precedes(b, c),
    ensures
        precedes(a, c),
{
    let i = choose|i: int| parts_at(a, b, i);
    let j = choose|j: int| parts_at(b, c, j);
    if i <= j {
        assert(parts_at(a, c, i));
    } else {
        assert(parts_at(a, c, j));
    }
}

/// Of two texts one precedes the other, or they are the same.
pub proof fn lemma_precedes_total(a: Seq<char>, b: Seq<char>)
    ensures
        precedes(a, b) || a == b || precedes(b, a),
{
    lemma_precedes_total_from(a, b, 0);
}

proof fn lemma_precedes_total_from(a: Seq<char>, b: Seq<char>, i: int)
    requires
        0 <= i <= a.len(),
        i <= b.len(),
        forall|j: int| 0 <= j < i ==> a[j] == b[j],
    ensures
        precedes(a, b) || a == b || precedes(b, a),
    decreases a.len() - i,
{
    if i == a.len() {
        if i == b.len() {
            assert(a =~= b);
        } else {
            assert(parts_at(a, b, i));
        }
    } else if i == b.len() {
        assert(parts_at(b, a, i));
    } else if a[i] == b[i] {
        lemma_precedes_total_from(a, b, i + 1);
    } else {
        vstd::utf8::char_u32_cast(a[i], a[i] as u32);
        vstd::utf8::char_u32_cast(b[i], b[i] as u32);
        if (a[i] as u32) < (b[i] as u32) {
            assert(parts_at(a, b, i));
        } else {
            assert(parts_at(b, a, i));
        }
    }
}

/// The characters with the Unicode property `White_Space`.
pub open spec fn is_space(c: char) -> bool {
    let u = c as u32;
    ||| 0x09 <= u <= 0x0d
    ||| u == 0x20
    ||| u == 0x85
    ||| u == 0xa0
    ||| u == 0x1680
    ||| 0x2000 <= u <= 0x200a
    ||| u == 0x2028
    ||| u == 0x2029
    ||| u == 0x202f
    ||| u == 0x205f
    ||| u == 0x3000
}

/// The characters of the Unicode category `Cc`.
pub open spec fn is_control(c: char) -> bool {
    let u = c as u32;
    u < 0x20 || 0x7f <= u < 0xa0
}

/// The ASCII digits of base sixteen, in either case.
pub open spec fn is_hex_digit(c: char) -> bool {
    let u = c as u32;
    0x30 <= u <= 0x39 || 0x41 <= u <= 0x46 || 0x61 <= u <= 0x66
}

/// The ASCII lower case of a character; every other character stands for itself.
pub open spec fn ascii_lower(c: char) -> u32 {
    let u = c as u32;
    if 0x41 <= u <= 0x5a {
        (u + 0x20) as u32
    } else {
        u
    }
}

/// Whether the character has the Unicode property `White_Space`.
pub fn char_is_space(c: char) -> (r: bool)
    ensures
        r == is_space(c),
{
    let u: u32 = c as u32;
    (0x09 <= u && u <= 0x0d) || u == 0x20 || u == 0x85 || u == 0xa0 || u == 0x1680 || (0x2000 <= u
        && u <= 0x200a) || u == 0x2028 || u == 0x2029 || u == 0x202f || u == 0x205f || u == 0x3000
}

/// Whether the character belongs to the Unicode category `Cc`.
pub fn char_is_control(c: char) -> (r: bool)
    ensures
        r == is_control(c),
{
    let u: u32 = c as u32;
    u < 0x20 || (0x7f <= u && u < 0xa0)
}

/// Whether any character of `text` is white space or a control character.
pub open spec fn has_blank(text: Seq<char>) -> bool {
    exists|i: int| 0 <= i < text.len() && (is_space(#[trigger] text[i]) || is_control(text[i]))
}

/// Whether any character of `text` is white space or a control character.
pub fn contains_blank(text: &str) -> (r: bool)
    ensures
        r == has_blank(text@),
{
    let chars: Vec<char> = chars_of(text);
    let mut i: usize = 0;
    while i < chars.len()
        invariant
            i <= chars.len(),
            chars@ == text@,
            forall|j: int|
                0 <= j < i ==> !is_space(#[trigger] text@[j]) && !is_control(text@[j]),
        decreases chars.len() - i,
    {
        if char_is_space(chars[i]) || char_is_control(chars[i]) {
            assert(is_space(text@[i as int]) || is_control(text@[i as int]));
            return true;
        }
        i += 1;
    }
    false
}

/// Whether two texts agree once ASCII letters are taken in lower case.
pub open spec fn same_ignoring_case(a: Seq<char>, b: Seq<char>) -> bool {
    a.len() == b.len() && forall|i: int|
        0 <= i < a.len() ==> ascii_lower(#[trigger] a[i]) == ascii_lower(b[i])
}

fn char_lower(c: char) -> (r: u32)
    ensures
        r == ascii_lower(c),
{
    let u: u32 = c as u32;
    if 0x41 <= u && u <= 0x5a {
        u + 0x20
    } else {
        u
    }
}

/// Whether two texts agree once ASCII letters are taken in lower case.
pub fn equal_ignoring_case(a: &str, b: &str) -> (r: bool)
    ensures
        r == same_ignoring_case(a@, b@),
{
    let left: Vec<char> = chars_of(a);
    let right: Vec<char> = chars_of(b);
    if left.len() != right.len() {
        return false;
    }
    let mut i: usize = 0;
    while i < left.len()
        invariant
            i <= left.len(),
            left.len() == right.len(),
            left@ == a@,
            right@ == b@,
            forall|j: int| 0 <= j < i ==> ascii_lower(#[trigger] a@[j]) == ascii_lower(b@[j]),
        decreases left.len() - i,
    {
        if char_lower(left[i]) != char_lower(right[i]) {
            assert(ascii_lower(a@[i as int]) != ascii_lower(b@[i as int]));
            return false;
        }
        i += 1;
    }
    true
}

/// Whether `text` has the shape of a model hash: sixteen hexadecimal digits.
pub open spec fn is_model_hash(text: Seq<char>) -> bool {
    text.len() == 16 && forall|i: int| 0 <= i < text.len() ==> is_hex_digit(#[trigger] text[i])
}

/// Whether `text` has the shape of a model hash: sixteen hexadecimal digits.
pub fn looks_like_model_hash(text: &str) -> (r: bool)
    ensures
        r == is_model_hash(text@),
{
    let chars: Vec<char> = chars_of(text);
    if chars.len() != 16 {
        return false;
    }
    let mut i: usize = 0;
    while i < chars.len()
        invariant
            i <= chars.len(),
            chars@ == text@,
            forall|j: int| 0 <= j < i ==> is_hex_digit(#[trigger] text@[j]),
        decreases chars.len() - i,
    {
        let u: u32 = chars[i] as u32;
        if !((0x30 <= u && u <= 0x39) || (0x41 <= u && u <= 0x46) || (0x61 <= u && u <= 0x66)) {
            assert(!is_hex_digit(text@[i as int]));
            return false;
        }
        i += 1;
    }
    true
}

/// `text` without the white space at its two ends.
pub open spec fn trimmed(text: Seq<char>) -> Seq<char>
    decreases text.len(),
{
    if text.len() > 0 && is_space(text.first()) {
        trimmed(text.drop_first())
    } else if text.len() > 0 && is_space(text.last()) {
        trimmed(text.drop_last())
    } else {
        text
    }
}

/// `text` without the white space at its two ends.
pub fn trim(text: &str) -> (r: String)
    ensures
        r@ == trimmed(text@),
{
    let chars: Vec<char> = chars_of(text);
    let mut first: usize = 0;
    let mut end: usize = chars.len();
    proof {
        assert(chars@.subrange(0, chars@.len() as int) =~= chars@);
    }
    while first < end && char_is_space(chars[first])
        invariant
            first <= end == chars@.len(),
            chars@ == text@,
            trimmed(text@) == trimmed(chars@.subrange(first as int, end as int)),
        decreases end - first,
    {
        proof {
            let rest = chars@.subrange(first as int, end as int);
            assert(rest.drop_first() =~= chars@.subrange(first + 1, end as int));
        }
        first += 1;
    }
    while first < end && char_is_space(chars[end - 1])
        invariant
            first <= end <= chars@.len(),
            chars@ == text@,
            first < end ==> !is_space(chars@[first as int]),
            trimmed(text@) == trimmed(chars@.subrange(first as int, end as int)),
        decreases end - first,
    {
        proof {
            let rest = chars@.subrange(first as int, end as int);
            assert(rest.drop_last() =~= chars@.subrange(first as int, end - 1));
        }
        end -= 1;
    }
    let mut r: String = String::new();
    let mut i: usize = first;
    while i < end
        invariant
            first <= i <= end <= chars@.len(),
            r@ == chars@.subrange(first as int, i as int),
        decreases end - i,
    {
        r.push(chars[i]);
        proof {
            assert(r@ =~= chars@.subrange(first as int, i + 1));
        }
        i += 1;
    }
    r
}

/// A text without white space is left as it is by trimming.
pub proof fn lemma_trim_keeps_unblank(text: Seq<char>)
    requires
        !has_blank(text),
    ensures
        trimmed(text) == text,
{
    if text.len() > 0 {
        assert(!is_space(text[0]));
        assert(!is_space(text[text.len() - 1]));
    }
}

/// The digit for a value below sixteen, in lower case.
pub open spec fn hex_digit(value: int) -> char {
    "0123456789abcdef"@[value]
}

/// Two lower-case hexadecimal digits for each byte, the high half first.
pub open spec fn hex_text(bytes: Seq<u8>) -> Seq<char> {
    Seq::new(
        2 * bytes.len(),
        |i: int|
            if i % 2 == 0 {
                hex_digit(bytes[i / 2] as int / 16)
            } else {
                hex_digit(bytes[i / 2] as int % 16)
            },
    )
}

/// Two lower-case hexadecimal digits for each byte, the high half first.
pub fn hex(bytes: &[u8]) -> (r: String)
    ensures
        r@ == hex_text(bytes@),
{
    let digits: Vec<char> = chars_of("0123456789abcdef");
    proof {
        reveal_strlit("0123456789abcdef");
    }
    let mut r: String = String::new();
    let mut i: usize = 0;
    while i < bytes.len()
        invariant
            i <= bytes.len(),
            digits@ == "0123456789abcdef"@,
            digits@.len() == 16,
            r@ == hex_text(bytes@.take(i as int)),
        decreases bytes.len() - i,
    {
        let byte: u8 = bytes[i];
        r.push(digits[(byte / 16) as usize]);
        r.push(digits[(byte % 16) as usize]);
        i += 1;
        proof {
            assert(r@ =~= hex_text(bytes@.take(i as int)));
        }
    }
    proof {
        assert(bytes@.take(i as int) =~= bytes@);
    }
    r
}

/// Different byte strings have different hexadecimal texts, and a text is twice as long as
/// its bytes.
pub proof fn law_hex_is_injective(a: Seq<u8>, b: Seq<u8>)
    ensures
        hex_text(a).len() == 2 * a.len(),
        hex_text(a) == hex_text(b) ==> a == b,
{
    if hex_text(a) == hex_text(b) {
        assert(a.len() == b.len());
        assert forall|i: int| 0 <= i < a.len() implies a[i] == b[i] by {
            reveal_strlit("0123456789abcdef");
            assert(hex_text(a)[2 * i] == hex_text(b)[2 * i]);
            assert(hex_text(a)[2 * i + 1] == hex_text(b)[2 * i + 1]);
            lemma_hex_digit_injective(a[i] as int / 16, b[i] as int / 16);
            lemma_hex_digit_injective(a[i] as int % 16, b[i] as int % 16);
        }
        assert(a =~= b);
    }
}

proof fn lemma_hex_digit_injective(a: int, b: int)
    requires
        0 <= a < 16,
        0 <= b < 16,
        hex_digit(a) == hex_digit(b),
    ensures
        a == b,
{
    reveal_strlit("0123456789abcdef");
}

/// The decimal digits of a number, without leading zeros.
pub open spec fn decimal_text(n: nat) -> Seq<char>
    decreases n,
{
    if n < 10 {
        seq!["0123456789"@[n as int]]
    } else {
        decimal_text(n / 10).push("0123456789"@[n as int % 10])
    }
}

/// The decimal digits of a number, without leading zeros.
pub fn decimal(n: usize) -> (r: String)
    ensures
        r@ == decimal_text(n as nat),
    decreases n,
{
    let digits: Vec<char> = chars_of("0123456789");
    proof {
        reveal_strlit("0123456789");
    }
    if n < 10 {
        let mut r: String = String::new();
        r.push(digits[n]);
        proof {
            assert(r@ =~= decimal_text(n as nat));
        }
        r
    } else {
        let mut r: String = decimal(n / 10);
        r.push(digits[n % 10]);
        r
    }
}

/// Decimal digits are digits.
pub proof fn lemma_decimal_is_digits(n: nat)
    ensures
        decimal_text(n).len() > 0,
        forall|i: int|
            0 <= i < decimal_text(n).len() ==> '0' <= #[trigger] decimal_text(n)[i] <= '9',
    decreases n,
{
    reveal_strlit("0123456789");
    if n >= 10 {
        lemma_decimal_is_digits(n / 10);
    }
}

/// Two texts, one after the other.
pub fn append(first: &str, second: &str) -> (r: String)
    ensures
        r@ == first@ + second@,
{
    let mut r: String = first.to_owned();
    r.append(second);
    r
}

/// Three texts, one after the other.
pub fn join(first: &str, second: &str, third: &str) -> (r: String)
    ensures
        r@ == first@ + second@ + third@,
{
    let mut r: String = String::new();
    r.append(first);
    r.append(second);
    r.append(third);
    proof {
        assert(r@ =~= first@ + second@ + third@);
    }
    r
}

} // verus!
