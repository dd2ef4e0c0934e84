use vstd::prelude::*;

verus! {

/// A JSON scalar that a response body can carry under a single key.
#[derive(Clone, Debug)]
pub enum JsonScalar {
    Str(String),
    Bool(bool),
}

/// The mathematical value of a [`JsonScalar`].
pub enum JsonScalarView {
    Str(Seq<char>),
    Bool(bool),
}

impl View for JsonScalar {
    type V = JsonScalarView;

    open spec fn view(&self) -> JsonScalarView {
        match self {
            JsonScalar::Str(s) => JsonScalarView::Str(s@),
            JsonScalar::Bool(b) => JsonScalarView::Bool(*b),
        }
    }
}

/// Lower-case hexadecimal digit for `n` (`0 <= n < 16`).
pub open spec fn hex_digit(n: int) -> char {
    if n < 10 {
        (48 + n) as char
    } else {
        (87 + n) as char
    }
}

/// How one character is written inside a JSON string literal: the quote,
/// the backslash and the control characters below U+0020 are escaped (the
/// five with a short form use it, the others `\u00XX`); every other
/// character is written as it is.
pub open spec fn escape_char(c: char) -> Seq<char> {
    if c == '"' {
        seq!['\\', '"']
    } else if c == '\\' {
        seq!['\\', '\\']
    } else if c == '\x08' {
        seq!['\\', 'b']
    } else if c == '\t' {
        seq!['\\', 't']
    } else if c == '\n' {
        seq!['\\', 'n']
    } else if c == '\x0c' {
        seq!['\\', 'f']
    } else if c == '\r' {
        seq!['\\', 'r']
    } else if (c as u32) < 0x20 {
        seq!['\\', 'u', '0', '0', hex_digit((c as int) / 16), hex_digit((c as int) % 16)]
    } else {
        seq![c]
    }
}

/// The escaped contents of a JSON string literal for `s`.
pub open spec fn escape(s: Seq<char>) -> Seq<char>
    decreases s.len(),
{
    if s.len() == 0 {
        Seq::empty()
    } else {
        escape(s.drop_last()) + escape_char(s.last())
    }
}

/// A JSON string literal: `s` escaped, between double quotes.
pub open spec fn string_literal(s: Seq<char>) -> Seq<char> {
    seq!['"'] + escape(s) + seq!['"']
}

/// The compact JSON text of a scalar.
pub open spec fn scalar_text(v: JsonScalarView) -> Seq<char> {
    match v {
        JsonScalarView::Str(s) => string_literal(s),
        JsonScalarView::Bool(b) => if b {
            seq!['t', 'r', 'u', 'e']
        } else {
            seq!['f', 'a', 'l', 's', 'e']
        },
    }
}

/// The compact JSON text of an object with the single entry `key: value`.
pub open spec fn single_entry_object(key: Seq<char>, value: JsonScalarView) -> Seq<char> {
    seq!['{'] + string_literal(key) + seq![':'] + scalar_text(value) + seq!['}']
}

/// A character that a JSON string literal holds as it is.
pub open spec fn is_plain_char(c: char) -> bool {
    c != '"' && c != '\\' && (c as u32) >= 0x20
}

/// Text whose characters are all written unescaped.
pub open spec fn is_plain(s: Seq<char>) -> bool {
    forall|i: int| 0 <= i < s.len() ==> is_plain_char(#[trigger] s[i])
}

/// Text made only of plain characters is written unchanged inside a JSON
/// string literal.
pub proof fn lemma_plain_text_unescaped(s: Seq<char>)
    requires
        is_plain(s),
    ensures
        escape(s) == s,
    decreases s.len(),
{
    if s.len() > 0 {
        let init = s.drop_last();
        assert(is_plain(init)) by {
            assert forall|i: int| 0 <= i < init.len() implies is_plain_char(#[trigger] init[i]) by {
                assert(init[i] == s[i]);
            }
        }
        lemma_plain_text_unescaped(init);
        assert(is_plain_char(s[s.len() - 1]));
        assert(init.push(s.last()) =~= s);
    }
}

/// Escaping works character by character: the escape of a concatenation is
/// the concatenation of the escapes.
pub proof fn lemma_escape_concat(a: Seq<char>, b: Seq<char>)
    ensures
        escape(a + b) == escape(a) + escape(b),
    decreases b.len(),
{
    if b.len() == 0 {
        assert(a + b =~= a);
        assert(escape(b) =~= Seq::<char>::empty());
        assert(escape(a) + escape(b) =~= escape(a));
    } else {
        let b0 = b.drop_last();
        lemma_escape_concat(a, b0);
        assert((a + b).drop_last() =~= a + b0);
        assert((a + b).last() == b.last());
        assert(escape(a) + escape(b0) + escape_char(b.last()) =~= escape(a) + (escape(b0) + escape_char(
            b.last(),
        )));
    }
}

/// The characters that must be escaped are: the quote becomes `\"`, the
/// backslash `\\`, the newline `\n`, and a control character such as U+0001
/// `\u0001`; a plain character stays as it is.
pub proof fn lemma_escape_examples(c: char)
    ensures
        escape(seq!['"']) == seq!['\\', '"'],
        escape(seq!['\\']) == seq!['\\', '\\'],
        escape(seq!['\n']) == seq!['\\', 'n'],
        escape(seq!['\x01']) == seq!['\\', 'u', '0', '0', '0', '1'],
        is_plain_char(c) ==> escape(seq![c]) == seq![c],
{
    assert(seq!['"'].drop_last() =~= Seq::<char>::empty());
    assert(seq!['\\'].drop_last() =~= Seq::<char>::empty());
    assert(seq!['\n'].drop_last() =~= Seq::<char>::empty());
    assert(seq!['\x01'].drop_last() =~= Seq::<char>::empty());
    assert(seq![c].drop_last() =~= Seq::<char>::empty());
    assert(escape(Seq::<char>::empty()) =~= Seq::<char>::empty());
    assert(escape(seq!['"']) =~= seq!['\\', '"']);
    assert(escape(seq!['\\']) =~= seq!['\\', '\\']);
    assert(escape(seq!['\n']) =~= seq!['\\', 'n']);
    assert(escape(seq!['\x01']) =~= seq!['\\', 'u', '0', '0', '0', '1']);
    if is_plain_char(c) {
        assert(escape(seq![c]) =~= seq![c]);
    }
}

/// Renders the JSON object `{key: value}` in compact form through
/// `serde_json`: builds a `serde_json::Value::Object` with the one entry and
/// formats it with `Value`'s `Display`. The contract states serde_json's
/// compact output: `{`, the key as a string literal, `:`, the value, `}`,
/// with string contents escaped as serde_json's `ESCAPE` table does (quote,
/// backslash and bytes below 0x20; short forms for `\b \t \n \f \r`,
/// `\u00xx` with lower-case hex digits otherwise).
#[verifier::external_body]
pub(crate) fn render_single_entry_object(key: &str, value: &JsonScalar) -> (out: String)
    ensures
        out@ == single_entry_object(key@, value@),
{
    let v = match value {
        JsonScalar::Str(s) => serde_json::Value::String(s.clone()),
        JsonScalar::Bool(b) => serde_json::Value::Bool(*b),
    };
    let mut map = serde_json::Map::new();
    map.insert(key.to_string(), v);
    serde_json::Value::Object(map).to_string()
}

} // verus!
