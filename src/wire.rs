use vstd::prelude::*;
use vstd::string::StringExecFns;
use crate::contract::Request;

verus! {

/// Lower-case hexadecimal digits.
pub open spec fn hex_digits() -> Seq<char> {
    seq!['0', '1', '2', '3', '4', '5', '6', '7', '8', '9', 'a', 'b', 'c', 'd', 'e', 'f']
}

/// How one character is written inside a JSON string literal: quote and
/// backslash get a backslash, the control characters with a short form use it,
/// the other control characters are written `\u00xx`, and everything else is
/// kept.
pub open spec fn escape_char(c: char) -> Seq<char> {
    if c == '"' {
        seq!['\\', '"']
    } else if c == '\\' {
        seq!['\\', '\\']
    } else if c == '\u{8}' {
        seq!['\\', 'b']
    } else if c == '\t' {
        seq!['\\', 't']
    } else if c == '\n' {
        seq!['\\', 'n']
    } else if c == '\u{c}' {
        seq!['\\', 'f']
    } else if c == '\r' {
        seq!['\\', 'r']
    } else if (c as u32) < 0x20 {
        seq![
            '\\',
            'u',
            '0',
            '0',
            hex_digits()[(c as u32) as int / 16],
            hex_digits()[(c as u32) as int % 16],
        ]
    } else {
        seq![c]
    }
}

/// The escaped contents of a JSON string literal.
pub open spec fn escaped(s: Seq<char>) -> Seq<char>
    decreases s.len(),
{
    if s.len() == 0 {
        Seq::empty()
    } else {
        escape_char(s[0]) + escaped(s.drop_first())
    }
}

/// The JSON string literal that serde_json writes for `s`.
pub open spec fn json_string_of(s: Seq<char>) -> Seq<char> {
    seq!['"'] + escaped(s) + seq!['"']
}

#[verifier::external_type_specification]
#[verifier::external_body]
pub struct ExJsonError(serde_json::Error);

/// Relies on serde_json::to_string applied to a string slice: serialize_str
/// writes the literal with format_escaped_str, whose ESCAPE table and
/// write_char_escape give exactly `json_string_of`, into a Vec, whose writes
/// never fail, so the result is always Ok.
#[verifier::external_body]
fn json_quote(s: &str) -> (r: Result<String, serde_json::Error>)
    ensures
        r is Ok,
        r matches Ok(t) ==> t@ == json_string_of(s@),
{
    serde_json::to_string(s)
}

/// Different characters escape to texts neither of which starts the other, so
/// the escape of the first character of a text is read back unambiguously.
pub proof fn lemma_escape_char_injective(c: char, d: char, u: Seq<char>, v: Seq<char>)
    requires
        escape_char(c) + u == escape_char(d) + v,
    ensures
        c == d,
        u == v,
{
    let e = escape_char(c);
    let f = escape_char(d);
    assert((e + u)[0] == e[0]);
    assert((f + v)[0] == f[0]);
    if e[0] == '\\' {
        assert((e + u)[1] == e[1]);
        assert((f + v)[1] == f[1]);
        if e[1] == 'u' {
            assert((e + u)[4] == e[4]);
            assert((f + v)[4] == f[4]);
            assert((e + u)[5] == e[5]);
            assert((f + v)[5] == f[5]);
            let hd = hex_digits();
            assert(forall|i: int, j: int| 0 <= i < 16 && 0 <= j < 16 && hd[i] == hd[j] ==> i == j);
            assert((c as u32) as int / 16 == (d as u32) as int / 16);
            assert((c as u32) as int % 16 == (d as u32) as int % 16);
            assert(c as u32 == d as u32);
        }
    }
    assert(e == f);
    assert(u =~= (e + u).subrange(e.len() as int, (e + u).len() as int));
    assert(v =~= (f + v).subrange(f.len() as int, (f + v).len() as int));
}

/// The escaped contents of a string end at the first quote that follows them:
/// a string literal is read back unambiguously from the front of a text.
pub proof fn lemma_escaped_prefix_free(a: Seq<char>, b: Seq<char>, x: Seq<char>, y: Seq<char>)
    requires
        escaped(a) + (seq!['"'] + x) == escaped(b) + (seq!['"'] + y),
    ensures
        a == b,
        x == y,
    decreases a.len(),
{
    let q = seq!['"'];
    if a.len() == 0 && b.len() == 0 {
        assert(escaped(a) + (q + x) =~= q + x);
        assert(escaped(b) + (q + y) =~= q + y);
        assert(x =~= (q + x).drop_first());
        assert(y =~= (q + y).drop_first());
        assert(a =~= b);
    } else if a.len() == 0 {
        let f = escape_char(b[0]);
        assert(escaped(a) + (q + x) =~= q + x);
        assert(escaped(b) + (q + y) =~= f + (escaped(b.drop_first()) + (q + y)));
        assert((q + x)[0] == '"');
        assert((f + (escaped(b.drop_first()) + (q + y)))[0] == f[0]);
    } else if b.len() == 0 {
        let e = escape_char(a[0]);
        assert(escaped(b) + (q + y) =~= q + y);
        assert(escaped(a) + (q + x) =~= e + (escaped(a.drop_first()) + (q + x)));
        assert((q + y)[0] == '"');
        assert((e + (escaped(a.drop_first()) + (q + x)))[0] == e[0]);
    } else {
        let e = escape_char(a[0]);
        let f = escape_char(b[0]);
        let ra = escaped(a.drop_first()) + (q + x);
        let rb = escaped(b.drop_first()) + (q + y);
        assert(escaped(a) + (q + x) =~= e + ra);
        assert(escaped(b) + (q + y) =~= f + rb);
        lemma_escape_char_injective(a[0], b[0], ra, rb);
        lemma_escaped_prefix_free(a.drop_first(), b.drop_first(), x, y);
        assert(a =~= seq![a[0]] + a.drop_first());
        assert(b =~= seq![b[0]] + b.drop_first());
    }
}

/// A JSON string literal is read back unambiguously from the front of a text:
/// equal texts that start with string literals start with the same one.
pub proof fn lemma_json_string_prefix_free(a: Seq<char>, b: Seq<char>, x: Seq<char>, y: Seq<char>)
    requires
        json_string_of(a) + x == json_string_of(b) + y,
    ensures
        a == b,
        x == y,
{
    let q = seq!['"'];
    assert(json_string_of(a) + x =~= q + (escaped(a) + (q + x)));
    assert(json_string_of(b) + y =~= q + (escaped(b) + (q + y)));
    assert(escaped(a) + (q + x) =~= (json_string_of(a) + x).drop_first());
    assert(escaped(b) + (q + y) =~= (json_string_of(b) + y).drop_first());
    lemma_escaped_prefix_free(a, b, x, y);
}

/// Each item as a comma followed by its JSON string literal.
pub open spec fn json_rest(items: Seq<String>) -> Seq<char>
    decreases items.len(),
{
    if items.len() == 0 {
        Seq::empty()
    } else {
        ","@ + json_string_of(items[0]@) + json_rest(items.drop_first())
    }
}

/// The items as comma-separated JSON string literals.
pub open spec fn json_items(items: Seq<String>) -> Seq<char> {
    if items.len() == 0 {
        Seq::empty()
    } else {
        json_string_of(items[0]@) + json_rest(items.drop_first())
    }
}

/// A JSON array of string literals, in the order given.
pub open spec fn json_array_of(items: Seq<String>) -> Seq<char> {
    "["@ + json_items(items) + "]"@
}

proof fn lemma_json_rest_push(s: Seq<String>, e: String)
    ensures
        json_rest(s.push(e)) == json_rest(s) + ","@ + json_string_of(e@),
    decreases s.len(),
{
    if s.len() == 0 {
        assert(s.push(e).drop_first() =~= Seq::<String>::empty());
        assert(json_rest(s.push(e).drop_first()) == Seq::<char>::empty());
        assert(s.push(e)[0] == e);
        assert(json_rest(s) == Seq::<char>::empty());
        assert(json_rest(s.push(e)) =~= json_rest(s) + ","@ + json_string_of(e@));
    } else {
        assert(s.push(e).drop_first() =~= s.drop_first().push(e));
        lemma_json_rest_push(s.drop_first(), e);
        assert(json_rest(s.push(e)) =~= json_rest(s) + ","@ + json_string_of(e@));
    }
}

proof fn lemma_json_items_push(s: Seq<String>, e: String)
    ensures
        s.len() == 0 ==> json_items(s.push(e)) == json_string_of(e@),
        s.len() > 0 ==> json_items(s.push(e)) == json_items(s) + ","@ + json_string_of(e@),
{
    if s.len() == 0 {
        assert(s.push(e).drop_first() =~= Seq::<String>::empty());
        assert(json_items(s.push(e)) =~= json_string_of(e@));
    } else {
        assert(s.push(e).drop_first() =~= s.drop_first().push(e));
        lemma_json_rest_push(s.drop_first(), e);
        assert(json_items(s.push(e)) =~= json_items(s) + ","@ + json_string_of(e@));
    }
}

/// Equal texts that start with the same text agree after it.
proof fn lemma_strip_front(l: Seq<char>, x: Seq<char>, y: Seq<char>)
    requires
        l + x == l + y,
    ensures
        x == y,
{
    assert(x =~= (l + x).subrange(l.len() as int, (l + x).len() as int));
    assert(y =~= (l + y).subrange(l.len() as int, (l + y).len() as int));
}

/// The items after the first of an array, and the closing bracket, are read
/// back unambiguously.
proof fn lemma_json_rest_prefix_free(a: Seq<String>, b: Seq<String>, x: Seq<char>, y: Seq<char>)
    requires
        json_rest(a) + ("]"@ + x) == json_rest(b) + ("]"@ + y),
    ensures
        a.len() == b.len(),
        forall|i: int| 0 <= i < a.len() ==> (#[trigger] a[i])@ == b[i]@,
        x == y,
    decreases a.len(),
{
    reveal_strlit("]");
    reveal_strlit(",");
    if a.len() == 0 && b.len() == 0 {
        assert(json_rest(a) + ("]"@ + x) =~= "]"@ + x);
        assert(json_rest(b) + ("]"@ + y) =~= "]"@ + y);
        lemma_strip_front("]"@, x, y);
    } else if a.len() == 0 {
        assert(json_rest(a) + ("]"@ + x) =~= "]"@ + x);
        assert((json_rest(b) + ("]"@ + y))[0] == ',');
        assert(("]"@ + x)[0] == ']');
    } else if b.len() == 0 {
        assert(json_rest(b) + ("]"@ + y) =~= "]"@ + y);
        assert((json_rest(a) + ("]"@ + x))[0] == ',');
        assert(("]"@ + y)[0] == ']');
    } else {
        let ra = json_rest(a.drop_first()) + ("]"@ + x);
        let rb = json_rest(b.drop_first()) + ("]"@ + y);
        assert(json_rest(a) + ("]"@ + x) =~= ","@ + (json_string_of(a[0]@) + ra));
        assert(json_rest(b) + ("]"@ + y) =~= ","@ + (json_string_of(b[0]@) + rb));
        lemma_strip_front(","@, json_string_of(a[0]@) + ra, json_string_of(b[0]@) + rb);
        lemma_json_string_prefix_free(a[0]@, b[0]@, ra, rb);
        lemma_json_rest_prefix_free(a.drop_first(), b.drop_first(), x, y);
        assert forall|i: int| 0 <= i < a.len() implies (#[trigger] a[i])@ == b[i]@ by {
            if i > 0 {
                assert(a[i] == a.drop_first()[i - 1]);
                assert(b[i] == b.drop_first()[i - 1]);
            }
        }
    }
}

/// A JSON array of string literals is read back unambiguously from the front
/// of a text.
pub proof fn lemma_json_array_prefix_free(a: Seq<String>, b: Seq<String>, x: Seq<char>, y: Seq<char>)
    requires
        json_array_of(a) + x == json_array_of(b) + y,
    ensures
        a.len() == b.len(),
        forall|i: int| 0 <= i < a.len() ==> (#[trigger] a[i])@ == b[i]@,
        x == y,
{
    reveal_strlit("]");
    reveal_strlit("[");
    let xa = json_items(a) + ("]"@ + x);
    let yb = json_items(b) + ("]"@ + y);
    assert(json_array_of(a) + x =~= "["@ + xa);
    assert(json_array_of(b) + y =~= "["@ + yb);
    lemma_strip_front("["@, xa, yb);
    if a.len() == 0 && b.len() == 0 {
        assert(xa =~= "]"@ + x);
        assert(yb =~= "]"@ + y);
        lemma_strip_front("]"@, x, y);
    } else if a.len() == 0 {
        assert(xa =~= "]"@ + x);
        assert(yb =~= json_string_of(b[0]@) + (json_rest(b.drop_first()) + ("]"@ + y)));
        assert(xa[0] == ']');
    } else if b.len() == 0 {
        assert(yb =~= "]"@ + y);
        assert(xa =~= json_string_of(a[0]@) + (json_rest(a.drop_first()) + ("]"@ + x)));
        assert(yb[0] == ']');
    } else {
        let ra = json_rest(a.drop_first()) + ("]"@ + x);
        let rb = json_rest(b.drop_first()) + ("]"@ + y);
        assert(xa =~= json_string_of(a[0]@) + ra);
        assert(yb =~= json_string_of(b[0]@) + rb);
        lemma_json_string_prefix_free(a[0]@, b[0]@, ra, rb);
        lemma_json_rest_prefix_free(a.drop_first(), b.drop_first(), x, y);
        assert forall|i: int| 0 <= i < a.len() implies (#[trigger] a[i])@ == b[i]@ by {
            if i > 0 {
                assert(a[i] == a.drop_first()[i - 1]);
                assert(b[i] == b.drop_first()[i - 1]);
            }
        }
    }
}

/// The request document: one compact JSON object whose fields appear in
/// declaration order under their own names.
pub open spec fn request_document(r: Request) -> Seq<char> {
    "{\"text\":"@ + json_string_of(r.text@) + ",\"mode\":"@ + json_string_of(r.mode@)
        + ",\"strategy\":"@ + json_string_of(r.strategy@) + ",\"level\":"@ + json_string_of(
        r.level@,
    ) + ",\"enabled_categories\":"@ + json_array_of(r.enabled_categories@) + ",\"allowlist\":"@
        + json_array_of(r.allowlist@) + ",\"semantic_mode\":"@ + json_string_of(r.semantic_mode@)
        + "}"@
}

/// The `k`-th of the fifteen parts of the request document.
spec fn request_part(r: Request, k: int) -> Seq<char> {
    if k == 0 {
        "{\"text\":"@
    } else if k == 1 {
        json_string_of(r.text@)
    } else if k == 2 {
        ",\"mode\":"@
    } else if k == 3 {
        json_string_of(r.mode@)
    } else if k == 4 {
        ",\"strategy\":"@
    } else if k == 5 {
        json_string_of(r.strategy@)
    } else if k == 6 {
        ",\"level\":"@
    } else if k == 7 {
        json_string_of(r.level@)
    } else if k == 8 {
        ",\"enabled_categories\":"@
    } else if k == 9 {
        json_array_of(r.enabled_categories@)
    } else if k == 10 {
        ",\"allowlist\":"@
    } else if k == 11 {
        json_array_of(r.allowlist@)
    } else if k == 12 {
        ",\"semantic_mode\":"@
    } else if k == 13 {
        json_string_of(r.semantic_mode@)
    } else {
        "}"@
    }
}

/// The request document from its `k`-th part on.
spec fn document_from(r: Request, k: int) -> Seq<char>
    decreases 15 - k,
{
    if k >= 15 || k < 0 {
        Seq::empty()
    } else {
        request_part(r, k) + document_from(r, k + 1)
    }
}

/// The first `k` parts of the request document, for `k >= 1`.
spec fn document_upto(r: Request, k: int) -> Seq<char>
    decreases k,
{
    if k <= 1 {
        request_part(r, 0)
    } else {
        document_upto(r, k - 1) + request_part(r, k - 1)
    }
}

proof fn lemma_document_split(r: Request, k: int)
    requires
        1 <= k <= 15,
    ensures
        document_upto(r, k) + document_from(r, k) == document_from(r, 0),
    decreases k,
{
    if k == 1 {
        assert(document_from(r, 0) == request_part(r, 0) + document_from(r, 1));
    } else {
        lemma_document_split(r, k - 1);
        vstd::seq_lib::lemma_concat_associative(
            document_upto(r, k - 1),
            request_part(r, k - 1),
            document_from(r, k),
        );
    }
}

proof fn lemma_document_parts(r: Request)
    ensures
        request_document(r) == document_from(r, 0),
{
    lemma_document_split(r, 15);
    assert(document_from(r, 15) == Seq::<char>::empty());
    assert(document_upto(r, 15) + document_from(r, 15) =~= document_upto(r, 15));
    reveal_with_fuel(document_upto, 15);
    assert(request_document(r) == document_upto(r, 15));
}

/// Equal documents from part `k` on have equal parts from `k` on.
proof fn lemma_document_from_parts(a: Request, b: Request, k: int)
    requires
        0 <= k <= 15,
        document_from(a, k) == document_from(b, k),
    ensures
        forall|j: int| k <= j < 15 ==> request_part(a, j) == request_part(b, j),
    decreases 15 - k,
{
    if k < 15 {
        let ra = document_from(a, k + 1);
        let rb = document_from(b, k + 1);
        if k == 1 || k == 3 || k == 5 || k == 7 || k == 13 {
            let fa = if k == 1 {
                a.text@
            } else if k == 3 {
                a.mode@
            } else if k == 5 {
                a.strategy@
            } else if k == 7 {
                a.level@
            } else {
                a.semantic_mode@
            };
            let fb = if k == 1 {
                b.text@
            } else if k == 3 {
                b.mode@
            } else if k == 5 {
                b.strategy@
            } else if k == 7 {
                b.level@
            } else {
                b.semantic_mode@
            };
            lemma_json_string_prefix_free(fa, fb, ra, rb);
        } else if k == 9 || k == 11 {
            let ia = if k == 9 {
                a.enabled_categories@
            } else {
                a.allowlist@
            };
            let ib = if k == 9 {
                b.enabled_categories@
            } else {
                b.allowlist@
            };
            lemma_json_array_prefix_free(ia, ib, ra, rb);
            lemma_array_of_views(ia, ib);
        } else {
            lemma_strip_front(request_part(a, k), ra, rb);
        }
        lemma_document_from_parts(a, b, k + 1);
    }
}

/// Arrays of items with the same views are written alike.
proof fn lemma_array_of_views(a: Seq<String>, b: Seq<String>)
    requires
        a.len() == b.len(),
        forall|i: int| 0 <= i < a.len() ==> (#[trigger] a[i])@ == b[i]@,
    ensures
        json_array_of(a) == json_array_of(b),
{
    lemma_rest_of_views(a, b);
}

proof fn lemma_rest_of_views(a: Seq<String>, b: Seq<String>)
    requires
        a.len() == b.len(),
        forall|i: int| 0 <= i < a.len() ==> (#[trigger] a[i])@ == b[i]@,
    ensures
        json_rest(a) == json_rest(b),
        json_items(a) == json_items(b),
    decreases a.len(),
{
    if a.len() > 0 {
        assert forall|i: int| 0 <= i < a.len() - 1 implies (#[trigger] a.drop_first()[i])@
            == b.drop_first()[i]@ by {
            assert(a.drop_first()[i] == a[i + 1]);
            assert(b.drop_first()[i] == b[i + 1]);
        }
        lemma_rest_of_views(a.drop_first(), b.drop_first());
    }
}

/// Encoding a request loses nothing: two requests with the same document have
/// the same text, selectors, categories and allowlist, in the same order, so
/// parsing the document gives the request back.
pub proof fn law_request_encoding_lossless(a: Request, b: Request)
    requires
        request_document(a) == request_document(b),
    ensures
        a.text@ == b.text@,
        a.mode@ == b.mode@,
        a.strategy@ == b.strategy@,
        a.level@ == b.level@,
        a.enabled_categories@.len() == b.enabled_categories@.len(),
        forall|i: int|
            0 <= i < a.enabled_categories@.len() ==> (#[trigger] a.enabled_categories@[i])@
                == b.enabled_categories@[i]@,
        a.allowlist@.len() == b.allowlist@.len(),
        forall|i: int|
            0 <= i < a.allowlist@.len() ==> (#[trigger] a.allowlist@[i])@ == b.allowlist@[i]@,
        a.semantic_mode@ == b.semantic_mode@,
{
    lemma_document_parts(a);
    lemma_document_parts(b);
    lemma_document_from_parts(a, b, 0);
    let e = Seq::<char>::empty();
    assert(request_part(a, 1) == request_part(b, 1));
    assert(json_string_of(a.text@) + e =~= json_string_of(a.text@));
    assert(json_string_of(b.text@) + e =~= json_string_of(b.text@));
    lemma_json_string_prefix_free(a.text@, b.text@, e, e);
    assert(request_part(a, 3) == request_part(b, 3));
    assert(json_string_of(a.mode@) + e =~= json_string_of(a.mode@));
    assert(json_string_of(b.mode@) + e =~= json_string_of(b.mode@));
    lemma_json_string_prefix_free(a.mode@, b.mode@, e, e);
    assert(request_part(a, 5) == request_part(b, 5));
    assert(json_string_of(a.strategy@) + e =~= json_string_of(a.strategy@));
    assert(json_string_of(b.strategy@) + e =~= json_string_of(b.strategy@));
    lemma_json_string_prefix_free(a.strategy@, b.strategy@, e, e);
    assert(request_part(a, 7) == request_part(b, 7));
    assert(json_string_of(a.level@) + e =~= json_string_of(a.level@));
    assert(json_string_of(b.level@) + e =~= json_string_of(b.level@));
    lemma_json_string_prefix_free(a.level@, b.level@, e, e);
    assert(request_part(a, 13) == request_part(b, 13));
    assert(json_string_of(a.semantic_mode@) + e =~= json_string_of(a.semantic_mode@));
    assert(json_string_of(b.semantic_mode@) + e =~= json_string_of(b.semantic_mode@));
    lemma_json_string_prefix_free(a.semantic_mode@, b.semantic_mode@, e, e);
    assert(request_part(a, 9) == request_part(b, 9));
    assert(json_array_of(a.enabled_categories@) + e =~= json_array_of(a.enabled_categories@));
    assert(json_array_of(b.enabled_categories@) + e =~= json_array_of(b.enabled_categories@));
    lemma_json_array_prefix_free(a.enabled_categories@, b.enabled_categories@, e, e);
    assert(request_part(a, 11) == request_part(b, 11));
    assert(json_array_of(a.allowlist@) + e =~= json_array_of(a.allowlist@));
    assert(json_array_of(b.allowlist@) + e =~= json_array_of(b.allowlist@));
    lemma_json_array_prefix_free(a.allowlist@, b.allowlist@, e, e);
}

/// Appends the JSON string literal of `s` to `out`.
fn push_quoted(out: &mut String, s: &str)
    ensures
        final(out)@ == old(out)@ + json_string_of(s@),
{
    match json_quote(s) {
        Ok(t) => out.append(t.as_str()),
        Err(_) => {},
    }
}

/// Appends the JSON array of `items` to `out`.
fn push_array(out: &mut String, items: &Vec<String>)
    ensures
        final(out)@ == old(out)@ + json_array_of(items@),
{
    let ghost start = out@;
    out.append("[");
    assert(items@.take(0) =~= Seq::<String>::empty());
    let mut i: usize = 0;
    while i < items.len()
        invariant
            i <= items@.len(),
            out@ == start + "["@ + json_items(items@.take(i as int)),
        decreases items@.len() - i,
    {
        proof {
            assert(items@.take(i as int).push(items@[i as int]) =~= items@.take(i + 1));
            lemma_json_items_push(items@.take(i as int), items@[i as int]);
        }
        if i > 0 {
            out.append(",");
        }
        push_quoted(out, items[i].as_str());
        i = i + 1;
    }
    assert(items@.take(i as int) =~= items@);
    out.append("]");
}

/// Serializes a request into the single document sent to the engine.
pub fn encode_request(r: &Request) -> (doc: String)
    ensures
        doc@ == request_document(*r),
{
    let mut out = String::from_str("{\"text\":");
    push_quoted(&mut out, r.text.as_str());
    out.append(",\"mode\":");
    push_quoted(&mut out, r.mode.as_str());
    out.append(",\"strategy\":");
    push_quoted(&mut out, r.strategy.as_str());
    out.append(",\"level\":");
    push_quoted(&mut out, r.level.as_str());
    out.append(",\"enabled_categories\":");
    push_array(&mut out, &r.enabled_categories);
    out.append(",\"allowlist\":");
    push_array(&mut out, &r.allowlist);
    out.append(",\"semantic_mode\":");
    push_quoted(&mut out, r.semantic_mode.as_str());
    out.append("}");
    out
}

} // verus!
