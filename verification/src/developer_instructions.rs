//! Developer instructions that a session's metadata asks to append to the
//! back end's configured ones.

use vstd::prelude::*;
use crate::json::{
    lemma_lookup_empty, lemma_lookup_push, entries_model, items_model, lemma_items_model, lookup, object_get, opt_model, opt_view, Json,
    JsonValue,
};
use crate::text::{
    char_len, lemma_trim_fixed, lemma_trim_idempotent, to_owned, trim, trim_end, trim_end_spec,
    trim_spec, unicode_white_space,
};

verus! {

/// Blank line that separates instruction blocks.
pub open spec fn separator() -> Seq<char> {
    seq!['\n', '\n']
}

/// Characters of each string, in order.
pub open spec fn views(parts: Seq<String>) -> Seq<Seq<char>> {
    parts.map_values(|p: String| p@)
}

/// `parts` joined with `sep` between neighbours.
pub open spec fn join(parts: Seq<Seq<char>>, sep: Seq<char>) -> Seq<char>
    decreases parts.len(),
{
    if parts.len() == 0 {
        Seq::empty()
    } else if parts.len() == 1 {
        parts[0]
    } else {
        join(parts.drop_last(), sep) + sep + parts.last()
    }
}

/// The trimmed text as a part, when anything is left of it.
pub open spec fn trimmed_part(text: Seq<char>) -> Seq<Seq<char>> {
    if trim_spec(text).len() > 0 {
        seq![trim_spec(text)]
    } else {
        Seq::empty()
    }
}

/// Part contributed by one element of an array of texts.
pub open spec fn item_part(item: Json) -> Seq<Seq<char>> {
    match item {
        Json::Str(t) => trimmed_part(t),
        _ => Seq::empty(),
    }
}

/// Parts contributed by the string elements of an array.
pub open spec fn array_parts(items: Seq<Json>) -> Seq<Seq<char>>
    decreases items.len(),
{
    if items.len() == 0 {
        Seq::empty()
    } else {
        array_parts(items.drop_last()) + item_part(items.last())
    }
}

/// Parts contributed by a value that holds text: a string, or an array whose
/// string elements count.
pub open spec fn text_parts(value: Option<Json>) -> Seq<Seq<char>> {
    match value {
        Some(Json::Str(t)) => trimmed_part(t),
        Some(Json::Array(items)) => array_parts(items),
        _ => Seq::empty(),
    }
}

/// Parts contributed by a `systemPrompt` entry: a string, or an object whose
/// `append` and `appendDeveloperInstructions` entries hold text.
pub open spec fn system_prompt_parts(value: Option<Json>) -> Seq<Seq<char>> {
    match value {
        Some(Json::Str(_)) => text_parts(value),
        Some(Json::Object(o)) => text_parts(lookup(o, "append"@)) + text_parts(
            lookup(o, "appendDeveloperInstructions"@),
        ),
        _ => Seq::empty(),
    }
}

/// All parts that session metadata contributes, in the order they are read.
pub open spec fn meta_parts(meta: Seq<(Seq<char>, Json)>) -> Seq<Seq<char>> {
    system_prompt_parts(lookup(meta, "systemPrompt"@)) + text_parts(
        lookup(meta, "appendDeveloperInstructions"@),
    ) + match lookup(meta, "codex"@) {
        Some(Json::Object(c)) => text_parts(lookup(c, "appendDeveloperInstructions"@)) + text_parts(
            lookup(c, "developerInstructions"@),
        ),
        _ => Seq::empty(),
    }
}

/// Model of optional session metadata.
pub open spec fn meta_model(meta: Option<&Vec<(String, JsonValue)>>) -> Option<
    Seq<(Seq<char>, Json)>,
> {
    match meta {
        Some(m) => Some(entries_model(m@)),
        None => None,
    }
}

/// The instructions that metadata asks for: its parts joined by blank lines,
/// or nothing when it has none.
pub open spec fn instructions_from_meta(meta: Option<Seq<(Seq<char>, Json)>>) -> Option<Seq<char>> {
    match meta {
        Some(m) => if meta_parts(m).len() == 0 {
            None
        } else {
            Some(join(meta_parts(m), separator()))
        },
        None => None,
    }
}

/// Configured instructions after appending `additional`: blank additions
/// change nothing; otherwise the addition (trimmed) follows the existing text
/// (without trailing white space) after a blank line, or replaces existing
/// text that is blank.
pub open spec fn append_spec(existing: Option<Seq<char>>, additional: Seq<char>) -> Option<Seq<char>> {
    let a = trim_spec(additional);
    if a.len() == 0 {
        existing
    } else {
        match existing {
            Some(e) => if trim_spec(e).len() > 0 {
                Some(trim_end_spec(e) + separator() + a)
            } else {
                Some(a)
            },
            None => Some(a),
        }
    }
}

/// A part that is not blank and has no white space at either end.
pub open spec fn clean_part(p: Seq<char>) -> bool {
    p.len() > 0 && !unicode_white_space(p[0]) && !unicode_white_space(p.last())
}

pub open spec fn all_clean(parts: Seq<Seq<char>>) -> bool {
    forall|i: int| 0 <= i < parts.len() ==> clean_part(#[trigger] parts[i])
}

proof fn lemma_all_clean_concat(a: Seq<Seq<char>>, b: Seq<Seq<char>>)
    requires
        all_clean(a),
        all_clean(b),
    ensures
        all_clean(a + b),
{
    assert forall|i: int| 0 <= i < (a + b).len() implies clean_part(#[trigger] (a + b)[i]) by {
        if i < a.len() {
            assert((a + b)[i] == a[i]);
        } else {
            assert((a + b)[i] == b[i - a.len()]);
        }
    }
}

proof fn lemma_trimmed_part_clean(text: Seq<char>)
    ensures
        all_clean(trimmed_part(text)),
{
    lemma_trim_idempotent(text);
}

proof fn lemma_array_parts_clean(items: Seq<Json>)
    ensures
        all_clean(array_parts(items)),
    decreases items.len(),
{
    if items.len() > 0 {
        lemma_array_parts_clean(items.drop_last());
        if let Json::Str(t) = items.last() {
            lemma_trimmed_part_clean(t);
        }
        lemma_all_clean_concat(array_parts(items.drop_last()), item_part(items.last()));
    }
}

proof fn lemma_text_parts_clean(value: Option<Json>)
    ensures
        all_clean(text_parts(value)),
{
    match value {
        Some(Json::Str(t)) => lemma_trimmed_part_clean(t),
        Some(Json::Array(items)) => lemma_array_parts_clean(items),
        _ => {},
    }
}

proof fn lemma_meta_parts_clean(meta: Seq<(Seq<char>, Json)>)
    ensures
        all_clean(meta_parts(meta)),
{
    let sp = lookup(meta, "systemPrompt"@);
    lemma_text_parts_clean(sp);
    if let Some(Json::Object(o)) = sp {
        lemma_text_parts_clean(lookup(o, "append"@));
        lemma_text_parts_clean(lookup(o, "appendDeveloperInstructions"@));
        lemma_all_clean_concat(
            text_parts(lookup(o, "append"@)),
            text_parts(lookup(o, "appendDeveloperInstructions"@)),
        );
    }
    let top = text_parts(lookup(meta, "appendDeveloperInstructions"@));
    lemma_text_parts_clean(lookup(meta, "appendDeveloperInstructions"@));
    lemma_all_clean_concat(system_prompt_parts(sp), top);
    let codex_parts = match lookup(meta, "codex"@) {
        Some(Json::Object(c)) => text_parts(lookup(c, "appendDeveloperInstructions"@)) + text_parts(
            lookup(c, "developerInstructions"@),
        ),
        _ => Seq::empty(),
    };
    if let Some(Json::Object(c)) = lookup(meta, "codex"@) {
        lemma_text_parts_clean(lookup(c, "appendDeveloperInstructions"@));
        lemma_text_parts_clean(lookup(c, "developerInstructions"@));
        lemma_all_clean_concat(
            text_parts(lookup(c, "appendDeveloperInstructions"@)),
            text_parts(lookup(c, "developerInstructions"@)),
        );
    }
    lemma_all_clean_concat(system_prompt_parts(sp) + top, codex_parts);
}

proof fn lemma_join_ends(parts: Seq<Seq<char>>, sep: Seq<char>)
    requires
        parts.len() > 0,
        all_clean(parts),
    ensures
        join(parts, sep).len() > 0,
        join(parts, sep)[0] == parts[0][0],
        join(parts, sep).last() == parts.last().last(),
    decreases parts.len(),
{
    if parts.len() > 1 {
        let init = parts.drop_last();
        assert(all_clean(init)) by {
            assert forall|i: int| 0 <= i < init.len() implies clean_part(#[trigger] init[i]) by {
                assert(init[i] == parts[i]);
            }
        }
        lemma_join_ends(init, sep);
        assert(clean_part(parts[parts.len() - 1]));
    } else {
        assert(clean_part(parts[0]));
    }
}

/// Instructions taken from session metadata are never blank and have no white
/// space at either end: every part is trimmed and non-empty, and parts are
/// joined by blank lines.
pub proof fn lemma_instructions_from_meta_are_trimmed(meta: Seq<(Seq<char>, Json)>)
    ensures
        instructions_from_meta(Some(meta)) matches Some(t) ==> t.len() > 0 && trim_spec(t) == t,
{
    let parts = meta_parts(meta);
    if parts.len() > 0 {
        lemma_meta_parts_clean(meta);
        lemma_join_ends(parts, separator());
        assert(clean_part(parts[0]));
        assert(clean_part(parts[parts.len() - 1]));
        lemma_trim_fixed(join(parts, separator()));
    }
}

/// Lengths of the metadata keys, which tell them apart.
pub proof fn lemma_meta_keys()
    ensures
        "systemPrompt"@.len() == 12,
        "appendDeveloperInstructions"@.len() == 27,
        "codex"@.len() == 5,
        "append"@.len() == 6,
        "developerInstructions"@.len() == 21,
{
    reveal_strlit("systemPrompt");
    reveal_strlit("appendDeveloperInstructions");
    reveal_strlit("codex");
    reveal_strlit("append");
    reveal_strlit("developerInstructions");
}

/// Every place that holds instruction text reads it the same way (a string,
/// or an array of strings, as `text_parts` reads it): the top-level
/// `appendDeveloperInstructions`, `codex.appendDeveloperInstructions`,
/// `codex.developerInstructions`, `systemPrompt.append` and
/// `systemPrompt.appendDeveloperInstructions`; a `systemPrompt` that is itself
/// a string is read as text too.
pub proof fn lemma_instruction_locations(v: Json)
    ensures
        meta_parts(seq![("appendDeveloperInstructions"@, v)]) == text_parts(Some(v)),
        meta_parts(seq![("codex"@, Json::Object(seq![("appendDeveloperInstructions"@, v)]))])
            == text_parts(Some(v)),
        meta_parts(seq![("codex"@, Json::Object(seq![("developerInstructions"@, v)]))])
            == text_parts(Some(v)),
        meta_parts(seq![("systemPrompt"@, Json::Object(seq![("append"@, v)]))]) == text_parts(
            Some(v),
        ),
        meta_parts(seq![("systemPrompt"@, Json::Object(seq![("appendDeveloperInstructions"@, v)]))])
            == text_parts(Some(v)),
        v is Str ==> meta_parts(seq![("systemPrompt"@, v)]) == text_parts(Some(v)),
{
    broadcast use lemma_lookup_push, lemma_lookup_empty;

    lemma_meta_keys();
    let e = Seq::<Seq<char>>::empty();
    assert(e + text_parts(Some(v)) + e =~= text_parts(Some(v)));
    assert(e + e + (text_parts(Some(v)) + e) =~= text_parts(Some(v)));
    assert(e + e + (e + text_parts(Some(v))) =~= text_parts(Some(v)));
    assert(text_parts(Some(v)) + e + e =~= text_parts(Some(v)));
    assert((text_parts(Some(v)) + e) + e + e =~= text_parts(Some(v)));
    assert((e + text_parts(Some(v))) + e + e =~= text_parts(Some(v)));
}

/// Instructions are gathered in a fixed order, whatever the order of the
/// metadata's keys: `systemPrompt.append`, `systemPrompt.appendDeveloperInstructions`,
/// the top-level `appendDeveloperInstructions`, `codex.appendDeveloperInstructions`,
/// then `codex.developerInstructions`.
pub proof fn lemma_instruction_order(a: Json, b: Json, c: Json, d: Json, e: Json)
    ensures
        ({
            let sp = Json::Object(seq![("append"@, a), ("appendDeveloperInstructions"@, b)]);
            let cx = Json::Object(seq![("appendDeveloperInstructions"@, d), ("developerInstructions"@, e)]);
            let expected = text_parts(Some(a)) + text_parts(Some(b)) + text_parts(Some(c))
                + text_parts(Some(d)) + text_parts(Some(e));
            &&& meta_parts(
                seq![("systemPrompt"@, sp), ("appendDeveloperInstructions"@, c), ("codex"@, cx)],
            ) == expected
            &&& meta_parts(
                seq![("codex"@, cx), ("appendDeveloperInstructions"@, c), ("systemPrompt"@, sp)],
            ) == expected
        }),
{
    broadcast use lemma_lookup_push, lemma_lookup_empty;

    lemma_meta_keys();
    let sp = Json::Object(seq![("append"@, a), ("appendDeveloperInstructions"@, b)]);
    let cx = Json::Object(seq![("appendDeveloperInstructions"@, d), ("developerInstructions"@, e)]);
    let m1 = seq![("systemPrompt"@, sp), ("appendDeveloperInstructions"@, c), ("codex"@, cx)];
    let m2 = seq![("codex"@, cx), ("appendDeveloperInstructions"@, c), ("systemPrompt"@, sp)];
    let spe = seq![("append"@, a), ("appendDeveloperInstructions"@, b)];
    let cxe = seq![("appendDeveloperInstructions"@, d), ("developerInstructions"@, e)];
    assert(m1 =~= Seq::empty().push(("systemPrompt"@, sp)).push(("appendDeveloperInstructions"@, c)).push(("codex"@, cx)));
    assert(m2 =~= Seq::empty().push(("codex"@, cx)).push(("appendDeveloperInstructions"@, c)).push(("systemPrompt"@, sp)));
    assert(spe =~= Seq::empty().push(("append"@, a)).push(("appendDeveloperInstructions"@, b)));
    assert(cxe =~= Seq::empty().push(("appendDeveloperInstructions"@, d)).push(("developerInstructions"@, e)));
    let ta = text_parts(Some(a));
    let tb = text_parts(Some(b));
    let tc = text_parts(Some(c));
    let td = text_parts(Some(d));
    let te = text_parts(Some(e));
    assert((ta + tb) + tc + (td + te) =~= ta + tb + tc + td + te);
}

/// How text is read: a string gives its trimmed text unless that is blank; an
/// array gives, in order, what its string elements give and nothing for its
/// other elements; any other value (or none) gives nothing.
pub proof fn lemma_text_parts_reading(t: Seq<char>, items: Seq<Json>, x: Json, other: Json)
    ensures
        text_parts(Some(Json::Str(t))) == (if trim_spec(t).len() > 0 {
            seq![trim_spec(t)]
        } else {
            Seq::<Seq<char>>::empty()
        }),
        text_parts(Some(Json::Array(Seq::empty()))) == Seq::<Seq<char>>::empty(),
        text_parts(Some(Json::Array(items.push(x)))) == text_parts(Some(Json::Array(items))) + (
        if x is Str {
            text_parts(Some(x))
        } else {
            Seq::<Seq<char>>::empty()
        }),
        !(other is Str) && !(other is Array) ==> text_parts(Some(other)) == Seq::<
            Seq<char>,
        >::empty(),
        text_parts(None) == Seq::<Seq<char>>::empty(),
{
    assert(items.push(x).drop_last() =~= items);
}

/// Metadata asks for nothing when it holds no text, and otherwise for all its
/// parts joined by blank lines: one part is itself, and each further part
/// follows the ones before after a blank line.
pub proof fn lemma_instructions_join(meta: Seq<(Seq<char>, Json)>, parts: Seq<Seq<char>>, a: Seq<char>, b: Seq<char>)
    ensures
        instructions_from_meta(None) is None,
        instructions_from_meta(Some(meta)) == (if meta_parts(meta).len() == 0 {
            None
        } else {
            Some(join(meta_parts(meta), seq!['\n', '\n']))
        }),
        join(seq![a], seq!['\n', '\n']) == a,
        parts.len() > 0 ==> join(parts.push(b), seq!['\n', '\n']) == join(parts, seq!['\n', '\n'])
            + seq!['\n', '\n'] + b,
{
    assert(parts.push(b).drop_last() =~= parts);
    assert(separator() =~= seq!['\n', '\n']);
}

/// Appending blank text keeps the configured instructions as they are.
pub proof fn lemma_blank_addition_keeps_instructions(existing: Option<Seq<char>>, additional: Seq<char>)
    requires
        trim_spec(additional).len() == 0,
    ensures
        append_spec(existing, additional) == existing,
{
}

/// Appending text that is not blank always gives instructions that end with
/// the trimmed addition; when the existing instructions are not blank, they
/// come first (without trailing white space), followed by a blank line.
pub proof fn lemma_addition_comes_last(existing: Option<Seq<char>>, additional: Seq<char>)
    requires
        trim_spec(additional).len() > 0,
    ensures
        append_spec(existing, additional) matches Some(t) && trim_spec(additional).is_suffix_of(t),
        match existing {
            Some(e) => trim_spec(e).len() > 0 ==> append_spec(existing, additional) == Some(
                trim_end_spec(e) + seq!['\n', '\n'] + trim_spec(additional),
            ),
            None => true,
        },
{
    let a = trim_spec(additional);
    assert(separator() =~= seq!['\n', '\n']);
    match existing {
        Some(e) => {
            if trim_spec(e).len() > 0 {
                let t = trim_end_spec(e) + separator() + a;
                assert(t.subrange(t.len() - a.len(), t.len() as int) =~= a);
            } else {
                assert(a.subrange(0, a.len() as int) =~= a);
            }
        },
        None => {
            assert(a.subrange(0, a.len() as int) =~= a);
        },
    }
}

/// Appends `additional` to the existing developer instructions.
pub fn append_developer_instructions(existing: Option<String>, additional: &str) -> (r: Option<
    String,
>)
    ensures
        opt_view(r) == append_spec(opt_view(existing), additional@),
{
    let additional = trim(additional);
    if char_len(additional) == 0 {
        return existing;
    }
    match existing {
        Some(existing) => {
            if char_len(trim(existing.as_str())) > 0 {
                let mut r = to_owned(trim_end(existing.as_str()));
                let sep = "\n\n";
                proof {
                    reveal_strlit("\n\n");
                }
                assert(sep@ =~= separator());
                r.append(sep);
                r.append(additional);
                Some(r)
            } else {
                Some(to_owned(additional))
            }
        },
        None => Some(to_owned(additional)),
    }
}

proof fn lemma_views_push(parts: Seq<String>, p: String)
    ensures
        views(parts.push(p)) == views(parts).push(p@),
{
    assert(views(parts.push(p)) =~= views(parts).push(p@));
}

/// Pushes the trimmed text onto `parts` unless nothing is left of it.
pub fn push_trimmed(text: &str, parts: &mut Vec<String>)
    ensures
        views(final(parts)@) == views(old(parts)@) + trimmed_part(text@),
{
    let t = trim(text);
    if char_len(t) > 0 {
        let ghost before = parts@;
        parts.push(to_owned(t));
        proof {
            lemma_views_push(before, parts@.last());
            assert(views(parts@) =~= views(before) + trimmed_part(text@));
        }
    } else {
        assert(views(parts@) =~= views(parts@) + trimmed_part(text@));
    }
}

/// Collects the text of a string value, or of the string elements of an array.
pub fn collect_text_value(value: Option<&JsonValue>, parts: &mut Vec<String>)
    ensures
        views(final(parts)@) == views(old(parts)@) + text_parts(opt_model(value)),
{
    match value {
        Some(JsonValue::String(text)) => push_trimmed(text.as_str(), parts),
        Some(JsonValue::Array(values)) => {
            let ghost start = views(parts@);
            let ghost m = items_model(values@);
            proof {
                lemma_items_model(values@);
                assert(m.take(0) =~= Seq::<Json>::empty());
                assert(views(parts@) =~= start + array_parts(m.take(0)));
            }
            let n = values.len();
            let mut i: usize = 0;
            while i < n
                invariant
                    n == values@.len(),
                    m == items_model(values@),
                    m.len() == n,
                    forall|k: int| 0 <= k < n ==> #[trigger] m[k] == values@[k]@,
                    i <= n,
                    views(parts@) == start + array_parts(m.take(i as int)),
                decreases n - i,
            {
                assert(m.take(i + 1).drop_last() =~= m.take(i as int));
                if let JsonValue::String(text) = &values[i] {
                    push_trimmed(text.as_str(), parts);
                } else {
                    assert(item_part(m[i as int]) =~= Seq::<Seq<char>>::empty());
                }
                assert(views(parts@) =~= start + array_parts(m.take(i + 1)));
                i = i + 1;
            }
            assert(m.take(n as int) =~= m);
        },
        _ => {
            assert(views(parts@) =~= views(parts@) + text_parts(opt_model(value)));
        },
    }
}

/// Collects a `systemPrompt` entry: its text when it is a string, or the text
/// under `append` and `appendDeveloperInstructions` when it is an object.
pub fn collect_system_prompt_append(value: Option<&JsonValue>, parts: &mut Vec<String>)
    ensures
        views(final(parts)@) == views(old(parts)@) + system_prompt_parts(opt_model(value)),
{
    match value {
        Some(JsonValue::String(_)) => collect_text_value(value, parts),
        Some(JsonValue::Object(object)) => {
            let ghost start = views(parts@);
            collect_text_value(object_get(object, "append"), parts);
            collect_text_value(object_get(object, "appendDeveloperInstructions"), parts);
            assert(views(parts@) =~= start + system_prompt_parts(opt_model(value)));
        },
        _ => {
            assert(views(parts@) =~= views(parts@) + system_prompt_parts(opt_model(value)));
        },
    }
}

/// `parts` joined with blank lines.
pub fn join_parts(parts: &Vec<String>) -> (r: String)
    ensures
        r@ == join(views(parts@), separator()),
{
    let ghost v = views(parts@);
    let sep = "\n\n";
    proof {
        reveal_strlit("\n\n");
    }
    assert(sep@ =~= separator());
    let mut r = String::new();
    let n = parts.len();
    let mut i: usize = 0;
    assert(v.take(0) =~= Seq::<Seq<char>>::empty());
    while i < n
        invariant
            n == parts@.len(),
            v == views(parts@),
            sep@ == separator(),
            i <= n,
            r@ == join(v.take(i as int), separator()),
        decreases n - i,
    {
        assert(v.take(i + 1).drop_last() =~= v.take(i as int));
        if i > 0 {
            r.append(sep);
        } else {
            assert(v.take(1) =~= seq![v[0]]);
        }
        r.append(parts[i].as_str());
        i = i + 1;
    }
    assert(v.take(n as int) =~= v);
    r
}

/// The developer instructions that session metadata asks for.
pub fn developer_instructions_from_session_meta(meta: Option<&Vec<(String, JsonValue)>>) -> (r:
    Option<String>)
    ensures
        opt_view(r) == instructions_from_meta(meta_model(meta)),
{
    let meta = match meta {
        Some(m) => m,
        None => return None,
    };
    let mut parts: Vec<String> = Vec::new();
    assert(views(parts@) =~= Seq::<Seq<char>>::empty());
    collect_system_prompt_append(object_get(meta, "systemPrompt"), &mut parts);
    collect_text_value(object_get(meta, "appendDeveloperInstructions"), &mut parts);
    let ghost before_codex = views(parts@);
    match object_get(meta, "codex") {
        Some(JsonValue::Object(codex_meta)) => {
            collect_text_value(object_get(codex_meta, "appendDeveloperInstructions"), &mut parts);
            collect_text_value(object_get(codex_meta, "developerInstructions"), &mut parts);
        },
        _ => {},
    }
    assert(views(parts@) =~= meta_parts(entries_model(meta@)));
    if parts.len() == 0 {
        None
    } else {
        Some(join_parts(&parts))
    }
}

/// Appends what session metadata asks for to the configured developer
/// instructions; metadata that asks for nothing leaves them unchanged.
pub fn apply_session_meta_developer_instructions(
    developer_instructions: &mut Option<String>,
    meta: Option<&Vec<(String, JsonValue)>>,
)
    ensures
        opt_view(*final(developer_instructions)) == match instructions_from_meta(meta_model(meta)) {
            Some(i) => append_spec(opt_view(*old(developer_instructions)), i),
            None => opt_view(*old(developer_instructions)),
        },
{
    let instructions = match developer_instructions_from_session_meta(meta) {
        Some(i) => i,
        None => return,
    };
    let existing = developer_instructions.take();
    *developer_instructions = append_developer_instructions(existing, instructions.as_str());
}

} // verus!
