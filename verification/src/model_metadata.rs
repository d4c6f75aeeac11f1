//! Model metadata supplied by the front end, checked and turned into the
//! overrides of a catalog entry, and merged into the model catalog.

use vstd::prelude::*;
use crate::text::{char_len, concat2, concat3, same_text, to_owned, trim, trim_spec};

verus! {

/// Environment variable that carries the model metadata.
pub const MODEL_METADATA_ENV: &'static str = "JAZ_CODEX_MODEL_METADATA";

/// Error given when the id is blank or the context window is not positive.
pub const REQUIRED_FIELDS_ERROR: &'static str = "id and a positive context_window are required";

/// Model metadata as the front end writes it (absent optional fields are
/// empty).
pub struct ModelMetadata {
    pub id: String,
    pub display_name: String,
    pub description: String,
    pub context_window: i64,
    pub input_modalities: Vec<String>,
    pub reasoning_efforts: Vec<String>,
    pub default_reasoning_effort: String,
}

/// An input the model accepts.
#[derive(PartialEq, Eq, Structural, Debug, Clone, Copy)]
pub enum InputModality {
    Text,
    Image,
}

/// Who sees a model in pickers.
#[derive(PartialEq, Eq, Structural, Debug, Clone, Copy)]
pub enum ModelVisibility {
    List,
}

/// A supported reasoning effort and its description.
pub struct ReasoningEffortPreset<E> {
    pub description: String,
    pub effort: E,
}

/// What the metadata sets on the catalog entry of model `slug`; the entry's
/// other fields come from the back end's defaults for that slug.
pub struct ModelOverrides<E> {
    pub slug: String,
    pub display_name: String,
    pub description: Option<String>,
    pub context_window: i64,
    pub max_context_window: i64,
    pub visibility: ModelVisibility,
    pub supported_reasoning_levels: Vec<ReasoningEffortPreset<E>>,
    pub default_reasoning_level: Option<E>,
    /// `None` keeps the default input modalities.
    pub input_modalities: Option<Vec<InputModality>>,
    pub used_fallback_model_metadata: bool,
}

/// `format!("{:?}", s)` for a string: its quoted, escaped debug rendering.
pub uninterp spec fn str_debug(s: Seq<char>) -> Seq<char>;

/// The debug rendering of `s` (`format!("{s:?}")` on `&str`): claimed to be
/// a function of the characters of `s` alone, named `str_debug`.
#[verifier::external_body]
fn debug_str(s: &str) -> (r: String)
    ensures
        r@ == str_debug(s@),
{
    format!("{s:?}")
}

/// The texts that name the requested reasoning efforts, trimmed; the back end
/// parses each of them.
pub fn reasoning_effort_inputs(metadata: &ModelMetadata) -> (r: Vec<String>)
    ensures
        r@.len() == metadata.reasoning_efforts@.len(),
        forall|i: int|
            0 <= i < r@.len() ==> #[trigger] r@[i]@ == trim_spec(
                metadata.reasoning_efforts@[i]@,
            ),
{
    let n = metadata.reasoning_efforts.len();
    let mut r: Vec<String> = Vec::new();
    let mut i: usize = 0;
    while i < n
        invariant
            n == metadata.reasoning_efforts@.len(),
            i <= n,
            r@.len() == i,
            forall|k: int|
                0 <= k < i ==> #[trigger] r@[k]@ == trim_spec(metadata.reasoning_efforts@[k]@),
        decreases n - i,
    {
        r.push(to_owned(trim(metadata.reasoning_efforts[i].as_str())));
        i = i + 1;
    }
    r
}

/// The text that names the default reasoning effort, trimmed; it is parsed
/// only when it is not empty.
pub fn default_reasoning_effort_input(metadata: &ModelMetadata) -> (r: String)
    ensures
        r@ == trim_spec(metadata.default_reasoning_effort@),
{
    to_owned(trim(metadata.default_reasoning_effort.as_str()))
}

/// Index of the first failed parse in `parsed`, or -1.
pub open spec fn first_err<E>(parsed: Seq<Result<(E, String), String>>) -> int
    decreases parsed.len(),
{
    if parsed.len() == 0 {
        -1
    } else if parsed[0] is Err {
        0
    } else {
        let r = first_err(parsed.subrange(1, parsed.len() as int));
        if r < 0 {
            -1
        } else {
            r + 1
        }
    }
}

proof fn lemma_first_err<E>(parsed: Seq<Result<(E, String), String>>)
    ensures
        -1 <= first_err(parsed) < parsed.len(),
        first_err(parsed) >= 0 ==> parsed[first_err(parsed)] is Err,
        forall|j: int|
            0 <= j < parsed.len() && (first_err(parsed) < 0 || j < first_err(parsed))
                ==> #[trigger] parsed[j] is Ok,
    decreases parsed.len(),
{
    if parsed.len() > 0 && parsed[0] is Ok {
        let rest = parsed.subrange(1, parsed.len() as int);
        lemma_first_err(rest);
        assert forall|j: int|
            0 <= j < parsed.len() && (first_err(parsed) < 0 || j < first_err(parsed)) implies #[trigger] parsed[j] is Ok by {
            if j > 0 {
                assert(parsed[j] == rest[j - 1]);
            }
        }
    }
}

/// The modality a (trimmed) name stands for.
pub open spec fn modality_of(name: Seq<char>) -> Option<InputModality> {
    let t = trim_spec(name);
    if t == "text"@ {
        Some(InputModality::Text)
    } else if t == "image"@ {
        Some(InputModality::Image)
    } else {
        None
    }
}

/// Index of the first name that stands for no modality, or -1.
pub open spec fn first_bad_modality(names: Seq<String>) -> int
    decreases names.len(),
{
    if names.len() == 0 {
        -1
    } else if modality_of(names[0]@) is None {
        0
    } else {
        let r = first_bad_modality(names.subrange(1, names.len() as int));
        if r < 0 {
            -1
        } else {
            r + 1
        }
    }
}

proof fn lemma_first_bad_modality(names: Seq<String>)
    ensures
        -1 <= first_bad_modality(names) < names.len(),
        first_bad_modality(names) >= 0 ==> modality_of(names[first_bad_modality(names)]@) is None,
        forall|j: int|
            0 <= j < names.len() && (first_bad_modality(names) < 0 || j < first_bad_modality(
                names,
            )) ==> modality_of((#[trigger] names[j])@) is Some,
    decreases names.len(),
{
    if names.len() > 0 && modality_of(names[0]@) is Some {
        let rest = names.subrange(1, names.len() as int);
        lemma_first_bad_modality(rest);
        assert forall|j: int|
            0 <= j < names.len() && (first_bad_modality(names) < 0 || j < first_bad_modality(
                names,
            )) implies modality_of((#[trigger] names[j])@) is Some by {
            if j > 0 {
                assert(names[j] == rest[j - 1]);
            }
        }
    }
}

/// The error message of a failed parse.
pub open spec fn err_text<T>(r: Result<T, String>) -> Seq<char> {
    match r {
        Err(e) => e@,
        Ok(_) => Seq::empty(),
    }
}

/// Why the metadata is refused, checked in this order: a blank id or a
/// context window that is not positive; the first reasoning effort that does
/// not parse; a default reasoning effort that does not parse; the first input
/// modality that is neither `text` nor `image`. `None` when it is accepted.
pub open spec fn model_info_error<E>(
    metadata: ModelMetadata,
    efforts: Seq<Result<(E, String), String>>,
    default_effort: Result<E, String>,
) -> Option<Seq<char>> {
    if trim_spec(metadata.id@).len() == 0 || metadata.context_window <= 0 {
        Some(REQUIRED_FIELDS_ERROR@)
    } else if first_err(efforts) >= 0 {
        Some("invalid reasoning effort: "@ + err_text(efforts[first_err(efforts)]))
    } else if trim_spec(metadata.default_reasoning_effort@).len() > 0 && default_effort is Err {
        Some("invalid default reasoning effort: "@ + err_text(default_effort))
    } else if first_bad_modality(metadata.input_modalities@) >= 0 {
        Some(
            "unsupported input modality "@ + str_debug(
                trim_spec(metadata.input_modalities@[first_bad_modality(metadata.input_modalities@)]@),
            ),
        )
    } else {
        None
    }
}

/// The names of input modalities: a name stands for text exactly when it
/// trims to "text", for images exactly when it trims to "image", and for
/// nothing otherwise.
pub proof fn lemma_modality_names(name: Seq<char>)
    ensures
        modality_of(name) == Some(InputModality::Text) <==> trim_spec(name) == "text"@,
        modality_of(name) == Some(InputModality::Image) <==> trim_spec(name) == "image"@,
        modality_of(name) is None <==> trim_spec(name) != "text"@ && trim_spec(name) != "image"@,
{
    reveal_strlit("text");
    reveal_strlit("image");
    assert("text"@.len() != "image"@.len());
}

/// How metadata is refused: with "id and a positive context_window are
/// required" whenever the trimmed id is empty or the context window is not
/// positive, whatever else it holds; otherwise with "invalid reasoning effort:
/// " and the parser's message when the first reasoning effort fails to parse.
/// Metadata that is accepted has a non-blank id, a positive context window,
/// reasoning efforts that all parsed, a default effort that is blank or
/// parsed, and only input modalities named "text" or "image".
pub proof fn lemma_model_info_errors<E>(
    metadata: ModelMetadata,
    efforts: Seq<Result<(E, String), String>>,
    default_effort: Result<E, String>,
)
    ensures
        trim_spec(metadata.id@).len() == 0 || metadata.context_window <= 0 ==> model_info_error(
            metadata,
            efforts,
            default_effort,
        ) == Some("id and a positive context_window are required"@),
        trim_spec(metadata.id@).len() > 0 && metadata.context_window > 0 && efforts.len() > 0 && (
        efforts[0] matches Err(m)) ==> model_info_error(metadata, efforts, default_effort) == Some(
            "invalid reasoning effort: "@ + efforts[0]->Err_0@,
        ),
        model_info_error(metadata, efforts, default_effort) is None ==> {
            &&& trim_spec(metadata.id@).len() > 0
            &&& metadata.context_window > 0
            &&& forall|i: int| 0 <= i < efforts.len() ==> (#[trigger] efforts[i]) is Ok
            &&& (trim_spec(metadata.default_reasoning_effort@).len() == 0 || default_effort is Ok)
            &&& forall|i: int|
                0 <= i < metadata.input_modalities@.len() ==> modality_of(
                    (#[trigger] metadata.input_modalities@[i])@,
                ) is Some
        },
{
    lemma_first_err(efforts);
    lemma_first_bad_modality(metadata.input_modalities@);
}

/// The overrides that accepted metadata sets: the trimmed id as slug; the
/// trimmed display name, or the id when that is blank; the trimmed
/// description when it is not blank; the context window as both limits; a
/// listed model; one preset per parsed reasoning effort, described as
/// "<effort> reasoning effort"; the parsed default effort when one was given;
/// the named input modalities when any were given; no fallback metadata.
pub open spec fn overrides_match<E>(
    o: ModelOverrides<E>,
    metadata: ModelMetadata,
    efforts: Seq<Result<(E, String), String>>,
    default_effort: Result<E, String>,
) -> bool {
    let id = trim_spec(metadata.id@);
    let display = trim_spec(metadata.display_name@);
    let description = trim_spec(metadata.description@);
    &&& o.slug@ == id
    &&& o.display_name@ == (if display.len() == 0 {
        id
    } else {
        display
    })
    &&& (if description.len() == 0 {
        o.description is None
    } else {
        o.description matches Some(d) && d@ == description
    })
    &&& o.context_window == metadata.context_window
    &&& o.max_context_window == metadata.context_window
    &&& o.visibility == ModelVisibility::List
    &&& o.supported_reasoning_levels@.len() == efforts.len()
    &&& forall|i: int|
        0 <= i < efforts.len() ==> (#[trigger] efforts[i] matches Ok((e, label)) && o.supported_reasoning_levels@[i].effort == e
            && o.supported_reasoning_levels@[i].description@ == label@ + " reasoning effort"@)
    &&& (if trim_spec(metadata.default_reasoning_effort@).len() == 0 {
        o.default_reasoning_level is None
    } else {
        default_effort matches Ok(e) && o.default_reasoning_level == Some(e)
    })
    &&& (if metadata.input_modalities@.len() == 0 {
        o.input_modalities is None
    } else {
        o.input_modalities matches Some(m) && m@.len() == metadata.input_modalities@.len() && forall|i: int|
            0 <= i < m@.len() ==> Some(#[trigger] m@[i]) == modality_of(
                metadata.input_modalities@[i]@,
            )
    })
    &&& !o.used_fallback_model_metadata
}

/// Checks the metadata and derives the catalog overrides from it. `efforts[i]`
/// is the back end's parse of the `i`-th text of `reasoning_effort_inputs`
/// (the effort and its name, or the parse error's message), and
/// `default_effort` its parse of `default_reasoning_effort_input`.
#[verifier::loop_isolation(false)]
pub fn model_info<E>(
    metadata: ModelMetadata,
    efforts: Vec<Result<(E, String), String>>,
    default_effort: Result<E, String>,
) -> (r: Result<ModelOverrides<E>, String>)
    requires
        efforts@.len() == metadata.reasoning_efforts@.len(),
    ensures
        match r {
            Ok(o) => model_info_error(metadata, efforts@, default_effort) is None && overrides_match(
                o,
                metadata,
                efforts@,
                default_effort,
            ),
            Err(e) => model_info_error(metadata, efforts@, default_effort) == Some(e@),
        },
{
    let id = trim(metadata.id.as_str());
    if char_len(id) == 0 || metadata.context_window <= 0 {
        return Err(to_owned(REQUIRED_FIELDS_ERROR));
    }
    let display = trim(metadata.display_name.as_str());
    let display_name = if char_len(display) == 0 {
        to_owned(id)
    } else {
        to_owned(display)
    };
    let description_text = trim(metadata.description.as_str());
    let description = if char_len(description_text) == 0 {
        None
    } else {
        Some(to_owned(description_text))
    };
    let ghost all = efforts@;
    proof {
        lemma_first_err(all);
    }
    let mut efforts = efforts;
    let n = efforts.len();
    let mut presets: Vec<ReasoningEffortPreset<E>> = Vec::new();
    let mut i: usize = 0;
    while i < n
        invariant
            n == all.len(),
            i <= n,
            efforts@ == all.skip(i as int),
            forall|j: int| 0 <= j < i ==> #[trigger] all[j] is Ok,
            presets@.len() == i,
            forall|j: int|
                0 <= j < i ==> (#[trigger] all[j] matches Ok((e, label)) && presets@[j].effort == e
                    && presets@[j].description@ == label@ + " reasoning effort"@),
            -1 <= first_err(all) < all.len(),
            first_err(all) >= 0 ==> all[first_err(all)] is Err,
            forall|j: int|
                0 <= j < all.len() && (first_err(all) < 0 || j < first_err(all))
                    ==> #[trigger] all[j] is Ok,
        decreases n - i,
    {
        assert(efforts@[0] == all[i as int]);
        let item = efforts.remove(0);
        assert(efforts@ =~= all.skip(i + 1));
        match item {
            Ok((effort, label)) => {
                let description = concat2(label.as_str(), " reasoning effort");
                presets.push(ReasoningEffortPreset { description, effort });
            },
            Err(message) => {
                assert(first_err(all) == i);
                return Err(concat2("invalid reasoning effort: ", message.as_str()));
            },
        }
        i = i + 1;
    }
    let default_text = trim(metadata.default_reasoning_effort.as_str());
    let default_reasoning_level = if char_len(default_text) == 0 {
        None
    } else {
        match default_effort {
            Ok(e) => Some(e),
            Err(message) => {
                return Err(concat2("invalid default reasoning effort: ", message.as_str()));
            },
        }
    };
    let input_modalities = if metadata.input_modalities.len() == 0 {
        assert(first_bad_modality(metadata.input_modalities@) == -1);
        None
    } else {
        let names = &metadata.input_modalities;
        proof {
            lemma_first_bad_modality(names@);
        }
        let m = names.len();
        let mut out: Vec<InputModality> = Vec::new();
        let mut k: usize = 0;
        while k < m
            invariant
                m == names@.len(),
                k <= m,
                out@.len() == k,
                forall|j: int| 0 <= j < k ==> Some(#[trigger] out@[j]) == modality_of(names@[j]@),
                -1 <= first_bad_modality(names@) < names@.len(),
                first_bad_modality(names@) >= 0 ==> modality_of(
                    names@[first_bad_modality(names@)]@,
                ) is None,
                forall|j: int|
                    0 <= j < names@.len() && (first_bad_modality(names@) < 0 || j
                        < first_bad_modality(names@)) ==> modality_of((#[trigger] names@[j])@) is Some,
            decreases m - k,
        {
            let t = trim(names[k].as_str());
            if same_text(t, "text") {
                out.push(InputModality::Text);
            } else if same_text(t, "image") {
                out.push(InputModality::Image);
            } else {
                assert(modality_of(names@[k as int]@) is None);
                proof {
                    let fb = first_bad_modality(names@);
                    if fb >= 0 && fb < k {
                        assert(Some(out@[fb]) == modality_of(names@[fb]@));
                    }
                }
                assert(first_bad_modality(names@) == k);
                return Err(concat2("unsupported input modality ", debug_str(t).as_str()));
            }
            k = k + 1;
        }
        proof {
            let fb = first_bad_modality(names@);
            if fb >= 0 {
                assert(Some(out@[fb]) == modality_of(names@[fb]@));
            }
        }
        Some(out)
    };
    let o = ModelOverrides {
        slug: to_owned(id),
        display_name,
        description,
        context_window: metadata.context_window,
        max_context_window: metadata.context_window,
        visibility: ModelVisibility::List,
        supported_reasoning_levels: presets,
        default_reasoning_level,
        input_modalities,
        used_fallback_model_metadata: false,
    };
    Ok(o)
}

/// The catalog entries whose slug is not `slug`, in order.
pub open spec fn without_slug<M>(models: Seq<(String, M)>, slug: Seq<char>) -> Seq<(String, M)>
    decreases models.len(),
{
    if models.len() == 0 {
        Seq::empty()
    } else {
        let rest = without_slug(models.drop_last(), slug);
        if models.last().0@ == slug {
            rest
        } else {
            rest.push(models.last())
        }
    }
}

/// The catalog after adding `model` under `slug`: the entries under other
/// slugs, in order, followed by the new one.
pub fn merge_model<M>(models: Vec<(String, M)>, slug: String, model: M) -> (r: Vec<(String, M)>)
    ensures
        r@ == without_slug(models@, slug@).push((slug, model)),
{
    let ghost all = models@;
    let mut models = models;
    let mut kept: Vec<(String, M)> = Vec::new();
    let n = models.len();
    let mut i: usize = 0;
    assert(all.take(0) =~= Seq::<(String, M)>::empty());
    while i < n
        invariant
            n == all.len(),
            i <= n,
            models@ == all.skip(i as int),
            kept@ == without_slug(all.take(i as int), slug@),
        decreases n - i,
    {
        assert(all.take(i + 1).drop_last() =~= all.take(i as int));
        assert(models@[0] == all[i as int]);
        let entry = models.remove(0);
        assert(models@ =~= all.skip(i + 1));
        if !same_text(entry.0.as_str(), slug.as_str()) {
            kept.push(entry);
        }
        i = i + 1;
    }
    assert(all.take(n as int) =~= all);
    kept.push((slug, model));
    kept
}

/// `without_slug` keeps exactly the entries under other slugs, in order.
pub proof fn lemma_without_slug<M>(models: Seq<(String, M)>, slug: Seq<char>)
    ensures
        forall|j: int|
            0 <= j < without_slug(models, slug).len() ==> (#[trigger] without_slug(models, slug)[j]).0@
                != slug && models.contains(without_slug(models, slug)[j]),
        forall|i: int|
            0 <= i < models.len() && (#[trigger] models[i]).0@ != slug ==> without_slug(
                models,
                slug,
            ).contains(models[i]),
        without_slug(models, slug).len() <= models.len(),
    decreases models.len(),
{
    if models.len() > 0 {
        let init = models.drop_last();
        lemma_without_slug(init, slug);
        let rest = without_slug(init, slug);
        let w = without_slug(models, slug);
        assert forall|j: int| 0 <= j < w.len() implies (#[trigger] w[j]).0@ != slug && models.contains(
            w[j],
        ) by {
            if j < rest.len() {
                assert(w[j] == rest[j]);
                let k = choose|k: int| 0 <= k < init.len() && init[k] == rest[j];
                assert(models[k] == init[k]);
            } else {
                assert(w[j] == models.last());
                assert(models[models.len() - 1] == models.last());
            }
        }
        assert forall|i: int| 0 <= i < models.len() && (#[trigger] models[i]).0@ != slug implies w.contains(
            models[i],
        ) by {
            if i < models.len() - 1 {
                assert(init[i] == models[i]);
                let k = choose|k: int| 0 <= k < rest.len() && rest[k] == init[i];
                assert(w[k] == rest[k]);
            } else {
                assert(w[w.len() - 1] == models.last());
            }
        }
    }
}

/// Merging a model into the catalog leaves exactly one entry under its slug
/// (the new model, last), keeps every entry under another slug, and adds
/// nothing else: the catalog holds the other entries plus one.
pub proof fn lemma_merge_model<M>(models: Seq<(String, M)>, slug: String, model: M)
    ensures
        ({
            let merged = without_slug(models, slug@).push((slug, model));
            &&& merged.last() == (slug, model)
            &&& forall|j: int| 0 <= j < merged.len() - 1 ==> (#[trigger] merged[j]).0@ != slug@
            &&& forall|i: int|
                0 <= i < models.len() && (#[trigger] models[i]).0@ != slug@ ==> merged.contains(
                    models[i],
                )
            &&& forall|j: int| 0 <= j < merged.len() - 1 ==> models.contains(#[trigger] merged[j])
            &&& merged.len() == without_slug(models, slug@).len() + 1
        }),
{
    lemma_without_slug(models, slug@);
    let w = without_slug(models, slug@);
    let merged = w.push((slug, model));
    assert forall|j: int| 0 <= j < merged.len() - 1 implies (#[trigger] merged[j]).0@ != slug@ by {
        assert(merged[j] == w[j]);
    }
    assert forall|i: int|
        0 <= i < models.len() && (#[trigger] models[i]).0@ != slug@ implies merged.contains(models[i]) by {
        let k = choose|k: int| 0 <= k < w.len() && w[k] == models[i];
        assert(merged[k] == w[k]);
    }
    assert forall|j: int| 0 <= j < merged.len() - 1 implies models.contains(#[trigger] merged[j]) by {
        assert(merged[j] == w[j]);
    }
}

/// The message of an error about the model metadata.
pub fn invalid_metadata(error: &str) -> (r: String)
    ensures
        r@ == "invalid "@ + MODEL_METADATA_ENV@ + ": "@ + error@,
{
    let mut r = concat3("invalid ", MODEL_METADATA_ENV, ": ");
    r.append(error);
    r
}

} // verus!
