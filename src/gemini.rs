//! The generative-language service: its model catalog, the choice of a
//! model, the request it is sent and how its replies are read.

use vstd::prelude::*;
use vstd::string::*;
use crate::error::{TranslateError, is_success, success};
use crate::json::{JsonTree, json_tree, parsed_json, json_quoted, member, elements, text, trees, parse_json, get_member, get_elements, get_text, quote};
use crate::text::{has_infix, without_prefix, contains, strip_prefix};

verus! {

/// The models offered when the catalog cannot be fetched.
pub open spec fn fallback_list() -> Seq<Seq<char>> {
    seq![
        "gemini-2.0-flash-exp"@,
        "gemini-2.0-flash"@,
        "gemini-1.5-flash"@,
        "gemini-1.5-flash-8b"@,
        "gemini-1.5-pro"@,
        "gemini-pro"@,
    ]
}

/// The characters of each string.
pub open spec fn views(v: Seq<String>) -> Seq<Seq<char>> {
    v.map_values(|s: String| s@)
}

/// The models offered when the catalog cannot be fetched.
pub fn get_fallback_models() -> (r: Vec<String>)
    ensures
        views(r@) == fallback_list(),
{
    proof {
        reveal_strlit("gemini-2.0-flash-exp");
        reveal_strlit("gemini-2.0-flash");
        reveal_strlit("gemini-1.5-flash");
        reveal_strlit("gemini-1.5-flash-8b");
        reveal_strlit("gemini-1.5-pro");
        reveal_strlit("gemini-pro");
    }
    let r = vec![
        String::from_str("gemini-2.0-flash-exp"),
        String::from_str("gemini-2.0-flash"),
        String::from_str("gemini-1.5-flash"),
        String::from_str("gemini-1.5-flash-8b"),
        String::from_str("gemini-1.5-pro"),
        String::from_str("gemini-pro"),
    ];
    assert(views(r@) =~= fallback_list());
    r
}

/// A model name without a leading "models/" (unchanged where it has none).
pub open spec fn bare_name(s: Seq<char>) -> Seq<char> {
    match without_prefix(s, "models/"@) {
        Some(t) => t,
        None => s,
    }
}

/// The bare identifier of a catalog entry: its "name" string without a
/// leading "models/"; `None` where it has no string "name".
pub open spec fn model_id(t: JsonTree) -> Option<Seq<char>> {
    match member(t, "name"@) {
        Some(v) => match text(v) {
            Some(s) => Some(bare_name(s)),
            None => None,
        },
        None => None,
    }
}

/// The identifiers of the catalog entries that have one, in order.
pub open spec fn model_ids(items: Seq<JsonTree>) -> Seq<Seq<char>>
    decreases items.len(),
{
    if items.len() == 0 {
        Seq::empty()
    } else {
        model_ids(items.drop_last()) + match model_id(items.last()) {
            Some(m) => seq![m],
            None => Seq::empty(),
        }
    }
}

/// The model identifiers that a decoded catalog reply lists (none where it
/// has no "models" list).
pub open spec fn catalog_of(t: JsonTree) -> Seq<Seq<char>> {
    match member(t, "models"@) {
        Some(v) => match elements(v) {
            Some(items) => model_ids(items),
            None => Seq::empty(),
        },
        None => Seq::empty(),
    }
}

/// The catalog obtained from a reply: what it lists where the reply is a
/// success and valid JSON, the fallback list otherwise.
pub open spec fn catalog(status: u16, body: Seq<char>) -> Seq<Seq<char>> {
    if is_success(status) && parsed_json(body) is Some {
        catalog_of(parsed_json(body)->0)
    } else {
        fallback_list()
    }
}

/// The model identifiers that a decoded catalog reply lists.
pub fn models_from_json(json: &serde_json::Value) -> (r: Vec<String>)
    ensures
        views(r@) == catalog_of(json_tree(*json)),
{
    let mut models: Vec<String> = Vec::new();
    let list = match get_member(json, "models") {
        Some(v) => v,
        None => {
            assert(views(models@) =~= Seq::<Seq<char>>::empty());
            return models;
        },
    };
    let items = match get_elements(list) {
        Some(a) => a,
        None => {
            assert(views(models@) =~= Seq::<Seq<char>>::empty());
            return models;
        },
    };
    let ghost ts = trees(items@);
    let mut i: usize = 0;
    assert(views(models@) =~= model_ids(ts.take(0)));
    while i < items.len()
        invariant
            ts == trees(items@),
            i <= items@.len(),
            views(models@) == model_ids(ts.take(i as int)),
        decreases items.len() - i,
    {
        assert(ts.take(i as int + 1).drop_last() =~= ts.take(i as int));
        let ghost before = views(models@);
        if let Some(name) = get_member(&items[i], "name") {
            if let Some(s) = get_text(name) {
                match strip_prefix(s, "models/") {
                    Some(m) => models.push(m),
                    None => models.push(String::from_str(s)),
                }
            }
        }
        assert(views(models@) =~= model_ids(ts.take(i as int + 1)));
        i = i + 1;
    }
    assert(ts.take(items.len() as int) =~= ts);
    models
}

/// The model catalog from the status and body of a catalog reply. It never
/// fails: a reply that is no success or no JSON gives the fallback list.
pub fn models_from_reply(status: u16, body: &str) -> (r: Vec<String>)
    ensures
        views(r@) == catalog(status, body@),
{
    if !success(status) {
        return get_fallback_models();
    }
    match parse_json(body) {
        Ok(json) => models_from_json(&json),
        Err(_) => get_fallback_models(),
    }
}

/// Lexicographic order on character sequences (by code point, which is
/// also the byte order of their UTF-8 encodings).
pub open spec fn lex_le(a: Seq<char>, b: Seq<char>) -> bool
    decreases a.len(),
{
    if a.len() == 0 {
        true
    } else if b.len() == 0 {
        false
    } else if (a[0] as u32) != (b[0] as u32) {
        (a[0] as u32) < (b[0] as u32)
    } else {
        lex_le(a.drop_first(), b.drop_first())
    }
}

/// Any two sequences are ordered one way or the other.
pub proof fn lemma_lex_total(a: Seq<char>, b: Seq<char>)
    ensures
        lex_le(a, b) || lex_le(b, a),
    decreases a.len(),
{
    if a.len() > 0 && b.len() > 0 && (a[0] as u32) == (b[0] as u32) {
        lemma_lex_total(a.drop_first(), b.drop_first());
    }
}

/// The order is transitive.
pub proof fn lemma_lex_trans(a: Seq<char>, b: Seq<char>, c: Seq<char>)
    requires
        lex_le(a, b),
        lex_le(b, c),
    ensures
        lex_le(a, c),
    decreases a.len(),
{
    if a.len() > 0 && b.len() > 0 && c.len() > 0 && (a[0] as u32) == (b[0] as u32)
        && (b[0] as u32) == (c[0] as u32) {
        lemma_lex_trans(a.drop_first(), b.drop_first(), c.drop_first());
    }
}

/// Whether `a` comes before or equals `b` in lexicographic order.
pub fn lex_less_eq(a: &str, b: &str) -> (r: bool)
    ensures
        r == lex_le(a@, b@),
{
    let n = a.unicode_len();
    let m = b.unicode_len();
    let mut i: usize = 0;
    assert(a@.skip(0) =~= a@);
    assert(b@.skip(0) =~= b@);
    while i < n && i < m
        invariant
            n == a@.len(),
            m == b@.len(),
            i <= n,
            i <= m,
            lex_le(a@, b@) == lex_le(a@.skip(i as int), b@.skip(i as int)),
        decreases n - i,
    {
        let x = a.get_char(i);
        let y = b.get_char(i);
        assert(a@.skip(i as int)[0] == x);
        assert(b@.skip(i as int)[0] == y);
        if (x as u32) != (y as u32) {
            return (x as u32) < (y as u32);
        }
        assert(a@.skip(i as int).drop_first() =~= a@.skip(i as int + 1));
        assert(b@.skip(i as int).drop_first() =~= b@.skip(i as int + 1));
        i = i + 1;
    }
    i == n
}

/// A Gemini flash model: its identifier names both.
pub open spec fn is_flash_model(m: Seq<char>) -> bool {
    has_infix(m, "flash"@) && has_infix(m, "gemini"@)
}

/// Whether `m` names a Gemini flash model.
pub fn flash_model(m: &str) -> (r: bool)
    ensures
        r == is_flash_model(m@),
{
    contains(m, "flash") && contains(m, "gemini")
}

/// Some model of `ms` is a Gemini flash model.
pub open spec fn has_flash_model(ms: Seq<Seq<char>>) -> bool {
    exists|i: int| 0 <= i < ms.len() && is_flash_model(#[trigger] ms[i])
}

/// `best` is a flash model of `ms` that no flash model of `ms` follows in
/// lexicographic order.
pub open spec fn is_latest_flash(ms: Seq<Seq<char>>, best: Seq<char>) -> bool {
    &&& is_flash_model(best)
    &&& ms.contains(best)
    &&& forall|i: int| 0 <= i < ms.len() && is_flash_model(#[trigger] ms[i]) ==> lex_le(ms[i], best)
}

/// The newest flash model of a catalog: of its Gemini flash models, the one
/// that comes last in lexicographic order (the first after a descending
/// sort). Fails where the catalog has no such model.
pub fn latest_flash_model(models: &Vec<String>) -> (r: Result<String, TranslateError>)
    ensures
        !has_flash_model(views(models@)) ==> r matches Err(TranslateError::NoFlashModel),
        has_flash_model(views(models@)) ==> (r matches Ok(best) && is_latest_flash(views(models@), best@)),
{
    let mut best: Option<usize> = None;
    let mut i: usize = 0;
    while i < models.len()
        invariant
            i <= models@.len(),
            best is None ==> forall|j: int| 0 <= j < i ==> !is_flash_model(#[trigger] models@[j]@),
            best matches Some(b) ==> b < i && is_flash_model(models@[b as int]@)
                && forall|j: int| 0 <= j < i && is_flash_model(#[trigger] models@[j]@)
                    ==> lex_le(models@[j]@, models@[b as int]@),
        decreases models.len() - i,
    {
        if flash_model(models[i].as_str()) {
            match best {
                None => {
                    best = Some(i);
                    proof { lemma_lex_refl(models@[i as int]@); }
                },
                Some(b) => {
                    if !lex_less_eq(models[i].as_str(), models[b].as_str()) {
                        proof {
                            lemma_lex_total(models@[i as int]@, models@[b as int]@);
                            lemma_lex_refl(models@[i as int]@);
                            assert forall|j: int| 0 <= j < i + 1 && is_flash_model(#[trigger] models@[j]@)
                                implies lex_le(models@[j]@, models@[i as int]@) by {
                                if j < i {
                                    lemma_lex_trans(models@[j]@, models@[b as int]@, models@[i as int]@);
                                }
                            }
                        }
                        best = Some(i);
                    }
                },
            }
        }
        i = i + 1;
    }
    let ghost ms = views(models@);
    match best {
        None => {
            assert(!has_flash_model(ms)) by {
                assert forall|j: int| 0 <= j < ms.len() implies !is_flash_model(#[trigger] ms[j]) by {
                    assert(ms[j] == models@[j]@);
                }
            }
            Err(TranslateError::NoFlashModel)
        },
        Some(b) => {
            let r = models[b].clone();
            assert(ms[b as int] == r@);
            assert forall|j: int| 0 <= j < ms.len() && is_flash_model(#[trigger] ms[j]) implies lex_le(ms[j], r@) by {
                assert(ms[j] == models@[j]@);
            }
            Ok(r)
        },
    }
}

/// Every sequence comes before or equals itself.
pub proof fn lemma_lex_refl(a: Seq<char>)
    ensures
        lex_le(a, a),
    decreases a.len(),
{
    if a.len() > 0 {
        lemma_lex_refl(a.drop_first());
    }
}

/// The address of the service's models.
pub const MODELS_ENDPOINT: &'static str = "https://generativelanguage.googleapis.com/v1beta/models";

/// The opening of the translation instruction, before the target language.
pub const INSTRUCTION_HEAD: &'static str = "You are a professional translation engine. Translate the user-provided text into ";

/// The rest of the translation instruction, after the target language.
pub const INSTRUCTION_TAIL: &'static str = " only.\nConstraints:\n- Preserve original formatting, line breaks, markdown, code blocks, and list structure.\n- Keep placeholders and variables untouched (e.g., {like_this}, {{curly}}, %s, %d, {{name}}, <tag>, URLs, and file paths).\n- Do not add explanations or commentary. Output only the translated text.\n- Maintain numbers, units, punctuation, emojis, and inline symbols.\n- If the text is mostly code or untranslatable terms, keep them as-is and translate surrounding prose naturally.\n- Prefer concise, natural, context-appropriate wording.\n";

/// What stands between the instruction and the user's text.
pub const TEXT_LEAD: &'static str = "\n\nText to translate:\n";

/// The address that lists the models, for `api_key`.
pub open spec fn models_url_of(api_key: Seq<char>) -> Seq<char> {
    MODELS_ENDPOINT@ + "?key="@ + api_key
}

/// The address that generates content with `model`, for `api_key`.
pub open spec fn generate_url_of(model: Seq<char>, api_key: Seq<char>) -> Seq<char> {
    MODELS_ENDPOINT@ + "/"@ + model + ":generateContent?key="@ + api_key
}

/// The prompt: the instruction for `target_lang`, then the user's text.
pub open spec fn prompt_of(text: Seq<char>, target_lang: Seq<char>) -> Seq<char> {
    INSTRUCTION_HEAD@ + target_lang + INSTRUCTION_TAIL@ + TEXT_LEAD@ + text
}

/// The JSON request body that carries `prompt` as the one part of the one
/// content.
pub open spec fn request_body_of(prompt: Seq<char>) -> Seq<char> {
    "{\"contents\":[{\"parts\":[{\"text\":"@ + json_quoted(prompt) + "}]}]}"@
}

/// The address that lists the models, for `api_key`.
pub fn models_url(api_key: &str) -> (r: String)
    ensures
        r@ == models_url_of(api_key@),
{
    let mut r = String::from_str(MODELS_ENDPOINT);
    r.append("?key=");
    r.append(api_key);
    r
}

/// The address that generates content with `model`, for `api_key`.
pub fn generate_url(model: &str, api_key: &str) -> (r: String)
    ensures
        r@ == generate_url_of(model@, api_key@),
{
    let mut r = String::from_str(MODELS_ENDPOINT);
    r.append("/");
    r.append(model);
    r.append(":generateContent?key=");
    r.append(api_key);
    r
}

/// The prompt that asks for `text` in `target_lang`.
pub fn translation_prompt(text: &str, target_lang: &str) -> (r: String)
    ensures
        r@ == prompt_of(text@, target_lang@),
{
    let mut r = String::from_str(INSTRUCTION_HEAD);
    r.append(target_lang);
    r.append(INSTRUCTION_TAIL);
    r.append(TEXT_LEAD);
    r.append(text);
    r
}

/// The JSON request body for `prompt`.
pub fn request_body(prompt: &str) -> (r: String)
    ensures
        r@ == request_body_of(prompt@),
{
    let mut r = String::from_str("{\"contents\":[{\"parts\":[{\"text\":");
    let q = quote(prompt);
    r.append(q.as_str());
    r.append("}]}]}");
    r
}

/// The first element of a list value.
pub open spec fn first_of(t: Option<JsonTree>) -> Option<JsonTree> {
    match t {
        Some(v) => match elements(v) {
            Some(items) => if items.len() > 0 {
                Some(items[0])
            } else {
                None
            },
            None => None,
        },
        None => None,
    }
}

/// The member `key` of a value, where there is a value.
pub open spec fn member_of(t: Option<JsonTree>, key: Seq<char>) -> Option<JsonTree> {
    match t {
        Some(v) => member(v, key),
        None => None,
    }
}

/// The text of a generation reply: the "text" of the first part of the
/// content of the first candidate.
pub open spec fn generated_text_of(t: JsonTree) -> Option<Seq<char>> {
    let candidate = first_of(member(t, "candidates"@));
    let part = first_of(member_of(member_of(candidate, "content"@), "parts"@));
    match member_of(part, "text"@) {
        Some(v) => text(v),
        None => None,
    }
}

/// The first element of an optional list value.
fn first_element<'a>(v: Option<&'a serde_json::Value>) -> (r: Option<&'a serde_json::Value>)
    ensures
        match v {
            Some(x) => match first_of(Some(json_tree(*x))) {
                Some(t) => r matches Some(y) && json_tree(*y) == t,
                None => r is None,
            },
            None => r is None,
        },
{
    match v {
        Some(x) => match get_elements(x) {
            Some(items) => if items.len() > 0 {
                Some(&items[0])
            } else {
                None
            },
            None => None,
        },
        None => None,
    }
}

/// The member `key` of an optional value.
fn member_in<'a>(v: Option<&'a serde_json::Value>, key: &str) -> (r: Option<&'a serde_json::Value>)
    ensures
        match v {
            Some(x) => match member(json_tree(*x), key@) {
                Some(t) => r matches Some(y) && json_tree(*y) == t,
                None => r is None,
            },
            None => r is None,
        },
{
    match v {
        Some(x) => get_member(x, key),
        None => None,
    }
}

/// The translation carried by a decoded generation reply.
pub fn generated_text(json: &serde_json::Value) -> (r: Result<String, TranslateError>)
    ensures
        match generated_text_of(json_tree(*json)) {
            Some(s) => r matches Ok(x) && x@ == s,
            None => r matches Err(TranslateError::NotFound),
        },
{
    let candidate = first_element(get_member(json, "candidates"));
    let part = first_element(member_in(member_in(candidate, "content"), "parts"));
    match member_in(part, "text") {
        Some(v) => match get_text(v) {
            Some(s) => Ok(String::from_str(s)),
            None => Err(TranslateError::NotFound),
        },
        None => Err(TranslateError::NotFound),
    }
}

/// The outcome of a generation request, from the reply's status and body.
/// A status other than success is reported with the body, as it came.
pub fn generation_reply(status: u16, body: String) -> (r: Result<String, TranslateError>)
    ensures
        !is_success(status) ==> r == Err::<String, TranslateError>(TranslateError::StatusBody(status, body)),
        is_success(status) ==> match parsed_json(body@) {
            None => r matches Err(TranslateError::Parse(_)),
            Some(t) => match generated_text_of(t) {
                Some(s) => r matches Ok(x) && x@ == s,
                None => r matches Err(TranslateError::NotFound),
            },
        },
{
    if !success(status) {
        return Err(TranslateError::StatusBody(status, body));
    }
    match parse_json(body.as_str()) {
        Ok(json) => generated_text(&json),
        Err(e) => Err(TranslateError::Parse(e.to_string())),
    }
}

/// The model catalog from a catalog request: from the reply's status and
/// body where one was read, the fallback list where the request or the
/// reading of the body failed.
pub fn models_from_exchange(reply: Option<(u16, String)>) -> (r: Vec<String>)
    ensures
        match reply {
            Some((status, body)) => views(r@) == catalog(status, body@),
            None => views(r@) == fallback_list(),
        },
{
    match reply {
        Some((status, body)) => models_from_reply(status, body.as_str()),
        None => get_fallback_models(),
    }
}

/// A catalog reply that is no success, or whose body is no JSON, yields
/// the fallback list.
pub proof fn lemma_failed_catalog_falls_back(status: u16, body: Seq<char>)
    requires
        !is_success(status) || parsed_json(body) is None,
    ensures
        catalog(status, body) == fallback_list(),
{
}

} // verus!
