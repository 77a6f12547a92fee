//! The keyless web translation endpoint: what to ask it, and how its
//! replies are read, for translation and for language detection.

use vstd::prelude::*;
use vstd::string::*;
use crate::error::{TranslateError, is_success, success};
use crate::json::{JsonTree, json_tree, parsed_json, member, elements, text, trees, parse_json, get_member, get_elements, get_text};

verus! {

/// The translated piece of one sentence entry: its "trans" string, or
/// nothing where it has none.
pub open spec fn sentence_part(t: JsonTree) -> Seq<char> {
    match member(t, "trans"@) {
        Some(v) => match text(v) {
            Some(s) => s,
            None => Seq::empty(),
        },
        None => Seq::empty(),
    }
}

/// The pieces of all sentence entries, joined in order.
pub open spec fn joined_parts(items: Seq<JsonTree>) -> Seq<char>
    decreases items.len(),
{
    if items.len() == 0 {
        Seq::empty()
    } else {
        joined_parts(items.drop_last()) + sentence_part(items.last())
    }
}

/// The translation a reply document carries: the joined pieces of its
/// "sentences" list, `None` where that list is missing or the pieces are
/// all empty.
pub open spec fn web_translation_of(t: JsonTree) -> Option<Seq<char>> {
    match member(t, "sentences"@) {
        Some(s) => match elements(s) {
            Some(items) => if joined_parts(items).len() > 0 {
                Some(joined_parts(items))
            } else {
                None
            },
            None => None,
        },
        None => None,
    }
}

/// The language code a detection reply carries: the string at position 2
/// of the top-level list.
pub open spec fn detected_language_of(t: JsonTree) -> Option<Seq<char>> {
    match elements(t) {
        Some(items) => if items.len() > 2 {
            text(items[2])
        } else {
            None
        },
        None => None,
    }
}

/// The translation carried by a decoded reply of the web endpoint.
pub fn sentences_translation(json: &serde_json::Value) -> (r: Result<String, TranslateError>)
    ensures
        match web_translation_of(json_tree(*json)) {
            Some(s) => r matches Ok(x) && x@ == s,
            None => r matches Err(TranslateError::NotFound),
        },
{
    let sentences = match get_member(json, "sentences") {
        Some(s) => s,
        None => return Err(TranslateError::NotFound),
    };
    let items = match get_elements(sentences) {
        Some(a) => a,
        None => return Err(TranslateError::NotFound),
    };
    let ghost ts = trees(items@);
    let mut result = String::new();
    let mut i: usize = 0;
    while i < items.len()
        invariant
            ts == trees(items@),
            i <= items@.len(),
            result@ == joined_parts(ts.take(i as int)),
        decreases items.len() - i,
    {
        assert(ts.take(i as int + 1).drop_last() =~= ts.take(i as int));
        if let Some(part) = get_member(&items[i], "trans") {
            if let Some(s) = get_text(part) {
                result.append(s);
            }
        }
        i = i + 1;
    }
    assert(ts.take(items.len() as int) =~= ts);
    if result.unicode_len() > 0 {
        Ok(result)
    } else {
        Err(TranslateError::NotFound)
    }
}

/// The outcome of a translation request to the web endpoint, from the
/// reply's status and body.
pub fn web_reply(status: u16, body: &str) -> (r: Result<String, TranslateError>)
    ensures
        !is_success(status) ==> (r matches Err(TranslateError::StatusBody(c, b)) && c == status && b@ == body@),
        is_success(status) ==> match parsed_json(body@) {
            None => r matches Err(TranslateError::Parse(_)),
            Some(t) => match web_translation_of(t) {
                Some(s) => r matches Ok(x) && x@ == s,
                None => r matches Err(TranslateError::NotFound),
            },
        },
{
    if !success(status) {
        return Err(TranslateError::StatusBody(status, String::from_str(body)));
    }
    match parse_json(body) {
        Ok(json) => sentences_translation(&json),
        Err(e) => Err(TranslateError::Parse(e.to_string())),
    }
}

/// The language code carried by a decoded detection reply.
pub fn detected_language(json: &serde_json::Value) -> (r: Result<String, TranslateError>)
    ensures
        match detected_language_of(json_tree(*json)) {
            Some(s) => r matches Ok(x) && x@ == s,
            None => r matches Err(TranslateError::NotDetected),
        },
{
    if let Some(items) = get_elements(json) {
        if items.len() > 2 {
            if let Some(lang) = get_text(&items[2]) {
                return Ok(String::from_str(lang));
            }
        }
    }
    Err(TranslateError::NotDetected)
}

/// The outcome of a detection request, from the reply's status and body.
/// A body that is no JSON counts as a reply without a language.
pub fn detect_reply(status: u16, body: &str) -> (r: Result<String, TranslateError>)
    ensures
        !is_success(status) ==> (r matches Err(TranslateError::StatusBody(c, b)) && c == status && b@ == body@),
        is_success(status) ==> match parsed_json(body@) {
            Some(t) => match detected_language_of(t) {
                Some(s) => r matches Ok(x) && x@ == s,
                None => r matches Err(TranslateError::NotDetected),
            },
            None => r matches Err(TranslateError::NotDetected),
        },
{
    if !success(status) {
        return Err(TranslateError::StatusBody(status, String::from_str(body)));
    }
    match parse_json(body) {
        Ok(json) => detected_language(&json),
        Err(_) => Err(TranslateError::NotDetected),
    }
}

/// The address of the web endpoint.
pub const WEB_ENDPOINT: &'static str = "https://translate.google.com/translate_a/single";

/// Query parameters as pairs of character sequences.
pub open spec fn pairs(v: Seq<(String, String)>) -> Seq<(Seq<char>, Seq<char>)> {
    v.map_values(|p: (String, String)| (p.0@, p.1@))
}

/// The query of a translation request.
pub open spec fn translate_query_of(text: Seq<char>, source_lang: Seq<char>, target_lang: Seq<char>) -> Seq<(Seq<char>, Seq<char>)> {
    seq![
        ("client"@, "gtx"@),
        ("sl"@, source_lang),
        ("tl"@, target_lang),
        ("hl"@, target_lang),
        ("dt"@, "t"@),
        ("dt"@, "bd"@),
        ("dj"@, "1"@),
        ("source"@, "input"@),
        ("q"@, text),
    ]
}

/// The query of a detection request: from any language into English, the
/// translation alone.
pub open spec fn detect_query_of(text: Seq<char>) -> Seq<(Seq<char>, Seq<char>)> {
    seq![
        ("client"@, "gtx"@),
        ("sl"@, "auto"@),
        ("tl"@, "en"@),
        ("dt"@, "t"@),
        ("q"@, text),
    ]
}

fn pair(k: &str, v: &str) -> (r: (String, String))
    ensures
        r.0@ == k@,
        r.1@ == v@,
{
    (String::from_str(k), String::from_str(v))
}

/// The query parameters that ask the web endpoint to translate `text`.
pub fn translate_query(text: &str, source_lang: &str, target_lang: &str) -> (r: Vec<(String, String)>)
    ensures
        pairs(r@) == translate_query_of(text@, source_lang@, target_lang@),
{
    let r = vec![
        pair("client", "gtx"),
        pair("sl", source_lang),
        pair("tl", target_lang),
        pair("hl", target_lang),
        pair("dt", "t"),
        pair("dt", "bd"),
        pair("dj", "1"),
        pair("source", "input"),
        pair("q", text),
    ];
    assert(pairs(r@) =~= translate_query_of(text@, source_lang@, target_lang@));
    r
}

/// The query parameters that ask the web endpoint for the language of `text`.
pub fn detect_query(text: &str) -> (r: Vec<(String, String)>)
    ensures
        pairs(r@) == detect_query_of(text@),
{
    let r = vec![
        pair("client", "gtx"),
        pair("sl", "auto"),
        pair("tl", "en"),
        pair("dt", "t"),
        pair("q", text),
    ];
    assert(pairs(r@) =~= detect_query_of(text@));
    r
}

/// A reply without a "sentences" list, or with an empty one, carries no
/// translation.
pub proof fn lemma_no_sentences_no_translation(t: JsonTree)
    requires
        member(t, "sentences"@) is None
            || member(t, "sentences"@) == Some(JsonTree::List(Seq::empty())),
    ensures
        web_translation_of(t) is None,
{
    if member(t, "sentences"@) is Some {
        assert(joined_parts(Seq::<JsonTree>::empty()) =~= Seq::<char>::empty());
    }
}

} // verus!
