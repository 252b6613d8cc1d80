//! The instruction texts sent to a backend for the two tasks, translation and explanation.
//!
//! Both builders are pure: the prompt is a fixed frame around the caller's text and the two
//! language names. A source language of `auto` is never echoed; the frame speaks of
//! "the detected language" instead.

use crate::text::same_text;
use vstd::prelude::*;
use vstd::string::StringExecFns;

verus! {

/// The sentinel that stands for "no source language given".
pub const AUTO_LANGUAGE: &'static str = "auto";

/// What is written in place of the sentinel.
pub const DETECTED_LANGUAGE: &'static str = "the detected language";

pub const TRANSLATION_OPENING: &'static str =
    "You are a professional translator. Translate the following text from ";

pub const TRANSLATION_JOINT: &'static str = " to ";

pub const TRANSLATION_CLOSING: &'static str =
    ".\nOnly output the translated text, nothing else. Do not include explanations or notes.\n\nText to translate:\n";

pub const EXPLANATION_OPENING: &'static str =
    "You are a language expert. Analyze the following text written in ";

pub const EXPLANATION_TEXT_HEADING: &'static str = ".\n\nText:\n";

pub const EXPLANATION_LANGUAGE_RULE: &'static str = "\n\nIMPORTANT: Write the ENTIRE response in ";

pub const EXPLANATION_LANGUAGE_SCOPE: &'static str =
    " only. All headings, explanations, and descriptions must be in ";

pub const EXPLANATION_VOCABULARY: &'static str =
    ". The only exception is the original words/phrases being explained, which should remain in their original language.\n\nProvide a concise explanation using Markdown format:\n\n## 重要な語彙\n- **word/phrase** — meaning, nuance, and usage explained in ";

pub const EXPLANATION_IDIOMS: &'static str =
    "\n\n## スラング・慣用句\n- **expression** — meaning, tone, and typical usage context explained in ";

pub const EXPLANATION_CULTURE: &'static str =
    "\n\n## 文化的背景\n- Brief notes on cultural background in ";

pub const EXPLANATION_RULES: &'static str =
    " (if relevant)\n\nRules:\n- Use Markdown: ## for headings, **bold** for terms, - for list items\n- Write ALL explanations and headings in ";

pub const EXPLANATION_CLOSING: &'static str =
    "\n- Be practical and concise\n- If a section has no relevant content, DO NOT include the heading at all — omit it completely\n- NEVER write \"N/A\", \"None\", \"該当なし\", \"特にありません\" or similar — just omit the section";

/// How the source language is named inside a prompt.
pub open spec fn source_phrase(source_lang: Seq<char>) -> Seq<char> {
    if source_lang == AUTO_LANGUAGE@ {
        DETECTED_LANGUAGE@
    } else {
        source_lang
    }
}

/// The translation prompt for a text and a pair of languages.
pub open spec fn translation_prompt(
    text: Seq<char>,
    source_lang: Seq<char>,
    target_lang: Seq<char>,
) -> Seq<char> {
    TRANSLATION_OPENING@ + source_phrase(source_lang) + TRANSLATION_JOINT@ + target_lang
        + TRANSLATION_CLOSING@ + text
}

/// The explanation prompt for a text and a pair of languages. The frame carries the rules
/// of form that the backend is asked to keep; nothing here checks that it does.
pub open spec fn explanation_prompt(
    source_text: Seq<char>,
    source_lang: Seq<char>,
    target_lang: Seq<char>,
) -> Seq<char> {
    EXPLANATION_OPENING@ + source_phrase(source_lang) + EXPLANATION_TEXT_HEADING@ + source_text
        + EXPLANATION_LANGUAGE_RULE@ + target_lang + EXPLANATION_LANGUAGE_SCOPE@ + target_lang
        + EXPLANATION_VOCABULARY@ + target_lang + EXPLANATION_IDIOMS@ + target_lang
        + EXPLANATION_CULTURE@ + target_lang + EXPLANATION_RULES@ + target_lang
        + EXPLANATION_CLOSING@
}

/// How the source language is named inside a prompt.
fn source_phrase_of(source_lang: &str) -> (r: &str)
    ensures
        r@ == source_phrase(source_lang@),
{
    if same_text(source_lang, AUTO_LANGUAGE) {
        DETECTED_LANGUAGE
    } else {
        source_lang
    }
}

/// Builds the prompt that asks for a translation of `text`.
pub fn build_translation_prompt(text: &str, source_lang: &str, target_lang: &str) -> (r: String)
    ensures
        r@ == translation_prompt(text@, source_lang@, target_lang@),
{
    let mut out = TRANSLATION_OPENING.to_owned();
    out.append(source_phrase_of(source_lang));
    out.append(TRANSLATION_JOINT);
    out.append(target_lang);
    out.append(TRANSLATION_CLOSING);
    out.append(text);
    out
}

/// Builds the prompt that asks for an explanation of `source_text`, written in
/// `target_lang`.
pub fn build_explanation_prompt(source_text: &str, source_lang: &str, target_lang: &str) -> (r:
    String)
    ensures
        r@ == explanation_prompt(source_text@, source_lang@, target_lang@),
{
    let mut out = EXPLANATION_OPENING.to_owned();
    out.append(source_phrase_of(source_lang));
    out.append(EXPLANATION_TEXT_HEADING);
    out.append(source_text);
    out.append(EXPLANATION_LANGUAGE_RULE);
    out.append(target_lang);
    out.append(EXPLANATION_LANGUAGE_SCOPE);
    out.append(target_lang);
    out.append(EXPLANATION_VOCABULARY);
    out.append(target_lang);
    out.append(EXPLANATION_IDIOMS);
    out.append(target_lang);
    out.append(EXPLANATION_CULTURE);
    out.append(target_lang);
    out.append(EXPLANATION_RULES);
    out.append(target_lang);
    out.append(EXPLANATION_CLOSING);
    out
}

} // verus!
