//! The payloads that travel inside the envelope.

use crate::error::{outcome_view, prefixed, TranslateError, TranslateErrorView};
use crate::languages::supported_languages;
use crate::response::{Response, ResponseView, Status};
use vstd::prelude::*;

verus! {

/// The result of one translation request. After a failure the translated
/// text is empty and the two codes still echo the request.
#[derive(Clone, Debug, PartialEq, Eq)]
pub struct TranslationResponse {
    pub translated_text: String,
    pub source_lang: String,
    pub target_lang: String,
}

pub struct TranslationResponseView {
    pub translated_text: Seq<char>,
    pub source_lang: Seq<char>,
    pub target_lang: Seq<char>,
}

impl View for TranslationResponse {
    type V = TranslationResponseView;

    open spec fn view(&self) -> TranslationResponseView {
        TranslationResponseView {
            translated_text: self.translated_text@,
            source_lang: self.source_lang@,
            target_lang: self.target_lang@,
        }
    }
}

/// One entry of the table of supported languages.
#[derive(Clone, Debug, PartialEq, Eq)]
pub struct Language {
    pub code: String,
    pub name: String,
}

pub struct LanguageView {
    pub code: Seq<char>,
    pub name: Seq<char>,
}

impl View for Language {
    type V = LanguageView;

    open spec fn view(&self) -> LanguageView {
        LanguageView { code: self.code@, name: self.name@ }
    }
}

/// The table of supported languages, as it is handed to the user interface.
#[derive(Clone, Debug, PartialEq, Eq)]
pub struct LanguagesResponse {
    pub languages: Vec<Language>,
}

pub struct LanguagesResponseView {
    pub languages: Seq<LanguageView>,
}

impl View for LanguagesResponse {
    type V = LanguagesResponseView;

    open spec fn view(&self) -> LanguagesResponseView {
        LanguagesResponseView {
            languages: Seq::new(self.languages@.len(), |i: int| self.languages@[i]@),
        }
    }
}

/// The table of supported languages as a payload: one entry for each pair,
/// in the order of the table.
pub open spec fn language_listing() -> LanguagesResponseView {
    LanguagesResponseView {
        languages: Seq::new(
            supported_languages().len(),
            |i: int|
                LanguageView { code: supported_languages()[i].0, name: supported_languages()[i].1 },
        ),
    }
}

/// The envelope for the outcome of a request that names the languages
/// `source` and `target`.
/// Success carries the translated text under `success_message`; a failure
/// carries an empty text under the error's message. Both echo the codes.
pub open spec fn translation_envelope(
    outcome: Result<Seq<char>, TranslateErrorView>,
    source: Seq<char>,
    target: Seq<char>,
    success_message: Seq<char>,
) -> ResponseView<TranslationResponseView> {
    match outcome {
        Ok(translated) => ResponseView {
            status: Status::Success,
            message: success_message,
            data: TranslationResponseView {
                translated_text: translated,
                source_lang: source,
                target_lang: target,
            },
        },
        Err(error) => ResponseView {
            status: Status::Error,
            message: "Translation failed: "@ + error.message(),
            data: TranslationResponseView {
                translated_text: Seq::empty(),
                source_lang: source,
                target_lang: target,
            },
        },
    }
}

/// Wraps the outcome of a request that names `source_lang` and `target_lang`.
pub fn translation_response(
    outcome: Result<String, TranslateError>,
    source_lang: &str,
    target_lang: &str,
    success_message: &str,
) -> (response: Response<TranslationResponse>)
    ensures
        response@ == translation_envelope(
            outcome_view(outcome),
            source_lang@,
            target_lang@,
            success_message@,
        ),
{
    match outcome {
        Ok(translated_text) => {
            let data = TranslationResponse {
                translated_text,
                source_lang: source_lang.to_owned(),
                target_lang: target_lang.to_owned(),
            };
            Response::success(success_message.to_owned(), data)
        },
        Err(error) => {
            let data = TranslationResponse {
                translated_text: String::new(),
                source_lang: source_lang.to_owned(),
                target_lang: target_lang.to_owned(),
            };
            Response::error_with_data(prefixed("Translation failed: ", &error.message()), data)
        },
    }
}

} // verus!
