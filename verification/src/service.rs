//! The service between the user interface and the translator: every
//! outcome, good or bad, leaves it inside an envelope.

use crate::error::{outcome_view, TranslateError, TranslateErrorView};
use crate::languages::{supported_languages, LANGUAGE_COUNT};
use crate::model::{
    language_listing, translation_envelope, translation_response, Language, LanguagesResponse,
    TranslationResponse, TranslationResponseView,
};
use crate::response::{Response, ResponseView, Status};
use crate::text::is_blank;
use crate::translator::{invocation_for, translates, Invocation, ToolEvent, Translator};
use vstd::prelude::*;

verus! {

/// The envelope that answers a listing of the supported languages.
pub open spec fn listing_envelope() -> ResponseView<crate::model::LanguagesResponseView> {
    ResponseView {
        status: Status::Success,
        message: "Languages retrieved successfully"@,
        data: language_listing(),
    }
}

/// The envelope that the service makes of the outcome of a translation.
pub open spec fn service_envelope(
    outcome: Result<Seq<char>, TranslateErrorView>,
    source: Seq<char>,
    target: Seq<char>,
) -> ResponseView<TranslationResponseView> {
    translation_envelope(outcome, source, target, "Translation completed successfully"@)
}

/// Whether `response` is what the service answers to the request when `run`
/// stands for the external tool.
pub open spec fn answers<F: FnOnce(Invocation) -> ToolEvent>(
    run: F,
    text: Seq<char>,
    source: Seq<char>,
    target: Seq<char>,
    response: ResponseView<TranslationResponseView>,
) -> bool {
    exists|outcome: Result<Seq<char>, TranslateErrorView>|
        #[trigger] translates(run, text, source, target, outcome) && response == service_envelope(
            outcome,
            source,
            target,
        )
}

/// Owns the translator and wraps what it yields.
#[derive(Clone, Copy, Debug, PartialEq, Eq)]
pub struct TranslationService {
    translator: Translator,
}

impl TranslationService {
    pub fn new() -> (service: Self) {
        let translator = Translator::new();
        TranslationService { translator }
    }

    /// The supported languages in an envelope: always a success, always the
    /// whole table in its order.
    pub fn get_supported_languages(&self) -> (response: Response<LanguagesResponse>)
        ensures
            response@ == listing_envelope(),
            response.status == Status::Success,
            response.data.languages@.len() == LANGUAGE_COUNT,
    {
        let pairs = Translator::get_supported_languages();
        let mut languages: Vec<Language> = Vec::new();
        let mut i: usize = 0;
        while i < pairs.len()
            invariant
                i <= pairs@.len() == supported_languages().len(),
                pairs.deep_view() == supported_languages(),
                languages@.len() == i,
                forall|j: int|
                    0 <= j < i ==> (#[trigger] languages@[j]).code@ == supported_languages()[j].0
                        && languages@[j].name@ == supported_languages()[j].1,
            decreases pairs@.len() - i,
        {
            assert(pairs.deep_view()[i as int] == supported_languages()[i as int]);
            languages.push(Language { code: pairs[i].0.clone(), name: pairs[i].1.clone() });
            i = i + 1;
        }
        let data = LanguagesResponse { languages };
        assert(data@.languages =~= language_listing().languages);
        Response::success("Languages retrieved successfully".to_owned(), data)
    }

    /// Wraps the outcome of a request that names `source_lang` and
    /// `target_lang`: a failure becomes an error envelope with an empty text.
    pub fn respond(
        outcome: Result<String, TranslateError>,
        source_lang: &str,
        target_lang: &str,
    ) -> (response: Response<TranslationResponse>)
        ensures
            response@ == service_envelope(outcome_view(outcome), source_lang@, target_lang@),
    {
        translation_response(
            outcome,
            source_lang,
            target_lang,
            "Translation completed successfully",
        )
    }

    /// Translates `text` and wraps the outcome; `run` stands for the external
    /// tool. No failure leaves this function other than as an error envelope.
    pub fn translate<F: FnOnce(Invocation) -> ToolEvent>(
        &self,
        text: &str,
        source_lang: &str,
        target_lang: &str,
        run: F,
    ) -> (response: Response<TranslationResponse>)
        requires
            forall|invocation: Invocation|
                invocation@ == invocation_for(text@, source_lang@, target_lang@)
                    ==> call_requires(run, (invocation,)),
        ensures
            answers(run, text@, source_lang@, target_lang@, response@),
            response.status == Status::Success || response.status == Status::Error,
            response.status == Status::Error ==> response.data.translated_text@.len() == 0,
            response.data.source_lang@ == source_lang@,
            response.data.target_lang@ == target_lang@,
            is_blank(text@) ==> response@ == service_envelope(
                Err(TranslateErrorView::EmptyInput),
                source_lang@,
                target_lang@,
            ),
            !is_blank(text@) && source_lang@ == target_lang@ ==> response@ == service_envelope(
                Ok(text@),
                source_lang@,
                target_lang@,
            ),
    {
        let outcome = self.translator.translate(text, source_lang, target_lang, run);
        Self::respond(outcome, source_lang, target_lang)
    }
}

impl Default for TranslationService {
    fn default() -> (service: Self) {
        TranslationService::new()
    }
}

} // verus!
