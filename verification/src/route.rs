//! The two operations as the user interface reaches them.

use crate::languages::LANGUAGE_COUNT;
use crate::model::{LanguagesResponse, TranslationResponse};
use crate::response::{Response, Status};
use crate::service::{answers, listing_envelope, TranslationService};
use crate::translator::{invocation_for, Invocation, ToolEvent};
use vstd::prelude::*;

verus! {

/// Hands the operations on to the service.
#[derive(Clone, Copy, Debug, PartialEq, Eq)]
pub struct TranslationRoute;

impl TranslationRoute {
    /// Lists the supported languages.
    pub fn get_supported_languages(service: &TranslationService) -> (response: Response<
        LanguagesResponse,
    >)
        ensures
            response@ == listing_envelope(),
            response.data.languages@.len() == LANGUAGE_COUNT,
    {
        service.get_supported_languages()
    }

    /// Translates `text` from `source_lang` to `target_lang`; `run` stands
    /// for the external tool.
    pub fn translate_text<F: FnOnce(Invocation) -> ToolEvent>(
        text: String,
        source_lang: String,
        target_lang: String,
        service: &TranslationService,
        run: F,
    ) -> (response: Response<TranslationResponse>)
        requires
            forall|invocation: Invocation|
                invocation@ == invocation_for(text@, source_lang@, target_lang@)
                    ==> call_requires(run, (invocation,)),
        ensures
            answers(run, text@, source_lang@, target_lang@, response@),
            response.status == Status::Success || response.status == Status::Error,
            response.data.source_lang@ == source_lang@,
            response.data.target_lang@ == target_lang@,
    {
        service.translate(text.as_str(), source_lang.as_str(), target_lang.as_str(), run)
    }
}

} // verus!
