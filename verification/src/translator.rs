//! One translation, as the decisions before and after a run of the external
//! `trans` tool. Running the tool is left to the caller: the decisions say
//! what to run and what its outcome means.

use crate::error::{
    outcome_view, IoFailure, IoFailureView, LanguageRole, TranslateError, TranslateErrorView,
};
use crate::languages::{
    is_supported, is_supported_code, language_at, supported_languages, LANGUAGE_COUNT,
};
use crate::text::{
    blank, decode, decoded, is_blank, lemma_decoded_encoding, lemma_trim_empty_iff_blank,
    same_text, trim, trimmed,
};
use vstd::prelude::*;
use vstd::utf8::*;

verus! {

/// A command to run: the program, its arguments, and the text to write to its
/// standard input before closing it.
#[derive(Clone, Debug, PartialEq, Eq)]
pub struct Invocation {
    pub program: String,
    pub args: Vec<String>,
    pub input: String,
}

pub struct InvocationView {
    pub program: Seq<char>,
    pub args: Seq<Seq<char>>,
    pub input: Seq<char>,
}

impl View for Invocation {
    type V = InvocationView;

    open spec fn view(&self) -> InvocationView {
        InvocationView { program: self.program@, args: self.args.deep_view(), input: self.input@ }
    }
}

/// The command for a request: `trans` in brief mode with the source and the
/// target language given, fed with the text.
pub open spec fn invocation_for(
    text: Seq<char>,
    source: Seq<char>,
    target: Seq<char>,
) -> InvocationView {
    InvocationView {
        program: "trans"@,
        args: seq!["-b"@, "-s"@, source, "-t"@, target],
        input: text,
    }
}

/// How a run of the external tool ended.
#[derive(Clone, Debug, PartialEq, Eq)]
pub enum ToolEvent {
    /// The tool could not be run to its end.
    Failed(IoFailure),
    /// The tool ran and exited; `success` tells whether its status was zero.
    Exited { success: bool, stdout: Vec<u8>, stderr: Vec<u8> },
}

pub enum ToolEventView {
    Failed(IoFailureView),
    Exited { success: bool, stdout: Seq<u8>, stderr: Seq<u8> },
}

impl View for ToolEvent {
    type V = ToolEventView;

    open spec fn view(&self) -> ToolEventView {
        match self {
            ToolEvent::Failed(failure) => ToolEventView::Failed(failure@),
            ToolEvent::Exited { success, stdout, stderr } => ToolEventView::Exited {
                success: *success,
                stdout: stdout@,
                stderr: stderr@,
            },
        }
    }
}

/// What is to happen with a request once it has been looked at.
#[derive(Debug, PartialEq, Eq)]
pub enum Decision {
    /// The outcome is known without running anything.
    Settled(Result<String, TranslateError>),
    /// The external tool has to be run with this command.
    Invoke(Invocation),
}

pub enum DecisionView {
    Settled(Result<Seq<char>, TranslateErrorView>),
    Invoke(InvocationView),
}

impl View for Decision {
    type V = DecisionView;

    open spec fn view(&self) -> DecisionView {
        match self {
            Decision::Settled(outcome) => DecisionView::Settled(outcome_view(*outcome)),
            Decision::Invoke(invocation) => DecisionView::Invoke(invocation@),
        }
    }
}

/// What a request comes to before anything is run. Blank text is refused
/// first; equal codes, supported or not, then give the text back as it is;
/// after that the source code is looked up before the target code.
pub open spec fn decision(text: Seq<char>, source: Seq<char>, target: Seq<char>) -> DecisionView {
    if is_blank(text) {
        DecisionView::Settled(Err(TranslateErrorView::EmptyInput))
    } else if source == target {
        DecisionView::Settled(Ok(text))
    } else if !is_supported_code(source) {
        DecisionView::Settled(
            Err(TranslateErrorView::UnsupportedLanguage { role: LanguageRole::Source, code: source }),
        )
    } else if !is_supported_code(target) {
        DecisionView::Settled(
            Err(TranslateErrorView::UnsupportedLanguage { role: LanguageRole::Target, code: target }),
        )
    } else {
        DecisionView::Invoke(invocation_for(text, source, target))
    }
}

/// What the decoded output of a tool that exited means: a nonzero status is
/// a failure that carries the diagnostics as they are; otherwise the trimmed
/// output is the translation, unless nothing is left of it.
pub open spec fn exit_verdict(success: bool, stdout: Seq<char>, stderr: Seq<char>) -> Result<
    Seq<char>,
    TranslateErrorView,
> {
    if !success {
        Err(TranslateErrorView::ExternalToolFailure { stderr })
    } else if is_blank(stdout) {
        Err(TranslateErrorView::EmptyResult)
    } else {
        Ok(trim(stdout))
    }
}

/// What the end of a run means for the translation.
pub open spec fn verdict(event: ToolEventView) -> Result<Seq<char>, TranslateErrorView> {
    match event {
        ToolEventView::Failed(failure) => Err(TranslateErrorView::ProcessIOFailure(failure)),
        ToolEventView::Exited { success, stdout, stderr } => exit_verdict(
            success,
            decoded(stdout),
            decoded(stderr),
        ),
    }
}

/// A tool that exits with status zero after printing `text` as UTF-8 yields
/// the trimmed text, or an empty result where `text` is blank.
pub proof fn lemma_verdict_of_printed_text(text: Seq<char>, stderr: Seq<u8>)
    ensures
        is_blank(text) ==> verdict(
            ToolEventView::Exited { success: true, stdout: encode_utf8(text), stderr },
        ) == Err::<Seq<char>, TranslateErrorView>(TranslateErrorView::EmptyResult),
        !is_blank(text) ==> verdict(
            ToolEventView::Exited { success: true, stdout: encode_utf8(text), stderr },
        ) == Ok::<Seq<char>, TranslateErrorView>(trim(text)),
{
    lemma_decoded_encoding(text);
}

/// A tool that exits with a nonzero status yields a failure that carries
/// what it wrote to its error stream, whatever it printed.
pub proof fn lemma_verdict_of_failure(stdout: Seq<u8>, diagnostics: Seq<char>)
    ensures
        verdict(
            ToolEventView::Exited { success: false, stdout, stderr: encode_utf8(diagnostics) },
        ) == Err::<Seq<char>, TranslateErrorView>(
            TranslateErrorView::ExternalToolFailure { stderr: diagnostics },
        ),
{
    lemma_decoded_encoding(diagnostics);
}

/// Whether `outcome` is what the request comes to when `run` stands for the
/// external tool: the settled outcome where there is one, and otherwise the
/// verdict on what `run` reports for the command of the request.
pub open spec fn translates<F: FnOnce(Invocation) -> ToolEvent>(
    run: F,
    text: Seq<char>,
    source: Seq<char>,
    target: Seq<char>,
    outcome: Result<Seq<char>, TranslateErrorView>,
) -> bool {
    match decision(text, source, target) {
        DecisionView::Settled(settled) => outcome == settled,
        DecisionView::Invoke(command) => exists|invocation: Invocation, event: ToolEvent|
            {
                &&& invocation@ == command
                &&& #[trigger] call_ensures(run, (invocation,), event)
                &&& outcome == verdict(event@)
            },
    }
}

/// Validates requests and interprets what the external tool answers.
#[derive(Clone, Copy, Debug, PartialEq, Eq)]
pub struct Translator;

impl Translator {
    pub fn new() -> (translator: Self) {
        Translator
    }

    /// The table of supported languages, in declaration order.
    pub fn get_supported_languages() -> (languages: Vec<(String, String)>)
        ensures
            languages@.len() == LANGUAGE_COUNT,
            languages.deep_view() == supported_languages(),
    {
        let mut languages: Vec<(String, String)> = Vec::new();
        let mut i: usize = 0;
        while i < LANGUAGE_COUNT
            invariant
                i <= LANGUAGE_COUNT == supported_languages().len(),
                languages@.len() == i,
                forall|j: int|
                    0 <= j < i ==> (#[trigger] languages@[j]).deep_view() == supported_languages()[j],
            decreases LANGUAGE_COUNT - i,
        {
            let (code, name) = language_at(i);
            languages.push((code.to_owned(), name.to_owned()));
            i = i + 1;
        }
        assert(languages.deep_view() =~= supported_languages());
        languages
    }

    /// Looks at a request and says whether its outcome is settled already or
    /// which command has to be run for it.
    pub fn prepare(&self, text: &str, source_lang: &str, target_lang: &str) -> (step: Decision)
        ensures
            step@ == decision(text@, source_lang@, target_lang@),
            is_blank(text@) ==> step@ == DecisionView::Settled(Err(TranslateErrorView::EmptyInput)),
            !is_blank(text@) && source_lang@ == target_lang@ ==> step@ == DecisionView::Settled(
                Ok(text@),
            ),
            !is_blank(text@) && source_lang@ != target_lang@ && !is_supported_code(source_lang@)
                ==> step@ == DecisionView::Settled(
                Err(
                    TranslateErrorView::UnsupportedLanguage {
                        role: LanguageRole::Source,
                        code: source_lang@,
                    },
                ),
            ),
            !is_blank(text@) && source_lang@ != target_lang@ && is_supported_code(source_lang@)
                && !is_supported_code(target_lang@) ==> step@ == DecisionView::Settled(
                Err(
                    TranslateErrorView::UnsupportedLanguage {
                        role: LanguageRole::Target,
                        code: target_lang@,
                    },
                ),
            ),
            !is_blank(text@) && source_lang@ != target_lang@ && is_supported_code(source_lang@)
                && is_supported_code(target_lang@) ==> step@ == DecisionView::Invoke(
                invocation_for(text@, source_lang@, target_lang@),
            ),
    {
        if blank(text) {
            return Decision::Settled(Err(TranslateError::EmptyInput));
        }
        if same_text(source_lang, target_lang) {
            return Decision::Settled(Ok(text.to_owned()));
        }
        if !is_supported(source_lang) {
            return Decision::Settled(
                Err(
                    TranslateError::UnsupportedLanguage {
                        role: LanguageRole::Source,
                        code: source_lang.to_owned(),
                    },
                ),
            );
        }
        if !is_supported(target_lang) {
            return Decision::Settled(
                Err(
                    TranslateError::UnsupportedLanguage {
                        role: LanguageRole::Target,
                        code: target_lang.to_owned(),
                    },
                ),
            );
        }
        let mut args: Vec<String> = Vec::new();
        args.push("-b".to_owned());
        args.push("-s".to_owned());
        args.push(source_lang.to_owned());
        args.push("-t".to_owned());
        args.push(target_lang.to_owned());
        let invocation = Invocation { program: "trans".to_owned(), args, input: text.to_owned() };
        assert(invocation.args.deep_view() =~= invocation_for(
            text@,
            source_lang@,
            target_lang@,
        ).args);
        Decision::Invoke(invocation)
    }

    /// Reads the decoded output of a tool that exited.
    pub fn classify(success: bool, stdout: &str, stderr: &str) -> (outcome: Result<
        String,
        TranslateError,
    >)
        ensures
            outcome_view(outcome) == exit_verdict(success, stdout@, stderr@),
    {
        if !success {
            return Err(TranslateError::ExternalToolFailure { stderr: stderr.to_owned() });
        }
        let translated = trimmed(stdout);
        proof {
            lemma_trim_empty_iff_blank(stdout@);
        }
        if translated.is_empty() {
            return Err(TranslateError::EmptyResult);
        }
        Ok(translated.to_owned())
    }

    /// Says what the end of a run means for the translation. The tool's
    /// output is decoded leniently, invalid bytes and all, before it is read.
    pub fn conclude(&self, event: ToolEvent) -> (outcome: Result<String, TranslateError>)
        ensures
            outcome_view(outcome) == verdict(event@),
            event matches ToolEvent::Failed(failure) ==> outcome_view(outcome) == Err::<
                Seq<char>,
                TranslateErrorView,
            >(TranslateErrorView::ProcessIOFailure(failure@)),
    {
        match event {
            ToolEvent::Failed(failure) => Err(TranslateError::ProcessIOFailure(failure)),
            ToolEvent::Exited { success, stdout, stderr } => {
                let out = decode(stdout.as_slice());
                let err = decode(stderr.as_slice());
                Self::classify(success, out.as_str(), err.as_str())
            },
        }
    }

    /// Translates `text`, handing the command to `run` where the external
    /// tool is needed. Where the request is settled beforehand `run` is not
    /// called; otherwise it is called once, with the command for the request,
    /// and what it reports decides the outcome.
    pub fn translate<F: FnOnce(Invocation) -> ToolEvent>(
        &self,
        text: &str,
        source_lang: &str,
        target_lang: &str,
        run: F,
    ) -> (outcome: Result<String, TranslateError>)
        requires
            forall|invocation: Invocation|
                invocation@ == invocation_for(text@, source_lang@, target_lang@)
                    ==> call_requires(run, (invocation,)),
        ensures
            is_blank(text@) ==> outcome_view(outcome) == Err::<Seq<char>, TranslateErrorView>(
                TranslateErrorView::EmptyInput,
            ),
            !is_blank(text@) && source_lang@ == target_lang@ ==> outcome_view(outcome) == Ok::<
                Seq<char>,
                TranslateErrorView,
            >(text@),
            !is_blank(text@) && source_lang@ != target_lang@ && !is_supported_code(source_lang@)
                ==> outcome_view(outcome) == Err::<Seq<char>, TranslateErrorView>(
                TranslateErrorView::UnsupportedLanguage {
                    role: LanguageRole::Source,
                    code: source_lang@,
                },
            ),
            !is_blank(text@) && source_lang@ != target_lang@ && is_supported_code(source_lang@)
                && !is_supported_code(target_lang@) ==> outcome_view(outcome) == Err::<
                Seq<char>,
                TranslateErrorView,
            >(
                TranslateErrorView::UnsupportedLanguage {
                    role: LanguageRole::Target,
                    code: target_lang@,
                },
            ),
            translates(run, text@, source_lang@, target_lang@, outcome_view(outcome)),
    {
        match self.prepare(text, source_lang, target_lang) {
            Decision::Settled(outcome) => outcome,
            Decision::Invoke(invocation) => {
                let ghost handed = invocation;
                let event = run(invocation);
                let ghost reported = event;
                let outcome = self.conclude(event);
                assert(call_ensures(run, (handed,), reported));
                outcome
            },
        }
    }
}

impl Default for Translator {
    fn default() -> (translator: Self) {
        Translator::new()
    }
}

} // verus!
