//! Why a translation did not come about.

use vstd::prelude::*;
use vstd::string::*;

verus! {

/// Which of the two language codes of a request is meant.
#[derive(Clone, Copy, Debug, PartialEq, Eq, Structural)]
pub enum LanguageRole {
    Source,
    Target,
}

/// Where the handling of the external process broke down, with the cause as
/// the operating system described it.
#[derive(Clone, Debug, PartialEq, Eq)]
pub enum IoFailure {
    /// The process could not be launched.
    Spawn(String),
    /// The launched process offered no input stream.
    InputUnavailable,
    /// The text could not be written to the input stream.
    Write(String),
    /// The output could not be collected.
    Wait(String),
}

pub enum IoFailureView {
    Spawn(Seq<char>),
    InputUnavailable,
    Write(Seq<char>),
    Wait(Seq<char>),
}

impl View for IoFailure {
    type V = IoFailureView;

    open spec fn view(&self) -> IoFailureView {
        match self {
            IoFailure::Spawn(cause) => IoFailureView::Spawn(cause@),
            IoFailure::InputUnavailable => IoFailureView::InputUnavailable,
            IoFailure::Write(cause) => IoFailureView::Write(cause@),
            IoFailure::Wait(cause) => IoFailureView::Wait(cause@),
        }
    }
}

impl IoFailureView {
    /// The failure in words.
    pub open spec fn description(self) -> Seq<char> {
        match self {
            IoFailureView::Spawn(cause) => "Failed to execute translation command: "@ + cause,
            IoFailureView::InputUnavailable => "Failed to get stdin"@,
            IoFailureView::Write(cause) => "Failed to write to stdin: "@ + cause,
            IoFailureView::Wait(cause) => "Failed to read output: "@ + cause,
        }
    }
}

impl IoFailure {
    /// The failure in words.
    pub fn description(&self) -> (text: String)
        ensures
            text@ == self@.description(),
    {
        match self {
            IoFailure::Spawn(cause) => prefixed("Failed to execute translation command: ", cause),
            IoFailure::InputUnavailable => "Failed to get stdin".to_owned(),
            IoFailure::Write(cause) => prefixed("Failed to write to stdin: ", cause),
            IoFailure::Wait(cause) => prefixed("Failed to read output: ", cause),
        }
    }
}

/// The ways in which a translation fails.
#[derive(Clone, Debug, PartialEq, Eq)]
pub enum TranslateError {
    /// The text to translate was empty or whitespace only.
    EmptyInput,
    /// A language code is not in the table; the code is carried along.
    UnsupportedLanguage { role: LanguageRole, code: String },
    /// The external tool ended with a nonzero status; its diagnostic output
    /// is carried along.
    ExternalToolFailure { stderr: String },
    /// The external tool could not be run to its end.
    ProcessIOFailure(IoFailure),
    /// The external tool succeeded and printed nothing but whitespace.
    EmptyResult,
}

pub enum TranslateErrorView {
    EmptyInput,
    UnsupportedLanguage { role: LanguageRole, code: Seq<char> },
    ExternalToolFailure { stderr: Seq<char> },
    ProcessIOFailure(IoFailureView),
    EmptyResult,
}

impl View for TranslateError {
    type V = TranslateErrorView;

    open spec fn view(&self) -> TranslateErrorView {
        match self {
            TranslateError::EmptyInput => TranslateErrorView::EmptyInput,
            TranslateError::UnsupportedLanguage { role, code } => TranslateErrorView::UnsupportedLanguage {
                role: *role,
                code: code@,
            },
            TranslateError::ExternalToolFailure { stderr } => TranslateErrorView::ExternalToolFailure {
                stderr: stderr@,
            },
            TranslateError::ProcessIOFailure(failure) => TranslateErrorView::ProcessIOFailure(
                failure@,
            ),
            TranslateError::EmptyResult => TranslateErrorView::EmptyResult,
        }
    }
}

impl TranslateErrorView {
    /// The error in words, as it is shown to the user.
    pub open spec fn message(self) -> Seq<char> {
        match self {
            TranslateErrorView::EmptyInput => "Empty text provided"@,
            TranslateErrorView::UnsupportedLanguage { role: LanguageRole::Source, code } =>
                "Unsupported source language: "@ + code,
            TranslateErrorView::UnsupportedLanguage { role: LanguageRole::Target, code } =>
                "Unsupported target language: "@ + code,
            TranslateErrorView::ExternalToolFailure { stderr } => "Translation failed: "@ + stderr,
            TranslateErrorView::ProcessIOFailure(failure) => failure.description(),
            TranslateErrorView::EmptyResult => "Empty translation result"@,
        }
    }
}

impl TranslateError {
    /// The error in words, as it is shown to the user.
    pub fn message(&self) -> (text: String)
        ensures
            text@ == self@.message(),
    {
        match self {
            TranslateError::EmptyInput => "Empty text provided".to_owned(),
            TranslateError::UnsupportedLanguage { role, code } => match role {
                LanguageRole::Source => prefixed("Unsupported source language: ", code),
                LanguageRole::Target => prefixed("Unsupported target language: ", code),
            },
            TranslateError::ExternalToolFailure { stderr } => prefixed(
                "Translation failed: ",
                stderr,
            ),
            TranslateError::ProcessIOFailure(failure) => failure.description(),
            TranslateError::EmptyResult => "Empty translation result".to_owned(),
        }
    }
}

/// What a translation yields, over models: the translated text or the error.
pub open spec fn outcome_view(outcome: Result<String, TranslateError>) -> Result<
    Seq<char>,
    TranslateErrorView,
> {
    match outcome {
        Ok(text) => Ok(text@),
        Err(error) => Err(error@),
    }
}

/// `head` followed by `tail`, as a new string.
pub fn prefixed(head: &str, tail: &String) -> (text: String)
    ensures
        text@ == head@ + tail@,
{
    let mut text = head.to_owned();
    text.append(tail.as_str());
    text
}

} // verus!
