use translation_backend::dispatch::{
    completion_event, Action, Job, Request, RequestCounter, Signal, TranslationEvent, RESULT_EVENT,
};
use translation_backend::error::{IoFailure, TranslateError};
use translation_backend::model::TranslationResponse;
use translation_backend::response::{Response, Status};
use translation_backend::translator::{Invocation, ToolEvent};

fn submit(counter: &mut RequestCounter, text: &str, source: &str, target: &str) -> Job {
    Job::submit(counter, text.to_string(), source.to_string(), target.to_string())
}

fn request(id: usize, text: &str, source: &str, target: &str) -> Request {
    Request {
        id,
        text: text.to_string(),
        source_lang: source.to_string(),
        target_lang: target.to_string(),
    }
}

#[test]
fn identifiers_start_at_zero_and_count_up() {
    let mut counter = RequestCounter::new();
    for expected in 0..1000usize {
        assert_eq!(counter.issue(), expected);
    }
    let mut other = RequestCounter::default();
    assert_eq!(other.issue(), 0);
    assert_eq!(other.issue(), 1);
}

#[test]
fn identifiers_are_distinct_and_increasing() {
    let mut counter = RequestCounter::new();
    let ids: Vec<usize> = (0..200).map(|_| counter.issue()).collect();
    for i in 0..ids.len() {
        for j in (i + 1)..ids.len() {
            assert!(ids[i] < ids[j]);
        }
    }
}

#[test]
fn each_submission_gets_the_next_identifier() {
    let mut counter = RequestCounter::new();
    let first = submit(&mut counter, "Hello", "en", "es");
    let second = submit(&mut counter, "", "xx", "yy");
    let third = submit(&mut counter, "Hello", "en", "en");
    assert_eq!(first.id(), 0);
    assert_eq!(second.id(), 1);
    assert_eq!(third.id(), 2);
    assert_eq!(first, Job::Submitted(request(0, "Hello", "en", "es")));
    assert_eq!(counter.issue(), 3);
}

#[test]
fn result_event_has_its_name() {
    assert_eq!(RESULT_EVENT, "translation-result");
}

#[test]
fn request_runs_the_tool_and_completes_with_its_answer() {
    let mut counter = RequestCounter::new();
    counter.issue();
    let job = submit(&mut counter, "Hello", "en", "es");
    let (job, action) = job.advance(Signal::Start);
    assert_eq!(job, Job::Running(request(1, "Hello", "en", "es")));
    assert_eq!(
        action,
        Action::Run(Invocation {
            program: "trans".to_string(),
            args: vec![
                "-b".to_string(),
                "-s".to_string(),
                "en".to_string(),
                "-t".to_string(),
                "es".to_string()
            ],
            input: "Hello".to_string(),
        })
    );
    let (job, action) = job.advance(Signal::Finished(ToolEvent::Exited {
        success: true,
        stdout: b"Hola\n".to_vec(),
        stderr: Vec::new(),
    }));
    assert_eq!(job, Job::Completed { id: 1 });
    assert_eq!(job.id(), 1);
    assert_eq!(
        action,
        Action::Emit(TranslationEvent {
            request_id: 1,
            text: "Hello".to_string(),
            source_lang: "en".to_string(),
            target_lang: "es".to_string(),
            response: Response {
                status: Status::Success,
                message: "Translation completed".to_string(),
                data: TranslationResponse {
                    translated_text: "Hola".to_string(),
                    source_lang: "en".to_string(),
                    target_lang: "es".to_string(),
                },
            },
        })
    );
}

#[test]
fn failing_tool_completes_the_request_with_an_error_event() {
    let mut counter = RequestCounter::new();
    let (job, _) = submit(&mut counter, "Hello", "en", "es").advance(Signal::Start);
    let (job, action) = job.advance(Signal::Finished(ToolEvent::Exited {
        success: false,
        stdout: Vec::new(),
        stderr: b"network error".to_vec(),
    }));
    assert_eq!(job, Job::Completed { id: 0 });
    match action {
        Action::Emit(event) => {
            assert_eq!(event.request_id, 0);
            assert_eq!(event.text, "Hello");
            assert_eq!(event.source_lang, "en");
            assert_eq!(event.target_lang, "es");
            assert_eq!(event.response.status, Status::Error);
            assert_eq!(
                event.response.message,
                "Translation failed: Translation failed: network error"
            );
            assert_eq!(event.response.data.translated_text, "");
            assert_eq!(event.response.data.source_lang, "en");
            assert_eq!(event.response.data.target_lang, "es");
        }
        other => panic!("expected an event, got {:?}", other),
    }
}

#[test]
fn process_failure_completes_the_request_with_an_error_event() {
    let mut counter = RequestCounter::new();
    let (job, _) = submit(&mut counter, "Hello", "en", "fr").advance(Signal::Start);
    let (job, action) =
        job.advance(Signal::Finished(ToolEvent::Failed(IoFailure::Write("broken pipe".to_string()))));
    assert_eq!(job, Job::Completed { id: 0 });
    match action {
        Action::Emit(event) => {
            assert_eq!(event.response.status, Status::Error);
            assert_eq!(
                event.response.message,
                "Translation failed: Failed to write to stdin: broken pipe"
            );
        }
        other => panic!("expected an event, got {:?}", other),
    }
}

#[test]
fn settled_requests_complete_when_they_start() {
    let mut counter = RequestCounter::new();
    let cases = [
        ("Hello", "en", "en", Status::Success, "Translation completed", "Hello"),
        ("  ", "en", "es", Status::Error, "Translation failed: Empty text provided", ""),
        ("Hello", "xx", "es", Status::Error, "Translation failed: Unsupported source language: xx", ""),
        ("Hello", "en", "yy", Status::Error, "Translation failed: Unsupported target language: yy", ""),
    ];
    for (id, (text, source, target, status, message, translated)) in cases.into_iter().enumerate() {
        let (job, action) = submit(&mut counter, text, source, target).advance(Signal::Start);
        assert_eq!(job, Job::Completed { id });
        assert_eq!(
            action,
            Action::Emit(TranslationEvent {
                request_id: id,
                text: text.to_string(),
                source_lang: source.to_string(),
                target_lang: target.to_string(),
                response: Response {
                    status,
                    message: message.to_string(),
                    data: TranslationResponse {
                        translated_text: translated.to_string(),
                        source_lang: source.to_string(),
                        target_lang: target.to_string(),
                    },
                },
            })
        );
    }
}

#[test]
fn signals_that_do_not_fit_change_nothing() {
    let mut counter = RequestCounter::new();
    let finished = || {
        Signal::Finished(ToolEvent::Exited { success: true, stdout: b"x".to_vec(), stderr: Vec::new() })
    };
    let (job, action) = submit(&mut counter, "Hello", "en", "es").advance(finished());
    assert_eq!(job, Job::Submitted(request(0, "Hello", "en", "es")));
    assert_eq!(action, Action::Nothing);
    let (job, _) = job.advance(Signal::Start);
    let (job, action) = job.advance(Signal::Start);
    assert_eq!(job, Job::Running(request(0, "Hello", "en", "es")));
    assert_eq!(action, Action::Nothing);
    let (job, _) = job.advance(finished());
    assert_eq!(job, Job::Completed { id: 0 });
    let (job, action) = job.advance(Signal::Start);
    assert_eq!((job, action), (Job::Completed { id: 0 }, Action::Nothing));
    let (job, action) = Job::Completed { id: 0 }.advance(finished());
    assert_eq!((job, action), (Job::Completed { id: 0 }, Action::Nothing));
}

#[test]
fn completion_event_echoes_the_request() {
    let event = completion_event(request(42, "Hello", "en", "es"), Err(TranslateError::EmptyResult));
    assert_eq!(event.request_id, 42);
    assert_eq!(event.text, "Hello");
    assert_eq!(event.source_lang, "en");
    assert_eq!(event.target_lang, "es");
    assert_eq!(event.response.status, Status::Error);
    assert_eq!(event.response.message, "Translation failed: Empty translation result");
    let event = completion_event(request(43, "Hello", "en", "es"), Ok("Hola".to_string()));
    assert_eq!(event.response.status, Status::Success);
    assert_eq!(event.response.message, "Translation completed");
    assert_eq!(event.response.data.translated_text, "Hola");
}
