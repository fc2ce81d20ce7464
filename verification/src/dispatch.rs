//! The asynchronous side of a translation: a request gets its identifier at
//! once, runs in the background, and ends with one event for the user
//! interface. Here stand the decisions; running the tool and sending the
//! event are left to the caller.

use crate::error::{outcome_view, TranslateError, TranslateErrorView};
use crate::model::{
    translation_envelope, translation_response, TranslationResponse, TranslationResponseView,
};
use crate::response::{Response, ResponseView};
use crate::translator::{
    decision, verdict, Decision, DecisionView, Invocation, InvocationView, ToolEvent,
    ToolEventView, Translator,
};
use vstd::arithmetic::div_mod::{
    lemma_add_mod_noop, lemma_mod_equivalence, lemma_mod_self_0, lemma_small_mod,
};
use vstd::prelude::*;

verus! {

/// The identifier that follows `id`. After the largest one the count starts
/// over at zero.
pub open spec fn following(id: usize) -> usize {
    if id == usize::MAX {
        0
    } else {
        (id + 1) as usize
    }
}

/// The identifier of the `n`-th request after the one that got `first`.
pub open spec fn nth_id(first: usize, n: nat) -> usize
    decreases n,
{
    if n == 0 {
        first
    } else {
        following(nth_id(first, (n - 1) as nat))
    }
}

/// Hands out request identifiers: zero first, then one more each time.
#[derive(Debug)]
pub struct RequestCounter {
    next: usize,
}

impl RequestCounter {
    /// The identifier that the next request will get.
    pub closed spec fn upcoming(&self) -> usize {
        self.next
    }

    pub fn new() -> (counter: Self)
        ensures
            counter.upcoming() == 0,
    {
        RequestCounter { next: 0 }
    }

    /// Takes the next identifier.
    pub fn issue(&mut self) -> (id: usize)
        ensures
            id == old(self).upcoming(),
            final(self).upcoming() == following(id),
    {
        let id = self.next;
        self.next = if id == usize::MAX {
            0
        } else {
            id + 1
        };
        id
    }
}

impl Default for RequestCounter {
    fn default() -> (counter: Self)
        ensures
            counter.upcoming() == 0,
    {
        RequestCounter::new()
    }
}

/// As long as the count has not started over, the `n`-th identifier after
/// `first` is `first + n`.
pub proof fn lemma_nth_id_counts(first: usize, n: nat)
    requires
        first + n <= usize::MAX,
    ensures
        nth_id(first, n) == first + n,
    decreases n,
{
    if n > 0 {
        lemma_nth_id_counts(first, (n - 1) as nat);
    }
}

/// Requests submitted one after another get strictly increasing
/// identifiers, none of them twice, as long as the count has not started
/// over.
pub proof fn lemma_ids_strictly_increase(first: usize, earlier: nat, later: nat)
    requires
        earlier < later,
        first + later <= usize::MAX,
    ensures
        nth_id(first, earlier) < nth_id(first, later),
        nth_id(first, earlier) != nth_id(first, later),
{
    lemma_nth_id_counts(first, earlier);
    lemma_nth_id_counts(first, later);
}

/// The `n`-th identifier after `first` is `first + n`, counted around the
/// range of identifiers.
pub proof fn lemma_nth_id_wraps(first: usize, n: nat)
    ensures
        nth_id(first, n) == (first + n) % (usize::MAX + 1),
    decreases n,
{
    let m = usize::MAX + 1;
    if n == 0 {
        lemma_small_mod(first as nat, m as nat);
    } else {
        lemma_nth_id_wraps(first, (n - 1) as nat);
        let before = (first + n - 1) % m;
        lemma_add_mod_noop(first + n - 1, 1, m);
        lemma_small_mod(1, m as nat);
        if before == usize::MAX {
            lemma_mod_self_0(m);
        } else {
            lemma_small_mod((before + 1) as nat, m as nat);
        }
    }
}

/// No identifier is handed out twice among as many requests in a row as
/// there are identifiers, even where the count starts over among them.
pub proof fn lemma_ids_distinct(first: usize, earlier: nat, later: nat)
    requires
        earlier < later,
        later - earlier <= usize::MAX,
    ensures
        nth_id(first, earlier) != nth_id(first, later),
{
    let m = usize::MAX + 1;
    lemma_nth_id_wraps(first, earlier);
    lemma_nth_id_wraps(first, later);
    lemma_mod_equivalence(first + later, first + earlier, m);
    lemma_small_mod((later - earlier) as nat, m as nat);
}

/// The name under which the closing event of a request is sent.
pub const RESULT_EVENT: &'static str = "translation-result";

/// A translation request with the identifier it was given.
#[derive(Clone, Debug, PartialEq, Eq)]
pub struct Request {
    pub id: usize,
    pub text: String,
    pub source_lang: String,
    pub target_lang: String,
}

pub struct RequestView {
    pub id: usize,
    pub text: Seq<char>,
    pub source_lang: Seq<char>,
    pub target_lang: Seq<char>,
}

impl View for Request {
    type V = RequestView;

    open spec fn view(&self) -> RequestView {
        RequestView {
            id: self.id,
            text: self.text@,
            source_lang: self.source_lang@,
            target_lang: self.target_lang@,
        }
    }
}

/// What is sent to the user interface when a request has ended: the
/// envelope with the outcome, and the request it belongs to.
#[derive(Clone, Debug, PartialEq, Eq)]
pub struct TranslationEvent {
    pub request_id: usize,
    pub text: String,
    pub source_lang: String,
    pub target_lang: String,
    pub response: Response<TranslationResponse>,
}

pub struct TranslationEventView {
    pub request_id: usize,
    pub text: Seq<char>,
    pub source_lang: Seq<char>,
    pub target_lang: Seq<char>,
    pub response: ResponseView<TranslationResponseView>,
}

impl View for TranslationEvent {
    type V = TranslationEventView;

    open spec fn view(&self) -> TranslationEventView {
        TranslationEventView {
            request_id: self.request_id,
            text: self.text@,
            source_lang: self.source_lang@,
            target_lang: self.target_lang@,
            response: self.response@,
        }
    }
}

/// The closing event of `request` for the given outcome.
pub open spec fn completion(
    request: RequestView,
    outcome: Result<Seq<char>, TranslateErrorView>,
) -> TranslationEventView {
    TranslationEventView {
        request_id: request.id,
        text: request.text,
        source_lang: request.source_lang,
        target_lang: request.target_lang,
        response: translation_envelope(
            outcome,
            request.source_lang,
            request.target_lang,
            "Translation completed"@,
        ),
    }
}

/// Builds the closing event of `request`.
pub fn completion_event(request: Request, outcome: Result<String, TranslateError>) -> (event:
    TranslationEvent)
    ensures
        event@ == completion(request@, outcome_view(outcome)),
{
    let response = translation_response(
        outcome,
        request.source_lang.as_str(),
        request.target_lang.as_str(),
        "Translation completed",
    );
    TranslationEvent {
        request_id: request.id,
        text: request.text,
        source_lang: request.source_lang,
        target_lang: request.target_lang,
        response,
    }
}

/// A request on its way: submitted, then running while the external tool
/// works on it, then completed. There is no way back and no way out: a
/// request cannot be cancelled.
#[derive(Debug, PartialEq, Eq)]
pub enum Job {
    /// The identifier is assigned; nothing has been looked at yet.
    Submitted(Request),
    /// The external tool has been asked and has not answered yet.
    Running(Request),
    /// The closing event has been handed out.
    Completed { id: usize },
}

pub enum JobView {
    Submitted(RequestView),
    Running(RequestView),
    Completed { id: usize },
}

impl View for Job {
    type V = JobView;

    open spec fn view(&self) -> JobView {
        match self {
            Job::Submitted(request) => JobView::Submitted(request@),
            Job::Running(request) => JobView::Running(request@),
            Job::Completed { id } => JobView::Completed { id: *id },
        }
    }
}

impl JobView {
    /// The identifier of the request.
    pub open spec fn id(self) -> usize {
        match self {
            JobView::Submitted(request) => request.id,
            JobView::Running(request) => request.id,
            JobView::Completed { id } => id,
        }
    }
}

/// What a job is told.
#[derive(Debug, PartialEq, Eq)]
pub enum Signal {
    /// The background work on the request begins.
    Start,
    /// The external tool has ended.
    Finished(ToolEvent),
}

pub enum SignalView {
    Start,
    Finished(ToolEventView),
}

impl View for Signal {
    type V = SignalView;

    open spec fn view(&self) -> SignalView {
        match self {
            Signal::Start => SignalView::Start,
            Signal::Finished(event) => SignalView::Finished(event@),
        }
    }
}

/// What the caller has to do after a step.
#[derive(Debug, PartialEq, Eq)]
pub enum Action {
    /// Run this command and report how it ended.
    Run(Invocation),
    /// Send this event; the request is done.
    Emit(TranslationEvent),
    /// The signal did not fit the state of the job, which is unchanged.
    Nothing,
}

pub enum ActionView {
    Run(InvocationView),
    Emit(TranslationEventView),
    Nothing,
}

impl View for Action {
    type V = ActionView;

    open spec fn view(&self) -> ActionView {
        match self {
            Action::Run(invocation) => ActionView::Run(invocation@),
            Action::Emit(event) => ActionView::Emit(event@),
            Action::Nothing => ActionView::Nothing,
        }
    }
}

/// One step of a job. A submitted job that starts either is settled at once
/// and completes with its event, or asks for the external tool and runs. A
/// running job completes with its event when the tool has ended. Any other
/// signal changes nothing.
pub open spec fn advanced(job: JobView, signal: SignalView) -> (JobView, ActionView) {
    match (job, signal) {
        (JobView::Submitted(request), SignalView::Start) => match decision(
            request.text,
            request.source_lang,
            request.target_lang,
        ) {
            DecisionView::Settled(outcome) => (
                JobView::Completed { id: request.id },
                ActionView::Emit(completion(request, outcome)),
            ),
            DecisionView::Invoke(command) => (JobView::Running(request), ActionView::Run(command)),
        },
        (JobView::Running(request), SignalView::Finished(event)) => (
            JobView::Completed { id: request.id },
            ActionView::Emit(completion(request, verdict(event))),
        ),
        _ => (job, ActionView::Nothing),
    }
}

impl Job {
    /// Accepts a request: it gets the next identifier of `counter`.
    pub fn submit(
        counter: &mut RequestCounter,
        text: String,
        source_lang: String,
        target_lang: String,
    ) -> (job: Job)
        ensures
            job@ == JobView::Submitted(
                RequestView {
                    id: old(counter).upcoming(),
                    text: text@,
                    source_lang: source_lang@,
                    target_lang: target_lang@,
                },
            ),
            final(counter).upcoming() == following(old(counter).upcoming()),
    {
        let id = counter.issue();
        Job::Submitted(Request { id, text, source_lang, target_lang })
    }

    /// The identifier of the request.
    pub fn id(&self) -> (id: usize)
        ensures
            id == self@.id(),
    {
        match self {
            Job::Submitted(request) => request.id,
            Job::Running(request) => request.id,
            Job::Completed { id } => *id,
        }
    }

    /// Takes one step.
    pub fn advance(self, signal: Signal) -> (step: (Job, Action))
        ensures
            (step.0@, step.1@) == advanced(self@, signal@),
            step.0@.id() == self@.id(),
    {
        match self {
            Job::Submitted(request) => match signal {
                Signal::Start => {
                    let decided = Translator::new().prepare(
                        request.text.as_str(),
                        request.source_lang.as_str(),
                        request.target_lang.as_str(),
                    );
                    match decided {
                        Decision::Settled(outcome) => {
                            let id = request.id;
                            (Job::Completed { id }, Action::Emit(completion_event(request, outcome)))
                        },
                        Decision::Invoke(invocation) => (
                            Job::Running(request),
                            Action::Run(invocation),
                        ),
                    }
                },
                Signal::Finished(_) => (Job::Submitted(request), Action::Nothing),
            },
            Job::Running(request) => match signal {
                Signal::Start => (Job::Running(request), Action::Nothing),
                Signal::Finished(event) => {
                    let id = request.id;
                    let outcome = Translator::new().conclude(event);
                    (Job::Completed { id }, Action::Emit(completion_event(request, outcome)))
                },
            },
            Job::Completed { id } => (Job::Completed { id }, Action::Nothing),
        }
    }
}

/// A request that was submitted runs to its end whatever the external tool
/// does: it completes when it starts, or it runs and completes when the
/// tool has ended. Its one event is handed out on the step that completes
/// it and belongs to the request.
pub proof fn lemma_runs_to_completion(request: RequestView, event: ToolEventView)
    ensures
        ({
            let (started, first) = advanced(JobView::Submitted(request), SignalView::Start);
            let (ended, second) = advanced(started, SignalView::Finished(event));
            if started is Completed {
                &&& first matches ActionView::Emit(sent)
                &&& sent.request_id == request.id
                &&& ended == started
                &&& second is Nothing
            } else {
                &&& started == JobView::Running(request)
                &&& first is Run
                &&& ended == (JobView::Completed { id: request.id })
                &&& second matches ActionView::Emit(sent)
                &&& sent.request_id == request.id
            }
        }),
{
}

/// A completed request stays completed, and nothing more is sent for it.
pub proof fn lemma_completed_is_final(id: usize, signal: SignalView)
    ensures
        advanced(JobView::Completed { id }, signal) == (
            JobView::Completed { id },
            ActionView::Nothing,
        ),
{
}

} // verus!
