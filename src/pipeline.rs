use vstd::prelude::*;

use crate::catalog::{full_name_of, QuestionType};
use crate::client::is_success_status;
use crate::html::{generate_html_content_impl, question_page, QuestionContent};
use crate::text::{decimal, decimal_string};

verus! {

/// How many times a job fetches its question before it gives up.
pub const MAX_FETCH_ATTEMPTS: u32 = 3;

/// How long a job waits before it fetches again, in milliseconds.
pub const RETRY_DELAY_MILLIS: u64 = 1000;

/// The words every photo caption starts with.
pub const CAPTION_PREFIX: &'static str = "You can do it! 💪";

/// Where a delivery job stands.
#[derive(Debug, Clone, Copy, PartialEq, Eq, Structural)]
pub enum Stage {
    Fetching,
    Rendering,
    Hosting,
    Sending,
    Done,
    Failed,
}

/// Why a stage of a delivery failed.
#[derive(Debug, Clone, PartialEq, Eq)]
pub enum DeliveryError {
    /// The network or HTTP layer failed before a body could be read.
    Transport(String),
    /// A well-formed answer that reports a failure, with its description.
    Api(String),
    /// The question has no content behind it.
    NotFound(String),
    /// The renderer exited with a failure.
    Render(String),
    /// The image could not be uploaded, or the release not resolved.
    Hosting(String),
}

impl DeliveryError {
    /// Errors of the fetch stage that are worth another attempt.
    pub open spec fn retryable(&self) -> bool {
        self is Transport || self is Api
    }

    pub fn is_retryable(&self) -> (r: bool)
        ensures
            r == self.retryable(),
    {
        matches!(self, DeliveryError::Transport(_) | DeliveryError::Api(_))
    }
}

/// What the world reports back after a job's action was carried out.
#[derive(Debug)]
pub enum Event {
    Fetched(QuestionContent),
    FetchFailed(DeliveryError),
    Rendered,
    RenderFailed(String),
    Hosted(String),
    HostFailed(String),
    Sent,
    SendFailed(String),
}

/// What a job asks the world to do next.
#[derive(Debug, PartialEq, Eq)]
pub enum Action {
    /// Wait `delay_millis`, then fetch the content of the question `id`.
    Fetch { id: String, delay_millis: u64 },
    /// Render the page `html` to an image file named `file_name`.
    Render { html: String, file_name: String },
    /// Upload the rendered image, then delete the local file.
    Host,
    /// Send the hosted image to one recipient.
    Send { recipient: String, photo_url: String, caption: String },
    /// The job has ended; see `DeliveryJob::finish`.
    Finish,
}

/// One delivery of one question to a set of recipients.
#[derive(Debug)]
pub struct DeliveryJob {
    pub recipients: Vec<String>,
    pub question_type: QuestionType,
    pub question_id: String,
    pub show_explanations: bool,
    pub stage: Stage,
    /// Fetches started so far.
    pub attempts: u32,
    /// The source link of the fetched content.
    pub source: String,
    /// Where the rendered image is hosted.
    pub photo_url: String,
    /// The position of the recipient being sent to.
    pub next: usize,
    pub delivered: Vec<String>,
    pub failed: Vec<String>,
    pub error: Option<DeliveryError>,
}

/// How a job ended.
#[derive(Debug, PartialEq, Eq)]
pub enum Outcome {
    /// Every recipient got the question.
    Delivered(Vec<String>),
    /// Some recipients did not get the question.
    PartiallyDelivered { delivered: Vec<String>, failed: Vec<String> },
    /// The job stopped before sending, with this error.
    Failed(DeliveryError),
    /// The job has not ended yet.
    Running,
}

/// The caption sent with a question image.
pub open spec fn caption_of(id: Seq<char>, t: QuestionType, source: Seq<char>) -> Seq<char> {
    CAPTION_PREFIX@ + "\nQuestion #"@ + id + " - "@ + full_name_of(t) + "\nSource: "@ + source
}

/// The name of the image file of the question `id`.
pub open spec fn image_file_name_of(id: Seq<char>) -> Seq<char> {
    "question_"@ + id + ".png"@
}

/// The caption sent with a question image.
pub fn compose_caption(id: &str, t: QuestionType, source: &str) -> (r: String)
    ensures
        r@ == caption_of(id@, t, source@),
{
    let mut s = String::from_str(CAPTION_PREFIX);
    s.append("\nQuestion #");
    s.append(id);
    s.append(" - ");
    s.append(t.display_name());
    s.append("\nSource: ");
    s.append(source);
    s
}

/// The name of the image file of the question `id`.
pub fn image_file_name(id: &str) -> (r: String)
    ensures
        r@ == image_file_name_of(id@),
{
    let mut s = String::from_str("question_");
    s.append(id);
    s.append(".png");
    s
}

/// The text of the error for a fetch of the question `id` answered with the
/// status `status`.
pub open spec fn fetch_status_text_of(id: Seq<char>, status: u16) -> Seq<char> {
    "Failed to fetch question "@ + id + ": status "@ + decimal(status as nat)
}

/// The error of a fetch of the question `id` that the content source answered
/// with `status`: none for a success status, `NotFound` for 404, which is not
/// retried, and `Transport` for any other status, which is.
pub fn fetch_status_error(status: u16, id: &str) -> (r: Option<DeliveryError>)
    ensures
        is_success_status(status) ==> r is None,
        status == 404 ==> (r matches Some(DeliveryError::NotFound(m)) && m@ == id@),
        !is_success_status(status) && status != 404 ==> (r matches Some(
            DeliveryError::Transport(m),
        ) && m@ == fetch_status_text_of(id@, status)),
{
    if 200 <= status && status < 300 {
        None
    } else if status == 404 {
        Some(DeliveryError::NotFound(String::from_str(id)))
    } else {
        let mut m = String::from_str("Failed to fetch question ");
        m.append(id);
        m.append(": status ");
        let code = decimal_string(status as u64);
        m.append(code.as_str());
        Some(DeliveryError::Transport(m))
    }
}

/// The error of a fetch of the question `id` whose answer is not question
/// content: the question has none, and it is not fetched again.
pub fn undecodable_content_error(id: &str) -> (r: DeliveryError)
    ensures
        r matches DeliveryError::NotFound(m) && m@ == id@,
        !r.retryable(),
{
    DeliveryError::NotFound(String::from_str(id))
}

/// `a` sends the hosted image of `j` to its recipient at position `i`.
pub open spec fn sends_to(j: DeliveryJob, i: int, a: Action) -> bool {
    a matches Action::Send { recipient, photo_url, caption } && recipient == j.recipients@[i]
        && photo_url == j.photo_url && caption@ == caption_of(
        j.question_id@,
        j.question_type,
        j.source@,
    )
}

/// After `next` has moved on, `j` sends to the next recipient, or is done
/// when none is left.
pub open spec fn moves_on(j: DeliveryJob, a: Action) -> bool {
    if j.next < j.recipients@.len() {
        j.stage == Stage::Sending && sends_to(j, j.next as int, a)
    } else {
        j.stage == Stage::Done && a == Action::Finish
    }
}

/// The job `new` and the action `a` follow from the job `old` and the event
/// `ev`.
pub open spec fn step_ok(old: DeliveryJob, ev: Event, new: DeliveryJob, a: Action) -> bool {
    match ev {
        Event::Fetched(c) => {
            &&& new == DeliveryJob { stage: Stage::Rendering, source: c.src, ..old }
            &&& a matches Action::Render { html, file_name } && html@ == question_page(
                c,
                old.question_type,
                old.show_explanations,
            ) && file_name@ == image_file_name_of(old.question_id@)
        },
        Event::FetchFailed(e) => if e.retryable() && old.attempts < MAX_FETCH_ATTEMPTS {
            &&& new == DeliveryJob { attempts: (old.attempts + 1) as u32, ..old }
            &&& a == Action::Fetch { id: old.question_id, delay_millis: RETRY_DELAY_MILLIS }
        } else {
            &&& new == DeliveryJob { stage: Stage::Failed, error: Some(e), ..old }
            &&& a == Action::Finish
        },
        Event::Rendered => {
            &&& new == DeliveryJob { stage: Stage::Hosting, ..old }
            &&& a == Action::Host
        },
        Event::RenderFailed(m) => {
            &&& new == DeliveryJob {
                stage: Stage::Failed,
                error: Some(DeliveryError::Render(m)),
                ..old
            }
            &&& a == Action::Finish
        },
        Event::Hosted(url) => {
            &&& new == DeliveryJob { stage: new.stage, photo_url: url, next: 0, ..old }
            &&& moves_on(new, a)
        },
        Event::HostFailed(m) => {
            &&& new == DeliveryJob {
                stage: Stage::Failed,
                error: Some(DeliveryError::Hosting(m)),
                ..old
            }
            &&& a == Action::Finish
        },
        Event::Sent => after_send(old, true, new, a),
        Event::SendFailed(_) => after_send(old, false, new, a),
    }
}

/// The job `new` and the action `a` follow from `old` once its current
/// recipient's send succeeded (`ok`) or failed.
pub open spec fn after_send(old: DeliveryJob, ok: bool, new: DeliveryJob, a: Action) -> bool {
    let r = old.recipients@[old.next as int];
    &&& new == DeliveryJob {
        stage: new.stage,
        next: (old.next + 1) as usize,
        delivered: new.delivered,
        failed: new.failed,
        ..old
    }
    &&& new.delivered@ == if ok {
        old.delivered@.push(r)
    } else {
        old.delivered@
    }
    &&& new.failed@ == if ok {
        old.failed@
    } else {
        old.failed@.push(r)
    }
    &&& moves_on(new, a)
}

/// The stage that an event answers.
pub open spec fn stage_of(ev: Event) -> Stage {
    match ev {
        Event::Fetched(_) | Event::FetchFailed(_) => Stage::Fetching,
        Event::Rendered | Event::RenderFailed(_) => Stage::Rendering,
        Event::Hosted(_) | Event::HostFailed(_) => Stage::Hosting,
        Event::Sent | Event::SendFailed(_) => Stage::Sending,
    }
}

impl DeliveryJob {
    /// The bookkeeping that every job keeps.
    pub open spec fn wf(&self) -> bool {
        &&& 1 <= self.attempts <= MAX_FETCH_ATTEMPTS
        &&& self.stage == Stage::Sending ==> self.next < self.recipients@.len()
    }

    /// A job that has just been made and has done nothing yet.
    pub open spec fn is_fresh(&self) -> bool {
        &&& self.stage == Stage::Fetching
        &&& self.attempts == 1
        &&& self.next == 0
        &&& self.delivered@.len() == 0
        &&& self.failed@.len() == 0
        &&& self.error is None
    }

    /// Starts a job that delivers the question `question_id` of kind
    /// `question_type` to each of `recipients`; it begins with a fetch.
    pub fn new(
        recipients: Vec<String>,
        question_type: QuestionType,
        question_id: String,
        show_explanations: bool,
    ) -> (r: (DeliveryJob, Action))
        ensures
            r.0.wf(),
            r.0.is_fresh(),
            r.0.recipients == recipients,
            r.0.question_type == question_type,
            r.0.question_id == question_id,
            r.0.show_explanations == show_explanations,
            r.1 == (Action::Fetch { id: question_id, delay_millis: 0 }),
    {
        let id = question_id.clone();
        let job = DeliveryJob {
            recipients,
            question_type,
            question_id,
            show_explanations,
            stage: Stage::Fetching,
            attempts: 1,
            source: String::new(),
            photo_url: String::new(),
            next: 0,
            delivered: Vec::new(),
            failed: Vec::new(),
            error: None,
        };
        (job, Action::Fetch { id, delay_millis: 0 })
    }

    /// Whether `ev` answers the action this job asked for last.
    pub fn accepts(&self, ev: &Event) -> (r: bool)
        ensures
            r == (self.wf() && self.stage == stage_of(*ev)),
    {
        let wf = 1 <= self.attempts && self.attempts <= MAX_FETCH_ATTEMPTS && (!matches!(
            self.stage,
            Stage::Sending,
        ) || self.next < self.recipients.len());
        let stage = match ev {
            Event::Fetched(_) | Event::FetchFailed(_) => Stage::Fetching,
            Event::Rendered | Event::RenderFailed(_) => Stage::Rendering,
            Event::Hosted(_) | Event::HostFailed(_) => Stage::Hosting,
            Event::Sent | Event::SendFailed(_) => Stage::Sending,
        };
        wf && self.stage == stage
    }

    /// The action that follows the current recipient's send.
    fn move_on(&mut self) -> (a: Action)
        requires
            old(self).next < old(self).recipients@.len(),
        ensures
            *final(self) == (DeliveryJob {
                stage: final(self).stage,
                next: (old(self).next + 1) as usize,
                ..*old(self)
            }),
            moves_on(*final(self), a),
    {
        let n = self.recipients.len();
        self.next = self.next + 1;
        if self.next < n {
            self.stage = Stage::Sending;
            self.send_action()
        } else {
            self.stage = Stage::Done;
            Action::Finish
        }
    }

    /// The send of the hosted image to the current recipient.
    fn send_action(&self) -> (a: Action)
        requires
            self.next < self.recipients@.len(),
        ensures
            sends_to(*self, self.next as int, a),
    {
        Action::Send {
            recipient: self.recipients[self.next].clone(),
            photo_url: self.photo_url.clone(),
            caption: compose_caption(
                self.question_id.as_str(),
                self.question_type,
                self.source.as_str(),
            ),
        }
    }

    /// Takes in the answer to the last action and returns the next action.
    pub fn handle(&mut self, ev: Event) -> (a: Action)
        requires
            old(self).wf(),
            old(self).stage == stage_of(ev),
        ensures
            final(self).wf(),
            step_ok(*old(self), ev, *final(self), a),
    {
        match ev {
            Event::Fetched(content) => {
                let html = generate_html_content_impl(
                    &content,
                    &self.question_type,
                    self.show_explanations,
                );
                let file_name = image_file_name(self.question_id.as_str());
                self.source = content.src;
                self.stage = Stage::Rendering;
                Action::Render { html, file_name }
            },
            Event::FetchFailed(e) => {
                if e.is_retryable() && self.attempts < MAX_FETCH_ATTEMPTS {
                    self.attempts = self.attempts + 1;
                    Action::Fetch { id: self.question_id.clone(), delay_millis: RETRY_DELAY_MILLIS }
                } else {
                    self.stage = Stage::Failed;
                    self.error = Some(e);
                    Action::Finish
                }
            },
            Event::Rendered => {
                self.stage = Stage::Hosting;
                Action::Host
            },
            Event::RenderFailed(m) => {
                self.stage = Stage::Failed;
                self.error = Some(DeliveryError::Render(m));
                Action::Finish
            },
            Event::Hosted(url) => {
                self.photo_url = url;
                self.next = 0;
                if self.recipients.len() > 0 {
                    self.stage = Stage::Sending;
                    self.send_action()
                } else {
                    self.stage = Stage::Done;
                    Action::Finish
                }
            },
            Event::HostFailed(m) => {
                self.stage = Stage::Failed;
                self.error = Some(DeliveryError::Hosting(m));
                Action::Finish
            },
            Event::Sent => {
                let r = self.recipients[self.next].clone();
                self.delivered.push(r);
                self.move_on()
            },
            Event::SendFailed(_) => {
                let r = self.recipients[self.next].clone();
                self.failed.push(r);
                self.move_on()
            },
        }
    }

    /// How the job ended.
    pub fn finish(self) -> (r: Outcome)
        ensures
            self.stage == Stage::Done && self.failed@.len() == 0 ==> r == Outcome::Delivered(
                self.delivered,
            ),
            self.stage == Stage::Done && self.failed@.len() > 0 ==> r
                == (Outcome::PartiallyDelivered { delivered: self.delivered, failed: self.failed }),
            self.stage == Stage::Failed && self.error is Some ==> r == Outcome::Failed(
                self.error->0,
            ),
            self.stage != Stage::Done && !(self.stage == Stage::Failed && self.error is Some) ==> r
                == Outcome::Running,
    {
        match self.stage {
            Stage::Done => if self.failed.len() == 0 {
                Outcome::Delivered(self.delivered)
            } else {
                Outcome::PartiallyDelivered { delivered: self.delivered, failed: self.failed }
            },
            Stage::Failed => match self.error {
                Some(e) => Outcome::Failed(e),
                None => Outcome::Running,
            },
            _ => Outcome::Running,
        }
    }
}

/// `events[0..]` fails the fetch of `jobs[0]` over and over with the error `e`:
/// each job answers its event with the next job and action.
pub open spec fn fetch_failure_run(jobs: Seq<DeliveryJob>, actions: Seq<Action>, e: DeliveryError) -> bool {
    &&& jobs.len() == actions.len() + 1
    &&& forall|i: int|
        0 <= i < actions.len() ==> #[trigger] jobs[i].stage == stage_of(Event::FetchFailed(e))
            && step_ok(jobs[i], Event::FetchFailed(e), jobs[i + 1], actions[i])
}

proof fn lemma_fetch_failure_run_at(
    jobs: Seq<DeliveryJob>,
    actions: Seq<Action>,
    e: DeliveryError,
    i: int,
)
    requires
        jobs[0].is_fresh(),
        e.retryable(),
        fetch_failure_run(jobs, actions, e),
        0 <= i < jobs.len(),
    ensures
        i <= MAX_FETCH_ATTEMPTS,
        i < MAX_FETCH_ATTEMPTS ==> jobs[i].stage == Stage::Fetching && jobs[i].attempts == i + 1,
        i == MAX_FETCH_ATTEMPTS ==> jobs[i].stage == Stage::Failed && jobs[i].error == Some(e),
    decreases i,
{
    if i > 0 {
        lemma_fetch_failure_run_at(jobs, actions, e, i - 1);
        assert(jobs[i - 1].stage == stage_of(Event::FetchFailed(e)));
        assert(step_ok(jobs[i - 1], Event::FetchFailed(e), jobs[i], actions[i - 1]));
    }
}

/// A job whose fetches keep failing with an error worth another attempt
/// fetches exactly `MAX_FETCH_ATTEMPTS` times: each of the first failures is
/// answered by a fetch after the retry delay, the last one fails the job, and
/// a failed job takes no further event.
pub proof fn lemma_fetch_retries_are_capped(
    jobs: Seq<DeliveryJob>,
    actions: Seq<Action>,
    e: DeliveryError,
)
    requires
        jobs[0].is_fresh(),
        e.retryable(),
        fetch_failure_run(jobs, actions, e),
    ensures
        jobs.len() <= MAX_FETCH_ATTEMPTS + 1,
        forall|i: int|
            0 <= i < actions.len() && i + 1 < MAX_FETCH_ATTEMPTS ==> #[trigger] actions[i]
                == (Action::Fetch { id: jobs[0].question_id, delay_millis: RETRY_DELAY_MILLIS }),
        forall|i: int|
            0 <= i < jobs.len() && i < MAX_FETCH_ATTEMPTS ==> #[trigger] jobs[i].attempts == i + 1,
        jobs.len() == MAX_FETCH_ATTEMPTS + 1 ==> jobs[MAX_FETCH_ATTEMPTS as int].stage
            == Stage::Failed && jobs[MAX_FETCH_ATTEMPTS as int].error == Some(e)
            && actions[MAX_FETCH_ATTEMPTS - 1] == Action::Finish,
{
    lemma_fetch_failure_run_at(jobs, actions, e, jobs.len() - 1);
    assert forall|i: int| 0 <= i < jobs.len() && i < MAX_FETCH_ATTEMPTS implies #[trigger] jobs[i].attempts == i + 1 by {
        lemma_fetch_failure_run_at(jobs, actions, e, i);
    }
    assert forall|i: int|
        0 <= i < actions.len() && i + 1 < MAX_FETCH_ATTEMPTS implies #[trigger] actions[i]
            == (Action::Fetch { id: jobs[0].question_id, delay_millis: RETRY_DELAY_MILLIS }) by {
        lemma_fetch_failure_run_at(jobs, actions, e, i);
        assert(jobs[i].stage == stage_of(Event::FetchFailed(e)));
        assert forall|k: int| 0 <= k <= i implies #[trigger] jobs[k].question_id == jobs[0].question_id by {
            lemma_question_kept(jobs, actions, e, k);
        }
    }
    if jobs.len() == MAX_FETCH_ATTEMPTS + 1 {
        let m = MAX_FETCH_ATTEMPTS - 1;
        lemma_fetch_failure_run_at(jobs, actions, e, m as int);
        assert(jobs[m as int].stage == stage_of(Event::FetchFailed(e)));
    }
}

proof fn lemma_question_kept(
    jobs: Seq<DeliveryJob>,
    actions: Seq<Action>,
    e: DeliveryError,
    k: int,
)
    requires
        fetch_failure_run(jobs, actions, e),
        0 <= k < jobs.len(),
    ensures
        jobs[k].question_id == jobs[0].question_id,
    decreases k,
{
    if k > 0 {
        lemma_question_kept(jobs, actions, e, k - 1);
        assert(jobs[k - 1].stage == stage_of(Event::FetchFailed(e)));
    }
}

/// The recipients `rs[i]` whose result `oks[i]` is `want`, in order.
pub open spec fn picked(rs: Seq<String>, oks: Seq<bool>, want: bool) -> Seq<String>
    decreases rs.len(),
{
    if rs.len() == 0 || oks.len() == 0 {
        Seq::empty()
    } else {
        let rest = picked(rs.drop_last(), oks.drop_last(), want);
        if oks.last() == want {
            rest.push(rs.last())
        } else {
            rest
        }
    }
}

/// Whether each send succeeded.
pub open spec fn send_results(events: Seq<Event>) -> Seq<bool> {
    Seq::new(events.len(), |i: int| events[i] is Sent)
}

/// `jobs[0]` has just started sending, and each job answers the result of a
/// send (`events`) with the next job and action.
pub open spec fn send_run(jobs: Seq<DeliveryJob>, events: Seq<Event>, actions: Seq<Action>) -> bool {
    &&& jobs.len() == events.len() + 1
    &&& actions.len() == events.len()
    &&& jobs[0].recipients@.len() <= usize::MAX
    &&& jobs[0].wf()
    &&& jobs[0].stage == Stage::Sending
    &&& jobs[0].next == 0
    &&& jobs[0].delivered@.len() == 0
    &&& jobs[0].failed@.len() == 0
    &&& forall|i: int|
        0 <= i < events.len() ==> (#[trigger] events[i] is Sent || events[i] is SendFailed)
            && jobs[i].stage == stage_of(events[i]) && step_ok(jobs[i], events[i], jobs[i + 1], actions[i])
}

proof fn lemma_send_run_at(jobs: Seq<DeliveryJob>, events: Seq<Event>, actions: Seq<Action>, i: int)
    requires
        send_run(jobs, events, actions),
        0 <= i < jobs.len(),
    ensures
        i <= jobs[0].recipients@.len(),
        jobs[i].recipients == jobs[0].recipients,
        jobs[i].next == i,
        jobs[i].delivered@ == picked(
            jobs[0].recipients@.take(i),
            send_results(events).take(i),
            true,
        ),
        jobs[i].failed@ == picked(jobs[0].recipients@.take(i), send_results(events).take(i), false),
        i < jobs[0].recipients@.len() ==> jobs[i].stage == Stage::Sending,
        i == jobs[0].recipients@.len() ==> jobs[i].stage == Stage::Done,
    decreases i,
{
    let rs = jobs[0].recipients@;
    let oks = send_results(events);
    if i == 0 {
        assert(rs.take(0).len() == 0);
    } else {
        lemma_send_run_at(jobs, events, actions, i - 1);
        assert(events[i - 1] is Sent || events[i - 1] is SendFailed);
        assert(jobs[i - 1].stage == stage_of(events[i - 1]));
        assert(step_ok(jobs[i - 1], events[i - 1], jobs[i], actions[i - 1]));
        assert(rs.take(i).drop_last() =~= rs.take(i - 1));
        assert(oks.take(i).drop_last() =~= oks.take(i - 1));
        assert(oks.take(i).last() == (events[i - 1] is Sent));
        assert(rs.take(i).last() == rs[i - 1]);
    }
}

/// Sending goes through the recipients one by one, in order, exactly once
/// each: a failed send neither stops the job nor is sent again, and once every
/// recipient has had its turn the job is done, with the recipients whose send
/// succeeded as delivered and the others as failed.
pub proof fn lemma_sends_are_independent(
    jobs: Seq<DeliveryJob>,
    events: Seq<Event>,
    actions: Seq<Action>,
)
    requires
        send_run(jobs, events, actions),
    ensures
        events.len() <= jobs[0].recipients@.len(),
        forall|i: int|
            0 <= i < actions.len() && i + 1 < jobs[0].recipients@.len() ==> sends_to(
                jobs[i + 1],
                i + 1,
                #[trigger] actions[i],
            ) && jobs[i + 1].recipients == jobs[0].recipients,
        events.len() == jobs[0].recipients@.len() ==> {
            let last = jobs[events.len() as int];
            &&& last.stage == Stage::Done
            &&& last.delivered@ == picked(jobs[0].recipients@, send_results(events), true)
            &&& last.failed@ == picked(jobs[0].recipients@, send_results(events), false)
        },
{
    let n = events.len() as int;
    lemma_send_run_at(jobs, events, actions, n);
    assert forall|i: int|
        0 <= i < actions.len() && i + 1 < jobs[0].recipients@.len() implies sends_to(
            jobs[i + 1],
            i + 1,
            #[trigger] actions[i],
        ) && jobs[i + 1].recipients == jobs[0].recipients by {
        lemma_send_run_at(jobs, events, actions, i + 1);
        assert(events[i] is Sent || events[i] is SendFailed);
        assert(step_ok(jobs[i], events[i], jobs[i + 1], actions[i]));
    }
    if n == jobs[0].recipients@.len() {
        assert(jobs[0].recipients@.take(n) =~= jobs[0].recipients@);
        assert(send_results(events).take(n) =~= send_results(events));
    }
}

proof fn lemma_fetch_run_keeps_job(
    jobs: Seq<DeliveryJob>,
    actions: Seq<Action>,
    e: DeliveryError,
    k: int,
)
    requires
        jobs[0].is_fresh(),
        e.retryable(),
        fetch_failure_run(jobs, actions, e),
        0 <= k < jobs.len(),
        k < MAX_FETCH_ATTEMPTS,
    ensures
        jobs[k] == (DeliveryJob { attempts: jobs[k].attempts, ..jobs[0] }),
    decreases k,
{
    if k > 0 {
        lemma_fetch_run_keeps_job(jobs, actions, e, k - 1);
        lemma_fetch_failure_run_at(jobs, actions, e, k - 1);
        assert(jobs[k - 1].stage == stage_of(Event::FetchFailed(e)));
        assert(step_ok(jobs[k - 1], Event::FetchFailed(e), jobs[k], actions[k - 1]));
    }
}

/// A job whose fetches fail with errors worth another attempt until one
/// succeeds fetches exactly as many times as it took, and no more than
/// `MAX_FETCH_ATTEMPTS`; it then renders the fetched content once, hosts the
/// image once, and sends it to its recipients one by one, in order, exactly
/// once each, ending with the recipients whose send succeeded as delivered and
/// the others as failed.
pub proof fn lemma_retry_then_deliver(
    jobs: Seq<DeliveryJob>,
    actions: Seq<Action>,
    e: DeliveryError,
    c: QuestionContent,
    rendering: DeliveryJob,
    render: Action,
    hosting: DeliveryJob,
    host: Action,
    url: String,
    sending: Seq<DeliveryJob>,
    first_send: Action,
    events: Seq<Event>,
    sends: Seq<Action>,
)
    requires
        jobs[0].is_fresh(),
        jobs[0].recipients@.len() > 0,
        jobs[0].recipients@.len() <= usize::MAX,
        e.retryable(),
        fetch_failure_run(jobs, actions, e),
        jobs[jobs.len() - 1].stage == stage_of(Event::Fetched(c)),
        step_ok(jobs[jobs.len() - 1], Event::Fetched(c), rendering, render),
        step_ok(rendering, Event::Rendered, hosting, host),
        step_ok(hosting, Event::Hosted(url), sending[0], first_send),
        sending.len() == events.len() + 1,
        sends.len() == events.len(),
        forall|i: int|
            0 <= i < events.len() ==> (#[trigger] events[i] is Sent || events[i] is SendFailed)
                && sending[i].stage == stage_of(events[i]) && step_ok(
                sending[i],
                events[i],
                sending[i + 1],
                sends[i],
            ),
    ensures
        jobs.len() <= MAX_FETCH_ATTEMPTS,
        rendering.attempts == jobs.len(),
        forall|i: int|
            0 <= i < actions.len() ==> #[trigger] actions[i] == (Action::Fetch {
                id: jobs[0].question_id,
                delay_millis: RETRY_DELAY_MILLIS,
            }),
        render matches Action::Render { html, file_name } && html@ == question_page(
            c,
            jobs[0].question_type,
            jobs[0].show_explanations,
        ),
        host == Action::Host,
        sending[0].recipients == jobs[0].recipients,
        sends_to(sending[0], 0, first_send),
        events.len() <= jobs[0].recipients@.len(),
        forall|i: int|
            0 <= i < sends.len() && i + 1 < jobs[0].recipients@.len() ==> sends_to(
                sending[i + 1],
                i + 1,
                #[trigger] sends[i],
            ),
        events.len() == jobs[0].recipients@.len() ==> {
            let last = sending[events.len() as int];
            &&& last.stage == Stage::Done
            &&& last.delivered@ == picked(jobs[0].recipients@, send_results(events), true)
            &&& last.failed@ == picked(jobs[0].recipients@, send_results(events), false)
        },
{
    let k = jobs.len() - 1;
    lemma_fetch_failure_run_at(jobs, actions, e, k);
    lemma_fetch_run_keeps_job(jobs, actions, e, k);
    lemma_fetch_retries_are_capped(jobs, actions, e);
    assert(send_run(sending, events, sends));
    lemma_sends_are_independent(sending, events, sends);
}

} // verus!
