use vstd::prelude::*;

use crate::catalog::{full_name_of, is_supported, refs_view, GmatDatabase, QuestionType};
use crate::command::{command_of, parse_command, Command, CommandView};
use crate::pipeline::{Action, DeliveryError, DeliveryJob, Outcome};
use crate::selector::{is_selection, pick_random_questions};

verus! {

/// The answer to a text that asks for nothing the bot knows.
pub const HELP_TEXT: &'static str = "Hello! 👋 I'm your GMAT practice bot.\n\nTo get a question, please send one of these types:\n\n✏️ **SC** - Sentence Correction\n🧠 **CR** - Critical Reasoning\n🔢 **PS** - Problem Solving\n📊 **DS** - Data Sufficiency\n\nJust type the abbreviation (like 'PS' or 'ds') to get a random question of that type!";

/// The notice sent while a random question is being prepared.
pub const PROCESSING_TEXT: &'static str = "⏳ Processing your request, please wait...";

/// The answer when a job for a question asked for by number failed after the
/// fetch.
pub const PROCESSING_FAILED_TEXT: &'static str = "❌ Failed to process the requested question. Please try again later.";

/// The answer when a job for a random question failed.
pub const REQUEST_FAILED_TEXT: &'static str = "⚠️ Sorry, something went wrong and your request could not be processed.";

/// What the bot does in answer to one inbound message.
#[derive(Debug)]
pub enum Reply {
    /// Send this text, and nothing more.
    Text(String),
    /// Send `notice`, then `apology`: the kind asked for has no question to
    /// offer.
    Apologize { notice: String, apology: String },
    /// Send `notice`, then run `job` from its action `first`.
    Deliver { notice: String, job: DeliveryJob, first: Action },
}

/// The notice sent while the question `id` is being fetched.
pub open spec fn fetching_text_of(id: Seq<char>) -> Seq<char> {
    "⏳ Fetching question #"@ + id + "..."@
}

/// The apology for a kind that has no question to offer.
pub open spec fn no_questions_text_of(t: QuestionType) -> Seq<char> {
    "⚠️ Sorry, no "@ + full_name_of(t)
        + " questions are available at the moment. Please try another type."@
}

/// The answer when the question `id` could not be fetched.
pub open spec fn not_found_text_of(id: Seq<char>) -> Seq<char> {
    "💁 We don't have the question #"@ + id + " your are looking for. Please try another one."@
}

pub fn fetching_text(id: &str) -> (r: String)
    ensures
        r@ == fetching_text_of(id@),
{
    let mut s = String::from_str("⏳ Fetching question #");
    s.append(id);
    s.append("...");
    s
}

pub fn no_questions_text(t: QuestionType) -> (r: String)
    ensures
        r@ == no_questions_text_of(t),
{
    let mut s = String::from_str("⚠️ Sorry, no ");
    s.append(t.display_name());
    s.append(" questions are available at the moment. Please try another type.");
    s
}

pub fn not_found_text(id: &str) -> (r: String)
    ensures
        r@ == not_found_text_of(id@),
{
    let mut s = String::from_str("💁 We don't have the question #");
    s.append(id);
    s.append(" your are looking for. Please try another one.");
    s
}

/// `job` is a fresh one-recipient job for `chat_id` that starts with `first`.
pub open spec fn is_reply_job(job: DeliveryJob, first: Action, chat_id: Seq<char>) -> bool {
    &&& job.wf()
    &&& job.is_fresh()
    &&& job.recipients@.len() == 1
    &&& job.recipients@[0]@ == chat_id
    &&& first == (Action::Fetch { id: job.question_id, delay_millis: 0 })
}

/// Decides how to answer the message `text` from the chat `chat_id`. A
/// number asks for that question, with its explanations; an abbreviation asks
/// for one random question of that kind, without explanations, and is first
/// acknowledged with a notice, after which a kind that cannot be drawn from
/// gets an apology; anything else gets the help text.
pub fn plan_reply(text: &str, chat_id: &str, database: &GmatDatabase) -> (r: Reply)
    ensures
        match command_of(text@) {
            CommandView::ShowHelp => r matches Reply::Text(t) && t@ == HELP_TEXT@,
            CommandView::RequestById(id) => r matches Reply::Deliver { notice, job, first } && {
                &&& notice@ == fetching_text_of(id)
                &&& is_reply_job(job, first, chat_id@)
                &&& job.question_id@ == id
                &&& job.question_type == QuestionType::PS
                &&& job.show_explanations
            },
            CommandView::RequestByCategory(t) => if !is_supported(t) || database.pool(
                Some(t),
            ).len() == 0 {
                r matches Reply::Apologize { notice, apology } && notice@ == PROCESSING_TEXT@
                    && apology@ == no_questions_text_of(t)
            } else {
                r matches Reply::Deliver { notice, job, first } && {
                    &&& notice@ == PROCESSING_TEXT@
                    &&& is_reply_job(job, first, chat_id@)
                    &&& !job.show_explanations
                    &&& is_selection(
                        *database,
                        Some(t),
                        1,
                        seq![(job.question_type, job.question_id@)],
                    )
                }
            },
        },
{
    let command = parse_command(text);
    let mut recipients: Vec<String> = Vec::new();
    recipients.push(String::from_str(chat_id));
    match command {
        Command::ShowHelp => Reply::Text(String::from_str(HELP_TEXT)),
        Command::RequestById(id) => {
            let notice = fetching_text(id.as_str());
            let (job, first) = DeliveryJob::new(recipients, QuestionType::PS, id, true);
            Reply::Deliver { notice, job, first }
        },
        Command::RequestByCategory(t) => {
            let filter = Some(t);
            match pick_random_questions(database, &filter, 1) {
                Err(_) => Reply::Apologize {
                    notice: String::from_str(PROCESSING_TEXT),
                    apology: no_questions_text(t),
                },
                Ok(mut picked) => {
                    if picked.len() == 0 {
                        return Reply::Apologize {
                            notice: String::from_str(PROCESSING_TEXT),
                            apology: no_questions_text(t),
                        };
                    }
                    let ghost drawn = refs_view(picked@);
                    let (kind, id) = picked.remove(0);
                    let (job, first) = DeliveryJob::new(recipients, kind, id, false);
                    proof {
                        assert(drawn.len() == 1);
                        assert(drawn[0] == (job.question_type, job.question_id@));
                        assert(drawn =~= seq![(job.question_type, job.question_id@)]);
                    }
                    Reply::Deliver { notice: String::from_str(PROCESSING_TEXT), job, first }
                },
            }
        },
    }
}

/// What to tell the chat once a reply job for `command` ended with
/// `outcome`: nothing after a delivery, otherwise an apology. A question asked
/// for by number that could not be fetched is reported as missing.
pub open spec fn failure_notice_of(command: CommandView, outcome: Outcome) -> Option<Seq<char>> {
    match outcome {
        Outcome::Delivered(_) | Outcome::Running => None,
        _ => match command {
            CommandView::ShowHelp => None,
            CommandView::RequestById(id) => match outcome {
                Outcome::Failed(e) => if e is Render || e is Hosting {
                    Some(PROCESSING_FAILED_TEXT@)
                } else {
                    Some(not_found_text_of(id))
                },
                _ => Some(PROCESSING_FAILED_TEXT@),
            },
            CommandView::RequestByCategory(_) => Some(REQUEST_FAILED_TEXT@),
        },
    }
}

/// What to tell the chat once a reply job for `command` ended with
/// `outcome` (see `failure_notice_of`).
pub fn failure_notice(command: &Command, outcome: &Outcome) -> (r: Option<String>)
    ensures
        failure_notice_of(command@, *outcome) == match r {
            Some(m) => Some(m@),
            None => None,
        },
{
    match outcome {
        Outcome::Delivered(_) | Outcome::Running => None,
        _ => match command {
            Command::ShowHelp => None,
            Command::RequestById(id) => match outcome {
                Outcome::Failed(DeliveryError::Transport(_))
                | Outcome::Failed(DeliveryError::Api(_))
                | Outcome::Failed(DeliveryError::NotFound(_)) => Some(not_found_text(id.as_str())),
                _ => Some(String::from_str(PROCESSING_FAILED_TEXT)),
            },
            Command::RequestByCategory(_) => Some(String::from_str(REQUEST_FAILED_TEXT)),
        },
    }
}

} // verus!
