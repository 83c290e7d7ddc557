//! The notices sent when an experiment changes state: what they hold, and
//! when sending one is tried again.

use crate::config::CallbackConfig;
use crate::model::{clone_opt_string, opt_view};
use crate::text::str_eq;
use crate::utils::json::{push_quoted, quoted};
use crate::time::{rfc3339_text, Timestamp};
use crate::{Error, Fallible};
use vstd::prelude::*;

verus! {

/// What a notice tells of.
#[derive(Debug, PartialEq, Eq, Hash, Clone, Copy, Structural)]
pub enum CallbackEvent {
    ExperimentStarted,
    ExperimentCompleted,
    ExperimentFailed,
    ExperimentAborted,
}

impl CallbackEvent {
    /// The name of the value.
    pub open spec fn spec_str(self) -> Seq<char> {
        match self {
            CallbackEvent::ExperimentStarted => "experiment_started"@,
            CallbackEvent::ExperimentCompleted => "experiment_completed"@,
            CallbackEvent::ExperimentFailed => "experiment_failed"@,
            CallbackEvent::ExperimentAborted => "experiment_aborted"@,
        }
    }

    /// The value that a name stands for.
    pub open spec fn spec_parse(s: Seq<char>) -> Option<CallbackEvent> {
        if s == "experiment_started"@ {
            Some(CallbackEvent::ExperimentStarted)
        } else if s == "experiment_completed"@ {
            Some(CallbackEvent::ExperimentCompleted)
        } else if s == "experiment_failed"@ {
            Some(CallbackEvent::ExperimentFailed)
        } else if s == "experiment_aborted"@ {
            Some(CallbackEvent::ExperimentAborted)
        } else {
            None
        }
    }

    pub fn to_str(&self) -> (r: &'static str)
        ensures
            r@ == self.spec_str(),
    {
        match self {
            CallbackEvent::ExperimentStarted => "experiment_started",
            CallbackEvent::ExperimentCompleted => "experiment_completed",
            CallbackEvent::ExperimentFailed => "experiment_failed",
            CallbackEvent::ExperimentAborted => "experiment_aborted",
        }
    }

    pub fn to_string(&self) -> (r: String)
        ensures
            r@ == self.spec_str(),
    {
        self.to_str().to_owned()
    }

    /// Parses a name; `BadRequest` where the string is none.
    pub fn from_str(s: &str) -> (r: Result<CallbackEvent, Error>)
        ensures
            match Self::spec_parse(s@) {
                Some(v) => r == Ok::<CallbackEvent, Error>(v),
                None => r == Err::<CallbackEvent, Error>(Error::BadRequest),
            },
    {
        if str_eq(s, "experiment_started") {
            Ok(CallbackEvent::ExperimentStarted)
        } else if str_eq(s, "experiment_completed") {
            Ok(CallbackEvent::ExperimentCompleted)
        } else if str_eq(s, "experiment_failed") {
            Ok(CallbackEvent::ExperimentFailed)
        } else if str_eq(s, "experiment_aborted") {
            Ok(CallbackEvent::ExperimentAborted)
        } else {
            Err(Error::BadRequest)
        }
    }

    /// Parsing the name of a value gives the value back.
    pub proof fn lemma_parse_str(v: CallbackEvent)
        ensures
            Self::spec_parse(v.spec_str()) == Some(v),
    {
        reveal_strlit("experiment_started");
        reveal_strlit("experiment_completed");
        reveal_strlit("experiment_failed");
        reveal_strlit("experiment_aborted");
        assert("experiment_started"@.len() == 18);
        assert("experiment_completed"@.len() == 20);
        assert("experiment_failed"@.len() == 17);
        assert("experiment_aborted"@.len() == 18);
        assert("experiment_started"@[11] != "experiment_aborted"@[11]);
    }
}

impl std::str::FromStr for CallbackEvent {
    type Err = Error;

    fn from_str(s: &str) -> (r: Result<CallbackEvent, Error>)
        ensures
            match CallbackEvent::spec_parse(s@) {
                Some(v) => r == Ok::<CallbackEvent, Error>(v),
                None => r == Err::<CallbackEvent, Error>(Error::BadRequest),
            },
    {
        CallbackEvent::from_str(s)
    }
}

/// A notice.
#[derive(Debug, PartialEq, Eq)]
pub struct CallbackPayload {
    pub experiment: String,
    pub event: CallbackEvent,
    pub status: String,
    pub report_url: Option<String>,
    pub error: Option<String>,
    /// When the notice was made, as RFC 3339 text.
    pub timestamp: String,
}

pub struct CallbackPayloadView {
    pub experiment: Seq<char>,
    pub event: CallbackEvent,
    pub status: Seq<char>,
    pub report_url: Option<Seq<char>>,
    pub error: Option<Seq<char>>,
    pub timestamp: Seq<char>,
}

impl View for CallbackPayload {
    type V = CallbackPayloadView;

    open spec fn view(&self) -> CallbackPayloadView {
        CallbackPayloadView {
            experiment: self.experiment@,
            event: self.event,
            status: self.status@,
            report_url: opt_view(self.report_url),
            error: opt_view(self.error),
            timestamp: self.timestamp@,
        }
    }
}

/// A member of a JSON object with a string for its value: the name as a
/// JSON string, a colon, and the value as a JSON string.
pub open spec fn member(name: Seq<char>, value: Seq<char>) -> Seq<char> {
    quoted(name) + ":"@ + quoted(value)
}

/// A member of a JSON object with a string or nothing for its value:
/// nothing is written `null`.
pub open spec fn opt_member(name: Seq<char>, value: Option<Seq<char>>) -> Seq<char> {
    quoted(name) + ":"@ + match value {
        Some(v) => quoted(v),
        None => "null"@,
    }
}

impl CallbackPayloadView {
    /// The notice as the JSON object that is sent: its six members in
    /// their order, with nothing between them but commas.
    pub open spec fn json(self) -> Seq<char> {
        "{"@ + member("experiment"@, self.experiment) + ","@ + member(
            "event"@,
            self.event.spec_str(),
        ) + ","@ + member("status"@, self.status) + ","@ + opt_member(
            "report_url"@,
            self.report_url,
        ) + ","@ + opt_member("error"@, self.error) + ","@ + member("timestamp"@, self.timestamp)
            + "}"@
    }
}

fn push_member(out: &mut String, name: &str, value: &str)
    ensures
        final(out)@ == old(out)@ + member(name@, value@),
{
    push_quoted(out, name);
    out.append(":");
    push_quoted(out, value);
    assert(final(out)@ =~= old(out)@ + member(name@, value@));
}

fn push_opt_member(out: &mut String, name: &str, value: &Option<String>)
    ensures
        final(out)@ == old(out)@ + opt_member(name@, opt_view(*value)),
{
    push_quoted(out, name);
    out.append(":");
    match value {
        Some(v) => {
            push_quoted(out, v.as_str());
        },
        None => {
            out.append("null");
        },
    }
    assert(final(out)@ =~= old(out)@ + opt_member(name@, opt_view(*value)));
}

impl Clone for CallbackPayload {
    fn clone(&self) -> (r: Self)
        ensures
            r@ == self@,
    {
        CallbackPayload {
            experiment: self.experiment.clone(),
            event: self.event,
            status: self.status.clone(),
            report_url: clone_opt_string(&self.report_url),
            error: clone_opt_string(&self.error),
            timestamp: self.timestamp.clone(),
        }
    }
}

impl CallbackPayload {
    /// A notice made at the time that `timestamp` names.
    pub fn with_timestamp(
        experiment: String,
        event: CallbackEvent,
        status: String,
        report_url: Option<String>,
        error: Option<String>,
        timestamp: String,
    ) -> (r: Self)
        ensures
            r@ == (CallbackPayloadView {
                experiment: experiment@,
                event,
                status: status@,
                report_url: opt_view(report_url),
                error: opt_view(error),
                timestamp: timestamp@,
            }),
    {
        CallbackPayload { experiment, event, status, report_url, error, timestamp }
    }

    /// The notice as the JSON object that is sent.
    pub fn to_json(&self) -> (r: String)
        ensures
            r@ == self@.json(),
    {
        let mut out = "{".to_owned();
        push_member(&mut out, "experiment", self.experiment.as_str());
        out.append(",");
        push_member(&mut out, "event", self.event.to_str());
        out.append(",");
        push_member(&mut out, "status", self.status.as_str());
        out.append(",");
        push_opt_member(&mut out, "report_url", &self.report_url);
        out.append(",");
        push_opt_member(&mut out, "error", &self.error);
        out.append(",");
        push_member(&mut out, "timestamp", self.timestamp.as_str());
        out.append("}");
        assert(out@ =~= self@.json());
        out
    }

    /// A notice made at the time the clock shows. Its time is left empty
    /// where the clock shows no instant, or one that has no text.
    pub fn new(
        experiment: String,
        event: CallbackEvent,
        status: String,
        report_url: Option<String>,
        error: Option<String>,
    ) -> (r: Self)
        ensures
            r@ == (CallbackPayloadView {
                experiment: experiment@,
                event,
                status: status@,
                report_url: opt_view(report_url),
                error: opt_view(error),
                timestamp: r@.timestamp,
            }),
            r@.timestamp.len() == 0 || exists|now: Timestamp|
                rfc3339_text(now.spec_secs(), now.spec_nanos()) == Some(r@.timestamp),
    {
        let timestamp = match Timestamp::now() {
            Some(now) => match now.to_rfc3339() {
                Some(text) => {
                    assert(rfc3339_text(now.spec_secs(), now.spec_nanos()) == Some(text@));
                    text
                },
                None => String::new(),
            },
            None => String::new(),
        };
        CallbackPayload::with_timestamp(experiment, event, status, report_url, error, timestamp)
    }
}

/// What to do next about a notice.
#[derive(Debug, Clone, Copy, PartialEq, Eq, Structural)]
pub enum CallbackStep {
    /// Wait this many seconds, then send the notice.
    Send { wait_secs: u64 },
    /// The notice has arrived.
    Delivered,
    /// Every attempt has failed.
    GiveUp,
}

/// Whether an answer with this status says that the notice has arrived:
/// the statuses from 200 to 299 do.
pub open spec fn is_success_status(status: u16) -> bool {
    200 <= status <= 299
}

/// What to do next about a notice after `attempts` attempts, the last of
/// which arrived or not. The notice is sent once, and again after each
/// failure until `retry_count` further attempts have failed; before the
/// first attempt nothing is waited, before each further attempt as many
/// seconds as attempts were made.
pub open spec fn spec_next_step(retry_count: u32, attempts: u32, last_arrived: bool) -> CallbackStep {
    if attempts > 0 && last_arrived {
        CallbackStep::Delivered
    } else if attempts > retry_count {
        CallbackStep::GiveUp
    } else {
        CallbackStep::Send { wait_secs: attempts as u64 }
    }
}

/// Sends notices, and tries again where one does not arrive.
#[derive(Debug, Clone, Copy, PartialEq, Eq, Structural)]
pub struct CallbackService {
    pub config: CallbackConfig,
}

impl CallbackService {
    pub fn new(config: CallbackConfig) -> (r: Self)
        ensures
            r.config == config,
    {
        CallbackService { config }
    }

    /// Whether an answer with this status says that the notice has
    /// arrived.
    pub fn is_success(status: u16) -> (r: bool)
        ensures
            r == is_success_status(status),
    {
        200 <= status && status <= 299
    }

    /// What to do next about a notice after `attempts` attempts, the last
    /// of which arrived or not.
    pub fn next_step(&self, attempts: u32, last_arrived: bool) -> (r: CallbackStep)
        ensures
            r == spec_next_step(
                match self.config.retry_count {
                    Some(c) => c,
                    None => crate::config::DEFAULT_RETRY_COUNT,
                },
                attempts,
                last_arrived,
            ),
    {
        if attempts > 0 && last_arrived {
            CallbackStep::Delivered
        } else if attempts > self.config.retry_count() {
            CallbackStep::GiveUp
        } else {
            CallbackStep::Send { wait_secs: attempts as u64 }
        }
    }

    /// What sending a notice to several places came to: it failed where
    /// sending to one of them failed.
    pub fn notify_all_outcome(outcomes: &Vec<bool>) -> (r: Fallible<()>)
        ensures
            r == if outcomes@.contains(false) {
                Err::<(), Error>(Error::Internal)
            } else {
                Ok::<(), Error>(())
            },
    {
        let mut i: usize = 0;
        while i < outcomes.len()
            invariant
                0 <= i <= outcomes.len(),
                forall|j: int| 0 <= j < i ==> outcomes@[j],
            decreases outcomes.len() - i,
        {
            if !outcomes[i] {
                assert(outcomes@[i as int] == false);
                return Err(Error::Internal);
            }
            i += 1;
        }
        Ok(())
    }
}

/// A notice is sent at most once more than it may be tried again: after
/// that many failures the service gives up.
pub proof fn lemma_attempts_bounded(retry_count: u32, attempts: u32)
    requires
        attempts > retry_count,
    ensures
        !(spec_next_step(retry_count, attempts, false) is Send),
{
}

} // verus!
