//! The log of the requests: the events that a logger records, and the
//! lines that are written of them.

use crate::request::Request;
use crate::request::RequestModel;
use vstd::prelude::*;
use vstd::string::StringExecFns;

verus! {

/// The two events that the logger records of a request.
#[derive(Clone, Copy, Debug, PartialEq, Eq, Structural)]
pub enum Phase {
    Entry,
    Exit,
}

/// One line of the log.
#[derive(Debug)]
pub struct LogEvent {
    pub phase: Phase,
    pub method: String,
    pub target: String,
}

/// What contracts see of a `LogEvent`.
pub struct LogEventModel {
    pub phase: Phase,
    pub method: Seq<char>,
    pub target: Seq<char>,
}

impl LogEventModel {
    /// The event recorded before a request is handed inward.
    pub open spec fn entry(request: RequestModel) -> LogEventModel {
        LogEventModel { phase: Phase::Entry, method: request.method, target: request.target }
    }

    /// The event recorded after the inner stages have replied.
    pub open spec fn exit(request: RequestModel) -> LogEventModel {
        LogEventModel { phase: Phase::Exit, method: request.method, target: request.target }
    }

    /// The event as text: `processing`, or `end processing`, then the
    /// method and the target, each after one space.
    pub open spec fn line(self) -> Seq<char> {
        let opening = match self.phase {
            Phase::Entry => "processing "@,
            Phase::Exit => "end processing "@,
        };
        opening + self.method + seq![' '] + self.target
    }
}

impl View for LogEvent {
    type V = LogEventModel;

    open spec fn view(&self) -> LogEventModel {
        LogEventModel { phase: self.phase, method: self.method@, target: self.target@ }
    }
}

impl LogEvent {
    /// The event to record before `request` is handed inward.
    pub fn entry(request: &Request) -> (event: LogEvent)
        ensures
            event@ == LogEventModel::entry(request@),
    {
        LogEvent {
            phase: Phase::Entry,
            method: request.method.clone(),
            target: request.target.clone(),
        }
    }

    /// The event to record after the inner stages have replied to `request`.
    pub fn exit(request: &Request) -> (event: LogEvent)
        ensures
            event@ == LogEventModel::exit(request@),
    {
        LogEvent {
            phase: Phase::Exit,
            method: request.method.clone(),
            target: request.target.clone(),
        }
    }

    /// The same event once more.
    pub fn duplicate(&self) -> (event: LogEvent)
        ensures
            event@ == self@,
    {
        LogEvent { phase: self.phase, method: self.method.clone(), target: self.target.clone() }
    }

    /// The event as one line of text.
    pub fn line(&self) -> (text: String)
        ensures
            text@ == self@.line(),
    {
        let mut text = match self.phase {
            Phase::Entry => "processing ".to_owned(),
            Phase::Exit => "end processing ".to_owned(),
        };
        text.append(self.method.as_str());
        proof {
            reveal_strlit(" ");
        }
        text.append(" ");
        text.append(self.target.as_str());
        text
    }
}

/// What contracts see of the log.
pub open spec fn log_model(log: Seq<LogEvent>) -> Seq<LogEventModel> {
    log.map_values(|event: LogEvent| event@)
}

/// One event, `count` times over.
pub open spec fn repeated(event: LogEventModel, count: nat) -> Seq<LogEventModel> {
    Seq::new(count, |at: int| event)
}

/// How much of the log is written out.
#[derive(Clone, Copy, Debug, PartialEq, Eq, Structural)]
pub enum Verbosity {
    /// Nothing.
    Silent,
    /// The entry of each request.
    Entries,
    /// The entry and the exit of each request.
    All,
}

impl Verbosity {
    /// Whether an event of this phase is written out.
    pub open spec fn shows(self, phase: Phase) -> bool {
        match self {
            Verbosity::Silent => false,
            Verbosity::Entries => phase == Phase::Entry,
            Verbosity::All => true,
        }
    }

    pub fn is_shown(self, phase: Phase) -> (shown: bool)
        ensures
            shown == self.shows(phase),
    {
        match self {
            Verbosity::Silent => false,
            Verbosity::Entries => match phase {
                Phase::Entry => true,
                Phase::Exit => false,
            },
            Verbosity::All => true,
        }
    }
}

/// The lines that a log comes to at a verbosity: the line of each event
/// that the verbosity shows, in the order of the log.
pub open spec fn shown_lines(verbosity: Verbosity, log: Seq<LogEventModel>) -> Seq<Seq<char>>
    decreases log.len(),
{
    if log.len() == 0 {
        Seq::empty()
    } else {
        let before = shown_lines(verbosity, log.drop_last());
        if verbosity.shows(log.last().phase) {
            before.push(log.last().line())
        } else {
            before
        }
    }
}

/// What contracts see of the lines.
pub open spec fn line_models(lines: Seq<String>) -> Seq<Seq<char>> {
    lines.map_values(|line: String| line@)
}

/// The lines to write of a log at a verbosity.
pub fn lines_to_write(verbosity: Verbosity, log: &Vec<LogEvent>) -> (lines: Vec<String>)
    ensures
        line_models(lines@) == shown_lines(verbosity, log_model(log@)),
{
    let mut lines: Vec<String> = Vec::new();
    let mut at: usize = 0;
    while at < log.len()
        invariant
            at <= log.len(),
            line_models(lines@) == shown_lines(verbosity, log_model(log@).take(at as int)),
        decreases log.len() - at,
    {
        proof {
            let seen = log_model(log@).take(at + 1);
            assert(seen.drop_last() =~= log_model(log@).take(at as int));
        }
        if verbosity.is_shown(log[at].phase) {
            lines.push(log[at].line());
        }
        at = at + 1;
    }
    assert(log_model(log@).take(log@.len() as int) =~= log_model(log@));
    lines
}

} // verus!
