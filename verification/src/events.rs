//! Events the session manager emits: an append-only log stream and the
//! notifications raised on session state edges.

use vstd::prelude::*;

verus! {

/// Severity of one emitted log event.
#[derive(Debug, Clone, Copy, PartialEq, Eq, Structural)]
pub enum LogSeverity {
    Info,
    Warning,
}

/// One immutable record of the append-only log stream. The manager only
/// emits these; how they are displayed or persisted is the host's business.
#[derive(Debug, Clone)]
pub struct LogEvent {
    pub text: String,
    pub severity: LogSeverity,
}

/// Outbound notification to the hosting application, raised exactly on the
/// `Inactive -> Active` and `Active -> Inactive` edges: while a session is
/// open, conflicting features elsewhere must be held disabled.
#[derive(Debug, Clone, Copy, PartialEq, Eq, Structural)]
pub enum Notice {
    DisableConflicting,
    EnableConflicting,
}

/// Holds when `post` is `pre` with exactly one event appended, of severity
/// `severity` and text `text`.
pub open spec fn logged(
    pre: Seq<LogEvent>,
    post: Seq<LogEvent>,
    severity: LogSeverity,
    text: Seq<char>,
) -> bool {
    &&& post.len() == pre.len() + 1
    &&& post.subrange(0, pre.len() as int) == pre
    &&& post.last().severity == severity
    &&& post.last().text@ == text
}

/// Holds when `post` is `pre` with exactly two events appended, in order.
pub open spec fn logged2(
    pre: Seq<LogEvent>,
    post: Seq<LogEvent>,
    severity1: LogSeverity,
    text1: Seq<char>,
    severity2: LogSeverity,
    text2: Seq<char>,
) -> bool {
    &&& post.len() == pre.len() + 2
    &&& post.subrange(0, pre.len() as int) == pre
    &&& post[pre.len() as int].severity == severity1
    &&& post[pre.len() as int].text@ == text1
    &&& post.last().severity == severity2
    &&& post.last().text@ == text2
}

} // verus!
