//! The diagnostic session manager: the single source of truth for whether a
//! diagnostic session is open, and the sole actor that creates or destroys a
//! protocol session. It reacts to serialized user commands and liveness
//! ticks, emits log events, and raises notifications on state edges.

use vstd::prelude::*;
use vstd::string::StringExecFns;

use crate::events::{logged, logged2, LogEvent, LogSeverity, Notice};
use crate::monitor;
use crate::protocol::{EcuConfig, ProtocolError, ProtocolSession};

verus! {

/// The instant at which a poll tick was generated. The manager reacts only
/// to the tick itself and never reads the instant, so the type is opaque
/// here. Relies on `std::time::Instant` from std.
#[verifier::external_type_specification]
#[verifier::external_body]
pub struct ExInstant(std::time::Instant);

/// Relies on `std::time::Instant` being a plain `Copy` value: its `clone`
/// returns the same instant. Needed by the derived `Clone` of the message
/// enum below.
pub assume_specification[ <std::time::Instant as Clone>::clone ](
    i: &std::time::Instant,
) -> (r: std::time::Instant)
    ensures
        r == *i,
;

/// Inbound messages of the session screen: the user commands, the recurring
/// liveness tick, and presentation-only actions the manager ignores.
#[derive(Debug, Clone, PartialEq)]
pub enum KWP2000DiagSessionMsg {
    ConnectECU,
    DisconnectECU,
    Back,
    PollServer(std::time::Instant),
    LoadErrorDefinition,
    ClearLogs,
}

impl KWP2000DiagSessionMsg {
    /// True exactly for the message that leaves the session screen.
    pub fn is_back(&self) -> (r: bool)
        ensures
            r == (self is Back),
    {
        matches!(self, KWP2000DiagSessionMsg::Back)
    }
}

/// Lifecycle state of the diagnostic session. There is no third state:
/// establishment is one atomic attempt that yields `Active` or a failure.
#[derive(Debug, Clone, Copy, PartialEq, Eq, Structural)]
pub enum SessionState {
    Inactive,
    Active,
}

/// Establishment failure returned to the command issuer; every other
/// failure of the manager is observed through the log stream alone.
#[derive(Debug, Clone, Copy, PartialEq, Eq, Structural)]
pub enum ConnectError {
    /// A session is already open; reconnecting would leak it.
    AlreadyActive,
    /// The protocol handshake failed; the warning on the log stream carries
    /// the failure's description.
    EstablishFailed,
}

/// Text logged when a session is established.
pub open spec fn established_text() -> Seq<char> {
    "Connection to ECU established"@
}

/// Text logged, as a warning, when establishment fails for `reason`.
pub open spec fn connect_failed_text(reason: Seq<char>) -> Seq<char> {
    "Error connecting to ECU ("@ + reason + ")"@
}

/// Text logged, as a warning, when `connect` is rejected while `Active`.
pub open spec fn already_open_text() -> Seq<char> {
    "session already open"@
}

/// Text logged when the operator ends the session.
pub open spec fn terminated_text() -> Seq<char> {
    "Connection to ECU terminated"@
}

/// Text logged when a liveness check finds the session silently dead.
pub open spec fn unexpected_close_text() -> Seq<char> {
    "Connection to ECU closed unexpectedly"@
}

/// Detail line appended after an unexpected closure when the capability
/// supplied a last-error description.
pub open spec fn failure_detail_text(desc: Seq<char>) -> Seq<char> {
    "--> "@ + desc
}

/// Diagnostic session manager. It owns the lifecycle state machine; the
/// host drives it through `connect`, `disconnect` and `on_liveness_tick`
/// (or `update`), all serialized on one dispatch path.
///
/// The manager has no destructor of its own: the host acquires it scoped
/// and calls `disconnect` on every exit path, which reaches the protocol
/// session's `end` exactly once.
pub struct KWP2000DiagSession<P: ProtocolSession> {
    /// Shared handle to the communication channel; never mutated here.
    pub transport: P::Transport,
    /// Addressing of the ECU under diagnosis; fixed at construction.
    pub ecu: EcuConfig,
    /// Current lifecycle state.
    pub state: SessionState,
    /// Live handshake with the ECU; present exactly while `Active`.
    pub session: Option<P>,
    /// Append-only stream of emitted log events.
    pub log: Vec<LogEvent>,
    /// Append-only stream of outbound notifications.
    pub notices: Vec<Notice>,
}

impl<P: ProtocolSession> KWP2000DiagSession<P> {
    /// Invariant: the protocol session is present exactly while `Active`.
    pub open spec fn wf(self) -> bool {
        (self.session is Some) <==> (self.state is Active)
    }

    /// The transport handle and the ECU addressing never change.
    pub open spec fn same_config(pre: Self, post: Self) -> bool {
        &&& post.transport == pre.transport
        &&& post.ecu == pre.ecu
    }

    /// Nothing observable changed: state, session, log and notifications.
    pub open spec fn unchanged_obs(pre: Self, post: Self) -> bool {
        &&& post.state == pre.state
        &&& post.session == pre.session
        &&& post.log@ == pre.log@
        &&& post.notices@ == pre.notices@
    }

    /// `Inactive -> Active` edge: a session is stored, the establishment is
    /// logged, and conflicting features are asked to be disabled.
    pub open spec fn connected(pre: Self, post: Self) -> bool {
        &&& pre.state is Inactive
        &&& post.state is Active
        &&& post.session is Some
        &&& logged(pre.log@, post.log@, LogSeverity::Info, established_text())
        &&& post.notices@ == pre.notices@.push(Notice::DisableConflicting)
    }

    /// Establishment failed: no partial state is retained, and one warning
    /// carrying the failure's human-readable text is logged.
    pub open spec fn connect_failed(pre: Self, post: Self) -> bool {
        &&& pre.state is Inactive
        &&& post.state is Inactive
        &&& post.session is None
        &&& (exists|reason: Seq<char>|
            logged(pre.log@, post.log@, LogSeverity::Warning, #[trigger] connect_failed_text(reason)))
        &&& post.notices@ == pre.notices@
    }

    /// A `connect` while `Active` is rejected: the open session is kept
    /// untouched and one warning is logged.
    pub open spec fn connect_rejected(pre: Self, post: Self) -> bool {
        &&& pre.state is Active
        &&& post.state is Active
        &&& post.session == pre.session
        &&& logged(pre.log@, post.log@, LogSeverity::Warning, already_open_text())
        &&& post.notices@ == pre.notices@
    }

    /// `Active -> Inactive` edge at the operator's request: the session is
    /// dropped, the termination is logged, and conflicting features are
    /// asked to be re-enabled.
    pub open spec fn disconnected(pre: Self, post: Self) -> bool {
        &&& pre.state is Active
        &&& post.state is Inactive
        &&& post.session is None
        &&& logged(pre.log@, post.log@, LogSeverity::Info, terminated_text())
        &&& post.notices@ == pre.notices@.push(Notice::EnableConflicting)
    }

    /// `Active -> Inactive` edge forced by a failed liveness check: the
    /// unexpected closure is logged, followed by one detail line when a
    /// last-error description was available, and conflicting features are
    /// asked to be re-enabled.
    pub open spec fn lost(pre: Self, post: Self) -> bool {
        &&& pre.state is Active
        &&& post.state is Inactive
        &&& post.session is None
        &&& ({
            ||| logged(pre.log@, post.log@, LogSeverity::Info, unexpected_close_text())
            ||| (exists|desc: Seq<char>|
                logged2(
                    pre.log@,
                    post.log@,
                    LogSeverity::Info,
                    unexpected_close_text(),
                    LogSeverity::Info,
                    #[trigger] failure_detail_text(desc),
                ))
        })
        &&& post.notices@ == pre.notices@.push(Notice::EnableConflicting)
    }

    /// A manager starts `Inactive`, with no session and empty streams.
    pub fn new(transport: P::Transport, ecu: EcuConfig) -> (r: Self)
        ensures
            r.wf(),
            r.state is Inactive,
            r.session is None,
            r.log@ == Seq::<LogEvent>::empty(),
            r.notices@ == Seq::<Notice>::empty(),
            r.transport == transport,
            r.ecu == ecu,
    {
        KWP2000DiagSession {
            transport,
            ecu,
            state: SessionState::Inactive,
            session: None,
            log: Vec::new(),
            notices: Vec::new(),
        }
    }

    /// Append one event to the log stream; everything else is untouched.
    fn emit(&mut self, severity: LogSeverity, text: String)
        ensures
            final(self).transport == old(self).transport,
            final(self).ecu == old(self).ecu,
            final(self).state == old(self).state,
            final(self).session == old(self).session,
            final(self).notices@ == old(self).notices@,
            logged(old(self).log@, final(self).log@, severity, text@),
    {
        self.log.push(LogEvent { text, severity });
        proof {
            let pre = old(self).log@;
            assert(self.log@.subrange(0, pre.len() as int) =~= pre);
        }
    }

    /// Attempt to establish the diagnostic session. While `Inactive` this
    /// performs the protocol handshake; its outcome is applied by
    /// [`Self::complete_connect`], whose contract is exact in that outcome.
    /// While `Active` the command is rejected without touching the open
    /// session, so no second session can ever be created.
    pub fn connect(&mut self) -> (r: Result<(), ConnectError>)
        requires
            old(self).wf(),
        ensures
            final(self).wf(),
            Self::same_config(*old(self), *final(self)),
            old(self).state is Active ==> {
                &&& r == Err::<(), ConnectError>(ConnectError::AlreadyActive)
                &&& Self::connect_rejected(*old(self), *final(self))
            },
            old(self).state is Inactive ==> match r {
                Ok(_) => Self::connected(*old(self), *final(self)),
                Err(e) => {
                    &&& e == ConnectError::EstablishFailed
                    &&& Self::connect_failed(*old(self), *final(self))
                },
            },
    {
        match self.state {
            SessionState::Active => {
                self.emit(LogSeverity::Warning, "session already open".to_owned());
                Err(ConnectError::AlreadyActive)
            },
            SessionState::Inactive => {
                let started = P::start(&self.transport, &self.ecu);
                self.complete_connect(started)
            },
        }
    }

    /// Apply the outcome of one establishment attempt. Exact in `started`:
    /// a successful handshake is stored and announced; a failed one leaves
    /// no partial state and is logged as a warning carrying its text.
    pub fn complete_connect(&mut self, started: Result<P, ProtocolError>) -> (r: Result<
        (),
        ConnectError,
    >)
        requires
            old(self).wf(),
            old(self).state is Inactive,
        ensures
            final(self).wf(),
            Self::same_config(*old(self), *final(self)),
            started matches Ok(s) ==> {
                &&& r == Ok::<(), ConnectError>(())
                &&& final(self).session == Some(s)
                &&& Self::connected(*old(self), *final(self))
            },
            started matches Err(e) ==> {
                &&& r == Err::<(), ConnectError>(ConnectError::EstablishFailed)
                &&& logged(
                    old(self).log@,
                    final(self).log@,
                    LogSeverity::Warning,
                    connect_failed_text(e.text@),
                )
                &&& Self::connect_failed(*old(self), *final(self))
            },
    {
        match started {
            Ok(s) => {
                self.session = Some(s);
                self.state = SessionState::Active;
                self.emit(LogSeverity::Info, "Connection to ECU established".to_owned());
                self.notices.push(Notice::DisableConflicting);
                proof {
                    assert(Self::connected(*old(self), *self));
                }
                Ok(())
            },
            Err(e) => {
                let mut text = "Error connecting to ECU (".to_owned();
                text.append(e.text.as_str());
                text.append(")");
                proof {
                    assert(text@ =~= connect_failed_text(e.text@));
                }
                self.emit(LogSeverity::Warning, text);
                proof {
                    assert(logged(
                        old(self).log@,
                        self.log@,
                        LogSeverity::Warning,
                        connect_failed_text(e.text@),
                    ));
                    assert(Self::connect_failed(*old(self), *self));
                }
                Err(ConnectError::EstablishFailed)
            },
        }
    }

    /// Tear the session down at the operator's request: `end` the protocol
    /// session (best-effort; a failing graceful shutdown never prevents
    /// reaching `Inactive`), drop it, log the termination, and raise the
    /// re-enable notification. Idempotent-safe: while `Inactive` this is a
    /// no-op — no log duplication, no fault.
    ///
    /// This is also the explicit close of the scoped-acquisition pattern:
    /// the host calls it on every exit path, so a live session always
    /// reaches `end` exactly once.
    pub fn disconnect(&mut self)
        requires
            old(self).wf(),
        ensures
            final(self).wf(),
            Self::same_config(*old(self), *final(self)),
            final(self).state is Inactive,
            final(self).session is None,
            old(self).state is Inactive ==> Self::unchanged_obs(*old(self), *final(self)),
            old(self).state is Active ==> Self::disconnected(*old(self), *final(self)),
    {
        match self.session.take() {
            Some(mut s) => {
                s.end();
                self.state = SessionState::Inactive;
                self.emit(LogSeverity::Info, "Connection to ECU terminated".to_owned());
                self.notices.push(Notice::EnableConflicting);
            },
            None => {},
        }
    }

    /// Apply the outcome of one liveness poll. Exact in its arguments: a
    /// live report changes nothing; a dead report performs the forced
    /// teardown — `end` the session, drop it, log the unexpected closure
    /// and, when a last-error description was supplied, one further detail
    /// line, then raise the re-enable notification.
    pub fn complete_liveness_check(&mut self, alive: bool, diagnosis: Option<String>)
        requires
            old(self).wf(),
        ensures
            final(self).wf(),
            Self::same_config(*old(self), *final(self)),
            alive || old(self).state is Inactive ==> Self::unchanged_obs(
                *old(self),
                *final(self),
            ),
            !alive && old(self).state is Active ==> {
                &&& Self::lost(*old(self), *final(self))
                &&& (diagnosis matches Some(d) ==> logged2(
                    old(self).log@,
                    final(self).log@,
                    LogSeverity::Info,
                    unexpected_close_text(),
                    LogSeverity::Info,
                    failure_detail_text(d@),
                ))
                &&& (diagnosis is None ==> logged(
                    old(self).log@,
                    final(self).log@,
                    LogSeverity::Info,
                    unexpected_close_text(),
                ))
            },
    {
        if !alive {
            match self.session.take() {
                Some(mut s) => {
                    s.end();
                    self.state = SessionState::Inactive;
                    self.emit(
                        LogSeverity::Info,
                        "Connection to ECU closed unexpectedly".to_owned(),
                    );
                    match diagnosis {
                        Some(d) => {
                            let mut text = "--> ".to_owned();
                            text.append(d.as_str());
                            proof {
                                assert(text@ =~= failure_detail_text(d@));
                            }
                            self.emit(LogSeverity::Info, text);
                            proof {
                                let pre = old(self).log@;
                                assert(self.log@.subrange(0, pre.len() as int) =~= pre);
                                assert(logged2(
                                    pre,
                                    self.log@,
                                    LogSeverity::Info,
                                    unexpected_close_text(),
                                    LogSeverity::Info,
                                    failure_detail_text(d@),
                                ));
                            }
                        },
                        None => {},
                    }
                    self.notices.push(Notice::EnableConflicting);
                    proof {
                        assert(Self::lost(*old(self), *self));
                    }
                },
                None => {},
            }
        }
    }

    /// React to one liveness tick: while `Active`, poll the protocol
    /// session; a dead session is torn down by
    /// [`Self::complete_liveness_check`]. A stray tick delivered while
    /// `Inactive` is tolerated without any effect. The handler is
    /// synchronous: it terminates before control returns to the scheduler.
    pub fn on_liveness_tick(&mut self)
        requires
            old(self).wf(),
        ensures
            final(self).wf(),
            Self::same_config(*old(self), *final(self)),
            old(self).state is Inactive ==> Self::unchanged_obs(*old(self), *final(self)),
            old(self).state is Active ==> {
                ||| Self::unchanged_obs(*old(self), *final(self))
                ||| Self::lost(*old(self), *final(self))
            },
    {
        if matches!(self.state, SessionState::Active) {
            let (alive, diagnosis) = match &self.session {
                Some(s) => {
                    let a = s.is_in_session();
                    let d = if a {
                        None
                    } else {
                        s.last_error()
                    };
                    (a, d)
                },
                // Not reachable while well-formed and `Active`: the
                // session is present; a live report changes nothing.
                None => (true, None),
            };
            self.complete_liveness_check(alive, diagnosis);
        }
    }

    /// Serialized event-dispatch entry point: route one inbound message to
    /// the operation it commands. Presentation-only messages (`Back`,
    /// `LoadErrorDefinition`, `ClearLogs`) change nothing here: log
    /// presentation is the host's business. Nothing is ever sent back to
    /// the dispatcher.
    pub fn update(&mut self, msg: &KWP2000DiagSessionMsg) -> (r: Option<KWP2000DiagSessionMsg>)
        requires
            old(self).wf(),
        ensures
            final(self).wf(),
            Self::same_config(*old(self), *final(self)),
            r is None,
            msg is ConnectECU ==> {
                &&& (old(self).state is Active ==> Self::connect_rejected(
                    *old(self),
                    *final(self),
                ))
                &&& (old(self).state is Inactive ==> {
                    ||| Self::connected(*old(self), *final(self))
                    ||| Self::connect_failed(*old(self), *final(self))
                })
            },
            msg is DisconnectECU ==> {
                &&& (old(self).state is Inactive ==> Self::unchanged_obs(
                    *old(self),
                    *final(self),
                ))
                &&& (old(self).state is Active ==> Self::disconnected(*old(self), *final(self)))
            },
            msg is PollServer ==> {
                &&& (old(self).state is Inactive ==> Self::unchanged_obs(
                    *old(self),
                    *final(self),
                ))
                &&& (old(self).state is Active ==> {
                    ||| Self::unchanged_obs(*old(self), *final(self))
                    ||| Self::lost(*old(self), *final(self))
                })
            },
            msg is Back || msg is LoadErrorDefinition || msg is ClearLogs ==> Self::unchanged_obs(
                *old(self),
                *final(self),
            ),
    {
        match msg {
            KWP2000DiagSessionMsg::ConnectECU => {
                let _ = self.connect();
            },
            KWP2000DiagSessionMsg::DisconnectECU => {
                self.disconnect();
            },
            KWP2000DiagSessionMsg::PollServer(_) => {
                self.on_liveness_tick();
            },
            _ => {},
        }
        None
    }

    /// The liveness monitor's enabling condition, re-evaluated against
    /// current manager state: true exactly while ticks are to exist.
    pub fn ticks_enabled(&self) -> (r: bool)
        ensures
            r == monitor::tick_gate(self.state),
    {
        matches!(self.state, SessionState::Active)
    }

    /// True exactly while a diagnostic session is open.
    pub fn is_connected(&self) -> (r: bool)
        ensures
            r == (self.state is Active),
    {
        matches!(self.state, SessionState::Active)
    }
}

/// Session-presence law: in every well-formed manager — well-formedness is
/// established by the constructor and preserved by every operation's
/// contract — the protocol session is present exactly when the state is
/// `Active`. Across any sequence of connect and disconnect calls there is
/// thus never a leaked or a missing protocol session.
pub proof fn lemma_session_presence<P: ProtocolSession>(m: KWP2000DiagSession<P>)
    requires
        m.wf(),
    ensures
        (m.session is Some) <==> (m.state is Active),
{
}

/// Alternation law: over any sequence of commands the state edges strictly
/// alternate. An establishment edge starts `Inactive` and ends `Active`, a
/// teardown edge — explicit or forced by a liveness failure — the reverse,
/// so neither kind of edge can immediately follow one of its own kind.
pub proof fn lemma_edges_alternate<P: ProtocolSession>(
    a: KWP2000DiagSession<P>,
    b: KWP2000DiagSession<P>,
    c: KWP2000DiagSession<P>,
)
    ensures
        KWP2000DiagSession::connected(a, b) ==> !KWP2000DiagSession::connected(b, c),
        KWP2000DiagSession::disconnected(a, b) || KWP2000DiagSession::lost(a, b) ==> !(
        KWP2000DiagSession::disconnected(b, c) || KWP2000DiagSession::lost(b, c)),
{
}

} // verus!
