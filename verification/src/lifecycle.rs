//! The adapter that drives one plugin instance through its life: opened
//! once, shown the command's streams, closed once.

use vstd::prelude::*;
use crate::env::{HostViolation, IoEnv, Stream, spec_check_host, spec_hint};
use crate::outcome::{
    Outcome, PluginError, Report, is_fatal, outcome_of, report, spec_outcome_of, spec_report,
    SUDO_PLUGIN_ERROR, SUDO_PLUGIN_OK, SUDO_PLUGIN_REJECT, SUDO_PLUGIN_USAGE_ERROR,
};
use crate::plugin::{IoPlugin, spec_version_line};

verus! {

/// Where an adapter stands in the life of its plugin instance.
#[derive(Clone, Copy, Debug, PartialEq, Eq, Structural)]
pub enum Phase {
    /// The host has not called `open` yet.
    Unopened,
    /// The instance exists and is shown the command's streams.
    Open,
    /// The instance refused a stream: the command is being ended, and the
    /// instance only waits to be closed.
    Vetoed,
    /// The instance is closed, or was never made. Nothing more is
    /// dispatched.
    Closed,
}

/// One call that an adapter made into its plugin.
pub enum Call {
    /// `open`, and whether it made an instance.
    Open { constructed: bool },
    /// A `log_` method for a stream, the data shown, and whether the
    /// plugin refused.
    Log { stream: Stream, data: Seq<u8>, refused: bool },
    /// `show_version`, and whether the host asked for detail.
    ShowVersion { verbose: bool },
    /// `close`, with the command's exit status and error code.
    Close { exit_status: i32, error: i32 },
}

/// A call that leaves the instance open: `show_version`, or a `log_`
/// method that did not refuse.
pub open spec fn quiet(call: Call) -> bool {
    match call {
        Call::ShowVersion { verbose: _ } => true,
        Call::Log { stream: _, data: _, refused } => !refused,
        _ => false,
    }
}

/// The calls of an open instance: a successful `open`, then quiet calls.
pub open spec fn running(calls: Seq<Call>) -> bool {
    &&& calls.len() >= 1
    &&& calls[0] == (Call::Open { constructed: true })
    &&& forall|i: int| 1 <= i < calls.len() ==> quiet(#[trigger] calls[i])
}

/// The calls of an instance that refused a stream: those of an open
/// instance, then the `log_` call that was refused.
pub open spec fn refused(calls: Seq<Call>) -> bool {
    &&& calls.len() >= 2
    &&& running(calls.drop_last())
    &&& calls.last() matches Call::Log { stream: _, data: _, refused: true }
}

/// The calls that an adapter in a given phase can have made.
pub open spec fn fits(phase: Phase, calls: Seq<Call>) -> bool {
    match phase {
        Phase::Unopened => calls.len() == 0,
        Phase::Open => running(calls),
        Phase::Vetoed => refused(calls),
        Phase::Closed => {
            ||| calls.len() == 0
            ||| calls == seq![Call::Open { constructed: false }]
            ||| (calls.len() >= 2 && calls.last() is Close && (running(calls.drop_last())
                || refused(calls.drop_last())))
        },
    }
}

/// The code that answers a stream which is not dispatched: the command
/// goes on while the instance is open, stays refused once it was
/// refused, and outside the instance's life the call is an error.
pub open spec fn spec_idle_code(phase: Phase) -> i32 {
    match phase {
        Phase::Open => SUDO_PLUGIN_OK,
        Phase::Vetoed => SUDO_PLUGIN_REJECT,
        _ => SUDO_PLUGIN_ERROR,
    }
}

/// The code that tells the host how it broke the interface.
pub open spec fn spec_violation_code(violation: HostViolation) -> i32 {
    match violation {
        HostViolation::UnsupportedVersion => SUDO_PLUGIN_ERROR,
        HostViolation::ArgumentCountMismatch => SUDO_PLUGIN_USAGE_ERROR,
    }
}

/// The code that tells the host how it broke the interface.
pub fn violation_code(violation: HostViolation) -> (code: i32)
    ensures
        code == spec_violation_code(violation),
{
    match violation {
        HostViolation::UnsupportedVersion => SUDO_PLUGIN_ERROR,
        HostViolation::ArgumentCountMismatch => SUDO_PLUGIN_USAGE_ERROR,
    }
}

/// `close` is called at most once, as the last call, after an `open`
/// that made an instance, and it leaves the adapter closed.
pub proof fn close_comes_once_after_open(phase: Phase, calls: Seq<Call>, i: int)
    requires
        fits(phase, calls),
        0 <= i < calls.len(),
        calls[i] is Close,
    ensures
        phase == Phase::Closed,
        i == calls.len() - 1,
        i >= 1,
        calls[0] == (Call::Open { constructed: true }),
        forall|j: int| 0 <= j < calls.len() && calls[j] is Close ==> j == i,
{
    assert forall|j: int| 0 <= j < calls.len() && calls[j] is Close implies j == calls.len()
        - 1 by {
        close_is_last(phase, calls, j);
    }
}

proof fn close_is_last(phase: Phase, calls: Seq<Call>, j: int)
    requires
        fits(phase, calls),
        0 <= j < calls.len(),
        calls[j] is Close,
    ensures
        j == calls.len() - 1,
        phase == Phase::Closed,
        j >= 1,
        calls[0] == (Call::Open { constructed: true }),
{
    let n = calls.len() as int;
    match phase {
        Phase::Unopened => {},
        Phase::Open => {
            if j >= 1 {
                assert(quiet(calls[j]));
            }
        },
        Phase::Vetoed => {
            let head = calls.drop_last();
            if 1 <= j < n - 1 {
                assert(quiet(head[j]));
            } else if j == 0 {
                assert(head[0] == calls[0]);
            }
        },
        Phase::Closed => {
            if calls.len() >= 2 {
                let head = calls.drop_last();
                assert(head[0] == calls[0]);
                if j < n - 1 {
                    assert(head[j] == calls[j]);
                    if refused(head) {
                        let inner = head.drop_last();
                        assert(inner[0] == head[0]);
                        if 1 <= j < n - 2 {
                            assert(quiet(inner[j]));
                        }
                    } else {
                        if 1 <= j {
                            assert(quiet(head[j]));
                        }
                    }
                } else {
                    if refused(head) {
                        assert(head.drop_last()[0] == head[0]);
                    }
                }
            }
        },
    }
}

/// A closed adapter whose `open` made an instance has called `close`.
pub proof fn closed_instance_was_closed(calls: Seq<Call>)
    requires
        fits(Phase::Closed, calls),
        calls.len() >= 1,
        calls[0] == (Call::Open { constructed: true }),
    ensures
        calls.last() is Close,
{
}

/// No call is made into the plugin before `open`, and none after an
/// `open` that made no instance.
pub proof fn nothing_without_an_instance(phase: Phase, calls: Seq<Call>)
    requires
        fits(phase, calls),
        calls.len() >= 1,
    ensures
        calls[0] is Open,
        calls[0] == (Call::Open { constructed: false }) ==> calls.len() == 1 && phase
            == Phase::Closed,
{
    if phase == Phase::Vetoed {
        assert(calls.drop_last()[0] == calls[0]);
    }
    if phase == Phase::Closed && calls.len() >= 2 {
        let head = calls.drop_last();
        assert(head[0] == calls[0]);
        if refused(head) {
            assert(head.drop_last()[0] == head[0]);
        }
    }
}

/// After a `log_` call that the plugin refused, the only call that
/// follows is `close`.
pub proof fn only_close_after_refusal(phase: Phase, calls: Seq<Call>, i: int, j: int)
    requires
        fits(phase, calls),
        0 <= i < j < calls.len(),
        calls[i] matches Call::Log { stream: _, data: _, refused: true },
    ensures
        calls[j] is Close,
        j == i + 1,
        phase == Phase::Closed,
{
    let n = calls.len() as int;
    match phase {
        Phase::Unopened => {},
        Phase::Open => {
            assert(quiet(calls[i]) || i == 0);
        },
        Phase::Vetoed => {
            let head = calls.drop_last();
            assert(head[i] == calls[i]);
            assert(quiet(head[i]) || i == 0);
        },
        Phase::Closed => {
            let head = calls.drop_last();
            assert(head[0] == calls[0]);
            if i < n - 1 {
                assert(head[i] == calls[i]);
            }
            if refused(head) {
                let inner = head.drop_last();
                assert(inner[0] == head[0]);
                if i < n - 2 {
                    assert(inner[i] == calls[i]);
                    assert(quiet(inner[i]) || i == 0);
                }
            } else {
                assert(quiet(head[i]) || i == 0);
            }
        },
    }
}

/// The adapter of one plugin instance.
pub struct Adapter<P: IoPlugin> {
    phase: Phase,
    instance: Option<P>,
    env: Option<IoEnv>,
    calls: Ghost<Seq<Call>>,
}

impl<P: IoPlugin> Adapter<P> {
    /// The phase the adapter is in.
    pub closed spec fn phase(&self) -> Phase {
        self.phase
    }

    /// The instance, while there is one.
    pub closed spec fn instance(&self) -> Option<P> {
        self.instance
    }

    /// The environment, while the instance exists.
    pub closed spec fn env(&self) -> Option<IoEnv> {
        self.env
    }

    /// The calls made into the plugin so far, in order.
    pub closed spec fn calls(&self) -> Seq<Call> {
        self.calls@
    }

    /// Whether the plugin is shown every stream, whatever the host hints.
    pub open spec fn ignores_hints() -> bool {
        P::IGNORE_IOLOG_HINTS
    }

    /// The instance and its environment exist from a successful `open`
    /// until `close`, and the calls made are those the phase allows.
    pub open spec fn wf(&self) -> bool {
        &&& fits(self.phase(), self.calls())
        &&& (self.phase() == Phase::Open || self.phase() == Phase::Vetoed) <==> self.instance() is Some
        &&& self.instance() is Some <==> self.env() is Some
        &&& self.env() matches Some(env) ==> env.wf() && forall|i: int|
            0 <= i < self.calls().len() ==> Self::may_show(env, #[trigger] self.calls()[i])
    }

    /// Whether a call is one that the hints of `env` allow: any call but
    /// a `log_` call, and a `log_` call for a stream that the host's hint
    /// asks for or of a plugin that ignores hints.
    pub open spec fn may_show(env: IoEnv, call: Call) -> bool {
        call matches Call::Log { stream, data: _, refused: _ } ==> Self::ignores_hints() || spec_hint(
            env.command_info@,
            stream,
        )
    }

    /// Whether a stream is dispatched to the instance: the instance is
    /// open, and the host's hint asks for the stream or the plugin
    /// ignores hints.
    pub open spec fn dispatches(&self, stream: Stream) -> bool {
        &&& self.phase() == Phase::Open
        &&& self.env() matches Some(env) && (Self::ignores_hints() || spec_hint(
            env.command_info@,
            stream,
        ))
    }

    /// What a `log_` entry point does with the data of a stream. A
    /// stream that is not dispatched leaves the adapter as it was and is
    /// answered by the phase's idle code. A dispatched stream is one more
    /// call into the instance, which is shown the data. A plugin that
    /// brings no method of its own for the stream has no opinion: the
    /// instance stays as it was and the answer is the ok code. Else a
    /// refusal leaves the adapter vetoed and is answered by the reject
    /// code; a failure is answered by the error code with its reason;
    /// success by the ok code.
    pub open spec fn logged(
        before: Self,
        after: Self,
        stream: Stream,
        data: Seq<u8>,
        r: Report,
    ) -> bool {
        if before.dispatches(stream) {
            &&& after.calls() == before.calls().push(
                Call::Log { stream, data, refused: r.code == SUDO_PLUGIN_REJECT },
            )
            &&& after.env() == before.env()
            &&& after.instance() is Some
            &&& after.phase() == if r.code == SUDO_PLUGIN_REJECT {
                Phase::Vetoed
            } else {
                Phase::Open
            }
            &&& exists|outcome: Outcome| r == spec_report(outcome)
            &&& !P::has_own_log(stream) ==> after.instance() == before.instance() && r == (Report {
                code: SUDO_PLUGIN_OK,
                message: None,
            })
        } else {
            &&& after == before
            &&& r == (Report { code: spec_idle_code(before.phase()), message: None })
        }
    }

    /// Outside the open phase no stream is dispatched: not before `open`,
    /// not after a refusal, and not once the adapter is closed.
    pub proof fn nothing_dispatched_unless_open(&self, stream: Stream)
        requires
            self.phase() != Phase::Open,
        ensures
            !self.dispatches(stream),
    {
    }

    /// A stream that the host's hint does not ask for is not dispatched
    /// to a plugin that does not ignore hints, and as long as the
    /// instance exists no `log_` call was ever made for it.
    pub proof fn unhinted_stream_is_never_shown(&self, stream: Stream, i: int)
        requires
            self.wf(),
            !Self::ignores_hints(),
            self.env() matches Some(env) && !spec_hint(env.command_info@, stream),
            0 <= i < self.calls().len(),
        ensures
            !self.dispatches(stream),
            !(self.calls()[i] matches Call::Log { stream: shown, data: _, refused: _ } && shown
                == stream),
    {
        let env = self.env().unwrap();
        assert(Self::may_show(env, self.calls()[i]));
    }

    /// An adapter whose plugin has not been opened.
    pub fn new() -> (adapter: Self)
        ensures
            adapter.wf(),
            adapter.phase() == Phase::Unopened,
            adapter.calls() == Seq::<Call>::empty(),
            adapter.instance() is None,
            adapter.env() is None,
    {
        Adapter { phase: Phase::Unopened, instance: None, env: None, calls: Ghost(Seq::empty()) }
    }

    /// The phase the adapter is in.
    pub fn current_phase(&self) -> (phase: Phase)
        ensures
            phase == self.phase(),
    {
        self.phase
    }

    /// The instance, while there is one.
    pub fn plugin(&self) -> (instance: Option<&P>)
        ensures
            match instance {
                Some(p) => self.instance() == Some(*p),
                None => self.instance() is None,
            },
    {
        self.instance.as_ref()
    }

    /// The environment of the command run, while the instance exists.
    pub fn environment(&self) -> (env: Option<&IoEnv>)
        ensures
            match env {
                Some(e) => self.env() == Some(*e),
                None => self.env() is None,
            },
    {
        self.env.as_ref()
    }

    /// Records what the plugin's `open` answered for `env`. An instance
    /// is kept and the adapter is open; an error leaves the adapter
    /// closed without an instance, and the report tells the host that the
    /// command must not start.
    pub fn settle_open(&mut self, env: IoEnv, answer: Result<P, PluginError>) -> (r: Report)
        requires
            old(self).wf(),
            old(self).phase() == Phase::Unopened,
            env.wf(),
        ensures
            final(self).wf(),
            match answer {
                Ok(instance) => {
                    &&& final(self).phase() == Phase::Open
                    &&& final(self).instance() == Some(instance)
                    &&& final(self).env() == Some(env)
                    &&& final(self).calls() == seq![Call::Open { constructed: true }]
                    &&& r == (Report { code: SUDO_PLUGIN_OK, message: None })
                },
                Err(error) => {
                    &&& final(self).phase() == Phase::Closed
                    &&& final(self).instance() is None
                    &&& final(self).env() is None
                    &&& final(self).calls() == seq![Call::Open { constructed: false }]
                    &&& r == spec_report(spec_outcome_of(Err(error)))
                },
            },
    {
        match answer {
            Ok(instance) => {
                self.instance = Some(instance);
                self.env = Some(env);
                self.phase = Phase::Open;
                let ghost made = Seq::<Call>::empty().push(Call::Open { constructed: true });
                self.calls = Ghost(made);
                assert(made =~= seq![Call::Open { constructed: true }]);
                Report { code: SUDO_PLUGIN_OK, message: None }
            },
            Err(error) => {
                self.phase = Phase::Closed;
                let ghost made = Seq::<Call>::empty().push(Call::Open { constructed: false });
                self.calls = Ghost(made);
                assert(made =~= seq![Call::Open { constructed: false }]);
                report(outcome_of(Err(error)))
            },
        }
    }

    /// The host's `open`. An adapter that was opened before is left as it
    /// was and answers with the error code. A host that breaks the
    /// interface closes the adapter without any call into the plugin.
    /// Otherwise the environment is built, the plugin's `open` is called
    /// with it, and the answer is settled: the ok code exactly when an
    /// instance was made.
    pub fn open(
        &mut self,
        version: u32,
        settings: &Vec<Vec<u8>>,
        user_info: &Vec<Vec<u8>>,
        command_info: &Vec<Vec<u8>>,
        argc: i32,
        argv: Vec<Vec<u8>>,
        user_env: Vec<Vec<u8>>,
        plugin_options: &Vec<Vec<u8>>,
    ) -> (r: Report)
        requires
            old(self).wf(),
        ensures
            final(self).wf(),
            old(self).phase() != Phase::Unopened ==> *final(self) == *old(self) && r == (Report {
                code: SUDO_PLUGIN_ERROR,
                message: None,
            }),
            old(self).phase() == Phase::Unopened ==> match spec_check_host(version, argc, argv@) {
                Some(violation) => {
                    &&& final(self).phase() == Phase::Closed
                    &&& final(self).instance() is None
                    &&& final(self).calls() == Seq::<Call>::empty()
                    &&& r == (Report { code: spec_violation_code(violation), message: None })
                },
                None => {
                    &&& final(self).calls() == seq![
                        Call::Open { constructed: r.code == SUDO_PLUGIN_OK },
                    ]
                    &&& final(self).phase() == if r.code == SUDO_PLUGIN_OK {
                        Phase::Open
                    } else {
                        Phase::Closed
                    }
                    &&& r.code == SUDO_PLUGIN_OK || r.code == SUDO_PLUGIN_REJECT || r.code
                        == SUDO_PLUGIN_ERROR
                    &&& r.code == SUDO_PLUGIN_OK ==> r.message is None
                    &&& r.code == SUDO_PLUGIN_OK ==> (final(self).env() matches Some(env)
                        && env.holds(
                        version,
                        settings@,
                        user_info@,
                        command_info@,
                        argv,
                        user_env,
                        plugin_options@,
                    ))
                },
            },
    {
        if self.phase != Phase::Unopened {
            return Report { code: SUDO_PLUGIN_ERROR, message: None };
        }
        match IoEnv::new(
            version,
            settings,
            user_info,
            command_info,
            argc,
            argv,
            user_env,
            plugin_options,
        ) {
            Err(violation) => {
                self.phase = Phase::Closed;
                Report { code: violation_code(violation), message: None }
            },
            Ok(env) => {
                let answer = P::open(&env);
                self.settle_open(env, answer)
            },
        }
    }

    /// Records what a `log_` method answered when it was shown the data
    /// of a stream: the call is noted, a refusal vetoes the instance, and
    /// the report is that of the answer's outcome.
    pub fn settle_log(
        &mut self,
        stream: Stream,
        data: &[u8],
        answer: Result<(), PluginError>,
    ) -> (r: Report)
        requires
            old(self).wf(),
            old(self).dispatches(stream),
        ensures
            final(self).wf(),
            final(self).instance() == old(self).instance(),
            final(self).env() == old(self).env(),
            final(self).calls() == old(self).calls().push(
                Call::Log {
                    stream,
                    data: data@,
                    refused: answer == Err::<(), PluginError>(PluginError::Unauthorized),
                },
            ),
            final(self).phase() == if answer == Err::<(), PluginError>(PluginError::Unauthorized) {
                Phase::Vetoed
            } else {
                Phase::Open
            },
            r == spec_report(spec_outcome_of(answer)),
    {
        let outcome = outcome_of(answer);
        let ghost before = self.calls@;
        let ghost vetoed = outcome is Unauthorized;
        if is_fatal(&outcome) {
            self.phase = Phase::Vetoed;
        }
        self.calls = Ghost(before.push(Call::Log { stream, data: data@, refused: vetoed }));
        proof {
            let after = self.calls@;
            assert(after.drop_last() =~= before);
            if !vetoed {
                assert forall|i: int| 1 <= i < after.len() implies quiet(#[trigger] after[i]) by {
                    if i < before.len() {
                        assert(after[i] == before[i]);
                    }
                }
            }
        }
        report(outcome)
    }

    /// Shows a stream's data to the instance, if the stream is
    /// dispatched, and settles the answer.
    pub fn log(&mut self, stream: Stream, data: &[u8]) -> (r: Report)
        requires
            old(self).wf(),
        ensures
            final(self).wf(),
            Self::logged(*old(self), *final(self), stream, data@, r),
    {
        let wanted = match (&self.phase, &self.env) {
            (Phase::Open, Some(env)) => P::IGNORE_IOLOG_HINTS || env.hint(stream),
            _ => false,
        };
        if !wanted {
            let code = match self.phase {
                Phase::Open => SUDO_PLUGIN_OK,
                Phase::Vetoed => SUDO_PLUGIN_REJECT,
                _ => SUDO_PLUGIN_ERROR,
            };
            return Report { code, message: None };
        }
        let mut instance = self.instance.take().unwrap();
        let answer = match stream {
            Stream::TtyIn => instance.log_ttyin(data),
            Stream::TtyOut => instance.log_ttyout(data),
            Stream::Stdin => instance.log_stdin(data),
            Stream::Stdout => instance.log_stdout(data),
            Stream::Stderr => instance.log_stderr(data),
        };
        self.instance = Some(instance);
        let r = self.settle_log(stream, data, answer);
        assert(r == spec_report(spec_outcome_of(answer)));
        r
    }

    /// The host's entry point for terminal input.
    pub fn log_ttyin(&mut self, data: &[u8]) -> (r: Report)
        requires
            old(self).wf(),
        ensures
            final(self).wf(),
            Self::logged(*old(self), *final(self), Stream::TtyIn, data@, r),
    {
        self.log(Stream::TtyIn, data)
    }

    /// The host's entry point for terminal output.
    pub fn log_ttyout(&mut self, data: &[u8]) -> (r: Report)
        requires
            old(self).wf(),
        ensures
            final(self).wf(),
            Self::logged(*old(self), *final(self), Stream::TtyOut, data@, r),
    {
        self.log(Stream::TtyOut, data)
    }

    /// The host's entry point for standard input.
    pub fn log_stdin(&mut self, data: &[u8]) -> (r: Report)
        requires
            old(self).wf(),
        ensures
            final(self).wf(),
            Self::logged(*old(self), *final(self), Stream::Stdin, data@, r),
    {
        self.log(Stream::Stdin, data)
    }

    /// The host's entry point for standard output.
    pub fn log_stdout(&mut self, data: &[u8]) -> (r: Report)
        requires
            old(self).wf(),
        ensures
            final(self).wf(),
            Self::logged(*old(self), *final(self), Stream::Stdout, data@, r),
    {
        self.log(Stream::Stdout, data)
    }

    /// The host's entry point for standard error.
    pub fn log_stderr(&mut self, data: &[u8]) -> (r: Report)
        requires
            old(self).wf(),
        ensures
            final(self).wf(),
            Self::logged(*old(self), *final(self), Stream::Stderr, data@, r),
    {
        self.log(Stream::Stderr, data)
    }

    /// The host's `show_version`. While the instance is open the plugin
    /// is asked for its version text, which the report carries with the
    /// ok code; of a plugin that brings no `show_version` of its own the
    /// text is the line of its name and version. In any other phase nothing is called, the adapter stays
    /// as it was, and the answer is the error code, which ends nothing.
    pub fn show_version(&mut self, verbose: bool) -> (r: Report)
        requires
            old(self).wf(),
        ensures
            final(self).wf(),
            final(self).phase() == old(self).phase(),
            final(self).instance() == old(self).instance(),
            final(self).env() == old(self).env(),
            old(self).phase() == Phase::Open ==> final(self).calls() == old(self).calls().push(
                Call::ShowVersion { verbose },
            ) && r.code == SUDO_PLUGIN_OK && r.message is Some,
            old(self).phase() == Phase::Open && !P::has_own_show_version() ==> (r.message matches Some(
                text,
            ) && text@ == spec_version_line(P::NAME@, P::VERSION@)),
            old(self).phase() != Phase::Open ==> *final(self) == *old(self) && r == (Report {
                code: SUDO_PLUGIN_ERROR,
                message: None,
            }),
    {
        let text = match (&self.phase, &self.env) {
            (Phase::Open, Some(env)) => P::show_version(env, verbose),
            _ => {
                return Report { code: SUDO_PLUGIN_ERROR, message: None };
            },
        };
        let ghost before = self.calls@;
        self.calls = Ghost(before.push(Call::ShowVersion { verbose }));
        proof {
            let after = self.calls@;
            assert forall|i: int| 1 <= i < after.len() implies quiet(#[trigger] after[i]) by {
                if i < before.len() {
                    assert(after[i] == before[i]);
                }
            }
        }
        Report { code: SUDO_PLUGIN_OK, message: Some(text) }
    }

    /// The host's `close`. An instance that exists, open or vetoed, is
    /// handed the exit status and error code and given up, and the
    /// adapter is closed. Without an instance nothing is called and the
    /// adapter stays as it was.
    pub fn close(&mut self, exit_status: i32, error: i32)
        requires
            old(self).wf(),
        ensures
            final(self).wf(),
            old(self).instance() is Some ==> {
                &&& final(self).phase() == Phase::Closed
                &&& final(self).instance() is None
                &&& final(self).env() is None
                &&& final(self).calls() == old(self).calls().push(
                    Call::Close { exit_status, error },
                )
            },
            old(self).instance() is None ==> *final(self) == *old(self),
    {
        match self.instance.take() {
            Some(instance) => {
                instance.close(exit_status, error);
                let ghost before = self.calls@;
                self.env = None;
                self.phase = Phase::Closed;
                self.calls = Ghost(before.push(Call::Close { exit_status, error }));
                proof {
                    assert(self.calls@.drop_last() =~= before);
                }
            },
            None => {},
        }
    }
}

} // verus!
