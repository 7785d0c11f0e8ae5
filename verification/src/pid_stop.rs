//! Stopping a service started by one of the managers. A running service is
//! known by its pid file; stopping kills that process and its children with
//! `taskkill` and removes the file.
use vstd::prelude::*;
use crate::effects::{ArgView, CommandArg, CommandView, FailureView, Notice, NoticeView, OnFailure, Op, OpView, Outcome, OutcomeView, PathSpec, ProcessCommand, RunMode, Service, Step, StepView, abort_with, new_command, noted, plain_command, quiet, text_arg};
use crate::text::{trim_seq, trim_white_space};

verus! {

/// How a manager reports a stop.
#[derive(Clone, Copy, Debug, PartialEq, Eq, Structural)]
pub enum StopStyle {
    /// Says nothing when nothing runs, reads the pid file leniently, always
    /// removes it, and reports the stop at the end.
    Quiet,
    /// Says when nothing runs, insists on reading the pid file, announces the
    /// process it stops, and reports a `taskkill` that could not run (the file
    /// is removed all the same).
    Verbose,
}

/// Where a stop stands.
#[derive(Clone, Copy, Debug, PartialEq, Eq, Structural)]
pub enum StopStage {
    Start,
    AwaitPidCheck,
    AwaitRead,
    AwaitKill,
    AwaitRemove,
    AwaitRemoveAfterFailure,
    Done,
}

/// A stop of one service.
pub struct ServiceStop {
    pub stage: StopStage,
    pub service: Service,
    pub pid_file: PathSpec,
    pub style: StopStyle,
    pub pid: String,
}

/// The view of a `ServiceStop`.
pub struct StopView {
    pub stage: StopStage,
    pub service: Service,
    pub pid_file: Seq<Seq<char>>,
    pub style: StopStyle,
    pub pid: Seq<char>,
}

impl View for ServiceStop {
    type V = StopView;

    open spec fn view(&self) -> StopView {
        StopView {
            stage: self.stage,
            service: self.service,
            pid_file: self.pid_file@,
            style: self.style,
            pid: self.pid@,
        }
    }
}

/// The command that kills the process `pid` and its children.
pub open spec fn taskkill_command(pid: Seq<char>) -> CommandView {
    plain_command(
        seq!["taskkill"@],
        seq![
            ArgView::Text("/F"@),
            ArgView::Text("/PID"@),
            ArgView::Text(pid),
            ArgView::Text("/T"@),
        ],
    )
}

/// A stop before its first step.
pub open spec fn stop_initial(service: Service, pid_file: Seq<Seq<char>>, style: StopStyle) -> StopView {
    StopView { stage: StopStage::Start, service, pid_file, style, pid: seq![] }
}

/// What a stop does next, given the outcome `ev` of its last operation. An
/// outcome that does not fit the stage ends it.
pub open spec fn stop_transition(s: StopView, ev: OutcomeView) -> (StopView, StepView) {
    let done = StopView { stage: StopStage::Done, ..s };
    let verbose = s.style == StopStyle::Verbose;
    match (s.stage, ev) {
        (StopStage::Start, OutcomeView::Begin) => (
            StopView { stage: StopStage::AwaitPidCheck, ..s },
            StepView { notes: seq![], op: OpView::CheckExists(s.pid_file) },
        ),
        (StopStage::AwaitPidCheck, OutcomeView::Exists(false)) => (
            done,
            StepView {
                notes: if verbose { seq![NoticeView::NotRunning(s.service)] } else { seq![] },
                op: OpView::Halt,
            },
        ),
        (StopStage::AwaitPidCheck, OutcomeView::Exists(true)) => (
            StopView { stage: StopStage::AwaitRead, ..s },
            StepView {
                notes: seq![],
                op: OpView::ReadFile(
                    s.pid_file,
                    if verbose {
                        FailureView::Abort("Erro ao ler o arquivo de PID"@)
                    } else {
                        FailureView::Ignore
                    },
                ),
            },
        ),
        (StopStage::AwaitRead, OutcomeView::Text(t)) => (
            StopView { stage: StopStage::AwaitKill, pid: trim_seq(t), ..s },
            StepView {
                notes: if verbose {
                    seq![NoticeView::Stopping(s.service, trim_seq(t))]
                } else {
                    seq![]
                },
                op: OpView::Run(taskkill_command(trim_seq(t)), RunMode::Output),
            },
        ),
        (StopStage::AwaitKill, OutcomeView::Finished(Err(e))) => if verbose {
            (
                StopView { stage: StopStage::AwaitRemoveAfterFailure, ..s },
                StepView {
                    notes: seq![NoticeView::StopFailed(s.service, e)],
                    op: OpView::RemoveFile(s.pid_file, FailureView::Ignore),
                },
            )
        } else {
            (
                StopView { stage: StopStage::AwaitRemove, ..s },
                StepView { notes: seq![], op: OpView::RemoveFile(s.pid_file, FailureView::Ignore) },
            )
        },
        (StopStage::AwaitKill, OutcomeView::Finished(Ok(_))) => (
            StopView { stage: StopStage::AwaitRemove, ..s },
            StepView { notes: seq![], op: OpView::RemoveFile(s.pid_file, FailureView::Ignore) },
        ),
        (StopStage::AwaitRemove, OutcomeView::Ack) => (
            done,
            StepView { notes: seq![NoticeView::Stopped(s.service)], op: OpView::Halt },
        ),
        (StopStage::AwaitRemoveAfterFailure, OutcomeView::Ack) => (done, StepView { notes: seq![], op: OpView::Halt }),
        _ => (done, StepView { notes: seq![], op: OpView::Halt }),
    }
}

/// A stop of `service`, known by `pid_file`, before its first step.
pub fn stop_service(service: Service, pid_file: PathSpec, style: StopStyle) -> (m: ServiceStop)
    ensures
        m@ == stop_initial(service, pid_file@, style),
{
    ServiceStop { stage: StopStage::Start, service, pid_file, style, pid: String::new() }
}

fn taskkill(pid: &str) -> (c: ProcessCommand)
    ensures
        c@ == taskkill_command(pid@),
{
    let mut args: Vec<CommandArg> = Vec::new();
    args.push(text_arg("/F"));
    args.push(text_arg("/PID"));
    args.push(text_arg(pid));
    args.push(text_arg("/T"));
    let c = new_command(PathSpec::single("taskkill"), args);
    proof {
        assert(c@.args =~= taskkill_command(pid@).args);
    }
    c
}

impl ServiceStop {
    /// The next step, given the outcome of the last one.
    pub fn step(&mut self, ev: Outcome) -> (s: Step)
        ensures
            (final(self)@, s@) == stop_transition(old(self)@, ev@),
    {
        let verbose = self.style == StopStyle::Verbose;
        match (self.stage, ev) {
            (StopStage::Start, Outcome::Begin) => {
                self.stage = StopStage::AwaitPidCheck;
                quiet(Op::CheckExists(self.pid_file.duplicate()))
            },
            (StopStage::AwaitPidCheck, Outcome::Exists(running)) => {
                if !running {
                    self.stage = StopStage::Done;
                    if verbose {
                        noted(Notice::NotRunning(self.service), Op::Halt)
                    } else {
                        quiet(Op::Halt)
                    }
                } else {
                    self.stage = StopStage::AwaitRead;
                    let on_failure = if verbose {
                        abort_with("Erro ao ler o arquivo de PID")
                    } else {
                        OnFailure::Ignore
                    };
                    quiet(Op::ReadFile(self.pid_file.duplicate(), on_failure))
                }
            },
            (StopStage::AwaitRead, Outcome::Text(t)) => {
                let pid = trim_white_space(&t);
                let cmd = taskkill(&pid);
                self.stage = StopStage::AwaitKill;
                if verbose {
                    let shown = pid.clone();
                    self.pid = pid;
                    noted(Notice::Stopping(self.service, shown), Op::Run(cmd, RunMode::Output))
                } else {
                    self.pid = pid;
                    quiet(Op::Run(cmd, RunMode::Output))
                }
            },
            (StopStage::AwaitKill, Outcome::Finished(r)) => {
                match r {
                    Err(e) => {
                        if verbose {
                            self.stage = StopStage::AwaitRemoveAfterFailure;
                            noted(Notice::StopFailed(self.service, e), Op::RemoveFile(self.pid_file.duplicate(), OnFailure::Ignore))
                        } else {
                            self.stage = StopStage::AwaitRemove;
                            quiet(Op::RemoveFile(self.pid_file.duplicate(), OnFailure::Ignore))
                        }
                    },
                    Ok(_) => {
                        self.stage = StopStage::AwaitRemove;
                        quiet(Op::RemoveFile(self.pid_file.duplicate(), OnFailure::Ignore))
                    },
                }
            },
            (StopStage::AwaitRemove, Outcome::Ack) => {
                self.stage = StopStage::Done;
                noted(Notice::Stopped(self.service), Op::Halt)
            },
            (StopStage::AwaitRemoveAfterFailure, Outcome::Ack) => {
                self.stage = StopStage::Done;
                quiet(Op::Halt)
            },
            _ => {
                self.stage = StopStage::Done;
                quiet(Op::Halt)
            },
        }
    }
}

// ---------------------------------------------------------------------------
// Laws
// ---------------------------------------------------------------------------

/// `op` writes `content` to `file`.
pub open spec fn pid_written(op: OpView, file: Seq<Seq<char>>, content: Seq<char>) -> bool {
    op matches OpView::WriteFile(f, c, _) && f == file && c == content
}

/// Where a stop stands, and what it does, once it has found its pid file and
/// read `content` from it.
pub open spec fn stop_after_reading(
    service: Service,
    pid_file: Seq<Seq<char>>,
    style: StopStyle,
    content: Seq<char>,
) -> (StopView, StepView) {
    let s1 = stop_transition(stop_initial(service, pid_file, style), OutcomeView::Begin).0;
    let s2 = stop_transition(s1, OutcomeView::Exists(true)).0;
    stop_transition(s2, OutcomeView::Text(content))
}

/// A stop first looks for its pid file. Without one it stops nothing. With
/// one it reads the file, kills the process named in it (white space around
/// the number dropped) together with its children, and then removes the file,
/// whether `taskkill` could run or not; once `taskkill` has run it reports the
/// service stopped.
pub proof fn stop_kills_recorded_process(
    service: Service,
    pid_file: Seq<Seq<char>>,
    style: StopStyle,
    content: Seq<char>,
    killed: bool,
    failure: Seq<char>,
)
    ensures
        ({
            let (s1, st1) = stop_transition(stop_initial(service, pid_file, style), OutcomeView::Begin);
            &&& st1.op == OpView::CheckExists(pid_file)
            &&& stop_transition(s1, OutcomeView::Exists(false)).1.op == OpView::Halt
            &&& stop_transition(s1, OutcomeView::Exists(true)).1.op matches OpView::ReadFile(f, _)
                && f == pid_file
        }),
        stop_after_reading(service, pid_file, style, content).1.op
            == OpView::Run(taskkill_command(trim_seq(content)), RunMode::Output),
        ({
            let (s4, st4) = stop_transition(
                stop_after_reading(service, pid_file, style, content).0,
                OutcomeView::Finished(Ok(killed)),
            );
            &&& st4.op == OpView::RemoveFile(pid_file, FailureView::Ignore)
            &&& stop_transition(s4, OutcomeView::Ack).1
                == (StepView { notes: seq![NoticeView::Stopped(service)], op: OpView::Halt })
        }),
        ({
            let (s4, st4) = stop_transition(
                stop_after_reading(service, pid_file, style, content).0,
                OutcomeView::Finished(Err(failure)),
            );
            &&& st4.op == OpView::RemoveFile(pid_file, FailureView::Ignore)
            &&& stop_transition(s4, OutcomeView::Ack).1.op == OpView::Halt
        }),
{
}

} // verus!
