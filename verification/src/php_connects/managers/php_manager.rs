//! Starting and stopping PHP's built-in web server.
use vstd::prelude::*;
use crate::effects::{
    ArgView, CommandArg, CommandView, FailureView, Notice, NoticeView, Op, OpView, Outcome,
    OutcomeView, PathSpec, ProcessCommand, RunMode, Service, Step, StepView, abort_with, new_command, noted,
    noted_view, plain_command, quiet, quiet_view, text_arg,
};
use crate::text::{concat2, decimal, decimal_string, owned};
use crate::pid_stop::{pid_written, stop_after_reading, stop_initial, stop_service, taskkill_command, ServiceStop, StopStyle};
use crate::text::trim_keeps_decimal;

verus! {

/// The file that holds the process id of the running server.
pub open spec fn php_pid_file() -> Seq<Seq<char>> {
    seq!["php.pid"@]
}

/// `php -S localhost:<port> -t <root>`.
pub open spec fn php_server_command(php: Seq<Seq<char>>, port: u16, root: Seq<char>) -> CommandView {
    plain_command(
        php,
        seq![
            ArgView::Text("-S"@),
            ArgView::Text("localhost:"@ + decimal(port as nat)),
            ArgView::Text("-t"@),
            ArgView::Text(root),
        ],
    )
}

/// Where a start of PHP stands.
#[derive(Clone, Copy, Debug, PartialEq, Eq, Structural)]
pub enum PhpStage {
    Start,
    AwaitPidCheck,
    AwaitSpawn,
    AwaitPidWrite,
    Done,
}

/// A start of PHP's web server.
pub struct PhpRun {
    pub stage: PhpStage,
    pub php: PathSpec,
    pub port: u16,
    pub root_dir: String,
    pub pid: u32,
}

/// The view of a `PhpRun`.
pub struct PhpView {
    pub stage: PhpStage,
    pub php: Seq<Seq<char>>,
    pub port: u16,
    pub root_dir: Seq<char>,
    pub pid: u32,
}

impl View for PhpRun {
    type V = PhpView;

    open spec fn view(&self) -> PhpView {
        PhpView { stage: self.stage, php: self.php@, port: self.port, root_dir: self.root_dir@, pid: self.pid }
    }
}

/// What a start of PHP does next, given the outcome `ev` of its last
/// operation. An outcome that does not fit the stage ends it.
pub open spec fn php_transition(s: PhpView, ev: OutcomeView) -> (PhpView, StepView) {
    let svc = Service::Php;
    let done = PhpView { stage: PhpStage::Done, ..s };
    match (s.stage, ev) {
        (PhpStage::Start, OutcomeView::Begin) => (
            PhpView { stage: PhpStage::AwaitPidCheck, ..s },
            quiet_view(OpView::CheckExists(php_pid_file())),
        ),
        (PhpStage::AwaitPidCheck, OutcomeView::Exists(true)) => (
            done,
            noted_view(NoticeView::AlreadyRunning(svc), OpView::Halt),
        ),
        (PhpStage::AwaitPidCheck, OutcomeView::Exists(false)) => (
            PhpView { stage: PhpStage::AwaitSpawn, ..s },
            noted_view(NoticeView::Starting(svc, s.port), OpView::Spawn(php_server_command(s.php, s.port, s.root_dir))),
        ),
        (PhpStage::AwaitSpawn, OutcomeView::Spawned(Err(e))) => (
            done,
            noted_view(NoticeView::StartFailed(svc, e), OpView::Halt),
        ),
        (PhpStage::AwaitSpawn, OutcomeView::Spawned(Ok(pid))) => (
            PhpView { stage: PhpStage::AwaitPidWrite, pid, ..s },
            quiet_view(
                OpView::WriteFile(
                    php_pid_file(),
                    decimal(pid as nat),
                    FailureView::Abort("Não foi possível salvar o PID do PHP"@),
                ),
            ),
        ),
        (PhpStage::AwaitPidWrite, OutcomeView::Ack) => (
            done,
            noted_view(NoticeView::Started(svc, s.pid), OpView::Halt),
        ),
        _ => (done, quiet_view(OpView::Halt)),
    }
}

fn pid_file() -> (p: PathSpec)
    ensures
        p@ == php_pid_file(),
{
    PathSpec::single("php.pid")
}

/// A start of PHP's web server with the program `php`, on `port`, serving
/// `root_dir`, before its first step.
pub fn run_php(php: PathSpec, port: u16, root_dir: &str) -> (m: PhpRun)
    ensures
        m@ == (PhpView { stage: PhpStage::Start, php: php@, port, root_dir: root_dir@, pid: 0 }),
{
    PhpRun { stage: PhpStage::Start, php, port, root_dir: owned(root_dir), pid: 0 }
}

impl PhpRun {
    fn server(&self) -> (c: ProcessCommand)
        ensures
            c@ == php_server_command(self.php@, self.port, self.root_dir@),
    {
        let mut args: Vec<CommandArg> = Vec::new();
        args.push(text_arg("-S"));
        args.push(CommandArg::Text(concat2("localhost:", &decimal_string(self.port as u32))));
        args.push(text_arg("-t"));
        args.push(text_arg(&self.root_dir));
        let c = new_command(self.php.duplicate(), args);
        proof {
            assert(c@.args =~= php_server_command(self.php@, self.port, self.root_dir@).args);
        }
        c
    }

    /// The next step, given the outcome of the last one.
    pub fn step(&mut self, ev: Outcome) -> (st: Step)
        ensures
            (final(self)@, st@) == php_transition(old(self)@, ev@),
    {
        let svc = Service::Php;
        match (self.stage, ev) {
            (PhpStage::Start, Outcome::Begin) => {
                self.stage = PhpStage::AwaitPidCheck;
                quiet(Op::CheckExists(pid_file()))
            },
            (PhpStage::AwaitPidCheck, Outcome::Exists(running)) => {
                if running {
                    self.stage = PhpStage::Done;
                    noted(Notice::AlreadyRunning(svc), Op::Halt)
                } else {
                    self.stage = PhpStage::AwaitSpawn;
                    noted(Notice::Starting(svc, self.port), Op::Spawn(self.server()))
                }
            },
            (PhpStage::AwaitSpawn, Outcome::Spawned(r)) => {
                match r {
                    Err(e) => {
                        self.stage = PhpStage::Done;
                        noted(Notice::StartFailed(svc, e), Op::Halt)
                    },
                    Ok(pid) => {
                        self.pid = pid;
                        self.stage = PhpStage::AwaitPidWrite;
                        quiet(Op::WriteFile(pid_file(), decimal_string(pid), abort_with("Não foi possível salvar o PID do PHP")))
                    },
                }
            },
            (PhpStage::AwaitPidWrite, Outcome::Ack) => {
                self.stage = PhpStage::Done;
                noted(Notice::Started(svc, self.pid), Op::Halt)
            },
            _ => {
                self.stage = PhpStage::Done;
                quiet(Op::Halt)
            },
        }
    }
}

/// A stop of PHP's web server, which says when nothing runs and announces
/// the process it stops.
pub fn stop_php() -> (m: ServiceStop)
    ensures
        m@ == stop_initial(Service::Php, php_pid_file(), StopStyle::Verbose),
{
    stop_service(Service::Php, pid_file(), StopStyle::Verbose)
}

// ---------------------------------------------------------------------------
// Laws
// ---------------------------------------------------------------------------

/// A start of PHP first looks for the pid file; where it exists PHP runs
/// already, and the start says so and does nothing more.
pub proof fn php_running_server_not_restarted(s: PhpView)
    requires
        s.stage == PhpStage::Start,
    ensures
        ({
            let (s1, st1) = php_transition(s, OutcomeView::Begin);
            &&& st1.op == OpView::CheckExists(php_pid_file())
            &&& php_transition(s1, OutcomeView::Exists(true)) == (
                PhpView { stage: PhpStage::Done, ..s },
                noted_view(NoticeView::AlreadyRunning(Service::Php), OpView::Halt),
            )
        }),
{
}

/// The started server's process id is written to the pid file, and the stop
/// that reads that file back kills that very process.
pub proof fn php_stop_ends_started_server(s: PhpView, pid: u32)
    requires
        s.stage == PhpStage::AwaitSpawn,
    ensures
        pid_written(php_transition(s, OutcomeView::Spawned(Ok(pid))).1.op, php_pid_file(), decimal(pid as nat)),
        stop_after_reading(Service::Php, php_pid_file(), StopStyle::Verbose, decimal(pid as nat)).1.op
            == OpView::Run(taskkill_command(decimal(pid as nat)), RunMode::Output),
{
    trim_keeps_decimal(pid as nat);
}

} // verus!
