//! The development shell: PowerShell with the installed PHP, PostgreSQL and
//! Bun first on its `PATH`.
use vstd::prelude::*;
use crate::effects::{
    ArgView, CommandArg, CommandView, FailureView, Notice, NoticeView, OnFailure, Op, OpView,
    Outcome, OutcomeView, PathSpec, ProcessCommand, RunMode, Step, StepView, abort_with,
    new_command, noted, noted_view, plain_command, quiet, quiet_view, text_arg,
};
use crate::locate::{find_subfolder_bin, locate_transition, locate_wf, subfolder_search, Locate, LocateView};
use crate::text::{concat2, owned};
use crate::pconnect_tool::configs::pconnect_cfg::GlobalConfig;

verus! {

/// The tool's folder under the home directory.
pub open spec fn tool_dir(home: Seq<char>) -> Seq<Seq<char>> {
    seq![home, ".pconnect"@]
}

/// The `PATH` of the shell: PHP's folder, PostgreSQL's and Bun's, then the
/// current `PATH`, separated by `;`.
pub open spec fn shell_path(php: Seq<Seq<char>>, pg: Seq<Seq<char>>, bun: Seq<Seq<char>>, current: Seq<char>) -> Seq<ArgView> {
    seq![
        ArgView::Path(php),
        ArgView::Prefixed(";"@, pg),
        ArgView::Prefixed(";"@, bun),
        ArgView::Text(";"@ + current),
    ]
}

/// The shell command, with its `PATH`.
pub open spec fn shell_command(path: Seq<ArgView>) -> CommandView {
    CommandView {
        path_env: Some(path),
        ..plain_command(
            seq!["powershell.exe"@],
            seq![
                ArgView::Text("-NoExit"@),
                ArgView::Text("-Command"@),
                ArgView::Text("$host.ui.RawUI.WindowTitle = 'pconnect Shell'"@),
            ],
        )
    }
}

/// Where the opening of the shell stands.
#[derive(Clone, Copy, Debug, PartialEq, Eq, Structural)]
pub enum ShellStage {
    Start,
    AwaitHome,
    SearchPg,
    SearchBun,
    AwaitPath,
    AwaitShell,
    Done,
}

/// The opening of the shell.
pub struct ShellOpen {
    pub stage: ShellStage,
    pub php_version: String,
    pub pg_version: String,
    pub bun_version: String,
    pub home: String,
    pub search: Locate,
    pub pg_dir: PathSpec,
    pub bun_dir: PathSpec,
}

/// The view of a `ShellOpen`.
pub struct ShellView {
    pub stage: ShellStage,
    pub php_version: Seq<char>,
    pub pg_version: Seq<char>,
    pub bun_version: Seq<char>,
    pub home: Seq<char>,
    pub search: LocateView,
    pub pg_dir: Seq<Seq<char>>,
    pub bun_dir: Seq<Seq<char>>,
}

impl View for ShellOpen {
    type V = ShellView;

    open spec fn view(&self) -> ShellView {
        ShellView {
            stage: self.stage,
            php_version: self.php_version@,
            pg_version: self.pg_version@,
            bun_version: self.bun_version@,
            home: self.home@,
            search: self.search@,
            pg_dir: self.pg_dir@,
            bun_dir: self.bun_dir@,
        }
    }
}

/// The search for PostgreSQL's `bin`.
pub open spec fn pg_search(s: ShellView) -> LocateView {
    subfolder_search(tool_dir(s.home).push("postgres-"@ + s.pg_version), "bin"@)
}

/// The search for the folder that holds `bun.exe`.
pub open spec fn bun_search(s: ShellView) -> LocateView {
    subfolder_search(tool_dir(s.home).push("bun-"@ + s.bun_version), "bun.exe"@)
}

/// What the opening of the shell does next: it finds the home directory,
/// where PostgreSQL's programs and Bun really are, and the current `PATH`,
/// then runs the shell.
pub open spec fn shell_transition(s: ShellView, ev: OutcomeView) -> (ShellView, StepView) {
    let done = ShellView { stage: ShellStage::Done, ..s };
    match (s.stage, ev) {
        (ShellStage::Start, OutcomeView::Begin) => (
            ShellView { stage: ShellStage::AwaitHome, ..s },
            quiet_view(OpView::ReadEnv("USERPROFILE"@, FailureView::Abort("❌ USERPROFILE não encontrado"@))),
        ),
        (ShellStage::AwaitHome, OutcomeView::Text(h)) => {
            let s1 = ShellView { home: h, ..s };
            let (l, st) = locate_transition(pg_search(s1), OutcomeView::Begin);
            (ShellView { stage: ShellStage::SearchPg, search: l, ..s1 }, st)
        },
        (ShellStage::SearchPg, _) => {
            let (l, st) = locate_transition(s.search, ev);
            if st.op == OpView::Halt {
                let s1 = ShellView { pg_dir: l.result, ..s };
                let (l2, st2) = locate_transition(bun_search(s1), OutcomeView::Begin);
                (ShellView { stage: ShellStage::SearchBun, search: l2, ..s1 }, st2)
            } else {
                (ShellView { search: l, ..s }, st)
            }
        },
        (ShellStage::SearchBun, _) => {
            let (l, st) = locate_transition(s.search, ev);
            if st.op == OpView::Halt {
                (
                    ShellView { stage: ShellStage::AwaitPath, bun_dir: l.result, search: l, ..s },
                    quiet_view(OpView::ReadEnv("PATH"@, FailureView::Ignore)),
                )
            } else {
                (ShellView { search: l, ..s }, st)
            }
        },
        (ShellStage::AwaitPath, OutcomeView::Text(p)) => (
            ShellView { stage: ShellStage::AwaitShell, ..s },
            noted_view(
                NoticeView::ShellOpening,
                OpView::Run(
                    shell_command(
                        shell_path(tool_dir(s.home).push("php-"@ + s.php_version), s.pg_dir, s.bun_dir, p),
                    ),
                    RunMode::Status,
                ),
            ),
        ),
        _ => (done, quiet_view(OpView::Halt)),
    }
}

/// The search is well formed where one is under way.
pub open spec fn shell_wf(s: ShellView) -> bool {
    locate_wf(s.search)
}

fn copy_string(s: &String) -> (r: String)
    ensures
        r@ == s@,
{
    s.clone()
}

/// The opening of the development shell with the versions of the global
/// configuration, before its first step.
pub fn spawn_shell(global: &GlobalConfig) -> (m: ShellOpen)
    ensures
        m@.stage == ShellStage::Start,
        m@.php_version == global.versions.php_version@,
        m@.pg_version == global.versions.postgresql_version@,
        m@.bun_version == global.versions.bun_version@,
        m@.home == Seq::<char>::empty(),
        shell_wf(m@),
{
    let nowhere = PathSpec::single("");
    ShellOpen {
        stage: ShellStage::Start,
        php_version: copy_string(&global.versions.php_version),
        pg_version: copy_string(&global.versions.postgresql_version),
        bun_version: copy_string(&global.versions.bun_version),
        home: String::new(),
        search: find_subfolder_bin(&nowhere, "bin"),
        pg_dir: nowhere.duplicate(),
        bun_dir: nowhere,
    }
}

fn is_halt(op: &Op) -> (b: bool)
    ensures
        b == (op@ == OpView::Halt),
{
    match op {
        Op::Halt => true,
        _ => false,
    }
}

impl ShellOpen {
    fn tool(&self) -> (p: PathSpec)
        ensures
            p@ == tool_dir(self.home@),
    {
        let p = PathSpec::single(&self.home).join(".pconnect");
        proof {
            assert(p@ =~= tool_dir(self.home@));
        }
        p
    }

    fn shell(&self, current: &str) -> (c: ProcessCommand)
        ensures
            c@ == shell_command(
                shell_path(tool_dir(self.home@).push("php-"@ + self.php_version@), self.pg_dir@, self.bun_dir@, current@),
            ),
    {
        let php = self.tool().join_string(concat2("php-", &self.php_version));
        let mut path: Vec<CommandArg> = Vec::new();
        path.push(CommandArg::Path(php));
        path.push(CommandArg::Prefixed(owned(";"), self.pg_dir.duplicate()));
        path.push(CommandArg::Prefixed(owned(";"), self.bun_dir.duplicate()));
        path.push(CommandArg::Text(concat2(";", current)));
        let mut args: Vec<CommandArg> = Vec::new();
        args.push(text_arg("-NoExit"));
        args.push(text_arg("-Command"));
        args.push(text_arg("$host.ui.RawUI.WindowTitle = 'pconnect Shell'"));
        let mut c = new_command(PathSpec::single("powershell.exe"), args);
        let ghost pv = path@.map_values(|a: CommandArg| a@);
        c.path_env = Some(path);
        proof {
            let want = shell_command(
                shell_path(tool_dir(self.home@).push("php-"@ + self.php_version@), self.pg_dir@, self.bun_dir@, current@),
            );
            assert(pv =~= want.path_env.unwrap());
            assert(c@.args =~= want.args);
        }
        c
    }

    /// The next step, given the outcome of the last one.
    pub fn step(&mut self, ev: Outcome) -> (st: Step)
        requires
            shell_wf(old(self)@),
        ensures
            (final(self)@, st@) == shell_transition(old(self)@, ev@),
            shell_wf(final(self)@),
    {
        match (self.stage, ev) {
            (ShellStage::Start, Outcome::Begin) => {
                self.stage = ShellStage::AwaitHome;
                quiet(Op::ReadEnv(owned("USERPROFILE"), abort_with("❌ USERPROFILE não encontrado")))
            },
            (ShellStage::AwaitHome, Outcome::Text(h)) => {
                self.home = h;
                let base = self.tool().join_string(concat2("postgres-", &self.pg_version));
                self.search = find_subfolder_bin(&base, "bin");
                self.stage = ShellStage::SearchPg;
                self.search.step(Outcome::Begin)
            },
            (ShellStage::SearchPg, ev) => {
                let st = self.search.step(ev);
                if is_halt(&st.op) {
                    self.pg_dir = self.search.result.duplicate();
                    let base = self.tool().join_string(concat2("bun-", &self.bun_version));
                    self.search = find_subfolder_bin(&base, "bun.exe");
                    self.stage = ShellStage::SearchBun;
                    self.search.step(Outcome::Begin)
                } else {
                    st
                }
            },
            (ShellStage::SearchBun, ev) => {
                let st = self.search.step(ev);
                if is_halt(&st.op) {
                    self.bun_dir = self.search.result.duplicate();
                    self.stage = ShellStage::AwaitPath;
                    quiet(Op::ReadEnv(owned("PATH"), OnFailure::Ignore))
                } else {
                    st
                }
            },
            (ShellStage::AwaitPath, Outcome::Text(p)) => {
                self.stage = ShellStage::AwaitShell;
                noted(Notice::ShellOpening, Op::Run(self.shell(&p), RunMode::Status))
            },
            _ => {
                self.stage = ShellStage::Done;
                quiet(Op::Halt)
            },
        }
    }
}

/// The shell keeps the user's `PATH` after the program folders: once the
/// current `PATH` is read, PowerShell runs with a `PATH` made of PHP's folder
/// `<home>/.pconnect/php-<version>`, then `;` and the PostgreSQL and Bun
/// folders found, then `;` and the `PATH` that was read, unchanged.
pub proof fn shell_keeps_current_path(s: ShellView, current: Seq<char>)
    requires
        s.stage == ShellStage::AwaitPath,
    ensures
        shell_transition(s, OutcomeView::Text(current)).1.op matches OpView::Run(c, RunMode::Status)
            && c.program == seq!["powershell.exe"@]
            && c.path_env == Some(
            seq![
                ArgView::Path(seq![s.home, ".pconnect"@, "php-"@ + s.php_version]),
                ArgView::Prefixed(";"@, s.pg_dir),
                ArgView::Prefixed(";"@, s.bun_dir),
                ArgView::Text(";"@ + current),
            ],
        ),
{
    assert(tool_dir(s.home).push("php-"@ + s.php_version) =~= seq![s.home, ".pconnect"@, "php-"@ + s.php_version]);
}

} // verus!
