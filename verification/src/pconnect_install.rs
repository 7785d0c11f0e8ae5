//! The installer of the tool: it downloads the tool's archive into
//! `.pconnect` under the home directory, moves the files out of the archive's
//! folder (the executable renamed to `pconnect.exe`), puts the folder on the
//! user's `Path` through the variable `PCONNECT`, and runs `pconnect install`.
/// Every failure along the way ends the installation with its reason.
use vstd::prelude::*;
use crate::archive::{
    entry_views, read_for_extraction, read_for_extraction_exec, stop_view, zip_contents, zip_error_message, zip_reads,
    EntryView, NameRule, ZipEntry,
};
use crate::effects::{
    ArgView, CommandArg, FailureView, FetchFailure, Notice, NoticeView, OnFailure, Op,
    OpView, Outcome, OutcomeView, PathSpec, RunMode, Step, StepView, new_command, no_notes, notice_views, noted, noted_view, one_note, plain_command, quiet, quiet_view, text_arg,
};
use crate::install_jobs::op_views;
use crate::text::{concat2, contains_str, ends_with_str, occurs_at, owned, seq_contains, seq_ends_with, seq_starts_with, starts_with_str};

verus! {

// ---------------------------------------------------------------------------
// Rules
// ---------------------------------------------------------------------------

/// Where the tool's archive is downloaded from.
pub open spec fn tool_url() -> Seq<char> {
    "https://github.com/OsPrimatas/PConnect/releases/latest/download/pconnect_tool.zip"@
}

/// The name a file of the tool gets in the tool's folder: the executable
/// (`pconnect_tool…​.exe`) becomes `pconnect.exe`, every other file keeps its
/// name.
pub open spec fn installed_name(n: Seq<char>) -> Seq<char> {
    if seq_starts_with(n, "pconnect_tool"@) && seq_ends_with(n, ".exe"@) {
        "pconnect.exe"@
    } else {
        n
    }
}

/// The name a file of the tool gets in the tool's folder.
pub fn installed_name_exec(n: &str) -> (r: String)
    ensures
        r@ == installed_name(n@),
{
    if starts_with_str(n, "pconnect_tool") && ends_with_str(n, ".exe") {
        owned("pconnect.exe")
    } else {
        owned(n)
    }
}

/// The user's `Path` with `%PCONNECT%` added at its end, where it is not in
/// it yet.
pub open spec fn updated_user_path(current: Seq<char>) -> Option<Seq<char>> {
    if seq_contains(current, "%PCONNECT%"@) {
        None
    } else {
        Some(current + ";%PCONNECT%"@)
    }
}

/// The user's `Path` with `%PCONNECT%` added at its end, where it is not in
/// it yet.
pub fn setup_env_variables(current: &str) -> (r: Option<String>)
    ensures
        crate::effects::opt_text_view(r) == updated_user_path(current@),
{
    if contains_str(current, "%PCONNECT%") {
        None
    } else {
        Some(concat2(current, ";%PCONNECT%"))
    }
}

/// The operations that extract one entry into `root`, under its stored name.
pub open spec fn installer_entry_ops(root: Seq<Seq<char>>, e: EntryView) -> Seq<OpView> {
    if seq_ends_with(e.name, "/"@) {
        seq![OpView::CreateDirAll(root.push(e.name), FailureView::Report)]
    } else {
        seq![
            OpView::CreateParentDirAll(root.push(e.name), FailureView::Report),
            OpView::WriteBytes(root.push(e.name), e.contents, FailureView::Report),
        ]
    }
}

/// The operations that extract the entries `es`, in order, into `root`.
pub open spec fn installer_plan(root: Seq<Seq<char>>, es: Seq<EntryView>) -> Seq<OpView>
    decreases es.len(),
{
    if es.len() == 0 {
        seq![]
    } else {
        installer_plan(root, es.drop_last()) + installer_entry_ops(root, es.last())
    }
}

fn copy_bytes(b: &Vec<u8>) -> (r: Vec<u8>)
    ensures
        r@ == b@,
{
    let mut r: Vec<u8> = Vec::new();
    let mut i: usize = 0;
    while i < b.len()
        invariant
            i <= b.len(),
            r@ == b@.take(i as int),
        decreases b.len() - i,
    {
        r.push(b[i]);
        proof {
            assert(r@ =~= b@.take(i + 1));
        }
        i = i + 1;
    }
    proof {
        assert(b@.take(b.len() as int) =~= b@);
    }
    r
}

fn push_installer_entry_ops(root: &PathSpec, e: &ZipEntry, ops: &mut Vec<Op>)
    ensures
        op_views(final(ops)@) == op_views(old(ops)@) + installer_entry_ops(root@, e@),
{
    let ghost before = op_views(ops@);
    let out = root.join(&e.name);
    if ends_with_str(&e.name, "/") {
        ops.push(Op::CreateDirAll(out, OnFailure::Report));
    } else {
        ops.push(Op::CreateParentDirAll(out.duplicate(), OnFailure::Report));
        ops.push(Op::WriteBytes(out, copy_bytes(&e.contents), OnFailure::Report));
    }
    proof {
        assert(op_views(ops@) =~= before + installer_entry_ops(root@, e@));
    }
}

/// The operations that extract `entries`, in order, into `root`.
pub fn installer_ops(root: &PathSpec, entries: &Vec<ZipEntry>) -> (ops: Vec<Op>)
    ensures
        op_views(ops@) == installer_plan(root@, entry_views(entries@)),
{
    let mut ops: Vec<Op> = Vec::new();
    let mut i: usize = 0;
    assert(op_views(ops@) =~= Seq::<OpView>::empty());
    while i < entries.len()
        invariant
            i <= entries.len(),
            op_views(ops@) == installer_plan(root@, entry_views(entries@).take(i as int)),
        decreases entries.len() - i,
    {
        let e = &entries[i];
        push_installer_entry_ops(root, e, &mut ops);
        proof {
            let es = entry_views(entries@).take(i + 1);
            assert(es.drop_last() =~= entry_views(entries@).take(i as int));
            assert(es.last() == entries@[i as int]@);
        }
        i = i + 1;
    }
    proof {
        assert(entry_views(entries@).take(entries.len() as int) =~= entry_views(entries@));
    }
    ops
}

// ---------------------------------------------------------------------------
// The installation
// ---------------------------------------------------------------------------

/// Where the installation stands.
#[derive(Clone, Copy, Debug, PartialEq, Eq, Structural)]
pub enum SetupStage {
    Start,
    AwaitHome,
    AwaitDirCheck,
    AwaitDirCreate,
    AwaitFetch,
    Extracting,
    AwaitSubCheck,
    AwaitSubList,
    AwaitTargetCheck,
    AwaitTargetRemove,
    AwaitRename,
    AwaitSubRemove,
    AwaitExeCheck,
    AwaitSetEnv,
    AwaitReadPath,
    AwaitSetPath,
    AwaitInstall,
    Done,
}

/// The installation of the tool.
pub struct ToolSetup {
    pub stage: SetupStage,
    pub home: String,
    pub queue: Vec<Op>,
    pub entries: Vec<String>,
    pub index: usize,
    /// Why the archive's entry after those queued cannot be read, where one
    /// cannot.
    pub failure: Option<String>,
}

/// The view of a `ToolSetup`.
pub struct SetupView {
    pub stage: SetupStage,
    pub home: Seq<char>,
    pub queue: Seq<OpView>,
    pub entries: Seq<Seq<char>>,
    pub index: int,
    pub failure: Option<Seq<char>>,
}

impl View for ToolSetup {
    type V = SetupView;

    open spec fn view(&self) -> SetupView {
        SetupView {
            stage: self.stage,
            home: self.home@,
            queue: op_views(self.queue@),
            entries: self.entries.deep_view(),
            index: self.index as int,
            failure: crate::effects::opt_text_view(self.failure),
        }
    }
}

/// The index is in range for the stage.
pub open spec fn setup_wf(s: SetupView) -> bool {
    &&& 0 <= s.index <= s.entries.len()
    &&& (s.stage == SetupStage::AwaitTargetCheck || s.stage == SetupStage::AwaitTargetRemove
        || s.stage == SetupStage::AwaitRename) ==> s.index < s.entries.len()
}

/// The tool's folder.
pub open spec fn tool_folder(s: SetupView) -> Seq<Seq<char>> {
    seq![s.home, ".pconnect"@]
}

/// The archive's own folder inside the tool's folder.
pub open spec fn archive_folder(s: SetupView) -> Seq<Seq<char>> {
    tool_folder(s).push("pconnect_tool"@)
}

/// Where the current file of the archive's folder goes.
pub open spec fn move_target(s: SetupView) -> Seq<Seq<char>> {
    tool_folder(s).push(installed_name(s.entries[s.index]))
}

/// The move of the current file of the archive's folder.
pub open spec fn move_step(s: SetupView) -> StepView {
    quiet_view(
        OpView::Rename(archive_folder(s).push(s.entries[s.index]), move_target(s), FailureView::Report),
    )
}

/// The tool's executable.
pub open spec fn tool_exe(s: SetupView) -> Seq<Seq<char>> {
    tool_folder(s).push("pconnect.exe"@)
}

/// The installation ends with `reason`.
pub open spec fn setup_fatal(s: SetupView, notes: Seq<NoticeView>, reason: Seq<char>) -> (SetupView, StepView) {
    (
        SetupView { stage: SetupStage::Done, ..s },
        StepView { notes: notes.push(NoticeView::Fatal(reason)), op: OpView::Halt },
    )
}

/// The executable is looked for, after `notes`.
pub open spec fn setup_exe_check(s: SetupView, notes: Seq<NoticeView>) -> (SetupView, StepView) {
    (SetupView { stage: SetupStage::AwaitExeCheck, ..s }, StepView { notes, op: OpView::CheckExists(tool_exe(s)) })
}

/// The next extraction operation, after `notes`; once the queue is done, the
/// end of the installation with the archive's error where an entry could not
/// be read, else the organizing of the files.
pub open spec fn setup_next_queued(s: SetupView, notes: Seq<NoticeView>) -> (SetupView, StepView) {
    if s.queue.len() > 0 {
        (SetupView { stage: SetupStage::Extracting, queue: s.queue.drop_first(), ..s }, StepView { notes, op: s.queue[0] })
    } else {
        match s.failure {
            Some(t) => setup_fatal(s, notes, t),
            None => (
                SetupView { stage: SetupStage::AwaitSubCheck, ..s },
                StepView { notes: notes.push(NoticeView::Organizing), op: OpView::CheckIsDir(archive_folder(s)) },
            ),
        }
    }
}

/// The next file of the archive's folder is looked at, or the folder removed,
/// after `notes`.
pub open spec fn setup_next_move(s: SetupView, notes: Seq<NoticeView>) -> (SetupView, StepView) {
    if s.index < s.entries.len() {
        (
            SetupView { stage: SetupStage::AwaitTargetCheck, ..s },
            StepView { notes, op: OpView::CheckExists(move_target(s)) },
        )
    } else {
        (
            SetupView { stage: SetupStage::AwaitSubRemove, ..s },
            StepView { notes, op: OpView::RemoveDirAll(archive_folder(s), FailureView::Report) },
        )
    }
}

/// `pconnect install` is run.
pub open spec fn setup_run_install(s: SetupView) -> (SetupView, StepView) {
    (
        SetupView { stage: SetupStage::AwaitInstall, ..s },
        noted_view(
            NoticeView::RunningInstall,
            OpView::Run(plain_command(tool_exe(s), seq![ArgView::Text("install"@)]), RunMode::Status),
        ),
    )
}

/// What the installation does next, for every outcome but a successful
/// download. A reported failure ends it with its reason.
pub open spec fn setup_transition(s: SetupView, ev: OutcomeView) -> (SetupView, StepView) {
    let done = SetupView { stage: SetupStage::Done, ..s };
    match (s.stage, ev) {
        (SetupStage::Start, OutcomeView::Begin) => (
            SetupView { stage: SetupStage::AwaitHome, ..s },
            noted_view(NoticeView::InstallerStarting, OpView::ReadEnv("USERPROFILE"@, FailureView::Report)),
        ),
        (SetupStage::Start, _) => (done, quiet_view(OpView::Halt)),
        (SetupStage::Done, _) => (done, quiet_view(OpView::Halt)),
        (_, OutcomeView::Failed(e)) => setup_fatal(s, seq![], e),
        (SetupStage::AwaitHome, OutcomeView::Text(h)) => (
            SetupView { stage: SetupStage::AwaitDirCheck, home: h, ..s },
            quiet_view(OpView::CheckExists(seq![h, ".pconnect"@])),
        ),
        (SetupStage::AwaitDirCheck, OutcomeView::Exists(false)) => (
            SetupView { stage: SetupStage::AwaitDirCreate, ..s },
            quiet_view(OpView::CreateDirAll(tool_folder(s), FailureView::Report)),
        ),
        (SetupStage::AwaitDirCheck, OutcomeView::Exists(true)) => (
            SetupView { stage: SetupStage::AwaitFetch, ..s },
            noted_view(NoticeView::InstallerDownloading(tool_url()), OpView::Fetch(tool_url(), Some("PConnect-Installer"@))),
        ),
        (SetupStage::AwaitDirCreate, OutcomeView::Ack) => (
            SetupView { stage: SetupStage::AwaitFetch, ..s },
            noted_view(NoticeView::InstallerDownloading(tool_url()), OpView::Fetch(tool_url(), Some("PConnect-Installer"@))),
        ),
        (SetupStage::AwaitFetch, OutcomeView::Fetched(Err(crate::effects::FetchFailureView::Connect(e)))) =>
            setup_fatal(s, seq![], e),
        (SetupStage::AwaitFetch, OutcomeView::Fetched(Err(crate::effects::FetchFailureView::Body(_, e)))) =>
            setup_fatal(s, seq![], e),
        (SetupStage::Extracting, OutcomeView::Ack) => setup_next_queued(s, seq![]),
        (SetupStage::AwaitSubCheck, OutcomeView::Exists(false)) => setup_exe_check(s, seq![]),
        (SetupStage::AwaitSubCheck, OutcomeView::Exists(true)) => (
            SetupView { stage: SetupStage::AwaitSubList, ..s },
            quiet_view(OpView::ListDir(archive_folder(s))),
        ),
        (SetupStage::AwaitSubList, OutcomeView::Listing(Err(e))) => setup_fatal(s, seq![], e),
        (SetupStage::AwaitSubList, OutcomeView::Listing(Ok(names))) => setup_next_move(
            SetupView { entries: names, index: 0, ..s },
            seq![],
        ),
        (SetupStage::AwaitTargetCheck, OutcomeView::Exists(true)) => (
            SetupView { stage: SetupStage::AwaitTargetRemove, ..s },
            quiet_view(OpView::RemoveFile(move_target(s), FailureView::Report)),
        ),
        (SetupStage::AwaitTargetCheck, OutcomeView::Exists(false)) => (
            SetupView { stage: SetupStage::AwaitRename, ..s },
            move_step(s),
        ),
        (SetupStage::AwaitTargetRemove, OutcomeView::Ack) => (
            SetupView { stage: SetupStage::AwaitRename, ..s },
            move_step(s),
        ),
        (SetupStage::AwaitRename, OutcomeView::Ack) => setup_next_move(
            SetupView { index: s.index + 1, ..s },
            seq![NoticeView::Moved(installed_name(s.entries[s.index]))],
        ),
        (SetupStage::AwaitSubRemove, OutcomeView::Ack) => setup_exe_check(s, seq![NoticeView::TempRemoved]),
        (SetupStage::AwaitExeCheck, OutcomeView::Exists(false)) => setup_fatal(
            s,
            seq![],
            "Erro: pconnect.exe não encontrado após a organização!"@,
        ),
        (SetupStage::AwaitExeCheck, OutcomeView::Exists(true)) => (
            SetupView { stage: SetupStage::AwaitSetEnv, ..s },
            noted_view(
                NoticeView::ConfiguringEnv,
                OpView::SetUserEnv("PCONNECT"@, ArgView::Path(tool_folder(s)), FailureView::Report),
            ),
        ),
        (SetupStage::AwaitSetEnv, OutcomeView::Ack) => (
            SetupView { stage: SetupStage::AwaitReadPath, ..s },
            quiet_view(OpView::ReadUserEnv("Path"@)),
        ),
        (SetupStage::AwaitReadPath, OutcomeView::Text(p)) => match updated_user_path(p) {
            Some(np) => (
                SetupView { stage: SetupStage::AwaitSetPath, ..s },
                quiet_view(OpView::SetUserEnv("Path"@, ArgView::Text(np), FailureView::Report)),
            ),
            None => setup_run_install(s),
        },
        (SetupStage::AwaitSetPath, OutcomeView::Ack) => setup_run_install(s),
        (SetupStage::AwaitInstall, OutcomeView::Finished(Err(e))) => setup_fatal(s, seq![], e),
        (SetupStage::AwaitInstall, OutcomeView::Finished(Ok(ok))) => (
            done,
            noted_view(NoticeView::InstallerFinished(ok), OpView::Halt),
        ),
        _ => (done, quiet_view(OpView::Halt)),
    }
}

/// What follows the entries read where reading stopped at an entry: for a
/// file whose contents could not be read, its folder and the file itself,
/// left empty, are made as for any file.
pub open spec fn installer_stop_ops(root: Seq<Seq<char>>, stop: Option<Option<EntryView>>) -> Seq<OpView> {
    match stop {
        Some(Some(h)) => installer_entry_ops(root, h),
        _ => seq![],
    }
}

/// Where the installation stands once the downloaded archive was read up to
/// `stop`: the extraction of the entries `es` is queued, followed by what
/// `installer_stop_ops` gives, and where reading stopped, the failure `t`
/// ends the installation after them.
pub open spec fn setup_after_read(
    s: SetupView,
    es: Seq<EntryView>,
    stop: Option<Option<EntryView>>,
    t: Seq<char>,
) -> SetupView {
    SetupView {
        queue: installer_plan(tool_folder(s), es) + installer_stop_ops(tool_folder(s), stop),
        failure: if stop is Some { Some(t) } else { None },
        ..s
    }
}

/// A step of the installation: a successful download is announced and, where
/// it opens as a zip archive, its entries are extracted in order; at the
/// first entry that cannot be opened, or file whose contents cannot be read
/// (after that file is made, empty), the installation ends with the
/// archive's error. Where the download does not open as an archive, the
/// installation ends at once with the archive's error. Every other outcome
/// goes by `setup_transition`.
pub open spec fn setup_step(s: SetupView, ev: OutcomeView, n: SetupView, st: StepView) -> bool {
    match (s.stage, ev) {
        (SetupStage::AwaitFetch, OutcomeView::Fetched(Ok((_, bytes)))) => {
            if zip_contents(bytes) is Some {
                exists|es: Seq<EntryView>, stop: Option<Option<EntryView>>, t: Seq<char>| {
                    &&& read_for_extraction(NameRule::StoredNames, bytes, es, stop)
                    &&& (n, st) == setup_next_queued(#[trigger] setup_after_read(s, es, stop, t), seq![NoticeView::Extracting])
                }
            } else {
                exists|t: Seq<char>| (n, st) == #[trigger] setup_fatal(s, seq![NoticeView::Extracting], t)
            }
        },
        _ => (n, st) == setup_transition(s, ev),
    }
}

proof fn lemma_setup_read(
    s: SetupView,
    code: u16,
    b: Seq<u8>,
    es: Seq<EntryView>,
    stop: Option<Option<EntryView>>,
    t: Seq<char>,
    n: SetupView,
    st: StepView,
)
    requires
        s.stage == SetupStage::AwaitFetch,
        read_for_extraction(NameRule::StoredNames, b, es, stop),
        (n, st) == setup_next_queued(setup_after_read(s, es, stop, t), seq![NoticeView::Extracting]),
    ensures
        setup_step(s, OutcomeView::Fetched(Ok((code, b))), n, st),
{
    let ev = OutcomeView::Fetched(Ok((code, b)));
    assert(ev matches OutcomeView::Fetched(Ok((_, bb))) && bb == b);
    assert(setup_after_read(s, es, stop, t) == setup_after_read(s, es, stop, t));
}

proof fn lemma_setup_unreadable(s: SetupView, code: u16, b: Seq<u8>, t: Seq<char>, n: SetupView, st: StepView)
    requires
        s.stage == SetupStage::AwaitFetch,
        zip_contents(b) is None,
        (n, st) == setup_fatal(s, seq![NoticeView::Extracting], t),
    ensures
        setup_step(s, OutcomeView::Fetched(Ok((code, b))), n, st),
{
}

/// The installation of the tool, before its first step.
pub fn run_install() -> (m: ToolSetup)
    ensures
        m@ == (SetupView {
            stage: SetupStage::Start,
            home: seq![],
            queue: seq![],
            entries: seq![],
            index: 0,
            failure: None,
        }),
        setup_wf(m@),
{
    let m = ToolSetup {
        stage: SetupStage::Start,
        home: String::new(),
        queue: Vec::new(),
        entries: Vec::new(),
        index: 0,
        failure: None,
    };
    proof {
        assert(m@.queue =~= Seq::<OpView>::empty());
        assert(m@.entries =~= Seq::<Seq<char>>::empty());
    }
    m
}

impl ToolSetup {
    fn folder(&self) -> (p: PathSpec)
        ensures
            p@ == tool_folder(self@),
    {
        let p = PathSpec::single(&self.home).join(".pconnect");
        proof {
            assert(p@ =~= tool_folder(self@));
        }
        p
    }

    fn target(&self) -> (p: PathSpec)
        requires
            self.index < self.entries.len(),
        ensures
            p@ == move_target(self@),
    {
        self.folder().join_string(installed_name_exec(&self.entries[self.index]))
    }

    fn fatal(&mut self, notes: Vec<Notice>, reason: String) -> (st: Step)
        ensures
            (final(self)@, st@) == setup_fatal(old(self)@, notice_views(notes@), reason@),
    {
        let mut notes = notes;
        let ghost before = notice_views(notes@);
        notes.push(Notice::Fatal(reason));
        proof {
            assert(notice_views(notes@) =~= before.push(NoticeView::Fatal(reason@)));
        }
        self.stage = SetupStage::Done;
        Step { notes, op: Op::Halt }
    }

    fn next_queued(&mut self, notes: Vec<Notice>) -> (st: Step)
        ensures
            (final(self)@, st@) == setup_next_queued(old(self)@, notice_views(notes@)),
    {
        if self.queue.len() > 0 {
            let op = self.queue.remove(0);
            self.stage = SetupStage::Extracting;
            proof {
                assert(op_views(self.queue@) =~= op_views(old(self).queue@).drop_first());
            }
            Step { notes, op }
        } else {
            match &self.failure {
                Some(t) => {
                    let reason = t.clone();
                    self.fatal(notes, reason)
                },
                None => {
                    let mut notes = notes;
                    let ghost before = notice_views(notes@);
                    notes.push(Notice::Organizing);
                    proof {
                        assert(notice_views(notes@) =~= before.push(NoticeView::Organizing));
                    }
                    self.stage = SetupStage::AwaitSubCheck;
                    Step { notes, op: Op::CheckIsDir(self.folder().join("pconnect_tool")) }
                },
            }
        }
    }

    fn next_move(&mut self, notes: Vec<Notice>) -> (st: Step)
        requires
            old(self).index <= old(self).entries.len(),
        ensures
            (final(self)@, st@) == setup_next_move(old(self)@, notice_views(notes@)),
            setup_wf(final(self)@),
    {
        if self.index < self.entries.len() {
            self.stage = SetupStage::AwaitTargetCheck;
            Step { notes, op: Op::CheckExists(self.target()) }
        } else {
            self.stage = SetupStage::AwaitSubRemove;
            Step { notes, op: Op::RemoveDirAll(self.folder().join("pconnect_tool"), OnFailure::Report) }
        }
    }

    fn move_file(&self) -> (st: Step)
        requires
            self.index < self.entries.len(),
        ensures
            st@ == move_step(self@),
    {
        let from = self.folder().join("pconnect_tool").join(&self.entries[self.index]);
        quiet(Op::Rename(from, self.target(), OnFailure::Report))
    }

    fn run_tool_install(&mut self) -> (st: Step)
        ensures
            (final(self)@, st@) == setup_run_install(old(self)@),
    {
        let mut args: Vec<CommandArg> = Vec::new();
        args.push(text_arg("install"));
        let c = new_command(self.folder().join("pconnect.exe"), args);
        proof {
            assert(c@.args =~= seq![ArgView::Text("install"@)]);
        }
        self.stage = SetupStage::AwaitInstall;
        noted(Notice::RunningInstall, Op::Run(c, RunMode::Status))
    }

    fn fetched(&mut self, code: u16, bytes: Vec<u8>) -> (st: Step)
        requires
            old(self).stage == SetupStage::AwaitFetch,
        ensures
            setup_step(old(self)@, OutcomeView::Fetched(Ok((code, bytes@))), final(self)@, st@),
    {
        let ghost b = bytes@;
        let notes = one_note(Notice::Extracting);
        match read_for_extraction_exec(NameRule::StoredNames, bytes) {
            Ok((entries, stop)) => {
                let dir = self.folder();
                let mut ops = installer_ops(&dir, &entries);
                let ghost plan = op_views(ops@);
                let ghost mut t: Seq<char> = seq![];
                match stop {
                    None => {
                        proof {
                            assert(op_views(ops@) =~= plan + Seq::<OpView>::empty());
                        }
                        self.failure = None;
                    },
                    Some((header, e)) => {
                        let text = zip_error_message(&e);
                        proof {
                            t = text@;
                        }
                        match header {
                            None => {
                                proof {
                                    assert(op_views(ops@) =~= plan + Seq::<OpView>::empty());
                                }
                            },
                            Some(h) => {
                                push_installer_entry_ops(&dir, &h, &mut ops);
                            },
                        }
                        self.failure = Some(text);
                    },
                }
                self.queue = ops;
                proof {
                    let s0 = old(self)@;
                    assert(self@ == setup_after_read(s0, entry_views(entries@), stop_view(stop), t));
                }
                let st = self.next_queued(notes);
                proof {
                    lemma_setup_read(old(self)@, code, b, entry_views(entries@), stop_view(stop), t, self@, st@);
                }
                st
            },
            Err(e) => {
                let t = zip_error_message(&e);
                let st = self.fatal(notes, t);
                proof {
                    lemma_setup_unreadable(old(self)@, code, b, t@, self@, st@);
                }
                st
            },
        }
    }

    /// The next step, given the outcome of the last one.
    pub fn step(&mut self, ev: Outcome) -> (st: Step)
        requires
            setup_wf(old(self)@),
        ensures
            setup_step(old(self)@, ev@, final(self)@, st@),
            setup_wf(final(self)@),
    {
        proof {
            assert(self@.entries.len() == self.entries.len());
        }
        match (self.stage, ev) {
            (SetupStage::Start, Outcome::Begin) => {
                self.stage = SetupStage::AwaitHome;
                noted(Notice::InstallerStarting, Op::ReadEnv(owned("USERPROFILE"), OnFailure::Report))
            },
            (SetupStage::Start, _) => {
                self.stage = SetupStage::Done;
                quiet(Op::Halt)
            },
            (SetupStage::Done, _) => quiet(Op::Halt),
            (_, Outcome::Failed(e)) => self.fatal(no_notes(), e),
            (SetupStage::AwaitHome, Outcome::Text(h)) => {
                self.home = h;
                self.stage = SetupStage::AwaitDirCheck;
                quiet(Op::CheckExists(self.folder()))
            },
            (SetupStage::AwaitDirCheck, Outcome::Exists(present)) => {
                if present {
                    self.stage = SetupStage::AwaitFetch;
                    noted(
                        Notice::InstallerDownloading(owned("https://github.com/OsPrimatas/PConnect/releases/latest/download/pconnect_tool.zip")),
                        Op::Fetch(
                            owned("https://github.com/OsPrimatas/PConnect/releases/latest/download/pconnect_tool.zip"),
                            Some(owned("PConnect-Installer")),
                        ),
                    )
                } else {
                    self.stage = SetupStage::AwaitDirCreate;
                    quiet(Op::CreateDirAll(self.folder(), OnFailure::Report))
                }
            },
            (SetupStage::AwaitDirCreate, Outcome::Ack) => {
                self.stage = SetupStage::AwaitFetch;
                noted(
                    Notice::InstallerDownloading(owned("https://github.com/OsPrimatas/PConnect/releases/latest/download/pconnect_tool.zip")),
                    Op::Fetch(
                        owned("https://github.com/OsPrimatas/PConnect/releases/latest/download/pconnect_tool.zip"),
                        Some(owned("PConnect-Installer")),
                    ),
                )
            },
            (SetupStage::AwaitFetch, Outcome::Fetched(r)) => {
                match r {
                    Ok((code, bytes)) => self.fetched(code, bytes),
                    Err(FetchFailure::Connect(e)) => self.fatal(no_notes(), e),
                    Err(FetchFailure::Body(_, e)) => self.fatal(no_notes(), e),
                }
            },
            (SetupStage::Extracting, Outcome::Ack) => self.next_queued(no_notes()),
            (SetupStage::AwaitSubCheck, Outcome::Exists(is_dir)) => {
                if is_dir {
                    self.stage = SetupStage::AwaitSubList;
                    quiet(Op::ListDir(self.folder().join("pconnect_tool")))
                } else {
                    self.stage = SetupStage::AwaitExeCheck;
                    quiet(Op::CheckExists(self.folder().join("pconnect.exe")))
                }
            },
            (SetupStage::AwaitSubList, Outcome::Listing(r)) => {
                match r {
                    Err(e) => self.fatal(no_notes(), e),
                    Ok(names) => {
                        self.entries = names;
                        self.index = 0;
                        self.next_move(no_notes())
                    },
                }
            },
            (SetupStage::AwaitTargetCheck, Outcome::Exists(present)) => {
                if present {
                    self.stage = SetupStage::AwaitTargetRemove;
                    quiet(Op::RemoveFile(self.target(), OnFailure::Report))
                } else {
                    self.stage = SetupStage::AwaitRename;
                    self.move_file()
                }
            },
            (SetupStage::AwaitTargetRemove, Outcome::Ack) => {
                self.stage = SetupStage::AwaitRename;
                self.move_file()
            },
            (SetupStage::AwaitRename, Outcome::Ack) => {
                let moved = installed_name_exec(&self.entries[self.index]);
                self.index = self.index + 1;
                self.next_move(one_note(Notice::Moved(moved)))
            },
            (SetupStage::AwaitSubRemove, Outcome::Ack) => {
                self.stage = SetupStage::AwaitExeCheck;
                noted(Notice::TempRemoved, Op::CheckExists(self.folder().join("pconnect.exe")))
            },
            (SetupStage::AwaitExeCheck, Outcome::Exists(found)) => {
                if found {
                    self.stage = SetupStage::AwaitSetEnv;
                    noted(
                        Notice::ConfiguringEnv,
                        Op::SetUserEnv(owned("PCONNECT"), CommandArg::Path(self.folder()), OnFailure::Report),
                    )
                } else {
                    self.fatal(no_notes(), owned("Erro: pconnect.exe não encontrado após a organização!"))
                }
            },
            (SetupStage::AwaitSetEnv, Outcome::Ack) => {
                self.stage = SetupStage::AwaitReadPath;
                quiet(Op::ReadUserEnv(owned("Path")))
            },
            (SetupStage::AwaitReadPath, Outcome::Text(p)) => {
                match setup_env_variables(&p) {
                    Some(np) => {
                        self.stage = SetupStage::AwaitSetPath;
                        quiet(Op::SetUserEnv(owned("Path"), CommandArg::Text(np), OnFailure::Report))
                    },
                    None => self.run_tool_install(),
                }
            },
            (SetupStage::AwaitSetPath, Outcome::Ack) => self.run_tool_install(),
            (SetupStage::AwaitInstall, Outcome::Finished(r)) => {
                match r {
                    Err(e) => self.fatal(no_notes(), e),
                    Ok(ok) => {
                        self.stage = SetupStage::Done;
                        noted(Notice::InstallerFinished(ok), Op::Halt)
                    },
                }
            },
            _ => {
                self.stage = SetupStage::Done;
                quiet(Op::Halt)
            },
        }
    }
}

// ---------------------------------------------------------------------------
// Laws
// ---------------------------------------------------------------------------

/// Updating the user's `Path` twice adds `%PCONNECT%` once: the updated
/// `Path` holds it, so a second update leaves the `Path` alone.
pub proof fn path_update_is_idempotent(current: Seq<char>)
    ensures
        updated_user_path(current) matches Some(p) ==> updated_user_path(p) is None,
{
    reveal_strlit(";%PCONNECT%");
    reveal_strlit("%PCONNECT%");
    if let Some(p) = updated_user_path(current) {
        let k: int = current.len() as int + 1;
        assert(p.subrange(k, k + 10) =~= "%PCONNECT%"@);
        assert(occurs_at(p, "%PCONNECT%"@, k));
    }
}

/// Moving the files of the tool is stable: a name given to a file in the
/// tool's folder is kept by a second move, so the executable, once named
/// `pconnect.exe`, keeps that name.
pub proof fn installed_name_is_stable(n: Seq<char>)
    ensures
        installed_name(installed_name(n)) == installed_name(n),
{
    reveal_strlit("pconnect.exe");
    reveal_strlit("pconnect_tool");
    if seq_starts_with(n, "pconnect_tool"@) && seq_ends_with(n, ".exe"@) {
        let e = "pconnect.exe"@;
        if seq_starts_with(e, "pconnect_tool"@) {
            assert(e[8] == "pconnect_tool"@[8]);
        }
    }
}

proof fn lemma_installer_plan_writes(root: Seq<Seq<char>>, es: Seq<EntryView>)
    ensures
        forall|k: int| 0 <= k < installer_plan(root, es).len() ==> {
            let op = #[trigger] installer_plan(root, es)[k];
            op is CreateDirAll || op is CreateParentDirAll || op is WriteBytes
        },
    decreases es.len(),
{
    if es.len() > 0 {
        lemma_installer_plan_writes(root, es.drop_last());
        let front = installer_plan(root, es.drop_last());
        let last = installer_entry_ops(root, es.last());
        assert(installer_plan(root, es) == front + last);
        assert forall|k: int| 0 <= k < installer_plan(root, es).len() implies {
            let op = #[trigger] installer_plan(root, es)[k];
            op is CreateDirAll || op is CreateParentDirAll || op is WriteBytes
        } by {
            if k < front.len() {
                assert(installer_plan(root, es)[k] == front[k]);
            } else {
                assert(installer_plan(root, es)[k] == last[k - front.len()]);
            }
        }
    }
}

/// A downloaded tool that reads as a zip archive is extracted: the
/// installation goes on with the extraction of all its entries, in order, and
/// does not end at this step. A download that does not open as an archive
/// ends the installation at once with the archive's error.
pub proof fn readable_tool_download_is_extracted(s: SetupView, code: u16, bytes: Seq<u8>, n: SetupView, st: StepView)
    requires
        s.stage == SetupStage::AwaitFetch,
        setup_step(s, OutcomeView::Fetched(Ok((code, bytes))), n, st),
    ensures
        zip_reads(bytes) ==> !(n.stage == SetupStage::Done),
        zip_reads(bytes) ==> exists|es: Seq<EntryView>| {
            &&& #[trigger] read_for_extraction(NameRule::StoredNames, bytes, es, None)
            &&& (n, st) == setup_next_queued(
                SetupView { queue: installer_plan(tool_folder(s), es), failure: None, ..s },
                seq![NoticeView::Extracting],
            )
        },
        zip_contents(bytes) is None ==> {
            &&& n.stage == SetupStage::Done
            &&& st.op == OpView::Halt
            &&& st.notes.last() is Fatal
        },
{
    let ev = OutcomeView::Fetched(Ok((code, bytes)));
    assert(ev matches OutcomeView::Fetched(Ok((_, bb))) && bb == bytes);
    if zip_contents(bytes) is Some {
        let (es, stop, t) = choose|es: Seq<EntryView>, stop: Option<Option<EntryView>>, t: Seq<char>| {
            &&& read_for_extraction(NameRule::StoredNames, bytes, es, stop)
            &&& (n, st) == setup_next_queued(#[trigger] setup_after_read(s, es, stop, t), seq![NoticeView::Extracting])
        };
        let stored = zip_contents(bytes)->0;
        if zip_reads(bytes) {
            if es.len() < stored.len() {
                assert(crate::archive::entry_reads(stored[es.len() as int]));
            }
            assert(stop is None);
            assert(installer_plan(tool_folder(s), es) + installer_stop_ops(tool_folder(s), stop)
                =~= installer_plan(tool_folder(s), es));
            assert(setup_after_read(s, es, stop, t)
                == (SetupView { queue: installer_plan(tool_folder(s), es), failure: None, ..s }));
            lemma_installer_plan_writes(tool_folder(s), es);
            if installer_plan(tool_folder(s), es).len() > 0 {
                assert(installer_plan(tool_folder(s), es)[0] is CreateDirAll
                    || installer_plan(tool_folder(s), es)[0] is CreateParentDirAll
                    || installer_plan(tool_folder(s), es)[0] is WriteBytes);
            }
        }
    } else {
        let t = choose|t: Seq<char>| (n, st) == #[trigger] setup_fatal(s, seq![NoticeView::Extracting], t);
        assert(st.notes.last() == NoticeView::Fatal(t));
    }
}

/// `PCONNECT` names the folder that holds the tool: once the files are
/// organized (the archive's folder removed, or where there was none), the
/// executable `<home>/.pconnect/pconnect.exe` is looked for, and where it is
/// found the user variable `PCONNECT` is set to `<home>/.pconnect`, the
/// folder of that very executable.
pub proof fn pconnect_variable_names_tool_folder(
    s: SetupView,
    ev: OutcomeView,
    s1: SetupView,
    st1: StepView,
    n: SetupView,
    st: StepView,
)
    requires
        (s.stage == SetupStage::AwaitSubRemove && ev == OutcomeView::Ack)
            || (s.stage == SetupStage::AwaitSubCheck && ev == OutcomeView::Exists(false)),
        setup_step(s, ev, s1, st1),
        setup_step(s1, OutcomeView::Exists(true), n, st),
    ensures
        st1.op == OpView::CheckExists(seq![s.home, ".pconnect"@, "pconnect.exe"@]),
        st.op == OpView::SetUserEnv("PCONNECT"@, ArgView::Path(seq![s.home, ".pconnect"@]), FailureView::Report),
{
    assert(tool_exe(s) =~= seq![s.home, ".pconnect"@, "pconnect.exe"@]);
}

} // verus!
