//! Registering a project's local domain `<name>.local` in the system's hosts
//! file, once.
use vstd::prelude::*;
use crate::effects::{
    FailureView, Notice, NoticeView, OnFailure, Op, OpView, Outcome, OutcomeView, PathSpec, Step,
    StepView, abort_with, noted, noted_view, quiet, quiet_view,
};
use crate::text::{concat2, concat3, contains_str, occurs_at, seq_contains};

verus! {

/// The system's hosts file.
pub open spec fn hosts_file() -> Seq<Seq<char>> {
    seq!["C:\\Windows\\System32\\drivers\\etc\\hosts"@]
}

/// The project's local domain.
pub open spec fn local_domain(name: Seq<char>) -> Seq<char> {
    name + ".local"@
}

/// The line appended to the hosts file.
pub open spec fn hosts_entry(name: Seq<char>) -> Seq<char> {
    "\n127.0.0.1  "@ + local_domain(name)
}

/// The project's local domain.
pub fn local_domain_exec(name: &str) -> (d: String)
    ensures
        d@ == local_domain(name@),
{
    concat2(name, ".local")
}

/// The line appended to the hosts file for the project.
pub fn hosts_entry_exec(name: &str) -> (e: String)
    ensures
        e@ == hosts_entry(name@),
{
    concat3("\n127.0.0.1  ", name, ".local")
}

/// Whether the hosts file with content `content` still lacks the project's
/// domain.
pub fn needs_registration(content: &str, name: &str) -> (b: bool)
    ensures
        b == !seq_contains(content@, local_domain(name@)),
{
    !contains_str(content, &local_domain_exec(name))
}

/// Where a registration stands.
#[derive(Clone, Copy, Debug, PartialEq, Eq, Structural)]
pub enum HostsStage {
    Start,
    AwaitOpen,
    AwaitRead,
    AwaitAppend,
    Done,
}

/// The registration of a project's local domain.
pub struct DomainRegistration {
    pub stage: HostsStage,
    pub name: String,
}

/// The view of a `DomainRegistration`.
pub struct HostsView {
    pub stage: HostsStage,
    pub name: Seq<char>,
}

impl View for DomainRegistration {
    type V = HostsView;

    open spec fn view(&self) -> HostsView {
        HostsView { stage: self.stage, name: self.name@ }
    }
}

/// What a registration does next: it opens the hosts file for appending (the
/// program stops where it cannot, since that needs an administrator), reads
/// it (a text that cannot be read counts as empty) and appends the project's
/// line only where the domain does not occur in it yet.
pub open spec fn hosts_transition(s: HostsView, ev: OutcomeView) -> (HostsView, StepView) {
    let done = HostsView { stage: HostsStage::Done, ..s };
    match (s.stage, ev) {
        (HostsStage::Start, OutcomeView::Begin) => (
            HostsView { stage: HostsStage::AwaitOpen, ..s },
            quiet_view(
                OpView::AppendFile(
                    hosts_file(),
                    seq![],
                    FailureView::Abort(
                        "❌ Erro: Execute o CLI como Administrador para configurar o domínio local."@,
                    ),
                ),
            ),
        ),
        (HostsStage::AwaitOpen, OutcomeView::Ack) => (
            HostsView { stage: HostsStage::AwaitRead, ..s },
            quiet_view(OpView::ReadFile(hosts_file(), FailureView::Ignore)),
        ),
        (HostsStage::AwaitRead, OutcomeView::Text(t)) => if seq_contains(t, local_domain(s.name)) {
            (done, quiet_view(OpView::Halt))
        } else {
            (
                HostsView { stage: HostsStage::AwaitAppend, ..s },
                quiet_view(
                    OpView::AppendFile(
                        hosts_file(),
                        hosts_entry(s.name),
                        FailureView::Abort("Falha ao escrever no arquivo hosts"@),
                    ),
                ),
            )
        },
        (HostsStage::AwaitAppend, OutcomeView::Ack) => (
            done,
            noted_view(NoticeView::DomainRegistered(s.name), OpView::Halt),
        ),
        _ => (done, quiet_view(OpView::Halt)),
    }
}

/// The registration of `<project_name>.local`, before its first step.
pub fn register_local_domain(project_name: &str) -> (m: DomainRegistration)
    ensures
        m@ == (HostsView { stage: HostsStage::Start, name: project_name@ }),
{
    DomainRegistration { stage: HostsStage::Start, name: crate::text::owned(project_name) }
}

impl DomainRegistration {
    /// The next step, given the outcome of the last one.
    pub fn step(&mut self, ev: Outcome) -> (st: Step)
        ensures
            (final(self)@, st@) == hosts_transition(old(self)@, ev@),
    {
        let hosts = PathSpec::single("C:\\Windows\\System32\\drivers\\etc\\hosts");
        match (self.stage, ev) {
            (HostsStage::Start, Outcome::Begin) => {
                self.stage = HostsStage::AwaitOpen;
                let nothing = String::new();
                proof {
                    assert(nothing@ =~= Seq::<char>::empty());
                }
                quiet(
                    Op::AppendFile(
                        hosts,
                        nothing,
                        abort_with("❌ Erro: Execute o CLI como Administrador para configurar o domínio local."),
                    ),
                )
            },
            (HostsStage::AwaitOpen, Outcome::Ack) => {
                self.stage = HostsStage::AwaitRead;
                quiet(Op::ReadFile(hosts, OnFailure::Ignore))
            },
            (HostsStage::AwaitRead, Outcome::Text(t)) => {
                if needs_registration(&t, &self.name) {
                    self.stage = HostsStage::AwaitAppend;
                    quiet(
                        Op::AppendFile(
                            hosts,
                            hosts_entry_exec(&self.name),
                            abort_with("Falha ao escrever no arquivo hosts"),
                        ),
                    )
                } else {
                    self.stage = HostsStage::Done;
                    quiet(Op::Halt)
                }
            },
            (HostsStage::AwaitAppend, Outcome::Ack) => {
                self.stage = HostsStage::Done;
                noted(Notice::DomainRegistered(self.name.clone()), Op::Halt)
            },
            _ => {
                self.stage = HostsStage::Done;
                quiet(Op::Halt)
            },
        }
    }
}

// ---------------------------------------------------------------------------
// Laws
// ---------------------------------------------------------------------------

/// The project's line, once appended, holds the project's domain.
proof fn lemma_entry_holds_domain(name: Seq<char>, content: Seq<char>)
    ensures
        seq_contains(content + hosts_entry(name), local_domain(name)),
{
    reveal_strlit("\n127.0.0.1  ");
    let prefix = "\n127.0.0.1  "@;
    let t = content + hosts_entry(name);
    let k: int = content.len() as int + prefix.len() as int;
    assert(t.subrange(k, k + local_domain(name).len()) =~= local_domain(name));
    assert(occurs_at(t, local_domain(name), k));
}

/// A registration opens the hosts file for appending, reads it and appends the
/// project's line only where the project's domain does not occur in it;
/// registering again over the file as the first registration left it appends
/// nothing more.
pub proof fn registration_is_idempotent(name: Seq<char>, content: Seq<char>)
    ensures
        ({
            let (s0, st0) = hosts_transition(HostsView { stage: HostsStage::Start, name }, OutcomeView::Begin);
            let (s1, st1) = hosts_transition(s0, OutcomeView::Ack);
            let st2 = hosts_transition(s1, OutcomeView::Text(content)).1;
            &&& st0.op matches OpView::AppendFile(f, t, _) && f == hosts_file() && t.len() == 0
            &&& st1.op matches OpView::ReadFile(f, _) && f == hosts_file()
            &&& seq_contains(content, local_domain(name)) ==> st2.op == OpView::Halt
            &&& !seq_contains(content, local_domain(name)) ==> (st2.op matches OpView::AppendFile(f, line, _)
                && f == hosts_file() && line == hosts_entry(name))
            &&& hosts_transition(s1, OutcomeView::Text(content + hosts_entry(name))).1.op == OpView::Halt
        }),
{
    lemma_entry_holds_domain(name, content);
}

} // verus!
