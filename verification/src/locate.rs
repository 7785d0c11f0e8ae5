//! Finding where an extracted program put a file. An archive may hold its
//! files directly or inside one more folder; the search tries fixed places
//! under a base folder first, then the same places inside each folder of the
//! base, and falls back to a default.
use vstd::prelude::*;
use crate::effects::{OpView, Outcome, OutcomeView, Op, PathSpec, Step, StepView, quiet, quiet_view};
use crate::text::{concat3, ends_with_str, same_text};

verus! {

/// One place to look: the path to check, and the path found when it exists,
/// both relative to the folder looked in.
pub struct Probe {
    pub check: Vec<String>,
    pub result: Vec<String>,
}

/// The view of a `Probe`.
pub struct ProbeView {
    pub check: Seq<Seq<char>>,
    pub result: Seq<Seq<char>>,
}

impl View for Probe {
    type V = ProbeView;

    open spec fn view(&self) -> ProbeView {
        ProbeView { check: self.check.deep_view(), result: self.result.deep_view() }
    }
}

/// The views of the probes `v`.
pub open spec fn probe_views(v: Seq<Probe>) -> Seq<ProbeView> {
    v.map_values(|p: Probe| p@)
}

/// Where a search stands.
#[derive(Clone, Copy, Debug, PartialEq, Eq, Structural)]
pub enum LocateStage {
    Start,
    AwaitBase,
    AwaitDirect,
    AwaitList,
    AwaitIsDir,
    AwaitSubProbe,
    Done,
}

/// A search under `base`: when `guard` is set and `base` is missing, the
/// default at once; else each of `direct` under `base`, then each of `sub`
/// inside every folder of `base`, in the order listed; else the default.
pub struct Locate {
    pub stage: LocateStage,
    pub base: PathSpec,
    pub guard: bool,
    pub direct: Vec<Probe>,
    pub sub: Vec<Probe>,
    pub default: Vec<String>,
    pub di: usize,
    pub entries: Vec<String>,
    pub ei: usize,
    pub si: usize,
    /// The path found, once the search is done.
    pub result: PathSpec,
}

/// The view of a `Locate`.
pub struct LocateView {
    pub stage: LocateStage,
    pub base: Seq<Seq<char>>,
    pub guard: bool,
    pub direct: Seq<ProbeView>,
    pub sub: Seq<ProbeView>,
    pub default: Seq<Seq<char>>,
    pub di: int,
    pub entries: Seq<Seq<char>>,
    pub ei: int,
    pub si: int,
    pub result: Seq<Seq<char>>,
}

impl View for Locate {
    type V = LocateView;

    open spec fn view(&self) -> LocateView {
        LocateView {
            stage: self.stage,
            base: self.base@,
            guard: self.guard,
            direct: probe_views(self.direct@),
            sub: probe_views(self.sub@),
            default: self.default.deep_view(),
            di: self.di as int,
            entries: self.entries.deep_view(),
            ei: self.ei as int,
            si: self.si as int,
            result: self.result@,
        }
    }
}

/// The indices are in range for the stage.
pub open spec fn locate_wf(s: LocateView) -> bool {
    &&& 0 <= s.di <= s.direct.len()
    &&& 0 <= s.ei <= s.entries.len()
    &&& 0 <= s.si <= s.sub.len()
    &&& s.stage == LocateStage::AwaitDirect ==> s.di < s.direct.len()
    &&& (s.stage == LocateStage::AwaitIsDir || s.stage == LocateStage::AwaitSubProbe) ==> s.ei < s.entries.len()
    &&& s.stage == LocateStage::AwaitSubProbe ==> s.si < s.sub.len()
}

/// The search ends with `result`.
pub open spec fn locate_found(s: LocateView, result: Seq<Seq<char>>) -> (LocateView, StepView) {
    (LocateView { stage: LocateStage::Done, result, ..s }, quiet_view(OpView::Halt))
}

/// The search ends with the default.
pub open spec fn locate_default(s: LocateView) -> (LocateView, StepView) {
    locate_found(s, s.base + s.default)
}

/// Tries the folder entry `ei`, or ends with the default.
pub open spec fn locate_next_entry(s: LocateView) -> (LocateView, StepView) {
    if s.ei < s.entries.len() {
        (
            LocateView { stage: LocateStage::AwaitIsDir, ..s },
            quiet_view(OpView::CheckIsDir(s.base.push(s.entries[s.ei]))),
        )
    } else {
        locate_default(s)
    }
}

/// Tries the probe `si` in the folder entry `ei`, or moves to the next entry.
pub open spec fn locate_next_sub(s: LocateView) -> (LocateView, StepView) {
    if s.si < s.sub.len() {
        (
            LocateView { stage: LocateStage::AwaitSubProbe, ..s },
            quiet_view(OpView::CheckExists(s.base.push(s.entries[s.ei]) + s.sub[s.si].check)),
        )
    } else {
        locate_next_entry(LocateView { ei: s.ei + 1, ..s })
    }
}

/// Tries the direct probe `di`, or lists the base when there are probes
/// for its folders, or ends with the default.
pub open spec fn locate_next_direct(s: LocateView) -> (LocateView, StepView) {
    if s.di < s.direct.len() {
        (
            LocateView { stage: LocateStage::AwaitDirect, ..s },
            quiet_view(OpView::CheckExists(s.base + s.direct[s.di].check)),
        )
    } else if s.sub.len() == 0 {
        locate_default(s)
    } else {
        (LocateView { stage: LocateStage::AwaitList, ..s }, quiet_view(OpView::ListDir(s.base)))
    }
}

/// What a search does next, given the outcome `ev`. A base that cannot be
/// listed gives the default.
pub open spec fn locate_transition(s: LocateView, ev: OutcomeView) -> (LocateView, StepView) {
    match (s.stage, ev) {
        (LocateStage::Start, OutcomeView::Begin) => if s.guard {
            (LocateView { stage: LocateStage::AwaitBase, ..s }, quiet_view(OpView::CheckExists(s.base)))
        } else {
            locate_next_direct(LocateView { di: 0, ..s })
        },
        (LocateStage::AwaitBase, OutcomeView::Exists(false)) => locate_default(s),
        (LocateStage::AwaitBase, OutcomeView::Exists(true)) => locate_next_direct(LocateView { di: 0, ..s }),
        (LocateStage::AwaitDirect, OutcomeView::Exists(true)) => locate_found(s, s.base + s.direct[s.di].result),
        (LocateStage::AwaitDirect, OutcomeView::Exists(false)) => locate_next_direct(LocateView { di: s.di + 1, ..s }),
        (LocateStage::AwaitList, OutcomeView::Listing(Ok(names))) => locate_next_entry(
            LocateView { entries: names, ei: 0, ..s },
        ),
        (LocateStage::AwaitIsDir, OutcomeView::Exists(false)) => locate_next_entry(LocateView { ei: s.ei + 1, ..s }),
        (LocateStage::AwaitIsDir, OutcomeView::Exists(true)) => locate_next_sub(LocateView { si: 0, ..s }),
        (LocateStage::AwaitSubProbe, OutcomeView::Exists(true)) => locate_found(
            s,
            s.base.push(s.entries[s.ei]) + s.sub[s.si].result,
        ),
        (LocateStage::AwaitSubProbe, OutcomeView::Exists(false)) => locate_next_sub(LocateView { si: s.si + 1, ..s }),
        _ => locate_default(s),
    }
}

/// `base` followed by the segments `rel`.
pub fn under(base: &PathSpec, rel: &Vec<String>) -> (p: PathSpec)
    ensures
        p@ == base@ + rel.deep_view(),
{
    let mut p = base.duplicate();
    let mut i: usize = 0;
    while i < rel.len()
        invariant
            i <= rel.len(),
            p@ == base@ + rel.deep_view().take(i as int),
        decreases rel.len() - i,
    {
        p = p.join(&rel[i]);
        proof {
            assert(rel.deep_view().take(i + 1) =~= rel.deep_view().take(i as int).push(rel@[i as int]@));
            assert(base@ + rel.deep_view().take(i + 1) =~= (base@ + rel.deep_view().take(i as int)).push(rel@[i as int]@));
        }
        i = i + 1;
    }
    proof {
        assert(rel.deep_view().take(rel.len() as int) =~= rel.deep_view());
    }
    p
}

impl Locate {
    fn found(&mut self, result: PathSpec) -> (st: Step)
        ensures
            (final(self)@, st@) == locate_found(old(self)@, result@),
    {
        self.result = result;
        self.stage = LocateStage::Done;
        quiet(Op::Halt)
    }

    fn next_entry(&mut self) -> (st: Step)
        requires
            locate_wf(LocateView { stage: LocateStage::Start, ..old(self)@ }),
        ensures
            (final(self)@, st@) == locate_next_entry(old(self)@),
            locate_wf(final(self)@),
    {
        if self.ei < self.entries.len() {
            self.stage = LocateStage::AwaitIsDir;
            quiet(Op::CheckIsDir(self.base.join(&self.entries[self.ei])))
        } else {
            let d = under(&self.base, &self.default);
            self.found(d)
        }
    }

    fn next_sub(&mut self) -> (st: Step)
        requires
            locate_wf(LocateView { stage: LocateStage::Start, ..old(self)@ }),
            old(self).ei < old(self).entries.len(),
        ensures
            (final(self)@, st@) == locate_next_sub(old(self)@),
            locate_wf(final(self)@),
    {
        if self.si < self.sub.len() {
            self.stage = LocateStage::AwaitSubProbe;
            let dir = self.base.join(&self.entries[self.ei]);
            quiet(Op::CheckExists(under(&dir, &self.sub[self.si].check)))
        } else {
            self.ei = self.ei + 1;
            self.next_entry()
        }
    }

    fn next_direct(&mut self) -> (st: Step)
        requires
            locate_wf(LocateView { stage: LocateStage::Start, ..old(self)@ }),
        ensures
            (final(self)@, st@) == locate_next_direct(old(self)@),
            locate_wf(final(self)@),
    {
        if self.di < self.direct.len() {
            self.stage = LocateStage::AwaitDirect;
            quiet(Op::CheckExists(under(&self.base, &self.direct[self.di].check)))
        } else if self.sub.len() == 0 {
            let d = under(&self.base, &self.default);
            self.found(d)
        } else {
            self.stage = LocateStage::AwaitList;
            quiet(Op::ListDir(self.base.duplicate()))
        }
    }

    /// The next step, given the outcome of the last one.
    pub fn step(&mut self, ev: Outcome) -> (st: Step)
        requires
            locate_wf(old(self)@),
        ensures
            (final(self)@, st@) == locate_transition(old(self)@, ev@),
            locate_wf(final(self)@),
    {
        proof {
            assert(self@.direct.len() == self.direct.len());
            assert(self@.sub.len() == self.sub.len());
            assert(self@.entries.len() == self.entries.len());
        }
        match (self.stage, ev) {
            (LocateStage::Start, Outcome::Begin) => {
                if self.guard {
                    self.stage = LocateStage::AwaitBase;
                    quiet(Op::CheckExists(self.base.duplicate()))
                } else {
                    self.di = 0;
                    self.next_direct()
                }
            },
            (LocateStage::AwaitBase, Outcome::Exists(present)) => {
                if present {
                    self.di = 0;
                    self.next_direct()
                } else {
                    let d = under(&self.base, &self.default);
                    self.found(d)
                }
            },
            (LocateStage::AwaitDirect, Outcome::Exists(present)) => {
                if present {
                    let r = under(&self.base, &self.direct[self.di].result);
                    self.found(r)
                } else {
                    self.di = self.di + 1;
                    self.next_direct()
                }
            },
            (LocateStage::AwaitList, Outcome::Listing(Ok(names))) => {
                self.entries = names;
                self.ei = 0;
                self.next_entry()
            },
            (LocateStage::AwaitIsDir, Outcome::Exists(is_dir)) => {
                if is_dir {
                    self.si = 0;
                    self.next_sub()
                } else {
                    self.ei = self.ei + 1;
                    self.next_entry()
                }
            },
            (LocateStage::AwaitSubProbe, Outcome::Exists(present)) => {
                if present {
                    let dir = self.base.join(&self.entries[self.ei]);
                    let r = under(&dir, &self.sub[self.si].result);
                    self.found(r)
                } else {
                    self.si = self.si + 1;
                    self.next_sub()
                }
            },
            _ => {
                let d = under(&self.base, &self.default);
                self.found(d)
            },
        }
    }
}

/// Segments made of the given texts.
fn segs1(a: &str) -> (v: Vec<String>)
    ensures
        v.deep_view() == seq![a@],
{
    let mut v: Vec<String> = Vec::new();
    v.push(crate::text::owned(a));
    proof {
        assert(v.deep_view() =~= seq![a@]);
    }
    v
}

fn segs2(a: &str, b: &str) -> (v: Vec<String>)
    ensures
        v.deep_view() == seq![a@, b@],
{
    let mut v: Vec<String> = Vec::new();
    v.push(crate::text::owned(a));
    v.push(crate::text::owned(b));
    proof {
        assert(v.deep_view() =~= seq![a@, b@]);
    }
    v
}

fn segs3(a: &str, b: &str, c: &str) -> (v: Vec<String>)
    ensures
        v.deep_view() == seq![a@, b@, c@],
{
    let mut v: Vec<String> = Vec::new();
    v.push(crate::text::owned(a));
    v.push(crate::text::owned(b));
    v.push(crate::text::owned(c));
    proof {
        assert(v.deep_view() =~= seq![a@, b@, c@]);
    }
    v
}

fn probe(check: Vec<String>, result: Vec<String>) -> (p: Probe)
    ensures
        p@ == (ProbeView { check: check.deep_view(), result: result.deep_view() }),
{
    Probe { check, result }
}

fn push_probe(v: &mut Vec<Probe>, p: Probe)
    ensures
        probe_views(final(v)@) == probe_views(old(v)@).push(p@),
{
    v.push(p);
    proof {
        assert(probe_views(final(v)@) =~= probe_views(old(v)@).push(p@));
    }
}

/// A search before its first step.
pub open spec fn locate_initial(
    base: Seq<Seq<char>>,
    guard: bool,
    direct: Seq<ProbeView>,
    sub: Seq<ProbeView>,
    default: Seq<Seq<char>>,
) -> LocateView {
    LocateView {
        stage: LocateStage::Start,
        base,
        guard,
        direct,
        sub,
        default,
        di: 0,
        entries: seq![],
        ei: 0,
        si: 0,
        result: base + default,
    }
}

/// The folder of a version of a program that the tool installed.
pub open spec fn global_program_dir(home: Seq<char>, name: Seq<char>, version: Seq<char>) -> Seq<Seq<char>> {
    seq![home, ".pconnect"@, name + "-"@ + version]
}

/// The search for an installed program's executable: directly in the
/// version's folder; for PostgreSQL, also in `pgsql/bin`; then in each folder
/// of the version's folder, directly or in its `bin`; else the direct path.
pub open spec fn global_bin_search(home: Seq<char>, name: Seq<char>, version: Seq<char>, exe: Seq<char>) -> LocateView {
    let direct = seq![ProbeView { check: seq![exe], result: seq![exe] }];
    let pg = seq![ProbeView { check: seq!["pgsql"@, "bin"@, exe], result: seq!["pgsql"@, "bin"@, exe] }];
    locate_initial(
        global_program_dir(home, name, version),
        false,
        if name == "postgres"@ { direct + pg } else { direct },
        seq![
            ProbeView { check: seq![exe], result: seq![exe] },
            ProbeView { check: seq!["bin"@, exe], result: seq!["bin"@, exe] },
        ],
        seq![exe],
    )
}

/// The search for the executable `executable` of the program `name` of
/// `version`, installed under the home directory.
pub fn get_global_bin(home: &str, name: &str, version: &str, executable: &str) -> (m: Locate)
    ensures
        m@ == global_bin_search(home@, name@, version@, executable@),
        locate_wf(m@),
{
    let base = PathSpec::single(home).join(".pconnect").join_string(concat3(name, "-", version));
    let mut direct: Vec<Probe> = Vec::new();
    push_probe(&mut direct, probe(segs1(executable), segs1(executable)));
    if same_text(name, "postgres") {
        push_probe(
            &mut direct,
            probe(segs3("pgsql", "bin", executable), segs3("pgsql", "bin", executable)),
        );
    }
    let mut sub: Vec<Probe> = Vec::new();
    push_probe(&mut sub, probe(segs1(executable), segs1(executable)));
    push_probe(&mut sub, probe(segs2("bin", executable), segs2("bin", executable)));
    let default = segs1(executable);
    let result = under(&base, &default);
    let m = Locate {
        stage: LocateStage::Start,
        base,
        guard: false,
        direct,
        sub,
        default,
        di: 0,
        entries: Vec::new(),
        ei: 0,
        si: 0,
        result,
    };
    proof {
        assert(m@.entries =~= Seq::<Seq<char>>::empty());
        assert(m@.base =~= global_program_dir(home@, name@, version@));
        let want = global_bin_search(home@, name@, version@, executable@);
        assert(m@.direct =~= want.direct);
        assert(m@.sub =~= want.sub);
    }
    m
}

/// The search for where `target` is under `base`: `base` itself when it is
/// missing; for `bin`, the `bin` folder of `base` or of a folder in it; for
/// an `.exe`, `base` or the folder in it that holds the file; else `base`.
pub open spec fn subfolder_search(base: Seq<Seq<char>>, target: Seq<char>) -> LocateView {
    let (direct, sub) = if target == "bin"@ {
        (
            seq![ProbeView { check: seq!["bin"@], result: seq!["bin"@] }],
            seq![ProbeView { check: seq!["bin"@], result: seq!["bin"@] }],
        )
    } else if crate::text::seq_ends_with(target, ".exe"@) {
        (
            seq![ProbeView { check: seq![target], result: seq![] }],
            seq![ProbeView { check: seq![target], result: seq![] }],
        )
    } else {
        (seq![], seq![])
    };
    locate_initial(base, true, direct, sub, seq![])
}

/// The search for where `target` really is under `base`.
pub fn find_subfolder_bin(base: &PathSpec, target: &str) -> (m: Locate)
    ensures
        m@ == subfolder_search(base@, target@),
        locate_wf(m@),
{
    let mut direct: Vec<Probe> = Vec::new();
    let mut sub: Vec<Probe> = Vec::new();
    if same_text(target, "bin") {
        push_probe(&mut direct, probe(segs1("bin"), segs1("bin")));
        push_probe(&mut sub, probe(segs1("bin"), segs1("bin")));
    } else if ends_with_str(target, ".exe") {
        push_probe(&mut direct, probe(segs1(target), Vec::new()));
        push_probe(&mut sub, probe(segs1(target), Vec::new()));
    }
    let default: Vec<String> = Vec::new();
    let m = Locate {
        stage: LocateStage::Start,
        base: base.duplicate(),
        guard: true,
        direct,
        sub,
        default,
        di: 0,
        entries: Vec::new(),
        ei: 0,
        si: 0,
        result: base.duplicate(),
    };
    proof {
        assert(m@.entries =~= Seq::<Seq<char>>::empty());
        assert(m@.default =~= Seq::<Seq<char>>::empty());
        assert(base@ + Seq::<Seq<char>>::empty() =~= base@);
        let want = subfolder_search(base@, target@);
        assert(m@.direct =~= want.direct);
        assert(m@.sub =~= want.sub);
    }
    m
}

// ---------------------------------------------------------------------------
// Laws
// ---------------------------------------------------------------------------

/// The path `op` looks at, where it looks at one.
pub open spec fn looked_at(op: OpView) -> Option<Seq<Seq<char>>> {
    match op {
        OpView::CheckExists(p) => Some(p),
        OpView::CheckIsDir(p) => Some(p),
        OpView::ListDir(p) => Some(p),
        _ => None,
    }
}

proof fn lemma_under_base(base: Seq<Seq<char>>, e: Seq<char>, rel: Seq<Seq<char>>)
    ensures
        base.is_prefix_of(base + rel),
        base.is_prefix_of(base.push(e) + rel),
        base.is_prefix_of(base.push(e)),
        base.is_prefix_of(base),
{
    assert((base + rel).subrange(0, base.len() as int) =~= base);
    assert((base.push(e) + rel).subrange(0, base.len() as int) =~= base);
    assert(base.push(e).subrange(0, base.len() as int) =~= base);
    assert(base.subrange(0, base.len() as int) =~= base);
}

/// A search stays under its base folder: it keeps its base, looks only at
/// paths under it, and when it ends, the path it found is under it too.
pub proof fn search_stays_under_base(s: LocateView, ev: OutcomeView)
    requires
        locate_wf(s),
        s.stage != LocateStage::Done,
    ensures
        ({
            let (n, st) = locate_transition(s, ev);
            &&& n.base == s.base
            &&& looked_at(st.op) matches Some(p) ==> s.base.is_prefix_of(p)
            &&& n.stage == LocateStage::Done ==> s.base.is_prefix_of(n.result)
        }),
{
    let ev_names = match ev {
        OutcomeView::Listing(Ok(names)) => names,
        _ => s.entries,
    };
    let e = if 0 <= s.ei < ev_names.len() { ev_names[s.ei] } else { seq![] };
    lemma_under_base(s.base, e, seq![]);
    lemma_under_base(s.base, e, s.default);
    if 0 <= s.di < s.direct.len() {
        lemma_under_base(s.base, e, s.direct[s.di].check);
        lemma_under_base(s.base, e, s.direct[s.di].result);
    }
    if 0 <= s.di + 1 < s.direct.len() {
        lemma_under_base(s.base, e, s.direct[s.di + 1].check);
    }
    if 0 < s.direct.len() {
        lemma_under_base(s.base, e, s.direct[0].check);
    }
    if 0 <= s.ei < s.entries.len() {
        let e1 = s.entries[s.ei];
        lemma_under_base(s.base, e1, seq![]);
        if 0 <= s.si < s.sub.len() {
            lemma_under_base(s.base, e1, s.sub[s.si].check);
            lemma_under_base(s.base, e1, s.sub[s.si].result);
        }
        if 0 <= s.si + 1 < s.sub.len() {
            lemma_under_base(s.base, e1, s.sub[s.si + 1].check);
        }
        if 0 < s.sub.len() {
            lemma_under_base(s.base, e1, s.sub[0].check);
        }
    }
    if 0 <= s.ei + 1 < s.entries.len() {
        lemma_under_base(s.base, s.entries[s.ei + 1], seq![]);
    }
    if 0 < ev_names.len() {
        lemma_under_base(s.base, ev_names[0], seq![]);
    }
}

} // verus!
