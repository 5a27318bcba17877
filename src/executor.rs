//! The decisions of the process executor: execution ids, the run of one
//! chain step by step, the collection of a stream's lines, and the registry
//! of live executions.
use vstd::prelude::*;

use vstd::arithmetic::power::pow;

use crate::iolog::{nest, IoLog};
use crate::actions::{build_step_tag, docker_start_plan};
use crate::plan::{PlanStep, ProjectIoHandle};
use crate::project::BaseProject;

verus! {

/// The digits of Crockford's base 32, as ULIDs write them.
pub open spec fn crockford_digit(d: int) -> char {
    seq!['0', '1', '2', '3', '4', '5', '6', '7', '8', '9', 'A', 'B', 'C', 'D', 'E', 'F',
         'G', 'H', 'J', 'K', 'M', 'N', 'P', 'Q', 'R', 'S', 'T', 'V', 'W', 'X', 'Y', 'Z'][d]
}

/// The 26-character text of the ULID `v`: its base-32 digits, most
/// significant first.
pub open spec fn ulid_text(v: u128) -> Seq<char> {
    Seq::new(26, |i: int| crockford_digit((v as int / pow(32, (25 - i) as nat)) % 32))
}

/// Relies on ulid's `Ulid::to_string`, which writes the value as 26
/// Crockford base-32 digits, most significant first.
#[verifier::external_body]
fn ulid_to_string(v: u128) -> (r: String)
    ensures
        r@ == ulid_text(v),
{
    ulid::Ulid(v).to_string()
}

/// Relies on ulid's `Ulid::new`, which draws an identifier from the clock
/// and a random source.
#[verifier::external_body]
fn ulid_now() -> (r: u128) {
    ulid::Ulid::new().0
}

/// The id of one submitted plan: a ULID, ordered by creation time.
#[derive(Debug, Clone, Copy, PartialEq, Eq, Structural, Hash, PartialOrd, Ord)]
pub struct ExecutionId {
    pub value: u128,
}

impl ExecutionId {
    /// The ULID text of the id.
    pub fn to_text(&self) -> (r: String)
        ensures
            r@ == ulid_text(self.value),
    {
        ulid_to_string(self.value)
    }

    /// The name of the file that the log of this execution is persisted to.
    pub fn log_file_name(&self) -> (r: String)
        ensures
            r@ == ulid_text(self.value) + ".json"@,
    {
        let mut r = ulid_to_string(self.value);
        r.append(".json");
        r
    }
}

/// Which output stream of an execution a client follows.
#[derive(Debug, Clone, Copy, PartialEq, Eq, Structural)]
pub enum SubscribeKind {
    StdOut,
    StdErr,
}

impl SubscribeKind {
    /// The stream named `stdout` or `stderr`.
    pub fn parse(s: &str) -> (r: Option<SubscribeKind>)
        ensures
            s@ == "stdout"@ ==> r == Some(SubscribeKind::StdOut),
            s@ == "stderr"@ ==> r == Some(SubscribeKind::StdErr),
            s@ != "stdout"@ && s@ != "stderr"@ ==> r is None,
    {
        proof {
            reveal_strlit("stdout");
            reveal_strlit("stderr");
            assert("stdout"@[3] != "stderr"@[3]);
        }
        let t = String::from_str(s);
        if t == String::from_str("stdout") {
            Some(SubscribeKind::StdOut)
        } else if t == String::from_str("stderr") {
            Some(SubscribeKind::StdErr)
        } else {
            None
        }
    }
}

/// The text that one stream of a step accumulates, line by line.
pub struct StreamCollector {
    text: String,
}

impl View for StreamCollector {
    type V = Seq<char>;

    closed spec fn view(&self) -> Seq<char> {
        self.text@
    }
}

impl StreamCollector {
    /// Nothing collected yet.
    pub fn new() -> (r: Self)
        ensures
            r@ == Seq::<char>::empty(),
    {
        StreamCollector { text: String::new() }
    }

    /// Appends `line` and its line end.
    pub fn push_line(&mut self, line: &str)
        ensures
            final(self)@ == old(self)@ + line@ + "\n"@,
    {
        self.text.append(line);
        self.text.append("\n");
    }

    /// The collected text.
    pub fn into_text(self) -> (r: String)
        ensures
            r@ == self@,
    {
        self.text
    }
}

/// The status recorded for a process that exited with `code`: the code
/// itself, or 1 where there is none (killed by a signal) or it is negative.
pub open spec fn exit_status_spec(code: Option<i32>) -> usize {
    match code {
        Some(c) => if c >= 0 { c as usize } else { 1 },
        None => 1,
    }
}

/// The status recorded for a process that exited with `code`.
pub fn exit_status(code: Option<i32>) -> (r: usize)
    ensures
        r == exit_status_spec(code),
{
    match code {
        Some(c) => if c >= 0 { c as usize } else { 1 },
        None => 1,
    }
}

/// The log of `step` once its process exited with `code` and printed
/// `stdout` and `stderr`.
pub open spec fn exit_log(step: PlanStep, code: Option<i32>, stdout: String, stderr: String) -> IoLog {
    IoLog {
        status: exit_status_spec(code),
        project: step.project,
        tag: step.tag,
        stdout,
        stderr,
        child: None,
    }
}

/// A copy of an optional tag.
fn clone_tag(t: &Option<String>) -> (r: Option<String>)
    ensures
        r == *t,
{
    match t {
        Some(s) => Some(s.clone()),
        None => None,
    }
}

/// The run of one chain: its steps, the logs of those that have exited, and
/// whether the run was cut short because a process could not be run.
pub struct ChainRun {
    steps: Vec<PlanStep>,
    logs: Vec<IoLog>,
    aborted: bool,
}

impl ChainRun {
    /// The steps of the chain, earliest first.
    pub closed spec fn spec_steps(&self) -> Seq<PlanStep> {
        self.steps@
    }

    /// The logs of the steps that have exited, in order.
    pub closed spec fn spec_logs(&self) -> Seq<IoLog> {
        self.logs@
    }

    /// A process of the chain could not be started or awaited.
    pub closed spec fn spec_aborted(&self) -> bool {
        self.aborted
    }

    /// The last step that ran exited with a failure status.
    pub open spec fn failed(&self) -> bool {
        self.spec_logs().len() > 0 && self.spec_logs().last().status != 0
    }

    /// Nothing more is to run: the run was aborted, a step failed, or every
    /// step has exited.
    pub open spec fn is_finished(&self) -> bool {
        self.spec_aborted() || self.failed() || self.spec_logs().len() == self.spec_steps().len()
    }

    /// The run's state is consistent: each log belongs to its step, and no
    /// step ran after a failed one.
    pub open spec fn wf(&self) -> bool {
        &&& self.spec_steps().len() >= 1
        &&& self.spec_logs().len() <= self.spec_steps().len()
        &&& forall|k: int| 0 <= k < self.spec_logs().len() ==> {
            &&& (#[trigger] self.spec_logs()[k]).project == self.spec_steps()[k].project
            &&& self.spec_logs()[k].tag == self.spec_steps()[k].tag
            &&& self.spec_logs()[k].child is None
        }
        &&& forall|k: int| 0 <= k < self.spec_logs().len() - 1 ==> (#[trigger] self.spec_logs()[k]).status == 0
    }

    /// A run of `plan` with nothing run yet.
    pub fn new(plan: ProjectIoHandle) -> (r: Self)
        requires
            plan.wf(),
        ensures
            r.wf(),
            r.spec_steps() == plan.chain(),
            r.spec_logs() == Seq::<IoLog>::empty(),
            !r.spec_aborted(),
    {
        ChainRun { steps: plan.into_steps(), logs: Vec::new(), aborted: false }
    }

    /// The step to run next, or nothing when the run is finished.
    pub fn next_step(&self) -> (r: Option<&PlanStep>)
        requires
            self.wf(),
        ensures
            r is None <==> self.is_finished(),
            r matches Some(s) ==> *s == self.spec_steps()[self.spec_logs().len() as int],
    {
        if self.aborted || self.logs.len() == self.steps.len() {
            return None;
        }
        if self.logs.len() > 0 && self.logs[self.logs.len() - 1].status != 0 {
            return None;
        }
        Some(&self.steps[self.logs.len()])
    }

    /// Records that the current step's process exited with `code`, having
    /// printed `stdout` and `stderr`.
    pub fn record_exit(&mut self, code: Option<i32>, stdout: String, stderr: String)
        requires
            old(self).wf(),
            !old(self).is_finished(),
        ensures
            final(self).wf(),
            final(self).spec_steps() == old(self).spec_steps(),
            final(self).spec_logs() == old(self).spec_logs().push(
                exit_log(old(self).spec_steps()[old(self).spec_logs().len() as int], code, stdout, stderr),
            ),
            final(self).spec_aborted() == old(self).spec_aborted(),
    {
        let k = self.logs.len();
        let project = self.steps[k].project.clone();
        let tag = clone_tag(&self.steps[k].tag);
        let log = IoLog::new(exit_status(code), project, tag, stdout, stderr);
        self.logs.push(log);
    }

    /// Records that the current step's process could not be started or
    /// awaited; the run ends without a log.
    pub fn record_failure(&mut self)
        requires
            old(self).wf(),
        ensures
            final(self).wf(),
            final(self).spec_steps() == old(self).spec_steps(),
            final(self).spec_logs() == old(self).spec_logs(),
            final(self).spec_aborted(),
    {
        self.aborted = true;
    }

    /// The log to persist for a finished run: none where it was aborted,
    /// else the logs of the steps that ran, nested.
    pub fn finish(self) -> (r: Option<IoLog>)
        requires
            self.wf(),
            self.is_finished(),
        ensures
            self.spec_aborted() ==> r is None,
            !self.spec_aborted() ==> self.spec_logs().len() >= 1 && r == Some(nest(self.spec_logs())),
    {
        if self.aborted {
            return None;
        }
        let ghost all = self.logs@;
        let n = self.logs.len();
        let mut logs = self.logs;
        let mut acc = logs.remove(0);
        let mut k: usize = 1;
        assert(all.subrange(0, 1).drop_last() =~= Seq::<IoLog>::empty());
        while logs.len() > 0
            invariant
                1 <= k <= all.len(),
                all.len() == n,
                logs@ == all.subrange(k as int, all.len() as int),
                acc == nest(all.subrange(0, k as int)),
            decreases logs@.len(),
        {
            let next = logs.remove(0);
            assert(all.subrange(0, k + 1).drop_last() =~= all.subrange(0, k as int));
            acc = next.set_child(Box::new(acc));
            k = k + 1;
        }
        assert(all.subrange(0, k as int) =~= all);
        Some(acc)
    }
}

/// One live execution: its id, its output handle and its project.
pub struct LiveEntry<H> {
    pub id: ExecutionId,
    pub output: H,
    pub project: BaseProject,
}

/// The map from id to (output handle, project) of a list of entries; a
/// later entry of an id shadows an earlier one.
pub open spec fn entries_map<H>(s: Seq<LiveEntry<H>>) -> Map<u128, (H, BaseProject)>
    decreases s.len(),
{
    if s.len() == 0 {
        Map::empty()
    } else {
        entries_map(s.drop_last()).insert(s.last().id.value, (s.last().output, s.last().project))
    }
}

/// The ids of a list of entries are pairwise distinct.
pub open spec fn distinct_ids<H>(s: Seq<LiveEntry<H>>) -> bool {
    forall|i: int, j: int| 0 <= i < j < s.len() ==> (#[trigger] s[i]).id != (#[trigger] s[j]).id
}

/// An id is in the map exactly when some entry has it.
proof fn lemma_entries_dom<H>(s: Seq<LiveEntry<H>>, v: u128)
    ensures
        entries_map(s).contains_key(v) <==> exists|i: int| 0 <= i < s.len() && (#[trigger] s[i]).id.value == v,
    decreases s.len(),
{
    if s.len() > 0 {
        let t = s.drop_last();
        lemma_entries_dom(t, v);
        if entries_map(t).contains_key(v) {
            let i = choose|i: int| 0 <= i < t.len() && (#[trigger] t[i]).id.value == v;
            assert(s[i] == t[i]);
        }
        if exists|i: int| 0 <= i < s.len() && (#[trigger] s[i]).id.value == v {
            let i = choose|i: int| 0 <= i < s.len() && (#[trigger] s[i]).id.value == v;
            if i < s.len() - 1 {
                assert(t[i] == s[i]);
            }
        }
    }
}

/// With distinct ids, the map holds each entry under its id.
proof fn lemma_entries_at<H>(s: Seq<LiveEntry<H>>, i: int)
    requires
        distinct_ids(s),
        0 <= i < s.len(),
    ensures
        entries_map(s).contains_key(s[i].id.value),
        entries_map(s)[s[i].id.value] == (s[i].output, s[i].project),
    decreases s.len(),
{
    let t = s.drop_last();
    if i < s.len() - 1 {
        assert(s[i].id != s[s.len() - 1].id);
        assert(distinct_ids(t)) by {
            assert forall|a: int, b: int| 0 <= a < b < t.len() implies (#[trigger] t[a]).id != (#[trigger] t[b]).id by {
                assert(t[a] == s[a] && t[b] == s[b]);
            }
        }
        assert(t[i] == s[i]);
        lemma_entries_at(t, i);
    }
}

/// With distinct ids, taking out entry `i` takes its id out of the map.
proof fn lemma_entries_remove<H>(s: Seq<LiveEntry<H>>, i: int)
    requires
        distinct_ids(s),
        0 <= i < s.len(),
    ensures
        entries_map(s.remove(i)) =~= entries_map(s).remove(s[i].id.value),
        distinct_ids(s.remove(i)),
    decreases s.len(),
{
    let t = s.drop_last();
    let l = s.last();
    assert(distinct_ids(t)) by {
        assert forall|a: int, b: int| 0 <= a < b < t.len() implies (#[trigger] t[a]).id != (#[trigger] t[b]).id by {
            assert(t[a] == s[a] && t[b] == s[b]);
        }
    }
    if i == s.len() - 1 {
        assert(s.remove(i) =~= t);
        lemma_entries_dom(t, l.id.value);
        assert forall|a: int| 0 <= a < t.len() implies (#[trigger] t[a]).id.value != l.id.value by {
            assert(t[a] == s[a]);
            assert(s[a].id != s[s.len() - 1].id);
        }
    } else {
        lemma_entries_remove(t, i);
        assert(s.remove(i) =~= t.remove(i).push(l));
        assert(s.remove(i).drop_last() =~= t.remove(i));
        assert(s[i].id != l.id);
        assert(t[i] == s[i]);
    }
    assert forall|a: int, b: int| 0 <= a < b < s.remove(i).len() implies (#[trigger] s.remove(i)[a]).id != (#[trigger] s.remove(i)[b]).id by {
        let a2 = if a < i { a } else { a + 1 };
        let b2 = if b < i { b } else { b + 1 };
        assert(s.remove(i)[a] == s[a2]);
        assert(s.remove(i)[b] == s[b2]);
    }
}

/// The live executions: for each id, the handle that streams its output
/// and the project it runs for. Ids are pairwise distinct.
pub struct LiveRegistry<H> {
    entries: Vec<LiveEntry<H>>,
}

impl<H> View for LiveRegistry<H> {
    type V = Map<u128, (H, BaseProject)>;

    closed spec fn view(&self) -> Map<u128, (H, BaseProject)> {
        entries_map(self.entries@)
    }
}

impl<H> LiveRegistry<H> {
    /// The registry's entries have distinct ids.
    pub closed spec fn wf(&self) -> bool {
        distinct_ids(self.entries@)
    }

    /// No execution is live.
    pub fn new() -> (r: Self)
        ensures
            r.wf(),
            r@ == Map::<u128, (H, BaseProject)>::empty(),
    {
        LiveRegistry { entries: Vec::new() }
    }

    /// The position of the entry of id `v`.
    fn position(&self, v: u128) -> (r: Option<usize>)
        requires
            self.wf(),
        ensures
            r is None <==> !self@.contains_key(v),
            r matches Some(i) ==> i < self.entries@.len() && self.entries@[i as int].id.value == v,
    {
        proof {
            lemma_entries_dom(self.entries@, v);
        }
        let mut i: usize = 0;
        while i < self.entries.len()
            invariant
                i <= self.entries@.len(),
                forall|j: int| 0 <= j < i ==> (#[trigger] self.entries@[j]).id.value != v,
            decreases self.entries@.len() - i,
        {
            if self.entries[i].id.value == v {
                proof {
                    let j = i as int;
                    assert(0 <= j < self.entries@.len() && self.entries@[j].id.value == v);
                    lemma_entries_dom(self.entries@, v);
                    assert(entries_map(self.entries@).contains_key(v));
                }
                return Some(i);
            }
            i = i + 1;
        }
        None
    }

    /// Makes `id` live with `output` and `project`, unless it is live
    /// already; returns whether it was added.
    pub fn insert(&mut self, id: ExecutionId, output: H, project: BaseProject) -> (r: bool)
        requires
            old(self).wf(),
        ensures
            final(self).wf(),
            r == !old(self)@.contains_key(id.value),
            r ==> final(self)@ == old(self)@.insert(id.value, (output, project)),
            !r ==> final(self)@ == old(self)@,
    {
        if self.position(id.value).is_some() {
            return false;
        }
        proof {
            lemma_entries_dom(self.entries@, id.value);
        }
        let ghost before = self.entries@;
        self.entries.push(LiveEntry { id, output, project });
        proof {
            assert(self.entries@.drop_last() =~= before);
            assert forall|a: int, b: int| 0 <= a < b < self.entries@.len() implies (#[trigger] self.entries@[a]).id != (#[trigger] self.entries@[b]).id by {
                if b == self.entries@.len() - 1 {
                    assert(self.entries@[a] == before[a]);
                } else {
                    assert(self.entries@[a] == before[a] && self.entries@[b] == before[b]);
                }
            }
        }
        true
    }

    /// Mints a fresh id and makes it live with `output` and `project`. In
    /// the unlikely case that the minted id is live already, nothing changes
    /// and that id is returned as the error.
    pub fn register(&mut self, output: H, project: BaseProject) -> (r: Result<ExecutionId, ExecutionId>)
        requires
            old(self).wf(),
        ensures
            final(self).wf(),
            r matches Ok(id) ==> !old(self)@.contains_key(id.value)
                && final(self)@ == old(self)@.insert(id.value, (output, project)),
            r matches Err(id) ==> old(self)@.contains_key(id.value) && final(self)@ == old(self)@,
    {
        let id = ExecutionId { value: ulid_now() };
        if self.insert(id, output, project) {
            Ok(id)
        } else {
            Err(id)
        }
    }

    /// The output handle and project of live execution `id`; nothing when
    /// `id` is not live (finished, or never registered).
    pub fn lookup(&self, id: ExecutionId) -> (r: Option<(&H, &BaseProject)>)
        requires
            self.wf(),
        ensures
            r is None <==> !self@.contains_key(id.value),
            r matches Some(x) ==> (*x.0, *x.1) == self@[id.value],
    {
        match self.position(id.value) {
            Some(i) => {
                proof {
                    lemma_entries_at(self.entries@, i as int);
                }
                let e = &self.entries[i];
                Some((&e.output, &e.project))
            },
            None => None,
        }
    }

    /// Ends execution `id`: it is no longer live, whatever its outcome.
    /// Returns whether it was live.
    pub fn finish(&mut self, id: ExecutionId) -> (r: bool)
        requires
            old(self).wf(),
        ensures
            final(self).wf(),
            r == old(self)@.contains_key(id.value),
            final(self)@ == old(self)@.remove(id.value),
    {
        match self.position(id.value) {
            Some(i) => {
                proof {
                    lemma_entries_remove(self.entries@, i as int);
                }
                self.entries.remove(i);
                true
            },
            None => {
                assert(old(self)@.remove(id.value) =~= old(self)@);
                false
            },
        }
    }

    /// The live ids with their projects.
    pub fn list(&self) -> (r: Vec<(ExecutionId, BaseProject)>)
        requires
            self.wf(),
        ensures
            forall|k: int| 0 <= k < r@.len() ==> self@.contains_key((#[trigger] r@[k]).0.value)
                && self@[r@[k].0.value].1 == r@[k].1,
            forall|v: u128| self@.contains_key(v) ==> exists|k: int| 0 <= k < r@.len() && (#[trigger] r@[k]).0.value == v,
    {
        let mut out: Vec<(ExecutionId, BaseProject)> = Vec::new();
        let mut i: usize = 0;
        while i < self.entries.len()
            invariant
                self.wf(),
                i <= self.entries@.len(),
                out@.len() == i,
                forall|k: int| 0 <= k < i ==> (#[trigger] out@[k]).0 == self.entries@[k].id
                    && out@[k].1 == self.entries@[k].project,
            decreases self.entries@.len() - i,
        {
            let e = &self.entries[i];
            out.push((e.id, e.project.clone()));
            i = i + 1;
        }
        proof {
            assert forall|k: int| 0 <= k < out@.len() implies self@.contains_key((#[trigger] out@[k]).0.value)
                && self@[out@[k].0.value].1 == out@[k].1 by {
                lemma_entries_at(self.entries@, k);
            }
            assert forall|v: u128| self@.contains_key(v) implies exists|k: int| 0 <= k < out@.len() && (#[trigger] out@[k]).0.value == v by {
                lemma_entries_dom(self.entries@, v);
                let k = choose|k: int| 0 <= k < self.entries@.len() && (#[trigger] self.entries@[k]).id.value == v;
                assert(out@[k].0.value == v);
            }
        }
        out
    }
}

/// For the run of a Dockerfile start: the run step is attempted only after
/// the build step has exited successfully; a failed build ends the run with
/// the build's log alone; and once both have exited, whatever the run's
/// status, the persisted log is the run's, with the build's log as its child.
pub proof fn lemma_dockerfile_start_run(
    run: ChainRun,
    plan: ProjectIoHandle,
    dir: Seq<char>,
    p: BaseProject,
    v: nat,
    build_code: Option<i32>,
    build_out: String,
    build_err: String,
    run_code: Option<i32>,
    run_out: String,
    run_err: String,
)
    requires
        docker_start_plan(plan, dir, p, v),
        run.wf(),
        run.spec_steps() == plan.chain(),
        !run.spec_aborted(),
    ensures
        ({
            let build_log = exit_log(plan.chain()[0], build_code, build_out, build_err);
            let run_log = exit_log(plan.chain()[1], run_code, run_out, run_err);
            let root = nest(seq![build_log, run_log]);
            &&& run.spec_logs() == seq![build_log] && build_log.status != 0 ==> run.is_finished()
                && nest(run.spec_logs()) == build_log
            &&& run.spec_logs() == seq![build_log] && build_log.status == 0 ==> !run.is_finished()
            &&& build_log.status == 0 ==> {
                &&& root.tag is None
                &&& root.project == p
                &&& root.status == exit_status_spec(run_code)
                &&& root.stdout == run_out
                &&& root.stderr == run_err
                &&& root.child == Some(Box::new(build_log))
                &&& build_log.tag matches Some(t) && t@ == build_step_tag()
            }
        }),
{
    let build_log = exit_log(plan.chain()[0], build_code, build_out, build_err);
    let run_log = exit_log(plan.chain()[1], run_code, run_out, run_err);
    assert(seq![build_log, run_log].drop_last() =~= seq![build_log]);
    assert(nest(seq![build_log]) == build_log);
    assert(seq![build_log, run_log].last() == run_log);
}

/// An id that was never registered is not live; an id whose execution has
/// finished is not live afterwards, and every other live execution stays
/// as it was.
pub proof fn lemma_finished_not_live<H>(m: Map<u128, (H, BaseProject)>, id: ExecutionId)
    ensures
        !Map::<u128, (H, BaseProject)>::empty().contains_key(id.value),
        !m.remove(id.value).contains_key(id.value),
        forall|v: u128| v != id.value ==> (#[trigger] m.remove(id.value).contains_key(v)) == m.contains_key(v),
        forall|v: u128| v != id.value && m.contains_key(v) ==> #[trigger] m.remove(id.value)[v] == m[v],
{
}

} // verus!
