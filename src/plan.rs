//! Execution plans: linear chains of external commands, earliest first.
use vstd::prelude::*;

use crate::project::BaseProject;

verus! {

/// How to start one external process: a program, its arguments and its
/// working directory.
pub struct CommandSpec {
    pub program: String,
    pub args: Vec<String>,
    pub current_dir: String,
}

/// The character views of a list of strings.
pub open spec fn strings_view(v: Seq<String>) -> Seq<Seq<char>> {
    v.map_values(|a: String| a@)
}

/// A command as plain sequences: program, arguments, working directory.
pub ghost struct CommandView {
    pub program: Seq<char>,
    pub args: Seq<Seq<char>>,
    pub current_dir: Seq<char>,
}

impl View for CommandSpec {
    type V = CommandView;

    open spec fn view(&self) -> CommandView {
        CommandView {
            program: self.program@,
            args: strings_view(self.args@),
            current_dir: self.current_dir@,
        }
    }
}

impl CommandSpec {
    /// A command running `program` in `dir` with no arguments yet.
    pub fn new(program: &str, dir: &str) -> (r: CommandSpec)
        ensures
            r@ == (CommandView { program: program@, args: seq![], current_dir: dir@ }),
    {
        let r = CommandSpec {
            program: String::from_str(program),
            args: Vec::new(),
            current_dir: String::from_str(dir),
        };
        assert(strings_view(r.args@) =~= seq![]);
        r
    }

    /// The same command with `a` appended to its arguments.
    pub fn arg(self, a: &str) -> (r: CommandSpec)
        ensures
            r@ == (CommandView { args: self@.args.push(a@), ..self@ }),
    {
        let mut r = self;
        r.args.push(String::from_str(a));
        assert(strings_view(r.args@) =~= self@.args.push(a@));
        r
    }
}

impl Clone for CommandSpec {
    fn clone(&self) -> (r: Self)
        ensures
            r@ == self@,
    {
        let mut args: Vec<String> = Vec::new();
        let mut i: usize = 0;
        while i < self.args.len()
            invariant
                i <= self.args@.len(),
                strings_view(args@) =~= strings_view(self.args@.subrange(0, i as int)),
            decreases self.args@.len() - i,
        {
            args.push(self.args[i].clone());
            assert(strings_view(self.args@.subrange(0, i + 1)) =~= strings_view(
                self.args@.subrange(0, i as int),
            ).push(self.args@[i as int]@));
            i = i + 1;
        }
        assert(self.args@.subrange(0, i as int) =~= self.args@);
        CommandSpec {
            program: self.program.clone(),
            args,
            current_dir: self.current_dir.clone(),
        }
    }
}

/// A script that must exist on disk before its step runs.
pub struct ScriptFile {
    pub folder: String,
    pub file_name: String,
    pub body: String,
}

/// One node of a plan: the command, whom it is for, and the tag its log is named by.
pub struct PlanStep {
    pub project: BaseProject,
    pub tag: Option<String>,
    pub command: CommandSpec,
    pub script: Option<ScriptFile>,
}

/// A plan for one submission: its steps, earliest first. The last step is
/// the plan's own command; each earlier one must complete before the next
/// starts.
pub struct ProjectIoHandle {
    steps: Vec<PlanStep>,
}


impl ProjectIoHandle {
    /// The steps of the plan, earliest first.
    pub closed spec fn chain(&self) -> Seq<PlanStep> {
        self.steps@
    }

    /// A plan always has at least its own step.
    pub open spec fn wf(&self) -> bool {
        self.chain().len() >= 1
    }

    /// The plan's own (last) step.
    pub open spec fn root(&self) -> PlanStep {
        self.chain().last()
    }

    /// A one-step plan running `command` for `project`.
    pub fn new(project: BaseProject, command: CommandSpec) -> (r: Self)
        ensures
            r.wf(),
            r.chain().len() == 1,
            r.root().project == project,
            r.root().tag is None,
            r.root().command@ == command@,
            r.root().script is None,
    {
        let mut steps: Vec<PlanStep> = Vec::new();
        steps.push(PlanStep { project, tag: None, command, script: None });
        ProjectIoHandle { steps }
    }

    /// The plan with its own step tagged `t`.
    pub fn with_tag(self, t: String) -> (r: Self)
        requires
            self.wf(),
        ensures
            r.wf(),
            r.chain() == self.chain().update(self.chain().len() - 1, PlanStep { tag: Some(t), ..self.root() }),
    {
        let mut steps = self.steps;
        let mut last = steps.pop().unwrap();
        last.tag = Some(t);
        steps.push(last);
        ProjectIoHandle { steps }
    }

    /// The plan with its own step requiring `script` on disk.
    pub fn with_script(self, script: ScriptFile) -> (r: Self)
        requires
            self.wf(),
        ensures
            r.wf(),
            r.chain() == self.chain().update(self.chain().len() - 1, PlanStep { script: Some(script), ..self.root() }),
    {
        let mut steps = self.steps;
        let mut last = steps.pop().unwrap();
        last.script = Some(script);
        steps.push(last);
        ProjectIoHandle { steps }
    }

    /// The plan's own step, to run after the whole of `dep`; any dependency
    /// that the plan had before is replaced.
    pub fn depends_on(self, dep: ProjectIoHandle) -> (r: Self)
        requires
            self.wf(),
            dep.wf(),
        ensures
            r.wf(),
            r.chain() == dep.chain().push(self.root()),
    {
        let mut steps = self.steps;
        let last = steps.pop().unwrap();
        let mut out = dep.steps;
        out.push(last);
        ProjectIoHandle { steps: out }
    }

    /// The plan's own step, to run after `command` for the same project.
    pub fn depends_on_same(self, command: CommandSpec) -> (r: Self)
        requires
            self.wf(),
        ensures
            r.wf(),
            r.chain().len() == 2,
            r.chain()[0].project == self.root().project,
            r.chain()[0].tag is None,
            r.chain()[0].command@ == command@,
            r.chain()[0].script is None,
            r.chain()[1] == self.root(),
    {
        let project = self.steps[self.steps.len() - 1].project.clone();
        let dep = ProjectIoHandle::new(project, command);
        self.depends_on(dep)
    }

    /// The plan's own step, to run after `command` for the same project,
    /// whose log is tagged `tag`.
    pub fn depends_on_same_tagged(self, command: CommandSpec, tag: String) -> (r: Self)
        requires
            self.wf(),
        ensures
            r.wf(),
            r.chain().len() == 2,
            r.chain()[0].project == self.root().project,
            r.chain()[0].tag == Some(tag),
            r.chain()[0].command@ == command@,
            r.chain()[0].script is None,
            r.chain()[1] == self.root(),
    {
        let project = self.steps[self.steps.len() - 1].project.clone();
        let dep = ProjectIoHandle::new(project, command).with_tag(tag);
        self.depends_on(dep)
    }

    /// The project that the plan is for (that of its own step).
    pub fn project(&self) -> (r: &BaseProject)
        requires
            self.wf(),
        ensures
            *r == self.root().project,
    {
        &self.steps[self.steps.len() - 1].project
    }

    /// The steps, earliest first.
    pub fn steps(&self) -> (r: &Vec<PlanStep>)
        ensures
            r@ == self.chain(),
    {
        &self.steps
    }

    /// The steps, earliest first, taken out of the plan.
    pub fn into_steps(self) -> (r: Vec<PlanStep>)
        ensures
            r@ == self.chain(),
    {
        self.steps
    }
}

} // verus!
