//! Deployment strategies. Each turns `start`, `stop` or `restart` of a
//! project into an execution plan; none runs anything itself.
use vstd::prelude::*;

use crate::config::{SCRIPT_SHELL, TEMP_SCRIPT_FOLDER};
use crate::plan::{CommandSpec, CommandView, ProjectIoHandle, ScriptFile};
use crate::project::{BaseProject, Project};
use crate::text::{decimal, decimal_spec};

verus! {

/// The actions every strategy offers.
#[derive(Debug, Clone, Copy, PartialEq, Eq, Structural)]
pub enum ProjectActions {
    Start,
    Stop,
    Restart,
}

/// Why an action could not be planned.
#[derive(Debug, Clone, Copy, PartialEq, Eq, Structural)]
pub enum ActionError {
    /// No project with that name and branch is registered.
    NotFound,
    /// The request names another strategy than the project has.
    KindMismatch,
    /// The image version counter cannot be advanced any further.
    VersionExhausted,
}

/// The strategy that builds an image from the project's Dockerfile and runs
/// it; each start builds a new image version.
#[derive(Debug, Clone, Copy, PartialEq, Eq, Structural)]
pub struct DockerfileActions {
    pub image_version: u64,
}

/// The strategy that drives the project's compose file.
#[derive(Debug, Clone, Copy, PartialEq, Eq, Structural)]
pub struct ComposeActions;

/// The strategy that runs a stored shell script per action.
pub struct CustomActions {
    pub start: String,
    pub stop: String,
    pub restart: String,
}

impl Clone for CustomActions {
    fn clone(&self) -> (r: Self)
        ensures
            r == *self,
    {
        CustomActions {
            start: self.start.clone(),
            stop: self.stop.clone(),
            restart: self.restart.clone(),
        }
    }
}

/// A project's strategy, with the state it keeps.
pub enum ProjectKind {
    Dockerfile(DockerfileActions),
    Compose(ComposeActions),
    Custom(CustomActions),
}

impl Clone for ProjectKind {
    fn clone(&self) -> (r: Self)
        ensures
            r == *self,
    {
        match self {
            ProjectKind::Dockerfile(d) => ProjectKind::Dockerfile(*d),
            ProjectKind::Compose(c) => ProjectKind::Compose(*c),
            ProjectKind::Custom(c) => ProjectKind::Custom(c.clone()),
        }
    }
}

/// The word naming an action.
pub open spec fn action_word(a: ProjectActions) -> Seq<char> {
    match a {
        ProjectActions::Start => "start"@,
        ProjectActions::Stop => "stop"@,
        ProjectActions::Restart => "restart"@,
    }
}

/// The image that version `v` of a project is built as.
pub open spec fn image_tag(p: BaseProject, v: nat) -> Seq<char> {
    p.name@ + "-"@ + p.branch@ + ":"@ + decimal_spec(v)
}

/// The container that runs version `v` of a project.
pub open spec fn container_name(p: BaseProject, v: nat) -> Seq<char> {
    p.name@ + "-"@ + p.branch@ + "-"@ + decimal_spec(v)
}

/// `r` is a plan of one untagged step for `project` running `cmd`, with no script.
pub open spec fn single_step(r: ProjectIoHandle, project: BaseProject, cmd: CommandView) -> bool {
    &&& r.wf()
    &&& r.chain().len() == 1
    &&& r.root().project == project
    &&& r.root().tag is None
    &&& r.root().command@ == cmd
    &&& r.root().script is None
}

/// The build of image version `v`.
pub open spec fn docker_build_command(dir: Seq<char>, p: BaseProject, v: nat) -> CommandView {
    CommandView {
        program: "docker"@,
        args: seq!["build"@, "."@, "-t"@, image_tag(p, v)],
        current_dir: dir,
    }
}

/// The detached run of image version `v` in its own named container.
pub open spec fn docker_run_command(dir: Seq<char>, p: BaseProject, v: nat) -> CommandView {
    CommandView {
        program: "docker"@,
        args: seq!["run"@, "-d"@, "--name"@, container_name(p, v), "-t"@, image_tag(p, v)],
        current_dir: dir,
    }
}

/// `docker <verb>` on the container of version `v`.
pub open spec fn docker_container_command(verb: Seq<char>, dir: Seq<char>, p: BaseProject, v: nat) -> CommandView {
    CommandView {
        program: "docker"@,
        args: seq![verb, container_name(p, v)],
        current_dir: dir,
    }
}

/// The tag of the build step of a Dockerfile start.
pub open spec fn build_step_tag() -> Seq<char> {
    "build_step"@
}

/// `r` builds image version `v` (tagged as the build step) and then runs it.
pub open spec fn docker_start_plan(r: ProjectIoHandle, dir: Seq<char>, p: BaseProject, v: nat) -> bool {
    &&& r.wf()
    &&& r.chain().len() == 2
    &&& r.chain()[0].project == p
    &&& r.chain()[0].tag matches Some(t) && t@ == build_step_tag()
    &&& r.chain()[0].command@ == docker_build_command(dir, p, v)
    &&& r.chain()[0].script is None
    &&& r.chain()[1].project == p
    &&& r.chain()[1].tag is None
    &&& r.chain()[1].command@ == docker_run_command(dir, p, v)
    &&& r.chain()[1].script is None
}

/// The `docker compose` invocation of an action.
pub open spec fn compose_command(a: ProjectActions, dir: Seq<char>) -> CommandView {
    CommandView {
        program: "docker"@,
        args: match a {
            ProjectActions::Start => seq!["compose"@, "up"@],
            ProjectActions::Stop => seq!["compose"@, "stop"@],
            ProjectActions::Restart => seq!["compose"@, "up"@, "--force-recreate"@],
        },
        current_dir: dir,
    }
}

/// The file name that the script of an action is rendered to.
pub open spec fn script_name(a: ProjectActions, p: BaseProject) -> Seq<char> {
    action_word(a) + "-"@ + p.name@ + "-"@ + p.branch@ + ".sh"@
}

/// The stored script body of an action.
pub open spec fn script_body(c: CustomActions, a: ProjectActions) -> Seq<char> {
    match a {
        ProjectActions::Start => c.start@,
        ProjectActions::Stop => c.stop@,
        ProjectActions::Restart => c.restart@,
    }
}

/// `r` runs the script of action `a`, rendered into the scratch directory,
/// with the shell in `dir`.
pub open spec fn custom_plan(r: ProjectIoHandle, c: CustomActions, a: ProjectActions, dir: Seq<char>, p: BaseProject) -> bool {
    &&& r.wf()
    &&& r.chain().len() == 1
    &&& r.root().project == p
    &&& r.root().tag is None
    &&& r.root().command@ == (CommandView {
        program: SCRIPT_SHELL@,
        args: seq![TEMP_SCRIPT_FOLDER@ + "/"@ + script_name(a, p)],
        current_dir: dir,
    })
    &&& r.root().script matches Some(s) && s.folder@ == TEMP_SCRIPT_FOLDER@
        && s.file_name@ == script_name(a, p) && s.body@ == script_body(c, a)
}

/// What planning action `a` on a project of strategy `kind` gives: the
/// result, and the strategy state afterwards.
pub open spec fn action_outcome(
    kind: ProjectKind,
    a: ProjectActions,
    dir: Seq<char>,
    p: BaseProject,
    r: Result<ProjectIoHandle, ActionError>,
    after: ProjectKind,
) -> bool {
    match kind {
        ProjectKind::Dockerfile(d) => match a {
            ProjectActions::Start => if d.image_version == u64::MAX {
                r == Err::<ProjectIoHandle, ActionError>(ActionError::VersionExhausted) && after == kind
            } else {
                &&& after == ProjectKind::Dockerfile(DockerfileActions { image_version: (d.image_version + 1) as u64 })
                &&& r matches Ok(plan) && docker_start_plan(plan, dir, p, (d.image_version + 1) as nat)
            },
            ProjectActions::Stop => after == kind && (r matches Ok(plan)
                && single_step(plan, p, docker_container_command("stop"@, dir, p, d.image_version as nat))),
            ProjectActions::Restart => after == kind && (r matches Ok(plan)
                && single_step(plan, p, docker_container_command("restart"@, dir, p, d.image_version as nat))),
        },
        ProjectKind::Compose(_) => after == kind && (r matches Ok(plan) && single_step(plan, p, compose_command(a, dir))),
        ProjectKind::Custom(c) => after == kind && (r matches Ok(plan) && custom_plan(plan, c, a, dir, p)),
    }
}

/// `name-branch` followed by `sep` and the decimal of `v`.
fn versioned(p: &BaseProject, sep: &str, v: u64) -> (r: String)
    ensures
        r@ == p.name@ + "-"@ + p.branch@ + sep@ + decimal_spec(v as nat),
{
    let mut r = p.name.clone();
    r.append("-");
    r.append(p.branch.as_str());
    r.append(sep);
    let d = decimal(v);
    r.append(d.as_str());
    r
}

impl DockerfileActions {
    /// Advances the image version, then plans the build of that version
    /// followed by its run.
    pub fn start(&mut self, dir: &str, project: &BaseProject) -> (r: Result<ProjectIoHandle, ActionError>)
        ensures
            old(self).image_version == u64::MAX ==> r == Err::<ProjectIoHandle, ActionError>(ActionError::VersionExhausted)
                && *final(self) == *old(self),
            old(self).image_version < u64::MAX ==> final(self).image_version == old(self).image_version + 1
                && (r matches Ok(plan) && docker_start_plan(plan, dir@, *project, final(self).image_version as nat)),
    {
        if self.image_version == u64::MAX {
            return Err(ActionError::VersionExhausted);
        }
        self.image_version = self.image_version + 1;
        let image = versioned(project, ":", self.image_version);
        let container = versioned(project, "-", self.image_version);
        let run = CommandSpec::new("docker", dir)
            .arg("run")
            .arg("-d")
            .arg("--name")
            .arg(container.as_str())
            .arg("-t")
            .arg(image.as_str());
        let build = CommandSpec::new("docker", dir)
            .arg("build")
            .arg(".")
            .arg("-t")
            .arg(image.as_str());
        assert(run@.args =~= docker_run_command(dir@, *project, self.image_version as nat).args);
        assert(build@.args =~= docker_build_command(dir@, *project, self.image_version as nat).args);
        let plan = ProjectIoHandle::new(project.clone(), run);
        Ok(plan.depends_on_same_tagged(build, String::from_str("build_step")))
    }

    /// Plans the stop of the current version's container.
    pub fn stop(&self, dir: &str, project: &BaseProject) -> (r: ProjectIoHandle)
        ensures
            single_step(r, *project, docker_container_command("stop"@, dir@, *project, self.image_version as nat)),
    {
        let container = versioned(project, "-", self.image_version);
        let cmd = CommandSpec::new("docker", dir).arg("stop").arg(container.as_str());
        assert(cmd@.args =~= seq!["stop"@, container@]);
        ProjectIoHandle::new(project.clone(), cmd)
    }

    /// Plans the restart of the current version's container.
    pub fn restart(&self, dir: &str, project: &BaseProject) -> (r: ProjectIoHandle)
        ensures
            single_step(r, *project, docker_container_command("restart"@, dir@, *project, self.image_version as nat)),
    {
        let container = versioned(project, "-", self.image_version);
        let cmd = CommandSpec::new("docker", dir).arg("restart").arg(container.as_str());
        assert(cmd@.args =~= seq!["restart"@, container@]);
        ProjectIoHandle::new(project.clone(), cmd)
    }
}

impl ComposeActions {
    /// Plans `docker compose up`.
    pub fn start(&self, dir: &str, project: &BaseProject) -> (r: ProjectIoHandle)
        ensures
            single_step(r, *project, compose_command(ProjectActions::Start, dir@)),
    {
        let cmd = CommandSpec::new("docker", dir).arg("compose").arg("up");
        assert(cmd@.args =~= seq!["compose"@, "up"@]);
        ProjectIoHandle::new(project.clone(), cmd)
    }

    /// Plans `docker compose stop`.
    pub fn stop(&self, dir: &str, project: &BaseProject) -> (r: ProjectIoHandle)
        ensures
            single_step(r, *project, compose_command(ProjectActions::Stop, dir@)),
    {
        let cmd = CommandSpec::new("docker", dir).arg("compose").arg("stop");
        assert(cmd@.args =~= seq!["compose"@, "stop"@]);
        ProjectIoHandle::new(project.clone(), cmd)
    }

    /// Plans `docker compose up --force-recreate`.
    pub fn restart(&self, dir: &str, project: &BaseProject) -> (r: ProjectIoHandle)
        ensures
            single_step(r, *project, compose_command(ProjectActions::Restart, dir@)),
    {
        let cmd = CommandSpec::new("docker", dir).arg("compose").arg("up").arg("--force-recreate");
        assert(cmd@.args =~= seq!["compose"@, "up"@, "--force-recreate"@]);
        ProjectIoHandle::new(project.clone(), cmd)
    }
}

/// The word naming an action.
fn action_str(a: ProjectActions) -> (r: &'static str)
    ensures
        r@ == action_word(a),
{
    match a {
        ProjectActions::Start => "start",
        ProjectActions::Stop => "stop",
        ProjectActions::Restart => "restart",
    }
}

impl CustomActions {
    /// The stored script of action `a`.
    fn body(&self, a: ProjectActions) -> (r: &String)
        ensures
            r@ == script_body(*self, a),
    {
        match a {
            ProjectActions::Start => &self.start,
            ProjectActions::Stop => &self.stop,
            ProjectActions::Restart => &self.restart,
        }
    }

    /// Plans the shell run of the script of action `a`.
    pub fn plan(&self, a: ProjectActions, dir: &str, project: &BaseProject) -> (r: ProjectIoHandle)
        ensures
            custom_plan(r, *self, a, dir@, *project),
    {
        let mut file_name = String::from_str(action_str(a));
        file_name.append("-");
        file_name.append(project.name.as_str());
        file_name.append("-");
        file_name.append(project.branch.as_str());
        file_name.append(".sh");
        let mut path = String::from_str(TEMP_SCRIPT_FOLDER);
        path.append("/");
        path.append(file_name.as_str());
        let cmd = CommandSpec::new(SCRIPT_SHELL, dir).arg(path.as_str());
        assert(cmd@.args =~= seq![path@]);
        let script = ScriptFile {
            folder: String::from_str(TEMP_SCRIPT_FOLDER),
            file_name,
            body: self.body(a).clone(),
        };
        ProjectIoHandle::new(project.clone(), cmd).with_script(script)
    }

    /// Plans the `start` script.
    pub fn start(&self, dir: &str, project: &BaseProject) -> (r: ProjectIoHandle)
        ensures
            custom_plan(r, *self, ProjectActions::Start, dir@, *project),
    {
        self.plan(ProjectActions::Start, dir, project)
    }

    /// Plans the `stop` script.
    pub fn stop(&self, dir: &str, project: &BaseProject) -> (r: ProjectIoHandle)
        ensures
            custom_plan(r, *self, ProjectActions::Stop, dir@, *project),
    {
        self.plan(ProjectActions::Stop, dir, project)
    }

    /// Plans the `restart` script.
    pub fn restart(&self, dir: &str, project: &BaseProject) -> (r: ProjectIoHandle)
        ensures
            custom_plan(r, *self, ProjectActions::Restart, dir@, *project),
    {
        self.plan(ProjectActions::Restart, dir, project)
    }
}

impl ProjectKind {
    /// Plans `start` with the project's strategy.
    pub fn start(&mut self, dir: &str, project: &BaseProject) -> (r: Result<ProjectIoHandle, ActionError>)
        ensures
            action_outcome(*old(self), ProjectActions::Start, dir@, *project, r, *final(self)),
    {
        match self {
            ProjectKind::Dockerfile(a) => a.start(dir, project),
            ProjectKind::Compose(a) => Ok(a.start(dir, project)),
            ProjectKind::Custom(a) => Ok(a.start(dir, project)),
        }
    }

    /// Plans `stop` with the project's strategy.
    pub fn stop(&self, dir: &str, project: &BaseProject) -> (r: ProjectIoHandle)
        ensures
            action_outcome(*self, ProjectActions::Stop, dir@, *project, Ok(r), *self),
    {
        match self {
            ProjectKind::Dockerfile(a) => a.stop(dir, project),
            ProjectKind::Compose(a) => a.stop(dir, project),
            ProjectKind::Custom(a) => a.stop(dir, project),
        }
    }

    /// Plans `restart` with the project's strategy.
    pub fn restart(&self, dir: &str, project: &BaseProject) -> (r: ProjectIoHandle)
        ensures
            action_outcome(*self, ProjectActions::Restart, dir@, *project, Ok(r), *self),
    {
        match self {
            ProjectKind::Dockerfile(a) => a.restart(dir, project),
            ProjectKind::Compose(a) => a.restart(dir, project),
            ProjectKind::Custom(a) => a.restart(dir, project),
        }
    }

    /// Plans action `a` with the project's strategy.
    pub fn act(&mut self, a: ProjectActions, dir: &str, project: &BaseProject) -> (r: Result<ProjectIoHandle, ActionError>)
        ensures
            action_outcome(*old(self), a, dir@, *project, r, *final(self)),
    {
        match a {
            ProjectActions::Start => self.start(dir, project),
            ProjectActions::Stop => Ok(self.stop(dir, project)),
            ProjectActions::Restart => Ok(self.restart(dir, project)),
        }
    }
}

/// An action, qualified by the strategy that the requester expects.
#[derive(Debug, Clone, Copy, PartialEq, Eq, Structural)]
pub enum ProjectAction {
    Dockerfile(ProjectActions),
    Compose(ProjectActions),
    Custom(ProjectActions),
}

/// Whether a qualified action is meant for a project of strategy `kind`.
pub open spec fn kind_matches(a: ProjectAction, kind: ProjectKind) -> bool {
    match a {
        ProjectAction::Dockerfile(_) => kind is Dockerfile,
        ProjectAction::Compose(_) => kind is Compose,
        ProjectAction::Custom(_) => kind is Custom,
    }
}

/// The unqualified action.
pub open spec fn action_of(a: ProjectAction) -> ProjectActions {
    match a {
        ProjectAction::Dockerfile(x) => x,
        ProjectAction::Compose(x) => x,
        ProjectAction::Custom(x) => x,
    }
}

/// A request to run an action on a project.
#[derive(Debug, Clone, Copy, PartialEq, Eq, Structural)]
pub struct ActionCommand {
    pub action_kind: ProjectAction,
}

impl ActionCommand {
    /// Plans the requested action for `project`, whose working directory is
    /// `dir` and whose identity is `base_project`. A request for another
    /// strategy than the project's is refused and changes nothing.
    pub fn try_exec(&self, dir: &str, base_project: &BaseProject, project: &mut Project) -> (r: Result<ProjectIoHandle, ActionError>)
        ensures
            !kind_matches(self.action_kind, old(project).project_kind) ==> r == Err::<ProjectIoHandle, ActionError>(ActionError::KindMismatch)
                && *final(project) == *old(project),
            kind_matches(self.action_kind, old(project).project_kind) ==> action_outcome(
                old(project).project_kind,
                action_of(self.action_kind),
                dir@,
                *base_project,
                r,
                final(project).project_kind,
            ) && *final(project) == (Project { project_kind: final(project).project_kind, ..*old(project) }),
    {
        let (a, ok) = match self.action_kind {
            ProjectAction::Dockerfile(a) => (a, matches!(project.project_kind, ProjectKind::Dockerfile(_))),
            ProjectAction::Compose(a) => (a, matches!(project.project_kind, ProjectKind::Compose(_))),
            ProjectAction::Custom(a) => (a, matches!(project.project_kind, ProjectKind::Custom(_))),
        };
        if !ok {
            return Err(ActionError::KindMismatch);
        }
        project.project_kind.act(a, dir, base_project)
    }
}

} // verus!
