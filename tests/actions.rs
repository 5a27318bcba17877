use deployer::actions::{
    ActionCommand, ActionError, ComposeActions, CustomActions, DockerfileActions, ProjectAction,
    ProjectActions, ProjectKind,
};
use deployer::plan::{CommandSpec, ProjectIoHandle};
use deployer::project::{BaseProject, GitAuth, NewProject};

fn demo() -> BaseProject {
    BaseProject { name: "demo".to_string(), branch: "main".to_string() }
}

fn scripts() -> CustomActions {
    CustomActions {
        start: "echo hello".to_string(),
        stop: "echo bye".to_string(),
        restart: "echo again".to_string(),
    }
}

#[test]
fn dockerfile_start_builds_then_runs() {
    let mut d = DockerfileActions { image_version: 0 };
    let plan = d.start("/work", &demo()).unwrap();
    assert_eq!(d.image_version, 1);
    let steps = plan.steps();
    assert_eq!(steps.len(), 2);
    assert_eq!(steps[0].tag.as_deref(), Some("build_step"));
    assert_eq!(steps[0].command.program, "docker");
    assert_eq!(steps[0].command.args, vec!["build", ".", "-t", "demo-main:1"]);
    assert_eq!(steps[0].command.current_dir, "/work");
    assert_eq!(steps[1].tag, None);
    assert_eq!(
        steps[1].command.args,
        vec!["run", "-d", "--name", "demo-main-1", "-t", "demo-main:1"]
    );
    assert_eq!(plan.project().name, "demo");
}

#[test]
fn dockerfile_version_renders_in_decimal() {
    let mut d = DockerfileActions { image_version: 41 };
    let plan = d.start("/w", &demo()).unwrap();
    assert_eq!(plan.steps()[0].command.args[3], "demo-main:42");
    let mut big = DockerfileActions { image_version: 18446744073709551614 };
    let plan = big.start("/w", &demo()).unwrap();
    assert_eq!(plan.steps()[1].command.args[3], "demo-main-18446744073709551615");
}

#[test]
fn dockerfile_start_at_last_version_is_refused() {
    let mut d = DockerfileActions { image_version: u64::MAX };
    assert_eq!(d.start("/w", &demo()).err(), Some(ActionError::VersionExhausted));
    assert_eq!(d.image_version, u64::MAX);
}

#[test]
fn dockerfile_stop_and_restart_address_current_container() {
    let d = DockerfileActions { image_version: 3 };
    let stop = d.stop("/w", &demo());
    assert_eq!(stop.steps().len(), 1);
    assert_eq!(stop.steps()[0].command.args, vec!["stop", "demo-main-3"]);
    let restart = d.restart("/w", &demo());
    assert_eq!(restart.steps()[0].command.args, vec!["restart", "demo-main-3"]);
}

#[test]
fn dockerfile_stop_before_any_start() {
    let d = DockerfileActions { image_version: 0 };
    let stop = d.stop("/w", &demo());
    assert_eq!(stop.steps()[0].command.args, vec!["stop", "demo-main-0"]);
}

#[test]
fn compose_verbs() {
    let c = ComposeActions;
    assert_eq!(c.start("/w", &demo()).steps()[0].command.args, vec!["compose", "up"]);
    assert_eq!(c.stop("/w", &demo()).steps()[0].command.args, vec!["compose", "stop"]);
    assert_eq!(
        c.restart("/w", &demo()).steps()[0].command.args,
        vec!["compose", "up", "--force-recreate"]
    );
    assert_eq!(c.start("/w", &demo()).steps()[0].command.current_dir, "/w");
}

#[test]
fn custom_script_is_rendered_per_action() {
    let c = scripts();
    let plan = c.start("/w", &demo());
    let step = &plan.steps()[0];
    assert_eq!(step.command.program, "/bin/bash");
    assert_eq!(step.command.args, vec!["./_data/temp/scripts/start-demo-main.sh"]);
    assert_eq!(step.command.current_dir, "/w");
    let script = step.script.as_ref().unwrap();
    assert_eq!(script.folder, "./_data/temp/scripts");
    assert_eq!(script.file_name, "start-demo-main.sh");
    assert_eq!(script.body, "echo hello");
    let restart = c.restart("/w", &demo());
    assert_eq!(restart.steps()[0].script.as_ref().unwrap().file_name, "restart-demo-main.sh");
    assert_eq!(restart.steps()[0].script.as_ref().unwrap().body, "echo again");
}

#[test]
fn kind_dispatch_delegates() {
    let mut k = ProjectKind::Compose(ComposeActions);
    let plan = k.start("/w", &demo()).unwrap();
    assert_eq!(plan.steps()[0].command.args, vec!["compose", "up"]);
    let k2 = ProjectKind::Custom(scripts());
    assert_eq!(k2.stop("/w", &demo()).steps()[0].script.as_ref().unwrap().body, "echo bye");
    let mut k3 = ProjectKind::Dockerfile(DockerfileActions { image_version: 0 });
    let plan = k3.act(ProjectActions::Restart, "/w", &demo()).unwrap();
    assert_eq!(plan.steps()[0].command.args, vec!["restart", "demo-main-0"]);
}

#[test]
fn try_exec_mismatch_changes_nothing() {
    let mut project = NewProject {
        name: "demo".to_string(),
        branch: "main".to_string(),
        https_url: "https://example.com/r.git".to_string(),
        auth: GitAuth::Anonymous,
        project_kind: ProjectKind::Dockerfile(DockerfileActions { image_version: 2 }),
    }
    .into_project("/w".to_string());
    let cmd = ActionCommand { action_kind: ProjectAction::Custom(ProjectActions::Start) };
    assert_eq!(cmd.try_exec("/w", &demo(), &mut project).err(), Some(ActionError::KindMismatch));
    match &project.project_kind {
        ProjectKind::Dockerfile(d) => assert_eq!(d.image_version, 2),
        _ => panic!("kind changed"),
    }
}

#[test]
fn two_starts_on_same_project_get_their_own_versions() {
    let mut k = ProjectKind::Dockerfile(DockerfileActions { image_version: 7 });
    let first = k.start("/w", &demo()).unwrap();
    let second = k.start("/w", &demo()).unwrap();
    assert_eq!(first.steps()[0].command.args[3], "demo-main:8");
    assert_eq!(second.steps()[0].command.args[3], "demo-main:9");
    assert_eq!(first.steps()[1].command.args[3], "demo-main-8");
    assert_eq!(second.steps()[1].command.args[3], "demo-main-9");
}

#[test]
fn plan_builders_chain_steps() {
    let a = ProjectIoHandle::new(demo(), CommandSpec::new("a", "/w"));
    let b = ProjectIoHandle::new(demo(), CommandSpec::new("b", "/w")).with_tag("tb".to_string());
    let c = ProjectIoHandle::new(demo(), CommandSpec::new("c", "/w")).depends_on(b).depends_on(a);
    assert_eq!(c.steps().len(), 2);
    assert_eq!(c.steps()[0].command.program, "a");
    assert_eq!(c.steps()[1].command.program, "c");
    let d = ProjectIoHandle::new(demo(), CommandSpec::new("d", "/w"))
        .depends_on_same(CommandSpec::new("pre", "/w").arg("x"));
    assert_eq!(d.steps()[0].command.program, "pre");
    assert_eq!(d.steps()[0].command.args, vec!["x"]);
    assert_eq!(d.steps()[0].tag, None);
    let e = ProjectIoHandle::new(demo(), CommandSpec::new("e", "/w"))
        .depends_on_same_tagged(CommandSpec::new("pre", "/w"), "t".to_string());
    assert_eq!(e.steps()[0].tag.as_deref(), Some("t"));
    assert_eq!(e.into_steps()[1].command.program, "e");
}

#[test]
fn command_clone_keeps_arguments() {
    let c = CommandSpec::new("docker", "/w").arg("ps").arg("-a");
    let d = c.clone();
    assert_eq!(d.program, "docker");
    assert_eq!(d.args, vec!["ps", "-a"]);
    assert_eq!(d.current_dir, "/w");
}
