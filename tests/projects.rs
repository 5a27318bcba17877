use deployer::actions::{
    ActionCommand, ActionError, ComposeActions, CustomActions, DockerfileActions, ProjectAction,
    ProjectActions, ProjectKind,
};
use deployer::project::{
    create_git_auth_url, format_project_folder, format_project_root_folder, format_webhook_url,
    is_push_event, is_valid_name, pull_command, BaseProject, GitAuth, NewProject, Project,
    ProjectError, Projects,
};

fn base(name: &str, branch: &str) -> BaseProject {
    BaseProject { name: name.to_string(), branch: branch.to_string() }
}

fn record(name: &str, branch: &str, kind: ProjectKind) -> Project {
    NewProject {
        name: name.to_string(),
        branch: branch.to_string(),
        https_url: "https://example.com/repo.git".to_string(),
        auth: GitAuth::Anonymous,
        project_kind: kind,
    }
    .into_project(format_project_folder(name, branch))
}

fn compose() -> ProjectKind {
    ProjectKind::Compose(ComposeActions)
}

#[test]
fn insert_twice_is_duplicate() {
    let mut projects = Projects::new();
    assert_eq!(projects.insert(record("demo", "main", compose())), Ok(()));
    assert_eq!(projects.insert(record("demo", "main", compose())), Err(ProjectError::Duplicate));
    assert_eq!(projects.records().len(), 1);
}

#[test]
fn same_name_other_branch_is_accepted() {
    let mut projects = Projects::new();
    assert_eq!(projects.insert(record("demo", "main", compose())), Ok(()));
    assert_eq!(projects.insert(record("demo", "dev", compose())), Ok(()));
    assert_eq!(projects.records().len(), 2);
    assert_eq!(projects.records()[1].branch, "dev");
}

#[test]
fn get_finds_the_record() {
    let mut projects = Projects::new();
    projects.insert(record("demo", "main", compose())).unwrap();
    let p = projects.get("demo", "main").unwrap();
    assert_eq!(p.project_name, "demo");
    assert_eq!(p.uri, "/projects/webhook/demo/main");
    assert_eq!(p.path, "./_data/projects/demo/main");
    assert!(projects.get("demo", "dev").is_none());
    assert!(projects.get("other", "main").is_none());
}

#[test]
fn remove_missing_is_not_found() {
    let mut projects = Projects::new();
    projects.insert(record("demo", "main", compose())).unwrap();
    assert_eq!(projects.remove(&base("demo", "dev")), Err(ProjectError::NotFound));
    assert_eq!(projects.records().len(), 1);
}

#[test]
fn remove_takes_the_record_out() {
    let mut projects = Projects::new();
    projects.insert(record("a", "main", compose())).unwrap();
    projects.insert(record("b", "main", compose())).unwrap();
    assert_eq!(projects.remove(&base("a", "main")), Ok(()));
    assert_eq!(projects.records().len(), 1);
    assert_eq!(projects.records()[0].project_name, "b");
    assert!(projects.get("a", "main").is_none());
}

#[test]
fn clone_keeps_records() {
    let mut projects = Projects::new();
    projects.insert(record("a", "main", compose())).unwrap();
    let copy = projects.clone();
    assert_eq!(copy.records().len(), 1);
    assert_eq!(copy.records()[0].project_name, "a");
}

#[test]
fn names_with_separators_are_invalid() {
    assert!(is_valid_name("demo"));
    assert!(!is_valid_name("de/mo"));
    assert!(!is_valid_name("de\\mo"));
}

#[test]
fn validate_reports_each_error() {
    let mut p = NewProject {
        name: "a/b".to_string(),
        branch: "main".to_string(),
        https_url: "https://example.com/r.git".to_string(),
        auth: GitAuth::Anonymous,
        project_kind: compose(),
    };
    assert_eq!(p.validate(), Err(ProjectError::InvalidName));
    p.name = "ab".to_string();
    assert_eq!(p.validate(), Ok(()));
    p.https_url = "http://example.com/r.git".to_string();
    assert_eq!(p.validate(), Err(ProjectError::NotHttps));
    p.https_url = "git@example.com:r.git".to_string();
    assert_eq!(p.validate(), Err(ProjectError::NotHttps));
}

#[test]
fn auth_url_inserts_token() {
    let url = create_git_auth_url("https://example.com/r.git", &GitAuth::Token("SECRET-REDACTED".to_string()));
    assert_eq!(url, "https://SECRET-REDACTED@example.com/r.git");
    let plain = create_git_auth_url("https://example.com/r.git", &GitAuth::Anonymous);
    assert_eq!(plain, "https://example.com/r.git");
    assert!(GitAuth::Anonymous.is_none());
    assert!(!GitAuth::Token("t".to_string()).is_none());
}

#[test]
fn auth_url_removes_only_first_scheme() {
    let url = create_git_auth_url("x/https://a/https://b", &GitAuth::Token("t".to_string()));
    assert_eq!(url, "https://t@x/a/https://b");
    let none = create_git_auth_url("ftp://a", &GitAuth::Token("t".to_string()));
    assert_eq!(none, "https://t@ftp://a");
}

#[test]
fn webhook_and_folder_paths() {
    assert_eq!(format_webhook_url("demo", "main", true), "/projects/webhook/demo/main");
    assert_eq!(format_webhook_url("demo", "main", false), "demo/main");
    assert_eq!(format_project_root_folder("demo"), "./_data/projects/demo");
    assert_eq!(format_project_folder("demo", "main"), "./_data/projects/demo/main");
}

#[test]
fn clone_command_fetches_branch_into_folder() {
    let p = NewProject {
        name: "demo".to_string(),
        branch: "main".to_string(),
        https_url: "https://example.com/r.git".to_string(),
        auth: GitAuth::Token("tok".to_string()),
        project_kind: compose(),
    };
    let c = p.clone_command();
    assert_eq!(c.program, "git");
    assert_eq!(c.args, vec!["clone", "https://tok@example.com/r.git", "-b", "main", "."]);
    assert_eq!(c.current_dir, "./_data/projects/demo/main");
}

#[test]
fn pull_command_checks_name() {
    assert_eq!(pull_command("a\\b", "main").err(), Some(ProjectError::InvalidName));
    let c = pull_command("demo", "main").unwrap();
    assert_eq!(c.program, "git");
    assert_eq!(c.args, vec!["pull"]);
    assert_eq!(c.current_dir, "./_data/projects/demo/main");
}

#[test]
fn push_event_needs_all_three_fields() {
    let keys: Vec<String> = vec!["before".into(), "after".into(), "compare".into(), "ref".into()];
    assert!(is_push_event(&keys));
    let partial: Vec<String> = vec!["before".into(), "after".into()];
    assert!(!is_push_event(&partial));
    assert!(!is_push_event(&Vec::new()));
}

#[test]
fn run_action_unknown_project() {
    let mut projects = Projects::new();
    let cmd = ActionCommand { action_kind: ProjectAction::Compose(ProjectActions::Start) };
    assert_eq!(projects.run_action("demo", "main", &cmd).err(), Some(ActionError::NotFound));
}

#[test]
fn run_action_kind_mismatch() {
    let mut projects = Projects::new();
    projects.insert(record("demo", "main", compose())).unwrap();
    let cmd = ActionCommand { action_kind: ProjectAction::Dockerfile(ProjectActions::Start) };
    assert_eq!(projects.run_action("demo", "main", &cmd).err(), Some(ActionError::KindMismatch));
}

#[test]
fn run_action_advances_stored_version() {
    let mut projects = Projects::new();
    let kind = ProjectKind::Dockerfile(DockerfileActions { image_version: 4 });
    projects.insert(record("demo", "main", kind)).unwrap();
    let cmd = ActionCommand { action_kind: ProjectAction::Dockerfile(ProjectActions::Start) };
    let (who, plan) = projects.run_action("demo", "main", &cmd).unwrap();
    assert_eq!(who.name, "demo");
    assert_eq!(who.branch, "main");
    assert_eq!(plan.steps().len(), 2);
    assert_eq!(plan.steps()[0].command.args, vec!["build", ".", "-t", "demo-main:5"]);
    assert_eq!(plan.steps()[0].command.current_dir, "./_data/projects/demo/main");
    match &projects.get("demo", "main").unwrap().project_kind {
        ProjectKind::Dockerfile(d) => assert_eq!(d.image_version, 5),
        _ => panic!("kind changed"),
    }
}

#[test]
fn run_action_custom_script() {
    let mut projects = Projects::new();
    let kind = ProjectKind::Custom(CustomActions {
        start: "echo start".to_string(),
        stop: "echo stop".to_string(),
        restart: "echo restart".to_string(),
    });
    projects.insert(record("demo", "main", kind)).unwrap();
    let cmd = ActionCommand { action_kind: ProjectAction::Custom(ProjectActions::Stop) };
    let (_, plan) = projects.run_action("demo", "main", &cmd).unwrap();
    let script = plan.steps()[0].script.as_ref().unwrap();
    assert_eq!(script.body, "echo stop");
    assert_eq!(script.file_name, "stop-demo-main.sh");
}
