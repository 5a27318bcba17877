use deployer::actions::{CustomActions, DockerfileActions};
use deployer::executor::{exit_status, ChainRun, ExecutionId, LiveRegistry, StreamCollector, SubscribeKind};
use deployer::iolog::IoLog;
use deployer::project::BaseProject;

fn demo() -> BaseProject {
    BaseProject { name: "demo".to_string(), branch: "main".to_string() }
}

#[test]
fn ulid_text_of_extremes() {
    assert_eq!(ExecutionId { value: 0 }.to_text(), "00000000000000000000000000");
    assert_eq!(ExecutionId { value: u128::MAX }.to_text(), "7ZZZZZZZZZZZZZZZZZZZZZZZZZ");
    assert_eq!(ExecutionId { value: 32 }.to_text(), "00000000000000000000000010");
    assert_eq!(ExecutionId { value: 31 }.log_file_name(), "0000000000000000000000000Z.json");
}

#[test]
fn registered_ids_are_distinct_and_live() {
    let mut live: LiveRegistry<u32> = LiveRegistry::new();
    let a = live.register(1, demo()).unwrap();
    let b = live.register(2, demo()).unwrap();
    assert_ne!(a, b);
    let (h, p) = live.lookup(a).unwrap();
    assert_eq!(*h, 1);
    assert_eq!(p.name, "demo");
    assert_eq!(*live.lookup(b).unwrap().0, 2);
    assert_eq!(live.list().len(), 2);
}

#[test]
fn finished_execution_is_no_longer_live() {
    let mut live: LiveRegistry<u32> = LiveRegistry::new();
    let a = live.register(1, demo()).unwrap();
    let b = live.register(2, demo()).unwrap();
    assert!(live.finish(a));
    assert!(live.lookup(a).is_none());
    assert!(!live.finish(a));
    assert!(live.lookup(b).is_some());
    let listed = live.list();
    assert_eq!(listed.len(), 1);
    assert_eq!(listed[0].0, b);
}

#[test]
fn unknown_id_is_not_live() {
    let live: LiveRegistry<u32> = LiveRegistry::new();
    assert!(live.lookup(ExecutionId { value: 12345 }).is_none());
    assert!(live.list().is_empty());
}

#[test]
fn exit_status_mapping() {
    assert_eq!(exit_status(Some(0)), 0);
    assert_eq!(exit_status(Some(3)), 3);
    assert_eq!(exit_status(Some(-2)), 1);
    assert_eq!(exit_status(None), 1);
}

#[test]
fn collector_keeps_lines_in_order() {
    let mut c = StreamCollector::new();
    c.push_line("one");
    c.push_line("");
    c.push_line("two");
    assert_eq!(c.into_text(), "one\n\ntwo\n");
}

#[test]
fn subscribe_kind_names() {
    assert_eq!(SubscribeKind::parse("stdout"), Some(SubscribeKind::StdOut));
    assert_eq!(SubscribeKind::parse("stderr"), Some(SubscribeKind::StdErr));
    assert_eq!(SubscribeKind::parse("stdin"), None);
}

#[test]
fn build_then_failed_run_keeps_build_log_as_child() {
    let mut d = DockerfileActions { image_version: 0 };
    let mut run = ChainRun::new(d.start("/w", &demo()).unwrap());
    let first = run.next_step().unwrap();
    assert_eq!(first.tag.as_deref(), Some("build_step"));
    run.record_exit(Some(0), "built\n".to_string(), String::new());
    let second = run.next_step().unwrap();
    assert_eq!(second.command.args[0], "run");
    run.record_exit(Some(125), String::new(), "no such image\n".to_string());
    assert!(run.next_step().is_none());
    let log = run.finish().unwrap();
    assert_eq!(log.status, 125);
    assert_eq!(log.tag, None);
    assert_eq!(log.stderr, "no such image\n");
    let child = log.child.unwrap();
    assert_eq!(child.status, 0);
    assert_eq!(child.tag.as_deref(), Some("build_step"));
    assert_eq!(child.stdout, "built\n");
    assert!(child.child.is_none());
}

#[test]
fn failed_build_stops_the_chain() {
    let mut d = DockerfileActions { image_version: 0 };
    let mut run = ChainRun::new(d.start("/w", &demo()).unwrap());
    run.record_exit(Some(1), String::new(), "build failed\n".to_string());
    assert!(run.next_step().is_none());
    let log = run.finish().unwrap();
    assert_eq!(log.status, 1);
    assert_eq!(log.tag.as_deref(), Some("build_step"));
    assert!(log.child.is_none());
}

#[test]
fn spawn_failure_leaves_no_log() {
    let mut d = DockerfileActions { image_version: 0 };
    let mut run = ChainRun::new(d.start("/w", &demo()).unwrap());
    run.record_failure();
    assert!(run.next_step().is_none());
    assert!(run.finish().is_none());
}

#[test]
fn custom_echo_hello_scenario() {
    let c = CustomActions {
        start: "echo hello".to_string(),
        stop: String::new(),
        restart: String::new(),
    };
    let mut run = ChainRun::new(c.start("/w", &demo()));
    let step = run.next_step().unwrap();
    assert_eq!(step.script.as_ref().unwrap().body, "echo hello");
    let mut out = StreamCollector::new();
    out.push_line("hello");
    run.record_exit(Some(0), out.into_text(), String::new());
    let log = run.finish().unwrap();
    assert_eq!(log.status, 0);
    assert!(log.stdout.contains("hello\n"));
    assert_eq!(log.project.name, "demo");
}

#[test]
fn iolog_set_child() {
    let inner = IoLog::new(0, demo(), Some("build_step".to_string()), "a".to_string(), String::new());
    let outer = IoLog::new(2, demo(), None, String::new(), "b".to_string()).set_child(Box::new(inner));
    assert_eq!(outer.status, 2);
    assert_eq!(outer.child.as_ref().unwrap().stdout, "a");
}

#[test]
fn insert_of_live_id_is_refused() {
    let mut live: LiveRegistry<u32> = LiveRegistry::new();
    let id = ExecutionId { value: 7 };
    assert!(live.insert(id, 1, demo()));
    assert!(!live.insert(id, 2, demo()));
    assert_eq!(*live.lookup(id).unwrap().0, 1);
    assert_eq!(live.list().len(), 1);
}
