use playbook_runner::context::{empty_context, overlaid, set_var};
use playbook_runner::executor::{Action, Event, ExecError, Stage, TaskRun, SSH_PORT};
use playbook_runner::playbook::{GlobalConfig, Host, HostConfig, Include, Playbook};
use playbook_runner::task::{tags_allow, Task, TaskKind, TaskResult};
use playbook_runner::worker::{host_runs, HostRun};

fn host(address: &str) -> Host {
    Host { address: address.to_string(), user: None, key: None }
}

fn global() -> GlobalConfig {
    GlobalConfig { user: "deploy".to_string(), key: "/keys/id".to_string() }
}

fn shell(name: &str, command: &str) -> TaskKind {
    TaskKind::Shell { name: name.to_string(), command: command.to_string(), result: String::new() }
}

fn tags(list: &[&str]) -> Option<Vec<String>> {
    Some(list.iter().map(|t| t.to_string()).collect())
}

fn inventory(addresses: &[&str]) -> HostConfig {
    HostConfig { global_config: global(), hosts: addresses.iter().map(|a| host(a)).collect() }
}

fn playbook(hosts: &[&str], tasks: Vec<Task>) -> Playbook {
    Playbook::new(None, None, hosts.iter().map(|h| h.to_string()).collect(), None, tasks)
}

fn var(ctx: &tera::Context, name: &str) -> Option<String> {
    ctx.get(name).and_then(|v| v.as_str()).map(|s| s.to_string())
}

/// Drives a run through connection and agent authentication.
fn authenticated(run: &mut TaskRun) -> Action {
    assert!(matches!(run.step(Event::Begin), Action::Connect { .. }));
    assert!(matches!(run.step(Event::Connected), Action::AgentAuth { .. }));
    run.step(Event::AuthChecked(true))
}

#[test]
fn register_values() {
    let h = host("a");
    assert_eq!(TaskResult::Changed(h.clone(), shell("s", "c")).register_value(), "changed");
    assert_eq!(TaskResult::Unchanged(h.clone(), shell("s", "c")).register_value(), "unchanged");
    assert_eq!(TaskResult::Failed(h, shell("s", "c")).register_value(), "failed");
}

#[test]
fn log_lines() {
    let h = host("web1");
    let kind = shell("say hi", "echo hi");
    assert_eq!(kind.start_line(&h), "say hi: web1 - START");
    assert_eq!(TaskResult::Changed(h.clone(), kind.clone()).summary_line(), "say hi: web1 - CHANGED");
    assert_eq!(TaskResult::Unchanged(h.clone(), kind.clone()).summary_line(), "say hi: web1 - UNCHANGED");
    assert_eq!(TaskResult::Failed(h, kind).summary_line(), "say hi: web1 - FAILED");
}

#[test]
fn no_filter_runs_every_task() {
    assert!(tags_allow(&None, &None));
    assert!(tags_allow(&tags(&["x"]), &None));
}

#[test]
fn untagged_task_skipped_under_filter() {
    assert!(!tags_allow(&None, &tags(&["deploy"])));
    assert!(!tags_allow(&tags(&[]), &tags(&["deploy"])));
}

#[test]
fn tags_without_overlap_skipped() {
    assert!(!tags_allow(&tags(&["prod", "db"]), &tags(&["deploy"])));
    assert!(tags_allow(&tags(&["prod", "deploy"]), &tags(&["deploy"])));
}

#[test]
fn only_tagged_task_runs_under_filter() {
    let tagged = Task::new(shell("first", "true"), tags(&["deploy", "prod"]), None, None);
    let untagged = Task::new(shell("second", "true"), None, None, None);
    let mut run = HostRun::new(host("a"), vec![tagged, untagged], tags(&["deploy"]));
    assert_eq!(run.next_task(), Some(0));
    assert_eq!(run.next_task(), None);
}

#[test]
fn matching_hosts_follow_the_playbook() {
    let inv = inventory(&["a", "b", "c"]);
    let p = playbook(&["c", "a", "z"], vec![]);
    let found: Vec<String> = p.matching_hosts(&inv).into_iter().map(|h| h.address).collect();
    assert_eq!(found, vec!["a".to_string(), "c".to_string()]);
}

#[test]
fn unlisted_host_gets_no_work() {
    let inv = inventory(&["web1", "db1"]);
    let p = playbook(&["web1"], vec![Task::new(shell("s", "c"), None, None, None)]);
    assert!(p.matching_hosts(&inv).iter().all(|h| h.address != "db1"));
}

#[test]
fn included_playbook_uses_its_own_hosts() {
    let inv = inventory(&["web1", "db1"]);
    let inner = playbook(&["db1"], vec![Task::new(shell("s", "c"), None, None, None)]);
    let outer = Playbook::new(
        Some("outer".to_string()),
        Some(vec![Include { file: "inner.yml".to_string(), tags: None, when: None }]),
        vec!["web1".to_string()],
        None,
        vec![],
    );
    assert_eq!(outer.include_files(), vec!["inner.yml".to_string()]);
    let found: Vec<String> = inner.matching_hosts(&inv).into_iter().map(|h| h.address).collect();
    assert_eq!(found, vec!["db1".to_string()]);
}

#[test]
fn shell_scenario_captures_output() {
    let inv = inventory(&["web1"]);
    let p = playbook(&["web1"], vec![Task::new(shell("greet", "echo hi"), None, None, None)]);
    let hosts = p.matching_hosts(&inv);
    assert_eq!(hosts.len(), 1);
    let mut worker = HostRun::new(hosts[0].clone(), p.tasks().clone(), None);
    let i = worker.next_task().unwrap();
    let mut run = worker.start(i, &inv.global_config, None);
    match run.step(Event::Begin) {
        Action::Connect { address, port } => {
            assert_eq!(address, "web1");
            assert_eq!(port, SSH_PORT);
            assert_eq!(port, 22);
        }
        _ => panic!("expected a connect"),
    }
    match run.step(Event::Connected) {
        Action::AgentAuth { user } => assert_eq!(user, "deploy"),
        _ => panic!("expected agent authentication"),
    }
    match run.step(Event::AuthChecked(true)) {
        Action::RunCommand { command } => assert_eq!(command, "echo hi"),
        _ => panic!("expected a command"),
    }
    match run.step(Event::Output("hi\n".to_string())) {
        Action::Finish(TaskResult::Changed(h, TaskKind::Shell { result, .. })) => {
            assert_eq!(h.address, "web1");
            assert_eq!(result, "hi\n");
        }
        _ => panic!("expected a changed result"),
    }
    assert!(run.stage() == Stage::Done);
    assert_eq!(worker.next_task(), None);
}

#[test]
fn key_file_after_agent_fails() {
    let h = Host { address: "a".to_string(), user: Some("ops".to_string()), key: Some("/k".to_string()) };
    let mut run = TaskRun::new(shell("s", "c"), &h, &empty_context(), &global(), None);
    run.step(Event::Begin);
    match run.step(Event::Connected) {
        Action::AgentAuth { user } => assert_eq!(user, "ops"),
        _ => panic!("expected agent authentication"),
    }
    match run.step(Event::AuthChecked(false)) {
        Action::KeyAuth { user, key } => {
            assert_eq!(user, "ops");
            assert_eq!(key, "/k");
        }
        _ => panic!("expected key authentication"),
    }
    assert!(matches!(run.step(Event::AuthChecked(true)), Action::RunCommand { .. }));
}

#[test]
fn both_authentications_fail() {
    let mut run = TaskRun::new(shell("s", "c"), &host("a"), &empty_context(), &global(), None);
    run.step(Event::Begin);
    run.step(Event::Connected);
    match run.step(Event::AuthChecked(false)) {
        Action::KeyAuth { user, key } => {
            assert_eq!(user, "deploy");
            assert_eq!(key, "/keys/id");
        }
        _ => panic!("expected key authentication"),
    }
    assert!(matches!(run.step(Event::AuthChecked(false)), Action::Abort(ExecError::Auth)));
}

#[test]
fn transport_failure_aborts() {
    let mut run = TaskRun::new(shell("s", "c"), &host("a"), &empty_context(), &global(), None);
    run.step(Event::Begin);
    match run.step(Event::Failed("refused".to_string())) {
        Action::Abort(ExecError::Transport(m)) => assert_eq!(m, "refused"),
        _ => panic!("expected a transport error"),
    }
    assert!(matches!(run.step(Event::Connected), Action::Abort(ExecError::Unexpected)));
}

#[test]
fn unexpected_event_aborts() {
    let mut run = TaskRun::new(shell("s", "c"), &host("a"), &empty_context(), &global(), None);
    assert!(matches!(run.step(Event::Written), Action::Abort(ExecError::Unexpected)));
    assert!(run.stage() == Stage::Done);
}

#[test]
fn local_copy_writes_the_bytes_read() {
    let kind = TaskKind::Copy {
        name: "cp".to_string(),
        src: "files/app.conf".to_string(),
        dest: "/etc/app.conf".to_string(),
        remote_src: None,
        result: String::new(),
    };
    let mut run = TaskRun::new(kind, &host("a"), &empty_context(), &global(), None);
    match authenticated(&mut run) {
        Action::ReadLocalBytes { path } => assert_eq!(path, "files/app.conf"),
        _ => panic!("expected a local read"),
    }
    let bytes = vec![0u8, 1, 2, 255, 10];
    match run.step(Event::Bytes(bytes.clone())) {
        Action::WriteRemoteBytes { path, contents } => {
            assert_eq!(path, "/etc/app.conf");
            assert_eq!(contents, bytes);
        }
        _ => panic!("expected a remote write"),
    }
    assert!(matches!(run.step(Event::Written), Action::Finish(TaskResult::Changed(..))));
}

#[test]
fn remote_copy_reads_remote_source() {
    let kind = TaskKind::Copy {
        name: "cp".to_string(),
        src: "/a".to_string(),
        dest: "/b".to_string(),
        remote_src: Some(true),
        result: String::new(),
    };
    let mut run = TaskRun::new(kind, &host("a"), &empty_context(), &global(), None);
    match authenticated(&mut run) {
        Action::ReadRemoteBytes { path } => assert_eq!(path, "/a"),
        _ => panic!("expected a remote read"),
    }
}

fn search_replace(search: &str, replace: &str) -> TaskKind {
    TaskKind::SearchReplace {
        name: "sr".to_string(),
        path: "/etc/motd".to_string(),
        search: search.to_string(),
        replace: replace.to_string(),
        result: String::new(),
    }
}

/// Runs a search and replace over `text`; returns what was written and the result.
fn run_search_replace(kind: TaskKind, text: &str) -> (String, TaskResult) {
    let mut run = TaskRun::new(kind, &host("a"), &empty_context(), &global(), None);
    match authenticated(&mut run) {
        Action::ReadRemoteText { path } => assert_eq!(path, "/etc/motd"),
        _ => panic!("expected a remote read"),
    }
    let written = match run.step(Event::Text(text.to_string())) {
        Action::WriteRemoteText { path, contents } => {
            assert_eq!(path, "/etc/motd");
            contents
        }
        _ => panic!("expected a remote write"),
    };
    match run.step(Event::Written) {
        Action::Finish(r) => (written, r),
        _ => panic!("expected a result"),
    }
}

#[test]
fn search_replace_changes_then_settles() {
    let (first, r1) = run_search_replace(search_replace("wor(ld)", "there"), "hello world, world");
    assert_eq!(first, "hello there, there");
    assert!(matches!(r1, TaskResult::Changed(..)));
    let (second, r2) = run_search_replace(search_replace("wor(ld)", "there"), &first);
    assert_eq!(second, first);
    assert!(matches!(r2, TaskResult::Unchanged(..)));
}

#[test]
fn search_replace_expands_groups() {
    let (out, _) = run_search_replace(search_replace("(\\w+)@(\\w+)", "$2 at $1"), "me@home");
    assert_eq!(out, "home at me");
}

#[test]
fn bad_pattern_aborts() {
    let mut run = TaskRun::new(search_replace("(unclosed", "x"), &host("a"), &empty_context(), &global(), None);
    authenticated(&mut run);
    assert!(matches!(run.step(Event::Text("text".to_string())), Action::Abort(ExecError::Pattern(_))));
}

fn template(variables: Vec<(String, String)>) -> TaskKind {
    TaskKind::Template {
        name: "tpl".to_string(),
        src: "motd.tera".to_string(),
        dest: "/etc/motd".to_string(),
        variables,
        result: String::new(),
    }
}

#[test]
fn template_renders_over_host_and_task_variables() {
    let mut ctx = empty_context();
    set_var(&mut ctx, "setup", "changed");
    set_var(&mut ctx, "who", "host");
    let kind = template(vec![("who".to_string(), "task".to_string())]);
    let mut run = TaskRun::new(kind, &host("a"), &ctx, &global(), None);
    match authenticated(&mut run) {
        Action::ReadLocalText { path } => assert_eq!(path, "motd.tera"),
        _ => panic!("expected a local read"),
    }
    match run.step(Event::Text("{{ who }}/{{ setup }}".to_string())) {
        Action::WriteRemoteText { path, contents } => {
            assert_eq!(path, "/etc/motd");
            assert_eq!(contents, "task/changed");
        }
        _ => panic!("expected a remote write"),
    }
    assert_eq!(var(&ctx, "who"), Some("host".to_string()));
}

#[test]
fn bad_template_aborts() {
    let mut run = TaskRun::new(template(vec![]), &host("a"), &empty_context(), &global(), None);
    authenticated(&mut run);
    assert!(matches!(run.step(Event::Text("{{ unclosed".to_string())), Action::Abort(ExecError::Render(_))));
}

#[test]
fn overlay_sets_pairs_in_order() {
    let mut base = empty_context();
    set_var(&mut base, "a", "1");
    let pairs = vec![("b".to_string(), "2".to_string()), ("a".to_string(), "3".to_string())];
    let top = overlaid(&base, &pairs);
    assert_eq!(var(&top, "a"), Some("3".to_string()));
    assert_eq!(var(&top, "b"), Some("2".to_string()));
    assert_eq!(var(&base, "a"), Some("1".to_string()));
    assert_eq!(var(&base, "b"), None);
}

#[test]
fn register_is_visible_to_later_tasks() {
    let first = Task::new(shell("one", "true"), None, Some("setup".to_string()), None);
    let second = Task::new(shell("two", "true"), None, Some("other".to_string()), None);
    let mut worker = HostRun::new(host("a"), vec![first, second], None);
    let i = worker.next_task().unwrap();
    worker.record(i, &TaskResult::Unchanged(host("a"), shell("one", "true")));
    assert_eq!(var(worker.vars(), "setup"), Some("unchanged".to_string()));
    let j = worker.next_task().unwrap();
    assert_eq!(j, 1);
    worker.record(j, &TaskResult::Changed(host("a"), shell("two", "true")));
    assert_eq!(var(worker.vars(), "setup"), Some("unchanged".to_string()));
    assert_eq!(var(worker.vars(), "other"), Some("changed".to_string()));
}

#[test]
fn failure_registers_and_stops_the_host() {
    let first = Task::new(shell("one", "false"), None, Some("step".to_string()), None);
    let second = Task::new(shell("two", "true"), None, None, None);
    let mut worker = HostRun::new(host("a"), vec![first, second], None);
    let i = worker.next_task().unwrap();
    let r = worker.fail(i);
    assert!(matches!(r, TaskResult::Failed(..)));
    assert_eq!(r.summary_line(), "one: a - FAILED");
    assert_eq!(var(worker.vars(), "step"), Some("failed".to_string()));
    assert_eq!(worker.next_task(), None);
}

#[test]
fn task_getters() {
    let mut t = Task::new(shell("one", "ls"), tags(&["x"]), Some("k".to_string()), Some("c".to_string()));
    assert_eq!(t.tags(), Some(&vec!["x".to_string()]));
    assert_eq!(t.register(), Some(&"k".to_string()));
    assert!(t.when(&empty_context()));
    assert_eq!(t.kind().name(), "one");
}

#[test]
fn includes_load_in_order() {
    let p = Playbook::new(
        None,
        Some(vec![
            Include { file: "a.yml".to_string(), tags: None, when: None },
            Include { file: "b.yml".to_string(), tags: tags(&["x"]), when: Some("never".to_string()) },
        ]),
        vec![],
        None,
        vec![],
    );
    let chain = vec!["main.yml".to_string()];
    assert_eq!(p.includes_to_load(&chain), Ok(vec!["a.yml".to_string(), "b.yml".to_string()]));
    assert_eq!(p.include_files(), vec!["a.yml".to_string(), "b.yml".to_string()]);
}

#[test]
fn include_cycle_is_refused() {
    let p = Playbook::new(
        None,
        Some(vec![
            Include { file: "a.yml".to_string(), tags: None, when: None },
            Include { file: "main.yml".to_string(), tags: None, when: None },
        ]),
        vec![],
        None,
        vec![],
    );
    let chain = vec!["main.yml".to_string(), "other.yml".to_string()];
    assert_eq!(p.includes_to_load(&chain), Err("main.yml".to_string()));
}

#[test]
fn playbook_without_includes() {
    let p = playbook(&["a"], vec![]);
    assert_eq!(p.includes_to_load(&vec![]), Ok(vec![]));
    assert_eq!(p.hosts(), &vec!["a".to_string()]);
    assert!(p.name().is_none());
    assert!(p.local_config().is_none());
    assert!(p.included().is_none());
}

#[test]
fn one_run_per_matching_host() {
    let inv = inventory(&["a", "b", "c"]);
    let t1 = Task::new(shell("one", "true"), tags(&["web"]), None, None);
    let t2 = Task::new(shell("two", "true"), None, None, None);
    let p = playbook(&["a", "c"], vec![t1, t2]);
    let mut runs = host_runs(&p, &inv, &tags(&["web"]));
    let hosts: Vec<String> = runs.iter().map(|r| r.host().address.clone()).collect();
    assert_eq!(hosts, vec!["a".to_string(), "c".to_string()]);
    for run in runs.iter_mut() {
        assert_eq!(run.task(1).kind_ref().name(), "two");
        assert_eq!(run.next_task(), Some(0));
        assert_eq!(run.next_task(), None);
        assert_eq!(var(run.vars(), "anything"), None);
    }
}

#[test]
fn host_runs_for_two_hosts_keep_their_own_lines() {
    let inv = inventory(&["a", "b"]);
    let p = playbook(&["a", "b"], vec![Task::new(shell("nap", "sleep 1"), None, None, None)]);
    let runs = host_runs(&p, &inv, &None);
    assert_eq!(runs.len(), 2);
    let kind = runs[0].task(0).kind_ref();
    assert_eq!(kind.start_line(runs[0].host()), "nap: a - START");
    assert_eq!(kind.start_line(runs[1].host()), "nap: b - START");
    let done = TaskResult::Changed(runs[1].host().clone(), kind.clone());
    assert_eq!(done.summary_line(), "nap: b - CHANGED");
}

#[test]
fn rendered_text_goes_to_destination() {
    let mut ctx = empty_context();
    set_var(&mut ctx, "env", "prod");
    let kind = template(vec![("port".to_string(), "80".to_string())]);
    let mut run = TaskRun::new(kind, &host("a"), &ctx, &global(), None);
    authenticated(&mut run);
    let vars = run.render_vars();
    assert_eq!(var(&vars, "env"), Some("prod".to_string()));
    assert_eq!(var(&vars, "port"), Some("80".to_string()));
    match run.finish_render(Ok("listen 80".to_string())) {
        Action::WriteRemoteText { path, contents } => {
            assert_eq!(path, "/etc/motd");
            assert_eq!(contents, "listen 80");
        }
        _ => panic!("expected a remote write"),
    }
    assert!(run.stage() == Stage::AwaitWrite(true));
    assert!(matches!(run.step(Event::Written), Action::Finish(TaskResult::Changed(..))));
}
