use epsilon_templates::config::Config;
use epsilon_templates::parents::parent::Type;
use epsilon_templates::templates::context::build_context;
use epsilon_templates::templates::publisher::{Action, Event, Publisher, State};
use std::io::Read;
use epsilon_templates::templates::resources::{Resources, ResourcesInfo};
use epsilon_templates::templates::template::{Labels, Template};
use epsilon_templates::templates::utils::{
    build_arguments, build_request, decimal, image_name, push_request, remove_request,
};

fn template() -> Template {
    Template {
        name: "srv1".to_string(),
        parent: "base".to_string(),
        t: Some(Type::Server),
        slots: 4,
        resources: Resources {
            minimum: ResourcesInfo { cpu_bits: 0.5f32.to_bits(), ram: 512 },
            maximum: ResourcesInfo { cpu_bits: 2.0f32.to_bits(), ram: 1024 },
        },
        labels: Labels::new(),
        maps: Vec::new(),
        default_map: "lobby".to_string(),
    }
}

fn config() -> Config {
    Config::new("admin", "secret", "localhost:5000", "localhost:8000", None, None, None, None)
}

fn failed_with(publisher: &Publisher, reason: &str) {
    match &publisher.state {
        State::Failed(text) => assert_eq!(text, reason),
        other => panic!("a failure was expected, not {:?}", other),
    }
    assert!(publisher.is_terminal());
    assert_eq!(publisher.action(), Action::Stop);
    assert_eq!(publisher.outcome(), Some(Err(reason.to_string())));
}

fn run(events: Vec<Event>) -> (Publisher, Vec<Action>) {
    let mut publisher = Publisher::new();
    let mut actions = vec![publisher.action()];
    for event in events {
        publisher.step(event);
        actions.push(publisher.action());
    }
    (publisher, actions)
}

#[test]
fn a_clean_run_walks_all_phases() {
    let (publisher, actions) = run(vec![
        Event::ContextReady,
        Event::Started,
        Event::Progress(None),
        Event::Progress(None),
        Event::Finished,
        Event::Started,
        Event::Progress(None),
        Event::Finished,
        Event::Removed(2),
    ]);
    assert!(matches!(publisher.state, State::Cleaned));
    assert_eq!(publisher.outcome(), Some(Ok(())));
    assert_eq!(
        actions,
        vec![
            Action::BuildContext,
            Action::SubmitBuild,
            Action::Poll,
            Action::Poll,
            Action::Poll,
            Action::SubmitPush,
            Action::Poll,
            Action::Poll,
            Action::RemoveImage,
            Action::Stop,
        ]
    );
}

#[test]
fn a_new_publisher_is_idle() {
    let publisher = Publisher::new();
    assert!(matches!(publisher.state, State::Idle));
    assert!(!publisher.is_terminal());
    assert_eq!(publisher.action(), Action::BuildContext);
    assert_eq!(publisher.outcome(), None);
}

#[test]
fn a_build_error_halts_at_the_first_position() {
    let (publisher, actions) = run(vec![
        Event::ContextReady,
        Event::Started,
        Event::Progress(Some("no such base image".to_string())),
        Event::Progress(None),
        Event::Finished,
        Event::Started,
        Event::Finished,
        Event::Removed(1),
    ]);
    failed_with(&publisher, "no such base image");
    assert!(!actions.contains(&Action::SubmitPush));
    assert!(!actions.contains(&Action::RemoveImage));
    assert_eq!(actions[3..].to_vec(), vec![Action::Stop; 6]);
}

#[test]
fn a_build_error_halts_at_a_later_position() {
    let (publisher, actions) = run(vec![
        Event::ContextReady,
        Event::Started,
        Event::Progress(None),
        Event::Progress(None),
        Event::Progress(None),
        Event::Progress(Some("step 4 failed".to_string())),
        Event::Progress(Some("second error".to_string())),
        Event::Finished,
    ]);
    failed_with(&publisher, "step 4 failed");
    assert!(!actions.contains(&Action::SubmitPush));
    assert!(!actions.contains(&Action::RemoveImage));
}

#[test]
fn a_push_error_halts_before_the_removal() {
    let (publisher, actions) = run(vec![
        Event::ContextReady,
        Event::Started,
        Event::Finished,
        Event::Started,
        Event::Progress(Some("unauthorized".to_string())),
        Event::Finished,
        Event::Removed(1),
    ]);
    failed_with(&publisher, "unauthorized");
    assert!(!actions.contains(&Action::RemoveImage));
}

#[test]
fn an_empty_removal_is_a_failure() {
    let (publisher, _) = run(vec![
        Event::ContextReady,
        Event::Started,
        Event::Finished,
        Event::Started,
        Event::Finished,
        Event::Removed(0),
    ]);
    failed_with(&publisher, "Failed to remove image");
}

#[test]
fn a_fault_fails_any_phase() {
    let (publisher, actions) = run(vec![Event::Fault("disk full".to_string()), Event::ContextReady]);
    failed_with(&publisher, "disk full");
    assert_eq!(actions, vec![Action::BuildContext, Action::Stop, Action::Stop]);
    let (publisher, _) = run(vec![
        Event::ContextReady,
        Event::Started,
        Event::Fault("connection reset".to_string()),
    ]);
    failed_with(&publisher, "connection reset");
    let (publisher, _) = run(vec![
        Event::ContextReady,
        Event::Started,
        Event::Finished,
        Event::Started,
        Event::Finished,
        Event::Fault("daemon gone".to_string()),
    ]);
    failed_with(&publisher, "daemon gone");
}

#[test]
fn a_misplaced_event_fails() {
    let (publisher, _) = run(vec![Event::Started]);
    failed_with(&publisher, "Unexpected event");
    let (publisher, _) = run(vec![Event::ContextReady, Event::Removed(1)]);
    failed_with(&publisher, "Unexpected event");
    let (publisher, _) = run(vec![Event::ContextReady, Event::Started, Event::ContextReady]);
    failed_with(&publisher, "Unexpected event");
    let (publisher, _) = run(vec![Event::Progress(None)]);
    failed_with(&publisher, "Unexpected event");
    let (publisher, _) = run(vec![Event::Finished]);
    failed_with(&publisher, "Unexpected event");
}

#[test]
fn a_cleaned_publisher_takes_no_event() {
    let (mut publisher, _) = run(vec![
        Event::ContextReady,
        Event::Started,
        Event::Finished,
        Event::Started,
        Event::Finished,
        Event::Removed(1),
    ]);
    publisher.step(Event::Fault("late".to_string()));
    publisher.step(Event::Progress(Some("late".to_string())));
    assert!(matches!(publisher.state, State::Cleaned));
    assert_eq!(publisher.outcome(), Some(Ok(())));
}

#[test]
fn image_names() {
    assert_eq!(image_name("localhost:5000", "srv1"), "localhost:5000/srv1:latest");
    assert_eq!(image_name("", ""), "/:latest");
}

#[test]
fn decimal_notation() {
    assert_eq!(decimal(0), "0");
    assert_eq!(decimal(7), "7");
    assert_eq!(decimal(10), "10");
    assert_eq!(decimal(512), "512");
    assert_eq!(decimal(1024), "1024");
    assert_eq!(decimal(4294967295), "4294967295");
}

#[test]
fn build_arguments_of_a_template() {
    let arguments = build_arguments(&template(), &config());
    let pairs: Vec<(String, String)> = arguments.into_iter().map(|a| (a.name, a.value)).collect();
    assert_eq!(
        pairs,
        vec![
            ("TEMPLATE_NAME".to_string(), "srv1".to_string()),
            ("DEFAULT_MAP_NAME".to_string(), "lobby".to_string()),
            ("API_HOST".to_string(), "localhost:8000".to_string()),
            ("MINIMUM_RAM".to_string(), "512".to_string()),
            ("MAXIMUM_RAM".to_string(), "1024".to_string()),
        ]
    );
}

#[test]
fn requests_to_the_engines() {
    let build = build_request(&template(), &config());
    assert_eq!(build.dockerfile, "Dockerfile");
    assert_eq!(build.tag, "localhost:5000/srv1:latest");
    assert_eq!(build.build_args.len(), 5);
    assert!(build.remove_intermediate);
    assert!(build.force_remove);
    assert!(build.always_pull);
    let push = push_request(&template(), &config());
    assert_eq!(push.tag, "localhost:5000/srv1:latest");
    assert_eq!(push.username, "admin");
    assert_eq!(push.password, "secret");
    let remove = remove_request(&template(), &config());
    assert_eq!(remove.tag, "localhost:5000/srv1:latest");
    assert!(remove.force);
}

#[test]
fn config_prefers_what_was_given() {
    let config = Config::new(
        "admin",
        "admin",
        "localhost:5000",
        "localhost:8000",
        Some("ci".to_string()),
        None,
        Some("registry.example:443".to_string()),
        None,
    );
    assert_eq!(config.registry_username, "ci");
    assert_eq!(config.registry_password, "admin");
    assert_eq!(config.registry_host, "registry.example:443");
    assert_eq!(config.api_host, "localhost:8000");
}

#[test]
fn config_falls_back_to_the_defaults() {
    let config = config();
    assert_eq!(config.registry_username, "admin");
    assert_eq!(config.registry_password, "secret");
    assert_eq!(config.registry_host, "localhost:5000");
    assert_eq!(config.api_host, "localhost:8000");
}

#[test]
fn the_build_context_holds_the_recipe() {
    let recipe = b"FROM scratch\nARG TEMPLATE_NAME\n".to_vec();
    let bytes = build_context("Dockerfile", &recipe).unwrap();
    let mut archive = tar::Archive::new(std::io::Cursor::new(bytes));
    let mut found = Vec::new();
    for entry in archive.entries().unwrap() {
        let mut entry = entry.unwrap();
        let path = entry.path().unwrap().to_string_lossy().into_owned();
        let mode = entry.header().mode().unwrap();
        let mut content = Vec::new();
        entry.read_to_end(&mut content).unwrap();
        found.push((path, mode, content));
    }
    assert_eq!(found, vec![("Dockerfile".to_string(), 0o644, recipe)]);
}

#[test]
fn the_build_context_of_an_empty_recipe() {
    let bytes = build_context("Dockerfile", &Vec::new()).unwrap();
    assert_eq!(bytes.len(), 512 + 1024);
    assert_eq!(bytes, build_context("Dockerfile", &Vec::new()).unwrap());
}

#[test]
fn the_build_context_refuses_a_name_that_leaves_the_context() {
    assert!(build_context("../Dockerfile", &vec![1]).is_err());
    assert!(build_context("", &vec![1]).is_err());
}
