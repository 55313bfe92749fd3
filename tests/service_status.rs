use service_status::{
    encode, is_active_state, render_template, unit_path, Action, Config, DriverType, Error, Event,
    Monitor, Operation, Phase, RenderedStatus, State,
};

fn config(service: &str) -> Config {
    Config {
        driver: DriverType::Systemd,
        service: service.to_string(),
        active_format: Some("$service active".to_string()),
        inactive_format: Some("$service inactive".to_string()),
        active_state: None,
        inactive_state: None,
    }
}

/// A monitor that has been connected, given its proxy and subscribed.
fn subscribed(service: &str) -> Monitor {
    let mut m = Monitor::new(&config(service)).unwrap();
    assert!(matches!(m.step(Event::Connected), Action::BuildProxy(_)));
    assert_eq!(m.step(Event::ProxyBuilt), Action::Subscribe);
    assert_eq!(m.step(Event::Subscribed), Action::Query);
    m
}

#[test]
fn encode_cups() {
    assert_eq!(encode("cups"), Ok("cups_2eservice".to_string()));
}

#[test]
fn encode_hyphen() {
    assert_eq!(encode("a-b"), Ok("a_2db_2eservice".to_string()));
}

#[test]
fn encode_template_instance() {
    assert_eq!(encode("getty@tty1"), Ok("getty_40tty1_2eservice".to_string()));
    assert_eq!(encode("A_z9"), Ok("A_5fz9_2eservice".to_string()));
}

#[test]
fn encode_empty_name() {
    assert_eq!(encode(""), Ok("_2eservice".to_string()));
}

#[test]
fn encode_is_deterministic() {
    assert_eq!(encode("systemd-resolved"), encode("systemd-resolved"));
    assert_eq!(
        encode("systemd-resolved"),
        Ok("systemd_2dresolved_2eservice".to_string())
    );
}

#[test]
fn encode_rejects_non_ascii() {
    assert_eq!(encode("café"), Err(Error::NotAscii));
    assert_eq!(unit_path("naïve"), Err(Error::NotAscii));
}

#[test]
fn unit_path_of_cups() {
    assert_eq!(
        unit_path("cups"),
        Ok("/org/freedesktop/systemd1/unit/cups_2eservice".to_string())
    );
}

#[test]
fn new_rejects_non_ascii_before_connecting() {
    assert!(matches!(Monitor::new(&config("cüps")), Err(Error::NotAscii)));
}

#[test]
fn new_starts_connecting() {
    let m = Monitor::new(&config("cups")).unwrap();
    assert_eq!(m.phase(), Phase::Connecting);
    assert_eq!(m.service(), "cups");
    assert_eq!(m.path(), "/org/freedesktop/systemd1/unit/cups_2eservice");
}

#[test]
fn active_state_word() {
    assert!(is_active_state("active"));
    assert!(!is_active_state("inactive"));
    assert!(!is_active_state("activating"));
    assert!(!is_active_state("reloading"));
    assert!(!is_active_state("Active"));
    assert!(!is_active_state("activ"));
    assert!(!is_active_state(""));
}

#[test]
fn render_replaces_placeholder() {
    assert_eq!(render_template("$service active", "cups"), "cups active");
    assert_eq!(render_template(" $service/$service ", "x"), " x/x ");
    assert_eq!(render_template("$services", "cups"), "$services");
    assert_eq!(render_template("$servic", "cups"), "$servic");
    assert_eq!(render_template("no ^icon_tea", "cups"), "no ^icon_tea");
    assert_eq!(render_template("é $service ü", "cups"), "é cups ü");
    assert_eq!(render_template("", "cups"), "");
}

#[test]
fn default_config_and_profiles() {
    let c = Config::default();
    assert_eq!(c.driver, DriverType::Systemd);
    assert_eq!(c.service, "");
    let mut c = config("cups");
    c.active_format = None;
    c.inactive_format = None;
    let m = Monitor::new(&c).unwrap();
    assert_eq!(
        m.status(true),
        RenderedStatus { state: State::Idle, text: " cups active ".to_string() }
    );
    assert_eq!(
        m.status(false),
        RenderedStatus { state: State::Critical, text: " cups inactive ".to_string() }
    );
    c.active_state = Some(State::Good);
    c.inactive_state = Some(State::Warning);
    let m = Monitor::new(&c).unwrap();
    assert_eq!(m.status(true).state, State::Good);
    assert_eq!(m.status(false).state, State::Warning);
}

#[test]
fn end_to_end_cups() {
    let mut m = Monitor::new(&config("cups")).unwrap();
    assert_eq!(
        m.step(Event::Connected),
        Action::BuildProxy("/org/freedesktop/systemd1/unit/cups_2eservice".to_string())
    );
    assert_eq!(m.step(Event::ProxyBuilt), Action::Subscribe);
    assert_eq!(m.step(Event::Subscribed), Action::Query);
    assert_eq!(
        m.step(Event::ActiveState("active".to_string())),
        Action::Publish(RenderedStatus { state: State::Idle, text: "cups active".to_string() })
    );
    assert_eq!(m.step(Event::Published), Action::AwaitChange);
    assert_eq!(m.step(Event::Changed), Action::Query);
    assert_eq!(
        m.step(Event::ActiveState("inactive".to_string())),
        Action::Publish(RenderedStatus {
            state: State::Critical,
            text: "cups inactive".to_string()
        })
    );
    assert_eq!(m.step(Event::Published), Action::AwaitChange);
    assert_eq!(m.phase(), Phase::Waiting);
}

#[test]
fn no_query_before_subscription() {
    let mut m = Monitor::new(&config("cups")).unwrap();
    let mut log: Vec<&str> = Vec::new();
    let events = vec![
        Event::Changed,
        Event::Connected,
        Event::Changed,
        Event::ProxyBuilt,
        Event::ActiveState("active".to_string()),
        Event::Subscribed,
    ];
    for e in events {
        let name = match &e {
            Event::Subscribed => "subscribed",
            _ => "other",
        };
        log.push(name);
        if m.step(e) == Action::Query {
            log.push("query");
        }
    }
    assert_eq!(log, vec!["other", "other", "other", "other", "other", "subscribed", "query"]);
}

#[test]
fn one_query_per_change() {
    let mut m = subscribed("cups");
    let mut actions = Vec::new();
    for _ in 0..3 {
        actions.push(m.step(Event::ActiveState("active".to_string())));
        // a second change before the wait is asked for is not a wait's return
        actions.push(m.step(Event::Changed));
        actions.push(m.step(Event::Published));
        actions.push(m.step(Event::Changed));
        actions.push(m.step(Event::Changed));
    }
    let kinds: Vec<&str> = actions
        .iter()
        .map(|a| match a {
            Action::Query => "query",
            Action::AwaitChange => "wait",
            Action::Publish(_) => "publish",
            Action::Ignore => "ignore",
            _ => "other",
        })
        .collect();
    let one = ["publish", "ignore", "wait", "query", "ignore"];
    let expected: Vec<&str> = one.iter().cycle().take(15).cloned().collect();
    assert_eq!(kinds, expected);
}

#[test]
fn stream_end_fails_at_once() {
    let mut m = subscribed("cups");
    m.step(Event::ActiveState("active".to_string()));
    assert_eq!(m.step(Event::Published), Action::AwaitChange);
    assert_eq!(
        m.step(Event::StreamEnded),
        Action::Fail(Error::Ipc(Operation::Subscription))
    );
    assert_eq!(m.phase(), Phase::Failed(Error::Ipc(Operation::Subscription)));
    assert_eq!(m.step(Event::Changed), Action::Ignore);
    assert_eq!(m.step(Event::Connected), Action::Ignore);
    assert_eq!(m.step(Event::Subscribed), Action::Ignore);
}

#[test]
fn each_failure_is_tagged() {
    let mut m = Monitor::new(&config("cups")).unwrap();
    assert_eq!(m.step(Event::ConnectFailed), Action::Fail(Error::Ipc(Operation::Connect)));

    let mut m = Monitor::new(&config("cups")).unwrap();
    m.step(Event::Connected);
    assert_eq!(m.step(Event::ProxyFailed), Action::Fail(Error::Ipc(Operation::BuildProxy)));

    let mut m = Monitor::new(&config("cups")).unwrap();
    m.step(Event::Connected);
    m.step(Event::ProxyBuilt);
    assert_eq!(m.step(Event::SubscribeFailed), Action::Fail(Error::Ipc(Operation::Subscribe)));

    let mut m = subscribed("cups");
    assert_eq!(m.step(Event::ReadFailed), Action::Fail(Error::Ipc(Operation::ReadState)));
    assert_eq!(m.step(Event::ActiveState("active".to_string())), Action::Ignore);
}
