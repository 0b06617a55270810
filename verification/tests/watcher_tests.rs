use mnemnk_agent::watcher::{
    ApplicationAgent, ApplicationEvent, LoopEvent, WatcherConfig, build_event, event_json,
};

fn mk(name: &str, x: i64) -> ApplicationEvent {
    ApplicationEvent {
        t: 1000,
        name: name.to_string(),
        title: "win".to_string(),
        x,
        y: 2,
        width: 3,
        height: 4,
        text: format!("{} win", name),
    }
}

#[test]
fn watcher_config_takes_present_fields() {
    let c = WatcherConfig::from_json_str("{\"interval\":3,\"ignore\":[\"a\",\"B\"]}");
    assert_eq!(c.interval, 3);
    assert_eq!(c.ignore, vec!["a".to_string(), "B".to_string()]);
}

#[test]
fn watcher_partial_config_keeps_defaults() {
    let c = WatcherConfig::from_json_str("{\"ignore\":[\"a\"]}");
    assert_eq!(c.interval, 10);
    assert_eq!(c.ignore, vec!["a".to_string()]);
    let c = WatcherConfig::from_json_str("{\"interval\":7}");
    assert_eq!(c.interval, 7);
    assert!(c.ignore.is_empty());
}

#[test]
fn watcher_malformed_fields_fall_back() {
    assert_eq!(WatcherConfig::from_json_str("{\"interval\":0}").interval, 10);
    assert_eq!(WatcherConfig::from_json_str("{\"interval\":\"x\"}").interval, 10);
    assert_eq!(WatcherConfig::from_json_str("{\"interval\":2.5}").interval, 10);
    assert!(WatcherConfig::from_json_str("{\"ignore\":[1]}").ignore.is_empty());
    assert!(WatcherConfig::from_json_str("{\"ignore\":\"a\"}").ignore.is_empty());
}

#[test]
fn immediate_repeats_suppressed_nonadjacent_kept() {
    let mut a = ApplicationAgent::new(WatcherConfig::default());
    let r1 = a.execute_task(Some(mk("App", 1)));
    let r2 = a.execute_task(Some(mk("App", 1)));
    let r3 = a.execute_task(Some(mk("App", 2)));
    let r4 = a.execute_task(Some(mk("App", 1)));
    assert!(r1.is_some());
    assert!(r2.is_none());
    assert!(r3.is_some());
    assert!(r4.is_some());
    assert_eq!(r1, r4);
}

#[test]
fn failed_poll_changes_nothing() {
    let mut a = ApplicationAgent::new(WatcherConfig::default());
    assert!(a.execute_task(Some(mk("App", 1))).is_some());
    assert!(a.execute_task(None).is_none());
    assert!(a.execute_task(Some(mk("App", 1))).is_none());
}

#[test]
fn ignored_event_is_dropped_and_never_cached() {
    let cfg = WatcherConfig { interval: 10, ignore: vec!["Foo".to_string()] };
    let mut a = ApplicationAgent::new(cfg);
    assert!(a.execute_task(Some(mk("Foo", 1))).is_none());
    assert!(a.last_event.is_none());
    assert!(a.execute_task(Some(mk("Bar", 1))).is_some());
    assert!(a.execute_task(Some(mk("Foo", 2))).is_none());
    match &a.last_event {
        Some(e) => assert_eq!(e.name, "Bar"),
        None => panic!("cache lost"),
    }
}

#[test]
fn ignore_match_is_case_sensitive_and_exact() {
    let cfg = WatcherConfig { interval: 10, ignore: vec!["Foo".to_string()] };
    let mut a = ApplicationAgent::new(cfg);
    assert!(a.execute_task(Some(mk("foo", 1))).is_some());
    assert!(a.execute_task(Some(mk("Fo", 2))).is_some());
    assert!(a.execute_task(Some(mk("Foo", 3))).is_none());
}

#[test]
fn build_event_drops_empty_name() {
    let r = build_event(5, "".to_string(), "T".to_string(), 1, 2, 3, 4);
    assert!(r.is_none());
}

#[test]
fn build_event_cuts_long_title() {
    let long = "a".repeat(300);
    let e = build_event(5, "App".to_string(), long, 1, 2, 3, 4).unwrap();
    assert_eq!(e.title.chars().count(), 250);
    assert_eq!(e.text, format!("App {}", "a".repeat(250)));
}

#[test]
fn build_event_trims_text() {
    let e = build_event(5, "App".to_string(), "  ".to_string(), 1, 2, 3, 4).unwrap();
    assert_eq!(e.title, "  ");
    assert_eq!(e.text, "App");
}

#[test]
fn event_json_is_exact() {
    let e = ApplicationEvent {
        t: 5,
        name: "N".to_string(),
        title: "T\"x\n".to_string(),
        x: 1,
        y: -2,
        width: 3,
        height: 4,
        text: "N T".to_string(),
    };
    assert_eq!(
        event_json(&e),
        "{\"t\":5,\"name\":\"N\",\"title\":\"T\\\"x\\n\",\"x\":1,\"y\":-2,\"width\":3,\"height\":4,\"text\":\"N T\"}"
    );
}

#[test]
fn emitted_line_uses_single_kind_framing() {
    let mut a = ApplicationAgent::new(WatcherConfig::default());
    let e = mk("App", 1);
    let json = event_json(&e);
    let line = a.execute_task(Some(e)).unwrap();
    assert_eq!(line, format!(".OUT application {}", json));
}

#[test]
fn interval_change_takes_effect_on_next_tick() {
    let mut a = ApplicationAgent::new(WatcherConfig::default());
    assert_eq!(a.timer_period, 10);
    let out = a.step(LoopEvent::Line(".CONFIG {\"interval\":1}".to_string()));
    assert!(!out.quit);
    assert!(out.emit.is_none());
    assert!(out.rearm.is_none());
    assert_eq!(a.config.interval, 1);
    assert_eq!(a.timer_period, 10);
    let out = a.step(LoopEvent::Tick(None));
    assert_eq!(out.rearm, Some(1));
    assert_eq!(a.timer_period, 1);
    let out = a.step(LoopEvent::Tick(None));
    assert!(out.rearm.is_none());
}

#[test]
fn notify_never_rearms() {
    let mut a = ApplicationAgent::new(WatcherConfig::default());
    a.step(LoopEvent::Line(".CONFIG {\"interval\":2}".to_string()));
    let out = a.step(LoopEvent::Notify(Some(mk("App", 1))));
    assert!(out.rearm.is_none());
    assert!(out.emit.is_some());
    assert_eq!(a.timer_period, 10);
}

#[test]
fn quit_line_stops_within_one_iteration() {
    let mut a = ApplicationAgent::new(WatcherConfig::default());
    let out = a.step(LoopEvent::Line(".QUIT\n".to_string()));
    assert!(out.quit);
    assert!(out.emit.is_none());
    let mut b = ApplicationAgent::new(WatcherConfig::default());
    let out = b.step(LoopEvent::Shutdown);
    assert!(out.quit);
}

#[test]
fn unknown_verb_keeps_watcher_running() {
    let mut a = ApplicationAgent::new(WatcherConfig::default());
    let out = a.step(LoopEvent::Line("hello there\n".to_string()));
    assert!(!out.quit);
    assert_eq!(a.config.interval, 10);
}
