use chrono::Timelike;
use llm_driver::clock::{hour_at, zone_hour_at, MAX_UNIX_SECS, MIN_UNIX_SECS};
use llm_driver::{
    stream_outcome, CompletionResponse, ContentBlock, InferenceWindowConfig, LlmError, StopReason,
    StreamEvent, TimeWindowedDriver, TokenUsage, WaitAction, WindowWait,
};
use std::sync::atomic::{AtomicUsize, Ordering};
use std::sync::{Arc, RwLock};

fn window(start_hour: u32, end_hour: u32) -> InferenceWindowConfig {
    InferenceWindowConfig {
        enabled: true,
        start_hour,
        end_hour,
        timezone: None,
    }
}

fn zone(name: &str) -> Option<String> {
    Some(name.to_string())
}

fn current_hour() -> u32 {
    chrono::Utc::now().with_timezone(&chrono::Local).hour()
}

fn phase(event: Option<StreamEvent>) -> (String, String) {
    match event {
        Some(StreamEvent::PhaseChange { phase, detail }) => (phase, detail.unwrap()),
        other => panic!("Expected PhaseChange event, got {:?}", other),
    }
}

struct TestDriver {
    call_count: Arc<AtomicUsize>,
}

impl TestDriver {
    fn complete(&self) -> Result<CompletionResponse, LlmError> {
        self.call_count.fetch_add(1, Ordering::SeqCst);
        Ok(CompletionResponse {
            content: vec![ContentBlock::Text {
                text: "done".to_string(),
                provider_metadata: None,
            }],
            stop_reason: StopReason::EndTurn,
            tool_calls: vec![],
            usage: TokenUsage::default(),
        })
    }
}

fn driver(config: InferenceWindowConfig) -> (TimeWindowedDriver<TestDriver>, Arc<AtomicUsize>) {
    let call_count = Arc::new(AtomicUsize::new(0));
    let inner = Arc::new(TestDriver {
        call_count: call_count.clone(),
    });
    let window_config = Arc::new(RwLock::new(config));
    (TimeWindowedDriver::new(inner, window_config), call_count)
}

#[test]
fn test_time_windowed_driver_disabled() {
    let (driver, call_count) = driver(InferenceWindowConfig {
        enabled: false,
        start_hour: 9,
        end_hour: 17,
        timezone: None,
    });

    let mut wait = WindowWait::new(false);
    let config = driver.window_config.read().unwrap().clone();
    let step = wait.step_now(&config);
    assert!(step.event.is_none());
    assert_eq!(step.action, WaitAction::Proceed);

    let response = driver.inner.complete().unwrap();
    assert_eq!(response.text(), "done");
    assert_eq!(call_count.load(Ordering::SeqCst), 1);
}

#[test]
fn test_time_windowed_driver_enabled_in_window() {
    let current_hour = current_hour();
    let (driver, call_count) = driver(window(current_hour, (current_hour + 1) % 24));

    let mut wait = WindowWait::new(false);
    let config = driver.window_config.read().unwrap().clone();
    let step = wait.step_now(&config);
    assert!(step.event.is_none());
    assert_eq!(step.action, WaitAction::Proceed);

    let response = driver.inner.complete().unwrap();
    assert_eq!(response.text(), "done");
    assert_eq!(call_count.load(Ordering::SeqCst), 1);
}

#[test]
fn test_time_windowed_driver_feedback_gated() {
    let current_hour = current_hour();

    // A closed window: it opens in two hours, for one hour.
    let (driver, call_count) = driver(window((current_hour + 2) % 24, (current_hour + 3) % 24));
    let mut wait = WindowWait::new(true);

    // 1. The pause is announced at once.
    let config = driver.window_config.read().unwrap().clone();
    let step = wait.step_now(&config);
    assert!(matches!(step.action, WaitAction::Sleep { secs: 30, .. }));
    let (paused, detail) = phase(step.event);
    assert_eq!(paused, "paused");
    assert!(detail.contains("Inference paused"));
    assert_eq!(call_count.load(Ordering::SeqCst), 0);

    // 2. The window is opened while the request waits.
    {
        let mut guard = driver.window_config.write().unwrap();
        guard.start_hour = current_hour;
        guard.end_hour = (current_hour + 1) % 24;
    }

    // 3. The next poll lets the request through, and says so.
    let config = driver.window_config.read().unwrap().clone();
    let step = wait.step_now(&config);
    assert_eq!(step.action, WaitAction::Proceed);
    let (running, detail) = phase(step.event);
    assert_eq!(running, "running");
    assert!(detail.contains("Resuming request"));

    // 4. Then come the text and the end of the response.
    let (events, outcome) = stream_outcome(driver.inner.complete());
    assert_eq!(events.len(), 2);
    assert!(matches!(&events[0], StreamEvent::TextDelta { text } if text == "done"));
    assert!(matches!(events[1], StreamEvent::ContentComplete { .. }));
    assert_eq!(outcome.unwrap().text(), "done");
    assert_eq!(call_count.load(Ordering::SeqCst), 1);
}

#[test]
fn new_driver_holds_what_it_is_given() {
    let inner = Arc::new(7u8);
    let window_config = Arc::new(RwLock::new(window(1, 2)));
    let driver = TimeWindowedDriver::new(inner.clone(), window_config.clone());
    assert!(Arc::ptr_eq(&driver.inner, &inner));
    assert!(Arc::ptr_eq(&driver.window_config, &window_config));
}

#[test]
fn window_within_a_day() {
    let office = window(9, 17);
    for hour in 0..24 {
        assert_eq!(office.is_allowed_hour(hour), (9..17).contains(&hour));
    }
}

#[test]
fn window_past_midnight() {
    let night = window(22, 6);
    for hour in 0..24 {
        assert_eq!(night.is_allowed_hour(hour), hour >= 22 || hour < 6);
    }
}

#[test]
fn window_opens_at_its_start_hour() {
    for start in 0..24 {
        for end in 0..24 {
            assert!(window(start, end).is_allowed_hour(start));
        }
    }
}

#[test]
fn one_hour_window_holds_one_hour() {
    for start in 0..24 {
        let config = window(start, (start + 1) % 24);
        for hour in 0..24 {
            assert_eq!(config.is_allowed_hour(hour), hour == start);
        }
    }
}

#[test]
fn pause_is_announced_once_and_in_full() {
    let office = window(9, 17);
    let mut wait = WindowWait::new(true);

    let first = wait.step_at_hour(&office, 7);
    assert_eq!(first.action, WaitAction::Sleep { hour: 7, secs: 30 });
    assert_eq!(
        phase(first.event),
        (
            "paused".to_string(),
            "Inference paused: outside allowed hours (9 to 17). Re-opens at 9:00.".to_string()
        )
    );

    let second = wait.step_at_hour(&office, 8);
    assert_eq!(second.action, WaitAction::Sleep { hour: 8, secs: 30 });
    assert!(second.event.is_none());

    let third = wait.step_at_hour(&office, 9);
    assert_eq!(third.action, WaitAction::Proceed);
    assert_eq!(
        phase(third.event),
        (
            "running".to_string(),
            "Inference window opened. Resuming request...".to_string()
        )
    );
}

#[test]
fn open_window_sends_nothing() {
    let mut wait = WindowWait::new(true);
    let step = wait.step_at_hour(&window(9, 17), 16);
    assert_eq!(step.action, WaitAction::Proceed);
    assert!(step.event.is_none());
}

#[test]
fn window_taken_out_of_force_sends_nothing() {
    let mut office = window(9, 17);
    let mut wait = WindowWait::new(true);
    assert!(wait.step_at_hour(&office, 7).event.is_some());
    office.enabled = false;
    let step = wait.step_at_hour(&office, 8);
    assert_eq!(step.action, WaitAction::Proceed);
    assert!(step.event.is_none());
}

#[test]
fn wait_without_listener_is_silent() {
    let office = window(9, 17);
    let mut wait = WindowWait::new(false);
    let first = wait.step_at_hour(&office, 7);
    assert_eq!(first.action, WaitAction::Sleep { hour: 7, secs: 30 });
    assert!(first.event.is_none());
    let second = wait.step_at_hour(&office, 12);
    assert_eq!(second.action, WaitAction::Proceed);
    assert!(second.event.is_none());
}

#[test]
fn hour_in_a_named_zone() {
    // 2024-07-01 12:30:00 UTC
    let summer: i64 = 1_719_837_000;
    assert_eq!(zone_hour_at(&zone("UTC"), summer), Some(12));
    assert_eq!(zone_hour_at(&zone("Europe/Berlin"), summer), Some(14));
    assert_eq!(zone_hour_at(&zone("America/New_York"), summer), Some(8));
    assert_eq!(zone_hour_at(&zone("Asia/Kolkata"), summer), Some(18));
    // 2024-01-01 12:30:00 UTC
    let winter: i64 = 1_704_112_200;
    assert_eq!(zone_hour_at(&zone("Europe/Berlin"), winter), Some(13));
    assert_eq!(hour_at(&zone("Europe/Berlin"), winter), 13);
    // One second before the epoch.
    assert_eq!(zone_hour_at(&zone("UTC"), -1), Some(23));
}

#[test]
fn unknown_zone_falls_back_to_the_machine() {
    let secs: i64 = 1_719_837_000;
    let local = chrono::DateTime::from_timestamp(secs, 0)
        .unwrap()
        .with_timezone(&chrono::Local)
        .hour();
    assert_eq!(zone_hour_at(&zone("Mars/Olympus"), secs), None);
    assert_eq!(zone_hour_at(&zone("europe/berlin"), secs), None);
    assert_eq!(zone_hour_at(&None, secs), None);
    assert_eq!(hour_at(&zone("Mars/Olympus"), secs), local);
    assert_eq!(hour_at(&None, secs), local);
}

#[test]
fn limits_of_the_clock() {
    assert_eq!(
        chrono::DateTime::<chrono::Utc>::MIN_UTC.timestamp(),
        MIN_UNIX_SECS
    );
    assert_eq!(
        chrono::DateTime::<chrono::Utc>::MAX_UTC.timestamp(),
        MAX_UNIX_SECS
    );
    for secs in [MIN_UNIX_SECS, MAX_UNIX_SECS] {
        for name in ["Europe/Berlin", "America/New_York", "Pacific/Kiritimati"] {
            assert!(zone_hour_at(&zone(name), secs).unwrap() < 24);
        }
        assert!(hour_at(&None, secs) < 24);
    }
}

#[test]
fn poll_at_an_instant() {
    // 2024-07-01 12:30:00 UTC, which is 14:30 in Berlin.
    let secs: i64 = 1_719_837_000;
    let mut config = window(14, 15);
    config.timezone = zone("Europe/Berlin");
    assert_eq!(
        WindowWait::new(false).step(&config, secs).action,
        WaitAction::Proceed
    );
    config.timezone = zone("UTC");
    assert_eq!(
        WindowWait::new(false).step(&config, secs).action,
        WaitAction::Sleep { hour: 12, secs: 30 }
    );
    config.enabled = false;
    assert_eq!(
        WindowWait::new(false).step(&config, secs).action,
        WaitAction::Proceed
    );
}

#[test]
fn poll_now_reads_the_clock() {
    let before = chrono::Utc::now().hour();
    let mut config = window(0, 0);
    config.timezone = zone("UTC");
    config.start_hour = 24;
    let action = WindowWait::new(false).step_now(&config).action;
    let after = chrono::Utc::now().hour();
    assert!(matches!(action, WaitAction::Sleep { hour, .. } if hour == before || hour == after));
}

#[test]
fn unknown_zone_is_no_zone() {
    let secs: i64 = 1_719_837_000;
    for start in 0..24 {
        let unnamed = window(start, (start + 5) % 24);
        let mut unknown = unnamed.clone();
        unknown.timezone = zone("Mars/Olympus");
        let mut first = WindowWait::new(true);
        let mut second = WindowWait::new(true);
        for hours in 0..24 {
            let left = first.step(&unknown, secs + hours * 3600);
            let right = second.step(&unnamed, secs + hours * 3600);
            assert_eq!(format!("{:?}", left), format!("{:?}", right));
        }
        assert_eq!(first, second);
    }
}
