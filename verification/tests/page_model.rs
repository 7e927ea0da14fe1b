use console_bridge::page::{ConsoleLevel, JsValue, PageState, SearchResult, SetupOutcome};
use console_bridge::page::{EvalResult, JavaScriptError};

fn ts(s: &str) -> String {
    s.to_string()
}

#[test]
fn setup_installs_once_and_logs_init_line() {
    let mut page = PageState::new();
    let outcome = page.install_capture("1700000000000".to_string(), ts("t0"));
    match outcome {
        SetupOutcome::Complete { session_id, capture_method } => {
            assert_eq!(session_id, "1700000000000");
            assert_eq!(capture_method, "events");
        }
        SetupOutcome::AlreadySetup => panic!("fresh page reported already_setup"),
    }
    assert!(page.capture_installed);
    assert_eq!(page.session_id.as_deref(), Some("1700000000000"));
    assert_eq!(page.console_buffer.len(), 1);
    assert_eq!(page.mcp_messages.len(), 1);
    let entry = &page.console_buffer[0];
    assert_eq!(entry.level, "log");
    assert_eq!(entry.message, "Event-based console capture system initialized");
    assert_eq!(entry.timestamp, "t0");
    assert_eq!(entry.session_id, "1700000000000");
}

#[test]
fn setup_twice_reports_already_setup_and_changes_nothing() {
    let mut page = PageState::new();
    page.install_capture("111".to_string(), ts("t0"));
    let before_len = page.console_buffer.len();
    let second = page.install_capture("222".to_string(), ts("t1"));
    assert!(matches!(second, SetupOutcome::AlreadySetup));
    // Exactly one session id is ever recorded before a reload.
    assert_eq!(page.session_id.as_deref(), Some("111"));
    assert_eq!(page.console_buffer.len(), before_len);
    for e in &page.console_buffer {
        assert_eq!(e.session_id, "111");
    }
}

#[test]
fn console_calls_mirror_into_both_buffers() {
    let mut page = PageState::new();
    page.install_capture("9".to_string(), ts("t0"));
    let levels = [
        ConsoleLevel::Log,
        ConsoleLevel::Error,
        ConsoleLevel::Warn,
        ConsoleLevel::Info,
        ConsoleLevel::Debug,
    ];
    let names = ["log", "error", "warn", "info", "debug"];
    for (i, level) in levels.iter().enumerate() {
        page.console_call(
            *level,
            vec![JsValue::Text(format!("message {}", i))],
            ts("t1"),
        );
    }
    assert_eq!(page.console_buffer.len(), page.mcp_messages.len());
    for (a, b) in page.console_buffer.iter().zip(page.mcp_messages.iter()) {
        assert_eq!(a.level, b.level);
        assert_eq!(a.message, b.message);
        assert_eq!(a.timestamp, b.timestamp);
        assert_eq!(a.session_id, b.session_id);
    }
    for (i, name) in names.iter().enumerate() {
        assert_eq!(page.console_buffer[i + 1].level, *name);
        assert_eq!(page.console_buffer[i + 1].message, format!("message {}", i));
    }
}

#[test]
fn arguments_are_rendered_and_joined_with_single_spaces() {
    let mut page = PageState::new();
    page.install_capture("9".to_string(), ts("t0"));
    page.console_call(
        ConsoleLevel::Log,
        vec![
            JsValue::ObjectJson("{\"a\":1}".to_string()),
            JsValue::Text("plain".to_string()),
            JsValue::Number(7),
            JsValue::Number(-3),
            JsValue::Boolean(true),
            JsValue::Boolean(false),
            JsValue::Null,
            JsValue::Undefined,
        ],
        ts("t1"),
    );
    let entry = page.console_buffer.last().unwrap();
    assert_eq!(entry.message, "{\"a\":1} plain 7 -3 true false null undefined");
}

#[test]
fn empty_and_single_argument_messages() {
    let mut page = PageState::new();
    page.install_capture("9".to_string(), ts("t0"));
    page.console_call(ConsoleLevel::Info, vec![], ts("t1"));
    assert_eq!(page.console_buffer.last().unwrap().message, "");
    page.console_call(ConsoleLevel::Info, vec![JsValue::Text("only".to_string())], ts("t2"));
    assert_eq!(page.console_buffer.last().unwrap().message, "only");
}

#[test]
fn uncaught_error_records_one_full_entry() {
    let mut page = PageState::new();
    page.install_capture("5".to_string(), ts("t0"));
    page.uncaught_error(
        "boom".to_string(),
        "app.js".to_string(),
        12,
        3,
        Some("stack trace".to_string()),
        ts("t1"),
    );
    assert_eq!(page.js_errors.len(), 1);
    let e: &JavaScriptError = &page.js_errors[0];
    assert_eq!(e.message, "boom");
    assert_eq!(e.filename.as_deref(), Some("app.js"));
    assert_eq!(e.lineno, Some(12));
    assert_eq!(e.colno, Some(3));
    assert_eq!(e.stack.as_deref(), Some("stack trace"));
    assert_eq!(e.session_id, "5");
}

#[test]
fn unhandled_rejection_records_one_bare_entry() {
    let mut page = PageState::new();
    page.install_capture("5".to_string(), ts("t0"));
    page.unhandled_rejection("oops".to_string(), None, ts("t1"));
    assert_eq!(page.js_errors.len(), 1);
    let e = &page.js_errors[0];
    assert_eq!(e.message, "Unhandled Promise Rejection: oops");
    assert!(e.message.starts_with("Unhandled Promise Rejection: "));
    assert!(e.filename.is_none());
    assert!(e.lineno.is_none());
    assert!(e.colno.is_none());
}

#[test]
fn correlation_round_trip_finds_tagged_payload() {
    let mut page = PageState::new();
    page.install_capture("7".to_string(), ts("t0"));
    page.console_call(ConsoleLevel::Log, vec![JsValue::Text("noise: other".to_string())], ts("t1"));
    let key = "mcp_result_1700000000123".to_string();
    let payload = "{\"success\":true,\"value\":2,\"type\":\"number\"}".to_string();
    page.run_tag_phase(&key, true, payload.clone(), ts("t2"));
    page.run_search_phase(&key, ts("t3"));
    match page.last_search_result.as_ref().unwrap() {
        SearchResult::Found { data, timestamp } => {
            assert_eq!(data, &payload);
            assert_eq!(timestamp, "t3");
        }
        SearchResult::NotFound { .. } => panic!("tagged message not found"),
    }
}

#[test]
fn correlation_error_tag_is_found_too() {
    let mut page = PageState::new();
    page.install_capture("7".to_string(), ts("t0"));
    let key = "mcp_result_42".to_string();
    page.run_tag_phase(&key, false, "{\"success\":false}".to_string(), ts("t1"));
    page.run_search_phase(&key, ts("t2"));
    match page.last_search_result.as_ref().unwrap() {
        SearchResult::Found { data, .. } => assert_eq!(data, "{\"success\":false}"),
        SearchResult::NotFound { .. } => panic!("error-tagged message not found"),
    }
}

#[test]
fn search_without_tagged_entry_reports_not_found() {
    let mut page = PageState::new();
    page.install_capture("7".to_string(), ts("t0"));
    page.console_call(ConsoleLevel::Log, vec![JsValue::Text("plain line".to_string())], ts("t1"));
    page.run_search_phase(&"mcp_result_999".to_string(), ts("t2"));
    match page.last_search_result.as_ref().unwrap() {
        SearchResult::NotFound { error, timestamp } => {
            assert_eq!(error, "Message not found in buffer");
            assert_eq!(timestamp, "t2");
        }
        SearchResult::Found { .. } => panic!("found a tag that was never logged"),
    }
}

#[test]
fn search_takes_the_most_recent_tagged_entry() {
    let mut page = PageState::new();
    page.install_capture("7".to_string(), ts("t0"));
    let key = "mcp_result_5".to_string();
    page.run_tag_phase(&key, true, "first".to_string(), ts("t1"));
    page.run_tag_phase(&key, true, "second".to_string(), ts("t2"));
    page.run_search_phase(&key, ts("t3"));
    match page.last_search_result.as_ref().unwrap() {
        SearchResult::Found { data, .. } => assert_eq!(data, "second"),
        SearchResult::NotFound { .. } => panic!("tagged message not found"),
    }
}

#[test]
fn wrapped_eval_success_fills_the_result_slot() {
    let mut page = PageState::new();
    page.record_eval_success(JsValue::Number(2));
    match page.last_result.as_ref().unwrap() {
        EvalResult::Completed { value, value_type, string_value } => {
            assert!(matches!(value, JsValue::Number(2)));
            assert_eq!(value_type, "number");
            assert_eq!(string_value, "2");
        }
        EvalResult::Failed { .. } => panic!("success recorded as failure"),
    }
}

#[test]
fn wrapped_eval_failure_overwrites_the_result_slot() {
    let mut page = PageState::new();
    page.record_eval_success(JsValue::Boolean(true));
    page.record_eval_failure("TypeError: x is not a function".to_string(), Some("st".to_string()));
    match page.last_result.as_ref().unwrap() {
        EvalResult::Failed { error, stack } => {
            assert_eq!(error, "TypeError: x is not a function");
            assert_eq!(stack.as_deref(), Some("st"));
        }
        EvalResult::Completed { .. } => panic!("failure recorded as success"),
    }
}

#[test]
fn buffer_dump_snapshots_buffers_and_counts() {
    let mut page = PageState::new();
    page.install_capture("3".to_string(), ts("t0"));
    page.console_call(ConsoleLevel::Warn, vec![JsValue::Text("w".to_string())], ts("t1"));
    page.unhandled_rejection("r".to_string(), None, ts("t2"));
    page.run_search_phase(&"mcp_result_1".to_string(), ts("t3"));
    page.compile_buffer_data();
    let data = page.buffer_data.as_ref().unwrap();
    assert_eq!(data.buffer_length, 2);
    assert_eq!(data.mcp_length, 2);
    assert_eq!(data.error_count, 1);
    assert_eq!(data.console_buffer.len(), 2);
    assert_eq!(data.mcp_messages.len(), 2);
    assert_eq!(data.js_errors.len(), 1);
    assert!(data.last_search_result.is_some());
    assert_eq!(data.console_buffer[1].message, "w");
}

#[test]
fn clearing_resets_only_the_general_buffer() {
    let mut page = PageState::new();
    page.install_capture("4".to_string(), ts("t0"));
    page.console_call(ConsoleLevel::Log, vec![JsValue::Text("x".to_string())], ts("t1"));
    page.unhandled_rejection("r".to_string(), None, ts("t2"));
    page.clear_console_buffer();
    assert!(page.console_buffer.is_empty());
    assert_eq!(page.mcp_messages.len(), 2);
    assert_eq!(page.js_errors.len(), 1);
    assert_eq!(page.session_id.as_deref(), Some("4"));
}

#[test]
fn console_snapshot_copies_the_general_buffer() {
    let mut page = PageState::new();
    page.install_capture("8".to_string(), ts("t0"));
    page.console_call(ConsoleLevel::Debug, vec![JsValue::Number(1)], ts("t1"));
    let snap = page.console_snapshot();
    assert_eq!(snap.total_count, 2);
    assert_eq!(snap.entries.len(), 2);
    assert_eq!(snap.session_id, "8");
    assert_eq!(snap.entries[1].message, "1");
}
