use console_bridge::dispatch::{
    buffer_eval_failure, buffer_success_response, check_window, direct_eval_response,
    execute_after_setup, execute_eval_failure, execute_success_response, fetch_eval_failure,
    invalid_request_error, js_result_success_response, plan_direct_eval,
    plan_execute_with_console, plan_get_console_buffer, plan_get_js_result,
    plan_setup_console_capture, retrieve_eval_failure, search_eval_failure, setup_eval_failure,
    setup_success_response, window_not_found_message, BridgeError, ConsoleOutputRequest,
    DirectEvalRequest, ExecuteWithConsoleRequest, GetConsoleBufferRequest, GetJsResultRequest,
    ResponseData,
};
use console_bridge::script::{
    BUFFER_SCRIPT, CAPTURE_SCRIPT, FETCH_SCRIPT, RETRIEVE_LATE, RETRIEVE_MID, RETRIEVE_POST,
    RETRIEVE_PRE, SEARCH_MID, SEARCH_POST, SEARCH_PRE,
};

#[test]
fn setup_plan_defaults_the_window_label() {
    let plan = plan_setup_console_capture(Ok(ConsoleOutputRequest {
        window_label: None,
        session_id: None,
        timeout_ms: None,
    }))
    .unwrap();
    assert_eq!(plan.window_label, "main");
    assert_eq!(plan.script, CAPTURE_SCRIPT);
}

#[test]
fn setup_plan_keeps_an_explicit_label() {
    let plan = plan_setup_console_capture(Ok(ConsoleOutputRequest {
        window_label: Some("editor".to_string()),
        session_id: Some("s".to_string()),
        timeout_ms: Some(1000),
    }))
    .unwrap();
    assert_eq!(plan.window_label, "editor");
}

#[test]
fn malformed_setup_request_is_rejected_before_any_window_interaction() {
    let r = plan_setup_console_capture(Err("missing field `code`".to_string()));
    match r {
        Err(BridgeError::InvalidRequest { message }) => {
            assert_eq!(message, "Invalid request format: missing field `code`");
        }
        _ => panic!("malformed request was not rejected as invalid"),
    }
}

#[test]
fn missing_window_fails_with_window_not_found() {
    // A request aimed at a window label that resolves to nothing
    // fails before any script runs.
    let label = "ghost".to_string();
    let r = check_window(&label, false);
    match r {
        Err(BridgeError::WindowNotFound { message }) => {
            assert_eq!(message, "Window 'ghost' not found");
        }
        _ => panic!("absent window did not fail the request"),
    }
    assert!(check_window(&label, true).is_ok());
    assert_eq!(window_not_found_message(&label), "Window 'ghost' not found");
}

#[test]
fn js_result_plan_builds_key_scripts_and_waits() {
    let plan = plan_get_js_result(
        Ok(GetJsResultRequest { window_label: None, variable_name: None }),
        1700000000123,
    )
    .unwrap();
    assert_eq!(plan.window_label, "main");
    assert_eq!(plan.variable_name, "__mcpLastResult");
    assert_eq!(plan.result_key, "mcp_result_1700000000123");
    assert_eq!(plan.retrieve_wait_ms, 100);
    assert_eq!(plan.search_wait_ms, 50);
    let expected_retrieve = format!(
        "{}{}{}{}{}{}{}",
        RETRIEVE_PRE,
        "__mcpLastResult",
        RETRIEVE_MID,
        "mcp_result_1700000000123",
        RETRIEVE_LATE,
        "mcp_result_1700000000123",
        RETRIEVE_POST
    );
    assert_eq!(plan.retrieve_script, expected_retrieve);
    let expected_search = format!(
        "{}{}{}{}{}",
        SEARCH_PRE, "mcp_result_1700000000123", SEARCH_MID, "mcp_result_1700000000123", SEARCH_POST
    );
    assert_eq!(plan.search_script, expected_search);
    assert_eq!(plan.fetch_script, FETCH_SCRIPT);
    assert!(plan.retrieve_script.contains("MCP_RETRIEVE_SUCCESS_"));
    assert!(plan.search_script.contains("MCP_RETRIEVE_ERROR_"));
}

#[test]
fn js_result_plan_keeps_explicit_variable_name() {
    let plan = plan_get_js_result(
        Ok(GetJsResultRequest {
            window_label: Some("main".to_string()),
            variable_name: Some("__myGlobal".to_string()),
        }),
        7,
    )
    .unwrap();
    assert_eq!(plan.variable_name, "__myGlobal");
    assert_eq!(plan.result_key, "mcp_result_7");
}

#[test]
fn js_result_response_points_at_the_buffer_dump() {
    let r = js_result_success_response(
        "__mcpLastResult".to_string(),
        "mcp_result_7".to_string(),
    );
    assert!(r.success);
    assert!(r.error.is_none());
    match r.data.unwrap() {
        ResponseData::JsResult(p) => {
            assert_eq!(
                p.message,
                "JavaScript result retrieval executed - check console buffer with get_console_buffer"
            );
            assert_eq!(p.variable_name, "__mcpLastResult");
            assert_eq!(p.result_key, "mcp_result_7");
            assert_eq!(p.approach, "console_buffer_search");
            assert_eq!(p.next_step, "Use get_console_buffer to retrieve the actual data");
        }
        _ => panic!("wrong payload kind"),
    }
}

#[test]
fn execute_plan_carries_the_code_verbatim_after_the_capture_script() {
    let plan = plan_execute_with_console(Ok(ExecuteWithConsoleRequest {
        window_label: None,
        code: "console.log('hi')".to_string(),
    }))
    .unwrap();
    assert_eq!(plan.window_label, "main");
    assert_eq!(plan.setup_script, CAPTURE_SCRIPT);
    assert_eq!(plan.code, "console.log('hi')");
}

#[test]
fn execute_aborts_with_the_setup_failure_verbatim() {
    let plan = plan_execute_with_console(Ok(ExecuteWithConsoleRequest {
        window_label: None,
        code: "console.log('never runs')".to_string(),
    }))
    .unwrap();
    let r = execute_after_setup(plan, Err("page navigated away".to_string()));
    match r {
        Err(BridgeError::InjectionFailure { message }) => {
            // The overall failure is exactly what the setup operation
            // itself would have reported.
            let standalone = setup_eval_failure(&"page navigated away".to_string());
            assert_eq!(&message, standalone.message());
            assert_eq!(message, "Failed to setup console capture: page navigated away");
        }
        _ => panic!("failed setup did not abort the execute operation"),
    }
}

#[test]
fn execute_proceeds_with_the_code_when_setup_succeeded() {
    let plan = plan_execute_with_console(Ok(ExecuteWithConsoleRequest {
        window_label: None,
        code: "1+1".to_string(),
    }))
    .unwrap();
    let code = execute_after_setup(plan, Ok(())).unwrap();
    assert_eq!(code, "1+1");
}

#[test]
fn buffer_plan_uses_the_dump_script_and_wait() {
    let plan = plan_get_console_buffer(Ok(GetConsoleBufferRequest {
        window_label: None,
        filter: Some("unused".to_string()),
    }))
    .unwrap();
    assert_eq!(plan.window_label, "main");
    assert_eq!(plan.script, BUFFER_SCRIPT);
    assert_eq!(plan.wait_ms, 50);
}

#[test]
fn success_responses_carry_the_documented_texts() {
    let s = setup_success_response("main".to_string());
    assert!(s.success && s.error.is_none());
    match s.data.unwrap() {
        ResponseData::Setup(p) => {
            assert_eq!(p.message, "Event-based console capture setup complete");
            assert_eq!(p.window_label, "main");
        }
        _ => panic!("wrong payload kind"),
    }
    let e = execute_success_response("w".to_string());
    match e.data.unwrap() {
        ResponseData::Execute(p) => {
            assert_eq!(p.message, "JavaScript executed with event-based console capture");
            assert_eq!(p.window_label, "w");
        }
        _ => panic!("wrong payload kind"),
    }
    let b = buffer_success_response("w".to_string());
    match b.data.unwrap() {
        ResponseData::Buffer(p) => {
            assert_eq!(p.message, "Console buffer compiled to window.__mcpBufferData");
            assert_eq!(p.note, "Access window.__mcpBufferData.lastSearchResult for retrieved data");
        }
        _ => panic!("wrong payload kind"),
    }
}

#[test]
fn each_injection_failure_names_its_phase() {
    let e = "gone".to_string();
    assert_eq!(setup_eval_failure(&e).message().as_str(), "Failed to setup console capture: gone");
    assert_eq!(
        retrieve_eval_failure(&e).message().as_str(),
        "Failed to execute retrieval JavaScript: gone"
    );
    assert_eq!(
        search_eval_failure(&e).message().as_str(),
        "Failed to execute search JavaScript: gone"
    );
    assert_eq!(fetch_eval_failure(&e).message().as_str(), "Failed to get search result: gone");
    assert_eq!(execute_eval_failure(&e).message().as_str(), "Failed to execute JavaScript: gone");
    assert_eq!(buffer_eval_failure(&e).message().as_str(), "Failed to compile buffer data: gone");
    let inv = invalid_request_error(&"bad".to_string());
    assert_eq!(inv.message().as_str(), "Invalid request format: bad");
}

#[test]
fn direct_eval_succeeds_with_the_static_pointer_message() {
    // The request {code: "return 1+1"} aimed at an existing "main"
    // window: the host call succeeds, so the response reports success
    // and points at the result slot.
    let plan = plan_direct_eval(Ok(DirectEvalRequest {
        code: "return 1+1".to_string(),
        window_label: Some("main".to_string()),
    }))
    .unwrap();
    assert_eq!(plan.window_label, "main");
    assert!(plan.wrapped_code.contains("return 1+1"));
    assert!(plan.wrapped_code.contains("window.__mcpLastResult"));
    let r = direct_eval_response(Ok(()));
    assert!(r.success);
    assert_eq!(
        r.result.as_deref(),
        Some("Code executed successfully. Result stored in window.__mcpLastResult")
    );
    assert_eq!(r.error, None);
}

#[test]
fn direct_eval_reports_a_host_level_failure() {
    let r = direct_eval_response(Err("SyntaxError".to_string()));
    assert!(!r.success);
    assert!(r.result.is_none());
    assert_eq!(r.error.as_deref(), Some("Eval error: SyntaxError"));
}

#[test]
fn direct_eval_parse_error_propagates_unchanged() {
    let r = plan_direct_eval(Err("missing field `code`".to_string()));
    match r {
        Err(e) => assert_eq!(e, "missing field `code`"),
        Ok(_) => panic!("malformed direct-eval request was accepted"),
    }
}
