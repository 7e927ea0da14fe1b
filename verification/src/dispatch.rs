//! The request dispatch facade: validation of each operation's
//! request, the plan of scripts and waits it injects, and the exact
//! response or error it returns.
//!
//! The host boundary itself — looking a window up by label, handing a
//! script to the host's evaluation call, sleeping between phases — is
//! outside this library; the caller performs those steps and feeds
//! each outcome back into the decision functions here.

use crate::script::{
    make_result_key, result_key_text, retrieve_script, retrieve_script_text, search_script,
    search_script_text, wrapped_eval_script, wrapped_eval_text, BUFFER_SCRIPT, CAPTURE_SCRIPT,
    FETCH_SCRIPT,
};
use vstd::prelude::*;

verus! {

/// A request to set up console capture.
pub struct ConsoleOutputRequest {
    pub window_label: Option<String>,
    pub session_id: Option<String>,
    pub timeout_ms: Option<u64>,
}

/// A request to fetch the last evaluation result.
pub struct GetJsResultRequest {
    pub window_label: Option<String>,
    pub variable_name: Option<String>,
}

/// A request to run caller-supplied code with capture active.
pub struct ExecuteWithConsoleRequest {
    pub window_label: Option<String>,
    pub code: String,
}

/// A request to dump the console buffer.
pub struct GetConsoleBufferRequest {
    pub window_label: Option<String>,
    pub filter: Option<String>,
}

/// A request for a direct, wrapped evaluation.
pub struct DirectEvalRequest {
    pub code: String,
    pub window_label: Option<String>,
}

/// The response of a direct evaluation.
pub struct DirectEvalResponse {
    pub success: bool,
    pub result: Option<String>,
    pub error: Option<String>,
}

/// The ways a request fails before or at the host boundary.
#[derive(Debug)]
pub enum BridgeError {
    /// The payload did not match the operation's expected shape.
    InvalidRequest { message: String },
    /// The window label resolved to no live window.
    WindowNotFound { message: String },
    /// The host's script-evaluation call itself failed.
    InjectionFailure { message: String },
}

/// The message a bridge error carries.
pub open spec fn bridge_error_text(e: BridgeError) -> Seq<char> {
    match e {
        BridgeError::InvalidRequest { message } => message@,
        BridgeError::WindowNotFound { message } => message@,
        BridgeError::InjectionFailure { message } => message@,
    }
}

impl BridgeError {
    /// The message this error carries.
    pub fn message(&self) -> (r: &String)
        ensures
            r@ == bridge_error_text(*self),
    {
        match self {
            BridgeError::InvalidRequest { message } => message,
            BridgeError::WindowNotFound { message } => message,
            BridgeError::InjectionFailure { message } => message,
        }
    }
}

/// The data of a successful response, by operation.
pub enum ResponseData {
    Setup(SetupPayload),
    JsResult(JsResultPayload),
    Execute(ExecutePayload),
    Buffer(BufferPayload),
}

/// The uniform response envelope.
pub struct SocketResponse {
    pub success: bool,
    pub data: Option<ResponseData>,
    pub error: Option<String>,
}

pub struct SetupPayload {
    pub message: String,
    pub window_label: String,
}

pub struct JsResultPayload {
    pub message: String,
    pub variable_name: String,
    pub result_key: String,
    pub approach: String,
    pub next_step: String,
}

pub struct ExecutePayload {
    pub message: String,
    pub window_label: String,
}

pub struct BufferPayload {
    pub message: String,
    pub window_label: String,
    pub note: String,
}

/// The label a request targets once the default is applied.
pub open spec fn requested_label(label: Option<Seq<char>>) -> Seq<char> {
    match label {
        Some(l) => l,
        None => "main"@,
    }
}

/// Applies the default window label.
pub fn resolve_window_label(label: Option<String>) -> (r: String)
    ensures
        r@ == requested_label(
            match label {
                Some(l) => Some(l@),
                None => None,
            },
        ),
{
    match label {
        Some(l) => l,
        None => String::from_str("main"),
    }
}

/// The message of an invalid-request error.
pub open spec fn invalid_request_text(detail: Seq<char>) -> Seq<char> {
    "Invalid request format: "@ + detail
}

/// The error for a payload that did not parse as the operation's
/// request shape.
pub fn invalid_request_error(detail: &String) -> (r: BridgeError)
    ensures
        (r matches BridgeError::InvalidRequest { message } && message@ == invalid_request_text(
            detail@,
        )),
{
    let mut message = String::from_str("Invalid request format: ");
    message.append(detail.as_str());
    BridgeError::InvalidRequest { message }
}

/// The message of a window-not-found error.
pub open spec fn window_not_found_text(label: Seq<char>) -> Seq<char> {
    "Window '"@ + label + "' not found"@
}

/// The window-not-found message for a label.
pub fn window_not_found_message(label: &String) -> (r: String)
    ensures
        r@ == window_not_found_text(label@),
{
    let mut r = String::from_str("Window '");
    r.append(label.as_str());
    r.append("' not found");
    r
}

/// Decides the window-resolution step: the caller reports whether the
/// label resolved to a live window; if not, the request fails here,
/// before any script runs.
pub fn check_window(window_label: &String, window_exists: bool) -> (r: Result<(), BridgeError>)
    ensures
        window_exists ==> (r matches Ok(())),
        !window_exists ==> (r matches Err(e) && e matches BridgeError::WindowNotFound { message }
            && message@ == window_not_found_text(window_label@)),
{
    if window_exists {
        Ok(())
    } else {
        Err(BridgeError::WindowNotFound { message: window_not_found_message(window_label) })
    }
}

fn injection_failure(prefix: &str, host_error: &String) -> (r: BridgeError)
    ensures
        (r matches BridgeError::InjectionFailure { message } && message@ == prefix@ + host_error@),
{
    let mut message = String::from_str(prefix);
    message.append(host_error.as_str());
    BridgeError::InjectionFailure { message }
}

/// The error when the host call evaluating the capture script fails.
pub fn setup_eval_failure(host_error: &String) -> (r: BridgeError)
    ensures
        (r matches BridgeError::InjectionFailure { message } && message@
            == "Failed to setup console capture: "@ + host_error@),
{
    injection_failure("Failed to setup console capture: ", host_error)
}

/// The error when the host call evaluating the tag-phase script fails.
pub fn retrieve_eval_failure(host_error: &String) -> (r: BridgeError)
    ensures
        (r matches BridgeError::InjectionFailure { message } && message@
            == "Failed to execute retrieval JavaScript: "@ + host_error@),
{
    injection_failure("Failed to execute retrieval JavaScript: ", host_error)
}

/// The error when the host call evaluating the search script fails.
pub fn search_eval_failure(host_error: &String) -> (r: BridgeError)
    ensures
        (r matches BridgeError::InjectionFailure { message } && message@
            == "Failed to execute search JavaScript: "@ + host_error@),
{
    injection_failure("Failed to execute search JavaScript: ", host_error)
}

/// The error when the host call evaluating the fetch script fails.
pub fn fetch_eval_failure(host_error: &String) -> (r: BridgeError)
    ensures
        (r matches BridgeError::InjectionFailure { message } && message@
            == "Failed to get search result: "@ + host_error@),
{
    injection_failure("Failed to get search result: ", host_error)
}

/// The error when the host call evaluating the caller's code fails.
pub fn execute_eval_failure(host_error: &String) -> (r: BridgeError)
    ensures
        (r matches BridgeError::InjectionFailure { message } && message@
            == "Failed to execute JavaScript: "@ + host_error@),
{
    injection_failure("Failed to execute JavaScript: ", host_error)
}

/// The error when the host call evaluating the buffer-dump script
/// fails.
pub fn buffer_eval_failure(host_error: &String) -> (r: BridgeError)
    ensures
        (r matches BridgeError::InjectionFailure { message } && message@
            == "Failed to compile buffer data: "@ + host_error@),
{
    injection_failure("Failed to compile buffer data: ", host_error)
}

/// What the setup operation injects.
pub struct SetupPlan {
    pub window_label: String,
    pub script: String,
}

/// Validates a setup request: on a parse failure the request is
/// rejected before any window interaction; otherwise the plan is the
/// capture script, aimed at the requested window.
pub fn plan_setup_console_capture(request: Result<ConsoleOutputRequest, String>) -> (r: Result<
    SetupPlan,
    BridgeError,
>)
    ensures
        (request matches Err(d) ==> (r matches Err(e) && e matches BridgeError::InvalidRequest {
            message,
        } && message@ == invalid_request_text(d@))),
        (request matches Ok(q) ==> (r matches Ok(p) && p.window_label@ == requested_label(
            match q.window_label {
                Some(l) => Some(l@),
                None => None,
            },
        ) && p.script@ == CAPTURE_SCRIPT@)),
{
    match request {
        Err(detail) => Err(invalid_request_error(&detail)),
        Ok(q) => Ok(
            SetupPlan {
                window_label: resolve_window_label(q.window_label),
                script: String::from_str(CAPTURE_SCRIPT),
            },
        ),
    }
}

/// The response once the capture script was evaluated.
pub fn setup_success_response(window_label: String) -> (r: SocketResponse)
    ensures
        r.success,
        r.error is None,
        (r.data matches Some(ResponseData::Setup(p)) && p.message@
            == "Event-based console capture setup complete"@ && p.window_label@ == window_label@),
{
    SocketResponse {
        success: true,
        data: Some(
            ResponseData::Setup(
                SetupPayload {
                    message: String::from_str("Event-based console capture setup complete"),
                    window_label: window_label,
                },
            ),
        ),
        error: None,
    }
}

/// What the fetch-result operation injects: the three correlation
/// phases, with the fixed waits between them.
pub struct JsResultPlan {
    pub window_label: String,
    pub variable_name: String,
    pub result_key: String,
    pub retrieve_script: String,
    pub retrieve_wait_ms: u64,
    pub search_script: String,
    pub search_wait_ms: u64,
    pub fetch_script: String,
}

/// Validates a fetch-result request and plans the correlation round:
/// the key is derived from the request's wall-clock milliseconds, the
/// tag and search scripts are generated for it, and the fixed waits
/// separate the phases.
pub fn plan_get_js_result(request: Result<GetJsResultRequest, String>, now_millis: u64) -> (r:
    Result<JsResultPlan, BridgeError>)
    ensures
        (request matches Err(d) ==> (r matches Err(e) && e matches BridgeError::InvalidRequest {
            message,
        } && message@ == invalid_request_text(d@))),
        (request matches Ok(q) ==> (r matches Ok(p) && {
            &&& p.window_label@ == requested_label(
                match q.window_label {
                    Some(l) => Some(l@),
                    None => None,
                },
            )
            &&& p.variable_name@ == (match q.variable_name {
                Some(v) => v@,
                None => "__mcpLastResult"@,
            })
            &&& p.result_key@ == result_key_text(now_millis as nat)
            &&& p.retrieve_script@ == retrieve_script_text(p.variable_name@, p.result_key@)
            &&& p.retrieve_wait_ms == 100u64
            &&& p.search_script@ == search_script_text(p.result_key@)
            &&& p.search_wait_ms == 50u64
            &&& p.fetch_script@ == FETCH_SCRIPT@
        })),
{
    match request {
        Err(detail) => Err(invalid_request_error(&detail)),
        Ok(q) => {
            let window_label = resolve_window_label(q.window_label);
            let variable_name = match q.variable_name {
                Some(v) => v,
                None => String::from_str("__mcpLastResult"),
            };
            let result_key = make_result_key(now_millis);
            let retrieve = retrieve_script(&variable_name, &result_key);
            let search = search_script(&result_key);
            Ok(
                JsResultPlan {
                    window_label: window_label,
                    variable_name: variable_name,
                    result_key: result_key,
                    retrieve_script: retrieve,
                    retrieve_wait_ms: 100,
                    search_script: search,
                    search_wait_ms: 50,
                    fetch_script: String::from_str(FETCH_SCRIPT),
                },
            )
        },
    }
}

/// The response once all three correlation phases were injected: it
/// does not carry the value itself — the host's evaluation call
/// returns nothing — but points the caller at the buffer dump.
pub fn js_result_success_response(variable_name: String, result_key: String) -> (r: SocketResponse)
    ensures
        r.success,
        r.error is None,
        (r.data matches Some(ResponseData::JsResult(p)) && {
            &&& p.message@
                == "JavaScript result retrieval executed - check console buffer with get_console_buffer"@
            &&& p.variable_name@ == variable_name@
            &&& p.result_key@ == result_key@
            &&& p.approach@ == "console_buffer_search"@
            &&& p.next_step@ == "Use get_console_buffer to retrieve the actual data"@
        }),
{
    SocketResponse {
        success: true,
        data: Some(
            ResponseData::JsResult(
                JsResultPayload {
                    message: String::from_str(
                        "JavaScript result retrieval executed - check console buffer with get_console_buffer",
                    ),
                    variable_name: variable_name,
                    result_key: result_key,
                    approach: String::from_str("console_buffer_search"),
                    next_step: String::from_str(
                        "Use get_console_buffer to retrieve the actual data",
                    ),
                },
            ),
        ),
        error: None,
    }
}

/// What the execute-with-capture operation injects: the capture
/// script first, then the caller's code verbatim.
pub struct ExecutePlan {
    pub window_label: String,
    pub setup_script: String,
    pub code: String,
}

/// Validates an execute-with-capture request: the plan is the capture
/// script followed by the caller's code, unwrapped.
pub fn plan_execute_with_console(request: Result<ExecuteWithConsoleRequest, String>) -> (r: Result<
    ExecutePlan,
    BridgeError,
>)
    ensures
        (request matches Err(d) ==> (r matches Err(e) && e matches BridgeError::InvalidRequest {
            message,
        } && message@ == invalid_request_text(d@))),
        (request matches Ok(q) ==> (r matches Ok(p) && p.window_label@ == requested_label(
            match q.window_label {
                Some(l) => Some(l@),
                None => None,
            },
        ) && p.setup_script@ == CAPTURE_SCRIPT@ && p.code == q.code)),
{
    match request {
        Err(detail) => Err(invalid_request_error(&detail)),
        Ok(q) => Ok(
            ExecutePlan {
                window_label: resolve_window_label(q.window_label),
                setup_script: String::from_str(CAPTURE_SCRIPT),
                code: q.code,
            },
        ),
    }
}

/// Decides what follows the setup step of execute-with-capture: only
/// when the capture script evaluated does the caller's code get
/// injected; otherwise the operation fails with the setup failure
/// itself, and the code is never injected.
pub fn execute_after_setup(plan: ExecutePlan, setup_eval: Result<(), String>) -> (r: Result<
    String,
    BridgeError,
>)
    ensures
        (setup_eval matches Ok(()) ==> (r matches Ok(code) && code == plan.code)),
        (setup_eval matches Err(e) ==> (r matches Err(b)
            && b matches BridgeError::InjectionFailure { message } && message@
            == "Failed to setup console capture: "@ + e@)),
{
    match setup_eval {
        Ok(()) => Ok(plan.code),
        Err(e) => Err(setup_eval_failure(&e)),
    }
}

/// The response once the caller's code was evaluated with capture
/// active.
pub fn execute_success_response(window_label: String) -> (r: SocketResponse)
    ensures
        r.success,
        r.error is None,
        (r.data matches Some(ResponseData::Execute(p)) && p.message@
            == "JavaScript executed with event-based console capture"@ && p.window_label@
            == window_label@),
{
    SocketResponse {
        success: true,
        data: Some(
            ResponseData::Execute(
                ExecutePayload {
                    message: String::from_str(
                        "JavaScript executed with event-based console capture",
                    ),
                    window_label: window_label,
                },
            ),
        ),
        error: None,
    }
}

/// What the dump-buffer operation injects.
pub struct BufferPlan {
    pub window_label: String,
    pub script: String,
    pub wait_ms: u64,
}

/// Validates a dump-buffer request; the `filter` field is accepted
/// and, as in the shipped behavior, unused.
pub fn plan_get_console_buffer(request: Result<GetConsoleBufferRequest, String>) -> (r: Result<
    BufferPlan,
    BridgeError,
>)
    ensures
        (request matches Err(d) ==> (r matches Err(e) && e matches BridgeError::InvalidRequest {
            message,
        } && message@ == invalid_request_text(d@))),
        (request matches Ok(q) ==> (r matches Ok(p) && p.window_label@ == requested_label(
            match q.window_label {
                Some(l) => Some(l@),
                None => None,
            },
        ) && p.script@ == BUFFER_SCRIPT@ && p.wait_ms == 50u64)),
{
    match request {
        Err(detail) => Err(invalid_request_error(&detail)),
        Ok(q) => Ok(
            BufferPlan {
                window_label: resolve_window_label(q.window_label),
                script: String::from_str(BUFFER_SCRIPT),
                wait_ms: 50,
            },
        ),
    }
}

/// The response once the buffer-dump script was evaluated: a pointer
/// to where the snapshot lives, not the snapshot itself.
pub fn buffer_success_response(window_label: String) -> (r: SocketResponse)
    ensures
        r.success,
        r.error is None,
        (r.data matches Some(ResponseData::Buffer(p)) && p.message@
            == "Console buffer compiled to window.__mcpBufferData"@ && p.window_label@
            == window_label@ && p.note@
            == "Access window.__mcpBufferData.lastSearchResult for retrieved data"@),
{
    SocketResponse {
        success: true,
        data: Some(
            ResponseData::Buffer(
                BufferPayload {
                    message: String::from_str("Console buffer compiled to window.__mcpBufferData"),
                    window_label: window_label,
                    note: String::from_str(
                        "Access window.__mcpBufferData.lastSearchResult for retrieved data",
                    ),
                },
            ),
        ),
        error: None,
    }
}

/// What the direct-evaluation operation injects.
pub struct EvalPlan {
    pub window_label: String,
    pub wrapped_code: String,
}

/// Validates a direct-evaluation request: the caller's code is
/// wrapped so that its outcome lands in the result slot. A parse
/// failure propagates unchanged, as this operation's transport
/// surfaces it directly.
pub fn plan_direct_eval(request: Result<DirectEvalRequest, String>) -> (r: Result<
    EvalPlan,
    String,
>)
    ensures
        (request matches Err(d) ==> (r matches Err(e) && e == d)),
        (request matches Ok(q) ==> (r matches Ok(p) && p.window_label@ == requested_label(
            match q.window_label {
                Some(l) => Some(l@),
                None => None,
            },
        ) && p.wrapped_code@ == wrapped_eval_text(q.code@))),
{
    match request {
        Err(detail) => Err(detail),
        Ok(q) => {
            let wrapped = wrapped_eval_script(&q.code);
            Ok(
                EvalPlan {
                    window_label: resolve_window_label(q.window_label),
                    wrapped_code: wrapped,
                },
            )
        },
    }
}

/// The direct-evaluation response: the host call's own success or
/// failure is all that is observable, so success reports a static
/// pointer at the result slot, and only a host-level failure reports
/// an error.
pub fn direct_eval_response(eval: Result<(), String>) -> (r: DirectEvalResponse)
    ensures
        (eval matches Ok(()) ==> r.success && r.error is None && (r.result matches Some(m) && m@
            == "Code executed successfully. Result stored in window.__mcpLastResult"@)),
        (eval matches Err(e) ==> !r.success && r.result is None && (r.error matches Some(m) && m@
            == "Eval error: "@ + e@)),
{
    match eval {
        Ok(()) => DirectEvalResponse {
            success: true,
            result: Some(
                String::from_str(
                    "Code executed successfully. Result stored in window.__mcpLastResult",
                ),
            ),
            error: None,
        },
        Err(e) => {
            let mut message = String::from_str("Eval error: ");
            message.append(e.as_str());
            DirectEvalResponse { success: false, result: None, error: Some(message) }
        },
    }
}

} // verus!
