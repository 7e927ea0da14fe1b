//! Model of the page-local state that the injected scripts maintain:
//! the console buffers, the error buffer, the evaluation result slot
//! and the search result slot, together with the transitions that the
//! injected shim and the correlation scripts perform on them.

use crate::script::{
    dec_digits, lemma_result_key_no_colon, push_char, result_key_text, u64_to_decimal,
};
use crate::text::{
    after_colon_string, after_first_colon, contains_at, first_index_of, has_substring,
    lemma_first_index_absent, lemma_first_index_prepend, str_contains_sub,
};
use vstd::prelude::*;

verus! {

/// One captured console entry.
pub struct ConsoleEntry {
    pub level: String,
    pub message: String,
    pub timestamp: String,
    pub session_id: String,
}

/// One captured uncaught error or unhandled promise rejection.
pub struct JavaScriptError {
    pub message: String,
    pub filename: Option<String>,
    pub lineno: Option<u32>,
    pub colno: Option<u32>,
    pub stack: Option<String>,
    pub timestamp: String,
    pub session_id: String,
}

/// A snapshot of captured console entries.
pub struct ConsoleOutputResponse {
    pub entries: Vec<ConsoleEntry>,
    pub total_count: usize,
    pub session_id: String,
}

pub ghost struct ConsoleEntryModel {
    pub level: Seq<char>,
    pub message: Seq<char>,
    pub timestamp: Seq<char>,
    pub session_id: Seq<char>,
}

pub ghost struct JsErrorModel {
    pub message: Seq<char>,
    pub filename: Option<Seq<char>>,
    pub lineno: Option<u32>,
    pub colno: Option<u32>,
    pub stack: Option<Seq<char>>,
    pub timestamp: Seq<char>,
    pub session_id: Seq<char>,
}

impl View for ConsoleEntry {
    type V = ConsoleEntryModel;

    open spec fn view(&self) -> ConsoleEntryModel {
        ConsoleEntryModel {
            level: self.level@,
            message: self.message@,
            timestamp: self.timestamp@,
            session_id: self.session_id@,
        }
    }
}

impl View for JavaScriptError {
    type V = JsErrorModel;

    open spec fn view(&self) -> JsErrorModel {
        JsErrorModel {
            message: self.message@,
            filename: match self.filename {
                Some(f) => Some(f@),
                None => None,
            },
            lineno: self.lineno,
            colno: self.colno,
            stack: match self.stack {
                Some(s) => Some(s@),
                None => None,
            },
            timestamp: self.timestamp@,
            session_id: self.session_id@,
        }
    }
}

impl ConsoleEntry {
    /// An equal copy of the entry.
    pub fn duplicate(&self) -> (r: ConsoleEntry)
        ensures
            r == *self,
    {
        ConsoleEntry {
            level: self.level.clone(),
            message: self.message.clone(),
            timestamp: self.timestamp.clone(),
            session_id: self.session_id.clone(),
        }
    }
}

/// The five console levels that the shim intercepts.
#[derive(Clone, Copy, PartialEq, Eq, Structural)]
pub enum ConsoleLevel {
    Log,
    Error,
    Warn,
    Info,
    Debug,
}

/// The name under which a console level is recorded.
pub open spec fn level_text(level: ConsoleLevel) -> Seq<char> {
    match level {
        ConsoleLevel::Log => "log"@,
        ConsoleLevel::Error => "error"@,
        ConsoleLevel::Warn => "warn"@,
        ConsoleLevel::Info => "info"@,
        ConsoleLevel::Debug => "debug"@,
    }
}

pub fn level_name(level: ConsoleLevel) -> (r: String)
    ensures
        r@ == level_text(level),
{
    match level {
        ConsoleLevel::Log => String::from_str("log"),
        ConsoleLevel::Error => String::from_str("error"),
        ConsoleLevel::Warn => String::from_str("warn"),
        ConsoleLevel::Info => String::from_str("info"),
        ConsoleLevel::Debug => String::from_str("debug"),
    }
}

/// A script value as the shim observes it: what its `typeof` is, how
/// it coerces to a string, and, for objects, its JSON rendering.
pub enum JsValue {
    Undefined,
    Null,
    Boolean(bool),
    /// An integer number.
    Number(i64),
    Text(String),
    /// A non-array object, carried as its JSON rendering.
    ObjectJson(String),
}

pub ghost enum JsValueModel {
    Undefined,
    Null,
    Boolean(bool),
    Number(int),
    Text(Seq<char>),
    ObjectJson(Seq<char>),
}

impl View for JsValue {
    type V = JsValueModel;

    open spec fn view(&self) -> JsValueModel {
        match self {
            JsValue::Undefined => JsValueModel::Undefined,
            JsValue::Null => JsValueModel::Null,
            JsValue::Boolean(b) => JsValueModel::Boolean(*b),
            JsValue::Number(n) => JsValueModel::Number(*n as int),
            JsValue::Text(s) => JsValueModel::Text(s@),
            JsValue::ObjectJson(j) => JsValueModel::ObjectJson(j@),
        }
    }
}

/// Decimal rendering of an integer, with a leading minus sign when it
/// is negative.
pub open spec fn int_text(n: int) -> Seq<char> {
    if n < 0 {
        seq!['-'] + dec_digits((-n) as nat)
    } else {
        dec_digits(n as nat)
    }
}

/// What `typeof` reports for a value.
pub open spec fn type_text(v: JsValueModel) -> Seq<char> {
    match v {
        JsValueModel::Undefined => "undefined"@,
        JsValueModel::Null => "object"@,
        JsValueModel::Boolean(_) => "boolean"@,
        JsValueModel::Number(_) => "number"@,
        JsValueModel::Text(_) => "string"@,
        JsValueModel::ObjectJson(_) => "object"@,
    }
}

/// How a value coerces to a string.
pub open spec fn coerce_text(v: JsValueModel) -> Seq<char> {
    match v {
        JsValueModel::Undefined => "undefined"@,
        JsValueModel::Null => "null"@,
        JsValueModel::Boolean(b) => if b {
            "true"@
        } else {
            "false"@
        },
        JsValueModel::Number(n) => int_text(n),
        JsValueModel::Text(s) => s,
        JsValueModel::ObjectJson(_) => "[object Object]"@,
    }
}

/// How the shim renders one console argument: objects (`typeof` is
/// `object`) are JSON-stringified, everything else is string-coerced.
pub open spec fn render_text(v: JsValueModel) -> Seq<char> {
    match v {
        JsValueModel::Null => "null"@,
        JsValueModel::ObjectJson(j) => j,
        other => coerce_text(other),
    }
}

/// The captured message: the rendered arguments joined with a single
/// space, in call order.
pub open spec fn joined_message(args: Seq<JsValueModel>) -> Seq<char>
    decreases args.len(),
{
    if args.len() == 0 {
        Seq::empty()
    } else if args.len() == 1 {
        render_text(args[0])
    } else {
        render_text(args[0]) + seq![' '] + joined_message(args.drop_first())
    }
}

pub fn value_type_of(v: &JsValue) -> (r: String)
    ensures
        r@ == type_text(v@),
{
    match v {
        JsValue::Undefined => String::from_str("undefined"),
        JsValue::Null => String::from_str("object"),
        JsValue::Boolean(_) => String::from_str("boolean"),
        JsValue::Number(_) => String::from_str("number"),
        JsValue::Text(_) => String::from_str("string"),
        JsValue::ObjectJson(_) => String::from_str("object"),
    }
}

pub fn i64_to_decimal(n: i64) -> (r: String)
    ensures
        r@ == int_text(n as int),
{
    if n >= 0 {
        let r = u64_to_decimal(n as u64);
        r
    } else {
        let magnitude: u64 = ((-(n + 1)) as u64) + 1;
        let mut r = String::from_str("-");
        let digits = u64_to_decimal(magnitude);
        r.append(digits.as_str());
        proof {
            reveal_strlit("-");
            assert("-"@ =~= seq!['-']);
        }
        r
    }
}

pub fn coerce_to_string(v: &JsValue) -> (r: String)
    ensures
        r@ == coerce_text(v@),
{
    match v {
        JsValue::Undefined => String::from_str("undefined"),
        JsValue::Null => String::from_str("null"),
        JsValue::Boolean(b) => {
            if *b {
                String::from_str("true")
            } else {
                String::from_str("false")
            }
        },
        JsValue::Number(n) => i64_to_decimal(*n),
        JsValue::Text(s) => s.clone(),
        JsValue::ObjectJson(_) => String::from_str("[object Object]"),
    }
}

pub fn render_argument(v: &JsValue) -> (r: String)
    ensures
        r@ == render_text(v@),
{
    match v {
        JsValue::Null => String::from_str("null"),
        JsValue::ObjectJson(j) => j.clone(),
        other => coerce_to_string(other),
    }
}

/// The view of a sequence of console arguments.
pub open spec fn args_model(args: Seq<JsValue>) -> Seq<JsValueModel> {
    args.map_values(|v: JsValue| v@)
}

/// Builds the captured message for a sequence of console arguments.
pub fn build_message(args: &Vec<JsValue>) -> (r: String)
    ensures
        r@ == joined_message(args_model(args@)),
{
    let mut r = String::new();
    proof {
        assert(args@.subrange(0, args@.len() as int) =~= args@);
        assert(Seq::<char>::empty() + joined_message(args_model(args@)) =~= joined_message(
            args_model(args@),
        ));
    }
    let mut i: usize = 0;
    while i < args.len()
        invariant
            i <= args@.len(),
            joined_message(args_model(args@)) == r@ + joined_message(
                args_model(args@.subrange(i as int, args@.len() as int)),
            ),
        decreases args@.len() - i,
    {
        let piece = render_argument(&args[i]);
        let ghost pre = r@;
        r.append(piece.as_str());
        if i + 1 < args.len() {
            push_char(&mut r, ' ');
        }
        proof {
            let rest = args_model(args@.subrange(i as int, args@.len() as int));
            let rest_next = args_model(args@.subrange((i + 1) as int, args@.len() as int));
            assert(rest.len() == args@.len() - i);
            assert(rest[0] == args@[i as int]@);
            assert(rest.drop_first() =~= rest_next);
            if i + 1 < args.len() {
                assert(joined_message(rest) == render_text(args@[i as int]@) + seq![' ']
                    + joined_message(rest_next));
                assert(r@ =~= pre + piece@ + seq![' ']);
                assert(joined_message(args_model(args@)) =~= r@ + joined_message(rest_next));
            } else {
                assert(joined_message(rest) == render_text(args@[i as int]@));
                assert(joined_message(rest_next) =~= Seq::<char>::empty());
                assert(joined_message(args_model(args@)) =~= r@ + joined_message(rest_next));
            }
        }
        i = i + 1;
    }
    proof {
        assert(args_model(args@.subrange(args@.len() as int, args@.len() as int))
            =~= Seq::<JsValueModel>::empty());
        assert(r@ =~= joined_message(args_model(args@)));
    }
    r
}

/// The outcome that the capture-installation script reports.
pub enum SetupOutcome {
    /// The shim was already installed on this page; nothing changed.
    AlreadySetup,
    /// The shim was installed now, under this session id.
    Complete { session_id: String, capture_method: String },
}

/// The last evaluation outcome, overwritten on every wrapped
/// evaluation.
pub enum EvalResult {
    Completed { value: JsValue, value_type: String, string_value: String },
    Failed { error: String, stack: Option<String> },
}

pub ghost enum EvalResultModel {
    Completed { value: JsValueModel, value_type: Seq<char>, string_value: Seq<char> },
    Failed { error: Seq<char>, stack: Option<Seq<char>> },
}

impl View for EvalResult {
    type V = EvalResultModel;

    open spec fn view(&self) -> EvalResultModel {
        match self {
            EvalResult::Completed { value, value_type, string_value } => {
                EvalResultModel::Completed {
                    value: value@,
                    value_type: value_type@,
                    string_value: string_value@,
                }
            },
            EvalResult::Failed { error, stack } => {
                EvalResultModel::Failed {
                    error: error@,
                    stack: match stack {
                        Some(s) => Some(s@),
                        None => None,
                    },
                }
            },
        }
    }
}

/// What the buffer search stored last, overwritten by every search.
pub enum SearchResult {
    Found { data: String, timestamp: String },
    NotFound { error: String, timestamp: String },
}

pub ghost enum SearchResultModel {
    Found { data: Seq<char>, timestamp: Seq<char> },
    NotFound { error: Seq<char>, timestamp: Seq<char> },
}

impl View for SearchResult {
    type V = SearchResultModel;

    open spec fn view(&self) -> SearchResultModel {
        match self {
            SearchResult::Found { data, timestamp } => {
                SearchResultModel::Found { data: data@, timestamp: timestamp@ }
            },
            SearchResult::NotFound { error, timestamp } => {
                SearchResultModel::NotFound { error: error@, timestamp: timestamp@ }
            },
        }
    }
}

impl SearchResult {
    /// An equal copy of the search result.
    pub fn duplicate(&self) -> (r: SearchResult)
        ensures
            r == *self,
    {
        match self {
            SearchResult::Found { data, timestamp } => {
                SearchResult::Found { data: data.clone(), timestamp: timestamp.clone() }
            },
            SearchResult::NotFound { error, timestamp } => {
                SearchResult::NotFound { error: error.clone(), timestamp: timestamp.clone() }
            },
        }
    }
}

impl JavaScriptError {
    /// An equal copy of the error entry.
    pub fn duplicate(&self) -> (r: JavaScriptError)
        ensures
            r == *self,
    {
        JavaScriptError {
            message: self.message.clone(),
            filename: match &self.filename {
                Some(f) => Some(f.clone()),
                None => None,
            },
            lineno: self.lineno,
            colno: self.colno,
            stack: match &self.stack {
                Some(s) => Some(s.clone()),
                None => None,
            },
            timestamp: self.timestamp.clone(),
            session_id: self.session_id.clone(),
        }
    }
}

/// The consolidated snapshot that the buffer-dump script assembles.
pub struct BufferData {
    pub console_buffer: Vec<ConsoleEntry>,
    pub mcp_messages: Vec<ConsoleEntry>,
    pub js_errors: Vec<JavaScriptError>,
    pub last_search_result: Option<SearchResult>,
    pub buffer_length: usize,
    pub mcp_length: usize,
    pub error_count: usize,
}

pub ghost struct BufferDataModel {
    pub console_buffer: Seq<ConsoleEntryModel>,
    pub mcp_messages: Seq<ConsoleEntryModel>,
    pub js_errors: Seq<JsErrorModel>,
    pub last_search_result: Option<SearchResultModel>,
    pub buffer_length: int,
    pub mcp_length: int,
    pub error_count: int,
}

/// The view of a sequence of console entries.
pub open spec fn entries_model(s: Seq<ConsoleEntry>) -> Seq<ConsoleEntryModel> {
    s.map_values(|e: ConsoleEntry| e@)
}

/// The view of a sequence of error entries.
pub open spec fn errors_model(s: Seq<JavaScriptError>) -> Seq<JsErrorModel> {
    s.map_values(|e: JavaScriptError| e@)
}

impl View for BufferData {
    type V = BufferDataModel;

    open spec fn view(&self) -> BufferDataModel {
        BufferDataModel {
            console_buffer: entries_model(self.console_buffer@),
            mcp_messages: entries_model(self.mcp_messages@),
            js_errors: errors_model(self.js_errors@),
            last_search_result: match self.last_search_result {
                Some(r) => Some(r@),
                None => None,
            },
            buffer_length: self.buffer_length as int,
            mcp_length: self.mcp_length as int,
            error_count: self.error_count as int,
        }
    }
}

/// The page-local global state that the injected scripts maintain.
/// It is created empty when a page loads and is destroyed, shim and
/// buffers alike, when the page navigates or reloads.
pub struct PageState {
    pub capture_installed: bool,
    pub session_id: Option<String>,
    pub console_buffer: Vec<ConsoleEntry>,
    pub mcp_messages: Vec<ConsoleEntry>,
    pub js_errors: Vec<JavaScriptError>,
    pub last_result: Option<EvalResult>,
    pub last_search_result: Option<SearchResult>,
    pub buffer_data: Option<BufferData>,
}

pub ghost struct PageModel {
    pub capture_installed: bool,
    pub session_id: Option<Seq<char>>,
    pub console_buffer: Seq<ConsoleEntryModel>,
    pub mcp_messages: Seq<ConsoleEntryModel>,
    pub js_errors: Seq<JsErrorModel>,
    pub last_result: Option<EvalResultModel>,
    pub last_search_result: Option<SearchResultModel>,
    pub buffer_data: Option<BufferDataModel>,
}

impl View for PageState {
    type V = PageModel;

    open spec fn view(&self) -> PageModel {
        PageModel {
            capture_installed: self.capture_installed,
            session_id: match self.session_id {
                Some(s) => Some(s@),
                None => None,
            },
            console_buffer: entries_model(self.console_buffer@),
            mcp_messages: entries_model(self.mcp_messages@),
            js_errors: errors_model(self.js_errors@),
            last_result: match self.last_result {
                Some(r) => Some(r@),
                None => None,
            },
            last_search_result: match self.last_search_result {
                Some(r) => Some(r@),
                None => None,
            },
            buffer_data: match self.buffer_data {
                Some(b) => Some(b@),
                None => None,
            },
        }
    }
}

/// The state of a freshly loaded page: no shim, no session, all
/// buffers and slots empty.
pub open spec fn fresh_page() -> PageModel {
    PageModel {
        capture_installed: false,
        session_id: None,
        console_buffer: Seq::empty(),
        mcp_messages: Seq::empty(),
        js_errors: Seq::empty(),
        last_result: None,
        last_search_result: None,
        buffer_data: None,
    }
}

/// The session id that buffer entries carry: the installed one, or
/// empty before installation.
pub open spec fn session_text(m: PageModel) -> Seq<char> {
    match m.session_id {
        Some(s) => s,
        None => Seq::empty(),
    }
}

/// One wrapped console call: the original method still runs, and one
/// entry is appended to the general buffer and to the MCP message
/// buffer, identical in both.
pub open spec fn spec_console_call(
    m: PageModel,
    level: ConsoleLevel,
    args: Seq<JsValueModel>,
    ts: Seq<char>,
) -> PageModel {
    let entry = ConsoleEntryModel {
        level: level_text(level),
        message: joined_message(args),
        timestamp: ts,
        session_id: session_text(m),
    };
    PageModel {
        console_buffer: m.console_buffer.push(entry),
        mcp_messages: m.mcp_messages.push(entry),
        ..m
    }
}

/// The line the shim logs once it has installed itself.
pub open spec fn init_message() -> Seq<char> {
    "Event-based console capture system initialized"@
}

/// Installation of the capture shim: a no-op on a page that already
/// has it; otherwise it records the session id, wraps the console,
/// and logs one line through the wrapped console.
pub open spec fn spec_install(m: PageModel, sid: Seq<char>, ts: Seq<char>) -> PageModel {
    if m.capture_installed {
        m
    } else {
        let m1 = PageModel { capture_installed: true, session_id: Some(sid), ..m };
        spec_console_call(m1, ConsoleLevel::Log, seq![JsValueModel::Text(init_message())], ts)
    }
}

/// An uncaught script error: exactly one error-buffer entry, with
/// the event's filename, line and column.
pub open spec fn spec_uncaught_error(
    m: PageModel,
    message: Seq<char>,
    filename: Seq<char>,
    lineno: u32,
    colno: u32,
    stack: Option<Seq<char>>,
    ts: Seq<char>,
) -> PageModel {
    let e = JsErrorModel {
        message: message,
        filename: Some(filename),
        lineno: Some(lineno),
        colno: Some(colno),
        stack: stack,
        timestamp: ts,
        session_id: session_text(m),
    };
    PageModel { js_errors: m.js_errors.push(e), ..m }
}

/// The message under which a promise rejection is recorded.
pub open spec fn rejection_message(reason: Seq<char>) -> Seq<char> {
    "Unhandled Promise Rejection: "@ + reason
}

/// An unhandled promise rejection: exactly one error-buffer entry,
/// with no filename, line or column.
pub open spec fn spec_unhandled_rejection(
    m: PageModel,
    reason: Seq<char>,
    stack: Option<Seq<char>>,
    ts: Seq<char>,
) -> PageModel {
    let e = JsErrorModel {
        message: rejection_message(reason),
        filename: None,
        lineno: None,
        colno: None,
        stack: stack,
        timestamp: ts,
        session_id: session_text(m),
    };
    PageModel { js_errors: m.js_errors.push(e), ..m }
}

/// A wrapped evaluation that completed: the result slot is
/// overwritten with the value, its type and its string coercion.
pub open spec fn spec_record_success(m: PageModel, v: JsValueModel) -> PageModel {
    PageModel {
        last_result: Some(
            EvalResultModel::Completed {
                value: v,
                value_type: type_text(v),
                string_value: coerce_text(v),
            },
        ),
        ..m
    }
}

/// A wrapped evaluation that threw: the result slot is overwritten
/// with the error message and stack, and the error is re-thrown.
pub open spec fn spec_record_failure(
    m: PageModel,
    error: Seq<char>,
    stack: Option<Seq<char>>,
) -> PageModel {
    PageModel { last_result: Some(EvalResultModel::Failed { error, stack }), ..m }
}

/// The buffer-dump script: a consolidated snapshot of the buffers and
/// the last search result, stored in its well-known slot.
pub open spec fn spec_compile_buffer_data(m: PageModel) -> PageModel {
    PageModel {
        buffer_data: Some(
            BufferDataModel {
                console_buffer: m.console_buffer,
                mcp_messages: m.mcp_messages,
                js_errors: m.js_errors,
                last_search_result: m.last_search_result,
                buffer_length: m.console_buffer.len() as int,
                mcp_length: m.mcp_messages.len() as int,
                error_count: m.js_errors.len() as int,
            },
        ),
        ..m
    }
}

/// The console tag under which the tag phase logs a successfully
/// read value for correlation key `key`.
pub open spec fn success_tag(key: Seq<char>) -> Seq<char> {
    "MCP_RETRIEVE_SUCCESS_"@ + key + ":"@
}

/// The console tag under which the tag phase logs a read error for
/// correlation key `key`.
pub open spec fn error_tag(key: Seq<char>) -> Seq<char> {
    "MCP_RETRIEVE_ERROR_"@ + key + ":"@
}

/// The whole message the tag phase logs: the tag, then the
/// JSON-serialized outcome record.
pub open spec fn tag_message(key: Seq<char>, success: bool, payload: Seq<char>) -> Seq<char> {
    (if success {
        success_tag(key)
    } else {
        error_tag(key)
    }) + payload
}

/// The tag phase: one `console.log` through the wrapped console,
/// carrying the tagged outcome record.
pub open spec fn spec_tag_phase(
    m: PageModel,
    key: Seq<char>,
    success: bool,
    payload: Seq<char>,
    ts: Seq<char>,
) -> PageModel {
    spec_console_call(
        m,
        ConsoleLevel::Log,
        seq![JsValueModel::Text(tag_message(key, success, payload))],
        ts,
    )
}

/// Whether a buffer entry carries either tag for `key`.
pub open spec fn entry_matches(e: ConsoleEntryModel, key: Seq<char>) -> bool {
    has_substring(e.message, success_tag(key)) || has_substring(e.message, error_tag(key))
}

/// The index the backward scan stops at: the last entry that carries
/// a tag for `key`, or -1 when none does.
pub open spec fn matching_tag_index(msgs: Seq<ConsoleEntryModel>, key: Seq<char>) -> int
    decreases msgs.len(),
{
    if msgs.len() == 0 {
        -1
    } else if entry_matches(msgs.last(), key) {
        msgs.len() - 1
    } else {
        matching_tag_index(msgs.drop_last(), key)
    }
}

/// The error string the search stores when no entry matches.
pub open spec fn not_found_text() -> Seq<char> {
    "Message not found in buffer"@
}

/// The search phase: scan the MCP message buffer from the most
/// recent entry backward for either tag; on a match, store everything
/// after the first colon of that message; otherwise store a
/// not-found marker. Only the search result slot changes.
pub open spec fn spec_search_phase(m: PageModel, key: Seq<char>, ts: Seq<char>) -> PageModel {
    let i = matching_tag_index(m.mcp_messages, key);
    if i >= 0 {
        PageModel {
            last_search_result: Some(
                SearchResultModel::Found {
                    data: after_first_colon(m.mcp_messages[i].message),
                    timestamp: ts,
                },
            ),
            ..m
        }
    } else {
        PageModel {
            last_search_result: Some(
                SearchResultModel::NotFound { error: not_found_text(), timestamp: ts },
            ),
            ..m
        }
    }
}

/// Everything that can happen to a page while the bridge drives it.
pub ghost enum PageEvent {
    Install { session_id: Seq<char>, timestamp: Seq<char> },
    Console { level: ConsoleLevel, args: Seq<JsValueModel>, timestamp: Seq<char> },
    UncaughtError {
        message: Seq<char>,
        filename: Seq<char>,
        lineno: u32,
        colno: u32,
        stack: Option<Seq<char>>,
        timestamp: Seq<char>,
    },
    UnhandledRejection { reason: Seq<char>, stack: Option<Seq<char>>, timestamp: Seq<char> },
    RecordSuccess { value: JsValueModel },
    RecordFailure { error: Seq<char>, stack: Option<Seq<char>> },
    TagPhase { key: Seq<char>, success: bool, payload: Seq<char>, timestamp: Seq<char> },
    SearchPhase { key: Seq<char>, timestamp: Seq<char> },
    CompileBufferData,
}

/// One page transition.
pub open spec fn step(m: PageModel, e: PageEvent) -> PageModel {
    match e {
        PageEvent::Install { session_id, timestamp } => spec_install(m, session_id, timestamp),
        PageEvent::Console { level, args, timestamp } => spec_console_call(
            m,
            level,
            args,
            timestamp,
        ),
        PageEvent::UncaughtError { message, filename, lineno, colno, stack, timestamp } => {
            spec_uncaught_error(m, message, filename, lineno, colno, stack, timestamp)
        },
        PageEvent::UnhandledRejection { reason, stack, timestamp } => spec_unhandled_rejection(
            m,
            reason,
            stack,
            timestamp,
        ),
        PageEvent::RecordSuccess { value } => spec_record_success(m, value),
        PageEvent::RecordFailure { error, stack } => spec_record_failure(m, error, stack),
        PageEvent::TagPhase { key, success, payload, timestamp } => spec_tag_phase(
            m,
            key,
            success,
            payload,
            timestamp,
        ),
        PageEvent::SearchPhase { key, timestamp } => spec_search_phase(m, key, timestamp),
        PageEvent::CompileBufferData => spec_compile_buffer_data(m),
    }
}

/// A page driven through a sequence of events, in order.
pub open spec fn run_events(m: PageModel, es: Seq<PageEvent>) -> PageModel
    decreases es.len(),
{
    if es.len() == 0 {
        m
    } else {
        run_events(step(m, es[0]), es.drop_first())
    }
}

/// The general buffer and the MCP message buffer hold the same
/// entries: equal length, pairwise identical.
pub open spec fn buffers_mirrored(m: PageModel) -> bool {
    m.console_buffer == m.mcp_messages
}

/// Every write to the console buffer is mirrored into the MCP message
/// buffer: one transition keeps the two buffers identical.
pub proof fn lemma_step_mirrored(m: PageModel, e: PageEvent)
    requires
        buffers_mirrored(m),
    ensures
        buffers_mirrored(step(m, e)),
{
}

/// Starting from a page whose two console buffers are identical — a
/// fresh page in particular — any sequence of transitions leaves them
/// with equal length and pairwise-identical entries.
pub proof fn lemma_run_mirrored(m: PageModel, es: Seq<PageEvent>)
    requires
        buffers_mirrored(m),
    ensures
        buffers_mirrored(run_events(m, es)),
    decreases es.len(),
{
    if es.len() > 0 {
        lemma_step_mirrored(m, es[0]);
        lemma_run_mirrored(step(m, es[0]), es.drop_first());
    }
}

/// The shim is installed under session id `sid`, and every recorded
/// entry carries that id.
pub open spec fn single_session(m: PageModel, sid: Seq<char>) -> bool {
    &&& m.capture_installed
    &&& m.session_id == Some(sid)
    &&& forall|i: int| 0 <= i < m.console_buffer.len() ==> m.console_buffer[i].session_id == sid
    &&& forall|i: int| 0 <= i < m.mcp_messages.len() ==> m.mcp_messages[i].session_id == sid
    &&& forall|i: int| 0 <= i < m.js_errors.len() ==> m.js_errors[i].session_id == sid
}

/// Installing the shim on a fresh page records its session id on the
/// page and on every entry captured so far.
pub proof fn lemma_install_session(sid: Seq<char>, ts: Seq<char>)
    ensures
        single_session(spec_install(fresh_page(), sid, ts), sid),
{
}

/// Once the shim is installed, no transition changes the session id,
/// and every further entry carries it: a page records exactly one
/// session id until it reloads.
pub proof fn lemma_step_session(m: PageModel, e: PageEvent, sid: Seq<char>)
    requires
        single_session(m, sid),
    ensures
        single_session(step(m, e), sid),
{
}

/// `lemma_step_session`, over a whole event sequence.
pub proof fn lemma_run_session(m: PageModel, es: Seq<PageEvent>, sid: Seq<char>)
    requires
        single_session(m, sid),
    ensures
        single_session(run_events(m, es), sid),
    decreases es.len(),
{
    if es.len() > 0 {
        lemma_step_session(m, es[0], sid);
        lemma_run_session(step(m, es[0]), es.drop_first(), sid);
    }
}

/// Installing the shim is idempotent: on a page that already has it,
/// installation changes nothing.
pub proof fn lemma_install_idempotent(m: PageModel, sid: Seq<char>, ts: Seq<char>)
    requires
        m.capture_installed,
    ensures
        spec_install(m, sid, ts) == m,
{
}

/// Neither tag prefix contains a colon, so the first colon of a
/// tagged message is the one the tag itself ends with.
pub proof fn lemma_tag_prefix_no_colon()
    ensures
        first_index_of("MCP_RETRIEVE_SUCCESS_"@, ':') == -1,
        first_index_of("MCP_RETRIEVE_ERROR_"@, ':') == -1,
{
    reveal_strlit("MCP_RETRIEVE_SUCCESS_");
    reveal_strlit("MCP_RETRIEVE_ERROR_");
    assert(forall|k: int|
        0 <= k < "MCP_RETRIEVE_SUCCESS_"@.len() ==> "MCP_RETRIEVE_SUCCESS_"@[k] != ':');
    assert(forall|k: int|
        0 <= k < "MCP_RETRIEVE_ERROR_"@.len() ==> "MCP_RETRIEVE_ERROR_"@[k] != ':');
    lemma_first_index_absent("MCP_RETRIEVE_SUCCESS_"@, ':');
    lemma_first_index_absent("MCP_RETRIEVE_ERROR_"@, ':');
}

/// Correlation round trip: after the tag phase logs an outcome record
/// under a colon-free key, the search phase finds that entry and
/// extracts exactly the record — everything after the first colon —
/// as its data.
pub proof fn lemma_correlation_round_trip(
    m: PageModel,
    key: Seq<char>,
    success: bool,
    payload: Seq<char>,
    ts1: Seq<char>,
    ts2: Seq<char>,
)
    requires
        first_index_of(key, ':') == -1,
    ensures
        ({
            let m1 = spec_tag_phase(m, key, success, payload, ts1);
            let m2 = spec_search_phase(m1, key, ts2);
            m2 == (PageModel {
                last_search_result: Some(
                    SearchResultModel::Found { data: payload, timestamp: ts2 },
                ),
                ..m1
            })
        }),
{
    let m1 = spec_tag_phase(m, key, success, payload, ts1);
    let tag = if success {
        success_tag(key)
    } else {
        error_tag(key)
    };
    let prefix = if success {
        "MCP_RETRIEVE_SUCCESS_"@
    } else {
        "MCP_RETRIEVE_ERROR_"@
    };
    let tmsg = tag_message(key, success, payload);
    assert(joined_message(seq![JsValueModel::Text(tmsg)]) == tmsg);
    let msgs = m1.mcp_messages;
    assert(msgs.last().message == tmsg);
    assert(tmsg.subrange(0, tag.len() as int) =~= tag);
    assert(contains_at(tmsg, tag, 0));
    assert(entry_matches(msgs.last(), key));
    assert(matching_tag_index(msgs, key) == msgs.len() - 1);
    lemma_tag_prefix_no_colon();
    lemma_first_index_prepend(prefix, key, ':');
    assert(first_index_of(prefix + key, ':') == -1);
    reveal_strlit(":");
    assert((":"@ + payload)[0] == ':');
    assert(first_index_of(":"@ + payload, ':') == 0);
    assert(tmsg =~= (prefix + key) + (":"@ + payload));
    lemma_first_index_prepend(prefix + key, ":"@ + payload, ':');
    assert(first_index_of(tmsg, ':') == prefix.len() + key.len());
    assert(after_first_colon(tmsg) =~= payload);
}

/// The correlation round trip holds for every key the bridge
/// generates, whatever millisecond it was generated from.
pub proof fn lemma_round_trip_with_generated_key(
    m: PageModel,
    millis: nat,
    success: bool,
    payload: Seq<char>,
    ts1: Seq<char>,
    ts2: Seq<char>,
)
    ensures
        ({
            let key = result_key_text(millis);
            let m1 = spec_tag_phase(m, key, success, payload, ts1);
            let m2 = spec_search_phase(m1, key, ts2);
            m2 == (PageModel {
                last_search_result: Some(
                    SearchResultModel::Found { data: payload, timestamp: ts2 },
                ),
                ..m1
            })
        }),
{
    lemma_result_key_no_colon(millis);
    lemma_correlation_round_trip(m, result_key_text(millis), success, payload, ts1, ts2);
}

/// When no buffer entry carries a tag for `key`, the search phase
/// stores `found: false` with the documented error string.
pub proof fn lemma_search_miss(m: PageModel, key: Seq<char>, ts: Seq<char>)
    requires
        matching_tag_index(m.mcp_messages, key) == -1,
    ensures
        spec_search_phase(m, key, ts) == (PageModel {
            last_search_result: Some(
                SearchResultModel::NotFound { error: not_found_text(), timestamp: ts },
            ),
            ..m
        }),
{
}

/// The success tag for `key`, as a string.
pub fn success_tag_string(key: &String) -> (r: String)
    ensures
        r@ == success_tag(key@),
{
    let mut r = String::from_str("MCP_RETRIEVE_SUCCESS_");
    r.append(key.as_str());
    r.append(":");
    r
}

/// The error tag for `key`, as a string.
pub fn error_tag_string(key: &String) -> (r: String)
    ensures
        r@ == error_tag(key@),
{
    let mut r = String::from_str("MCP_RETRIEVE_ERROR_");
    r.append(key.as_str());
    r.append(":");
    r
}

impl PageState {
    /// A freshly loaded page.
    pub fn new() -> (r: PageState)
        ensures
            r@ == fresh_page(),
    {
        let r = PageState {
            capture_installed: false,
            session_id: None,
            console_buffer: Vec::new(),
            mcp_messages: Vec::new(),
            js_errors: Vec::new(),
            last_result: None,
            last_search_result: None,
            buffer_data: None,
        };
        proof {
            assert(r@.console_buffer =~= fresh_page().console_buffer);
            assert(r@.mcp_messages =~= fresh_page().mcp_messages);
            assert(r@.js_errors =~= fresh_page().js_errors);
        }
        r
    }

    fn current_session(&self) -> (r: String)
        ensures
            r@ == session_text(self@),
    {
        match &self.session_id {
            Some(s) => s.clone(),
            None => String::new(),
        }
    }

    /// One call through a wrapped console method.
    pub fn console_call(&mut self, level: ConsoleLevel, args: Vec<JsValue>, timestamp: String)
        requires
            old(self).capture_installed,
        ensures
            final(self)@ == spec_console_call(old(self)@, level, args_model(args@), timestamp@),
    {
        let message = build_message(&args);
        let entry = ConsoleEntry {
            level: level_name(level),
            message: message,
            timestamp: timestamp,
            session_id: self.current_session(),
        };
        let copy = entry.duplicate();
        self.console_buffer.push(entry);
        self.mcp_messages.push(copy);
        proof {
            let m = spec_console_call(old(self)@, level, args_model(args@), timestamp@);
            assert(self@.console_buffer =~= m.console_buffer);
            assert(self@.mcp_messages =~= m.mcp_messages);
        }
    }

    /// Runs the capture-installation script on this page.
    pub fn install_capture(&mut self, session_id: String, timestamp: String) -> (r: SetupOutcome)
        ensures
            final(self)@ == spec_install(old(self)@, session_id@, timestamp@),
            old(self).capture_installed ==> r == SetupOutcome::AlreadySetup,
            !old(self).capture_installed ==> (r matches SetupOutcome::Complete {
                session_id: s,
                capture_method: c,
            } && s@ == session_id@ && c@ == "events"@),
    {
        if self.capture_installed {
            return SetupOutcome::AlreadySetup;
        }
        self.capture_installed = true;
        self.session_id = Some(session_id.clone());
        let mut args: Vec<JsValue> = Vec::new();
        args.push(JsValue::Text(String::from_str("Event-based console capture system initialized")));
        let ghost argseq = args@;
        self.console_call(ConsoleLevel::Log, args, timestamp);
        proof {
            assert(args_model(argseq) =~= seq![JsValueModel::Text(init_message())]);
        }
        SetupOutcome::Complete {
            session_id: session_id,
            capture_method: String::from_str("events"),
        }
    }

    /// The page-level listener for uncaught script errors.
    pub fn uncaught_error(
        &mut self,
        message: String,
        filename: String,
        lineno: u32,
        colno: u32,
        stack: Option<String>,
        timestamp: String,
    )
        requires
            old(self).capture_installed,
        ensures
            final(self)@ == spec_uncaught_error(
                old(self)@,
                message@,
                filename@,
                lineno,
                colno,
                match stack {
                    Some(s) => Some(s@),
                    None => None,
                },
                timestamp@,
            ),
    {
        let ghost stack_model: Option<Seq<char>> = match &stack {
            Some(s) => Some(s@),
            None => None,
        };
        let e = JavaScriptError {
            message: message,
            filename: Some(filename),
            lineno: Some(lineno),
            colno: Some(colno),
            stack: stack,
            timestamp: timestamp,
            session_id: self.current_session(),
        };
        self.js_errors.push(e);
        proof {
            let m = spec_uncaught_error(
                old(self)@,
                message@,
                filename@,
                lineno,
                colno,
                stack_model,
                timestamp@,
            );
            assert(self@.js_errors =~= m.js_errors);
        }
    }

    /// The page-level listener for unhandled promise rejections.
    pub fn unhandled_rejection(&mut self, reason: String, stack: Option<String>, timestamp: String)
        requires
            old(self).capture_installed,
        ensures
            final(self)@ == spec_unhandled_rejection(
                old(self)@,
                reason@,
                match stack {
                    Some(s) => Some(s@),
                    None => None,
                },
                timestamp@,
            ),
    {
        let ghost stack_model: Option<Seq<char>> = match &stack {
            Some(s) => Some(s@),
            None => None,
        };
        let mut msg = String::from_str("Unhandled Promise Rejection: ");
        msg.append(reason.as_str());
        let e = JavaScriptError {
            message: msg,
            filename: None,
            lineno: None,
            colno: None,
            stack: stack,
            timestamp: timestamp,
            session_id: self.current_session(),
        };
        self.js_errors.push(e);
        proof {
            let m = spec_unhandled_rejection(old(self)@, reason@, stack_model, timestamp@);
            assert(self@.js_errors =~= m.js_errors);
        }
    }

    /// A wrapped evaluation completed with this value.
    pub fn record_eval_success(&mut self, value: JsValue)
        ensures
            final(self)@ == spec_record_success(old(self)@, value@),
    {
        let value_type = value_type_of(&value);
        let string_value = coerce_to_string(&value);
        self.last_result = Some(
            EvalResult::Completed { value: value, value_type: value_type, string_value: string_value },
        );
    }

    /// A wrapped evaluation threw with this message and stack.
    pub fn record_eval_failure(&mut self, error: String, stack: Option<String>)
        ensures
            final(self)@ == spec_record_failure(
                old(self)@,
                error@,
                match stack {
                    Some(s) => Some(s@),
                    None => None,
                },
            ),
    {
        self.last_result = Some(EvalResult::Failed { error: error, stack: stack });
    }

    fn clone_entries(v: &Vec<ConsoleEntry>) -> (r: Vec<ConsoleEntry>)
        ensures
            r@ =~= v@,
    {
        let mut r: Vec<ConsoleEntry> = Vec::new();
        let mut i: usize = 0;
        while i < v.len()
            invariant
                i <= v@.len(),
                r@ =~= v@.subrange(0, i as int),
            decreases v@.len() - i,
        {
            r.push(v[i].duplicate());
            proof {
                assert(r@ =~= v@.subrange(0, (i + 1) as int));
            }
            i = i + 1;
        }
        proof {
            assert(v@.subrange(0, v@.len() as int) =~= v@);
        }
        r
    }

    fn clone_errors(v: &Vec<JavaScriptError>) -> (r: Vec<JavaScriptError>)
        ensures
            r@ =~= v@,
    {
        let mut r: Vec<JavaScriptError> = Vec::new();
        let mut i: usize = 0;
        while i < v.len()
            invariant
                i <= v@.len(),
                r@ =~= v@.subrange(0, i as int),
            decreases v@.len() - i,
        {
            r.push(v[i].duplicate());
            proof {
                assert(r@ =~= v@.subrange(0, (i + 1) as int));
            }
            i = i + 1;
        }
        proof {
            assert(v@.subrange(0, v@.len() as int) =~= v@);
        }
        r
    }

    /// Runs the tag phase on this page: the retrieve script read the
    /// named global with the given outcome, serialized it page-side
    /// into `payload`, and logged it under the tag for `key`.
    pub fn run_tag_phase(&mut self, key: &String, success: bool, payload: String, timestamp: String)
        requires
            old(self).capture_installed,
        ensures
            final(self)@ == spec_tag_phase(old(self)@, key@, success, payload@, timestamp@),
    {
        let mut msg = if success {
            success_tag_string(key)
        } else {
            error_tag_string(key)
        };
        msg.append(payload.as_str());
        let ghost msg_model = msg@;
        let mut args: Vec<JsValue> = Vec::new();
        args.push(JsValue::Text(msg));
        let ghost argseq = args@;
        self.console_call(ConsoleLevel::Log, args, timestamp);
        proof {
            assert(msg_model == tag_message(key@, success, payload@));
            assert(args_model(argseq) =~= seq![
                JsValueModel::Text(tag_message(key@, success, payload@)),
            ]);
        }
    }

    fn entry_has_tag(e: &ConsoleEntry, key: &String) -> (b: bool)
        ensures
            b == entry_matches(e@, key@),
    {
        let stag = success_tag_string(key);
        let etag = error_tag_string(key);
        str_contains_sub(e.message.as_str(), stag.as_str()) || str_contains_sub(
            e.message.as_str(),
            etag.as_str(),
        )
    }

    /// Runs the search phase on this page.
    pub fn run_search_phase(&mut self, key: &String, timestamp: String)
        ensures
            final(self)@ == spec_search_phase(old(self)@, key@, timestamp@),
    {
        let ghost msgs = entries_model(self.mcp_messages@);
        let mut i: usize = self.mcp_messages.len();
        let mut matched: bool = false;
        let mut match_idx: usize = 0;
        proof {
            assert(msgs.subrange(0, msgs.len() as int) =~= msgs);
        }
        while i > 0 && !matched
            invariant
                msgs == entries_model(self.mcp_messages@),
                i <= msgs.len(),
                !matched ==> matching_tag_index(msgs, key@) == matching_tag_index(
                    msgs.subrange(0, i as int),
                    key@,
                ),
                matched ==> 0 <= match_idx < msgs.len() && matching_tag_index(msgs, key@)
                    == match_idx as int,
            decreases i,
        {
            i = i - 1;
            let hit = Self::entry_has_tag(&self.mcp_messages[i], key);
            proof {
                let pre = msgs.subrange(0, (i + 1) as int);
                assert(msgs[i as int] == self.mcp_messages@[i as int]@);
                assert(pre.last() == msgs[i as int]);
                assert(pre.drop_last() =~= msgs.subrange(0, i as int));
                if hit {
                    assert(entry_matches(pre.last(), key@));
                    assert(matching_tag_index(pre, key@) == i as int);
                } else {
                    assert(!entry_matches(pre.last(), key@));
                    assert(matching_tag_index(pre, key@) == matching_tag_index(
                        msgs.subrange(0, i as int),
                        key@,
                    ));
                }
            }
            if hit {
                matched = true;
                match_idx = i;
            }
        }
        if matched {
            let data = after_colon_string(self.mcp_messages[match_idx].message.as_str());
            self.last_search_result = Some(
                SearchResult::Found { data: data, timestamp: timestamp },
            );
        } else {
            proof {
                assert(msgs.subrange(0, 0) =~= Seq::<ConsoleEntryModel>::empty());
            }
            self.last_search_result = Some(
                SearchResult::NotFound {
                    error: String::from_str("Message not found in buffer"),
                    timestamp: timestamp,
                },
            );
        }
    }

    /// The clear-buffer utility the shim exposes to the page: it
    /// resets the general console buffer and nothing else — the MCP
    /// message buffer and the error buffer keep their entries. The
    /// bridge itself never invokes it; it is there for tooling on the
    /// page.
    pub fn clear_console_buffer(&mut self)
        ensures
            final(self)@ == (PageModel { console_buffer: Seq::empty(), ..old(self)@ }),
    {
        self.console_buffer = Vec::new();
        proof {
            assert(self@.console_buffer =~= Seq::<ConsoleEntryModel>::empty());
        }
    }

    /// A snapshot of the general console buffer, with its count and
    /// the session id it was captured under.
    pub fn console_snapshot(&self) -> (r: ConsoleOutputResponse)
        ensures
            entries_model(r.entries@) == self@.console_buffer,
            r.total_count == self.console_buffer@.len(),
            r.session_id@ == session_text(self@),
    {
        ConsoleOutputResponse {
            entries: Self::clone_entries(&self.console_buffer),
            total_count: self.console_buffer.len(),
            session_id: self.current_session(),
        }
    }

    /// Runs the buffer-dump script on this page.
    pub fn compile_buffer_data(&mut self)
        ensures
            final(self)@ == spec_compile_buffer_data(old(self)@),
    {
        let snapshot = BufferData {
            console_buffer: Self::clone_entries(&self.console_buffer),
            mcp_messages: Self::clone_entries(&self.mcp_messages),
            js_errors: Self::clone_errors(&self.js_errors),
            last_search_result: match &self.last_search_result {
                Some(r) => Some(r.duplicate()),
                None => None,
            },
            buffer_length: self.console_buffer.len(),
            mcp_length: self.mcp_messages.len(),
            error_count: self.js_errors.len(),
        };
        self.buffer_data = Some(snapshot);
    }
}

} // verus!
