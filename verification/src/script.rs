//! Generation of the JavaScript snippets that the bridge injects into
//! a page, as plain strings with exact contracts.

use crate::text::{first_index_of, lemma_first_index_absent, lemma_first_index_prepend};
use vstd::prelude::*;

verus! {

/// The script that installs the capture shim on a page: it wraps the
/// five console methods to mirror every call into the general buffer
/// and the MCP message buffer, registers listeners for uncaught
/// errors and unhandled rejections, and guards itself with a
/// page-global flag so that a second run is a no-op.
pub const CAPTURE_SCRIPT: &'static str = "
        (function() {
            if (window.__mcpEventConsoleCapture) return { already_setup: true };

            window.__mcpEventConsoleCapture = true;
            window.__consoleBuffer = window.__consoleBuffer || [];
            window.__consoleSessionId = Date.now().toString();

            // Store original console methods
            const originalConsole = {
                log: console.log,
                error: console.error,
                warn: console.warn,
                info: console.info,
                debug: console.debug
            };

            function wrapConsoleMethod(level, originalMethod) {
                return function(...args) {
                    // Call original method first
                    originalMethod.apply(console, args);

                    // Capture the message
                    const message = args.map(arg =>
                        typeof arg === 'object' ? JSON.stringify(arg) : String(arg)
                    ).join(' ');

                    const entry = {
                        level: level,
                        message: message,
                        timestamp: new Date().toISOString(),
                        sessionId: window.__consoleSessionId
                    };

                    // Store in buffer for retrieval
                    window.__consoleBuffer.push(entry);

                    // Also store in a special MCP messages buffer for easy retrieval
                    if (!window.__mcpConsoleMessages) window.__mcpConsoleMessages = [];
                    window.__mcpConsoleMessages.push(entry);
                };
            }

            // Wrap all console methods
            console.log = wrapConsoleMethod('log', originalConsole.log);
            console.error = wrapConsoleMethod('error', originalConsole.error);
            console.warn = wrapConsoleMethod('warn', originalConsole.warn);
            console.info = wrapConsoleMethod('info', originalConsole.info);
            console.debug = wrapConsoleMethod('debug', originalConsole.debug);

            // Setup global error handlers
            window.addEventListener('error', function(event) {
                const errorInfo = {
                    message: event.message,
                    filename: event.filename,
                    lineno: event.lineno,
                    colno: event.colno,
                    stack: event.error ? event.error.stack : null,
                    timestamp: new Date().toISOString(),
                    sessionId: window.__consoleSessionId
                };

                // Store JavaScript errors in a buffer for retrieval
                if (!window.__mcpJSErrors) window.__mcpJSErrors = [];
                window.__mcpJSErrors.push(errorInfo);
            });

            // Setup unhandled promise rejection handlers
            window.addEventListener('unhandledrejection', function(event) {
                const rejectionInfo = {
                    message: 'Unhandled Promise Rejection: ' + String(event.reason),
                    filename: null,
                    lineno: null,
                    colno: null,
                    stack: event.reason && event.reason.stack ? event.reason.stack : null,
                    timestamp: new Date().toISOString(),
                    sessionId: window.__consoleSessionId
                };

                // Store promise rejections in the error buffer
                if (!window.__mcpJSErrors) window.__mcpJSErrors = [];
                window.__mcpJSErrors.push(rejectionInfo);
            });

            // Utility functions
            window.__getConsoleBuffer = function() {
                return window.__consoleBuffer || [];
            };

            window.__clearConsoleBuffer = function() {
                window.__consoleBuffer = [];
            };

            console.log('Event-based console capture system initialized');
            return {
                setup_complete: true,
                session_id: window.__consoleSessionId,
                capture_method: 'events'
            };
        })()
    ";

/// The script the fetch step of the correlation protocol injects: it
/// serializes the search result slot, or a default not-found record.
/// The host's evaluation call returns nothing to the native side, so
/// this value is only observable through a later buffer dump.
pub const FETCH_SCRIPT: &'static str = "
        (function() {
            if (window.__mcpLastSearchResult) {
                return JSON.stringify(window.__mcpLastSearchResult);
            } else {
                return JSON.stringify({ found: false, error: 'Search result not available' });
            }
        })()
    ";

/// The buffer-dump script: it assembles the buffers, the last search
/// result and their counts into the well-known page global.
pub const BUFFER_SCRIPT: &'static str = "
        (function() {
            const result = {
                consoleBuffer: window.__consoleBuffer || [],
                mcpMessages: window.__mcpConsoleMessages || [],
                jsErrors: window.__mcpJSErrors || [],
                lastSearchResult: window.__mcpLastSearchResult || null,
                bufferLength: (window.__consoleBuffer || []).length,
                mcpLength: (window.__mcpConsoleMessages || []).length,
                errorCount: (window.__mcpJSErrors || []).length
            };

            // Store in a global for easy access
            window.__mcpBufferData = result;

            return 'buffer_compiled';
        })()
    ";

pub const RETRIEVE_PRE: &'static str = "
        (function() {
            try {
                const value = window.";

pub const RETRIEVE_MID: &'static str = ";
                const result = {
                    success: true,
                    value: value,
                    type: typeof value,
                    timestamp: new Date().toISOString()
                };

                // Log with unique identifier
                console.log('MCP_RETRIEVE_SUCCESS_";

pub const RETRIEVE_LATE: &'static str = ":' + JSON.stringify(result));
                return 'retrieval_logged';
            } catch (error) {
                console.log('MCP_RETRIEVE_ERROR_";

pub const RETRIEVE_POST: &'static str = ":' + JSON.stringify({
                    success: false,
                    error: error.message,
                    stack: error.stack,
                    timestamp: new Date().toISOString()
                }));
                return 'error_logged';
            }
        })()
    ";

/// The tag-phase script for a variable and correlation key: it reads
/// the named page global and logs the outcome record under the
/// success or error tag for the key.
pub open spec fn retrieve_script_text(variable: Seq<char>, key: Seq<char>) -> Seq<char> {
    RETRIEVE_PRE@ + variable + RETRIEVE_MID@ + key + RETRIEVE_LATE@ + key + RETRIEVE_POST@
}

pub fn retrieve_script(variable: &String, key: &String) -> (r: String)
    ensures
        r@ == retrieve_script_text(variable@, key@),
{
    let mut r = String::from_str(RETRIEVE_PRE);
    r.append(variable.as_str());
    r.append(RETRIEVE_MID);
    r.append(key.as_str());
    r.append(RETRIEVE_LATE);
    r.append(key.as_str());
    r.append(RETRIEVE_POST);
    r
}

pub const SEARCH_PRE: &'static str = "
        (function() {
            if (window.__mcpConsoleMessages) {
                const messages = window.__mcpConsoleMessages;
                for (let i = messages.length - 1; i >= 0; i--) {
                    const message = messages[i].message;
                    if (message.includes('MCP_RETRIEVE_SUCCESS_";

pub const SEARCH_MID: &'static str = ":') || message.includes('MCP_RETRIEVE_ERROR_";

pub const SEARCH_POST: &'static str = ":')) {
                        const colonIndex = message.indexOf(':');
                        if (colonIndex !== -1) {
                            const data = message.substring(colonIndex + 1);
                            window.__mcpLastSearchResult = {
                                found: true,
                                data: data,
                                timestamp: new Date().toISOString()
                            };
                            return 'found';
                        }
                    }
                }
            }
            window.__mcpLastSearchResult = {
                found: false,
                error: 'Message not found in buffer',
                timestamp: new Date().toISOString()
            };
            return 'not_found';
        })()
    ";

/// The search-phase script for a correlation key: it scans the MCP
/// message buffer backward for either tag and stores the search
/// result slot.
pub open spec fn search_script_text(key: Seq<char>) -> Seq<char> {
    SEARCH_PRE@ + key + SEARCH_MID@ + key + SEARCH_POST@
}

pub fn search_script(key: &String) -> (r: String)
    ensures
        r@ == search_script_text(key@),
{
    let mut r = String::from_str(SEARCH_PRE);
    r.append(key.as_str());
    r.append(SEARCH_MID);
    r.append(key.as_str());
    r.append(SEARCH_POST);
    r
}

pub const WRAP_PRE: &'static str = "
        (function() {
            try {
                const __result = (function() { ";

pub const WRAP_POST: &'static str = " })();
                window.__mcpLastResult = {
                    success: true,
                    value: __result,
                    type: typeof __result,
                    stringValue: String(__result)
                };
                return __result;
            } catch (e) {
                window.__mcpLastResult = {
                    success: false,
                    error: e.message,
                    stack: e.stack
                };
                throw e;
            }
        })()
        ";

/// The evaluation wrapper around caller-supplied code: the code is
/// spliced in verbatim — a deliberate trust boundary, the caller
/// being the controlling operator — inside a function so `return` is
/// valid, and the outcome is written into the result slot: value,
/// type and string coercion on completion; message and stack, then a
/// re-throw, on an exception.
pub open spec fn wrapped_eval_text(code: Seq<char>) -> Seq<char> {
    WRAP_PRE@ + code + WRAP_POST@
}

pub fn wrapped_eval_script(code: &String) -> (r: String)
    ensures
        r@ == wrapped_eval_text(code@),
{
    let mut r = String::from_str(WRAP_PRE);
    r.append(code.as_str());
    r.append(WRAP_POST);
    r
}

/// The correlation key derived from a request's wall-clock time in
/// milliseconds; unique as long as no two requests share the same
/// millisecond.
pub open spec fn result_key_text(millis: nat) -> Seq<char> {
    "mcp_result_"@ + dec_digits(millis)
}

pub fn make_result_key(millis: u64) -> (r: String)
    ensures
        r@ == result_key_text(millis as nat),
{
    let mut r = String::from_str("mcp_result_");
    let digits = u64_to_decimal(millis);
    r.append(digits.as_str());
    r
}

/// Decimal digits never contain a colon.
pub proof fn lemma_dec_digits_no_colon(n: nat)
    ensures
        forall|k: int| 0 <= k < dec_digits(n).len() ==> dec_digits(n)[k] != ':',
    decreases n,
{
    if n < 10 {
        assert(dec_digits(n)[0] == digit_char(n));
        assert(digit_char(n) != ':');
    } else {
        lemma_dec_digits_no_colon(n / 10);
        let d = dec_digits(n / 10);
        assert(dec_digits(n) == d.push(digit_char(n % 10)));
        assert forall|k: int| 0 <= k < dec_digits(n).len() implies dec_digits(n)[k] != ':' by {
            if k < d.len() {
                assert(dec_digits(n)[k] == d[k]);
            } else {
                assert(dec_digits(n)[k] == digit_char(n % 10));
            }
        }
    }
}

/// A generated correlation key never contains a colon, so the first
/// colon of a tagged message is the tag's own.
pub proof fn lemma_result_key_no_colon(millis: nat)
    ensures
        first_index_of(result_key_text(millis), ':') == -1,
{
    reveal_strlit("mcp_result_");
    assert(forall|k: int| 0 <= k < "mcp_result_"@.len() ==> "mcp_result_"@[k] != ':');
    lemma_first_index_absent("mcp_result_"@, ':');
    lemma_dec_digits_no_colon(millis);
    lemma_first_index_absent(dec_digits(millis), ':');
    lemma_first_index_prepend("mcp_result_"@, dec_digits(millis), ':');
}

/// The character for one decimal digit.
pub open spec fn digit_char(d: nat) -> char {
    if d == 0 {
        '0'
    } else if d == 1 {
        '1'
    } else if d == 2 {
        '2'
    } else if d == 3 {
        '3'
    } else if d == 4 {
        '4'
    } else if d == 5 {
        '5'
    } else if d == 6 {
        '6'
    } else if d == 7 {
        '7'
    } else if d == 8 {
        '8'
    } else {
        '9'
    }
}

/// Decimal digits of `n`, most significant first.
pub open spec fn dec_digits(n: nat) -> Seq<char>
    decreases n,
{
    if n < 10 {
        seq![digit_char(n)]
    } else {
        dec_digits(n / 10).push(digit_char(n % 10))
    }
}

/// Relies on String::push: appends one character to the string.
#[verifier::external_body]
pub(crate) fn push_char(s: &mut String, c: char)
    ensures
        final(s)@ == old(s)@.push(c),
{
    s.push(c)
}

fn digit_to_char(d: u64) -> (c: char)
    requires
        d < 10,
    ensures
        c == digit_char(d as nat),
{
    if d == 0 {
        '0'
    } else if d == 1 {
        '1'
    } else if d == 2 {
        '2'
    } else if d == 3 {
        '3'
    } else if d == 4 {
        '4'
    } else if d == 5 {
        '5'
    } else if d == 6 {
        '6'
    } else if d == 7 {
        '7'
    } else if d == 8 {
        '8'
    } else {
        '9'
    }
}

/// Renders `n` in decimal, most significant digit first.
pub fn u64_to_decimal(n: u64) -> (r: String)
    ensures
        r@ == dec_digits(n as nat),
{
    let mut digits: Vec<char> = Vec::new();
    let mut m: u64 = n;
    while m >= 10
        invariant
            dec_digits(n as nat) == dec_digits(m as nat) + digits@.reverse(),
        decreases m,
    {
        let c: char = digit_to_char(m % 10);
        let ghost pre = digits@;
        digits.push(c);
        proof {
            assert(digits@.reverse() =~= seq![c] + pre.reverse());
            assert(dec_digits(m as nat) == dec_digits((m / 10) as nat).push(c));
            assert(dec_digits((m / 10) as nat) + digits@.reverse() =~= dec_digits(m as nat)
                + pre.reverse());
        }
        m = m / 10;
    }
    let c: char = digit_to_char(m);
    let ghost pre = digits@;
    digits.push(c);
    proof {
        assert(digits@.reverse() =~= seq![c] + pre.reverse());
        assert(seq![c] =~= dec_digits(m as nat));
        assert(dec_digits(m as nat) + pre.reverse() =~= digits@.reverse());
    }
    let mut r = String::new();
    let mut i: usize = digits.len();
    while i > 0
        invariant
            i <= digits@.len(),
            r@ == digits@.subrange(i as int, digits@.len() as int).reverse(),
        decreases i,
    {
        i = i - 1;
        let d: char = digits[i];
        push_char(&mut r, d);
        proof {
            assert(r@ =~= digits@.subrange(i as int, digits@.len() as int).reverse());
        }
    }
    proof {
        assert(digits@.subrange(0, digits@.len() as int) =~= digits@);
        assert(r@ =~= dec_digits(n as nat));
    }
    r
}

} // verus!
