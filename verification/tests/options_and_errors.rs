use fetch_with_render::errors::RenderError;
use fetch_with_render::options::RenderOptions;
use fetch_with_render::options::DEFAULT_TIMEOUT_MS;

fn opts_with_timeout(t: Option<i64>) -> RenderOptions {
    RenderOptions { timeout: t, wait_for: None, selector: None, script: None }
}

#[test]
fn default_options_have_no_fields_set() {
    let opts = RenderOptions::default();
    assert!(opts.timeout.is_none());
    assert!(opts.wait_for.is_none());
    assert!(opts.selector.is_none());
    assert!(opts.script.is_none());
}

#[test]
fn timeout_defaults_to_5000_ms() {
    assert_eq!(DEFAULT_TIMEOUT_MS, 5000);
    assert_eq!(opts_with_timeout(None).effective_timeout_ms(), 5000);
}

#[test]
fn timeout_takes_the_caller_value() {
    assert_eq!(opts_with_timeout(Some(100)).effective_timeout_ms(), 100);
    assert_eq!(opts_with_timeout(Some(0)).effective_timeout_ms(), 0);
    assert_eq!(
        opts_with_timeout(Some(i64::MAX)).effective_timeout_ms(),
        i64::MAX as u64
    );
}

#[test]
fn negative_timeout_wraps_as_a_reinterpretation() {
    assert_eq!(opts_with_timeout(Some(-1)).effective_timeout_ms(), u64::MAX);
    assert_eq!(
        opts_with_timeout(Some(i64::MIN)).effective_timeout_ms(),
        (i64::MIN as u64)
    );
}

#[test]
fn reason_lines_name_the_failure_kind() {
    assert_eq!(
        RenderError::WindowCreation(String::from("no display")).reason(),
        "WindowCreationError: no display"
    );
    assert_eq!(
        RenderError::WebViewCreation(String::from("bad scheme")).reason(),
        "WebViewCreationError: bad scheme"
    );
    assert_eq!(
        RenderError::Timeout.reason(),
        "RenderTimeoutError: Rendering timed out"
    );
    assert_eq!(
        RenderError::ScriptExecution(String::from("boom")).reason(),
        "ScriptError: boom"
    );
    assert_eq!(
        RenderError::Unknown(String::from("No HTML captured")).reason(),
        "UnknownError: No HTML captured"
    );
}
