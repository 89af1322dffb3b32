use vstd::prelude::*;
use vstd::string::*;
use crate::options::RenderOptions;

verus! {

/// The script the loop evaluates once per tick to invoke the page's
/// readiness-and-extract callable (a no-op until the callable exists).
pub const POLL_SCRIPT: &'static str = "window.checkAndExtract && window.checkAndExtract()";

pub const INIT_0: &'static str = "window.__renderReady = false;\nwindow.__waitFor = ";

pub const INIT_1: &'static str = ";\nwindow.__selector = ";

pub const INIT_2: &'static str = ";\nwindow.__customScript = ";

pub const INIT_3: &'static str = ";\n\nwindow.addEventListener('load', () => {\n    window.__renderReady = true;\n});\n\nwindow.checkAndExtract = function() {\n    if (!window.__renderReady) return false;\n\n    if (window.__waitFor) {\n        if (!document.querySelector(window.__waitFor)) return false;\n    }\n\n    if (window.__customScript) {\n        try {\n            eval(window.__customScript);\n        } catch(e) {\n            console.error('Script error:', e);\n        }\n    }\n\n    let html;\n    if (window.__selector) {\n        const el = document.querySelector(window.__selector);\n        html = el ? el.outerHTML : '';\n    } else {\n        html = document.documentElement.outerHTML;\n    }\n\n    window.ipc.postMessage('HTML:' + html);\n    return true;\n};\n";

/// What encoding an optional string as JSON returns: `null` when absent,
/// else a JSON string literal; a function of the value alone.
pub uninterp spec fn json_of_opt_str(s: Option<Seq<char>>) -> Seq<char>;

/// The view of an optional owned string.
pub open spec fn opt_str_view(s: Option<String>) -> Option<Seq<char>> {
    match s {
        Option::Some(x) => Option::Some(x@),
        Option::None => Option::None,
    }
}

/// Relies on serde_json::to_string: an absent value is written as `null`, a
/// present string as a JSON string literal with its characters escaped; the
/// output depends on the value alone, and encoding an optional string into
/// memory never fails.
#[verifier::external_body]
fn json_encode_opt_str(s: &Option<String>) -> (r: String)
    ensures
        r@ == json_of_opt_str(opt_str_view(*s)),
        (*s) is None ==> r@ == "null"@,
{
    match serde_json::to_string(s) {
        Ok(r) => r,
        Err(_) => String::from("null"),
    }
}

/// The page-side setup script installed before navigation: the readiness
/// flag, the three caller values embedded as JSON literals, the `load`
/// listener, and the poll-and-extract callable.
pub open spec fn init_script_model(w: Seq<char>, s: Seq<char>, c: Seq<char>) -> Seq<char> {
    INIT_0@ + w + INIT_1@ + s + INIT_2@ + c + INIT_3@
}

/// Builds the setup script for these options. The caller-controlled
/// `wait_for`, `selector` and `script` values are untrusted text destined
/// for another execution context: each enters the script only as its JSON
/// encoding, so it cannot escape its literal boundaries, and an absent value
/// becomes `null`, which the page side reads as "no constraint".
pub fn build_init_script(opts: &RenderOptions) -> (r: String)
    ensures
        r@ == init_script_model(
            json_of_opt_str(opt_str_view(opts.wait_for)),
            json_of_opt_str(opt_str_view(opts.selector)),
            json_of_opt_str(opt_str_view(opts.script)),
        ),
{
    let mut out = String::from_str(INIT_0);
    let w = json_encode_opt_str(&opts.wait_for);
    out.append(w.as_str());
    out.append(INIT_1);
    let s = json_encode_opt_str(&opts.selector);
    out.append(s.as_str());
    out.append(INIT_2);
    let c = json_encode_opt_str(&opts.script);
    out.append(c.as_str());
    out.append(INIT_3);
    proof {
        assert(out@ =~= init_script_model(
            json_of_opt_str(opt_str_view(opts.wait_for)),
            json_of_opt_str(opt_str_view(opts.selector)),
            json_of_opt_str(opt_str_view(opts.script)),
        ));
    }
    out
}

} // verus!
