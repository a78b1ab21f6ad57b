//! Where a navigation of the shell window may go.
//!
//! Pages of the application itself and of the local worker stay inside the
//! window; every other web page is handed to the system browser. The
//! decision is made on the parsed scheme and host, so that a host which only
//! begins like a local one does not pass for it.

use vstd::prelude::*;
use crate::text::same_text;

verus! {

/// The scheme is one of the web: `http` or `https`.
pub open spec fn is_web_scheme(scheme: Seq<char>) -> bool {
    scheme == "http"@ || scheme == "https"@
}

/// A target with this scheme and host belongs to the application: the
/// shell's own origin under either of its two forms, or the local worker.
pub open spec fn is_internal_target(scheme: Seq<char>, host: Option<Seq<char>>) -> bool {
    match host {
        None => false,
        Some(h) => {
            ||| scheme == "tauri"@ && h == "localhost"@
            ||| is_web_scheme(scheme) && (h == "tauri.localhost"@ || h == "localhost"@ || h
                == "127.0.0.1"@)
        },
    }
}

/// A target with this scheme and host is a web page that does not belong to
/// the application.
pub open spec fn is_external_target(scheme: Seq<char>, host: Option<Seq<char>>) -> bool {
    is_web_scheme(scheme) && !is_internal_target(scheme, host)
}

/// The characters of a host, where there is one.
pub open spec fn host_text(host: Option<&str>) -> Option<Seq<char>> {
    match host {
        Some(h) => Some(h@),
        None => None,
    }
}

/// Tells whether a URL with this scheme and host is internal to the
/// application.
pub fn is_internal_navigation_target(scheme: &str, host: Option<&str>) -> (internal: bool)
    ensures
        internal == is_internal_target(scheme@, host_text(host)),
{
    proof {
        reveal_strlit("tauri");
        reveal_strlit("http");
        reveal_strlit("https");
        assert("tauri"@[0] != "http"@[0] && "tauri"@[0] != "https"@[0]);
    }
    match host {
        None => false,
        Some(h) => {
            if same_text(scheme, "tauri") {
                same_text(h, "localhost")
            } else if same_text(scheme, "http") || same_text(scheme, "https") {
                same_text(h, "tauri.localhost") || same_text(h, "localhost") || same_text(
                    h,
                    "127.0.0.1",
                )
            } else {
                false
            }
        },
    }
}

/// Tells whether a URL with this scheme and host has to be opened in the
/// system browser instead of the shell window.
pub fn should_open_external_browser(scheme: &str, host: Option<&str>) -> (external: bool)
    ensures
        external == is_external_target(scheme@, host_text(host)),
{
    (same_text(scheme, "http") || same_text(scheme, "https")) && !is_internal_navigation_target(
        scheme,
        host,
    )
}

} // verus!
