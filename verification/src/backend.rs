//! Choice of the Linux windowing backend: what the user asked for, what the
//! session offers, and the hint printed when the window cannot be opened.

use vstd::prelude::*;

use crate::text::opt_text;
use crate::text::{
    chars_eq, chars_of, concat2, contains_text, str_contains, to_ascii_lower, to_ascii_lower_chars,
    trim, trim_str,
};

verus! {

/// The windowing backend to open the window with.
#[derive(Clone, Copy, Debug, PartialEq, Eq, Structural)]
pub enum LinuxBackend {
    Auto,
    X11,
    Wayland,
}

/// The backend that a setting names: surrounding white space and ASCII case
/// are ignored.
pub open spec fn backend_named(value: Seq<char>) -> Option<LinuxBackend> {
    let t = to_ascii_lower(trim(value));
    if t == "auto"@ {
        Some(LinuxBackend::Auto)
    } else if t == "x11"@ {
        Some(LinuxBackend::X11)
    } else if t == "wayland"@ {
        Some(LinuxBackend::Wayland)
    } else {
        None
    }
}

/// An environment variable that is set to a non-empty value.
pub open spec fn set_non_empty(value: Option<Seq<char>>) -> bool {
    value matches Some(v) && v.len() > 0
}

/// The backend used for a request, given the session's `WAYLAND_DISPLAY`,
/// `WAYLAND_SOCKET` and `DISPLAY` variables: an explicit request stands;
/// `Auto` prefers Wayland, then X11, and otherwise stays `Auto`.
pub open spec fn selected_backend(
    requested: LinuxBackend,
    wayland_display: Option<Seq<char>>,
    wayland_socket: Option<Seq<char>>,
    display: Option<Seq<char>>,
) -> LinuxBackend {
    match requested {
        LinuxBackend::Auto => if set_non_empty(wayland_display) || set_non_empty(wayland_socket) {
            LinuxBackend::Wayland
        } else if set_non_empty(display) {
            LinuxBackend::X11
        } else {
            LinuxBackend::Auto
        },
        explicit => explicit,
    }
}

/// The backend requested by `SLIMJELLY_UNIX_BACKEND`, else by
/// `WINIT_UNIX_BACKEND`, else `Auto`; a value that names no backend counts
/// as unset.
pub open spec fn requested_backend(slim: Option<Seq<char>>, winit: Option<Seq<char>>) -> LinuxBackend {
    match slim {
        Some(v) if backend_named(v) is Some => backend_named(v)->Some_0,
        _ => match winit {
            Some(v) if backend_named(v) is Some => backend_named(v)->Some_0,
            _ => LinuxBackend::Auto,
        },
    }
}

/// The name a backend is shown by.
pub open spec fn backend_label(b: LinuxBackend) -> Seq<char> {
    match b {
        LinuxBackend::Auto => "Auto"@,
        LinuxBackend::X11 => "X11"@,
        LinuxBackend::Wayland => "Wayland"@,
    }
}

/// The hint for a failed start, chosen by what the error's debug text holds.
pub open spec fn startup_hint(debug: Seq<char>, backend: LinuxBackend) -> Seq<char> {
    if contains_text(debug, "NoWaylandLib"@) {
        "Wayland runtime libraries are missing. On NixOS run inside a shell with wayland + libxkbcommon + xkeyboard-config + mesa + libglvnd."@
    } else if contains_text(debug, "XNotSupported"@) {
        "X11 runtime libraries are missing. Install libX11 or use Wayland backend if available."@
    } else if contains_text(debug, "XKBNotFound"@) {
        "Wayland keyboard data missing (XKBNotFound). Add xkeyboard-config and set XKB_CONFIG_ROOT to <store>/share/X11/xkb."@
    } else if contains_text(debug, "NoGlutinConfigs"@) {
        "No GL config found. Add mesa + libglvnd (EGL/OpenGL runtime) to your environment."@
    } else {
        "Startup failed on backend "@ + backend_label(backend)
            + ". Set SLIMJELLY_UNIX_BACKEND=x11 or wayland to override."@
    }
}

/// The backend that `value` names, if any.
pub fn parse_linux_backend(value: &str) -> (r: Option<LinuxBackend>)
    ensures
        r == backend_named(value@),
{
    let t = trim_str(value);
    let lower = to_ascii_lower_chars(&t);
    if chars_eq(&lower, &chars_of("auto")) {
        Some(LinuxBackend::Auto)
    } else if chars_eq(&lower, &chars_of("x11")) {
        Some(LinuxBackend::X11)
    } else if chars_eq(&lower, &chars_of("wayland")) {
        Some(LinuxBackend::Wayland)
    } else {
        None
    }
}

fn env_has_non_empty(value: &Option<String>) -> (b: bool)
    ensures
        b == set_non_empty(opt_text(*value)),
{
    match value {
        Some(v) => v.unicode_len() > 0,
        None => false,
    }
}

/// The backend to use for `requested`, given the values of `WAYLAND_DISPLAY`,
/// `WAYLAND_SOCKET` and `DISPLAY` (`None` where unset).
pub fn select_linux_backend(
    requested: LinuxBackend,
    wayland_display: Option<String>,
    wayland_socket: Option<String>,
    display: Option<String>,
) -> (b: LinuxBackend)
    ensures
        b == selected_backend(
            requested,
            opt_text(wayland_display),
            opt_text(wayland_socket),
            opt_text(display),
        ),
{
    match requested {
        LinuxBackend::Auto => {
            if env_has_non_empty(&wayland_display) || env_has_non_empty(&wayland_socket) {
                LinuxBackend::Wayland
            } else if env_has_non_empty(&display) {
                LinuxBackend::X11
            } else {
                LinuxBackend::Auto
            }
        },
        explicit => explicit,
    }
}

/// The backend requested by the values of `SLIMJELLY_UNIX_BACKEND` and
/// `WINIT_UNIX_BACKEND` (`None` where unset).
pub fn requested_linux_backend(slim: Option<String>, winit: Option<String>) -> (b: LinuxBackend)
    ensures
        b == requested_backend(opt_text(slim), opt_text(winit)),
{
    if let Some(v) = &slim {
        if let Some(b) = parse_linux_backend(v.as_str()) {
            return b;
        }
    }
    if let Some(v) = &winit {
        if let Some(b) = parse_linux_backend(v.as_str()) {
            return b;
        }
    }
    LinuxBackend::Auto
}

fn backend_label_str(b: LinuxBackend) -> (s: &'static str)
    ensures
        s@ == backend_label(b),
{
    match b {
        LinuxBackend::Auto => "Auto",
        LinuxBackend::X11 => "X11",
        LinuxBackend::Wayland => "Wayland",
    }
}

/// The hint printed when the window could not be opened on `backend`,
/// `debug` being the error's debug text.
pub fn linux_error_hint(debug: &str, backend: LinuxBackend) -> (s: String)
    ensures
        s@ == startup_hint(debug@, backend),
{
    if str_contains(debug, "NoWaylandLib") {
        String::from_str(
            "Wayland runtime libraries are missing. On NixOS run inside a shell with wayland + libxkbcommon + xkeyboard-config + mesa + libglvnd.",
        )
    } else if str_contains(debug, "XNotSupported") {
        String::from_str(
            "X11 runtime libraries are missing. Install libX11 or use Wayland backend if available.",
        )
    } else if str_contains(debug, "XKBNotFound") {
        String::from_str(
            "Wayland keyboard data missing (XKBNotFound). Add xkeyboard-config and set XKB_CONFIG_ROOT to <store>/share/X11/xkb.",
        )
    } else if str_contains(debug, "NoGlutinConfigs") {
        String::from_str(
            "No GL config found. Add mesa + libglvnd (EGL/OpenGL runtime) to your environment.",
        )
    } else {
        let head = concat2("Startup failed on backend ", backend_label_str(backend));
        concat2(head.as_str(), ". Set SLIMJELLY_UNIX_BACKEND=x11 or wayland to override.")
    }
}

/// An explicit request is never overridden by the session.
pub proof fn explicit_backend_stands(
    requested: LinuxBackend,
    wayland_display: Option<Seq<char>>,
    wayland_socket: Option<Seq<char>>,
    display: Option<Seq<char>>,
)
    requires
        requested != LinuxBackend::Auto,
    ensures
        selected_backend(requested, wayland_display, wayland_socket, display) == requested,
{
}

/// The name a backend is shown by parses back to that backend.
pub proof fn backend_label_parses(b: LinuxBackend)
    ensures
        backend_named(backend_label(b)) == Some(b),
{
    reveal_strlit("Auto");
    reveal_strlit("X11");
    reveal_strlit("Wayland");
    reveal_strlit("auto");
    reveal_strlit("x11");
    reveal_strlit("wayland");
    assert(to_ascii_lower("Auto"@) =~= "auto"@);
    assert(to_ascii_lower("X11"@) =~= "x11"@);
    assert(to_ascii_lower("Wayland"@) =~= "wayland"@);
}

} // verus!
