//! Development/production configuration: the mode selected by the `NODE_ENV`
//! value, the physical base window size, whether the background runtime is
//! spawned, and the content source of the main window.

use vstd::prelude::*;

verus! {

#[derive(Clone, Copy, PartialEq, Eq, Structural, Debug)]
pub enum Mode {
    Development,
    Production,
}

/// View of an optional environment value as an optional character sequence.
pub open spec fn opt_str_view(v: Option<&str>) -> Option<Seq<char>> {
    match v {
        Some(s) => Some(s@),
        None => None,
    }
}

/// The mode selected by the `NODE_ENV` value: development exactly when the
/// variable is set to `"development"`; any other value, or none, means
/// production.
pub open spec fn mode_spec(v: Option<Seq<char>>) -> Mode {
    match v {
        Some(s) => if s == "development"@ {
            Mode::Development
        } else {
            Mode::Production
        },
        None => Mode::Production,
    }
}

pub fn mode_of_env(node_env: Option<&str>) -> (m: Mode)
    ensures
        m == mode_spec(opt_str_view(node_env)),
{
    match node_env {
        Some(s) => {
            let v: String = s.to_owned();
            let dev: String = "development".to_owned();
            if v == dev {
                Mode::Development
            } else {
                Mode::Production
            }
        },
        None => Mode::Production,
    }
}

pub open spec fn base_width_spec(m: Mode) -> u32 {
    match m {
        Mode::Development => 500,
        Mode::Production => 1150,
    }
}

pub open spec fn base_height_spec(m: Mode) -> u32 {
    match m {
        Mode::Development => 250,
        Mode::Production => 650,
    }
}

/// The desired physical window size: 500 x 250 in development, 1150 x 650 in
/// production.
pub fn base_size(m: Mode) -> (wh: (u32, u32))
    ensures
        wh.0 == base_width_spec(m),
        wh.1 == base_height_spec(m),
{
    match m {
        Mode::Development => (500, 250),
        Mode::Production => (1150, 650),
    }
}

pub open spec fn spawns_runtime_spec(m: Mode) -> bool {
    m is Production
}

/// Whether the background runtime executable is spawned at startup: it is in
/// production and skipped in development.
pub fn spawns_runtime(m: Mode) -> (b: bool)
    ensures
        b == spawns_runtime_spec(m),
{
    match m {
        Mode::Development => false,
        Mode::Production => true,
    }
}

pub open spec fn content_port_spec(m: Mode) -> u16 {
    match m {
        Mode::Development => 2311,
        Mode::Production => 2310,
    }
}

/// The local port the main window's content is served from: 2311 in
/// development, 2310 in production.
pub fn content_port(m: Mode) -> (p: u16)
    ensures
        p == content_port_spec(m),
{
    match m {
        Mode::Development => 2311,
        Mode::Production => 2310,
    }
}

pub open spec fn content_url_spec(m: Mode) -> Seq<char> {
    match m {
        Mode::Development => "http://localhost:2311"@,
        Mode::Production => "http://localhost:2310"@,
    }
}

/// The URL the main window loads, on the mode's local port.
pub fn content_url(m: Mode) -> (u: String)
    ensures
        u@ == content_url_spec(m),
{
    match m {
        Mode::Development => "http://localhost:2311".to_owned(),
        Mode::Production => "http://localhost:2310".to_owned(),
    }
}

/// The main window's title.
pub fn window_title() -> (t: String)
    ensures
        t@ == "ALauncher"@,
{
    "ALauncher".to_owned()
}

/// The main window's background color, as RGBA channels.
pub fn background_color() -> (c: (u8, u8, u8, u8))
    ensures
        c == (18u8, 18u8, 18u8, 255u8),
{
    (18, 18, 18, 255)
}

pub open spec fn window_decorations_spec(m: Mode) -> bool {
    m is Development
}

/// Whether the main window keeps native decorations: disabled in the
/// production/runtime-backed variant, left at the default in development.
pub fn window_decorations(m: Mode) -> (d: bool)
    ensures
        d == window_decorations_spec(m),
{
    match m {
        Mode::Development => true,
        Mode::Production => false,
    }
}

/// Name of the background runtime executable, resolved beside the running
/// executable.
pub fn runtime_file_name() -> (n: String)
    ensures
        n@ == "runtime.bin"@,
{
    "runtime.bin".to_owned()
}

/// Name of the data file handed to the background runtime.
pub fn data_file_name() -> (n: String)
    ensures
        n@ == "data.bin"@,
{
    "data.bin".to_owned()
}

/// Name of the log file, resolved beside the running executable.
pub fn log_file_name() -> (n: String)
    ensures
        n@ == "ALauncher.log"@,
{
    "ALauncher.log".to_owned()
}

/// The `NODE_ENV` value `"development"` selects the development base size and
/// skips the runtime spawn; every other value, and an unset variable, selects
/// the production base size and attempts the spawn.
pub proof fn lemma_mode_selects_size_and_spawn(v: Option<Seq<char>>)
    ensures
        mode_spec(v) is Development <==> v == Some("development"@),
        base_width_spec(mode_spec(v)) == if v == Some("development"@) {
            500int
        } else {
            1150int
        },
        base_height_spec(mode_spec(v)) == if v == Some("development"@) {
            250int
        } else {
            650int
        },
        spawns_runtime_spec(mode_spec(v)) <==> v != Some("development"@),
{
}

} // verus!
