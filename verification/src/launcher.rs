//! The launcher's startup plan: everything the main window bootstrapper
//! decides from its inputs — the mode, the window geometry, the content URL,
//! the window chrome, and whether the background runtime is spawned — before
//! any side effect is performed.

use vstd::prelude::*;
use vstd::string::StringExecFns;
use crate::config::Mode;
use crate::config::base_height_spec;
use crate::config::base_size;
use crate::config::base_width_spec;
use crate::config::background_color;
use crate::config::content_url;
use crate::config::content_url_spec;
use crate::config::mode_of_env;
use crate::config::mode_spec;
use crate::config::opt_str_view;
use crate::config::spawns_runtime;
use crate::config::spawns_runtime_spec;
use crate::config::window_decorations;
use crate::config::window_decorations_spec;
use crate::config::window_title;
use crate::geometry::Placement;
use crate::geometry::Scale;
use crate::geometry::compute_placement;
use crate::geometry::frac_wf;
use crate::geometry::placement_matches;
use crate::geometry::scale_wf;
use crate::text::bool_seq;
use crate::text::bool_text;

verus! {

/// Everything window construction needs, computed once from the environment
/// value and the monitor metrics.
pub struct WindowPlan {
    pub mode: Mode,
    pub placement: Placement,
    pub url: String,
    pub title: String,
    pub decorations: bool,
    pub background: (u8, u8, u8, u8),
    pub spawn_runtime: bool,
}

/// Derives the whole startup plan: the mode from `NODE_ENV`, the geometry of
/// the mode's base size centered on the monitor, the mode's content URL and
/// decoration flag, the fixed title and background, and the runtime-spawn
/// decision.
pub fn plan_main_window(node_env: Option<&str>, screen_w: u32, screen_h: u32, s: Scale) -> (p:
    WindowPlan)
    requires
        scale_wf(s),
    ensures
        p.mode == mode_spec(opt_str_view(node_env)),
        placement_matches(
            p.placement,
            screen_w,
            screen_h,
            base_width_spec(p.mode),
            base_height_spec(p.mode),
            s,
        ),
        frac_wf(p.placement.logical_width) && frac_wf(p.placement.logical_height),
        frac_wf(p.placement.x) && frac_wf(p.placement.y),
        frac_wf(p.placement.min_width) && frac_wf(p.placement.min_height),
        p.url@ == content_url_spec(p.mode),
        p.title@ == "ALauncher"@,
        p.decorations == window_decorations_spec(p.mode),
        p.background == (18u8, 18u8, 18u8, 255u8),
        p.spawn_runtime == spawns_runtime_spec(p.mode),
{
    let mode = mode_of_env(node_env);
    let (base_w, base_h) = base_size(mode);
    let placement = compute_placement(screen_w, screen_h, base_w, base_h, s);
    WindowPlan {
        mode,
        placement,
        url: content_url(mode),
        title: window_title(),
        decorations: window_decorations(mode),
        background: background_color(),
        spawn_runtime: spawns_runtime(mode),
    }
}

/// The line logged after the background runtime was spawned.
pub fn runtime_started_message() -> (m: String)
    ensures
        m@ == "runtime.bin started successfully"@,
{
    "runtime.bin started successfully".to_owned()
}

/// The line logged when the background runtime could not be spawned:
/// `error_text` is the spawn error as rendered by the caller, and the two
/// flags say whether the runtime executable and its data file were on disk.
pub fn runtime_failure_message(error_text: &str, runtime_exists: bool, data_exists: bool) -> (m:
    String)
    ensures
        m@ == "failed to start runtime: "@ + error_text@ + ", runtime_path exists="@ + bool_seq(
            runtime_exists,
        ) + ", data_path exists="@ + bool_seq(data_exists),
{
    let mut m: String = "failed to start runtime: ".to_owned();
    m.append(error_text);
    m.append(", runtime_path exists=");
    let rt = bool_text(runtime_exists);
    m.append(rt.as_str());
    m.append(", data_path exists=");
    let dt = bool_text(data_exists);
    m.append(dt.as_str());
    m
}

} // verus!
