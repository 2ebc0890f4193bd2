//! Commands that flip or set a flag: `quit`, `clear`, `stop`, `pause`,
//! `timeout_detection` and `version`.

use vstd::prelude::*;
use crate::commands::command_increment::result_view;
use crate::state::{AppState, RenderSettings, VERSION, info_msg, info_text, log_view, logged, with_rs};

verus! {

/// `quit`: the application must exit.
pub open spec fn quit_post(old: AppState, new: AppState, r: Result<(), Seq<char>>) -> bool {
    r is Ok && new == (AppState { quit: true, ..old })
}

/// Asks the application to exit.
pub fn execute_quit(state: &mut AppState, _args: Vec<&str>) -> (r: Result<(), String>)
    ensures
        quit_post(*old(state), *final(state), result_view(r)),
{
    state.quit = true;
    Ok(())
}

/// `clear`: the log is emptied.
pub open spec fn clear_post(old: AppState, new: AppState, r: Result<(), Seq<char>>) -> bool {
    &&& r is Ok
    &&& new == (AppState { log_messages: new.log_messages, ..old })
    &&& log_view(new) == Seq::<Seq<char>>::empty()
}

/// Clears all messages from the log panel.
pub fn execute_clear(state: &mut AppState, _args: Vec<&str>) -> (r: Result<(), String>)
    ensures
        clear_post(*old(state), *final(state), result_view(r)),
{
    state.log_messages.clear();
    proof {
        assert(log_view(*state) =~= Seq::<Seq<char>>::empty());
    }
    Ok(())
}

/// `stop`: all jobs must be removed.
pub open spec fn stop_post(old: AppState, new: AppState, r: Result<(), Seq<char>>) -> bool {
    r is Ok && new == (AppState { remove_jobs: true, ..old })
}

/// Removes all screenshots from the job queue.
pub fn execute_stop(state: &mut AppState, _args: Vec<&str>) -> (r: Result<(), String>)
    ensures
        stop_post(*old(state), *final(state), result_view(r)),
{
    state.remove_jobs = true;
    Ok(())
}

/// The message `pause` logs.
pub open spec fn pause_text(paused: bool) -> Seq<char> {
    if paused { "Job execution paused."@ } else { "Job execution resumed."@ }
}

/// `pause`: job execution is paused or resumed, and the user told so.
pub open spec fn pause_post(old: AppState, new: AppState, r: Result<(), Seq<char>>) -> bool {
    &&& r is Ok
    &&& logged(old, AppState { pause_jobs: !old.pause_jobs, ..old }, new, info_msg(pause_text(!old.pause_jobs)))
}

/// Pauses or resumes parallel job execution.
pub fn execute_pause(state: &mut AppState, _args: Vec<&str>) -> (r: Result<(), String>)
    ensures
        pause_post(*old(state), *final(state), result_view(r)),
{
    state.pause_jobs = !state.pause_jobs;
    state.log_info(if state.pause_jobs { "Job execution paused." } else { "Job execution resumed." });
    Ok(())
}

/// The message `timeout_detection` logs.
pub open spec fn timeout_text(disabled: bool) -> Seq<char> {
    if disabled {
        "GPU timeout detection disabled (not recommended)."@
    } else {
        "GPU timeout detection enabled."@
    }
}

/// `timeout_detection`: GPU timeout detection is switched, and the user told so.
pub open spec fn timeout_detection_post(old: AppState, new: AppState, r: Result<(), Seq<char>>) -> bool {
    let disabled = !old.render_settings.disable_timeout_detection;
    &&& r is Ok
    &&& logged(old, with_rs(old, RenderSettings { disable_timeout_detection: disabled, ..old.render_settings }),
        new, info_msg(timeout_text(disabled)))
}

/// Switches GPU timeout detection on or off.
pub fn execute_timeout_detection(state: &mut AppState, _args: Vec<&str>) -> (r: Result<(), String>)
    ensures
        timeout_detection_post(*old(state), *final(state), result_view(r)),
{
    state.render_settings.disable_timeout_detection = !state.render_settings.disable_timeout_detection;
    state.log_info(
        if state.render_settings.disable_timeout_detection {
            "GPU timeout detection disabled (not recommended)."
        } else {
            "GPU timeout detection enabled."
        },
    );
    Ok(())
}

/// `version`: the version is logged.
pub open spec fn version_post(old: AppState, new: AppState, r: Result<(), Seq<char>>) -> bool {
    &&& r is Ok
    &&& logged(old, old, new, info_text("Rsfrac version"@, "Rsfrac is running version <acc "@ + VERSION@ + ">"@))
}

/// Displays the version of the application.
pub fn execute_version(state: &mut AppState, _args: Vec<&str>) -> (r: Result<(), String>)
    ensures
        version_post(*old(state), *final(state), result_view(r)),
{
    let mut s = String::from_str("Rsfrac is running version <acc ");
    s.append(VERSION);
    s.append(">");
    state.log_info_title("Rsfrac version", s.as_str());
    Ok(())
}

} // verus!
