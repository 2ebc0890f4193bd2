//! Runs a command of the table: in the library, or handed back to the front
//! end for commands that need the file system, the network, the GPU,
//! arbitrary-precision numbers or the fractal registry.

use vstd::prelude::*;
use crate::colors::PALETTE_COUNT;
use crate::commands::capture::{capture_post, execute_capture, execute_capture_hq, hq_args};
use crate::commands::capture_format::{IMAGE_FORMAT_COUNT, capture_format_post, execute_capture_format};
use crate::commands::command_increment::result_view;
use crate::commands::help::{execute_help, help_post};
use crate::commands::history::{execute_history, history_post};
use crate::commands::selection::{click_mode_post, color_post, execute_click_mode, execute_color};
use crate::commands::table::{COMMAND_COUNT, CommandId, command_counts, command_id};
use crate::commands::toggles::{
    clear_post, execute_clear, execute_pause, execute_quit, execute_stop, execute_timeout_detection,
    execute_version, pause_post, quit_post, stop_post, timeout_detection_post, version_post,
};
use crate::commands::values::{
    chunk_size_post, execute_chunk_size, execute_max_iter, execute_move_dist, execute_prec,
    execute_smoothness, execute_zoom_factor, max_iter_post, move_dist_post, prec_post, smoothness_post,
    zoom_factor_post,
};
use crate::state::AppState;
use crate::text::strs_view;

verus! {

/// What running a command gave.
pub enum CommandOutcome {
    /// The library ran the command, with this result.
    Done(Result<(), String>),
    /// The front end must run the command.
    Deferred,
}

/// Whether the library runs the command itself.
pub open spec fn runs_in_library(id: CommandId) -> bool {
    match id {
        CommandId::Save | CommandId::Load | CommandId::CaptureFit
        | CommandId::Gpu | CommandId::Pos | CommandId::Frac | CommandId::GpuInfo
        | CommandId::GpuSelect | CommandId::LoadRemote => false,
        _ => true,
    }
}

/// What a command run by the library does (see each `*_post`).
pub open spec fn command_post(id: CommandId, old: AppState, args: Seq<Seq<char>>, new: AppState, r: Result<(), Seq<char>>) -> bool {
    match id {
        CommandId::Help => help_post(old, args, new, r),
        CommandId::Quit => quit_post(old, new, r),
        CommandId::Clear => clear_post(old, new, r),
        CommandId::Version => version_post(old, new, r),
        CommandId::Capture => capture_post(old, args, new, r),
        CommandId::CaptureHq => capture_post(old, hq_args(args), new, r),
        CommandId::CaptureFormat => capture_format_post(old, args, new, r),
        CommandId::Prec => prec_post(old, args, new, r),
        CommandId::MaxIter => max_iter_post(old, args, new, r),
        CommandId::Color => color_post(old, args, new, r),
        CommandId::Smoothness => smoothness_post(old, args, new, r),
        CommandId::ZoomFactor => zoom_factor_post(old, args, new, r),
        CommandId::MoveDist => move_dist_post(old, args, new, r),
        CommandId::ClickMode => click_mode_post(old, args, new, r),
        CommandId::ChunkSize => chunk_size_post(old, args, new, r),
        CommandId::History => history_post(old, args, new, r),
        CommandId::Pause => pause_post(old, new, r),
        CommandId::Stop => stop_post(old, new, r),
        CommandId::TimeoutDetection => timeout_detection_post(old, new, r),
        _ => false,
    }
}

/// What a command needs of the state before it runs.
pub open spec fn command_ready(id: CommandId, s: AppState) -> bool {
    &&& id == CommandId::Color ==> s.render_settings.palette_index < PALETTE_COUNT
    &&& id == CommandId::History ==> s.last_commands@.len() > 0
    &&& id == CommandId::CaptureFormat ==> s.render_settings.image_format < IMAGE_FORMAT_COUNT
}

/// Runs command `i` of the table with `args`, whose count the command
/// accepts. Commands that the library runs return their result; the others
/// are deferred to the front end and leave the state as it was.
pub fn execute_command(i: usize, state: &mut AppState, args: Vec<&str>) -> (o: CommandOutcome)
    requires
        i < COMMAND_COUNT,
        command_counts(i as int).contains(args@.len() as usize),
        command_ready(command_id(i as int), *old(state)),
    ensures
        runs_in_library(command_id(i as int)) ==> (o matches CommandOutcome::Done(r)
            && command_post(command_id(i as int), *old(state), strs_view(args@), *final(state), result_view(r))),
        !runs_in_library(command_id(i as int)) ==> o is Deferred && *final(state) == *old(state),
{
    let id = crate::commands::table::command_entry(i).id;
    proof {
        if id == CommandId::ClickMode {
            assert(command_counts(i as int) =~= seq![0usize, 2usize]);
        }
    }
    match id {
        CommandId::Help => CommandOutcome::Done(execute_help(state, args)),
        CommandId::Quit => CommandOutcome::Done(execute_quit(state, args)),
        CommandId::Clear => CommandOutcome::Done(execute_clear(state, args)),
        CommandId::Version => CommandOutcome::Done(execute_version(state, args)),
        CommandId::Capture => CommandOutcome::Done(execute_capture(state, args)),
        CommandId::CaptureHq => CommandOutcome::Done(execute_capture_hq(state, args)),
        CommandId::CaptureFormat => CommandOutcome::Done(execute_capture_format(state, args)),
        CommandId::Prec => CommandOutcome::Done(execute_prec(state, args)),
        CommandId::MaxIter => CommandOutcome::Done(execute_max_iter(state, args)),
        CommandId::Color => CommandOutcome::Done(execute_color(state, args)),
        CommandId::Smoothness => CommandOutcome::Done(execute_smoothness(state, args)),
        CommandId::ZoomFactor => CommandOutcome::Done(execute_zoom_factor(state, args)),
        CommandId::MoveDist => CommandOutcome::Done(execute_move_dist(state, args)),
        CommandId::ClickMode => CommandOutcome::Done(execute_click_mode(state, args)),
        CommandId::ChunkSize => CommandOutcome::Done(execute_chunk_size(state, args)),
        CommandId::History => CommandOutcome::Done(execute_history(state, args)),
        CommandId::Pause => CommandOutcome::Done(execute_pause(state, args)),
        CommandId::Stop => CommandOutcome::Done(execute_stop(state, args)),
        CommandId::TimeoutDetection => CommandOutcome::Done(execute_timeout_detection(state, args)),
        _ => CommandOutcome::Deferred,
    }
}

} // verus!
