//! The decisions of the GPU commands: `gpu`, `gpu_info` and `gpu_select`.
//! Finding adapters and initialising one is the front end's work, done
//! between the two halves of a command.

use vstd::prelude::*;
use crate::state::{AppState, RenderSettings, error_msg, info_msg, info_text, logged, redrawn, success_msg, with_rs};
use crate::text::{esc, escaped, join, join_strings, nat_text, parse_usize, parse_usize_spec, strings_view, strs_view, u64_to_text};

verus! {

/// The message of a GPU mode that could not be enabled.
pub open spec fn gpu_init_error_text(err: Seq<char>) -> Seq<char> {
    "GPU mode could not be enabled: "@ + err
}

/// The message of a GPU mode enabled.
pub open spec fn gpu_enabled_text() -> Seq<char> {
    "GPU mode initialized successfully! To benefit from high precision arithmetic you will have to disable it with the <command gpu> command."@
}

/// `s` with GPU mode on or off.
pub open spec fn with_gpu(s: AppState, on: bool) -> AppState {
    with_rs(s, RenderSettings { use_gpu: on, ..s.render_settings })
}

/// First half of `gpu`: in GPU mode, leaves it, logs so and asks a redraw,
/// and returns `false`; otherwise returns `true`: the front end must
/// initialise the GPU, then call `finish_gpu_init`.
pub fn gpu_toggle(state: &mut AppState) -> (init: bool)
    ensures
        init == !old(state).render_settings.use_gpu,
        init ==> *final(state) == *old(state),
        !init ==> logged(*old(state), redrawn(with_gpu(*old(state), false)), *final(state),
            info_msg("GPU mode disabled."@)),
{
    if state.render_settings.use_gpu {
        state.render_settings.use_gpu = false;
        state.log_info("GPU mode disabled.");
        state.request_redraw();
        false
    } else {
        true
    }
}

/// Second half of `gpu`, with the outcome `init_res` of the GPU
/// initialisation: a failure is the command's error; a success enables GPU
/// mode, is logged and asks a redraw.
pub fn finish_gpu_init(state: &mut AppState, init_res: Result<(), String>) -> (r: Result<(), String>)
    ensures
        match init_res {
            Err(e) => r matches Err(m) && m@ == gpu_init_error_text(e@) && *final(state) == *old(state),
            Ok(_) => r is Ok && logged(*old(state), redrawn(with_gpu(*old(state), true)), *final(state),
                success_msg(gpu_enabled_text())),
        },
{
    match init_res {
        Err(e) => {
            let mut s = String::from_str("GPU mode could not be enabled: ");
            s.append(e.as_str());
            Err(s)
        },
        Ok(()) => {
            state.log_success(
                "GPU mode initialized successfully! To benefit from high precision arithmetic you will have to disable it with the <command gpu> command.",
            );
            state.render_settings.use_gpu = true;
            state.request_redraw();
            Ok(())
        },
    }
}

/// What the GPU adapter in use says of itself.
pub struct AdapterInfo {
    pub name: String,
    pub vendor: u32,
    pub device: u32,
    /// The device type, as its debug form writes it.
    pub device_type: String,
    pub driver: String,
    pub driver_info: String,
    /// The backend, as its display form writes it.
    pub backend: String,
}

/// The message `gpu_info` logs about an adapter.
pub open spec fn adapter_info_text(a: AdapterInfo) -> Seq<char> {
    "<blue Name>: "@ + escaped(a.name@) + "\n<blue VendorID>: "@ + nat_text(a.vendor as nat)
        + "\n<blue DeviceID>: "@ + nat_text(a.device as nat) + "\n<blue DeviceType>: "@ + escaped(a.device_type@)
        + "\n<blue Driver>: "@ + escaped(a.driver@) + "\n<blue DriverInfo>: "@ + escaped(a.driver_info@)
        + "\n<blue Backend>: "@ + escaped(a.backend@)
}

/// The message `gpu_info` logs in CPU mode.
pub open spec fn gpu_disabled_text() -> Seq<char> {
    "GPU mode is disabled. You can try to enable it with the <command gpu> command."@
}

/// `gpu_info`: in CPU mode, says so; in GPU mode, describes the adapter in
/// use, `adapter` (which the front end reads in GPU mode).
pub fn execute_gpu_info(state: &mut AppState, adapter: &Option<AdapterInfo>) -> (r: Result<(), String>)
    requires
        old(state).render_settings.use_gpu ==> adapter is Some,
    ensures
        r is Ok,
        !old(state).render_settings.use_gpu ==> logged(*old(state), *old(state), *final(state),
            info_msg(gpu_disabled_text())),
        old(state).render_settings.use_gpu ==> logged(*old(state), *old(state), *final(state),
            info_text("GPU INFO"@, adapter_info_text(adapter->0))),
{
    if !state.render_settings.use_gpu {
        state.log_info("GPU mode is disabled. You can try to enable it with the <command gpu> command.");
        return Ok(());
    }
    match adapter {
        None => Ok(()),
        Some(a) => {
            let mut s = String::from_str("<blue Name>: ");
            let x = esc(a.name.as_str());
            s.append(x.as_str());
            s.append("\n<blue VendorID>: ");
            let x = u64_to_text(a.vendor as u64);
            s.append(x.as_str());
            s.append("\n<blue DeviceID>: ");
            let x = u64_to_text(a.device as u64);
            s.append(x.as_str());
            s.append("\n<blue DeviceType>: ");
            let x = esc(a.device_type.as_str());
            s.append(x.as_str());
            s.append("\n<blue Driver>: ");
            let x = esc(a.driver.as_str());
            s.append(x.as_str());
            s.append("\n<blue DriverInfo>: ");
            let x = esc(a.driver_info.as_str());
            s.append(x.as_str());
            s.append("\n<blue Backend>: ");
            let x = esc(a.backend.as_str());
            s.append(x.as_str());
            state.log_info_title("GPU INFO", s.as_str());
            Ok(())
        },
    }
}

/// The line that lists adapter `i`, described by `desc`.
pub open spec fn adapter_line(i: int, desc: Seq<char>) -> Seq<char> {
    "<acc "@ + nat_text(i as nat) + ">: "@ + escaped(desc)
}

/// The lines that list the adapters described by `descs`.
pub open spec fn adapter_lines(descs: Seq<Seq<char>>) -> Seq<Seq<char>> {
    Seq::new(descs.len(), |i: int| adapter_line(i, descs[i]))
}

/// What the first half of `gpu_select` does, given the descriptions `descs`
/// of the detected adapters: without arguments it lists them; otherwise it
/// returns the index of the adapter to select, or an error when there is no
/// adapter, the argument is not an index, or no adapter has it.
pub open spec fn gpu_select_post(old: AppState, args: Seq<Seq<char>>, descs: Seq<Seq<char>>, new: AppState, r: Result<Option<usize>, Seq<char>>) -> bool {
    if args.len() == 0 {
        r == Ok::<Option<usize>, Seq<char>>(None) && logged(old, old, new, info_text("Detected adapters"@,
            join(adapter_lines(descs), "\n"@)))
    } else if descs.len() == 0 {
        r == Err::<Option<usize>, Seq<char>>("No adapter has been detected. Cannot proceed."@) && new == old
    } else {
        match parse_usize_spec(args[0]) {
            None => r == Err::<Option<usize>, Seq<char>>(
                "The provided argument could not be parsed as an integer."@,
            ) && new == old,
            Some(i) => if i >= descs.len() {
                r == Err::<Option<usize>, Seq<char>>(
                    "Provided index is not associated with any adapter in the adapter list."@,
                ) && new == old
            } else {
                r == Ok::<Option<usize>, Seq<char>>(Some(i)) && new == old
            },
        }
    }
}

fn adapter_list(descs: &Vec<String>) -> (r: Vec<String>)
    ensures
        strings_view(r@) == adapter_lines(strings_view(descs@)),
{
    let ghost want = adapter_lines(strings_view(descs@));
    let mut r: Vec<String> = Vec::new();
    let mut i: usize = 0;
    while i < descs.len()
        invariant
            i <= descs@.len(),
            want == adapter_lines(strings_view(descs@)),
            strings_view(r@) == want.take(i as int),
        decreases descs@.len() - i,
    {
        let mut line = String::from_str("<acc ");
        let n = u64_to_text(i as u64);
        line.append(n.as_str());
        line.append(">: ");
        let d = esc(descs[i].as_str());
        line.append(d.as_str());
        proof {
            assert(strings_view(r@.push(line)) =~= strings_view(r@).push(line@));
            assert(want.take(i + 1) =~= want.take(i as int).push(want[i as int]));
        }
        r.push(line);
        i = i + 1;
    }
    proof {
        assert(want.take(descs@.len() as int) =~= want);
    }
    r
}

/// First half of `gpu_select` (see `gpu_select_post`); the front end then
/// selects the adapter it returns and calls `finish_gpu_select`.
pub fn execute_gpu_select(state: &mut AppState, args: Vec<&str>, descs: &Vec<String>) -> (r: Result<Option<usize>, String>)
    ensures
        gpu_select_post(*old(state), strs_view(args@), strings_view(descs@), *final(state),
            crate::commands::frac::frac_result_view(r)),
{
    if args.len() == 0 {
        let lines = adapter_list(descs);
        let text = join_strings(&lines, "\n");
        state.log_info_title("Detected adapters", text.as_str());
        return Ok(None);
    }
    if descs.len() == 0 {
        return Err(String::from_str("No adapter has been detected. Cannot proceed."));
    }
    match parse_usize(args[0]) {
        None => Err(String::from_str("The provided argument could not be parsed as an integer.")),
        Some(i) => if i >= descs.len() {
            Err(String::from_str("Provided index is not associated with any adapter in the adapter list."))
        } else {
            Ok(Some(i))
        },
    }
}

/// The message of an adapter that failed.
pub open spec fn adapter_failed_text(err: Seq<char>) -> Seq<char> {
    "GPU mode has been disabled because the adapter selected failed due to the following error: "@ + escaped(err)
}

/// The message of an adapter selected, described by `desc`.
pub open spec fn adapter_selected_text(desc: Seq<char>) -> Seq<char> {
    "Successfully enabled GPU mode with adapter: "@ + escaped(desc) + "."@
}

/// Second half of `gpu_select`: `select_res` is what selecting the adapter
/// gave, `desc` the description of the adapter then in use (or the error of
/// reading it). A failed selection is logged, turns GPU mode off and is the
/// command's error; a failed reading is the command's error; otherwise GPU
/// mode is on, the adapter is logged and a redraw asked.
pub fn finish_gpu_select(state: &mut AppState, select_res: Result<(), String>, desc: Result<String, String>) -> (r: Result<(), String>)
    ensures
        match (select_res, desc) {
            (Err(e), _) => r == Err::<(), String>(e) && logged(*old(state), with_gpu(*old(state), false),
                *final(state), error_msg(adapter_failed_text(e@))),
            (Ok(_), Err(e)) => r == Err::<(), String>(e) && *final(state) == *old(state),
            (Ok(_), Ok(d)) => r is Ok && logged(*old(state), redrawn(with_gpu(*old(state), true)), *final(state),
                success_msg(adapter_selected_text(d@))),
        },
{
    match select_res {
        Err(e) => {
            let mut s = String::from_str(
                "GPU mode has been disabled because the adapter selected failed due to the following error: ",
            );
            let x = esc(e.as_str());
            s.append(x.as_str());
            state.log_error(s.as_str());
            state.render_settings.use_gpu = false;
            Err(e)
        },
        Ok(()) => match desc {
            Err(e) => Err(e),
            Ok(d) => {
                state.render_settings.use_gpu = true;
                let mut s = String::from_str("Successfully enabled GPU mode with adapter: ");
                let x = esc(d.as_str());
                s.append(x.as_str());
                s.append(".");
                state.log_success(s.as_str());
                state.request_redraw();
                Ok(())
            },
        },
    }
}

} // verus!
