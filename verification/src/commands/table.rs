//! The table of commands: names, aliases, descriptions and accepted
//! argument counts, and the lookup of a command by name or alias.

use vstd::prelude::*;
use crate::text::{case_folded, str_eq, to_lowercase};

verus! {

/// Identifies a command.
#[derive(Clone, Copy, PartialEq, Eq, Structural, Debug)]
pub enum CommandId {
    Help,
    Quit,
    Clear,
    Version,
    Save,
    Load,
    Capture,
    CaptureFit,
    CaptureHq,
    CaptureFormat,
    Gpu,
    Pos,
    Prec,
    MaxIter,
    Color,
    Smoothness,
    Frac,
    ZoomFactor,
    MoveDist,
    ClickMode,
    ChunkSize,
    GpuInfo,
    GpuSelect,
    History,
    LoadRemote,
    Pause,
    Stop,
    TimeoutDetection,
}

/// A command of the command input.
pub struct Command {
    /// Which command this is.
    pub id: CommandId,
    /// The name of the command.
    pub name: &'static str,
    /// Other names of the command.
    pub aliases: Vec<&'static str>,
    /// A basic description of the command.
    pub basic_desc: &'static str,
    /// An optional detailed description of the command.
    pub detailed_desc: Option<&'static str>,
    /// The accepted argument counts.
    pub accepted_arg_count: Vec<usize>,
}

/// How many commands there are.
pub const COMMAND_COUNT: usize = 28;

/// The identifier of command `i`.
pub open spec fn command_id(i: int) -> CommandId {
    if i == 0 { CommandId::Help }
    else if i == 1 { CommandId::Quit }
    else if i == 2 { CommandId::Clear }
    else if i == 3 { CommandId::Version }
    else if i == 4 { CommandId::Save }
    else if i == 5 { CommandId::Load }
    else if i == 6 { CommandId::Capture }
    else if i == 7 { CommandId::CaptureFit }
    else if i == 8 { CommandId::CaptureHq }
    else if i == 9 { CommandId::CaptureFormat }
    else if i == 10 { CommandId::Gpu }
    else if i == 11 { CommandId::Pos }
    else if i == 12 { CommandId::Prec }
    else if i == 13 { CommandId::MaxIter }
    else if i == 14 { CommandId::Color }
    else if i == 15 { CommandId::Smoothness }
    else if i == 16 { CommandId::Frac }
    else if i == 17 { CommandId::ZoomFactor }
    else if i == 18 { CommandId::MoveDist }
    else if i == 19 { CommandId::ClickMode }
    else if i == 20 { CommandId::ChunkSize }
    else if i == 21 { CommandId::GpuInfo }
    else if i == 22 { CommandId::GpuSelect }
    else if i == 23 { CommandId::History }
    else if i == 24 { CommandId::LoadRemote }
    else if i == 25 { CommandId::Pause }
    else if i == 26 { CommandId::Stop }
    else { CommandId::TimeoutDetection }
}

/// The name of command `i`.
pub open spec fn command_name(i: int) -> &'static str {
    if i == 0 { "help" }
    else if i == 1 { "quit" }
    else if i == 2 { "clear" }
    else if i == 3 { "version" }
    else if i == 4 { "save" }
    else if i == 5 { "load" }
    else if i == 6 { "capture" }
    else if i == 7 { "capture_fit" }
    else if i == 8 { "capture_hq" }
    else if i == 9 { "capture_format" }
    else if i == 10 { "gpu" }
    else if i == 11 { "pos" }
    else if i == 12 { "prec" }
    else if i == 13 { "max_iter" }
    else if i == 14 { "color" }
    else if i == 15 { "smoothness" }
    else if i == 16 { "frac" }
    else if i == 17 { "zoom_factor" }
    else if i == 18 { "move_dist" }
    else if i == 19 { "click_mode" }
    else if i == 20 { "chunk_size" }
    else if i == 21 { "gpu_info" }
    else if i == 22 { "gpu_select" }
    else if i == 23 { "history" }
    else if i == 24 { "load_remote" }
    else if i == 25 { "pause" }
    else if i == 26 { "stop" }
    else { "timeout_detection" }
}

/// The aliases of command `i`.
pub open spec fn command_aliases(i: int) -> Seq<&'static str> {
    if i == 0 { seq!["h"] }
    else if i == 1 { seq!["q", "exit", "leave"] }
    else if i == 2 { seq!["c"] }
    else if i == 3 { seq![] }
    else if i == 4 { seq![] }
    else if i == 5 { seq!["l"] }
    else if i == 6 { seq!["cp"] }
    else if i == 7 { seq!["cpf"] }
    else if i == 8 { seq!["chq"] }
    else if i == 9 { seq!["cf"] }
    else if i == 10 { seq![] }
    else if i == 11 { seq![] }
    else if i == 12 { seq![] }
    else if i == 13 { seq!["mi"] }
    else if i == 14 { seq![] }
    else if i == 15 { seq!["sm"] }
    else if i == 16 { seq!["f"] }
    else if i == 17 { seq!["zf"] }
    else if i == 18 { seq![] }
    else if i == 19 { seq![] }
    else if i == 20 { seq!["cs"] }
    else if i == 21 { seq!["gpui", "gi"] }
    else if i == 22 { seq!["gpus", "gs"] }
    else if i == 23 { seq!["hist"] }
    else if i == 24 { seq!["lr"] }
    else if i == 25 { seq!["p"] }
    else if i == 26 { seq!["s"] }
    else { seq!["td"] }
}

/// The accepted argument counts of command `i`.
pub open spec fn command_counts(i: int) -> Seq<usize> {
    if i == 0 { seq![0usize, 1usize] }
    else if i == 1 { seq![0usize] }
    else if i == 2 { seq![0usize] }
    else if i == 3 { seq![0usize] }
    else if i == 4 { seq![0usize, 1usize] }
    else if i == 5 { seq![0usize, 1usize] }
    else if i == 6 { seq![0usize, 1usize, 2usize, 3usize] }
    else if i == 7 { seq![0usize, 1usize, 2usize, 3usize] }
    else if i == 8 { seq![0usize, 1usize] }
    else if i == 9 { seq![0usize, 1usize] }
    else if i == 10 { seq![0usize] }
    else if i == 11 { seq![0usize, 2usize] }
    else if i == 12 { seq![0usize, 1usize, 2usize] }
    else if i == 13 { seq![0usize, 1usize, 2usize] }
    else if i == 14 { seq![0usize, 1usize] }
    else if i == 15 { seq![0usize, 1usize, 2usize] }
    else if i == 16 { seq![0usize, 1usize, 2usize] }
    else if i == 17 { seq![0usize, 1usize] }
    else if i == 18 { seq![0usize, 1usize, 2usize] }
    else if i == 19 { seq![0usize, 2usize] }
    else if i == 20 { seq![0usize, 1usize] }
    else if i == 21 { seq![0usize] }
    else if i == 22 { seq![0usize, 1usize] }
    else if i == 23 { seq![0usize, 1usize] }
    else if i == 24 { seq![1usize] }
    else if i == 25 { seq![0usize] }
    else if i == 26 { seq![0usize] }
    else { seq![0usize] }
}

/// The basic description of command `i`.
pub open spec fn command_basic(i: int) -> &'static str {
    if i == 0 { "Provide information about the available commands." }
    else if i == 1 { "Exit from the state and return to your shell session." }
    else if i == 2 { "Clear all messages from the log panel." }
    else if i == 3 { "Display the version number of Rsfrac." }
    else if i == 4 { "Save the current application state to a file that can be loaded back later with the <command load> command." }
    else if i == 5 { "Restore the app state (canvas size, position...) from a file that was previously created with the <command save> command." }
    else if i == 6 { "Takes a high quality screenshot of the canvas." }
    else if i == 7 { "Takes a high quality screenshot while maintaining the same aspect ratio as your canvas." }
    else if i == 8 { "Takes a <acc VERY> high quality screenshot. You can optionnaly provide a name for the screenshot." }
    else if i == 9 { "Change the image format used to capture screenshots using the <command capture> command." }
    else if i == 10 { "Switch GPU mode on or off. In GPU mode, renders are done using the parallel computing capabilities of your hardware, which greatly improves rendering speeds. Please note that floating point precision is limited to 32 bits for now, but arbitrary precision will be implemementd soon." }
    else if i == 11 { "View or set the position of the canvas in the complex plane." }
    else if i == 12 { "Fine-tune the numeric precision by specifying the desired bit length for numeric values." }
    else if i == 13 { "Change the iteration limit used to determine if a point is converging or diverging." }
    else if i == 14 { "List available color schemes or select the specified one." }
    else if i == 15 { "Changes the smoothness of the color palette, lower values will contrast the adjacent divergences while higher values will look smoother (and better in my opinion)." }
    else if i == 16 { "List available fractals, and provide info about them." }
    else if i == 17 { "View or set the scaling factor used when zooming in or out the canvas." }
    else if i == 18 { "Set or display the move distance, in cell units. If the move distance is set to N, you will move within the canvas by a distance of N cells." }
    else if i == 19 { "Change the action triggered by mouse clicks." }
    else if i == 20 { "Changes the maximum number of lines to render per chunk (use <command help cs> for more info). " }
    else if i == 21 { "Provides details about the GPU in use." }
    else if i == 22 { "Allows you to select which GPU will be used for rendering the canvas and screenshots." }
    else if i == 23 { "Displays and navigates the command history." }
    else if i == 24 { "Load a state file from a URL.State files are created with the <command save> command." }
    else if i == 25 { "Pause or resume parallel job execution, such as screenshots." }
    else if i == 26 { "Removes all screenshots from the job queue." }
    else { "Toggle GPU timeout detection on or off, you should leave this on unless you have a specific reason to disable it." }
}

/// The detailed description of command `i`, if any.
pub open spec fn command_detailed(i: int) -> Option<&'static str> {
    if i == 0 { None }
    else if i == 1 { None }
    else if i == 2 { None }
    else if i == 3 { None }
    else if i == 4 { Some("<green Usage: <command [file path]>>\nSave the current state using the provided file path.\n<green Usage: <command [no args]>>\nSave the current state using a generic name.\n") }
    else if i == 5 { Some("<green Usage: <command [no args]>>\nWhen no args are provided, the state files with the <command rsf> extension in the current working directory will be detected and loaded into a list.\n<green Usage: <command [integer]>>\nLoad the state file corresponding to the provided number in the detection list. Must be ran after <command load>.\n<green Usage: <command cycle>>\nCycle through the state files detected with <command load>. After running the command one time, you can rapidly cycle through all the state files using <command Ctrl+R>, which repeats the last command. \n<green Usage: <command [file path]>>\nLoad the state from the specified path.\n") }
    else if i == 6 { Some("<green Usage: <command [width] [height] [?name]>>\n<green Usage: <command [?name]>>\nTake a screenshot with the specified size or the default of <acc 1920x1080>. The order of the arguments must match the examples above.") }
    else if i == 7 { Some("<green Usage: <command [?name]>>\nCapture a screenshot 1920 pixels wide.\n<green Usage: <command [height/width] [size] [?name]>>\nTake a screenshot with the specified height or width.") }
    else if i == 8 { None }
    else if i == 9 { Some("<green Usage: <command [no args]>>\nDisplay the available file formats.\n<green Usage: <command [file extension]>>\nSelect one of the available image formats.") }
    else if i == 10 { None }
    else if i == 11 { Some("<green Usage: <command [real] [imag]>>\n<green Usage: <command [without args]>>\nIf no arguments are given, display the current position. Else, position the canvas at the provided coordinates. <acc [real]> and <acc [imag]> must be valid floats, instead you can also provide <acc ~> to keep the current value.\n<green Example>: <command pos 0 ~> will set the real part to 0 and keep the imaginary part.") }
    else if i == 12 { Some("<green Usage: <command +/- [increment]>>\n<green Usage: <command [precision]>>\n<green Usage: <command [without args]>>\n- If no arguments are given, display the current precision.\n- If a value is specified directly, set the precision to the given bit-length.\n- If a value is specified alongside an operator, increase of decrease the move precision by the given value.\n<acc [precision]> must be a valid integer.") }
    else if i == 13 { Some("<green Usage: <command +/- [value]>>\n<green Usage: <command [max_iter]>>\n<green Usage: <command [without args]>>\n- If no arguments are given, display the current iteration limit.\n- If a value is specified directly, set the iteration limit to the given value.\n- If a value is specified alongside an operator, increase of decrease the iteration limit by the given value.\n<acc [max_iter]> must be a valid integer.") }
    else if i == 14 { Some("<green Usage: <command [color]>>\n<green Usage: <command [without args]>>\nIf no argument is given, display the available color schemes. Else, select the specified color scheme.") }
    else if i == 15 { Some("<green Usage: <command +/- [value]>>\n<green Usage: <command [smoothness]>>\n<green Usage: <command [without args]>>\n- If no arguments are given, display the smoothness.\n- If a value is specified directly, set the smoothness to the given value.\n- If a value is specified alongside an operator, increase of decrease the smoothness by the given value.\n<acc [smoothness]> must be a valid integer between <acc 1> and <acc 100>.") }
    else if i == 16 { Some("<green Usage: <command [frac]>>\nSelect the provided fractal.\n<green Usage: <command info [frac]>>\nGive info about the specified fractal.\n<green Usage: <command [without args]>>\nList the available fractals.") }
    else if i == 17 { Some("<green Usage: <command [percentage]>>\n<green Usage: <command [without args]>>\nIf no arguments are given, display the current scaling factor. Else, set the scaling factor to the given argument. The scaling factor is a number between ]1 and 500]") }
    else if i == 18 { Some("<green Usage: <command +/- [increment]>>\n<green Usage: <command [distance]>>\n<green Usage: <command [without args]>>\n- If no arguments are given, display the current move distance.\n- If a value is specified directly, set the move distance to the given value.\n- If a value is specified alongside an operator, increase of decrease the move distance by the given value.\n<acc [distance]> must be a valid integer.") }
    else if i == 19 { Some("<green Usage: <command [no args]>>\nShow available click actions.\n<green Usage: <command [button] [action]>>\nConfigure the specified button to trigger the given action. Configurable buttons: <acc left>, <acc middle>, and <acc right>.") }
    else if i == 20 { Some("This is sometimes needed because the GPU can time out under a huge computational, this returning incorrect results. Changing the maximum chunk size can help reduce render passes duration, therefore preventing timeouts and inconsistent results. There are as of today no WGPU apis allowing to know if the GPU job finished or timed out.\n<green Usage: <command [no args]>>\n- Displays the current value\n<green Usage: <command reset>>\n- Reverts the limit to its default value, which is none (no limit).\n<green Usage: <command [value]>>\n- Sets the limit to <acc [value]>. <acc [value]> must be a valid integer between <acc 1> and <acc 10000>.") }
    else if i == 21 { None }
    else if i == 22 { Some("<green Usage: <command [no args]>>\nWhen no args are provided, all the available graphical processors will be listed and associated with a unique index number.\n<green Usage: <command [integer]>>\nEnable GPU mode and select the processor with the specified index.") }
    else if i == 23 { Some("<green Usage: <command [no args]>>\nWhen no args are provided, display all the previous commands and give each of the an index.\n<green Usage: <command [integer]>>\nEdit the command at the specified index. Must be ran after <command history> without arguments.\nIt is also possible to navigate the command history using the up and down arrow keys.\n") }
    else if i == 24 { Some("<green Usage: <command [url]>>\nLoad the state file accessible at the specified URL. ") }
    else if i == 25 { Some("Can be useful if you want to initialize multiple screenshots without being disturbed when the application freezes due to writing the result to disk.") }
    else if i == 26 { None }
    else { None }
}

/// `c` is command `i` of the table.
pub open spec fn is_command(c: Command, i: int) -> bool {
    &&& c.id == command_id(i)
    &&& c.name == command_name(i)
    &&& c.aliases@ == command_aliases(i)
    &&& c.basic_desc == command_basic(i)
    &&& c.detailed_desc == command_detailed(i)
    &&& c.accepted_arg_count@ == command_counts(i)
}

/// Command `i` of the table.
pub fn command_entry(i: usize) -> (c: Command)
    requires
        i < COMMAND_COUNT,
    ensures
        is_command(c, i as int),
{
    if i == 0 {
        let c = Command {
            id: CommandId::Help,
            name: "help",
            aliases: vec!["h"],
            basic_desc: "Provide information about the available commands.",
            detailed_desc: None,
            accepted_arg_count: vec![0, 1],
        };
        assert(c.aliases@ =~= command_aliases(i as int));
        assert(c.accepted_arg_count@ =~= command_counts(i as int));
        c
    } else if i == 1 {
        let c = Command {
            id: CommandId::Quit,
            name: "quit",
            aliases: vec!["q", "exit", "leave"],
            basic_desc: "Exit from the state and return to your shell session.",
            detailed_desc: None,
            accepted_arg_count: vec![0],
        };
        assert(c.aliases@ =~= command_aliases(i as int));
        assert(c.accepted_arg_count@ =~= command_counts(i as int));
        c
    } else if i == 2 {
        let c = Command {
            id: CommandId::Clear,
            name: "clear",
            aliases: vec!["c"],
            basic_desc: "Clear all messages from the log panel.",
            detailed_desc: None,
            accepted_arg_count: vec![0],
        };
        assert(c.aliases@ =~= command_aliases(i as int));
        assert(c.accepted_arg_count@ =~= command_counts(i as int));
        c
    } else if i == 3 {
        let c = Command {
            id: CommandId::Version,
            name: "version",
            aliases: vec![],
            basic_desc: "Display the version number of Rsfrac.",
            detailed_desc: None,
            accepted_arg_count: vec![0],
        };
        assert(c.aliases@ =~= command_aliases(i as int));
        assert(c.accepted_arg_count@ =~= command_counts(i as int));
        c
    } else if i == 4 {
        let c = Command {
            id: CommandId::Save,
            name: "save",
            aliases: vec![],
            basic_desc: "Save the current application state to a file that can be loaded back later with the <command load> command.",
            detailed_desc: Some("<green Usage: <command [file path]>>\nSave the current state using the provided file path.\n<green Usage: <command [no args]>>\nSave the current state using a generic name.\n"),
            accepted_arg_count: vec![0, 1],
        };
        assert(c.aliases@ =~= command_aliases(i as int));
        assert(c.accepted_arg_count@ =~= command_counts(i as int));
        c
    } else if i == 5 {
        let c = Command {
            id: CommandId::Load,
            name: "load",
            aliases: vec!["l"],
            basic_desc: "Restore the app state (canvas size, position...) from a file that was previously created with the <command save> command.",
            detailed_desc: Some("<green Usage: <command [no args]>>\nWhen no args are provided, the state files with the <command rsf> extension in the current working directory will be detected and loaded into a list.\n<green Usage: <command [integer]>>\nLoad the state file corresponding to the provided number in the detection list. Must be ran after <command load>.\n<green Usage: <command cycle>>\nCycle through the state files detected with <command load>. After running the command one time, you can rapidly cycle through all the state files using <command Ctrl+R>, which repeats the last command. \n<green Usage: <command [file path]>>\nLoad the state from the specified path.\n"),
            accepted_arg_count: vec![0, 1],
        };
        assert(c.aliases@ =~= command_aliases(i as int));
        assert(c.accepted_arg_count@ =~= command_counts(i as int));
        c
    } else if i == 6 {
        let c = Command {
            id: CommandId::Capture,
            name: "capture",
            aliases: vec!["cp"],
            basic_desc: "Takes a high quality screenshot of the canvas.",
            detailed_desc: Some("<green Usage: <command [width] [height] [?name]>>\n<green Usage: <command [?name]>>\nTake a screenshot with the specified size or the default of <acc 1920x1080>. The order of the arguments must match the examples above."),
            accepted_arg_count: vec![0, 1, 2, 3],
        };
        assert(c.aliases@ =~= command_aliases(i as int));
        assert(c.accepted_arg_count@ =~= command_counts(i as int));
        c
    } else if i == 7 {
        let c = Command {
            id: CommandId::CaptureFit,
            name: "capture_fit",
            aliases: vec!["cpf"],
            basic_desc: "Takes a high quality screenshot while maintaining the same aspect ratio as your canvas.",
            detailed_desc: Some("<green Usage: <command [?name]>>\nCapture a screenshot 1920 pixels wide.\n<green Usage: <command [height/width] [size] [?name]>>\nTake a screenshot with the specified height or width."),
            accepted_arg_count: vec![0, 1, 2, 3],
        };
        assert(c.aliases@ =~= command_aliases(i as int));
        assert(c.accepted_arg_count@ =~= command_counts(i as int));
        c
    } else if i == 8 {
        let c = Command {
            id: CommandId::CaptureHq,
            name: "capture_hq",
            aliases: vec!["chq"],
            basic_desc: "Takes a <acc VERY> high quality screenshot. You can optionnaly provide a name for the screenshot.",
            detailed_desc: None,
            accepted_arg_count: vec![0, 1],
        };
        assert(c.aliases@ =~= command_aliases(i as int));
        assert(c.accepted_arg_count@ =~= command_counts(i as int));
        c
    } else if i == 9 {
        let c = Command {
            id: CommandId::CaptureFormat,
            name: "capture_format",
            aliases: vec!["cf"],
            basic_desc: "Change the image format used to capture screenshots using the <command capture> command.",
            detailed_desc: Some("<green Usage: <command [no args]>>\nDisplay the available file formats.\n<green Usage: <command [file extension]>>\nSelect one of the available image formats."),
            accepted_arg_count: vec![0, 1],
        };
        assert(c.aliases@ =~= command_aliases(i as int));
        assert(c.accepted_arg_count@ =~= command_counts(i as int));
        c
    } else if i == 10 {
        let c = Command {
            id: CommandId::Gpu,
            name: "gpu",
            aliases: vec![],
            basic_desc: "Switch GPU mode on or off. In GPU mode, renders are done using the parallel computing capabilities of your hardware, which greatly improves rendering speeds. Please note that floating point precision is limited to 32 bits for now, but arbitrary precision will be implemementd soon.",
            detailed_desc: None,
            accepted_arg_count: vec![0],
        };
        assert(c.aliases@ =~= command_aliases(i as int));
        assert(c.accepted_arg_count@ =~= command_counts(i as int));
        c
    } else if i == 11 {
        let c = Command {
            id: CommandId::Pos,
            name: "pos",
            aliases: vec![],
            basic_desc: "View or set the position of the canvas in the complex plane.",
            detailed_desc: Some("<green Usage: <command [real] [imag]>>\n<green Usage: <command [without args]>>\nIf no arguments are given, display the current position. Else, position the canvas at the provided coordinates. <acc [real]> and <acc [imag]> must be valid floats, instead you can also provide <acc ~> to keep the current value.\n<green Example>: <command pos 0 ~> will set the real part to 0 and keep the imaginary part."),
            accepted_arg_count: vec![0, 2],
        };
        assert(c.aliases@ =~= command_aliases(i as int));
        assert(c.accepted_arg_count@ =~= command_counts(i as int));
        c
    } else if i == 12 {
        let c = Command {
            id: CommandId::Prec,
            name: "prec",
            aliases: vec![],
            basic_desc: "Fine-tune the numeric precision by specifying the desired bit length for numeric values.",
            detailed_desc: Some("<green Usage: <command +/- [increment]>>\n<green Usage: <command [precision]>>\n<green Usage: <command [without args]>>\n- If no arguments are given, display the current precision.\n- If a value is specified directly, set the precision to the given bit-length.\n- If a value is specified alongside an operator, increase of decrease the move precision by the given value.\n<acc [precision]> must be a valid integer."),
            accepted_arg_count: vec![0, 1, 2],
        };
        assert(c.aliases@ =~= command_aliases(i as int));
        assert(c.accepted_arg_count@ =~= command_counts(i as int));
        c
    } else if i == 13 {
        let c = Command {
            id: CommandId::MaxIter,
            name: "max_iter",
            aliases: vec!["mi"],
            basic_desc: "Change the iteration limit used to determine if a point is converging or diverging.",
            detailed_desc: Some("<green Usage: <command +/- [value]>>\n<green Usage: <command [max_iter]>>\n<green Usage: <command [without args]>>\n- If no arguments are given, display the current iteration limit.\n- If a value is specified directly, set the iteration limit to the given value.\n- If a value is specified alongside an operator, increase of decrease the iteration limit by the given value.\n<acc [max_iter]> must be a valid integer."),
            accepted_arg_count: vec![0, 1, 2],
        };
        assert(c.aliases@ =~= command_aliases(i as int));
        assert(c.accepted_arg_count@ =~= command_counts(i as int));
        c
    } else if i == 14 {
        let c = Command {
            id: CommandId::Color,
            name: "color",
            aliases: vec![],
            basic_desc: "List available color schemes or select the specified one.",
            detailed_desc: Some("<green Usage: <command [color]>>\n<green Usage: <command [without args]>>\nIf no argument is given, display the available color schemes. Else, select the specified color scheme."),
            accepted_arg_count: vec![0, 1],
        };
        assert(c.aliases@ =~= command_aliases(i as int));
        assert(c.accepted_arg_count@ =~= command_counts(i as int));
        c
    } else if i == 15 {
        let c = Command {
            id: CommandId::Smoothness,
            name: "smoothness",
            aliases: vec!["sm"],
            basic_desc: "Changes the smoothness of the color palette, lower values will contrast the adjacent divergences while higher values will look smoother (and better in my opinion).",
            detailed_desc: Some("<green Usage: <command +/- [value]>>\n<green Usage: <command [smoothness]>>\n<green Usage: <command [without args]>>\n- If no arguments are given, display the smoothness.\n- If a value is specified directly, set the smoothness to the given value.\n- If a value is specified alongside an operator, increase of decrease the smoothness by the given value.\n<acc [smoothness]> must be a valid integer between <acc 1> and <acc 100>."),
            accepted_arg_count: vec![0, 1, 2],
        };
        assert(c.aliases@ =~= command_aliases(i as int));
        assert(c.accepted_arg_count@ =~= command_counts(i as int));
        c
    } else if i == 16 {
        let c = Command {
            id: CommandId::Frac,
            name: "frac",
            aliases: vec!["f"],
            basic_desc: "List available fractals, and provide info about them.",
            detailed_desc: Some("<green Usage: <command [frac]>>\nSelect the provided fractal.\n<green Usage: <command info [frac]>>\nGive info about the specified fractal.\n<green Usage: <command [without args]>>\nList the available fractals."),
            accepted_arg_count: vec![0, 1, 2],
        };
        assert(c.aliases@ =~= command_aliases(i as int));
        assert(c.accepted_arg_count@ =~= command_counts(i as int));
        c
    } else if i == 17 {
        let c = Command {
            id: CommandId::ZoomFactor,
            name: "zoom_factor",
            aliases: vec!["zf"],
            basic_desc: "View or set the scaling factor used when zooming in or out the canvas.",
            detailed_desc: Some("<green Usage: <command [percentage]>>\n<green Usage: <command [without args]>>\nIf no arguments are given, display the current scaling factor. Else, set the scaling factor to the given argument. The scaling factor is a number between ]1 and 500]"),
            accepted_arg_count: vec![0, 1],
        };
        assert(c.aliases@ =~= command_aliases(i as int));
        assert(c.accepted_arg_count@ =~= command_counts(i as int));
        c
    } else if i == 18 {
        let c = Command {
            id: CommandId::MoveDist,
            name: "move_dist",
            aliases: vec![],
            basic_desc: "Set or display the move distance, in cell units. If the move distance is set to N, you will move within the canvas by a distance of N cells.",
            detailed_desc: Some("<green Usage: <command +/- [increment]>>\n<green Usage: <command [distance]>>\n<green Usage: <command [without args]>>\n- If no arguments are given, display the current move distance.\n- If a value is specified directly, set the move distance to the given value.\n- If a value is specified alongside an operator, increase of decrease the move distance by the given value.\n<acc [distance]> must be a valid integer."),
            accepted_arg_count: vec![0, 1, 2],
        };
        assert(c.aliases@ =~= command_aliases(i as int));
        assert(c.accepted_arg_count@ =~= command_counts(i as int));
        c
    } else if i == 19 {
        let c = Command {
            id: CommandId::ClickMode,
            name: "click_mode",
            aliases: vec![],
            basic_desc: "Change the action triggered by mouse clicks.",
            detailed_desc: Some("<green Usage: <command [no args]>>\nShow available click actions.\n<green Usage: <command [button] [action]>>\nConfigure the specified button to trigger the given action. Configurable buttons: <acc left>, <acc middle>, and <acc right>."),
            accepted_arg_count: vec![0, 2],
        };
        assert(c.aliases@ =~= command_aliases(i as int));
        assert(c.accepted_arg_count@ =~= command_counts(i as int));
        c
    } else if i == 20 {
        let c = Command {
            id: CommandId::ChunkSize,
            name: "chunk_size",
            aliases: vec!["cs"],
            basic_desc: "Changes the maximum number of lines to render per chunk (use <command help cs> for more info). ",
            detailed_desc: Some("This is sometimes needed because the GPU can time out under a huge computational, this returning incorrect results. Changing the maximum chunk size can help reduce render passes duration, therefore preventing timeouts and inconsistent results. There are as of today no WGPU apis allowing to know if the GPU job finished or timed out.\n<green Usage: <command [no args]>>\n- Displays the current value\n<green Usage: <command reset>>\n- Reverts the limit to its default value, which is none (no limit).\n<green Usage: <command [value]>>\n- Sets the limit to <acc [value]>. <acc [value]> must be a valid integer between <acc 1> and <acc 10000>."),
            accepted_arg_count: vec![0, 1],
        };
        assert(c.aliases@ =~= command_aliases(i as int));
        assert(c.accepted_arg_count@ =~= command_counts(i as int));
        c
    } else if i == 21 {
        let c = Command {
            id: CommandId::GpuInfo,
            name: "gpu_info",
            aliases: vec!["gpui", "gi"],
            basic_desc: "Provides details about the GPU in use.",
            detailed_desc: None,
            accepted_arg_count: vec![0],
        };
        assert(c.aliases@ =~= command_aliases(i as int));
        assert(c.accepted_arg_count@ =~= command_counts(i as int));
        c
    } else if i == 22 {
        let c = Command {
            id: CommandId::GpuSelect,
            name: "gpu_select",
            aliases: vec!["gpus", "gs"],
            basic_desc: "Allows you to select which GPU will be used for rendering the canvas and screenshots.",
            detailed_desc: Some("<green Usage: <command [no args]>>\nWhen no args are provided, all the available graphical processors will be listed and associated with a unique index number.\n<green Usage: <command [integer]>>\nEnable GPU mode and select the processor with the specified index."),
            accepted_arg_count: vec![0, 1],
        };
        assert(c.aliases@ =~= command_aliases(i as int));
        assert(c.accepted_arg_count@ =~= command_counts(i as int));
        c
    } else if i == 23 {
        let c = Command {
            id: CommandId::History,
            name: "history",
            aliases: vec!["hist"],
            basic_desc: "Displays and navigates the command history.",
            detailed_desc: Some("<green Usage: <command [no args]>>\nWhen no args are provided, display all the previous commands and give each of the an index.\n<green Usage: <command [integer]>>\nEdit the command at the specified index. Must be ran after <command history> without arguments.\nIt is also possible to navigate the command history using the up and down arrow keys.\n"),
            accepted_arg_count: vec![0, 1],
        };
        assert(c.aliases@ =~= command_aliases(i as int));
        assert(c.accepted_arg_count@ =~= command_counts(i as int));
        c
    } else if i == 24 {
        let c = Command {
            id: CommandId::LoadRemote,
            name: "load_remote",
            aliases: vec!["lr"],
            basic_desc: "Load a state file from a URL.State files are created with the <command save> command.",
            detailed_desc: Some("<green Usage: <command [url]>>\nLoad the state file accessible at the specified URL. "),
            accepted_arg_count: vec![1],
        };
        assert(c.aliases@ =~= command_aliases(i as int));
        assert(c.accepted_arg_count@ =~= command_counts(i as int));
        c
    } else if i == 25 {
        let c = Command {
            id: CommandId::Pause,
            name: "pause",
            aliases: vec!["p"],
            basic_desc: "Pause or resume parallel job execution, such as screenshots.",
            detailed_desc: Some("Can be useful if you want to initialize multiple screenshots without being disturbed when the application freezes due to writing the result to disk."),
            accepted_arg_count: vec![0],
        };
        assert(c.aliases@ =~= command_aliases(i as int));
        assert(c.accepted_arg_count@ =~= command_counts(i as int));
        c
    } else if i == 26 {
        let c = Command {
            id: CommandId::Stop,
            name: "stop",
            aliases: vec!["s"],
            basic_desc: "Removes all screenshots from the job queue.",
            detailed_desc: None,
            accepted_arg_count: vec![0],
        };
        assert(c.aliases@ =~= command_aliases(i as int));
        assert(c.accepted_arg_count@ =~= command_counts(i as int));
        c
    } else {
        let c = Command {
            id: CommandId::TimeoutDetection,
            name: "timeout_detection",
            aliases: vec!["td"],
            basic_desc: "Toggle GPU timeout detection on or off, you should leave this on unless you have a specific reason to disable it.",
            detailed_desc: None,
            accepted_arg_count: vec![0],
        };
        assert(c.aliases@ =~= command_aliases(i as int));
        assert(c.accepted_arg_count@ =~= command_counts(i as int));
        c
    }
}

/// Every command, in table order.
pub fn get_commands_list() -> (r: Vec<Command>)
    ensures
        r@.len() == COMMAND_COUNT,
        forall|i: int| 0 <= i < COMMAND_COUNT ==> #[trigger] is_command(r@[i], i),
{
    let mut r: Vec<Command> = Vec::new();
    let mut i: usize = 0;
    while i < COMMAND_COUNT
        invariant
            i <= COMMAND_COUNT,
            r@.len() == i,
            forall|k: int| 0 <= k < i ==> #[trigger] is_command(r@[k], k),
        decreases COMMAND_COUNT - i,
    {
        r.push(command_entry(i));
        i = i + 1;
    }
    r
}

/// Command `i` is called `name`, by its name or by one of its aliases.
pub open spec fn command_called(i: int, name: Seq<char>) -> bool {
    command_name(i)@ == name || exists|j: int| 0 <= j < command_aliases(i).len()
        && #[trigger] command_aliases(i)[j]@ == name
}

/// The first command, from the `i`-th on, called `name`.
pub open spec fn command_lookup_from(name: Seq<char>, i: int) -> Option<int>
    decreases COMMAND_COUNT - i,
{
    if i < 0 || i >= COMMAND_COUNT {
        None
    } else if command_called(i, name) {
        Some(i)
    } else {
        command_lookup_from(name, i + 1)
    }
}

/// The command that `name` designates: the first whose name or an alias is
/// `name` lower-cased.
pub open spec fn command_lookup(name: Seq<char>) -> Option<int> {
    command_lookup_from(case_folded(name), 0)
}

/// A command found by the lookup lies in the table.
pub proof fn lemma_command_lookup_from(name: Seq<char>, i: int)
    ensures
        command_lookup_from(name, i) matches Some(k) ==> 0 <= k < COMMAND_COUNT && i <= k
            && command_called(k, name),
    decreases COMMAND_COUNT - i,
{
    if 0 <= i < COMMAND_COUNT && !command_called(i, name) {
        lemma_command_lookup_from(name, i + 1);
    }
}

/// The index of the command that `name` designates (see `command_lookup`).
pub fn command_index_by_name(name: &str) -> (r: Option<usize>)
    ensures
        match command_lookup(name@) {
            Some(i) => r == Some(i as usize),
            None => r is None,
        },
        r matches Some(i) ==> i < COMMAND_COUNT && command_lookup(name@) == Some(i as int),
{
    proof {
        lemma_command_lookup_from(case_folded(name@), 0);
    }
    let lowered = to_lowercase(name);
    let ghost lname = lowered@;
    let mut i: usize = 0;
    while i < COMMAND_COUNT
        invariant
            i <= COMMAND_COUNT,
            lowered@ == lname,
            lname == case_folded(name@),
            command_lookup_from(lname, 0) == command_lookup_from(lname, i as int),
        decreases COMMAND_COUNT - i,
    {
        let c = command_entry(i);
        if str_eq(c.name, lowered.as_str()) || contains_name(&c.aliases, lowered.as_str()) {
            proof {
                if c.name@ != lname {
                    let j = choose|j: int| 0 <= j < c.aliases@.len() && #[trigger] c.aliases@[j]@ == lname;
                    assert(command_aliases(i as int)[j]@ == lname);
                }
                assert(command_called(i as int, lname));
                assert(command_lookup_from(lname, i as int) == Some(i as int));
            }
            return Some(i);
        }
        i = i + 1;
    }
    None
}

fn contains_name(names: &Vec<&'static str>, name: &str) -> (r: bool)
    ensures
        r == exists|j: int| 0 <= j < names@.len() && #[trigger] names@[j]@ == name@,
{
    let mut j: usize = 0;
    while j < names.len()
        invariant
            j <= names@.len(),
            forall|k: int| 0 <= k < j ==> names@[k]@ != name@,
        decreases names@.len() - j,
    {
        if str_eq(names[j], name) {
            return true;
        }
        j = j + 1;
    }
    false
}

/// Returns the command whose name or one of whose aliases is `name`,
/// ignoring case, and `None` when there is none.
pub fn get_command_by_name(name: &str) -> (r: Option<Command>)
    ensures
        match command_lookup(name@) {
            Some(i) => r matches Some(c) && is_command(c, i),
            None => r is None,
        },
{
    let lowered = to_lowercase(name);
    let ghost lname = lowered@;
    let mut i: usize = 0;
    while i < COMMAND_COUNT
        invariant
            i <= COMMAND_COUNT,
            lowered@ == lname,
            lname == case_folded(name@),
            command_lookup_from(lname, 0) == command_lookup_from(lname, i as int),
        decreases COMMAND_COUNT - i,
    {
        let c = command_entry(i);
        if str_eq(c.name, lowered.as_str()) || contains_name(&c.aliases, lowered.as_str()) {
            proof {
                if c.name@ != lname {
                    let j = choose|j: int| 0 <= j < c.aliases@.len() && #[trigger] c.aliases@[j]@ == lname;
                    assert(command_aliases(i as int)[j]@ == lname);
                }
                assert(command_called(i as int, lname));
                assert(command_lookup_from(lname, i as int) == Some(i as int));
            }
            return Some(c);
        }
        i = i + 1;
    }
    None
}

} // verus!
