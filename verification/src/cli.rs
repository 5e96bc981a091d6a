//! The command line and the decisions that turn it into the paths and
//! settings a command runs with.

use vstd::prelude::*;
use crate::config::{ConvertCfg, ExtractCfg};
use crate::paths::{join_path, joined};

verus! {

/// The parsed command line.
#[derive(Debug, Clone, PartialEq, Eq)]
pub struct Cli {
    pub command: Commands,
}

/// The commands of `xclod`.
#[derive(Debug, Clone, PartialEq, Eq)]
pub enum Commands {
    /// extract frames of a video as jpegs
    Extract {
        /// filename of the video
        input: String,
        /// name of the site folder (i.e. `KS1`)
        output: String,
        /// name of the sample (i.e. `KS1-H1-3`)
        sample_name: String,
        /// frames to extract per second of video (overrides config)
        fps: Option<u8>,
        /// directory containing the input video file (overrides config)
        input_dir: Option<String>,
        /// directory containting the output root directory (overrides config)
        output_dir: Option<String>,
    },
    /// convert Autodesk FBX files to standard OBJ files
    Convert {
        /// an FBX file, or a directory of FBX files, to convert to OBJ files
        input: String,
        /// directory containing the input FBX file(s) (overrides config)
        input_dir: Option<String>,
        /// directory for the output OBJ file(s) (overrides config)
        output_dir: Option<String>,
    },
    /// update persistent settings in the config file; only the settings
    /// passed are changed, and at least one must be passed
    SetSettings {
        extract_input_dir: Option<String>,
        extract_output_dir: Option<String>,
        fps: Option<u8>,
        convert_input_dir: Option<String>,
        convert_output_dir: Option<String>,
        cache_dir: Option<String>,
    },
}

/// The folders and rate an `extract` runs with.
#[derive(Debug, Clone, PartialEq, Eq)]
pub struct ExtractSettings {
    pub input_dir: String,
    pub output_dir: String,
    pub fps: u8,
}

/// The folders a `convert` runs with.
#[derive(Debug, Clone, PartialEq, Eq)]
pub struct ConvertSettings {
    pub input_dir: String,
    pub output_dir: String,
}

/// A flag's text when given, else the configured text.
pub open spec fn flag_or(flag: Option<String>, configured: Seq<char>) -> Seq<char> {
    match flag {
        Some(f) => f@,
        None => configured,
    }
}

fn pick(flag: Option<String>, configured: &String) -> (r: String)
    ensures
        r@ == flag_or(flag, configured@),
{
    match flag {
        Some(f) => f,
        None => configured.clone(),
    }
}

/// Settings of an `extract`: each flag given overrides the configured value.
pub fn extract_settings(
    cfg: &ExtractCfg,
    input_dir: Option<String>,
    output_dir: Option<String>,
    fps: Option<u8>,
) -> (s: ExtractSettings)
    ensures
        s.input_dir@ == flag_or(input_dir, cfg.input_dir@),
        s.output_dir@ == flag_or(output_dir, cfg.output_dir@),
        s.fps == match fps {
            Some(f) => f,
            None => cfg.fps,
        },
{
    let fps = match fps {
        Some(f) => f,
        None => cfg.fps,
    };
    ExtractSettings {
        input_dir: pick(input_dir, &cfg.input_dir),
        output_dir: pick(output_dir, &cfg.output_dir),
        fps,
    }
}

/// Settings of a `convert`: each flag given overrides the configured value.
pub fn convert_settings(cfg: &ConvertCfg, input_dir: Option<String>, output_dir: Option<String>) -> (s:
    ConvertSettings)
    ensures
        s.input_dir@ == flag_or(input_dir, cfg.input_dir@),
        s.output_dir@ == flag_or(output_dir, cfg.output_dir@),
{
    ConvertSettings {
        input_dir: pick(input_dir, &cfg.input_dir),
        output_dir: pick(output_dir, &cfg.output_dir),
    }
}

/// The input looked up in the input folder.
pub fn input_in_dir(input: &str, input_dir: &str) -> (r: String)
    ensures
        r@ == joined(input_dir@, input@),
{
    join_path(input_dir, input)
}

/// Which input a command reads.
#[derive(Debug, Clone, PartialEq, Eq)]
pub enum InputChoice {
    /// this path
    Use(String),
    /// both are files: the user picks one of these, the one in the input
    /// folder first and the one as given second
    Ask(Vec<String>),
}

/// Chooses the input: a path that is not a file is looked up in the input
/// folder; a file that also exists in the input folder leaves the choice to
/// the user; otherwise the file as given.
pub fn choose_input(input: String, in_dir: String, input_is_file: bool, in_dir_is_file: bool) -> (r:
    InputChoice)
    ensures
        !input_is_file ==> r == InputChoice::Use(in_dir),
        input_is_file && !in_dir_is_file ==> r == InputChoice::Use(input),
        input_is_file && in_dir_is_file ==> (r matches InputChoice::Ask(c) && c@ == seq![
            in_dir,
            input,
        ]),
{
    if !input_is_file {
        InputChoice::Use(in_dir)
    } else if !in_dir_is_file {
        InputChoice::Use(input)
    } else {
        let mut c: Vec<String> = Vec::new();
        c.push(in_dir);
        c.push(input);
        InputChoice::Ask(c)
    }
}

/// The input the user picked.
#[derive(Debug, Clone, PartialEq, Eq)]
pub struct PickedInput {
    pub path: String,
    /// the file as given was picked, so paths are taken from the working
    /// directory rather than from the settings
    pub in_working_directory: bool,
}

/// The candidate at `selection`; picking the second (the file as given)
/// means working from the current directory.
pub fn picked_input(candidates: Vec<String>, selection: usize) -> (r: PickedInput)
    requires
        selection < candidates.len(),
    ensures
        r.path == candidates@[selection as int],
        r.in_working_directory == (selection == 1),
{
    let mut candidates = candidates;
    let path = candidates.swap_remove(selection);
    PickedInput { path, in_working_directory: selection == 1 }
}

/// Where `extract` writes: the output as given when working from the current
/// directory, else the output inside the output folder.
pub fn extract_output(output: &str, output_dir: &str, in_working_directory: bool) -> (r: String)
    ensures
        in_working_directory ==> r@ == output@,
        !in_working_directory ==> r@ == joined(output_dir@, output@),
{
    if in_working_directory {
        String::from_str(output)
    } else {
        join_path(output_dir, output)
    }
}

} // verus!
