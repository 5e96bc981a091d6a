//! Planning an FBX-to-OBJ conversion with assimp.

use vstd::prelude::*;
use crate::paths::{
    filter_by_extension, has_char, join_path, joined, law_file_name_of_entry, name_stem, opt_text,
    path_stem, plain_name, stem_of, with_extension,
};
use crate::text::{owned, decimal, decimal_string, sort_lex, sorted_lex, texts};

verus! {

/// What the input of a conversion turned out to be.
#[derive(Debug, Clone, PartialEq, Eq)]
pub enum InputKind {
    /// a directory, with the paths of its entries
    Directory(Vec<String>),
    /// a file
    File,
    /// nothing
    Missing,
}

/// Why a conversion cannot start.
#[derive(Debug, Clone, PartialEq, Eq)]
pub enum ConvertError {
    /// the input directory holds no `.fbx` file
    NoFbxFiles(String),
    /// the input does not exist
    DoesNotExist(String),
}

impl ConvertError {
    /// The message shown for this error.
    pub fn message(&self) -> (r: String)
        ensures
            r@ == error_text(*self),
    {
        match self {
            ConvertError::NoFbxFiles(p) => {
                let mut r = owned("no .fbx files found in ");
                r.append(p.as_str());
                r
            },
            ConvertError::DoesNotExist(p) => {
                let mut r = p.clone();
                r.append(" doesn't exist");
                r
            },
        }
    }
}

/// The FBX files to convert, as `fbx_inputs` chooses them.
pub open spec fn fbx_choice(input: String, kind: InputKind, r: Result<Vec<String>, ConvertError>) -> bool {
    match kind {
        InputKind::Directory(entries) => {
            let chosen = with_extension(entries@, "fbx"@);
            &&& chosen.len() == 0 ==> r == Err::<Vec<String>, ConvertError>(
                ConvertError::NoFbxFiles(input),
            )
            &&& chosen.len() > 0 ==> (r matches Ok(files) && sorted_lex(files@)
                && files@.to_multiset() == chosen.to_multiset())
        },
        InputKind::File => r matches Ok(files) && files@ == seq![input],
        InputKind::Missing => r == Err::<Vec<String>, ConvertError>(ConvertError::DoesNotExist(input)),
    }
}

/// The text of the message of an error.
pub open spec fn error_text(e: ConvertError) -> Seq<char> {
    match e {
        ConvertError::NoFbxFiles(p) => "no .fbx files found in "@ + p@,
        ConvertError::DoesNotExist(p) => p@ + " doesn't exist"@,
    }
}

/// The FBX files to convert: for a directory, its entries with extension
/// `fbx` in any ASCII case, sorted (within one directory the text order of
/// the paths is their path order); for a file, the file itself.
pub fn fbx_inputs(input: String, kind: InputKind) -> (r: Result<Vec<String>, ConvertError>)
    ensures
        fbx_choice(input, kind, r),
{
    match kind {
        InputKind::Directory(entries) => {
            let chosen = filter_by_extension(&entries, "fbx");
            if chosen.len() == 0 {
                Err(ConvertError::NoFbxFiles(input))
            } else {
                Ok(sort_lex(chosen))
            }
        },
        InputKind::File => {
            let mut files: Vec<String> = Vec::new();
            files.push(input);
            Ok(files)
        },
        InputKind::Missing => Err(ConvertError::DoesNotExist(input)),
    }
}

/// Where the OBJ file of `fbx` goes: its stem with `.obj`, in the output
/// folder; none when `fbx` has no file name.
pub open spec fn obj_target(output_dir: Seq<char>, fbx: Seq<char>) -> Option<Seq<char>> {
    match path_stem(fbx) {
        Some(stem) => Some(joined(output_dir, stem + ".obj"@)),
        None => None,
    }
}

/// The OBJ file of an FBX entry `dir/name` of the input folder is
/// `output_dir/<stem of name>.obj`: the folders of the input never reach the
/// output name.
pub proof fn law_obj_of_entry(output_dir: Seq<char>, dir: Seq<char>, name: Seq<char>)
    requires
        plain_name(name),
        !has_char(dir, '\\'),
        !has_char(dir, ':'),
        !has_char(name, '\\'),
        !has_char(name, ':'),
        !(dir.len() >= 2 && dir[0] == '/' && dir[1] == '/'),
        dir != seq!['/'],
    ensures
        obj_target(output_dir, dir + seq!['/'] + name) == Some(
            joined(output_dir, name_stem(name) + ".obj"@),
        ),
{
    law_file_name_of_entry(dir, name);
}

/// Computes `obj_target`.
pub fn obj_output_path(output_dir: &str, fbx: &str) -> (r: Option<String>)
    ensures
        opt_text(r) == obj_target(output_dir@, fbx@),
{
    match stem_of(fbx) {
        None => None,
        Some(stem) => {
            let mut name = stem;
            name.append(".obj");
            Some(join_path(output_dir, name.as_str()))
        },
    }
}

/// The arguments that make assimp convert `fbx` to `obj`.
pub fn assimp_args(fbx: &str, obj: &str) -> (r: Vec<String>)
    ensures
        texts(r@) == seq!["export"@, fbx@, obj@],
{
    let mut r: Vec<String> = Vec::new();
    r.push(owned("export"));
    r.push(owned(fbx));
    r.push(owned(obj));
    assert(texts(r@) =~= seq!["export"@, fbx@, obj@]);
    r
}

/// The closing report of a run: a line about failed conversions when there
/// were any.
pub fn conversion_report(failures: u64, total: u64) -> (r: Option<String>)
    ensures
        failures == 0 ==> r is None,
        failures > 0 ==> opt_text(r) == Some(
            decimal(failures as nat) + " of "@ + decimal(total as nat) + " conversion(s) failed!"@,
        ),
{
    if failures == 0 {
        None
    } else {
        let mut r = decimal_string(failures);
        r.append(" of ");
        let t = decimal_string(total);
        r.append(t.as_str());
        r.append(" conversion(s) failed!");
        Some(r)
    }
}

/// What one conversion works on.
#[derive(Debug, Clone, PartialEq, Eq)]
pub struct ConvertJob {
    /// an FBX file, or a directory of FBX files
    pub input: String,
    /// the folder for the OBJ files
    pub output_dir: String,
}

/// Where a conversion stands.
#[derive(Debug, Clone, PartialEq, Eq)]
pub enum ConvertState {
    InspectingInput,
    /// the FBX files are chosen
    CreatingOutputDir(Vec<String>),
    /// this many conversions are running
    Converting(u64),
    Done,
    Failed,
}

/// What the outside work of a step reports back.
#[derive(Debug, Clone, PartialEq, Eq)]
pub enum ConvertEvent {
    /// what the input turned out to be
    InputInspected(InputKind),
    OutputDirCreated,
    /// every assimp run has ended, this many of them failed
    Converted(u64),
}

/// The outside work a conversion asks for next.
#[derive(Debug, Clone, PartialEq, Eq)]
pub enum ConvertAction {
    /// find out whether this is a directory (and list it), a file, or nothing
    InspectInput(String),
    /// create this folder (and its parents)
    CreateDir(String),
    /// run assimp on each of these FBX files (see `obj_output_path` and
    /// `assimp_args`) and wait for all of them
    RunAssimp(Vec<String>),
    /// done, with the report of failed conversions if there were any
    Finish(Option<String>),
    /// stop with this message
    Fail(String),
}

/// The event a state waits for.
pub open spec fn convert_expects(state: ConvertState, event: ConvertEvent) -> bool {
    match state {
        ConvertState::InspectingInput => event is InputInspected,
        ConvertState::CreatingOutputDir(_) => event is OutputDirCreated,
        ConvertState::Converting(_) => event is Converted,
        ConvertState::Done => false,
        ConvertState::Failed => false,
    }
}

/// Decides `convert_expects`.
pub fn convert_accepts(state: &ConvertState, event: &ConvertEvent) -> (r: bool)
    ensures
        r == convert_expects(*state, *event),
{
    match state {
        ConvertState::InspectingInput => matches!(event, ConvertEvent::InputInspected(_)),
        ConvertState::CreatingOutputDir(_) => matches!(event, ConvertEvent::OutputDirCreated),
        ConvertState::Converting(_) => matches!(event, ConvertEvent::Converted(_)),
        ConvertState::Done => false,
        ConvertState::Failed => false,
    }
}

/// A conversion begins by looking at its input.
pub fn convert_start(job: &ConvertJob) -> (r: (ConvertState, ConvertAction))
    ensures
        r.0 == ConvertState::InspectingInput,
        (r.1 matches ConvertAction::InspectInput(p) && p@ == job.input@),
{
    (ConvertState::InspectingInput, ConvertAction::InspectInput(job.input.clone()))
}

/// One step of a conversion: from where it stands and what the last outside
/// work reported, to where it stands next and the next outside work. The
/// FBX files are chosen before the output folder is made; assimp runs only
/// once it is; the conversion finishes only after every run has ended.
pub fn convert_step(job: &ConvertJob, state: ConvertState, event: ConvertEvent) -> (r: (
    ConvertState,
    ConvertAction,
))
    requires
        convert_expects(state, event),
    ensures
        state is InspectingInput ==> match event {
            ConvertEvent::InputInspected(kind) => match r.0 {
                ConvertState::CreatingOutputDir(files) => {
                    &&& fbx_choice(job.input, kind, Ok(files))
                    &&& r.1 == ConvertAction::CreateDir(job.output_dir)
                },
                ConvertState::Failed => exists|e: ConvertError|
                    #![trigger error_text(e)]
                    {
                        &&& fbx_choice(job.input, kind, Err(e))
                        &&& r.1 matches ConvertAction::Fail(m)
                        &&& m@ == error_text(e)
                    },
                _ => false,
            },
            _ => false,
        },
        state matches ConvertState::CreatingOutputDir(files) ==> r == (
            ConvertState::Converting(files.len() as u64),
            ConvertAction::RunAssimp(files),
        ),
        state matches ConvertState::Converting(total) ==> match event {
            ConvertEvent::Converted(failures) => {
                &&& r.0 is Done
                &&& r.1 matches ConvertAction::Finish(report)
                &&& failures == 0 ==> report is None
                &&& failures > 0 ==> opt_text(report) == Some(
                    decimal(failures as nat) + " of "@ + decimal(total as nat)
                        + " conversion(s) failed!"@,
                )
            },
            _ => false,
        },
        r.1 is CreateDir ==> state is InspectingInput,
        r.1 is RunAssimp ==> state is CreatingOutputDir,
        r.1 is Finish ==> state is Converting,
{
    match state {
        ConvertState::InspectingInput => {
            match event {
                ConvertEvent::InputInspected(kind) => {
                    match fbx_inputs(job.input.clone(), kind) {
                        Ok(files) => (
                            ConvertState::CreatingOutputDir(files),
                            ConvertAction::CreateDir(job.output_dir.clone()),
                        ),
                        Err(e) => {
                            let m = e.message();
                            assert(error_text(e) == m@);
                            (ConvertState::Failed, ConvertAction::Fail(m))
                        },
                    }
                },
                _ => (ConvertState::Failed, ConvertAction::Finish(None)),
            }
        },
        ConvertState::CreatingOutputDir(files) => {
            let total = files.len() as u64;
            (ConvertState::Converting(total), ConvertAction::RunAssimp(files))
        },
        ConvertState::Converting(total) => {
            match event {
                ConvertEvent::Converted(failures) => (
                    ConvertState::Done,
                    ConvertAction::Finish(conversion_report(failures, total)),
                ),
                _ => (ConvertState::Failed, ConvertAction::Finish(None)),
            }
        },
        ConvertState::Done => (ConvertState::Failed, ConvertAction::Finish(None)),
        ConvertState::Failed => (ConvertState::Failed, ConvertAction::Finish(None)),
    }
}

} // verus!
