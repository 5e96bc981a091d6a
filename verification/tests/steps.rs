use xclod::convert::{
    ConvertAction, ConvertEvent, ConvertJob, ConvertState, InputKind, convert_accepts,
    convert_start, convert_step,
};
use xclod::extract::{
    ExiftoolRun, ExtractAction, ExtractEvent, ExtractJob, ExtractState, extract_accepts,
    extract_start, extract_step,
};

fn strings(items: &[&str]) -> Vec<String> {
    items.iter().map(|s| s.to_string()).collect()
}

fn job() -> ExtractJob {
    ExtractJob {
        input: "/v/a.mov".to_string(),
        output_root: "/j/KS1".to_string(),
        sample_name: "S1".to_string(),
        fps: 4,
    }
}

#[test]
fn extraction_runs_its_steps_in_order() {
    let job = job();
    let (s, a) = extract_start(&job);
    assert_eq!(s, ExtractState::CheckingInput);
    assert_eq!(a, ExtractAction::CheckInput("/v/a.mov".to_string()));

    let ev = ExtractEvent::InputChecked(true);
    assert!(extract_accepts(&s, &ev));
    let (s, a) = extract_step(&job, s, ev);
    assert_eq!(a, ExtractAction::CreateDir("/j/KS1/S1".to_string()));

    let (s, a) = extract_step(&job, s, ExtractEvent::FramesDirCreated);
    assert_eq!(a, ExtractAction::SetUpFfmpeg);

    let (s, a) = extract_step(&job, s, ExtractEvent::FfmpegReady);
    match &a {
        ExtractAction::RunFfmpeg(args) => {
            assert_eq!(args[2], "/v/a.mov");
            assert_eq!(args[6], "fps=4");
            assert_eq!(args[23], "/j/KS1/S1/frame_%03d.jpg");
        }
        other => panic!("expected ffmpeg, got {other:?}"),
    }

    assert!(!extract_accepts(&s, &ExtractEvent::MetadataCopied));
    let (s, a) = extract_step(&job, s, ExtractEvent::FfmpegEnded(true, vec![]));
    assert_eq!(a, ExtractAction::ListFrames("/j/KS1/S1".to_string()));

    let listed = strings(&["/j/KS1/S1/frame_001.jpg", "/j/KS1/S1/notes.txt", "/j/KS1/S1/frame_002.JPG"]);
    let (s, a) = extract_step(&job, s, ExtractEvent::FramesListed(listed));
    let run = |frame: &str| ExiftoolRun {
        frame: frame.to_string(),
        args: strings(&[
            "-quiet", "-overwrite_original", "-ee", "-TagsFromFile", "/v/a.mov", "-all:all",
            "-unsafe", "-icc_profile", frame,
        ]),
    };
    assert_eq!(
        a,
        ExtractAction::CopyMetadata(vec![
            run("/j/KS1/S1/frame_001.jpg"),
            run("/j/KS1/S1/frame_002.JPG"),
        ])
    );

    let (s, a) = extract_step(&job, s, ExtractEvent::MetadataCopied);
    assert_eq!(s, ExtractState::Done);
    assert_eq!(a, ExtractAction::Finish("/j/KS1/S1".to_string()));
    assert!(!extract_accepts(&s, &ExtractEvent::MetadataCopied));
}

#[test]
fn extraction_stops_on_missing_input() {
    let job = job();
    let (s, _) = extract_start(&job);
    let (s, a) = extract_step(&job, s, ExtractEvent::InputChecked(false));
    assert_eq!(s, ExtractState::Failed);
    assert_eq!(a, ExtractAction::Fail("/v/a.mov doesn't exist!".to_string()));
}

#[test]
fn no_metadata_copy_after_failed_ffmpeg() {
    let job = job();
    let s = ExtractState::RunningFfmpeg("/j/KS1/S1".to_string());
    let (s, a) = extract_step(&job, s, ExtractEvent::FfmpegEnded(false, strings(&["boom", "bust"])));
    assert_eq!(s, ExtractState::Failed);
    assert_eq!(a, ExtractAction::Fail("ffmpeg error:\nboom\nbust".to_string()));
}

#[test]
fn conversion_runs_its_steps_in_order() {
    let job = ConvertJob { input: "in".to_string(), output_dir: "out".to_string() };
    let (s, a) = convert_start(&job);
    assert_eq!(a, ConvertAction::InspectInput("in".to_string()));
    let ev = ConvertEvent::InputInspected(InputKind::Directory(strings(&["in/b.fbx", "in/a.fbx", "in/x.txt"])));
    assert!(convert_accepts(&s, &ev));
    assert!(!convert_accepts(&s, &ConvertEvent::OutputDirCreated));
    let (s, a) = convert_step(&job, s, ev);
    assert_eq!(s, ConvertState::CreatingOutputDir(strings(&["in/a.fbx", "in/b.fbx"])));
    assert_eq!(a, ConvertAction::CreateDir("out".to_string()));
    let (s, a) = convert_step(&job, s, ConvertEvent::OutputDirCreated);
    assert_eq!(s, ConvertState::Converting(2));
    assert_eq!(a, ConvertAction::RunAssimp(strings(&["in/a.fbx", "in/b.fbx"])));
    let (s, a) = convert_step(&job, s, ConvertEvent::Converted(1));
    assert_eq!(s, ConvertState::Done);
    assert_eq!(a, ConvertAction::Finish(Some("1 of 2 conversion(s) failed!".to_string())));
}

#[test]
fn conversion_fails_before_making_the_output_folder() {
    let job = ConvertJob { input: "in".to_string(), output_dir: "out".to_string() };
    let (s, _) = convert_start(&job);
    let (s, a) = convert_step(&job, s, ConvertEvent::InputInspected(InputKind::Missing));
    assert_eq!(s, ConvertState::Failed);
    assert_eq!(a, ConvertAction::Fail("in doesn't exist".to_string()));
    let (s, _) = convert_start(&job);
    let (_, a) = convert_step(&job, s, ConvertEvent::InputInspected(InputKind::Directory(vec![])));
    assert_eq!(a, ConvertAction::Fail("no .fbx files found in in".to_string()));
    let s = ConvertState::Converting(3);
    let (_, a) = convert_step(&job, s, ConvertEvent::Converted(0));
    assert_eq!(a, ConvertAction::Finish(None));
}
