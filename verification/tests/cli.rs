use md2pdf::batch::{convert_directory, BatchAction, BatchEvent, BatchState};
use md2pdf::cli::{Cli, Command, DirArgs, FileArgs};
use md2pdf::emitter::MarkupBuffer;
use md2pdf::event::{Block, Event};
use md2pdf::path::FilePath;

#[test]
fn file_arguments_give_a_job_beside_the_document() {
    let args = FileArgs { input_file: FilePath::new("docs", "a.md"), output_file: None };
    let job = args.job();
    assert_eq!(job.input(), &FilePath::new("docs", "a.md"));
    assert_eq!(job.output(), &FilePath::new("docs", "a.pdf"));
    assert!(job.overwrite());
}

#[test]
fn file_arguments_keep_the_given_output() {
    let args = FileArgs {
        input_file: FilePath::new("docs", "a.md"),
        output_file: Some(FilePath::new("out", "b.pdf")),
    };
    assert_eq!(args.job().output(), &FilePath::new("out", "b.pdf"));
}

#[test]
fn commands_hold_their_arguments() {
    let cli = Cli {
        command: Command::DirectoryBatch(DirArgs {
            input_dir: String::from("."),
            output_dir: None,
            overwrite: false,
        }),
    };
    match cli.command {
        Command::DirectoryBatch(args) => {
            assert_eq!(args.input_dir, ".");
            assert_eq!(args.output_dir, None);
            assert!(!args.overwrite);
        }
        Command::SingleFile(_) => panic!("a batch was asked for"),
    }
}

#[test]
fn batch_tells_the_job_at_work() {
    let args = DirArgs { input_dir: String::from("docs"), output_dir: None, overwrite: false };
    let state = BatchState::new();
    assert!(state.current_job().is_none());
    let (state, _) = convert_directory(&args, state, BatchEvent::Begin);
    let (state, _) = convert_directory(&args, state, BatchEvent::RootChecked(true));
    let entries = vec![FilePath::new("docs", "a.md")];
    let (state, action) = convert_directory(&args, state, BatchEvent::Walked(entries));
    assert_eq!(action, BatchAction::EnsureDirectory(String::from("docs")));
    assert_eq!(state.current_job().unwrap().input(), &FilePath::new("docs", "a.md"));
    let (state, action) = convert_directory(&args, state, BatchEvent::DirectoryReady);
    assert_eq!(action, BatchAction::ProbeOutput(FilePath::new("docs", "a.pdf")));
    let (state, action) = convert_directory(&args, state, BatchEvent::OutputProbed(true));
    assert_eq!(action, BatchAction::Advance(String::from("a.md")));
    assert_eq!(state.report().skipped, 1);
    let (state, action) = convert_directory(&args, state, BatchEvent::Advanced);
    assert_eq!(action, BatchAction::Finish);
    assert!(state.current_job().is_none());
}

#[test]
fn buffer_only_grows() {
    let mut buffer = MarkupBuffer::new();
    buffer.push_event(&Event::Text(String::from("a")));
    buffer.push_event(&Event::Other);
    buffer.push_event(&Event::Code(String::from("b")));
    buffer.push_event(&Event::Start(Block::Item));
    assert_eq!(buffer.finish(), "a`b`\n- ");
    assert_eq!(MarkupBuffer::new().finish(), "");
}
