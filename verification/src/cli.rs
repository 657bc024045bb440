//! What the program is asked to do.

use vstd::prelude::*;
use crate::job::{ConversionJob, single_job_of};
use crate::path::{FilePath, FilePathModel};

verus! {

/// What the program is asked to do.
#[derive(Debug)]
pub struct Cli {
    pub command: Command,
}

/// The two ways to run the program.
#[derive(Debug)]
pub enum Command {
    /// Convert one document.
    SingleFile(FileArgs),
    /// Convert every document under a directory.
    DirectoryBatch(DirArgs),
}

/// What the conversion of one document takes.
#[derive(Debug)]
pub struct FileArgs {
    /// The document.
    pub input_file: FilePath,
    /// Where the PDF goes; beside the document where none is given.
    pub output_file: Option<FilePath>,
}

/// What a batch takes.
#[derive(Debug)]
pub struct DirArgs {
    /// The directory to search for documents.
    pub input_dir: String,
    /// The directory for the PDFs; each goes beside its document where none is given.
    pub output_dir: Option<String>,
    /// Whether a PDF that is already there is written over.
    pub overwrite: bool,
}

/// What a [`DirArgs`] holds, as sequences of characters.
pub struct DirArgsModel {
    pub input_dir: Seq<char>,
    pub output_dir: Option<Seq<char>>,
    pub overwrite: bool,
}

impl View for DirArgs {
    type V = DirArgsModel;

    open spec fn view(&self) -> DirArgsModel {
        DirArgsModel {
            input_dir: self.input_dir@,
            output_dir: match self.output_dir {
                Some(dir) => Some(dir@),
                None => None,
            },
            overwrite: self.overwrite,
        }
    }
}

impl FileArgs {
    /// The job that these arguments ask for.
    pub fn job(&self) -> (job: ConversionJob)
        ensures
            job@ == single_job_of(
                self.input_file@,
                match self.output_file {
                    Some(path) => Some(path@),
                    None => None,
                },
            ),
    {
        ConversionJob::for_file(self.input_file.duplicate(), &self.output_file)
    }
}

} // verus!
