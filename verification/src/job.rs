//! One document to convert, and how its conversion ended.

use vstd::prelude::*;
use crate::path::{FilePath, FilePathModel, batch_output, batch_output_of, single_output,
    single_output_of};

verus! {

/// One document to convert: where it is, where its PDF goes, and whether a PDF that is
/// already there is written over. A job does not change once it is made.
#[derive(Debug, PartialEq, Eq)]
pub struct ConversionJob {
    input: FilePath,
    output: FilePath,
    overwrite: bool,
}

/// What a [`ConversionJob`] holds.
pub struct ConversionJobModel {
    pub input: FilePathModel,
    pub output: FilePathModel,
    pub overwrite: bool,
}

impl View for ConversionJob {
    type V = ConversionJobModel;

    closed spec fn view(&self) -> ConversionJobModel {
        ConversionJobModel { input: self.input@, output: self.output@, overwrite: self.overwrite }
    }
}

/// The job of a batch for the document `input`.
pub open spec fn batch_job_of(input: FilePathModel, output_dir: Option<Seq<char>>, overwrite: bool)
    -> ConversionJobModel {
    ConversionJobModel { input, output: batch_output_of(input, output_dir), overwrite }
}

/// The job for a single document. A PDF that is already there is written over.
pub open spec fn single_job_of(input: FilePathModel, output: Option<FilePathModel>)
    -> ConversionJobModel {
    ConversionJobModel { input, output: single_output_of(input, output), overwrite: true }
}

impl ConversionJob {
    /// The job of a batch for the document `input`.
    pub fn for_batch(input: FilePath, output_dir: &Option<String>, overwrite: bool) -> (job:
        ConversionJob)
        ensures
            job@ == batch_job_of(
                input@,
                match *output_dir {
                    Some(dir) => Some(dir@),
                    None => None,
                },
                overwrite,
            ),
    {
        let output = batch_output(&input, output_dir);
        ConversionJob { input, output, overwrite }
    }

    /// The job for a single document.
    pub fn for_file(input: FilePath, output: &Option<FilePath>) -> (job: ConversionJob)
        ensures
            job@ == single_job_of(
                input@,
                match *output {
                    Some(path) => Some(path@),
                    None => None,
                },
            ),
    {
        let resolved = single_output(&input, output);
        ConversionJob { input, output: resolved, overwrite: true }
    }

    /// A copy of this job.
    pub fn duplicate(&self) -> (copy: ConversionJob)
        ensures
            copy@ == self@,
    {
        ConversionJob {
            input: self.input.duplicate(),
            output: self.output.duplicate(),
            overwrite: self.overwrite,
        }
    }

    /// Where the document is.
    pub fn input(&self) -> (input: &FilePath)
        ensures
            input@ == self@.input,
    {
        &self.input
    }

    /// Where the PDF goes.
    pub fn output(&self) -> (output: &FilePath)
        ensures
            output@ == self@.output,
    {
        &self.output
    }

    /// Whether a PDF that is already there is written over.
    pub fn overwrite(&self) -> (overwrite: bool)
        ensures
            overwrite == self@.overwrite,
    {
        self.overwrite
    }
}

/// The models of a sequence of jobs, in the same order.
pub open spec fn job_models(jobs: Seq<ConversionJob>) -> Seq<ConversionJobModel> {
    jobs.map_values(|job: ConversionJob| job@)
}

/// How the conversion of one document ended.
#[derive(Clone, Debug, PartialEq, Eq)]
pub enum ConversionResult {
    Success,
    /// Holds the message of the error.
    Failure(String),
}

/// What a [`ConversionResult`] holds.
pub enum ConversionResultModel {
    Success,
    Failure(Seq<char>),
}

impl View for ConversionResult {
    type V = ConversionResultModel;

    open spec fn view(&self) -> ConversionResultModel {
        match *self {
            ConversionResult::Success => ConversionResultModel::Success,
            ConversionResult::Failure(message) => ConversionResultModel::Failure(message@),
        }
    }
}

} // verus!
