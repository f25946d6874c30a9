//! The sample commands: what each of them does to the files of a corpus,
//! decided from the command and from what is found on disk.

use vstd::prelude::*;
use vstd::string::StringExecFns;
use crate::error::HelperError;
use crate::web::{problem_url, spec_problem_url};

verus! {

/// The commands that work on the samples of a target.
#[derive(Debug, PartialEq, Eq)]
pub enum SamplesSubcommand {
    /// Start an empty corpus for target `name`.
    Init { name: String },
    /// Append one sample to the corpus of target `name`.
    Create { name: String, timeout: u32, memory_limit: u32, points: u32 },
    /// Import the samples of problem `problem_id` into the corpus of target
    /// `name`.
    Lgfetch { name: String, problem_id: String },
}

/// What lies at the path of a corpus directory.
#[derive(Clone, Copy, Debug, PartialEq, Eq, Structural)]
pub enum PathKind {
    /// Nothing.
    Missing,
    /// A directory.
    Directory,
    /// Something that is no directory.
    Occupied,
}

/// One step of a sample command, for the driver to carry out.
#[derive(Debug, PartialEq, Eq)]
pub enum SamplesStep {
    /// Create the directory at `path`.
    CreateDirectory { path: String },
    /// Write a fresh metadata document at `path`.
    CreateCorpus { path: String },
    /// Open the corpus at `path` and append one sample.
    AppendSample { path: String, points: u32, timeout: u32, memory_limit: u32 },
    /// Retrieve the page at `url`, open the corpus at `path` and import the
    /// page's samples.
    ImportSamples { path: String, url: String },
}

/// A `SamplesStep` with its texts as character sequences.
pub enum SamplesStepView {
    CreateDirectory { path: Seq<char> },
    CreateCorpus { path: Seq<char> },
    AppendSample { path: Seq<char>, points: u32, timeout: u32, memory_limit: u32 },
    ImportSamples { path: Seq<char>, url: Seq<char> },
}

impl View for SamplesStep {
    type V = SamplesStepView;

    open spec fn view(&self) -> SamplesStepView {
        match self {
            SamplesStep::CreateDirectory { path } => SamplesStepView::CreateDirectory {
                path: path@,
            },
            SamplesStep::CreateCorpus { path } => SamplesStepView::CreateCorpus { path: path@ },
            SamplesStep::AppendSample { path, points, timeout, memory_limit } =>
                SamplesStepView::AppendSample {
                    path: path@,
                    points: *points,
                    timeout: *timeout,
                    memory_limit: *memory_limit,
                },
            SamplesStep::ImportSamples { path, url } => SamplesStepView::ImportSamples {
                path: path@,
                url: url@,
            },
        }
    }
}

impl DeepView for SamplesStep {
    type V = SamplesStepView;

    open spec fn deep_view(&self) -> SamplesStepView {
        self@
    }
}

/// The directory that holds the corpus of target `name`.
pub open spec fn spec_sample_dir(name: Seq<char>) -> Seq<char> {
    "./"@ + name + ".smpd"@
}

/// The path of the metadata document of the corpus of target `name`.
pub open spec fn spec_corpus_path(name: Seq<char>) -> Seq<char> {
    spec_sample_dir(name) + "/samples_info.json"@
}

/// The steps that make sure of a corpus directory of kind `dir` at `path`;
/// `None` where the path is taken by something else.
pub open spec fn spec_prepare_dir(dir: PathKind, path: Seq<char>) -> Option<Seq<SamplesStepView>> {
    match dir {
        PathKind::Missing => Some(seq![SamplesStepView::CreateDirectory { path }]),
        PathKind::Directory => Some(Seq::empty()),
        PathKind::Occupied => None,
    }
}

/// The steps of a sample command, or the path that is in its way.
///
/// `Init` makes the directory where it is missing and writes a fresh
/// document. `Create` appends to the corpus as it is. `Lgfetch` makes the
/// directory and the document where they are missing and then imports.
pub open spec fn spec_samples(
    subcommand: SamplesSubcommand,
    dir: PathKind,
    has_document: bool,
) -> Result<Seq<SamplesStepView>, Seq<char>> {
    match subcommand {
        SamplesSubcommand::Init { name } => match spec_prepare_dir(dir, spec_sample_dir(name@)) {
            Some(steps) => Ok(
                steps.push(SamplesStepView::CreateCorpus { path: spec_corpus_path(name@) }),
            ),
            None => Err(spec_sample_dir(name@)),
        },
        SamplesSubcommand::Create { name, timeout, memory_limit, points } => Ok(
            seq![
                SamplesStepView::AppendSample {
                    path: spec_corpus_path(name@),
                    points,
                    timeout,
                    memory_limit,
                },
            ],
        ),
        SamplesSubcommand::Lgfetch { name, problem_id } => match spec_prepare_dir(
            dir,
            spec_sample_dir(name@),
        ) {
            Some(steps) => {
                let import = SamplesStepView::ImportSamples {
                    path: spec_corpus_path(name@),
                    url: spec_problem_url(problem_id@),
                };
                if dir == PathKind::Directory && has_document {
                    Ok(steps.push(import))
                } else {
                    Ok(
                        steps.push(
                            SamplesStepView::CreateCorpus { path: spec_corpus_path(name@) },
                        ).push(import),
                    )
                }
            },
            None => Err(spec_sample_dir(name@)),
        },
    }
}

/// The directory that holds the corpus of target `name`.
pub fn sample_dir(name: &str) -> (path: String)
    ensures
        path@ == spec_sample_dir(name@),
{
    let mut path = String::from_str("./");
    path.append(name);
    path.append(".smpd");
    path
}

/// The path of the metadata document of the corpus of target `name`.
pub fn corpus_path(name: &str) -> (path: String)
    ensures
        path@ == spec_corpus_path(name@),
{
    let mut path = sample_dir(name);
    path.append("/samples_info.json");
    path
}

/// Plans a sample command. `dir` says what lies at the path of the corpus
/// directory, `has_document` whether the metadata document exists. A path
/// that is taken by something other than a directory is an I/O failure.
pub fn samples(subcommand: &SamplesSubcommand, dir: PathKind, has_document: bool) -> (r: Result<
    Vec<SamplesStep>,
    HelperError,
>)
    ensures
        match spec_samples(*subcommand, dir, has_document) {
            Ok(steps) => r matches Ok(plan) && plan.deep_view() == steps,
            Err(taken) => r matches Err(HelperError::IOError { path }) && path@ == taken,
        },
{
    let mut plan: Vec<SamplesStep> = Vec::new();
    match subcommand {
        SamplesSubcommand::Init { name } => {
            match dir {
                PathKind::Occupied => {
                    return Err(HelperError::IOError { path: sample_dir(name.as_str()) });
                },
                PathKind::Missing => {
                    plan.push(SamplesStep::CreateDirectory { path: sample_dir(name.as_str()) });
                },
                PathKind::Directory => {},
            }
            plan.push(SamplesStep::CreateCorpus { path: corpus_path(name.as_str()) });
        },
        SamplesSubcommand::Create { name, timeout, memory_limit, points } => {
            plan.push(
                SamplesStep::AppendSample {
                    path: corpus_path(name.as_str()),
                    points: *points,
                    timeout: *timeout,
                    memory_limit: *memory_limit,
                },
            );
        },
        SamplesSubcommand::Lgfetch { name, problem_id } => {
            let mut fresh = !has_document;
            match dir {
                PathKind::Occupied => {
                    return Err(HelperError::IOError { path: sample_dir(name.as_str()) });
                },
                PathKind::Missing => {
                    plan.push(SamplesStep::CreateDirectory { path: sample_dir(name.as_str()) });
                    fresh = true;
                },
                PathKind::Directory => {},
            }
            if fresh {
                plan.push(SamplesStep::CreateCorpus { path: corpus_path(name.as_str()) });
            }
            plan.push(
                SamplesStep::ImportSamples {
                    path: corpus_path(name.as_str()),
                    url: problem_url(problem_id.as_str()),
                },
            );
        },
    }
    Ok(plan)
}

} // verus!
