//! A local judge for competitive-programming solutions.
//!
//! Given a compiled target and a corpus of samples, the judge runs the target
//! on each sample under a time limit, compares what it wrote with what is
//! expected, adds up the points and explains a wrong answer by a diff. The
//! corpus can be filled from the samples of a problem page.
//!
//! The library decides and computes; it reads and writes no file and starts
//! no process. Where files or processes are involved it hands out what is to
//! be done as a value and takes in what came of it:
//!
//! - `samples` holds the corpus: its metadata document, lookup by index,
//!   appending and importing, and the samples as they are judged;
//! - `judge` holds the judging rules and the engine of a run;
//! - `strdiff` renders the positional diff;
//! - `web` extracts the samples from the markup tree of a problem page;
//! - `workspace` gives the compiler call and the file names of a target;
//! - `samples_cli` plans the sample commands;
//! - `markup` and `json_doc` hold markup trees and JSON documents as plain
//!   data and make the calls into the crates that parse and print them;
//! - `text` and `error` hold what the others share.

pub mod error;
pub mod json_doc;
pub mod judge;
pub mod markup;
pub mod samples;
pub mod samples_cli;
pub mod strdiff;
pub mod text;
pub mod web;
pub mod workspace;
