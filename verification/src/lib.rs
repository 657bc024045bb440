//! Markdown to Typst markup, and the decisions of a conversion to PDF.
//!
//! [`source`] reads the events of a Markdown document and [`emitter`] turns events into
//! markup; [`nesting`] says how events nest and what that means for the markup. [`path`] holds
//! the rules on file names, [`job`] the unit of work, [`convert`] the steps of converting one
//! document and [`batch`] those of converting every document under a directory, with its
//! [`report`]. [`rerun`] shows what a whole batch comes to and what running it again does.
//! Reading files, walking directories and running the compiler are left to the caller.

pub mod batch;
pub mod cli;
pub mod convert;
pub mod emitter;
pub mod error;
pub mod event;
pub mod job;
pub mod nesting;
pub mod path;
pub mod report;
pub mod rerun;
pub mod source;
