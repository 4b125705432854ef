//! Detection of disposable cache files: path classification, the directory
//! walk, the scan that builds descriptors, and the report and deletion
//! workflow. All input and output is left to the caller.

pub mod answer;
pub mod category;
pub mod classify;
pub mod descriptor;
pub mod path;
pub mod report;
pub mod scan;
pub mod size;
pub mod text;
pub mod walk;
pub mod workflow;
