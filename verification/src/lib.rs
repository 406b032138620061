//! Whole-list persistence of task records in a single JSON file.
//!
//! The library holds everything about the store but the file system itself:
//!
//! - [`task`]: the task record;
//! - [`json`]: JSON values, which are `serde_json`'s, and what is taken for
//!   granted of them;
//! - [`codec`]: the file format, from a list of tasks to text and back;
//! - [`store`]: what a load answers with, and the steps of a save.
//!
//! A host reads and writes the file. It hands [`store::load_tasks`] what it
//! found, and carries out the steps that [`store::save_tasks`] and
//! [`store::SaveStep::advance`] ask for.

pub mod codec;
pub mod json;
pub mod store;
pub mod task;
