//! Verified core of TRUEOS RADS: the UI2 project model, the designer
//! operations, the project templates and the text renderers that turn a
//! project into generated files.

pub mod text;
pub mod localcoder;
pub mod ui2_options;
pub mod model;
pub mod designer;
pub mod project_templates;
pub mod templates;
pub mod jobs;
pub mod pipeline;
pub mod ordering;
pub mod file_store;
pub mod watcher;
pub mod env_file;
pub mod generator;
pub mod server;
pub mod samples;
pub mod laws;
