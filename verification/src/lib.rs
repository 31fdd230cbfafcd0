pub mod cargo;
pub mod get_lints;
pub mod lint_item;
pub mod output;
pub mod project_path;
pub mod sorting_lints;
pub mod text;
