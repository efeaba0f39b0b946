//! Maps repository URLs onto a `<workspace>/<host>/<organization...>/<repo>`
//! directory layout, and infers host and organization from a directory
//! inside that layout.
//!
//! - `repo_url`: parsed URLs as plain values.
//! - `decompose`: host, organization path and repository name of a URL.
//! - `paths`: tilde expansion, path joining and the clone target.
//! - `infer`: host and organization from the current directory.
//! - `resolve`: the workspace in force, and repository arguments to URLs.
//! - `listing`: the completion of repository names.

pub mod repo_url;
pub mod text;
pub mod decompose;
pub mod paths;
pub mod infer;
pub mod resolve;
pub mod listing;
