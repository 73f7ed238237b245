//! Post-download installation planning for a version-manager utility.
//!
//! Given a downloaded archive, the library plans how it becomes a ready-to-run
//! installed directory tree: it decodes the archive (zip, gzip-compressed tar,
//! or a self-extracting executable image), decides every filesystem action,
//! and hands the ordered action list to the surrounding program, which alone
//! touches the disk.

pub mod descriptor;
pub mod errors;
pub mod install;
pub mod ops;
pub mod paths;
pub mod selfextract;
pub mod targz_backend;
pub mod targz_extract;
pub mod zip_backend;
pub mod zip_extract;
