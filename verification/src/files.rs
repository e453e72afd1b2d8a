//! Operations on remote files and folders.

pub mod copy_folder;
