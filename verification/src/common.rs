//! Types shared by the file operations.

pub mod drive_file;
