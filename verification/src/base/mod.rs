//! Core pieces: retry decisions, file hashing and the directory handle.
pub mod hasher;
pub mod retry;
pub mod scanner;

pub use hasher::compute_file_hash;
pub use scanner::FileScanner;
