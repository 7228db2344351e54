//! Core logic of a directory-tree sync agent: resolving watch roots, turning
//! file-creation notifications into upload jobs exactly once, and driving the
//! multipart upload protocol. All input and output is left to the caller; the
//! functions here decide what to do next from plain values.

pub mod config;
pub mod controller;
pub mod database;
pub mod file;
pub mod paths;
pub mod text;
pub mod uploader;
pub mod watcher;
