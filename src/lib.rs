//! Load-once, attach-once pipeline for early-receive-hook (XDP) packet programs.
//!
//! The library holds the pipeline's decisions: which hook mode is in effect,
//! how the program image is copied into the loader's buffer, where tables are
//! published, and which stage comes next given what the last one reported.
//! Talking to the kernel, the filesystem and the logger is left to the caller.
pub mod image;
pub mod mode;
pub mod pipeline;
pub mod tables;

pub use image::fill_image;
pub use mode::{select_mode, HookMode, ModePolicy, ModeSelection};
pub use pipeline::{Action, AttachCause, Event, Phase, Pipeline, ProgramKind, RunError};
pub use tables::{table_path, BPF_FS_ROOT};
