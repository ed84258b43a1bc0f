//! Supervision of a long-running child process: a bounded log of its
//! output, line filtering, restart coordination over loopback, and log-file
//! rotation.

pub mod ring;
pub mod text;
pub mod pump;
pub mod clock;
pub mod supervisor;
pub mod ipc;
pub mod logwriter;
pub mod settings;
pub mod update;
