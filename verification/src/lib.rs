//! A POSIX process-supervision library: a `ShellProc` starts an external
//! program as a child process, exchanges data with it over named pipes,
//! tracks its liveness and guarantees that it is terminated and reaped,
//! together with a set of small verified utilities.

pub mod bucket;
pub mod canvas;
pub mod command;
pub mod console;
pub mod cursor;
pub mod errcode;
pub mod error;
pub mod fileutil;
pub mod hexstr;
pub mod list;
pub mod negotiation;
pub mod notes;
pub mod pipe;
pub mod range;
pub mod serializer;
pub mod strutil;
pub mod subproc;
pub mod users;
pub mod view;

pub(crate) mod fd;
