//! One process snapshot: an immutable, point-in-time record of a single
//! operating-system process. Values are owned plain data; the shell fills
//! them in from the operating system and the library never mutates one.

use vstd::prelude::*;

verus! {

/// A point-in-time record of one running process.
///
/// `command` is `None` when the operating system could not report the
/// invoking command line; that is distinct from an empty string.
pub struct Process {
    /// Process identifier; unique among concurrently live processes.
    pub pid: u32,
    /// Short process label; may be empty.
    pub name: String,
    /// Last token of the invoking command line, if the OS reported one.
    pub command: Option<String>,
    /// Elapsed time since the process started, in seconds.
    pub runtime: u64,
}

impl Process {
    /// Builds a snapshot from its four plain fields.
    pub fn new(pid: u32, name: String, command: Option<String>, runtime: u64) -> (p: Process)
        ensures
            p.pid == pid,
            p.name == name,
            p.command == command,
            p.runtime == runtime,
    {
        Process { pid, name, command, runtime }
    }
}

} // verus!
