//! Application launch commands.
//!
//! A `LaunchCommand` carries everything needed to start an application:
//! the binary, its arguments, environment files to load, and explicit
//! environment variables.  Running the command is the caller's business.

use vstd::prelude::*;

verus! {

/// Copy a vector of strings, element for element.
pub fn clone_strings(v: &Vec<String>) -> (r: Vec<String>)
    ensures
        r@.len() == v@.len(),
        forall|i: int| 0 <= i < v@.len() ==> (#[trigger] r@[i])@ == v@[i]@,
{
    let mut out: Vec<String> = Vec::new();
    let n = v.len();
    let mut i: usize = 0;
    while i < n
        invariant
            i <= n,
            n == v@.len(),
            out@.len() == i,
            forall|j: int| 0 <= j < i ==> (#[trigger] out@[j])@ == v@[j]@,
        decreases n - i,
    {
        out.push(v[i].clone());
        i = i + 1;
    }
    out
}

/// Copy a vector of key-value string pairs, element for element.
pub fn clone_pairs(v: &Vec<(String, String)>) -> (r: Vec<(String, String)>)
    ensures
        r@.len() == v@.len(),
        forall|i: int|
            0 <= i < v@.len() ==> (#[trigger] r@[i]).0@ == v@[i].0@ && r@[i].1@ == v@[i].1@,
{
    let mut out: Vec<(String, String)> = Vec::new();
    let n = v.len();
    let mut i: usize = 0;
    while i < n
        invariant
            i <= n,
            n == v@.len(),
            out@.len() == i,
            forall|j: int|
                0 <= j < i ==> (#[trigger] out@[j]).0@ == v@[j].0@ && out@[j].1@ == v@[j].1@,
        decreases n - i,
    {
        let p = &v[i];
        out.push((p.0.clone(), p.1.clone()));
        i = i + 1;
    }
    out
}

/// A command to launch an application.
#[derive(Debug)]
pub struct LaunchCommand {
    /// The command or binary to execute.
    pub command: String,
    /// Arguments to pass.
    pub args: Vec<String>,
    /// Environment files to load, as paths.
    pub env_files: Vec<String>,
    /// Explicit environment variables, as key-value pairs.
    pub env: Vec<(String, String)>,
}

impl LaunchCommand {
    /// A command with no arguments and no environment configuration.
    pub fn simple(command: &str) -> (r: Self)
        ensures
            r.command@ == command@,
            r.args@.len() == 0,
            r.env_files@.len() == 0,
            r.env@.len() == 0,
    {
        LaunchCommand {
            command: command.to_owned(),
            args: Vec::new(),
            env_files: Vec::new(),
            env: Vec::new(),
        }
    }

    /// A command with arguments, environment files and variables.
    pub fn advanced(
        command: &str,
        args: Vec<String>,
        env_files: Vec<String>,
        env: Vec<(String, String)>,
    ) -> (r: Self)
        ensures
            r.command@ == command@,
            r.args@ == args@,
            r.env_files@ == env_files@,
            r.env@ == env@,
    {
        LaunchCommand { command: command.to_owned(), args, env_files, env }
    }
}

} // verus!
