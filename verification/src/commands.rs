//! Commands that the system-DNS flows ask to be run, and how they ended.

use vstd::prelude::*;

verus! {

/// A program and its arguments.
pub struct CommandLine {
    pub program: String,
    pub args: Vec<String>,
}

/// How a command run ended.
pub enum CommandResult {
    /// The command could not be started; the text of the error.
    NotStarted(String),
    /// The command ran: whether it exited with success, and what it wrote.
    Finished { success: bool, stdout: String, stderr: String },
}

/// The texts of a list of strings.
pub open spec fn texts(v: Seq<String>) -> Seq<Seq<char>> {
    v.map_values(|s: String| s@)
}

/// `c` runs `program` with the arguments `args`.
pub open spec fn runs(c: CommandLine, program: Seq<char>, args: Seq<Seq<char>>) -> bool {
    c.program@ == program && texts(c.args@) == args
}

/// Owned copies of the texts `parts`.
pub fn strings(parts: &[&str]) -> (r: Vec<String>)
    ensures
        texts(r@) == parts@.map_values(|s: &str| s@),
{
    let mut r: Vec<String> = Vec::new();
    let mut i: usize = 0;
    while i < parts.len()
        invariant
            i <= parts@.len(),
            r@.len() == i,
            forall|j: int| 0 <= j < i ==> (#[trigger] r@[j])@ == parts@[j]@,
        decreases parts@.len() - i,
    {
        let s = String::from_str(parts[i]);
        r.push(s);
        i = i + 1;
    }
    assert(texts(r@) =~= parts@.map_values(|s: &str| s@));
    r
}

/// `program` with the arguments `args`.
pub fn command(program: &str, args: Vec<String>) -> (r: CommandLine)
    ensures
        r.program@ == program@,
        r.args == args,
{
    CommandLine { program: String::from_str(program), args }
}

/// Whether a probe command (`which`, `networksetup -getdnsservers`) found
/// what it looked for: it ran and exited with success.
pub open spec fn probe_found(r: CommandResult) -> bool {
    match r {
        CommandResult::NotStarted(_) => false,
        CommandResult::Finished { success, .. } => success,
    }
}

/// Whether a probe command found what it looked for.
pub fn probe_found_exec(r: &CommandResult) -> (b: bool)
    ensures
        b == probe_found(*r),
{
    match r {
        CommandResult::NotStarted(_) => false,
        CommandResult::Finished { success, .. } => *success,
    }
}

} // verus!
