//! The text with which errors are reported to the user.
use vstd::prelude::*;
use crate::bpf::ParseError;
use crate::cli::CommandError;
use crate::table::TableError;
use crate::text::{concat, decimal, decimal_string, signed_decimal, signed_decimal_string};

verus! {

impl ParseError {
    /// The text that reports the error.
    pub open spec fn text(self) -> Seq<char> {
        match self {
            ParseError::InvalidProgramType { program } => decimal(program as nat) + " is not a valid program type"@,
            ParseError::InvalidProceedOnName { proceedon } => proceedon@ + " is not a valid proceed-on value"@,
            ParseError::InvalidProceedOnValue { proceedon } => signed_decimal(proceedon as int)
                + " is not a valid proceed-on value"@,
            ParseError::InvalidPullPolicyName { pull_policy } => "Invalid bytecode image pull policy: "@
                + pull_policy@,
            ParseError::InvalidPullPolicyValue { pull_policy } => "Invalid bytecode image pull policy: "@
                + signed_decimal(pull_policy as int),
        }
    }

    /// The text that reports the error.
    pub fn message(&self) -> (r: String)
        ensures
            r@ == self.text(),
    {
        match self {
            ParseError::InvalidProgramType { program } => {
                let n = decimal_string(*program as u64);
                concat(n.as_str(), " is not a valid program type")
            },
            ParseError::InvalidProceedOnName { proceedon } => concat(
                proceedon.as_str(),
                " is not a valid proceed-on value",
            ),
            ParseError::InvalidProceedOnValue { proceedon } => {
                let n = signed_decimal_string(*proceedon as i64);
                concat(n.as_str(), " is not a valid proceed-on value")
            },
            ParseError::InvalidPullPolicyName { pull_policy } => concat(
                "Invalid bytecode image pull policy: ",
                pull_policy.as_str(),
            ),
            ParseError::InvalidPullPolicyValue { pull_policy } => {
                let n = signed_decimal_string(*pull_policy as i64);
                concat("Invalid bytecode image pull policy: ", n.as_str())
            },
        }
    }
}

impl CommandError {
    /// The text that reports the error.
    pub open spec fn text(self) -> Seq<char> {
        match self {
            CommandError::InvalidDirection { direction } => direction@ + " is not a valid direction"@,
            CommandError::ProceedOn(e) => "error parsing proceed_on "@ + e.text(),
            CommandError::KprobeNamespaceUnsupported => "kprobe namespace option not supported yet"@,
            CommandError::KretprobeOffsetUnsupported => "kprobe offset option not allowed for kretprobes"@,
            CommandError::UprobeNamespaceUnsupported => "uprobe namespace option not supported yet"@,
            CommandError::UnknownCommand => "Unknown Command"@,
            CommandError::UnknownAttachCommand => "Unknown command"@,
            CommandError::PullPolicy(e) => e.text(),
            CommandError::RegistryAuthNotBase64 { reason } => reason@,
            CommandError::RegistryAuthNotUtf8 { reason } => reason@,
        }
    }

    /// The text that reports the error.
    pub fn message(&self) -> (r: String)
        ensures
            r@ == self.text(),
    {
        match self {
            CommandError::InvalidDirection { direction } => concat(direction.as_str(), " is not a valid direction"),
            CommandError::ProceedOn(e) => {
                let m = e.message();
                concat("error parsing proceed_on ", m.as_str())
            },
            CommandError::KprobeNamespaceUnsupported => String::from_str("kprobe namespace option not supported yet"),
            CommandError::KretprobeOffsetUnsupported => String::from_str(
                "kprobe offset option not allowed for kretprobes",
            ),
            CommandError::UprobeNamespaceUnsupported => String::from_str("uprobe namespace option not supported yet"),
            CommandError::UnknownCommand => String::from_str("Unknown Command"),
            CommandError::UnknownAttachCommand => String::from_str("Unknown command"),
            CommandError::PullPolicy(e) => e.message(),
            CommandError::RegistryAuthNotBase64 { reason } => reason.clone(),
            CommandError::RegistryAuthNotUtf8 { reason } => reason.clone(),
        }
    }
}

impl TableError {
    /// The text that reports the error.
    pub open spec fn text(self) -> Seq<char> {
        match self {
            TableError::ProgramType(e) => e.text(),
            TableError::PullPolicy(e) => e.text(),
            TableError::ProceedOn(e) => "error parsing proceed_on "@ + e.text(),
        }
    }

    /// The text that reports the error.
    pub fn message(&self) -> (r: String)
        ensures
            r@ == self.text(),
    {
        match self {
            TableError::ProgramType(e) => e.message(),
            TableError::PullPolicy(e) => e.message(),
            TableError::ProceedOn(e) => {
                let m = e.message();
                concat("error parsing proceed_on ", m.as_str())
            },
        }
    }
}

/// What is shown once a program is loaded: its kernel id.
pub fn loaded_message(id: u32) -> (r: String)
    ensures
        r@ == decimal(id as nat),
{
    decimal_string(id as u64)
}

/// What is shown once the program with kernel id `id` is unloaded.
pub open spec fn unloaded_text(id: u32) -> Seq<char> {
    "Successfully unloaded program "@ + decimal(id as nat)
}

/// What is shown once the program with kernel id `id` is unloaded.
pub fn unloaded_message(id: u32) -> (r: String)
    ensures
        r@ == unloaded_text(id),
{
    let n = decimal_string(id as u64);
    concat("Successfully unloaded program ", n.as_str())
}

/// What is shown once a bytecode image is pulled.
pub fn pulled_message() -> (r: String)
    ensures
        r@ == "Successfully downloaded bytecode"@,
{
    String::from_str("Successfully downloaded bytecode")
}

/// The line that `get` prints between the daemon's table and the kernel's.
pub fn get_separator() -> (r: String)
    ensures
        r@ == "-------"@,
{
    String::from_str("-------")
}

} // verus!
