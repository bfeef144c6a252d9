use vstd::prelude::*;
use vstd::string::*;
use crate::greeting::{greet, greeting_of};

verus! {

/// The commands the host exposes, one per handler.
#[derive(Clone, Copy, PartialEq, Eq, Structural, Debug)]
pub enum Command {
    Greet,
    ReadFile,
    WriteFile,
}

/// The registry as a mapping: which handler a command name reaches, `None`
/// for a name that no handler carries.
pub open spec fn command_of(name: Seq<char>) -> Option<Command> {
    if name == "greet"@ {
        Some(Command::Greet)
    } else if name == "read_file"@ {
        Some(Command::ReadFile)
    } else if name == "write_file"@ {
        Some(Command::WriteFile)
    } else {
        None
    }
}

/// Character-for-character equality of two string slices.
fn str_eq(a: &str, b: &str) -> (r: bool)
    ensures
        r == (a@ == b@),
{
    let alen = a.unicode_len();
    let blen = b.unicode_len();
    if alen != blen {
        return false;
    }
    let mut i: usize = 0;
    while i < alen
        invariant
            0 <= i <= alen,
            alen as nat == a@.len(),
            alen as nat == b@.len(),
            forall|j: int| 0 <= j < i ==> a@[j] == b@[j],
        decreases alen - i,
    {
        if a.get_char(i) != b.get_char(i) {
            return false;
        }
        i = i + 1;
    }
    proof {
        assert(a@ =~= b@);
    }
    true
}

/// Looks a command name up in the registry, established once at process
/// start: the fixed mapping `command_of`, nothing else.
pub fn lookup(name: &str) -> (r: Option<Command>)
    ensures
        r == command_of(name@),
{
    if str_eq(name, "greet") {
        Some(Command::Greet)
    } else if str_eq(name, "read_file") {
        Some(Command::ReadFile)
    } else if str_eq(name, "write_file") {
        Some(Command::WriteFile)
    } else {
        None
    }
}

/// One request as a handler receives it: the command with its arguments
/// already deserialized by the host.
pub enum Request {
    Greet { name: String },
    ReadFile { path: String },
    WriteFile { path: String, content: String },
}

/// What the host must do for one request: reply at once, or perform exactly
/// one filesystem operation and return its outcome to the caller.
pub enum Action {
    Reply(String),
    ReadAt(String),
    WriteAt(String, String),
}

/// Dispatch: decides, synchronously and statelessly, what one request asks
/// of the host. A greeting is answered here; a file operation is handed out
/// with its path and content passed through verbatim, unvalidated.
pub fn plan(req: &Request) -> (a: Action)
    ensures
        match *req {
            Request::Greet { name } => (a matches Action::Reply(r) && r@
                == greeting_of(name@)),
            Request::ReadFile { path } => (a matches Action::ReadAt(p) && p@ == path@),
            Request::WriteFile { path, content } => (a matches Action::WriteAt(p, c) && p@
                == path@ && c@ == content@),
        },
{
    match req {
        Request::Greet { name } => Action::Reply(greet(name.as_str())),
        Request::ReadFile { path } => Action::ReadAt(path.clone()),
        Request::WriteFile { path, content } => Action::WriteAt(path.clone(), content.clone()),
    }
}

} // verus!
