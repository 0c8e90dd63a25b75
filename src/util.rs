use vstd::prelude::*;
use vstd::string::*;

verus! {

/// The display name of an operating system, from its identifier as Rust
/// names it ("windows", "macos", "linux").
pub open spec fn os_display_name(os: Seq<char>) -> Seq<char> {
    if os == "windows"@ {
        "Windows"@
    } else if os == "macos"@ {
        "macOS"@
    } else if os == "linux"@ {
        "Linux"@
    } else {
        "Unknown OS"@
    }
}

pub fn host_os_name(os: &str) -> (r: &'static str)
    ensures
        r@ == os_display_name(os@),
{
    if crate::text::str_eq(os, "windows") {
        "Windows"
    } else if crate::text::str_eq(os, "macos") {
        "macOS"
    } else if crate::text::str_eq(os, "linux") {
        "Linux"
    } else {
        "Unknown OS"
    }
}

/// Why joining a thread gave no result.
#[derive(Clone, Debug)]
pub enum ThreadJoinError {
    /// The thread had not ended when the timeout passed.
    Timeout,
    /// The thread panicked; the text of its panic, where it had one.
    Panic(Option<String>),
}

impl ThreadJoinError {
    pub open spec fn message_text(&self) -> Seq<char> {
        match self {
            ThreadJoinError::Timeout => "Thread join timed out"@,
            ThreadJoinError::Panic(Some(s)) => "Thread panicked: "@ + s@,
            ThreadJoinError::Panic(None) => "Thread panicked with unknown type"@,
        }
    }

    /// The message shown for the error.
    pub fn message(&self) -> (r: String)
        ensures
            r@ == self.message_text(),
    {
        match self {
            ThreadJoinError::Timeout => String::from_str("Thread join timed out"),
            ThreadJoinError::Panic(Some(s)) => {
                let mut t = String::from_str("Thread panicked: ");
                t.append(s.as_str());
                t
            },
            ThreadJoinError::Panic(None) => String::from_str("Thread panicked with unknown type"),
        }
    }
}

} // verus!
