use vstd::prelude::*;
use vstd::string::to_string_from_display_ensures;

verus! {

#[verifier::external_type_specification]
#[verifier::external_body]
pub struct ExIoError(std::io::Error);

/// Why a tool call failed.
#[derive(Debug)]
pub enum D2McpError {
    /// The request broke one of the server's rules; the text says which.
    InvalidInput(String),
    /// The `d2` process could not be started.
    Backend(String),
    /// `d2` ran and reported failure; the text holds its diagnostics.
    D2Failed(String),
    /// `d2` ran past its time limit.
    Timeout(String),
    /// A file or pipe operation failed.
    Io(std::io::Error),
}

impl D2McpError {
    /// The human-readable text of the error: a prefix naming the kind of
    /// failure, then its message (for `Io`, the text of the I/O error).
    pub fn message(&self) -> (r: String)
        ensures
            match self {
                D2McpError::InvalidInput(m) => r@ == "invalid input: "@ + m@,
                D2McpError::Backend(m) => r@ == "backend error: "@ + m@,
                D2McpError::D2Failed(m) => r@ == "d2 failed: "@ + m@,
                D2McpError::Timeout(m) => r@ == "timeout: "@ + m@,
                D2McpError::Io(e) => exists|t: String|
                    to_string_from_display_ensures::<std::io::Error>(e, t) && r@ == "io error: "@
                        + t@,
            },
    {
        match self {
            D2McpError::InvalidInput(m) => {
                let mut s = String::from_str("invalid input: ");
                s.append(m.as_str());
                s
            },
            D2McpError::Backend(m) => {
                let mut s = String::from_str("backend error: ");
                s.append(m.as_str());
                s
            },
            D2McpError::D2Failed(m) => {
                let mut s = String::from_str("d2 failed: ");
                s.append(m.as_str());
                s
            },
            D2McpError::Timeout(m) => {
                let mut s = String::from_str("timeout: ");
                s.append(m.as_str());
                s
            },
            D2McpError::Io(e) => {
                let mut s = String::from_str("io error: ");
                let t = e.to_string();
                s.append(t.as_str());
                s
            },
        }
    }
}

impl vstd::std_specs::convert::FromSpecImpl<std::io::Error> for D2McpError {
    open spec fn obeys_from_spec() -> bool {
        true
    }

    open spec fn from_spec(v: std::io::Error) -> Self {
        D2McpError::Io(v)
    }
}

impl From<std::io::Error> for D2McpError {
    fn from(value: std::io::Error) -> (r: Self) {
        D2McpError::Io(value)
    }
}

} // verus!
