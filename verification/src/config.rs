//! Settings of the service.
//!
//! The address and the port to listen on are required. The connection
//! string and the owner's email fall back to a placeholder, with a line
//! that says so.

use vstd::prelude::*;

verus! {

/// A setting as it is used: its value, and a line to write out where the
/// value is the placeholder.
#[derive(Clone, Debug, PartialEq, Eq)]
pub struct Setting {
    pub value: String,
    pub notice: Option<String>,
}

/// The value that stands in for a setting that is not set.
pub open spec fn placeholder() -> Seq<char> {
    "default_value"@
}

/// The line that tells that a setting is not set.
pub open spec fn unset_text(name: Seq<char>) -> Seq<char> {
    name + " is not set, using default value"@
}

/// A setting that may fall back to the placeholder: the configured value
/// where there is one, else the placeholder and a line that says so.
pub fn setting(name: &str, configured: Option<String>) -> (s: Setting)
    ensures
        match configured {
            Some(value) => s.value@ == value@ && s.notice is None,
            None => s.value@ == placeholder() && (s.notice matches Some(line) && line@
                == unset_text(name@)),
        },
{
    match configured {
        Some(value) => Setting { value, notice: None },
        None => {
            let mut line = name.to_owned();
            line.append(" is not set, using default value");
            Setting { value: "default_value".to_owned(), notice: Some(line) }
        },
    }
}

/// A required setting that is not set.
#[derive(Clone, Copy, Debug, PartialEq, Eq, Structural)]
pub enum Missing {
    Address,
    Port,
}

/// The address to listen on: the host, a colon and the port. Both are
/// required; the host is asked for first.
pub fn listener_address(address: Option<String>, port: Option<String>) -> (r: Result<
    String,
    Missing,
>)
    ensures
        match (address, port) {
            (Some(host), Some(number)) => r matches Ok(text) && text@ == host@ + seq![':']
                + number@,
            (Some(_), None) => r == Err::<String, Missing>(Missing::Port),
            (None, _) => r == Err::<String, Missing>(Missing::Address),
        },
{
    match address {
        None => Err(Missing::Address),
        Some(host) => match port {
            None => Err(Missing::Port),
            Some(number) => {
                proof {
                    reveal_strlit(":");
                    assert(":"@ =~= seq![':']);
                }
                let mut text = host;
                text.append(":");
                text.append(number.as_str());
                Ok(text)
            },
        },
    }
}

/// The greeting that the root path answers with.
pub fn root() -> (greeting: &'static str)
    ensures
        greeting@ == "Hello, JM AAcera man!"@,
{
    "Hello, JM AAcera man!"
}

} // verus!
