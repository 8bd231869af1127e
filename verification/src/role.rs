//! Role selection: a process runs as exactly one of two roles, chosen by a
//! configured flag value. Exactly two values are accepted; any other value
//! selects no loop at all.

use vstd::prelude::*;
use vstd::string::StringExecFns;

verus! {

/// The role a process runs as: an emitting device or an observing dashboard.
#[derive(Debug, Clone, Copy, PartialEq, Eq, Structural)]
pub enum ServerType {
    /// Emitting device: publishes one heartbeat per second.
    Pub,
    /// Observing dashboard: reports heartbeats as they arrive.
    Sub,
}

impl ServerType {
    /// The flag value that selects this role.
    pub fn label(&self) -> (r: &'static str)
        ensures
            *self is Pub ==> r@ == "pub"@,
            *self is Sub ==> r@ == "sub"@,
    {
        match self {
            ServerType::Pub => "pub",
            ServerType::Sub => "sub",
        }
    }
}

/// Choose the role from the configured flag value. Exactly `pub` and `sub`
/// are accepted; any other value yields no role, and the caller must report
/// an error and start no loop.
pub fn parse_server_type(s: &str) -> (r: Option<ServerType>)
    ensures
        r == (if s@ == "pub"@ {
            Some(ServerType::Pub)
        } else if s@ == "sub"@ {
            Some(ServerType::Sub)
        } else {
            None::<ServerType>
        }),
{
    let t = s.to_owned();
    let p = String::from_str("pub");
    if t == p {
        Some(ServerType::Pub)
    } else {
        let q = String::from_str("sub");
        if t == q {
            Some(ServerType::Sub)
        } else {
            None
        }
    }
}

} // verus!
