//! The protocol-independent settings that the session layer takes.
use vstd::prelude::*;
use crate::config::Protocol;

verus! {

/// Settings of a connection.
#[derive(Clone, Copy, Debug, PartialEq, Eq, Structural)]
pub struct ProtocolConfig {
    /// Accept any certificate on FTPS connections (dangerous; explicit).
    pub insecure_skip_verify: bool,
}

/// The transfer type of an FTP or FTPS session; SFTP is always binary.
#[derive(Clone, Copy, Debug, PartialEq, Eq, Structural)]
pub enum TransferMode {
    Binary,
    ASCII,
}

/// The password handed to the login step: SFTP with a key file
/// authenticates with the key, so it logs in with an empty password when
/// none is given; every other case needs the rule's password.
pub open spec fn login_password_spec(proto: Protocol, password: Option<Seq<char>>, has_keyfile: bool) -> Option<Seq<char>> {
    if proto == Protocol::Sftp && has_keyfile {
        match password {
            Some(p) => Some(p),
            None => Some(Seq::empty()),
        }
    } else {
        password
    }
}

/// Chooses the password for the login step; `None` when the rule lacks one
/// it needs.
pub fn login_password(proto: Protocol, password: Option<&str>, has_keyfile: bool) -> (r: Option<String>)
    ensures
        match login_password_spec(proto, match password { Some(p) => Some(p@), None => None }, has_keyfile) {
            Some(t) => r is Some && r->0@ == t,
            None => r is None,
        },
{
    if proto == Protocol::Sftp && has_keyfile {
        match password {
            Some(p) => Some(p.to_owned()),
            None => Some(String::new()),
        }
    } else {
        match password {
            Some(p) => Some(p.to_owned()),
            None => None,
        }
    }
}

} // verus!
