//! The transfer rule: its typed record and the validation of a raw record
//! read from one line of the rule file.
use vstd::prelude::*;
use crate::cli::opt_view;
use crate::pattern::{regex_accepts, FilePattern};
use crate::text::{is_whitespace, is_whitespace_spec, str_equals};

verus! {

/// The wire protocol of one side of a rule.
#[derive(Clone, Copy, Debug, PartialEq, Eq, Structural)]
pub enum Protocol {
    Ftp,
    Ftps,
    Sftp,
}

pub open spec fn protocol_of(t: Seq<char>) -> Option<Protocol> {
    if t == "ftp"@ { Some(Protocol::Ftp) }
    else if t == "ftps"@ { Some(Protocol::Ftps) }
    else if t == "sftp"@ { Some(Protocol::Sftp) }
    else { None }
}

/// Reads a protocol tag.
pub fn parse_protocol(t: &str) -> (r: Option<Protocol>)
    ensures
        r == protocol_of(t@),
{
    if str_equals(t, "ftp") { Some(Protocol::Ftp) }
    else if str_equals(t, "ftps") { Some(Protocol::Ftps) }
    else if str_equals(t, "sftp") { Some(Protocol::Sftp) }
    else { None }
}

pub open spec fn protocol_text(p: Protocol) -> Seq<char> {
    match p {
        Protocol::Ftp => "ftp"@,
        Protocol::Ftps => "ftps"@,
        Protocol::Sftp => "sftp"@,
    }
}

/// The protocol's tag, as it is written in the rule file and in log lines.
pub fn protocol_name(p: Protocol) -> (r: &'static str)
    ensures
        r@ == protocol_text(p),
{
    match p {
        Protocol::Ftp => "ftp",
        Protocol::Ftps => "ftps",
        Protocol::Sftp => "sftp",
    }
}

/// One side of a raw record, as read from the rule file; absent fields are `None`.
pub struct RawEndpoint {
    pub host: Option<String>,
    pub port: Option<u64>,
    pub login: Option<String>,
    pub password: Option<String>,
    pub keyfile: Option<String>,
    pub keyfile_pass: Option<String>,
    pub path: Option<String>,
    pub proto: Option<String>,
}

/// A raw record of the rule file.
pub struct RawRule {
    pub from: RawEndpoint,
    pub to: RawEndpoint,
    pub age: Option<u64>,
    pub filename_regexp: Option<String>,
}

/// The fields of one side.
#[derive(Clone, Copy, Debug, PartialEq, Eq, Structural)]
pub enum FieldKind {
    Host,
    Port,
    Login,
    Password,
    Keyfile,
    KeyfilePass,
    Path,
    Proto,
}

/// A field of a record.
#[derive(Clone, Copy, Debug, PartialEq, Eq, Structural)]
pub enum ConfigField {
    From(FieldKind),
    To(FieldKind),
    Age,
    FilenameRegexp,
}

/// What is wrong with the field.
#[derive(Clone, Copy, Debug, PartialEq, Eq, Structural)]
pub enum Problem {
    Missing,
    Invalid,
}

/// The first field of a record that failed validation.
#[derive(Clone, Copy, Debug, PartialEq, Eq, Structural)]
pub struct ConfigError {
    pub field: ConfigField,
    pub problem: Problem,
}

/// A validated transfer rule. The driver moves the credentials into
/// containers that wipe their memory on drop before it opens any session.
pub struct Config {
    pub ip_address_from: String,
    pub port_from: u16,
    pub login_from: String,
    pub password_from: Option<String>,
    pub keyfile_from: Option<String>,
    pub keyfile_pass_from: Option<String>,
    pub path_from: String,
    pub proto_from: Protocol,
    pub ip_address_to: String,
    pub port_to: u16,
    pub login_to: String,
    pub password_to: Option<String>,
    pub keyfile_to: Option<String>,
    pub keyfile_pass_to: Option<String>,
    pub path_to: String,
    pub proto_to: Protocol,
    pub age: u64,
    pub filename_regexp: String,
}

/// A host name: not empty, with no white space, `/` or `\`.
pub open spec fn host_ok(h: Seq<char>) -> bool {
    h.len() > 0 && forall|j: int| 0 <= j < h.len() ==>
        !is_whitespace_spec(#[trigger] h[j]) && h[j] != '/' && h[j] != '\\'
}

fn check_host(h: &str) -> (r: bool)
    ensures
        r == host_ok(h@),
{
    let n = h.unicode_len();
    if n == 0 {
        return false;
    }
    let mut i: usize = 0;
    while i < n
        invariant
            n == h@.len(),
            i <= n,
            forall|j: int| 0 <= j < i ==> !is_whitespace_spec(#[trigger] h@[j]) && h@[j] != '/' && h@[j] != '\\',
        decreases n - i,
    {
        let c = h.get_char(i);
        if is_whitespace(c) || c == '/' || c == '\\' {
            return false;
        }
        i = i + 1;
    }
    true
}

pub open spec fn nonempty(o: Option<Seq<char>>) -> bool {
    o is Some && o->0.len() > 0
}

/// The first problem of one side, if any. Fields are checked in the order
/// host, port, login, protocol, credentials, path. `keyfile_exists` tells
/// whether the key file named by the side exists on the local file system.
pub open spec fn endpoint_problem(
    host: Option<Seq<char>>, port: Option<u64>, login: Option<Seq<char>>, password: Option<Seq<char>>,
    keyfile: Option<Seq<char>>, keyfile_pass: Option<Seq<char>>, path: Option<Seq<char>>, proto: Option<Seq<char>>,
    keyfile_exists: bool,
) -> Option<(FieldKind, Problem)> {
    let p = match proto { Some(t) => protocol_of(t), None => Some(Protocol::Ftp) };
    if host is None { Some((FieldKind::Host, Problem::Missing)) }
    else if !host_ok(host->0) { Some((FieldKind::Host, Problem::Invalid)) }
    else if port is None { Some((FieldKind::Port, Problem::Missing)) }
    else if !(1 <= port->0 && port->0 <= 65535) { Some((FieldKind::Port, Problem::Invalid)) }
    else if login is None { Some((FieldKind::Login, Problem::Missing)) }
    else if login->0.len() == 0 { Some((FieldKind::Login, Problem::Invalid)) }
    else if p is None { Some((FieldKind::Proto, Problem::Invalid)) }
    else if p->0 != Protocol::Sftp {
        if keyfile is Some { Some((FieldKind::Keyfile, Problem::Invalid)) }
        else if keyfile_pass is Some { Some((FieldKind::KeyfilePass, Problem::Invalid)) }
        else if password is None { Some((FieldKind::Password, Problem::Missing)) }
        else if password->0.len() == 0 { Some((FieldKind::Password, Problem::Invalid)) }
        else if path is None { Some((FieldKind::Path, Problem::Missing)) }
        else if path->0.len() == 0 { Some((FieldKind::Path, Problem::Invalid)) }
        else { None }
    } else {
        if password is Some && keyfile is Some { Some((FieldKind::Keyfile, Problem::Invalid)) }
        else if password is None && keyfile is None { Some((FieldKind::Password, Problem::Missing)) }
        else if password is Some && password->0.len() == 0 { Some((FieldKind::Password, Problem::Invalid)) }
        else if keyfile is Some && (keyfile->0.len() == 0 || !keyfile_exists) { Some((FieldKind::Keyfile, Problem::Invalid)) }
        else if keyfile_pass is Some && keyfile is None { Some((FieldKind::KeyfilePass, Problem::Invalid)) }
        else if path is None { Some((FieldKind::Path, Problem::Missing)) }
        else if path->0.len() == 0 { Some((FieldKind::Path, Problem::Invalid)) }
        else { None }
    }
}

pub open spec fn side_problem(e: RawEndpoint, keyfile_exists: bool) -> Option<(FieldKind, Problem)> {
    endpoint_problem(opt_view(e.host), e.port, opt_view(e.login), opt_view(e.password), opt_view(e.keyfile),
        opt_view(e.keyfile_pass), opt_view(e.path), opt_view(e.proto), keyfile_exists)
}

/// The first problem of a record: the source side, the destination side,
/// then the age and the filename pattern.
pub open spec fn rule_problem(r: RawRule, from_keyfile_exists: bool, to_keyfile_exists: bool) -> Option<ConfigError> {
    match side_problem(r.from, from_keyfile_exists) {
        Some((k, p)) => Some(ConfigError { field: ConfigField::From(k), problem: p }),
        None => match side_problem(r.to, to_keyfile_exists) {
            Some((k, p)) => Some(ConfigError { field: ConfigField::To(k), problem: p }),
            None => {
                if r.age is None { Some(ConfigError { field: ConfigField::Age, problem: Problem::Missing }) }
                else if r.filename_regexp is None { Some(ConfigError { field: ConfigField::FilenameRegexp, problem: Problem::Missing }) }
                else if !regex_accepts(r.filename_regexp->0@) { Some(ConfigError { field: ConfigField::FilenameRegexp, problem: Problem::Invalid }) }
                else { None }
            },
        },
    }
}

fn check_endpoint(e: &RawEndpoint, keyfile_exists: bool) -> (r: Option<(FieldKind, Problem)>)
    ensures
        r == side_problem(*e, keyfile_exists),
{
    let p = match &e.proto {
        Some(t) => parse_protocol(t.as_str()),
        None => Some(Protocol::Ftp),
    };
    let host = match &e.host {
        None => return Some((FieldKind::Host, Problem::Missing)),
        Some(h) => h,
    };
    if !check_host(host.as_str()) {
        return Some((FieldKind::Host, Problem::Invalid));
    }
    let port = match e.port {
        None => return Some((FieldKind::Port, Problem::Missing)),
        Some(n) => n,
    };
    if !(1 <= port && port <= 65535) {
        return Some((FieldKind::Port, Problem::Invalid));
    }
    match &e.login {
        None => return Some((FieldKind::Login, Problem::Missing)),
        Some(l) => {
            if l.as_str().unicode_len() == 0 {
                return Some((FieldKind::Login, Problem::Invalid));
            }
        },
    }
    let proto = match p {
        None => return Some((FieldKind::Proto, Problem::Invalid)),
        Some(q) => q,
    };
    let pw_empty = match &e.password {
        Some(s) => s.as_str().unicode_len() == 0,
        None => false,
    };
    let path_empty = match &e.path {
        Some(s) => s.as_str().unicode_len() == 0,
        None => false,
    };
    if proto != Protocol::Sftp {
        if e.keyfile.is_some() { return Some((FieldKind::Keyfile, Problem::Invalid)); }
        if e.keyfile_pass.is_some() { return Some((FieldKind::KeyfilePass, Problem::Invalid)); }
        if e.password.is_none() { return Some((FieldKind::Password, Problem::Missing)); }
        if pw_empty { return Some((FieldKind::Password, Problem::Invalid)); }
    } else {
        let kf_empty = match &e.keyfile {
            Some(s) => s.as_str().unicode_len() == 0,
            None => false,
        };
        if e.password.is_some() && e.keyfile.is_some() { return Some((FieldKind::Keyfile, Problem::Invalid)); }
        if e.password.is_none() && e.keyfile.is_none() { return Some((FieldKind::Password, Problem::Missing)); }
        if pw_empty { return Some((FieldKind::Password, Problem::Invalid)); }
        if e.keyfile.is_some() && (kf_empty || !keyfile_exists) { return Some((FieldKind::Keyfile, Problem::Invalid)); }
        if e.keyfile_pass.is_some() && e.keyfile.is_none() { return Some((FieldKind::KeyfilePass, Problem::Invalid)); }
    }
    if e.path.is_none() { return Some((FieldKind::Path, Problem::Missing)); }
    if path_empty { return Some((FieldKind::Path, Problem::Invalid)); }
    None
}

fn take_text(o: Option<String>) -> (r: String)
    requires
        o is Some,
    ensures
        r@ == o->0@,
{
    match o {
        Some(s) => s,
        None => String::new(),
    }
}

/// The record that a valid raw record gives: fields are taken over, the
/// protocol defaults to `ftp`, ports narrow to 16 bits.
pub open spec fn rule_fields_match(c: Config, r: RawRule) -> bool {
    &&& c.ip_address_from@ == r.from.host->0@
    &&& c.port_from as u64 == r.from.port->0
    &&& c.login_from@ == r.from.login->0@
    &&& opt_view(c.password_from) == opt_view(r.from.password)
    &&& opt_view(c.keyfile_from) == opt_view(r.from.keyfile)
    &&& opt_view(c.keyfile_pass_from) == opt_view(r.from.keyfile_pass)
    &&& c.path_from@ == r.from.path->0@
    &&& Some(c.proto_from) == (match opt_view(r.from.proto) { Some(t) => protocol_of(t), None => Some(Protocol::Ftp) })
    &&& c.ip_address_to@ == r.to.host->0@
    &&& c.port_to as u64 == r.to.port->0
    &&& c.login_to@ == r.to.login->0@
    &&& opt_view(c.password_to) == opt_view(r.to.password)
    &&& opt_view(c.keyfile_to) == opt_view(r.to.keyfile)
    &&& opt_view(c.keyfile_pass_to) == opt_view(r.to.keyfile_pass)
    &&& c.path_to@ == r.to.path->0@
    &&& Some(c.proto_to) == (match opt_view(r.to.proto) { Some(t) => protocol_of(t), None => Some(Protocol::Ftp) })
    &&& c.age == r.age->0
    &&& c.filename_regexp@ == r.filename_regexp->0@
}

/// Validates a raw record into a rule. The error names the first field, in
/// the order of `rule_problem`, that is missing or invalid.
pub fn validate_rule(raw: RawRule, from_keyfile_exists: bool, to_keyfile_exists: bool) -> (r: Result<Config, ConfigError>)
    ensures
        match rule_problem(raw, from_keyfile_exists, to_keyfile_exists) {
            Some(e) => r == Err::<Config, ConfigError>(e),
            None => r is Ok && rule_fields_match(r->Ok_0, raw),
        },
{
    match check_endpoint(&raw.from, from_keyfile_exists) {
        Some((k, p)) => return Err(ConfigError { field: ConfigField::From(k), problem: p }),
        None => {},
    }
    match check_endpoint(&raw.to, to_keyfile_exists) {
        Some((k, p)) => return Err(ConfigError { field: ConfigField::To(k), problem: p }),
        None => {},
    }
    let age = match raw.age {
        None => return Err(ConfigError { field: ConfigField::Age, problem: Problem::Missing }),
        Some(a) => a,
    };
    let pattern = match &raw.filename_regexp {
        None => return Err(ConfigError { field: ConfigField::FilenameRegexp, problem: Problem::Missing }),
        Some(p) => p,
    };
    if FilePattern::new(pattern.as_str()).is_none() {
        return Err(ConfigError { field: ConfigField::FilenameRegexp, problem: Problem::Invalid });
    }
    let RawRule { from, to, age: _, filename_regexp } = raw;
    let proto_from = match &from.proto {
        Some(t) => parse_protocol(t.as_str()),
        None => Some(Protocol::Ftp),
    };
    let proto_to = match &to.proto {
        Some(t) => parse_protocol(t.as_str()),
        None => Some(Protocol::Ftp),
    };
    let port_from = match from.port { Some(n) => n as u16, None => 0 };
    let port_to = match to.port { Some(n) => n as u16, None => 0 };
    Ok(Config {
        ip_address_from: take_text(from.host),
        port_from,
        login_from: take_text(from.login),
        password_from: from.password,
        keyfile_from: from.keyfile,
        keyfile_pass_from: from.keyfile_pass,
        path_from: take_text(from.path),
        proto_from: match proto_from { Some(q) => q, None => Protocol::Ftp },
        ip_address_to: take_text(to.host),
        port_to,
        login_to: take_text(to.login),
        password_to: to.password,
        keyfile_to: to.keyfile,
        keyfile_pass_to: to.keyfile_pass,
        path_to: take_text(to.path),
        proto_to: match proto_to { Some(q) => q, None => Protocol::Ftp },
        age,
        filename_regexp: take_text(filename_regexp),
    })
}

} // verus!
