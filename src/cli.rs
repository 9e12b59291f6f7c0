//! Command-line parsing: from the argument list to the run's options.
use vstd::prelude::*;
use crate::text::{parse_u64, parse_u64_spec, str_equals};

verus! {

/// The run's options.
#[derive(Debug, PartialEq, Eq)]
pub struct CliArgs {
    pub delete: bool,
    pub log_file: Option<String>,
    pub stdout: bool,
    pub config_file: Option<String>,
    pub parallel: usize,
    pub randomize: bool,
    pub grace_seconds: u64,
    pub connect_timeout: Option<u64>,
    pub insecure_skip_verify: bool,
    pub temp_dir: Option<String>,
    pub debug: bool,
    /// `None`: the default threshold; `Some(0)`: always stage in memory.
    pub ram_threshold: Option<u64>,
}

/// Why the arguments did not give a run.
#[derive(Debug, PartialEq, Eq)]
pub enum CliError {
    /// `-h`: print the usage, exit 0.
    HelpRequested,
    /// `-v`: print the version, exit 0.
    VersionRequested,
    MissingArgument(String),
    InvalidArgument(String),
    UnexpectedArgument(String),
    MutuallyExclusiveFlags(String),
}

/// The options with their texts as character sequences.
pub struct CliModel {
    pub delete: bool,
    pub log_file: Option<Seq<char>>,
    pub stdout: bool,
    pub config_file: Option<Seq<char>>,
    pub parallel: usize,
    pub randomize: bool,
    pub grace_seconds: u64,
    pub connect_timeout: Option<u64>,
    pub insecure_skip_verify: bool,
    pub temp_dir: Option<Seq<char>>,
    pub debug: bool,
    pub ram_threshold: Option<u64>,
}

pub open spec fn opt_view(o: Option<String>) -> Option<Seq<char>> {
    match o {
        Some(s) => Some(s@),
        None => None,
    }
}

impl View for CliArgs {
    type V = CliModel;

    open spec fn view(&self) -> CliModel {
        CliModel {
            delete: self.delete,
            log_file: opt_view(self.log_file),
            stdout: self.stdout,
            config_file: opt_view(self.config_file),
            parallel: self.parallel,
            randomize: self.randomize,
            grace_seconds: self.grace_seconds,
            connect_timeout: self.connect_timeout,
            insecure_skip_verify: self.insecure_skip_verify,
            temp_dir: opt_view(self.temp_dir),
            debug: self.debug,
            ram_threshold: self.ram_threshold,
        }
    }
}

/// The option values before any argument is read.
pub open spec fn default_model() -> CliModel {
    CliModel {
        delete: false,
        log_file: None,
        stdout: false,
        config_file: None,
        parallel: 1,
        randomize: false,
        grace_seconds: 30,
        connect_timeout: None,
        insecure_skip_verify: false,
        temp_dir: None,
        debug: false,
        ram_threshold: None,
    }
}

/// The flags that take a value, for error messages.
#[derive(Clone, Copy, Debug, PartialEq, Eq, Structural)]
pub enum ValueFlag {
    LogFile,
    Parallel,
    Grace,
    Timeout,
    TempDir,
    RamThreshold,
}

/// What one argument is.
#[derive(Clone, Copy, Debug, PartialEq, Eq, Structural)]
pub enum ArgKind {
    Help,
    Version,
    Delete,
    Stdout,
    Randomize,
    Insecure,
    Debug,
    Valued(ValueFlag),
    Positional,
}

pub open spec fn arg_kind_spec(a: Seq<char>) -> ArgKind {
    if a == "-h"@ { ArgKind::Help }
    else if a == "-v"@ { ArgKind::Version }
    else if a == "-d"@ { ArgKind::Delete }
    else if a == "-s"@ { ArgKind::Stdout }
    else if a == "-r"@ { ArgKind::Randomize }
    else if a == "--insecure-skip-verify"@ { ArgKind::Insecure }
    else if a == "--debug"@ { ArgKind::Debug }
    else if a == "-l"@ { ArgKind::Valued(ValueFlag::LogFile) }
    else if a == "-p"@ { ArgKind::Valued(ValueFlag::Parallel) }
    else if a == "-g"@ { ArgKind::Valued(ValueFlag::Grace) }
    else if a == "-t"@ { ArgKind::Valued(ValueFlag::Timeout) }
    else if a == "-T"@ { ArgKind::Valued(ValueFlag::TempDir) }
    else if a == "--ram-threshold"@ { ArgKind::Valued(ValueFlag::RamThreshold) }
    else { ArgKind::Positional }
}

/// Classifies one argument.
pub fn arg_kind(a: &str) -> (r: ArgKind)
    ensures
        r == arg_kind_spec(a@),
{
    if str_equals(a, "-h") { ArgKind::Help }
    else if str_equals(a, "-v") { ArgKind::Version }
    else if str_equals(a, "-d") { ArgKind::Delete }
    else if str_equals(a, "-s") { ArgKind::Stdout }
    else if str_equals(a, "-r") { ArgKind::Randomize }
    else if str_equals(a, "--insecure-skip-verify") { ArgKind::Insecure }
    else if str_equals(a, "--debug") { ArgKind::Debug }
    else if str_equals(a, "-l") { ArgKind::Valued(ValueFlag::LogFile) }
    else if str_equals(a, "-p") { ArgKind::Valued(ValueFlag::Parallel) }
    else if str_equals(a, "-g") { ArgKind::Valued(ValueFlag::Grace) }
    else if str_equals(a, "-t") { ArgKind::Valued(ValueFlag::Timeout) }
    else if str_equals(a, "-T") { ArgKind::Valued(ValueFlag::TempDir) }
    else if str_equals(a, "--ram-threshold") { ArgKind::Valued(ValueFlag::RamThreshold) }
    else { ArgKind::Positional }
}

/// Why parsing stopped, with the texts as character sequences.
pub enum CliFailure {
    Help,
    Version,
    Missing(Seq<char>),
    Invalid(Seq<char>),
    Unexpected(Seq<char>),
    Exclusive(Seq<char>),
}

pub open spec fn error_view(e: CliError) -> CliFailure {
    match e {
        CliError::HelpRequested => CliFailure::Help,
        CliError::VersionRequested => CliFailure::Version,
        CliError::MissingArgument(s) => CliFailure::Missing(s@),
        CliError::InvalidArgument(s) => CliFailure::Invalid(s@),
        CliError::UnexpectedArgument(s) => CliFailure::Unexpected(s@),
        CliError::MutuallyExclusiveFlags(s) => CliFailure::Exclusive(s@),
    }
}

pub open spec fn missing_text(f: ValueFlag) -> Seq<char> {
    match f {
        ValueFlag::LogFile => "log file"@,
        ValueFlag::Parallel => "parallel count"@,
        ValueFlag::Grace => "grace seconds"@,
        ValueFlag::Timeout => "connect timeout"@,
        ValueFlag::TempDir => "temp directory"@,
        ValueFlag::RamThreshold => "RAM threshold"@,
    }
}

pub open spec fn invalid_text(f: ValueFlag) -> Seq<char> {
    match f {
        ValueFlag::Parallel => "parallel count must be a positive number"@,
        ValueFlag::Grace => "grace seconds must be a positive number"@,
        ValueFlag::Timeout => "connect timeout must be a positive number"@,
        _ => "RAM threshold must be a non-negative number"@,
    }
}

pub open spec fn exclusive_text() -> Seq<char> {
    "-s and -l flags are mutually exclusive"@
}

/// The options after the flag `f` took the value `v`, or the failure.
pub open spec fn apply_value(m: CliModel, f: ValueFlag, v: Seq<char>) -> Result<CliModel, CliFailure> {
    match f {
        ValueFlag::LogFile => Ok(CliModel { log_file: Some(v), ..m }),
        ValueFlag::TempDir => Ok(CliModel { temp_dir: Some(v), ..m }),
        ValueFlag::Parallel => match parse_u64_spec(v) {
            Some(n) => if 0 < n && n <= usize::MAX { Ok(CliModel { parallel: n as usize, ..m }) } else { Err(CliFailure::Invalid(invalid_text(f))) },
            None => Err(CliFailure::Invalid(invalid_text(f))),
        },
        ValueFlag::Grace => match parse_u64_spec(v) {
            Some(n) => Ok(CliModel { grace_seconds: n, ..m }),
            None => Err(CliFailure::Invalid(invalid_text(f))),
        },
        ValueFlag::Timeout => match parse_u64_spec(v) {
            Some(n) => if n > 0 { Ok(CliModel { connect_timeout: Some(n), ..m }) } else { Err(CliFailure::Invalid(invalid_text(f))) },
            None => Err(CliFailure::Invalid(invalid_text(f))),
        },
        ValueFlag::RamThreshold => match parse_u64_spec(v) {
            Some(n) => Ok(CliModel { ram_threshold: Some(n), ..m }),
            None => Err(CliFailure::Invalid(invalid_text(f))),
        },
    }
}

/// The checks after the last argument: a configuration file was named, and
/// `-s` and `-l` were not both given.
pub open spec fn finish_spec(m: CliModel) -> Result<CliModel, CliFailure> {
    if m.config_file is None {
        Err(CliFailure::Missing("config file"@))
    } else if m.stdout && m.log_file is Some {
        Err(CliFailure::Exclusive(exclusive_text()))
    } else {
        Ok(m)
    }
}

/// Reads the arguments from position `i` on, left to right, into `m`.
pub open spec fn parse_from(args: Seq<Seq<char>>, i: int, m: CliModel) -> Result<CliModel, CliFailure>
    decreases args.len() - i,
{
    if i >= args.len() || i < 0 {
        finish_spec(m)
    } else {
        match arg_kind_spec(args[i]) {
            ArgKind::Help => Err(CliFailure::Help),
            ArgKind::Version => Err(CliFailure::Version),
            ArgKind::Delete => parse_from(args, i + 1, CliModel { delete: true, ..m }),
            ArgKind::Stdout => parse_from(args, i + 1, CliModel { stdout: true, ..m }),
            ArgKind::Randomize => parse_from(args, i + 1, CliModel { randomize: true, ..m }),
            ArgKind::Insecure => parse_from(args, i + 1, CliModel { insecure_skip_verify: true, ..m }),
            ArgKind::Debug => parse_from(args, i + 1, CliModel { debug: true, ..m }),
            ArgKind::Valued(f) => {
                if i + 1 >= args.len() {
                    Err(CliFailure::Missing(missing_text(f)))
                } else {
                    match apply_value(m, f, args[i + 1]) {
                        Ok(m2) => parse_from(args, i + 2, m2),
                        Err(e) => Err(e),
                    }
                }
            },
            ArgKind::Positional => {
                if m.config_file is None {
                    parse_from(args, i + 1, CliModel { config_file: Some(args[i]), ..m })
                } else {
                    Err(CliFailure::Unexpected(args[i]))
                }
            },
        }
    }
}

/// The meaning of a whole command line; its first element is the program name.
pub open spec fn parse_args_spec(argv: Seq<Seq<char>>) -> Result<CliModel, CliFailure> {
    parse_from(argv, 1, default_model())
}

pub open spec fn texts_of(v: Seq<String>) -> Seq<Seq<char>> {
    v.map_values(|s: String| s@)
}

fn missing_message(f: ValueFlag) -> (r: String)
    ensures
        r@ == missing_text(f),
{
    match f {
        ValueFlag::LogFile => "log file".to_owned(),
        ValueFlag::Parallel => "parallel count".to_owned(),
        ValueFlag::Grace => "grace seconds".to_owned(),
        ValueFlag::Timeout => "connect timeout".to_owned(),
        ValueFlag::TempDir => "temp directory".to_owned(),
        ValueFlag::RamThreshold => "RAM threshold".to_owned(),
    }
}

fn invalid_message(f: ValueFlag) -> (r: String)
    ensures
        r@ == invalid_text(f),
{
    match f {
        ValueFlag::Parallel => "parallel count must be a positive number".to_owned(),
        ValueFlag::Grace => "grace seconds must be a positive number".to_owned(),
        ValueFlag::Timeout => "connect timeout must be a positive number".to_owned(),
        _ => "RAM threshold must be a non-negative number".to_owned(),
    }
}

fn set_value(a: &mut CliArgs, f: ValueFlag, v: &String) -> (r: Result<(), CliError>)
    ensures
        match apply_value(old(a)@, f, v@) {
            Ok(m) => r is Ok && final(a)@ == m,
            Err(e) => r is Err && error_view(r->Err_0) == e,
        },
{
    match f {
        ValueFlag::LogFile => {
            a.log_file = Some(v.clone());
            Ok(())
        },
        ValueFlag::TempDir => {
            a.temp_dir = Some(v.clone());
            Ok(())
        },
        ValueFlag::Parallel => match parse_u64(v.as_str()) {
            Some(n) => {
                if 0 < n && n <= usize::MAX as u64 {
                    a.parallel = n as usize;
                    Ok(())
                } else {
                    Err(CliError::InvalidArgument(invalid_message(f)))
                }
            },
            None => Err(CliError::InvalidArgument(invalid_message(f))),
        },
        ValueFlag::Grace => match parse_u64(v.as_str()) {
            Some(n) => {
                a.grace_seconds = n;
                Ok(())
            },
            None => Err(CliError::InvalidArgument(invalid_message(f))),
        },
        ValueFlag::Timeout => match parse_u64(v.as_str()) {
            Some(n) => {
                if n > 0 {
                    a.connect_timeout = Some(n);
                    Ok(())
                } else {
                    Err(CliError::InvalidArgument(invalid_message(f)))
                }
            },
            None => Err(CliError::InvalidArgument(invalid_message(f))),
        },
        ValueFlag::RamThreshold => match parse_u64(v.as_str()) {
            Some(n) => {
                a.ram_threshold = Some(n);
                Ok(())
            },
            None => Err(CliError::InvalidArgument(invalid_message(f))),
        },
    }
}

/// Parses a command line (program name first) into the run's options.
/// Flags are read left to right; `-h` and `-v` stop at once; the first
/// positional argument is the configuration file and a second one is
/// unexpected; a configuration file is required, and `-s` excludes `-l`.
pub fn parse_args(argv: &Vec<String>) -> (r: Result<CliArgs, CliError>)
    ensures
        match parse_args_spec(texts_of(argv@)) {
            Ok(m) => r is Ok && r->Ok_0@ == m,
            Err(e) => r is Err && error_view(r->Err_0) == e,
        },
{
    let ghost args = texts_of(argv@);
    let mut a = CliArgs {
        delete: false,
        log_file: None,
        stdout: false,
        config_file: None,
        parallel: 1,
        randomize: false,
        grace_seconds: 30,
        connect_timeout: None,
        insecure_skip_verify: false,
        temp_dir: None,
        debug: false,
        ram_threshold: None,
    };
    let n = argv.len();
    if n == 0 {
        return Err(CliError::MissingArgument("config file".to_owned()));
    }
    let mut i: usize = 1;
    while i < n
        invariant
            n == argv@.len(),
            args == texts_of(argv@),
            1 <= i <= n + 1,
            parse_from(args, i as int, a@) == parse_from(args, 1, default_model()),
        decreases n - i,
    {
        let arg = &argv[i];
        match arg_kind(arg.as_str()) {
            ArgKind::Help => return Err(CliError::HelpRequested),
            ArgKind::Version => return Err(CliError::VersionRequested),
            ArgKind::Delete => {
                a.delete = true;
            },
            ArgKind::Stdout => {
                a.stdout = true;
            },
            ArgKind::Randomize => {
                a.randomize = true;
            },
            ArgKind::Insecure => {
                a.insecure_skip_verify = true;
            },
            ArgKind::Debug => {
                a.debug = true;
            },
            ArgKind::Valued(f) => {
                if i + 1 >= n {
                    return Err(CliError::MissingArgument(missing_message(f)));
                }
                match set_value(&mut a, f, &argv[i + 1]) {
                    Ok(()) => {},
                    Err(e) => return Err(e),
                }
                i = i + 1;
            },
            ArgKind::Positional => {
                if a.config_file.is_none() {
                    a.config_file = Some(arg.clone());
                } else {
                    return Err(CliError::UnexpectedArgument(arg.clone()));
                }
            },
        }
        i = i + 1;
    }
    if a.config_file.is_none() {
        return Err(CliError::MissingArgument("config file".to_owned()));
    }
    if a.stdout && a.log_file.is_some() {
        return Err(CliError::MutuallyExclusiveFlags("-s and -l flags are mutually exclusive".to_owned()));
    }
    Ok(a)
}


/// The text shown for a parse error.
pub open spec fn error_text(e: CliFailure) -> Seq<char> {
    match e {
        CliFailure::Help => "Help requested"@,
        CliFailure::Version => "Version requested"@,
        CliFailure::Missing(a) => "Missing argument: "@ + a,
        CliFailure::Invalid(a) => "Invalid argument: "@ + a,
        CliFailure::Unexpected(a) => "Unexpected argument: "@ + a,
        CliFailure::Exclusive(m) => m,
    }
}

impl CliError {
    /// The error as a line of text for the user.
    pub fn message(&self) -> (r: String)
        ensures
            r@ == error_text(error_view(*self)),
    {
        let mut s = String::new();
        match self {
            CliError::HelpRequested => s.append("Help requested"),
            CliError::VersionRequested => s.append("Version requested"),
            CliError::MissingArgument(a) => {
                s.append("Missing argument: ");
                s.append(a.as_str());
            },
            CliError::InvalidArgument(a) => {
                s.append("Invalid argument: ");
                s.append(a.as_str());
            },
            CliError::UnexpectedArgument(a) => {
                s.append("Unexpected argument: ");
                s.append(a.as_str());
            },
            CliError::MutuallyExclusiveFlags(m) => s.append(m.as_str()),
        }
        s
    }
}

} // verus!
