//! Staging policy: where the bytes of one file are held between download and
//! upload, and the temporary name under which they are uploaded.
use vstd::prelude::*;
use vstd::string::*;

verus! {

/// Default memory-vs-disk threshold: 10 MiB.
pub const DEFAULT_RAM_THRESHOLD: u64 = 10485760;

/// Where the bytes of one file are staged.
#[derive(Clone, Copy, Debug, PartialEq, Eq, Structural)]
pub enum StorageKind {
    Memory,
    Disk,
}

/// A file of `size` bytes is staged in memory iff the threshold is the
/// distinguished value 0 or the size does not exceed it.
pub open spec fn stages_in_memory(size: int, threshold: int) -> bool {
    threshold == 0 || size <= threshold
}

/// The threshold in force: the configured one, else the default.
pub fn effective_threshold(configured: Option<u64>) -> (r: u64)
    ensures
        configured is Some ==> r == configured->0,
        configured is None ==> r == DEFAULT_RAM_THRESHOLD,
{
    match configured {
        Some(t) => t,
        None => DEFAULT_RAM_THRESHOLD,
    }
}

/// Chooses memory or disk staging for a file of `size` bytes.
pub fn choose_storage(size: u64, threshold: u64) -> (r: StorageKind)
    ensures
        (r == StorageKind::Memory) == stages_in_memory(size as int, threshold as int),
        (r == StorageKind::Disk) == !stages_in_memory(size as int, threshold as int),
{
    if threshold == 0 || size <= threshold {
        StorageKind::Memory
    } else {
        StorageKind::Disk
    }
}

/// The character of a decimal digit.
pub open spec fn digit_char(d: nat) -> char {
    if d == 0 { '0' }
    else if d == 1 { '1' }
    else if d == 2 { '2' }
    else if d == 3 { '3' }
    else if d == 4 { '4' }
    else if d == 5 { '5' }
    else if d == 6 { '6' }
    else if d == 7 { '7' }
    else if d == 8 { '8' }
    else { '9' }
}

/// Decimal notation of a natural number, without sign or leading zeros.
pub open spec fn decimal(n: nat) -> Seq<char>
    decreases n,
{
    if n < 10 {
        seq![digit_char(n)]
    } else {
        decimal(n / 10) + seq![digit_char(n % 10)]
    }
}

/// Relies on the `Display` of `u64` (through `to_string`): plain decimal digits.
#[verifier::external_body]
pub(crate) fn decimal_text(n: u64) -> (r: String)
    ensures
        r@ == decimal(n as nat),
{
    n.to_string()
}

/// The temporary destination name `.{name}.{pid}.tmp`.
pub open spec fn temp_name_spec(name: Seq<char>, pid: u32) -> Seq<char> {
    "."@ + name + "."@ + decimal(pid as nat) + ".tmp"@
}

/// Composes the temporary name under which a file is uploaded before commit.
pub fn temp_file_name(name: &str, pid: u32) -> (r: String)
    ensures
        r@ == temp_name_spec(name@, pid),
{
    let mut s = String::new();
    s.append(".");
    s.append(name);
    s.append(".");
    let digits = decimal_text(pid as u64);
    s.append(digits.as_str());
    s.append(".tmp");
    s
}

} // verus!
