//! Facts about the local machine, rendered for a report: sizes, durations,
//! and the checks that a command makes before it touches the system.

use crate::text::{append_decimal, decimal, same_text, trim, trimmed};
use vstd::prelude::*;

verus! {

/// Usage of one mounted disk.
#[derive(Debug, PartialEq, Eq)]
pub struct DiskInfo {
    pub mount_point: String,
    /// Size of the disk in bytes.
    pub total_space: u64,
    /// Free bytes.
    pub available_space: u64,
    /// Bytes in use.
    pub used_space: u64,
    /// Share of the disk that is in use, in percent.
    pub usage_percent: u8,
}

impl Clone for DiskInfo {
    fn clone(&self) -> (r: Self)
        ensures
            r.mount_point@ == self.mount_point@,
            r.total_space == self.total_space,
            r.available_space == self.available_space,
            r.used_space == self.used_space,
            r.usage_percent == self.usage_percent,
    {
        DiskInfo {
            mount_point: self.mount_point.clone(),
            total_space: self.total_space,
            available_space: self.available_space,
            used_space: self.used_space,
            usage_percent: self.usage_percent,
        }
    }
}

/// Why a command refuses to run on this machine.
#[derive(Clone, Copy, Debug, PartialEq, Eq, Structural)]
pub enum SystemError {
    /// The command needs macOS.
    MacOsRequired,
    /// The command needs the rights of the superuser.
    SudoRequired,
}

/// The report text of a refusal.
pub open spec fn system_error_text(error: SystemError) -> Seq<char> {
    match error {
        SystemError::MacOsRequired => "This command requires macOS"@,
        SystemError::SudoRequired => "This command requires sudo privileges"@,
    }
}

impl SystemError {
    /// The report text of this refusal.
    pub fn message(&self) -> (r: String)
        ensures
            r@ == system_error_text(*self),
    {
        match self {
            SystemError::MacOsRequired => String::from_str("This command requires macOS"),
            SystemError::SudoRequired => String::from_str("This command requires sudo privileges"),
        }
    }
}

/// Whether `os`, the name of the operating system that the program was
/// built for, is macOS.
pub fn is_macos(os: &str) -> (r: bool)
    ensures
        r == (os@ == "macos"@),
{
    same_text(os, "macos")
}

/// Refuses to go on unless `os`, the name of the operating system that the
/// program was built for, is macOS.
pub fn require_macos(os: &str) -> (r: Result<(), SystemError>)
    ensures
        r == (if os@ == "macos"@ {
            Ok::<(), SystemError>(())
        } else {
            Err::<(), SystemError>(SystemError::MacOsRequired)
        }),
{
    if !is_macos(os) {
        return Err(SystemError::MacOsRequired);
    }
    Ok(())
}

/// Refuses to go on unless `uid_output`, what `id -u` printed, names the
/// superuser.
pub fn require_root(uid_output: &str) -> (r: Result<(), SystemError>)
    ensures
        r == (if trimmed(uid_output@) == "0"@ {
            Ok::<(), SystemError>(())
        } else {
            Err::<(), SystemError>(SystemError::SudoRequired)
        }),
{
    let uid = trim(uid_output);
    if !same_text(uid.as_str(), "0") {
        return Err(SystemError::SudoRequired);
    }
    Ok(())
}

/// A duration with all its parts from the largest that is not zero down
/// to the seconds: `1d 2h 3m 4s`, `2h 0m 5s`, `3m 4s`, `59s`.
pub open spec fn duration_text(seconds: nat) -> Seq<char> {
    let days = seconds / 86400;
    let hours = (seconds % 86400) / 3600;
    let minutes = (seconds % 3600) / 60;
    let secs = seconds % 60;
    if days > 0 {
        decimal(days) + "d "@ + decimal(hours) + "h "@ + decimal(minutes) + "m "@ + decimal(secs)
            + "s"@
    } else if hours > 0 {
        decimal(hours) + "h "@ + decimal(minutes) + "m "@ + decimal(secs) + "s"@
    } else if minutes > 0 {
        decimal(minutes) + "m "@ + decimal(secs) + "s"@
    } else {
        decimal(secs) + "s"@
    }
}

/// Renders a duration given in seconds.
pub fn format_duration_seconds(seconds: u64) -> (r: String)
    ensures
        r@ == duration_text(seconds as nat),
{
    let days = seconds / 86400;
    let hours = (seconds % 86400) / 3600;
    let minutes = (seconds % 3600) / 60;
    let secs = seconds % 60;
    let mut r = String::new();
    if days > 0 {
        append_decimal(&mut r, days);
        r.append("d ");
    }
    if days > 0 || hours > 0 {
        append_decimal(&mut r, hours);
        r.append("h ");
    }
    if days > 0 || hours > 0 || minutes > 0 {
        append_decimal(&mut r, minutes);
        r.append("m ");
    }
    append_decimal(&mut r, secs);
    r.append("s");
    assert(r@ =~= duration_text(seconds as nat));
    r
}

/// The size of the unit with index `unit`: a power of 1024.
pub open spec fn unit_size(unit: nat) -> nat {
    if unit == 0 {
        1
    } else if unit == 1 {
        0x400
    } else if unit == 2 {
        0x10_0000
    } else if unit == 3 {
        0x4000_0000
    } else if unit == 4 {
        0x100_0000_0000
    } else {
        0x4_0000_0000_0000
    }
}

/// The name of the unit with index `unit`.
pub open spec fn unit_name(unit: nat) -> Seq<char> {
    if unit == 0 {
        "B"@
    } else if unit == 1 {
        "KB"@
    } else if unit == 2 {
        "MB"@
    } else if unit == 3 {
        "GB"@
    } else if unit == 4 {
        "TB"@
    } else {
        "PB"@
    }
}

/// The unit in which a size is shown: the largest unit, up to
/// `largest`, that the size reaches.
pub open spec fn unit_index(bytes: nat, largest: nat) -> nat {
    if largest >= 5 && bytes >= unit_size(5) {
        5
    } else if largest >= 4 && bytes >= unit_size(4) {
        4
    } else if largest >= 3 && bytes >= unit_size(3) {
        3
    } else if largest >= 2 && bytes >= unit_size(2) {
        2
    } else if largest >= 1 && bytes >= unit_size(1) {
        1
    } else {
        0
    }
}

/// `n / d` rounded to the nearest integer, a tie going to the even one.
pub open spec fn round_half_even(n: nat, d: nat) -> nat {
    let q = n / d;
    let r = n % d;
    if 2 * r > d || (2 * r == d && q % 2 == 1) {
        q + 1
    } else {
        q
    }
}

/// The spacing of the numbers with 53 significant bits around `n`: one
/// below 2^53, and doubling with every further bit.
pub open spec fn spacing(n: nat) -> nat {
    if n < 0x20_0000_0000_0000 {
        1
    } else if n < 0x40_0000_0000_0000 {
        2
    } else if n < 0x80_0000_0000_0000 {
        4
    } else if n < 0x100_0000_0000_0000 {
        8
    } else if n < 0x200_0000_0000_0000 {
        16
    } else if n < 0x400_0000_0000_0000 {
        32
    } else if n < 0x800_0000_0000_0000 {
        64
    } else if n < 0x1000_0000_0000_0000 {
        128
    } else if n < 0x2000_0000_0000_0000 {
        256
    } else if n < 0x4000_0000_0000_0000 {
        512
    } else if n < 0x8000_0000_0000_0000 {
        1024
    } else {
        2048
    }
}

/// `n` rounded to 53 significant bits, a tie going to the even
/// significand. Sizes are shown with that precision.
pub open spec fn significant(n: nat) -> nat {
    round_half_even(n, spacing(n)) * spacing(n)
}

/// The tenths of the unit `unit` in a size: the size, with 53 significant
/// bits, divided by a tenth of the unit and rounded, a tie going to the
/// even number.
pub open spec fn size_tenths(bytes: nat, unit: nat) -> nat {
    round_half_even(10 * significant(bytes), unit_size(unit))
}

/// A size in the largest unit, up to `largest`, that it reaches: whole
/// bytes as `512 B`, anything larger with one decimal as `1.5 KB`.
pub open spec fn size_text(bytes: nat, largest: nat) -> Seq<char> {
    let unit = unit_index(bytes, largest);
    if unit == 0 {
        decimal(bytes) + " B"@
    } else {
        let tenths = size_tenths(bytes, unit);
        decimal(tenths / 10) + "."@ + decimal(tenths % 10) + " "@ + unit_name(unit)
    }
}

fn spacing_of(n: u64) -> (s: u64)
    ensures
        s == spacing(n as nat),
        1 <= s <= 2048,
{
    if n < 0x20_0000_0000_0000 {
        1
    } else if n < 0x40_0000_0000_0000 {
        2
    } else if n < 0x80_0000_0000_0000 {
        4
    } else if n < 0x100_0000_0000_0000 {
        8
    } else if n < 0x200_0000_0000_0000 {
        16
    } else if n < 0x400_0000_0000_0000 {
        32
    } else if n < 0x800_0000_0000_0000 {
        64
    } else if n < 0x1000_0000_0000_0000 {
        128
    } else if n < 0x2000_0000_0000_0000 {
        256
    } else if n < 0x4000_0000_0000_0000 {
        512
    } else if n < 0x8000_0000_0000_0000 {
        1024
    } else {
        2048
    }
}

fn divide_half_even(n: u128, d: u128) -> (q: u128)
    requires
        0 < d <= 0x4_0000_0000_0000,
        n <= 0x1000_0000_0000_0000_0000,
    ensures
        q == round_half_even(n as nat, d as nat),
        q <= n + 1,
{
    let q = n / d;
    let r = n % d;
    if 2 * r > d || (2 * r == d && q % 2 == 1) {
        q + 1
    } else {
        q
    }
}

fn unit_text(unit: u8) -> (r: &'static str)
    ensures
        r@ == unit_name(unit as nat),
{
    if unit == 0 {
        "B"
    } else if unit == 1 {
        "KB"
    } else if unit == 2 {
        "MB"
    } else if unit == 3 {
        "GB"
    } else if unit == 4 {
        "TB"
    } else {
        "PB"
    }
}

/// Renders a size in the largest unit, up to the unit with index
/// `largest`, that it reaches.
pub fn size_string(bytes: u64, largest: u8) -> (r: String)
    ensures
        r@ == size_text(bytes as nat, largest as nat),
{
    let (unit, size): (u8, u128) = if largest >= 5 && bytes >= 0x4_0000_0000_0000 {
        (5, 0x4_0000_0000_0000)
    } else if largest >= 4 && bytes >= 0x100_0000_0000 {
        (4, 0x100_0000_0000)
    } else if largest >= 3 && bytes >= 0x4000_0000 {
        (3, 0x4000_0000)
    } else if largest >= 2 && bytes >= 0x10_0000 {
        (2, 0x10_0000)
    } else if largest >= 1 && bytes >= 0x400 {
        (1, 0x400)
    } else {
        (0, 1)
    };
    let mut r = String::new();
    if unit == 0 {
        append_decimal(&mut r, bytes);
        r.append(" B");
        assert(r@ =~= size_text(bytes as nat, largest as nat));
        return r;
    }
    let step = spacing_of(bytes);
    let significand = divide_half_even(bytes as u128, step as u128);
    assert(significand * step <= 0x1_0000_0000_0000_0800 * 2048) by (nonlinear_arith)
        requires
            significand <= 0x1_0000_0000_0000_0000,
            step <= 2048,
    ;
    let rounded: u128 = significand * (step as u128);
    assert(rounded <= 0x1_0000_0000_0000_0800) by {
        assert(bytes as nat / step as nat * step as nat <= bytes as nat) by (nonlinear_arith)
            requires
                step > 0,
        ;
    }
    let tenths = divide_half_even(10 * rounded, size);
    assert(tenths == size_tenths(bytes as nat, unit as nat));
    assert(tenths / 10 <= u64::MAX);
    append_decimal(&mut r, (tenths / 10) as u64);
    r.append(".");
    append_decimal(&mut r, (tenths % 10) as u64);
    r.append(" ");
    r.append(unit_text(unit));
    assert(r@ =~= size_text(bytes as nat, largest as nat));
    r
}

/// Renders a size in bytes in the largest unit, up to terabytes, that it
/// reaches.
pub fn format_bytes(bytes: u64) -> (r: String)
    ensures
        r@ == size_text(bytes as nat, 4),
{
    size_string(bytes, 4)
}

} // verus!
