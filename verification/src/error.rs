use vstd::prelude::*;
use vstd::string::StringExecFns;

verus! {

/// Errors that can occur during emulator operations.
#[derive(Debug)]
pub enum EmulatorError {
    /// The ROM data is invalid or unsupported.
    InvalidRom(String),
    /// Failed to serialize emulator state.
    SaveStateFailed(String),
    /// Failed to deserialize or restore emulator state.
    LoadStateFailed(String),
}

/// The character of a decimal digit.
pub open spec fn digit_char(d: nat) -> char {
    (48 + d) as char
}

/// The decimal notation of a number, as `Display` writes it.
pub open spec fn decimal(n: nat) -> Seq<char>
    decreases n,
{
    if n < 10 {
        seq![digit_char(n)]
    } else {
        decimal(n / 10).push(digit_char(n % 10))
    }
}

/// The one-character text of a decimal digit.
fn digit_str(d: u64) -> (s: &'static str)
    requires
        d < 10,
    ensures
        s@ == seq![digit_char(d as nat)],
{
    proof {
        reveal_strlit("0");
        reveal_strlit("1");
        reveal_strlit("2");
        reveal_strlit("3");
        reveal_strlit("4");
        reveal_strlit("5");
        reveal_strlit("6");
        reveal_strlit("7");
        reveal_strlit("8");
        reveal_strlit("9");
    }
    let s = if d == 0 {
        "0"
    } else if d == 1 {
        "1"
    } else if d == 2 {
        "2"
    } else if d == 3 {
        "3"
    } else if d == 4 {
        "4"
    } else if d == 5 {
        "5"
    } else if d == 6 {
        "6"
    } else if d == 7 {
        "7"
    } else if d == 8 {
        "8"
    } else {
        "9"
    };
    assert(s@ =~= seq![digit_char(d as nat)]);
    s
}

/// A number in decimal, without sign or leading zeros.
fn decimal_string(n: u64) -> (s: String)
    ensures
        s@ == decimal(n as nat),
    decreases n,
{
    if n < 10 {
        String::from_str(digit_str(n))
    } else {
        let mut s = decimal_string(n / 10);
        s.append(digit_str(n % 10));
        assert(s@ =~= decimal(n as nat));
        s
    }
}

/// "ROM too small: {len} bytes (minimum 336)".
pub(crate) fn rom_too_small_message(len: usize) -> (s: String)
    ensures
        s@ == "ROM too small: "@ + decimal(len as nat) + " bytes (minimum 336)"@,
{
    let mut s = String::from_str("ROM too small: ");
    s.append(decimal_string(len as u64).as_str());
    s.append(" bytes (minimum 336)");
    s
}

/// "ROM size mismatch: state expects {expected} bytes, loaded ROM is {actual} bytes".
pub(crate) fn rom_size_mismatch_message(expected: u64, actual: usize) -> (s: String)
    ensures
        s@ == "ROM size mismatch: state expects "@ + decimal(expected as nat)
            + " bytes, loaded ROM is "@ + decimal(actual as nat) + " bytes"@,
{
    let mut s = String::from_str("ROM size mismatch: state expects ");
    s.append(decimal_string(expected).as_str());
    s.append(" bytes, loaded ROM is ");
    s.append(decimal_string(actual as u64).as_str());
    s.append(" bytes");
    s
}

/// `label`, ": ", then `msg`.
fn labeled(label: &str, msg: &str) -> (s: String)
    ensures
        s@ == label@ + ": "@ + msg@,
{
    let mut s = String::from_str(label);
    s.append(": ");
    s.append(msg);
    s
}

impl EmulatorError {
    /// The text of the error: a label for its kind, ": ", and its message.
    pub fn message(&self) -> (s: String)
        ensures
            s@ == match self {
                EmulatorError::InvalidRom(m) => "Invalid ROM"@ + ": "@ + m@,
                EmulatorError::SaveStateFailed(m) => "Save state failed"@ + ": "@ + m@,
                EmulatorError::LoadStateFailed(m) => "Load state failed"@ + ": "@ + m@,
            },
    {
        match self {
            EmulatorError::InvalidRom(msg) => labeled("Invalid ROM", msg.as_str()),
            EmulatorError::SaveStateFailed(msg) => labeled("Save state failed", msg.as_str()),
            EmulatorError::LoadStateFailed(msg) => labeled("Load state failed", msg.as_str()),
        }
    }
}

} // verus!
