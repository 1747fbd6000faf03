//! The error surface of the coordination spine, and the exact diagnostic
//! strings its errors carry.

use vstd::prelude::*;

use crate::messages::Endpoint;

verus! {

/// The errors the spine surfaces. Each variant signals one failure class:
///
/// - `DeviceConnectionError`: transport-level connect or discovery failure;
///   the device never entered the registry.
/// - `DeviceSpecificError`: the transport returned an error mid-session;
///   the diagnostic string of the underlying transport is wrapped.
/// - `InvalidEndpoint`: the caller addressed an endpoint not bound on this
///   driver.
/// - `DeviceError`: a command was addressed to an absent or already-removed
///   device index.
/// - `UnknownError`: an administrative precondition failed.
/// - `MessageError`: the incoming client message is routable neither as a
///   device command nor as a device-manager command.
#[derive(Clone, Debug, PartialEq, Eq)]
pub enum ButtplugError {
    DeviceConnectionError(String),
    DeviceSpecificError(String),
    InvalidEndpoint(Endpoint),
    DeviceError(String),
    UnknownError(String),
    MessageError(String),
}

/// The character for one decimal digit.
pub open spec fn digit_char(d: int) -> char {
    if d == 0 {
        '0'
    } else if d == 1 {
        '1'
    } else if d == 2 {
        '2'
    } else if d == 3 {
        '3'
    } else if d == 4 {
        '4'
    } else if d == 5 {
        '5'
    } else if d == 6 {
        '6'
    } else if d == 7 {
        '7'
    } else if d == 8 {
        '8'
    } else {
        '9'
    }
}

/// The decimal notation of `n`, most significant digit first, without
/// leading zeroes (except for `n == 0`, which is written `0`).
pub open spec fn dec_digits(n: int) -> Seq<char>
    decreases n,
{
    if n < 10 {
        seq![digit_char(n)]
    } else {
        dec_digits(n / 10).push(digit_char(n % 10))
    }
}

fn digit_str(d: u32) -> (r: &'static str)
    requires
        d < 10,
    ensures
        r@ == seq![digit_char(d as int)],
{
    proof {
        reveal_strlit("0");
        reveal_strlit("1");
        reveal_strlit("2");
        reveal_strlit("3");
        reveal_strlit("4");
        reveal_strlit("5");
        reveal_strlit("6");
        reveal_strlit("7");
        reveal_strlit("8");
        reveal_strlit("9");
    }
    let r = match d {
        0 => "0",
        1 => "1",
        2 => "2",
        3 => "3",
        4 => "4",
        5 => "5",
        6 => "6",
        7 => "7",
        8 => "8",
        _ => "9",
    };
    proof {
        assert(r@ =~= seq![digit_char(d as int)]);
    }
    r
}

/// Writes `n` in decimal notation.
pub fn u32_to_decimal(n: u32) -> (s: String)
    ensures
        s@ == dec_digits(n as int),
    decreases n,
{
    if n < 10 {
        String::from_str(digit_str(n))
    } else {
        let mut s = u32_to_decimal(n / 10);
        s.append(digit_str(n % 10));
        proof {
            assert(s@ =~= dec_digits(n as int));
        }
        s
    }
}

/// The diagnostic string of the error for a command addressed to an absent
/// device index.
pub open spec fn no_device_message(device_index: u32) -> Seq<char> {
    "No device with index "@ + dec_digits(device_index as int) + " available"@
}

/// The error returned when a command is addressed to a device index that is
/// not in the registry.
pub fn device_not_found_error(device_index: u32) -> (e: ButtplugError)
    ensures
        e matches ButtplugError::DeviceError(m) && m@ == no_device_message(device_index),
{
    let mut s = String::from_str("No device with index ");
    let digits = u32_to_decimal(device_index);
    s.append(digits.as_str());
    s.append(" available");
    proof {
        assert(s@ =~= no_device_message(device_index));
    }
    ButtplugError::DeviceError(s)
}

} // verus!
