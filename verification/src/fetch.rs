//! The resize-and-retry protocol around the host's adapter-enumeration query,
//! as an explicit state machine.
//!
//! The query is called once with a zero-length buffer; if it answers "buffer
//! too small" the caller allocates the reported size and calls once more.
//! Any other nonzero code, at either call, is fatal to the adapter listing
//! (and to it alone). The caller performs the calls and feeds each result
//! code back through [`fetch_transition`]; this module only decides.

use vstd::prelude::*;
use vstd::string::StringExecFns;
use crate::mac::{hex_digit, hex_digit_str};

verus! {

/// The code with which the enumeration query asks for a larger buffer.
pub const CODE_BUFFER_TOO_SMALL: u32 = 111;

/// The code with which the enumeration query reports success.
pub const CODE_SUCCESS: u32 = 0;

/// One state of the buffer-fetch protocol.
#[derive(Clone, Copy, Debug, PartialEq, Eq, Structural)]
pub enum FetchState {
    /// The initial probe with a zero-length buffer is outstanding.
    SizeProbe,
    /// The probe reported "too small": allocate `size` bytes and query again.
    Retry { size: u32 },
    /// The query succeeded and filled `size` bytes (0: the adapter set fit in
    /// no buffer at all, an empty snapshot).
    Success { size: u32 },
    /// The query failed with `code`, beyond buffer-resize recovery.
    Failure { code: u32 },
}

impl FetchState {
    /// A state from which no further query is made.
    pub open spec fn is_terminal(self) -> bool {
        self is Success || self is Failure
    }
}

/// Advances the protocol by one observed result: `code` is what the
/// enumeration query returned, `reported_size` the buffer size it asked for.
/// Terminal states are left unchanged.
pub fn fetch_transition(state: FetchState, code: u32, reported_size: u32) -> (next: FetchState)
    ensures
        state is SizeProbe && code == CODE_BUFFER_TOO_SMALL ==> next == (FetchState::Retry {
            size: reported_size,
        }),
        state is SizeProbe && code == CODE_SUCCESS ==> next == (FetchState::Success { size: 0 }),
        state is SizeProbe && code != CODE_BUFFER_TOO_SMALL && code != CODE_SUCCESS ==> next
            == (FetchState::Failure { code }),
        state matches FetchState::Retry { size } ==> next == (if code == CODE_SUCCESS {
            FetchState::Success { size }
        } else {
            FetchState::Failure { code }
        }),
        state.is_terminal() ==> next == state,
{
    match state {
        FetchState::SizeProbe => {
            if code == CODE_BUFFER_TOO_SMALL {
                FetchState::Retry { size: reported_size }
            } else if code == CODE_SUCCESS {
                FetchState::Success { size: 0 }
            } else {
                FetchState::Failure { code }
            }
        },
        FetchState::Retry { size } => {
            if code == CODE_SUCCESS {
                FetchState::Success { size }
            } else {
                FetchState::Failure { code }
            }
        },
        FetchState::Success { size } => FetchState::Success { size },
        FetchState::Failure { code } => FetchState::Failure { code },
    }
}

/// The decimal text of a number: most significant digit first, a single
/// digit for values below ten.
pub open spec fn dec_text(n: u32) -> Seq<char>
    decreases n,
{
    if n < 10 {
        seq![hex_digit(n as u8)]
    } else {
        dec_text(n / 10) + seq![hex_digit((n % 10) as u8)]
    }
}

/// Formats a number in decimal.
pub fn u32_text(n: u32) -> (r: String)
    ensures
        r@ == dec_text(n),
    decreases n,
{
    if n < 10 {
        hex_digit_str(n as u8).to_owned()
    } else {
        let mut r = u32_text(n / 10);
        r.append(hex_digit_str((n % 10) as u8));
        r
    }
}

/// The error line shown when the enumeration query fails beyond
/// buffer-resize recovery, naming the numeric failure code.
pub fn os_error_line(code: u32) -> (r: String)
    ensures
        r@ == "GetAdaptersAddresses failed with error code: "@ + dec_text(code),
{
    let mut r = "GetAdaptersAddresses failed with error code: ".to_owned();
    let digits = u32_text(code);
    r.append(digits.as_str());
    r
}

} // verus!
