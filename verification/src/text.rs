//! Rendering of the numbers and identifiers that appear in reported lines:
//! decimal sequence numbers and lowercase hexadecimal identity strings.

use vstd::prelude::*;
use vstd::string::StrSliceExecFns;
use vstd::string::StringExecFns;
use crate::heartbeat::Heartbeat;
use crate::heartbeat::HeartbeatView;

verus! {

/// The character for a single decimal digit value.
pub open spec fn digit_char(d: nat) -> char {
    if d == 0 {
        '0'
    } else if d == 1 {
        '1'
    } else if d == 2 {
        '2'
    } else if d == 3 {
        '3'
    } else if d == 4 {
        '4'
    } else if d == 5 {
        '5'
    } else if d == 6 {
        '6'
    } else if d == 7 {
        '7'
    } else if d == 8 {
        '8'
    } else {
        '9'
    }
}

/// Decimal digits of `n`, most significant first.
pub open spec fn dec_of(n: nat) -> Seq<char>
    decreases n,
{
    if n < 10 {
        seq![digit_char(n)]
    } else {
        dec_of(n / 10).push(digit_char(n % 10))
    }
}

/// The character for a single hexadecimal digit value, lowercase.
pub open spec fn hex_char(d: nat) -> char {
    if d < 10 {
        digit_char(d)
    } else if d == 10 {
        'a'
    } else if d == 11 {
        'b'
    } else if d == 12 {
        'c'
    } else if d == 13 {
        'd'
    } else if d == 14 {
        'e'
    } else {
        'f'
    }
}

/// A one-character string slice holding the decimal digit `d`.
fn digit_str(d: usize) -> (r: &'static str)
    requires
        d < 10,
    ensures
        r@ =~= seq![digit_char(d as nat)],
{
    let digits = "0123456789";
    proof {
        reveal_strlit("0123456789");
    }
    digits.substring_ascii(d, d + 1)
}

/// A one-character string slice holding the lowercase hexadecimal digit `d`.
pub(crate) fn hex_str(d: usize) -> (r: &'static str)
    requires
        d < 16,
    ensures
        r@ =~= seq![hex_char(d as nat)],
{
    let digits = "0123456789abcdef";
    proof {
        reveal_strlit("0123456789abcdef");
    }
    digits.substring_ascii(d, d + 1)
}

/// Render `n` in decimal, most significant digit first, no leading zeros
/// (a lone zero for zero itself).
pub fn u32_to_decimal(n: u32) -> (s: String)
    ensures
        s@ == dec_of(n as nat),
    decreases n,
{
    if n < 10 {
        let mut s = String::new();
        s.append(digit_str(n as usize));
        proof {
            assert(s@ =~= dec_of(n as nat));
        }
        s
    } else {
        let mut s = u32_to_decimal(n / 10);
        s.append(digit_str((n % 10) as usize));
        proof {
            assert(s@ =~= dec_of(n as nat));
        }
        s
    }
}

/// Text of the line reported for each emission.
pub open spec fn sent_line_of(n: u32) -> Seq<char> {
    "Sent TMS Heartbeat sequenceNumber "@ + dec_of(n as nat)
}

/// Text of the line reported for each received heartbeat.
pub open spec fn received_line_of(h: HeartbeatView) -> Seq<char> {
    "Received TMS Heartbeat: deviceId "@ + h.device_id + ", sequenceNumber "@ + dec_of(
        h.sequence_number as nat,
    )
}

/// Build the line reported after emitting the heartbeat with sequence
/// number `n`.
pub fn sent_line(n: u32) -> (s: String)
    ensures
        s@ == sent_line_of(n),
{
    let mut s = String::from_str("Sent TMS Heartbeat sequenceNumber ");
    let d = u32_to_decimal(n);
    s.append(d.as_str());
    s
}

/// Build the line reported for a received heartbeat.
pub fn received_line(h: &Heartbeat) -> (s: String)
    ensures
        s@ == received_line_of(h@),
{
    let mut s = String::from_str("Received TMS Heartbeat: deviceId ");
    s.append(h.device_id.as_str());
    s.append(", sequenceNumber ");
    let d = u32_to_decimal(h.sequence_number);
    s.append(d.as_str());
    proof {
        assert(s@ =~= received_line_of(h@));
    }
    s
}

} // verus!
