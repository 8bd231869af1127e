//! Device identity: a 128-bit value drawn once at process start, rendered as a
//! 32-character lowercase hexadecimal string that names the device in every
//! heartbeat it emits.

use vstd::prelude::*;
use vstd::string::StringExecFns;
use crate::text;

verus! {

/// Lowercase hexadecimal rendering of a byte sequence, two characters per
/// byte, most significant nibble first.
pub open spec fn hex_of(bytes: Seq<u8>) -> Seq<char> {
    Seq::new(
        bytes.len() * 2,
        |i: int|
            if i % 2 == 0 {
                text::hex_char((bytes[i / 2] / 16) as nat)
            } else {
                text::hex_char((bytes[i / 2] % 16) as nat)
            },
    )
}

/// Render a byte string in lowercase hexadecimal.
pub fn bytes_to_hex(bytes: &Vec<u8>) -> (s: String)
    ensures
        s@ == hex_of(bytes@),
{
    let mut s = String::new();
    let mut i: usize = 0;
    while i < bytes.len()
        invariant
            i <= bytes@.len(),
            s@ =~= hex_of(bytes@.take(i as int)),
        decreases bytes@.len() - i,
    {
        let b = bytes[i];
        let hi = (b / 16) as usize;
        let lo = (b % 16) as usize;
        s.append(text::hex_str(hi));
        s.append(text::hex_str(lo));
        proof {
            assert(s@ =~= hex_of(bytes@.take(i + 1)));
        }
        i = i + 1;
    }
    proof {
        assert(bytes@.take(bytes@.len() as int) =~= bytes@);
    }
    s
}

/// Relies on uuid::Uuid::new_v4 for the random 128-bit value, and on
/// Uuid::as_bytes for its 16 bytes. The value is random: nothing is stated of
/// it beyond its size.
#[verifier::external_body]
fn fresh_identity_bytes() -> (r: Vec<u8>)
    ensures
        r@.len() == 16,
{
    uuid::Uuid::new_v4().as_bytes().to_vec()
}

/// A process-scoped device identity: sixteen random bytes, held here as the
/// hexadecimal string that appears on the wire and in reported lines.
pub struct DeviceId {
    /// The raw 128-bit value, kept as a ghost model of the identity.
    pub bytes: Ghost<Seq<u8>>,
    /// The rendered identity: 32 lowercase hexadecimal characters.
    pub hex: String,
}

impl DeviceId {
    /// The rendered string is exactly the hexadecimal form of the 16 raw bytes.
    pub open spec fn wf(self) -> bool {
        &&& self.bytes@.len() == 16
        &&& self.hex@ == hex_of(self.bytes@)
    }

    /// Draw a fresh identity. Called once per process; the value is random,
    /// so distinct processes get distinct identities with overwhelming
    /// probability.
    pub fn generate() -> (d: DeviceId)
        ensures
            d.wf(),
    {
        let raw = fresh_identity_bytes();
        let hex = bytes_to_hex(&raw);
        DeviceId { bytes: Ghost(raw@), hex }
    }

    /// The rendered identity string.
    pub fn as_hex(&self) -> (r: &str)
        ensures
            r@ == self.hex@,
    {
        self.hex.as_str()
    }
}

/// Distinct hexadecimal digit values render to distinct characters.
proof fn lemma_hex_char_injective(d1: nat, d2: nat)
    requires
        d1 < 16,
        d2 < 16,
        text::hex_char(d1) == text::hex_char(d2),
    ensures
        d1 == d2,
{
    assert(text::digit_char(d1) != text::digit_char(d2) || d1 == d2 || d1 >= 10 || d2 >= 10);
}

/// Hexadecimal rendering is injective: two identities render to the same
/// string only if their raw bytes are equal. An identity collision is
/// therefore exactly a collision of the underlying 128-bit random values.
pub proof fn lemma_hex_of_injective(b1: Seq<u8>, b2: Seq<u8>)
    requires
        b1.len() == b2.len(),
        hex_of(b1) == hex_of(b2),
    ensures
        b1 =~= b2,
{
    assert forall|i: int| 0 <= i < b1.len() implies b1[i] == b2[i] by {
        assert((2 * i) / 2 == i && (2 * i + 1) / 2 == i);
        assert((2 * i) % 2 == 0 && (2 * i + 1) % 2 == 1);
        assert(hex_of(b1)[2 * i] == text::hex_char((b1[i] / 16) as nat));
        assert(hex_of(b2)[2 * i] == text::hex_char((b2[i] / 16) as nat));
        assert(hex_of(b1)[2 * i + 1] == text::hex_char((b1[i] % 16) as nat));
        assert(hex_of(b2)[2 * i + 1] == text::hex_char((b2[i] % 16) as nat));
        assert(b1[i] / 16 < 16 && b2[i] / 16 < 16 && b1[i] % 16 < 16 && b2[i] % 16 < 16);
        lemma_hex_char_injective((b1[i] / 16) as nat, (b2[i] / 16) as nat);
        lemma_hex_char_injective((b1[i] % 16) as nat, (b2[i] % 16) as nat);
        assert(b1[i] / 16 == b2[i] / 16 && b1[i] % 16 == b2[i] % 16);
        assert(b1[i] == b1[i] / 16 * 16 + b1[i] % 16) by (nonlinear_arith);
        assert(b2[i] == b2[i] / 16 * 16 + b2[i] % 16) by (nonlinear_arith);
    }
}

} // verus!
