//! Decoding of heart-rate-measurement notification payloads.

use vstd::prelude::*;

verus! {

/// One decoded heart-rate reading.
#[derive(Clone, Copy, Debug, PartialEq, Eq, Structural)]
pub struct HeartRateReading {
    /// Beats per minute.
    pub value: u16,
    /// Present only when the sensor reports support for contact detection.
    pub sensor_contact_detected: Option<bool>,
}

/// Why a payload could not be decoded.
#[derive(Clone, Copy, Debug, PartialEq, Eq, Structural)]
pub enum MalformedPayload {
    /// The payload holds no flags byte.
    MissingFlags,
    /// The payload ends before the value byte(s) that the flags call for.
    MissingValueBytes,
}

impl MalformedPayload {
    /// A short description of the defect.
    pub fn reason(&self) -> (r: &'static str)
        ensures
            r@ == self.reason_spec(),
    {
        match self {
            MalformedPayload::MissingFlags => "missing flags",
            MalformedPayload::MissingValueBytes => "missing value byte(s)",
        }
    }

    pub open spec fn reason_spec(&self) -> Seq<char> {
        match self {
            MalformedPayload::MissingFlags => "missing flags"@,
            MalformedPayload::MissingValueBytes => "missing value byte(s)"@,
        }
    }
}

/// Bit 0 of the flags: the value is 16 bits wide.
pub open spec fn is_wide(flags: u8) -> bool {
    flags & 1u8 != 0
}

/// Bit 1 of the flags: the sensor detects skin contact.
pub open spec fn contact_bit(flags: u8) -> bool {
    flags & 2u8 != 0
}

/// Bit 2 of the flags: the sensor supports contact detection.
pub open spec fn contact_supported(flags: u8) -> bool {
    flags & 4u8 != 0
}

/// How many bytes a payload with these flags needs at least.
pub open spec fn required_len(flags: u8) -> nat {
    if is_wide(flags) {
        3
    } else {
        2
    }
}

/// The heart-rate value of a payload long enough for its flags: byte 1, or
/// bytes 1 and 2 little-endian.
pub open spec fn value_of(p: Seq<u8>) -> int {
    if is_wide(p[0]) {
        p[1] as int + 256 * p[2] as int
    } else {
        p[1] as int
    }
}

/// The contact field of a payload's reading.
pub open spec fn contact_of(flags: u8) -> Option<bool> {
    if contact_supported(flags) {
        Some(contact_bit(flags))
    } else {
        None
    }
}

/// What decoding a payload gives.
pub open spec fn decoded(p: Seq<u8>) -> Result<HeartRateReading, MalformedPayload> {
    if p.len() == 0 {
        Err(MalformedPayload::MissingFlags)
    } else if p.len() < required_len(p[0]) {
        Err(MalformedPayload::MissingValueBytes)
    } else {
        Ok(HeartRateReading { value: value_of(p) as u16, sensor_contact_detected: contact_of(p[0]) })
    }
}

/// Decodes one heart-rate-measurement notification payload. Flag bits other
/// than bits 0 to 2 are ignored, as are bytes after the value.
pub fn decode(payload: &[u8]) -> (r: Result<HeartRateReading, MalformedPayload>)
    ensures
        r == decoded(payload@),
        payload@.len() == 0 ==> r == Err::<HeartRateReading, MalformedPayload>(
            MalformedPayload::MissingFlags,
        ),
        payload@.len() > 0 ==> (r is Ok <==> payload@.len() >= required_len(payload@[0])),
        r is Ok && !is_wide(payload@[0]) ==> r->Ok_0.value == payload@[1],
        r is Ok && is_wide(payload@[0]) ==> r->Ok_0.value == payload@[1] as int + 256
            * payload@[2] as int,
        r is Ok && !contact_supported(payload@[0]) ==> r->Ok_0.sensor_contact_detected is None,
        r is Ok && contact_supported(payload@[0]) ==> r->Ok_0.sensor_contact_detected == Some(
            contact_bit(payload@[0]),
        ),
{
    if payload.len() == 0 {
        return Err(MalformedPayload::MissingFlags);
    }
    let flags = payload[0];
    let wide = flags & 1u8 != 0;
    let needed: usize = if wide {
        3
    } else {
        2
    };
    if payload.len() < needed {
        return Err(MalformedPayload::MissingValueBytes);
    }
    let low = payload[1];
    let value: u16 = if wide {
        let high = payload[2];
        let v = (low as u16) | ((high as u16) << 8u16);
        assert(v == low as int + 256 * high as int) by (bit_vector)
            requires
                v == (low as u16) | ((high as u16) << 8u16),
        ;
        v
    } else {
        low as u16
    };
    let contact = if flags & 4u8 != 0 {
        Some(flags & 2u8 != 0)
    } else {
        None
    };
    Ok(HeartRateReading { value, sensor_contact_detected: contact })
}

} // verus!
