//! Decoder for the HID report frames emitted by Dymo postal scales.
//!
//! A frame starts at the first byte equal to 3 (some transports prepend a
//! stray zero byte before the real frame start). The five bytes that follow
//! the start byte are: a status code, a unit code, a signed power-of-ten
//! exponent, and a little-endian 16-bit raw value. A reading is the raw value
//! scaled by ten to the exponent, in the unit the unit code names.

use vstd::prelude::*;

use crate::HidScaleError;
use crate::ScaleKind;

verus! {

/// The USB vendor id that Dymo scales report.
pub const VENDOR_ID: u16 = 0x0922;

/// The USB product id of the Dymo M10 scale.
pub const M10_PRODUCT_ID: u16 = 0x8003;

/// Which driver kind, if any, serves the Dymo device with the given
/// product id.
pub open spec fn driver_for_product(product_id: u16) -> Option<ScaleKind> {
    if product_id == M10_PRODUCT_ID {
        Some(ScaleKind::DymoM10)
    } else {
        None
    }
}

/// Resolves a Dymo product id to the driver kind that understands it, or
/// `None` for a product this library does not support.
pub fn make_driver(product_id: u16) -> (r: Option<ScaleKind>)
    ensures
        r == driver_for_product(product_id),
{
    match product_id {
        M10_PRODUCT_ID => Some(ScaleKind::DymoM10),
        _ => None,
    }
}

/// The unit a scale reading is expressed in.
#[derive(Clone, Copy, Debug, PartialEq, Eq, Structural)]
pub enum ReadingUnit {
    /// Grams of force.
    Grams,
    /// Ounces of force.
    Ounces,
}

/// One decoded scale reading: `raw` scaled by ten to the `exponent`, in
/// `unit`. The value is kept in this exact decimal form; conversions to
/// other units stay exact as well (see [`crate::units`]).
#[derive(Clone, Copy, Debug, PartialEq, Eq, Structural)]
pub struct Reading {
    /// The unit the value is expressed in.
    pub unit: ReadingUnit,
    /// The unscaled 16-bit magnitude from the frame.
    pub raw: u16,
    /// The power-of-ten exponent that scales `raw`.
    pub exponent: i8,
}

/// The number of leading bytes to skip before the frame starts: the index of
/// the first byte equal to 3, or the length of the buffer if there is none.
pub open spec fn frame_offset(s: Seq<u8>) -> int
    decreases s.len(),
{
    if s.len() == 0 {
        0
    } else if s[0] == 3 {
        0
    } else {
        1 + frame_offset(s.skip(1))
    }
}

/// The frame offset is the least index holding a 3, or the buffer length if
/// no byte is a 3.
pub proof fn lemma_frame_offset_bounds(s: Seq<u8>)
    ensures
        0 <= frame_offset(s) <= s.len(),
        forall|i: int| 0 <= i < frame_offset(s) ==> s[i] != 3,
        frame_offset(s) < s.len() ==> s[frame_offset(s)] == 3,
    decreases s.len(),
{
    if s.len() == 0 {
    } else if s[0] == 3 {
    } else {
        let t = s.skip(1);
        lemma_frame_offset_bounds(t);
        assert forall|i: int| 0 <= i < frame_offset(s) implies s[i] != 3 by {
            if i > 0 {
                assert(t[i - 1] == s[i]);
            }
        }
        if frame_offset(s) < s.len() {
            assert(t[frame_offset(t)] == s[frame_offset(s)]);
        }
    }
}

/// Any index that holds a 3 with no 3 before it (or the buffer length, when
/// no byte is a 3) is the frame offset.
pub proof fn lemma_frame_offset_is(s: Seq<u8>, k: int)
    requires
        0 <= k <= s.len(),
        forall|i: int| 0 <= i < k ==> s[i] != 3,
        k == s.len() || s[k] == 3,
    ensures
        frame_offset(s) == k,
    decreases s.len(),
{
    if s.len() == 0 {
    } else if s[0] == 3 {
        assert(k == 0);
    } else {
        let t = s.skip(1);
        assert(k >= 1) by {
            if k == 0 {
                assert(s[0] == 3);
            }
        }
        assert forall|i: int| 0 <= i < k - 1 implies t[i] != 3 by {
            assert(t[i] == s[i + 1]);
        }
        if k < s.len() {
            assert(t[k - 1] == s[k]);
        }
        lemma_frame_offset_is(t, k - 1);
    }
}

/// The value of a frame byte read as a signed 8-bit integer.
pub open spec fn exponent_of(b: u8) -> int {
    if b < 128 {
        b as int
    } else {
        b - 256
    }
}

/// The value of two frame bytes read as an unsigned little-endian 16-bit
/// integer.
pub open spec fn raw_of(lo: u8, hi: u8) -> u16 {
    (lo + 256 * hi) as u16
}

/// What decoding a raw report buffer yields: the frame is sought from the
/// start of the buffer, and its status and unit codes select between a
/// successful reading and each of the decode errors.
pub open spec fn parse_result(s: Seq<u8>) -> Result<Reading, HidScaleError> {
    let off = frame_offset(s);
    if off + 6 > s.len() {
        Err(HidScaleError::NotEnoughData)
    } else {
        let status = s[off + 1];
        let unit_code = s[off + 2];
        let reading = Reading {
            unit: ReadingUnit::Grams,
            raw: raw_of(s[off + 4], s[off + 5]),
            exponent: exponent_of(s[off + 3]) as i8,
        };
        if (status == 2 || status == 4) && unit_code == 2 {
            Ok(reading)
        } else if (status == 2 || status == 4) && unit_code == 11 {
            Ok(Reading { unit: ReadingUnit::Ounces, ..reading })
        } else if status == 5 {
            Err(HidScaleError::UnreportableReading)
        } else if status == 6 {
            Err(HidScaleError::Overloaded)
        } else {
            Err(HidScaleError::UnknownUnits)
        }
    }
}

/// Decodes one raw report buffer into a reading, or fails with the error the
/// frame calls for. Never reads out of bounds: a buffer too short to hold a
/// whole frame past the start byte fails with `NotEnoughData`.
pub fn parse_buffer(buf: &[u8]) -> (r: Result<Reading, HidScaleError>)
    ensures
        r == parse_result(buf@),
{
    let mut offset: usize = 0;
    while offset < buf.len() && buf[offset] != 3
        invariant
            0 <= offset <= buf@.len(),
            forall|i: int| 0 <= i < offset ==> buf@[i] != 3,
        decreases buf@.len() - offset,
    {
        offset += 1;
    }
    proof {
        lemma_frame_offset_is(buf@, offset as int);
    }
    if buf.len() - offset < 6 {
        return Err(HidScaleError::NotEnoughData);
    }
    let status = buf[offset + 1];
    let unit_code = buf[offset + 2];
    let eb = buf[offset + 3];
    let exponent: i8 = if eb >= 128 {
        ((eb as i16) - 256) as i8
    } else {
        eb as i8
    };
    let raw: u16 = (buf[offset + 4] as u16) + 256 * (buf[offset + 5] as u16);
    if (status == 2 || status == 4) && unit_code == 2 {
        Ok(Reading { unit: ReadingUnit::Grams, raw, exponent })
    } else if (status == 2 || status == 4) && unit_code == 11 {
        Ok(Reading { unit: ReadingUnit::Ounces, raw, exponent })
    } else if status == 5 {
        Err(HidScaleError::UnreportableReading)
    } else if status == 6 {
        Err(HidScaleError::Overloaded)
    } else {
        Err(HidScaleError::UnknownUnits)
    }
}

/// Interprets the outcome of one blocking transport read. A transport-level
/// failure surfaces as `CantReadDueTo` carrying the transport's description;
/// a read of fewer than six bytes fails with `NotEnoughData`; otherwise the
/// buffer is decoded with [`parse_buffer`].
pub fn interpret_read(buf: &[u8], read_result: Result<usize, String>) -> (r: Result<
    Reading,
    HidScaleError,
>)
    ensures
        read_result matches Err(m) ==> r == Err::<Reading, HidScaleError>(
            HidScaleError::CantReadDueTo(m),
        ),
        read_result matches Ok(n) && n < 6 ==> r == Err::<Reading, HidScaleError>(
            HidScaleError::NotEnoughData,
        ),
        read_result matches Ok(n) && n >= 6 ==> r == parse_result(buf@),
{
    match read_result {
        Ok(count) => {
            if count >= 6 {
                parse_buffer(buf)
            } else {
                Err(HidScaleError::NotEnoughData)
            }
        },
        Err(m) => Err(HidScaleError::CantReadDueTo(m)),
    }
}

/// The canonical six-byte frame that carries the given status code, unit
/// code, exponent byte and little-endian raw value, with no stray leading
/// bytes.
pub open spec fn encode_spec(status: u8, unit_code: u8, exponent: u8, lo: u8, hi: u8) -> Seq<
    u8,
> {
    seq![3u8, status, unit_code, exponent, lo, hi]
}

/// The reading that the frame built by [`encode_spec`] carries, assuming a
/// valid status and unit code.
pub open spec fn encoded_reading(unit_code: u8, exponent: u8, lo: u8, hi: u8) -> Reading {
    Reading {
        unit: if unit_code == 2 {
            ReadingUnit::Grams
        } else {
            ReadingUnit::Ounces
        },
        raw: raw_of(lo, hi),
        exponent: exponent_of(exponent) as i8,
    }
}

/// Builds the canonical frame for the given field values.
pub fn encode_frame(status: u8, unit_code: u8, exponent: u8, lo: u8, hi: u8) -> (v: Vec<u8>)
    ensures
        v@ == encode_spec(status, unit_code, exponent, lo, hi),
{
    let mut v: Vec<u8> = Vec::new();
    v.push(3);
    v.push(status);
    v.push(unit_code);
    v.push(exponent);
    v.push(lo);
    v.push(hi);
    proof {
        assert(v@ =~= encode_spec(status, unit_code, exponent, lo, hi));
    }
    v
}

/// Round trip: decoding the canonical frame for any representable
/// (status, unit code, exponent, raw value) tuple with a valid status and
/// unit code yields exactly the reading those fields encode.
pub proof fn lemma_decode_encode(status: u8, unit_code: u8, exponent: u8, lo: u8, hi: u8)
    requires
        status == 2 || status == 4,
        unit_code == 2 || unit_code == 11,
    ensures
        parse_result(encode_spec(status, unit_code, exponent, lo, hi)) == Ok::<
            Reading,
            HidScaleError,
        >(encoded_reading(unit_code, exponent, lo, hi)),
{
    let s = encode_spec(status, unit_code, exponent, lo, hi);
    assert(s[0] == 3);
    lemma_frame_offset_is(s, 0);
}

/// Bounds safety: a buffer of fewer than six bytes always fails with
/// `NotEnoughData`, whatever its contents.
pub proof fn lemma_short_buffer_not_enough_data(s: Seq<u8>)
    requires
        s.len() < 6,
    ensures
        parse_result(s) == Err::<Reading, HidScaleError>(HidScaleError::NotEnoughData),
{
    lemma_frame_offset_bounds(s);
}

/// Bounds safety: a buffer with no byte equal to 3 always fails with
/// `NotEnoughData` — the frame start is never found, and nothing past the
/// end of the buffer is read.
pub proof fn lemma_no_frame_start_not_enough_data(s: Seq<u8>)
    requires
        forall|i: int| 0 <= i < s.len() ==> s[i] != 3,
    ensures
        parse_result(s) == Err::<Reading, HidScaleError>(HidScaleError::NotEnoughData),
{
    lemma_frame_offset_is(s, s.len() as int);
}

/// Status dispatch: in any buffer long enough to hold a whole frame, status 5
/// yields `UnreportableReading` and status 6 yields `Overloaded`, regardless
/// of the unit, exponent and value bytes; any other status and unit
/// combination outside the recognized ones yields `UnknownUnits`.
pub proof fn lemma_status_dispatch(s: Seq<u8>)
    requires
        frame_offset(s) + 6 <= s.len(),
    ensures
        s[frame_offset(s) + 1] == 5 ==> parse_result(s) == Err::<Reading, HidScaleError>(
            HidScaleError::UnreportableReading,
        ),
        s[frame_offset(s) + 1] == 6 ==> parse_result(s) == Err::<Reading, HidScaleError>(
            HidScaleError::Overloaded,
        ),
        ({
            let status = s[frame_offset(s) + 1];
            let unit_code = s[frame_offset(s) + 2];
            status != 5 && status != 6 && !((status == 2 || status == 4) && (unit_code == 2
                || unit_code == 11))
        }) ==> parse_result(s) == Err::<Reading, HidScaleError>(HidScaleError::UnknownUnits),
{
}

} // verus!
