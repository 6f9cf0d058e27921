//! The texts of the temperature and humidity panels, from an MQTT message of a
//! remote sensor board or from the board's own sensor.

use vstd::prelude::*;
use vstd::utf8::{
    decode_utf8, encode_utf8_decode_utf8, encode_utf8_valid_utf8,
    is_char_boundary, is_char_boundary_iff_not_is_continuation_byte,
    is_char_boundary_start_end_of_seq, is_continuation_byte, encode_utf8, is_ascii_chars,
    is_ascii_chars_encode_utf8,
};
use vstd::string::StringSliceAdditionalSpecFns;
use crate::text::{signed_decimal, signed_decimal_text};

verus! {

/// Degrees the board's sensor reads above the room's temperature.
pub const TEMPERATURE_CORRECTION: i32 = 3;

/// The texts of the temperature and humidity panels, and whether they carry
/// readings (the humidity panel places a reading lower than a notice).
#[derive(Debug, PartialEq, Eq)]
pub struct MeasurementTexts {
    pub temperature: String,
    pub humidity: String,
    pub has_data: bool,
}

/// The notice both panels show when no reading has arrived.
pub open spec fn no_data_text() -> Seq<char> {
    "No\ndata"@
}

/// Whether a message's bytes can be cut at bytes 2, 5 and 8: the temperature
/// is bytes 0 to 2 and the humidity bytes 5 to 8.
pub open spec fn message_readable(bytes: Seq<u8>) -> bool {
    &&& is_char_boundary(bytes, 2)
    &&& is_char_boundary(bytes, 5)
    &&& is_char_boundary(bytes, 8)
}

/// The temperature text of a readable message: its first two bytes and `°C`.
pub open spec fn message_temperature(bytes: Seq<u8>) -> Seq<char> {
    decode_utf8(bytes.subrange(0, 2)) + "\u{b0}C"@
}

/// The humidity text of a readable message: its bytes 5 to 8 and `%RH`.
pub open spec fn message_humidity(bytes: Seq<u8>) -> Seq<char> {
    decode_utf8(bytes.subrange(5, 8)) + "%RH"@
}

/// The panels' texts when no reading is at hand.
pub fn no_data() -> (m: MeasurementTexts)
    ensures
        m.temperature@ == no_data_text(),
        m.humidity@ == no_data_text(),
        !m.has_data,
{
    MeasurementTexts {
        temperature: String::from_str("No\ndata"),
        humidity: String::from_str("No\ndata"),
        has_data: false,
    }
}

/// The panels' texts for the latest message of the remote sensor board, if
/// one has arrived. A message is read by position: its first two bytes are
/// the temperature and its bytes 5 to 8 the humidity. A message too short, or
/// whose cuts fall inside a character, cannot be read (`None`).
pub fn measurements_from_message(message: Option<&str>) -> (r: Option<MeasurementTexts>)
    ensures
        message is None ==> (r matches Some(m) && m.temperature@ == no_data_text()
            && m.humidity@ == no_data_text() && !m.has_data),
        message matches Some(msg) ==> {
            &&& (r is Some <==> message_readable(msg.spec_bytes()))
            &&& (r matches Some(m) ==> {
                &&& m.temperature@ == message_temperature(msg.spec_bytes())
                &&& m.humidity@ == message_humidity(msg.spec_bytes())
                &&& m.has_data
            })
        },
{
    match message {
        None => Some(no_data()),
        Some(msg) => {
            if !(msg.is_char_boundary(2) && msg.is_char_boundary(5) && msg.is_char_boundary(8)) {
                return None;
            }
            let ghost bytes = msg.spec_bytes();
            let (head, _) = msg.split_at(2);
            let (first8, _) = msg.split_at(8);
            proof {
                encode_utf8_valid_utf8(msg@);
                encode_utf8_valid_utf8(first8@);
                let sub8 = first8.spec_bytes();
                assert(sub8 =~= bytes.subrange(0, 8));
                is_char_boundary_iff_not_is_continuation_byte(bytes, 5);
                is_char_boundary_iff_not_is_continuation_byte(sub8, 5);
                assert(sub8[5] == bytes[5]);
            }
            let (_, humidity_part) = first8.split_at(5);
            proof {
                encode_utf8_decode_utf8(head@);
                encode_utf8_decode_utf8(humidity_part@);
                assert(humidity_part.spec_bytes() =~= bytes.subrange(5, 8));
            }
            let temperature = String::from_str(head).concat("\u{b0}C");
            let humidity = String::from_str(humidity_part).concat("%RH");
            Some(MeasurementTexts { temperature, humidity, has_data: true })
        },
    }
}

/// Whether a message can be read depends only on its length and on its bytes
/// 2, 5 and 8: it has at least 8 bytes and none of those bytes (that it has)
/// continues a character. Any longer message is read as well; in particular
/// every ASCII message of 8 or more bytes can be read.
pub proof fn lemma_message_readable_by_bytes(msg: &str)
    ensures
        ({
            let b = msg.spec_bytes();
            message_readable(b) <==> {
                &&& b.len() >= 8
                &&& !is_continuation_byte(b[2])
                &&& !is_continuation_byte(b[5])
                &&& (b.len() == 8 || !is_continuation_byte(b[8]))
            }
        }),
        ({
            let b = msg.spec_bytes();
            b.len() >= 8 && (forall|i: int| 0 <= i < b.len() ==> #[trigger] b[i] < 0x80u8)
                ==> message_readable(b)
        }),
{
    let b = msg.spec_bytes();
    encode_utf8_valid_utf8(msg@);
    is_char_boundary_start_end_of_seq(b);
    if b.len() > 2 {
        is_char_boundary_iff_not_is_continuation_byte(b, 2);
    }
    if b.len() > 5 {
        is_char_boundary_iff_not_is_continuation_byte(b, 5);
    }
    if b.len() > 8 {
        is_char_boundary_iff_not_is_continuation_byte(b, 8);
    }
    if b.len() >= 8 && (forall|i: int| 0 <= i < b.len() ==> #[trigger] b[i] < 0x80u8) {
        assert(b[2] < 0x80u8 && b[5] < 0x80u8);
        if b.len() > 8 {
            assert(b[8] < 0x80u8);
        }
    }
}

/// The characters `chars[start..end]` of an ASCII text are decoded from its
/// bytes `start..end`.
proof fn lemma_ascii_slice_decodes(chars: Seq<char>, start: int, end: int)
    requires
        is_ascii_chars(chars),
        0 <= start <= end <= chars.len(),
    ensures
        decode_utf8(encode_utf8(chars).subrange(start, end)) == chars.subrange(start, end),
{
    let part = chars.subrange(start, end);
    assert(is_ascii_chars(part));
    is_ascii_chars_encode_utf8(chars);
    is_ascii_chars_encode_utf8(part);
    assert(encode_utf8(part) =~= encode_utf8(chars).subrange(start, end)) by {
        assert forall|i: int| 0 <= i < part.len() implies #[trigger] encode_utf8(part)[i]
            == encode_utf8(chars).subrange(start, end)[i] by {
            assert(part[i] == chars[start + i]);
        }
    }
    encode_utf8_decode_utf8(part);
}

/// For an ASCII message of at least 8 characters, the temperature text is its
/// first two characters followed by `°C`, and the humidity text its
/// characters 5 to 7 followed by `%RH`.
pub proof fn lemma_ascii_message_texts(msg: &str)
    requires
        is_ascii_chars(msg@),
        msg@.len() >= 8,
    ensures
        message_temperature(msg.spec_bytes()) == msg@.subrange(0, 2) + "\u{b0}C"@,
        message_humidity(msg.spec_bytes()) == msg@.subrange(5, 8) + "%RH"@,
{
    lemma_ascii_slice_decodes(msg@, 0, 2);
    lemma_ascii_slice_decodes(msg@, 5, 8);
}

/// The temperature text of a whole-degree sensor reading: the reading less
/// the sensor's correction, with its sign, then `°C`.
pub open spec fn sensor_temperature_text_spec(celsius: int) -> Seq<char> {
    signed_decimal(celsius - TEMPERATURE_CORRECTION) + "\u{b0}C"@
}

/// The temperature text of the board's own sensor reading `celsius` whole
/// degrees, such as `+21°C`.
pub fn sensor_temperature_text(celsius: i32) -> (s: String)
    requires
        celsius >= i32::MIN + TEMPERATURE_CORRECTION,
    ensures
        s@ == sensor_temperature_text_spec(celsius as int),
{
    let corrected = celsius - TEMPERATURE_CORRECTION;
    signed_decimal_text(corrected as i64).concat("\u{b0}C")
}

} // verus!
