use vstd::prelude::*;
use vstd::string::StringExecFns;

use crate::fmt::{spec_dec_pad, u64_to_dec_pad8};
use crate::jsonio::{
    json_i64_at, json_i64_field, json_num_text_at, json_num_text_field, json_str_at,
    json_str_field, json_u64_at, json_u64_field, lowercase, lowered,
};
use crate::record::{RecordAcuriteTower, RecordBase, RecordView};

verus! {

/// The one model discriminator this system currently understands.
pub open spec fn supported_model() -> Seq<char> {
    "Acurite-Tower"@
}

/// The line decodes as JSON exposing the generic envelope: top-level string
/// fields `time` and `model`.
pub open spec fn envelope_ok(b: Seq<u8>) -> bool {
    json_str_at(b, "time"@) is Some && json_str_at(b, "model"@) is Some
}

/// The model discriminator the line carries (meaningful when the envelope
/// decodes).
pub open spec fn model_at(b: Seq<u8>) -> Seq<char> {
    json_str_at(b, "model"@)->0
}

/// The line decodes to the full supported record: the envelope plus every
/// typed field of the supported model.
pub open spec fn record_ok(b: Seq<u8>) -> bool {
    &&& envelope_ok(b)
    &&& json_u64_at(b, "id"@) is Some
    &&& json_str_at(b, "channel"@) is Some
    &&& json_i64_at(b, "battery_ok"@) is Some
    &&& json_num_text_at(b, "temperature_C"@) is Some
    &&& json_num_text_at(b, "humidity"@) is Some
    &&& json_str_at(b, "mic"@) is Some
}

/// The record a fully-decoding line of the supported model yields.
pub open spec fn record_at(b: Seq<u8>) -> RecordView {
    RecordView {
        time: json_str_at(b, "time"@)->0,
        model: json_str_at(b, "model"@)->0,
        id: json_u64_at(b, "id"@)->0,
        channel: json_str_at(b, "channel"@)->0,
        battery_ok: json_i64_at(b, "battery_ok"@)->0,
        temperature_c: json_num_text_at(b, "temperature_C"@)->0,
        humidity: json_num_text_at(b, "humidity"@)->0,
        mic: json_str_at(b, "mic"@)->0,
    }
}

/// What decoding one complete line yields: a record of the supported model,
/// a decodable line of some other model (silently skipped), or a decode
/// failure (recovered: the line is dropped, the session continues).
pub enum LineOutcome {
    Record(RecordAcuriteTower),
    UnknownModel,
    Malformed,
}

/// Decode one complete line, tolerant of unknown and malformed input: first
/// the generic envelope, then dispatch on the model discriminator, then the
/// full typed record.
pub fn parse_line(buf: &[u8]) -> (r: LineOutcome)
    ensures
        !envelope_ok(buf@) ==> r is Malformed,
        envelope_ok(buf@) && model_at(buf@) != supported_model() ==> r is UnknownModel,
        envelope_ok(buf@) && model_at(buf@) == supported_model() && !record_ok(buf@)
            ==> r is Malformed,
        model_at(buf@) == supported_model() && record_ok(buf@) ==> (r matches LineOutcome::Record(
            rec,
        ) && rec@ == record_at(buf@)),
{
    let time = match json_str_field(buf, "time") {
        Some(t) => t,
        None => return LineOutcome::Malformed,
    };
    let model = match json_str_field(buf, "model") {
        Some(m) => m,
        None => return LineOutcome::Malformed,
    };
    let envelope = RecordBase { time, model };
    let sup = String::from_str("Acurite-Tower");
    if !(envelope.model == sup) {
        return LineOutcome::UnknownModel;
    }
    let id = match json_u64_field(buf, "id") {
        Some(v) => v,
        None => return LineOutcome::Malformed,
    };
    let channel = match json_str_field(buf, "channel") {
        Some(v) => v,
        None => return LineOutcome::Malformed,
    };
    let battery_ok = match json_i64_field(buf, "battery_ok") {
        Some(v) => v,
        None => return LineOutcome::Malformed,
    };
    let temperature_c = match json_num_text_field(buf, "temperature_C") {
        Some(v) => v,
        None => return LineOutcome::Malformed,
    };
    let humidity = match json_num_text_field(buf, "humidity") {
        Some(v) => v,
        None => return LineOutcome::Malformed,
    };
    let mic = match json_str_field(buf, "mic") {
        Some(v) => v,
        None => return LineOutcome::Malformed,
    };
    LineOutcome::Record(
        RecordAcuriteTower {
            time: envelope.time,
            model: envelope.model,
            id,
            channel,
            battery_ok,
            temperature_c,
            humidity,
            mic,
        },
    )
}

/// The canonical cache id of a reading: lowercase(model), the device id
/// zero-padded to eight digits, and lowercase(channel), joined with '-'.
pub open spec fn spec_key(model: Seq<char>, id: u64, channel: Seq<char>) -> Seq<char> {
    lowered(model) + "-"@ + spec_dec_pad(id as nat, 8) + "-"@ + lowered(channel)
}

/// Build the canonical cache id for a reading.
pub fn sensor_key(model: &str, id: u64, channel: &str) -> (k: String)
    ensures
        k@ == spec_key(model@, id, channel@),
{
    let mut s = lowercase(model);
    s.append("-");
    let digits = u64_to_dec_pad8(id);
    s.append(digits.as_str());
    s.append("-");
    let low_channel = lowercase(channel);
    s.append(low_channel.as_str());
    s
}

} // verus!
