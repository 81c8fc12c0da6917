use vstd::prelude::*;

verus! {

/// The generic envelope every log line must decode to before dispatch:
/// a timestamp and the model discriminator.
#[derive(Debug)]
pub struct RecordBase {
    pub time: String,
    pub model: String,
}

/// One decoded reading from the supported device model. The temperature and
/// humidity fields carry the decimal rendering of the decoded numeric value,
/// exactly as the metrics text will show it.
#[derive(Debug)]
pub struct RecordAcuriteTower {
    pub time: String,
    pub model: String,
    pub id: u64,
    pub channel: String,
    pub battery_ok: i64,
    pub temperature_c: String,
    pub humidity: String,
    pub mic: String,
}

/// Mathematical image of a record: each text field as its character sequence.
pub struct RecordView {
    pub time: Seq<char>,
    pub model: Seq<char>,
    pub id: u64,
    pub channel: Seq<char>,
    pub battery_ok: i64,
    pub temperature_c: Seq<char>,
    pub humidity: Seq<char>,
    pub mic: Seq<char>,
}

impl View for RecordAcuriteTower {
    type V = RecordView;

    open spec fn view(&self) -> RecordView {
        RecordView {
            time: self.time@,
            model: self.model@,
            id: self.id,
            channel: self.channel@,
            battery_ok: self.battery_ok,
            temperature_c: self.temperature_c@,
            humidity: self.humidity@,
            mic: self.mic@,
        }
    }
}

impl RecordAcuriteTower {
    /// An exact copy. Written by hand so that the copy is provably equal to
    /// the original: a record is replaced wholesale, never mutated in place.
    pub fn duplicate(&self) -> (r: RecordAcuriteTower)
        ensures
            r == *self,
    {
        RecordAcuriteTower {
            time: self.time.clone(),
            model: self.model.clone(),
            id: self.id,
            channel: self.channel.clone(),
            battery_ok: self.battery_ok,
            temperature_c: self.temperature_c.clone(),
            humidity: self.humidity.clone(),
            mic: self.mic.clone(),
        }
    }
}

} // verus!
