use crate::domain::patterns::device::Device;
use crate::domain::patterns::pattern_request::PatternRequestData;
use vstd::prelude::*;

verus! {

/// Whether `data`, written as JSON, reads back as TB-303 sequencer data. The
/// steps of the two devices share no shape, so TR-909 data reads as TB-303
/// data only when it has no step (its length and empty step list suffice).
pub open spec fn reads_as_tb303(data: PatternRequestData) -> bool {
    data is JsonTB303 || data.step_count() == 0
}

/// Whether `data`, written as JSON, reads back as TR-909 sequencer data.
pub open spec fn reads_as_tr909(data: PatternRequestData) -> bool {
    data is JsonTR909 || data.step_count() == 0
}

/// What `PatternData::parse` answers for `data` submitted for `device`:
/// `Ok` when the data fits the device, or the error message.
pub open spec fn pattern_data_check(data: PatternRequestData, device: Device) -> Result<
    (),
    Seq<char>,
> {
    match device {
        Device::TB303 => if reads_as_tb303(data) {
            Ok(())
        } else {
            Err("Not able to parse 303 pattern data."@)
        },
        Device::TR909 => if reads_as_tr909(data) {
            Ok(())
        } else {
            Err("Not able to parse 909 pattern data."@)
        },
        _ => Err("Device is not recognized"@),
    }
}

/// The check of sequencer data, stated field by field: TB-303 data is
/// accepted for a TB303, TR-909 data for a TR909, data without steps for
/// either, and nothing for any other device.
pub proof fn pattern_data_check_law(data: PatternRequestData, device: Device)
    ensures
        device == Device::TB303 ==> (pattern_data_check(data, device) is Ok <==> (
        data is JsonTB303 || (data matches PatternRequestData::JsonTR909(d) && d.steps@.len()
            == 0))),
        device == Device::TR909 ==> (pattern_data_check(data, device) is Ok <==> (
        data is JsonTR909 || (data matches PatternRequestData::JsonTB303(d) && d.steps@.len()
            == 0))),
        device != Device::TB303 && device != Device::TR909 ==> pattern_data_check(data, device)
            == Err::<(), Seq<char>>("Device is not recognized"@),
        device == Device::TB303 && pattern_data_check(data, device) is Err
            ==> pattern_data_check(data, device) == Err::<(), Seq<char>>(
            "Not able to parse 303 pattern data."@,
        ),
        device == Device::TR909 && pattern_data_check(data, device) is Err
            ==> pattern_data_check(data, device) == Err::<(), Seq<char>>(
            "Not able to parse 909 pattern data."@,
        ),
{
}

/// Sequencer data that fits the device it was submitted for.
#[derive(Debug)]
pub struct PatternData(PatternRequestData);

impl PatternData {
    /// The data held.
    pub closed spec fn spec_data(self) -> PatternRequestData {
        self.0
    }

    /// Accepts `s` when it reads as data of `device`: TB-303 and TR-909 data
    /// are accepted for their own device, or for the other one when they hold
    /// no step; no data is accepted for a TR-808 or a TR-606.
    pub fn parse(s: PatternRequestData, device: &Device) -> (r: Result<PatternData, String>)
        ensures
            r is Ok <==> pattern_data_check(s, *device) is Ok,
            r matches Ok(p) ==> p.spec_data() == s,
            r matches Err(m) ==> pattern_data_check(s, *device) == Err::<(), Seq<char>>(m@),
            *device == Device::TB303 ==> (r is Ok <==> (s is JsonTB303 || (s matches PatternRequestData::JsonTR909(d) && d.steps@.len() == 0))),
            *device == Device::TR909 ==> (r is Ok <==> (s is JsonTR909 || (s matches PatternRequestData::JsonTB303(d) && d.steps@.len() == 0))),
            *device == Device::TB303 && r is Err ==> (r matches Err(m) && m@ == "Not able to parse 303 pattern data."@),
            *device == Device::TR909 && r is Err ==> (r matches Err(m) && m@ == "Not able to parse 909 pattern data."@),
            *device != Device::TB303 && *device != Device::TR909 ==> (r matches Err(m) && m@ == "Device is not recognized"@),
    {
        let no_steps = s.has_no_steps();
        match device {
            Device::TB303 => {
                let is_tb303 = match &s {
                    PatternRequestData::JsonTB303(_) => true,
                    PatternRequestData::JsonTR909(_) => false,
                };
                if !(is_tb303 || no_steps) {
                    return Err("Not able to parse 303 pattern data.".to_owned());
                }
                Ok(PatternData(s))
            },
            Device::TR909 => {
                let is_tr909 = match &s {
                    PatternRequestData::JsonTB303(_) => false,
                    PatternRequestData::JsonTR909(_) => true,
                };
                if !(is_tr909 || no_steps) {
                    return Err("Not able to parse 909 pattern data.".to_owned());
                }
                Ok(PatternData(s))
            },
            _ => Err("Device is not recognized".to_owned()),
        }
    }

    /// The data held, to be stored as JSON.
    pub fn data(&self) -> (r: &PatternRequestData)
        ensures
            *r == self.spec_data(),
    {
        &self.0
    }
}

} // verus!
