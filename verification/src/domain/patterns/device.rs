use vstd::prelude::*;

verus! {

/// The drum machine or synthesizer a pattern is written for.
#[derive(Debug, Clone, Copy, PartialEq, Eq, Structural)]
pub enum Device {
    TB303,
    TR909,
    TR808,
    TR606,
}

/// The name of a device, as it is displayed and stored.
pub open spec fn device_name(d: Device) -> Seq<char> {
    match d {
        Device::TB303 => "TB303"@,
        Device::TR909 => "TR909"@,
        Device::TR808 => "TR808"@,
        Device::TR606 => "TR606"@,
    }
}

impl Device {
    /// The device's name, the variant's own name (`TB303`, `TR909`, ...).
    pub fn to_string(&self) -> (r: String)
        ensures
            r@ == device_name(*self),
            *self == Device::TB303 ==> r@ == "TB303"@,
            *self == Device::TR909 ==> r@ == "TR909"@,
            *self == Device::TR808 ==> r@ == "TR808"@,
            *self == Device::TR606 ==> r@ == "TR606"@,
    {
        match self {
            Device::TB303 => "TB303".to_owned(),
            Device::TR909 => "TR909".to_owned(),
            Device::TR808 => "TR808".to_owned(),
            Device::TR606 => "TR606".to_owned(),
        }
    }
}

} // verus!
