//! Named device controls and their values.

use vstd::prelude::*;
use vstd::string::StringExecFns;

verus! {

/// Identifier of a well-known camera control, with an escape hatch for
/// backend-specific controls.
#[derive(Clone, Copy, PartialEq, Eq, Structural, Debug)]
pub enum ControlId {
    Brightness,
    Contrast,
    Hue,
    Saturation,
    Sharpness,
    Gamma,
    WhiteBalance,
    Gain,
    Pan,
    Tilt,
    Zoom,
    Exposure,
    Iris,
    Focus,
    Other(u64),
}

/// Value carried by a control: an integer setting, a switch, or free text.
/// Raw byte payloads are not modeled: a control is compared by value in the
/// contracts, and only these three carry provable value equality.
#[derive(Clone, PartialEq, Eq, Debug)]
pub enum ControlValue {
    Integer(i64),
    Boolean(bool),
    Text(String),
}

/// One control as the device reports it: its identifier, the range the device
/// accepts, the current value and whether the control is active.
#[derive(Clone, PartialEq, Eq, Debug)]
pub struct CameraControl {
    pub id: ControlId,
    pub minimum: i64,
    pub maximum: i64,
    pub step: i64,
    pub value: ControlValue,
    pub default_value: i64,
    pub active: bool,
}

/// The decimal rendering of one digit.
pub open spec fn digit_str(d: nat) -> Seq<char> {
    if d == 0 {
        "0"@
    } else if d == 1 {
        "1"@
    } else if d == 2 {
        "2"@
    } else if d == 3 {
        "3"@
    } else if d == 4 {
        "4"@
    } else if d == 5 {
        "5"@
    } else if d == 6 {
        "6"@
    } else if d == 7 {
        "7"@
    } else if d == 8 {
        "8"@
    } else {
        "9"@
    }
}

/// The decimal rendering of `n`, most significant digit first.
pub open spec fn dec_digits(n: nat) -> Seq<char>
    decreases n,
{
    if n < 10 {
        digit_str(n)
    } else {
        dec_digits(n / 10) + digit_str(n % 10)
    }
}

/// Appends the decimal rendering of `n` to `s`.
fn append_decimal(s: &mut String, n: u64)
    ensures
        final(s)@ == old(s)@ + dec_digits(n as nat),
    decreases n,
{
    if n >= 10 {
        append_decimal(s, n / 10);
    }
    let d = n % 10;
    if d == 0 {
        s.append("0");
    } else if d == 1 {
        s.append("1");
    } else if d == 2 {
        s.append("2");
    } else if d == 3 {
        s.append("3");
    } else if d == 4 {
        s.append("4");
    } else if d == 5 {
        s.append("5");
    } else if d == 6 {
        s.append("6");
    } else if d == 7 {
        s.append("7");
    } else if d == 8 {
        s.append("8");
    } else {
        s.append("9");
    }
    proof {
        assert(s@ =~= old(s)@ + dec_digits(n as nat));
    }
}

/// The display name of a control identifier.
pub open spec fn control_name_spec(id: ControlId) -> Seq<char> {
    match id {
        ControlId::Brightness => "Brightness"@,
        ControlId::Contrast => "Contrast"@,
        ControlId::Hue => "Hue"@,
        ControlId::Saturation => "Saturation"@,
        ControlId::Sharpness => "Sharpness"@,
        ControlId::Gamma => "Gamma"@,
        ControlId::WhiteBalance => "WhiteBalance"@,
        ControlId::Gain => "Gain"@,
        ControlId::Pan => "Pan"@,
        ControlId::Tilt => "Tilt"@,
        ControlId::Zoom => "Zoom"@,
        ControlId::Exposure => "Exposure"@,
        ControlId::Iris => "Iris"@,
        ControlId::Focus => "Focus"@,
        ControlId::Other(n) => "Other("@ + dec_digits(n as nat) + ")"@,
    }
}

impl ControlValue {
    /// Independent copy carrying the same value.
    pub fn duplicate(&self) -> (r: ControlValue)
        ensures
            r == *self,
    {
        match self {
            ControlValue::Integer(n) => ControlValue::Integer(*n),
            ControlValue::Boolean(b) => ControlValue::Boolean(*b),
            ControlValue::Text(s) => ControlValue::Text(s.clone()),
        }
    }
}

impl CameraControl {
    /// Independent copy carrying the same value.
    pub fn duplicate(&self) -> (r: CameraControl)
        ensures
            r == *self,
    {
        CameraControl {
            id: self.id,
            minimum: self.minimum,
            maximum: self.maximum,
            step: self.step,
            value: self.value.duplicate(),
            default_value: self.default_value,
            active: self.active,
        }
    }
}

impl ControlId {
    /// The display name of this control identifier.
    pub fn name(&self) -> (r: String)
        ensures
            r@ == control_name_spec(*self),
    {
        match self {
            ControlId::Brightness => String::from_str("Brightness"),
            ControlId::Contrast => String::from_str("Contrast"),
            ControlId::Hue => String::from_str("Hue"),
            ControlId::Saturation => String::from_str("Saturation"),
            ControlId::Sharpness => String::from_str("Sharpness"),
            ControlId::Gamma => String::from_str("Gamma"),
            ControlId::WhiteBalance => String::from_str("WhiteBalance"),
            ControlId::Gain => String::from_str("Gain"),
            ControlId::Pan => String::from_str("Pan"),
            ControlId::Tilt => String::from_str("Tilt"),
            ControlId::Zoom => String::from_str("Zoom"),
            ControlId::Exposure => String::from_str("Exposure"),
            ControlId::Iris => String::from_str("Iris"),
            ControlId::Focus => String::from_str("Focus"),
            ControlId::Other(n) => {
                let mut s = String::from_str("Other(");
                append_decimal(&mut s, *n);
                s.append(")");
                proof {
                    assert(s@ =~= control_name_spec(*self));
                }
                s
            },
        }
    }
}

} // verus!
