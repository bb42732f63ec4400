//! Device status: the code that the inverter reports and the text it stands for.

use vstd::prelude::*;
use vstd::string::StringExecFns;
use crate::decode::{Value, Variant};

verus! {

/// The status table: the description of each code that the inverter is known
/// to report. A code outside the table has the empty description.
pub open spec fn status_description(code: int) -> Seq<char> {
    if code == 0x0000 {
        "Standby, initializing"@
    } else if code == 0x0001 {
        "Standby, detecting insulation resistance"@
    } else if code == 0x0002 {
        "Standby, detecting irradiation"@
    } else if code == 0x0003 {
        "Standby, grid detecting"@
    } else if code == 0x0100 {
        "Starting"@
    } else if code == 0x0200 {
        "On-grid"@
    } else if code == 0x0201 {
        "Grid Connection, power limited"@
    } else if code == 0x0202 {
        "Grid Connection, self-derating"@
    } else if code == 0x0300 {
        "Shutdown, fault"@
    } else if code == 0x0301 {
        "Shutdown, command"@
    } else if code == 0x0302 {
        "Shutdown, OVGR"@
    } else if code == 0x0303 {
        "Shutdown, communication disconnected"@
    } else if code == 0x0304 {
        "Shutdown, power limited"@
    } else if code == 0x0305 {
        "Shutdown, manual startup required"@
    } else if code == 0x0306 {
        "Shutdown, DC switches disconnected"@
    } else if code == 0x0307 {
        "Shutdown, rapid cutoff"@
    } else if code == 0x0308 {
        "Shutdown, input underpowered"@
    } else if code == 0x0401 {
        "Grid scheduling, cosphi-P curve"@
    } else if code == 0x0402 {
        "Grid scheduling, Q-U curve"@
    } else if code == 0x0403 {
        "Grid scheduling, PF-U curve"@
    } else if code == 0x0404 {
        "Grid scheduling, dry contact"@
    } else if code == 0x0405 {
        "Grid scheduling, Q-P curve"@
    } else if code == 0x0500 {
        "Spot-check ready"@
    } else if code == 0x0501 {
        "Spot-checking"@
    } else if code == 0x0600 {
        "Inspecting"@
    } else if code == 0x0700 {
        "AFCI self check"@
    } else if code == 0x0800 {
        "I-V scanning"@
    } else if code == 0x0900 {
        "DC input detection"@
    } else if code == 0x0A00 {
        "Running, off-grid charging"@
    } else if code == 0xA000 {
        "Standby, no irradiation"@
    } else {
        ""@
    }
}

/// The status code that a decoded value carries: the whole part of its
/// quotient, held to the range of a 16-bit code. Text carries code zero.
pub open spec fn status_code(value: Value) -> int {
    match value {
        Value::Text(_) => 0,
        Value::Number { raw, gain } => {
            if raw <= 0 {
                0
            } else if gain <= 0 || raw / gain > 0xFFFF {
                0xFFFF
            } else {
                raw / gain
            }
        },
    }
}

/// Looks a status code up in the table.
pub fn status_text(code: u16) -> (text: &'static str)
    ensures
        text@ == status_description(code as int),
{
    match code {
        0x0000 => "Standby, initializing",
        0x0001 => "Standby, detecting insulation resistance",
        0x0002 => "Standby, detecting irradiation",
        0x0003 => "Standby, grid detecting",
        0x0100 => "Starting",
        0x0200 => "On-grid",
        0x0201 => "Grid Connection, power limited",
        0x0202 => "Grid Connection, self-derating",
        0x0300 => "Shutdown, fault",
        0x0301 => "Shutdown, command",
        0x0302 => "Shutdown, OVGR",
        0x0303 => "Shutdown, communication disconnected",
        0x0304 => "Shutdown, power limited",
        0x0305 => "Shutdown, manual startup required",
        0x0306 => "Shutdown, DC switches disconnected",
        0x0307 => "Shutdown, rapid cutoff",
        0x0308 => "Shutdown, input underpowered",
        0x0401 => "Grid scheduling, cosphi-P curve",
        0x0402 => "Grid scheduling, Q-U curve",
        0x0403 => "Grid scheduling, PF-U curve",
        0x0404 => "Grid scheduling, dry contact",
        0x0405 => "Grid scheduling, Q-P curve",
        0x0500 => "Spot-check ready",
        0x0501 => "Spot-checking",
        0x0600 => "Inspecting",
        0x0700 => "AFCI self check",
        0x0800 => "I-V scanning",
        0x0900 => "DC input detection",
        0x0A00 => "Running, off-grid charging",
        0xA000 => "Standby, no irradiation",
        _ => "",
    }
}

/// The status code of a decoded value.
pub fn code_of(value: &Variant) -> (code: u16)
    ensures
        code == status_code(value@),
{
    match value {
        Variant::Text(_) => 0,
        Variant::Number { raw, gain } => {
            if *raw <= 0 {
                0
            } else if *gain == 0 {
                0xFFFF
            } else {
                let whole: u64 = (*raw as u64) / (*gain as u64);
                if whole > 0xFFFF {
                    0xFFFF
                } else {
                    whole as u16
                }
            }
        },
    }
}

/// Replaces the number read from the status register by its description.
pub fn describe_status(value: &Variant) -> (described: Variant)
    ensures
        described@ == Value::Text(status_description(status_code(value@))),
{
    Variant::Text(String::from_str(status_text(code_of(value))))
}

} // verus!
