//! What is printed of devices.
use crate::text::texts;
use vstd::prelude::*;
use vstd::string::{StrSliceExecFns, StringExecFns};

verus! {

/// A device of a user.
#[derive(Debug)]
pub struct DeviceInfo {
    pub device_id: String,
    /// The name that the user gave to it, if any.
    pub display_name: Option<String>,
    /// Whether it is verified.
    pub verified: bool,
}

/// How far a device is trusted here.
#[derive(Debug, Clone, Copy, PartialEq, Eq, Structural)]
pub enum LocalTrust {
    Verified,
    BlackListed,
    Ignored,
    Unset,
}

/// The width of the column for the display name.
pub const NAME_WIDTH: usize = 30;

/// A text with blanks behind it up to a width.
pub open spec fn padded(text: Seq<char>, width: nat) -> Seq<char> {
    if text.len() < width {
        text + Seq::new((width - text.len()) as nat, |i: int| ' ')
    } else {
        text
    }
}

/// A text with blanks behind it up to a width.
pub fn pad_right(text: &str, width: usize) -> (padded_text: String)
    ensures
        padded_text@ == padded(text@, width as nat),
{
    let length: usize = text.unicode_len();
    let mut out = text.to_owned();
    if length < width {
        let missing: usize = width - length;
        proof {
            reveal_strlit(" ");
        }
        assert(out@ =~= text@ + Seq::new(0, |i: int| ' '));
        for i in 0..missing
            invariant
                " "@ =~= seq![' '],
                out@ == text@ + Seq::new(i as nat, |i: int| ' '),
        {
            out.append(" ");
            assert(out@ =~= text@ + Seq::new((i + 1) as nat, |i: int| ' '));
        }
    }
    out
}

/// The heading above the devices of a user.
pub open spec fn heading_spec(user_id: Seq<char>) -> Seq<char> {
    "Devices of user "@ + user_id
}

/// The line for a device: its identifier, the display name in a column of its own, and
/// whether it is verified.
pub open spec fn device_line_spec(device: DeviceInfo) -> Seq<char> {
    let name = match device.display_name {
        Some(name) => name@,
        None => "-"@,
    };
    let verified = if device.verified {
        "true"@
    } else {
        "false"@
    };
    "   "@ + device.device_id@ + " "@ + padded(name, NAME_WIDTH as nat) + " "@ + verified
}

/// The line for a device: its identifier, the display name in a column of its own, and
/// whether it is verified.
pub fn device_line(device: &DeviceInfo) -> (line: String)
    ensures
        line@ == device_line_spec(*device),
{
    let name = match &device.display_name {
        Some(name) => name.as_str(),
        None => "-",
    };
    let mut line = "   ".to_owned();
    line.append(device.device_id.as_str());
    line.append(" ");
    line.append(pad_right(name, NAME_WIDTH).as_str());
    line.append(" ");
    line.append(
        if device.verified {
            "true"
        } else {
            "false"
        },
    );
    line
}

/// The lines that tell of the devices of a user.
pub fn device_lines(user_id: &str, devices: &Vec<DeviceInfo>) -> (lines: Vec<String>)
    ensures
        texts(lines@) == seq![heading_spec(user_id@)] + devices@.map_values(
            |device: DeviceInfo| device_line_spec(device),
        ),
{
    let mut lines: Vec<String> = Vec::new();
    let ghost expected = seq![heading_spec(user_id@)] + devices@.map_values(
        |device: DeviceInfo| device_line_spec(device),
    );
    let mut heading = "Devices of user ".to_owned();
    heading.append(user_id);
    lines.push(heading);
    assert(texts(lines@) =~= expected.take(1));
    for i in 0..devices.len()
        invariant
            expected == seq![heading_spec(user_id@)] + devices@.map_values(
                |device: DeviceInfo| device_line_spec(device),
            ),
            texts(lines@) == expected.take(i + 1),
    {
        let line = device_line(&devices[i]);
        assert(texts(lines@.push(line)) =~= texts(lines@).push(line@));
        assert(expected.take(i + 2) =~= expected.take(i + 1).push(line@));
        lines.push(line);
    }
    assert(expected.take(devices.len() + 1) =~= expected);
    lines
}

/// How a trust state is printed.
pub open spec fn trust_name(trust: LocalTrust) -> Seq<char> {
    match trust {
        LocalTrust::Verified => "Verified"@,
        LocalTrust::BlackListed => "BlackListed"@,
        LocalTrust::Ignored => "Ignored"@,
        LocalTrust::Unset => "Unset"@,
    }
}

/// The line that tells that a device was verified.
pub fn result_line(user_id: &str, device_id: &str, trust: LocalTrust) -> (line: String)
    ensures
        line@ == "Successfully verified device "@ + user_id@ + " "@ + device_id@ + " "@
            + trust_name(trust),
{
    let mut line = "Successfully verified device ".to_owned();
    line.append(user_id);
    line.append(" ");
    line.append(device_id);
    line.append(" ");
    line.append(
        match trust {
            LocalTrust::Verified => "Verified",
            LocalTrust::BlackListed => "BlackListed",
            LocalTrust::Ignored => "Ignored",
            LocalTrust::Unset => "Unset",
        },
    );
    line
}

} // verus!
