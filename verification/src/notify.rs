//! The texts of the desktop notification shown when earbuds connect.

use vstd::prelude::*;

use crate::domain::DeviceSnapshot;
use crate::tray::{battery_text, battery_value};

verus! {

/// The notification's summary: `<name> connected`.
pub fn connected_summary(name: &str) -> (summary: String)
    ensures
        summary@ == name@ + " connected"@,
{
    let mut summary = String::from_str(name);
    summary.append(" connected");
    summary
}

/// The notification's body: `L <left> · R <right> · Case <case>`.
pub fn connected_body(snapshot: &DeviceSnapshot) -> (body: String)
    ensures
        body@ == "L "@ + battery_text(snapshot.battery_left) + " · R "@ + battery_text(
            snapshot.battery_right,
        ) + " · Case "@ + battery_text(snapshot.battery_case),
{
    let mut body = String::from_str("L ");
    body.append(battery_value(snapshot.battery_left).as_str());
    body.append(" · R ");
    body.append(battery_value(snapshot.battery_right).as_str());
    body.append(" · Case ");
    body.append(battery_value(snapshot.battery_case).as_str());
    body
}

} // verus!
