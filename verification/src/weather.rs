//! How the readings of a weather sensor are worded.

use crate::text::{same_text, str_opt};
use vstd::prelude::*;

verus! {

/// The wording of a visibility situation (from NTCIP 1204).
pub open spec fn vis_situation_text(situation: Seq<char>) -> Seq<char> {
    if situation == "other"@ {
        "⛆ other visibility anomaly"@
    } else if situation == "clear"@ {
        "🔭 clear"@
    } else if situation == "fogNotPatchy"@ {
        "🌫️ fog"@
    } else if situation == "patchyFog"@ {
        "🌁 patchy fog"@
    } else if situation == "blowingSnow"@ {
        "❄️ snow"@
    } else if situation == "smoke"@ {
        "🚬 smoke"@
    } else if situation == "seaSpray"@ {
        "💦 sea spray"@
    } else if situation == "vehicleSpray"@ {
        "💦 spray"@
    } else if situation == "blowingDustOrSand"@ {
        "💨 dust"@
    } else if situation == "sunGlare"@ {
        "🕶️ sun glare"@
    } else if situation == "swarmOfInsects"@ {
        "🦗 swarm"@
    } else {
        "Atmosphere"@
    }
}

/// Get visibility situation string (from NTCIP 1204)
pub fn vis_situation(situation: &str) -> (r: &'static str)
    ensures
        r@ == vis_situation_text(situation@),
{
    if same_text(situation, "other") {
        "⛆ other visibility anomaly"
    } else if same_text(situation, "clear") {
        "🔭 clear"
    } else if same_text(situation, "fogNotPatchy") {
        "🌫️ fog"
    } else if same_text(situation, "patchyFog") {
        "🌁 patchy fog"
    } else if same_text(situation, "blowingSnow") {
        "❄️ snow"
    } else if same_text(situation, "smoke") {
        "🚬 smoke"
    } else if same_text(situation, "seaSpray") {
        "💦 sea spray"
    } else if same_text(situation, "vehicleSpray") {
        "💦 spray"
    } else if same_text(situation, "blowingDustOrSand") {
        "💨 dust"
    } else if same_text(situation, "sunGlare") {
        "🕶️ sun glare"
    } else if same_text(situation, "swarmOfInsects") {
        "🦗 swarm"  // seriously?!?
    } else {
        "Atmosphere"
    }
}

/// The compass point from which a wind of a direction in degrees blows,
/// and the arrow along which it blows: each of the eight points covers
/// 45 degrees, north those around 0 and up to 360.
pub open spec fn dir_arrow_text(deg: u32) -> Option<Seq<char>> {
    if deg <= 22 || 338 <= deg <= 360 {
        Some("N ↓"@)
    } else if deg <= 67 {
        Some("NE ↙"@)
    } else if deg <= 112 {
        Some("E ←"@)
    } else if deg <= 157 {
        Some("SE ↖"@)
    } else if deg <= 202 {
        Some("S ↑"@)
    } else if deg <= 247 {
        Some("SW ↗"@)
    } else if deg <= 292 {
        Some("W →"@)
    } else if deg <= 337 {
        Some("NW ↘"@)
    } else {
        None
    }
}

/// Get direction and arrow from degrees
pub fn dir_arrow(deg: u32) -> (r: Option<&'static str>)
    ensures
        str_opt(r) == dir_arrow_text(deg),
{
    if deg <= 22 || (338 <= deg && deg <= 360) {
        // 0° ± 22.5
        Some("N ↓")
    } else if deg <= 67 {
        // 45° ±22.5
        Some("NE ↙")
    } else if deg <= 112 {
        // 90° ±22.5
        Some("E ←")
    } else if deg <= 157 {
        // 135° ±22.5
        Some("SE ↖")
    } else if deg <= 202 {
        // 180° ±22.5
        Some("S ↑")
    } else if deg <= 247 {
        // 225° ±22.5
        Some("SW ↗")
    } else if deg <= 292 {
        // 270° ±22.5
        Some("W →")
    } else if deg <= 337 {
        // 315° ±22.5
        Some("NW ↘")
    } else {
        None
    }
}

/// The wording of a precipitation situation (from NTCIP 1204).
pub open spec fn precip_situation_text(situation: Seq<char>) -> Seq<char> {
    if situation == "noPrecipitation"@ {
        "🌂 No Precipitation"@
    } else if situation == "unidentifiedSlight"@ {
        "🌧️ Slight precipitation"@
    } else if situation == "unidentifiedModerate"@ {
        "🌧️ Moderate precipitation"@
    } else if situation == "unidentifiedHeavy"@ {
        "🌧️ Heavy precipitation"@
    } else if situation == "snowSlight"@ {
        "🌨️ Slight snow"@
    } else if situation == "snowModerate"@ {
        "🌨️ Moderate snow"@
    } else if situation == "snowHeavy"@ {
        "🌨️ Heavy snow"@
    } else if situation == "rainSlight"@ {
        "🌧️ Slight rain"@
    } else if situation == "rainModerate"@ {
        "🌧️ Moderate rain"@
    } else if situation == "rainHeavy"@ {
        "🌧️ Heavy rain"@
    } else if situation == "frozenPrecipitationSlight"@ {
        "🧊 Slight sleet"@
    } else if situation == "frozenPrecipitationModerate"@ {
        "🧊 Moderate sleet"@
    } else if situation == "frozenPrecipitationHeavy"@ {
        "🧊 Heavy sleet"@
    } else {
        "🌧️ Precipitation"@
    }
}

/// Get precipitation situation string (from NTCIP 1204)
pub fn precip_situation(situation: &str) -> (r: &'static str)
    ensures
        r@ == precip_situation_text(situation@),
{
    if same_text(situation, "noPrecipitation") {
        "🌂 No Precipitation"
    } else if same_text(situation, "unidentifiedSlight") {
        "🌧️ Slight precipitation"
    } else if same_text(situation, "unidentifiedModerate") {
        "🌧️ Moderate precipitation"
    } else if same_text(situation, "unidentifiedHeavy") {
        "🌧️ Heavy precipitation"
    } else if same_text(situation, "snowSlight") {
        "🌨️ Slight snow"
    } else if same_text(situation, "snowModerate") {
        "🌨️ Moderate snow"
    } else if same_text(situation, "snowHeavy") {
        "🌨️ Heavy snow"
    } else if same_text(situation, "rainSlight") {
        "🌧️ Slight rain"
    } else if same_text(situation, "rainModerate") {
        "🌧️ Moderate rain"
    } else if same_text(situation, "rainHeavy") {
        "🌧️ Heavy rain"
    } else if same_text(situation, "frozenPrecipitationSlight") {
        "🧊 Slight sleet"
    } else if same_text(situation, "frozenPrecipitationModerate") {
        "🧊 Moderate sleet"
    } else if same_text(situation, "frozenPrecipitationHeavy") {
        "🧊 Heavy sleet"
    } else {
        "🌧️ Precipitation"
    }
}

/// The wording of a cloud situation (from NTCIP 1204).
pub open spec fn cloud_situation_text(situation: Seq<char>) -> Seq<char> {
    if situation == "overcast"@ {
        "☁️ Overcast"@
    } else if situation == "cloudy"@ {
        "🌥️ Mostly cloudy"@
    } else if situation == "partlyCloudy"@ {
        "⛅ Partly cloudy"@
    } else if situation == "mostlyClear"@ {
        "🌤️ Mostly clear"@
    } else if situation == "clear"@ {
        "☀️ Clear"@
    } else {
        "☁️ Unknown"@
    }
}

/// Get cloud situation string (from NTCIP 1204)
pub fn cloud_situation(situation: &str) -> (r: &'static str)
    ensures
        r@ == cloud_situation_text(situation@),
{
    if same_text(situation, "overcast") {
        "☁️ Overcast"
    } else if same_text(situation, "cloudy") {
        "🌥️ Mostly cloudy"
    } else if same_text(situation, "partlyCloudy") {
        "⛅ Partly cloudy"
    } else if same_text(situation, "mostlyClear") {
        "🌤️ Mostly clear"
    } else if same_text(situation, "clear") {
        "☀️ Clear"
    } else {
        "☁️ Unknown"
    }
}

} // verus!
