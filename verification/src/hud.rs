use vstd::prelude::*;

use crate::flight::GameStatus;

verus! {

/// Banner shown after a landing.
pub open spec fn landed_banner() -> Seq<char> {
    "LANDED - Press R to retry, N for new terrain"@
}

/// Banner shown after a crash.
pub open spec fn crashed_banner() -> Seq<char> {
    "CRASHED - Press R to retry, N for new terrain"@
}

/// The status banner of a game: none while flying, a landing or crash
/// message with the retry keys once the flight is over.
pub fn status_banner(status: GameStatus) -> (banner: Option<&'static str>)
    ensures
        status == GameStatus::Flying ==> banner.is_none(),
        status == GameStatus::Landed ==> banner.is_some() && banner.unwrap()@ == landed_banner(),
        status == GameStatus::Crashed ==> banner.is_some() && banner.unwrap()@ == crashed_banner(),
{
    match status {
        GameStatus::Flying => None,
        GameStatus::Landed => Some("LANDED - Press R to retry, N for new terrain"),
        GameStatus::Crashed => Some("CRASHED - Press R to retry, N for new terrain"),
    }
}

/// Whether the status panel behind the banner is shown: exactly when the
/// flight is over, which is exactly when there is a banner.
pub fn status_panel_visible(status: GameStatus) -> (visible: bool)
    ensures
        visible == (status != GameStatus::Flying),
        visible == status_banner_shown(status),
{
    status != GameStatus::Flying
}

/// Whether a status has a banner.
pub open spec fn status_banner_shown(status: GameStatus) -> bool {
    status != GameStatus::Flying
}

/// The autopilot field of the HUD, padded to three characters.
pub fn autopilot_label(on: bool) -> (label: &'static str)
    ensures
        on ==> label@ == "ON "@,
        !on ==> label@ == "OFF"@,
{
    if on {
        "ON "
    } else {
        "OFF"
    }
}

} // verus!
