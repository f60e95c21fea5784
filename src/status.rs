use vstd::prelude::*;

use crate::music::{AMusicSongInfo, AMusicState, AMusicTimeInfo};
use crate::text::same_text;

verus! {

/// The name the play/pause control shows while audio plays (the action it would take).
pub open spec fn pause_label() -> Seq<char> {
    seq!['P', 'a', 'u', 's', 'e']
}

/// The playback state from the play/pause control's name and whether a `LIVE` badge is shown.
/// `None` where the control is absent.
pub fn status_from_readings(play_pause_name: Option<&str>, live: bool) -> (r: Option<AMusicState>)
    ensures
        r is None <==> play_pause_name is None,
        play_pause_name matches Some(name) ==> r->0.playing == (name@ == pause_label())
            && r->0.live == live,
{
    match play_pause_name {
        None => None,
        Some(name) => {
            proof {
                reveal_strlit("Pause");
                assert("Pause"@ =~= pause_label());
            }
            Some(AMusicState { playing: same_text(name, "Pause"), live })
        },
    }
}

/// A full snapshot: song, state and times, only where all three were read in one poll,
/// whether or not audio is playing.
pub fn playing(data: (Option<AMusicState>, Option<AMusicSongInfo>, Option<AMusicTimeInfo>)) -> (r:
    Option<(AMusicSongInfo, AMusicState, AMusicTimeInfo)>)
    ensures
        r is Some <==> data.0 is Some && data.1 is Some && data.2 is Some,
        r matches Some(t) ==> t.0 == data.1->0 && t.1 == data.0->0 && t.2 == data.2->0,
{
    match data {
        (Some(state), Some(song), Some(time)) => Some((song, state, time)),
        _ => None,
    }
}

} // verus!
