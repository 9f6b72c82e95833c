//! Fixed names and intervals of the front-end, and the choice of the stream.

use vstd::prelude::*;

verus! {

/// Stream that is played when the command line names none.
pub const DEFAULT_STREAM_URL: &'static str = "http://stream.soundstorm-radio.com:8000";

/// Path of the player's control socket.
pub const CONTROL_SOCKET: &'static str = "/tmp/mpv-soundstorm.sock";

/// Player property that carries the title of the current track.
pub const TITLE_PROPERTY: &'static str = "media-title";

/// Shown while no track title is known.
pub const PLACEHOLDER_TITLE: &'static str = "No song info yet";

/// Seconds between two polls of the title in the background.
pub const POLL_INTERVAL_SECS: u64 = 2;

/// Seconds to wait after an attempt to read the first title has failed.
pub const PROBE_PAUSE_SECS: u64 = 1;

/// Milliseconds the interface waits for a key before it redraws.
pub const KEY_WAIT_MILLIS: u64 = 200;

/// Picks the stream to play from the program's arguments, `args[0]` being
/// the program's own name: the first argument after it if there is one, the
/// default stream otherwise.
pub fn select_stream_url(args: &Vec<String>) -> (url: String)
    ensures
        url@ == if args@.len() > 1 {
            args@[1]@
        } else {
            DEFAULT_STREAM_URL@
        },
{
    if args.len() > 1 {
        args[1].clone()
    } else {
        DEFAULT_STREAM_URL.to_owned()
    }
}

} // verus!
