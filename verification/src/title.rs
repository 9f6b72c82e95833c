//! Which of the player's answers is shown as the track that is playing.
//!
//! The player reports a title on request. Until the stream has announced a
//! track, the player answers with the stream's own address, or with nothing
//! at all; such answers are never shown.

use vstd::prelude::*;
use vstd::string::StringExecFns;
use crate::text::{contains_text, occurs_in, text_of_option};

verus! {

/// Host of the station. A title that holds it is the stream's address, not a
/// track.
pub const STATION_HOST: &'static str = "soundstorm-radio.com";

/// How often the first title is asked for after the player has started.
pub const PROBE_ATTEMPTS: u32 = 5;

/// A title names a track if it is not empty and does not hold the station's
/// host.
pub open spec fn is_track_title(title: Seq<char>) -> bool {
    title.len() > 0 && !occurs_in(STATION_HOST@, title)
}

/// Tells whether a title names a track.
pub fn names_track(title: &str) -> (ok: bool)
    ensures
        ok == is_track_title(title@),
{
    !title.is_empty() && !contains_text(title, STATION_HOST)
}

/// The line of the display that shows the title.
pub open spec fn status_text(now_playing: Seq<char>) -> Seq<char> {
    "Now playing: "@ + now_playing
}

/// Builds the line of the display that shows the title.
pub fn status_line(now_playing: &str) -> (line: String)
    ensures
        line@ == status_text(now_playing@),
{
    let mut line = "Now playing: ".to_owned();
    line.append(now_playing);
    line
}

/// What the background poll makes known after an answer: the answer's title
/// if it names a track and differs from the title made known last, nothing
/// otherwise. `reply` is `None` where the player gave no answer.
pub open spec fn announced(last: Seq<char>, reply: Option<Seq<char>>) -> Option<Seq<char>> {
    match reply {
        Some(title) => if is_track_title(title) && title != last {
            Some(title)
        } else {
            None
        },
        None => None,
    }
}

/// The title made known last, after an answer.
pub open spec fn remembered(last: Seq<char>, reply: Option<Seq<char>>) -> Seq<char> {
    match announced(last, reply) {
        Some(title) => title,
        None => last,
    }
}

/// The background poll: it remembers the title it made known last, so that
/// the display is written only when the track changes.
pub struct Poller {
    last_title: String,
}

impl View for Poller {
    type V = Seq<char>;

    /// The title made known last; empty before the first.
    closed spec fn view(&self) -> Seq<char> {
        self.last_title@
    }
}

impl Poller {
    /// A poll that has made nothing known yet.
    pub fn new() -> (poller: Poller)
        ensures
            poller@ == Seq::<char>::empty(),
    {
        Poller { last_title: String::new() }
    }

    /// The title made known last; empty before the first.
    pub fn last_title(&self) -> (title: &str)
        ensures
            title@ == self@,
    {
        self.last_title.as_str()
    }

    /// Takes the player's answer to one poll, `None` where there was none,
    /// and returns the title to show from now on, if the answer brings one.
    pub fn observe(&mut self, reply: Option<String>) -> (news: Option<String>)
        ensures
            text_of_option(news) == announced(old(self)@, text_of_option(reply)),
            final(self)@ == remembered(old(self)@, text_of_option(reply)),
    {
        match reply {
            Some(title) => {
                if names_track(title.as_str()) && title != self.last_title {
                    self.last_title = title.clone();
                    Some(title)
                } else {
                    None
                }
            },
            None => None,
        }
    }
}

/// The title a new poll remembers after a run of answers.
pub open spec fn settled(replies: Seq<Option<Seq<char>>>) -> Seq<char>
    decreases replies.len(),
{
    if replies.len() == 0 {
        Seq::empty()
    } else {
        remembered(settled(replies.drop_last()), replies.last())
    }
}

/// The titles a new poll makes known over a run of answers, in order.
pub open spec fn announcements(replies: Seq<Option<Seq<char>>>) -> Seq<Seq<char>>
    decreases replies.len(),
{
    if replies.len() == 0 {
        Seq::empty()
    } else {
        let earlier = announcements(replies.drop_last());
        match announced(settled(replies.drop_last()), replies.last()) {
            Some(title) => earlier.push(title),
            None => earlier,
        }
    }
}

/// Whatever the player answers, the poll makes known only titles that name a
/// track, so never an empty one, and never the same title twice in a row.
/// What it remembers is the title it made known last.
pub proof fn announcements_are_news(replies: Seq<Option<Seq<char>>>)
    ensures
        forall|i: int|
            0 <= i < announcements(replies).len() ==> is_track_title(
                #[trigger] announcements(replies)[i],
            ),
        forall|i: int|
            0 < i < announcements(replies).len() ==> #[trigger] announcements(replies)[i]
                != announcements(replies)[i - 1],
        settled(replies) == if announcements(replies).len() > 0 {
            announcements(replies).last()
        } else {
            Seq::empty()
        },
    decreases replies.len(),
{
    if replies.len() > 0 {
        announcements_are_news(replies.drop_last());
    }
}

/// The search for the first title after the player has started: the title is
/// asked for until an answer names a track, a fixed number of times at most.
pub struct Probe {
    attempts_left: u32,
}

impl View for Probe {
    type V = nat;

    /// The number of answers the search still takes.
    closed spec fn view(&self) -> nat {
        self.attempts_left as nat
    }
}

/// The title that ends a search with `left` attempts to go: the answer's, if
/// the search is still on and the answer names a track.
pub open spec fn found(left: nat, reply: Option<Seq<char>>) -> Option<Seq<char>> {
    match reply {
        Some(title) => if left > 0 && is_track_title(title) {
            Some(title)
        } else {
            None
        },
        None => None,
    }
}

/// The attempts to go after an answer: none once a title is found, one fewer
/// otherwise.
pub open spec fn attempts_after(left: nat, reply: Option<Seq<char>>) -> nat {
    if left == 0 || found(left, reply) is Some {
        0
    } else {
        (left - 1) as nat
    }
}

impl Probe {
    /// A search that has not asked yet.
    pub fn new() -> (probe: Probe)
        ensures
            probe@ == PROBE_ATTEMPTS,
    {
        Probe { attempts_left: PROBE_ATTEMPTS }
    }

    /// Tells whether the title is to be asked for once more.
    pub fn is_open(&self) -> (open: bool)
        ensures
            open == (self@ > 0),
    {
        self.attempts_left > 0
    }

    /// Takes the player's answer to one attempt, `None` where there was
    /// none. Returns the title to show if the answer names a track, which
    /// ends the search. Otherwise the attempt is used up, and the caller
    /// pauses before it looks at `is_open` again. A search that is over
    /// ignores the answer.
    pub fn on_reply(&mut self, reply: Option<String>) -> (title: Option<String>)
        ensures
            text_of_option(title) == found(old(self)@, text_of_option(reply)),
            final(self)@ == attempts_after(old(self)@, text_of_option(reply)),
    {
        if self.attempts_left == 0 {
            return None;
        }
        match reply {
            Some(title) => {
                if names_track(title.as_str()) {
                    self.attempts_left = 0;
                    Some(title)
                } else {
                    self.attempts_left = self.attempts_left - 1;
                    None
                }
            },
            None => {
                self.attempts_left = self.attempts_left - 1;
                None
            },
        }
    }
}

} // verus!
