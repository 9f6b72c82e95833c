use soundstorm::settings::PLACEHOLDER_TITLE;
use soundstorm::title::{names_track, status_line, Poller, Probe, PROBE_ATTEMPTS, STATION_HOST};

fn some(title: &str) -> Option<String> {
    Some(title.to_string())
}

#[test]
fn a_plain_title_names_a_track() {
    assert!(names_track("Artist - Song"));
    assert!(names_track(" "));
    assert!(names_track("soundstorm"));
}

#[test]
fn an_empty_title_names_no_track() {
    assert!(!names_track(""));
}

#[test]
fn the_stream_address_names_no_track() {
    assert_eq!(STATION_HOST, "soundstorm-radio.com");
    assert!(!names_track("http://stream.soundstorm-radio.com:8000"));
    assert!(!names_track("soundstorm-radio.com"));
    assert!(!names_track("Live on soundstorm-radio.com now"));
    assert!(names_track("Live on Soundstorm-Radio.com now"));
}

#[test]
fn status_line_shows_the_title() {
    assert_eq!(status_line("Artist - Song"), "Now playing: Artist - Song");
    assert_eq!(status_line(""), "Now playing: ");
    assert_eq!(
        status_line(PLACEHOLDER_TITLE),
        "Now playing: No song info yet"
    );
}

#[test]
fn new_poller_remembers_nothing() {
    assert_eq!(Poller::new().last_title(), "");
}

#[test]
fn poller_makes_a_new_track_known() {
    let mut poller = Poller::new();
    assert_eq!(poller.observe(some("First")), some("First"));
    assert_eq!(poller.last_title(), "First");
    assert_eq!(poller.observe(some("Second")), some("Second"));
    assert_eq!(poller.last_title(), "Second");
}

#[test]
fn poller_is_silent_while_the_track_stays() {
    let mut poller = Poller::new();
    assert_eq!(poller.observe(some("First")), some("First"));
    assert_eq!(poller.observe(some("First")), None);
    assert_eq!(poller.observe(some("First")), None);
    assert_eq!(poller.last_title(), "First");
}

#[test]
fn poller_keeps_the_last_title_without_an_answer() {
    let mut poller = Poller::new();
    assert_eq!(poller.observe(None), None);
    assert_eq!(poller.last_title(), "");
    assert_eq!(poller.observe(some("First")), some("First"));
    assert_eq!(poller.observe(None), None);
    assert_eq!(poller.last_title(), "First");
}

#[test]
fn poller_ignores_answers_that_name_no_track() {
    let mut poller = Poller::new();
    assert_eq!(poller.observe(some("")), None);
    assert_eq!(poller.observe(some("http://stream.soundstorm-radio.com:8000")), None);
    assert_eq!(poller.last_title(), "");
    assert_eq!(poller.observe(some("First")), some("First"));
    assert_eq!(poller.observe(some("")), None);
    assert_eq!(poller.observe(some("stream.soundstorm-radio.com")), None);
    assert_eq!(poller.last_title(), "First");
    assert_eq!(poller.observe(some("First")), None);
}

#[test]
fn poller_makes_a_track_known_again_after_another() {
    let mut poller = Poller::new();
    assert_eq!(poller.observe(some("A")), some("A"));
    assert_eq!(poller.observe(some("B")), some("B"));
    assert_eq!(poller.observe(some("A")), some("A"));
}

#[test]
fn poller_never_repeats_and_never_announces_an_empty_title() {
    let answers = [
        None,
        some(""),
        some("A"),
        some("A"),
        None,
        some("soundstorm-radio.com"),
        some("A"),
        some("B"),
        some(""),
        some("B"),
        some("A"),
    ];
    let mut poller = Poller::new();
    let mut shown: Vec<String> = Vec::new();
    for answer in answers {
        if let Some(title) = poller.observe(answer) {
            assert!(!title.is_empty());
            assert_ne!(shown.last(), Some(&title));
            shown.push(title);
        }
    }
    assert_eq!(shown, vec!["A".to_string(), "B".to_string(), "A".to_string()]);
    assert_eq!(poller.last_title(), "A");
}

#[test]
fn probe_asks_five_times_at_most() {
    assert_eq!(PROBE_ATTEMPTS, 5);
    let mut probe = Probe::new();
    let mut asked = 0;
    while probe.is_open() {
        assert_eq!(probe.on_reply(None), None);
        asked += 1;
    }
    assert_eq!(asked, 5);
}

#[test]
fn probe_ends_with_the_first_track() {
    let mut probe = Probe::new();
    assert!(probe.is_open());
    assert_eq!(probe.on_reply(some("")), None);
    assert!(probe.is_open());
    assert_eq!(probe.on_reply(some("http://stream.soundstorm-radio.com:8000")), None);
    assert!(probe.is_open());
    assert_eq!(probe.on_reply(some("Artist - Song")), some("Artist - Song"));
    assert!(!probe.is_open());
}

#[test]
fn probe_takes_a_track_on_the_last_attempt() {
    let mut probe = Probe::new();
    for _ in 0..4 {
        assert_eq!(probe.on_reply(None), None);
    }
    assert!(probe.is_open());
    assert_eq!(probe.on_reply(some("Late")), some("Late"));
    assert!(!probe.is_open());
}

#[test]
fn probe_that_is_over_ignores_answers() {
    let mut probe = Probe::new();
    for _ in 0..5 {
        assert_eq!(probe.on_reply(some("")), None);
    }
    assert!(!probe.is_open());
    assert_eq!(probe.on_reply(some("Too late")), None);
    assert!(!probe.is_open());
}
