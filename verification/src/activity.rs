//! The activity shown by the desktop client while a station plays.
//!
//! An [`ActivityPayload`] is built anew for every update from the station's
//! name, its tags and two clock readings. Everything else in it is fixed.

use vstd::prelude::*;
use vstd::string::StringExecFns;

verus! {

/// Asset key of the large image.
pub const LARGE_IMAGE: &'static str = "radio_icon";

/// Tooltip of the large image.
pub const LARGE_TEXT: &'static str = "Radioss - Internet Radio Player";

/// Label of the call-to-action button.
pub const BUTTON_LABEL: &'static str = "🔗 Get Radioss";

/// Target of the call-to-action button.
pub const BUTTON_URL: &'static str = "https://github.com/DasCanard/radioss/releases";

/// What precedes the station's name in the details line.
pub const DETAILS_PREFIX: &'static str = "📻 ";

/// What precedes the tags in the state line.
pub const STATE_PREFIX: &'static str = "🎵 ";

/// Two to the power of 64: the number of values of a `u64`.
pub open spec fn word_range() -> int {
    0x1_0000_0000_0000_0000
}

/// How the desktop client labels an activity.
#[derive(Clone, Copy, Debug, PartialEq, Eq)]
pub enum ActivityKind {
    Playing,
    Listening,
    Watching,
    Competing,
}

/// A labelled link shown below the activity.
#[derive(Debug, PartialEq, Eq)]
pub struct Button {
    pub label: String,
    pub url: String,
}

/// A [`Button`] as plain text.
pub struct ButtonView {
    pub label: Seq<char>,
    pub url: Seq<char>,
}

impl View for Button {
    type V = ButtonView;

    open spec fn view(&self) -> ButtonView {
        ButtonView { label: self.label@, url: self.url@ }
    }
}

/// What is published to the desktop client.
#[derive(Debug, PartialEq, Eq)]
pub struct ActivityPayload {
    /// First line: the station.
    pub details: String,
    /// Second line: the tags. Absent, not empty, where the station has none.
    pub state: Option<String>,
    pub activity_kind: ActivityKind,
    /// Start of the listening session, in seconds since the Unix epoch.
    pub start_timestamp: i64,
    pub large_image: String,
    pub large_text: String,
    pub buttons: Vec<Button>,
}

/// An [`ActivityPayload`] as plain values.
pub struct ActivityPayloadView {
    pub details: Seq<char>,
    pub state: Option<Seq<char>>,
    pub activity_kind: ActivityKind,
    pub start_timestamp: int,
    pub large_image: Seq<char>,
    pub large_text: Seq<char>,
    pub buttons: Seq<ButtonView>,
}

impl View for ActivityPayload {
    type V = ActivityPayloadView;

    open spec fn view(&self) -> ActivityPayloadView {
        ActivityPayloadView {
            details: self.details@,
            state: match self.state {
                Some(line) => Some(line@),
                None => None,
            },
            activity_kind: self.activity_kind,
            start_timestamp: self.start_timestamp as int,
            large_image: self.large_image@,
            large_text: self.large_text@,
            buttons: self.buttons@.map_values(|button: Button| button@),
        }
    }
}

/// The text of optional tags.
pub open spec fn tags_text(tags: Option<&str>) -> Option<Seq<char>> {
    match tags {
        Some(text) => Some(text@),
        None => None,
    }
}

/// The details line for a station.
pub open spec fn details_line(station_name: Seq<char>) -> Seq<char> {
    DETAILS_PREFIX@ + station_name
}

/// The state line for a station's tags.
pub open spec fn state_line(tags: Seq<char>) -> Seq<char> {
    STATE_PREFIX@ + tags
}

/// The one button that every activity carries.
pub open spec fn release_button() -> ButtonView {
    ButtonView { label: BUTTON_LABEL@, url: BUTTON_URL@ }
}

/// The activity for a station with the given tags, in a listening session
/// that began at `start_timestamp`.
pub open spec fn listening_activity(
    station_name: Seq<char>,
    tags: Option<Seq<char>>,
    start_timestamp: int,
) -> ActivityPayloadView {
    ActivityPayloadView {
        details: details_line(station_name),
        state: match tags {
            Some(text) => Some(state_line(text)),
            None => None,
        },
        activity_kind: ActivityKind::Listening,
        start_timestamp,
        large_image: LARGE_IMAGE@,
        large_text: LARGE_TEXT@,
        buttons: seq![release_button()],
    }
}

/// When a session began, in seconds since the Unix epoch, for a wall clock
/// that reads `now_secs` while the session has lasted `elapsed_secs`.
///
/// This is `now_secs - elapsed_secs` wherever that is a valid `i64`, which it
/// is for every wall clock that is not set before the epoch. Outside that
/// range it is the `i64` that differs from it by two to the power of 64.
pub open spec fn session_start_timestamp(now_secs: u64, elapsed_secs: u64) -> int {
    let since = now_secs - elapsed_secs;
    if since > i64::MAX {
        since - word_range()
    } else if since < i64::MIN {
        since + word_range()
    } else {
        since
    }
}

/// Computes [`session_start_timestamp`].
pub fn start_timestamp(now_secs: u64, elapsed_secs: u64) -> (start: i64)
    ensures
        start == session_start_timestamp(now_secs, elapsed_secs),
        elapsed_secs <= now_secs <= i64::MAX ==> start == now_secs - elapsed_secs,
{
    let low: u64 = now_secs.wrapping_sub(elapsed_secs);
    if low <= 0x7fff_ffff_ffff_ffff {
        low as i64
    } else {
        let above: u64 = low - 0x8000_0000_0000_0000;
        i64::MIN + (above as i64)
    }
}

/// Two updates of one session carry the same start timestamp: where the wall
/// clock and the session clock have advanced by the same number of seconds
/// between them, the timestamp computed from the later pair of readings is
/// the one computed from the earlier pair.
pub proof fn lemma_start_timestamp_is_stable(
    now_secs: u64,
    elapsed_secs: u64,
    later_now_secs: u64,
    later_elapsed_secs: u64,
)
    requires
        later_now_secs - now_secs == later_elapsed_secs - elapsed_secs,
    ensures
        session_start_timestamp(later_now_secs, later_elapsed_secs) == session_start_timestamp(
            now_secs,
            elapsed_secs,
        ),
{
}

impl Button {
    /// The call-to-action button.
    pub fn release() -> (button: Button)
        ensures
            button@ == release_button(),
    {
        Button { label: String::from_str(BUTTON_LABEL), url: String::from_str(BUTTON_URL) }
    }
}

/// `prefix` followed by `text`.
fn prefixed(prefix: &str, text: &str) -> (line: String)
    ensures
        line@ == prefix@ + text@,
{
    let mut line = String::from_str(prefix);
    line.append(text);
    line
}

impl ActivityPayload {
    /// The activity for `station_name` in a listening session that began at
    /// `start_timestamp`. Without tags the payload has no state line.
    pub fn listening(station_name: &str, tags: Option<&str>, start_timestamp: i64) -> (payload:
        ActivityPayload)
        ensures
            payload@ == listening_activity(
                station_name@,
                tags_text(tags),
                start_timestamp as int,
            ),
            payload.state is None <==> tags is None,
    {
        let state = match tags {
            Some(text) => Some(prefixed(STATE_PREFIX, text)),
            None => None,
        };
        let mut buttons: Vec<Button> = Vec::new();
        buttons.push(Button::release());
        let payload = ActivityPayload {
            details: prefixed(DETAILS_PREFIX, station_name),
            state,
            activity_kind: ActivityKind::Listening,
            start_timestamp,
            large_image: String::from_str(LARGE_IMAGE),
            large_text: String::from_str(LARGE_TEXT),
            buttons,
        };
        assert(payload@.buttons =~= seq![release_button()]);
        payload
    }

    /// The activity for `station_name` as of a wall clock that reads
    /// `now_secs` seconds since the Unix epoch, in a session that has lasted
    /// `elapsed_secs` seconds.
    pub fn at(station_name: &str, tags: Option<&str>, now_secs: u64, elapsed_secs: u64) -> (payload:
        ActivityPayload)
        ensures
            payload@ == listening_activity(
                station_name@,
                tags_text(tags),
                session_start_timestamp(now_secs, elapsed_secs),
            ),
    {
        ActivityPayload::listening(station_name, tags, start_timestamp(now_secs, elapsed_secs))
    }
}

} // verus!
