use radioss_presence::activity::{
    start_timestamp, ActivityKind, ActivityPayload, Button, BUTTON_LABEL, BUTTON_URL,
    DETAILS_PREFIX, LARGE_IMAGE, LARGE_TEXT, STATE_PREFIX,
};

#[test]
fn update_without_tags_has_no_state() {
    let payload = ActivityPayload::listening("StationX", None, 0);
    assert_eq!(payload.state, None);
    assert_eq!(payload.details, "📻 StationX");
}

#[test]
fn update_with_tags_has_state_and_details() {
    let payload = ActivityPayload::listening("StationX", Some("jazz"), 0);
    assert_eq!(payload.state.as_deref(), Some("🎵 jazz"));
    assert_eq!(payload.details, "📻 StationX");
}

#[test]
fn empty_tags_are_not_absent_tags() {
    let payload = ActivityPayload::listening("", Some(""), 0);
    assert_eq!(payload.state.as_deref(), Some("🎵 "));
    assert_eq!(payload.details, "📻 ");
}

#[test]
fn fixed_parts_of_the_activity() {
    let payload = ActivityPayload::listening("Jazz FM", Some("smooth jazz"), 1_700_000_000);
    assert_eq!(payload.activity_kind, ActivityKind::Listening);
    assert_eq!(payload.start_timestamp, 1_700_000_000);
    assert_eq!(payload.large_image, "radio_icon");
    assert_eq!(payload.large_text, "Radioss - Internet Radio Player");
    assert_eq!(
        payload.buttons,
        vec![Button {
            label: "🔗 Get Radioss".to_string(),
            url: "https://github.com/DasCanard/radioss/releases".to_string(),
        }]
    );
}

#[test]
fn constants_of_the_activity() {
    assert_eq!(LARGE_IMAGE, "radio_icon");
    assert_eq!(LARGE_TEXT, "Radioss - Internet Radio Player");
    assert_eq!(BUTTON_LABEL, "🔗 Get Radioss");
    assert_eq!(BUTTON_URL, "https://github.com/DasCanard/radioss/releases");
    assert_eq!(DETAILS_PREFIX, "📻 ");
    assert_eq!(STATE_PREFIX, "🎵 ");
}

#[test]
fn release_button_is_the_fixed_button() {
    let button = Button::release();
    assert_eq!(button.label, "🔗 Get Radioss");
    assert_eq!(button.url, "https://github.com/DasCanard/radioss/releases");
}

#[test]
fn activity_at_computes_the_start() {
    let payload = ActivityPayload::at("Jazz FM", Some("smooth jazz"), 1_700_000_600, 600);
    assert_eq!(payload.start_timestamp, 1_700_000_000);
    assert_eq!(payload.details, "📻 Jazz FM");
    assert_eq!(payload.state.as_deref(), Some("🎵 smooth jazz"));
    assert_eq!(payload, ActivityPayload::listening("Jazz FM", Some("smooth jazz"), 1_700_000_000));
}

#[test]
fn start_timestamp_is_now_minus_elapsed() {
    assert_eq!(start_timestamp(1_000, 10), 990);
    assert_eq!(start_timestamp(1_700_000_000, 0), 1_700_000_000);
    assert_eq!(start_timestamp(42, 42), 0);
    assert_eq!(start_timestamp(i64::MAX as u64, 0), i64::MAX);
}

#[test]
fn start_timestamp_stays_as_both_clocks_advance() {
    let first = start_timestamp(1_700_000_010, 10);
    let second = start_timestamp(1_700_000_075, 75);
    let third = start_timestamp(1_700_086_400, 86_400);
    assert_eq!(first, 1_700_000_000);
    assert_eq!(second, first);
    assert_eq!(third, first);
}

#[test]
fn start_timestamp_before_the_epoch_is_negative() {
    assert_eq!(start_timestamp(5, 10), -5);
    assert_eq!(start_timestamp(0, 1), -1);
    assert_eq!(start_timestamp(0, 1 << 63), i64::MIN);
}

#[test]
fn start_timestamp_wraps_outside_the_signed_range() {
    assert_eq!(start_timestamp(u64::MAX, 0), -1);
    assert_eq!(start_timestamp(1 << 63, 0), i64::MIN);
    assert_eq!(start_timestamp(0, u64::MAX), 1);
    assert_eq!(start_timestamp(0, (1 << 63) + 1), i64::MAX);
}
