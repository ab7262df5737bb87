use radioss_presence::error::{
    ConnectionError, PublishError, CLEAR_ACTIVITY_FAILED, CLOCK_FAILED, CREATE_FAILED,
    HANDSHAKE_FAILED, SET_ACTIVITY_FAILED,
};

#[test]
fn connection_error_messages() {
    assert_eq!(
        ConnectionError::Create("invalid id".to_string()).message(),
        "Failed to create Discord client: invalid id"
    );
    assert_eq!(
        ConnectionError::Handshake("Couldn't connect to the Discord IPC socket".to_string())
            .message(),
        "Failed to connect to Discord: Couldn't connect to the Discord IPC socket"
    );
}

#[test]
fn publish_error_messages() {
    assert_eq!(
        PublishError::Clock("second time provided was later than self".to_string()).message(),
        "Time error: second time provided was later than self"
    );
    assert_eq!(
        PublishError::SetActivity("broken pipe".to_string()).message(),
        "Failed to set activity: broken pipe"
    );
    assert_eq!(
        PublishError::ClearActivity("broken pipe".to_string()).message(),
        "Failed to clear activity: broken pipe"
    );
}

#[test]
fn messages_of_empty_causes() {
    assert_eq!(ConnectionError::Create(String::new()).message(), CREATE_FAILED);
    assert_eq!(ConnectionError::Handshake(String::new()).message(), HANDSHAKE_FAILED);
    assert_eq!(PublishError::Clock(String::new()).message(), CLOCK_FAILED);
    assert_eq!(PublishError::SetActivity(String::new()).message(), SET_ACTIVITY_FAILED);
    assert_eq!(PublishError::ClearActivity(String::new()).message(), CLEAR_ACTIVITY_FAILED);
}
