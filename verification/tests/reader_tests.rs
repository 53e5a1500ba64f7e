use media_mind::command::{Command, PlaybackStatus};
use media_mind::frame::DecodeError;
use media_mind::reader::{next_step, ReadError, Step};

#[test]
fn no_command_means_retry() {
    assert_eq!(next_step(Ok(None)), Step::Retry);
}

#[test]
fn a_command_is_forwarded_as_it_is() {
    assert_eq!(next_step(Ok(Some(Command::Raise))), Step::Forward(Command::Raise));
    let update = Command::Update {
        status: PlaybackStatus::Paused,
        title: "t".to_string(),
        artists: vec!["a".to_string(), "b".to_string()],
        art_url: Some("u".to_string()),
        can_go_next: true,
        can_go_previous: true,
        can_play: false,
        can_pause: false,
    };
    assert_eq!(next_step(Ok(Some(update.clone()))), Step::Forward(update));
}

#[test]
fn an_error_stops_the_reader() {
    assert_eq!(
        next_step(Err(ReadError::Frame(DecodeError::Truncated))),
        Step::Stop(ReadError::Frame(DecodeError::Truncated))
    );
    assert_eq!(
        next_step(Err(ReadError::Frame(DecodeError::InvalidUtf8))),
        Step::Stop(ReadError::Frame(DecodeError::InvalidUtf8))
    );
    assert_eq!(next_step(Err(ReadError::Json)), Step::Stop(ReadError::Json));
}

#[test]
fn command_names_are_the_wire_names() {
    assert_eq!(Command::Play.name(), "Play");
    assert_eq!(Command::Pause.name(), "Pause");
    assert_eq!(Command::PlayPause.name(), "PlayPause");
    assert_eq!(Command::Next.name(), "Next");
    assert_eq!(Command::Previous.name(), "Previous");
    assert_eq!(Command::Raise.name(), "Raise");
    let update = Command::Update {
        status: PlaybackStatus::Playing,
        title: String::new(),
        artists: vec![],
        art_url: None,
        can_go_next: false,
        can_go_previous: false,
        can_play: false,
        can_pause: false,
    };
    assert_eq!(update.name(), "Update");
    assert!(update.is_update());
    assert!(!Command::Play.is_update());
}
