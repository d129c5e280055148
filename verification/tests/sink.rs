use webhook_logger::config::Constants;
use webhook_logger::delivery::{FailureKind, SinkError};
use webhook_logger::sink::{wait_for_ack, Lazy, Logger};

#[test]
fn a_resolved_channel_gives_a_handle() {
    let logger = match Logger::new(77, "secret", Ok("channel")) {
        Ok(logger) => logger,
        Err(kind) => panic!("unexpected {:?}", kind),
    };
    assert_eq!(logger.id(), 77);
    assert_eq!(logger.token(), "secret");
    assert_eq!(*logger.channel(), "channel");
}

#[test]
fn an_invalid_credential_leaves_no_handle() {
    let cases = [
        (SinkError::Model, FailureKind::AuthInvalid),
        (SinkError::Http, FailureKind::PayloadMalformed),
        (SinkError::Json, FailureKind::ResponseUndecodable),
        (SinkError::Other, FailureKind::Unclassified),
    ];
    for (error, kind) in cases {
        match Logger::<&str>::new(77, "wrong", Err(error)) {
            Ok(_) => panic!("a handle was made"),
            Err(found) => assert_eq!(found, kind),
        }
    }
}

#[test]
fn the_default_handle_is_that_of_the_configuration() {
    let constants = match Constants::new(Some("4711"), Some("tok")) {
        Ok(constants) => constants,
        Err(error) => panic!("unexpected {:?}", error),
    };
    match Logger::new_default(&constants, Ok(1u8)) {
        Ok(logger) => {
            assert_eq!(logger.id(), 4711);
            assert_eq!(logger.token(), "tok");
            assert_eq!(*logger.channel(), 1);
        }
        Err(kind) => panic!("unexpected {:?}", kind),
    }
    assert!(matches!(
        Logger::<u8>::new_default(&constants, Err(SinkError::Http)),
        Err(FailureKind::PayloadMalformed)
    ));
}

#[test]
fn a_delivery_waits_only_on_request() {
    assert!(!wait_for_ack(None));
    assert!(!wait_for_ack(Some(false)));
    assert!(wait_for_ack(Some(true)));
}

#[test]
fn a_lazy_value_is_made_once() {
    let mut made = 0;
    let mut place: Lazy<String> = Lazy::new();
    assert!(place.get().is_none());
    let first = place
        .get_or_insert_with(|| {
            made += 1;
            "first".to_string()
        })
        .clone();
    assert_eq!(first, "first");
    let second = place
        .get_or_insert_with(|| {
            made += 1;
            "second".to_string()
        })
        .clone();
    assert_eq!(second, "first");
    assert_eq!(made, 1);
    assert_eq!(place.get().map(|v| v.as_str()), Some("first"));
}
