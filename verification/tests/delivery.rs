use webhook_logger::delivery::{classify, DeliveryOutcome, FailureKind, SinkError};
use webhook_logger::queue::{ConsumerAction, LoggerWriter};

#[test]
fn each_sink_error_has_its_kind() {
    assert_eq!(classify(SinkError::Model), FailureKind::AuthInvalid);
    assert_eq!(classify(SinkError::Http), FailureKind::PayloadMalformed);
    assert_eq!(classify(SinkError::Json), FailureKind::ResponseUndecodable);
    assert_eq!(classify(SinkError::Other), FailureKind::Unclassified);
}

#[test]
fn each_kind_has_its_diagnostic() {
    assert_eq!(FailureKind::AuthInvalid.diagnostic(), "Token is reportedly none?");
    assert_eq!(
        FailureKind::PayloadMalformed.diagnostic(),
        "Content is malformed, or the webhook's token is invalid."
    );
    assert_eq!(FailureKind::ResponseUndecodable.diagnostic(), "Received invalid json!");
    assert_eq!(
        FailureKind::Unclassified.diagnostic(),
        "Error: Other. Reportedly, this should never happen, according to serenity?"
    );
}

#[test]
fn a_success_keeps_its_handle() {
    let outcome = DeliveryOutcome::of(Ok(Some(17u64)));
    assert!(matches!(outcome, DeliveryOutcome::Success(Some(17))));
    assert_eq!(outcome.diagnostic(), None);
    assert_eq!(outcome.into_handle(), Some(17));

    let unconfirmed: DeliveryOutcome<u64> = DeliveryOutcome::of(Ok(None));
    assert!(matches!(unconfirmed, DeliveryOutcome::Success(None)));
    assert_eq!(unconfirmed.diagnostic(), None);
    assert_eq!(unconfirmed.into_handle(), None);
}

#[test]
fn a_failure_of_any_kind_leaves_no_handle() {
    let cases = [
        (SinkError::Model, FailureKind::AuthInvalid),
        (SinkError::Http, FailureKind::PayloadMalformed),
        (SinkError::Json, FailureKind::ResponseUndecodable),
        (SinkError::Other, FailureKind::Unclassified),
    ];
    for (error, kind) in cases {
        let outcome: DeliveryOutcome<u64> = DeliveryOutcome::of(Err(error));
        match &outcome {
            DeliveryOutcome::Failure(found) => assert_eq!(*found, kind),
            other => panic!("unexpected {:?}", other),
        }
        assert_eq!(outcome.diagnostic(), Some(kind.diagnostic()));
        assert_eq!(outcome.into_handle(), None);
    }
}

#[test]
fn failed_deliveries_do_not_stop_the_consumer() {
    let (writer, mut consumer) = LoggerWriter::new();
    let failures = [SinkError::Model, SinkError::Http, SinkError::Json, SinkError::Other];
    for i in 0..failures.len() {
        writer.say_str_sync(format!("fragment {}", i)).unwrap();
    }
    writer.say_str_sync("last".to_string()).unwrap();
    for (i, error) in failures.iter().enumerate() {
        match consumer.next_action() {
            ConsumerAction::Deliver { payload, .. } => {
                assert_eq!(payload, format!("`fragment {}`", i))
            }
            other => panic!("unexpected {:?}", other),
        }
        // The sink fails; the failure is classified and goes no further.
        let outcome: DeliveryOutcome<u64> = DeliveryOutcome::of(Err(*error));
        assert!(outcome.diagnostic().is_some());
        assert_eq!(outcome.into_handle(), None);
        assert!(consumer.running());
    }
    match consumer.next_action() {
        ConsumerAction::Deliver { payload, .. } => assert_eq!(payload, "`last`"),
        other => panic!("unexpected {:?}", other),
    }
    assert_eq!(writer.say_str_sync("after".to_string()), Ok(()));
}
