use webhook_logger::queue::{
    consumer_action, enqueue_result, fragment_to_forward, write_result, ConsumerAction,
    LoggerWriter, Polled, WriteError,
};

fn delivered(action: ConsumerAction<String>) -> String {
    match action {
        ConsumerAction::Deliver { payload, wait } => {
            assert!(!wait);
            payload
        }
        other => panic!("expected a delivery, got {:?}", other),
    }
}

#[test]
fn fragments_come_out_in_enqueue_order() {
    let (writer, mut consumer) = LoggerWriter::new();
    assert_eq!(writer.say_str_sync("a".to_string()), Ok(()));
    assert_eq!(writer.say_str_sync("b".to_string()), Ok(()));
    assert_eq!(writer.say_str_sync("c".to_string()), Ok(()));
    assert_eq!(delivered(consumer.next_action()), "`a`");
    assert_eq!(delivered(consumer.next_action()), "`b`");
    assert_eq!(delivered(consumer.next_action()), "`c`");
    assert!(matches!(consumer.next_action(), ConsumerAction::Idle));
    assert!(consumer.running());
}

#[test]
fn slow_consumer_sees_the_same_order() {
    let (writer, mut consumer) = LoggerWriter::new();
    writer.say_str_sync("a".to_string()).unwrap();
    assert_eq!(delivered(consumer.next_action()), "`a`");
    assert!(matches!(consumer.next_action(), ConsumerAction::Idle));
    writer.say_str_sync("b".to_string()).unwrap();
    writer.say_str_sync("c".to_string()).unwrap();
    assert!(matches!(consumer.next_action(), ConsumerAction::Deliver { .. }));
    writer.say_str_sync("d".to_string()).unwrap();
    assert_eq!(delivered(consumer.next_action()), "`c`");
    assert_eq!(delivered(consumer.next_action()), "`d`");
    assert!(matches!(consumer.next_action(), ConsumerAction::Idle));
}

#[test]
fn every_producer_keeps_its_own_order() {
    let (first, mut consumer) = LoggerWriter::new();
    let second = first.clone();
    let third = second.clone();
    let producers = [&first, &second, &third];
    let mut sent = 0usize;
    for round in 0..50 {
        for (who, producer) in producers.iter().enumerate() {
            // The third producer writes twice as often as the others.
            let times = if who == 2 { 2 } else { 1 };
            for turn in 0..times {
                let text = format!("{}:{}:{}", who, round, turn);
                assert_eq!(producer.say_str_sync(text), Ok(()));
                sent += 1;
            }
        }
    }
    let mut seen: Vec<Vec<(usize, usize)>> = vec![Vec::new(), Vec::new(), Vec::new()];
    let mut received = 0usize;
    loop {
        match consumer.next_action() {
            ConsumerAction::Deliver { payload, wait } => {
                assert!(!wait);
                let inner = payload.trim_matches('`');
                assert_eq!(payload, format!("`{}`", inner));
                let parts: Vec<usize> = inner.split(':').map(|p| p.parse().unwrap()).collect();
                seen[parts[0]].push((parts[1], parts[2]));
                received += 1;
            }
            ConsumerAction::Idle => break,
            ConsumerAction::Stop => panic!("producers are alive"),
        }
    }
    assert_eq!(received, sent);
    assert_eq!(seen[0].len(), 50);
    assert_eq!(seen[1].len(), 50);
    assert_eq!(seen[2].len(), 100);
    for stream in &seen {
        let mut sorted = stream.clone();
        sorted.sort();
        assert_eq!(&sorted, stream);
    }
}

#[test]
fn ten_thousand_enqueues_with_a_stalled_consumer() {
    let (writer, mut consumer) = LoggerWriter::new();
    for i in 0..10_000 {
        assert_eq!(writer.say_str_sync(format!("line {}", i)), Ok(()));
    }
    for i in 0..10_000 {
        assert_eq!(delivered(consumer.next_action()), format!("`line {}`", i));
    }
    assert!(matches!(consumer.next_action(), ConsumerAction::Idle));
}

#[test]
fn consumer_stops_once_the_last_producer_is_gone() {
    let (writer, mut consumer) = LoggerWriter::new();
    let other = writer.clone();
    writer.say_str_sync("one".to_string()).unwrap();
    other.say_str_sync("two".to_string()).unwrap();
    drop(writer);
    assert_eq!(delivered(consumer.next_action()), "`one`");
    assert!(consumer.running());
    drop(other);
    // What was enqueued before the producers left is still delivered.
    assert_eq!(delivered(consumer.next_action()), "`two`");
    assert!(consumer.running());
    assert!(matches!(consumer.next_action(), ConsumerAction::Stop));
    assert!(!consumer.running());
    assert!(matches!(consumer.next_action(), ConsumerAction::Stop));
    assert!(!consumer.running());
}

#[test]
fn consumer_idles_while_a_producer_lives() {
    let (writer, mut consumer) = LoggerWriter::new();
    for _ in 0..3 {
        assert!(matches!(consumer.next_action(), ConsumerAction::Idle));
        assert!(consumer.running());
    }
    drop(writer);
    assert!(matches!(consumer.next_action(), ConsumerAction::Stop));
}

#[test]
fn enqueue_on_a_closed_channel_is_not_connected() {
    let (writer, consumer) = LoggerWriter::new();
    drop(consumer);
    assert_eq!(
        writer.say_str_sync("late".to_string()),
        Err(WriteError::NotConnected)
    );
    assert_eq!(
        writer.clone().say_str_sync("later".to_string()),
        Err(WriteError::NotConnected)
    );
}

#[test]
fn write_on_a_closed_channel_is_not_connected() {
    let (writer, consumer) = LoggerWriter::new();
    drop(consumer);
    assert_eq!(writer.write(b"late", Some("true")), Err(WriteError::NotConnected));
    // With forwarding off the channel is not even looked at.
    assert_eq!(writer.write(b"late", None), Ok(4));
    assert_eq!(writer.write(b"late", Some("false")), Ok(4));
}

#[test]
fn write_enqueues_the_whole_buffer_as_one_fragment() {
    let (writer, mut consumer) = LoggerWriter::new();
    assert_eq!(writer.write(b"INFO started\n", Some("true")), Ok(13));
    assert_eq!(writer.write(b"", Some("true")), Ok(0));
    assert_eq!(delivered(consumer.next_action()), "`INFO started\n`");
    assert_eq!(delivered(consumer.next_action()), "``");
    assert!(matches!(consumer.next_action(), ConsumerAction::Idle));
}

#[test]
fn write_of_bytes_that_are_not_utf8_succeeds() {
    let (writer, mut consumer) = LoggerWriter::new();
    assert_eq!(writer.write(&[0x66, 0xff, 0x6f], Some("true")), Ok(3));
    assert_eq!(writer.write(&[0xc3, 0x28], Some("true")), Ok(2));
    assert_eq!(writer.write(&[0xe2, 0x82], Some("true")), Ok(2));
    assert_eq!(delivered(consumer.next_action()), "`f\u{fffd}o`");
    assert_eq!(delivered(consumer.next_action()), "`\u{fffd}(`");
    assert_eq!(delivered(consumer.next_action()), "`\u{fffd}`");
}

#[test]
fn write_of_valid_utf8_keeps_the_text() {
    let (writer, mut consumer) = LoggerWriter::new();
    let text = "gr\u{fc}\u{df}e \u{2713} \u{1f980}";
    assert_eq!(writer.write(text.as_bytes(), Some("true")), Ok(text.len()));
    assert_eq!(delivered(consumer.next_action()), format!("`{}`", text));
}

#[test]
fn write_with_forwarding_off_enqueues_nothing() {
    let (writer, mut consumer) = LoggerWriter::new();
    let inputs: [&[u8]; 4] = [b"", b"plain", &[0xff, 0xfe], "\u{1f980}".as_bytes()];
    let flags = [None, Some("false"), Some("TRUE"), Some("True"), Some("1"), Some(""), Some(" true")];
    for input in inputs {
        for flag in flags {
            assert_eq!(writer.write(input, flag), Ok(input.len()));
            assert!(matches!(consumer.next_action(), ConsumerAction::Idle));
        }
    }
    drop(writer);
    assert!(matches!(consumer.next_action(), ConsumerAction::Stop));
}

#[test]
fn flush_does_nothing() {
    let (writer, mut consumer) = LoggerWriter::new();
    writer.say_str_sync("kept".to_string()).unwrap();
    assert_eq!(writer.flush(), Ok(()));
    assert_eq!(delivered(consumer.next_action()), "`kept`");
    drop(consumer);
    assert_eq!(writer.flush(), Ok(()));
}

#[test]
fn fragment_to_forward_follows_the_flag() {
    assert_eq!(fragment_to_forward(b"abc", Some("true")), Some("abc".to_string()));
    assert_eq!(
        fragment_to_forward(&[0x61, 0x80, 0x62], Some("true")),
        Some("a\u{fffd}b".to_string())
    );
    assert_eq!(fragment_to_forward(b"abc", Some("false")), None);
    assert_eq!(fragment_to_forward(b"abc", None), None);
    assert_eq!(fragment_to_forward(&[0x80], Some("on")), None);
}

#[test]
fn consumer_action_for_each_finding() {
    match consumer_action(Polled::Item("x".to_string())) {
        ConsumerAction::Deliver { payload, wait } => {
            assert_eq!(payload, "`x`");
            assert!(!wait);
        }
        other => panic!("unexpected {:?}", other),
    }
    assert!(matches!(consumer_action(Polled::Empty), ConsumerAction::Idle));
    assert!(matches!(consumer_action(Polled::Closed), ConsumerAction::Stop));
}

#[test]
fn enqueue_result_for_each_answer() {
    assert_eq!(enqueue_result(false, false), Ok(()));
    assert_eq!(enqueue_result(true, false), Err(WriteError::NotConnected));
    assert_eq!(enqueue_result(false, true), Err(WriteError::NotConnected));
    assert_eq!(enqueue_result(true, true), Err(WriteError::NotConnected));
}

#[test]
fn write_result_for_each_case() {
    assert_eq!(write_result(5, None), Ok(5));
    assert_eq!(write_result(5, Some(Ok(()))), Ok(5));
    assert_eq!(
        write_result(5, Some(Err(WriteError::NotConnected))),
        Err(WriteError::NotConnected)
    );
}
