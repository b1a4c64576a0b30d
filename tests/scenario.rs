use relay_pipeline::gateway::{get_messages, ReadPath, ReadStep};
use relay_pipeline::ingest::{ConsumerEvent, Ingestion};
use relay_pipeline::log_store::HashMapLogger;
use relay_pipeline::message_store::VecStoreGetter;
use relay_pipeline::write_path::{WriteEvent, WriteOutcome, WritePath, WriteStep};

#[test]
fn post_then_get_shows_message() {
    let mut logged = HashMapLogger::new();
    let mut consumed = VecStoreGetter::new();
    let mut ing = Ingestion::new();
    ing.first_step();
    ing.step(ConsumerEvent::Created(Ok(())), &mut consumed);
    ing.step(ConsumerEvent::Subscribed(Ok(())), &mut consumed);

    // POST "hello"
    let mut w = WritePath::new("hello".to_string());
    let mut published: Option<String> = None;
    let mut step = w.first_step();
    loop {
        let ev = match step {
            WriteStep::BeginTransaction | WriteStep::CommitTransaction => WriteEvent::Broker(Ok(())),
            WriteStep::Publish { payload, .. } => {
                published = Some(payload);
                WriteEvent::Broker(Ok(()))
            }
            WriteStep::LogMessage { uuid, message } => {
                assert!(logged.log_message(&uuid, message).is_ok());
                WriteEvent::Log(Ok(()))
            }
            WriteStep::AbortTransaction => panic!("nothing failed"),
            WriteStep::Finish(r) => {
                assert!(r.is_ok());
                break;
            }
        };
        step = w.step(ev);
    }
    assert_eq!(w.outcome(), Some(WriteOutcome::BothCommitted));

    // the broker delivers the committed record
    let bytes = published.unwrap().into_bytes();
    ing.step(ConsumerEvent::Delivered(Ok(Some(bytes))), &mut consumed);

    // GET
    let mut r = ReadPath::new();
    r.step(Ok(consumed.get_message()));
    let logged_text = logged.get_all_messages();
    assert_eq!(logged_text.matches("hello").count(), 1);
    match r.step(Ok(logged_text)) {
        ReadStep::Finish(Ok(body)) => {
            assert!(body.contains("hello"));
            assert_eq!(body, "Message sequence:\nhello\nLogged messages:\nhello\n");
        }
        other => panic!("unexpected {:?}", other),
    }
}

#[test]
fn read_holds_all_four_messages() {
    let mut logged = HashMapLogger::new();
    logged
        .log_message("00000000-0000-0000-0000-000000000001", "a".to_string())
        .unwrap();
    logged
        .log_message("00000000-0000-0000-0000-000000000002", "b".to_string())
        .unwrap();
    let consumed = VecStoreGetter::from(vec!["x".to_string(), "y".to_string()]);
    let body = get_messages(&consumed.get_message(), &logged.get_all_messages());
    assert_eq!(body, "Message sequence:\nx : y\nLogged messages:\nab\n");
    for part in ["a", "b", "x", "y"] {
        assert!(body.contains(part));
    }
}
