use mail_attachments::{
    extract, filter_by_mime_type, plan_store, DiskWriter, ExtractError, StoreOptions, WriteAction,
    WriteOutcome,
};
use mail_parser::{Message, MessageParser};

fn parse(raw: &[u8]) -> Option<Message<'_>> {
    MessageParser::default().parse(raw)
}

#[test]
fn the_pieces_compose_by_hand_as_plan_store_does() {
    let raw = b"From: a@example.com\r\n\
Content-Type: image/png\r\n\
Content-Disposition: attachment; filename=\"p.png\"\r\n\
Content-Transfer-Encoding: base64\r\n\
\r\n\
iVBORw==";
    let listed = extract(parse(raw).as_ref()).unwrap();
    let kept = filter_by_mime_type(&listed, &["image/png".to_string()]);
    let by_hand = DiskWriter::new(kept, "d".to_string(), "x".to_string());
    let planned = plan_store(
        parse(raw).as_ref(),
        StoreOptions {
            mime_types: vec!["image/png".to_string()],
            directory: "d".to_string(),
            prefix: "x".to_string(),
        },
    )
    .unwrap();
    let by_hand = by_hand.record(WriteOutcome::Succeeded);
    let planned = planned.record(WriteOutcome::Succeeded);
    match (by_hand.pending(), planned.pending()) {
        (
            WriteAction::WriteFile { path: first, bytes: first_bytes },
            WriteAction::WriteFile { path: second, bytes: second_bytes },
        ) => {
            assert_eq!(first, "d/xp.png");
            assert_eq!(first, second);
            assert_eq!(first_bytes, &[0x89u8, 0x50, 0x4e, 0x47][..]);
            assert_eq!(first_bytes, second_bytes);
        }
        other => panic!("unexpected steps {other:?}"),
    }
}

#[test]
fn a_filter_that_drops_everything_leaves_an_empty_batch() {
    let raw = b"From: a@example.com\r\n\
Content-Type: image/png\r\n\
Content-Disposition: attachment; filename=\"p.png\"\r\n\
\r\n\
data";
    let options = StoreOptions {
        mime_types: vec!["text/plain".to_string()],
        directory: "d".to_string(),
        prefix: String::new(),
    };
    let writer = plan_store(parse(raw).as_ref(), options).unwrap().record(WriteOutcome::Succeeded);
    match writer.pending() {
        WriteAction::Finished { result } => assert_eq!(result.unwrap(), Vec::<String>::new()),
        other => panic!("unexpected step {other:?}"),
    }
    assert!(matches!(plan_store(parse(b"").as_ref(), StoreOptions::default()), Err(ExtractError::ParseError)));
}
