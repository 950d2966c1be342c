use qlue_ls::result_reader::{Parser, RawPartialResult};

const INPUT: &str = r#"{"head":{"vars":[]},"results":{"bindings":[{"":{"type":"uri","value":""},"U*":{"type":"uri","value":"*\"","curie":""}},{"":{"type":"uri","value":""},"U*":{"type":"uri","value":"*\"","curie":""}}]},"meta":{"query-time-ms":0,"result-size-total":0}}"#;

const BINDING: &str = r#"{"":{"type":"uri","value":""},"U*":{"type":"uri","value":"*\"","curie":""}}"#;

fn read_all(parser: &mut Parser, input: &str) -> Vec<RawPartialResult> {
    let mut parts = Vec::new();
    for byte in input.as_bytes() {
        assert!(parser.can_read(*byte));
        if let Some(part) = parser.read_byte(*byte) {
            parts.push(part);
        }
    }
    parts
}

fn text(bytes: &[u8]) -> String {
    String::from_utf8(bytes.to_vec()).unwrap()
}

#[test]
fn the_reader_frames_head_bindings_and_meta() {
    let mut parser = Parser::new(1, None, 0);
    let parts = read_all(&mut parser, INPUT);
    assert_eq!(parts.len(), 4);
    match &parts[0] {
        RawPartialResult::Header(bytes) => assert_eq!(text(bytes), r#"{"head":{"vars":[]}}"#),
        other => panic!("expected the header, got {:?}", other),
    }
    for part in &parts[1..3] {
        match part {
            RawPartialResult::Bindings(batch) => {
                assert_eq!(batch.len(), 1);
                assert_eq!(text(&batch[0]), BINDING);
            }
            other => panic!("expected a binding, got {:?}", other),
        }
    }
    match &parts[3] {
        RawPartialResult::Meta(bytes) => {
            assert_eq!(text(bytes), r#"{"query-time-ms":0,"result-size-total":0}"#)
        }
        other => panic!("expected the meta data, got {:?}", other),
    }
    assert!(parser.flush().is_none());
}

#[test]
fn bindings_are_batched_and_flushed() {
    let mut parser = Parser::new(5, None, 0);
    let parts = read_all(&mut parser, INPUT);
    assert_eq!(parts.len(), 2);
    match parser.flush() {
        Some(RawPartialResult::Bindings(batch)) => {
            assert_eq!(batch.len(), 2);
            assert_eq!(text(&batch[1]), BINDING);
        }
        other => panic!("expected the pending bindings, got {:?}", other),
    }
}

#[test]
fn only_the_window_of_bindings_is_kept() {
    let mut parser = Parser::new(1, Some(1), 1);
    let parts = read_all(&mut parser, INPUT);
    let bindings: Vec<_> = parts
        .iter()
        .filter(|part| matches!(part, RawPartialResult::Bindings(_)))
        .collect();
    assert_eq!(bindings.len(), 1);

    let mut parser = Parser::new(1, Some(0), 0);
    let parts = read_all(&mut parser, INPUT);
    assert!(parts
        .iter()
        .all(|part| !matches!(part, RawPartialResult::Bindings(_))));
}

#[test]
fn too_deep_nesting_is_refused_up_front() {
    let mut parser = Parser::new(1, None, 0);
    let mut input = String::from(r#"{"head":{"vars":[]},"results":{"bindings":["#);
    for _ in 0..255 {
        input.push('{');
    }
    let _ = read_all(&mut parser, &input);
    assert!(!parser.can_read(b'{'));
    assert!(parser.can_read(b'}'));
}
