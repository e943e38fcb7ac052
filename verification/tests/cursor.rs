use unicode_segmentation::GraphemeCursor;
use unicode_segmentation::GraphemeIncomplete;

#[test]
fn whole_text_boundaries() {
    let s = "a\u{310}e\u{301}o\u{308}\u{332}\r\n";
    let mut cursor = GraphemeCursor::new(0, s.len(), true);
    let mut found = vec![0];
    loop {
        match cursor.next_boundary(s, 0) {
            Ok(Some(n)) => found.push(n),
            Ok(None) => break,
            Err(e) => panic!("unexpected request {:?}", e),
        }
    }
    assert_eq!(found, vec![0, 3, 6, 11, 13]);
}

#[test]
fn whole_text_boundaries_backward() {
    let s = "a\u{310}e\u{301}o\u{308}\u{332}\r\n";
    let mut cursor = GraphemeCursor::new(s.len(), s.len(), true);
    let mut found = vec![s.len()];
    loop {
        match cursor.prev_boundary(s, 0) {
            Ok(Some(n)) => found.push(n),
            Ok(None) => break,
            Err(e) => panic!("unexpected request {:?}", e),
        }
    }
    assert_eq!(found, vec![13, 11, 6, 3, 0]);
}

#[test]
fn is_boundary_mid_cluster() {
    let s = "a\u{310}b";
    let mut cursor = GraphemeCursor::new(1, s.len(), true);
    assert_eq!(cursor.is_boundary(s, 0), Ok(false));
    cursor.set_cursor(3);
    assert_eq!(cursor.is_boundary(s, 0), Ok(true));
    assert_eq!(cursor.cur_cursor(), 3);
}

#[test]
fn chunked_regional_indicator_parity() {
    // "a" + two flags + "b": the cursor between the flags needs pre-context
    // to count regional indicators, and the count comes out even
    let s = "a\u{1F1E6}\u{1F1EB}\u{1F1E6}\u{1F1FD}b";
    let mut cursor = GraphemeCursor::new(9, s.len(), true);
    assert_eq!(cursor.is_boundary(&s[9..], 9), Err(GraphemeIncomplete::PreContext(9)));
    cursor.provide_context(&s[..9], 0);
    assert_eq!(cursor.is_boundary(&s[9..], 9), Ok(true));
}

#[test]
fn chunked_regional_indicator_mid_flag() {
    // the offset inside a flag pair: one indicator precedes, so no boundary
    let s = "a\u{1F1E6}\u{1F1EB}b";
    let mut cursor = GraphemeCursor::new(5, s.len(), true);
    assert_eq!(cursor.is_boundary(&s[5..], 5), Err(GraphemeIncomplete::PreContext(5)));
    cursor.provide_context(&s[..5], 0);
    assert_eq!(cursor.is_boundary(&s[5..], 5), Ok(false));
}

#[test]
fn chunked_crlf() {
    let s = "a\r\nb";
    let mut cursor = GraphemeCursor::new(2, s.len(), true);
    assert_eq!(cursor.is_boundary(&s[2..], 2), Err(GraphemeIncomplete::PreContext(2)));
    cursor.provide_context(&s[..2], 0);
    assert_eq!(cursor.is_boundary(&s[2..], 2), Ok(false));
}

#[test]
fn chunked_emoji_lookback() {
    // emoji base, combining mark, skin-tone modifier: the lookback over the
    // mark crosses the chunk edge
    let s = "\u{1F44E}\u{300}\u{1F3FB}";
    let mut cursor = GraphemeCursor::new(6, s.len(), true);
    assert_eq!(cursor.is_boundary(&s[6..], 6), Err(GraphemeIncomplete::PreContext(6)));
    cursor.provide_context(&s[..6], 0);
    assert_eq!(cursor.is_boundary(&s[6..], 6), Ok(false));
}

#[test]
fn invalid_offset_is_reported() {
    let s = "hello";
    let mut cursor = GraphemeCursor::new(1, s.len(), true);
    assert_eq!(cursor.is_boundary(&s[3..], 3), Err(GraphemeIncomplete::InvalidOffset));
}

#[test]
fn next_chunk_is_requested() {
    let s = "ab";
    let mut cursor = GraphemeCursor::new(0, s.len(), true);
    assert_eq!(cursor.next_boundary(&s[..1], 0), Err(GraphemeIncomplete::NextChunk));
    // resuming with a chunk that contains the surrounding text finishes
    assert_eq!(cursor.next_boundary(s, 0), Ok(Some(1)));
}

#[test]
fn prev_chunk_is_requested() {
    let s = "ab";
    let mut cursor = GraphemeCursor::new(2, s.len(), true);
    assert_eq!(cursor.prev_boundary(&s[1..], 1), Err(GraphemeIncomplete::PrevChunk));
    assert_eq!(cursor.prev_boundary(s, 0), Ok(Some(1)));
}

#[test]
fn ends_answer_none() {
    let s = "ab";
    let mut cursor = GraphemeCursor::new(2, s.len(), true);
    assert_eq!(cursor.next_boundary(s, 0), Ok(None));
    let mut cursor = GraphemeCursor::new(0, s.len(), true);
    assert_eq!(cursor.prev_boundary(s, 0), Ok(None));
}

#[test]
fn gb9b_prepend_context() {
    // prepend before a plain letter, in extended mode, decided through
    // provide_context
    let s = "\u{600}x";
    let mut cursor = GraphemeCursor::new(2, s.len(), true);
    assert_eq!(cursor.is_boundary(&s[2..], 2), Err(GraphemeIncomplete::PreContext(2)));
    cursor.provide_context(&s[..2], 0);
    assert_eq!(cursor.is_boundary(&s[2..], 2), Ok(false));
}
