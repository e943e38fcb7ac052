use unicode_segmentation::GraphemeCursor;
use unicode_segmentation::GraphemeIncomplete;
use unicode_segmentation::new_graphemes;

const SAMPLES: &[&str] = &[
    "",
    "a",
    "ab",
    "abc def",
    "a\u{310}e\u{301}o\u{308}\u{332}\r\n",
    "\n\r\n\r",
    "\u{1F1E6}\u{1F1EB}\u{1F1E6}\u{1F1FD}\u{1F1E6}\u{1F1F1}",
    "\u{1F1E6}\u{1F1EB}\u{1F1E6}\u{1F1FD}\u{1F1E6}\u{1F1F1}\u{1F1E9}",
    "a\u{1F1E6}\u{1F1EB}\u{1F1E6}\u{1F1FD}b",
    "\u{1F468}\u{200D}\u{1F468}\u{200D}\u{1F466}",
    "\u{20}\u{600}\u{600}\u{20}",
    "\u{600}\n\u{600}x",
    "\u{1100}\u{1161}\u{11A8}\u{AC00}\u{11A8}",
    "\u{1F44E}\u{300}\u{1F3FB} ok",
];

/// Cut `s` into pieces of at least `size` bytes, each ending on a character
/// boundary.
fn pieces(s: &str, size: usize) -> Vec<(usize, &str)> {
    let mut out = Vec::new();
    let mut start = 0;
    let mut end = 0;
    for (i, c) in s.char_indices() {
        let _ = i;
        end += c.len_utf8();
        if end - start >= size {
            out.push((start, &s[start..end]));
            start = end;
        }
    }
    if end > start {
        out.push((start, &s[start..end]));
    }
    out
}

/// The boundaries the whole-text iterator implies: every cluster end.
fn whole_text_boundaries(s: &str, ext: bool) -> Vec<usize> {
    let mut iter = new_graphemes(s, ext);
    let mut out = Vec::new();
    let mut pos = 0;
    while let Some(g) = iter.next() {
        pos += g.len();
        out.push(pos);
    }
    out
}

/// Drive `next_boundary` over the given piece list, answering every chunk
/// and pre-context request from the pieces.
fn drive_forward(s: &str, size: usize, ext: bool) -> Vec<usize> {
    let ps = pieces(s, size);
    let mut cursor = GraphemeCursor::new(0, s.len(), ext);
    let mut out = Vec::new();
    let mut k = 0;
    let mut guard = 0;
    while k < ps.len() {
        guard += 1;
        assert!(guard < 10_000, "no progress on {:?} size {}", s, size);
        let (start, piece) = ps[k];
        match cursor.next_boundary(piece, start) {
            Ok(Some(n)) => out.push(n),
            Ok(None) => break,
            Err(GraphemeIncomplete::NextChunk) => k += 1,
            Err(GraphemeIncomplete::PreContext(p)) => {
                let j = ps.iter().position(|&(st, pc)| st + pc.len() == p).unwrap();
                cursor.provide_context(ps[j].1, ps[j].0);
            },
            Err(e) => panic!("unexpected request {:?} on {:?} size {}", e, s, size),
        }
    }
    out
}

/// Drive `prev_boundary`, growing the context forward by one character past
/// the cursor whenever the preceding chunk is requested.
fn drive_backward(s: &str, size: usize, ext: bool) -> Vec<usize> {
    let ps = pieces(s, size);
    let mut cursor = GraphemeCursor::new(s.len(), s.len(), ext);
    let mut out = Vec::new();
    let mut chunk: (usize, &str) = match ps.last() {
        Some(&(st, pc)) => (st, pc),
        None => (0, s),
    };
    let mut guard = 0;
    loop {
        guard += 1;
        assert!(guard < 10_000, "no progress on {:?} size {}", s, size);
        match cursor.prev_boundary(chunk.1, chunk.0) {
            Ok(Some(n)) => out.push(n),
            Ok(None) => break,
            Err(GraphemeIncomplete::PrevChunk) => {
                // hand back the prefix up to one character past the cursor
                let cur = cursor.cur_cursor();
                let w = s[cur..].chars().next().map(|c| c.len_utf8()).unwrap_or(0);
                chunk = (0, &s[..cur + w]);
            },
            Err(GraphemeIncomplete::PreContext(p)) => {
                let j = ps.iter().position(|&(st, pc)| st + pc.len() == p).unwrap();
                cursor.provide_context(ps[j].1, ps[j].0);
            },
            Err(e) => panic!("unexpected request {:?} on {:?} size {}", e, s, size),
        }
    }
    out
}

#[test]
fn forward_chunked_walk_matches_whole_text() {
    for s in SAMPLES {
        for ext in [true, false] {
            let expect = whole_text_boundaries(s, ext);
            for size in 1..=8 {
                assert_eq!(
                    drive_forward(s, size, ext),
                    expect,
                    "text {:?} mode {:?} size {}",
                    s,
                    ext,
                    size
                );
            }
        }
    }
}

#[test]
fn backward_chunked_walk_matches_whole_text() {
    for s in SAMPLES {
        for ext in [true, false] {
            let mut expect = vec![0];
            let mut bs = whole_text_boundaries(s, ext);
            bs.pop();
            expect.extend(bs);
            expect.reverse();
            if s.is_empty() {
                expect = Vec::new();
            }
            for size in 1..=8 {
                assert_eq!(
                    drive_backward(s, size, ext),
                    expect,
                    "text {:?} mode {:?} size {}",
                    s,
                    ext,
                    size
                );
            }
        }
    }
}

#[test]
fn control_after_prepend_still_breaks() {
    // GB4/GB5 outrank GB9b: a prepend before a line feed does not join
    let s = "\u{600}\n";
    let mut cursor = GraphemeCursor::new(2, s.len(), true);
    assert_eq!(cursor.is_boundary(s, 0), Ok(true));
    // the same through the chunked protocol
    let mut cursor = GraphemeCursor::new(2, s.len(), true);
    assert_eq!(cursor.is_boundary(&s[2..], 2), Err(GraphemeIncomplete::PreContext(2)));
    cursor.provide_context(&s[..2], 0);
    assert_eq!(cursor.is_boundary(&s[2..], 2), Ok(true));
    // a carriage return after a prepend breaks as well
    let t = "\u{600}\r";
    let mut cursor = GraphemeCursor::new(2, t.len(), true);
    assert_eq!(cursor.is_boundary(&t[2..], 2), Err(GraphemeIncomplete::PreContext(2)));
    cursor.provide_context(&t[..2], 0);
    assert_eq!(cursor.is_boundary(&t[2..], 2), Ok(true));
}

#[test]
fn plain_pre_context_is_accepted() {
    // a pre-context request between two ordinary letters: the category
    // before the cursor is recorded and the pair rule decides
    let s = "ab";
    for ext in [true, false] {
        let mut cursor = GraphemeCursor::new(1, s.len(), ext);
        assert_eq!(cursor.is_boundary(&s[1..], 1), Err(GraphemeIncomplete::PreContext(1)));
        cursor.provide_context(&s[..1], 0);
        assert_eq!(cursor.is_boundary(&s[1..], 1), Ok(true));
    }
    // the same between a letter and a combining mark: no boundary
    let t = "a\u{310}";
    let mut cursor = GraphemeCursor::new(1, t.len(), true);
    assert_eq!(cursor.is_boundary(&t[1..], 1), Err(GraphemeIncomplete::PreContext(1)));
    cursor.provide_context(&t[..1], 0);
    assert_eq!(cursor.is_boundary(&t[1..], 1), Ok(false));
}
