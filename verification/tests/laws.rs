use unicode_segmentation::new_grapheme_indices;
use unicode_segmentation::new_graphemes;

fn collect_graphemes(s: &str, extended: bool) -> Vec<&str> {
    let mut iter = new_graphemes(s, extended);
    let mut out = Vec::new();
    while let Some(g) = iter.next() {
        out.push(g);
    }
    out
}

const SAMPLES: &[&str] = &[
    "",
    "a",
    "abc def",
    "a\u{310}e\u{301}o\u{308}\u{332}\r\n",
    "\n\r\n\r",
    "\u{1F1E6}\u{1F1EB}\u{1F1E6}\u{1F1FD}\u{1F1E6}\u{1F1F1}\u{1F1E9}",
    "\u{1F468}\u{200D}\u{1F468}\u{200D}\u{1F466}",
    "\u{20}\u{600}\u{600}\u{20}",
    "\u{1100}\u{1161}\u{11A8}\u{AC00}\u{11A8}",
    "\u{1F44E}\u{1F3FC} ok",
];

#[test]
fn roundtrip_concatenation() {
    for s in SAMPLES {
        for ext in [true, false] {
            let mut joined = String::new();
            for g in collect_graphemes(s, ext) {
                joined.push_str(g);
            }
            assert_eq!(&joined, s, "mode {:?}", ext);
        }
    }
}

#[test]
fn reverse_iteration_matches_forward() {
    for s in SAMPLES {
        for ext in [true, false] {
            let forward = collect_graphemes(s, ext);
            let mut backward = Vec::new();
            let mut iter = new_graphemes(s, ext);
            while let Some(g) = iter.next_back() {
                backward.push(g);
            }
            backward.reverse();
            assert_eq!(forward, backward, "mode {:?} on {:?}", ext, s);
        }
    }
}

#[test]
fn offsets_are_consistent_and_increasing() {
    for s in SAMPLES {
        let mut iter = new_grapheme_indices(s, true);
        let mut last: Option<usize> = None;
        while let Some((off, slice)) = iter.next() {
            assert_eq!(&s[off..off + slice.len()], slice);
            if let Some(prev) = last {
                assert!(prev < off);
            }
            last = Some(off);
        }
    }
}

#[test]
fn resegmenting_a_cluster_is_identity() {
    for s in SAMPLES {
        for ext in [true, false] {
            for g in collect_graphemes(s, ext) {
                assert_eq!(collect_graphemes(g, ext), vec![g]);
            }
        }
    }
}

#[test]
fn size_hint_brackets_the_count() {
    for s in SAMPLES {
        for ext in [true, false] {
            let iter = new_graphemes(s, ext);
            let (lower, upper) = iter.size_hint();
            let count = collect_graphemes(s, ext).len();
            assert!(lower <= count);
            assert!(count <= upper.unwrap());
        }
    }
}

#[test]
fn mixed_direction_iteration_stays_consistent() {
    let s = "a\u{310}e\u{301}o\u{308}\u{332}\r\n";
    let mut iter = new_graphemes(s, true);
    assert_eq!(iter.next(), Some("a\u{310}"));
    assert_eq!(iter.next_back(), Some("\r\n"));
    assert_eq!(iter.next(), Some("e\u{301}"));
    assert_eq!(iter.next_back(), Some("o\u{308}\u{332}"));
    assert_eq!(iter.next(), None);
    assert_eq!(iter.next_back(), None);
}
