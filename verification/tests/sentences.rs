use unicode_segmentation::new_sentence_bounds;
use unicode_segmentation::new_sentence_breaks;

fn collect_sentences(s: &str) -> Vec<&str> {
    let mut iter = new_sentence_bounds(s);
    let mut out = Vec::new();
    while let Some(g) = iter.next() {
        out.push(g);
    }
    out
}

fn collect_breaks(s: &str) -> Vec<usize> {
    let mut iter = new_sentence_breaks(s);
    let mut out = Vec::new();
    while let Some(b) = iter.next() {
        out.push(b);
    }
    out
}

#[test]
fn sentences_split_after_terminator() {
    assert_eq!(collect_sentences("One. Two."), vec!["One. ", "Two."]);
}

#[test]
fn single_sentence_stays_whole() {
    assert_eq!(collect_sentences("Hello world"), vec!["Hello world"]);
}

#[test]
fn lowercase_after_full_stop_continues() {
    // rule SB8: a lower-case letter ahead keeps the sentence going
    assert_eq!(collect_sentences("e.g. banana"), vec!["e.g. banana"]);
}

#[test]
fn paragraph_separators_break() {
    assert_eq!(collect_sentences("One\r\nTwo"), vec!["One\r\n", "Two"]);
}

#[test]
fn numeric_after_full_stop_continues() {
    // rule SB6: a digit after the full stop does not end the sentence
    assert_eq!(collect_sentences("On 3.14 we ate."), vec!["On 3.14 we ate."]);
}

#[test]
fn break_positions_cover_the_text() {
    let s = "Yes! No? Fine.";
    assert_eq!(collect_breaks(s), vec![0, 5, 9, s.len()]);
    assert_eq!(collect_breaks(""), Vec::<usize>::new());
}

#[test]
fn sentences_concatenate_to_text() {
    let cases = [
        "One. Two. Three.",
        "Hi! How are you? I am fine.",
        "no breaks here",
        "",
        "Ends abruptly",
    ];
    for s in cases {
        let mut joined = String::new();
        for part in collect_sentences(s) {
            joined.push_str(part);
        }
        assert_eq!(joined, s);
    }
}

#[test]
fn transparent_marks_keep_state() {
    // rule SB5: a combining mark after the terminator is transparent
    assert_eq!(collect_sentences("Ab.\u{300} Cd."), vec!["Ab.\u{300} ", "Cd."]);
}
