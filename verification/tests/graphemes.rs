use unicode_segmentation::StrRef;
use unicode_segmentation::new_grapheme_indices;
use unicode_segmentation::new_graphemes;

fn collect_graphemes(s: &str, extended: bool) -> Vec<&str> {
    let mut iter = new_graphemes(s, extended);
    let mut out = Vec::new();
    while let Some(g) = iter.next() {
        out.push(g);
    }
    out
}

fn collect_graphemes_rev(s: &str, extended: bool) -> Vec<&str> {
    let mut iter = new_graphemes(s, extended);
    let mut out = Vec::new();
    while let Some(g) = iter.next_back() {
        out.push(g);
    }
    out.reverse();
    out
}

fn collect_indices(s: &str, extended: bool) -> Vec<(usize, &str)> {
    let mut iter = new_grapheme_indices(s, extended);
    let mut out = Vec::new();
    while let Some(p) = iter.next() {
        out.push(p);
    }
    out
}

fn collect_indices_rev(s: &str, extended: bool) -> Vec<(usize, &str)> {
    let mut iter = new_grapheme_indices(s, extended);
    let mut out = Vec::new();
    while let Some(p) = iter.next_back() {
        out.push(p);
    }
    out
}

#[test]
fn test_graphemes() {
    // Official test suite doesn't include two Prepend chars between two other chars.
    let extra_diff: &[(&str, &[&str], &[&str])] = &[
        (
            "\u{20}\u{600}\u{600}\u{20}",
            &["\u{20}", "\u{600}\u{600}\u{20}"],
            &["\u{20}", "\u{600}", "\u{600}", "\u{20}"],
        ),
        // Test for Prepend followed by two Any chars
        (
            "\u{600}\u{20}\u{20}",
            &["\u{600}\u{20}", "\u{20}"],
            &["\u{600}", "\u{20}", "\u{20}"],
        ),
    ];

    for &(s, gt, gf) in extra_diff {
        // test forward iterator
        assert!(collect_graphemes(s, true).iter().zip(gt.iter()).all(|(a, b)| a == b), "{:?}", s);
        assert!(collect_graphemes(s, false).iter().zip(gf.iter()).all(|(a, b)| a == b));

        // test reverse iterator
        assert!(
            collect_graphemes_rev(s, true).iter().rev().zip(gt.iter().rev()).all(|(a, b)| a == b)
        );
        assert!(
            collect_graphemes_rev(s, false).iter().rev().zip(gf.iter().rev()).all(|(a, b)| a == b)
        );
    }

    // test the indices iterators
    let s = "a\u{310}e\u{301}o\u{308}\u{332}\r\n";
    let gr_inds = collect_indices(s, true);
    let b: &[_] = &[
        (0, "a\u{310}"),
        (3, "e\u{301}"),
        (6, "o\u{308}\u{332}"),
        (11, "\r\n"),
    ];
    assert_eq!(gr_inds, b);
    let gr_inds = collect_indices_rev(s, true);
    let b: &[_] = &[
        (11, "\r\n"),
        (6, "o\u{308}\u{332}"),
        (3, "e\u{301}"),
        (0, "a\u{310}"),
    ];
    assert_eq!(gr_inds, b);
    let mut gr_inds_iter = new_grapheme_indices(s, true);
    {
        let e1 = gr_inds_iter.size_hint();
        assert_eq!(e1, (1, Some(13)));
        let mut c = 0;
        while let Some(_) = gr_inds_iter.next() {
            c += 1;
        }
        assert_eq!(c, 4);
    }
    let e2 = gr_inds_iter.size_hint();
    assert_eq!(e2, (0, Some(0)));

    // make sure the reverse iterator does the right thing with "\n" at beginning of string
    let s = "\n\r\n\r";
    let gr = {
        let mut iter = new_graphemes(s, true);
        let mut out = Vec::new();
        while let Some(g) = iter.next_back() {
            out.push(g);
        }
        out
    };
    let b: &[_] = &["\r", "\r\n", "\n"];
    assert_eq!(gr, b);
}

#[test]
fn flag_sequences_pair_up() {
    // six regional indicators pair into three flags
    let s = "\u{1F1E6}\u{1F1EB}\u{1F1E6}\u{1F1FD}\u{1F1E6}\u{1F1F1}";
    assert_eq!(
        collect_graphemes(s, true),
        vec![
            "\u{1F1E6}\u{1F1EB}",
            "\u{1F1E6}\u{1F1FD}",
            "\u{1F1E6}\u{1F1F1}"
        ]
    );
    // seven regional indicators: three flags and one lone indicator
    let s7 = "\u{1F1E6}\u{1F1EB}\u{1F1E6}\u{1F1FD}\u{1F1E6}\u{1F1F1}\u{1F1E9}";
    assert_eq!(
        collect_graphemes(s7, true),
        vec![
            "\u{1F1E6}\u{1F1EB}",
            "\u{1F1E6}\u{1F1FD}",
            "\u{1F1E6}\u{1F1F1}",
            "\u{1F1E9}"
        ]
    );
    // the same backwards
    assert_eq!(
        collect_graphemes_rev(s7, true),
        vec![
            "\u{1F1E6}\u{1F1EB}",
            "\u{1F1E6}\u{1F1FD}",
            "\u{1F1E6}\u{1F1F1}",
            "\u{1F1E9}"
        ]
    );
}

#[test]
fn zwj_family_is_one_cluster() {
    // man, zero-width joiner, man, zero-width joiner, boy
    let s = "\u{1F468}\u{200D}\u{1F468}\u{200D}\u{1F466}";
    assert_eq!(collect_graphemes(s, true), vec![s]);
    assert_eq!(collect_graphemes_rev(s, true), vec![s]);
}

#[test]
fn prepend_modes_differ() {
    // two prepend characters between two spaces: absorbed in extended mode,
    // each code point alone in legacy mode
    let s = "\u{20}\u{600}\u{600}\u{20}";
    assert_eq!(collect_graphemes(s, true), vec!["\u{20}", "\u{600}\u{600}\u{20}"]);
    assert_eq!(
        collect_graphemes(s, false),
        vec!["\u{20}", "\u{600}", "\u{600}", "\u{20}"]
    );
}

#[test]
fn as_str_shrinks_from_both_sides() {
    let mut iter = new_graphemes("abc", true);
    assert_eq!(iter.as_str(), "abc");
    iter.next();
    assert_eq!(iter.as_str(), "bc");
    iter.next_back();
    assert_eq!(iter.as_str(), "b");
    iter.next();
    assert_eq!(iter.as_str(), "");
}

#[test]
fn hangul_syllables_join() {
    // L V T sequence forms one syllable cluster
    let s = "\u{1100}\u{1161}\u{11A8}";
    assert_eq!(collect_graphemes(s, true), vec![s]);
    // LV and LVT syllables followed by T stay joined
    let s2 = "\u{AC00}\u{11A8}";
    assert_eq!(collect_graphemes(s2, true), vec![s2]);
}

#[test]
fn emoji_modifier_joins_base() {
    // thumbs-down with a skin-tone modifier is one cluster
    let s = "\u{1F44E}\u{1F3FC}";
    assert_eq!(collect_graphemes(s, true), vec![s]);
    // base, combining mark, modifier: the lookback crosses the mark
    let s2 = "\u{1F44E}\u{300}\u{1F3FB}";
    assert_eq!(collect_graphemes(s2, true), vec![s2]);
}

#[test]
fn str_ref_split() {
    let s: &str = "a\u{310}bc";
    let (head, tail) = StrRef::split_at(s, 3);
    assert_eq!(head, "a\u{310}");
    assert_eq!(tail, "bc");
}
