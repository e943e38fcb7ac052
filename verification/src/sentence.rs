//! Sentence segmentation per UAX #29 (rules SB1-SB998).
//!
//! The machine keeps a sliding window of the last four category parts, with
//! runs of close and space characters collapsed, which is enough to match
//! every rule without unbounded lookback.  [`sb_run`] is the specification
//! of one search step; [`SentenceBreaks::next`] is proved to return exactly
//! what it says.

use vstd::prelude::*;
use crate::tables::sentence::SentenceCat;
use crate::tables::sentence::sentence_category;
use crate::tables::sentence::spec_sentence_category;
use crate::textpos::byte_pos;
use crate::textpos::byte_len;
use crate::textpos::is_char_bdy;
use crate::textpos::char_idx;
use crate::textpos::char_width;
use crate::textpos::str_byte_len;
use crate::textpos::str_split;
use crate::textpos::str_slice;
use crate::textpos::char_at;
use crate::textpos::lemma_char_idx;
use crate::textpos::lemma_bdy_ends;
use crate::textpos::lemma_bdy_step;
use crate::textpos::lemma_byte_pos_mono;

verus! {

/// One remembered part of the recent category history.  Runs of close and
/// space characters collapse into `ClosePlus` and `SpPlus`.
#[derive(Clone, Copy, PartialEq, Eq, Structural)]
pub enum StatePart {
    /// Start of text.
    Sot,
    /// End of text.
    Eot,
    /// Anything without a rule of its own.
    Other,
    /// A carriage return.
    CR,
    /// A line feed.
    LF,
    /// A paragraph separator.
    Sep,
    /// An ambiguous terminator (full stop).
    ATerm,
    /// An upper- or lower-case letter.
    UpperLower,
    /// One or more close punctuation characters.
    ClosePlus,
    /// One or more space characters.
    SpPlus,
    /// An unambiguous sentence terminator.
    STerm,
}

/// The last four category parts seen, oldest first.
#[derive(Clone, Copy, PartialEq, Eq, Structural)]
pub struct SentenceBreaksState(pub StatePart, pub StatePart, pub StatePart, pub StatePart);

/// The window before any character has been read.
pub open spec fn initial_state() -> SentenceBreaksState {
    SentenceBreaksState(StatePart::Sot, StatePart::Sot, StatePart::Sot, StatePart::Sot)
}

/// The part that one category contributes to the window.
pub open spec fn spec_part_of(cat: SentenceCat) -> StatePart {
    match cat {
        SentenceCat::SC_CR => StatePart::CR,
        SentenceCat::SC_LF => StatePart::LF,
        SentenceCat::SC_Sep => StatePart::Sep,
        SentenceCat::SC_ATerm => StatePart::ATerm,
        SentenceCat::SC_Upper => StatePart::UpperLower,
        SentenceCat::SC_Lower => StatePart::UpperLower,
        SentenceCat::SC_Close => StatePart::ClosePlus,
        SentenceCat::SC_Sp => StatePart::SpPlus,
        SentenceCat::SC_STerm => StatePart::STerm,
        _ => StatePart::Other,
    }
}

/// Shift one more category into the window, collapsing runs of close and
/// space characters.
pub open spec fn spec_next_state(st: SentenceBreaksState, cat: SentenceCat) -> SentenceBreaksState {
    if (st.3 == StatePart::ClosePlus && cat == SentenceCat::SC_Close) || (st.3 == StatePart::SpPlus
        && cat == SentenceCat::SC_Sp) {
        st
    } else {
        SentenceBreaksState(st.1, st.2, st.3, spec_part_of(cat))
    }
}

/// Mark the end of the text in the window.
pub open spec fn spec_end_state(st: SentenceBreaksState) -> SentenceBreaksState {
    SentenceBreaksState(st.1, st.2, st.3, StatePart::Eot)
}

/// The newest part matches.
pub open spec fn spec_match1(st: SentenceBreaksState, part: StatePart) -> bool {
    st.3 == part
}

/// The two newest parts match, oldest first.
pub open spec fn spec_match2(st: SentenceBreaksState, part1: StatePart, part2: StatePart) -> bool {
    st.2 == part1 && st.3 == part2
}

/// The part before any trailing `Close* Sp*` run.
pub open spec fn spec_aterm_part(st: SentenceBreaksState) -> StatePart {
    if st.3 == StatePart::SpPlus {
        if st.2 == StatePart::ClosePlus {
            st.1
        } else {
            st.2
        }
    } else {
        if st.3 == StatePart::ClosePlus {
            st.2
        } else {
            st.3
        }
    }
}

/// The forward scan of rule SB8: among the characters ahead, a lower-case
/// letter appears before any letter, separator or terminator.
pub open spec fn spec_sb8_scan(s: Seq<char>) -> bool
    decreases s.len(),
{
    if s.len() == 0 {
        false
    } else {
        let c = spec_sentence_category(s[0]);
        if c == SentenceCat::SC_Lower {
            true
        } else if c == SentenceCat::SC_OLetter || c == SentenceCat::SC_Upper || c
            == SentenceCat::SC_Sep || c == SentenceCat::SC_CR || c == SentenceCat::SC_LF || c
            == SentenceCat::SC_STerm || c == SentenceCat::SC_ATerm {
            false
        } else {
            spec_sb8_scan(s.drop_first())
        }
    }
}

/// Rule SB8: `ATerm Close* Sp*` followed by lower case before a letter.
pub open spec fn spec_match_sb8(st: SentenceBreaksState, ahead: Seq<char>) -> bool {
    spec_aterm_part(st) == StatePart::ATerm && spec_sb8_scan(ahead)
}

/// Rule SB8a: the window ends with `SATerm Close* Sp*`.
pub open spec fn spec_match_sb8a(st: SentenceBreaksState) -> bool {
    spec_aterm_part(st) == StatePart::STerm || spec_aterm_part(st) == StatePart::ATerm
}

/// Rule SB9: the window ends with `SATerm Close*`.
pub open spec fn spec_match_sb9(st: SentenceBreaksState) -> bool {
    let p = if st.3 == StatePart::ClosePlus {
        st.2
    } else {
        st.3
    };
    p == StatePart::STerm || p == StatePart::ATerm
}

/// Rule SB11: the window ends with `SATerm Close* Sp* ParaSep?`.
pub open spec fn spec_match_sb11(st: SentenceBreaksState) -> bool {
    let q = if st.3 == StatePart::Sep || st.3 == StatePart::CR || st.3 == StatePart::LF {
        SentenceBreaksState(st.0, st.0, st.1, st.2)
    } else {
        st
    };
    spec_match_sb8a(q)
}

/// One run of the search loop from character index `i` with window `st`:
/// the break returned (as a byte position), the index after the last
/// character consumed, and the window that remains.  The rules SB1-SB11 are
/// applied in order, with SB998 as the default.
pub open spec fn sb_run(s: Seq<char>, i: int, st: SentenceBreaksState) -> (Option<int>, int,
    SentenceBreaksState,
)
    recommends
        0 <= i <= s.len(),
    decreases s.len() - i,
{
    if i >= s.len() {
        // SB2
        if spec_match1(st, StatePart::Sot) || spec_match1(st, StatePart::Eot) {
            (None, i, st)
        } else {
            (Some(byte_pos(s, s.len() as int)), i, spec_end_state(st))
        }
    } else {
        let cat = spec_sentence_category(s[i]);
        let st2 = spec_next_state(st, cat);
        if spec_match1(st, StatePart::Sot) {
            // SB1
            (Some(byte_pos(s, i)), i + 1, st2)
        } else if cat == SentenceCat::SC_LF && spec_match1(st, StatePart::CR) {
            // SB3
            sb_run(s, i + 1, st2)
        } else if spec_match1(st, StatePart::Sep) || spec_match1(st, StatePart::CR) || spec_match1(
            st,
            StatePart::LF,
        ) {
            // SB4
            (Some(byte_pos(s, i)), i + 1, st2)
        } else if cat == SentenceCat::SC_Extend || cat == SentenceCat::SC_Format {
            // SB5: transparent, the window is restored
            sb_run(s, i + 1, st)
        } else if cat == SentenceCat::SC_Numeric && spec_match1(st, StatePart::ATerm) {
            // SB6
            sb_run(s, i + 1, st2)
        } else if cat == SentenceCat::SC_Upper && spec_match2(
            st,
            StatePart::UpperLower,
            StatePart::ATerm,
        ) {
            // SB7
            sb_run(s, i + 1, st2)
        } else if spec_match_sb8(st, s.skip(i)) {
            // SB8
            sb_run(s, i + 1, st2)
        } else if (cat == SentenceCat::SC_SContinue || cat == SentenceCat::SC_STerm || cat
            == SentenceCat::SC_ATerm) && spec_match_sb8a(st) {
            // SB8a
            sb_run(s, i + 1, st2)
        } else if (cat == SentenceCat::SC_Close || cat == SentenceCat::SC_Sp || cat
            == SentenceCat::SC_Sep || cat == SentenceCat::SC_CR || cat == SentenceCat::SC_LF)
            && spec_match_sb9(st) {
            // SB9
            sb_run(s, i + 1, st2)
        } else if (cat == SentenceCat::SC_Sp || cat == SentenceCat::SC_Sep || cat
            == SentenceCat::SC_CR || cat == SentenceCat::SC_LF) && spec_match_sb8a(st) {
            // SB10
            sb_run(s, i + 1, st2)
        } else if spec_match_sb11(st) {
            // SB11
            (Some(byte_pos(s, i)), i + 1, st2)
        } else {
            // SB998
            sb_run(s, i + 1, st2)
        }
    }
}

/// What one search step guarantees: the consumed region grows, a returned
/// break is a character boundary inside it, and a step that consumes
/// nothing has marked the end of the text.
pub proof fn lemma_sb_run(s: Seq<char>, i: int, st: SentenceBreaksState)
    requires
        0 <= i <= s.len(),
    ensures
        ({
            let (ro, p2, st2) = sb_run(s, i, st);
            &&& i <= p2 <= s.len()
            &&& ro matches Some(b) ==> byte_pos(s, i) <= b <= byte_pos(s, p2) && is_char_bdy(s, b)
            &&& ro is Some && p2 == i ==> i == s.len() && spec_match1(st2, StatePart::Eot)
                && !spec_match1(st, StatePart::Eot)
        }),
    decreases s.len() - i,
{
    let (ro, p2, st2) = sb_run(s, i, st);
    if i >= s.len() {
        assert(i == s.len());
        assert(is_char_bdy(s, byte_pos(s, i)));
    } else {
        lemma_byte_pos_mono(s, i, i + 1);
        lemma_byte_pos_mono(s, 0, i);
        assert(is_char_bdy(s, byte_pos(s, i)));
        let cat = spec_sentence_category(s[i]);
        let stn = spec_next_state(st, cat);
        lemma_sb_run(s, i + 1, stn);
        lemma_sb_run(s, i + 1, st);
        let rn = sb_run(s, i + 1, stn);
        let rk = sb_run(s, i + 1, st);
        assert(sb_run(s, i, st) == (Some(byte_pos(s, i)), i + 1, stn) || sb_run(s, i, st) == rn
            || sb_run(s, i, st) == rk);
        if (ro, p2, st2) == rn || (ro, p2, st2) == rk {
            assert(i <= p2 <= s.len());
        } else {
            assert(p2 == i + 1);
        }
    }
}

/// Internal iterator over the sentence-break positions of a string: each
/// returned value is the byte offset of the character that follows a break.
pub struct SentenceBreaks<'a> {
    /// The text being segmented.
    pub string: &'a str,
    pos: usize,
    state: SentenceBreaksState,
}

impl<'a> SentenceBreaks<'a> {
    /// The text being segmented, as a character sequence.
    pub closed spec fn spec_text(&self) -> Seq<char> {
        self.string@
    }

    /// Character index of the next character to be read.
    pub closed spec fn spec_pos(&self) -> int {
        char_idx(self.string@, self.pos as int)
    }

    /// The current window of category parts.
    pub closed spec fn spec_state(&self) -> SentenceBreaksState {
        self.state
    }

    /// The reading position falls on a character boundary.
    pub closed spec fn wf(&self) -> bool {
        is_char_bdy(self.string@, self.pos as int)
    }

    /// Bounds on the number of breaks yet to be returned: for a fresh
    /// iterator, the bounds bracket the actual number of breaks.
    pub fn size_hint(&self) -> (r: (usize, Option<usize>))
        ensures
            ({
                let slen = byte_len(self.spec_text());
                &&& r.0 == if slen < 2 { slen } else { 2int }
                &&& slen + 1 <= usize::MAX ==> r.1 == Some((slen + 1) as usize)
            }),
            self.spec_pos() == 0 && self.spec_state() == initial_state() ==> ({
                let n = sb_breaks_from(self.spec_text(), 0, initial_state()).len();
                r.0 <= n <= byte_len(self.spec_text()) + 1
            }),
    {
        proof {
            if self.spec_pos() == 0 && self.spec_state() == initial_state() {
                lemma_sb_breaks_min(self.string@);
                lemma_sb_breaks_count(self.string@, 0, initial_state());
                lemma_byte_pos_mono(self.string@, 0, self.string@.len() as int);
            }
        }
        let slen = str_byte_len(self.string);
        // A sentence could be one character
        let lower = if slen < 2 {
            slen
        } else {
            2
        };
        if slen < usize::MAX {
            (lower, Some(slen + 1))
        } else {
            (lower, Some(slen))
        }
    }

    /// Return the byte offset that follows the next sentence break, exactly
    /// as the one search step [`sb_run`] names it.
    #[verifier::loop_isolation(false)]
    pub fn next(&mut self) -> (r: Option<usize>)
        requires
            old(self).wf(),
        ensures
            final(self).wf(),
            final(self).spec_text() == old(self).spec_text(),
            ({
                let (ro, p2, st2) = sb_run(
                    old(self).spec_text(),
                    old(self).spec_pos(),
                    old(self).spec_state(),
                );
                &&& final(self).spec_pos() == p2
                &&& final(self).spec_state() == st2
                &&& match ro {
                    Some(b) => r matches Some(u) && u as int == b,
                    None => r is None,
                }
            }),
    {
        let ghost s = self.string@;
        let ghost i0 = old(self).spec_pos();
        let ghost st0 = old(self).state;
        proof {
            lemma_char_idx(s, self.pos as int);
        }
        let clen = str_byte_len(self.string);
        loop
            invariant
                self.string == old(self).string,
                is_char_bdy(s, self.pos as int),
                clen as int == byte_len(s),
                sb_run(s, char_idx(s, self.pos as int), self.state) == sb_run(s, i0, st0),
            decreases clen - self.pos,
        {
            proof {
                lemma_char_idx(s, self.pos as int);
            }
            if self.pos >= clen {
                break;
            }
            let ghost ci = char_idx(s, self.pos as int);
            proof {
                if ci == s.len() {
                    lemma_byte_pos_mono(s, 0, ci);
                    assert(false);
                }
                lemma_bdy_step(s, self.pos as int);
                lemma_byte_pos_mono(s, 0, ci);
                lemma_byte_pos_mono(s, ci + 1, s.len() as int);
            }
            let next_char = char_at(self.string, self.pos);
            let position_before = self.pos;
            let state_before = self.state;
            let next_cat = sentence_category(next_char);
            self.pos = self.pos + char_width(next_char);
            self.state = self.state.next(next_cat);

            if state_before.match1(StatePart::Sot) {
                // SB1
                return Some(position_before);
            } else if matches!(next_cat, SentenceCat::SC_LF) && state_before.match1(StatePart::CR) {
                // SB3
            } else if state_before.match1(StatePart::Sep) || state_before.match1(StatePart::CR)
                || state_before.match1(StatePart::LF) {
                // SB4
                return Some(position_before);
            } else if matches!(next_cat, SentenceCat::SC_Extend | SentenceCat::SC_Format) {
                // SB5: transparent, restore the window
                self.state = state_before;
            } else if matches!(next_cat, SentenceCat::SC_Numeric) && state_before.match1(
                StatePart::ATerm,
            ) {
                // SB6
            } else if matches!(next_cat, SentenceCat::SC_Upper) && state_before.match2(
                StatePart::UpperLower,
                StatePart::ATerm,
            ) {
                // SB7
            } else if match_sb8(&state_before, str_split(self.string, position_before).1) {
                // SB8
            } else if matches!(
                next_cat,
                SentenceCat::SC_SContinue | SentenceCat::SC_STerm | SentenceCat::SC_ATerm
            ) && match_sb8a(&state_before) {
                // SB8a
            } else if matches!(
                next_cat,
                SentenceCat::SC_Close | SentenceCat::SC_Sp | SentenceCat::SC_Sep
                    | SentenceCat::SC_CR | SentenceCat::SC_LF
            ) && match_sb9(&state_before) {
                // SB9
            } else if matches!(
                next_cat,
                SentenceCat::SC_Sp | SentenceCat::SC_Sep | SentenceCat::SC_CR | SentenceCat::SC_LF
            ) && match_sb8a(&state_before) {
                // SB10
            } else if match_sb11(&state_before) {
                // SB11
                return Some(position_before);
            } else {
                // SB998
            }
        }
        // SB2
        proof {
            lemma_bdy_ends(s);
        }
        if self.state.match1(StatePart::Sot) {
            None
        } else if self.state.match1(StatePart::Eot) {
            None
        } else {
            self.state = self.state.end();
            Some(self.pos)
        }
    }
}

impl SentenceBreaksState {
    /// Shift one more category into the window.
    fn next(&self, cat: SentenceCat) -> (r: SentenceBreaksState)
        ensures
            r == spec_next_state(*self, cat),
    {
        let collapse_close = matches!(self.3, StatePart::ClosePlus) && matches!(
            cat,
            SentenceCat::SC_Close
        );
        let collapse_sp = matches!(self.3, StatePart::SpPlus) && matches!(cat, SentenceCat::SC_Sp);
        if collapse_close || collapse_sp {
            *self
        } else {
            let part = match cat {
                SentenceCat::SC_CR => StatePart::CR,
                SentenceCat::SC_LF => StatePart::LF,
                SentenceCat::SC_Sep => StatePart::Sep,
                SentenceCat::SC_ATerm => StatePart::ATerm,
                SentenceCat::SC_Upper => StatePart::UpperLower,
                SentenceCat::SC_Lower => StatePart::UpperLower,
                SentenceCat::SC_Close => StatePart::ClosePlus,
                SentenceCat::SC_Sp => StatePart::SpPlus,
                SentenceCat::SC_STerm => StatePart::STerm,
                _ => StatePart::Other,
            };
            SentenceBreaksState(self.1, self.2, self.3, part)
        }
    }

    /// Mark the end of the text in the window.
    pub fn end(&self) -> (r: SentenceBreaksState)
        ensures
            r == spec_end_state(*self),
    {
        SentenceBreaksState(self.1, self.2, self.3, StatePart::Eot)
    }

    /// The newest part of the window matches.
    pub fn match1(&self, part: StatePart) -> (r: bool)
        ensures
            r == spec_match1(*self, part),
    {
        self.3 == part
    }

    /// The two newest parts of the window match, oldest first.
    pub fn match2(&self, part1: StatePart, part2: StatePart) -> (r: bool)
        ensures
            r == spec_match2(*self, part1, part2),
    {
        self.2 == part1 && self.3 == part2
    }
}

fn aterm_part(st: &SentenceBreaksState) -> (r: StatePart)
    ensures
        r == spec_aterm_part(*st),
{
    if matches!(st.3, StatePart::SpPlus) {
        if matches!(st.2, StatePart::ClosePlus) {
            st.1
        } else {
            st.2
        }
    } else {
        if matches!(st.3, StatePart::ClosePlus) {
            st.2
        } else {
            st.3
        }
    }
}

/// Rule SB8: `ATerm Close* Sp*` behind, a lower-case letter ahead before
/// any letter, separator or terminator.
#[verifier::loop_isolation(false)]
pub fn match_sb8(st: &SentenceBreaksState, ahead: &str) -> (r: bool)
    ensures
        r == spec_match_sb8(*st, ahead@),
{
    let ghost s = ahead@;
    if !matches!(aterm_part(st), StatePart::ATerm) {
        return false;
    }
    let alen = str_byte_len(ahead);
    let mut pos: usize = 0;
    proof {
        lemma_bdy_ends(s);
        assert(s.skip(0) =~= s);
    }
    loop
        invariant
            is_char_bdy(s, pos as int),
            pos <= alen,
            spec_sb8_scan(s) == spec_sb8_scan(s.skip(char_idx(s, pos as int))),
        decreases alen - pos,
    {
        proof {
            lemma_char_idx(s, pos as int);
        }
        if pos >= alen {
            proof {
                lemma_byte_pos_mono(s, char_idx(s, pos as int), s.len() as int);
                assert(s.skip(s.len() as int) =~= Seq::<char>::empty());
            }
            return false;
        }
        let ghost ci = char_idx(s, pos as int);
        proof {
            if ci == s.len() {
                lemma_byte_pos_mono(s, 0, ci);
                assert(false);
            }
            lemma_bdy_step(s, pos as int);
            lemma_byte_pos_mono(s, 0, ci);
            lemma_byte_pos_mono(s, ci + 1, s.len() as int);
            assert(s.skip(ci)[0] == s[ci]);
            assert(s.skip(ci).drop_first() =~= s.skip(ci + 1));
        }
        let next_char = char_at(ahead, pos);
        match sentence_category(next_char) {
            SentenceCat::SC_Lower => {
                return true;
            },
            SentenceCat::SC_OLetter | SentenceCat::SC_Upper | SentenceCat::SC_Sep
                | SentenceCat::SC_CR | SentenceCat::SC_LF | SentenceCat::SC_STerm
                | SentenceCat::SC_ATerm => {
                return false;
            },
            _ => {},
        }
        pos = pos + char_width(next_char);
    }
}

/// Rule SB8a: the window ends with `SATerm Close* Sp*`.
pub fn match_sb8a(st: &SentenceBreaksState) -> (r: bool)
    ensures
        r == spec_match_sb8a(*st),
{
    let p = aterm_part(st);
    matches!(p, StatePart::STerm) || matches!(p, StatePart::ATerm)
}

/// Rule SB9: the window ends with `SATerm Close*`.
pub fn match_sb9(st: &SentenceBreaksState) -> (r: bool)
    ensures
        r == spec_match_sb9(*st),
{
    let p = if matches!(st.3, StatePart::ClosePlus) {
        st.2
    } else {
        st.3
    };
    matches!(p, StatePart::STerm) || matches!(p, StatePart::ATerm)
}

/// Rule SB11: the window ends with `SATerm Close* Sp* ParaSep?`.
pub fn match_sb11(st: &SentenceBreaksState) -> (r: bool)
    ensures
        r == spec_match_sb11(*st),
{
    let q = if matches!(st.3, StatePart::Sep) || matches!(st.3, StatePart::CR) || matches!(
        st.3,
        StatePart::LF,
    ) {
        SentenceBreaksState(st.0, st.0, st.1, st.2)
    } else {
        *st
    };
    match_sb8a(&q)
}

#[via_fn]
proof fn sb_breaks_decreases(s: Seq<char>, i: int, st: SentenceBreaksState) {
    if 0 <= i <= s.len() {
        lemma_sb_run(s, i, st);
    }
}

/// The byte positions of all sentence breaks from `(i, st)` onward.
pub open spec fn sb_breaks_from(s: Seq<char>, i: int, st: SentenceBreaksState) -> Seq<int>
    recommends
        0 <= i <= s.len(),
    decreases s.len() - i, (if spec_match1(st, StatePart::Eot) { 0int } else { 1int })
        when 0 <= i <= s.len() via sb_breaks_decreases
{
    let (ro, p2, st2) = sb_run(s, i, st);
    match ro {
        None => Seq::empty(),
        Some(b) => seq![b] + sb_breaks_from(s, p2, st2),
    }
}

/// The sentence slices cut out of `s` by consecutive break positions.
pub open spec fn pieces_of(s: Seq<char>, bs: Seq<int>) -> Seq<Seq<char>>
    decreases bs.len(),
{
    if bs.len() < 2 {
        Seq::empty()
    } else {
        seq![s.subrange(char_idx(s, bs[0]), char_idx(s, bs[1]))] + pieces_of(s, bs.drop_first())
    }
}

proof fn lemma_sb_run_some(s: Seq<char>, i: int, st: SentenceBreaksState)
    requires
        0 <= i <= s.len(),
        st.3 != StatePart::Sot,
        st.3 != StatePart::Eot,
    ensures
        ({
            let (ro, p2, st2) = sb_run(s, i, st);
            &&& ro is Some
            &&& st2.3 != StatePart::Sot
            &&& st2.3 == StatePart::Eot ==> ro->0 == byte_pos(s, s.len() as int) && p2
                == s.len()
        }),
    decreases s.len() - i,
{
    if i >= s.len() {
    } else {
        let cat = spec_sentence_category(s[i]);
        let stn = spec_next_state(st, cat);
        lemma_sb_run_some(s, i + 1, stn);
        lemma_sb_run_some(s, i + 1, st);
    }
}

proof fn lemma_sb_chain(s: Seq<char>, i: int, st: SentenceBreaksState)
    requires
        0 <= i <= s.len(),
        st.3 != StatePart::Sot,
        st.3 != StatePart::Eot,
    ensures
        ({
            let bs = sb_breaks_from(s, i, st);
            &&& bs.len() >= 1
            &&& bs.first() >= byte_pos(s, i)
            &&& is_char_bdy(s, bs.first())
            &&& pieces_of(s, bs).flatten() == s.subrange(
                char_idx(s, bs.first()),
                s.len() as int,
            )
        }),
    decreases s.len() - i,
{
    let (ro, p2, st2) = sb_run(s, i, st);
    lemma_sb_run(s, i, st);
    lemma_sb_run_some(s, i, st);
    let b = ro->0;
    let bs = sb_breaks_from(s, i, st);
    lemma_char_idx(s, b);
    if st2.3 == StatePart::Eot {
        assert(sb_breaks_from(s, p2, st2) =~= Seq::<int>::empty());
        assert(bs =~= seq![b]);
        assert(pieces_of(s, bs) =~= Seq::<Seq<char>>::empty());
        lemma_bdy_ends(s);
        assert(char_idx(s, b) == s.len());
        assert(pieces_of(s, bs).flatten() =~= s.subrange(s.len() as int, s.len() as int));
    } else {
        assert(p2 > i);
        lemma_sb_chain(s, p2, st2);
        let bs2 = sb_breaks_from(s, p2, st2);
        assert(bs =~= seq![b] + bs2);
        assert(bs.len() >= 2);
        assert(bs.drop_first() =~= bs2);
        assert(bs[0] == b);
        assert(bs[1] == bs2.first());
        let cb = char_idx(s, b);
        let cf = char_idx(s, bs2.first());
        lemma_char_idx(s, bs2.first());
        assert(b <= bs2.first()) by {
            lemma_byte_pos_mono(s, i, p2);
        }
        assert(cb <= cf) by {
            if cf < cb {
                lemma_byte_pos_mono(s, cf, cb);
            }
        }
        let p0 = s.subrange(cb, cf);
        let ps = pieces_of(s, bs);
        assert(ps =~= seq![p0] + pieces_of(s, bs2));
        assert(ps.first() == p0);
        assert(ps.drop_first() =~= pieces_of(s, bs2));
        assert(ps.flatten() == ps.first().add(ps.drop_first().flatten()));
        assert(p0 + s.subrange(cf, s.len() as int) =~= s.subrange(cb, s.len() as int));
    }
}

/// Round trip: the concatenation of the sentence slices cut by the break
/// positions of a text is the text itself.
pub proof fn lemma_sentences_roundtrip(s: Seq<char>)
    ensures
        pieces_of(s, sb_breaks_from(s, 0, initial_state())).flatten() == s,
{
    let st0 = initial_state();
    let (ro, p2, st2) = sb_run(s, 0, st0);
    let bs = sb_breaks_from(s, 0, st0);
    lemma_bdy_ends(s);
    if s.len() == 0 {
        assert(bs =~= Seq::<int>::empty());
        assert(pieces_of(s, bs).flatten() =~= s);
    } else {
        assert(ro == Some(byte_pos(s, 0)));
        assert(byte_pos(s, 0) == 0);
        assert(st2.3 != StatePart::Sot && st2.3 != StatePart::Eot);
        assert(p2 == 1);
        lemma_sb_chain(s, 1, st2);
        let bs2 = sb_breaks_from(s, 1, st2);
        assert(bs =~= seq![0int] + bs2);
        assert(bs.drop_first() =~= bs2);
        assert(bs[0] == 0int);
        assert(bs[1] == bs2.first());
        let cf = char_idx(s, bs2.first());
        lemma_char_idx(s, bs2.first());
        assert(char_idx(s, 0) == 0);
        assert(0 <= cf);
        let p0 = s.subrange(0, cf);
        let ps = pieces_of(s, bs);
        assert(ps =~= seq![p0] + pieces_of(s, bs2));
        assert(ps.first() == p0);
        assert(ps.drop_first() =~= pieces_of(s, bs2));
        assert(ps.flatten() == ps.first().add(ps.drop_first().flatten()));
        assert(p0 + s.subrange(cf, s.len() as int) =~= s);
    }
}

proof fn lemma_sb_breaks_count(s: Seq<char>, i: int, st: SentenceBreaksState)
    requires
        0 <= i <= s.len(),
    ensures
        sb_breaks_from(s, i, st).len() <= s.len() - i + 1,
    decreases s.len() - i, (if spec_match1(st, StatePart::Eot) { 0int } else { 1int }),
{
    let (ro, p2, st2) = sb_run(s, i, st);
    lemma_sb_run(s, i, st);
    match ro {
        None => {},
        Some(b) => {
            if p2 == i {
                assert(sb_breaks_from(s, p2, st2) =~= Seq::<int>::empty());
            } else {
                lemma_sb_breaks_count(s, p2, st2);
            }
        },
    }
}

proof fn lemma_sb_breaks_min(s: Seq<char>)
    ensures
        s.len() > 0 ==> sb_breaks_from(s, 0, initial_state()).len() >= 2,
        s.len() == 0 ==> sb_breaks_from(s, 0, initial_state()).len() == 0,
{
    let st0 = initial_state();
    let (ro, p2, st2) = sb_run(s, 0, st0);
    if s.len() == 0 {
        assert(sb_breaks_from(s, 0, st0) =~= Seq::<int>::empty());
    } else {
        assert(ro == Some(byte_pos(s, 0)));
        assert(st2.3 != StatePart::Sot && st2.3 != StatePart::Eot);
        lemma_sb_chain(s, 1, st2);
        assert(sb_breaks_from(s, 0, st0) =~= seq![byte_pos(s, 0)] + sb_breaks_from(s, 1, st2));
    }
}

proof fn lemma_pieces_len(s: Seq<char>, bs: Seq<int>)
    ensures
        bs.len() >= 1 ==> pieces_of(s, bs).len() == bs.len() - 1,
        bs.len() == 0 ==> pieces_of(s, bs).len() == 0,
    decreases bs.len(),
{
    if bs.len() >= 2 {
        lemma_pieces_len(s, bs.drop_first());
    }
}

/// The pair that one fresh step of the sentence-bounds iterator yields is
/// exactly the first two break positions, and every later step follows the
/// same break list.
pub proof fn lemma_bounds_step_breaks(s: Seq<char>, i: int, st: SentenceBreaksState)
    requires
        0 <= i <= s.len(),
    ensures
        ({
            let bs = sb_breaks_from(s, i, st);
            let (yld, p2, st2, start2) = bounds_step(s, i, st, None);
            &&& bs.len() >= 2 ==> yld == Some((bs[0], bs[1]))
            &&& bs.len() < 2 ==> yld is None
        }),
{
    let (r1, p1, st1) = sb_run(s, i, st);
    lemma_sb_run(s, i, st);
    if r1 is Some {
        let (r2, q2, st2) = sb_run(s, p1, st1);
        lemma_sb_run(s, p1, st1);
        let bs2 = sb_breaks_from(s, p1, st1);
        assert(sb_breaks_from(s, i, st) =~= seq![r1->0] + bs2);
        if r2 is Some {
            assert(bs2 =~= seq![r2->0] + sb_breaks_from(s, q2, st2));
        } else {
            assert(bs2 =~= Seq::<int>::empty());
        }
    } else {
        assert(sb_breaks_from(s, i, st) =~= Seq::<int>::empty());
    }
}

/// One step of the sentence-bounds iterator: pull a start break if none is
/// held, then pull the following break; yield the pair when both exist.
pub open spec fn bounds_step(s: Seq<char>, i: int, st: SentenceBreaksState, start: Option<int>)
    -> (Option<(int, int)>, int, SentenceBreaksState, Option<int>) {
    if start is None {
        let (r1, p1, st1) = sb_run(s, i, st);
        match r1 {
            None => (None, p1, st1, None),
            Some(b1) => {
                let (r2, p2, st2) = sb_run(s, p1, st1);
                match r2 {
                    None => (None, p2, st2, Some(b1)),
                    Some(b2) => (Some((b1, b2)), p2, st2, Some(b2)),
                }
            },
        }
    } else {
        let b1 = start->0;
        let (r2, p2, st2) = sb_run(s, i, st);
        match r2 {
            None => (None, p2, st2, Some(b1)),
            Some(b2) => (Some((b1, b2)), p2, st2, Some(b2)),
        }
    }
}

/// External iterator for a string's sentences: each yielded slice runs from
/// one sentence break to the next.
pub struct USentenceBounds<'a> {
    iter: SentenceBreaks<'a>,
    sentence_start: Option<usize>,
}

impl<'a> USentenceBounds<'a> {
    /// The text being segmented, as a character sequence.
    pub closed spec fn spec_text(&self) -> Seq<char> {
        self.iter.spec_text()
    }

    /// Character index of the next character the inner iterator will read.
    pub closed spec fn spec_pos(&self) -> int {
        self.iter.spec_pos()
    }

    /// The window of the inner iterator.
    pub closed spec fn spec_state(&self) -> SentenceBreaksState {
        self.iter.spec_state()
    }

    /// The byte offset at which the pending sentence starts, if one is held.
    pub closed spec fn spec_start(&self) -> Option<int> {
        match self.sentence_start {
            Some(b) => Some(b as int),
            None => None,
        }
    }

    /// The inner iterator is well-formed and a held start break lies at or
    /// before its position.
    pub closed spec fn wf(&self) -> bool {
        &&& self.iter.wf()
        &&& match self.sentence_start {
            Some(b) => is_char_bdy(self.iter.string@, b as int) && b as int <= byte_pos(
                self.iter.string@,
                self.iter.spec_pos(),
            ),
            None => true,
        }
    }

    /// Bounds on the number of sentences yet to be yielded: for a fresh
    /// iterator, the bounds bracket the actual number of sentences.
    pub fn size_hint(&self) -> (r: (usize, Option<usize>))
        ensures
            ({
                let slen = byte_len(self.spec_text());
                &&& r.0 == if slen < 2 { 0int } else { 1int }
                &&& slen + 1 <= usize::MAX ==> r.1 == Some(slen as usize)
            }),
            (self.spec_pos() == 0 && self.spec_state() == initial_state() && self.spec_start()
                is None) ==> ({
                let n = pieces_of(
                    self.spec_text(),
                    sb_breaks_from(self.spec_text(), 0, initial_state()),
                ).len();
                r.0 <= n <= byte_len(self.spec_text())
            }),
    {
        proof {
            let ghost t = self.spec_text();
            if self.spec_pos() == 0 && self.spec_state() == initial_state() {
                lemma_sb_breaks_min(t);
                lemma_sb_breaks_count(t, 0, initial_state());
                lemma_pieces_len(t, sb_breaks_from(t, 0, initial_state()));
                lemma_byte_pos_mono(t, 0, t.len() as int);
            }
        }
        let (lower, upper) = self.iter.size_hint();
        let lo = if lower == 0 {
            0
        } else {
            lower - 1
        };
        let up = match upper {
            Some(u) => if u == 0 {
                Some(0)
            } else {
                Some(u - 1)
            },
            None => None,
        };
        (lo, up)
    }

    /// Yield the next sentence: the slice of the text between the next two
    /// sentence breaks, exactly as [`bounds_step`] names them.
    pub fn next(&mut self) -> (r: Option<&'a str>)
        requires
            old(self).wf(),
        ensures
            final(self).wf(),
            final(self).spec_text() == old(self).spec_text(),
            ({
                let s = old(self).spec_text();
                let (yld, p2, st2, start2) = bounds_step(
                    s,
                    old(self).spec_pos(),
                    old(self).spec_state(),
                    old(self).spec_start(),
                );
                &&& final(self).spec_pos() == p2
                &&& final(self).spec_state() == st2
                &&& final(self).spec_start() == start2
                &&& match yld {
                    Some(pair) => r matches Some(g) && g@ == s.subrange(
                        char_idx(s, pair.0),
                        char_idx(s, pair.1),
                    ),
                    None => r is None,
                }
            }),
    {
        let ghost s = self.iter.string@;
        if self.sentence_start.is_none() {
            proof {
                lemma_sb_run(s, self.iter.spec_pos(), self.iter.spec_state());
                lemma_char_idx(s, self.iter.pos as int);
            }
            match self.iter.next() {
                Some(start_pos) => {
                    self.sentence_start = Some(start_pos);
                },
                None => {
                    return None;
                },
            }
        }
        proof {
            lemma_sb_run(s, self.iter.spec_pos(), self.iter.spec_state());
            lemma_char_idx(s, self.iter.pos as int);
        }
        let ghost ip = self.iter.spec_pos();
        let ghost run2 = sb_run(s, self.iter.spec_pos(), self.iter.spec_state());
        match self.iter.next() {
            Some(break_pos) => {
                let start_pos = self.sentence_start.unwrap();
                proof {
                    lemma_char_idx(s, start_pos as int);
                    lemma_char_idx(s, break_pos as int);
                    if break_pos < start_pos {
                        lemma_byte_pos_mono(
                            s,
                            char_idx(s, break_pos as int),
                            char_idx(s, start_pos as int),
                        );
                        if char_idx(s, start_pos as int) <= char_idx(s, break_pos as int) {
                            lemma_byte_pos_mono(
                                s,
                                char_idx(s, start_pos as int),
                                char_idx(s, break_pos as int),
                            );
                        }
                        assert(false);
                    }
                }
                let sentence = str_slice(self.iter.string, start_pos, break_pos);
                self.sentence_start = Some(break_pos);
                Some(sentence)
            },
            None => {
                proof {
                    lemma_byte_pos_mono(s, ip, self.iter.spec_pos());
                }
                None
            },
        }
    }
}

/// Create an iterator over the sentences of `source`.
pub fn new_sentence_bounds<'a>(source: &'a str) -> (r: USentenceBounds<'a>)
    ensures
        r.wf(),
        r.spec_text() == source@,
        r.spec_pos() == 0,
        r.spec_state() == initial_state(),
        r.spec_start() is None,
{
    USentenceBounds { iter: new_sentence_breaks(source), sentence_start: None }
}

/// Create an iterator over the sentence-break positions of `source`.
pub fn new_sentence_breaks<'a>(source: &'a str) -> (r: SentenceBreaks<'a>)
    ensures
        r.wf(),
        r.spec_text() == source@,
        r.spec_pos() == 0,
        r.spec_state() == initial_state(),
{
    proof {
        lemma_bdy_ends(source@);
    }
    SentenceBreaks {
        string: source,
        pos: 0,
        state: SentenceBreaksState(
            StatePart::Sot,
            StatePart::Sot,
            StatePart::Sot,
            StatePart::Sot,
        ),
    }
}

} // verus!
