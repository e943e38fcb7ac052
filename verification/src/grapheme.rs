//! Grapheme-cluster segmentation: the resumable [`GraphemeCursor`] and the
//! iterators [`Graphemes`] and [`GraphemeIndices`] built on top of it.
//!
//! The cursor works on byte offsets into a logical text of fixed byte length
//! `len`; the text itself is handed in as chunks.  The chunk protocol is
//! stated exactly: a fresh query at the start of its chunk requests
//! pre-context and tags a tentative state, [`GraphemeCursor::provide_context`]
//! settles or advances the pending question or records the category before
//! the cursor, and the boundary walks hand back `NextChunk`/`PrevChunk` and
//! resume where they stopped.  A decision reached inside one chunk agrees
//! with the boundary specification applied to that chunk, and when a whole
//! text is given as one chunk, every answer is proved equal to
//! [`crate::boundary::is_grapheme_boundary`] on that text.

use vstd::prelude::*;
use crate::tables::grapheme::GraphemeCat;
use crate::tables::grapheme::grapheme_category;
use crate::tables::grapheme::spec_grapheme_category;
use crate::boundary::PairResult;
use crate::boundary::spec_check_pair;
use crate::boundary::tail_ri_count;
use crate::boundary::emoji_lookback;
use crate::boundary::is_grapheme_boundary;
use crate::boundary::next_boundary_spec;
use crate::boundary::prev_boundary_spec;
use crate::boundary::lemma_next_boundary;
use crate::boundary::lemma_prev_boundary;
use crate::boundary::all_extend;
use crate::boundary::lemma_tail_ri_le;
use crate::boundary::lemma_tail_ri_split;
use crate::boundary::lemma_emoji_split;
use crate::boundary::clusters_from;
use crate::boundary::lemma_cluster_count_from;
use crate::textpos::byte_pos;
use crate::textpos::byte_len;
use crate::textpos::is_char_bdy;
use crate::textpos::char_idx;
use crate::textpos::char_width;
use crate::textpos::str_byte_len;
use crate::textpos::str_split;
use crate::textpos::char_at;
use crate::textpos::char_before;
use crate::textpos::last_char;
use crate::textpos::lemma_char_idx;
use crate::textpos::lemma_char_idx_of_pos;
use crate::textpos::str_slice;
use crate::textpos::lemma_bdy_ends;
use crate::textpos::lemma_bdy_step;
use crate::textpos::lemma_bdy_step_back;
use crate::textpos::lemma_byte_pos_mono;

verus! {

/// The pair classifier: executable form of
/// [`crate::boundary::spec_check_pair`], UAX #29 rules GB3-GB13 with GB999 as
/// the default.
pub fn check_pair(before: GraphemeCat, after: GraphemeCat) -> (r: PairResult)
    ensures
        r == spec_check_pair(before, after),
{
    match (before, after) {
        (GraphemeCat::GC_Control, GraphemeCat::GC_Control) => PairResult::CheckCrlf,  // GB3
        (GraphemeCat::GC_Control, _) => PairResult::Break,  // GB4
        (_, GraphemeCat::GC_Control) => PairResult::Break,  // GB5
        (GraphemeCat::GC_L, GraphemeCat::GC_L) => PairResult::NotBreak,  // GB6
        (GraphemeCat::GC_L, GraphemeCat::GC_V) => PairResult::NotBreak,  // GB6
        (GraphemeCat::GC_L, GraphemeCat::GC_LV) => PairResult::NotBreak,  // GB6
        (GraphemeCat::GC_L, GraphemeCat::GC_LVT) => PairResult::NotBreak,  // GB6
        (GraphemeCat::GC_LV, GraphemeCat::GC_V) => PairResult::NotBreak,  // GB7
        (GraphemeCat::GC_LV, GraphemeCat::GC_T) => PairResult::NotBreak,  // GB7
        (GraphemeCat::GC_V, GraphemeCat::GC_V) => PairResult::NotBreak,  // GB7
        (GraphemeCat::GC_V, GraphemeCat::GC_T) => PairResult::NotBreak,  // GB7
        (GraphemeCat::GC_LVT, GraphemeCat::GC_T) => PairResult::NotBreak,  // GB8
        (GraphemeCat::GC_T, GraphemeCat::GC_T) => PairResult::NotBreak,  // GB8
        (_, GraphemeCat::GC_Extend) => PairResult::NotBreak,  // GB9
        (_, GraphemeCat::GC_ZWJ) => PairResult::NotBreak,  // GB9
        (_, GraphemeCat::GC_SpacingMark) => PairResult::Extended,  // GB9a
        (GraphemeCat::GC_Prepend, _) => PairResult::Extended,  // GB9b
        (GraphemeCat::GC_E_Base, GraphemeCat::GC_E_Modifier) => PairResult::NotBreak,  // GB10
        (GraphemeCat::GC_E_Base_GAZ, GraphemeCat::GC_E_Modifier) => PairResult::NotBreak,  // GB10
        (GraphemeCat::GC_Extend, GraphemeCat::GC_E_Modifier) => PairResult::Emoji,  // GB10
        (GraphemeCat::GC_ZWJ, GraphemeCat::GC_Glue_After_Zwj) => PairResult::NotBreak,  // GB11
        (GraphemeCat::GC_ZWJ, GraphemeCat::GC_E_Base_GAZ) => PairResult::NotBreak,  // GB11
        (GraphemeCat::GC_Regional_Indicator, GraphemeCat::GC_Regional_Indicator)
            => PairResult::Regional,  // GB12, GB13
        (_, _) => PairResult::Break,  // GB999
    }
}

/// What the cursor knows about its current position.
#[derive(Clone, Copy, PartialEq, Eq, Structural)]
pub enum GraphemeState {
    /// Not yet determined.
    Unknown,
    /// Definitely not a boundary.
    NotBreak,
    /// Definitely a boundary.
    Break,
    /// Waiting for the byte before the cursor to rule on CR LF.
    CheckCrlf,
    /// Waiting for more pre-context to count regional indicators.
    Regional,
    /// Waiting for more pre-context to find an emoji base.
    Emoji,
}

/// An error return indicating that not enough content was available in the
/// provided chunk to satisfy the query, and that more content must be
/// provided.
#[derive(Clone, Copy, PartialEq, Eq, Debug, Structural)]
pub enum GraphemeIncomplete {
    /// More pre-context is needed.  The caller should call `provide_context`
    /// with a chunk ending at the offset given, then retry the query.  This
    /// will only be returned if the `chunk_start` parameter is nonzero.
    PreContext(usize),
    /// When requesting `prev_boundary`, the cursor is moving past the
    /// beginning of the current chunk, so the chunk before that is
    /// requested.  This will only be returned if the `chunk_start` parameter
    /// is nonzero.
    PrevChunk,
    /// When requesting `next_boundary`, the cursor is moving past the end of
    /// the current chunk, so the chunk after that is requested.  This will
    /// only be returned if the chunk ends before the `len` parameter given
    /// on creation of the cursor.
    NextChunk,
    /// The chunk given does not contain the cursor position.
    InvalidOffset,
}

/// Cursor-based segmenter for grapheme clusters.
///
/// The cursor carries only scalar state; the text is handed to each query as
/// a chunk together with the byte offset at which the chunk starts.
#[derive(Clone, Copy)]
pub struct GraphemeCursor {
    offset: usize,
    len: usize,
    is_extended: bool,
    state: GraphemeState,
    cat_before: Option<GraphemeCat>,
    cat_after: Option<GraphemeCat>,
    pre_context_offset: Option<usize>,
    ris_count: Option<usize>,
    resuming: bool,
}

impl GraphemeCursor {
    /// Byte offset of the cursor within the logical text.
    pub closed spec fn spec_offset(&self) -> int {
        self.offset as int
    }

    /// Total byte length of the logical text.
    pub closed spec fn spec_len(&self) -> int {
        self.len as int
    }

    /// Whether extended (rather than legacy) grapheme clusters are selected.
    pub closed spec fn spec_extended(&self) -> bool {
        self.is_extended
    }

    /// The pending pre-context request, if any.
    pub closed spec fn spec_pre_context(&self) -> Option<usize> {
        self.pre_context_offset
    }

    /// Whether a suspended `next_boundary` or `prev_boundary` walk is being
    /// resumed.
    pub closed spec fn spec_resuming(&self) -> bool {
        self.resuming
    }

    /// Basic well-formedness of the scalar state, independent of any text:
    /// the offset stays within the text.
    pub closed spec fn inv(&self) -> bool {
        self.offset <= self.len
    }

    /// The regional-indicator count confirmed so far, or zero while unknown.
    pub closed spec fn spec_ris0(&self) -> int {
        match self.ris_count {
            Some(k) => k as int,
            None => 0int,
        }
    }

    /// Whether a regional-indicator count has been confirmed at all.
    pub closed spec fn spec_has_ris(&self) -> bool {
        self.ris_count is Some
    }

    /// The cached category of the character just before the cursor, if any.
    pub closed spec fn spec_cat_before(&self) -> Option<GraphemeCat> {
        self.cat_before
    }

    /// The cached category of the character just after the cursor, if any.
    pub closed spec fn spec_cat_after(&self) -> Option<GraphemeCat> {
        self.cat_after
    }

    /// The cursor's knowledge about the current position.
    pub closed spec fn spec_state(&self) -> GraphemeState {
        self.state
    }

    /// The boundary answer already decided at the current position, if any.
    pub closed spec fn spec_decided(&self) -> Option<bool> {
        match self.state {
            GraphemeState::Break => Some(true),
            GraphemeState::NotBreak => Some(false),
            _ => None,
        }
    }

    /// Full consistency of the cursor with the text `s`: the cached
    /// categories and the regional-indicator count describe the characters
    /// around the cursor, and a decided state agrees with the boundary
    /// specification.  This is the state in which every query over the whole
    /// text is answered exactly.
    pub closed spec fn wf(&self, s: Seq<char>) -> bool {
        let i = char_idx(s, self.offset as int);
        &&& self.inv()
        &&& self.len as int == byte_len(s)
        &&& is_char_bdy(s, self.offset as int)
        &&& self.pre_context_offset is None
        &&& match self.cat_after {
            Some(c) => i < s.len() && c == spec_grapheme_category(s[i]),
            None => true,
        }
        &&& match self.cat_before {
            Some(c) => i > 0 && c == spec_grapheme_category(s[i - 1]),
            None => true,
        }
        &&& match self.ris_count {
            Some(k) => k as int == tail_ri_count(s.take(i)),
            None => true,
        }
        &&& match self.state {
            GraphemeState::Unknown => true,
            GraphemeState::Break => is_grapheme_boundary(s, self.is_extended, i),
            GraphemeState::NotBreak => !is_grapheme_boundary(s, self.is_extended, i),
            _ => false,
        }
        &&& i == 0 ==> self.state == GraphemeState::Break
        &&& i == s.len() ==> self.state == GraphemeState::Break
    }

    /// The query is over the whole text in one chunk: the chunk starts at
    /// offset zero and covers all `len` bytes.
    pub open spec fn whole(&self, chunk: Seq<char>, chunk_start: int) -> bool {
        chunk_start == 0 && byte_len(chunk) == self.spec_len()
    }

    /// Create a new cursor.  The string and initial offset are given at
    /// creation time, but the contents of the string are not.  `is_extended`
    /// selects extended over legacy grapheme clusters.
    ///
    /// The `offset` parameter must be on a codepoint boundary of the text.
    pub fn new(offset: usize, len: usize, is_extended: bool) -> (c: GraphemeCursor)
        requires
            offset <= len,
        ensures
            c.spec_offset() == offset as int,
            c.spec_len() == len as int,
            c.spec_extended() == is_extended,
            !c.spec_resuming(),
            c.spec_pre_context() is None,
            c.spec_cat_before() is None,
            c.spec_cat_after() is None,
            !c.spec_has_ris(),
            c.spec_ris0() == 0,
            offset == 0 || offset == len ==> c.spec_decided() == Some(true),
            0 < offset && offset < len ==> c.spec_decided() is None,
            c.inv(),
            forall|s: Seq<char>|
                byte_len(s) == len as int && #[trigger] is_char_bdy(s, offset as int)
                    ==> c.wf(s),
    {
        let state = if offset == 0 || offset == len {
            GraphemeState::Break
        } else {
            GraphemeState::Unknown
        };
        let c = GraphemeCursor {
            offset,
            len,
            state,
            is_extended,
            cat_before: None,
            cat_after: None,
            pre_context_offset: None,
            ris_count: None,
            resuming: false,
        };
        proof {
            assert forall|s: Seq<char>|
                byte_len(s) == len as int && #[trigger] is_char_bdy(s, offset as int)
                    implies c.wf(s) by {
                lemma_char_idx(s, offset as int);
                lemma_bdy_ends(s);
                let i = char_idx(s, offset as int);
                if offset == 0 {
                    assert(i == 0);
                }
                if offset == len {
                    assert(i == s.len());
                }
                if i == 0 {
                    lemma_byte_pos_mono(s, 0, 0);
                    assert(byte_pos(s, 0) == 0);
                    assert(offset == 0);
                }
                if i == s.len() {
                    assert(offset == len);
                }
            }
        }
        c
    }

    /// Set the cursor to a new location in the same string.
    ///
    /// The `offset` must be on a codepoint boundary of the text.
    pub fn set_cursor(&mut self, offset: usize)
        requires
            old(self).inv(),
            offset <= old(self).spec_len(),
        ensures
            final(self).spec_offset() == offset as int,
            final(self).spec_len() == old(self).spec_len(),
            final(self).spec_extended() == old(self).spec_extended(),
            final(self).spec_pre_context() == old(self).spec_pre_context(),
            final(self).spec_resuming() == old(self).spec_resuming(),
            offset as int == old(self).spec_offset() ==> *final(self) == *old(self),
            offset as int != old(self).spec_offset() ==> ({
                &&& final(self).spec_cat_before() is None
                &&& final(self).spec_cat_after() is None
                &&& !final(self).spec_has_ris()
                &&& final(self).spec_ris0() == 0
                &&& (offset == 0 || offset as int == old(self).spec_len())
                    ==> final(self).spec_decided() == Some(true)
                &&& (0 < offset && (offset as int) < old(self).spec_len())
                    ==> final(self).spec_decided() is None
            }),
            final(self).inv(),
            forall|s: Seq<char>|
                old(self).wf(s) && #[trigger] is_char_bdy(s, offset as int)
                    ==> final(self).wf(s),
    {
        if offset != self.offset {
            self.offset = offset;
            self.state = if offset == 0 || offset == self.len {
                GraphemeState::Break
            } else {
                GraphemeState::Unknown
            };
            // reset state derived from text around cursor
            self.cat_before = None;
            self.cat_after = None;
            self.ris_count = None;
        }
        proof {
            assert forall|s: Seq<char>|
                old(self).wf(s) && #[trigger] is_char_bdy(s, offset as int)
                    implies self.wf(s) by {
                lemma_char_idx(s, offset as int);
                lemma_bdy_ends(s);
                let i = char_idx(s, offset as int);
                if offset as int == 0 {
                    assert(i == 0);
                }
                if offset as int == byte_len(s) {
                    assert(i == s.len());
                }
                if i == 0 {
                    assert(byte_pos(s, 0) == 0);
                    assert(offset as int == 0);
                }
                if i == s.len() {
                    assert(offset as int == byte_len(s));
                }
            }
        }
    }

    /// The current offset of the cursor: the last value given to [`Self::new`]
    /// or [`Self::set_cursor`], or returned by [`Self::next_boundary`] or
    /// [`Self::prev_boundary`].
    pub fn cur_cursor(&self) -> (r: usize)
        ensures
            r as int == self.spec_offset(),
    {
        self.offset
    }

    fn decide(&mut self, is_break: bool)
        ensures
            *final(self) == (GraphemeCursor {
                state: if is_break { GraphemeState::Break } else { GraphemeState::NotBreak },
                ..*old(self)
            }),
    {
        self.state = if is_break {
            GraphemeState::Break
        } else {
            GraphemeState::NotBreak
        };
    }

    /// The prepend short-cut GB9b applies to this pre-context chunk: in
    /// extended mode, a prepend character right before the cursor forbids a
    /// break — unless the character after the cursor is a control (GB4/GB5
    /// outrank GB9b), which a pending CR LF question also signals.
    pub open spec fn spec_gb9b(&self, chunk: Seq<char>, chunk_start: int) -> bool {
        &&& self.spec_extended()
        &&& chunk_start + byte_len(chunk) == self.spec_offset()
        &&& chunk.len() > 0
        &&& spec_grapheme_category(chunk.last()) == GraphemeCat::GC_Prepend
        &&& self.spec_state() != GraphemeState::CheckCrlf
        &&& self.spec_cat_after() != Some(GraphemeCat::GC_Control)
    }

    /// Provide additional pre-context when it is needed to decide a
    /// boundary.  The end of the chunk must coincide with the offset named
    /// in the `GraphemeIncomplete::PreContext` request; the chunk either
    /// settles the question (CR LF test, or the prepend rule GB9b in
    /// extended mode), advances the regional or emoji lookback — asking for
    /// yet more pre-context if the chunk was not enough — or, for a plain
    /// pending question, records the category of the character before the
    /// cursor so that the retried query can decide by the pair rule.
    pub fn provide_context(&mut self, chunk: &str, chunk_start: usize)
        requires
            old(self).inv(),
            old(self).spec_pre_context() is Some,
            chunk_start as int + byte_len(chunk@) == old(self).spec_pre_context()->0,
            old(self).spec_pre_context()->0 <= old(self).spec_offset(),
            chunk@.len() > 0,
            old(self).spec_ris0() + chunk@.len() <= usize::MAX,
        ensures
            final(self).inv(),
            final(self).spec_offset() == old(self).spec_offset(),
            final(self).spec_len() == old(self).spec_len(),
            final(self).spec_extended() == old(self).spec_extended(),
            final(self).spec_resuming() == old(self).spec_resuming(),
            final(self).spec_pre_context() is None || final(self).spec_pre_context() == Some(
                chunk_start,
            ),
            ({
                let gb9b = old(self).spec_gb9b(chunk@, chunk_start as int);
                &&& gb9b ==> final(self).spec_decided() == Some(false)
                &&& !gb9b && old(self).spec_state() == GraphemeState::CheckCrlf
                    ==> final(self).spec_decided() == Some(chunk@.last() != '\r')
                &&& !gb9b && old(self).spec_state() == GraphemeState::Regional ==> ({
                    let total = old(self).spec_ris0() + tail_ri_count(chunk@);
                    if tail_ri_count(chunk@) < chunk@.len() || chunk_start == 0 {
                        final(self).spec_decided() == Some(total % 2 == 0)
                    } else {
                        final(self).spec_pre_context() == Some(chunk_start)
                            && final(self).spec_decided() is None
                    }
                })
                &&& !gb9b && old(self).spec_state() == GraphemeState::Emoji ==> ({
                    if !all_extend(chunk@) || chunk_start == 0 {
                        final(self).spec_decided() == Some(!emoji_lookback(chunk@))
                    } else {
                        final(self).spec_pre_context() == Some(chunk_start)
                            && final(self).spec_decided() is None
                    }
                })
                &&& !gb9b && old(self).spec_state() != GraphemeState::CheckCrlf && old(
                    self,
                ).spec_state() != GraphemeState::Regional && old(self).spec_state()
                    != GraphemeState::Emoji ==> ({
                    &&& final(self).spec_cat_before() == Some(
                        spec_grapheme_category(chunk@.last()),
                    )
                    &&& final(self).spec_state() == old(self).spec_state()
                    &&& final(self).spec_cat_after() == old(self).spec_cat_after()
                    &&& final(self).spec_pre_context() is None
                })
            }),
    {
        let clen = str_byte_len(chunk);
        self.pre_context_offset = None;
        let skip_gb9b = matches!(self.state, GraphemeState::CheckCrlf) || matches!(
            self.cat_after,
            Some(GraphemeCat::GC_Control),
        );
        if self.is_extended && chunk_start + clen == self.offset && !skip_gb9b {
            let ch = last_char(chunk);
            if matches!(grapheme_category(ch), GraphemeCat::GC_Prepend) {
                self.decide(false);  // GB9b
                return;
            }
        }
        match self.state {
            GraphemeState::CheckCrlf => {
                let ch = last_char(chunk);
                self.decide(ch != '\r');
            },
            GraphemeState::Regional => {
                proof {
                    lemma_tail_ri_le(chunk@);
                }
                self.handle_regional(chunk, chunk_start)
            },
            GraphemeState::Emoji => self.handle_emoji(chunk, chunk_start),
            _ => {
                // a plain pending question: remember the category before the
                // cursor; the retried query decides by the pair rule
                let ch = last_char(chunk);
                self.cat_before = Some(grapheme_category(ch));
            },
        }
    }

    /// Find the next boundary after the current cursor position, walking
    /// forward one character at a time.  If the walk leaves the chunk before
    /// finding a boundary, `GraphemeIncomplete::NextChunk` asks for the
    /// following chunk; a pre-context request can also be passed up.
    ///
    /// When the chunk is the whole text and the cursor is consistent with
    /// it, the result is exactly the first boundary after the cursor, and
    /// the cursor comes to rest on it.
    #[verifier::loop_isolation(false)]
    #[verifier::rlimit(100)]
    pub fn next_boundary(&mut self, chunk: &str, chunk_start: usize) -> (r: Result<
        Option<usize>,
        GraphemeIncomplete,
    >)
        requires
            old(self).inv(),
            chunk_start as int + byte_len(chunk@) <= old(self).spec_len(),
            old(self).spec_offset() == old(self).spec_len() || (chunk_start as int <= old(
                self,
            ).spec_offset() && old(self).spec_offset() < chunk_start as int + byte_len(chunk@)
                && is_char_bdy(chunk@, old(self).spec_offset() - chunk_start as int)),
            old(self).spec_ris0() + chunk@.len() <= usize::MAX,
        ensures
            final(self).inv(),
            final(self).spec_len() == old(self).spec_len(),
            final(self).spec_extended() == old(self).spec_extended(),
            old(self).spec_offset() == old(self).spec_len() ==> (*final(self) == *old(self) && r
                == Result::<Option<usize>, GraphemeIncomplete>::Ok(None)),
            // any interruption leaves the walk resumable
            r is Err ==> final(self).spec_resuming(),
            // the walk leaves the chunk at its end, undecided, ready to go on
            r == Result::<Option<usize>, GraphemeIncomplete>::Err(GraphemeIncomplete::NextChunk)
                ==> (final(self).spec_offset() == chunk_start as int + byte_len(chunk@)
                && final(self).spec_cat_after() is None
                && final(self).spec_decided() is None),
            // a found boundary is where the cursor rests, decided and cached
            r matches Ok(Some(n)) ==> ({
                &&& final(self).spec_offset() == n as int
                &&& final(self).spec_decided() == Some(true)
                &&& !final(self).spec_resuming()
                &&& old(self).spec_offset() <= n as int <= chunk_start as int + byte_len(chunk@)
                &&& !old(self).spec_resuming() ==> old(self).spec_offset() < (n as int)
            }),
            (old(self).whole(chunk@, chunk_start as int) && old(self).wf(chunk@) && !old(
                self,
            ).spec_resuming() && old(self).spec_offset() < old(self).spec_len()) ==> ({
                let nb = next_boundary_spec(
                    chunk@,
                    old(self).spec_extended(),
                    char_idx(chunk@, old(self).spec_offset()),
                );
                &&& final(self).wf(chunk@)
                &&& !final(self).spec_resuming()
                &&& final(self).spec_offset() == byte_pos(chunk@, nb)
                &&& r == Result::<Option<usize>, GraphemeIncomplete>::Ok(
                    Some(byte_pos(chunk@, nb) as usize),
                )
            }),
    {
        let ghost s = chunk@;
        let ghost whole = old(self).whole(s, chunk_start as int) && old(self).wf(s) && !old(
            self,
        ).spec_resuming() && old(self).spec_offset() < old(self).spec_len();
        let ghost i0 = char_idx(s, old(self).spec_offset());
        let ghost ext = old(self).spec_extended();
        if self.offset == self.len {
            return Ok(None);
        }
        proof {
            lemma_bdy_ends(s);
            if whole {
                lemma_char_idx(s, self.offset as int);
                lemma_next_boundary(s, ext, i0);
            }
        }
        let clen = str_byte_len(chunk);
        let mut pos: usize = self.offset - chunk_start;
        let mut ch = char_at(chunk, pos);
        loop
            invariant
                self.len == old(self).len,
                self.is_extended == old(self).is_extended,
                self.inv(),
                pos as int == self.offset - chunk_start,
                pos < clen,
                is_char_bdy(s, pos as int),
                ch == s[char_idx(s, pos as int)],
                old(self).offset <= self.offset,
                !old(self).resuming ==> !self.resuming,
                self.spec_ris0() <= old(self).spec_ris0() + char_idx(s, pos as int),
                whole ==> ({
                    let ci = char_idx(s, pos as int);
                    &&& self.wf(s)
                    &&& !self.resuming
                    &&& i0 <= ci < s.len()
                    &&& forall|j: int| i0 < j <= ci ==> !is_grapheme_boundary(s, ext, j)
                }),
            decreases clen - pos + (if self.resuming { 1int } else { 0int }),
        {
            if self.resuming {
                if self.cat_after.is_none() {
                    self.cat_after = Some(grapheme_category(ch));
                }
            } else {
                proof {
                    lemma_bdy_step(s, pos as int);
                    lemma_char_idx(s, pos as int);
                    lemma_byte_pos_mono(s, 0, char_idx(s, pos as int));
                    lemma_byte_pos_mono(s, char_idx(s, pos as int) + 1, s.len() as int);
                    assert(s.take(char_idx(s, pos as int) + 1).last()
                        == s[char_idx(s, pos as int)]);
                    assert(s.take(char_idx(s, pos as int) + 1).drop_last()
                        =~= s.take(char_idx(s, pos as int)));
                }
                let w = char_width(ch);
                self.offset = self.offset + w;
                pos = pos + w;
                self.state = GraphemeState::Unknown;
                self.cat_before = self.cat_after;
                self.cat_after = None;
                if self.cat_before.is_none() {
                    self.cat_before = Some(grapheme_category(ch));
                }
                let is_ri = matches!(
                    self.cat_before.unwrap(),
                    GraphemeCat::GC_Regional_Indicator
                );
                if is_ri {
                    self.ris_count = match self.ris_count {
                        Some(c) => Some(c + 1),
                        None => None,
                    };
                } else {
                    self.ris_count = Some(0);
                }
                if pos < clen {
                    ch = char_at(chunk, pos);
                    self.cat_after = Some(grapheme_category(ch));
                } else if self.offset == self.len {
                    proof {
                        lemma_char_idx(s, pos as int);
                    }
                    self.decide(true);
                } else {
                    self.resuming = true;
                    return Err(GraphemeIncomplete::NextChunk);
                }
            }
            self.resuming = true;
            let b = self.is_boundary(chunk, chunk_start)?;
            if b {
                self.resuming = false;
                proof {
                    if whole {
                        let ci = char_idx(s, self.offset as int);
                        let nb = next_boundary_spec(s, ext, i0);
                        if ci < nb {
                            assert(!is_grapheme_boundary(s, ext, ci));
                        }
                        if nb < ci {
                            assert(!is_grapheme_boundary(s, ext, nb));
                        }
                        lemma_char_idx(s, self.offset as int);
                    }
                }
                return Ok(Some(self.offset));
            }
            self.resuming = false;
            proof {
                if whole {
                    assert(pos < clen) by {
                        if pos == clen {
                            assert(char_idx(s, pos as int) == s.len());
                        }
                    }
                }
            }
        }
    }

    /// Find the previous boundary before the current cursor position,
    /// walking backward one character at a time.  If the walk leaves the
    /// chunk before finding a boundary, `GraphemeIncomplete::PrevChunk` asks
    /// for the preceding chunk; a pre-context request can also be passed up.
    ///
    /// When the chunk is the whole text and the cursor is consistent with
    /// it, the result is exactly the last boundary before the cursor, and
    /// the cursor comes to rest on it.
    #[verifier::loop_isolation(false)]
    #[verifier::rlimit(100)]
    pub fn prev_boundary(&mut self, chunk: &str, chunk_start: usize) -> (r: Result<
        Option<usize>,
        GraphemeIncomplete,
    >)
        requires
            old(self).inv(),
            chunk_start as int + byte_len(chunk@) <= old(self).spec_len(),
            old(self).spec_offset() == 0 || ((chunk_start as int) < old(self).spec_offset() && old(
                self,
            ).spec_offset() <= chunk_start as int + byte_len(chunk@)
                && is_char_bdy(chunk@, old(self).spec_offset() - chunk_start as int)),
        ensures
            final(self).inv(),
            final(self).spec_len() == old(self).spec_len(),
            final(self).spec_extended() == old(self).spec_extended(),
            old(self).spec_offset() == 0 ==> (*final(self) == *old(self) && r == Result::<
                Option<usize>,
                GraphemeIncomplete,
            >::Ok(None)),
            // any interruption leaves the walk resumable
            r is Err ==> final(self).spec_resuming(),
            // the walk leaves the chunk at its start, ready to go on
            r == Result::<Option<usize>, GraphemeIncomplete>::Err(GraphemeIncomplete::PrevChunk)
                ==> final(self).spec_offset() == chunk_start as int,
            // a found boundary is where the cursor rests, decided and cached
            r matches Ok(Some(n)) ==> ({
                &&& final(self).spec_offset() == n as int
                &&& final(self).spec_decided() == Some(true)
                &&& !final(self).spec_resuming()
                &&& chunk_start as int <= n as int <= old(self).spec_offset()
                &&& !old(self).spec_resuming() ==> (n as int) < old(self).spec_offset()
            }),
            (old(self).whole(chunk@, chunk_start as int) && old(self).wf(chunk@) && !old(
                self,
            ).spec_resuming() && old(self).spec_offset() > 0) ==> ({
                let pb = prev_boundary_spec(
                    chunk@,
                    old(self).spec_extended(),
                    char_idx(chunk@, old(self).spec_offset()),
                );
                &&& final(self).wf(chunk@)
                &&& !final(self).spec_resuming()
                &&& final(self).spec_offset() == byte_pos(chunk@, pb)
                &&& r == Result::<Option<usize>, GraphemeIncomplete>::Ok(
                    Some(byte_pos(chunk@, pb) as usize),
                )
            }),
    {
        let ghost s = chunk@;
        let ghost whole = old(self).whole(s, chunk_start as int) && old(self).wf(s) && !old(
            self,
        ).spec_resuming() && old(self).spec_offset() > 0;
        let ghost i0 = char_idx(s, old(self).spec_offset());
        let ghost ext = old(self).spec_extended();
        if self.offset == 0 {
            return Ok(None);
        }
        proof {
            lemma_bdy_ends(s);
            if whole {
                lemma_char_idx(s, self.offset as int);
                lemma_prev_boundary(s, ext, i0);
            }
        }
        let clen = str_byte_len(chunk);
        let mut pos: usize = self.offset - chunk_start;
        let mut ch = char_before(chunk, pos);
        loop
            invariant
                self.len == old(self).len,
                self.is_extended == old(self).is_extended,
                self.inv(),
                pos as int == self.offset - chunk_start,
                0 < pos <= clen,
                is_char_bdy(s, pos as int),
                ch == s[char_idx(s, pos as int) - 1],
                self.offset <= old(self).offset,
                !old(self).resuming ==> !self.resuming,
                whole ==> ({
                    let ci = char_idx(s, pos as int);
                    &&& self.wf(s)
                    &&& !self.resuming
                    &&& 0 < ci <= i0
                    &&& forall|j: int| ci <= j < i0 ==> !is_grapheme_boundary(s, ext, j)
                }),
            decreases pos + (if self.resuming { 1int } else { 0int }),
        {
            if self.offset == chunk_start {
                proof {
                    if whole {
                        assert(false);
                    }
                }
                self.resuming = true;
                return Err(GraphemeIncomplete::PrevChunk);
            }
            if self.resuming {
                self.cat_before = Some(grapheme_category(ch));
            } else {
                proof {
                    lemma_bdy_step_back(s, pos as int);
                    lemma_char_idx(s, pos as int);
                    lemma_byte_pos_mono(s, 0, char_idx(s, pos as int) - 1);
                    assert(s.take(char_idx(s, pos as int)).last()
                        == s[char_idx(s, pos as int) - 1]);
                    assert(s.take(char_idx(s, pos as int)).drop_last()
                        =~= s.take(char_idx(s, pos as int) - 1));
                }
                let w = char_width(ch);
                self.offset = self.offset - w;
                pos = pos - w;
                self.cat_after = self.cat_before;
                self.cat_before = None;
                self.state = GraphemeState::Unknown;
                self.ris_count = match self.ris_count {
                    Some(ris_count) => if ris_count > 0 {
                        Some(ris_count - 1)
                    } else {
                        None
                    },
                    None => None,
                };
                if pos > 0 {
                    ch = char_before(chunk, pos);
                    self.cat_before = Some(grapheme_category(ch));
                } else if self.offset == 0 {
                    proof {
                        lemma_char_idx(s, 0);
                    }
                    self.decide(true);
                } else {
                    self.resuming = true;
                    return Err(GraphemeIncomplete::PrevChunk);
                }
            }
            self.resuming = true;
            let b = self.is_boundary(chunk, chunk_start)?;
            if b {
                self.resuming = false;
                proof {
                    if whole {
                        let ci = char_idx(s, self.offset as int);
                        let pb = prev_boundary_spec(s, ext, i0);
                        if pb < ci {
                            assert(!is_grapheme_boundary(s, ext, ci));
                        }
                        if ci < pb {
                            assert(!is_grapheme_boundary(s, ext, pb));
                        }
                        lemma_char_idx(s, self.offset as int);
                    }
                }
                return Ok(Some(self.offset));
            }
            self.resuming = false;
            proof {
                if whole {
                    assert(pos > 0) by {
                        if pos == 0 {
                            assert(char_idx(s, 0) == 0);
                        }
                    }
                }
            }
        }
    }

    fn is_boundary_result(&self) -> (r: Result<bool, GraphemeIncomplete>)
        requires
            self.state == GraphemeState::Break || self.state == GraphemeState::NotBreak
                || self.pre_context_offset is Some,
        ensures
            self.state == GraphemeState::Break
                ==> r == Result::<bool, GraphemeIncomplete>::Ok(true),
            self.state == GraphemeState::NotBreak
                ==> r == Result::<bool, GraphemeIncomplete>::Ok(false),
            self.state != GraphemeState::Break && self.state != GraphemeState::NotBreak
                ==> (r matches Err(e)
                    && e == GraphemeIncomplete::PreContext(self.pre_context_offset->0)),
    {
        if matches!(self.state, GraphemeState::Break) {
            Ok(true)
        } else if matches!(self.state, GraphemeState::NotBreak) {
            Ok(false)
        } else {
            Err(GraphemeIncomplete::PreContext(self.pre_context_offset.unwrap()))
        }
    }

    /// Determine whether the current cursor location is a grapheme-cluster
    /// boundary.  Only a part of the string need be supplied; if the answer
    /// needs text before the chunk, `GraphemeIncomplete::PreContext` asks
    /// for it, and a chunk that does not contain the cursor position is
    /// answered with `GraphemeIncomplete::InvalidOffset`.
    ///
    /// A fresh query at the start of its chunk requests pre-context and
    /// records a tentative state, unless the cached knowledge already
    /// suffices; a decision reached inside one chunk agrees with the
    /// boundary specification applied to that chunk; and when the chunk is
    /// the whole text and the cursor is consistent with it, the answer is
    /// exactly [`is_grapheme_boundary`] at the cursor's character index.
    #[verifier::rlimit(100)]
    pub fn is_boundary(&mut self, chunk: &str, chunk_start: usize) -> (r: Result<
        bool,
        GraphemeIncomplete,
    >)
        requires
            old(self).inv(),
            chunk_start as int + byte_len(chunk@) <= old(self).spec_len(),
            chunk_start as int <= old(self).spec_offset() && old(self).spec_offset()
                < chunk_start as int + byte_len(chunk@)
                ==> is_char_bdy(chunk@, old(self).spec_offset() - chunk_start as int),
        ensures
            final(self).inv(),
            final(self).spec_offset() == old(self).spec_offset(),
            final(self).spec_len() == old(self).spec_len(),
            final(self).spec_extended() == old(self).spec_extended(),
            final(self).spec_resuming() == old(self).spec_resuming(),
            // a decided position answers from the cache, untouched
            old(self).spec_decided() matches Some(b) ==> (*final(self) == *old(self)
                && r == Result::<bool, GraphemeIncomplete>::Ok(b)),
            // an answer is always cached for the next query
            r matches Ok(b) ==> final(self).spec_decided() == Some(b),
            // a chunk that misses the cursor is rejected, and nothing else is
            old(self).spec_decided() is None && (old(self).spec_offset() < chunk_start as int
                || old(self).spec_offset() >= chunk_start as int + byte_len(chunk@))
                ==> (*final(self) == *old(self) && r == Result::<bool, GraphemeIncomplete>::Err(
                GraphemeIncomplete::InvalidOffset,
            )),
            r == Result::<bool, GraphemeIncomplete>::Err(GraphemeIncomplete::InvalidOffset)
                ==> (old(self).spec_decided() is None && (old(self).spec_offset()
                < chunk_start as int || old(self).spec_offset() >= chunk_start as int + byte_len(
                chunk@,
            ))),
            // the only requests it makes are pre-context or a chunk miss
            r matches Err(e) ==> (e matches GraphemeIncomplete::PreContext(_) || e
                == GraphemeIncomplete::InvalidOffset),
            // a pending pre-context request is repeated
            (old(self).spec_pre_context() is Some && old(self).spec_decided() is None
                && chunk_start as int <= old(self).spec_offset() && old(self).spec_offset()
                < chunk_start as int + byte_len(chunk@)) ==> (*final(self) == *old(self) && r
                == Result::<bool, GraphemeIncomplete>::Err(GraphemeIncomplete::PreContext(
                old(self).spec_pre_context()->0,
            ))),
            final(self).spec_ris0() == old(self).spec_ris0() || final(self).spec_ris0()
                <= char_idx(chunk@, old(self).spec_offset() - chunk_start as int),
            // a fresh query at the chunk start issues a pre-context request
            // with the tentative state tagged, or goes on with what it knows
            (old(self).spec_decided() is None && old(self).spec_pre_context() is None
                && old(self).spec_offset() == chunk_start as int && old(self).spec_offset()
                < chunk_start as int + byte_len(chunk@)) ==> ({
                let ca = match old(self).spec_cat_after() {
                    Some(c) => c,
                    None => spec_grapheme_category(chunk@[0]),
                };
                let cb = old(self).spec_cat_before();
                let pend = if ca == GraphemeCat::GC_Control {
                    chunk@[0] == '\n' || cb is None
                } else if ca == GraphemeCat::GC_Regional_Indicator {
                    !(cb is Some && old(self).spec_has_ris())
                } else if ca == GraphemeCat::GC_E_Modifier {
                    cb is None || cb == Some(GraphemeCat::GC_Extend)
                } else {
                    cb is None
                };
                &&& final(self).spec_cat_after() == Some(ca)
                &&& pend ==> (r == Result::<bool, GraphemeIncomplete>::Err(
                    GraphemeIncomplete::PreContext(chunk_start),
                ) && final(self).spec_pre_context() == Some(chunk_start)
                    && final(self).spec_cat_before() == cb && final(self).spec_state() == (
                    if ca == GraphemeCat::GC_Control && chunk@[0] == '\n' {
                        GraphemeState::CheckCrlf
                    } else if ca == GraphemeCat::GC_Regional_Indicator {
                        GraphemeState::Regional
                    } else if ca == GraphemeCat::GC_E_Modifier {
                        GraphemeState::Emoji
                    } else {
                        old(self).spec_state()
                    }))
                &&& !pend ==> r == Result::<bool, GraphemeIncomplete>::Ok(
                    match spec_check_pair(cb->0, ca) {
                        PairResult::NotBreak => false,
                        PairResult::Break => true,
                        PairResult::Extended => !old(self).spec_extended(),
                        // the character after the cursor is not a line feed
                        // here, so a control pair always breaks
                        PairResult::CheckCrlf => true,
                        PairResult::Regional => old(self).spec_ris0() % 2 == 0,
                        // unreachable: an emoji lookback is never settled
                        // from the cache alone
                        PairResult::Emoji => true,
                    },
                )
            }),
            // a decision reached from nothing but this chunk agrees with the
            // boundary specification applied to the chunk
            (old(self).spec_decided() is None && old(self).spec_pre_context() is None
                && old(self).spec_cat_before() is None && old(self).spec_cat_after() is None
                && !old(self).spec_has_ris() && chunk_start as int <= old(self).spec_offset()
                && old(self).spec_offset() < chunk_start as int + byte_len(chunk@)) ==> (
            r matches Ok(b) ==> b == is_grapheme_boundary(
                chunk@,
                old(self).spec_extended(),
                char_idx(chunk@, old(self).spec_offset() - chunk_start as int),
            )),
            old(self).whole(chunk@, chunk_start as int) && old(self).wf(chunk@) ==> ({
                &&& final(self).wf(chunk@)
                &&& r == Result::<bool, GraphemeIncomplete>::Ok(is_grapheme_boundary(
                    chunk@,
                    old(self).spec_extended(),
                    char_idx(chunk@, old(self).spec_offset()),
                ))
            }),
    {
        let ghost s = chunk@;
        let ghost whole = old(self).whole(s, chunk_start as int) && old(self).wf(s);
        let ghost fresh = old(self).spec_decided() is None && old(self).spec_pre_context()
            is None && old(self).cat_before is None && old(self).cat_after is None && old(
            self,
        ).ris_count is None && chunk_start as int <= old(self).spec_offset() && old(
            self,
        ).spec_offset() < chunk_start as int + byte_len(chunk@);
        let ghost i = char_idx(s, old(self).spec_offset());
        let ghost ir = char_idx(s, old(self).spec_offset() - chunk_start as int);
        proof {
            if whole {
                lemma_char_idx(s, self.offset as int);
                lemma_bdy_ends(s);
                lemma_byte_pos_mono(s, 0, i);
                lemma_byte_pos_mono(s, i, s.len() as int);
                assert(ir == i);
            }
            if fresh {
                lemma_char_idx(s, old(self).spec_offset() - chunk_start as int);
                lemma_bdy_ends(s);
                lemma_byte_pos_mono(s, 0, ir);
                lemma_byte_pos_mono(s, ir, s.len() as int);
            }
        }
        let ghost exact = whole || fresh;
        if matches!(self.state, GraphemeState::Break) {
            return Ok(true);
        }
        if matches!(self.state, GraphemeState::NotBreak) {
            return Ok(false);
        }
        let clen = str_byte_len(chunk);
        if self.offset < chunk_start || self.offset >= chunk_start + clen {
            proof {
                if whole {
                    assert(i < s.len() || self.state == GraphemeState::Break);
                    assert(false);
                }
            }
            return Err(GraphemeIncomplete::InvalidOffset);
        }
        if self.pre_context_offset.is_some() {
            let p = self.pre_context_offset.unwrap();
            return Err(GraphemeIncomplete::PreContext(p));
        }
        let offset_in_chunk = self.offset - chunk_start;
        let ch_after = char_at(chunk, offset_in_chunk);
        proof {
            if exact {
                assert(ch_after == s[ir]);
            }
            if self.offset == chunk_start {
                lemma_bdy_ends(s);
                assert(ch_after == s[0]);
            }
        }
        if self.cat_after.is_none() {
            self.cat_after = Some(grapheme_category(ch_after));
        }
        if self.offset == chunk_start {
            proof {
                if whole {
                    assert(i == 0);
                    assert(old(self).state == GraphemeState::Break);
                    assert(false);
                }
            }
            let mut need_pre_context = true;
            match self.cat_after.unwrap() {
                GraphemeCat::GC_Control => {
                    if ch_after == '\n' {
                        self.state = GraphemeState::CheckCrlf;
                    } else {
                        need_pre_context = self.cat_before.is_none();
                    }
                },
                GraphemeCat::GC_Regional_Indicator => {
                    if self.cat_before.is_some() && self.ris_count.is_some() {
                        need_pre_context = false;
                    } else {
                        self.state = GraphemeState::Regional;
                    }
                },
                GraphemeCat::GC_E_Modifier => {
                    if self.cat_before.is_some() && !matches!(
                        self.cat_before,
                        Some(GraphemeCat::GC_Extend),
                    ) {
                        need_pre_context = false;
                    } else {
                        self.state = GraphemeState::Emoji;
                    }
                },
                _ => {
                    need_pre_context = self.cat_before.is_none();
                },
            }
            if need_pre_context {
                self.pre_context_offset = Some(chunk_start);
                return Err(GraphemeIncomplete::PreContext(chunk_start));
            }
        }
        proof {
            assert(self.offset == chunk_start ==> self.cat_before is Some);
        }
        if self.cat_before.is_none() {
            let ch_before = char_before(chunk, offset_in_chunk);
            proof {
                if exact {
                    assert(ch_before == s[ir - 1]);
                }
            }
            self.cat_before = Some(grapheme_category(ch_before));
        }
        match check_pair(self.cat_before.unwrap(), self.cat_after.unwrap()) {
            PairResult::NotBreak => self.decision(false),
            PairResult::Break => self.decision(true),
            PairResult::Extended => {
                let is_extended = self.is_extended;
                self.decision(!is_extended)
            },
            PairResult::CheckCrlf => {
                if ch_after != '\n' {
                    return self.decision(true);
                }
                if self.offset > chunk_start {
                    let ch_before = char_before(chunk, offset_in_chunk);
                    proof {
                        if exact {
                            assert(ch_before == s[ir - 1]);
                        }
                    }
                    return self.decision(ch_before != '\r');
                }
                self.state = GraphemeState::CheckCrlf;
                self.pre_context_offset = Some(chunk_start);
                Err(GraphemeIncomplete::PreContext(chunk_start))
            },
            PairResult::Regional => {
                if self.ris_count.is_some() {
                    let ris_count = self.ris_count.unwrap();
                    return self.decision((ris_count % 2) == 0);
                }
                let prefix = str_split(chunk, offset_in_chunk).0;
                proof {
                    assert(prefix@ == s.take(ir));
                    lemma_tail_ri_le(prefix@);
                    lemma_byte_pos_mono(prefix@, 0, prefix@.len() as int);
                    lemma_byte_pos_mono(chunk@, 0, chunk@.len() as int);
                    if char_idx(chunk@, offset_in_chunk as int) > chunk@.len() {
                        lemma_char_idx(chunk@, offset_in_chunk as int);
                    }
                }
                self.handle_regional(prefix, chunk_start);
                self.is_boundary_result()
            },
            PairResult::Emoji => {
                let prefix = str_split(chunk, offset_in_chunk).0;
                proof {
                    assert(prefix@ == s.take(ir));
                }
                self.handle_emoji(prefix, chunk_start);
                self.is_boundary_result()
            },
        }
    }

    /// Scan backwards over the regional indicators at the end of `chunk`,
    /// accumulating the confirmed count; decide the boundary by parity when
    /// the run provably ends (at a non-indicator, or at the start of the
    /// text), else request the pre-context that precedes `chunk`.
    #[verifier::loop_isolation(false)]
    fn handle_regional(&mut self, chunk: &str, chunk_start: usize)
        requires
            old(self).inv(),
            chunk_start as int + byte_len(chunk@) <= old(self).spec_offset(),
            old(self).spec_ris0() + chunk@.len() <= usize::MAX,
        ensures
            final(self).inv(),
            final(self).offset == old(self).offset,
            final(self).len == old(self).len,
            final(self).is_extended == old(self).is_extended,
            final(self).cat_before == old(self).cat_before,
            final(self).cat_after == old(self).cat_after,
            final(self).resuming == old(self).resuming,
            final(self).ris_count
                == Some((old(self).spec_ris0() + tail_ri_count(chunk@)) as usize),
            tail_ri_count(chunk@) < chunk@.len() || chunk_start == 0 ==> ({
                &&& final(self).pre_context_offset == old(self).pre_context_offset
                &&& final(self).state == (
                    if (old(self).spec_ris0() + tail_ri_count(chunk@)) % 2 == 0 {
                        GraphemeState::Break
                    } else {
                        GraphemeState::NotBreak
                    })
            }),
            tail_ri_count(chunk@) == chunk@.len() && chunk_start != 0 ==> ({
                &&& final(self).pre_context_offset == Some(chunk_start)
                &&& final(self).state == old(self).state
            }),
    {
        let ghost s = chunk@;
        proof {
            lemma_tail_ri_le(s);
            lemma_bdy_ends(s);
            lemma_byte_pos_mono(s, 0, s.len() as int);
        }
        let clen = str_byte_len(chunk);
        let mut pos: usize = clen;
        let mut ris_count: usize = match self.ris_count {
            Some(k) => k,
            None => 0,
        };
        loop
            invariant
                *self == *old(self),
                s == chunk@,
                clen as int == byte_len(s),
                pos <= clen,
                is_char_bdy(s, pos as int),
                forall|m: int| char_idx(s, pos as int) <= m < s.len()
                    ==> spec_grapheme_category(#[trigger] s[m])
                        == GraphemeCat::GC_Regional_Indicator,
                ris_count as int
                    == old(self).spec_ris0() + s.len() - char_idx(s, pos as int),
                old(self).spec_ris0() + s.len() <= usize::MAX,
            decreases pos,
        {
            proof {
                lemma_char_idx(s, pos as int);
            }
            if pos == 0 {
                break;
            }
            proof {
                if char_idx(s, pos as int) == 0 {
                    assert(byte_pos(s, 0) == 0);
                    assert(false);
                }
            }
            let ch = char_before(chunk, pos);
            let is_ri = matches!(grapheme_category(ch), GraphemeCat::GC_Regional_Indicator);
            if !is_ri {
                proof {
                    let j = char_idx(s, pos as int);
                    lemma_tail_ri_split(s, j);
                    assert(s.take(j).last() == s[j - 1]);
                    assert(tail_ri_count(s.take(j)) == 0);
                    assert(tail_ri_count(s) == s.len() - j);
                    lemma_char_idx(s, pos as int);
                    lemma_byte_pos_mono(s, j, s.len() as int);
                }
                self.ris_count = Some(ris_count);
                self.decide((ris_count % 2) == 0);
                return;
            }
            proof {
                lemma_bdy_step_back(s, pos as int);
            }
            let w = char_width(ch);
            pos = pos - w;
            ris_count = ris_count + 1;
        }
        proof {
            lemma_tail_ri_split(s, 0);
            assert(s.take(0) =~= Seq::<char>::empty());
            assert(tail_ri_count(s) == s.len());
        }
        self.ris_count = Some(ris_count);
        if chunk_start == 0 {
            self.decide((ris_count % 2) == 0);
            return;
        }
        self.pre_context_offset = Some(chunk_start);
    }

    /// Scan backwards over the extend characters at the end of `chunk`;
    /// decide the boundary by whether an emoji base precedes them when the
    /// run provably ends, else request the pre-context that precedes
    /// `chunk`.
    #[verifier::loop_isolation(false)]
    fn handle_emoji(&mut self, chunk: &str, chunk_start: usize)
        requires
            old(self).inv(),
            chunk_start as int + byte_len(chunk@) <= old(self).spec_offset(),
        ensures
            final(self).inv(),
            final(self).offset == old(self).offset,
            final(self).len == old(self).len,
            final(self).is_extended == old(self).is_extended,
            final(self).cat_before == old(self).cat_before,
            final(self).cat_after == old(self).cat_after,
            final(self).ris_count == old(self).ris_count,
            final(self).resuming == old(self).resuming,
            !all_extend(chunk@) || chunk_start == 0 ==> ({
                &&& final(self).pre_context_offset == old(self).pre_context_offset
                &&& final(self).state == (
                    if emoji_lookback(chunk@) {
                        GraphemeState::NotBreak
                    } else {
                        GraphemeState::Break
                    })
            }),
            all_extend(chunk@) && chunk_start != 0 ==> ({
                &&& final(self).pre_context_offset == Some(chunk_start)
                &&& final(self).state == old(self).state
            }),
    {
        let ghost s = chunk@;
        proof {
            lemma_bdy_ends(s);
            lemma_byte_pos_mono(s, 0, s.len() as int);
        }
        let clen = str_byte_len(chunk);
        let mut pos: usize = clen;
        loop
            invariant
                *self == *old(self),
                s == chunk@,
                clen as int == byte_len(s),
                pos <= clen,
                is_char_bdy(s, pos as int),
                forall|m: int| char_idx(s, pos as int) <= m < s.len()
                    ==> spec_grapheme_category(#[trigger] s[m]) == GraphemeCat::GC_Extend,
            decreases pos,
        {
            proof {
                lemma_char_idx(s, pos as int);
            }
            if pos == 0 {
                break;
            }
            proof {
                if char_idx(s, pos as int) == 0 {
                    assert(byte_pos(s, 0) == 0);
                    assert(false);
                }
            }
            let ch = char_before(chunk, pos);
            match grapheme_category(ch) {
                GraphemeCat::GC_Extend => {
                    proof {
                        lemma_bdy_step_back(s, pos as int);
                    }
                    let w = char_width(ch);
                    pos = pos - w;
                }
                GraphemeCat::GC_E_Base | GraphemeCat::GC_E_Base_GAZ => {
                    proof {
                        let j = char_idx(s, pos as int);
                        lemma_emoji_split(s, j);
                        assert(s.take(j).last() == s[j - 1]);
                        assert(emoji_lookback(s));
                        assert(!all_extend(s));
                    }
                    self.decide(false);
                    return;
                }
                _ => {
                    proof {
                        let j = char_idx(s, pos as int);
                        lemma_emoji_split(s, j);
                        assert(s.take(j).last() == s[j - 1]);
                        assert(!emoji_lookback(s));
                        assert(!all_extend(s));
                    }
                    self.decide(true);
                    return;
                }
            }
        }
        proof {
            lemma_emoji_split(s, 0);
            assert(s.take(0) =~= Seq::<char>::empty());
            assert(!emoji_lookback(s));
        }
        if chunk_start == 0 {
            self.decide(true);
            return;
        }
        self.pre_context_offset = Some(chunk_start);
    }

    fn decision(&mut self, is_break: bool) -> (r: Result<bool, GraphemeIncomplete>)
        ensures
            *final(self) == (GraphemeCursor {
                state: if is_break { GraphemeState::Break } else { GraphemeState::NotBreak },
                ..*old(self)
            }),
            r == Result::<bool, GraphemeIncomplete>::Ok(is_break),
    {
        self.decide(is_break);
        Ok(is_break)
    }
}

/// External iterator for a string's grapheme clusters, in both directions.
///
/// It is driven by two [`GraphemeCursor`]s, one walking forward from the
/// start and one walking backward from the end of the yet-unvisited part.
#[derive(Clone)]
pub struct Graphemes<'a> {
    string: &'a str,
    cursor: GraphemeCursor,
    cursor_back: GraphemeCursor,
}

impl<'a> Graphemes<'a> {
    /// The text being segmented.
    pub closed spec fn spec_text(&self) -> Seq<char> {
        self.string@
    }

    /// Whether extended (rather than legacy) clusters are selected.
    pub closed spec fn spec_extended(&self) -> bool {
        self.cursor.spec_extended()
    }

    /// Character index of the front of the yet-unvisited part.
    pub closed spec fn spec_start(&self) -> int {
        char_idx(self.string@, self.cursor.spec_offset())
    }

    /// Character index of the back of the yet-unvisited part.
    pub closed spec fn spec_end(&self) -> int {
        char_idx(self.string@, self.cursor_back.spec_offset())
    }

    /// The iterator's two cursors rest on cluster boundaries of the text,
    /// the front one at or before the back one.
    pub closed spec fn wf(&self) -> bool {
        let s = self.string@;
        &&& self.cursor.wf(s)
        &&& self.cursor_back.wf(s)
        &&& !self.cursor.spec_resuming()
        &&& !self.cursor_back.spec_resuming()
        &&& self.cursor.spec_extended() == self.cursor_back.spec_extended()
        &&& self.cursor.spec_offset() <= self.cursor_back.spec_offset()
        &&& is_grapheme_boundary(s, self.spec_extended(), self.spec_start())
        &&& is_grapheme_boundary(s, self.spec_extended(), self.spec_end())
        &&& byte_len(s) <= usize::MAX / 2
    }

    /// View the underlying data (the part yet to be iterated) as a slice of
    /// the original string.
    pub fn as_str(&self) -> (r: &'a str)
        requires
            self.wf(),
        ensures
            r@ == self.spec_text().subrange(self.spec_start(), self.spec_end()),
    {
        proof {
            lemma_char_idx(self.string@, self.cursor.spec_offset());
            lemma_char_idx(self.string@, self.cursor_back.spec_offset());
            if self.spec_end() < self.spec_start() {
                lemma_byte_pos_mono(self.string@, self.spec_end(), self.spec_start());
            }
        }
        str_slice(self.string, self.cursor.cur_cursor(), self.cursor_back.cur_cursor())
    }

    /// Bounds on the number of clusters yet to be yielded: at least one per
    /// remaining non-empty text, at most one per remaining byte.
    pub fn size_hint(&self) -> (r: (usize, Option<usize>))
        requires
            self.wf(),
        ensures
            ({
                let slen = byte_pos(self.spec_text(), self.spec_end()) - byte_pos(
                    self.spec_text(),
                    self.spec_start(),
                );
                &&& r.1 == Some(slen as usize)
                &&& r.0 == if slen < 1 { slen } else { 1int }
                &&& self.spec_end() == self.spec_text().len() ==> ({
                    let n = clusters_from(
                        self.spec_text(),
                        self.spec_extended(),
                        self.spec_start(),
                    ).len();
                    r.0 <= n <= slen
                })
            }),
    {
        proof {
            let s = self.string@;
            lemma_char_idx(s, self.cursor.spec_offset());
            lemma_char_idx(s, self.cursor_back.spec_offset());
            if self.spec_end() == s.len() {
                lemma_cluster_count_from(s, self.spec_extended(), self.spec_start());
                lemma_byte_pos_mono(s, self.spec_start(), s.len() as int);
            }
        }
        let slen = self.cursor_back.cur_cursor() - self.cursor.cur_cursor();
        let lower = if slen < 1 {
            slen
        } else {
            1
        };
        (lower, Some(slen))
    }

    /// Yield the next cluster from the front: the slice of the text between
    /// the front boundary and the first boundary after it.
    pub fn next(&mut self) -> (r: Option<&'a str>)
        requires
            old(self).wf(),
        ensures
            final(self).wf(),
            final(self).spec_text() == old(self).spec_text(),
            final(self).spec_extended() == old(self).spec_extended(),
            final(self).spec_end() == old(self).spec_end(),
            old(self).spec_start() == old(self).spec_end() ==> (r is None && *final(self)
                == *old(self)),
            old(self).spec_start() != old(self).spec_end() ==> ({
                let nb = next_boundary_spec(
                    old(self).spec_text(),
                    old(self).spec_extended(),
                    old(self).spec_start(),
                );
                &&& r matches Some(g)
                &&& g@ == old(self).spec_text().subrange(old(self).spec_start(), nb)
                &&& final(self).spec_start() == nb
                &&& nb <= old(self).spec_end()
            }),
    {
        let ghost s = self.string@;
        let ghost ext = old(self).spec_extended();
        let ghost i0 = old(self).spec_start();
        let ghost iend = old(self).spec_end();
        let start = self.cursor.cur_cursor();
        let back = self.cursor_back.cur_cursor();
        proof {
            lemma_char_idx(s, self.cursor.spec_offset());
            lemma_char_idx(s, self.cursor_back.spec_offset());
        }
        if start == back {
            return None;
        }
        proof {
            lemma_byte_pos_mono(s, iend, s.len() as int);
            lemma_byte_pos_mono(s, 0, i0);
            if iend < i0 {
                lemma_byte_pos_mono(s, iend, i0);
                assert(false);
            }
            if i0 == iend {
                assert(false);
            }
            lemma_byte_pos_mono(s, i0, iend);
            lemma_next_boundary(s, ext, i0);
            match self.cursor.ris_count {
                Some(k) => {
                    lemma_tail_ri_le(s.take(i0));
                    lemma_byte_pos_mono(s, i0, s.len() as int);
                },
                None => {},
            }
        }
        let next = self.cursor.next_boundary(self.string, 0).unwrap().unwrap();
        proof {
            let nb = next_boundary_spec(s, ext, i0);
            lemma_char_idx_of_pos(s, nb);
            if iend < nb {
                assert(!is_grapheme_boundary(s, ext, iend));
            }
            lemma_byte_pos_mono(s, i0, nb);
            lemma_byte_pos_mono(s, nb, iend);
            lemma_byte_pos_mono(s, 0, nb);
        }
        Some(str_slice(self.string, start, next))
    }

    /// Yield the next cluster from the back: the slice of the text between
    /// the last boundary before the back boundary and the back boundary.
    pub fn next_back(&mut self) -> (r: Option<&'a str>)
        requires
            old(self).wf(),
        ensures
            final(self).wf(),
            final(self).spec_text() == old(self).spec_text(),
            final(self).spec_extended() == old(self).spec_extended(),
            final(self).spec_start() == old(self).spec_start(),
            old(self).spec_start() == old(self).spec_end() ==> (r is None && *final(self)
                == *old(self)),
            old(self).spec_start() != old(self).spec_end() ==> ({
                let pb = prev_boundary_spec(
                    old(self).spec_text(),
                    old(self).spec_extended(),
                    old(self).spec_end(),
                );
                &&& r matches Some(g)
                &&& g@ == old(self).spec_text().subrange(pb, old(self).spec_end())
                &&& final(self).spec_end() == pb
                &&& pb >= old(self).spec_start()
            }),
    {
        let ghost s = self.string@;
        let ghost ext = old(self).spec_extended();
        let ghost i0 = old(self).spec_start();
        let ghost iend = old(self).spec_end();
        let start = self.cursor.cur_cursor();
        let end = self.cursor_back.cur_cursor();
        proof {
            lemma_char_idx(s, self.cursor.spec_offset());
            lemma_char_idx(s, self.cursor_back.spec_offset());
        }
        if end == start {
            return None;
        }
        proof {
            lemma_byte_pos_mono(s, 0, i0);
            if iend < i0 {
                lemma_byte_pos_mono(s, iend, i0);
                assert(false);
            }
            if i0 == iend {
                assert(false);
            }
            lemma_byte_pos_mono(s, i0, iend);
            lemma_prev_boundary(s, ext, iend);
        }
        let prev = self.cursor_back.prev_boundary(self.string, 0).unwrap().unwrap();
        proof {
            let pb = prev_boundary_spec(s, ext, iend);
            lemma_char_idx_of_pos(s, pb);
            if pb < i0 {
                assert(!is_grapheme_boundary(s, ext, i0));
            }
            lemma_byte_pos_mono(s, i0, pb);
            lemma_byte_pos_mono(s, pb, iend);
            lemma_byte_pos_mono(s, pb, s.len() as int);
        }
        Some(str_slice(self.string, prev, end))
    }
}

/// Create a grapheme-cluster iterator over the whole of `s`, yielding
/// extended clusters when `is_extended` is set and legacy clusters
/// otherwise.
///
/// The byte-length bound is a machine limit: a slice can span at most half
/// the address space, and the bound keeps every counter the cursors carry
/// clear of overflow.
pub fn new_graphemes<'b>(s: &'b str, is_extended: bool) -> (r: Graphemes<'b>)
    requires
        byte_len(s@) <= usize::MAX / 2,
    ensures
        r.wf(),
        r.spec_text() == s@,
        r.spec_extended() == is_extended,
        r.spec_start() == 0,
        r.spec_end() == s@.len(),
{
    let len = str_byte_len(s);
    let r = Graphemes {
        string: s,
        cursor: GraphemeCursor::new(0, len, is_extended),
        cursor_back: GraphemeCursor::new(len, len, is_extended),
    };
    proof {
        lemma_bdy_ends(s@);
        lemma_byte_pos_mono(s@, 0, s@.len() as int);
    }
    r
}

/// External iterator for grapheme clusters and the byte offsets at which
/// they start.
#[derive(Clone)]
pub struct GraphemeIndices<'a> {
    iter: Graphemes<'a>,
}

impl<'a> GraphemeIndices<'a> {
    /// The text being segmented.
    pub closed spec fn spec_text(&self) -> Seq<char> {
        self.iter.spec_text()
    }

    /// Whether extended (rather than legacy) clusters are selected.
    pub closed spec fn spec_extended(&self) -> bool {
        self.iter.spec_extended()
    }

    /// Character index of the front of the yet-unvisited part.
    pub closed spec fn spec_start(&self) -> int {
        self.iter.spec_start()
    }

    /// Character index of the back of the yet-unvisited part.
    pub closed spec fn spec_end(&self) -> int {
        self.iter.spec_end()
    }

    /// The underlying iterator is well-formed.
    pub closed spec fn wf(&self) -> bool {
        self.iter.wf()
    }

    /// View the underlying data (the part yet to be iterated) as a slice of
    /// the original string.
    pub fn as_str(&self) -> (r: &'a str)
        requires
            self.wf(),
        ensures
            r@ == self.spec_text().subrange(self.spec_start(), self.spec_end()),
    {
        self.iter.as_str()
    }

    /// Bounds on the number of clusters yet to be yielded.
    pub fn size_hint(&self) -> (r: (usize, Option<usize>))
        requires
            self.wf(),
        ensures
            ({
                let slen = byte_pos(self.spec_text(), self.spec_end()) - byte_pos(
                    self.spec_text(),
                    self.spec_start(),
                );
                &&& r.1 == Some(slen as usize)
                &&& r.0 == if slen < 1 { slen } else { 1int }
            }),
    {
        proof {
            lemma_char_idx(self.iter.string@, self.iter.cursor.spec_offset());
            lemma_char_idx(self.iter.string@, self.iter.cursor_back.spec_offset());
        }
        self.iter.size_hint()
    }

    /// Yield the next cluster from the front, paired with the byte offset
    /// at which it starts; the slice equals the text between that offset
    /// and the next boundary.
    pub fn next(&mut self) -> (r: Option<(usize, &'a str)>)
        requires
            old(self).wf(),
        ensures
            final(self).wf(),
            final(self).spec_text() == old(self).spec_text(),
            final(self).spec_extended() == old(self).spec_extended(),
            final(self).spec_end() == old(self).spec_end(),
            old(self).spec_start() == old(self).spec_end() ==> (r is None && *final(self)
                == *old(self)),
            old(self).spec_start() != old(self).spec_end() ==> ({
                let nb = next_boundary_spec(
                    old(self).spec_text(),
                    old(self).spec_extended(),
                    old(self).spec_start(),
                );
                &&& r matches Some(p)
                &&& p.0 as int == byte_pos(old(self).spec_text(), old(self).spec_start())
                &&& p.1@ == old(self).spec_text().subrange(old(self).spec_start(), nb)
                &&& final(self).spec_start() == nb
                &&& nb <= old(self).spec_end()
            }),
    {
        proof {
            lemma_char_idx(self.iter.string@, self.iter.cursor.spec_offset());
        }
        let off = self.iter.cursor.cur_cursor();
        match self.iter.next() {
            Some(g) => Some((off, g)),
            None => None,
        }
    }

    /// Yield the next cluster from the back, paired with the byte offset at
    /// which it starts.
    pub fn next_back(&mut self) -> (r: Option<(usize, &'a str)>)
        requires
            old(self).wf(),
        ensures
            final(self).wf(),
            final(self).spec_text() == old(self).spec_text(),
            final(self).spec_extended() == old(self).spec_extended(),
            final(self).spec_start() == old(self).spec_start(),
            old(self).spec_start() == old(self).spec_end() ==> (r is None && *final(self)
                == *old(self)),
            old(self).spec_start() != old(self).spec_end() ==> ({
                let pb = prev_boundary_spec(
                    old(self).spec_text(),
                    old(self).spec_extended(),
                    old(self).spec_end(),
                );
                &&& r matches Some(p)
                &&& p.0 as int == byte_pos(old(self).spec_text(), pb)
                &&& p.1@ == old(self).spec_text().subrange(pb, old(self).spec_end())
                &&& final(self).spec_end() == pb
                &&& pb >= old(self).spec_start()
            }),
    {
        match self.iter.next_back() {
            Some(g) => {
                proof {
                    lemma_char_idx(self.iter.string@, self.iter.cursor_back.spec_offset());
                }
                let off = self.iter.cursor_back.cur_cursor();
                Some((off, g))
            },
            None => None,
        }
    }
}

/// Create an iterator over the grapheme clusters of `s` and their byte
/// offsets.
///
/// The byte-length bound is a machine limit, as for [`new_graphemes`].
pub fn new_grapheme_indices<'b>(s: &'b str, is_extended: bool) -> (r: GraphemeIndices<'b>)
    requires
        byte_len(s@) <= usize::MAX / 2,
    ensures
        r.wf(),
        r.spec_text() == s@,
        r.spec_extended() == is_extended,
        r.spec_start() == 0,
        r.spec_end() == s@.len(),
{
    GraphemeIndices { iter: new_graphemes(s, is_extended) }
}

} // verus!
