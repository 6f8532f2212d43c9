//! What holds over whole runs: of keystrokes on a line, of the rounds of a
//! read, and of every frame.

use vstd::prelude::*;
use crate::engine::{lemma_feed_wf, lemma_undo_wf, word_ends, Engine, SessionError};
use crate::glyph::{is_ascii_byte, spec_accepts, NEWLINE};
use crate::ipsum::{reads, run, Filling};
use crate::render::frame;
use crate::source::ReadOutcome;

verus! {

/// One thing a user does to the line: type a character, or take one back.
pub enum Stroke {
    Feed(char),
    Undo,
}

/// The engine after `strokes`, in their order.
pub open spec fn replay(e: Engine, strokes: Seq<Stroke>) -> Engine
    decreases strokes.len(),
{
    if strokes.len() == 0 {
        e
    } else {
        let before = replay(e, strokes.drop_last());
        match strokes.last() {
            Stroke::Feed(c) => before.feed(c),
            Stroke::Undo => before.undo(),
        }
    }
}

/// The engine after each character of `typed` is fed, in their order.
pub open spec fn feed_all(e: Engine, typed: Seq<char>) -> Engine
    decreases typed.len(),
{
    if typed.len() == 0 {
        e
    } else {
        feed_all(e, typed.drop_last()).feed(typed.last())
    }
}

/// Whatever is typed and taken back, the engine stays well-formed, the line
/// stays the same, and the keystrokes and words settled on earlier lines stay
/// as they were.
pub proof fn law_replay_keeps_settled(e: Engine, strokes: Seq<Stroke>)
    requires
        e.wf(),
    ensures
        replay(e, strokes).wf(),
        replay(e, strokes).line == e.line,
        replay(e, strokes).settled() == e.settled(),
        replay(e, strokes).settled_words() == e.settled_words(),
    decreases strokes.len(),
{
    if strokes.len() > 0 {
        let before = replay(e, strokes.drop_last());
        law_replay_keeps_settled(e, strokes.drop_last());
        match strokes.last() {
            Stroke::Feed(c) => lemma_feed_wf(before, c),
            Stroke::Undo => lemma_undo_wf(before),
        }
    }
}

/// On a line on which every counted keystroke is in the record, whatever is
/// typed and taken back, the accepted and the rejected keystrokes together
/// are as many as the record is long.
pub proof fn law_counters_match_record(e: Engine, strokes: Seq<Stroke>)
    requires
        e.wf(),
        e.right + e.wrong == e.record.len(),
    ensures
        replay(e, strokes).right + replay(e, strokes).wrong == replay(e, strokes).record.len(),
{
    law_replay_keeps_settled(e, strokes);
}

/// Taking back a keystroke that was judged restores the engine exactly: the
/// record, both counters and the word count.
pub proof fn law_undo_inverts_feed(e: Engine, c: char)
    requires
        e.record.len() < e.line.len(),
    ensures
        e.feed(c).undo() == e,
{
    let ok = spec_accepts(e.line[e.record.len() as int], c);
    assert(e.record.push(ok).drop_last() =~= e.record);
}

/// The expected character itself is always accepted.
pub proof fn law_expected_is_accepted(e: Engine, c: char)
    requires
        e.record.len() < e.line.len(),
        c == e.line[e.record.len() as int] as char,
    ensures
        e.feed(c).record == e.record.push(true),
        e.feed(c).right == e.right + 1,
        e.feed(c).wrong == e.wrong,
{
}

/// Where an ASCII byte other than the line break is expected, any other
/// character is rejected.
pub proof fn law_mismatch_is_rejected(e: Engine, c: char)
    requires
        e.record.len() < e.line.len(),
        is_ascii_byte(e.line[e.record.len() as int]),
        e.line[e.record.len() as int] != NEWLINE,
        c != e.line[e.record.len() as int] as char,
    ensures
        e.feed(c).record == e.record.push(false),
        e.feed(c).right == e.right,
        e.feed(c).wrong == e.wrong + 1,
{
}

/// Where a byte outside ASCII is expected, every character is accepted.
pub proof fn law_non_ascii_is_lenient(e: Engine, c: char)
    requires
        e.record.len() < e.line.len(),
        !is_ascii_byte(e.line[e.record.len() as int]),
    ensures
        e.feed(c).record == e.record.push(true),
        e.feed(c).right == e.right + 1,
        e.feed(c).wrong == e.wrong,
{
}

/// Feeding characters that all find room on the line counts each word end
/// that they pass once, whatever the characters are and however they are
/// judged.
pub proof fn law_words_follow_line(e: Engine, typed: Seq<char>)
    requires
        e.record.len() + typed.len() <= e.line.len(),
    ensures
        feed_all(e, typed).line == e.line,
        feed_all(e, typed).record.len() == e.record.len() + typed.len(),
        feed_all(e, typed).words + word_ends(e.line, e.record.len()) == e.words + word_ends(
            e.line,
            e.record.len() + typed.len(),
        ),
    decreases typed.len(),
{
    if typed.len() > 0 {
        law_words_follow_line(e, typed.drop_last());
    }
}

/// The next line is never longer than what is asked for, which is the width
/// or the budget that is left, whichever is less; and with nothing to ask
/// for, a full line ends the session as a reached budget, whatever the source
/// would have said.
pub proof fn law_request_bounds_line(e: Engine, outcome: ReadOutcome)
    requires
        e.wf(),
    ensures
        e.request() <= e.width,
        e.request() <= e.total - e.right - e.wrong,
        e.request() == e.width || e.request() == e.total - e.right - e.wrong,
        e.next_line(outcome.bytes()).len() <= e.request(),
        e.full() && e.request() == 0 ==> e.advance_result(outcome) == Err::<(), SessionError>(
            SessionError::BudgetReached,
        ) && e.advance(outcome) == e,
{
}

/// Going on from a full line to a next one settles the full line: its
/// keystrokes and its word ends are counted as settled from then on, and no
/// counter moves.
pub proof fn law_advance_settles_line(e: Engine, outcome: ReadOutcome)
    requires
        e.wf(),
        e.advance_result(outcome) is Ok,
        e.full(),
    ensures
        e.advance(outcome).record.len() == 0,
        e.advance(outcome).line == e.next_line(outcome.bytes()),
        e.advance(outcome).line.len() > 0,
        e.advance(outcome).settled() == e.settled() + e.line.len(),
        e.advance(outcome).settled_words() == e.settled_words() + word_ends(e.line, e.line.len()),
        e.advance(outcome).right == e.right,
        e.advance(outcome).wrong == e.wrong,
        e.advance(outcome).words == e.words,
{
}

/// Rounds never gather more than the read asks for.
pub proof fn law_rounds_keep_within_max(f: Filling, max: nat, words: Seq<Seq<u8>>)
    requires
        f.out.len() <= max,
    ensures
        run(f, max, words).out.len() <= max,
    decreases words.len(),
{
    if words.len() > 0 {
        law_rounds_keep_within_max(f, max, words.drop_last());
    }
}

/// A generated source has no end: while the chain gives words that are not
/// empty, a read gathers exactly as many bytes as it was asked for, however
/// many rounds leave nothing waiting. Left out is only a read of more rounds
/// than a machine word counts.
pub proof fn law_generated_text_fills_the_read(
    pending: Seq<u8>,
    max: nat,
    words: Seq<Seq<u8>>,
    out: Seq<u8>,
    left: Seq<u8>,
)
    requires
        reads(pending, max, words, out, left),
        forall|i: int| 0 <= i < words.len() ==> (#[trigger] words[i]).len() > 0,
        words.len() < usize::MAX,
    ensures
        out.len() == max,
{
    law_rounds_keep_within_max(Filling { out: Seq::empty(), pending }, max, words);
}

/// A frame is empty exactly where the terminal is too narrow for the line
/// and its two borders.
pub proof fn law_narrow_terminal_paints_nothing(e: Engine, available: nat, nanos: nat)
    ensures
        frame(e, available, nanos).len() == 0 <==> available < e.width + 2,
{
}

} // verus!
