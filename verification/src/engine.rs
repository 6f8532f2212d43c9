//! The judgment engine: the practice line, the record of judged keystrokes
//! and the session's counters.

use vstd::prelude::*;
use crate::clock::now;
use crate::glyph::{accepts, spec_accepts, SPACE};
use crate::source::{ReadOutcome, TextSource};

verus! {

/// The widest practice line that can be configured.
pub const MAX_WIDTH: usize = 1024;

/// Why a session cannot start or go on.
#[derive(Debug, Clone, Copy, PartialEq, Eq, Structural)]
pub enum SessionError {
    /// The configured width is over `MAX_WIDTH`.
    ConfigError,
    /// The text source could not be read.
    SourceError,
    /// The text source has no more text. A regular end of the session.
    ExhaustedSource,
    /// The character budget is used up. A regular end of the session.
    BudgetReached,
}

/// The number of accepted keystrokes in a record.
pub open spec fn hits(record: Seq<bool>) -> nat
    decreases record.len(),
{
    if record.len() == 0 {
        0
    } else {
        hits(record.drop_last()) + if record.last() { 1nat } else { 0nat }
    }
}

/// The number of rejected keystrokes in a record.
pub open spec fn misses(record: Seq<bool>) -> nat {
    (record.len() - hits(record)) as nat
}

/// Whether a word ends at position `i` of `line`: a space stands there, right
/// after a byte that is no space.
pub open spec fn word_ends_at(line: Seq<u8>, i: int) -> bool {
    0 < i < line.len() && line[i] == SPACE && line[i - 1] != SPACE
}

/// The number of positions below `upto` at which a word of `line` ends.
pub open spec fn word_ends(line: Seq<u8>, upto: nat) -> nat
    decreases upto,
{
    if upto == 0 {
        0
    } else {
        word_ends(line, (upto - 1) as nat) + if word_ends_at(line, upto - 1) { 1nat } else { 0nat }
    }
}

/// The engine as a mathematical value.
pub struct Engine {
    /// The configured line width.
    pub width: nat,
    /// The character budget of the whole session.
    pub total: nat,
    /// Keystrokes accepted so far.
    pub right: nat,
    /// Keystrokes rejected so far.
    pub wrong: nat,
    /// Words completed so far.
    pub words: nat,
    /// The bytes expected on the current line.
    pub line: Seq<u8>,
    /// One judgment for each position of the line typed so far.
    pub record: Seq<bool>,
}

impl Engine {
    /// The state at the start of a session whose first line is `line`.
    pub open spec fn start(width: nat, total: nat, line: Seq<u8>) -> Engine {
        Engine { width, total, right: 0, wrong: 0, words: 0, line, record: Seq::empty() }
    }

    /// Whether every position of the line has been judged.
    pub open spec fn full(self) -> bool {
        self.record.len() == self.line.len()
    }

    /// Keystrokes judged on the lines before the current one.
    pub open spec fn settled(self) -> int {
        self.right + self.wrong - self.record.len()
    }

    /// Words completed on the lines before the current one.
    pub open spec fn settled_words(self) -> int {
        self.words - word_ends(self.line, self.record.len())
    }

    /// What holds of the engine in every state that a session reaches.
    pub open spec fn wf(self) -> bool {
        &&& self.width <= MAX_WIDTH
        &&& self.record.len() <= self.line.len() <= self.width
        &&& hits(self.record) <= self.right
        &&& misses(self.record) <= self.wrong
        &&& self.settled() + self.line.len() <= self.total
        &&& 0 <= self.settled_words() <= self.settled()
    }

    /// The characters of the budget that are not judged yet.
    pub open spec fn budget_left(self) -> nat {
        if self.right + self.wrong <= self.total {
            (self.total - self.right - self.wrong) as nat
        } else {
            0
        }
    }

    /// The number of bytes asked of the text source for the next line.
    pub open spec fn request(self) -> nat {
        if self.width <= self.budget_left() {
            self.width
        } else {
            self.budget_left()
        }
    }

    /// The state after the keystroke `c`.
    pub open spec fn feed(self, c: char) -> Engine {
        if self.record.len() < self.line.len() {
            let at = self.record.len() as int;
            let ok = spec_accepts(self.line[at], c);
            Engine {
                right: if ok { self.right + 1 } else { self.right },
                wrong: if ok { self.wrong } else { self.wrong + 1 },
                words: if word_ends_at(self.line, at) { self.words + 1 } else { self.words },
                record: self.record.push(ok),
                ..self
            }
        } else {
            self
        }
    }

    /// The state after the last judgment is taken back.
    pub open spec fn undo(self) -> Engine {
        if self.record.len() > 0 {
            let at = self.record.len() - 1;
            let ok = self.record.last();
            Engine {
                right: if ok && self.right > 0 { (self.right - 1) as nat } else { self.right },
                wrong: if !ok && self.wrong > 0 { (self.wrong - 1) as nat } else { self.wrong },
                words: if word_ends_at(self.line, at) && self.words > 0 {
                    (self.words - 1) as nat
                } else {
                    self.words
                },
                record: self.record.drop_last(),
                ..self
            }
        } else {
            self
        }
    }

    /// The line that the bytes `read` become: as many of them as were asked for.
    pub open spec fn next_line(self, read: Seq<u8>) -> Seq<u8> {
        if read.len() <= self.request() {
            read
        } else {
            read.take(self.request() as int)
        }
    }

    /// The state after an attempt to go on to the next line, for which the
    /// text source handed back `outcome`.
    pub open spec fn advance(self, outcome: ReadOutcome) -> Engine {
        if self.full() && self.request() > 0 && outcome.bytes().len() > 0 {
            Engine { line: self.next_line(outcome.bytes()), record: Seq::empty(), ..self }
        } else {
            self
        }
    }

    /// What an attempt to go on to the next line reports.
    pub open spec fn advance_result(self, outcome: ReadOutcome) -> Result<(), SessionError> {
        if !self.full() {
            Ok(())
        } else if self.request() == 0 {
            Err(SessionError::BudgetReached)
        } else if outcome is Failed {
            Err(SessionError::SourceError)
        } else if outcome.bytes().len() == 0 {
            Err(SessionError::ExhaustedSource)
        } else {
            Ok(())
        }
    }
}

/// Pushing one judgment adds it to the hits or to the misses.
pub proof fn lemma_hits_push(record: Seq<bool>, ok: bool)
    ensures
        hits(record.push(ok)) == hits(record) + if ok { 1nat } else { 0nat },
        misses(record.push(ok)) == misses(record) + if ok { 0nat } else { 1nat },
        hits(record) <= record.len(),
    decreases record.len(),
{
    assert(record.push(ok).drop_last() =~= record);
    if record.len() > 0 {
        lemma_hits_push(record.drop_last(), record.last());
    }
}

/// Fewer words end below a position than there are positions below it.
pub proof fn lemma_word_ends_bound(line: Seq<u8>, upto: nat)
    ensures
        word_ends(line, upto) <= upto,
    decreases upto,
{
    if upto > 0 {
        lemma_word_ends_bound(line, (upto - 1) as nat);
    }
}

/// A keystroke leaves a well-formed engine well-formed, and leaves what was
/// settled on earlier lines as it was.
pub proof fn lemma_feed_wf(e: Engine, c: char)
    requires
        e.wf(),
    ensures
        e.feed(c).wf(),
        e.feed(c).settled() == e.settled(),
        e.feed(c).settled_words() == e.settled_words(),
{
    if e.record.len() < e.line.len() {
        let ok = spec_accepts(e.line[e.record.len() as int], c);
        lemma_hits_push(e.record, ok);
    }
}

/// Taking a judgment back leaves a well-formed engine well-formed, and leaves
/// what was settled on earlier lines as it was.
pub proof fn lemma_undo_wf(e: Engine)
    requires
        e.wf(),
    ensures
        e.undo().wf(),
        e.undo().settled() == e.settled(),
        e.undo().settled_words() == e.settled_words(),
{
    if e.record.len() > 0 {
        lemma_hits_push(e.record.drop_last(), e.record.last());
    }
}

/// Going on to the next line leaves a well-formed engine well-formed.
pub proof fn lemma_advance_wf(e: Engine, outcome: ReadOutcome)
    requires
        e.wf(),
    ensures
        e.advance(outcome).wf(),
{
    lemma_word_ends_bound(e.line, e.line.len());
}

/// The number of bytes that a session asks of its text source for its first line.
pub open spec fn first_request(width: usize, total: usize) -> usize {
    if width <= total {
        width
    } else {
        total
    }
}

/// A typing session's engine over the text source `R`.
pub struct App<R> {
    width: usize,
    start: std::time::Instant,
    right: usize,
    wrong: usize,
    words: usize,
    total: usize,
    buf: Vec<u8>,
    acc: Vec<bool>,
    gen: R,
}

impl<R> View for App<R> {
    type V = Engine;

    closed spec fn view(&self) -> Engine {
        Engine {
            width: self.width as nat,
            total: self.total as nat,
            right: self.right as nat,
            wrong: self.wrong as nat,
            words: self.words as nat,
            line: self.buf@,
            record: self.acc@,
        }
    }
}

impl<R> App<R> {
    /// The text source that the lines are read from.
    pub closed spec fn source(&self) -> R {
        self.gen
    }

    /// The instant at which the session started.
    pub closed spec fn started(&self) -> std::time::Instant {
        self.start
    }

    /// What holds of the engine in every state that a session reaches.
    pub open spec fn wf(&self) -> bool {
        self@.wf()
    }

    /// Whether `other` differs from this engine in nothing but its state.
    pub open spec fn same_session(&self, other: &Self) -> bool {
        self.source() == other.source() && self.started() == other.started()
    }

    /// Takes back the last judgment, if there is one.
    pub fn uneat(&mut self)
        requires
            old(self).wf(),
        ensures
            final(self).wf(),
            final(self)@ == old(self)@.undo(),
            final(self).same_session(old(self)),
    {
        let n = self.acc.len();
        if n > 0 {
            proof {
                lemma_hits_push(self.acc@.drop_last(), self.acc@.last());
            }
            if n > 1 && self.buf[n - 1] == SPACE && self.buf[n - 2] != SPACE {
                self.words = self.words - 1;
            }
            let ok = self.acc[n - 1];
            self.acc.truncate(n - 1);
            if ok {
                self.right = self.right - 1;
            } else {
                self.wrong = self.wrong - 1;
            }
        }
    }

    /// Judges the keystroke `c` against the byte at the cursor. Does nothing
    /// once the line is full.
    pub fn eat(&mut self, c: char)
        requires
            old(self).wf(),
        ensures
            final(self).wf(),
            final(self)@ == old(self)@.feed(c),
            final(self).same_session(old(self)),
    {
        let n = self.acc.len();
        if n < self.buf.len() {
            proof {
                lemma_feed_wf(self@, c);
                lemma_word_ends_bound(self.buf@, n as nat);
            }
            if n > 0 && self.buf[n] == SPACE && self.buf[n - 1] != SPACE {
                self.words = self.words + 1;
            }
            let ok = accepts(self.buf[n], c);
            self.acc.push(ok);
            if ok {
                self.right = self.right + 1;
            } else {
                self.wrong = self.wrong + 1;
            }
        }
    }

    /// The number of bytes that the next line asks of the text source.
    pub fn request(&self) -> (n: usize)
        requires
            self.wf(),
        ensures
            n == self@.request(),
            n <= self@.width,
            n <= self@.budget_left(),
    {
        let left = self.total - self.right - self.wrong;
        if self.width <= left {
            self.width
        } else {
            left
        }
    }

    /// Goes on to the next line with what the text source handed back.
    ///
    /// While the line is not full nothing happens. With no budget left the
    /// session has reached its end. Else the bytes of `outcome`, as many as
    /// were asked for, become the new line, and the record starts empty; a
    /// source that failed or is exhausted leaves the engine as it is.
    pub fn install(&mut self, outcome: ReadOutcome) -> (res: Result<(), SessionError>)
        requires
            old(self).wf(),
        ensures
            final(self).wf(),
            final(self)@ == old(self)@.advance(outcome),
            res == old(self)@.advance_result(outcome),
            final(self).same_session(old(self)),
    {
        proof {
            lemma_advance_wf(self@, outcome);
        }
        if self.acc.len() != self.buf.len() {
            return Ok(());
        }
        let asked = self.request();
        if asked == 0 {
            return Err(SessionError::BudgetReached);
        }
        match outcome {
            ReadOutcome::Failed => Err(SessionError::SourceError),
            ReadOutcome::Eof => Err(SessionError::ExhaustedSource),
            ReadOutcome::Bytes(mut bytes) => {
                if bytes.len() == 0 {
                    return Err(SessionError::ExhaustedSource);
                }
                if bytes.len() > asked {
                    bytes.truncate(asked);
                }
                self.buf = bytes;
                self.acc.clear();
                Ok(())
            },
        }
    }

    /// The configured line width.
    pub fn width(&self) -> (n: usize)
        ensures
            n == self@.width,
    {
        self.width
    }

    /// The character budget of the whole session.
    pub fn total(&self) -> (n: usize)
        ensures
            n == self@.total,
    {
        self.total
    }

    /// Keystrokes accepted so far.
    pub fn right(&self) -> (n: usize)
        ensures
            n == self@.right,
    {
        self.right
    }

    /// Keystrokes rejected so far.
    pub fn wrong(&self) -> (n: usize)
        ensures
            n == self@.wrong,
    {
        self.wrong
    }

    /// Words completed so far.
    pub fn words(&self) -> (n: usize)
        ensures
            n == self@.words,
    {
        self.words
    }

    /// The bytes expected on the current line.
    pub fn line(&self) -> (line: &Vec<u8>)
        ensures
            line@ == self@.line,
    {
        &self.buf
    }

    /// The judgments made on the current line so far.
    pub fn record(&self) -> (record: &Vec<bool>)
        ensures
            record@ == self@.record,
    {
        &self.acc
    }

    /// The instant at which the session started.
    pub fn start_instant(&self) -> (start: std::time::Instant)
        ensures
            start == self.started(),
    {
        self.start
    }

    /// Whether every position of the line has been judged.
    pub fn is_full(&self) -> (full: bool)
        ensures
            full == self@.full(),
    {
        self.acc.len() == self.buf.len()
    }
}

impl<R: TextSource> App<R> {
    /// Starts a session of `total` characters in lines of at most `width`,
    /// and reads its first line from `gen`.
    ///
    /// A width over `MAX_WIDTH` is refused. With nothing to ask for, because
    /// the width or the budget is zero, the session is over before it starts.
    /// Else the source is read once, and its outcome decides.
    pub fn new(width: usize, total: usize, gen: R) -> (res: Result<Self, SessionError>)
        ensures
            width > MAX_WIDTH ==> (res matches Err(e) && e == SessionError::ConfigError),
            width <= MAX_WIDTH && (width == 0 || total == 0) ==> (res matches Err(e) && e
                == SessionError::BudgetReached),
            width <= MAX_WIDTH && width > 0 && total > 0 ==> exists|outcome: ReadOutcome, after: R|
                {
                    let blank = Engine::start(width as nat, total as nat, Seq::empty());
                    &&& #[trigger] gen.may_yield(first_request(width, total), outcome, after)
                    &&& match res {
                        Ok(app) => {
                            &&& app.source() == after
                            &&& app.wf()
                            &&& app@ == blank.advance(outcome)
                            &&& blank.advance_result(outcome) is Ok
                        },
                        Err(e) => blank.advance_result(outcome) == Err::<(), SessionError>(e),
                    }
                },
    {
        if width > MAX_WIDTH {
            return Err(SessionError::ConfigError);
        }
        let mut app = App {
            width,
            start: now(),
            right: 0,
            wrong: 0,
            words: 0,
            total,
            buf: Vec::new(),
            acc: Vec::new(),
            gen,
        };
        let ghost blank = app;
        let loaded = app.newline();
        proof {
            if width > 0 && total > 0 {
                let outcome = choose|outcome: ReadOutcome|
                    {
                        &&& blank.source().may_yield(
                            blank@.request() as usize,
                            outcome,
                            app.source(),
                        )
                        &&& app@ == blank@.advance(outcome)
                        &&& loaded == blank@.advance_result(outcome)
                    };
                assert(gen.may_yield(first_request(width, total), outcome, app.source()));
            }
        }
        match loaded {
            Ok(()) => Ok(app),
            Err(e) => Err(e),
        }
    }

    /// Goes on to the next line, read from the text source.
    ///
    /// While the line is not full nothing happens and nothing is read. With
    /// no budget left the session has reached its end, and nothing is read
    /// either. Else the source is asked once, for `request()` bytes, and what
    /// it hands back decides as `install` says.
    pub fn newline(&mut self) -> (res: Result<(), SessionError>)
        requires
            old(self).wf(),
        ensures
            final(self).wf(),
            final(self).started() == old(self).started(),
            !old(self)@.full() ==> res is Ok && final(self)@ == old(self)@ && final(self).source()
                == old(self).source(),
            old(self)@.full() && old(self)@.request() == 0 ==> res == Err::<(), SessionError>(
                SessionError::BudgetReached,
            ) && final(self)@ == old(self)@ && final(self).source() == old(self).source(),
            old(self)@.full() && old(self)@.request() > 0 ==> exists|outcome: ReadOutcome|
                {
                    &&& old(self).source().may_yield(
                        old(self)@.request() as usize,
                        outcome,
                        final(self).source(),
                    )
                    &&& final(self)@ == old(self)@.advance(outcome)
                    &&& res == old(self)@.advance_result(outcome)
                },
    {
        if self.acc.len() != self.buf.len() {
            return Ok(());
        }
        let asked = self.request();
        if asked == 0 {
            return Err(SessionError::BudgetReached);
        }
        let outcome = self.gen.read(asked);
        self.install(outcome)
    }
}

} // verus!
