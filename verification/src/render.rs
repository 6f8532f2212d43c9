//! The frame: what is painted for an engine state at a moment of the session.

use vstd::prelude::*;
use crate::clock::{elapsed, whole_nanos};
use crate::engine::{App, Engine};
use crate::glyph::{glyph, spec_glyph, LINE_END_GLYPH};
use crate::paint::{marks, put, Attribute, Color, Paint, PaintSpec};
use crate::text::{decimal, pad_number, padded};

verus! {

/// The highest rate that is shown.
pub const RATE_CAP: u128 = 9999;

/// The nanoseconds of a second.
pub const PER_SECOND: u128 = 1_000_000_000;

/// The nanoseconds of a minute.
pub const PER_MINUTE: u128 = 60_000_000_000;

/// The most events that a rate is taken of: more than two machine words add up to.
pub const MAX_COUNT: u128 = 0x2_0000_0000_0000_0000;

/// The quotient `num / den`, rounded to the nearest whole number, halves upwards.
pub open spec fn rounded_ratio(num: nat, den: nat) -> nat
    recommends
        den > 0,
{
    (2 * num + den) / (2 * den)
}

/// Accepted keystrokes among all judged ones, in hundredths of a percent.
pub open spec fn accuracy(right: nat, wrong: nat) -> nat
    recommends
        right + wrong > 0,
{
    rounded_ratio(10000 * right, right + wrong)
}

/// The accuracy as it is shown: seven characters, two decimals, a percent sign.
pub open spec fn accuracy_text(right: nat, wrong: nat) -> Seq<char> {
    if right + wrong == 0 {
        seq![' ', '0', '0', '.', '0', '0', '%']
    } else {
        let shown = accuracy(right, wrong);
        padded(decimal(shown / 100), 3, ' ') + seq!['.'] + padded(decimal(shown % 100), 2, '0')
            + seq!['%']
    }
}

/// `count` events in `nanos` nanoseconds as a rate per minute, rounded, and
/// no higher than `RATE_CAP`. At the very start, with no time gone by, it is
/// `RATE_CAP`.
pub open spec fn per_minute(count: nat, nanos: nat) -> nat {
    if nanos == 0 {
        RATE_CAP as nat
    } else if rounded_ratio(PER_MINUTE as nat * count, nanos) > RATE_CAP {
        RATE_CAP as nat
    } else {
        rounded_ratio(PER_MINUTE as nat * count, nanos)
    }
}

/// A rate as it is shown: four characters for the number, then its unit,
/// `(cpm)` for `unit == 'c'` and alike.
pub open spec fn rate_text(count: nat, nanos: nat, unit: char) -> Seq<char> {
    padded(decimal(per_minute(count, nanos)), 4, ' ') + seq!['(', unit, 'p', 'm', ')']
}

/// The time gone by as it is shown: hours of the day, minutes and seconds.
pub open spec fn clock_text(nanos: nat) -> Seq<char> {
    let secs = nanos / (PER_SECOND as nat);
    padded(decimal((secs / 3600) % 24), 2, '0') + seq![':'] + padded(
        decimal((secs / 60) % 60),
        2,
        '0',
    ) + seq![':'] + padded(decimal(secs % 60), 2, '0')
}

/// What is painted for position `i` of the line.
pub open spec fn cell(line: Seq<u8>, record: Seq<bool>, i: int) -> Seq<PaintSpec> {
    let shown = PaintSpec::Glyph(spec_glyph(line[i]));
    if i < record.len() {
        seq![
            PaintSpec::Foreground(if record[i] { Color::White } else { Color::Red }),
            shown,
            PaintSpec::ResetColor,
        ]
    } else if i == record.len() {
        seq![
            PaintSpec::Attribute(Attribute::Underlined),
            PaintSpec::Attribute(Attribute::Bold),
            shown,
            PaintSpec::ResetColor,
        ]
    } else {
        seq![
            PaintSpec::Foreground(Color::White),
            PaintSpec::Attribute(Attribute::Dim),
            shown,
            PaintSpec::ResetColor,
        ]
    }
}

/// What is painted for the positions of the line below `upto`.
pub open spec fn cells(line: Seq<u8>, record: Seq<bool>, upto: nat) -> Seq<PaintSpec>
    decreases upto,
{
    if upto == 0 {
        Seq::empty()
    } else {
        cells(line, record, (upto - 1) as nat) + cell(line, record, upto - 1)
    }
}

/// What fills a line of `len` positions up to `width` columns: the line-end
/// glyph and then blanks. Nothing where the line has the full width.
pub open spec fn filler(len: nat, width: nat) -> Seq<PaintSpec> {
    if len < width {
        seq![PaintSpec::ResetColor, PaintSpec::Glyph(LINE_END_GLYPH)] + Seq::new(
            (width - len - 1) as nat,
            |i: int| PaintSpec::Glyph(' '),
        )
    } else {
        Seq::empty()
    }
}

/// What opens a frame, up to the left border.
pub open spec fn opening() -> Seq<PaintSpec> {
    seq![
        PaintSpec::SavePosition,
        PaintSpec::ClearBelow,
        PaintSpec::Foreground(Color::Green),
        PaintSpec::Glyph('['),
        PaintSpec::ResetColor,
    ]
}

/// What closes a frame: the right border and the status of the session.
pub open spec fn status(e: Engine, nanos: nat) -> Seq<PaintSpec> {
    seq![
        PaintSpec::Foreground(Color::Green),
        PaintSpec::Glyph(']'),
        PaintSpec::ResetColor,
        PaintSpec::Text(seq![' ', ' ', ' ', ' ', ' ', ' ']),
        PaintSpec::Foreground(Color::Green),
        PaintSpec::Text(seq!['✓', ':', ' ']),
        PaintSpec::Foreground(Color::White),
        PaintSpec::Text(accuracy_text(e.right, e.wrong)),
        PaintSpec::Text(seq![' ']),
        PaintSpec::Foreground(Color::Cyan),
        PaintSpec::Text(seq!['⚑', ':', ' ']),
        PaintSpec::Foreground(Color::White),
        PaintSpec::Text(rate_text(e.right + e.wrong, nanos, 'c')),
        PaintSpec::Text(seq!['/']),
        PaintSpec::Text(rate_text(e.words, nanos, 'w')),
        PaintSpec::Text(seq![' ']),
        PaintSpec::Text(clock_text(nanos)),
        PaintSpec::RestorePosition,
        PaintSpec::Flush,
    ]
}

/// The frame of the engine state `e`, `nanos` nanoseconds into the session,
/// on a terminal `available` columns wide. Nothing is painted where the line
/// and its two borders do not fit.
pub open spec fn frame(e: Engine, available: nat, nanos: nat) -> Seq<PaintSpec> {
    if available < e.width + 2 {
        Seq::empty()
    } else {
        opening() + cells(e.line, e.record, e.line.len()) + filler(e.line.len(), e.width) + status(
            e,
            nanos,
        )
    }
}


/// The accuracy as it is shown.
pub fn format_accuracy(right: usize, wrong: usize) -> (text: Vec<char>)
    ensures
        text@ == accuracy_text(right as nat, wrong as nat),
{
    let judged: u128 = right as u128 + wrong as u128;
    if judged == 0 {
        let text = vec![' ', '0', '0', '.', '0', '0', '%'];
        return text;
    }
    let shown: u128 = (2 * (10000 * (right as u128)) + judged) / (2 * judged);
    let mut text = pad_number(shown / 100, 3, ' ');
    text.push('.');
    let mut cents = pad_number(shown % 100, 2, '0');
    text.append(&mut cents);
    text.push('%');
    text
}

/// `count` events in `nanos` nanoseconds as a rate per minute.
pub fn rate(count: u128, nanos: u128) -> (per: u128)
    requires
        count <= MAX_COUNT,
    ensures
        per == per_minute(count as nat, nanos as nat),
        per <= RATE_CAP,
{
    if nanos == 0 {
        return RATE_CAP;
    }
    let events: u128 = 2 * (PER_MINUTE * count);
    if nanos > events {
        assert((events + nanos) / (2 * nanos) == 0) by (nonlinear_arith)
            requires
                0 <= events < nanos,
        ;
        return 0;
    }
    let per: u128 = (events + nanos) / (2 * nanos);
    if per > RATE_CAP {
        RATE_CAP
    } else {
        per
    }
}

/// A rate as it is shown, with `unit` as the first letter of its unit.
pub fn format_rate(count: u128, nanos: u128, unit: char) -> (text: Vec<char>)
    requires
        count <= MAX_COUNT,
    ensures
        text@ == rate_text(count as nat, nanos as nat, unit),
{
    let mut text = pad_number(rate(count, nanos), 4, ' ');
    text.push('(');
    text.push(unit);
    text.push('p');
    text.push('m');
    text.push(')');
    text
}

/// The time gone by as it is shown.
pub fn format_clock(nanos: u128) -> (text: Vec<char>)
    ensures
        text@ == clock_text(nanos as nat),
{
    let secs: u128 = nanos / PER_SECOND;
    let mut text = pad_number((secs / 3600) % 24, 2, '0');
    text.push(':');
    let mut minutes = pad_number((secs / 60) % 60, 2, '0');
    text.append(&mut minutes);
    text.push(':');
    let mut seconds = pad_number(secs % 60, 2, '0');
    text.append(&mut seconds);
    text
}

/// Paints what opens a frame.
fn paint_opening(out: &mut Vec<Paint>)
    ensures
        marks(final(out)@) == marks(old(out)@) + opening(),
{
    put(out, Paint::SavePosition);
    put(out, Paint::ClearBelow);
    put(out, Paint::Foreground(Color::Green));
    put(out, Paint::Glyph('['));
    put(out, Paint::ResetColor);
}

/// Paints position `pos` of the line.
fn paint_cell(out: &mut Vec<Paint>, line: &Vec<u8>, record: &Vec<bool>, pos: usize)
    requires
        pos < line.len(),
    ensures
        marks(final(out)@) == marks(old(out)@) + cell(line@, record@, pos as int),
{
    let shown = glyph(line[pos]);
    if pos < record.len() {
        let color = if record[pos] { Color::White } else { Color::Red };
        put(out, Paint::Foreground(color));
        put(out, Paint::Glyph(shown));
        put(out, Paint::ResetColor);
    } else if pos == record.len() {
        put(out, Paint::Attribute(Attribute::Underlined));
        put(out, Paint::Attribute(Attribute::Bold));
        put(out, Paint::Glyph(shown));
        put(out, Paint::ResetColor);
    } else {
        put(out, Paint::Foreground(Color::White));
        put(out, Paint::Attribute(Attribute::Dim));
        put(out, Paint::Glyph(shown));
        put(out, Paint::ResetColor);
    }
}

/// Paints what fills a line of `len` positions up to `width` columns.
fn paint_filler(out: &mut Vec<Paint>, len: usize, width: usize)
    ensures
        marks(final(out)@) == marks(old(out)@) + filler(len as nat, width as nat),
{
    if len < width {
        put(out, Paint::ResetColor);
        put(out, Paint::Glyph(LINE_END_GLYPH));
        let mut pos: usize = len + 1;
        assert(marks(out@) =~= marks(old(out)@) + seq![
            PaintSpec::ResetColor,
            PaintSpec::Glyph(LINE_END_GLYPH),
        ] + Seq::new(0nat, |i: int| PaintSpec::Glyph(' ')));
        while pos < width
            invariant
                len < pos <= width,
                marks(out@) == marks(old(out)@) + seq![
                    PaintSpec::ResetColor,
                    PaintSpec::Glyph(LINE_END_GLYPH),
                ] + Seq::new((pos - len - 1) as nat, |i: int| PaintSpec::Glyph(' ')),
            decreases width - pos,
        {
            put(out, Paint::Glyph(' '));
            pos = pos + 1;
            assert(marks(out@) =~= marks(old(out)@) + seq![
                PaintSpec::ResetColor,
                PaintSpec::Glyph(LINE_END_GLYPH),
            ] + Seq::new((pos - len - 1) as nat, |i: int| PaintSpec::Glyph(' ')));
        }
    } else {
    }
}

impl<R> App<R> {
    /// Paints the right border and the status of the session.
    fn paint_status(&self, out: &mut Vec<Paint>, nanos: u128)
        ensures
            marks(final(out)@) == marks(old(out)@) + status(self@, nanos as nat),
    {
        let judged: u128 = self.right() as u128 + self.wrong() as u128;
        let gap = vec![' ', ' ', ' ', ' ', ' ', ' '];
        let check = vec!['✓', ':', ' '];
        let flag = vec!['⚑', ':', ' '];
        let blank = vec![' '];
        let blank_again = vec![' '];
        let slash = vec!['/'];
        proof {
            assert(gap@ =~= seq![' ', ' ', ' ', ' ', ' ', ' ']);
            assert(check@ =~= seq!['✓', ':', ' ']);
            assert(flag@ =~= seq!['⚑', ':', ' ']);
            assert(blank@ =~= seq![' ']);
            assert(blank_again@ =~= seq![' ']);
            assert(slash@ =~= seq!['/']);
        }
        put(out, Paint::Foreground(Color::Green));
        put(out, Paint::Glyph(']'));
        put(out, Paint::ResetColor);
        put(out, Paint::Text(gap));
        put(out, Paint::Foreground(Color::Green));
        put(out, Paint::Text(check));
        put(out, Paint::Foreground(Color::White));
        put(out, Paint::Text(format_accuracy(self.right(), self.wrong())));
        put(out, Paint::Text(blank));
        put(out, Paint::Foreground(Color::Cyan));
        put(out, Paint::Text(flag));
        put(out, Paint::Foreground(Color::White));
        put(out, Paint::Text(format_rate(judged, nanos, 'c')));
        put(out, Paint::Text(slash));
        put(out, Paint::Text(format_rate(self.words() as u128, nanos, 'w')));
        put(out, Paint::Text(blank_again));
        put(out, Paint::Text(format_clock(nanos)));
        put(out, Paint::RestorePosition);
        put(out, Paint::Flush);
    }

    /// The frame of this engine, `nanos` nanoseconds into the session, on
    /// a terminal `available` columns wide.
    pub fn frame(&self, available: u16, nanos: u128) -> (out: Vec<Paint>)
        ensures
            marks(out@) == frame(self@, available as nat, nanos as nat),
            out@.len() == 0 <==> available < self@.width + 2,
    {
        let mut out: Vec<Paint> = Vec::new();
        let width = self.width();
        if (available as usize) < 2 || (available as usize) - 2 < width {
            return out;
        }
        paint_opening(&mut out);
        let line = self.line();
        let record = self.record();
        let mut pos: usize = 0;
        while pos < line.len()
            invariant
                pos <= line.len(),
                marks(out@) == opening() + cells(line@, record@, pos as nat),
            decreases line.len() - pos,
        {
            paint_cell(&mut out, line, record, pos);
            pos = pos + 1;
        }
        paint_filler(&mut out, line.len(), width);
        self.paint_status(&mut out, nanos);
        out
    }

    /// The frame of this engine at the moment of the call, on a terminal
    /// `available` columns wide.
    pub fn draw(&self, available: u16) -> (out: Vec<Paint>)
        ensures
            exists|nanos: nat| marks(out@) == #[trigger] frame(self@, available as nat, nanos),
            out@.len() == 0 <==> available < self@.width + 2,
    {
        let span = elapsed(&self.start_instant());
        let nanos = whole_nanos(&span);
        self.frame(available, nanos)
    }
}

} // verus!
