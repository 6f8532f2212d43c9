//! The styled-write instructions that a frame is made of.

use vstd::prelude::*;

verus! {

/// A foreground colour.
#[derive(Debug, Clone, Copy, PartialEq, Eq, Structural)]
pub enum Color {
    Green,
    White,
    Red,
    Cyan,
}

/// A text attribute.
#[derive(Debug, Clone, Copy, PartialEq, Eq, Structural)]
pub enum Attribute {
    Underlined,
    Bold,
    Dim,
}

/// One instruction to the terminal.
#[derive(Debug, PartialEq, Eq)]
pub enum Paint {
    /// Remember where the cursor stands.
    SavePosition,
    /// Clear the screen from the cursor down.
    ClearBelow,
    /// Write what follows in this colour.
    Foreground(Color),
    /// Write what follows with this attribute.
    Attribute(Attribute),
    /// Back to the terminal's own colours and attributes.
    ResetColor,
    /// Write one character.
    Glyph(char),
    /// Write a piece of text.
    Text(Vec<char>),
    /// Put the cursor back where it was remembered.
    RestorePosition,
    /// Send everything written so far to the terminal.
    Flush,
}

/// An instruction to the terminal as a mathematical value.
pub enum PaintSpec {
    SavePosition,
    ClearBelow,
    Foreground(Color),
    Attribute(Attribute),
    ResetColor,
    Glyph(char),
    Text(Seq<char>),
    RestorePosition,
    Flush,
}

impl View for Paint {
    type V = PaintSpec;

    open spec fn view(&self) -> PaintSpec {
        match self {
            Paint::SavePosition => PaintSpec::SavePosition,
            Paint::ClearBelow => PaintSpec::ClearBelow,
            Paint::Foreground(c) => PaintSpec::Foreground(*c),
            Paint::Attribute(a) => PaintSpec::Attribute(*a),
            Paint::ResetColor => PaintSpec::ResetColor,
            Paint::Glyph(g) => PaintSpec::Glyph(*g),
            Paint::Text(t) => PaintSpec::Text(t@),
            Paint::RestorePosition => PaintSpec::RestorePosition,
            Paint::Flush => PaintSpec::Flush,
        }
    }
}

/// A list of instructions as a mathematical value.
pub open spec fn marks(paints: Seq<Paint>) -> Seq<PaintSpec> {
    Seq::new(paints.len(), |i: int| paints[i]@)
}

/// Appends one instruction to a list.
pub fn put(out: &mut Vec<Paint>, paint: Paint)
    ensures
        marks(final(out)@) == marks(old(out)@).push(paint@),
{
    out.push(paint);
}

} // verus!
