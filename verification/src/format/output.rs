//! Formatted output: text, with floating-point values left for the caller to render.

use vstd::prelude::*;

verus! {

/// One piece of formatted output.
///
/// Floating-point constants are handed out as IEEE 754 bit patterns, to be rendered with the
/// standard `Display` of `f32` or `f64`.
#[derive(Debug, Clone, PartialEq, Eq)]
pub enum OutputPiece {
    Text(String),
    Float(u32),
    Double(u64),
}

/// One unit of formatted output: a character or a floating-point value.
#[derive(Debug, Clone, Copy, PartialEq, Eq, Structural)]
pub enum Glyph {
    Char(char),
    Float(u32),
    Double(u64),
}

/// The glyphs of a text.
pub open spec fn glyphs(text: Seq<char>) -> Seq<Glyph> {
    text.map_values(|c: char| Glyph::Char(c))
}

/// The glyphs of one piece.
pub open spec fn piece_glyphs(piece: OutputPiece) -> Seq<Glyph> {
    match piece {
        OutputPiece::Text(text) => glyphs(text@),
        OutputPiece::Float(bits) => seq![Glyph::Float(bits)],
        OutputPiece::Double(bits) => seq![Glyph::Double(bits)],
    }
}

/// The glyphs of a sequence of pieces, in order.
pub open spec fn rendered(pieces: Seq<OutputPiece>) -> Seq<Glyph>
    decreases pieces.len(),
{
    if pieces.len() == 0 {
        seq![]
    } else {
        rendered(pieces.drop_last()) + piece_glyphs(pieces.last())
    }
}

proof fn lemma_rendered_push(pieces: Seq<OutputPiece>, piece: OutputPiece)
    ensures
        rendered(pieces.push(piece)) == rendered(pieces) + piece_glyphs(piece),
{
    assert(pieces.push(piece).drop_last() =~= pieces);
}

/// Appends a text piece.
pub fn emit_string(output: &mut Vec<OutputPiece>, text: String)
    ensures
        rendered(final(output)@) == rendered(old(output)@) + glyphs(text@),
{
    proof {
        lemma_rendered_push(output@, OutputPiece::Text(text));
    }
    output.push(OutputPiece::Text(text));
}

/// Appends a copy of `text`.
pub fn emit(output: &mut Vec<OutputPiece>, text: &str)
    ensures
        rendered(final(output)@) == rendered(old(output)@) + glyphs(text@),
{
    emit_string(output, String::from_str(text));
}

/// Appends a single-precision value given by its bits.
pub fn emit_float(output: &mut Vec<OutputPiece>, bits: u32)
    ensures
        rendered(final(output)@) == rendered(old(output)@) + seq![Glyph::Float(bits)],
{
    proof {
        lemma_rendered_push(output@, OutputPiece::Float(bits));
    }
    output.push(OutputPiece::Float(bits));
}

/// Appends a double-precision value given by its bits.
pub fn emit_double(output: &mut Vec<OutputPiece>, bits: u64)
    ensures
        rendered(final(output)@) == rendered(old(output)@) + seq![Glyph::Double(bits)],
{
    proof {
        lemma_rendered_push(output@, OutputPiece::Double(bits));
    }
    output.push(OutputPiece::Double(bits));
}

} // verus!
