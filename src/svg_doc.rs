//! Framing of the vector-drawing output document.
use vstd::prelude::*;
use vstd::string::StringSliceAdditionalSpecFns;

verus! {

/// Opening of the output document: a 100 x 100 mm drawing whose viewport
/// is centred on the origin.
pub const SVG_PROLOGUE: &'static str = "<?xml version=\"1.0\" encoding=\"UTF-8\" standalone=\"yes\"?>\n<svg xmlns=\"http://www.w3.org/2000/svg\"\n     width=\"100mm\" height=\"100mm\" viewBox=\"-50 -50 100 100\">\n";

/// Closing of the output document.
pub const SVG_EPILOGUE: &'static str = "</svg>\n";

/// Appends all of `text`'s bytes to `out`.
fn append_bytes(out: &mut Vec<u8>, text: &[u8]) -> (n: usize)
    ensures
        final(out)@ == old(out)@ + text@,
        n == text@.len(),
{
    let mut i: usize = 0;
    while i < text.len()
        invariant
            i <= text@.len(),
            out@ == old(out)@ + text@.subrange(0, i as int),
        decreases text@.len() - i,
    {
        out.push(text[i]);
        i += 1;
        assert(text@.subrange(0, i as int) == text@.subrange(0, i - 1) + seq![text@[i - 1]]);
    }
    assert(text@.subrange(0, i as int) == text@);
    i
}

/// Writes the document's opening into `out` and returns how many bytes it
/// wrote.
pub fn svg_prologue(out: &mut Vec<u8>) -> (n: usize)
    ensures
        final(out)@ == old(out)@ + SVG_PROLOGUE.spec_bytes(),
        n == SVG_PROLOGUE.spec_bytes().len(),
{
    append_bytes(out, SVG_PROLOGUE.as_bytes())
}

/// Writes the document's closing into `out` and returns how many bytes it
/// wrote.
pub fn svg_epilogue(out: &mut Vec<u8>) -> (n: usize)
    ensures
        final(out)@ == old(out)@ + SVG_EPILOGUE.spec_bytes(),
        n == SVG_EPILOGUE.spec_bytes().len(),
{
    append_bytes(out, SVG_EPILOGUE.as_bytes())
}

} // verus!
