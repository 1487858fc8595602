//! Parses vector markup into a scene with a validated intrinsic size.
//!
//! The parsed tree itself is an opaque value of the rendering engine's
//! crate; the library reads only its intrinsic pixel dimensions, validates
//! them, and carries the tree through to the renderer.

use vstd::prelude::*;

verus! {

/// Malformed vector markup, or markup whose intrinsic size is degenerate.
#[derive(Clone, Debug, PartialEq, Eq)]
pub struct ParseError {
    /// What the parser rejected.
    pub message: String,
}

/// Declares the engine's parsed render tree so that it can stand in
/// signatures and fields; the library never looks inside it.
#[verifier::external_type_specification]
#[verifier::external_body]
pub struct ExTree(resvg::usvg::Tree);

/// Whether the engine's parser, with default options, accepts these bytes
/// as well-formed vector markup.  A function of the bytes alone.
pub uninterp spec fn svg_parse_ok(data: Seq<u8>) -> bool;

/// The intrinsic width of well-formed markup, truncated to whole pixels.
pub uninterp spec fn svg_width_px(data: Seq<u8>) -> u32;

/// The intrinsic height of well-formed markup, truncated to whole pixels.
pub uninterp spec fn svg_height_px(data: Seq<u8>) -> u32;

/// Relies on `resvg::usvg::Tree::from_data` with default options, and on
/// `Tree::size`: whether the bytes parse, and the tree's intrinsic size,
/// depend on the bytes alone; a parse failure is an error value, never a
/// panic.
#[verifier::external_body]
fn parse_tree(data: &[u8]) -> (r: Result<(resvg::usvg::Tree, u32, u32), String>)
    ensures
        r.is_ok() == svg_parse_ok(data@),
        r matches Ok((tree, width, height)) ==> width == svg_width_px(data@) && height
            == svg_height_px(data@),
{
    match resvg::usvg::Tree::from_data(data, &resvg::usvg::Options::default()) {
        Ok(tree) => {
            let size = tree.size();
            let width = size.width() as u32;
            let height = size.height() as u32;
            Ok((tree, width, height))
        },
        Err(e) => Err(format!("{e}")),
    }
}

/// A parsed vector scene: the render tree together with its validated
/// intrinsic pixel dimensions.
pub struct VectorScene {
    tree: resvg::usvg::Tree,
    width: u32,
    height: u32,
}

impl VectorScene {
    /// Both intrinsic dimensions are positive, so every ratio the planner
    /// forms from them is defined.
    pub open spec fn wf(self) -> bool {
        self.spec_width() > 0 && self.spec_height() > 0
    }

    /// The intrinsic width, in whole pixels.
    pub fn intrinsic_width(&self) -> (r: u32)
        ensures
            r == self.spec_width(),
    {
        self.width
    }

    /// The intrinsic height, in whole pixels.
    pub fn intrinsic_height(&self) -> (r: u32)
        ensures
            r == self.spec_height(),
    {
        self.height
    }

    /// The parsed render tree, for the rendering engine.
    pub fn tree(&self) -> &resvg::usvg::Tree {
        &self.tree
    }

    /// The intrinsic width as the specification sees it.
    pub closed spec fn spec_width(self) -> u32 {
        self.width
    }

    /// The intrinsic height as the specification sees it.
    pub closed spec fn spec_height(self) -> u32 {
        self.height
    }
}

/// Parses raw vector-markup bytes into a scene.
///
/// Succeeds exactly when the engine's parser accepts the bytes and their
/// intrinsic size truncates to two positive dimensions; the returned scene
/// carries exactly that size, so no later stage divides by zero.  Markup
/// the parser rejects, and markup with a degenerate size, both surface as
/// `ParseError`.
pub fn parse_scene(data: &[u8]) -> (r: Result<VectorScene, ParseError>)
    ensures
        r.is_ok() <==> (svg_parse_ok(data@) && svg_width_px(data@) > 0 && svg_height_px(data@)
            > 0),
        r matches Ok(s) ==> s.wf() && s.spec_width() == svg_width_px(data@) && s.spec_height()
            == svg_height_px(data@),
{
    let (tree, width, height) = match parse_tree(data) {
        Ok(parsed) => parsed,
        Err(message) => {
            return Err(ParseError { message });
        },
    };
    if width == 0 || height == 0 {
        return Err(
            ParseError { message: String::from_str("intrinsic size is not positive") },
        );
    }
    Ok(VectorScene { tree, width, height })
}

} // verus!
