//! The rasterizer: from a vector document to a pixel buffer, and from the
//! pixel buffer to PNG bytes.
//!
//! The caller picks the pixel width; the height follows from the document's
//! native aspect ratio, rounded to the nearest pixel. Parsing and drawing
//! are done by the resvg family of crates behind trusted wrappers; the
//! sizing arithmetic, the error discipline and the dimensions and pixel
//! provenance of the result are verified here. Parsing, text layout and
//! drawing are deterministic in the document text and the font database's
//! state, and the contracts say so through named functions, so two renders
//! of the same document with the same catalog are pinned to the same
//! bytes. No partial image is ever returned: any failure discards all
//! intermediate state.

use vstd::prelude::*;
use vstd::arithmetic::div_mod::lemma_fundamental_div_mod;
use resvg::tiny_skia;
use resvg::usvg;
use crate::chart::VectorDocument;
use crate::chart::svg_spec;
use crate::errors::ChartError;
use crate::fonts::FontCatalog;
use crate::fonts::cursive_alias_of;
use crate::fonts::fantasy_alias_of;
use crate::fonts::font_data_of;
use crate::fonts::monospace_alias_of;
use crate::fonts::sans_serif_alias_of;
use crate::fonts::serif_alias_of;

verus! {

#[verifier::external_type_specification]
#[verifier::external_body]
pub struct ExTree(usvg::Tree);

#[verifier::external_type_specification]
#[verifier::external_body]
pub struct ExUsvgError(usvg::Error);

#[verifier::external_type_specification]
#[verifier::external_body]
pub struct ExPixmap(tiny_skia::Pixmap);

/// The widest pixmap side the drawing call accepts: its clipping
/// arithmetic multiplies a dimension by five in 32-bit space, so anything
/// larger is refused before drawing rather than risked.
pub const MAX_PIXMAP_SIDE: u32 = 429496729;

/// The pixel width of a pixel buffer.
pub uninterp spec fn pix_width(p: tiny_skia::Pixmap) -> u32;

/// The pixel height of a pixel buffer.
pub uninterp spec fn pix_height(p: tiny_skia::Pixmap) -> u32;

/// The pixel bytes a pixel buffer holds.
pub uninterp spec fn pixels_of(p: tiny_skia::Pixmap) -> Seq<u8>;

/// The PNG encoding of a pixel grid: a function of the dimensions and the
/// pixel bytes alone, so encoding the same buffer twice gives the same
/// bytes.
pub uninterp spec fn png_of(w: u32, h: u32, pixels: Seq<u8>) -> Seq<u8>;

/// Whether SVG text parses as a vector document. The parser's verdict is
/// computed from the text alone: the font database decides glyph outlines,
/// never success.
pub uninterp spec fn svg_parses(text: Seq<char>) -> bool;

/// The resolved content of a parsed geometry tree: everything the drawing
/// call reads from it.
pub uninterp spec fn tree_content_of(t: usvg::Tree) -> Seq<char>;

/// The resolved content that parsing a given text yields: a function of
/// the text and of the font state used for text layout — the face data and
/// the five generic-class aliases.
pub uninterp spec fn parsed_content(
    text: Seq<char>,
    fonts: Seq<Seq<u8>>,
    serif: Seq<char>,
    sans_serif: Seq<char>,
    cursive: Seq<char>,
    fantasy: Seq<char>,
    monospace: Seq<char>,
) -> Seq<char>;

/// The pixel bytes that drawing a resolved content over an existing buffer
/// of the given size leaves behind: rasterization is deterministic in
/// these arguments.
pub uninterp spec fn rendered_pixels(content: Seq<char>, old_pixels: Seq<u8>, w: u32, h: u32) -> Seq<
    u8,
>;

/// The resolved content that parsing `text` with the state of `db` yields.
pub open spec fn parsed_with(text: Seq<char>, db: usvg::fontdb::Database) -> Seq<char> {
    parsed_content(
        text,
        font_data_of(db),
        serif_alias_of(db),
        sans_serif_alias_of(db),
        cursive_alias_of(db),
        fantasy_alias_of(db),
        monospace_alias_of(db),
    )
}

/// The contents of a freshly allocated buffer: transparent black
/// throughout, four bytes per pixel.
pub open spec fn blank_pixels(w: u32, h: u32) -> Seq<u8> {
    Seq::new(4 * (w as nat) * (h as nat), |i: int| 0u8)
}

/// Relies on `usvg::Tree::from_str`: parses SVG text into a geometry tree,
/// laying text out with the faces and aliases of the given font database.
/// Success depends on the text alone; the returned tree's content is a
/// function of the text and the database's font state.
#[verifier::external_body]
fn parse_svg(text: &str, db: &usvg::fontdb::Database) -> (r: Result<usvg::Tree, usvg::Error>)
    ensures
        r is Ok <==> svg_parses(text@),
        r matches Ok(t) ==> tree_content_of(t) == parsed_content(
            text@,
            font_data_of(*db),
            serif_alias_of(*db),
            sans_serif_alias_of(*db),
            cursive_alias_of(*db),
            fantasy_alias_of(*db),
            monospace_alias_of(*db),
        ),
{
    let mut opt = usvg::Options::default();
    opt.fontdb = std::sync::Arc::new(db.clone());
    usvg::Tree::from_str(text, &opt)
}

/// Relies on `tiny_skia::Pixmap::new`: allocates a transparent buffer of
/// exactly the asked size; refuses a zero dimension, a width above
/// `i32::MAX / 4`, or a byte length that does not fit `usize`.
#[verifier::external_body]
fn new_pixmap(w: u32, h: u32) -> (r: Option<tiny_skia::Pixmap>)
    ensures
        r matches Some(p) ==> pix_width(p) == w && pix_height(p) == h && pixels_of(p)
            == blank_pixels(w, h),
        w == 0 || h == 0 ==> r is None,
        1 <= w <= 536870911 && 1 <= h && 4 * (w as int) * (h as int) <= usize::MAX as int
            ==> r is Some,
{
    tiny_skia::Pixmap::new(w, h)
}

/// Relies on `resvg::render`: draws the tree into the buffer, writing
/// pixels only; the buffer keeps its dimensions and the resulting pixels
/// are a function of the tree's content, the old pixels and the size. Its
/// clipping arithmetic panics on a dimension above `MAX_PIXMAP_SIDE`, so
/// such buffers are excluded.
#[verifier::external_body]
fn render_into(tree: &usvg::Tree, pix: &mut tiny_skia::Pixmap)
    requires
        pix_width(*old(pix)) <= MAX_PIXMAP_SIDE,
        pix_height(*old(pix)) <= MAX_PIXMAP_SIDE,
    ensures
        pix_width(*final(pix)) == pix_width(*old(pix)),
        pix_height(*final(pix)) == pix_height(*old(pix)),
        pixels_of(*final(pix)) == rendered_pixels(
            tree_content_of(*tree),
            pixels_of(*old(pix)),
            pix_width(*old(pix)),
            pix_height(*old(pix)),
        ),
{
    resvg::render(tree, tiny_skia::Transform::default(), &mut pix.as_mut());
}

/// Relies on `tiny_skia::Pixmap::encode_png`: encodes the buffer as PNG
/// bytes, a deterministic function of the dimensions and pixels. Every
/// pixmap has non-zero dimensions and a matching byte length, the only
/// cases the encoder refuses, so (out-of-memory aside) it succeeds.
#[verifier::external_body]
fn encode_png_bytes(pix: &tiny_skia::Pixmap) -> (r: Option<Vec<u8>>)
    ensures
        r is Some,
        r matches Some(v) ==> v@ == png_of(pix_width(*pix), pix_height(*pix), pixels_of(*pix)),
{
    match pix.encode_png() {
        Ok(v) => Some(v),
        Err(_) => None,
    }
}

/// A raster image: a pixel buffer with its dimensions.
pub struct RasterImage {
    pub width: u32,
    pub height: u32,
    pub pix: tiny_skia::Pixmap,
}

impl RasterImage {
    /// The stated dimensions are the buffer's own.
    pub open spec fn wf(&self) -> bool {
        pix_width(self.pix) == self.width && pix_height(self.pix) == self.height
    }

    /// The spec-level pixel buffer of the image.
    pub open spec fn buffer(&self) -> tiny_skia::Pixmap {
        self.pix
    }

    /// The image width in pixels.
    pub fn width(&self) -> (r: u32)
        ensures
            r == self.width,
    {
        self.width
    }

    /// The image height in pixels.
    pub fn height(&self) -> (r: u32)
        ensures
            r == self.height,
    {
        self.height
    }
}

/// The pixel height that maps a native `nh` by `nw` canvas onto `w` pixels
/// of width: `nh * w / nw`, rounded to the nearest whole pixel.
pub open spec fn scaled_height(nh: int, nw: int, w: int) -> int {
    (nh * w + nw / 2) / nw
}

/// Whether a pixel size is one the rasterizer can allocate and draw into:
/// both sides positive and within the drawing call's bound, and the byte
/// length within the machine's address space.
pub open spec fn size_ok(w: int, h: int) -> bool {
    &&& 1 <= w <= MAX_PIXMAP_SIDE
    &&& 1 <= h <= MAX_PIXMAP_SIDE
    &&& 4 * w * h <= usize::MAX as int
}

/// Fitting to a width preserves the aspect ratio to within one pixel:
/// the chosen height, scaled back by the native width, differs from
/// `native height * target width` by at most one pixel's worth.
pub proof fn lemma_fit_preserves_aspect_ratio(nh: int, nw: int, w: int)
    requires
        nw >= 1,
        nh >= 0,
        w >= 0,
    ensures
        scaled_height(nh, nw, w) * nw - nh * w <= nw,
        nh * w - scaled_height(nh, nw, w) * nw <= nw,
{
    let x = nh * w + nw / 2;
    assert(nh * w >= 0) by (nonlinear_arith)
        requires
            nh >= 0,
            w >= 0,
    ;
    lemma_fundamental_div_mod(x, nw);
    assert(nw * (x / nw) == (x / nw) * nw) by (nonlinear_arith);
}

/// Rasterizes a document at the given pixel width.
///
/// A document with a zero native dimension is refused as degenerate
/// geometry, an unusable pixel size as an allocation failure, and text the
/// SVG parser cannot read as a malformed document — each exactly when its
/// condition holds, and nothing else comes out. A returned image has
/// exactly the target width, the aspect-preserving rounded height, and the
/// pixels that drawing the parsed document over a blank buffer of that
/// size yields.
pub fn rasterize(doc: &VectorDocument, catalog: &FontCatalog, target_width: u32) -> (r: Result<
    RasterImage,
    ChartError,
>)
    ensures
        r matches Err(e) && e == ChartError::DegenerateGeometry <==> doc.width == 0 || doc.height
            == 0,
        doc.width >= 1 && doc.height >= 1 ==> {
            let h = scaled_height(doc.height as int, doc.width as int, target_width as int);
            &&& (r == Result::<RasterImage, ChartError>::Err(ChartError::AllocationFailed) <==> !size_ok(
                target_width as int,
                h,
            ))
            &&& size_ok(target_width as int, h) ==> {
                &&& (r is Ok <==> svg_parses(svg_spec(doc, target_width as int, h)))
                &&& (r == Result::<RasterImage, ChartError>::Err(ChartError::MalformedDocument)
                    <==> !svg_parses(svg_spec(doc, target_width as int, h)))
            }
        },
        r matches Ok(img) ==> {
            let h = scaled_height(doc.height as int, doc.width as int, target_width as int);
            &&& img.wf()
            &&& img.width == target_width
            &&& img.height as int == h
            &&& pixels_of(img.buffer()) == rendered_pixels(
                parsed_with(svg_spec(doc, target_width as int, h), catalog.db),
                blank_pixels(target_width, img.height),
                target_width,
                img.height,
            )
        },
        r matches Err(e) ==> (e == ChartError::DegenerateGeometry || e == ChartError::AllocationFailed
            || e == ChartError::MalformedDocument),
{
    if doc.width == 0 || doc.height == 0 {
        return Err(ChartError::DegenerateGeometry);
    }
    proof {
        let hh = doc.height as int;
        let ww = target_width as int;
        assert(hh * ww <= 0xffff_ffff_ffff_ffff * 0xffff_ffff) by (nonlinear_arith)
            requires
                0 <= hh <= 0xffff_ffff_ffff_ffff,
                0 <= ww <= 0xffff_ffff,
        ;
    }
    let h128: u128 = ((doc.height as u128) * (target_width as u128) + (doc.width as u128) / 2) / (
    doc.width as u128);
    if target_width == 0 || target_width > MAX_PIXMAP_SIDE || h128 == 0 || h128
        > MAX_PIXMAP_SIDE as u128 {
        return Err(ChartError::AllocationFailed);
    }
    let h = h128 as u32;
    proof {
        let ww = target_width as int;
        let hs = h as int;
        assert(4 * ww * hs <= 4 * 429496729 * 429496729) by (nonlinear_arith)
            requires
                0 <= ww <= 429496729,
                0 <= hs <= 429496729,
        ;
    }
    let bytes: u128 = 4 * (target_width as u128) * (h as u128);
    if bytes > usize::MAX as u128 {
        return Err(ChartError::AllocationFailed);
    }
    let svg = doc.svg_at(target_width as u64, h as u64);
    let tree = match parse_svg(svg.as_str(), &catalog.db) {
        Ok(t) => t,
        Err(_) => {
            return Err(ChartError::MalformedDocument);
        },
    };
    let pix = match new_pixmap(target_width, h) {
        Some(p) => p,
        None => {
            return Err(ChartError::AllocationFailed);
        },
    };
    let mut pix = pix;
    render_into(&tree, &mut pix);
    Ok(RasterImage { width: target_width, height: h, pix })
}

/// Encodes an image as PNG bytes: always the deterministic encoding of
/// the buffer. Nothing is written anywhere.
pub fn png_bytes(img: &RasterImage) -> (r: Result<Vec<u8>, ChartError>)
    ensures
        r is Ok,
        r matches Ok(v) ==> v@ == png_of(
            pix_width(img.buffer()),
            pix_height(img.buffer()),
            pixels_of(img.buffer()),
        ),
{
    match encode_png_bytes(&img.pix) {
        Some(v) => Ok(v),
        None => Err(ChartError::EncodeError),
    }
}

/// Rendering and encoding are functions of the document text, the font
/// state and the size alone: two images rasterized from the same document
/// with the same catalog state encode to byte-identical PNG bytes.
pub proof fn lemma_same_render_same_png(a: &RasterImage, b: &RasterImage, content: Seq<char>)
    requires
        a.wf(),
        b.wf(),
        a.width == b.width,
        a.height == b.height,
        pixels_of(a.buffer()) == rendered_pixels(
            content,
            blank_pixels(a.width, a.height),
            a.width,
            a.height,
        ),
        pixels_of(b.buffer()) == rendered_pixels(
            content,
            blank_pixels(b.width, b.height),
            b.width,
            b.height,
        ),
    ensures
        png_of(pix_width(a.buffer()), pix_height(a.buffer()), pixels_of(a.buffer())) == png_of(
            pix_width(b.buffer()),
            pix_height(b.buffer()),
            pixels_of(b.buffer()),
        ),
{
}

} // verus!
