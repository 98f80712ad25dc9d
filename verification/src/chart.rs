//! The chart builder: from a series of named timing values to a vector
//! document.
//!
//! The document is SVG text over a fixed native canvas of 800 by 500 units:
//! a white background, a title, two axis labels, a baseline, and one
//! horizontal bar per series entry, in series order, every bar starting at
//! the value-axis baseline. Bar lengths are proportional to each value's
//! share of the largest non-negative value. Text uses the generic
//! `sans-serif` family; the font catalog decides at rasterization time which
//! concrete face that is. The exact text of the document is stated
//! character for character by the spec functions here.

use vstd::prelude::*;
use vstd::arithmetic::div_mod::lemma_div_is_ordered;
use vstd::arithmetic::div_mod::lemma_div_multiples_vanish;
use vstd::arithmetic::mul::lemma_mul_inequality;
use crate::errors::ChartError;
use crate::text::dec_digits;
use crate::text::u64_to_string;
use crate::text::xml_escape;
use crate::text::xml_escaped;
use crate::value::bar_len_spec;
use crate::value::bar_length;
use crate::value::is_finite;
use crate::value::is_finite_bits;
use crate::value::sign_bit;

verus! {

/// One timing result: a command label and the mean duration in seconds,
/// carried as the bit pattern of a 64-bit IEEE-754 number.
#[derive(Clone, Debug)]
pub struct BenchmarkResult {
    pub command: String,
    pub mean_bits: u64,
}

/// The native canvas width of every chart document, in user units.
pub const NATIVE_WIDTH: u64 = 800;

/// The native canvas height of every chart document, in user units.
pub const NATIVE_HEIGHT: u64 = 500;

/// The width in user units of the area the longest bar spans.
pub const PLOT_SPAN: u64 = 560;

/// Whether every value in the series is finite.
pub open spec fn all_finite(s: Seq<BenchmarkResult>) -> bool {
    forall|i: int| 0 <= i < s.len() ==> is_finite_bits(#[trigger] s[i].mean_bits)
}

/// The largest non-negative value bit pattern among the first `i` entries;
/// zero when there is none. For finite non-negative values the bit patterns
/// order exactly as the values, so this is the series maximum.
pub open spec fn max_bits_upto(s: Seq<BenchmarkResult>, i: nat) -> u64
    decreases i,
{
    if i == 0 {
        0
    } else {
        let prev = max_bits_upto(s, (i - 1) as nat);
        let b = s[i - 1].mean_bits;
        if sign_bit(b) == 0 && b > prev {
            b
        } else {
            prev
        }
    }
}

/// The largest non-negative value bit pattern of the whole series.
pub open spec fn max_bits_spec(s: Seq<BenchmarkResult>) -> u64 {
    max_bits_upto(s, s.len())
}

/// The top edge of the band of bar `i` out of `n`: the plot area runs from
/// 60 to 440 user units and is divided evenly.
pub open spec fn band_top(i: int, n: int) -> int {
    60 + (i * 380) / n
}

/// The height of the band of bar `i` out of `n`.
pub open spec fn band_height(i: int, n: int) -> int {
    band_top(i + 1, n) - band_top(i, n)
}

/// The top edge of the drawn bar: inset by two units when the band leaves
/// room for a gap between neighbouring bars.
pub open spec fn bar_y(i: int, n: int) -> int {
    if band_height(i, n) >= 5 {
        band_top(i, n) + 2
    } else {
        band_top(i, n)
    }
}

/// The height of the drawn bar within its band.
pub open spec fn bar_h(i: int, n: int) -> int {
    if band_height(i, n) >= 5 {
        band_height(i, n) - 4
    } else {
        band_height(i, n)
    }
}

/// The baseline of the bar's label text, at the band's vertical middle.
pub open spec fn label_y(i: int, n: int) -> int {
    band_top(i, n) + band_height(i, n) / 2 + 5
}

/// The text of the bar and label of entry `r`, standing as bar `i` of `n`
/// with `m` the series' largest non-negative value bits.
pub open spec fn row_spec(r: BenchmarkResult, i: int, n: int, m: u64) -> Seq<char> {
    "<rect x=\"220\" y=\""@ + dec_digits(bar_y(i, n) as nat) + "\" width=\""@ + dec_digits(
        bar_len_spec(r.mean_bits, m, PLOT_SPAN) as nat,
    ) + "\" height=\""@ + dec_digits(bar_h(i, n) as nat)
        + "\" fill=\"steelblue\"/><text x=\"210\" y=\""@ + dec_digits(label_y(i, n) as nat)
        + "\" font-size=\"13\" font-family=\"sans-serif\" text-anchor=\"end\">"@ + xml_escaped(
        r.command@,
    ) + "</text>"@
}

/// The texts of the first `i` rows, in series order.
pub open spec fn rows_upto(s: Seq<BenchmarkResult>, m: u64, i: nat) -> Seq<char>
    decreases i,
{
    if i == 0 {
        Seq::empty()
    } else {
        rows_upto(s, m, (i - 1) as nat) + row_spec(s[i - 1], (i - 1) as int, s.len() as int, m)
    }
}

/// The static front of the document body: background, baseline, title and
/// the two axis labels, with user text escaped.
pub open spec fn prefix_spec(title: Seq<char>, xl: Seq<char>, yl: Seq<char>) -> Seq<char> {
    "<rect x=\"0\" y=\"0\" width=\"800\" height=\"500\" fill=\"white\"/><rect x=\"219\" y=\"60\" width=\"1\" height=\"380\" fill=\"black\"/><text x=\"400\" y=\"30\" font-size=\"20\" font-family=\"sans-serif\" text-anchor=\"middle\">"@
        + xml_escaped(title)
        + "</text><text x=\"500\" y=\"480\" font-size=\"14\" font-family=\"sans-serif\" text-anchor=\"middle\">"@
        + xml_escaped(xl) + "</text><text x=\"20\" y=\"50\" font-size=\"14\" font-family=\"sans-serif\">"@
        + xml_escaped(yl) + "</text>"@
}

/// The whole document body for a validated series.
pub open spec fn body_spec(
    title: Seq<char>,
    xl: Seq<char>,
    yl: Seq<char>,
    s: Seq<BenchmarkResult>,
) -> Seq<char> {
    prefix_spec(title, xl, yl) + rows_upto(s, max_bits_spec(s), s.len())
}

/// A vector chart document: the body text between the SVG root tags, the
/// native canvas size, and the number of bars it draws.
pub struct VectorDocument {
    pub body: String,
    pub width: u64,
    pub height: u64,
    pub bars: usize,
}

/// The SVG root open tag scaling the native `nw` by `nh` canvas onto a
/// `w` by `h` viewport.
pub open spec fn header_spec(nw: int, nh: int, w: int, h: int) -> Seq<char> {
    "<svg xmlns=\"http://www.w3.org/2000/svg\" viewBox=\"0 0 "@ + dec_digits(nw as nat) + " "@
        + dec_digits(nh as nat) + "\" width=\""@ + dec_digits(w as nat) + "\" height=\""@
        + dec_digits(h as nat) + "\">"@
}

/// The full SVG text of a document placed on a `w` by `h` viewport.
pub open spec fn svg_spec(doc: &VectorDocument, w: int, h: int) -> Seq<char> {
    header_spec(doc.width as int, doc.height as int, w, h) + doc.body@ + "</svg>"@
}

impl VectorDocument {
    /// How many bars the document draws.
    pub fn bar_count(&self) -> (r: usize)
        ensures
            r == self.bars,
    {
        self.bars
    }

    /// The full SVG text on a viewport of the given size.
    pub fn svg_at(&self, w: u64, h: u64) -> (s: String)
        ensures
            s@ == svg_spec(self, w as int, h as int),
    {
        let mut s = String::from_str("<svg xmlns=\"http://www.w3.org/2000/svg\" viewBox=\"0 0 ");
        let nw = u64_to_string(self.width);
        s.append(nw.as_str());
        s.append(" ");
        let nh = u64_to_string(self.height);
        s.append(nh.as_str());
        s.append("\" width=\"");
        let ws = u64_to_string(w);
        s.append(ws.as_str());
        s.append("\" height=\"");
        let hs = u64_to_string(h);
        s.append(hs.as_str());
        s.append("\">");
        s.append(self.body.as_str());
        s.append("</svg>");
        s
    }

    /// The full SVG text at the document's native size.
    pub fn svg_native(&self) -> (s: String)
        ensures
            s@ == svg_spec(self, self.width as int, self.height as int),
    {
        self.svg_at(self.width, self.height)
    }
}

/// The band edges of bar `i` out of `n`, executable form.
fn band_of(i: usize, n: usize) -> (r: (u64, u64))
    requires
        1 <= n,
        i < n,
    ensures
        r.0 == band_top(i as int, n as int),
        r.1 == band_top(i as int + 1, n as int),
        60 <= r.0 <= r.1 <= 440,
{
    let t128: u128 = ((i as u128) * 380) / (n as u128);
    let b128: u128 = (((i + 1) as u128) * 380) / (n as u128);
    proof {
        let ii = i as int;
        let nn = n as int;
        lemma_mul_inequality(ii, nn, 380);
        lemma_mul_inequality(ii + 1, nn, 380);
        lemma_div_is_ordered(ii * 380, nn * 380, nn);
        lemma_div_is_ordered((ii + 1) * 380, nn * 380, nn);
        lemma_div_is_ordered(ii * 380, (ii + 1) * 380, nn);
        lemma_div_multiples_vanish(380, nn);
        assert(nn * 380 == 380 * nn) by (nonlinear_arith);
        assert(ii * 380 <= (ii + 1) * 380) by (nonlinear_arith);
    }
    let t = 60 + (t128 as u64);
    let b = 60 + (b128 as u64);
    (t, b)
}

/// Builds the text of one bar row.
fn row_string(r: &BenchmarkResult, i: usize, n: usize, m: u64) -> (s: String)
    requires
        1 <= n,
        i < n,
    ensures
        s@ == row_spec(*r, i as int, n as int, m),
{
    let (t, b) = band_of(i, n);
    let h = b - t;
    let by_: u64;
    let bh: u64;
    if h >= 5 {
        by_ = t + 2;
        bh = h - 4;
    } else {
        by_ = t;
        bh = h;
    }
    let ly = t + h / 2 + 5;
    let len = bar_length(r.mean_bits, m, PLOT_SPAN);
    let mut s = String::from_str("<rect x=\"220\" y=\"");
    let d1 = u64_to_string(by_);
    s.append(d1.as_str());
    s.append("\" width=\"");
    let d2 = u64_to_string(len);
    s.append(d2.as_str());
    s.append("\" height=\"");
    let d3 = u64_to_string(bh);
    s.append(d3.as_str());
    s.append("\" fill=\"steelblue\"/><text x=\"210\" y=\"");
    let d4 = u64_to_string(ly);
    s.append(d4.as_str());
    s.append("\" font-size=\"13\" font-family=\"sans-serif\" text-anchor=\"end\">");
    let esc = xml_escape(r.command.as_str());
    s.append(esc.as_str());
    s.append("</text>");
    s
}

/// The largest non-negative value bits of the series, executable form.
fn max_bits(series: &Vec<BenchmarkResult>) -> (m: u64)
    ensures
        m == max_bits_spec(series@),
{
    let n = series.len();
    let mut m: u64 = 0;
    let mut i: usize = 0;
    while i < n
        invariant
            n == series@.len(),
            i <= n,
            m == max_bits_upto(series@, i as nat),
        decreases n - i,
    {
        let b = series[i].mean_bits;
        if (b >> 63) == 0 && b > m {
            m = b;
        }
        i = i + 1;
    }
    m
}

/// Builds the vector chart document for a series of results.
///
/// The series must be non-empty and every value finite; otherwise the
/// matching error is returned and no document is produced. Series order is
/// display order: nothing is sorted. The document draws exactly one bar per
/// entry, each starting at the zero baseline.
pub fn build(
    title: &str,
    x_label: &str,
    y_label: &str,
    series: &Vec<BenchmarkResult>,
) -> (r: Result<VectorDocument, ChartError>)
    ensures
        r matches Err(e) && e == ChartError::EmptyDataset <==> series@.len() == 0,
        r matches Err(e) && e == ChartError::InvalidValue <==> series@.len() > 0 && !all_finite(
            series@,
        ),
        r is Ok <==> series@.len() > 0 && all_finite(series@),
        r matches Ok(doc) ==> {
            &&& doc.bars == series@.len()
            &&& doc.width == NATIVE_WIDTH
            &&& doc.height == NATIVE_HEIGHT
            &&& doc.body@ == body_spec(title@, x_label@, y_label@, series@)
        },
{
    let n = series.len();
    if n == 0 {
        return Err(ChartError::EmptyDataset);
    }
    let mut i: usize = 0;
    while i < n
        invariant
            n == series@.len(),
            i <= n,
            forall|j: int| 0 <= j < i ==> is_finite_bits(#[trigger] series@[j].mean_bits),
        decreases n - i,
    {
        if !is_finite(series[i].mean_bits) {
            return Err(ChartError::InvalidValue);
        }
        i = i + 1;
    }
    let m = max_bits(series);
    let mut body = String::from_str(
        "<rect x=\"0\" y=\"0\" width=\"800\" height=\"500\" fill=\"white\"/><rect x=\"219\" y=\"60\" width=\"1\" height=\"380\" fill=\"black\"/><text x=\"400\" y=\"30\" font-size=\"20\" font-family=\"sans-serif\" text-anchor=\"middle\">",
    );
    let esc_title = xml_escape(title);
    body.append(esc_title.as_str());
    body.append(
        "</text><text x=\"500\" y=\"480\" font-size=\"14\" font-family=\"sans-serif\" text-anchor=\"middle\">",
    );
    let esc_xl = xml_escape(x_label);
    body.append(esc_xl.as_str());
    body.append("</text><text x=\"20\" y=\"50\" font-size=\"14\" font-family=\"sans-serif\">");
    let esc_yl = xml_escape(y_label);
    body.append(esc_yl.as_str());
    body.append("</text>");
    let mut rows = String::new();
    let mut k: usize = 0;
    while k < n
        invariant
            n == series@.len(),
            1 <= n,
            k <= n,
            m == max_bits_spec(series@),
            rows@ == rows_upto(series@, m, k as nat),
        decreases n - k,
    {
        let row = row_string(&series[k], k, n, m);
        rows.append(row.as_str());
        k = k + 1;
    }
    body.append(rows.as_str());
    Ok(
        VectorDocument {
            body,
            width: NATIVE_WIDTH,
            height: NATIVE_HEIGHT,
            bars: n,
        },
    )
}

} // verus!
