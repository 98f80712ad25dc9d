//! The orchestrator's decisions: turning the user's arguments into the
//! scheduler's input values, and driving the render pipeline over the
//! scheduler's results.
//!
//! Running the benchmarks is the external scheduler's business and happens
//! outside this library; what is decided here — which commands with which
//! names, the warmup default, and the build, rasterize and encode sequence —
//! is verified.

use vstd::prelude::*;
use crate::chart::BenchmarkResult;
use crate::chart::NATIVE_HEIGHT;
use crate::chart::NATIVE_WIDTH;
use crate::chart::all_finite;
use crate::chart::body_spec;
use crate::chart::build;
use crate::chart::header_spec;
use crate::errors::ChartError;
use crate::fonts::FontCatalog;
use crate::raster::blank_pixels;
use crate::raster::parsed_with;
use crate::raster::pix_height;
use crate::raster::pix_width;
use crate::raster::pixels_of;
use crate::raster::png_bytes;
use crate::raster::png_of;
use crate::raster::rasterize;
use crate::raster::rendered_pixels;
use crate::raster::scaled_height;
use crate::raster::size_ok;
use crate::raster::svg_parses;

verus! {

/// The command-line arguments of a benchmark run: at least two commands to
/// compare, an optional warmup count, optional preparation commands, and an
/// optional cleanup command.
#[derive(Debug, Default)]
pub struct Args {
    pub args: Vec<String>,
    pub warmup: Option<u64>,
    pub prepare: Option<Vec<String>>,
    pub cleanup: Option<String>,
}

/// One command handed to the scheduler: an optional display name and the
/// shell expression to run.
#[derive(Debug)]
pub struct CommandSpec {
    pub name: Option<String>,
    pub expression: String,
}

/// Everything the external scheduler needs for one run.
#[derive(Debug)]
pub struct RunPlan {
    pub commands: Vec<CommandSpec>,
    pub warmup_count: u64,
    pub preparation_command: Option<Vec<String>>,
    pub cleanup_command: Option<String>,
}

/// Turns the arguments into the scheduler's input values: each command
/// expression becomes one command named after itself, in the given order;
/// a missing warmup count means zero warmup runs; preparation and cleanup
/// pass through unchanged.
pub fn plan(args: Args) -> (p: RunPlan)
    ensures
        p.commands@.len() == args.args@.len(),
        forall|i: int|
            0 <= i < args.args@.len() ==> (#[trigger] p.commands@[i]).name == Some(args.args@[i])
                && p.commands@[i].expression == args.args@[i],
        p.warmup_count == (match args.warmup {
            Some(w) => w,
            None => 0u64,
        }),
        p.preparation_command == args.prepare,
        p.cleanup_command == args.cleanup,
{
    let mut commands: Vec<CommandSpec> = Vec::new();
    let n = args.args.len();
    let mut i: usize = 0;
    while i < n
        invariant
            n == args.args@.len(),
            i <= n,
            commands@.len() == i,
            forall|j: int|
                0 <= j < i ==> (#[trigger] commands@[j]).name == Some(args.args@[j])
                    && commands@[j].expression == args.args@[j],
        decreases n - i,
    {
        let expression = args.args[i].clone();
        let name = Some(args.args[i].clone());
        commands.push(CommandSpec { name, expression });
        i = i + 1;
    }
    let warmup_count = match args.warmup {
        Some(w) => w,
        None => 0,
    };
    RunPlan { commands, warmup_count, preparation_command: args.prepare, cleanup_command: args.cleanup }
}

/// The full SVG text of the chart for a series, on a `w` by `h` viewport:
/// what `build` followed by the rasterizer's viewport sizing produces.
pub open spec fn chart_svg_text(
    title: Seq<char>,
    xl: Seq<char>,
    yl: Seq<char>,
    s: Seq<BenchmarkResult>,
    w: int,
    h: int,
) -> Seq<char> {
    header_spec(NATIVE_WIDTH as int, NATIVE_HEIGHT as int, w, h) + body_spec(title, xl, yl, s)
        + "</svg>"@
}

/// The pixel height of a chart rendered at the given width.
pub open spec fn chart_height(target_width: u32) -> int {
    scaled_height(NATIVE_HEIGHT as int, NATIVE_WIDTH as int, target_width as int)
}

/// Drives the render pipeline over the scheduler's results: build the
/// vector document, rasterize it at the target width, encode the pixels as
/// PNG bytes.
///
/// An empty series and a series with a non-finite value are rejected
/// exactly as `build` rejects them. For a valid series, an unusable pixel
/// size fails with `AllocationFailed` and a document the parser cannot
/// read with `MalformedDocument`, each exactly when its condition holds;
/// otherwise the call succeeds, and the bytes are the PNG encoding of
/// drawing the chart document over a blank buffer of the target size — a
/// function of the title, the results, the catalog's font state and the
/// width alone, so the same call twice gives byte-identical output.
pub fn render_chart(
    title: &str,
    results: &Vec<BenchmarkResult>,
    catalog: &FontCatalog,
    target_width: u32,
) -> (r: Result<Vec<u8>, ChartError>)
    ensures
        r == Result::<Vec<u8>, ChartError>::Err(ChartError::EmptyDataset) <==> results@.len() == 0,
        r == Result::<Vec<u8>, ChartError>::Err(ChartError::InvalidValue) <==> results@.len() > 0
            && !all_finite(results@),
        results@.len() > 0 && all_finite(results@) ==> {
            let h = chart_height(target_width);
            let text = chart_svg_text(
                title@,
                "Time (s)"@,
                "Command"@,
                results@,
                target_width as int,
                h,
            );
            &&& (r == Result::<Vec<u8>, ChartError>::Err(ChartError::AllocationFailed) <==> !size_ok(
                target_width as int,
                h,
            ))
            &&& size_ok(target_width as int, h) ==> {
                &&& (r is Ok <==> svg_parses(text))
                &&& (r == Result::<Vec<u8>, ChartError>::Err(ChartError::MalformedDocument) <==> !svg_parses(
                    text,
                ))
                &&& r matches Ok(v) ==> v@ == png_of(
                    target_width,
                    h as u32,
                    rendered_pixels(
                        parsed_with(text, catalog.db),
                        blank_pixels(target_width, h as u32),
                        target_width,
                        h as u32,
                    ),
                )
            }
        },
        r matches Err(e) ==> (e == ChartError::EmptyDataset || e == ChartError::InvalidValue
            || e == ChartError::AllocationFailed || e == ChartError::MalformedDocument),
{
    let doc = match build(title, "Time (s)", "Command", results) {
        Ok(d) => d,
        Err(e) => {
            return Err(e);
        },
    };
    proof {
        assert(crate::chart::svg_spec(
            &doc,
            target_width as int,
            chart_height(target_width),
        ) == chart_svg_text(
            title@,
            "Time (s)"@,
            "Command"@,
            results@,
            target_width as int,
            chart_height(target_width),
        ));
    }
    let img = match rasterize(&doc, catalog, target_width) {
        Ok(im) => im,
        Err(e) => {
            return Err(e);
        },
    };
    match png_bytes(&img) {
        Ok(v) => {
            proof {
                assert(pix_width(img.buffer()) == img.width && pix_height(img.buffer())
                    == img.height);
                assert(img.height as int == chart_height(target_width));
                assert(v@ == png_of(
                    pix_width(img.buffer()),
                    pix_height(img.buffer()),
                    pixels_of(img.buffer()),
                ));
            }
            Ok(v)
        },
        Err(e) => Err(e),
    }
}

} // verus!
