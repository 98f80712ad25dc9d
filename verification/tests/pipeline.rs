use benchplot::chart::{build, BenchmarkResult, VectorDocument};
use benchplot::errors::ChartError;
use benchplot::fonts::{assign_family, catalog_with_faces, resolve, str_eq};
use benchplot::pipeline::{plan, render_chart, Args};
use benchplot::raster::{png_bytes, rasterize};
use benchplot::text::{u64_to_string, xml_escape};
use benchplot::value::bar_length;

fn series(entries: &[(&str, f64)]) -> Vec<BenchmarkResult> {
    let mut v = Vec::new();
    for (name, mean) in entries {
        v.push(BenchmarkResult {
            command: (*name).to_string(),
            mean_bits: mean.to_bits(),
        });
    }
    v
}

#[test]
fn build_counts_bars() {
    let s = series(&[("cmd-a", 0.12), ("cmd-b", 0.45)]);
    let doc = build("Program Run Comparison", "Time (s)", "Command", &s).unwrap();
    assert_eq!(doc.bar_count(), 2);
}

#[test]
fn build_counts_bars_many() {
    let s = series(&[("a", 1.0), ("b", 2.0), ("c", 0.5), ("d", 0.0), ("e", 3.25)]);
    let doc = build("t", "x", "y", &s).unwrap();
    assert_eq!(doc.bar_count(), 5);
}

#[test]
fn build_empty_fails() {
    let s: Vec<BenchmarkResult> = Vec::new();
    let r = build("t", "x", "y", &s);
    assert!(matches!(r, Err(ChartError::EmptyDataset)));
}

#[test]
fn build_rejects_nan() {
    let s = series(&[("ok", 0.5), ("bad", f64::NAN)]);
    let r = build("t", "x", "y", &s);
    assert!(matches!(r, Err(ChartError::InvalidValue)));
}

#[test]
fn build_rejects_infinity() {
    let s = series(&[("bad", f64::INFINITY)]);
    let r = build("t", "x", "y", &s);
    assert!(matches!(r, Err(ChartError::InvalidValue)));
    let s2 = series(&[("bad", f64::NEG_INFINITY)]);
    assert!(matches!(build("t", "x", "y", &s2), Err(ChartError::InvalidValue)));
}

#[test]
fn document_is_svg_with_bars() {
    let s = series(&[("cmd-a", 0.12), ("cmd-b", 0.45)]);
    let doc = build("Program Run Comparison", "Time (s)", "Command", &s).unwrap();
    let svg = doc.svg_native();
    assert!(svg.starts_with("<svg xmlns=\"http://www.w3.org/2000/svg\""));
    assert!(svg.ends_with("</svg>"));
    assert_eq!(svg.matches("steelblue").count(), 2);
    assert!(svg.contains(">cmd-a</text>"));
    assert!(svg.contains(">cmd-b</text>"));
    assert!(svg.contains("viewBox=\"0 0 800 500\""));
}

#[test]
fn document_escapes_labels() {
    let s = series(&[("a<b>&\"c\"", 1.0)]);
    let doc = build("t&t", "x", "y", &s).unwrap();
    let svg = doc.svg_native();
    assert!(svg.contains(">a&lt;b&gt;&amp;&quot;c&quot;</text>"));
    assert!(svg.contains(">t&amp;t</text>"));
}

#[test]
fn rasterize_fits_width_and_ratio() {
    let s = series(&[("cmd-a", 0.12), ("cmd-b", 0.45)]);
    let doc = build("t", "x", "y", &s).unwrap();
    let catalog = resolve();
    let img = rasterize(&doc, &catalog, 1600).unwrap();
    assert_eq!(img.width(), 1600);
    // round(500 * 1600 / 800) == 1000: the native 800x500 aspect is kept.
    assert_eq!(img.height(), 1000);
}

#[test]
fn rasterize_odd_width_rounds_height() {
    let s = series(&[("a", 1.0)]);
    let doc = build("t", "x", "y", &s).unwrap();
    let catalog = resolve();
    let img = rasterize(&doc, &catalog, 333).unwrap();
    assert_eq!(img.width(), 333);
    // round(500 * 333 / 800) == round(208.125) == 208.
    assert_eq!(img.height(), 208);
}

#[test]
fn rasterize_degenerate_document_fails() {
    let doc = VectorDocument {
        body: String::new(),
        width: 0,
        height: 500,
        bars: 0,
    };
    let catalog = resolve();
    let r = rasterize(&doc, &catalog, 1600);
    assert!(matches!(r, Err(ChartError::DegenerateGeometry)));
}

#[test]
fn rasterize_malformed_document_fails() {
    let doc = VectorDocument {
        body: "<rect".to_string(),
        width: 800,
        height: 500,
        bars: 0,
    };
    let catalog = resolve();
    let r = rasterize(&doc, &catalog, 100);
    assert!(matches!(r, Err(ChartError::MalformedDocument)));
}

#[test]
fn rasterize_zero_width_fails() {
    let s = series(&[("a", 1.0)]);
    let doc = build("t", "x", "y", &s).unwrap();
    let catalog = resolve();
    let r = rasterize(&doc, &catalog, 0);
    assert!(matches!(r, Err(ChartError::AllocationFailed)));
}

#[test]
fn png_encoding_is_deterministic() {
    let s = series(&[("a", 1.0), ("b", 2.0)]);
    let doc = build("t", "x", "y", &s).unwrap();
    let catalog = resolve();
    let img = rasterize(&doc, &catalog, 400).unwrap();
    let first = png_bytes(&img).unwrap();
    let second = png_bytes(&img).unwrap();
    assert_eq!(first, second);
}

#[test]
fn end_to_end_proportional_bars() {
    let results = series(&[("cmd-a", 0.12), ("cmd-b", 0.45)]);
    let catalog = resolve();
    let bytes = render_chart("Program Run Comparison", &results, &catalog, 1600).unwrap();
    let pixmap = resvg::tiny_skia::Pixmap::decode_png(&bytes).unwrap();
    assert_eq!(pixmap.width(), 1600);
    assert_eq!(pixmap.height(), 1000);
    // One scan line through each of the two bands; bars are steelblue
    // (70, 130, 180) runs. Native band centers are y=155 and y=345 out of
    // 500; doubled by the 1600/800 scale.
    let count_bar = |y: u32| -> u32 {
        let mut c = 0;
        for x in 0..1600 {
            let p = pixmap.pixel(x, y).unwrap();
            if p.alpha() == 255 && p.red() == 70 && p.green() == 130 && p.blue() == 180 {
                c += 1;
            }
        }
        c
    };
    let first = count_bar(310);
    let second = count_bar(690);
    assert!(first > 0);
    assert!(second > 0);
    // Expected native lengths: floor(0.12/0.45 * 560) == 149 and 560,
    // each doubled by the scale; antialiasing may trim the edges.
    assert!((second as i64 - 1120).abs() <= 6, "second bar was {second}");
    assert!((first as i64 - 298).abs() <= 6, "first bar was {first}");
}

#[test]
fn render_chart_is_deterministic() {
    let results = series(&[("cmd-a", 0.12), ("cmd-b", 0.45)]);
    let catalog = resolve();
    let first = render_chart("t", &results, &catalog, 640).unwrap();
    let second = render_chart("t", &results, &catalog, 640).unwrap();
    assert_eq!(first, second);
}

#[test]
fn render_chart_empty_fails() {
    let catalog = resolve();
    let r = render_chart("t", &Vec::new(), &catalog, 1600);
    assert!(matches!(r, Err(ChartError::EmptyDataset)));
}

#[test]
fn fonts_resolve_never_fails() {
    let catalog = resolve();
    assert!(!catalog.serif.is_empty());
    assert!(!catalog.sans_serif.is_empty());
    assert!(!catalog.cursive.is_empty());
    assert!(!catalog.fantasy.is_empty());
    assert!(!catalog.monospace.is_empty());
}

#[test]
fn fonts_fall_back_without_faces() {
    let db = resvg::usvg::fontdb::Database::new();
    let catalog = catalog_with_faces(db, Vec::new());
    assert_eq!(catalog.serif, "serif");
    assert_eq!(catalog.sans_serif, "sans-serif");
    assert_eq!(catalog.cursive, "cursive");
    assert_eq!(catalog.fantasy, "fantasy");
    assert_eq!(catalog.monospace, "monospace");
}

#[test]
fn fonts_prefer_the_named_family() {
    let db = resvg::usvg::fontdb::Database::new();
    let faces = vec!["DejaVu Sans".to_string(), "Arial".to_string()];
    let catalog = catalog_with_faces(db, faces);
    assert_eq!(catalog.sans_serif, "Arial");
    // "Times New Roman" is absent: the first discovered face stands in.
    assert_eq!(catalog.serif, "DejaVu Sans");
}

#[test]
fn assign_family_skips_unusable_names() {
    let faces = vec!["".to_string(), "".to_string(), "Liberation Mono".to_string()];
    let r = assign_family("Courier New", &faces, "monospace");
    assert_eq!(r, "Liberation Mono");
}

#[test]
fn str_eq_compares_contents() {
    assert!(str_eq("abc", "abc"));
    assert!(!str_eq("abc", "abd"));
    assert!(!str_eq("abc", "ab"));
}

#[test]
fn decimal_rendering() {
    assert_eq!(u64_to_string(0), "0");
    assert_eq!(u64_to_string(7), "7");
    assert_eq!(u64_to_string(1600), "1600");
    assert_eq!(u64_to_string(u64::MAX), "18446744073709551615");
}

#[test]
fn xml_escaping() {
    assert_eq!(xml_escape("plain"), "plain");
    assert_eq!(xml_escape("a<b>&\"c"), "a&lt;b&gt;&amp;&quot;c");
}

#[test]
fn bar_lengths_are_proportional() {
    let half = 0.25f64.to_bits();
    let whole = 0.5f64.to_bits();
    assert_eq!(bar_length(half, whole, 560), 280);
    assert_eq!(bar_length(whole, whole, 560), 560);
    assert_eq!(bar_length(0.0f64.to_bits(), whole, 560), 0);
    assert_eq!(bar_length((-0.1f64).to_bits(), whole, 560), 0);
    let twelve = 0.12f64.to_bits();
    let fortyfive = 0.45f64.to_bits();
    assert_eq!(bar_length(twelve, fortyfive, 560), 149);
}

#[test]
fn plan_names_each_command_after_itself() {
    let args = Args {
        args: vec!["sleep 1".to_string(), "sleep 2".to_string()],
        warmup: None,
        prepare: None,
        cleanup: Some("rm -f tmp".to_string()),
    };
    let p = plan(args);
    assert_eq!(p.commands.len(), 2);
    assert_eq!(p.commands[0].name.as_deref(), Some("sleep 1"));
    assert_eq!(p.commands[0].expression, "sleep 1");
    assert_eq!(p.commands[1].name.as_deref(), Some("sleep 2"));
    assert_eq!(p.warmup_count, 0);
    assert_eq!(p.cleanup_command.as_deref(), Some("rm -f tmp"));
}

#[test]
fn plan_keeps_warmup_count() {
    let args = Args {
        args: vec!["a".to_string(), "b".to_string()],
        warmup: Some(3),
        prepare: None,
        cleanup: None,
    };
    assert_eq!(plan(args).warmup_count, 3);
}

#[test]
fn error_messages_are_nonempty() {
    let all = [
        ChartError::EmptyDataset,
        ChartError::InvalidValue,
        ChartError::MalformedDocument,
        ChartError::DegenerateGeometry,
        ChartError::AllocationFailed,
        ChartError::RenderFailed,
        ChartError::IoError,
        ChartError::EncodeError,
        ChartError::SchedulerError,
    ];
    for e in all {
        assert!(!e.message().is_empty());
    }
    for (i, a) in all.iter().enumerate() {
        for b in &all[i + 1..] {
            assert_ne!(a.message(), b.message());
        }
    }
    assert_eq!(ChartError::EmptyDataset.message(), "the series of results is empty");
    assert_eq!(ChartError::IoError.message(), "a file operation failed");
}
