//! The error kinds of the rendering pipeline.

use vstd::prelude::*;

verus! {

/// Everything that can go wrong between receiving timing results and
/// producing PNG bytes. Every failure is terminal for the current render:
/// nothing in the pipeline retries.
#[derive(Clone, Copy, Debug, PartialEq, Eq, Structural)]
pub enum ChartError {
    /// The series handed to the chart builder had no entries.
    EmptyDataset,
    /// A value in the series was not a finite number.
    InvalidValue,
    /// The vector document could not be parsed back into geometry.
    MalformedDocument,
    /// The document's native width or height was zero.
    DegenerateGeometry,
    /// The pixel buffer dimensions were unusable or the buffer could not be made.
    AllocationFailed,
    /// The rasterizer reported a failure while drawing.
    RenderFailed,
    /// The operating system refused a file operation.
    IoError,
    /// The pixel buffer could not be encoded as PNG bytes.
    EncodeError,
    /// The external benchmark scheduler failed; no rendering was attempted.
    SchedulerError,
}

/// The diagnostic phrase of each error kind: one fixed, distinct sentence
/// per variant.
pub open spec fn message_spec(e: ChartError) -> Seq<char> {
    match e {
        ChartError::EmptyDataset => "the series of results is empty"@,
        ChartError::InvalidValue => "a value in the series is not finite"@,
        ChartError::MalformedDocument => "the vector document could not be parsed"@,
        ChartError::DegenerateGeometry => "the document has a zero dimension"@,
        ChartError::AllocationFailed => "the pixel buffer could not be allocated"@,
        ChartError::RenderFailed => "the rasterizer failed while drawing"@,
        ChartError::IoError => "a file operation failed"@,
        ChartError::EncodeError => "the image could not be encoded as PNG"@,
        ChartError::SchedulerError => "the benchmark scheduler failed"@,
    }
}

impl ChartError {
    /// A short diagnostic phrase for the error, for user-facing messages.
    pub fn message(&self) -> (r: &'static str)
        ensures
            r@ == message_spec(*self),
            r@.len() > 0,
    {
        proof {
            reveal_strlit("the series of results is empty");
            reveal_strlit("a value in the series is not finite");
            reveal_strlit("the vector document could not be parsed");
            reveal_strlit("the document has a zero dimension");
            reveal_strlit("the pixel buffer could not be allocated");
            reveal_strlit("the rasterizer failed while drawing");
            reveal_strlit("a file operation failed");
            reveal_strlit("the image could not be encoded as PNG");
            reveal_strlit("the benchmark scheduler failed");
        }
        match self {
            ChartError::EmptyDataset => "the series of results is empty",
            ChartError::InvalidValue => "a value in the series is not finite",
            ChartError::MalformedDocument => "the vector document could not be parsed",
            ChartError::DegenerateGeometry => "the document has a zero dimension",
            ChartError::AllocationFailed => "the pixel buffer could not be allocated",
            ChartError::RenderFailed => "the rasterizer failed while drawing",
            ChartError::IoError => "a file operation failed",
            ChartError::EncodeError => "the image could not be encoded as PNG",
            ChartError::SchedulerError => "the benchmark scheduler failed",
        }
    }
}

} // verus!
