use vstd::prelude::*;

verus! {

/// The protocol by which traces are exported.
#[derive(Clone, Copy, Debug, PartialEq, Eq, Structural)]
pub enum OtelExporter {
    OtlpGrpc,
    OtlpHttp,
}

impl Default for OtelExporter {
    fn default() -> (r: OtelExporter)
        ensures
            r == OtelExporter::OtlpGrpc,
    {
        OtelExporter::OtlpGrpc
    }
}

} // verus!
