use vstd::prelude::*;

verus! {

/// Failure reported by an output sink that rejected a write.
pub struct SinkError {
    pub message: String,
}

/// Failure crossing the Field-Source/Visitor boundary during a traversal.
pub struct KvError {
    pub message: String,
}

/// Failure surfaced by a render policy to the enclosing formatting pipeline.
pub struct RenderError {
    pub message: String,
}

/// Wraps a rejected write as a traversal failure; the textual message is kept.
pub fn kv_error_from_sink(e: SinkError) -> (r: KvError)
    ensures
        r.message@ == e.message@,
{
    KvError { message: e.message }
}

/// Surfaces a traversal failure as a render failure; the structured detail is
/// dropped, the textual message is kept.
pub fn render_error_from_kv(e: KvError) -> (r: RenderError)
    ensures
        r.message@ == e.message@,
{
    RenderError { message: e.message }
}

} // verus!
