//! What holds of the lifts, the rendering and the boundary conversion taken
//! together.
use vstd::prelude::*;

use ballista_core::error::BallistaError as InnerBallistaError;
use datafusion::arrow::error::ArrowError;
use datafusion::error::DataFusionError as InnerDataFusionError;
use pyo3::PyErr;
use vstd::std_specs::convert::FromSpec;

use crate::upstream::generic_exception_message;
use crate::errors::{
    is_labeled, BallistaError, DataFusionError, ARROW_LABEL, BALLISTA_LABEL, DATAFUSION_LABEL,
};

verus! {

/// Text made of a label and a detail starts with that label.
pub proof fn lemma_labeled_starts_with_label(m: Seq<char>, label: Seq<char>)
    requires
        is_labeled(m, label),
    ensures
        label.is_prefix_of(m),
{
    assert(m.subrange(0, label.len() as int) =~= label);
}

/// A host exception lifted into an execution error and sent back across the
/// boundary comes out as the very same exception handle.
pub proof fn lemma_host_round_trip(h: PyErr, r: PyErr)
    requires
        <DataFusionError as FromSpec<PyErr>>::from_spec(h).crosses_to_host_as(r),
    ensures
        r == h,
{
}

/// However a lifted query-engine error is rendered, on either path, the text
/// starts with the query-engine label.
pub proof fn lemma_engine_label(x: InnerDataFusionError, m: Seq<char>)
    ensures
        <DataFusionError as FromSpec<InnerDataFusionError>>::from_spec(x).renders_as(m)
            ==> DATAFUSION_LABEL@.is_prefix_of(m),
        <BallistaError as FromSpec<InnerDataFusionError>>::from_spec(x).renders_as(m)
            ==> DATAFUSION_LABEL@.is_prefix_of(m),
{
    if is_labeled(m, DATAFUSION_LABEL@) {
        lemma_labeled_starts_with_label(m, DATAFUSION_LABEL@);
    }
}

/// However a lifted columnar-format error is rendered, on either path, the
/// text starts with the columnar-format label.
pub proof fn lemma_format_label(a: ArrowError, m: Seq<char>)
    ensures
        <DataFusionError as FromSpec<ArrowError>>::from_spec(a).renders_as(m)
            ==> ARROW_LABEL@.is_prefix_of(m),
        <BallistaError as FromSpec<ArrowError>>::from_spec(a).renders_as(m)
            ==> ARROW_LABEL@.is_prefix_of(m),
{
    if is_labeled(m, ARROW_LABEL@) {
        lemma_labeled_starts_with_label(m, ARROW_LABEL@);
    }
}

/// However a lifted scheduler error is rendered, the text starts with the
/// scheduler label.
pub proof fn lemma_scheduler_label(b: InnerBallistaError, m: Seq<char>)
    ensures
        <BallistaError as FromSpec<InnerBallistaError>>::from_spec(b).renders_as(m)
            ==> BALLISTA_LABEL@.is_prefix_of(m),
{
    if is_labeled(m, BALLISTA_LABEL@) {
        lemma_labeled_starts_with_label(m, BALLISTA_LABEL@);
    }
}

/// A lifted query-engine error reaches the host, on either path, as a generic
/// exception whose message starts with the query-engine label.
pub proof fn lemma_engine_label_at_boundary(x: InnerDataFusionError, r: PyErr)
    ensures
        <DataFusionError as FromSpec<InnerDataFusionError>>::from_spec(x).crosses_to_host_as(r)
            ==> generic_exception_message(r) is Some && DATAFUSION_LABEL@.is_prefix_of(
            generic_exception_message(r)->Some_0,
        ),
        <BallistaError as FromSpec<InnerDataFusionError>>::from_spec(x).crosses_to_host_as(r)
            ==> generic_exception_message(r) is Some && DATAFUSION_LABEL@.is_prefix_of(
            generic_exception_message(r)->Some_0,
        ),
{
    if let Some(m) = generic_exception_message(r) {
        lemma_engine_label(x, m);
    }
}

/// A lifted columnar-format error reaches the host, on either path, as a
/// generic exception whose message starts with the columnar-format label.
pub proof fn lemma_format_label_at_boundary(a: ArrowError, r: PyErr)
    ensures
        <DataFusionError as FromSpec<ArrowError>>::from_spec(a).crosses_to_host_as(r)
            ==> generic_exception_message(r) is Some && ARROW_LABEL@.is_prefix_of(
            generic_exception_message(r)->Some_0,
        ),
        <BallistaError as FromSpec<ArrowError>>::from_spec(a).crosses_to_host_as(r)
            ==> generic_exception_message(r) is Some && ARROW_LABEL@.is_prefix_of(
            generic_exception_message(r)->Some_0,
        ),
{
    if let Some(m) = generic_exception_message(r) {
        lemma_format_label(a, m);
    }
}

/// A lifted scheduler error reaches the host as a generic exception whose
/// message starts with the scheduler label.
pub proof fn lemma_scheduler_label_at_boundary(b: InnerBallistaError, r: PyErr)
    ensures
        <BallistaError as FromSpec<InnerBallistaError>>::from_spec(b).crosses_to_host_as(r)
            ==> generic_exception_message(r) is Some && BALLISTA_LABEL@.is_prefix_of(
            generic_exception_message(r)->Some_0,
        ),
{
    if let Some(m) = generic_exception_message(r) {
        lemma_scheduler_label(b, m);
    }
}

/// Two distinct query-engine errors lift into two distinct values, on either
/// path: lifting never merges or shares payloads.
pub proof fn lemma_engine_lifts_distinct(x1: InnerDataFusionError, x2: InnerDataFusionError)
    requires
        x1 != x2,
    ensures
        <DataFusionError as FromSpec<InnerDataFusionError>>::from_spec(x1)
            != <DataFusionError as FromSpec<InnerDataFusionError>>::from_spec(x2),
        <BallistaError as FromSpec<InnerDataFusionError>>::from_spec(x1)
            != <BallistaError as FromSpec<InnerDataFusionError>>::from_spec(x2),
{
}

/// Two distinct columnar-format errors lift into two distinct values, on
/// either path.
pub proof fn lemma_format_lifts_distinct(a1: ArrowError, a2: ArrowError)
    requires
        a1 != a2,
    ensures
        <DataFusionError as FromSpec<ArrowError>>::from_spec(a1)
            != <DataFusionError as FromSpec<ArrowError>>::from_spec(a2),
        <BallistaError as FromSpec<ArrowError>>::from_spec(a1)
            != <BallistaError as FromSpec<ArrowError>>::from_spec(a2),
{
}

/// Two distinct scheduler errors lift into two distinct values.
pub proof fn lemma_scheduler_lifts_distinct(b1: InnerBallistaError, b2: InnerBallistaError)
    requires
        b1 != b2,
    ensures
        <BallistaError as FromSpec<InnerBallistaError>>::from_spec(b1)
            != <BallistaError as FromSpec<InnerBallistaError>>::from_spec(b2),
{
}

/// Two distinct host exceptions lift into two distinct values.
pub proof fn lemma_host_lifts_distinct(h1: PyErr, h2: PyErr)
    requires
        h1 != h2,
    ensures
        <DataFusionError as FromSpec<PyErr>>::from_spec(h1)
            != <DataFusionError as FromSpec<PyErr>>::from_spec(h2),
{
}

} // verus!
