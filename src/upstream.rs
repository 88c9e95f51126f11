//! The error types of the engines this library sits between, and the few calls
//! into them that rendering and the host boundary need.
use vstd::prelude::*;

use ballista_core::error::BallistaError as InnerBallistaError;
use datafusion::arrow::error::ArrowError;
use datafusion::error::DataFusionError as InnerDataFusionError;
use pyo3::exceptions::PyException;
use pyo3::PyErr;

verus! {

/// The query engine's error, carried as an opaque value.
#[verifier::external_type_specification]
#[verifier::external_body]
pub struct ExInnerDataFusionError(InnerDataFusionError);

/// The columnar format's error, carried as an opaque value.
#[verifier::external_type_specification]
#[verifier::external_body]
pub struct ExArrowError(ArrowError);

/// The distributed scheduler's error, carried as an opaque value.
#[verifier::external_type_specification]
#[verifier::external_body]
pub struct ExInnerBallistaError(InnerBallistaError);

/// A host exception handle, carried as an opaque value.
#[verifier::external_type_specification]
#[verifier::external_body]
pub struct ExPyErr(PyErr);

/// Relies on the `Debug` impl that datafusion derives for its `DataFusionError`
/// to describe the error; nothing is assumed of the text.
#[verifier::external_body]
pub(crate) fn datafusion_debug(e: &InnerDataFusionError) -> String {
    format!("{:?}", e)
}

/// Relies on the `Debug` impl that arrow derives for `ArrowError` to describe
/// the error; nothing is assumed of the text.
#[verifier::external_body]
pub(crate) fn arrow_debug(e: &ArrowError) -> String {
    format!("{:?}", e)
}

/// Relies on the `Debug` impl that ballista derives for its `BallistaError` to
/// describe the error; nothing is assumed of the text.
#[verifier::external_body]
pub(crate) fn ballista_debug(e: &InnerBallistaError) -> String {
    format!("{:?}", e)
}

/// Relies on pyo3's `Debug` impl for `PyErr` (type, value and traceback of the
/// exception, read under the interpreter lock, which the `auto-initialize`
/// feature makes available); nothing is assumed of the text.
#[verifier::external_body]
pub(crate) fn python_debug(e: &PyErr) -> String {
    format!("{:?}", e)
}

/// The message of a host exception of the generic `Exception` type (the one
/// argument it was built with), or `None` for an exception of any other type.
pub uninterp spec fn generic_exception_message(e: PyErr) -> Option<Seq<char>>;

/// Relies on pyo3's `PyException::new_err`: a new, lazily built exception of
/// the generic `Exception` type whose one argument is `msg`.
#[verifier::external_body]
pub(crate) fn new_host_exception(msg: String) -> (r: PyErr)
    ensures
        generic_exception_message(r) == Some(msg@),
{
    PyException::new_err(msg)
}

} // verus!
