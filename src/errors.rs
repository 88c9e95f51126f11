//! The two unified error types: one for the single-node execution path, one
//! for the distributed scheduling path.
use vstd::prelude::*;

use ballista_core::error::BallistaError as InnerBallistaError;
use datafusion::arrow::error::ArrowError;
use datafusion::error::DataFusionError as InnerDataFusionError;
use pyo3::PyErr;

use crate::upstream::{
    arrow_debug, ballista_debug, datafusion_debug, generic_exception_message, new_host_exception,
    python_debug,
};

verus! {

/// Tag in front of a rendered query-engine error.
pub const DATAFUSION_LABEL: &'static str = "DataFusion error: ";

/// Tag in front of a rendered columnar-format error.
pub const ARROW_LABEL: &'static str = "Arrow error: ";

/// Tag in front of a rendered host exception.
pub const PYTHON_LABEL: &'static str = "Python error ";

/// Tag in front of a rendered scheduler error.
pub const BALLISTA_LABEL: &'static str = "Ballista error: ";

/// Returns `label` followed by `detail`.
pub fn labeled(label: &str, detail: &str) -> (r: String)
    ensures
        r@ == label@ + detail@,
{
    let s = String::from_str(label);
    s.concat(detail)
}

/// `m` is `label` followed by some detail text.
pub open spec fn is_labeled(m: Seq<char>, label: Seq<char>) -> bool {
    exists|d: Seq<char>| m == label + d
}

/// Every way a single-node execution call can fail.
#[derive(Debug)]
pub enum DataFusionError {
    ExecutionError(InnerDataFusionError),
    ArrowError(ArrowError),
    Common(String),
    PythonError(PyErr),
}

impl DataFusionError {
    /// `m` is a rendering of `self`: a diagnostic verbatim, anything else its
    /// subsystem's label followed by a description of the payload.
    pub open spec fn renders_as(&self, m: Seq<char>) -> bool {
        match self {
            DataFusionError::ExecutionError(_) => is_labeled(m, DATAFUSION_LABEL@),
            DataFusionError::ArrowError(_) => is_labeled(m, ARROW_LABEL@),
            DataFusionError::PythonError(_) => is_labeled(m, PYTHON_LABEL@),
            DataFusionError::Common(s) => m == s@,
        }
    }

    /// `r` is what `self` becomes at the host boundary: a wrapped host
    /// exception is handed back as the very same handle; anything else becomes
    /// a generic exception whose message is a rendering of `self`.
    pub open spec fn crosses_to_host_as(&self, r: PyErr) -> bool {
        match self {
            DataFusionError::PythonError(h) => r == *h,
            _ => {
                &&& generic_exception_message(r) is Some
                &&& self.renders_as(generic_exception_message(r)->Some_0)
            },
        }
    }

    /// Renders the error as human-readable text.
    pub fn to_string(&self) -> (r: String)
        ensures
            self.renders_as(r@),
    {
        match self {
            DataFusionError::ExecutionError(e) => {
                let d = datafusion_debug(e);
                let r = labeled(DATAFUSION_LABEL, d.as_str());
                assert(r@ == DATAFUSION_LABEL@ + d@);
                r
            },
            DataFusionError::ArrowError(e) => {
                let d = arrow_debug(e);
                let r = labeled(ARROW_LABEL, d.as_str());
                assert(r@ == ARROW_LABEL@ + d@);
                r
            },
            DataFusionError::PythonError(e) => {
                let d = python_debug(e);
                let r = labeled(PYTHON_LABEL, d.as_str());
                assert(r@ == PYTHON_LABEL@ + d@);
                r
            },
            DataFusionError::Common(s) => s.clone(),
        }
    }

    /// Turns the error into the exception the host sees: the original handle
    /// for a wrapped host exception, else a new generic exception carrying the
    /// rendered text.
    pub fn into_py_err(self) -> (r: PyErr)
        ensures
            self.crosses_to_host_as(r),
    {
        match self {
            DataFusionError::PythonError(h) => h,
            other => new_host_exception(other.to_string()),
        }
    }
}

impl From<ArrowError> for DataFusionError {
    fn from(err: ArrowError) -> DataFusionError {
        DataFusionError::ArrowError(err)
    }
}

impl vstd::std_specs::convert::FromSpecImpl<ArrowError> for DataFusionError {
    open spec fn obeys_from_spec() -> bool {
        true
    }

    open spec fn from_spec(err: ArrowError) -> DataFusionError {
        DataFusionError::ArrowError(err)
    }
}

impl From<InnerDataFusionError> for DataFusionError {
    fn from(err: InnerDataFusionError) -> DataFusionError {
        DataFusionError::ExecutionError(err)
    }
}

impl vstd::std_specs::convert::FromSpecImpl<InnerDataFusionError> for DataFusionError {
    open spec fn obeys_from_spec() -> bool {
        true
    }

    open spec fn from_spec(err: InnerDataFusionError) -> DataFusionError {
        DataFusionError::ExecutionError(err)
    }
}

impl From<PyErr> for DataFusionError {
    fn from(err: PyErr) -> DataFusionError {
        DataFusionError::PythonError(err)
    }
}

impl vstd::std_specs::convert::FromSpecImpl<PyErr> for DataFusionError {
    open spec fn obeys_from_spec() -> bool {
        true
    }

    open spec fn from_spec(err: PyErr) -> DataFusionError {
        DataFusionError::PythonError(err)
    }
}

impl From<DataFusionError> for PyErr {
    fn from(err: DataFusionError) -> (r: PyErr)
        ensures
            err.crosses_to_host_as(r),
    {
        err.into_py_err()
    }
}

/// What comes out of the boundary conversion is stated by `into_py_err`: only
/// a wrapped host exception has a value fixed in advance.
impl vstd::std_specs::convert::FromSpecImpl<DataFusionError> for PyErr {
    open spec fn obeys_from_spec() -> bool {
        false
    }

    open spec fn from_spec(err: DataFusionError) -> PyErr {
        match err {
            DataFusionError::PythonError(h) => h,
            _ => arbitrary(),
        }
    }
}


/// Every way a call on the distributed scheduling path can fail.
#[derive(Debug)]
pub enum BallistaError {
    DataFusionExecutionError(InnerDataFusionError),
    ExecutionError(InnerBallistaError),
    ArrowError(ArrowError),
    Common(String),
}

impl BallistaError {
    /// `m` is a rendering of `self`: a diagnostic verbatim, anything else its
    /// subsystem's label followed by a description of the payload.
    pub open spec fn renders_as(&self, m: Seq<char>) -> bool {
        match self {
            BallistaError::DataFusionExecutionError(_) => is_labeled(m, DATAFUSION_LABEL@),
            BallistaError::ExecutionError(_) => is_labeled(m, BALLISTA_LABEL@),
            BallistaError::ArrowError(_) => is_labeled(m, ARROW_LABEL@),
            BallistaError::Common(s) => m == s@,
        }
    }

    /// `r` is what `self` becomes at the host boundary: a generic exception
    /// whose message is a rendering of `self`.
    pub open spec fn crosses_to_host_as(&self, r: PyErr) -> bool {
        &&& generic_exception_message(r) is Some
        &&& self.renders_as(generic_exception_message(r)->Some_0)
    }

    /// Renders the error as human-readable text.
    pub fn to_string(&self) -> (r: String)
        ensures
            self.renders_as(r@),
    {
        match self {
            BallistaError::DataFusionExecutionError(e) => {
                let d = datafusion_debug(e);
                let r = labeled(DATAFUSION_LABEL, d.as_str());
                assert(r@ == DATAFUSION_LABEL@ + d@);
                r
            },
            BallistaError::ExecutionError(e) => {
                let d = ballista_debug(e);
                let r = labeled(BALLISTA_LABEL, d.as_str());
                assert(r@ == BALLISTA_LABEL@ + d@);
                r
            },
            BallistaError::ArrowError(e) => {
                let d = arrow_debug(e);
                let r = labeled(ARROW_LABEL, d.as_str());
                assert(r@ == ARROW_LABEL@ + d@);
                r
            },
            BallistaError::Common(s) => s.clone(),
        }
    }

    /// Turns the error into the exception the host sees: always a new generic
    /// exception carrying the rendered text.
    pub fn into_py_err(self) -> (r: PyErr)
        ensures
            self.crosses_to_host_as(r),
    {
        new_host_exception(self.to_string())
    }
}

impl From<InnerDataFusionError> for BallistaError {
    fn from(err: InnerDataFusionError) -> BallistaError {
        BallistaError::DataFusionExecutionError(err)
    }
}

impl vstd::std_specs::convert::FromSpecImpl<InnerDataFusionError> for BallistaError {
    open spec fn obeys_from_spec() -> bool {
        true
    }

    open spec fn from_spec(err: InnerDataFusionError) -> BallistaError {
        BallistaError::DataFusionExecutionError(err)
    }
}

impl From<InnerBallistaError> for BallistaError {
    fn from(err: InnerBallistaError) -> BallistaError {
        BallistaError::ExecutionError(err)
    }
}

impl vstd::std_specs::convert::FromSpecImpl<InnerBallistaError> for BallistaError {
    open spec fn obeys_from_spec() -> bool {
        true
    }

    open spec fn from_spec(err: InnerBallistaError) -> BallistaError {
        BallistaError::ExecutionError(err)
    }
}

impl From<ArrowError> for BallistaError {
    fn from(err: ArrowError) -> BallistaError {
        BallistaError::ArrowError(err)
    }
}

impl vstd::std_specs::convert::FromSpecImpl<ArrowError> for BallistaError {
    open spec fn obeys_from_spec() -> bool {
        true
    }

    open spec fn from_spec(err: ArrowError) -> BallistaError {
        BallistaError::ArrowError(err)
    }
}

impl From<BallistaError> for PyErr {
    fn from(err: BallistaError) -> (r: PyErr)
        ensures
            err.crosses_to_host_as(r),
    {
        err.into_py_err()
    }
}

/// A scheduling error always reaches the host as a new exception, so no value
/// of the result is fixed in advance.
impl vstd::std_specs::convert::FromSpecImpl<BallistaError> for PyErr {
    open spec fn obeys_from_spec() -> bool {
        false
    }

    open spec fn from_spec(err: BallistaError) -> PyErr {
        arbitrary()
    }
}

} // verus!
