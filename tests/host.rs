use ballista_core::error::BallistaError as InnerBallistaError;
use ballista_python_errors::{BallistaError, DataFusionError};
use datafusion::arrow::error::ArrowError;
use datafusion::error::DataFusionError as InnerDataFusionError;
use pyo3::exceptions::{PyException, PyValueError};
use pyo3::types::PyAnyMethods;
use pyo3::{PyErr, Python};

#[test]
fn host_exception_lifts_into_python_variant() {
    let h = PyValueError::new_err("bad value");
    let e = DataFusionError::from(h);
    assert!(matches!(e, DataFusionError::PythonError(_)));
}

#[test]
fn host_exception_round_trips_by_identity() {
    let h = PyValueError::new_err("bad value");
    let before = Python::with_gil(|py| h.value_bound(py).as_ptr() as usize);
    let back = PyErr::from(DataFusionError::from(h));
    let after = Python::with_gil(|py| back.value_bound(py).as_ptr() as usize);
    assert_eq!(before, after);
}

#[test]
fn format_error_crosses_as_generic_exception_with_rendered_text() {
    let e = DataFusionError::from(ArrowError::ParseError(
        "invalid UTF-8 at offset 4".to_string(),
    ));
    let text = e.to_string();
    let err = PyErr::from(e);
    Python::with_gil(|py| {
        assert!(err.get_type_bound(py).is(&py.get_type_bound::<PyException>()));
        assert_eq!(err.value_bound(py).to_string(), text);
    });
}

#[test]
fn diagnostic_crosses_with_its_own_text() {
    let err = PyErr::from(BallistaError::Common("job 7 was cancelled".to_string()));
    Python::with_gil(|py| {
        assert_eq!(err.value_bound(py).to_string(), "job 7 was cancelled");
    });
}

#[test]
fn python_error_renders_with_python_label() {
    let e = DataFusionError::from(PyValueError::new_err("bad value"));
    let text = e.to_string();
    assert!(text.starts_with("Python error "));
    assert!(text.contains("bad value"));
}

#[test]
fn empty_diagnostic_crosses_as_generic_exception_with_empty_message() {
    let err = PyErr::from(DataFusionError::Common(String::new()));
    Python::with_gil(|py| {
        assert!(err.get_type_bound(py).is(&py.get_type_bound::<PyException>()));
        assert_eq!(err.value_bound(py).to_string(), "");
    });
}

#[test]
fn scheduler_error_crosses_with_ballista_label_and_debug_text() {
    let inner = InnerBallistaError::General("no executor for task 3".to_string());
    let expected = format!("Ballista error: {:?}", inner);
    let err = PyErr::from(BallistaError::from(inner));
    Python::with_gil(|py| {
        assert!(err.get_type_bound(py).is(&py.get_type_bound::<PyException>()));
        let message = err.value_bound(py).to_string();
        assert!(message.contains(&expected));
        assert_eq!(message, "Ballista error: General(\"no executor for task 3\")");
    });
}

#[test]
fn engine_error_crosses_with_full_debug_text() {
    let inner = InnerDataFusionError::Plan("no table t".to_string());
    let expected = format!("DataFusion error: {:?}", inner);
    let err = PyErr::from(DataFusionError::from(inner));
    Python::with_gil(|py| {
        assert!(err.get_type_bound(py).is(&py.get_type_bound::<PyException>()));
        assert_eq!(err.value_bound(py).to_string(), expected);
    });
}
