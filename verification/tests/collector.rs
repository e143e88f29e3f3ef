use diagnostic_collector::DiagnosticCollector;

#[test]
fn empty_start() {
    let mut c: DiagnosticCollector<String> = DiagnosticCollector::new();
    assert!(c.take_last_error().is_none());
}

#[test]
fn default_is_empty() {
    let mut c: DiagnosticCollector<String> = Default::default();
    assert!(c.take_last_error().is_none());
}

#[test]
fn report_then_take_is_destructive() {
    let mut c: DiagnosticCollector<String> = DiagnosticCollector::new();
    c.report_error("boom".to_string());
    assert_eq!(c.take_last_error(), Some("boom".to_string()));
    assert!(c.take_last_error().is_none());
}

#[test]
fn report_replaces_prior_error() {
    let mut c: DiagnosticCollector<String> = DiagnosticCollector::new();
    c.report_error("A".to_string());
    c.report_error("B".to_string());
    assert_eq!(c.take_last_error(), Some("B".to_string()));
    assert!(c.take_last_error().is_none());
}

#[test]
fn capture_success_passes_value_through() {
    let mut c: DiagnosticCollector<String> = DiagnosticCollector::new();
    let got = c.capture(Ok::<i32, String>(42));
    assert_eq!(got, Some(42));
    assert!(c.take_last_error().is_none());
}

#[test]
fn capture_success_leaves_held_error_unchanged() {
    let mut c: DiagnosticCollector<String> = DiagnosticCollector::new();
    c.report_error("earlier".to_string());
    let got = c.capture(Ok::<i32, String>(7));
    assert_eq!(got, Some(7));
    assert_eq!(c.take_last_error(), Some("earlier".to_string()));
}

#[test]
fn capture_failure_records_error() {
    let mut c: DiagnosticCollector<String> = DiagnosticCollector::new();
    let got = c.capture(Err::<i32, String>("not found".to_string()));
    assert!(got.is_none());
    assert_eq!(c.take_last_error(), Some("not found".to_string()));
    assert!(c.take_last_error().is_none());
}

#[test]
fn capture_failure_replaces_prior_error() {
    let mut c: DiagnosticCollector<String> = DiagnosticCollector::new();
    c.report_error("first".to_string());
    let got = c.capture(Err::<i32, String>("second".to_string()));
    assert!(got.is_none());
    assert_eq!(c.take_last_error(), Some("second".to_string()));
}

#[test]
fn take_is_idempotent_on_absence() {
    let mut c: DiagnosticCollector<String> = DiagnosticCollector::new();
    c.report_error("once".to_string());
    assert_eq!(c.take_last_error(), Some("once".to_string()));
    assert!(c.take_last_error().is_none());
    assert!(c.take_last_error().is_none());
}
