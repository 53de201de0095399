use wsdclient::report::{
    errors_summary, format_warning, has_empty_lines_at_begining, is_empty, locate, source_lines,
    Located,
};
use wsdclient::types::{DiagramError, Format};

fn diagnostic(line_number: i32, description: &str) -> DiagramError {
    DiagramError {
        description: description.to_owned(),
        line_number,
        raw_description: format!("Line {}: {}", line_number, description),
    }
}

#[test]
fn empty_texts() {
    assert!(is_empty(""));
    assert!(is_empty("  \t \n"));
    assert!(!is_empty(" a "));
    assert!(!is_empty("\r"));
    assert!(!is_empty("\u{00A0}"));
}

#[test]
fn empty_lines_at_the_beginning() {
    assert!(!has_empty_lines_at_begining(&vec![]));
    assert!(has_empty_lines_at_begining(&vec![""]));
    assert!(has_empty_lines_at_begining(&vec!["  \t", "A->B: x"]));
    assert!(!has_empty_lines_at_begining(&vec!["A->B: x", ""]));
}

#[test]
fn lines_of_a_text() {
    assert_eq!(source_lines("A->B: x\nB->A: y"), vec!["A->B: x", "B->A: y"]);
    assert_eq!(source_lines("\nA->B: x\n"), vec!["", "A->B: x", ""]);
    assert_eq!(source_lines(""), vec![""]);
}

#[test]
fn a_diagnostic_is_located_in_the_text() {
    let lines = vec!["A->B: x", "oops", "B->A: y"];
    assert_eq!(
        locate("in.wsd", &lines, &diagnostic(2, "Syntax error.")),
        Located { headline: "in.wsd:2 : Syntax error.".to_owned(), source_line: Some("oops".to_owned()) }
    );
}

#[test]
fn a_diagnostic_is_shifted_past_an_empty_first_line() {
    let lines = vec!["", "A->B: x", "oops"];
    let error = diagnostic(2, "Syntax error.");
    assert_eq!(
        locate("<STDIN>", &lines, &error),
        Located {
            headline: "<STDIN>:3 : Syntax error.".to_owned(),
            source_line: Some("oops".to_owned())
        }
    );
    // The diagnostic itself keeps the number that the service reported.
    assert_eq!(error.line_number, 2);
}

#[test]
fn a_diagnostic_outside_the_text_has_no_line() {
    let lines = vec!["A->B: x"];
    assert_eq!(locate("f", &lines, &diagnostic(2, "d")).source_line, None);
    assert_eq!(locate("f", &lines, &diagnostic(0, "d")).source_line, None);
    assert_eq!(
        locate("f", &lines, &diagnostic(-3, "d")),
        Located { headline: "f:-3 : d".to_owned(), source_line: None }
    );
    assert_eq!(
        locate("f", &vec![" "], &diagnostic(i32::MAX, "d")),
        Located { headline: "f:2147483648 : d".to_owned(), source_line: None }
    );
    assert_eq!(locate("f", &lines, &diagnostic(1, "d")).source_line, Some("A->B: x".to_owned()));
}

#[test]
fn a_warning_where_the_formats_differ() {
    assert_eq!(format_warning(Format::Png, Format::Png), None);
    assert_eq!(
        format_warning(Format::Png, Format::Pdf),
        Some(
            "WARNING: Actual format `png` is different from requested format `pdf`\nMaybe you do not provide correct api_key for premium features (like pdf or svg formats)"
                .to_owned()
        )
    );
}

#[test]
fn the_summary_counts_the_diagnostics() {
    assert_eq!(errors_summary(1), "Number of errors in diagram: 1. Exiting.");
    assert_eq!(errors_summary(12), "Number of errors in diagram: 12. Exiting.");
}
