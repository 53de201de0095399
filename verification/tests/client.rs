use wsdclient::client::{
    begin, compose_result, read_diagnostics, request_parameters, service_url_str, step, Action,
    ClientError, Event, Exchange, FormatDetectionError, WSDResult,
};
use wsdclient::types::{
    DiagnosticParseError, DiagramError, Format, PaperOrientation, PaperSize, PlotParameters, Style,
};

fn pair(key: &str, value: &str) -> (String, String) {
    (key.to_owned(), value.to_owned())
}

fn syntax_error() -> DiagramError {
    DiagramError {
        description: "Syntax error.".to_owned(),
        line_number: 1,
        raw_description: "Line 1: Syntax error.".to_owned(),
    }
}

#[test]
fn request_with_default_parameters() {
    let parameters = PlotParameters {
        style: Style::Default,
        format: Format::Png,
        paper_size: None,
        paper_orientation: None,
        scale: None,
        api_key: None,
    };
    assert_eq!(
        request_parameters("A->B: text1", &parameters),
        vec![
            pair("message", "A->B: text1"),
            pair("style", "default"),
            pair("format", "png"),
            pair("apiVersion", "1"),
        ]
    );
}

#[test]
fn request_with_default_parameters_omits_the_optional_fields() {
    let built = request_parameters("", &PlotParameters::default());
    assert_eq!(built.len(), 4);
    for key in ["apikey", "paper", "landscape", "scale"] {
        assert!(built.iter().all(|(k, _)| k != key));
    }
}

#[test]
fn request_with_every_parameter() {
    let parameters = PlotParameters {
        style: Style::ModernBlue,
        format: Format::Pdf,
        paper_size: Some(PaperSize::A4),
        paper_orientation: Some(PaperOrientation::Landscape),
        scale: Some(200),
        api_key: Some("SECRET-REDACTED".to_owned()),
    };
    assert_eq!(
        request_parameters("a\nb", &parameters),
        vec![
            pair("message", "a\nb"),
            pair("style", "modern-blue"),
            pair("format", "pdf"),
            pair("apiVersion", "1"),
            pair("apikey", "SECRET-REDACTED"),
            pair("paper", "a4"),
            pair("landscape", "1"),
            pair("scale", "200"),
        ]
    );
}

#[test]
fn request_with_some_parameters() {
    let parameters = PlotParameters {
        style: Style::Rose,
        format: Format::Svg,
        paper_size: None,
        paper_orientation: Some(PaperOrientation::Portrait),
        scale: Some(0),
        api_key: None,
    };
    assert_eq!(
        request_parameters("x", &parameters),
        vec![
            pair("message", "x"),
            pair("style", "rose"),
            pair("format", "svg"),
            pair("apiVersion", "1"),
            pair("landscape", "0"),
            pair("scale", "0"),
        ]
    );
}

#[test]
fn the_exchange_opens_with_the_first_call() {
    let (state, action) = begin("A->B: hi", &PlotParameters::default());
    assert_eq!(state, Exchange::Submitted);
    assert_eq!(service_url_str(), "http://www.websequencediagrams.com/index.php");
    assert_eq!(
        action,
        Action::Post {
            url: "http://www.websequencediagrams.com/index.php".to_owned(),
            form: vec![
                pair("message", "A->B: hi"),
                pair("style", "default"),
                pair("format", "png"),
                pair("apiVersion", "1"),
            ],
        }
    );
}

#[test]
fn end_to_end_with_a_scripted_transport() {
    let diagram: Vec<u8> = vec![0x89, 0x50, 0x4e, 0x47, 0x0d, 0x0a, 0x1a, 0x0a, 0, 1, 2];
    let envelope = b"{\"img\": \"?png=abc\", \"errors\": [\"Line 1: Syntax error.\"]}".to_vec();

    let (state, action) = begin("A->B: text1", &PlotParameters::default());
    assert!(matches!(action, Action::Post { .. }));

    let (state, action) = step(state, Event::Response { status: 200, body: envelope.clone() });
    assert_eq!(state, Exchange::Decoding { body: envelope.clone() });
    assert_eq!(action, Action::Decode { body: envelope });

    let (state, action) = step(
        state,
        Event::Envelope {
            img: "?png=abc".to_owned(),
            errors: vec!["Line 1: Syntax error.".to_owned()],
        },
    );
    assert_eq!(
        state,
        Exchange::Fetching {
            img: "?png=abc".to_owned(),
            errors: vec!["Line 1: Syntax error.".to_owned()]
        }
    );
    assert_eq!(
        action,
        Action::Get { url: "http://www.websequencediagrams.com/index.php?png=abc".to_owned() }
    );

    let (state, action) = step(state, Event::Response { status: 200, body: diagram.clone() });
    assert_eq!(state, Exchange::Finished);
    match action {
        Action::Finish(Ok(result)) => {
            assert_eq!(result.diagram.len(), diagram.len());
            assert_eq!(result.diagram, diagram);
            assert_eq!(result.actual_format, Format::Png);
            assert_eq!(result.errors, vec![syntax_error()]);
        }
        other => panic!("a result was expected, not {:?}", other),
    }
}

#[test]
fn a_downgrade_of_the_format_is_reported_as_it_is() {
    let parameters = PlotParameters { format: Format::Pdf, ..PlotParameters::default() };
    let (state, _) = begin("A->B: x", &parameters);
    let (state, _) = step(state, Event::Response { status: 200, body: vec![] });
    let (state, _) =
        step(state, Event::Envelope { img: "?png=mscKTO107".to_owned(), errors: vec![] });
    let (_, action) = step(state, Event::Response { status: 200, body: vec![7, 7] });
    assert_eq!(
        action,
        Action::Finish(Ok(WSDResult {
            diagram: vec![7, 7],
            errors: vec![],
            actual_format: Format::Png
        }))
    );
}

#[test]
fn a_failed_first_call_ends_the_exchange() {
    let (state, _) = begin("A->B: text1", &PlotParameters::default());
    let (state, action) = step(state, Event::Response { status: 500, body: b"oops".to_vec() });
    assert_eq!(state, Exchange::Finished);
    assert_eq!(
        action,
        Action::Finish(Err(ClientError::HttpStatus {
            status: 500,
            url: "http://www.websequencediagrams.com/index.php".to_owned(),
            body: b"oops".to_vec(),
        }))
    );
    // Whatever is reported afterwards, no call is handed out any more.
    let (state, action) = step(state, Event::Response { status: 200, body: vec![] });
    assert_eq!(state, Exchange::Finished);
    assert_eq!(action, Action::Finish(Err(ClientError::UnexpectedEvent)));
    let (state, action) =
        step(state, Event::Envelope { img: "?png=abc".to_owned(), errors: vec![] });
    assert_eq!(state, Exchange::Finished);
    assert_eq!(action, Action::Finish(Err(ClientError::UnexpectedEvent)));
}

#[test]
fn the_bounds_of_a_successful_status() {
    for (status, success) in [(199u16, false), (200, true), (204, true), (299, true), (300, false), (404, false)] {
        let (_, action) = step(Exchange::Submitted, Event::Response { status, body: vec![] });
        assert_eq!(matches!(action, Action::Decode { .. }), success);
    }
}

#[test]
fn a_transport_failure_on_the_first_call() {
    let (state, action) =
        step(Exchange::Submitted, Event::TransportFailure { reason: "no route".to_owned() });
    assert_eq!(state, Exchange::Finished);
    assert_eq!(
        action,
        Action::Finish(Err(ClientError::Transport {
            url: "http://www.websequencediagrams.com/index.php".to_owned(),
            reason: "no route".to_owned(),
        }))
    );
}

#[test]
fn a_body_that_is_no_envelope() {
    let (state, action) = step(
        Exchange::Decoding { body: b"<html>".to_vec() },
        Event::Malformed { reason: "expected value at line 1 column 1".to_owned() },
    );
    assert_eq!(state, Exchange::Finished);
    assert_eq!(
        action,
        Action::Finish(Err(ClientError::EnvelopeParse {
            reason: "expected value at line 1 column 1".to_owned(),
            body: b"<html>".to_vec(),
        }))
    );
}

#[test]
fn a_failed_second_call() {
    let fetching = Exchange::Fetching { img: "?png=abc".to_owned(), errors: vec![] };
    let (state, action) = step(fetching.clone(), Event::Response { status: 404, body: vec![] });
    assert_eq!(state, Exchange::Finished);
    assert_eq!(
        action,
        Action::Finish(Err(ClientError::HttpStatus {
            status: 404,
            url: "http://www.websequencediagrams.com/index.php?png=abc".to_owned(),
            body: vec![],
        }))
    );
    let (_, action) = step(fetching, Event::TransportFailure { reason: "reset".to_owned() });
    assert_eq!(
        action,
        Action::Finish(Err(ClientError::Transport {
            url: "http://www.websequencediagrams.com/index.php?png=abc".to_owned(),
            reason: "reset".to_owned(),
        }))
    );
}

#[test]
fn a_resource_reference_without_a_known_format() {
    let fetching = Exchange::Fetching { img: "?xyz=abc".to_owned(), errors: vec![] };
    let (_, action) = step(fetching, Event::Response { status: 200, body: vec![1] });
    assert_eq!(
        action,
        Action::Finish(Err(ClientError::FormatDetection {
            cause: FormatDetectionError::UnknownFormat,
            resource: "?xyz=abc".to_owned(),
        }))
    );
    let fetching = Exchange::Fetching { img: "nothing".to_owned(), errors: vec![] };
    let (_, action) = step(fetching, Event::Response { status: 200, body: vec![1] });
    assert_eq!(
        action,
        Action::Finish(Err(ClientError::FormatDetection {
            cause: FormatDetectionError::ParseError,
            resource: "nothing".to_owned(),
        }))
    );
}

#[test]
fn one_unreadable_diagnostic_fails_the_exchange() {
    let fetching = Exchange::Fetching {
        img: "?png=abc".to_owned(),
        errors: vec![
            "Line 1: Syntax error.".to_owned(),
            "Syntax error".to_owned(),
            "Line x: y".to_owned(),
        ],
    };
    let (state, action) = step(fetching, Event::Response { status: 200, body: vec![1, 2, 3] });
    assert_eq!(state, Exchange::Finished);
    assert_eq!(
        action,
        Action::Finish(Err(ClientError::DiagnosticParse {
            error: DiagnosticParseError::ParseError,
            diagnostic: "Syntax error".to_owned(),
        }))
    );
}

#[test]
fn the_format_is_told_before_the_diagnostics_are_read() {
    let fetching =
        Exchange::Fetching { img: "?xyz=abc".to_owned(), errors: vec!["garbage".to_owned()] };
    let (_, action) = step(fetching, Event::Response { status: 200, body: vec![] });
    assert!(matches!(action, Action::Finish(Err(ClientError::FormatDetection { .. }))));
}

#[test]
fn events_that_a_state_does_not_expect() {
    let unexpected = Action::Finish(Err(ClientError::UnexpectedEvent));
    let (state, action) =
        step(Exchange::Submitted, Event::Envelope { img: "?png=a".to_owned(), errors: vec![] });
    assert_eq!((state, action), (Exchange::Finished, Action::Finish(Err(ClientError::UnexpectedEvent))));
    let (_, action) = step(Exchange::Submitted, Event::Malformed { reason: String::new() });
    assert_eq!(action, unexpected);
    let (_, action) =
        step(Exchange::Decoding { body: vec![] }, Event::Response { status: 200, body: vec![] });
    assert_eq!(action, unexpected);
    let (_, action) = step(
        Exchange::Decoding { body: vec![] },
        Event::TransportFailure { reason: String::new() },
    );
    assert_eq!(action, unexpected);
    let fetching = Exchange::Fetching { img: "?png=a".to_owned(), errors: vec![] };
    let (_, action) =
        step(fetching.clone(), Event::Envelope { img: "?png=a".to_owned(), errors: vec![] });
    assert_eq!(action, unexpected);
    let (_, action) = step(fetching, Event::Malformed { reason: String::new() });
    assert_eq!(action, unexpected);
    let (_, action) = step(Exchange::Finished, Event::TransportFailure { reason: String::new() });
    assert_eq!(action, unexpected);
}

#[test]
fn diagnostics_are_read_in_order() {
    let raws = vec![
        "Line 3: Deactivate: A was not activated.".to_owned(),
        "Line 1: Syntax error.".to_owned(),
    ];
    let read = read_diagnostics(&raws).unwrap();
    assert_eq!(read.len(), 2);
    assert_eq!(read[0].line_number, 3);
    assert_eq!(read[0].description, "Deactivate: A was not activated.");
    assert_eq!(read[1], syntax_error());
    assert_eq!(read_diagnostics(&vec![]), Ok(vec![]));
    assert_eq!(
        read_diagnostics(&vec!["Line 4294967296: x".to_owned()]),
        Err(ClientError::DiagnosticParse {
            error: DiagnosticParseError::InvalidLineNumber,
            diagnostic: "Line 4294967296: x".to_owned(),
        })
    );
}

#[test]
fn the_result_is_composed_from_its_parts() {
    assert_eq!(
        compose_result(vec![1, 2], "?svg=a", Ok(Format::Svg), Ok(vec![syntax_error()])),
        Ok(WSDResult { diagram: vec![1, 2], errors: vec![syntax_error()], actual_format: Format::Svg })
    );
    assert_eq!(
        compose_result(vec![1, 2], "?gif=a", Err(FormatDetectionError::UnknownFormat), Ok(vec![])),
        Err(ClientError::FormatDetection {
            cause: FormatDetectionError::UnknownFormat,
            resource: "?gif=a".to_owned()
        })
    );
    assert_eq!(
        compose_result(vec![], "?png=a", Ok(Format::Png), Err(ClientError::UnexpectedEvent)),
        Err(ClientError::UnexpectedEvent)
    );
}
