use wsdclient::config::{split_list, Argument, Arguments, Config, InputError};
use wsdclient::types::{Format, PaperOrientation, PaperSize, PlotParameters, Style};

fn no_arguments() -> Arguments {
    Arguments {
        input_file: None,
        output_file: None,
        api_key: None,
        api_key_env: None,
        format: None,
        style: None,
        paper_size: None,
        paper_orientation: None,
        scale: None,
        errors_fatal: false,
    }
}

fn text(s: &str) -> Option<String> {
    Some(s.to_owned())
}

#[test]
fn split_list_cuts_at_commas() {
    assert_eq!(split_list(Some("a,b,c")), vec!["a", "b", "c"]);
    assert_eq!(split_list(Some("a,,c,")), vec!["a", "", "c", ""]);
    assert_eq!(split_list(Some("")), vec![""]);
    assert_eq!(split_list(None), Vec::<String>::new());
}

#[test]
fn configuration_without_arguments() {
    let config = Config::from_arguments(no_arguments()).unwrap();
    assert_eq!(config.input_file, None);
    assert_eq!(config.output_file, "out.png");
    assert_eq!(config.plot_parameters, PlotParameters::default());
    assert!(!config.is_errors_fatal);
}

#[test]
fn configuration_with_every_argument() {
    let args = Arguments {
        input_file: text("in.wsd"),
        output_file: text("diagram.bin"),
        api_key: text("from-command-line"),
        api_key_env: text("from-environment"),
        format: text("PDF"),
        style: text("Modern_Blue"),
        paper_size: text("A4"),
        paper_orientation: text("landscape"),
        scale: text("200"),
        errors_fatal: true,
    };
    let config = Config::from_arguments(args).unwrap();
    assert_eq!(config.input_file, text("in.wsd"));
    assert_eq!(config.output_file, "diagram.bin");
    assert_eq!(
        config.plot_parameters,
        PlotParameters {
            style: Style::ModernBlue,
            format: Format::Pdf,
            paper_size: Some(PaperSize::A4),
            paper_orientation: Some(PaperOrientation::Landscape),
            scale: Some(200),
            api_key: text("from-command-line"),
        }
    );
    assert!(config.is_errors_fatal);
}

#[test]
fn the_key_of_the_environment_is_used_without_another() {
    let args = Arguments { api_key_env: text("from-environment"), ..no_arguments() };
    let config = Config::from_arguments(args).unwrap();
    assert_eq!(config.plot_parameters.api_key, text("from-environment"));
}

#[test]
fn the_output_file_is_named_after_the_format() {
    let args = Arguments { format: text("svg"), ..no_arguments() };
    assert_eq!(Config::from_arguments(args).unwrap().output_file, "out.svg");
    let args = Arguments { format: text("pdf"), ..no_arguments() };
    assert_eq!(Config::from_arguments(args).unwrap().output_file, "out.pdf");
}

#[test]
fn an_unknown_format_is_refused() {
    let args = Arguments { format: text("gif"), style: text("nope"), ..no_arguments() };
    let error = Config::from_arguments(args).unwrap_err();
    assert_eq!(error, InputError { argument: Argument::Format, got: "gif".to_owned() });
    assert_eq!(
        error.message(),
        "incorrect format value. Possible values are: png, pdf (premium), svg (premium). Got: gif"
    );
}

#[test]
fn an_unknown_style_is_refused() {
    let args = Arguments { style: text("comic"), paper_size: text("a0"), ..no_arguments() };
    let error = Config::from_arguments(args).unwrap_err();
    assert_eq!(error, InputError { argument: Argument::Style, got: "comic".to_owned() });
    assert_eq!(
        error.message(),
        "ERROR: incorrect style value. Possible values are: default, earth, magazine, modern-blue, mscgen, napkin, omegapple, patent, qsd, rose, roundgreen. Got: comic"
    );
}

#[test]
fn an_unknown_paper_size_is_refused() {
    let args = Arguments { paper_size: text("a0"), paper_orientation: text("up"), ..no_arguments() };
    let error = Config::from_arguments(args).unwrap_err();
    assert_eq!(error, InputError { argument: Argument::PaperSize, got: "a0".to_owned() });
    assert_eq!(
        error.message(),
        "ERROR: incorrect paper-size value. Possible values are: none, lettter, a4, 11x17, a1, a2, a3, legal. Got: a0"
    );
}

#[test]
fn an_unknown_paper_orientation_is_refused() {
    let args = Arguments { paper_orientation: text("up"), scale: text("x"), ..no_arguments() };
    let error = Config::from_arguments(args).unwrap_err();
    assert_eq!(error, InputError { argument: Argument::PaperOrientation, got: "up".to_owned() });
    assert_eq!(
        error.message(),
        "ERROR: incorrect paper-orientation value. Possible values are: portrait, landscape. Got: up"
    );
}

#[test]
fn a_scale_that_is_no_number_is_refused() {
    for bad in ["", "x", "-5", "1.5", "4294967296", " 100"] {
        let args = Arguments { scale: text(bad), ..no_arguments() };
        let error = Config::from_arguments(args).unwrap_err();
        assert_eq!(error, InputError { argument: Argument::Scale, got: bad.to_owned() });
    }
    let error = InputError { argument: Argument::Scale, got: "x".to_owned() };
    assert_eq!(
        error.message(),
        "ERROR: incorrect scale value. It should be positive integer. Got: x"
    );
}

#[test]
fn a_scale_in_decimal_is_taken() {
    for (given, scale) in [("0", 0u32), ("100", 100), ("+200", 200), ("4294967295", u32::MAX)] {
        let args = Arguments { scale: text(given), ..no_arguments() };
        assert_eq!(Config::from_arguments(args).unwrap().plot_parameters.scale, Some(scale));
    }
}
