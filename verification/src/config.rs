//! The configuration of one run, validated from the arguments as they were given.

use vstd::prelude::*;
use vstd::string::*;
use crate::text::{followed_by, parse_unsigned, parsed_unsigned, split_on, split_seq, texts};
use crate::types::{
    help_entries, joined, spec_from_str, Format, PaperOrientation, PaperSize, PlotParameters,
    PlotParametersView, Style, WSDEnum,
};

verus! {

/// Cuts a list of values at its commas; no list gives no values.
pub fn split_list(s: Option<&str>) -> (r: Vec<String>)
    ensures
        texts(r@) == match s {
            Some(list) => split_seq(list@, ','),
            None => Seq::<Seq<char>>::empty(),
        },
{
    match s {
        Some(list) => split_on(list, ','),
        None => {
            let none: Vec<String> = Vec::new();
            assert(texts(none@) =~= Seq::<Seq<char>>::empty());
            none
        },
    }
}

/// The arguments of a run as the command line and the environment gave them: texts that
/// have not been looked at yet.
#[derive(Debug, Clone, PartialEq, Eq)]
pub struct Arguments {
    /// The file to read the diagram from; standard input where there is none.
    pub input_file: Option<String>,
    /// The file to write the diagram to.
    pub output_file: Option<String>,
    /// The key of a paid account, from the command line.
    pub api_key: Option<String>,
    /// The key of a paid account, from the environment.
    pub api_key_env: Option<String>,
    pub format: Option<String>,
    pub style: Option<String>,
    pub paper_size: Option<String>,
    pub paper_orientation: Option<String>,
    pub scale: Option<String>,
    /// Whether diagnostics end the run with a failure.
    pub errors_fatal: bool,
}

/// What is needed for one run.
#[derive(Debug, Clone)]
pub struct Config {
    pub input_file: Option<String>,
    pub output_file: String,
    pub plot_parameters: PlotParameters,
    pub is_errors_fatal: bool,
}

/// A configuration as plain values.
pub struct ConfigView {
    pub input_file: Option<Seq<char>>,
    pub output_file: Seq<char>,
    pub plot_parameters: PlotParametersView,
    pub is_errors_fatal: bool,
}

/// An optional text as plain values.
pub open spec fn opt_text(text: Option<String>) -> Option<Seq<char>> {
    match text {
        Some(t) => Some(t@),
        None => None,
    }
}

impl View for Config {
    type V = ConfigView;

    open spec fn view(&self) -> ConfigView {
        ConfigView {
            input_file: opt_text(self.input_file),
            output_file: self.output_file@,
            plot_parameters: self.plot_parameters@,
            is_errors_fatal: self.is_errors_fatal,
        }
    }
}

/// The argument that holds a value that cannot be used.
#[derive(Debug, Clone, Copy, PartialEq, Eq, Structural)]
pub enum Argument {
    Format,
    Style,
    PaperSize,
    PaperOrientation,
    Scale,
}

/// An argument was given a value that cannot be used.
#[derive(Debug, Clone, PartialEq, Eq)]
pub struct InputError {
    pub argument: Argument,
    /// The value as it was given.
    pub got: String,
}

/// An input error as plain values.
pub struct InputErrorView {
    pub argument: Argument,
    pub got: Seq<char>,
}

impl View for InputError {
    type V = InputErrorView;

    open spec fn view(&self) -> InputErrorView {
        InputErrorView { argument: self.argument, got: self.got@ }
    }
}

/// The help text of an option type.
pub open spec fn spec_help<T: WSDEnum>() -> Seq<char> {
    joined(
        help_entries(
            T::spec_all(),
            |x: T| x.spec_human_readable_value(),
            |x: T| x.spec_premium_feature(),
        ),
        ", "@,
    )
}

/// An input error in words: what was wrong, what may be given, what was given.
pub open spec fn spec_message(error: InputErrorView) -> Seq<char> {
    match error.argument {
        Argument::Format => "incorrect format value. Possible values are: "@ + spec_help::<
            Format,
        >() + ". Got: "@ + error.got,
        Argument::Style => "ERROR: incorrect style value. Possible values are: "@ + spec_help::<
            Style,
        >() + ". Got: "@ + error.got,
        Argument::PaperSize => "ERROR: incorrect paper-size value. Possible values are: "@
            + spec_help::<PaperSize>() + ". Got: "@ + error.got,
        Argument::PaperOrientation =>
            "ERROR: incorrect paper-orientation value. Possible values are: "@ + spec_help::<
                PaperOrientation,
            >() + ". Got: "@ + error.got,
        Argument::Scale => "ERROR: incorrect scale value. It should be positive integer. Got: "@
            + error.got,
    }
}

/// Words an error that names the values that may be given.
fn possible_values(intro: &str, help: String, got: &str) -> (r: String)
    ensures
        r@ == intro@ + help@ + ". Got: "@ + got@,
{
    let mut out = followed_by(intro, help.as_str());
    out.append(". Got: ");
    out.append(got);
    out
}

impl InputError {
    /// The error in words.
    pub fn message(&self) -> (r: String)
        ensures
            r@ == spec_message(self@),
    {
        match self.argument {
            Argument::Format => possible_values(
                "incorrect format value. Possible values are: ",
                Format::help_str(),
                self.got.as_str(),
            ),
            Argument::Style => possible_values(
                "ERROR: incorrect style value. Possible values are: ",
                Style::help_str(),
                self.got.as_str(),
            ),
            Argument::PaperSize => possible_values(
                "ERROR: incorrect paper-size value. Possible values are: ",
                PaperSize::help_str(),
                self.got.as_str(),
            ),
            Argument::PaperOrientation => possible_values(
                "ERROR: incorrect paper-orientation value. Possible values are: ",
                PaperOrientation::help_str(),
                self.got.as_str(),
            ),
            Argument::Scale => followed_by(
                "ERROR: incorrect scale value. It should be positive integer. Got: ",
                self.got.as_str(),
            ),
        }
    }
}

/// Whether a text names a variant of `T`; no text names none and is in order.
pub open spec fn names_variant<T: WSDEnum>(text: Option<String>) -> bool {
    text matches Some(t) ==> spec_from_str::<T>(t@) is Some
}

/// The variant of `T` that an optional text names.
pub open spec fn chosen<T: WSDEnum>(text: Option<String>) -> Option<T> {
    match text {
        Some(t) => spec_from_str::<T>(t@),
        None => None,
    }
}

/// The largest scale that can be asked for.
pub open spec fn max_scale() -> nat {
    0xffff_ffff
}

/// Whether a text is a scale in decimal; no text is in order.
pub open spec fn scale_in_order(text: Option<String>) -> bool {
    text matches Some(t) ==> parsed_unsigned(t@, max_scale()) is Some
}

/// The scale that an optional text gives.
pub open spec fn chosen_scale(text: Option<String>) -> Option<u32> {
    match text {
        Some(t) => match parsed_unsigned(t@, max_scale()) {
            Some(n) => Some(n as u32),
            None => None,
        },
        None => None,
    }
}

/// The configuration that the arguments give. The values are looked at in the order
/// format, style, paper size, paper orientation, scale, and the first that cannot be
/// used is the error. The key of the command line goes before that of the environment.
/// Without an output file the diagram goes to `out.` and the name of the format.
pub open spec fn spec_config(args: Arguments) -> Result<ConfigView, InputErrorView> {
    if !names_variant::<Format>(args.format) {
        Err(InputErrorView { argument: Argument::Format, got: args.format->0@ })
    } else if !names_variant::<Style>(args.style) {
        Err(InputErrorView { argument: Argument::Style, got: args.style->0@ })
    } else if !names_variant::<PaperSize>(args.paper_size) {
        Err(InputErrorView { argument: Argument::PaperSize, got: args.paper_size->0@ })
    } else if !names_variant::<PaperOrientation>(args.paper_orientation) {
        Err(
            InputErrorView {
                argument: Argument::PaperOrientation,
                got: args.paper_orientation->0@,
            },
        )
    } else if !scale_in_order(args.scale) {
        Err(InputErrorView { argument: Argument::Scale, got: args.scale->0@ })
    } else {
        let format = match chosen::<Format>(args.format) {
            Some(f) => f,
            None => Format::Png,
        };
        Ok(
            ConfigView {
                input_file: opt_text(args.input_file),
                output_file: match args.output_file {
                    Some(name) => name@,
                    None => "out."@ + format.spec_wsd_value(),
                },
                plot_parameters: PlotParametersView {
                    style: match chosen::<Style>(args.style) {
                        Some(s) => s,
                        None => Style::Default,
                    },
                    format,
                    paper_size: chosen::<PaperSize>(args.paper_size),
                    paper_orientation: chosen::<PaperOrientation>(args.paper_orientation),
                    scale: chosen_scale(args.scale),
                    api_key: if args.api_key is Some {
                        opt_text(args.api_key)
                    } else {
                        opt_text(args.api_key_env)
                    },
                },
                is_errors_fatal: args.errors_fatal,
            },
        )
    }
}

/// The outcome of the validation, as plain values.
pub open spec fn config_result_view(r: Result<Config, InputError>) -> Result<
    ConfigView,
    InputErrorView,
> {
    match r {
        Ok(config) => Ok(config@),
        Err(error) => Err(error@),
    }
}

/// The variant that an optional text names, or the error that it names none.
fn pick<T: WSDEnum>(text: &Option<String>, argument: Argument) -> (r: Result<
    Option<T>,
    InputError,
>)
    ensures
        match r {
            Ok(value) => names_variant::<T>(*text) && value == chosen::<T>(*text),
            Err(error) => !names_variant::<T>(*text) && error@ == (InputErrorView {
                argument,
                got: (*text)->0@,
            }),
        },
{
    match text {
        None => Ok(None),
        Some(t) => match T::from_str(t.as_str()) {
            Some(value) => Ok(Some(value)),
            None => Err(InputError { argument, got: t.clone() }),
        },
    }
}

impl Config {
    /// Validates the arguments of a run and fills in what was not given.
    pub fn from_arguments(args: Arguments) -> (r: Result<Config, InputError>)
        ensures
            config_result_view(r) == spec_config(args),
    {
        let api_key = match args.api_key {
            Some(key) => Some(key),
            None => args.api_key_env,
        };
        let format = match pick::<Format>(&args.format, Argument::Format) {
            Ok(Some(f)) => f,
            Ok(None) => Format::Png,
            Err(error) => return Err(error),
        };
        let style = match pick::<Style>(&args.style, Argument::Style) {
            Ok(Some(s)) => s,
            Ok(None) => Style::Default,
            Err(error) => return Err(error),
        };
        let paper_size = match pick::<PaperSize>(&args.paper_size, Argument::PaperSize) {
            Ok(size) => size,
            Err(error) => return Err(error),
        };
        let paper_orientation = match pick::<PaperOrientation>(
            &args.paper_orientation,
            Argument::PaperOrientation,
        ) {
            Ok(orientation) => orientation,
            Err(error) => return Err(error),
        };
        let scale = match &args.scale {
            None => None,
            Some(t) => match parse_unsigned(t.as_str(), 0xffff_ffff) {
                Some(n) => Some(n),
                None => return Err(InputError { argument: Argument::Scale, got: t.clone() }),
            },
        };
        let output_file = match args.output_file {
            Some(name) => name,
            None => followed_by("out.", format.wsd_value().as_str()),
        };
        Ok(
            Config {
                input_file: args.input_file,
                output_file,
                plot_parameters: PlotParameters {
                    style,
                    format,
                    paper_size,
                    paper_orientation,
                    scale,
                    api_key,
                },
                is_errors_fatal: args.errors_fatal,
            },
        )
    }
}

} // verus!
