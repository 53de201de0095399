//! The client of the rendering service: what is sent, how the answers are read, and the
//! order of the two calls. The calls themselves are made by the caller.

use vstd::prelude::*;
use vstd::string::*;
use crate::pattern::{captures, captures_view, regex_accepts, regex_captures};
use crate::text::{decimal_digits, decimal_string, followed_by, texts};
use crate::types::{
    read_diagnostic, spec_from_str, DiagnosticParseError, DiagramError, DiagramErrorView, Format,
    PlotParameters, PlotParametersView, WSDEnum,
};

verus! {

/// The address of the service; a resource reference is appended to it as it stands.
pub open spec fn service_url() -> Seq<char> {
    "http://www.websequencediagrams.com/index.php"@
}

/// The address of the service, as it is handed to the caller.
pub fn service_url_str() -> (r: &'static str)
    ensures
        r@ == service_url(),
{
    "http://www.websequencediagrams.com/index.php"
}

/// A list of key and value pairs as plain values.
pub open spec fn pairs_view(pairs: Seq<(String, String)>) -> Seq<(Seq<char>, Seq<char>)> {
    pairs.map_values(|p: (String, String)| (p.0@, p.1@))
}

/// The fields of the first call, in order: `message`, `style`, `format` and `apiVersion`
/// always, then `apikey`, `paper`, `landscape` and `scale`, each only where it is set.
pub open spec fn spec_request_parameters(diagram: Seq<char>, parameters: PlotParametersView) -> Seq<
    (Seq<char>, Seq<char>),
> {
    seq![
        ("message"@, diagram),
        ("style"@, parameters.style.spec_wsd_value()),
        ("format"@, parameters.format.spec_wsd_value()),
        ("apiVersion"@, "1"@),
    ] + (match parameters.api_key {
        Some(key) => seq![("apikey"@, key)],
        None => seq![],
    }) + (match parameters.paper_size {
        Some(size) => seq![("paper"@, size.spec_wsd_value())],
        None => seq![],
    }) + (match parameters.paper_orientation {
        Some(orientation) => seq![("landscape"@, orientation.spec_wsd_value())],
        None => seq![],
    }) + (match parameters.scale {
        Some(scale) => seq![("scale"@, decimal_digits(scale as nat))],
        None => seq![],
    })
}

/// Builds the fields of the first call from the diagram text and the parameters.
pub fn request_parameters(diagram: &str, parameters: &PlotParameters) -> (r: Vec<(String, String)>)
    ensures
        pairs_view(r@) == spec_request_parameters(diagram@, parameters@),
{
    let mut params: Vec<(String, String)> = Vec::new();
    params.push(("message".to_owned(), diagram.to_owned()));
    params.push(("style".to_owned(), parameters.style.wsd_value()));
    params.push(("format".to_owned(), parameters.format.wsd_value()));
    params.push(("apiVersion".to_owned(), "1".to_owned()));
    let ghost fixed = pairs_view(params@);
    assert(fixed =~= seq![
        ("message"@, diagram@),
        ("style"@, parameters.style.spec_wsd_value()),
        ("format"@, parameters.format.spec_wsd_value()),
        ("apiVersion"@, "1"@),
    ]);
    let ghost with_key = fixed + (if parameters.api_key is Some {
        seq![("apikey"@, parameters.api_key->0@)]
    } else {
        seq![]
    });
    if let Some(api_key) = &parameters.api_key {
        params.push(("apikey".to_owned(), api_key.clone()));
    }
    assert(pairs_view(params@) =~= with_key);
    let ghost with_paper = with_key + (match parameters.paper_size {
        Some(size) => seq![("paper"@, size.spec_wsd_value())],
        None => seq![],
    });
    if let Some(paper_size) = &parameters.paper_size {
        params.push(("paper".to_owned(), paper_size.wsd_value()));
    }
    assert(pairs_view(params@) =~= with_paper);
    let ghost with_orientation = with_paper + (match parameters.paper_orientation {
        Some(orientation) => seq![("landscape"@, orientation.spec_wsd_value())],
        None => seq![],
    });
    if let Some(paper_orientation) = &parameters.paper_orientation {
        params.push(("landscape".to_owned(), paper_orientation.wsd_value()));
    }
    assert(pairs_view(params@) =~= with_orientation);
    if let Some(scale) = parameters.scale {
        params.push(("scale".to_owned(), decimal_string(scale as u64)));
    }
    assert(pairs_view(params@) =~= spec_request_parameters(diagram@, parameters@));
    params
}

/// Why the format of a resource reference could not be told.
#[derive(Debug, Clone, Copy, PartialEq, Eq, Structural)]
pub enum FormatDetectionError {
    /// The reference has not the shape `?<format>=<id>`.
    ParseError,
    /// The reference names a format that is not known.
    UnknownFormat,
    /// The pattern that describes a resource reference was refused.
    PatternRejected,
}

impl FormatDetectionError {
    /// The error in words.
    pub fn message(&self) -> (r: String)
        ensures
            r@ == match *self {
                FormatDetectionError::ParseError => "Error parsing diagram url."@,
                FormatDetectionError::UnknownFormat => "unknown format in diagram url."@,
                FormatDetectionError::PatternRejected =>
                    "Error parsing diagram url. The pattern was refused"@,
            },
    {
        match self {
            FormatDetectionError::ParseError => "Error parsing diagram url.".to_owned(),
            FormatDetectionError::UnknownFormat => "unknown format in diagram url.".to_owned(),
            FormatDetectionError::PatternRejected =>
                "Error parsing diagram url. The pattern was refused".to_owned(),
        }
    }
}

/// The shape of a resource reference: a question mark, the format as a word, an equals
/// sign, and the rest.
pub open spec fn resource_pattern() -> Seq<char> {
    r"(?ix) \? (?P<format>\w+) = .*"@
}

/// The pattern of a resource reference, as it is handed to the search.
pub fn resource_pattern_str() -> (r: &'static str)
    ensures
        r@ == resource_pattern(),
{
    r"(?ix) \? (?P<format>\w+) = .*"
}

/// The format that the groups of a match give: group 1 is the name of the format.
pub open spec fn format_of(found: Option<Seq<Option<Seq<char>>>>) -> Result<
    Format,
    FormatDetectionError,
> {
    match found {
        None => Err(FormatDetectionError::ParseError),
        Some(groups) => if groups.len() < 2 || groups[1] is None {
            Err(FormatDetectionError::ParseError)
        } else {
            match spec_from_str::<Format>(groups[1]->0) {
                Some(format) => Ok(format),
                None => Err(FormatDetectionError::UnknownFormat),
            }
        },
    }
}

/// The format that a resource reference names, as far as the search decides it.
pub open spec fn detected_format(url: Seq<char>) -> Result<Format, FormatDetectionError> {
    if regex_accepts(resource_pattern()) {
        format_of(regex_captures(resource_pattern(), url))
    } else {
        Err(FormatDetectionError::PatternRejected)
    }
}

/// Tells the format from what the search for `resource_pattern` found in a resource
/// reference.
pub fn format_from_captures(found: &Option<Vec<Option<String>>>) -> (r: Result<
    Format,
    FormatDetectionError,
>)
    ensures
        r == format_of(captures_view(*found)),
{
    match found {
        None => Err(FormatDetectionError::ParseError),
        Some(groups) => {
            if groups.len() < 2 {
                return Err(FormatDetectionError::ParseError);
            }
            match &groups[1] {
                Some(name) => match Format::from_str(name.as_str()) {
                    Some(format) => Ok(format),
                    None => Err(FormatDetectionError::UnknownFormat),
                },
                None => Err(FormatDetectionError::ParseError),
            }
        },
    }
}

/// Tells which format the service produced from the resource reference it returned,
/// such as `?png=mscKTO107`. The format may differ from the one that was asked for.
pub fn determine_actual_format(url: &str) -> (r: Result<Format, FormatDetectionError>)
    ensures
        r == detected_format(url@),
{
    match captures(resource_pattern_str(), url) {
        Ok(found) => format_from_captures(&found),
        Err(_) => Err(FormatDetectionError::PatternRejected),
    }
}

/// What a successful exchange yields.
#[derive(Debug, Clone, PartialEq, Eq)]
pub struct WSDResult {
    /// The rendered diagram, as the service sent it.
    pub diagram: Vec<u8>,
    /// The diagnostics of the service, in the order in which it reported them. They do
    /// not mean that nothing was rendered.
    pub errors: Vec<DiagramError>,
    /// The format that the service produced, told from the resource reference. It may
    /// differ from the one asked for, as when `Pdf` is asked for without a valid key.
    pub actual_format: Format,
}

/// A result as plain values.
pub struct WSDResultView {
    pub diagram: Seq<u8>,
    pub errors: Seq<DiagramErrorView>,
    pub actual_format: Format,
}

/// Diagnostics as plain values.
pub open spec fn diagnostics_view(errors: Seq<DiagramError>) -> Seq<DiagramErrorView> {
    errors.map_values(|e: DiagramError| e@)
}

impl View for WSDResult {
    type V = WSDResultView;

    open spec fn view(&self) -> WSDResultView {
        WSDResultView {
            diagram: self.diagram@,
            errors: diagnostics_view(self.errors@),
            actual_format: self.actual_format,
        }
    }
}

/// Why an exchange with the service failed.
#[derive(Debug, Clone, PartialEq, Eq)]
pub enum ClientError {
    /// A call could not be made, or its answer could not be read.
    Transport { url: String, reason: String },
    /// A call was answered with a status outside 200 to 299.
    HttpStatus { status: u16, url: String, body: Vec<u8> },
    /// The answer to the first call is not the expected envelope.
    EnvelopeParse { reason: String, body: Vec<u8> },
    /// The format could not be told from the resource reference.
    FormatDetection { cause: FormatDetectionError, resource: String },
    /// A diagnostic of the service could not be read.
    DiagnosticParse { error: DiagnosticParseError, diagnostic: String },
    /// An event arrived that the state of the exchange does not expect.
    UnexpectedEvent,
}

/// A failure as plain values.
pub enum ClientErrorView {
    Transport { url: Seq<char>, reason: Seq<char> },
    HttpStatus { status: u16, url: Seq<char>, body: Seq<u8> },
    EnvelopeParse { reason: Seq<char>, body: Seq<u8> },
    FormatDetection { cause: FormatDetectionError, resource: Seq<char> },
    DiagnosticParse { error: DiagnosticParseError, diagnostic: Seq<char> },
    UnexpectedEvent,
}

impl View for ClientError {
    type V = ClientErrorView;

    open spec fn view(&self) -> ClientErrorView {
        match *self {
            ClientError::Transport { url, reason } => ClientErrorView::Transport {
                url: url@,
                reason: reason@,
            },
            ClientError::HttpStatus { status, url, body } => ClientErrorView::HttpStatus {
                status,
                url: url@,
                body: body@,
            },
            ClientError::EnvelopeParse { reason, body } => ClientErrorView::EnvelopeParse {
                reason: reason@,
                body: body@,
            },
            ClientError::FormatDetection { cause, resource } => ClientErrorView::FormatDetection {
                cause,
                resource: resource@,
            },
            ClientError::DiagnosticParse { error, diagnostic } => ClientErrorView::DiagnosticParse {
                error,
                diagnostic: diagnostic@,
            },
            ClientError::UnexpectedEvent => ClientErrorView::UnexpectedEvent,
        }
    }
}

/// The end of an exchange as plain values.
pub open spec fn result_view(r: Result<WSDResult, ClientError>) -> Result<
    WSDResultView,
    ClientErrorView,
> {
    match r {
        Ok(result) => Ok(result@),
        Err(error) => Err(error@),
    }
}

/// The index of the first diagnostic that cannot be read, if there is one.
pub open spec fn first_unreadable(raws: Seq<Seq<char>>) -> Option<int>
    decreases raws.len(),
{
    if raws.len() == 0 {
        None
    } else {
        match first_unreadable(raws.drop_last()) {
            Some(i) => Some(i),
            None => if read_diagnostic(raws.last()) is Err {
                Some(raws.len() - 1)
            } else {
                None
            },
        }
    }
}

/// All diagnostics read in order, or the failure on the first that cannot be read.
pub open spec fn spec_read_diagnostics(raws: Seq<Seq<char>>) -> Result<
    Seq<DiagramErrorView>,
    ClientErrorView,
> {
    match first_unreadable(raws) {
        Some(i) => Err(
            ClientErrorView::DiagnosticParse {
                error: read_diagnostic(raws[i])->Err_0,
                diagnostic: raws[i],
            },
        ),
        None => Ok(raws.map_values(|raw: Seq<char>| read_diagnostic(raw)->Ok_0)),
    }
}

/// The outcome of reading the diagnostics, as plain values.
pub open spec fn diagnostics_result_view(r: Result<Vec<DiagramError>, ClientError>) -> Result<
    Seq<DiagramErrorView>,
    ClientErrorView,
> {
    match r {
        Ok(errors) => Ok(diagnostics_view(errors@)),
        Err(error) => Err(error@),
    }
}

/// Reads every diagnostic of the envelope, in order. One that cannot be read fails the
/// whole list: a list with gaps could not be trusted.
pub fn read_diagnostics(raws: &Vec<String>) -> (r: Result<Vec<DiagramError>, ClientError>)
    ensures
        diagnostics_result_view(r) == spec_read_diagnostics(texts(raws@)),
{
    let mut errors: Vec<DiagramError> = Vec::new();
    let mut i: usize = 0;
    let ghost all = texts(raws@);
    while i < raws.len()
        invariant
            i <= raws.len(),
            all == texts(raws@),
            first_unreadable(all.take(i as int)) is None,
            diagnostics_view(errors@) == all.take(i as int).map_values(
                |raw: Seq<char>| read_diagnostic(raw)->Ok_0,
            ),
        decreases raws.len() - i,
    {
        let ghost before = diagnostics_view(errors@);
        proof {
            assert(all.take(i + 1).drop_last() == all.take(i as int));
            assert(all.take(i + 1).last() == raws@[i as int]@);
        }
        match DiagramError::from_wsd_error_str(raws[i].as_str()) {
            Ok(error) => {
                errors.push(error);
                assert(diagnostics_view(errors@) =~= before.push(error@));
                assert(all.take(i + 1).map_values(|raw: Seq<char>| read_diagnostic(raw)->Ok_0)
                    =~= before.push(error@));
            },
            Err(error) => {
                proof {
                    lemma_first_unreadable_extends(all, i as int + 1);
                }
                return Err(ClientError::DiagnosticParse { error, diagnostic: raws[i].clone() });
            },
        }
        i = i + 1;
    }
    assert(all.take(i as int) == all);
    Ok(errors)
}

/// The first diagnostic that cannot be read stays the first when more follow.
pub proof fn lemma_first_unreadable_extends(raws: Seq<Seq<char>>, n: int)
    requires
        0 <= n <= raws.len(),
        first_unreadable(raws.take(n)) is Some,
    ensures
        first_unreadable(raws) == first_unreadable(raws.take(n)),
    decreases raws.len() - n,
{
    if n < raws.len() {
        assert(raws.take(n + 1).drop_last() == raws.take(n));
        lemma_first_unreadable_extends(raws, n + 1);
    } else {
        assert(raws.take(n) == raws);
    }
}

/// What the exchange ends with once the diagram is fetched: the failure to tell the
/// format, else the failure to read the diagnostics, else the result.
pub open spec fn spec_compose(
    diagram: Seq<u8>,
    resource: Seq<char>,
    format: Result<Format, FormatDetectionError>,
    diagnostics: Result<Seq<DiagramErrorView>, ClientErrorView>,
) -> Result<WSDResultView, ClientErrorView> {
    match format {
        Err(cause) => Err(ClientErrorView::FormatDetection { cause, resource }),
        Ok(actual_format) => match diagnostics {
            Err(error) => Err(error),
            Ok(errors) => Ok(WSDResultView { diagram, errors, actual_format }),
        },
    }
}

/// Puts the result together from the fetched diagram, the detected format and the
/// diagnostics that were read.
pub fn compose_result(
    diagram: Vec<u8>,
    resource: &str,
    format: Result<Format, FormatDetectionError>,
    diagnostics: Result<Vec<DiagramError>, ClientError>,
) -> (r: Result<WSDResult, ClientError>)
    ensures
        result_view(r) == spec_compose(
            diagram@,
            resource@,
            format,
            diagnostics_result_view(diagnostics),
        ),
{
    match format {
        Err(cause) => Err(ClientError::FormatDetection { cause, resource: resource.to_owned() }),
        Ok(actual_format) => match diagnostics {
            Err(error) => Err(error),
            Ok(errors) => Ok(WSDResult { diagram, errors, actual_format }),
        },
    }
}

/// Where an exchange with the service stands.
#[derive(Debug, Clone, PartialEq, Eq)]
pub enum Exchange {
    /// The first call has been handed out; its answer is awaited.
    Submitted,
    /// The answer to the first call was accepted; its decoding is awaited.
    Decoding { body: Vec<u8> },
    /// The second call has been handed out; its answer is awaited.
    Fetching { img: String, errors: Vec<String> },
    /// The exchange has ended.
    Finished,
}

/// A state as plain values.
pub enum ExchangeView {
    Submitted,
    Decoding { body: Seq<u8> },
    Fetching { img: Seq<char>, errors: Seq<Seq<char>> },
    Finished,
}

impl View for Exchange {
    type V = ExchangeView;

    open spec fn view(&self) -> ExchangeView {
        match *self {
            Exchange::Submitted => ExchangeView::Submitted,
            Exchange::Decoding { body } => ExchangeView::Decoding { body: body@ },
            Exchange::Fetching { img, errors } => ExchangeView::Fetching {
                img: img@,
                errors: texts(errors@),
            },
            Exchange::Finished => ExchangeView::Finished,
        }
    }
}

/// What the caller reports back after it has done what it was asked to do.
#[derive(Debug, Clone, PartialEq, Eq)]
pub enum Event {
    /// The call was answered: the status of the answer and its whole body.
    Response { status: u16, body: Vec<u8> },
    /// The call could not be made, or its answer could not be read.
    TransportFailure { reason: String },
    /// The body decoded as an envelope: the resource reference and the diagnostics.
    Envelope { img: String, errors: Vec<String> },
    /// The body is no envelope.
    Malformed { reason: String },
}

/// An event as plain values.
pub enum EventView {
    Response { status: u16, body: Seq<u8> },
    TransportFailure { reason: Seq<char> },
    Envelope { img: Seq<char>, errors: Seq<Seq<char>> },
    Malformed { reason: Seq<char> },
}

impl View for Event {
    type V = EventView;

    open spec fn view(&self) -> EventView {
        match *self {
            Event::Response { status, body } => EventView::Response { status, body: body@ },
            Event::TransportFailure { reason } => EventView::TransportFailure { reason: reason@ },
            Event::Envelope { img, errors } => EventView::Envelope {
                img: img@,
                errors: texts(errors@),
            },
            Event::Malformed { reason } => EventView::Malformed { reason: reason@ },
        }
    }
}

/// What the caller is asked to do next.
#[derive(Debug, PartialEq, Eq)]
pub enum Action {
    /// Send the fields, form-encoded, with POST to the address, and read the whole body
    /// of the answer whatever its status.
    Post { url: String, form: Vec<(String, String)> },
    /// Decode the body as the envelope of the service.
    Decode { body: Vec<u8> },
    /// Fetch the address with GET.
    Get { url: String },
    /// Nothing more: the exchange has ended with this.
    Finish(Result<WSDResult, ClientError>),
}

/// An action as plain values.
pub enum ActionView {
    Post { url: Seq<char>, form: Seq<(Seq<char>, Seq<char>)> },
    Decode { body: Seq<u8> },
    Get { url: Seq<char> },
    Finish(Result<WSDResultView, ClientErrorView>),
}

impl View for Action {
    type V = ActionView;

    open spec fn view(&self) -> ActionView {
        match *self {
            Action::Post { url, form } => ActionView::Post { url: url@, form: pairs_view(form@) },
            Action::Decode { body } => ActionView::Decode { body: body@ },
            Action::Get { url } => ActionView::Get { url: url@ },
            Action::Finish(result) => ActionView::Finish(result_view(result)),
        }
    }
}

/// Whether a status tells success: 200 to 299.
pub open spec fn is_success(status: u16) -> bool {
    200 <= status && status < 300
}

/// Whether a status tells success.
pub fn status_is_success(status: u16) -> (r: bool)
    ensures
        r == is_success(status),
{
    200 <= status && status < 300
}

/// The address of the second call: the resource reference, which begins with `?`,
/// appended to the address of the service.
pub open spec fn resource_url(img: Seq<char>) -> Seq<char> {
    service_url() + img
}

/// What the exchange ends with once the diagram has been fetched.
pub open spec fn spec_outcome(diagram: Seq<u8>, img: Seq<char>, errors: Seq<Seq<char>>) -> Result<
    WSDResultView,
    ClientErrorView,
> {
    spec_compose(diagram, img, detected_format(img), spec_read_diagnostics(errors))
}

/// The end of an exchange with a failure.
pub open spec fn failed(error: ClientErrorView) -> (ExchangeView, ActionView) {
    (ExchangeView::Finished, ActionView::Finish(Err(error)))
}

/// The next state and the next action for every state and event.
pub open spec fn spec_step(state: ExchangeView, event: EventView) -> (ExchangeView, ActionView) {
    match state {
        ExchangeView::Submitted => match event {
            EventView::Response { status, body } => if is_success(status) {
                (ExchangeView::Decoding { body }, ActionView::Decode { body })
            } else {
                failed(ClientErrorView::HttpStatus { status, url: service_url(), body })
            },
            EventView::TransportFailure { reason } => failed(
                ClientErrorView::Transport { url: service_url(), reason },
            ),
            _ => failed(ClientErrorView::UnexpectedEvent),
        },
        ExchangeView::Decoding { body } => match event {
            EventView::Envelope { img, errors } => (
                ExchangeView::Fetching { img, errors },
                ActionView::Get { url: resource_url(img) },
            ),
            EventView::Malformed { reason } => failed(
                ClientErrorView::EnvelopeParse { reason, body },
            ),
            _ => failed(ClientErrorView::UnexpectedEvent),
        },
        ExchangeView::Fetching { img, errors } => match event {
            EventView::Response { status, body } => if is_success(status) {
                (ExchangeView::Finished, ActionView::Finish(spec_outcome(body, img, errors)))
            } else {
                failed(ClientErrorView::HttpStatus { status, url: resource_url(img), body })
            },
            EventView::TransportFailure { reason } => failed(
                ClientErrorView::Transport { url: resource_url(img), reason },
            ),
            _ => failed(ClientErrorView::UnexpectedEvent),
        },
        ExchangeView::Finished => failed(ClientErrorView::UnexpectedEvent),
    }
}

/// Opens an exchange: the first call is handed out.
pub fn begin(diagram: &str, parameters: &PlotParameters) -> (r: (Exchange, Action))
    ensures
        r.0@ == ExchangeView::Submitted,
        r.1@ == (ActionView::Post {
            url: service_url(),
            form: spec_request_parameters(diagram@, parameters@),
        }),
{
    let form = request_parameters(diagram, parameters);
    (Exchange::Submitted, Action::Post { url: service_url_str().to_owned(), form })
}

/// Ends the exchange with a failure.
fn fail(error: ClientError) -> (r: (Exchange, Action))
    ensures
        (r.0@, r.1@) == failed(error@),
{
    (Exchange::Finished, Action::Finish(Err(error)))
}

/// Takes the exchange one step on: from the state and what the caller reports to the
/// next state and what the caller is to do next.
pub fn step(state: Exchange, event: Event) -> (r: (Exchange, Action))
    ensures
        (r.0@, r.1@) == spec_step(state@, event@),
{
    match state {
        Exchange::Submitted => match event {
            Event::Response { status, body } => {
                if status_is_success(status) {
                    let copy = body.clone();
                    assert(copy@ =~= body@);
                    (Exchange::Decoding { body }, Action::Decode { body: copy })
                } else {
                    fail(ClientError::HttpStatus { status, url: service_url_str().to_owned(), body })
                }
            },
            Event::TransportFailure { reason } => fail(
                ClientError::Transport { url: service_url_str().to_owned(), reason },
            ),
            _ => fail(ClientError::UnexpectedEvent),
        },
        Exchange::Decoding { body } => match event {
            Event::Envelope { img, errors } => {
                let url = followed_by(service_url_str(), img.as_str());
                (Exchange::Fetching { img, errors }, Action::Get { url })
            },
            Event::Malformed { reason } => fail(ClientError::EnvelopeParse { reason, body }),
            _ => fail(ClientError::UnexpectedEvent),
        },
        Exchange::Fetching { img, errors } => match event {
            Event::Response { status, body } => {
                if status_is_success(status) {
                    let format = determine_actual_format(img.as_str());
                    let diagnostics = read_diagnostics(&errors);
                    let result = compose_result(body, img.as_str(), format, diagnostics);
                    (Exchange::Finished, Action::Finish(result))
                } else {
                    let url = followed_by(service_url_str(), img.as_str());
                    fail(ClientError::HttpStatus { status, url, body })
                }
            },
            Event::TransportFailure { reason } => {
                let url = followed_by(service_url_str(), img.as_str());
                fail(ClientError::Transport { url, reason })
            },
            _ => fail(ClientError::UnexpectedEvent),
        },
        Exchange::Finished => fail(ClientError::UnexpectedEvent),
    }
}

} // verus!
