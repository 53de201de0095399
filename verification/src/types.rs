//! The options of a rendering request and the diagnostics that the service reports.

use vstd::prelude::*;
use vstd::string::*;
use crate::pattern::{captures, captures_view, regex_accepts, regex_captures};
use crate::text::{normalise_str, normalised, parse_unsigned, parsed_unsigned, texts};

verus! {

/// The first place at which `key` stands among `keys`, if it stands there at all.
pub open spec fn first_index_of(keys: Seq<Seq<char>>, key: Seq<char>) -> Option<int>
    decreases keys.len(),
{
    if keys.len() == 0 {
        None
    } else if keys.last() == key && first_index_of(keys.drop_last(), key) is None {
        Some(keys.len() - 1)
    } else {
        first_index_of(keys.drop_last(), key)
    }
}

/// The names of the variants, each in the form under which names are compared.
pub open spec fn normalised_aliases<T>(all: Seq<T>, alias: spec_fn(T) -> Seq<char>) -> Seq<
    Seq<char>,
> {
    all.map_values(|x: T| normalised(alias(x)))
}

/// The variant that a text names: the first of `all` whose name, under `alias`, has the
/// normal form of the text.
pub open spec fn parse_among<T>(
    all: Seq<T>,
    alias: spec_fn(T) -> Seq<char>,
    text: Seq<char>,
) -> Option<T> {
    match first_index_of(normalised_aliases(all, alias), normalised(text)) {
        Some(i) => Some(all[i]),
        None => None,
    }
}

/// The parts, with `sep` between each two neighbours.
pub open spec fn joined(parts: Seq<Seq<char>>, sep: Seq<char>) -> Seq<char>
    decreases parts.len(),
{
    if parts.len() == 0 {
        Seq::<char>::empty()
    } else if parts.len() == 1 {
        parts[0]
    } else {
        joined(parts.drop_last(), sep) + sep + parts.last()
    }
}

/// What the help text shows for one variant: its name, marked where it needs a paid account.
pub open spec fn help_entry(name: Seq<char>, premium: bool) -> Seq<char> {
    if premium {
        name + " (premium)"@
    } else {
        name
    }
}

/// What the help text shows for each variant, in order.
pub open spec fn help_entries<T>(
    all: Seq<T>,
    alias: spec_fn(T) -> Seq<char>,
    premium: spec_fn(T) -> bool,
) -> Seq<Seq<char>> {
    all.map_values(|x: T| help_entry(alias(x), premium(x)))
}

/// What `first_index_of` finds is the least index at which the key stands, and it finds
/// nothing only where the key stands nowhere.
pub proof fn lemma_first_index_is_least(keys: Seq<Seq<char>>, key: Seq<char>)
    ensures
        match first_index_of(keys, key) {
            Some(i) => 0 <= i < keys.len() && keys[i] == key && forall|j: int|
                0 <= j < i ==> keys[j] != key,
            None => forall|j: int| 0 <= j < keys.len() ==> keys[j] != key,
        },
    decreases keys.len(),
{
    if keys.len() > 0 {
        let init = keys.drop_last();
        lemma_first_index_is_least(init, key);
        match first_index_of(init, key) {
            Some(i) => {
                assert(init[i] == keys[i]);
                assert forall|j: int| 0 <= j < i implies keys[j] != key by {
                    assert(init[j] == keys[j]);
                }
            },
            None => {
                assert forall|j: int| 0 <= j < keys.len() - 1 implies keys[j] != key by {
                    assert(init[j] == keys[j]);
                }
            },
        }
    }
}

/// A key that is found among the first `n` keys is found at the same place among all.
pub proof fn lemma_first_index_extends(keys: Seq<Seq<char>>, key: Seq<char>, n: int)
    requires
        0 <= n <= keys.len(),
        first_index_of(keys.take(n), key) is Some,
    ensures
        first_index_of(keys, key) == first_index_of(keys.take(n), key),
    decreases keys.len() - n,
{
    if n < keys.len() {
        assert(keys.take(n + 1).drop_last() == keys.take(n));
        lemma_first_index_extends(keys, key, n + 1);
    } else {
        assert(keys.take(n) == keys);
    }
}

/// What the option types of a request share: each variant has a value under which it is
/// sent, a name under which a user writes it, and may need a paid account.
pub trait WSDEnum where Self: std::marker::Sized {
    /// Whether the variant needs a paid account.
    spec fn spec_premium_feature(&self) -> bool;

    /// The value under which the variant is sent to the service.
    spec fn spec_wsd_value(&self) -> Seq<char>;

    /// All variants, in the order in which names are tried and shown.
    spec fn spec_all() -> Seq<Self>;

    /// The name under which a user writes the variant.
    spec fn spec_human_readable_value(&self) -> Seq<char>;

    /// Whether the variant needs a paid account, that is a valid key.
    fn premium_feature(&self) -> (r: bool)
        ensures
            r == self.spec_premium_feature(),
    ;

    /// The value under which the variant is sent to the service.
    fn wsd_value(&self) -> (r: String)
        ensures
            r@ == self.spec_wsd_value(),
    ;

    /// All variants of the type.
    fn all() -> (r: Vec<Self>)
        ensures
            r@ == Self::spec_all(),
    ;

    /// The name under which a user writes the variant.
    fn human_readable_value(&self) -> (r: String)
        ensures
            r@ == self.spec_human_readable_value(),
    ;

    /// The variant that a text names, whatever its case and its separators: the first
    /// whose name has the normal form of the text. No variant where none has.
    fn from_str(s: &str) -> (r: Option<Self>)
        ensures
            r == parse_among(Self::spec_all(), |x: Self| x.spec_human_readable_value(), s@),
    {
        let key = normalise_str(s);
        let all = Self::all();
        let ghost whole = all@;
        for x in it: all
            invariant
                it.seq() == whole,
                whole == Self::spec_all(),
                key@ == normalised(s@),
                first_index_of(
                    normalised_aliases(whole, |x: Self| x.spec_human_readable_value()).take(
                        it.index() as int,
                    ),
                    key@,
                ) is None,
        {
            let alias = normalise_str(x.human_readable_value().as_str());
            proof {
                let i = it.index() as int;
                let keys = normalised_aliases(whole, |x: Self| x.spec_human_readable_value());
                assert(keys.take(i + 1).drop_last() == keys.take(i));
                assert(keys.take(i + 1).last() == alias@);
            }
            if alias == key {
                proof {
                    lemma_first_index_extends(
                        normalised_aliases(whole, |x: Self| x.spec_human_readable_value()),
                        key@,
                        it.index() as int + 1,
                    );
                }
                return Some(x);
            }
        }
        proof {
            let keys = normalised_aliases(whole, |x: Self| x.spec_human_readable_value());
            assert(keys.take(whole.len() as int) == keys);
        }
        None
    }

    /// The values of all variants as they are sent to the service, in the order of `all`.
    fn all_wsd_values() -> (r: Vec<String>)
        ensures
            texts(r@) == Self::spec_all().map_values(|x: Self| x.spec_wsd_value()),
    {
        let all = Self::all();
        let mut out: Vec<String> = Vec::new();
        let mut i: usize = 0;
        while i < all.len()
            invariant
                i <= all.len(),
                all@ == Self::spec_all(),
                texts(out@) == all@.take(i as int).map_values(|x: Self| x.spec_wsd_value()),
            decreases all.len() - i,
        {
            let value = all[i].wsd_value();
            let ghost before = texts(out@);
            out.push(value);
            i = i + 1;
            assert(texts(out@) =~= before.push(value@));
            assert(all@.take(i as int).map_values(|x: Self| x.spec_wsd_value()) =~= before.push(
                value@,
            ));
        }
        assert(all@.take(i as int) == all@);
        out
    }

    /// The names of all variants as a user writes them, in the order of `all`.
    fn all_human_readable_values() -> (r: Vec<String>)
        ensures
            texts(r@) == Self::spec_all().map_values(|x: Self| x.spec_human_readable_value()),
    {
        let all = Self::all();
        let mut out: Vec<String> = Vec::new();
        let mut i: usize = 0;
        while i < all.len()
            invariant
                i <= all.len(),
                all@ == Self::spec_all(),
                texts(out@) == all@.take(i as int).map_values(
                    |x: Self| x.spec_human_readable_value(),
                ),
            decreases all.len() - i,
        {
            let value = all[i].human_readable_value();
            let ghost before = texts(out@);
            out.push(value);
            i = i + 1;
            assert(texts(out@) =~= before.push(value@));
            assert(all@.take(i as int).map_values(|x: Self| x.spec_human_readable_value())
                =~= before.push(value@));
        }
        assert(all@.take(i as int) == all@);
        out
    }

    /// The names of all variants, separated by `, `, those that need a paid account marked.
    fn help_str() -> (r: String)
        ensures
            r@ == joined(
                help_entries(
                    Self::spec_all(),
                    |x: Self| x.spec_human_readable_value(),
                    |x: Self| x.spec_premium_feature(),
                ),
                ", "@,
            ),
    {
        let all = Self::all();
        let mut out = String::new();
        let mut i: usize = 0;
        let ghost entries = help_entries(
            all@,
            |x: Self| x.spec_human_readable_value(),
            |x: Self| x.spec_premium_feature(),
        );
        while i < all.len()
            invariant
                i <= all.len(),
                all@ == Self::spec_all(),
                entries == help_entries(
                    all@,
                    |x: Self| x.spec_human_readable_value(),
                    |x: Self| x.spec_premium_feature(),
                ),
                out@ == joined(entries.take(i as int), ", "@),
            decreases all.len() - i,
        {
            let ghost before = out@;
            if i > 0 {
                out.append(", ");
            }
            let name = all[i].human_readable_value();
            out.append(name.as_str());
            if all[i].premium_feature() {
                out.append(" (premium)");
            }
            proof {
                let next = entries.take(i + 1);
                assert(next.drop_last() == entries.take(i as int));
                assert(next.last() == entries[i as int]);
                if i == 0 {
                    assert(before + next.last() =~= next.last());
                } else {
                    assert(before + ", "@ + next.last() =~= out@);
                }
            }
            i = i + 1;
        }
        assert(entries.take(i as int) == entries);
        out
    }
}

/// The format of the rendered diagram. `Pdf` and `Svg` need a paid account; the service
/// may answer in another format than the one that was asked for.
#[derive(Debug, Clone, Copy, Eq, PartialEq, Structural)]
pub enum Format {
    Png,
    Pdf,
    Svg,
}

impl Default for Format {
    fn default() -> (r: Format)
        ensures
            r == Format::Png,
    {
        Format::Png
    }
}

impl WSDEnum for Format {
    open spec fn spec_premium_feature(&self) -> bool {
        match self {
            Format::Png => false,
            Format::Pdf => true,
            Format::Svg => true,
        }
    }

    open spec fn spec_wsd_value(&self) -> Seq<char> {
        match self {
            Format::Png => "png"@,
            Format::Pdf => "pdf"@,
            Format::Svg => "svg"@,
        }
    }

    open spec fn spec_all() -> Seq<Format> {
        seq![
            Format::Png, Format::Pdf, Format::Svg,
        ]
    }

    open spec fn spec_human_readable_value(&self) -> Seq<char> {
        self.spec_wsd_value()
    }

    fn premium_feature(&self) -> bool {
        match self {
            Format::Png => false,
            Format::Pdf => true,
            Format::Svg => true,
        }
    }

    fn wsd_value(&self) -> String {
        match self {
            Format::Png => "png".to_owned(),
            Format::Pdf => "pdf".to_owned(),
            Format::Svg => "svg".to_owned(),
        }
    }

    fn all() -> Vec<Format> {
        vec![
            Format::Png, Format::Pdf, Format::Svg,
        ]
    }

    fn human_readable_value(&self) -> String {
        self.wsd_value()
    }
}

/// The visual theme of the diagram.
#[derive(Debug, Clone, Copy, Eq, PartialEq, Structural)]
pub enum Style {
    Default,
    Earth,
    Magazine,
    ModernBlue,
    Mscgen,
    Napkin,
    Omegapple,
    Patent,
    Qsd,
    Rose,
    Roundgreen,
}

impl Default for Style {
    fn default() -> (r: Style)
        ensures
            r == Style::Default,
    {
        Style::Default
    }
}

impl WSDEnum for Style {
    open spec fn spec_premium_feature(&self) -> bool {
        false
    }

    open spec fn spec_wsd_value(&self) -> Seq<char> {
        match self {
            Style::Default => "default"@,
            Style::Earth => "earth"@,
            Style::Magazine => "magazine"@,
            Style::ModernBlue => "modern-blue"@,
            Style::Mscgen => "mscgen"@,
            Style::Napkin => "napkin"@,
            Style::Omegapple => "omegapple"@,
            Style::Patent => "patent"@,
            Style::Qsd => "qsd"@,
            Style::Rose => "rose"@,
            Style::Roundgreen => "roundgreen"@,
        }
    }

    open spec fn spec_all() -> Seq<Style> {
        seq![
            Style::Default, Style::Earth, Style::Magazine, Style::ModernBlue, Style::Mscgen, Style::Napkin, Style::Omegapple, Style::Patent, Style::Qsd, Style::Rose, Style::Roundgreen,
        ]
    }

    open spec fn spec_human_readable_value(&self) -> Seq<char> {
        self.spec_wsd_value()
    }

    fn premium_feature(&self) -> bool {
        false
    }

    fn wsd_value(&self) -> String {
        match self {
            Style::Default => "default".to_owned(),
            Style::Earth => "earth".to_owned(),
            Style::Magazine => "magazine".to_owned(),
            Style::ModernBlue => "modern-blue".to_owned(),
            Style::Mscgen => "mscgen".to_owned(),
            Style::Napkin => "napkin".to_owned(),
            Style::Omegapple => "omegapple".to_owned(),
            Style::Patent => "patent".to_owned(),
            Style::Qsd => "qsd".to_owned(),
            Style::Rose => "rose".to_owned(),
            Style::Roundgreen => "roundgreen".to_owned(),
        }
    }

    fn all() -> Vec<Style> {
        vec![
            Style::Default, Style::Earth, Style::Magazine, Style::ModernBlue, Style::Mscgen, Style::Napkin, Style::Omegapple, Style::Patent, Style::Qsd, Style::Rose, Style::Roundgreen,
        ]
    }

    fn human_readable_value(&self) -> String {
        self.wsd_value()
    }
}

/// The paper size of the result; of use with the `Pdf` format only.
#[derive(Debug, Clone, Copy, Eq, PartialEq, Structural)]
pub enum PaperSize {
    Unspecified,
    Letter,
    A4,
    _11x17,
    A1,
    A2,
    A3,
    Legal,
}

impl Default for PaperSize {
    fn default() -> (r: PaperSize)
        ensures
            r == PaperSize::Unspecified,
    {
        PaperSize::Unspecified
    }
}

impl WSDEnum for PaperSize {
    open spec fn spec_premium_feature(&self) -> bool {
        false
    }

    open spec fn spec_wsd_value(&self) -> Seq<char> {
        match self {
            PaperSize::Unspecified => "none"@,
            PaperSize::Letter => "lettter"@,
            PaperSize::A4 => "a4"@,
            PaperSize::_11x17 => "11x17"@,
            PaperSize::A1 => "a1"@,
            PaperSize::A2 => "a2"@,
            PaperSize::A3 => "a3"@,
            PaperSize::Legal => "legal"@,
        }
    }

    open spec fn spec_all() -> Seq<PaperSize> {
        seq![
            PaperSize::Unspecified, PaperSize::Letter, PaperSize::A4, PaperSize::_11x17, PaperSize::A1, PaperSize::A2, PaperSize::A3, PaperSize::Legal,
        ]
    }

    open spec fn spec_human_readable_value(&self) -> Seq<char> {
        self.spec_wsd_value()
    }

    fn premium_feature(&self) -> bool {
        false
    }

    fn wsd_value(&self) -> String {
        match self {
            PaperSize::Unspecified => "none".to_owned(),
            PaperSize::Letter => "lettter".to_owned(),
            PaperSize::A4 => "a4".to_owned(),
            PaperSize::_11x17 => "11x17".to_owned(),
            PaperSize::A1 => "a1".to_owned(),
            PaperSize::A2 => "a2".to_owned(),
            PaperSize::A3 => "a3".to_owned(),
            PaperSize::Legal => "legal".to_owned(),
        }
    }

    fn all() -> Vec<PaperSize> {
        vec![
            PaperSize::Unspecified, PaperSize::Letter, PaperSize::A4, PaperSize::_11x17, PaperSize::A1, PaperSize::A2, PaperSize::A3, PaperSize::Legal,
        ]
    }

    fn human_readable_value(&self) -> String {
        self.wsd_value()
    }
}

/// The paper orientation of the result; of use with the `Pdf` format only. It is sent
/// as the number of the `landscape` parameter: `0` for portrait, `1` for landscape.
#[derive(Debug, Clone, Copy, Eq, PartialEq, Structural)]
pub enum PaperOrientation {
    Portrait,
    Landscape,
}

impl Default for PaperOrientation {
    fn default() -> (r: PaperOrientation)
        ensures
            r == PaperOrientation::Portrait,
    {
        PaperOrientation::Portrait
    }
}

impl WSDEnum for PaperOrientation {
    open spec fn spec_premium_feature(&self) -> bool {
        false
    }

    open spec fn spec_wsd_value(&self) -> Seq<char> {
        match self {
            PaperOrientation::Portrait => "0"@,
            PaperOrientation::Landscape => "1"@,
        }
    }

    open spec fn spec_all() -> Seq<PaperOrientation> {
        seq![
            PaperOrientation::Portrait, PaperOrientation::Landscape,
        ]
    }

    open spec fn spec_human_readable_value(&self) -> Seq<char> {
        match self {
            PaperOrientation::Portrait => "portrait"@,
            PaperOrientation::Landscape => "landscape"@,
        }
    }

    fn premium_feature(&self) -> bool {
        false
    }

    fn wsd_value(&self) -> String {
        match self {
            PaperOrientation::Portrait => "0".to_owned(),
            PaperOrientation::Landscape => "1".to_owned(),
        }
    }

    fn all() -> Vec<PaperOrientation> {
        vec![
            PaperOrientation::Portrait, PaperOrientation::Landscape,
        ]
    }

    fn human_readable_value(&self) -> String {
        match self {
            PaperOrientation::Portrait => "portrait".to_owned(),
            PaperOrientation::Landscape => "landscape".to_owned(),
        }
    }
}

/// Which variant of `T` a text names: the first, in the order of `all`, whose normalised
/// name equals the normalised text.
pub open spec fn spec_from_str<T: WSDEnum>(s: Seq<char>) -> Option<T> {
    parse_among(T::spec_all(), |x: T| x.spec_human_readable_value(), s)
}

/// The parameters of a rendering request.
#[derive(Debug, Clone, PartialEq, Eq)]
pub struct PlotParameters {
    /// The visual theme; `Style::Default` unless chosen.
    pub style: Style,
    /// The format asked for; `Format::Png` unless chosen.
    pub format: Format,
    /// The paper size; left out of the request unless set.
    pub paper_size: Option<PaperSize>,
    /// The paper orientation; left out of the request unless set.
    pub paper_orientation: Option<PaperOrientation>,
    /// The scale in percent; left out of the request unless set.
    pub scale: Option<u32>,
    /// The key of a paid account; left out of the request unless set.
    pub api_key: Option<String>,
}

/// The parameters as plain values.
pub struct PlotParametersView {
    pub style: Style,
    pub format: Format,
    pub paper_size: Option<PaperSize>,
    pub paper_orientation: Option<PaperOrientation>,
    pub scale: Option<u32>,
    pub api_key: Option<Seq<char>>,
}

impl View for PlotParameters {
    type V = PlotParametersView;

    open spec fn view(&self) -> PlotParametersView {
        PlotParametersView {
            style: self.style,
            format: self.format,
            paper_size: self.paper_size,
            paper_orientation: self.paper_orientation,
            scale: self.scale,
            api_key: match self.api_key {
                Some(key) => Some(key@),
                None => None,
            },
        }
    }
}

/// The parameters that are used where the caller chooses none.
pub open spec fn default_parameters() -> PlotParametersView {
    PlotParametersView {
        style: Style::Default,
        format: Format::Png,
        paper_size: None,
        paper_orientation: None,
        scale: None,
        api_key: None,
    }
}

impl Default for PlotParameters {
    fn default() -> (r: PlotParameters)
        ensures
            r@ == default_parameters(),
    {
        PlotParameters {
            style: Style::default(),
            format: Format::default(),
            paper_size: None,
            paper_orientation: None,
            scale: None,
            api_key: None,
        }
    }
}

/// One diagnostic of the service. Diagnostics are advisory: the diagram may have been
/// rendered all the same.
#[derive(Clone, Debug, PartialEq, Eq)]
pub struct DiagramError {
    /// What is wrong, as the service words it.
    pub description: String,
    /// The line the service names, counted from 1, as reported.
    pub line_number: i32,
    /// The diagnostic as it came from the service.
    pub raw_description: String,
}

/// A diagnostic as plain values.
pub struct DiagramErrorView {
    pub description: Seq<char>,
    pub line_number: int,
    pub raw_description: Seq<char>,
}

impl View for DiagramError {
    type V = DiagramErrorView;

    open spec fn view(&self) -> DiagramErrorView {
        DiagramErrorView {
            description: self.description@,
            line_number: self.line_number as int,
            raw_description: self.raw_description@,
        }
    }
}

/// Why a diagnostic of the service could not be read.
#[derive(Debug, Clone, Copy, PartialEq, Eq, Structural)]
pub enum DiagnosticParseError {
    /// The text has not the shape `Line <N>: <description>`.
    ParseError,
    /// `<N>` is no decimal number that a line number can hold.
    InvalidLineNumber,
    /// The pattern that describes a diagnostic was refused.
    PatternRejected,
}

impl DiagnosticParseError {
    /// The error in words.
    pub fn message(&self) -> (r: String)
        ensures
            r@ == match *self {
                DiagnosticParseError::ParseError => "Error parsing error response."@,
                DiagnosticParseError::InvalidLineNumber =>
                    "Error parsing error response. Cannot convert line_number into int"@,
                DiagnosticParseError::PatternRejected =>
                    "Error parsing error response. The pattern was refused"@,
            },
    {
        match self {
            DiagnosticParseError::ParseError => "Error parsing error response.".to_owned(),
            DiagnosticParseError::InvalidLineNumber =>
                "Error parsing error response. Cannot convert line_number into int".to_owned(),
            DiagnosticParseError::PatternRejected =>
                "Error parsing error response. The pattern was refused".to_owned(),
        }
    }
}

/// The shape of a diagnostic: `Line`, in any case, a number and, after a colon, the
/// description, with white space allowed around the number and the colon.
pub open spec fn diagnostic_pattern() -> Seq<char> {
    r"(?ix) \s* Line \s+ (?P<line_number>\d+) \s* : \s* (?P<description>.*)"@
}

/// The pattern of a diagnostic, as it is handed to the search.
pub fn diagnostic_pattern_str() -> (r: &'static str)
    ensures
        r@ == diagnostic_pattern(),
{
    r"(?ix) \s* Line \s+ (?P<line_number>\d+) \s* : \s* (?P<description>.*)"
}

/// The largest line number that a diagnostic can hold.
pub open spec fn max_line_number() -> nat {
    0x7fff_ffff
}

/// The diagnostic that the groups of a match give: group 1 is the line number, group 2
/// the description.
pub open spec fn diagnostic_of(raw: Seq<char>, found: Option<Seq<Option<Seq<char>>>>) -> Result<
    DiagramErrorView,
    DiagnosticParseError,
> {
    match found {
        None => Err(DiagnosticParseError::ParseError),
        Some(groups) => if groups.len() < 3 || groups[1] is None || groups[2] is None {
            Err(DiagnosticParseError::ParseError)
        } else {
            match parsed_unsigned(groups[1]->0, max_line_number()) {
                None => Err(DiagnosticParseError::InvalidLineNumber),
                Some(n) => Ok(
                    DiagramErrorView {
                        description: groups[2]->0,
                        line_number: n as int,
                        raw_description: raw,
                    },
                ),
            }
        },
    }
}

/// What a diagnostic reads as, as far as the search decides it.
pub open spec fn read_diagnostic(raw: Seq<char>) -> Result<DiagramErrorView, DiagnosticParseError> {
    if regex_accepts(diagnostic_pattern()) {
        diagnostic_of(raw, regex_captures(diagnostic_pattern(), raw))
    } else {
        Err(DiagnosticParseError::PatternRejected)
    }
}

/// The result of reading a diagnostic, as plain values.
pub open spec fn diagnostic_result_view(r: Result<DiagramError, DiagnosticParseError>) -> Result<
    DiagramErrorView,
    DiagnosticParseError,
> {
    match r {
        Ok(e) => Ok(e@),
        Err(e) => Err(e),
    }
}

impl DiagramError {
    /// Builds the diagnostic from what the search for `diagnostic_pattern` found in
    /// `error`.
    pub fn from_captures(error: &str, found: &Option<Vec<Option<String>>>) -> (r: Result<
        DiagramError,
        DiagnosticParseError,
    >)
        ensures
            diagnostic_result_view(r) == diagnostic_of(error@, captures_view(*found)),
    {
        match found {
            None => Err(DiagnosticParseError::ParseError),
            Some(groups) => {
                if groups.len() < 3 {
                    return Err(DiagnosticParseError::ParseError);
                }
                match (&groups[1], &groups[2]) {
                    (Some(number), Some(description)) => {
                        match parse_unsigned(number.as_str(), 0x7fff_ffff) {
                            None => Err(DiagnosticParseError::InvalidLineNumber),
                            Some(n) => Ok(
                                DiagramError {
                                    description: description.clone(),
                                    line_number: n as i32,
                                    raw_description: error.to_owned(),
                                },
                            ),
                        }
                    },
                    _ => Err(DiagnosticParseError::ParseError),
                }
            },
        }
    }

    /// Reads one diagnostic of the service, such as `Line 1: Syntax error.`
    pub fn from_wsd_error_str(error: &str) -> (r: Result<DiagramError, DiagnosticParseError>)
        ensures
            diagnostic_result_view(r) == read_diagnostic(error@),
    {
        match captures(diagnostic_pattern_str(), error) {
            Ok(found) => DiagramError::from_captures(error, &found),
            Err(_) => Err(DiagnosticParseError::PatternRejected),
        }
    }
}

} // verus!
