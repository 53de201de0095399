//! What holds of the library as a whole, proved from the contracts of its functions.

use vstd::prelude::*;
use vstd::string::*;
use crate::client::{
    detected_format, failed, is_success, service_url, spec_read_diagnostics,
    spec_request_parameters, spec_step, ActionView, ClientErrorView, EventView, ExchangeView,
    WSDResultView,
};
use crate::text::{
    all_digits, ascii_lowercase, decimal_digits, digit_char, digits_value, is_ascii_char,
    is_ascii_text, is_digit, is_separator, normalised, parsed_unsigned, split_seq,
    without_separators,
};
use crate::types::{
    default_parameters, first_index_of, joined, normalised_aliases, spec_from_str, Format,
    PaperOrientation, PaperSize, Style, WSDEnum,
};

verus! {

/// A lower-case ASCII letter or a digit.
pub open spec fn is_plain_char(c: char) -> bool {
    ('a' <= c && c <= 'z') || ('0' <= c && c <= '9')
}

/// A text of lower-case ASCII letters and digits only.
pub open spec fn is_plain(s: Seq<char>) -> bool {
    forall|i: int| 0 <= i < s.len() ==> is_plain_char(#[trigger] s[i])
}

/// A plain text holds no separator to take out.
pub proof fn lemma_without_separators_plain(s: Seq<char>)
    requires
        is_plain(s),
    ensures
        without_separators(s) == s,
    decreases s.len(),
{
    if s.len() > 0 {
        assert(is_plain_char(s[s.len() - 1]));
        assert(is_plain(s.drop_last())) by {
            assert forall|i: int| 0 <= i < s.drop_last().len() implies is_plain_char(
                #[trigger] s.drop_last()[i],
            ) by {
                assert(s.drop_last()[i] == s[i]);
            }
        }
        lemma_without_separators_plain(s.drop_last());
        assert(s.drop_last().push(s.last()) =~= s);
    }
}

/// A plain text is its own normal form.
pub proof fn lemma_normalised_plain(s: Seq<char>)
    requires
        is_plain(s),
    ensures
        normalised(s) == s,
{
    assert(is_ascii_text(s)) by {
        assert forall|i: int| 0 <= i < s.len() implies is_ascii_char(#[trigger] s[i]) by {
            assert(is_plain_char(s[i]));
        }
    }
    assert(ascii_lowercase(s) =~= s) by {
        assert forall|i: int| 0 <= i < s.len() implies ascii_lowercase(s)[i] == s[i] by {
            assert(is_plain_char(s[i]));
        }
    }
    lemma_without_separators_plain(s);
}

/// Among keys that differ from one another, each is first found at its own place.
pub proof fn lemma_first_index_distinct(keys: Seq<Seq<char>>, i: int)
    requires
        0 <= i < keys.len(),
        forall|a: int, b: int| 0 <= a < b < keys.len() ==> keys[a] != keys[b],
    ensures
        first_index_of(keys, keys[i]) == Some(i),
    decreases keys.len(),
{
    let init = keys.drop_last();
    if i == keys.len() - 1 {
        lemma_first_index_absent(init, keys[i]);
    } else {
        assert(init[i] == keys[i]);
        lemma_first_index_distinct(init, i);
    }
}

/// A key that equals none of the keys is not found.
pub proof fn lemma_first_index_absent(keys: Seq<Seq<char>>, key: Seq<char>)
    requires
        forall|a: int| 0 <= a < keys.len() ==> keys[a] != key,
    ensures
        first_index_of(keys, key) is None,
    decreases keys.len(),
{
    if keys.len() > 0 {
        lemma_first_index_absent(keys.drop_last(), key);
    }
}

/// Every format is parsed back from its own name.
pub proof fn lemma_format_round_trip(v: Format)
    ensures
        spec_from_str::<Format>(v.spec_human_readable_value()) == Some(v),
{
    reveal_strlit("png");
    reveal_strlit("pdf");
    reveal_strlit("svg");
    let alias = |x: Format| x.spec_human_readable_value();
    let keys = normalised_aliases(Format::spec_all(), alias);
    lemma_normalised_plain("png"@);
    lemma_normalised_plain("pdf"@);
    lemma_normalised_plain("svg"@);
    assert(keys =~= seq!["png"@, "pdf"@, "svg"@]);
    let i: int = match v {
        Format::Png => 0,
        Format::Pdf => 1,
        Format::Svg => 2,
    };
    assert(keys[i] == normalised(v.spec_human_readable_value()));
    assert(Format::spec_all()[i] == v);
    assert forall|a: int, b: int| 0 <= a < b < keys.len() implies keys[a] != keys[b] by {
        assert(keys[a][1] != keys[b][1] || keys[a][0] != keys[b][0]);
    }
    lemma_first_index_distinct(keys, i);
}

/// Taking the separators out of two texts in a row is taking them out of each.
pub proof fn lemma_without_separators_concat(a: Seq<char>, b: Seq<char>)
    ensures
        without_separators(a + b) == without_separators(a) + without_separators(b),
    decreases b.len(),
{
    if b.len() == 0 {
        assert(a + b =~= a);
        assert(without_separators(a) + without_separators(b) =~= without_separators(a));
    } else {
        assert((a + b).drop_last() =~= a + b.drop_last());
        assert((a + b).last() == b.last());
        lemma_without_separators_concat(a, b.drop_last());
        if !is_separator(b.last()) {
            assert((without_separators(a) + without_separators(b.drop_last())).push(b.last())
                =~= without_separators(a) + without_separators(b.drop_last()).push(b.last()));
        }
    }
}

/// The normal form of the one style name that holds a separator.
pub proof fn lemma_modern_blue()
    ensures
        normalised("modern-blue"@) == "modernblue"@,
{
    reveal_strlit("modern-blue");
    reveal_strlit("modernblue");
    reveal_strlit("modern");
    reveal_strlit("blue");
    let s = "modern-blue"@;
    assert(is_ascii_text(s));
    assert(ascii_lowercase(s) =~= s);
    let dash = seq!['-'];
    assert(s =~= "modern"@ + dash + "blue"@);
    lemma_without_separators_concat("modern"@ + dash, "blue"@);
    lemma_without_separators_concat("modern"@, dash);
    lemma_without_separators_plain("modern"@);
    lemma_without_separators_plain("blue"@);
    assert(dash.drop_last() =~= Seq::<char>::empty());
    assert(is_separator(dash.last()));
    assert(without_separators(dash.drop_last()) =~= Seq::<char>::empty());
    assert(without_separators(dash) =~= Seq::<char>::empty());
    assert("modern"@ + Seq::<char>::empty() + "blue"@ =~= "modernblue"@);
}

/// Every style is parsed back from its own name.
pub proof fn lemma_style_round_trip(v: Style)
    ensures
        spec_from_str::<Style>(v.spec_human_readable_value()) == Some(v),
{
    reveal_strlit("default");
    reveal_strlit("earth");
    reveal_strlit("magazine");
    reveal_strlit("modernblue");
    reveal_strlit("mscgen");
    reveal_strlit("napkin");
    reveal_strlit("omegapple");
    reveal_strlit("patent");
    reveal_strlit("qsd");
    reveal_strlit("rose");
    reveal_strlit("roundgreen");
    let alias = |x: Style| x.spec_human_readable_value();
    let keys = normalised_aliases(Style::spec_all(), alias);
    lemma_normalised_plain("default"@);
    lemma_normalised_plain("earth"@);
    lemma_normalised_plain("magazine"@);
    lemma_modern_blue();
    lemma_normalised_plain("mscgen"@);
    lemma_normalised_plain("napkin"@);
    lemma_normalised_plain("omegapple"@);
    lemma_normalised_plain("patent"@);
    lemma_normalised_plain("qsd"@);
    lemma_normalised_plain("rose"@);
    lemma_normalised_plain("roundgreen"@);
    assert(keys =~= seq![
        "default"@,
        "earth"@,
        "magazine"@,
        "modernblue"@,
        "mscgen"@,
        "napkin"@,
        "omegapple"@,
        "patent"@,
        "qsd"@,
        "rose"@,
        "roundgreen"@,
    ]);
    let i: int = match v {
        Style::Default => 0,
        Style::Earth => 1,
        Style::Magazine => 2,
        Style::ModernBlue => 3,
        Style::Mscgen => 4,
        Style::Napkin => 5,
        Style::Omegapple => 6,
        Style::Patent => 7,
        Style::Qsd => 8,
        Style::Rose => 9,
        Style::Roundgreen => 10,
    };
    assert(keys[i] == normalised(v.spec_human_readable_value()));
    assert(Style::spec_all()[i] == v);
    assert forall|a: int, b: int| 0 <= a < b < keys.len() implies keys[a] != keys[b] by {
        assert(keys[a].len() != keys[b].len() || keys[a][0] != keys[b][0] || keys[a][1]
            != keys[b][1]);
    }
    lemma_first_index_distinct(keys, i);
}

/// Every paper size is parsed back from its own name.
pub proof fn lemma_paper_size_round_trip(v: PaperSize)
    ensures
        spec_from_str::<PaperSize>(v.spec_human_readable_value()) == Some(v),
{
    reveal_strlit("none");
    reveal_strlit("lettter");
    reveal_strlit("a4");
    reveal_strlit("11x17");
    reveal_strlit("a1");
    reveal_strlit("a2");
    reveal_strlit("a3");
    reveal_strlit("legal");
    let alias = |x: PaperSize| x.spec_human_readable_value();
    let keys = normalised_aliases(PaperSize::spec_all(), alias);
    lemma_normalised_plain("none"@);
    lemma_normalised_plain("lettter"@);
    lemma_normalised_plain("a4"@);
    lemma_normalised_plain("11x17"@);
    lemma_normalised_plain("a1"@);
    lemma_normalised_plain("a2"@);
    lemma_normalised_plain("a3"@);
    lemma_normalised_plain("legal"@);
    assert(keys =~= seq![
        "none"@,
        "lettter"@,
        "a4"@,
        "11x17"@,
        "a1"@,
        "a2"@,
        "a3"@,
        "legal"@,
    ]);
    let i: int = match v {
        PaperSize::Unspecified => 0,
        PaperSize::Letter => 1,
        PaperSize::A4 => 2,
        PaperSize::_11x17 => 3,
        PaperSize::A1 => 4,
        PaperSize::A2 => 5,
        PaperSize::A3 => 6,
        PaperSize::Legal => 7,
    };
    assert(keys[i] == normalised(v.spec_human_readable_value()));
    assert(PaperSize::spec_all()[i] == v);
    assert forall|a: int, b: int| 0 <= a < b < keys.len() implies keys[a] != keys[b] by {
        assert(keys[a].len() != keys[b].len() || keys[a][0] != keys[b][0] || keys[a][1]
            != keys[b][1]);
    }
    lemma_first_index_distinct(keys, i);
}

/// Every paper orientation is parsed back from its own name.
pub proof fn lemma_paper_orientation_round_trip(v: PaperOrientation)
    ensures
        spec_from_str::<PaperOrientation>(v.spec_human_readable_value()) == Some(v),
{
    reveal_strlit("portrait");
    reveal_strlit("landscape");
    let alias = |x: PaperOrientation| x.spec_human_readable_value();
    let keys = normalised_aliases(PaperOrientation::spec_all(), alias);
    lemma_normalised_plain("portrait"@);
    lemma_normalised_plain("landscape"@);
    assert(keys =~= seq!["portrait"@, "landscape"@]);
    let i: int = match v {
        PaperOrientation::Portrait => 0,
        PaperOrientation::Landscape => 1,
    };
    assert(keys[i] == normalised(v.spec_human_readable_value()));
    assert(PaperOrientation::spec_all()[i] == v);
    assert forall|a: int, b: int| 0 <= a < b < keys.len() implies keys[a] != keys[b] by {
        assert(keys[a][0] != keys[b][0]);
    }
    lemma_first_index_distinct(keys, i);
}

/// Every variant of every option type stands in the list of all variants and is sent
/// under a value that is not empty.
pub proof fn lemma_variants_listed_and_named(
    format: Format,
    style: Style,
    paper_size: PaperSize,
    paper_orientation: PaperOrientation,
)
    ensures
        Format::spec_all().contains(format),
        Style::spec_all().contains(style),
        PaperSize::spec_all().contains(paper_size),
        PaperOrientation::spec_all().contains(paper_orientation),
        format.spec_wsd_value().len() > 0,
        style.spec_wsd_value().len() > 0,
        paper_size.spec_wsd_value().len() > 0,
        paper_orientation.spec_wsd_value().len() > 0,
{
    let i: int = match format {
        Format::Png => 0,
        Format::Pdf => 1,
        Format::Svg => 2,
    };
    assert(Format::spec_all()[i] == format);
    let i: int = match style {
        Style::Default => 0,
        Style::Earth => 1,
        Style::Magazine => 2,
        Style::ModernBlue => 3,
        Style::Mscgen => 4,
        Style::Napkin => 5,
        Style::Omegapple => 6,
        Style::Patent => 7,
        Style::Qsd => 8,
        Style::Rose => 9,
        Style::Roundgreen => 10,
    };
    assert(Style::spec_all()[i] == style);
    let i: int = match paper_size {
        PaperSize::Unspecified => 0,
        PaperSize::Letter => 1,
        PaperSize::A4 => 2,
        PaperSize::_11x17 => 3,
        PaperSize::A1 => 4,
        PaperSize::A2 => 5,
        PaperSize::A3 => 6,
        PaperSize::Legal => 7,
    };
    assert(PaperSize::spec_all()[i] == paper_size);
    let i: int = match paper_orientation {
        PaperOrientation::Portrait => 0,
        PaperOrientation::Landscape => 1,
    };
    assert(PaperOrientation::spec_all()[i] == paper_orientation);
    reveal_strlit("png");
    reveal_strlit("pdf");
    reveal_strlit("svg");
    reveal_strlit("default");
    reveal_strlit("earth");
    reveal_strlit("magazine");
    reveal_strlit("modern-blue");
    reveal_strlit("mscgen");
    reveal_strlit("napkin");
    reveal_strlit("omegapple");
    reveal_strlit("patent");
    reveal_strlit("qsd");
    reveal_strlit("rose");
    reveal_strlit("roundgreen");
    reveal_strlit("none");
    reveal_strlit("lettter");
    reveal_strlit("a4");
    reveal_strlit("11x17");
    reveal_strlit("a1");
    reveal_strlit("a2");
    reveal_strlit("a3");
    reveal_strlit("legal");
    reveal_strlit("0");
    reveal_strlit("1");
}

/// Parsing looks at the normal form of a text only: two texts with one normal form
/// name the same variant of every option type, or both name none.
pub proof fn lemma_parse_by_normal_form<T: WSDEnum>(s: Seq<char>, t: Seq<char>)
    requires
        normalised(s) == normalised(t),
    ensures
        spec_from_str::<T>(s) == spec_from_str::<T>(t),
{
}

/// Parsing is blind to case and to separators: two ASCII texts that agree once their
/// upper-case letters are made lower-case and their `-` and `_` are taken out name the
/// same variant of every option type, or both name none.
pub proof fn lemma_parse_ignores_case_and_separators<T: WSDEnum>(s: Seq<char>, t: Seq<char>)
    requires
        is_ascii_text(s),
        is_ascii_text(t),
        without_separators(ascii_lowercase(s)) == without_separators(ascii_lowercase(t)),
    ensures
        spec_from_str::<T>(s) == spec_from_str::<T>(t),
{
}

/// The decimal digits of a number are digits, begin with one, and denote the number.
pub proof fn lemma_decimal_digits_denote(n: nat)
    ensures
        decimal_digits(n).len() > 0,
        all_digits(decimal_digits(n)),
        digits_value(decimal_digits(n)) == n,
    decreases n,
{
    if n < 10 {
        let s = seq![digit_char(n)];
        assert(is_digit(s[0]));
        assert(s.drop_last() =~= Seq::<char>::empty());
        assert(digits_value(s.drop_last()) == 0);
    } else {
        let head = decimal_digits(n / 10);
        let d = digit_char(n % 10);
        lemma_decimal_digits_denote(n / 10);
        let s = head.push(d);
        assert(s.drop_last() =~= head);
        assert(s.last() == d);
        assert forall|i: int| 0 <= i < s.len() implies is_digit(#[trigger] s[i]) by {
            if i < head.len() {
                assert(s[i] == head[i]);
            }
        }
    }
}

/// A number written in decimal is read back as the same number, where it is within the
/// limit.
pub proof fn lemma_decimal_round_trip(n: nat, max: nat)
    requires
        n <= max,
    ensures
        parsed_unsigned(decimal_digits(n), max) == Some(n),
{
    lemma_decimal_digits_denote(n);
    assert(is_digit(decimal_digits(n)[0]));
}

/// A text is cut into one piece at least, and its pieces, put together again with the
/// separator between them, are the text.
pub proof fn lemma_split_rejoins(s: Seq<char>, sep: char)
    ensures
        split_seq(s, sep).len() >= 1,
        joined(split_seq(s, sep), seq![sep]) == s,
    decreases s.len(),
{
    if s.len() == 0 {
        assert(joined(split_seq(s, sep), seq![sep]) =~= s);
    } else {
        let init = split_seq(s.drop_last(), sep);
        lemma_split_rejoins(s.drop_last(), sep);
        let c = s.last();
        if c == sep {
            let parts = init.push(Seq::<char>::empty());
            assert(parts.drop_last() =~= init);
            assert(joined(init, seq![sep]) + seq![sep] + Seq::<char>::empty() =~= s);
        } else {
            let parts = init.drop_last().push(init.last().push(c));
            assert(parts.drop_last() =~= init.drop_last());
            if init.len() == 1 {
                assert(init[0].push(c) =~= s);
            } else {
                assert(joined(init.drop_last(), seq![sep]) + seq![sep] + init.last().push(c)
                    =~= (joined(init.drop_last(), seq![sep]) + seq![sep] + init.last()).push(c));
                assert(s.drop_last().push(c) =~= s);
            }
        }
    }
}

/// With the default parameters the first call holds the four fields that are always
/// sent and no other, whatever the diagram text.
pub proof fn lemma_default_request(diagram: Seq<char>)
    ensures
        spec_request_parameters(diagram, default_parameters()) == seq![
            ("message"@, diagram),
            ("style"@, "default"@),
            ("format"@, "png"@),
            ("apiVersion"@, "1"@),
        ],
{
    assert(spec_request_parameters(diagram, default_parameters()) =~= seq![
        ("message"@, diagram),
        ("style"@, "default"@),
        ("format"@, "png"@),
        ("apiVersion"@, "1"@),
    ]);
}

/// A status outside 200 to 299 on the first call ends the exchange with that status
/// and the body, and an exchange that has ended hands out no further call, whatever
/// is reported to it.
pub proof fn lemma_failed_submission_ends_exchange(status: u16, body: Seq<u8>, later: EventView)
    requires
        !is_success(status),
    ensures
        spec_step(ExchangeView::Submitted, EventView::Response { status, body }) == failed(
            ClientErrorView::HttpStatus { status, url: service_url(), body },
        ),
        spec_step(ExchangeView::Finished, later) == failed(ClientErrorView::UnexpectedEvent),
{
}

/// The second call is handed out in one case only: an envelope was decoded from the
/// answer to the first call.
pub proof fn lemma_fetch_follows_envelope(state: ExchangeView, event: EventView)
    requires
        spec_step(state, event).1 is Get,
    ensures
        state is Decoding,
        event is Envelope,
{
}

/// Diagnostics do not suppress a diagram: where the format can be told and every
/// diagnostic can be read, a successful second call ends the exchange with the fetched
/// bytes, however many diagnostics there are.
pub proof fn lemma_diagnostics_keep_diagram(
    img: Seq<char>,
    errors: Seq<Seq<char>>,
    status: u16,
    body: Seq<u8>,
)
    requires
        is_success(status),
    ensures
        detected_format(img) is Ok && spec_read_diagnostics(errors) is Ok ==> spec_step(
            ExchangeView::Fetching { img, errors },
            EventView::Response { status, body },
        ) == (
            ExchangeView::Finished,
            ActionView::Finish(
                Ok(
                    WSDResultView {
                        diagram: body,
                        errors: spec_read_diagnostics(errors)->Ok_0,
                        actual_format: detected_format(img)->Ok_0,
                    },
                ),
            ),
        ),
        spec_read_diagnostics(errors) matches Ok(read) ==> read.len() == errors.len(),
{
}

} // verus!
