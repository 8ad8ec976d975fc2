use vstd::prelude::*;
use rand::seq::SliceRandom;

verus! {

/// The resolved configuration: how long the output is, which template
/// drives it, and whether the template's symbol order is shuffled. The
/// provenance flags record which override the arguments supplied.
#[derive(Debug, PartialEq)]
pub struct Options {
    pub default_values: bool,
    pub using_custom_format: bool,
    pub using_custom_length: bool,
    pub output_length: usize,
    pub randomise_output: bool,
    pub format: String,
}

/// A mathematical image of a resolved configuration.
pub ghost struct OptionsModel {
    pub default_values: bool,
    pub using_custom_format: bool,
    pub using_custom_length: bool,
    pub output_length: int,
    pub randomise_output: bool,
    pub format: Seq<char>,
}

/// The configuration agrees with the model field for field, the template
/// text included.
pub open spec fn options_corresponds(o: Options, m: OptionsModel) -> bool {
    &&& o.default_values == m.default_values
    &&& o.using_custom_format == m.using_custom_format
    &&& o.using_custom_length == m.using_custom_length
    &&& o.output_length as int == m.output_length
    &&& o.randomise_output == m.randomise_output
    &&& o.format@ == m.format
}

/// The template of the default configuration.
pub open spec fn default_format() -> Seq<char> {
    "llluuunnns"@
}

/// The default configuration: length 12, the default template, no shuffle.
pub open spec fn default_model() -> OptionsModel {
    OptionsModel {
        default_values: true,
        using_custom_format: false,
        using_custom_length: false,
        output_length: 12,
        randomise_output: false,
        format: default_format(),
    }
}

/// A diagnostic raised while the arguments are resolved; resolution always
/// goes on to a usable configuration.
#[derive(Clone, Copy, PartialEq, Eq, Structural, Debug)]
pub enum Notice {
    FormatTooShort,
    FormatTooLong,
    FormatMissingClassChar,
    LengthRaisedToMinimum,
    LengthLoweredToMaximum,
    FormatOverridesLength,
}

/// The diagnostic line each notice stands for.
pub open spec fn notice_message(n: Notice) -> Seq<char> {
    match n {
        Notice::FormatTooShort => crate::template::too_short_message(),
        Notice::FormatTooLong => crate::template::too_long_message(),
        Notice::FormatMissingClassChar => crate::template::missing_class_message(),
        Notice::LengthRaisedToMinimum => "Length too small, changing to 6."@,
        Notice::LengthLoweredToMaximum => "Length too long, changing to 255."@,
        Notice::FormatOverridesLength => "A custom format takes priority over a custom length, so your custom length will be ignored."@,
    }
}

impl Notice {
    /// The diagnostic line, ready to print.
    pub fn message(&self) -> (m: &'static str)
        ensures
            m@ == notice_message(*self),
    {
        match *self {
            Notice::FormatTooShort => "The custom format was too short. Reverting to default.",
            Notice::FormatTooLong => "The custom format was too long (max 255). Reverting to default.",
            Notice::FormatMissingClassChar => "The custom format was missing at least one format character (l, u, n, s). Reverting to default.",
            Notice::LengthRaisedToMinimum => "Length too small, changing to 6.",
            Notice::LengthLoweredToMaximum => "Length too long, changing to 255.",
            Notice::FormatOverridesLength => "A custom format takes priority over a custom length, so your custom length will be ignored.",
        }
    }
}

impl Default for Options {
    /// The default configuration, before any argument is read.
    fn default() -> (o: Options)
        ensures
            options_corresponds(o, default_model()),
    {
        Options {
            default_values: true,
            using_custom_format: false,
            using_custom_length: false,
            output_length: 12,
            randomise_output: false,
            format: String::from_str("llluuunnns"),
        }
    }
}

/// The state of the argument scan: the configuration built so far, whether
/// the next token is awaited as a custom format, and the notices raised.
pub ghost struct ScanState {
    pub options: OptionsModel,
    pub awaiting_format: bool,
    pub notices: Seq<Notice>,
}

pub open spec fn initial_scan_state() -> ScanState {
    ScanState { options: default_model(), awaiting_format: false, notices: Seq::empty() }
}

/// A requested length, clamped to the allowed range of 6 through 255.
pub open spec fn clamped_length(v: int) -> int {
    if v < 6 {
        6
    } else if v > 255 {
        255
    } else {
        v
    }
}

/// One step of the argument scan. `-r` turns shuffling on and `-f` arms the
/// custom format, in every state. An awaited format token is stripped to
/// printable ASCII and judged; rejection resets the whole configuration to
/// the default, acceptance adopts the text. Any other token that reads as an
/// unsigned number requests that length, clamped, with a template
/// synthesized for it — unless a custom format was already adopted, which
/// stands; the rest of the tokens are ignored.
pub open spec fn scan_step(st: ScanState, arg: Seq<char>) -> ScanState {
    if arg == "-r"@ {
        ScanState {
            options: OptionsModel { randomise_output: true, ..st.options },
            ..st
        }
    } else if arg == "-f"@ {
        ScanState { awaiting_format: true, ..st }
    } else if st.awaiting_format {
        let cand = crate::text::printable_of(arg);
        if cand.len() < 6 {
            ScanState {
                options: default_model(),
                awaiting_format: false,
                notices: st.notices.push(Notice::FormatTooShort),
            }
        } else if cand.len() > 255 {
            ScanState {
                options: default_model(),
                awaiting_format: false,
                notices: st.notices.push(Notice::FormatTooLong),
            }
        } else if !crate::template::contains_class_char(cand) {
            ScanState {
                options: default_model(),
                awaiting_format: false,
                notices: st.notices.push(Notice::FormatMissingClassChar),
            }
        } else {
            ScanState {
                options: OptionsModel {
                    format: cand,
                    using_custom_format: true,
                    default_values: false,
                    ..st.options
                },
                awaiting_format: false,
                notices: st.notices,
            }
        }
    } else if crate::numerals::is_numeral(arg) && crate::numerals::numeral_value(arg)
        <= usize::MAX {
        let v = crate::numerals::numeral_value(arg);
        let len = clamped_length(v);
        ScanState {
            options: OptionsModel {
                output_length: len,
                default_values: false,
                using_custom_length: true,
                format: if st.options.using_custom_format {
                    st.options.format
                } else {
                    crate::template::synth_template(len)
                },
                ..st.options
            },
            awaiting_format: st.awaiting_format,
            notices: if v < 6 {
                st.notices.push(Notice::LengthRaisedToMinimum)
            } else if v > 255 {
                st.notices.push(Notice::LengthLoweredToMaximum)
            } else {
                st.notices
            },
        }
    } else {
        st
    }
}

/// The scan of a whole argument list, left to right.
pub open spec fn scan_args(args: Seq<Seq<char>>) -> ScanState
    decreases args.len(),
{
    if args.len() == 0 {
        initial_scan_state()
    } else {
        scan_step(scan_args(args.drop_last()), args.last())
    }
}

/// Reconcile the scanned state: a custom format wins over a custom length,
/// and an adopted format makes its own symbol count the output length.
pub open spec fn reconciled(st: ScanState) -> ScanState {
    let st1 = if st.options.using_custom_format && st.options.using_custom_length {
        ScanState {
            options: OptionsModel { using_custom_length: false, ..st.options },
            notices: st.notices.push(Notice::FormatOverridesLength),
            ..st
        }
    } else {
        st
    };
    if st1.options.using_custom_format {
        ScanState {
            options: OptionsModel { output_length: st1.options.format.len() as int, ..st1.options },
            ..st1
        }
    } else {
        st1
    }
}

/// What resolving an argument list yields, up to the final shuffle: the
/// configuration in `options`, the notices in `notices`.
pub open spec fn resolved_model(args: Seq<Seq<char>>) -> ScanState {
    reconciled(scan_args(args))
}

/// The configuration agrees with the model on every field; the template
/// text agrees exactly when no shuffle was asked for, and as a multiset of
/// symbols of the same length in every case.
pub open spec fn agrees_up_to_shuffle(o: Options, m: OptionsModel) -> bool {
    &&& o.default_values == m.default_values
    &&& o.using_custom_format == m.using_custom_format
    &&& o.using_custom_length == m.using_custom_length
    &&& o.output_length as int == m.output_length
    &&& o.randomise_output == m.randomise_output
    &&& o.format@.len() == m.format.len()
    &&& o.format@.to_multiset() == m.format.to_multiset()
    &&& (!m.randomise_output ==> o.format@ == m.format)
}

/// Relies on rand::rng and SliceRandom::shuffle: permutes the slice in
/// place, so the length and the multiset of elements are kept.
#[verifier::external_body]
fn shuffle_chars(v: &mut Vec<char>)
    ensures
        final(v)@.len() == old(v)@.len(),
        final(v)@.to_multiset() == old(v)@.to_multiset(),
{
    let mut rng = rand::rng();
    v.shuffle(&mut rng);
}

/// Resolve the argument list into a configuration and the notices raised on
/// the way, as the scan model fixes them; a requested shuffle reorders the
/// template's symbols without changing their multiset.
pub fn resolve_options(arguments: Vec<String>) -> (r: (Options, Vec<Notice>))
    ensures
        ({
            let m = resolved_model(arguments@.map_values(|a: String| a@));
            &&& agrees_up_to_shuffle(r.0, m.options)
            &&& r.1@ == m.notices
        }),
{
    let ghost argviews = arguments@.map_values(|a: String| a@);
    let mut options = Options::default();
    let mut awaiting_format = false;
    let mut notices: Vec<Notice> = Vec::new();
    let mut idx: usize = 0;
    while idx < arguments.len()
        invariant
            idx <= arguments@.len(),
            argviews == arguments@.map_values(|a: String| a@),
            options_corresponds(options, scan_args(argviews.take(idx as int)).options),
            awaiting_format == scan_args(argviews.take(idx as int)).awaiting_format,
            notices@ == scan_args(argviews.take(idx as int)).notices,
        decreases arguments@.len() - idx,
    {
        proof {
            assert(argviews.take(idx + 1).drop_last() =~= argviews.take(idx as int));
            assert(argviews.take(idx + 1).last() == argviews[idx as int]);
        }
        let chars = crate::text::str_chars(arguments[idx].as_str());
        let is_dash_r = chars.len() == 2 && chars[0] == '-' && chars[1] == 'r';
        let is_dash_f = chars.len() == 2 && chars[0] == '-' && chars[1] == 'f';
        proof {
            reveal_strlit("-r");
            reveal_strlit("-f");
            assert(is_dash_r == (chars@ == "-r"@)) by {
                if is_dash_r {
                    assert(chars@ =~= "-r"@);
                }
            }
            assert(is_dash_f == (chars@ == "-f"@)) by {
                if is_dash_f {
                    assert(chars@ =~= "-f"@);
                }
            }
        }
        if is_dash_r {
            options.randomise_output = true;
        } else if is_dash_f {
            awaiting_format = true;
        } else if awaiting_format {
            let cand = crate::text::sanitize_chars(&chars);
            if cand.len() < 6 {
                notices.push(Notice::FormatTooShort);
                options = Options::default();
            } else if cand.len() > 255 {
                notices.push(Notice::FormatTooLong);
                options = Options::default();
            } else if !crate::template::contains_class_char_exec(&cand) {
                notices.push(Notice::FormatMissingClassChar);
                options = Options::default();
            } else {
                options.format = crate::text::string_from_chars(&cand);
                options.using_custom_format = true;
                options.default_values = false;
            }
            awaiting_format = false;
        } else {
            match crate::numerals::parse_usize_chars(&chars) {
                Some(value) => {
                    let len: usize = if value < 6 {
                        notices.push(Notice::LengthRaisedToMinimum);
                        6
                    } else if value > 255 {
                        notices.push(Notice::LengthLoweredToMaximum);
                        255
                    } else {
                        value
                    };
                    options.output_length = len;
                    options.default_values = false;
                    options.using_custom_length = true;
                    if !options.using_custom_format {
                        options.format = crate::template::generate_format_from_custom_length(len);
                    }
                },
                None => {},
            }
        }
        idx = idx + 1;
    }
    proof {
        assert(argviews.take(arguments@.len() as int) =~= argviews);
    }
    if options.using_custom_format && options.using_custom_length {
        notices.push(Notice::FormatOverridesLength);
        options.using_custom_length = false;
    }
    if options.using_custom_format {
        options.output_length = options.format.as_str().unicode_len();
    }
    if options.randomise_output {
        let mut symbols = crate::text::str_chars(options.format.as_str());
        shuffle_chars(&mut symbols);
        options.format = crate::text::string_from_chars(&symbols);
    }
    (options, notices)
}

proof fn lemma_default_format_valid()
    ensures
        crate::template::valid_template(default_format()),
{
    reveal_strlit("llluuunnns");
    assert(default_format().len() == 10);
    assert(crate::template::is_class_char(default_format()[0]));
}

proof fn lemma_scan_template_valid(args: Seq<Seq<char>>)
    ensures
        crate::template::valid_template(scan_args(args).options.format),
    decreases args.len(),
{
    if args.len() == 0 {
        lemma_default_format_valid();
    } else {
        lemma_scan_template_valid(args.drop_last());
        let st = scan_args(args.drop_last());
        let arg = args.last();
        if arg == "-r"@ || arg == "-f"@ {
        } else if st.awaiting_format {
            let cand = crate::text::printable_of(arg);
            if cand.len() < 6 || cand.len() > 255 || !crate::template::contains_class_char(cand) {
                lemma_default_format_valid();
            }
        } else if crate::numerals::is_numeral(arg) && crate::numerals::numeral_value(arg)
            <= usize::MAX {
            let len = clamped_length(crate::numerals::numeral_value(arg));
            let t = crate::template::synth_template(len);
            assert(crate::template::synth_char(len, len - 1) == 's');
            assert(crate::template::is_class_char(t[len - 1]));
        }
    }
}

/// However malformed the arguments, resolution yields a well-formed
/// template: 6 through 255 symbols, at least one of them a class symbol.
pub proof fn lemma_resolved_template_valid(args: Seq<Seq<char>>)
    ensures
        crate::template::valid_template(resolved_model(args).options.format),
{
    lemma_scan_template_valid(args);
}

/// A resolved configuration carries a well-formed template, shuffled or
/// not: a shuffle keeps the multiset of symbols, so the length stays in
/// range and a class symbol stays present.
pub proof fn lemma_options_template_valid(o: Options, args: Seq<Seq<char>>)
    requires
        agrees_up_to_shuffle(o, resolved_model(args).options),
    ensures
        crate::template::valid_template(o.format@),
{
    lemma_resolved_template_valid(args);
    let m = resolved_model(args).options;
    let i = choose|i: int| 0 <= i < m.format.len() && crate::template::is_class_char(
        #[trigger] m.format[i],
    );
    let c = m.format[i];
    m.format.to_multiset_ensures();
    o.format@.to_multiset_ensures();
    assert(m.format.contains(c));
    assert(o.format@.to_multiset().count(c) > 0);
    assert(o.format@.contains(c));
    let j = choose|j: int| 0 <= j < o.format@.len() && o.format@[j] == c;
    assert(crate::template::is_class_char(o.format@[j]));
}

/// Resolve the argument list into a configuration; resolution never fails,
/// whatever the arguments hold.
pub fn parse_options_from_args(arguments: Vec<String>) -> (options: Options)
    ensures
        agrees_up_to_shuffle(
            options,
            resolved_model(arguments@.map_values(|a: String| a@)).options,
        ),
{
    let r = resolve_options(arguments);
    r.0
}

} // verus!
