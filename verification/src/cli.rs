//! The run commands' input handling: the typed input payload, and the
//! separation of input-defining options from the rest of an argument list.
//! Reading a file or standard input happens outside the crate; this module
//! decides which argument names an input, of which kind, and from where.

use vstd::prelude::*;

use crate::strings::str_eq;

verus! {

/// One algorithm input payload, typed as text, JSON or binary.
#[derive(PartialEq, Eq, Debug)]
pub enum InputData {
    Text(String),
    Json(String),
    Binary(Vec<u8>),
}

impl InputData {
    /// Text input from already-read data.
    pub fn text(data: String) -> (r: InputData)
        ensures
            r == InputData::Text(data),
    {
        InputData::Text(data)
    }

    /// JSON input from already-read data.
    pub fn json(data: String) -> (r: InputData)
        ensures
            r == InputData::Json(data),
    {
        InputData::Json(data)
    }

    /// Binary input from already-read bytes.
    pub fn binary(bytes: Vec<u8>) -> (r: InputData)
        ensures
            r == InputData::Binary(bytes),
    {
        InputData::Binary(bytes)
    }
}

/// How an input option types its payload.
#[derive(Clone, Copy, PartialEq, Eq, Structural, Debug)]
pub enum InputKind {
    /// Sniff JSON, then text, then binary.
    Auto,
    Json,
    Text,
    Binary,
}

/// Where an input option's payload comes from.
#[derive(Clone, Copy, PartialEq, Eq, Structural, Debug)]
pub enum InputSource {
    /// The option's argument is the payload itself.
    Inline,
    /// The option's argument names a file to read (`-` for standard input).
    File,
}

/// One recognized input option: its kind, its source, and its argument.
#[derive(Debug)]
pub struct InputSpec {
    /// How the payload is typed.
    pub kind: InputKind,
    /// Where the payload comes from.
    pub source: InputSource,
    /// The option's argument: the payload itself, or the file to read.
    pub value: String,
}

/// The abstract value of an [`InputSpec`].
pub struct InputSpecModel {
    /// How the payload is typed.
    pub kind: InputKind,
    /// Where the payload comes from.
    pub source: InputSource,
    /// The option's argument.
    pub value: Seq<char>,
}

impl View for InputSpec {
    type V = InputSpecModel;

    open spec fn view(&self) -> InputSpecModel {
        InputSpecModel { kind: self.kind, source: self.source, value: self.value@ }
    }
}

impl DeepView for InputSpec {
    type V = InputSpecModel;

    open spec fn deep_view(&self) -> InputSpecModel {
        self.view()
    }
}

/// Which input option an argument is, if it is one.
pub open spec fn spec_input_flag(a: Seq<char>) -> Option<(InputKind, InputSource)> {
    if a == "-d"@ || a == "--data"@ {
        Some((InputKind::Auto, InputSource::Inline))
    } else if a == "-j"@ || a == "--json"@ {
        Some((InputKind::Json, InputSource::Inline))
    } else if a == "-t"@ || a == "--text"@ {
        Some((InputKind::Text, InputSource::Inline))
    } else if a == "-b"@ || a == "--binary"@ {
        Some((InputKind::Binary, InputSource::Inline))
    } else if a == "-D"@ || a == "--data-file"@ {
        Some((InputKind::Auto, InputSource::File))
    } else if a == "-J"@ || a == "--json-file"@ {
        Some((InputKind::Json, InputSource::File))
    } else if a == "-T"@ || a == "--text-file"@ {
        Some((InputKind::Text, InputSource::File))
    } else if a == "-B"@ || a == "--binary-file"@ {
        Some((InputKind::Binary, InputSource::File))
    } else {
        None
    }
}

/// Which input option an argument is, if it is one.
pub fn input_flag(a: &str) -> (r: Option<(InputKind, InputSource)>)
    ensures
        r == spec_input_flag(a@),
{
    if str_eq(a, "-d") || str_eq(a, "--data") {
        Some((InputKind::Auto, InputSource::Inline))
    } else if str_eq(a, "-j") || str_eq(a, "--json") {
        Some((InputKind::Json, InputSource::Inline))
    } else if str_eq(a, "-t") || str_eq(a, "--text") {
        Some((InputKind::Text, InputSource::Inline))
    } else if str_eq(a, "-b") || str_eq(a, "--binary") {
        Some((InputKind::Binary, InputSource::Inline))
    } else if str_eq(a, "-D") || str_eq(a, "--data-file") {
        Some((InputKind::Auto, InputSource::File))
    } else if str_eq(a, "-J") || str_eq(a, "--json-file") {
        Some((InputKind::Json, InputSource::File))
    } else if str_eq(a, "-T") || str_eq(a, "--text-file") {
        Some((InputKind::Text, InputSource::File))
    } else if str_eq(a, "-B") || str_eq(a, "--binary-file") {
        Some((InputKind::Binary, InputSource::File))
    } else {
        None
    }
}

/// Scanning `argv` from `i`: the input options found (with their arguments)
/// and the remaining arguments, in order; `None` when an input option comes
/// last with no argument to consume.
pub open spec fn spec_scan(argv: Seq<Seq<char>>, i: int) -> Option<
    (Seq<InputSpecModel>, Seq<Seq<char>>),
>
    decreases argv.len() - i,
    when 0 <= i <= argv.len()
{
    if i == argv.len() {
        Some((Seq::empty(), Seq::empty()))
    } else {
        match spec_input_flag(argv[i]) {
            Some((kind, source)) => {
                if i + 1 == argv.len() {
                    None
                } else {
                    match spec_scan(argv, i + 2) {
                        None => None,
                        Some(rest) => Some(
                            (
                                seq![InputSpecModel { kind, source, value: argv[i + 1] }] + rest.0,
                                rest.1,
                            ),
                        ),
                    }
                }
            },
            None => match spec_scan(argv, i + 1) {
                None => None,
                Some(rest) => Some((rest.0, seq![argv[i]] + rest.1)),
            },
        }
    }
}

/// Why an argument list yields no input.
#[derive(Clone, Copy, PartialEq, Eq, Structural, Debug)]
pub enum ArgError {
    /// An input option came last, with nothing after it to consume.
    MissingDataArg,
    /// No input option was given.
    NoInputSource,
    /// More than one input option was given.
    MultipleInputSources,
}

/// What separating the input options from `argv` yields: exactly one input
/// option and the remaining arguments, or the error that rules it out.
pub open spec fn spec_split_args(argv: Seq<Seq<char>>) -> Result<
    (InputSpecModel, Seq<Seq<char>>),
    ArgError,
> {
    match spec_scan(argv, 0) {
        None => Err(ArgError::MissingDataArg),
        Some((inputs, others)) => {
            if inputs.len() == 0 {
                Err(ArgError::NoInputSource)
            } else if inputs.len() > 1 {
                Err(ArgError::MultipleInputSources)
            } else {
                Ok((inputs[0], others))
            }
        },
    }
}

/// Separate the one input-defining option from the other arguments.
pub fn split_args(argv: &Vec<String>) -> (r: Result<(InputSpec, Vec<String>), ArgError>)
    ensures
        ({
            let s = spec_split_args(argv.deep_view());
            match r {
                Ok(p) => s matches Ok(q) && q.0 == p.0@ && q.1 == p.1.deep_view(),
                Err(e) => s matches Err(e2) && e2 == e,
            }
        }),
{
    let ghost total = argv.deep_view();
    let mut inputs: Vec<InputSpec> = Vec::new();
    let mut others: Vec<String> = Vec::new();
    let mut i: usize = 0;
    while i < argv.len()
        invariant
            i <= argv.len(),
            total == argv.deep_view(),
            spec_scan(total, 0) == match spec_scan(total, i as int) {
                None => None::<(Seq<InputSpecModel>, Seq<Seq<char>>)>,
                Some(rest) => Some((inputs.deep_view() + rest.0, others.deep_view() + rest.1)),
            },
        decreases argv.len() - i,
    {
        let ghost old_inputs = inputs.deep_view();
        let ghost old_others = others.deep_view();
        match input_flag(argv[i].as_str()) {
            Some((kind, source)) => {
                if i + 1 == argv.len() {
                    return Err(ArgError::MissingDataArg);
                }
                let value = argv[i + 1].clone();
                inputs.push(InputSpec { kind, source, value });
                proof {
                    let entry = InputSpecModel { kind, source, value: total[i + 1] };
                    assert(inputs.deep_view() =~= old_inputs.push(entry));
                    match spec_scan(total, i + 2) {
                        Some(rest) => {
                            assert(old_inputs.push(entry) + rest.0 =~= old_inputs + (seq![entry]
                                + rest.0));
                        },
                        None => {},
                    }
                }
                i += 2;
            },
            None => {
                others.push(argv[i].clone());
                proof {
                    assert(others.deep_view() =~= old_others.push(total[i as int]));
                    match spec_scan(total, i + 1) {
                        Some(rest) => {
                            assert(old_others.push(total[i as int]) + rest.1 =~= old_others + (seq![
                                total[i as int],
                            ] + rest.1));
                        },
                        None => {},
                    }
                }
                i += 1;
            },
        }
    }
    proof {
        assert(inputs.deep_view() + Seq::<InputSpecModel>::empty() =~= inputs.deep_view());
        assert(others.deep_view() + Seq::<Seq<char>>::empty() =~= others.deep_view());
    }
    match inputs.pop() {
        None => Err(ArgError::NoInputSource),
        Some(input) => {
            if inputs.len() > 0 {
                Err(ArgError::MultipleInputSources)
            } else {
                proof {
                    assert(input@ == inputs.deep_view().push(input@)[0]);
                }
                Ok((input, others))
            }
        },
    }
}

} // verus!
