//! Input-option separation and file-kind detection.

use algorithmia_cli::cli::{
    input_flag, split_args, ArgError, InputData, InputKind, InputSource, InputSpec,
};
use algorithmia_cli::filetype::FileType;

fn strings(items: &[&str]) -> Vec<String> {
    items.iter().map(|s| s.to_string()).collect()
}

fn spec(kind: InputKind, source: InputSource, value: &str, input: &InputSpec) {
    assert_eq!(input.kind, kind);
    assert_eq!(input.source, source);
    assert_eq!(input.value, value);
}

#[test]
fn one_inline_input_is_separated() {
    let argv = strings(&["algo/run", "-d", "hello", "--silence"]);
    let (input, others) = split_args(&argv).unwrap();
    spec(InputKind::Auto, InputSource::Inline, "hello", &input);
    assert_eq!(others, strings(&["algo/run", "--silence"]));
}

#[test]
fn file_inputs_name_their_file() {
    let argv = strings(&["-J", "routes.json", "anowell/Dijkstra"]);
    let (input, others) = split_args(&argv).unwrap();
    spec(InputKind::Json, InputSource::File, "routes.json", &input);
    assert_eq!(others, strings(&["anowell/Dijkstra"]));
}

#[test]
fn every_flag_spelling_is_recognized() {
    assert_eq!(input_flag("-d"), Some((InputKind::Auto, InputSource::Inline)));
    assert_eq!(input_flag("--data"), Some((InputKind::Auto, InputSource::Inline)));
    assert_eq!(input_flag("-j"), Some((InputKind::Json, InputSource::Inline)));
    assert_eq!(input_flag("--json"), Some((InputKind::Json, InputSource::Inline)));
    assert_eq!(input_flag("-t"), Some((InputKind::Text, InputSource::Inline)));
    assert_eq!(input_flag("--text"), Some((InputKind::Text, InputSource::Inline)));
    assert_eq!(input_flag("-b"), Some((InputKind::Binary, InputSource::Inline)));
    assert_eq!(input_flag("--binary"), Some((InputKind::Binary, InputSource::Inline)));
    assert_eq!(input_flag("-D"), Some((InputKind::Auto, InputSource::File)));
    assert_eq!(input_flag("--data-file"), Some((InputKind::Auto, InputSource::File)));
    assert_eq!(input_flag("-J"), Some((InputKind::Json, InputSource::File)));
    assert_eq!(input_flag("--json-file"), Some((InputKind::Json, InputSource::File)));
    assert_eq!(input_flag("-T"), Some((InputKind::Text, InputSource::File)));
    assert_eq!(input_flag("--text-file"), Some((InputKind::Text, InputSource::File)));
    assert_eq!(input_flag("-B"), Some((InputKind::Binary, InputSource::File)));
    assert_eq!(input_flag("--binary-file"), Some((InputKind::Binary, InputSource::File)));
    assert_eq!(input_flag("--output"), None);
    assert_eq!(input_flag("algo/run"), None);
}

#[test]
fn no_input_option_is_an_error() {
    let argv = strings(&["algo/run", "--silence"]);
    assert_eq!(split_args(&argv).unwrap_err(), ArgError::NoInputSource);
}

#[test]
fn two_input_options_are_an_error() {
    let argv = strings(&["-d", "a", "-t", "b"]);
    assert_eq!(split_args(&argv).unwrap_err(), ArgError::MultipleInputSources);
}

#[test]
fn a_trailing_input_option_is_an_error() {
    let argv = strings(&["algo/run", "-d"]);
    assert_eq!(split_args(&argv).unwrap_err(), ArgError::MissingDataArg);
}

#[test]
fn input_payloads_keep_their_type() {
    assert_eq!(
        InputData::text("plain".to_string()),
        InputData::Text("plain".to_string())
    );
    assert_eq!(
        InputData::json("{}".to_string()),
        InputData::Json("{}".to_string())
    );
    assert_eq!(
        InputData::binary(vec![1, 2, 3]),
        InputData::Binary(vec![1, 2, 3])
    );
}

#[test]
fn file_kinds_by_extension() {
    assert_eq!(FileType::from_filename("photo.jpg"), FileType::Image);
    assert_eq!(FileType::from_filename("photo.JPEG"), FileType::Image);
    assert_eq!(FileType::from_filename("movie.webm"), FileType::Video);
    assert_eq!(FileType::from_filename("bundle.tar.gz"), FileType::Archive);
    assert_eq!(FileType::from_filename("song.FLAC"), FileType::Audio);
    assert_eq!(FileType::from_filename("notes.txt"), FileType::Unknown);
    assert_eq!(FileType::from_filename("noext"), FileType::Unknown);
    assert_eq!(FileType::from_filename("ends."), FileType::Unknown);
    assert_eq!(FileType::from_ext("Rar"), FileType::Archive);
    assert_eq!(FileType::from_ext("OGV"), FileType::Video);
    assert_eq!(FileType::from_ext("m4a"), FileType::Audio);
    assert_eq!(FileType::from_ext(""), FileType::Unknown);
}
