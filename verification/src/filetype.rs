//! A coarse file-kind guess from a file name's extension, used to pick a
//! listing colour. Matching is case-insensitive over the ASCII letters.

use vstd::prelude::*;

use crate::strings::{spec_after_last, spec_lower, str_eq, suffix_after_last, to_lowercase_ascii};

verus! {

/// The kinds the listing distinguishes.
#[derive(Clone, Copy, PartialEq, Eq, Structural, Debug)]
pub enum FileType {
    Image,
    Video,
    Archive,
    Audio,
    Unknown,
}

/// The extension of a file name: everything after its last `.` (the whole
/// name when it has none).
pub open spec fn spec_extension(name: Seq<char>) -> Seq<char> {
    spec_after_last(name, '.')
}

/// Is the lowercased extension `e` one of the image extensions?
pub open spec fn spec_is_image_ext(e: Seq<char>) -> bool {
    ||| e == "bmp"@
    ||| e == "gif"@
    ||| e == "ico"@
    ||| e == "jpe"@
    ||| e == "jpeg"@
    ||| e == "jpg"@
    ||| e == "png"@
    ||| e == "svg"@
    ||| e == "tif"@
    ||| e == "tiff"@
    ||| e == "webp"@
    ||| e == "xcf"@
    ||| e == "psd"@
    ||| e == "ai"@
}

/// Is the lowercased extension `e` one of the video extensions?
pub open spec fn spec_is_video_ext(e: Seq<char>) -> bool {
    ||| e == "3g2"@
    ||| e == "3gp"@
    ||| e == "avi"@
    ||| e == "divx"@
    ||| e == "flv"@
    ||| e == "mov"@
    ||| e == "mp4"@
    ||| e == "mp4v"@
    ||| e == "mpa"@
    ||| e == "mpe"@
    ||| e == "mpeg"@
    ||| e == "ogv"@
    ||| e == "qt"@
    ||| e == "webm"@
    ||| e == "wmv"@
}

/// Is the lowercased extension `e` one of the archive extensions?
pub open spec fn spec_is_archive_ext(e: Seq<char>) -> bool {
    ||| e == "7z"@
    ||| e == "rar"@
    ||| e == "tgz"@
    ||| e == "gz"@
    ||| e == "zip"@
    ||| e == "tar"@
    ||| e == "xz"@
    ||| e == "dmg"@
    ||| e == "iso"@
    ||| e == "lzma"@
    ||| e == "tlz"@
    ||| e == "bz2"@
    ||| e == "tbz2"@
    ||| e == "z"@
    ||| e == "deb"@
    ||| e == "rpm"@
    ||| e == "jar"@
}

/// Is the lowercased extension `e` one of the audio extensions?
pub open spec fn spec_is_audio_ext(e: Seq<char>) -> bool {
    ||| e == "aac"@
    ||| e == "flac"@
    ||| e == "ogg"@
    ||| e == "au"@
    ||| e == "mid"@
    ||| e == "midi"@
    ||| e == "mp3"@
    ||| e == "mpc"@
    ||| e == "ra"@
    ||| e == "wav"@
    ||| e == "axa"@
    ||| e == "oga"@
    ||| e == "spz"@
    ||| e == "xspf"@
    ||| e == "wma"@
    ||| e == "m4a"@
}

/// The kind an extension maps to, after ASCII lowercasing.
pub open spec fn spec_from_ext(ext: Seq<char>) -> FileType {
    let e = spec_lower(ext);
    if spec_is_image_ext(e) {
        FileType::Image
    } else if spec_is_video_ext(e) {
        FileType::Video
    } else if spec_is_archive_ext(e) {
        FileType::Archive
    } else if spec_is_audio_ext(e) {
        FileType::Audio
    } else {
        FileType::Unknown
    }
}

impl FileType {
    /// The kind the extension `ext` suggests, case-insensitively.
    pub fn from_ext(ext: &str) -> (r: FileType)
        ensures
            r == spec_from_ext(ext@),
    {
        let lower = to_lowercase_ascii(ext);
        let e = lower.as_str();
        if str_eq(e, "bmp") || str_eq(e, "gif") || str_eq(e, "ico") || str_eq(e, "jpe") || str_eq(
            e,
            "jpeg",
        ) || str_eq(e, "jpg") || str_eq(e, "png") || str_eq(e, "svg") || str_eq(e, "tif")
            || str_eq(e, "tiff") || str_eq(e, "webp") || str_eq(e, "xcf") || str_eq(e, "psd")
            || str_eq(e, "ai") {
            FileType::Image
        } else if str_eq(e, "3g2") || str_eq(e, "3gp") || str_eq(e, "avi") || str_eq(e, "divx")
            || str_eq(e, "flv") || str_eq(e, "mov") || str_eq(e, "mp4") || str_eq(e, "mp4v")
            || str_eq(e, "mpa") || str_eq(e, "mpe") || str_eq(e, "mpeg") || str_eq(e, "ogv")
            || str_eq(e, "qt") || str_eq(e, "webm") || str_eq(e, "wmv") {
            FileType::Video
        } else if str_eq(e, "7z") || str_eq(e, "rar") || str_eq(e, "tgz") || str_eq(e, "gz")
            || str_eq(e, "zip") || str_eq(e, "tar") || str_eq(e, "xz") || str_eq(e, "dmg")
            || str_eq(e, "iso") || str_eq(e, "lzma") || str_eq(e, "tlz") || str_eq(e, "bz2")
            || str_eq(e, "tbz2") || str_eq(e, "z") || str_eq(e, "deb") || str_eq(e, "rpm")
            || str_eq(e, "jar") {
            FileType::Archive
        } else if str_eq(e, "aac") || str_eq(e, "flac") || str_eq(e, "ogg") || str_eq(e, "au")
            || str_eq(e, "mid") || str_eq(e, "midi") || str_eq(e, "mp3") || str_eq(e, "mpc")
            || str_eq(e, "ra") || str_eq(e, "wav") || str_eq(e, "axa") || str_eq(e, "oga")
            || str_eq(e, "spz") || str_eq(e, "xspf") || str_eq(e, "wma") || str_eq(e, "m4a") {
            FileType::Audio
        } else {
            FileType::Unknown
        }
    }

    /// The kind `filename` suggests, judged by its extension.
    pub fn from_filename(filename: &str) -> (r: FileType)
        ensures
            r == spec_from_ext(spec_extension(filename@)),
    {
        let ext = suffix_after_last(filename, '.');
        FileType::from_ext(ext.as_str())
    }
}

} // verus!
