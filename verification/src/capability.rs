//! Capability probing: is a hardware encoder within reach? The answer is
//! for information only and never changes what a run does.

use vstd::prelude::*;
use vstd::string::StringExecFns;
use crate::text::{contains_text, has_substring};

verus! {

/// The vendor looked for in the listing of graphics devices.
pub const GPU_VENDOR: &'static str = "nvidia";

/// The encoder looked for in the tool's list of encoders.
pub const HARDWARE_ENCODER: &'static str = "h264_nvenc";

/// The directory, beside the executable, that holds the tool.
pub const RESOURCES_DIR: &'static str = "resources";

/// `text` in lower case, as the standard library's `str::to_lowercase`
/// turns it.
pub uninterp spec fn lowercased(text: Seq<char>) -> Seq<char>;

/// Calls `str::to_lowercase`.
///
/// Trusted: the result depends on the text alone. Nothing is claimed about
/// what the lower case of a text is.
#[verifier::external_body]
pub(crate) fn lowercase(text: &str) -> (lowered: String)
    ensures
        lowered@ == lowercased(text@),
{
    text.to_lowercase()
}

/// Whether a listing names `word`, in any mix of upper and lower case. A
/// listing that could not be had names nothing.
pub open spec fn listing_names(listing: Option<Seq<char>>, word: Seq<char>) -> bool {
    match listing {
        Some(text) => has_substring(lowercased(text), word),
        None => false,
    }
}

/// Whether a listing names `word`, in any mix of upper and lower case.
/// `None` stands for a listing that could not be had, and gives `false`.
pub fn listing_mentions(listing: Option<&str>, word: &str) -> (found: bool)
    ensures
        found == listing_names(listing.deep_view(), word@),
{
    match listing {
        Some(text) => {
            let lowered = lowercase(text);
            contains_text(lowered.as_str(), word)
        },
        None => false,
    }
}

/// The capability that the two listings show: the vendor in the listing of
/// graphics devices, and the hardware encoder in the tool's list.
pub open spec fn probed(gpu_listing: Option<Seq<char>>, encoders: Option<Seq<char>>) -> bool {
    listing_names(gpu_listing, GPU_VENDOR@) && listing_names(encoders, HARDWARE_ENCODER@)
}

/// Whether a hardware encoder is within reach: the listing of graphics
/// devices names the vendor, and the tool's list of encoders names the
/// hardware encoder. A listing that could not be had counts as empty, so a
/// failure to look is an answer of `false`, never an error.
pub fn probe(gpu_listing: Option<&str>, encoders: Option<&str>) -> (capable: bool)
    ensures
        capable == probed(gpu_listing.deep_view(), encoders.deep_view()),
{
    listing_mentions(gpu_listing, GPU_VENDOR) && listing_mentions(encoders, HARDWARE_ENCODER)
}

/// The command whose output lists the graphics devices: the program, then
/// its arguments.
pub open spec fn gpu_listing_command_of(windows: bool) -> (Seq<char>, Seq<Seq<char>>) {
    if windows {
        ("wmic"@, seq!["path"@, "win32_videocontroller"@, "get"@, "name"@])
    } else {
        ("lspci"@, Seq::empty())
    }
}

/// The command whose output lists the graphics devices, on Windows or
/// elsewhere: the program and its arguments.
pub fn gpu_listing_command(windows: bool) -> (command: (String, Vec<String>))
    ensures
        (command.0@, command.1.deep_view()) == gpu_listing_command_of(windows),
{
    let mut args: Vec<String> = Vec::new();
    if windows {
        args.push(String::from_str("path"));
        args.push(String::from_str("win32_videocontroller"));
        args.push(String::from_str("get"));
        args.push(String::from_str("name"));
        assert(args.deep_view() =~= gpu_listing_command_of(true).1);
        (String::from_str("wmic"), args)
    } else {
        assert(args.deep_view() =~= gpu_listing_command_of(false).1);
        (String::from_str("lspci"), args)
    }
}

/// The arguments with which the tool lists its encoders.
pub fn encoder_listing_args() -> (args: Vec<String>)
    ensures
        args.deep_view() == seq!["-encoders"@],
{
    let mut args: Vec<String> = Vec::new();
    args.push(String::from_str("-encoders"));
    assert(args.deep_view() =~= seq!["-encoders"@]);
    args
}

/// The file name of the tool, on Windows or elsewhere.
pub fn tool_file_name(windows: bool) -> (name: &'static str)
    ensures
        name@ == if windows {
            "ffmpeg.exe"@
        } else {
            "ffmpeg"@
        },
{
    if windows {
        "ffmpeg.exe"
    } else {
        "ffmpeg"
    }
}

} // verus!
