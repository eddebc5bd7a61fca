//! The temporary files of a run and the name offered for the result.

use vstd::prelude::*;
use vstd::string::StringExecFns;
use crate::text::{has_suffix, strip_trailing, without_trailing};

verus! {

/// File name of the cropped content, inside the temporary directory.
pub const CONTENT_FILE_NAME: &'static str = "content.mp4";

/// File name of the cropped face, inside the temporary directory.
pub const FACE_FILE_NAME: &'static str = "face.mp4";

/// File name of the stacked result, inside the temporary directory.
pub const COMBINED_FILE_NAME: &'static str = "output.mp4";

/// Stands for the source's file name where the source path has none.
pub const FALLBACK_FILE_NAME: &'static str = "video";

/// The extension of the file type offered for the result.
pub const OUTPUT_EXTENSION: &'static str = "mp4";

/// Title of the request for a place to save to.
pub const SAVE_TITLE: &'static str = "Salvar Vídeo";

/// Name of the file type offered in that request.
pub const SAVE_FILTER_NAME: &'static str = "Vídeo MP4";

/// The paths of the three temporary files that a run writes. The run owns
/// them: each is written by one stage, read by one later step, and removed
/// by the cleanup.
#[derive(Clone, Debug, PartialEq, Eq)]
pub struct TempArtifacts {
    /// Written by the content extraction, read by the combination.
    pub content: String,
    /// Written by the face extraction, read by the combination.
    pub face: String,
    /// Written by the combination, read when the result is saved.
    pub combined: String,
}

/// Mathematical content of [`TempArtifacts`].
pub struct TempArtifactsView {
    pub content: Seq<char>,
    pub face: Seq<char>,
    pub combined: Seq<char>,
}

impl TempArtifactsView {
    /// The three paths in the order in which the cleanup removes them.
    pub open spec fn all(self) -> Seq<Seq<char>> {
        seq![self.content, self.face, self.combined]
    }
}

impl View for TempArtifacts {
    type V = TempArtifactsView;

    open spec fn view(&self) -> TempArtifactsView {
        TempArtifactsView { content: self.content@, face: self.face@, combined: self.combined@ }
    }
}

impl TempArtifacts {
    /// The artifacts at the three given paths.
    pub fn new(content: &str, face: &str, combined: &str) -> (artifacts: TempArtifacts)
        ensures
            artifacts@ == (TempArtifactsView {
                content: content@,
                face: face@,
                combined: combined@,
            }),
    {
        TempArtifacts {
            content: String::from_str(content),
            face: String::from_str(face),
            combined: String::from_str(combined),
        }
    }

    /// The three paths in the order in which the cleanup removes them.
    pub fn all(&self) -> (paths: Vec<String>)
        ensures
            paths.deep_view() == self@.all(),
    {
        let mut paths: Vec<String> = Vec::new();
        paths.push(self.content.clone());
        paths.push(self.face.clone());
        paths.push(self.combined.clone());
        assert(paths.deep_view() =~= self@.all());
        paths
    }
}

/// The file name offered for the result.
pub open spec fn suggested_name(file_name: Option<Seq<char>>) -> Seq<char> {
    let name = match file_name {
        Some(name) => name,
        None => FALLBACK_FILE_NAME@,
    };
    without_trailing(name, ".mp4"@) + "_reels.mp4"@
}

/// The file name offered for the result: the source's file name, or `video`
/// where it has none, without any trailing `.mp4`, followed by `_reels.mp4`.
pub fn suggested_file_name(file_name: Option<&str>) -> (suggestion: String)
    ensures
        suggestion@ == suggested_name(file_name.deep_view()),
{
    let name: &str = match file_name {
        Some(name) => name,
        None => FALLBACK_FILE_NAME,
    };
    strip_trailing(name, ".mp4").concat("_reels.mp4")
}

/// Whatever the source is called, the name offered ends in `_reels.mp4`.
pub proof fn lemma_suggested_name_has_the_suffix(file_name: Option<Seq<char>>)
    ensures
        has_suffix(suggested_name(file_name), "_reels.mp4"@),
{
    let name = suggested_name(file_name);
    let tail = "_reels.mp4"@;
    assert(name.subrange(name.len() - tail.len(), name.len() as int) == tail);
}

} // verus!
