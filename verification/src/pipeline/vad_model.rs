//! Where the voice activity detector's model is looked for.
use crate::text::owned;
use vstd::prelude::*;

verus! {

/// The directory a search for the detector's model starts from.
#[derive(Debug, Clone, Copy, PartialEq, Eq, Structural)]
pub enum SearchBase {
    /// The process's working directory.
    WorkingDir,
    /// The directory that holds the executable.
    ExeDir,
}

/// A place the detector's model may be: the model's relative path taken
/// from `base` after going to `up` (a relative path, empty for `base` itself).
#[derive(Debug, Clone)]
pub struct VadCandidate {
    pub base: SearchBase,
    pub up: String,
}

/// The path of the detector's model relative to a search directory; it is
/// also the path used, relative to the working directory, where no
/// candidate exists.
pub open spec fn vad_model_path() -> Seq<char> {
    "models/silero_vad/silero_vad.onnx"@
}

/// The path of the detector's model relative to a search directory.
pub fn vad_model_relative() -> (r: &'static str)
    ensures
        r@ == vad_model_path(),
{
    "models/silero_vad/silero_vad.onnx"
}

/// The places searched, in order: the working directory, where it is known;
/// then the executable's directory and up to three directories above it,
/// where that is known.
pub open spec fn vad_search_order(has_cwd: bool, has_exe_dir: bool) -> Seq<(SearchBase, Seq<char>)> {
    (if has_cwd {
        seq![(SearchBase::WorkingDir, Seq::<char>::empty())]
    } else {
        Seq::empty()
    }) + (if has_exe_dir {
        seq![
            (SearchBase::ExeDir, Seq::<char>::empty()),
            (SearchBase::ExeDir, ".."@),
            (SearchBase::ExeDir, "../.."@),
            (SearchBase::ExeDir, "../../.."@),
        ]
    } else {
        Seq::empty()
    })
}

/// The places the detector's model is looked for, in order; the first one
/// that exists is used.
pub fn vad_model_candidates(has_cwd: bool, has_exe_dir: bool) -> (v: Vec<VadCandidate>)
    ensures
        v@.map_values(|c: VadCandidate| (c.base, c.up@)) == vad_search_order(has_cwd, has_exe_dir),
{
    let mut v: Vec<VadCandidate> = Vec::new();
    if has_cwd {
        v.push(VadCandidate { base: SearchBase::WorkingDir, up: String::new() });
    }
    if has_exe_dir {
        v.push(VadCandidate { base: SearchBase::ExeDir, up: String::new() });
        v.push(VadCandidate { base: SearchBase::ExeDir, up: owned("..") });
        v.push(VadCandidate { base: SearchBase::ExeDir, up: owned("../..") });
        v.push(VadCandidate { base: SearchBase::ExeDir, up: owned("../../..") });
    }
    assert(v@.map_values(|c: VadCandidate| (c.base, c.up@)) =~= vad_search_order(
        has_cwd,
        has_exe_dir,
    ));
    v
}

} // verus!
