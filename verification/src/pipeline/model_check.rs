//! Checking a model before the pipeline loads it: which files must exist,
//! what a failed check reports, and how a recognizer crash is described.
use crate::config::{lemma_mode_named_inverse, mode_name, mode_named, ModelPaths, PipelineMode};
use crate::text::{concat, concat3, lemma_trim_strips, opt_str, owned, str_trim, stripped_of, trim};
use vstd::prelude::*;

verus! {

/// A file a model directory must hold.
#[derive(Debug, Clone)]
pub struct ModelFile {
    pub name: String,
    pub path: String,
}

/// The files of `paths` with their names, in the order they are checked.
pub open spec fn model_file_list(paths: ModelPaths) -> Seq<(Seq<char>, Seq<char>)> {
    seq![
        ("encoder.onnx"@, paths.encoder@),
        ("decoder.onnx"@, paths.decoder@),
        ("joiner.onnx"@, paths.joiner@),
        ("tokens.txt"@, paths.tokens@),
    ]
}

/// The files a model directory must hold, in the order they are checked.
pub fn required_model_files(paths: &ModelPaths) -> (files: Vec<ModelFile>)
    ensures
        files@.map_values(|f: ModelFile| (f.name@, f.path@)) == model_file_list(*paths),
{
    let mut files: Vec<ModelFile> = Vec::new();
    files.push(ModelFile { name: owned("encoder.onnx"), path: paths.encoder.clone() });
    files.push(ModelFile { name: owned("decoder.onnx"), path: paths.decoder.clone() });
    files.push(ModelFile { name: owned("joiner.onnx"), path: paths.joiner.clone() });
    files.push(ModelFile { name: owned("tokens.txt"), path: paths.tokens.clone() });
    assert(files@.map_values(|f: ModelFile| (f.name@, f.path@)) =~= model_file_list(*paths));
    files
}

/// The report of a missing model file.
pub open spec fn missing_file_message(name: Seq<char>, path: Seq<char>) -> Seq<char> {
    "missing model file: "@ + name + " at "@ + path
}

/// The first `i` such that `present[i]` is false.
pub open spec fn is_first_missing(present: Seq<bool>, i: int) -> bool {
    0 <= i < present.len() && !present[i] && forall|j: int| 0 <= j < i ==> present[j]
}

/// The outcome of checking the model of `files` (with `present[i]` telling
/// whether `files[i]` exists) for the mode named `mode`: the first missing
/// file is reported; otherwise the mode must be one the pipeline knows.
pub open spec fn model_check_outcome(
    files: Seq<(Seq<char>, Seq<char>)>,
    present: Seq<bool>,
    mode: Seq<char>,
) -> Result<PipelineMode, Seq<char>> {
    if exists|i: int| is_first_missing(present, i) {
        let i: int = choose|i: int| is_first_missing(present, i);
        Err(missing_file_message(files[i].0, files[i].1))
    } else {
        match mode_named(mode) {
            Some(m) => Ok(m),
            None => Err("unknown mode: "@ + mode),
        }
    }
}

/// Checks the files of a model directory and the requested mode before the
/// recognizer is loaded.  `files` lists the required files and `present[i]`
/// whether `files[i]` exists.
pub fn check_model(files: &Vec<ModelFile>, present: &Vec<bool>, mode: &str) -> (r: Result<
    PipelineMode,
    String,
>)
    requires
        present.len() == files.len(),
    ensures
        match (r, model_check_outcome(
            files@.map_values(|f: ModelFile| (f.name@, f.path@)),
            present@,
            mode@,
        )) {
            (Ok(m), Ok(n)) => m == n,
            (Err(e), Err(f)) => e@ == f,
            _ => false,
        },
        r matches Ok(m) ==> mode_name(m) == mode@,
        (forall|j: int| 0 <= j < present.len() ==> present@[j]) && mode_named(mode@) is Some
            ==> r is Ok,
{
    let mut i: usize = 0;
    while i < present.len()
        invariant
            i <= present.len() == files.len(),
            forall|j: int| 0 <= j < i ==> present@[j],
        decreases present.len() - i,
    {
        if !present[i] {
            let f = &files[i];
            let m = concat3("missing model file: ", f.name.as_str(), " at ");
            let msg = concat(m.as_str(), f.path.as_str());
            proof {
                let k: int = choose|k: int| is_first_missing(present@, k);
                assert(is_first_missing(present@, i as int));
                if k < i {
                    assert(present@[k]);
                } else if i < k {
                    assert(present@[i as int]);
                }
                assert(files@.map_values(|f: ModelFile| (f.name@, f.path@))[i as int] == (f.name@, f.path@));
            }
            return Err(msg);
        }
        i = i + 1;
    }
    assert(!exists|k: int| is_first_missing(present@, k));
    proof {
        lemma_mode_named_inverse(mode@);
    }
    match PipelineMode::from_str(mode) {
        Some(m) => Ok(m),
        None => Err(concat("unknown mode: ", mode)),
    }
}

/// With every required file present, checking for a mode the pipeline knows
/// succeeds with the mode of that name (a streaming check gives the streaming
/// mode, an offline check the offline one); a name it does not know fails.
pub proof fn lemma_check_gives_named_mode(
    files: Seq<(Seq<char>, Seq<char>)>,
    present: Seq<bool>,
    mode: Seq<char>,
)
    requires
        forall|j: int| 0 <= j < present.len() ==> present[j],
    ensures
        mode_named(mode) is Some ==> (model_check_outcome(files, present, mode) matches Ok(m)
            && mode_name(m) == mode),
        mode_named(mode) is None ==> model_check_outcome(files, present, mode) == Err::<
            PipelineMode,
            Seq<char>,
        >("unknown mode: "@ + mode),
{
    assert(!exists|k: int| is_first_missing(present, k));
    lemma_mode_named_inverse(mode);
}

/// Where files are missing, the check fails on the first of them, whatever
/// the mode, and names that file and its path.
pub proof fn lemma_check_reports_first_missing(
    files: Seq<(Seq<char>, Seq<char>)>,
    present: Seq<bool>,
    mode: Seq<char>,
    i: int,
)
    requires
        0 <= i < present.len(),
        !present[i],
        forall|j: int| 0 <= j < i ==> present[j],
    ensures
        model_check_outcome(files, present, mode) == Err::<PipelineMode, Seq<char>>(
            "missing model file: "@ + files[i].0 + " at "@ + files[i].1,
        ),
{
    assert(is_first_missing(present, i));
    let k: int = choose|k: int| is_first_missing(present, k);
    assert(is_first_missing(present, k));
    if k < i {
        assert(present[k]);
    } else if i < k {
        assert(present[i]);
    }
    assert(k == i);
}

/// The report of a recognizer that could not load the model for `mode`.
pub open spec fn load_failure_message(mode: PipelineMode) -> Seq<char> {
    match mode {
        PipelineMode::Streaming => "OnlineRecognizer: model load failed (wrong model type?)"@,
        PipelineMode::VadOffline => "OfflineRecognizer: model load failed (wrong model type?)"@,
    }
}

/// The report of a recognizer that could not load the model for `mode`.
pub fn model_load_failure(mode: PipelineMode) -> (m: String)
    ensures
        m@ == load_failure_message(mode),
{
    match mode {
        PipelineMode::Streaming => owned("OnlineRecognizer: model load failed (wrong model type?)"),
        PipelineMode::VadOffline => owned(
            "OfflineRecognizer: model load failed (wrong model type?)",
        ),
    }
}

/// What a finished check process means: success, or its error output
/// without surrounding white space, or, where it wrote nothing, its exit
/// status.
pub open spec fn validation_outcome(success: bool, stderr: Seq<char>, status: Seq<char>) -> Result<
    (),
    Seq<char>,
> {
    if success {
        Ok(())
    } else if stderr.len() == 0 {
        Err("model validation failed (exit code "@ + status + ")"@)
    } else {
        Err(trim(stderr))
    }
}

/// Interprets the end of a model check process: `success` tells whether it
/// exited successfully, `stderr` is what it wrote to its error output and
/// `status` describes its exit status.
pub fn validate_model(success: bool, stderr: &str, status: &str) -> (r: Result<(), String>)
    ensures
        match (r, validation_outcome(success, stderr@, status@)) {
            (Ok(()), Ok(())) => true,
            (Err(e), Err(f)) => e@ == f,
            _ => false,
        },
{
    if success {
        Ok(())
    } else if stderr.is_empty() {
        Err(concat3("model validation failed (exit code ", status, ")"))
    } else {
        Err(str_trim(stderr))
    }
}

/// A check process that succeeded passes; one that failed reports its error
/// output with the white space around it cut off and nothing else changed,
/// or its exit status where it wrote nothing.
pub proof fn lemma_validation_reports(success: bool, stderr: Seq<char>, status: Seq<char>)
    ensures
        success ==> validation_outcome(success, stderr, status) is Ok,
        !success && stderr.len() > 0 ==> (validation_outcome(success, stderr, status) matches Err(
            t,
        ) && stripped_of(stderr, t)),
        !success && stderr.len() == 0 ==> validation_outcome(success, stderr, status) == Err::<
            (),
            Seq<char>,
        >("model validation failed (exit code "@ + status + ")"@),
{
    lemma_trim_strips(stderr);
}

/// The description of a crash of `context`, given the crash message where
/// it is text.
pub open spec fn panic_message(context: Seq<char>, payload: Option<Seq<char>>) -> Seq<char> {
    match payload {
        Some(p) => context + " panicked: "@ + p,
        None => context + " panicked (unknown cause, likely model format mismatch)"@,
    }
}

/// Describes a crash of `context` (`payload` is the crash message where it is text).
pub fn panic_msg(context: &str, payload: Option<&str>) -> (m: String)
    ensures
        m@ == panic_message(context@, opt_str(payload)),
{
    match payload {
        Some(p) => concat3(context, " panicked: ", p),
        None => concat(context, " panicked (unknown cause, likely model format mismatch)"),
    }
}

/// The description of a crash of the streaming recognizer while loading.
pub open spec fn model_panic_message(payload: Option<Seq<char>>) -> Seq<char> {
    match payload {
        Some(p) => "model panic: "@ + p,
        None => "model panic: unknown error (model format mismatch?)"@,
    }
}

/// Describes a crash of the streaming recognizer while loading its model.
pub fn model_panic_msg(payload: Option<&str>) -> (m: String)
    ensures
        m@ == model_panic_message(opt_str(payload)),
{
    match payload {
        Some(p) => concat("model panic: ", p),
        None => owned("model panic: unknown error (model format mismatch?)"),
    }
}

} // verus!
