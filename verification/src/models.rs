//! The catalogue of Whisper models, where their files live, and when a
//! model counts as installed or a download as complete.
use vstd::prelude::*;

use std::path::{Path, PathBuf};

use crate::text::str_eq;

verus! {

#[verifier::external_type_specification]
#[verifier::external_body]
pub struct ExPath(Path);

#[verifier::external_type_specification]
#[verifier::external_body]
pub struct ExPathBuf(PathBuf);

/// A model the app can download.
#[derive(Debug, Clone, Copy)]
pub struct ModelDef {
    pub id: &'static str,
    pub name: &'static str,
    pub file: &'static str,
    /// Size below which a file of this model counts as incomplete.
    pub min_bytes: u64,
}

/// The model of a `ModelDef`.
pub struct ModelDefView {
    pub id: Seq<char>,
    pub name: Seq<char>,
    pub file: Seq<char>,
    pub min_bytes: u64,
}

impl View for ModelDef {
    type V = ModelDefView;

    open spec fn view(&self) -> ModelDefView {
        ModelDefView {
            id: self.id@,
            name: self.name@,
            file: self.file@,
            min_bytes: self.min_bytes,
        }
    }
}

/// The catalogue, in the order the app lists it.
pub open spec fn model_table() -> Seq<ModelDefView> {
    seq![
        ModelDefView { id: "tiny"@, name: "Tiny"@, file: "ggml-tiny.bin"@, min_bytes: 75_000_000 },
        ModelDefView { id: "base"@, name: "Base"@, file: "ggml-base.bin"@, min_bytes: 145_000_000 },
        ModelDefView {
            id: "small"@,
            name: "Small"@,
            file: "ggml-small.bin"@,
            min_bytes: 480_000_000,
        },
    ]
}

/// The catalogue entry with id `id`, if there is one.
pub open spec fn find_model(id: Seq<char>) -> Option<ModelDefView> {
    if id == "tiny"@ {
        Some(model_table()[0])
    } else if id == "base"@ {
        Some(model_table()[1])
    } else if id == "small"@ {
        Some(model_table()[2])
    } else {
        None
    }
}

/// Why a model operation was refused.
#[derive(Debug, Clone, PartialEq, Eq)]
pub enum ModelError {
    /// No model has this id.
    UnknownModel(String),
}

impl ModelError {
    /// The message shown for this error.
    pub fn message(&self) -> (m: String)
        ensures
            match self {
                ModelError::UnknownModel(id) => m@ == "Unknown model: "@ + id@,
            },
    {
        match self {
            ModelError::UnknownModel(id) => {
                let mut m = String::from_str("Unknown model: ");
                m.append(id.as_str());
                m
            },
        }
    }
}

/// The `k`-th catalogue entry.
fn model_at(k: usize) -> (def: ModelDef)
    requires
        k < 3,
    ensures
        def@ == model_table()[k as int],
{
    match k {
        0 => ModelDef { id: "tiny", name: "Tiny", file: "ggml-tiny.bin", min_bytes: 75_000_000 },
        1 => ModelDef { id: "base", name: "Base", file: "ggml-base.bin", min_bytes: 145_000_000 },
        _ => ModelDef {
            id: "small",
            name: "Small",
            file: "ggml-small.bin",
            min_bytes: 480_000_000,
        },
    }
}

/// The whole catalogue.
pub fn model_defs() -> (defs: Vec<ModelDef>)
    ensures
        defs@.len() == 3,
        forall|k: int| 0 <= k < 3 ==> #[trigger] defs@[k]@ == model_table()[k],
{
    let defs = vec![model_at(0), model_at(1), model_at(2)];
    defs
}

/// The catalogue entry for `id`.
pub fn model_def(id: &str) -> (r: Result<ModelDef, ModelError>)
    ensures
        match r {
            Ok(def) => find_model(id@) == Some(def@),
            Err(ModelError::UnknownModel(given)) => find_model(id@) is None && given@ == id@,
        },
{
    if str_eq(id, "tiny") {
        Ok(model_at(0))
    } else if str_eq(id, "base") {
        Ok(model_at(1))
    } else if str_eq(id, "small") {
        Ok(model_at(2))
    } else {
        Err(ModelError::UnknownModel(id.to_string()))
    }
}

/// What `Path::to_path_buf` returns for `p`: an owned copy of it.
pub uninterp spec fn owned_path(p: &Path) -> PathBuf;

/// What `PathBuf::push` leaves when `part` is adjoined to `p`. How parts are
/// adjoined (the separator) is fixed by the target the program is built for.
pub uninterp spec fn pushed_path(p: PathBuf, part: Seq<char>) -> PathBuf;

/// Calls `Path::to_path_buf`.
#[verifier::external_body]
fn to_path_buf(p: &Path) -> (r: PathBuf)
    ensures
        r == owned_path(p),
{
    p.to_path_buf()
}

/// Calls `PathBuf::push`.
#[verifier::external_body]
fn push_path(p: &mut PathBuf, part: &str)
    ensures
        *final(p) == pushed_path(*old(p), part@),
{
    p.push(part)
}

/// The directory and the file name, under the app directory, of the file of
/// model `id`.
pub fn model_rel_path(id: &str) -> (r: Result<(&'static str, &'static str), ModelError>)
    ensures
        match r {
            Ok((dir, file)) => dir@ == "models"@ && (find_model(id@) matches Some(m) && file@
                == m.file),
            Err(ModelError::UnknownModel(given)) => find_model(id@) is None && given@ == id@,
        },
{
    let def = model_def(id)?;
    Ok(("models", def.file))
}

/// Where the file of model `id` lives: `app_dir/models/<file>`, adjoined as
/// `Path::join` adjoins.
pub fn model_path(app_dir: &Path, id: &str) -> (r: Result<PathBuf, ModelError>)
    ensures
        match r {
            Ok(path) => find_model(id@) matches Some(m) && path == pushed_path(
                pushed_path(owned_path(app_dir), "models"@),
                m.file,
            ),
            Err(ModelError::UnknownModel(given)) => find_model(id@) is None && given@ == id@,
        },
{
    let (dir, file) = model_rel_path(id)?;
    let mut path = to_path_buf(app_dir);
    push_path(&mut path, dir);
    push_path(&mut path, file);
    Ok(path)
}

/// Whether a file of `size_bytes` (or none, when `None`) holds a complete
/// copy of the model.
pub open spec fn installed_spec(def: ModelDefView, size_bytes: Option<u64>) -> bool {
    match size_bytes {
        Some(size) => size >= def.min_bytes,
        None => false,
    }
}

/// Whether model `id` is installed, given the size of its file (`None` when
/// there is no file).
pub fn is_installed(id: &str, size_bytes: Option<u64>) -> (r: Result<bool, ModelError>)
    ensures
        match r {
            Ok(b) => find_model(id@) matches Some(def) && b == installed_spec(def, size_bytes),
            Err(ModelError::UnknownModel(given)) => find_model(id@) is None && given@ == id@,
        },
{
    let def = model_def(id)?;
    Ok(installed_from_size(&def, size_bytes))
}

fn installed_from_size(def: &ModelDef, size_bytes: Option<u64>) -> (b: bool)
    ensures
        b == installed_spec(def@, size_bytes),
{
    match size_bytes {
        Some(size) => size >= def.min_bytes,
        None => false,
    }
}

/// What the app shows about a model.
#[derive(Debug, Clone)]
pub struct ModelStatus {
    pub id: String,
    pub name: String,
    pub file: String,
    pub installed: bool,
    pub size_bytes: Option<u64>,
    pub min_bytes: u64,
}

/// The status of a catalogue entry whose file has `size_bytes`.
pub open spec fn status_matches(s: ModelStatus, def: ModelDefView, size_bytes: Option<u64>) -> bool {
    &&& s.id@ == def.id
    &&& s.name@ == def.name
    &&& s.file@ == def.file
    &&& s.installed == installed_spec(def, size_bytes)
    &&& s.size_bytes == size_bytes
    &&& s.min_bytes == def.min_bytes
}

/// The status of a model whose file has `size_bytes`.
pub fn status_for(def: &ModelDef, size_bytes: Option<u64>) -> (s: ModelStatus)
    ensures
        status_matches(s, def@, size_bytes),
{
    ModelStatus {
        id: def.id.to_string(),
        name: def.name.to_string(),
        file: def.file.to_string(),
        installed: installed_from_size(def, size_bytes),
        size_bytes,
        min_bytes: def.min_bytes,
    }
}

/// The status of every catalogue entry, in catalogue order; `sizes[k]` is the
/// size of the `k`-th model's file (missing entries count as no file).
pub fn statuses(sizes: &Vec<Option<u64>>) -> (out: Vec<ModelStatus>)
    ensures
        out@.len() == 3,
        forall|k: int|
            0 <= k < 3 ==> status_matches(
                #[trigger] out@[k],
                model_table()[k],
                if k < sizes@.len() {
                    sizes@[k]
                } else {
                    None
                },
            ),
{
    let mut out: Vec<ModelStatus> = Vec::new();
    let mut k: usize = 0;
    while k < 3
        invariant
            k <= 3,
            out@.len() == k,
            forall|j: int|
                0 <= j < k ==> status_matches(
                    #[trigger] out@[j],
                    model_table()[j],
                    if j < sizes@.len() {
                        sizes@[j]
                    } else {
                        None
                    },
                ),
        decreases 3 - k,
    {
        let size = if k < sizes.len() {
            sizes[k]
        } else {
            None
        };
        let def = model_at(k);
        out.push(status_for(&def, size));
        k = k + 1;
    }
    out
}

/// Where the model file is downloaded from.
pub fn download_url(def: &ModelDef) -> (url: String)
    ensures
        url@ == "https://huggingface.co/ggerganov/whisper.cpp/resolve/main/"@ + def.file@,
{
    let mut url = String::from_str("https://huggingface.co/ggerganov/whisper.cpp/resolve/main/");
    url.append(def.file);
    url
}

/// Why a finished download was rejected.
#[derive(Debug, Clone, Copy, PartialEq, Eq)]
pub enum DownloadError {
    /// The server announced `expected` bytes and `written` arrived.
    LengthMismatch { written: u64, expected: u64 },
    /// Fewer bytes arrived than a complete model has.
    TooSmall,
}

/// Checks a finished download of `written` bytes, when the server announced
/// `total` bytes (if it did): the length must match, then the size must reach
/// the model's minimum.
pub fn check_download(def: &ModelDef, written: u64, total: Option<u64>) -> (r: Result<
    (),
    DownloadError,
>)
    ensures
        match total {
            Some(t) if written != t => r == Err::<(), DownloadError>(
                DownloadError::LengthMismatch { written, expected: t },
            ),
            _ => if written < def.min_bytes {
                r == Err::<(), DownloadError>(DownloadError::TooSmall)
            } else {
                r is Ok
            },
        },
{
    if let Some(t) = total {
        if written != t {
            return Err(DownloadError::LengthMismatch { written, expected: t });
        }
    }
    if written < def.min_bytes {
        return Err(DownloadError::TooSmall);
    }
    Ok(())
}

/// The catalogue holds exactly the models "tiny", "base" and "small", found
/// by their own id, with files `ggml-<id>.bin` and size floors of 75 MB,
/// 145 MB and 480 MB; a file counts as installed exactly when it reaches its
/// model's floor.
pub proof fn lemma_catalogue(id: Seq<char>, size: u64)
    ensures
        find_model(id) is Some <==> (id == "tiny"@ || id == "base"@ || id == "small"@),
        find_model(id) matches Some(m) ==> m.id == id,
        find_model("tiny"@) matches Some(m) && m.min_bytes == 75_000_000 && m.file
            == "ggml-tiny.bin"@ && m.name == "Tiny"@,
        find_model("base"@) matches Some(m) && m.min_bytes == 145_000_000 && m.file
            == "ggml-base.bin"@ && m.name == "Base"@,
        find_model("small"@) matches Some(m) && m.min_bytes == 480_000_000 && m.file
            == "ggml-small.bin"@ && m.name == "Small"@,
        find_model(id) matches Some(m) ==> (installed_spec(m, Some(size)) <==> size >= (if id
            == "tiny"@ {
            75_000_000u64
        } else if id == "base"@ {
            145_000_000u64
        } else {
            480_000_000u64
        })),
        find_model(id) matches Some(m) ==> !installed_spec(m, None),
{
    reveal_strlit("tiny");
    reveal_strlit("base");
    reveal_strlit("small");
    assert("tiny"@.len() != "small"@.len());
    assert("base"@.len() != "small"@.len());
    assert("tiny"@[0] != "base"@[0]);
}

/// Every catalogue entry has a plausible size floor and a `.bin` file.
pub proof fn lemma_model_table_well_formed()
    ensures
        forall|k: int|
            0 <= k < model_table().len() ==> {
                let d = #[trigger] model_table()[k];
                &&& d.min_bytes > 1_000_000
                &&& d.file.len() >= 4
                &&& d.file.subrange(d.file.len() - 4, d.file.len() as int) == ".bin"@
            },
{
    reveal_strlit("ggml-tiny.bin");
    reveal_strlit("ggml-base.bin");
    reveal_strlit("ggml-small.bin");
    reveal_strlit(".bin");
    assert("ggml-tiny.bin"@.subrange(9, 13) =~= ".bin"@);
    assert("ggml-base.bin"@.subrange(9, 13) =~= ".bin"@);
    assert("ggml-small.bin"@.subrange(10, 14) =~= ".bin"@);
}

} // verus!
