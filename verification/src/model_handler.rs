//! The decision core of the model provisioner: the variant catalog, the
//! naming of the model file and its remote location, and the plan of one
//! provisioning call — check for the file, fetch it only if it is absent,
//! and hand out a handle to the resolved path.
//!
//! The filesystem check, the network fetch and the write live outside this
//! library; they are told what to do by the step functions here, so that
//! which variant is accepted, which path is used and when a fetch may happen
//! at all is verified.
use vstd::prelude::*;
use vstd::string::StrSliceExecFns;
use vstd::string::StringExecFns;

verus! {

/// ASCII lowercasing of one character; anything outside `A`..`Z` is kept.
pub open spec fn lower_char(c: char) -> char {
    if 65 <= c as u32 && c as u32 <= 90 {
        ((c as u32 + 32) as u8) as char
    } else {
        c
    }
}

/// ASCII lowercasing of a whole character sequence.
pub open spec fn lower_seq(s: Seq<char>) -> Seq<char> {
    s.map_values(|c: char| lower_char(c))
}

fn lower_char_exec(c: char) -> (r: char)
    ensures
        r == lower_char(c),
{
    let code = c as u32;
    if 65 <= code && code <= 90 {
        ((code + 32) as u8) as char
    } else {
        c
    }
}

/// Decides whether two names are the same variant identifier, comparing
/// ASCII letters without regard to case.
pub fn eq_ignore_ascii_case(a: &str, b: &str) -> (r: bool)
    ensures
        r == (lower_seq(a@) == lower_seq(b@)),
{
    let a_len = a.unicode_len();
    let b_len = b.unicode_len();
    if a_len != b_len {
        proof {
            assert(lower_seq(a@).len() != lower_seq(b@).len());
        }
        return false;
    }
    let mut i: usize = 0;
    while i < a_len
        invariant
            a_len == a@.len(),
            b_len == b@.len(),
            a_len == b_len,
            i <= a_len,
            forall|j: int| 0 <= j < i ==> lower_char(a@[j]) == lower_char(b@[j]),
        decreases a_len - i,
    {
        let ca = a.get_char(i);
        let cb = b.get_char(i);
        if lower_char_exec(ca) != lower_char_exec(cb) {
            proof {
                assert(lower_seq(a@)[i as int] != lower_seq(b@)[i as int]);
            }
            return false;
        }
        i += 1;
    }
    proof {
        assert(lower_seq(a@) =~= lower_seq(b@));
    }
    true
}

/// The catalog: which canonical weight file each known variant names.
/// A name matches its catalog entry without regard to ASCII case.
pub open spec fn spec_variant_file(name: Seq<char>) -> Option<Seq<char>> {
    if lower_seq(name) == lower_seq("tiny"@) {
        Some("ggml-tiny.bin"@)
    } else if lower_seq(name) == lower_seq("base"@) {
        Some("ggml-base.bin"@)
    } else if lower_seq(name) == lower_seq("small"@) {
        Some("ggml-small.bin"@)
    } else if lower_seq(name) == lower_seq("medium"@) {
        Some("ggml-medium.bin"@)
    } else if lower_seq(name) == lower_seq("large"@) {
        Some("ggml-large.bin"@)
    } else {
        None
    }
}

/// A variant identifier maps to a catalog entry.
pub open spec fn is_known_variant(name: Seq<char>) -> bool {
    spec_variant_file(name) is Some
}

/// Looks a variant identifier up in the catalog and returns the canonical
/// file name of its weights, or nothing for an unknown identifier.
pub fn variant_file_name(variant: &str) -> (r: Option<&'static str>)
    ensures
        r matches Some(f) ==> spec_variant_file(variant@) == Some(f@),
        r is Some <==> is_known_variant(variant@),
{
    if eq_ignore_ascii_case(variant, "tiny") {
        Some("ggml-tiny.bin")
    } else if eq_ignore_ascii_case(variant, "base") {
        Some("ggml-base.bin")
    } else if eq_ignore_ascii_case(variant, "small") {
        Some("ggml-small.bin")
    } else if eq_ignore_ascii_case(variant, "medium") {
        Some("ggml-medium.bin")
    } else if eq_ignore_ascii_case(variant, "large") {
        Some("ggml-large.bin")
    } else {
        None
    }
}

/// The fixed remote location all variants are served from.
pub fn model_base_url() -> (r: &'static str)
    ensures
        r@ == "https://huggingface.co/ggerganov/whisper.cpp/resolve/main/"@,
{
    "https://huggingface.co/ggerganov/whisper.cpp/resolve/main/"
}

/// The remote location of a variant's weight file.
pub open spec fn spec_variant_url(name: Seq<char>) -> Option<Seq<char>> {
    match spec_variant_file(name) {
        Some(f) => Some("https://huggingface.co/ggerganov/whisper.cpp/resolve/main/"@ + f),
        None => None,
    }
}

/// The path a variant's weight file takes under a target directory: the
/// directory, one separator (unless the directory already ends in one), and
/// the canonical file name.
pub open spec fn spec_joined_path(dir: Seq<char>, file: Seq<char>) -> Seq<char> {
    if dir.len() > 0 && dir.last() == '/' {
        dir + file
    } else {
        dir + "/"@ + file
    }
}

/// Joins a target directory and a file name into one path.
pub fn join_path(dir: &str, file: &str) -> (r: String)
    ensures
        r@ == spec_joined_path(dir@, file@),
{
    let n = dir.unicode_len();
    let mut out = dir.to_owned();
    if n == 0 || dir.get_char(n - 1) != '/' {
        out.append("/");
    }
    out.concat(file)
}

/// Where a variant's weight file stands under a target directory, for a
/// known variant.
pub open spec fn spec_model_path(variant: Seq<char>, dir: Seq<char>) -> Option<Seq<char>> {
    match spec_variant_file(variant) {
        Some(f) => Some(spec_joined_path(dir, f)),
        None => None,
    }
}

/// Owns the resolved local path of a provisioned model file.
#[derive(Debug)]
pub struct ModelHandler {
    model_path: String,
}

impl View for ModelHandler {
    type V = Seq<char>;

    closed spec fn view(&self) -> Seq<char> {
        self.model_path@
    }
}

impl ModelHandler {
    /// Wraps a resolved model path; the provisioning steps below say which
    /// path a handle may legitimately carry.
    pub fn new(model_path: String) -> (h: Self)
        ensures
            h@ == model_path@,
    {
        ModelHandler { model_path }
    }

    /// The local path of the provisioned model file.
    pub fn get_model_dir(&self) -> (r: &str)
        ensures
            r@ == self@,
    {
        self.model_path.as_str()
    }
}

/// Why a provisioning call failed.
#[derive(Debug, Clone, Copy, PartialEq, Eq, Structural)]
pub enum ProvisionError {
    /// The variant identifier maps to no catalog entry.
    UnknownVariant,
    /// The fetch from the remote location, or persisting it, failed.
    FetchFailed,
}

/// What a provisioning call must do next.
#[derive(Debug)]
pub enum ProvisionStep {
    /// Terminal: the call fails with this error.
    Rejected { error: ProvisionError },
    /// Ask the filesystem whether the weight file already stands at `path`.
    CheckFile { path: String },
    /// Fetch `url` and persist it at `path`.
    Fetch { url: String, path: String },
    /// Terminal: the model is usable at the handle's path.
    Ready { handler: ModelHandler },
}

/// The mathematical content of a provisioning step.
pub ghost enum ProvisionStepModel {
    Rejected { error: ProvisionError },
    CheckFile { path: Seq<char> },
    Fetch { url: Seq<char>, path: Seq<char> },
    Ready { path: Seq<char> },
}

impl View for ProvisionStep {
    type V = ProvisionStepModel;

    closed spec fn view(&self) -> ProvisionStepModel {
        match self {
            ProvisionStep::Rejected { error } => ProvisionStepModel::Rejected { error: *error },
            ProvisionStep::CheckFile { path } => ProvisionStepModel::CheckFile { path: path@ },
            ProvisionStep::Fetch { url, path } => ProvisionStepModel::Fetch {
                url: url@,
                path: path@,
            },
            ProvisionStep::Ready { handler } => ProvisionStepModel::Ready { path: handler@ },
        }
    }
}

/// The first step of a provisioning call: an unknown variant is rejected at
/// once — before any filesystem or network work is asked for — and a known
/// one has its file looked for.
pub open spec fn spec_provision_start(variant: Seq<char>, dir: Seq<char>) -> ProvisionStepModel {
    if !is_known_variant(variant) {
        ProvisionStepModel::Rejected { error: ProvisionError::UnknownVariant }
    } else {
        ProvisionStepModel::CheckFile { path: spec_model_path(variant, dir)->0 }
    }
}

/// The step after the filesystem answered: an existing file is used as it
/// stands (no fetch); a missing one is fetched from the catalog's location.
pub open spec fn spec_provision_after_check(
    variant: Seq<char>,
    dir: Seq<char>,
    file_exists: bool,
) -> ProvisionStepModel {
    if !is_known_variant(variant) {
        ProvisionStepModel::Rejected { error: ProvisionError::UnknownVariant }
    } else if file_exists {
        ProvisionStepModel::Ready { path: spec_model_path(variant, dir)->0 }
    } else {
        ProvisionStepModel::Fetch {
            url: spec_variant_url(variant)->0,
            path: spec_model_path(variant, dir)->0,
        }
    }
}

/// The step after a fetch was attempted: a persisted file yields the handle,
/// a failed fetch fails the call.
pub open spec fn spec_provision_after_fetch(
    variant: Seq<char>,
    dir: Seq<char>,
    fetch_succeeded: bool,
) -> ProvisionStepModel {
    if !is_known_variant(variant) {
        ProvisionStepModel::Rejected { error: ProvisionError::UnknownVariant }
    } else if fetch_succeeded {
        ProvisionStepModel::Ready { path: spec_model_path(variant, dir)->0 }
    } else {
        ProvisionStepModel::Rejected { error: ProvisionError::FetchFailed }
    }
}

/// Begins provisioning `variant` under `dir`.
pub fn provision_start(variant: &str, dir: &str) -> (s: ProvisionStep)
    ensures
        s@ == spec_provision_start(variant@, dir@),
{
    match variant_file_name(variant) {
        None => ProvisionStep::Rejected { error: ProvisionError::UnknownVariant },
        Some(file) => ProvisionStep::CheckFile { path: join_path(dir, file) },
    }
}

/// Continues provisioning once the filesystem said whether the weight file
/// already exists at the step's path.
pub fn provision_after_check(variant: &str, dir: &str, file_exists: bool) -> (s: ProvisionStep)
    ensures
        s@ == spec_provision_after_check(variant@, dir@, file_exists),
{
    match variant_file_name(variant) {
        None => ProvisionStep::Rejected { error: ProvisionError::UnknownVariant },
        Some(file) => {
            let path = join_path(dir, file);
            if file_exists {
                ProvisionStep::Ready { handler: ModelHandler::new(path) }
            } else {
                let url = model_base_url().to_owned().concat(file);
                ProvisionStep::Fetch { url, path }
            }
        },
    }
}

/// Concludes provisioning once the fetch either persisted the file or
/// failed.
pub fn provision_after_fetch(variant: &str, dir: &str, fetch_succeeded: bool) -> (s: ProvisionStep)
    ensures
        s@ == spec_provision_after_fetch(variant@, dir@, fetch_succeeded),
{
    match variant_file_name(variant) {
        None => ProvisionStep::Rejected { error: ProvisionError::UnknownVariant },
        Some(file) => {
            if fetch_succeeded {
                ProvisionStep::Ready { handler: ModelHandler::new(join_path(dir, file)) }
            } else {
                ProvisionStep::Rejected { error: ProvisionError::FetchFailed }
            }
        },
    }
}

/// One whole provisioning call, abstractly: the steps above composed.
/// Returns the handle's path, if the call succeeds, and whether the call
/// performed a fetch.
pub open spec fn spec_provision_run(
    variant: Seq<char>,
    dir: Seq<char>,
    file_exists: bool,
    fetch_succeeds: bool,
) -> (Option<Seq<char>>, bool) {
    match spec_provision_start(variant, dir) {
        ProvisionStepModel::CheckFile { path } => match spec_provision_after_check(
            variant,
            dir,
            file_exists,
        ) {
            ProvisionStepModel::Ready { path } => (Some(path), false),
            ProvisionStepModel::Fetch { .. } => match spec_provision_after_fetch(
                variant,
                dir,
                fetch_succeeds,
            ) {
                ProvisionStepModel::Ready { path } => (Some(path), true),
                _ => (None, true),
            },
            _ => (None, false),
        },
        _ => (None, false),
    }
}

/// An unknown variant identifier fails provisioning before any network
/// access is attempted: the very first step rejects it, and a whole run
/// performs no fetch and yields no handle.
pub proof fn lemma_unknown_variant_never_fetches(
    variant: Seq<char>,
    dir: Seq<char>,
    file_exists: bool,
    fetch_succeeds: bool,
)
    requires
        !is_known_variant(variant),
    ensures
        spec_provision_start(variant, dir) == (ProvisionStepModel::Rejected {
            error: ProvisionError::UnknownVariant,
        }),
        spec_provision_run(variant, dir, file_exists, fetch_succeeds) == (
            None::<Seq<char>>,
            false,
        ),
{
}

/// Provisioning is idempotent: once a call has succeeded — so the weight
/// file now exists at its path — a second call with the same variant and
/// directory performs no fetch and returns an equally usable handle, to the
/// same path. Over both calls at most one fetch happens.
pub proof fn lemma_provision_idempotent(
    variant: Seq<char>,
    dir: Seq<char>,
    file_existed: bool,
    first_fetch_succeeds: bool,
    second_fetch_succeeds: bool,
)
    requires
        spec_provision_run(variant, dir, file_existed, first_fetch_succeeds).0 is Some,
    ensures
        ({
            let first = spec_provision_run(variant, dir, file_existed, first_fetch_succeeds);
            let second = spec_provision_run(variant, dir, true, second_fetch_succeeds);
            &&& second.0 == first.0
            &&& second.1 == false
        }),
{
}

} // verus!
