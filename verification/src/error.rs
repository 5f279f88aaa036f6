use vstd::prelude::*;
use crate::text::{joined, owned};

verus! {

/// Process exit codes: `0` no regression, `1` regression detected,
/// `2` internal error, `64` malformed input.
#[derive(Debug, Clone, Copy, PartialEq, Eq, Structural, Hash)]
pub enum ExitCode {
    Success,
    Finding,
    InternalError,
    Usage,
}

impl ExitCode {
    pub open spec fn spec_code(self) -> i32 {
        match self {
            ExitCode::Success => 0,
            ExitCode::Finding => 1,
            ExitCode::InternalError => 2,
            ExitCode::Usage => 64,
        }
    }

    /// The raw process exit status.
    pub fn as_i32(self) -> (code: i32)
        ensures
            code == self.spec_code(),
    {
        match self {
            ExitCode::Success => 0,
            ExitCode::Finding => 1,
            ExitCode::InternalError => 2,
            ExitCode::Usage => 64,
        }
    }
}

/// Failures reported by the shared suite core (corpus signature checks,
/// prompt resolution, updates, transcripts) that this crate passes through.
#[derive(Debug)]
pub enum CoreError {
    CorpusSignatureInvalid,
    CorpusDeserializationFailed(String),
    PromptResolution(String),
    Update(String),
    Transcript(String),
    ExitCode(String),
    VisibilityEvidence(String),
    AdapterHostBinding(String),
    CorpusSchemaMismatch { expected: u32, found: u32 },
    CorpusKeyMissing(String),
    ManifestOverlay(String),
}

/// A failure of the suite core together with the text the suite core
/// shows for it. The text is taken as given: the library shows it unchanged.
#[derive(Debug)]
pub struct CoreFailure {
    pub error: CoreError,
    pub text: String,
}

/// Every failure the library reports.
#[derive(Debug)]
pub enum BratchError {
    DiffSliceInvalid(String),
    HistoryRefInvalid(String),
    TaxonomyUnknown(String),
    VerdictClassUnknown(String),
    RevisionIdPairMalformed(String),
    InvocationSurfaceUnknown(String),
    CorpusLoad(String),
    Usage(String),
    Core(CoreFailure),
}

impl BratchError {
    /// Malformed caller input, as opposed to a failure of the tool itself.
    pub open spec fn spec_is_malformed_input(&self) -> bool {
        match self {
            BratchError::DiffSliceInvalid(_) => true,
            BratchError::HistoryRefInvalid(_) => true,
            BratchError::TaxonomyUnknown(_) => true,
            BratchError::Usage(_) => true,
            _ => false,
        }
    }

    pub open spec fn spec_exit_code(&self) -> ExitCode {
        if self.spec_is_malformed_input() {
            ExitCode::Usage
        } else {
            ExitCode::InternalError
        }
    }

    /// The display text of the error. A core failure shows the suite core's
    /// own text for it.
    pub open spec fn spec_message(&self) -> Seq<char> {
        match self {
            BratchError::DiffSliceInvalid(m) => "diff path is invalid: "@ + m@,
            BratchError::HistoryRefInvalid(m) => "history ref is invalid: "@ + m@,
            BratchError::TaxonomyUnknown(m) => "unknown regression signature: "@ + m@,
            BratchError::VerdictClassUnknown(m) => "unknown verdict class: "@ + m@,
            BratchError::RevisionIdPairMalformed(m) => "malformed revision id pair: "@ + m@,
            BratchError::InvocationSurfaceUnknown(m) => "unknown invocation surface: "@ + m@,
            BratchError::CorpusLoad(m) => "corpus load failed: "@ + m@,
            BratchError::Usage(m) => m@,
            BratchError::Core(f) => f.text@,
        }
    }

    pub fn is_malformed_input(&self) -> (malformed: bool)
        ensures
            malformed == self.spec_is_malformed_input(),
    {
        match self {
            BratchError::DiffSliceInvalid(_) => true,
            BratchError::HistoryRefInvalid(_) => true,
            BratchError::TaxonomyUnknown(_) => true,
            BratchError::Usage(_) => true,
            _ => false,
        }
    }

    pub fn exit_code(&self) -> (code: ExitCode)
        ensures
            code == self.spec_exit_code(),
    {
        if self.is_malformed_input() {
            ExitCode::Usage
        } else {
            ExitCode::InternalError
        }
    }

    pub fn message(&self) -> (text: String)
        ensures
            text@ == self.spec_message(),
    {
        match self {
            BratchError::DiffSliceInvalid(m) => joined("diff path is invalid: ", m.as_str()),
            BratchError::HistoryRefInvalid(m) => joined("history ref is invalid: ", m.as_str()),
            BratchError::TaxonomyUnknown(m) => joined("unknown regression signature: ", m.as_str()),
            BratchError::VerdictClassUnknown(m) => joined("unknown verdict class: ", m.as_str()),
            BratchError::RevisionIdPairMalformed(m) => joined("malformed revision id pair: ", m.as_str()),
            BratchError::InvocationSurfaceUnknown(m) => joined("unknown invocation surface: ", m.as_str()),
            BratchError::CorpusLoad(m) => joined("corpus load failed: ", m.as_str()),
            BratchError::Usage(m) => owned(m.as_str()),
            BratchError::Core(f) => owned(f.text.as_str()),
        }
    }

    /// Converts into a core failure: core failures pass through, corpus
    /// load failures become deserialization failures, and everything else
    /// becomes a prompt-resolution failure carrying the display text.
    pub fn into_core(self) -> (core: CoreError)
        ensures
            match self {
                BratchError::Core(f) => core == f.error,
                BratchError::CorpusLoad(m) => core == CoreError::CorpusDeserializationFailed(m),
                _ => core matches CoreError::PromptResolution(t) && t@ == self.spec_message(),
            },
    {
        match self {
            BratchError::Core(f) => f.error,
            BratchError::CorpusLoad(m) => CoreError::CorpusDeserializationFailed(m),
            other => CoreError::PromptResolution(other.message()),
        }
    }
}

/// Malformed input is exactly what exits with the usage code; every other
/// failure exits with the internal-error code.
pub proof fn lemma_malformed_iff_usage_exit(e: BratchError)
    ensures
        e.spec_is_malformed_input() <==> e.spec_exit_code() == ExitCode::Usage,
        !e.spec_is_malformed_input() <==> e.spec_exit_code() == ExitCode::InternalError,
{
}

/// The raw exit statuses: 0 no regression, 1 regression detected,
/// 2 internal error, 64 malformed input; no two codes share a status.
pub proof fn lemma_exit_code_statuses(a: ExitCode, b: ExitCode)
    ensures
        ExitCode::Success.spec_code() == 0,
        ExitCode::Finding.spec_code() == 1,
        ExitCode::InternalError.spec_code() == 2,
        ExitCode::Usage.spec_code() == 64,
        a.spec_code() == b.spec_code() ==> a == b,
{
}

/// The display text of an error that wraps a message ends with that
/// message, and, but for a bare usage message, is never empty.
pub proof fn lemma_message_keeps_payload(e: BratchError)
    ensures
        match e {
            BratchError::Core(_) => true,
            BratchError::Usage(m) => e.spec_message() == m@,
            BratchError::DiffSliceInvalid(m) | BratchError::HistoryRefInvalid(m)
            | BratchError::TaxonomyUnknown(m) | BratchError::VerdictClassUnknown(m)
            | BratchError::RevisionIdPairMalformed(m) | BratchError::InvocationSurfaceUnknown(m)
            | BratchError::CorpusLoad(m) => {
                &&& e.spec_message().len() > m@.len()
                &&& e.spec_message().skip(e.spec_message().len() - m@.len()) == m@
            },
        },
{
    match e {
        BratchError::DiffSliceInvalid(m) => {
            reveal_strlit("diff path is invalid: ");
            assert(e.spec_message().skip(e.spec_message().len() - m@.len()) =~= m@);
        },
        BratchError::HistoryRefInvalid(m) => {
            reveal_strlit("history ref is invalid: ");
            assert(e.spec_message().skip(e.spec_message().len() - m@.len()) =~= m@);
        },
        BratchError::TaxonomyUnknown(m) => {
            reveal_strlit("unknown regression signature: ");
            assert(e.spec_message().skip(e.spec_message().len() - m@.len()) =~= m@);
        },
        BratchError::VerdictClassUnknown(m) => {
            reveal_strlit("unknown verdict class: ");
            assert(e.spec_message().skip(e.spec_message().len() - m@.len()) =~= m@);
        },
        BratchError::RevisionIdPairMalformed(m) => {
            reveal_strlit("malformed revision id pair: ");
            assert(e.spec_message().skip(e.spec_message().len() - m@.len()) =~= m@);
        },
        BratchError::InvocationSurfaceUnknown(m) => {
            reveal_strlit("unknown invocation surface: ");
            assert(e.spec_message().skip(e.spec_message().len() - m@.len()) =~= m@);
        },
        BratchError::CorpusLoad(m) => {
            reveal_strlit("corpus load failed: ");
            assert(e.spec_message().skip(e.spec_message().len() - m@.len()) =~= m@);
        },
        _ => {},
    }
}

/// Only malformed caller input exits with the usage status 64: an invalid
/// diff path, an invalid history reference, an unknown signature and a
/// usage error. Every other failure, every core failure included, exits
/// with the internal-error status 2.
pub proof fn lemma_exit_code_by_failure_kind(e: BratchError)
    ensures
        match e {
            BratchError::DiffSliceInvalid(_) | BratchError::HistoryRefInvalid(_)
            | BratchError::TaxonomyUnknown(_) | BratchError::Usage(_) => {
                &&& e.spec_is_malformed_input()
                &&& e.spec_exit_code() == ExitCode::Usage
                &&& e.spec_exit_code().spec_code() == 64
            },
            BratchError::VerdictClassUnknown(_) | BratchError::RevisionIdPairMalformed(_)
            | BratchError::InvocationSurfaceUnknown(_) | BratchError::CorpusLoad(_)
            | BratchError::Core(_) => {
                &&& !e.spec_is_malformed_input()
                &&& e.spec_exit_code() == ExitCode::InternalError
                &&& e.spec_exit_code().spec_code() == 2
            },
        },
{
}

} // verus!
