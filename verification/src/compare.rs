use vstd::prelude::*;
use vstd::string::*;
use crate::cli::CompareArgs;
use crate::corpus_index::{DirectiveString, RegressionSignatureCorpusIndex};
use crate::error::{BratchError, ExitCode};
use crate::substrate_input::{is_empty_given, SubstrateInput};
use crate::taxonomy::{
    lemma_signature_name_round_trip, lemma_signature_parse_accepts_only_names, RegressionSignature,
};
use crate::text::owned;

verus! {

/// The Unicode `White_Space` property, which is what `str::trim` strips.
pub open spec fn is_white_space(c: char) -> bool {
    let u = c as u32;
    ||| 0x09 <= u <= 0x0d
    ||| u == 0x20
    ||| u == 0x85
    ||| u == 0xa0
    ||| u == 0x1680
    ||| 0x2000 <= u <= 0x200a
    ||| u == 0x2028
    ||| u == 0x2029
    ||| u == 0x202f
    ||| u == 0x205f
    ||| u == 0x3000
}

/// Every character of `s` is white space, so `s` trims to nothing.
pub open spec fn is_blank(s: Seq<char>) -> bool {
    forall|i: int| 0 <= i < s.len() ==> is_white_space(#[trigger] s[i])
}

/// Whether `c` has the Unicode `White_Space` property.
pub fn white_space(c: char) -> (r: bool)
    ensures
        r == is_white_space(c),
{
    let u = c as u32;
    (0x09 <= u && u <= 0x0d) || u == 0x20 || u == 0x85 || u == 0xa0 || u == 0x1680
        || (0x2000 <= u && u <= 0x200a) || u == 0x2028 || u == 0x2029 || u == 0x202f
        || u == 0x205f || u == 0x3000
}

/// Whether `s` consists of white space only (the empty string included).
pub fn blank(s: &str) -> (r: bool)
    ensures
        r == is_blank(s@),
{
    let mut only_white = true;
    for c in it: s.chars()
        invariant
            only_white == (forall|j: int| 0 <= j < it.index() ==> is_white_space(#[trigger] it.seq()[j])),
    {
        if !white_space(c) {
            only_white = false;
        }
    }
    only_white
}

/// A reason is given and trims to nothing.
pub open spec fn is_blank_reason(reason: Option<String>) -> bool {
    reason matches Some(r) && is_blank(r@)
}

/// Refuses a reason that is given but blank (white space only); an absent
/// reason, or one with any other character, is accepted.
pub fn validate_reason(reason: Option<&str>) -> (result: Result<(), BratchError>)
    ensures
        match result {
            Ok(()) => !(reason matches Some(r) && is_blank(r@)),
            Err(e) => {
                &&& (reason matches Some(r) && is_blank(r@))
                &&& e matches BratchError::Usage(m) && m@ == "reason must not be empty"@
            },
        },
{
    match reason {
        Some(r) => {
            if blank(r) {
                Err(BratchError::Usage(owned("reason must not be empty")))
            } else {
                Ok(())
            }
        },
        None => Ok(()),
    }
}

/// `compare` accepts the request: the inputs are not given empty, the
/// reason is not blank, and the signature is in the taxonomy.
pub open spec fn compare_accepts(args: CompareArgs) -> bool {
    &&& !is_empty_given(args.diff)
    &&& !is_empty_given(args.history)
    &&& !is_blank_reason(args.reason)
    &&& RegressionSignature::spec_parse(args.signature@) is Some
}

/// `e` is the failure `compare` reports for `args`: the first check that
/// fails, in the order diff path, history reference, reason, signature.
pub open spec fn compare_failure(args: CompareArgs, e: BratchError) -> bool {
    if is_empty_given(args.diff) {
        e matches BratchError::DiffSliceInvalid(m) && m@ == "diff path must not be empty"@
    } else if is_empty_given(args.history) {
        e matches BratchError::HistoryRefInvalid(m) && m@ == "history ref must not be empty"@
    } else if is_blank_reason(args.reason) {
        e matches BratchError::Usage(m) && m@ == "reason must not be empty"@
    } else {
        &&& RegressionSignature::spec_parse(args.signature@) is None
        &&& e matches BratchError::TaxonomyUnknown(m) && m@ == args.signature@
    }
}

/// Runs `compare`: checks the inputs and the reason, parses the signature,
/// and hands back the corpus directive for it with the `Finding` exit code.
pub fn run(args: &CompareArgs, corpus: &RegressionSignatureCorpusIndex) -> (result: Result<(DirectiveString, ExitCode), BratchError>)
    ensures
        result is Ok <==> compare_accepts(*args),
        match result {
            Ok((directive, code)) => {
                &&& directive@ == corpus.directive_of(RegressionSignature::spec_parse(args.signature@)->0)
                &&& code == ExitCode::Finding
            },
            Err(e) => compare_failure(*args, e),
        },
{
    SubstrateInput::new(args.diff.clone(), args.history.clone())?;
    match &args.reason {
        Some(r) => validate_reason(Some(r.as_str()))?,
        None => validate_reason(None)?,
    }
    let signature = RegressionSignature::parse(args.signature.as_str())?;
    let directive = corpus.resolve(signature).duplicate();
    Ok((directive, ExitCode::Finding))
}

/// The output flags (`--json`, `--quiet`) and the manifest path do not
/// change what `compare` accepts, reports or hands back.
pub proof fn lemma_compare_ignores_output_flags(a: CompareArgs, b: CompareArgs, e: BratchError)
    requires
        a.signature == b.signature,
        a.diff == b.diff,
        a.history == b.history,
        a.reason == b.reason,
    ensures
        compare_accepts(a) == compare_accepts(b),
        compare_failure(a, e) == compare_failure(b, e),
{
}

/// `compare` accepts a request exactly when the diff path and the history
/// reference are each absent or non-empty (in any combination), the reason
/// is absent or holds a character that is not white space, and the
/// signature is one of the published names.
pub proof fn lemma_compare_accepts_exactly(args: CompareArgs)
    ensures
        compare_accepts(args) <==> {
            &&& !(args.diff matches Some(d) && d@.len() == 0)
            &&& !(args.history matches Some(h) && h@.len() == 0)
            &&& !(args.reason matches Some(r) && forall|i: int| 0 <= i < r@.len() ==> is_white_space(#[trigger] r@[i]))
            &&& exists|s: RegressionSignature| #[trigger] s.spec_name() == args.signature@
        },
{
    let v = args.signature@;
    if RegressionSignature::spec_parse(v) is Some {
        let s = RegressionSignature::spec_parse(v)->0;
        lemma_signature_parse_accepts_only_names(v);
        assert(s.spec_name() == v);
    }
    if exists|s: RegressionSignature| #[trigger] s.spec_name() == v {
        let s = choose|s: RegressionSignature| #[trigger] s.spec_name() == v;
        lemma_signature_name_round_trip(s);
    }
}

} // verus!
