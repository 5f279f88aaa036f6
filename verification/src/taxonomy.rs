use vstd::prelude::*;
use crate::error::BratchError;
use crate::text::{owned, str_eq};

verus! {

/// The closed regression-signature taxonomy.
#[derive(Debug, Clone, Copy, PartialEq, Eq, Structural, PartialOrd, Ord, Hash)]
pub enum RegressionSignature {
    NullCheckRemoved,
    ErrorHandlingNarrowed,
    TestAssertionWeakened,
    ScopeBoundaryBroken,
    InvariantViolated,
    BrandVoiceLoosened,
    BannedTermReIntroduced,
    DisclosureLineDeleted,
    ApprovedFactReplaced,
}

impl RegressionSignature {
    /// Every signature, in declaration order.
    pub const ALL: [RegressionSignature; 9] = [
        RegressionSignature::NullCheckRemoved,
        RegressionSignature::ErrorHandlingNarrowed,
        RegressionSignature::TestAssertionWeakened,
        RegressionSignature::ScopeBoundaryBroken,
        RegressionSignature::InvariantViolated,
        RegressionSignature::BrandVoiceLoosened,
        RegressionSignature::BannedTermReIntroduced,
        RegressionSignature::DisclosureLineDeleted,
        RegressionSignature::ApprovedFactReplaced,
    ];

    /// The kebab-case name under which a signature is published.
    pub open spec fn spec_name(self) -> Seq<char> {
        match self {
            RegressionSignature::NullCheckRemoved => "null-check-removed"@,
            RegressionSignature::ErrorHandlingNarrowed => "error-handling-narrowed"@,
            RegressionSignature::TestAssertionWeakened => "test-assertion-weakened"@,
            RegressionSignature::ScopeBoundaryBroken => "scope-boundary-broken"@,
            RegressionSignature::InvariantViolated => "invariant-violated"@,
            RegressionSignature::BrandVoiceLoosened => "brand-voice-loosened"@,
            RegressionSignature::BannedTermReIntroduced => "banned-term-re-introduced"@,
            RegressionSignature::DisclosureLineDeleted => "disclosure-line-deleted"@,
            RegressionSignature::ApprovedFactReplaced => "approved-fact-replaced"@,
        }
    }

    /// The signature published under `name`, if any.
    pub open spec fn spec_parse(name: Seq<char>) -> Option<RegressionSignature> {
        if name == "null-check-removed"@ {
            Some(RegressionSignature::NullCheckRemoved)
        } else if name == "error-handling-narrowed"@ {
            Some(RegressionSignature::ErrorHandlingNarrowed)
        } else if name == "test-assertion-weakened"@ {
            Some(RegressionSignature::TestAssertionWeakened)
        } else if name == "scope-boundary-broken"@ {
            Some(RegressionSignature::ScopeBoundaryBroken)
        } else if name == "invariant-violated"@ {
            Some(RegressionSignature::InvariantViolated)
        } else if name == "brand-voice-loosened"@ {
            Some(RegressionSignature::BrandVoiceLoosened)
        } else if name == "banned-term-re-introduced"@ {
            Some(RegressionSignature::BannedTermReIntroduced)
        } else if name == "disclosure-line-deleted"@ {
            Some(RegressionSignature::DisclosureLineDeleted)
        } else if name == "approved-fact-replaced"@ {
            Some(RegressionSignature::ApprovedFactReplaced)
        } else {
            None
        }
    }

    /// Position of the signature in declaration order.
    pub open spec fn spec_ordinal(self) -> nat {
        match self {
            RegressionSignature::NullCheckRemoved => 0,
            RegressionSignature::ErrorHandlingNarrowed => 1,
            RegressionSignature::TestAssertionWeakened => 2,
            RegressionSignature::ScopeBoundaryBroken => 3,
            RegressionSignature::InvariantViolated => 4,
            RegressionSignature::BrandVoiceLoosened => 5,
            RegressionSignature::BannedTermReIntroduced => 6,
            RegressionSignature::DisclosureLineDeleted => 7,
            RegressionSignature::ApprovedFactReplaced => 8,
        }
    }

    pub fn stable_name(self) -> (name: &'static str)
        ensures
            name@ == self.spec_name(),
    {
        match self {
            RegressionSignature::NullCheckRemoved => "null-check-removed",
            RegressionSignature::ErrorHandlingNarrowed => "error-handling-narrowed",
            RegressionSignature::TestAssertionWeakened => "test-assertion-weakened",
            RegressionSignature::ScopeBoundaryBroken => "scope-boundary-broken",
            RegressionSignature::InvariantViolated => "invariant-violated",
            RegressionSignature::BrandVoiceLoosened => "brand-voice-loosened",
            RegressionSignature::BannedTermReIntroduced => "banned-term-re-introduced",
            RegressionSignature::DisclosureLineDeleted => "disclosure-line-deleted",
            RegressionSignature::ApprovedFactReplaced => "approved-fact-replaced",
        }
    }

    /// Position of the signature in declaration order.
    pub fn ordinal(self) -> (index: usize)
        ensures
            index == self.spec_ordinal(),
            index < 9,
    {
        match self {
            RegressionSignature::NullCheckRemoved => 0,
            RegressionSignature::ErrorHandlingNarrowed => 1,
            RegressionSignature::TestAssertionWeakened => 2,
            RegressionSignature::ScopeBoundaryBroken => 3,
            RegressionSignature::InvariantViolated => 4,
            RegressionSignature::BrandVoiceLoosened => 5,
            RegressionSignature::BannedTermReIntroduced => 6,
            RegressionSignature::DisclosureLineDeleted => 7,
            RegressionSignature::ApprovedFactReplaced => 8,
        }
    }

    /// The signature at `index` in declaration order.
    pub fn from_ordinal(index: usize) -> (signature: RegressionSignature)
        requires
            index < 9,
        ensures
            signature.spec_ordinal() == index,
    {
        match index {
            0 => RegressionSignature::NullCheckRemoved,
            1 => RegressionSignature::ErrorHandlingNarrowed,
            2 => RegressionSignature::TestAssertionWeakened,
            3 => RegressionSignature::ScopeBoundaryBroken,
            4 => RegressionSignature::InvariantViolated,
            5 => RegressionSignature::BrandVoiceLoosened,
            6 => RegressionSignature::BannedTermReIntroduced,
            7 => RegressionSignature::DisclosureLineDeleted,
            _ => RegressionSignature::ApprovedFactReplaced,
        }
    }

    /// Parses a published name; anything outside the closed set, including
    /// names with surrounding whitespace or another casing, is refused.
    pub fn parse(value: &str) -> (result: Result<RegressionSignature, BratchError>)
        ensures
            match result {
                Ok(signature) => RegressionSignature::spec_parse(value@) == Some(signature),
                Err(e) => {
                    &&& RegressionSignature::spec_parse(value@) is None
                    &&& e matches BratchError::TaxonomyUnknown(m) && m@ == value@
                },
            },
    {
        if str_eq(value, "null-check-removed") {
            Ok(RegressionSignature::NullCheckRemoved)
        } else if str_eq(value, "error-handling-narrowed") {
            Ok(RegressionSignature::ErrorHandlingNarrowed)
        } else if str_eq(value, "test-assertion-weakened") {
            Ok(RegressionSignature::TestAssertionWeakened)
        } else if str_eq(value, "scope-boundary-broken") {
            Ok(RegressionSignature::ScopeBoundaryBroken)
        } else if str_eq(value, "invariant-violated") {
            Ok(RegressionSignature::InvariantViolated)
        } else if str_eq(value, "brand-voice-loosened") {
            Ok(RegressionSignature::BrandVoiceLoosened)
        } else if str_eq(value, "banned-term-re-introduced") {
            Ok(RegressionSignature::BannedTermReIntroduced)
        } else if str_eq(value, "disclosure-line-deleted") {
            Ok(RegressionSignature::DisclosureLineDeleted)
        } else if str_eq(value, "approved-fact-replaced") {
            Ok(RegressionSignature::ApprovedFactReplaced)
        } else {
            Err(BratchError::TaxonomyUnknown(owned(value)))
        }
    }
}

impl std::str::FromStr for RegressionSignature {
    type Err = BratchError;

    fn from_str(value: &str) -> (result: Result<RegressionSignature, BratchError>)
        ensures
            match result {
                Ok(signature) => RegressionSignature::spec_parse(value@) == Some(signature),
                Err(e) => {
                    &&& RegressionSignature::spec_parse(value@) is None
                    &&& e matches BratchError::TaxonomyUnknown(m) && m@ == value@
                },
            },
    {
        RegressionSignature::parse(value)
    }
}

/// Parsing the published name of any signature gives that signature back.
pub proof fn lemma_signature_name_round_trip(signature: RegressionSignature)
    ensures
        RegressionSignature::spec_parse(signature.spec_name()) == Some(signature),
{
    reveal_strlit("null-check-removed");
    reveal_strlit("error-handling-narrowed");
    reveal_strlit("test-assertion-weakened");
    reveal_strlit("scope-boundary-broken");
    reveal_strlit("invariant-violated");
    reveal_strlit("brand-voice-loosened");
    reveal_strlit("banned-term-re-introduced");
    reveal_strlit("disclosure-line-deleted");
    reveal_strlit("approved-fact-replaced");
    match signature {
        RegressionSignature::NullCheckRemoved => {
        },
        RegressionSignature::ErrorHandlingNarrowed => {
            assert("error-handling-narrowed"@.len() != "null-check-removed"@.len());
        },
        RegressionSignature::TestAssertionWeakened => {
            assert("test-assertion-weakened"@.len() != "null-check-removed"@.len());
            assert("test-assertion-weakened"@[0] != "error-handling-narrowed"@[0]);
        },
        RegressionSignature::ScopeBoundaryBroken => {
            assert("scope-boundary-broken"@.len() != "null-check-removed"@.len());
            assert("scope-boundary-broken"@.len() != "error-handling-narrowed"@.len());
            assert("scope-boundary-broken"@.len() != "test-assertion-weakened"@.len());
        },
        RegressionSignature::InvariantViolated => {
            assert("invariant-violated"@[0] != "null-check-removed"@[0]);
            assert("invariant-violated"@.len() != "error-handling-narrowed"@.len());
            assert("invariant-violated"@.len() != "test-assertion-weakened"@.len());
            assert("invariant-violated"@.len() != "scope-boundary-broken"@.len());
        },
        RegressionSignature::BrandVoiceLoosened => {
            assert("brand-voice-loosened"@.len() != "null-check-removed"@.len());
            assert("brand-voice-loosened"@.len() != "error-handling-narrowed"@.len());
            assert("brand-voice-loosened"@.len() != "test-assertion-weakened"@.len());
            assert("brand-voice-loosened"@.len() != "scope-boundary-broken"@.len());
            assert("brand-voice-loosened"@.len() != "invariant-violated"@.len());
        },
        RegressionSignature::BannedTermReIntroduced => {
            assert("banned-term-re-introduced"@.len() != "null-check-removed"@.len());
            assert("banned-term-re-introduced"@.len() != "error-handling-narrowed"@.len());
            assert("banned-term-re-introduced"@.len() != "test-assertion-weakened"@.len());
            assert("banned-term-re-introduced"@.len() != "scope-boundary-broken"@.len());
            assert("banned-term-re-introduced"@.len() != "invariant-violated"@.len());
            assert("banned-term-re-introduced"@.len() != "brand-voice-loosened"@.len());
        },
        RegressionSignature::DisclosureLineDeleted => {
            assert("disclosure-line-deleted"@.len() != "null-check-removed"@.len());
            assert("disclosure-line-deleted"@[0] != "error-handling-narrowed"@[0]);
            assert("disclosure-line-deleted"@[0] != "test-assertion-weakened"@[0]);
            assert("disclosure-line-deleted"@.len() != "scope-boundary-broken"@.len());
            assert("disclosure-line-deleted"@.len() != "invariant-violated"@.len());
            assert("disclosure-line-deleted"@.len() != "brand-voice-loosened"@.len());
            assert("disclosure-line-deleted"@.len() != "banned-term-re-introduced"@.len());
        },
        RegressionSignature::ApprovedFactReplaced => {
            assert("approved-fact-replaced"@.len() != "null-check-removed"@.len());
            assert("approved-fact-replaced"@.len() != "error-handling-narrowed"@.len());
            assert("approved-fact-replaced"@.len() != "test-assertion-weakened"@.len());
            assert("approved-fact-replaced"@.len() != "scope-boundary-broken"@.len());
            assert("approved-fact-replaced"@.len() != "invariant-violated"@.len());
            assert("approved-fact-replaced"@.len() != "brand-voice-loosened"@.len());
            assert("approved-fact-replaced"@.len() != "banned-term-re-introduced"@.len());
            assert("approved-fact-replaced"@.len() != "disclosure-line-deleted"@.len());
        },
    }
}

/// Parsing accepts exactly the published names: whatever it accepts is the
/// name of the signature it returns.
pub proof fn lemma_signature_parse_accepts_only_names(name: Seq<char>)
    ensures
        RegressionSignature::spec_parse(name) matches Some(signature) ==> signature.spec_name() == name,
{
}

/// Distinct signatures have distinct published names.
pub proof fn lemma_signature_names_distinct(a: RegressionSignature, b: RegressionSignature)
    ensures
        a.spec_name() == b.spec_name() ==> a == b,
{
    lemma_signature_name_round_trip(a);
    lemma_signature_name_round_trip(b);
}

/// The ordinal identifies a signature, and `ALL` lists each signature at
/// its ordinal.
pub proof fn lemma_signature_all_lists_each_once(signature: RegressionSignature)
    ensures
        signature.spec_ordinal() < 9,
        RegressionSignature::ALL@[signature.spec_ordinal() as int] == signature,
        forall|other: RegressionSignature| other.spec_ordinal() == signature.spec_ordinal() ==> other == signature,
{
}

/// The signature at position `k` of `ALL` has ordinal `k`.
pub proof fn lemma_signature_all_ordinals(k: int)
    requires
        0 <= k < 9,
    ensures
        RegressionSignature::ALL@[k].spec_ordinal() == k,
{
}

} // verus!
