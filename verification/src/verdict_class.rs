use vstd::prelude::*;
use vstd::std_specs::convert::FromSpecImpl;
use crate::error::{BratchError, ExitCode};
use crate::text::{owned, str_eq};

verus! {

/// The tri-state verdict of a comparison.
#[derive(Debug, Clone, Copy, PartialEq, Eq, Structural, PartialOrd, Ord, Hash)]
pub enum VerdictClass {
    NoRegression,
    RegressionDetected,
    Malformed,
}

impl VerdictClass {
    /// Every verdict, in declaration order.
    pub const ALL: [VerdictClass; 3] = [
        VerdictClass::NoRegression,
        VerdictClass::RegressionDetected,
        VerdictClass::Malformed,
    ];

    /// The kebab-case name under which a verdict is published.
    pub open spec fn spec_name(self) -> Seq<char> {
        match self {
            VerdictClass::NoRegression => "no-regression"@,
            VerdictClass::RegressionDetected => "regression-detected"@,
            VerdictClass::Malformed => "malformed"@,
        }
    }

    /// The verdict published under `name`, if any.
    pub open spec fn spec_parse(name: Seq<char>) -> Option<VerdictClass> {
        if name == "no-regression"@ {
            Some(VerdictClass::NoRegression)
        } else if name == "regression-detected"@ {
            Some(VerdictClass::RegressionDetected)
        } else if name == "malformed"@ {
            Some(VerdictClass::Malformed)
        } else {
            None
        }
    }

    /// The exit code a verdict is reported with.
    pub open spec fn spec_exit_code(self) -> ExitCode {
        match self {
            VerdictClass::NoRegression => ExitCode::Success,
            VerdictClass::RegressionDetected => ExitCode::Finding,
            VerdictClass::Malformed => ExitCode::InternalError,
        }
    }

    pub fn stable_name(self) -> (name: &'static str)
        ensures
            name@ == self.spec_name(),
    {
        match self {
            VerdictClass::NoRegression => "no-regression",
            VerdictClass::RegressionDetected => "regression-detected",
            VerdictClass::Malformed => "malformed",
        }
    }

    /// Parses a published name; anything outside the closed set, including
    /// names with surrounding whitespace or another casing, is refused.
    pub fn parse(value: &str) -> (result: Result<VerdictClass, BratchError>)
        ensures
            match result {
                Ok(verdict) => VerdictClass::spec_parse(value@) == Some(verdict),
                Err(e) => {
                    &&& VerdictClass::spec_parse(value@) is None
                    &&& e matches BratchError::VerdictClassUnknown(m) && m@ == value@
                },
            },
    {
        if str_eq(value, "no-regression") {
            Ok(VerdictClass::NoRegression)
        } else if str_eq(value, "regression-detected") {
            Ok(VerdictClass::RegressionDetected)
        } else if str_eq(value, "malformed") {
            Ok(VerdictClass::Malformed)
        } else {
            Err(BratchError::VerdictClassUnknown(owned(value)))
        }
    }
}

impl std::str::FromStr for VerdictClass {
    type Err = BratchError;

    fn from_str(value: &str) -> (result: Result<VerdictClass, BratchError>)
        ensures
            match result {
                Ok(verdict) => VerdictClass::spec_parse(value@) == Some(verdict),
                Err(e) => {
                    &&& VerdictClass::spec_parse(value@) is None
                    &&& e matches BratchError::VerdictClassUnknown(m) && m@ == value@
                },
            },
    {
        VerdictClass::parse(value)
    }
}

impl From<VerdictClass> for ExitCode {
    fn from(value: VerdictClass) -> (code: ExitCode) {
        match value {
            VerdictClass::NoRegression => ExitCode::Success,
            VerdictClass::RegressionDetected => ExitCode::Finding,
            VerdictClass::Malformed => ExitCode::InternalError,
        }
    }
}

impl FromSpecImpl<VerdictClass> for ExitCode {
    open spec fn obeys_from_spec() -> bool {
        true
    }

    open spec fn from_spec(v: VerdictClass) -> ExitCode {
        v.spec_exit_code()
    }
}

/// Parsing the published name of any verdict gives that verdict back.
pub proof fn lemma_verdict_name_round_trip(verdict: VerdictClass)
    ensures
        VerdictClass::spec_parse(verdict.spec_name()) == Some(verdict),
{
    reveal_strlit("no-regression");
    reveal_strlit("regression-detected");
    reveal_strlit("malformed");
    match verdict {
        VerdictClass::NoRegression => {
        },
        VerdictClass::RegressionDetected => {
            assert("regression-detected"@.len() != "no-regression"@.len());
        },
        VerdictClass::Malformed => {
            assert("malformed"@.len() != "no-regression"@.len());
            assert("malformed"@.len() != "regression-detected"@.len());
        },
    }
}

/// Parsing accepts exactly the published names.
pub proof fn lemma_verdict_parse_accepts_only_names(name: Seq<char>)
    ensures
        VerdictClass::spec_parse(name) matches Some(verdict) ==> verdict.spec_name() == name,
{
}

/// Distinct verdicts have distinct published names.
pub proof fn lemma_verdict_names_distinct(a: VerdictClass, b: VerdictClass)
    ensures
        a.spec_name() == b.spec_name() ==> a == b,
{
    lemma_verdict_name_round_trip(a);
    lemma_verdict_name_round_trip(b);
}

/// `ALL` lists every verdict exactly once.
pub proof fn lemma_verdict_all_lists_each_once(verdict: VerdictClass)
    ensures
        exists|i: int| 0 <= i < 3 && VerdictClass::ALL@[i] == verdict,
        forall|i: int, j: int| 0 <= i < j < 3 ==> VerdictClass::ALL@[i] != VerdictClass::ALL@[j],
{
    match verdict {
        VerdictClass::NoRegression => assert(VerdictClass::ALL@[0] == verdict),
        VerdictClass::RegressionDetected => assert(VerdictClass::ALL@[1] == verdict),
        VerdictClass::Malformed => assert(VerdictClass::ALL@[2] == verdict),
    }
}

/// Exit codes of the verdicts: no regression exits 0, a detected
/// regression 1, and a malformed verdict 2.
pub proof fn lemma_verdict_exit_codes()
    ensures
        VerdictClass::NoRegression.spec_exit_code().spec_code() == 0,
        VerdictClass::RegressionDetected.spec_exit_code().spec_code() == 1,
        VerdictClass::Malformed.spec_exit_code().spec_code() == 2,
{
}

} // verus!
