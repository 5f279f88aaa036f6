use bratch::{RegressionSignature, RevisionIdPair, VerdictClass};
use std::str::FromStr;

#[test]
fn library_reexports_public_contract_types() {
    assert_eq!(9, RegressionSignature::ALL.len());
    assert_eq!(3, VerdictClass::ALL.len());
    let _ = RevisionIdPair::from_str("a..b").expect("RevisionIdPair is accessible");
}
