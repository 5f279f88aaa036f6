use vstd::prelude::*;
use std::collections::HashMap;
use crate::error::BratchError;
use vstd::set_lib::{lemma_int_range, set_int_range};
use crate::taxonomy::{
    lemma_signature_all_lists_each_once, lemma_signature_all_ordinals, lemma_signature_name_round_trip,
    lemma_signature_parse_accepts_only_names, RegressionSignature,
};
use crate::text::joined;

verus! {

/// The text of a prompt directive handed back for a regression signature.
#[derive(Debug)]
pub struct DirectiveString(String);

impl View for DirectiveString {
    type V = Seq<char>;

    closed spec fn view(&self) -> Seq<char> {
        self.0@
    }
}

impl DirectiveString {
    pub fn new(text: String) -> (directive: DirectiveString)
        ensures
            directive@ == text@,
    {
        DirectiveString(text)
    }

    pub fn as_str(&self) -> (text: &str)
        ensures
            text@ == self@,
    {
        self.0.as_str()
    }

    /// A copy of the directive.
    pub fn duplicate(&self) -> (copy: DirectiveString)
        ensures
            copy@ == self@,
    {
        DirectiveString(self.0.clone())
    }
}

/// One entry of a corpus file: a signature name and its directive.
#[derive(Debug, Clone)]
pub struct CorpusEntry {
    pub regression_signature: String,
    pub directive: String,
}

/// The signature an entry names, if its name is in the taxonomy.
pub open spec fn entry_signature(entry: CorpusEntry) -> Option<RegressionSignature> {
    RegressionSignature::spec_parse(entry.regression_signature@)
}

/// Entry `i` names a known signature that no earlier entry names.
pub open spec fn entry_accepted(entries: Seq<CorpusEntry>, i: int) -> bool {
    &&& entry_signature(entries[i]) matches Some(s)
    &&& forall|j: int| 0 <= j < i ==> entry_signature(#[trigger] entries[j]) != Some(s)
}

/// Every entry names a known signature, and no two entries name the same one.
pub open spec fn entries_accepted(entries: Seq<CorpusEntry>) -> bool {
    forall|i: int| 0 <= i < entries.len() ==> entry_accepted(entries, i)
}

/// Entry `i` is the first entry that is refused.
pub open spec fn first_refused(entries: Seq<CorpusEntry>, i: int) -> bool {
    &&& 0 <= i < entries.len()
    &&& !entry_accepted(entries, i)
    &&& forall|j: int| 0 <= j < i ==> entry_accepted(entries, j)
}

/// Some entry names `signature`.
pub open spec fn covers(entries: Seq<CorpusEntry>, signature: RegressionSignature) -> bool {
    exists|i: int| 0 <= i < entries.len() && entry_signature(#[trigger] entries[i]) == Some(signature)
}

/// `signature` is the first signature, in declaration order, that no entry names.
pub open spec fn first_missing(entries: Seq<CorpusEntry>, signature: RegressionSignature) -> bool {
    &&& !covers(entries, signature)
    &&& forall|t: RegressionSignature| t.spec_ordinal() < signature.spec_ordinal() ==> covers(entries, t)
}

/// Why entry `i` is refused.
pub open spec fn refusal_message(entries: Seq<CorpusEntry>, i: int) -> Seq<char> {
    if entry_signature(entries[i]) is None {
        "unrecognised regression_signature in corpus: "@ + entries[i].regression_signature@
    } else {
        "duplicate regression_signature in corpus: "@ + entries[i].regression_signature@
    }
}

/// Why a corpus without an entry for `signature` is refused.
pub open spec fn missing_message(signature: RegressionSignature) -> Seq<char> {
    "corpus missing entry for regression_signature: "@ + signature.spec_name()
}

/// Every entry names a known signature, no signature is named twice, and
/// every signature is named: the corpora the index accepts.
pub open spec fn corpus_accepted(entries: Seq<CorpusEntry>) -> bool {
    &&& entries_accepted(entries)
    &&& forall|s: RegressionSignature| covers(entries, s)
}

/// The directive for each regression signature, as read from a corpus,
/// keyed by the signature's ordinal: an integer key, whose hashing and
/// equality vstd's map specification covers.
#[derive(Debug)]
pub struct RegressionSignatureCorpusIndex {
    by_signature: HashMap<usize, DirectiveString>,
}

impl RegressionSignatureCorpusIndex {
    #[verifier::type_invariant]
    spec fn holds_every_signature(self) -> bool {
        forall|o: usize| o < 9 ==> #[trigger] self.by_signature@.contains_key(o)
    }

    /// The directive indexed for `signature`.
    pub closed spec fn directive_of(&self, signature: RegressionSignature) -> Seq<char> {
        self.by_signature@[signature.spec_ordinal() as usize]@
    }

    /// Every entry's directive is the one indexed for the signature it names.
    pub open spec fn holds_entries(&self, entries: Seq<CorpusEntry>) -> bool {
        forall|i: int| 0 <= i < entries.len() ==>
            self.directive_of(entry_signature(#[trigger] entries[i])->0) == entries[i].directive@
    }

    /// Builds the index from corpus entries. Entries are read in order; the
    /// first entry whose name is outside the taxonomy or repeats an earlier
    /// entry's signature is refused. Then every signature must have an
    /// entry; the first one without, in declaration order, is refused.
    pub fn build_index(entries: Vec<CorpusEntry>) -> (result: Result<RegressionSignatureCorpusIndex, BratchError>)
        ensures
            result is Ok <==> corpus_accepted(entries@),
            match result {
                Ok(index) => index.holds_entries(entries@),
                Err(BratchError::CorpusLoad(m)) => {
                    ||| exists|i: int| first_refused(entries@, i) && m@ == refusal_message(entries@, i)
                    ||| {
                        &&& entries_accepted(entries@)
                        &&& exists|s: RegressionSignature| first_missing(entries@, s) && m@ == missing_message(s)
                    }
                },
                Err(_) => false,
            },
    {
        broadcast use vstd::std_specs::hash::group_hash_axioms;
        let ghost es = entries@;
        let mut by_signature: HashMap<usize, DirectiveString> = HashMap::new();
        let n = entries.len();
        for i in 0..n
            invariant
                n == es.len(),
                es == entries@,
                forall|j: int| 0 <= j < i ==> entry_accepted(es, j),
                forall|o: usize| #[trigger] by_signature@.contains_key(o) ==> o < 9,
                forall|s: RegressionSignature| #[trigger] by_signature@.contains_key(s.spec_ordinal() as usize)
                    <==> exists|j: int| 0 <= j < i && entry_signature(#[trigger] es[j]) == Some(s),
                forall|j: int| 0 <= j < i ==> by_signature@[entry_signature(#[trigger] es[j])->0.spec_ordinal() as usize]@
                    == es[j].directive@,
        {
            let entry = &entries[i];
            match RegressionSignature::parse(entry.regression_signature.as_str()) {
                Err(_) => {
                    assert(first_refused(es, i as int));
                    return Err(BratchError::CorpusLoad(joined(
                        "unrecognised regression_signature in corpus: ",
                        entry.regression_signature.as_str(),
                    )));
                },
                Ok(signature) => {
                    let o = signature.ordinal();
                    proof {
                        lemma_signature_all_lists_each_once(signature);
                    }
                    assert(o == signature.spec_ordinal() as usize);
                    if by_signature.contains_key(&o) {
                        assert(by_signature@.contains_key(signature.spec_ordinal() as usize));
                        let ghost j = choose|j: int| 0 <= j < i && entry_signature(#[trigger] es[j]) == Some(signature);
                        assert(!entry_accepted(es, i as int)) by {
                            assert(entry_signature(es[j]) == Some(signature));
                        }
                        assert(first_refused(es, i as int));
                        return Err(BratchError::CorpusLoad(joined(
                            "duplicate regression_signature in corpus: ",
                            entry.regression_signature.as_str(),
                        )));
                    }
                    assert(!by_signature@.contains_key(signature.spec_ordinal() as usize));
                    assert forall|j: int| 0 <= j < i implies entry_signature(#[trigger] es[j])->0 != signature by {
                        assert(entry_accepted(es, j));
                        if entry_signature(es[j])->0 == signature {
                            assert(exists|jj: int| 0 <= jj < i && entry_signature(#[trigger] es[jj]) == Some(signature));
                        }
                    }
                    let ghost before = by_signature@;
                    by_signature.insert(o, DirectiveString::new(entry.directive.clone()));
                    assert forall|j: int| 0 <= j < i + 1 implies by_signature@[entry_signature(#[trigger] es[j])->0.spec_ordinal() as usize]@
                        == es[j].directive@ by {
                        if j < i {
                            let t = entry_signature(es[j])->0;
                            lemma_signature_all_lists_each_once(t);
                            assert(t.spec_ordinal() != signature.spec_ordinal());
                        }
                    }
                    assert forall|s: RegressionSignature| #[trigger] by_signature@.contains_key(s.spec_ordinal() as usize)
                        <==> exists|j: int| 0 <= j < i + 1 && entry_signature(#[trigger] es[j]) == Some(s) by {
                        lemma_signature_all_lists_each_once(s);
                        if s != signature {
                            assert(s.spec_ordinal() != signature.spec_ordinal());
                        } else {
                            assert(entry_signature(es[i as int]) == Some(s));
                        }
                    }
                },
            }
        }
        let mut o: usize = 0;
        while o < 9
            invariant
                o <= 9,
                n == es.len(),
                es == entries@,
                entries_accepted(es),
                forall|s: RegressionSignature| #[trigger] by_signature@.contains_key(s.spec_ordinal() as usize)
                    <==> covers(es, s),
                forall|p: usize| p < o ==> #[trigger] by_signature@.contains_key(p),
            decreases 9 - o,
        {
            let signature = RegressionSignature::from_ordinal(o);
            proof {
                lemma_signature_all_lists_each_once(signature);
            }
            assert(o == signature.spec_ordinal() as usize);
            if !by_signature.contains_key(&o) {
                assert(!by_signature@.contains_key(signature.spec_ordinal() as usize));
                let message = joined(
                    "corpus missing entry for regression_signature: ",
                    signature.stable_name(),
                );
                assert forall|t: RegressionSignature| t.spec_ordinal() < signature.spec_ordinal()
                    implies covers(es, t) by {
                    assert(by_signature@.contains_key(t.spec_ordinal() as usize));
                }
                assert(first_missing(es, signature) && message@ == missing_message(signature));
                return Err(BratchError::CorpusLoad(message));
            }
            o = o + 1;
        }
        assert forall|s: RegressionSignature| covers(es, s) by {
            lemma_signature_all_lists_each_once(s);
            assert(by_signature@.contains_key(s.spec_ordinal() as usize));
        }
        let index = RegressionSignatureCorpusIndex { by_signature };
        Ok(index)
    }

    /// The directive indexed for `signature`; every signature has one.
    pub fn resolve(&self, signature: RegressionSignature) -> (directive: &DirectiveString)
        ensures
            directive@ == self.directive_of(signature),
    {
        broadcast use vstd::std_specs::hash::group_hash_axioms;
        proof {
            use_type_invariant(self);
        }
        let o = signature.ordinal();
        assert(self.by_signature@.contains_key(o));
        self.by_signature.get(&o).unwrap()
    }
}

/// A corpus the index accepts holds exactly one entry per signature, so
/// exactly as many entries as the taxonomy has signatures.
pub proof fn lemma_accepted_corpus_has_one_entry_per_signature(entries: Seq<CorpusEntry>)
    requires
        entries_accepted(entries),
        forall|s: RegressionSignature| covers(entries, s),
    ensures
        entries.len() == 9,
{
    let ordinals = Seq::new(entries.len(), |i: int| entry_signature(entries[i])->0.spec_ordinal() as int);
    assert forall|i: int, j: int| 0 <= i < ordinals.len() && 0 <= j < ordinals.len() && i != j
        implies ordinals[i] != ordinals[j] by {
        let (lo, hi) = if i < j { (i, j) } else { (j, i) };
        assert(entry_accepted(entries, lo));
        assert(entry_accepted(entries, hi));
        let a = entry_signature(entries[lo])->0;
        let b = entry_signature(entries[hi])->0;
        lemma_signature_all_lists_each_once(a);
        lemma_signature_all_lists_each_once(b);
        assert(entry_signature(entries[lo]) != Some(b));
    }
    assert(ordinals.no_duplicates());
    ordinals.unique_seq_to_set();
    assert forall|k: int| #[trigger] ordinals.to_set().contains(k) <==> set_int_range(0, 9).contains(k) by {
        if ordinals.to_set().contains(k) {
            let i = choose|i: int| 0 <= i < ordinals.len() && ordinals[i] == k;
            assert(entry_accepted(entries, i));
            lemma_signature_all_lists_each_once(entry_signature(entries[i])->0);
        }
        if 0 <= k < 9 {
            let s = RegressionSignature::ALL@[k];
            lemma_signature_all_ordinals(k);
            assert(covers(entries, s));
            let i = choose|i: int| 0 <= i < entries.len() && entry_signature(#[trigger] entries[i]) == Some(s);
            assert(ordinals[i] == k);
        }
    }
    assert(ordinals.to_set() =~= set_int_range(0, 9));
    lemma_int_range(0, 9);
}

/// Acceptance survives reordering the entries: an accepted corpus, read in
/// any other order, is accepted too.
proof fn lemma_acceptance_survives_reordering(a: Seq<CorpusEntry>, b: Seq<CorpusEntry>)
    requires
        a.to_multiset() == b.to_multiset(),
        corpus_accepted(a),
    ensures
        corpus_accepted(b),
{
    a.to_multiset_ensures();
    b.to_multiset_ensures();
    lemma_accepted_corpus_has_one_entry_per_signature(a);
    assert(b.len() == 9);
    assert forall|j: int| 0 <= j < b.len() implies #[trigger] entry_signature(b[j]) is Some by {
        assert(b.contains(b[j]));
        assert(b.to_multiset().count(b[j]) > 0);
        assert(a.to_multiset().count(b[j]) > 0);
        assert(a.contains(b[j]));
        let i = choose|i: int| 0 <= i < a.len() && a[i] == b[j];
        assert(entry_accepted(a, i));
    }
    assert forall|s: RegressionSignature| covers(b, s) by {
        assert(covers(a, s));
        let i = choose|i: int| 0 <= i < a.len() && entry_signature(#[trigger] a[i]) == Some(s);
        assert(a.contains(a[i]));
        assert(a.to_multiset().count(a[i]) > 0);
        assert(b.to_multiset().count(a[i]) > 0);
        assert(b.contains(a[i]));
        let j = choose|j: int| 0 <= j < b.len() && b[j] == a[i];
        assert(entry_signature(b[j]) == Some(s));
    }
    let ordinals = Seq::new(b.len(), |j: int| entry_signature(b[j])->0.spec_ordinal() as int);
    assert forall|k: int| #[trigger] ordinals.to_set().contains(k) <==> set_int_range(0, 9).contains(k) by {
        if ordinals.to_set().contains(k) {
            let j = choose|j: int| 0 <= j < ordinals.len() && ordinals[j] == k;
            assert(entry_signature(b[j]) is Some);
            lemma_signature_all_lists_each_once(entry_signature(b[j])->0);
        }
        if 0 <= k < 9 {
            let s = RegressionSignature::ALL@[k];
            lemma_signature_all_ordinals(k);
            assert(covers(b, s));
            let j = choose|j: int| 0 <= j < b.len() && entry_signature(#[trigger] b[j]) == Some(s);
            assert(ordinals[j] == k);
            assert(ordinals.contains(k));
        }
    }
    assert(ordinals.to_set() =~= set_int_range(0, 9));
    lemma_int_range(0, 9);
    ordinals.lemma_no_dup_set_cardinality();
    assert forall|i: int| 0 <= i < b.len() implies entry_accepted(b, i) by {
        assert(entry_signature(b[i]) is Some);
        assert forall|j: int| 0 <= j < i implies entry_signature(#[trigger] b[j]) != entry_signature(b[i]) by {
            assert(entry_signature(b[j]) is Some);
            if entry_signature(b[j]) == entry_signature(b[i]) {
                assert(ordinals[j] == ordinals[i]);
            }
        }
    }
}

/// Reordering the entries of a corpus changes neither whether the index
/// accepts it nor the directive indexed for any signature.
pub proof fn lemma_index_ignores_entry_order(
    a: Seq<CorpusEntry>,
    b: Seq<CorpusEntry>,
    index_a: RegressionSignatureCorpusIndex,
    index_b: RegressionSignatureCorpusIndex,
)
    requires
        a.to_multiset() == b.to_multiset(),
    ensures
        corpus_accepted(a) <==> corpus_accepted(b),
        corpus_accepted(a) && index_a.holds_entries(a) && index_b.holds_entries(b) ==>
            forall|s: RegressionSignature| index_a.directive_of(s) == index_b.directive_of(s),
{
    if corpus_accepted(a) {
        lemma_acceptance_survives_reordering(a, b);
    }
    if corpus_accepted(b) {
        lemma_acceptance_survives_reordering(b, a);
    }
    a.to_multiset_ensures();
    b.to_multiset_ensures();
    if corpus_accepted(a) && index_a.holds_entries(a) && index_b.holds_entries(b) {
        assert forall|s: RegressionSignature| index_a.directive_of(s) == index_b.directive_of(s) by {
            assert(covers(a, s));
            let i = choose|i: int| 0 <= i < a.len() && entry_signature(#[trigger] a[i]) == Some(s);
            assert(a.contains(a[i]));
            assert(a.to_multiset().count(a[i]) > 0);
            assert(b.to_multiset().count(a[i]) > 0);
            assert(b.contains(a[i]));
            let j = choose|j: int| 0 <= j < b.len() && b[j] == a[i];
            assert(entry_signature(b[j]) == Some(s));
        }
    }
}

/// The index accepts a corpus exactly when every entry's name is a
/// published signature name, no two entries name the same signature, and
/// every signature is named. Nothing else about an entry, its directive
/// text included, bears on acceptance.
pub proof fn lemma_acceptance_is_by_names(entries: Seq<CorpusEntry>)
    ensures
        corpus_accepted(entries) <==> {
            &&& forall|i: int| 0 <= i < entries.len()
                ==> (#[trigger] RegressionSignature::spec_parse(entries[i].regression_signature@)) is Some
            &&& forall|i: int, j: int| 0 <= i < entries.len() && 0 <= j < entries.len() && i != j
                ==> RegressionSignature::spec_parse(#[trigger] entries[i].regression_signature@)
                    != RegressionSignature::spec_parse(#[trigger] entries[j].regression_signature@)
            &&& forall|s: RegressionSignature| exists|i: int| 0 <= i < entries.len()
                && entries[i].regression_signature@ == #[trigger] s.spec_name()
        },
{
    let known = forall|i: int| 0 <= i < entries.len()
        ==> (#[trigger] RegressionSignature::spec_parse(entries[i].regression_signature@)) is Some;
    let distinct = forall|i: int, j: int| 0 <= i < entries.len() && 0 <= j < entries.len() && i != j
        ==> RegressionSignature::spec_parse(#[trigger] entries[i].regression_signature@)
            != RegressionSignature::spec_parse(#[trigger] entries[j].regression_signature@);
    if entries_accepted(entries) {
        assert forall|i: int| 0 <= i < entries.len()
            implies (#[trigger] RegressionSignature::spec_parse(entries[i].regression_signature@)) is Some by {
            assert(entry_accepted(entries, i));
        }
        assert forall|i: int, j: int| 0 <= i < entries.len() && 0 <= j < entries.len() && i != j
            implies RegressionSignature::spec_parse(#[trigger] entries[i].regression_signature@)
                != RegressionSignature::spec_parse(#[trigger] entries[j].regression_signature@) by {
            if i < j {
                assert(entry_accepted(entries, j));
                assert(entry_signature(entries[i]) != entry_signature(entries[j]));
            } else {
                assert(entry_accepted(entries, i));
                assert(entry_signature(entries[j]) != entry_signature(entries[i]));
            }
        }
    }
    if known && distinct {
        assert forall|i: int| 0 <= i < entries.len() implies entry_accepted(entries, i) by {
            assert(RegressionSignature::spec_parse(entries[i].regression_signature@) is Some);
            assert forall|j: int| 0 <= j < i implies entry_signature(#[trigger] entries[j])
                != entry_signature(entries[i]) by {
                assert(RegressionSignature::spec_parse(entries[j].regression_signature@)
                    != RegressionSignature::spec_parse(entries[i].regression_signature@));
            }
        }
    }
    assert forall|s: RegressionSignature| covers(entries, s) <==> exists|i: int| 0 <= i < entries.len()
        && entries[i].regression_signature@ == #[trigger] s.spec_name() by {
        lemma_signature_name_round_trip(s);
        if covers(entries, s) {
            let i = choose|i: int| 0 <= i < entries.len() && entry_signature(#[trigger] entries[i]) == Some(s);
            lemma_signature_parse_accepts_only_names(entries[i].regression_signature@);
        }
        if exists|i: int| 0 <= i < entries.len() && entries[i].regression_signature@ == s.spec_name() {
            let i = choose|i: int| 0 <= i < entries.len() && entries[i].regression_signature@ == s.spec_name();
            assert(entry_signature(entries[i]) == Some(s));
        }
    }
    let covered = forall|s: RegressionSignature| exists|i: int| 0 <= i < entries.len()
        && entries[i].regression_signature@ == #[trigger] s.spec_name();
    assert(entries_accepted(entries) <==> known && distinct);
    if forall|s: RegressionSignature| covers(entries, s) {
        assert forall|s: RegressionSignature| exists|i: int| 0 <= i < entries.len()
            && entries[i].regression_signature@ == #[trigger] s.spec_name() by {
            assert(covers(entries, s));
        }
    }
    if covered {
        assert forall|s: RegressionSignature| covers(entries, s) by {
            assert(exists|i: int| 0 <= i < entries.len() && entries[i].regression_signature@ == s.spec_name());
        }
    }
}

/// Changing the directives of a corpus, and nothing else, does not change
/// whether the index accepts it.
pub proof fn lemma_acceptance_ignores_directives(a: Seq<CorpusEntry>, b: Seq<CorpusEntry>)
    requires
        a.len() == b.len(),
        forall|i: int| 0 <= i < a.len() ==> (#[trigger] a[i]).regression_signature@ == b[i].regression_signature@,
    ensures
        corpus_accepted(a) == corpus_accepted(b),
{
    lemma_acceptance_is_by_names(a);
    lemma_acceptance_is_by_names(b);
    assert forall|i: int| 0 <= i < a.len() implies #[trigger] RegressionSignature::spec_parse(a[i].regression_signature@)
        == RegressionSignature::spec_parse(b[i].regression_signature@) by {
        assert(a[i].regression_signature@ == b[i].regression_signature@);
    }
    if forall|s: RegressionSignature| exists|i: int| 0 <= i < a.len() && a[i].regression_signature@ == #[trigger] s.spec_name() {
        assert forall|s: RegressionSignature| exists|i: int| 0 <= i < b.len()
            && b[i].regression_signature@ == #[trigger] s.spec_name() by {
            let i = choose|i: int| 0 <= i < a.len() && a[i].regression_signature@ == s.spec_name();
            assert(b[i].regression_signature@ == s.spec_name());
        }
    }
    if forall|s: RegressionSignature| exists|i: int| 0 <= i < b.len() && b[i].regression_signature@ == #[trigger] s.spec_name() {
        assert forall|s: RegressionSignature| exists|i: int| 0 <= i < a.len()
            && a[i].regression_signature@ == #[trigger] s.spec_name() by {
            let i = choose|i: int| 0 <= i < b.len() && b[i].regression_signature@ == s.spec_name();
            assert(a[i].regression_signature@ == s.spec_name());
        }
    }
    let known_a = forall|i: int| 0 <= i < a.len()
        ==> (#[trigger] RegressionSignature::spec_parse(a[i].regression_signature@)) is Some;
    let known_b = forall|i: int| 0 <= i < b.len()
        ==> (#[trigger] RegressionSignature::spec_parse(b[i].regression_signature@)) is Some;
    if known_a {
        assert forall|i: int| 0 <= i < b.len()
            implies (#[trigger] RegressionSignature::spec_parse(b[i].regression_signature@)) is Some by {
            assert(RegressionSignature::spec_parse(a[i].regression_signature@) is Some);
        }
    }
    if known_b {
        assert forall|i: int| 0 <= i < a.len()
            implies (#[trigger] RegressionSignature::spec_parse(a[i].regression_signature@)) is Some by {
            assert(RegressionSignature::spec_parse(b[i].regression_signature@) is Some);
        }
    }
    let distinct_a = forall|i: int, j: int| 0 <= i < a.len() && 0 <= j < a.len() && i != j
        ==> RegressionSignature::spec_parse(#[trigger] a[i].regression_signature@)
            != RegressionSignature::spec_parse(#[trigger] a[j].regression_signature@);
    let distinct_b = forall|i: int, j: int| 0 <= i < b.len() && 0 <= j < b.len() && i != j
        ==> RegressionSignature::spec_parse(#[trigger] b[i].regression_signature@)
            != RegressionSignature::spec_parse(#[trigger] b[j].regression_signature@);
    if distinct_a {
        assert forall|i: int, j: int| 0 <= i < b.len() && 0 <= j < b.len() && i != j
            implies RegressionSignature::spec_parse(#[trigger] b[i].regression_signature@)
                != RegressionSignature::spec_parse(#[trigger] b[j].regression_signature@) by {
            assert(RegressionSignature::spec_parse(a[i].regression_signature@)
                != RegressionSignature::spec_parse(a[j].regression_signature@));
        }
    }
    if distinct_b {
        assert forall|i: int, j: int| 0 <= i < a.len() && 0 <= j < a.len() && i != j
            implies RegressionSignature::spec_parse(#[trigger] a[i].regression_signature@)
                != RegressionSignature::spec_parse(#[trigger] a[j].regression_signature@) by {
            assert(RegressionSignature::spec_parse(b[i].regression_signature@)
                != RegressionSignature::spec_parse(b[j].regression_signature@));
        }
    }
}

/// A refused entry is refused for its name alone: it is the first entry
/// whose name is not a published signature name ("unrecognised ...") or
/// that names a signature an earlier entry already named ("duplicate ...").
pub proof fn lemma_refusals_are_by_names(entries: Seq<CorpusEntry>, i: int)
    requires
        first_refused(entries, i),
    ensures
        RegressionSignature::spec_parse(entries[i].regression_signature@) is None
            ==> refusal_message(entries, i)
                == "unrecognised regression_signature in corpus: "@ + entries[i].regression_signature@,
        RegressionSignature::spec_parse(entries[i].regression_signature@) is Some ==> {
            &&& exists|j: int| 0 <= j < i
                && RegressionSignature::spec_parse(#[trigger] entries[j].regression_signature@)
                    == RegressionSignature::spec_parse(entries[i].regression_signature@)
            &&& refusal_message(entries, i)
                == "duplicate regression_signature in corpus: "@ + entries[i].regression_signature@
        },
{
}

} // verus!
