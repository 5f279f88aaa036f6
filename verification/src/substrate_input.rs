use vstd::prelude::*;
use vstd::string::*;
use crate::error::BratchError;
use crate::text::{joined, owned};

verus! {

/// A revision reference (a commit id, branch or tag name).
#[derive(Debug, Clone, PartialEq, Eq)]
pub struct RevisionId(pub String);

/// A `baseline..candidate` revision range.
#[derive(Debug, Clone, PartialEq, Eq)]
pub struct RevisionIdPair {
    pub baseline: RevisionId,
    pub candidate: RevisionId,
}

/// `s` holds the separator `..` starting at index `i`.
pub open spec fn dot_pair_at(s: Seq<char>, i: int) -> bool {
    0 <= i && i + 1 < s.len() && s[i] == '.' && s[i + 1] == '.'
}

/// `s` holds `..` exactly once, starting at `k`, with text on both sides.
pub open spec fn splits_once_at(s: Seq<char>, k: int) -> bool {
    &&& 0 < k
    &&& k + 2 < s.len()
    &&& dot_pair_at(s, k)
    &&& forall|j: int| dot_pair_at(s, j) ==> j == k
}

/// `s` is a well-formed `baseline..candidate` range.
pub open spec fn is_pair_text(s: Seq<char>) -> bool {
    exists|k: int| splits_once_at(s, k)
}

impl RevisionIdPair {
    /// The text of the range: baseline, `..`, candidate.
    pub open spec fn spec_text(&self) -> Seq<char> {
        self.baseline.0@ + ".."@ + self.candidate.0@
    }

    /// Parses `baseline..candidate`. Both sides must be non-empty and the
    /// separator must occur exactly once (so `...` is refused too).
    pub fn parse(value: &str) -> (result: Result<RevisionIdPair, BratchError>)
        ensures
            match result {
                Ok(pair) => {
                    let k = pair.baseline.0@.len() as int;
                    &&& splits_once_at(value@, k)
                    &&& pair.baseline.0@ == value@.take(k)
                    &&& pair.candidate.0@ == value@.skip(k + 2)
                },
                Err(e) => {
                    &&& !is_pair_text(value@)
                    &&& e matches BratchError::RevisionIdPairMalformed(m) && m@ == value@
                },
            },
    {
        let n = value.unicode_len();
        let ghost s = value@;
        let mut first: Option<usize> = None;
        let mut i: usize = 0;
        while i < n && n - i >= 2
            invariant
                n == s.len(),
                s == value@,
                i <= n,
                match first {
                    Some(k) => {
                        &&& k < i
                        &&& dot_pair_at(s, k as int)
                        &&& forall|j: int| 0 <= j < i && dot_pair_at(s, j) ==> j == k
                    },
                    None => forall|j: int| 0 <= j < i ==> !dot_pair_at(s, j),
                },
            decreases n - i,
        {
            if value.get_char(i) == '.' && value.get_char(i + 1) == '.' {
                match first {
                    Some(k) => {
                        assert(dot_pair_at(s, i as int));
                        assert forall|x: int| !splits_once_at(s, x) by {
                            if splits_once_at(s, x) {
                                assert(k as int == x);
                                assert(i as int == x);
                            }
                        }
                        return Err(BratchError::RevisionIdPairMalformed(owned(value)));
                    },
                    None => {
                        first = Some(i);
                    },
                }
            }
            i = i + 1;
        }
        assert forall|j: int| dot_pair_at(s, j) implies (j < i) by {}
        match first {
            Some(k) => {
                if k > 0 && k + 2 < n {
                    let baseline = value.substring_char(0, k).to_owned();
                    let candidate = value.substring_char(k + 2, n).to_owned();
                    assert(baseline@ =~= s.take(k as int));
                    assert(candidate@ =~= s.skip(k + 2));
                    Ok(RevisionIdPair { baseline: RevisionId(baseline), candidate: RevisionId(candidate) })
                } else {
                    assert forall|x: int| !splits_once_at(s, x) by {
                        if splits_once_at(s, x) {
                            assert(x == k as int);
                        }
                    }
                    Err(BratchError::RevisionIdPairMalformed(owned(value)))
                }
            },
            None => {
                assert forall|x: int| !splits_once_at(s, x) by {
                    if splits_once_at(s, x) {
                        assert(dot_pair_at(s, x));
                    }
                }
                Err(BratchError::RevisionIdPairMalformed(owned(value)))
            },
        }
    }

    /// The text of the range: baseline, `..`, candidate.
    pub fn to_text(&self) -> (text: String)
        ensures
            text@ == self.spec_text(),
    {
        let head = joined(self.baseline.0.as_str(), "..");
        head.concat(self.candidate.0.as_str())
    }
}

/// Where the comparison input comes from: an optional diff path and an
/// optional history reference.
#[derive(Debug, Clone, PartialEq, Eq)]
pub struct SubstrateInput {
    pub diff: Option<String>,
    pub history: Option<String>,
}

/// `o` holds a string, and that string is empty.
pub open spec fn is_empty_given(o: Option<String>) -> bool {
    o matches Some(t) && t@.len() == 0
}

fn given_and_empty(o: &Option<String>) -> (r: bool)
    ensures
        r == is_empty_given(*o),
{
    match o {
        Some(t) => t.as_str().is_empty(),
        None => false,
    }
}

impl SubstrateInput {
    /// Accepts any combination of present and absent inputs, but refuses a
    /// diff path or history reference that is given and empty; the diff
    /// path is checked first.
    pub fn new(diff: Option<String>, history: Option<String>) -> (result: Result<SubstrateInput, BratchError>)
        ensures
            match result {
                Ok(input) => {
                    &&& !is_empty_given(diff)
                    &&& !is_empty_given(history)
                    &&& input.diff == diff
                    &&& input.history == history
                },
                Err(BratchError::DiffSliceInvalid(m)) => {
                    &&& is_empty_given(diff)
                    &&& m@ == "diff path must not be empty"@
                },
                Err(BratchError::HistoryRefInvalid(m)) => {
                    &&& !is_empty_given(diff)
                    &&& is_empty_given(history)
                    &&& m@ == "history ref must not be empty"@
                },
                Err(_) => false,
            },
    {
        if given_and_empty(&diff) {
            return Err(BratchError::DiffSliceInvalid(owned("diff path must not be empty")));
        }
        if given_and_empty(&history) {
            return Err(BratchError::HistoryRefInvalid(owned("history ref must not be empty")));
        }
        Ok(SubstrateInput { diff, history })
    }
}

/// The text of a range read back by `parse` is the text it was read from.
pub proof fn lemma_pair_text_round_trip(s: Seq<char>, k: int)
    requires
        splits_once_at(s, k),
    ensures
        s.take(k) + ".."@ + s.skip(k + 2) == s,
{
    reveal_strlit("..");
    assert(s.take(k) + ".."@ + s.skip(k + 2) =~= s);
}

/// Two non-empty references that contain no `.` at all always form a range
/// that `parse` splits back into the same two references.
pub proof fn lemma_pair_parts_round_trip(b: Seq<char>, c: Seq<char>)
    requires
        b.len() > 0,
        c.len() > 0,
        forall|i: int| 0 <= i < b.len() ==> b[i] != '.',
        forall|i: int| 0 <= i < c.len() ==> c[i] != '.',
    ensures
        splits_once_at(b + ".."@ + c, b.len() as int),
        (b + ".."@ + c).take(b.len() as int) == b,
        (b + ".."@ + c).skip(b.len() as int + 2) == c,
{
    reveal_strlit("..");
    let s = b + ".."@ + c;
    let k = b.len() as int;
    assert(s[k] == '.' && s[k + 1] == '.');
    assert forall|j: int| dot_pair_at(s, j) implies j == k by {
        if j < k {
            assert(s[j] == b[j]);
        } else if j > k {
            assert(s[j + 1] == c[j + 1 - k - 2]);
        }
    }
    assert(s.take(k) =~= b);
    assert(s.skip(k + 2) =~= c);
}

impl std::str::FromStr for RevisionIdPair {
    type Err = BratchError;

    fn from_str(value: &str) -> (result: Result<RevisionIdPair, BratchError>)
        ensures
            match result {
                Ok(pair) => {
                    let k = pair.baseline.0@.len() as int;
                    &&& splits_once_at(value@, k)
                    &&& pair.baseline.0@ == value@.take(k)
                    &&& pair.candidate.0@ == value@.skip(k + 2)
                },
                Err(e) => {
                    &&& !is_pair_text(value@)
                    &&& e matches BratchError::RevisionIdPairMalformed(m) && m@ == value@
                },
            },
    {
        RevisionIdPair::parse(value)
    }
}

/// A range is parsed exactly at its separator: for a non-empty baseline
/// and candidate in which `..` does not occur, the baseline not ending and
/// the candidate not starting with `.` (single dots anywhere else are
/// allowed), `baseline..candidate` is accepted, it splits nowhere else, and
/// the parts read back are the baseline and candidate.
pub proof fn lemma_pair_parse_at_separator(b: Seq<char>, c: Seq<char>)
    requires
        b.len() > 0,
        c.len() > 0,
        forall|i: int| 0 <= i < b.len() - 1 ==> !(b[i] == '.' && #[trigger] b[i + 1] == '.'),
        forall|i: int| 0 <= i < c.len() - 1 ==> !(c[i] == '.' && #[trigger] c[i + 1] == '.'),
        b[b.len() - 1] != '.',
        c[0] != '.',
    ensures
        is_pair_text(b + ".."@ + c),
        splits_once_at(b + ".."@ + c, b.len() as int),
        forall|k: int| splits_once_at(b + ".."@ + c, k) ==> k == b.len(),
        (b + ".."@ + c).take(b.len() as int) == b,
        (b + ".."@ + c).skip(b.len() as int + 2) == c,
{
    reveal_strlit("..");
    let s = b + ".."@ + c;
    let k = b.len() as int;
    assert(s[k] == '.' && s[k + 1] == '.');
    assert forall|j: int| dot_pair_at(s, j) implies j == k by {
        if j < k - 1 {
            assert(s[j] == b[j] && s[j + 1] == b[j + 1]);
            assert(!(b[j] == '.' && b[j + 1] == '.'));
        } else if j == k - 1 {
            assert(s[j] == b[k - 1]);
        } else if j == k + 1 {
            assert(s[j + 1] == c[0]);
        } else if j > k + 1 {
            let i = j - k - 2;
            assert(s[j] == c[i] && s[j + 1] == c[i + 1]);
            assert(!(c[i] == '.' && c[i + 1] == '.'));
        }
    }
    assert(splits_once_at(s, k));
    assert(s.take(k) =~= b);
    assert(s.skip(k + 2) =~= c);
}

/// Conversely, whatever range is accepted has parts of that shape: both
/// non-empty, neither holding `..`, the baseline not ending and the
/// candidate not starting with `.`.
pub proof fn lemma_pair_parts_shape(s: Seq<char>, k: int)
    requires
        splits_once_at(s, k),
    ensures
        s.take(k).len() > 0,
        s.skip(k + 2).len() > 0,
        forall|i: int| 0 <= i < k - 1 ==> !(s.take(k)[i] == '.' && #[trigger] s.take(k)[i + 1] == '.'),
        forall|i: int| 0 <= i < s.len() - k - 3 ==> !(s.skip(k + 2)[i] == '.' && #[trigger] s.skip(k + 2)[i + 1] == '.'),
        s.take(k)[k - 1] != '.',
        s.skip(k + 2)[0] != '.',
{
    assert forall|i: int| 0 <= i < k - 1 implies !(s.take(k)[i] == '.' && #[trigger] s.take(k)[i + 1] == '.') by {
        if s.take(k)[i] == '.' && s.take(k)[i + 1] == '.' {
            assert(dot_pair_at(s, i));
        }
    }
    assert forall|i: int| 0 <= i < s.len() - k - 3 implies !(s.skip(k + 2)[i] == '.' && #[trigger] s.skip(k + 2)[i + 1] == '.') by {
        if s.skip(k + 2)[i] == '.' && s.skip(k + 2)[i + 1] == '.' {
            assert(dot_pair_at(s, i + k + 2));
        }
    }
    if s[k - 1] == '.' {
        assert(dot_pair_at(s, k - 1));
    }
    if s[k + 2] == '.' {
        assert(dot_pair_at(s, k + 1));
    }
}

/// A pair is written as its baseline, `..`, and its candidate.
pub proof fn lemma_pair_text_is_baseline_dots_candidate(pair: RevisionIdPair)
    ensures
        pair.spec_text().len() == pair.baseline.0@.len() + 2 + pair.candidate.0@.len(),
        pair.spec_text().take(pair.baseline.0@.len() as int) == pair.baseline.0@,
        pair.spec_text()[pair.baseline.0@.len() as int] == '.',
        pair.spec_text()[pair.baseline.0@.len() as int + 1] == '.',
        pair.spec_text().skip(pair.baseline.0@.len() as int + 2) == pair.candidate.0@,
{
    reveal_strlit("..");
    assert(pair.spec_text().take(pair.baseline.0@.len() as int) =~= pair.baseline.0@);
    assert(pair.spec_text().skip(pair.baseline.0@.len() as int + 2) =~= pair.candidate.0@);
}

/// Writing back a pair that `parse` read from a text gives that text.
pub proof fn lemma_parsed_pair_writes_back(value: Seq<char>, pair: RevisionIdPair)
    requires
        splits_once_at(value, pair.baseline.0@.len() as int),
        pair.baseline.0@ == value.take(pair.baseline.0@.len() as int),
        pair.candidate.0@ == value.skip(pair.baseline.0@.len() as int + 2),
    ensures
        pair.spec_text() == value,
{
    let k = pair.baseline.0@.len() as int;
    lemma_pair_text_is_baseline_dots_candidate(pair);
    assert(pair.spec_text() =~= value);
}

} // verus!
