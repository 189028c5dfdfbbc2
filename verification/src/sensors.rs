//! Metric snapshot reading: the pure lookup and averaging logic behind the
//! instantaneous CPU frequency and package temperature readings.
//!
//! The host sensor subsystem is modelled as plain data: chips with names,
//! features with names, and sub-features carrying a kind and an optional
//! value. The package temperature is the value of the temperature-input
//! sub-feature of the first feature whose name contains `temp1` on the first
//! chip whose name contains `coretemp-isa-0000`; any missing step yields the
//! default of zero rather than an error.

use vstd::prelude::*;
use vstd::string::StrSliceExecFns;

verus! {

/// `needle` occurs as a contiguous run of characters starting at `i` in
/// `hay`.
pub open spec fn matches_at(needle: Seq<char>, hay: Seq<char>, i: int) -> bool {
    &&& 0 <= i
    &&& i + needle.len() <= hay.len()
    &&& hay.subrange(i, i + needle.len()) == needle
}

/// `needle` occurs somewhere in `hay`.
pub open spec fn is_substring(needle: Seq<char>, hay: Seq<char>) -> bool {
    exists|i: int| #[trigger] matches_at(needle, hay, i)
}

fn match_at(hay: &str, needle: &str, i: usize) -> (r: bool)
    requires
        i + needle@.len() <= hay@.len(),
    ensures
        r == matches_at(needle@, hay@, i as int),
{
    let n = needle.unicode_len();
    let h = hay.unicode_len();
    let mut j: usize = 0;
    while j < n
        invariant
            n == needle@.len(),
            h == hay@.len(),
            i + n <= hay@.len(),
            0 <= j <= n,
            forall|k: int| #![trigger needle@[k]] 0 <= k < j ==> hay@[i + k] == needle@[k],
        decreases n - j,
    {
        if hay.get_char(i + j) != needle.get_char(j) {
            proof {
                if matches_at(needle@, hay@, i as int) {
                    assert(hay@.subrange(i as int, i as int + needle@.len())[j as int] == needle@[j as int]);
                }
            }
            return false;
        }
        j += 1;
    }
    proof {
        assert(hay@.subrange(i as int, i as int + needle@.len()) =~= needle@);
    }
    true
}

/// Whether `hay` contains `needle` as a contiguous substring.
pub fn str_contains(hay: &str, needle: &str) -> (r: bool)
    ensures
        r == is_substring(needle@, hay@),
{
    let n = needle.unicode_len();
    let h = hay.unicode_len();
    if n > h {
        proof {
            assert forall|i: int| !matches_at(needle@, hay@, i) by {}
        }
        return false;
    }
    let mut i: usize = 0;
    loop
        invariant
            n == needle@.len(),
            h == hay@.len(),
            n <= h,
            0 <= i <= h - n,
            forall|k: int| 0 <= k < i ==> !#[trigger] matches_at(needle@, hay@, k),
        ensures
            forall|k: int| 0 <= k <= h - n ==> !#[trigger] matches_at(needle@, hay@, k),
        decreases h - n - i,
    {
        if match_at(hay, needle, i) {
            return true;
        }
        if i == h - n {
            break;
        }
        i += 1;
    }
    proof {
        assert forall|k: int| !matches_at(needle@, hay@, k) by {}
    }
    false
}

/// The first element of `s` satisfying `p`, if any.
pub open spec fn find_first<A>(s: Seq<A>, p: spec_fn(A) -> bool) -> Option<A>
    decreases s.len(),
{
    if s.len() == 0 {
        None
    } else if p(s[0]) {
        Some(s[0])
    } else {
        find_first(s.drop_first(), p)
    }
}

/// When no element satisfies `p`, the search comes up empty.
pub proof fn lemma_find_first_none<A>(s: Seq<A>, p: spec_fn(A) -> bool)
    requires
        forall|k: int| 0 <= k < s.len() ==> !p(#[trigger] s[k]),
    ensures
        find_first(s, p) is None,
    decreases s.len(),
{
    if s.len() > 0 {
        let t = s.drop_first();
        assert forall|k: int| 0 <= k < t.len() implies !p(#[trigger] t[k]) by {
            assert(t[k] == s[k + 1]);
        }
        lemma_find_first_none(t, p);
    }
}

/// When `s[i]` satisfies `p` and no earlier element does, the search finds
/// `s[i]`.
pub proof fn lemma_find_first_at<A>(s: Seq<A>, p: spec_fn(A) -> bool, i: int)
    requires
        0 <= i < s.len(),
        p(s[i]),
        forall|k: int| 0 <= k < i ==> !p(#[trigger] s[k]),
    ensures
        find_first(s, p) == Some(s[i]),
    decreases i,
{
    if i > 0 {
        let t = s.drop_first();
        assert forall|k: int| 0 <= k < i - 1 implies !p(#[trigger] t[k]) by {
            assert(t[k] == s[k + 1]);
        }
        assert(t[i - 1] == s[i]);
        lemma_find_first_at(t, p, i - 1);
    }
}

/// The kind of a sensor sub-feature; only the temperature input is of
/// interest here.
#[derive(Clone, Copy, PartialEq, Eq, Structural, Debug)]
pub enum SubFeatureKind {
    TemperatureInput,
    Other,
}

/// One sub-feature of a sensor feature: its kind and, when a reading could be
/// obtained, its value.
#[derive(Debug)]
pub struct SubFeature {
    pub kind: SubFeatureKind,
    pub value: Option<i64>,
}

/// One feature of a sensor chip, with its sub-features.
#[derive(Debug)]
pub struct SensorFeature {
    pub name: String,
    pub subfeatures: Vec<SubFeature>,
}

/// One enumerable sensor chip, with its features.
#[derive(Debug)]
pub struct SensorChip {
    pub name: String,
    pub features: Vec<SensorFeature>,
}

/// The substring identifying the package temperature chip.
pub open spec fn chip_pattern() -> Seq<char> {
    "coretemp-isa-0000"@
}

/// The substring identifying the package temperature feature.
pub open spec fn feature_pattern() -> Seq<char> {
    "temp1"@
}

/// The predicate selecting the package temperature chip by name.
pub open spec fn chip_pred() -> spec_fn(SensorChip) -> bool {
    |c: SensorChip| is_substring(chip_pattern(), c.name@)
}

/// The predicate selecting the package temperature feature by name.
pub open spec fn feature_pred() -> spec_fn(SensorFeature) -> bool {
    |f: SensorFeature| is_substring(feature_pattern(), f.name@)
}

/// The predicate selecting the temperature-input sub-feature.
pub open spec fn temp_input_pred() -> spec_fn(SubFeature) -> bool {
    |sf: SubFeature| sf.kind == SubFeatureKind::TemperatureInput
}

/// The package temperature a snapshot of the sensor subsystem yields: the
/// value of the temperature input of the first `temp1` feature of the first
/// `coretemp-isa-0000` chip, or zero at any missing step.
pub open spec fn package_temp_spec(chips: Seq<SensorChip>) -> i64 {
    match find_first(chips, chip_pred()) {
        None => 0,
        Some(c) => match find_first(c.features@, feature_pred()) {
            None => 0,
            Some(f) => match find_first(f.subfeatures@, temp_input_pred()) {
                None => 0,
                Some(sf) => match sf.value {
                    None => 0,
                    Some(v) => v,
                },
            },
        },
    }
}

fn find_chip_index(chips: &Vec<SensorChip>) -> (r: Option<usize>)
    ensures
        match r {
            Some(i) => i < chips@.len() && find_first(chips@, chip_pred()) == Some(chips@[i as int]),
            None => find_first(chips@, chip_pred()) is None,
        },
{
    let mut i: usize = 0;
    while i < chips.len()
        invariant
            0 <= i <= chips@.len(),
            forall|k: int| 0 <= k < i ==> !chip_pred()(#[trigger] chips@[k]),
        decreases chips@.len() - i,
    {
        if str_contains(chips[i].name.as_str(), "coretemp-isa-0000") {
            proof {
                assert(chip_pred()(chips@[i as int]));
                lemma_find_first_at(chips@, chip_pred(), i as int);
            }
            return Some(i);
        }
        proof {
            assert(!chip_pred()(chips@[i as int]));
        }
        i += 1;
    }
    proof {
        lemma_find_first_none(chips@, chip_pred());
    }
    None
}

fn find_feature_index(features: &Vec<SensorFeature>) -> (r: Option<usize>)
    ensures
        match r {
            Some(i) => i < features@.len() && find_first(features@, feature_pred()) == Some(
                features@[i as int],
            ),
            None => find_first(features@, feature_pred()) is None,
        },
{
    let mut i: usize = 0;
    while i < features.len()
        invariant
            0 <= i <= features@.len(),
            forall|k: int| 0 <= k < i ==> !feature_pred()(#[trigger] features@[k]),
        decreases features@.len() - i,
    {
        if str_contains(features[i].name.as_str(), "temp1") {
            proof {
                assert(feature_pred()(features@[i as int]));
                lemma_find_first_at(features@, feature_pred(), i as int);
            }
            return Some(i);
        }
        proof {
            assert(!feature_pred()(features@[i as int]));
        }
        i += 1;
    }
    proof {
        lemma_find_first_none(features@, feature_pred());
    }
    None
}

fn find_temp_input_index(subfeatures: &Vec<SubFeature>) -> (r: Option<usize>)
    ensures
        match r {
            Some(i) => i < subfeatures@.len() && find_first(subfeatures@, temp_input_pred()) == Some(
                subfeatures@[i as int],
            ),
            None => find_first(subfeatures@, temp_input_pred()) is None,
        },
{
    let mut i: usize = 0;
    while i < subfeatures.len()
        invariant
            0 <= i <= subfeatures@.len(),
            forall|k: int| 0 <= k < i ==> !temp_input_pred()(#[trigger] subfeatures@[k]),
        decreases subfeatures@.len() - i,
    {
        if subfeatures[i].kind == SubFeatureKind::TemperatureInput {
            proof {
                assert(temp_input_pred()(subfeatures@[i as int]));
                lemma_find_first_at(subfeatures@, temp_input_pred(), i as int);
            }
            return Some(i);
        }
        proof {
            assert(!temp_input_pred()(subfeatures@[i as int]));
        }
        i += 1;
    }
    proof {
        lemma_find_first_none(subfeatures@, temp_input_pred());
    }
    None
}

/// The package temperature of a sensor snapshot, defaulting to zero when the
/// expected chip, feature, sub-feature, or value is missing.
pub fn package_temp(chips: &Vec<SensorChip>) -> (t: i64)
    ensures
        t == package_temp_spec(chips@),
{
    match find_chip_index(chips) {
        None => 0,
        Some(ci) => {
            let chip = &chips[ci];
            match find_feature_index(&chip.features) {
                None => 0,
                Some(fi) => {
                    let feature = &chip.features[fi];
                    match find_temp_input_index(&feature.subfeatures) {
                        None => 0,
                        Some(si) => match feature.subfeatures[si].value {
                            None => 0,
                            Some(v) => v,
                        },
                    }
                },
            }
        },
    }
}

/// The total of a sequence of per-core frequencies.
pub open spec fn sum_spec(s: Seq<u64>) -> int
    decreases s.len(),
{
    if s.len() == 0 {
        0
    } else {
        sum_spec(s.drop_last()) + s[s.len() - 1]
    }
}

/// A prefix never sums to more than the whole sequence.
proof fn lemma_sum_prefix_le(s: Seq<u64>, i: int)
    requires
        0 <= i <= s.len(),
    ensures
        sum_spec(s.subrange(0, i)) <= sum_spec(s),
    decreases s.len() - i,
{
    if i < s.len() {
        assert(s.subrange(0, i + 1).drop_last() =~= s.subrange(0, i));
        assert(s.subrange(0, i + 1)[i] == s[i]);
        lemma_sum_prefix_le(s, i + 1);
    } else {
        assert(s.subrange(0, i) =~= s);
    }
}

/// The average CPU clock frequency: the integer quotient of the summed
/// per-core frequencies by the core count. An empty core list is a
/// precondition violation, and the summed frequencies must fit the machine
/// word.
pub fn average_frequency(freqs: &Vec<u64>) -> (avg: u64)
    requires
        freqs@.len() > 0,
        sum_spec(freqs@) <= u64::MAX,
    ensures
        avg as int == sum_spec(freqs@) / freqs@.len() as int,
{
    let mut total: u64 = 0;
    let mut i: usize = 0;
    while i < freqs.len()
        invariant
            0 <= i <= freqs@.len(),
            total == sum_spec(freqs@.subrange(0, i as int)),
            sum_spec(freqs@) <= u64::MAX,
        decreases freqs@.len() - i,
    {
        proof {
            assert(freqs@.subrange(0, i as int + 1).drop_last() =~= freqs@.subrange(0, i as int));
            assert(freqs@.subrange(0, i as int + 1)[i as int] == freqs@[i as int]);
            lemma_sum_prefix_le(freqs@, i as int + 1);
        }
        total = total + freqs[i];
        i += 1;
    }
    proof {
        assert(freqs@.subrange(0, i as int) =~= freqs@);
    }
    total / (freqs.len() as u64)
}

} // verus!
