use vstd::prelude::*;

verus! {

/// Bit pattern of the double `1.0`.
pub const ONE_BITS: u64 = 0x3ff0_0000_0000_0000;

/// Bit pattern of the double `-0.0`.
pub const NEG_ZERO_BITS: u64 = 0x8000_0000_0000_0000;

/// A caller-supplied analysis job. The categorical selectors are owned by the
/// engine and passed through unchanged.
#[derive(Debug, Clone, PartialEq)]
pub struct Request {
    pub text: String,
    pub mode: String,
    pub strategy: String,
    pub level: String,
    pub enabled_categories: Vec<String>,
    pub allowlist: Vec<String>,
    pub semantic_mode: String,
}

/// One detected sensitive span. `confidence_bits` holds the IEEE-754 bit
/// pattern of the engine's confidence value, so that it travels losslessly.
#[derive(Debug, Clone, PartialEq)]
pub struct Finding {
    pub type_: String,
    pub start: usize,
    pub end: usize,
    pub confidence_bits: u64,
    pub risk: i32,
    pub replacement: String,
    pub replacement_preview: String,
    pub reason: String,
}

/// Aggregate summary of the findings; `by_category` maps a category tag to
/// its count, one entry per tag.
#[derive(Debug, Clone, PartialEq)]
pub struct Stats {
    pub total_findings: i32,
    pub by_category: Vec<(String, i32)>,
    pub high_risk_count: i32,
    pub medium_risk_count: i32,
    pub low_risk_count: i32,
}

/// The engine's result for one request.
#[derive(Debug, Clone, PartialEq)]
pub struct Response {
    pub sanitized_text: String,
    pub findings: Vec<Finding>,
    pub stats: Stats,
    pub risk_score: i32,
    pub version: String,
}

/// The double with bit pattern `bits` lies in `[0.0, 1.0]`: for non-negative
/// doubles the numeric order is the order of their bit patterns, and `-0.0`
/// equals `0.0`; no NaN qualifies.
pub open spec fn confidence_in_unit(bits: u64) -> bool {
    bits <= ONE_BITS || bits == NEG_ZERO_BITS
}

/// A finding's span lies inside a source text of `source_len` units and its
/// confidence lies in the unit interval.
pub open spec fn finding_well_formed(f: Finding, source_len: nat) -> bool {
    f.start <= f.end && f.end <= source_len && confidence_in_unit(f.confidence_bits)
}

/// Sum of the counts of the first `n` category entries.
pub open spec fn category_sum(s: Seq<(String, i32)>, n: nat) -> int
    decreases n,
{
    if n == 0 || n > s.len() {
        0
    } else {
        category_sum(s, (n - 1) as nat) + s[n - 1].1 as int
    }
}

/// Every category tag occurs once.
pub open spec fn categories_distinct(s: Seq<(String, i32)>) -> bool {
    forall|i: int, j: int| 0 <= i < j < s.len() ==> s[i].0@ != s[j].0@
}

/// The statistics agree with a sequence of `n` findings.
pub open spec fn stats_consistent(st: Stats, n: nat) -> bool {
    &&& st.total_findings as int == n
    &&& st.high_risk_count >= 0
    &&& st.medium_risk_count >= 0
    &&& st.low_risk_count >= 0
    &&& st.high_risk_count + st.medium_risk_count + st.low_risk_count == st.total_findings
    &&& forall|i: int| 0 <= i < st.by_category@.len() ==> st.by_category@[i].1 >= 0
    &&& categories_distinct(st.by_category@)
    &&& category_sum(st.by_category@, st.by_category@.len()) == st.total_findings
}

/// A response is well formed against a source text of `source_len` units:
/// every finding is, and the statistics agree with the findings.
pub open spec fn response_well_formed(r: Response, source_len: nat) -> bool {
    &&& forall|i: int| 0 <= i < r.findings@.len() ==> finding_well_formed(
        #[trigger] r.findings@[i],
        source_len,
    )
    &&& stats_consistent(r.stats, r.findings@.len())
}

/// Tests whether the double with bit pattern `bits` lies in `[0.0, 1.0]`.
pub fn confidence_is_valid(bits: u64) -> (b: bool)
    ensures
        b == confidence_in_unit(bits),
{
    bits <= ONE_BITS || bits == NEG_ZERO_BITS
}


/// Tests `finding_well_formed` on one finding.
pub fn finding_is_valid(f: &Finding, source_len: usize) -> (b: bool)
    ensures
        b == finding_well_formed(*f, source_len as nat),
{
    f.start <= f.end && f.end <= source_len && confidence_is_valid(f.confidence_bits)
}

/// Tests `categories_distinct`: compares every pair of tags.
fn category_tags_distinct(s: &Vec<(String, i32)>) -> (b: bool)
    ensures
        b == categories_distinct(s@),
{
    let n = s.len();
    let mut j: usize = 0;
    while j < n
        invariant
            n == s@.len(),
            j <= n,
            forall|a: int, c: int| 0 <= a < c < j ==> s@[a].0@ != s@[c].0@,
        decreases n - j,
    {
        let mut i: usize = 0;
        while i < j
            invariant
                n == s@.len(),
                i <= j < n,
                forall|a: int, c: int| 0 <= a < c < j ==> s@[a].0@ != s@[c].0@,
                forall|a: int| 0 <= a < i ==> s@[a].0@ != s@[j as int].0@,
            decreases j - i,
        {
            if s[i].0 == s[j].0 {
                return false;
            }
            i = i + 1;
        }
        j = j + 1;
    }
    true
}

/// Tests `stats_consistent` against `n` findings.
pub fn stats_are_consistent(st: &Stats, n: usize) -> (b: bool)
    ensures
        b == stats_consistent(*st, n as nat),
{
    if st.total_findings < 0 || st.total_findings as usize != n || st.high_risk_count < 0 || st.medium_risk_count < 0
        || st.low_risk_count < 0 {
        return false;
    }
    let buckets: i64 = st.high_risk_count as i64 + st.medium_risk_count as i64
        + st.low_risk_count as i64;
    if buckets != st.total_findings as i64 {
        return false;
    }
    let cats = &st.by_category;
    let total: i64 = st.total_findings as i64;
    let mut sum: i64 = 0;
    let mut k: usize = 0;
    while k < cats.len()
        invariant
            0 <= sum <= total,
            total == st.total_findings,
            cats@ == st.by_category@,
            k <= cats@.len(),
            sum == category_sum(cats@, k as nat),
            forall|i: int| 0 <= i < k ==> cats@[i].1 >= 0,
        decreases cats@.len() - k,
    {
        let c = cats[k].1;
        if c < 0 {
            return false;
        }
        if c as i64 > total - sum {
            proof {
                lemma_category_sum_grows(cats@, (k + 1) as nat, cats@.len());
            }
            return false;
        }
        sum = sum + c as i64;
        k = k + 1;
    }
    sum == total && category_tags_distinct(cats)
}

/// The partial sums up to `m` and up to `n >= m` compare as the counts allow:
/// when every count before `n` is non-negative, the later sum is not smaller.
proof fn lemma_category_sum_grows(s: Seq<(String, i32)>, m: nat, n: nat)
    requires
        m <= n <= s.len(),
        forall|i: int| 0 <= i < m - 1 ==> s[i].1 >= 0,
    ensures
        n > 0 && (forall|i: int| 0 <= i < n ==> s[i].1 >= 0) ==> category_sum(s, m) <= category_sum(
            s,
            n,
        ),
    decreases n - m,
{
    if m < n {
        lemma_category_sum_grows(s, m, (n - 1) as nat);
    }
}

/// Tests `response_well_formed` against a source text of `source_len` units.
pub fn check_response(r: &Response, source_len: usize) -> (b: bool)
    ensures
        b == response_well_formed(*r, source_len as nat),
{
    let mut i: usize = 0;
    while i < r.findings.len()
        invariant
            i <= r.findings@.len(),
            forall|k: int| 0 <= k < i ==> finding_well_formed(#[trigger] r.findings@[k], source_len as nat),
        decreases r.findings@.len() - i,
    {
        if !finding_is_valid(&r.findings[i], source_len) {
            return false;
        }
        i = i + 1;
    }
    stats_are_consistent(&r.stats, r.findings.len())
}

/// In a well-formed response the total equals the number of findings, and the
/// high, medium and low risk counts partition that total.
pub proof fn law_stats_match_findings(r: Response, source_len: nat)
    requires
        response_well_formed(r, source_len),
    ensures
        r.stats.total_findings as int == r.findings@.len(),
        r.stats.high_risk_count + r.stats.medium_risk_count + r.stats.low_risk_count
            == r.findings@.len(),
{
}

/// In a well-formed response every finding satisfies
/// `0 <= start <= end <= source_len` and has a confidence in `[0.0, 1.0]`.
pub proof fn law_findings_in_bounds(r: Response, source_len: nat, i: int)
    requires
        response_well_formed(r, source_len),
        0 <= i < r.findings@.len(),
    ensures
        0 <= r.findings@[i].start <= r.findings@[i].end <= source_len,
        r.findings@[i].confidence_bits <= ONE_BITS || r.findings@[i].confidence_bits
            == NEG_ZERO_BITS,
{
}

} // verus!
