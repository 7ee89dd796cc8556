//! Per-host tallies over a finished result tree: how many properties
//! succeeded and how many failed on each host, in the order the hosts were
//! first seen.

use vstd::prelude::*;

use crate::checks::SuiteModel;
use crate::engine::{
    check_skeleton_ok, skeleton_ok, CheckResultModel, CheckSuiteResult, PropertyResultModel,
    SuiteResultModel,
};
use crate::table::{
    key_index_from, lemma_lookup_at_key_index, spec_insert, spec_lookup, Table,
};

verus! {

/// Successes plus failures of one tally.
pub open spec fn pair_total(p: (u16, u16)) -> int {
    p.0 + p.1
}

/// The tallies after noting one more outcome for a host: the host's pair
/// starts at zero and the success or failure count grows by one.
pub open spec fn tally_note(
    acc: Seq<(Seq<char>, (u16, u16))>,
    host: Seq<char>,
    ok: bool,
) -> Seq<(Seq<char>, (u16, u16))> {
    let cur = match spec_lookup(acc, host) {
        Some(c) => c,
        None => (0u16, 0u16),
    };
    let next = if ok {
        (((cur.0 + 1) as u16), cur.1)
    } else {
        (cur.0, ((cur.1 + 1) as u16))
    };
    spec_insert(acc, host, next)
}

/// The tallies after the first `n` entries of one check's results.
pub open spec fn summary_entries_prefix(
    entries: Seq<PropertyResultModel>,
    n: int,
    acc: Seq<(Seq<char>, (u16, u16))>,
) -> Seq<(Seq<char>, (u16, u16))>
    decreases n,
{
    if n <= 0 {
        acc
    } else {
        let prev = summary_entries_prefix(entries, n - 1, acc);
        tally_note(prev, entries[n - 1].host, entries[n - 1].result is Ok)
    }
}

/// The tallies after the first `i` checks of a result tree.
pub open spec fn summary_prefix(rs: Seq<CheckResultModel>, i: int) -> Seq<
    (Seq<char>, (u16, u16)),
>
    decreases i,
{
    if i <= 0 {
        Seq::empty()
    } else {
        summary_entries_prefix(
            rs[i - 1].results,
            rs[i - 1].results.len() as int,
            summary_prefix(rs, i - 1),
        )
    }
}

/// The per-host tallies of a whole result tree.
pub open spec fn summary_of(r: SuiteResultModel) -> Seq<(Seq<char>, (u16, u16))> {
    summary_prefix(r.results, r.results.len() as int)
}

/// How many entries the first `i` checks of a result tree hold.
pub open spec fn total_entries(rs: Seq<CheckResultModel>, i: int) -> int
    decreases i,
{
    if i <= 0 {
        0
    } else {
        total_entries(rs, i - 1) + rs[i - 1].results.len()
    }
}

proof fn lemma_total_entries_monotone(rs: Seq<CheckResultModel>, a: int, b: int)
    requires
        0 <= a <= b,
    ensures
        total_entries(rs, a) <= total_entries(rs, b),
    decreases b - a,
{
    if a < b {
        lemma_total_entries_monotone(rs, a, b - 1);
    }
}

/// How many (property, host) pairs the first `i` checks of a suite have:
/// the sum of each check's property count times its host-group size.
pub open spec fn expected_total(suite: SuiteModel, i: int) -> int
    decreases i,
{
    if i <= 0 {
        0
    } else {
        expected_total(suite, i - 1) + suite.checks[i - 1].properties.len() * spec_lookup(
            suite.inventory,
            suite.checks[i - 1].inventory_name,
        ).unwrap().len()
    }
}

proof fn lemma_count_prefix(suite: SuiteModel, r: SuiteResultModel, i: int)
    requires
        skeleton_ok(suite, r),
        0 <= i <= r.results.len(),
    ensures
        total_entries(r.results, i) == expected_total(suite, i),
    decreases i,
{
    if i > 0 {
        lemma_count_prefix(suite, r, i - 1);
        assert(check_skeleton_ok(suite, suite.checks[i - 1], r.results[i - 1]));
    }
}

/// Law: a run records exactly one outcome per (property, host) pair — the
/// result tree's entry count is the sum, over all checks and properties,
/// of the size of the check's host group.
pub proof fn lemma_run_count_invariant(suite: SuiteModel, r: SuiteResultModel)
    requires
        skeleton_ok(suite, r),
    ensures
        total_entries(r.results, r.results.len() as int) == expected_total(
            suite,
            suite.checks.len() as int,
        ),
{
    lemma_count_prefix(suite, r, r.results.len() as int);
}

/// Noting one outcome keeps every tally at or under the number of
/// outcomes noted.
proof fn lemma_tally_note_bound(
    acc: Seq<(Seq<char>, (u16, u16))>,
    host: Seq<char>,
    ok: bool,
    b: int,
)
    requires
        b >= 0,
        forall|m: int| 0 <= m < acc.len() ==> pair_total(#[trigger] acc[m].1) <= b,
    ensures
        forall|m: int|
            0 <= m < tally_note(acc, host, ok).len() ==> pair_total(
                #[trigger] tally_note(acc, host, ok)[m].1,
            ) <= b + 1,
{
    lemma_lookup_at_key_index(acc, host, 0);
    let kidx = key_index_from(acc, host, 0);
    let noted = tally_note(acc, host, ok);
    assert forall|m: int| 0 <= m < noted.len() implies pair_total(noted[m].1) <= b + 1 by {
        if kidx == acc.len() {
            if m < acc.len() {
                assert(noted[m] == acc[m]);
            }
        } else {
            if m != kidx {
                assert(noted[m] == acc[m]);
            } else {
                assert(pair_total(acc[kidx].1) <= b);
            }
        }
    }
}

/// Whether a result tree is small enough for 16-bit tallies: at most
/// 65535 recorded outcomes.  Callers test this before asking for a
/// summary.
#[verifier::loop_isolation(false)]
pub fn summary_supported(check_suite_result: &CheckSuiteResult) -> (b: bool)
    ensures
        b == (total_entries(
            check_suite_result@.results,
            check_suite_result@.results.len() as int,
        ) <= 65535),
{
    let nc = check_suite_result.results.len();
    let ghost rs = check_suite_result@.results;
    let mut acc: usize = 0;
    let mut i: usize = 0;
    while i < nc
        invariant
            i <= nc,
            acc <= 65535,
            acc == total_entries(rs, i as int),
        decreases nc - i,
    {
        let len = check_suite_result.results[i].results.len();
        proof {
            assert(check_suite_result.results@[i as int]@ == rs[i as int]);
            assert(rs[i as int].results.len() == len);
        }
        if len > 65535 - acc {
            proof {
                lemma_total_entries_monotone(rs, i + 1 as int, rs.len() as int);
            }
            return false;
        }
        acc = acc + len;
        i += 1;
    }
    true
}

/// The per-host success and failure tallies of a result tree, a pair per
/// host in order of first appearance: `summary_of` made executable.  The
/// tallies are 16-bit, so the tree must hold at most 65535 entries.
#[verifier::loop_isolation(false)]
pub fn create_summary(check_suite_result: &CheckSuiteResult) -> (t: Table<(u16, u16)>)
    requires
        total_entries(
            check_suite_result@.results,
            check_suite_result@.results.len() as int,
        ) <= 65535,
    ensures
        t@ == summary_of(check_suite_result@),
{
    let mut t: Table<(u16, u16)> = Table::new();
    let nc = check_suite_result.results.len();
    let ghost rs = check_suite_result@.results;
    let mut i: usize = 0;
    proof {
        assert(t@ =~= summary_prefix(rs, 0));
    }
    while i < nc
        invariant
            i <= nc,
            t@ == summary_prefix(rs, i as int),
            forall|m: int|
                0 <= m < t@.len() ==> pair_total(#[trigger] t@[m].1) <= total_entries(
                    rs,
                    i as int,
                ),
        decreases nc - i,
    {
        let check_result = &check_suite_result.results[i];
        proof {
            assert(check_result@ == rs[i as int]);
        }
        let nn = check_result.results.len();
        let mut n: usize = 0;
        while n < nn
            invariant
                n <= nn,
                t@ == summary_entries_prefix(
                    rs[i as int].results,
                    n as int,
                    summary_prefix(rs, i as int),
                ),
                forall|m: int|
                    0 <= m < t@.len() ==> pair_total(#[trigger] t@[m].1) <= total_entries(
                        rs,
                        i as int,
                    ) + n,
            decreases nn - n,
        {
            let e = &check_result.results[n];
            proof {
                assert(e@ == rs[i as int].results[n as int]);
            }
            let ok = e.result.is_ok();
            let ghost pre = t@;
            let ghost bound = total_entries(rs, i as int) + n;
            proof {
                lemma_lookup_at_key_index(pre, e.host@, 0);
                lemma_total_entries_monotone(rs, 0, i as int);
                lemma_total_entries_monotone(rs, i + 1 as int, rs.len() as int);
                assert(total_entries(rs, i + 1 as int) == total_entries(rs, i as int) + rs[
                    i as int
                ].results.len());
                assert(bound + 1 <= 65535);
            }
            let cur: (u16, u16) = match t.get(e.host.as_str()) {
                Some(c) => *c,
                None => (0, 0),
            };
            let next: (u16, u16) = if ok {
                (cur.0 + 1, cur.1)
            } else {
                (cur.0, cur.1 + 1)
            };
            t.insert(e.host.clone(), next);
            proof {
                assert(t@ == tally_note(pre, e.host@, ok));
                assert(t@ == summary_entries_prefix(
                    rs[i as int].results,
                    n + 1 as int,
                    summary_prefix(rs, i as int),
                ));
                lemma_tally_note_bound(pre, e.host@, ok, bound);
            }
            n += 1;
        }
        i += 1;
    }
    proof {
        assert(t@ == summary_of(check_suite_result@));
    }
    t
}

} // verus!
