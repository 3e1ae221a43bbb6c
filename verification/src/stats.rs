//! Per-target aggregate statistics over a run's outcomes.
//!
//! `aggregate` groups the full outcome collection by normalized target
//! identifier and computes, for each target, the attempts sent, the attempts
//! that succeeded, the minimum, maximum and average connect delay over the
//! successes, and a rounded loss percentage. Grouping, not arrival order,
//! drives the result: the statistics of a group are a function of which
//! outcomes the collection holds for that target, and when a target has no
//! success at all the delay figures fall back to zero and the loss is a full
//! hundred percent — no division by zero happens.

use vstd::prelude::*;

use crate::outcome::Outcome;
use crate::outcome::ProbeResult;
use crate::outcome::is_success;
use crate::outcome::success_millis;

verus! {

/// Per-target aggregate over all outcomes of one run.
pub struct RunStatistics {
    pub host: String,
    pub sent: usize,
    pub succeeded: usize,
    pub min_millis: u64,
    pub max_millis: u64,
    pub avg_millis: u64,
    pub loss_percent: u32,
}

/// How many outcomes of `s` belong to the target `h`.
pub open spec fn sent_count(s: Seq<Outcome>, h: Seq<char>) -> nat
    decreases s.len(),
{
    if s.len() == 0 {
        0
    } else {
        sent_count(s.drop_last(), h) + (if s.last().host@ == h {
            1nat
        } else {
            0nat
        })
    }
}

/// How many outcomes of `s` belong to `h` and report a success.
pub open spec fn success_count(s: Seq<Outcome>, h: Seq<char>) -> nat
    decreases s.len(),
{
    if s.len() == 0 {
        0
    } else {
        success_count(s.drop_last(), h) + (if s.last().host@ == h && is_success(s.last()) {
            1nat
        } else {
            0nat
        })
    }
}

/// Sum of the measured delays over the successes of `h` in `s`.
pub open spec fn success_sum(s: Seq<Outcome>, h: Seq<char>) -> nat
    decreases s.len(),
{
    if s.len() == 0 {
        0
    } else {
        success_sum(s.drop_last(), h) + (if s.last().host@ == h && is_success(s.last()) {
            success_millis(s.last()) as nat
        } else {
            0nat
        })
    }
}

/// Least measured delay over the successes of `h` in `s`; zero when `h` has
/// no success in `s`.
pub open spec fn min_success(s: Seq<Outcome>, h: Seq<char>) -> u64
    decreases s.len(),
{
    if s.len() == 0 {
        0
    } else {
        let rest = min_success(s.drop_last(), h);
        if s.last().host@ == h && is_success(s.last()) {
            if success_count(s.drop_last(), h) == 0 {
                success_millis(s.last())
            } else if success_millis(s.last()) < rest {
                success_millis(s.last())
            } else {
                rest
            }
        } else {
            rest
        }
    }
}

/// Greatest measured delay over the successes of `h` in `s`; zero when `h`
/// has no success in `s`.
pub open spec fn max_success(s: Seq<Outcome>, h: Seq<char>) -> u64
    decreases s.len(),
{
    if s.len() == 0 {
        0
    } else {
        let rest = max_success(s.drop_last(), h);
        if s.last().host@ == h && is_success(s.last()) && success_millis(s.last()) > rest {
            success_millis(s.last())
        } else {
            rest
        }
    }
}

/// Mean measured delay over the successes of `h` in `s`, rounded down; zero
/// when `h` has no success in `s`.
pub open spec fn average_success(s: Seq<Outcome>, h: Seq<char>) -> nat {
    if success_count(s, h) == 0 {
        0
    } else {
        success_sum(s, h) / success_count(s, h)
    }
}

/// Loss percentage of a group: `100 * (sent - succeeded) / sent`, rounded to
/// the nearest whole percent, and a full hundred percent when nothing was
/// sent at all.
pub open spec fn spec_loss_percent(sent: nat, succeeded: nat) -> nat
    recommends
        succeeded <= sent,
{
    if sent == 0 {
        100
    } else {
        ((200 * (sent - succeeded) + sent) / (2 * sent as int)) as nat
    }
}

/// `st` holds exactly the aggregate figures that the outcomes of `s`
/// belonging to target `h` yield.
pub open spec fn stats_match(s: Seq<Outcome>, h: Seq<char>, st: RunStatistics) -> bool {
    &&& st.host@ == h
    &&& st.sent as nat == sent_count(s, h)
    &&& st.succeeded as nat == success_count(s, h)
    &&& st.min_millis == min_success(s, h)
    &&& st.max_millis == max_success(s, h)
    &&& st.avg_millis as nat == average_success(s, h)
    &&& st.loss_percent as nat == spec_loss_percent(sent_count(s, h), success_count(s, h))
}

/// The distinct target identifiers of `s`, in order of first appearance.
pub open spec fn hosts_of(s: Seq<Outcome>) -> Seq<Seq<char>>
    decreases s.len(),
{
    if s.len() == 0 {
        Seq::empty()
    } else {
        let rest = hosts_of(s.drop_last());
        if rest.contains(s.last().host@) {
            rest
        } else {
            rest.push(s.last().host@)
        }
    }
}

/// The views of a vector of owned strings.
pub open spec fn views_of(v: Seq<String>) -> Seq<Seq<char>> {
    v.map_values(|x: String| x@)
}

/// Each target appears at most once in the first-appearance host list: the
/// aggregation yields one record per distinct target, never two.
pub proof fn lemma_hosts_of_distinct(s: Seq<Outcome>)
    ensures
        forall|i: int, j: int|
            0 <= i < j < hosts_of(s).len() ==> hosts_of(s)[i] != hosts_of(s)[j],
    decreases s.len(),
{
    if s.len() > 0 {
        lemma_hosts_of_distinct(s.drop_last());
        let rest = hosts_of(s.drop_last());
        let whole = hosts_of(s);
        if !rest.contains(s.last().host@) {
            assert forall|i: int, j: int| 0 <= i < j < whole.len() implies whole[i]
                != whole[j] by {
                if j == whole.len() - 1 {
                    assert(!rest.contains(whole[j]));
                    assert(rest[i] == whole[i]);
                }
            }
        }
    }
}

/// The first-appearance host list holds exactly the targets the collection
/// mentions: every outcome's target has its entry, and every entry is some
/// outcome's target.
pub proof fn lemma_hosts_of_complete(s: Seq<Outcome>)
    ensures
        forall|k: int| 0 <= k < s.len() ==> hosts_of(s).contains((#[trigger] s[k]).host@),
        forall|i: int|
            0 <= i < hosts_of(s).len() ==> exists|k: int|
                0 <= k < s.len() && #[trigger] hosts_of(s)[i] == s[k].host@,
    decreases s.len(),
{
    if s.len() > 0 {
        lemma_hosts_of_complete(s.drop_last());
        let rest = hosts_of(s.drop_last());
        let whole = hosts_of(s);
        assert forall|k: int| 0 <= k < s.len() implies whole.contains(
            (#[trigger] s[k]).host@,
        ) by {
            if k < s.len() - 1 {
                assert(s.drop_last()[k] == s[k]);
                assert(rest.contains(s[k].host@));
                let w = choose|w: int| 0 <= w < rest.len() && rest[w] == s[k].host@;
                assert(whole[w] == s[k].host@);
            } else {
                if rest.contains(s.last().host@) {
                    let w = choose|w: int| 0 <= w < rest.len() && rest[w] == s.last().host@;
                    assert(whole[w] == s.last().host@);
                } else {
                    assert(whole[whole.len() - 1] == s.last().host@);
                }
            }
        }
        assert forall|i: int| 0 <= i < whole.len() implies exists|k: int|
            0 <= k < s.len() && #[trigger] whole[i] == s[k].host@ by {
            if i < rest.len() {
                let k = choose|k: int|
                    0 <= k < s.drop_last().len() && rest[i] == s.drop_last()[k].host@;
                assert(whole[i] == s[k].host@);
            } else {
                assert(whole[i] == s[s.len() - 1].host@);
            }
        }
    }
}

/// A group never holds more successes than outcomes, nor more outcomes than
/// the whole collection.
pub proof fn lemma_group_bounds(s: Seq<Outcome>, h: Seq<char>)
    ensures
        success_count(s, h) <= sent_count(s, h),
        sent_count(s, h) <= s.len(),
    decreases s.len(),
{
    if s.len() > 0 {
        lemma_group_bounds(s.drop_last(), h);
    }
}

/// How each group figure changes when one more outcome is taken in.
proof fn lemma_group_step(s: Seq<Outcome>, h: Seq<char>, i: int)
    requires
        0 <= i < s.len(),
    ensures
        sent_count(s.take(i + 1), h) == sent_count(s.take(i), h) + (if s[i].host@ == h {
            1nat
        } else {
            0nat
        }),
        success_count(s.take(i + 1), h) == success_count(s.take(i), h) + (if s[i].host@ == h
            && is_success(s[i]) {
            1nat
        } else {
            0nat
        }),
        success_sum(s.take(i + 1), h) == success_sum(s.take(i), h) + (if s[i].host@ == h
            && is_success(s[i]) {
            success_millis(s[i]) as nat
        } else {
            0nat
        }),
        min_success(s.take(i + 1), h) == (if s[i].host@ == h && is_success(s[i]) {
            if success_count(s.take(i), h) == 0 {
                success_millis(s[i])
            } else if success_millis(s[i]) < min_success(s.take(i), h) {
                success_millis(s[i])
            } else {
                min_success(s.take(i), h)
            }
        } else {
            min_success(s.take(i), h)
        }),
        max_success(s.take(i + 1), h) == (if s[i].host@ == h && is_success(s[i])
            && success_millis(s[i]) > max_success(s.take(i), h) {
            success_millis(s[i])
        } else {
            max_success(s.take(i), h)
        }),
{
    assert(s.take(i + 1).drop_last() =~= s.take(i));
    assert(s.take(i + 1).last() == s[i]);
}

/// How the first-appearance host list changes when one more outcome is taken
/// in.
proof fn lemma_hosts_step(s: Seq<Outcome>, i: int)
    requires
        0 <= i < s.len(),
    ensures
        hosts_of(s.take(i + 1)) == (if hosts_of(s.take(i)).contains(s[i].host@) {
            hosts_of(s.take(i))
        } else {
            hosts_of(s.take(i)).push(s[i].host@)
        }),
{
    assert(s.take(i + 1).drop_last() =~= s.take(i));
    assert(s.take(i + 1).last() == s[i]);
}

/// The loss percentage is a whole hundred when no attempt succeeded, zero
/// when all did, and never exceeds a hundred.
pub proof fn lemma_loss_percent_bounds(sent: nat, succeeded: nat)
    requires
        succeeded <= sent,
    ensures
        spec_loss_percent(sent, succeeded) <= 100,
        succeeded == 0 ==> spec_loss_percent(sent, succeeded) == 100,
        succeeded == sent && sent > 0 ==> spec_loss_percent(sent, succeeded) == 0,
{
    if sent > 0 {
        let numer = 200 * (sent - succeeded) + sent;
        let denom = 2 * sent as int;
        assert(numer < denom * 101);
        vstd::arithmetic::div_mod::lemma_multiply_divide_lt(numer as int, denom, 101);
        if succeeded == 0 {
            vstd::arithmetic::div_mod::lemma_fundamental_div_mod_converse(
                numer as int,
                denom,
                100,
                sent as int,
            );
        }
        if succeeded == sent {
            vstd::arithmetic::div_mod::lemma_fundamental_div_mod_converse(
                numer as int,
                denom,
                0,
                sent as int,
            );
        }
    }
}

/// The aggregate figures of one target's group: with `n` outcomes sent and
/// `k` of them successful, the record reports exactly `n` and `k`, and the
/// loss percentage is the rounded share of the failures — a full hundred
/// percent when nothing succeeded, with no division by zero anywhere.
pub proof fn lemma_aggregate_group(s: Seq<Outcome>, h: Seq<char>, st: RunStatistics)
    requires
        stats_match(s, h, st),
    ensures
        st.sent as nat == sent_count(s, h),
        st.succeeded as nat == success_count(s, h),
        st.succeeded <= st.sent,
        st.loss_percent as nat == spec_loss_percent(st.sent as nat, st.succeeded as nat),
        st.succeeded == 0 ==> st.loss_percent == 100,
        st.loss_percent <= 100,
{
    lemma_group_bounds(s, h);
    lemma_loss_percent_bounds(sent_count(s, h), success_count(s, h));
}

/// Aggregation is a pure function of the outcome collection: any two results
/// that both satisfy the aggregation contract for the same collection carry
/// identical statistics, record for record and field for field.
pub proof fn lemma_aggregate_deterministic(
    s: Seq<Outcome>,
    r1: Seq<RunStatistics>,
    r2: Seq<RunStatistics>,
)
    requires
        r1.len() == hosts_of(s).len(),
        forall|i: int| 0 <= i < r1.len() ==> stats_match(s, hosts_of(s)[i], #[trigger] r1[i]),
        r2.len() == hosts_of(s).len(),
        forall|i: int| 0 <= i < r2.len() ==> stats_match(s, hosts_of(s)[i], #[trigger] r2[i]),
    ensures
        r1.len() == r2.len(),
        forall|i: int|
            0 <= i < r1.len() ==> (#[trigger] r1[i]).host@ == r2[i].host@ && r1[i].sent
                == r2[i].sent && r1[i].succeeded == r2[i].succeeded && r1[i].min_millis
                == r2[i].min_millis && r1[i].max_millis == r2[i].max_millis && r1[i].avg_millis
                == r2[i].avg_millis && r1[i].loss_percent == r2[i].loss_percent,
{
}

/// The aggregate record for one target over the whole collection.
pub fn stats_for_host(outcomes: &Vec<Outcome>, host: &String) -> (st: RunStatistics)
    ensures
        stats_match(outcomes@, host@, st),
{
    let ghost s = outcomes@;
    let ghost h = host@;
    let mut sent: usize = 0;
    let mut succeeded: usize = 0;
    let mut sum: u128 = 0;
    let mut min_millis: u64 = 0;
    let mut max_millis: u64 = 0;
    let mut i: usize = 0;
    while i < outcomes.len()
        invariant
            s == outcomes@,
            h == host@,
            i <= outcomes.len(),
            sent as nat == sent_count(s.take(i as int), h),
            succeeded as nat == success_count(s.take(i as int), h),
            sum as nat == success_sum(s.take(i as int), h),
            min_millis == min_success(s.take(i as int), h),
            max_millis == max_success(s.take(i as int), h),
            succeeded <= sent <= i,
            sum as nat <= (succeeded as nat) * (u64::MAX as nat),
        decreases outcomes.len() - i,
    {
        proof {
            lemma_group_step(s, h, i as int);
        }
        let o = &outcomes[i];
        if o.host == *host {
            sent = sent + 1;
            match &o.result {
                ProbeResult::Success { millis } => {
                    succeeded = succeeded + 1;
                    if succeeded == 1 {
                        min_millis = *millis;
                    } else if *millis < min_millis {
                        min_millis = *millis;
                    }
                    if *millis > max_millis {
                        max_millis = *millis;
                    }
                    sum = sum + (*millis as u128);
                },
                ProbeResult::Failure { .. } => {},
            }
        }
        i = i + 1;
    }
    proof {
        assert(s.take(outcomes.len() as int) =~= s);
    }
    let avg_millis: u64 = if succeeded == 0 {
        0
    } else {
        proof {
            vstd::arithmetic::div_mod::lemma_multiply_divide_le(
                sum as int,
                succeeded as int,
                u64::MAX as int,
            );
        }
        (sum / (succeeded as u128)) as u64
    };
    let loss_percent: u32 = if sent == 0 {
        100
    } else {
        proof {
            lemma_loss_percent_bounds(sent as nat, succeeded as nat);
        }
        let lost = sent - succeeded;
        ((200u128 * (lost as u128) + (sent as u128)) / (2u128 * (sent as u128))) as u32
    };
    RunStatistics {
        host: host.clone(),
        sent,
        succeeded,
        min_millis,
        max_millis,
        avg_millis,
        loss_percent,
    }
}

/// Whether one of the collected host names is `h`.
fn contains_host(hosts: &Vec<String>, h: &String) -> (r: bool)
    ensures
        r == views_of(hosts@).contains(h@),
{
    let mut i: usize = 0;
    while i < hosts.len()
        invariant
            i <= hosts.len(),
            forall|j: int| 0 <= j < i ==> (#[trigger] hosts@[j])@ != h@,
        decreases hosts.len() - i,
    {
        if hosts[i] == *h {
            proof {
                assert(views_of(hosts@)[i as int] == h@);
            }
            return true;
        }
        i = i + 1;
    }
    proof {
        assert forall|j: int| 0 <= j < views_of(hosts@).len() implies views_of(hosts@)[j]
            != h@ by {
            assert(views_of(hosts@)[j] == hosts@[j]@);
        }
    }
    false
}

/// The distinct normalized targets of the collection, in order of first
/// appearance.
fn collect_hosts(outcomes: &Vec<Outcome>) -> (hosts: Vec<String>)
    ensures
        views_of(hosts@) == hosts_of(outcomes@),
{
    let ghost s = outcomes@;
    let mut hosts: Vec<String> = Vec::new();
    let mut i: usize = 0;
    proof {
        assert(views_of(hosts@) =~= hosts_of(s.take(0)));
    }
    while i < outcomes.len()
        invariant
            s == outcomes@,
            i <= outcomes.len(),
            views_of(hosts@) == hosts_of(s.take(i as int)),
        decreases outcomes.len() - i,
    {
        proof {
            lemma_hosts_step(s, i as int);
        }
        if !contains_host(&hosts, &outcomes[i].host) {
            let ghost prev = hosts@;
            hosts.push(outcomes[i].host.clone());
            proof {
                assert(views_of(hosts@) =~= views_of(prev).push(s[i as int].host@));
            }
        }
        i = i + 1;
    }
    proof {
        assert(s.take(outcomes.len() as int) =~= s);
    }
    hosts
}

/// Groups the collection by normalized target identifier and yields one
/// statistics record per target, in order of each target's first appearance.
/// Every record carries exactly the figures its group's outcomes determine,
/// independently of the arrival order of outcomes within the group.
pub fn aggregate(outcomes: &Vec<Outcome>) -> (stats: Vec<RunStatistics>)
    ensures
        stats@.len() == hosts_of(outcomes@).len(),
        forall|i: int|
            0 <= i < stats@.len() ==> stats_match(outcomes@, hosts_of(outcomes@)[i], #[trigger] stats@[i]),
{
    let hosts = collect_hosts(outcomes);
    let mut stats: Vec<RunStatistics> = Vec::new();
    let mut i: usize = 0;
    while i < hosts.len()
        invariant
            views_of(hosts@) == hosts_of(outcomes@),
            i <= hosts.len(),
            stats@.len() == i,
            forall|j: int|
                0 <= j < i ==> stats_match(outcomes@, hosts_of(outcomes@)[j], #[trigger] stats@[j]),
        decreases hosts.len() - i,
    {
        proof {
            assert(hosts_of(outcomes@)[i as int] == views_of(hosts@)[i as int]);
            assert(views_of(hosts@)[i as int] == hosts@[i as int]@);
        }
        let st = stats_for_host(outcomes, &hosts[i]);
        stats.push(st);
        i = i + 1;
    }
    stats
}

} // verus!
