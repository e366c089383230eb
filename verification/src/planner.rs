//! The subscription planner: it splits the requests of a crawl into connection
//! groups that respect the channel limit of a connection.

use vstd::prelude::*;
use crate::model::{ChannelRequest, ConfigurationError, ConnectionGroup};
use crate::model::{group_views, request_views};

verus! {

/// The number of groups that `n` requests need under `limit`: `n / limit`,
/// rounded up.
pub open spec fn group_count(n: int, limit: int) -> int {
    (n + limit - 1) / limit
}

/// The groups joined in order.
pub open spec fn concat<T>(groups: Seq<Seq<T>>) -> Seq<T>
    decreases groups.len(),
{
    if groups.len() == 0 {
        Seq::empty()
    } else {
        concat(groups.drop_last()) + groups.last()
    }
}

/// What a plan is: the groups join to the requests, every group but the last
/// is full, the last holds between one request and `limit`, and there are
/// `group_count` of them.
pub open spec fn is_plan<T>(groups: Seq<Seq<T>>, requests: Seq<T>, limit: int) -> bool {
    &&& concat(groups) == requests
    &&& groups.len() == group_count(requests.len() as int, limit)
    &&& forall|g: int| 0 <= g < groups.len() - 1 ==> (#[trigger] groups[g]).len() == limit
    &&& groups.len() > 0 ==> 1 <= groups.last().len() <= limit
}

/// `full` full groups and a rest of `rest` requests make `full` groups, and
/// one more where the rest is not empty.
pub proof fn lemma_group_count(full: int, rest: int, limit: int)
    requires
        0 <= full,
        0 <= rest < limit,
    ensures
        group_count(full * limit + rest, limit) == full + if rest > 0 { 1int } else { 0int },
{
    let n = full * limit + rest;
    if rest > 0 {
        assert((n + limit - 1) == (full + 1) * limit + (rest - 1)) by (nonlinear_arith)
            requires
                n == full * limit + rest,
        ;
        vstd::arithmetic::div_mod::lemma_fundamental_div_mod_converse(
            n + limit - 1,
            limit,
            full + 1,
            rest - 1,
        );
    } else {
        vstd::arithmetic::div_mod::lemma_fundamental_div_mod_converse(
            n + limit - 1,
            limit,
            full,
            limit - 1,
        );
    }
}

/// Joining after one more group appends that group.
pub proof fn lemma_concat_push<T>(groups: Seq<Seq<T>>, last: Seq<T>)
    ensures
        concat(groups.push(last)) == concat(groups) + last,
{
    assert(groups.push(last).drop_last() =~= groups);
}

/// Every request of every group is one of the joined groups.
pub proof fn lemma_concat_holds<T>(groups: Seq<Seq<T>>, g: int, j: int)
    requires
        0 <= g < groups.len(),
        0 <= j < groups[g].len(),
    ensures
        concat(groups).contains(groups[g][j]),
    decreases groups.len(),
{
    let front = concat(groups.drop_last());
    if g == groups.len() - 1 {
        assert(concat(groups)[front.len() + j] == groups[g][j]);
    } else {
        assert(groups.drop_last()[g] == groups[g]);
        lemma_concat_holds(groups.drop_last(), g, j);
        let k = choose|k: int| 0 <= k < front.len() && front[k] == groups[g][j];
        assert(concat(groups)[k] == groups[g][j]);
    }
}

/// In a plan no group is empty and none exceeds the limit.
pub proof fn lemma_plan_groups_bounded<T>(groups: Seq<Seq<T>>, requests: Seq<T>, limit: int)
    requires
        limit > 0,
        is_plan(groups, requests, limit),
    ensures
        forall|g: int| 0 <= g < groups.len() ==> 1 <= (#[trigger] groups[g]).len() <= limit,
{
}

/// The joined groups are as long as the groups together: where every group
/// holds `limit` requests, `limit` times their number.
pub proof fn lemma_concat_full<T>(groups: Seq<Seq<T>>, limit: int)
    requires
        forall|g: int| 0 <= g < groups.len() ==> (#[trigger] groups[g]).len() == limit,
    ensures
        concat(groups).len() == groups.len() * limit,
    decreases groups.len(),
{
    if groups.len() > 0 {
        lemma_concat_full(groups.drop_last(), limit);
        assert((groups.len() - 1) * limit + limit == groups.len() * limit) by (nonlinear_arith);
    }
}

/// Group number `g` of the joined groups stands where the groups before it
/// end.
pub proof fn lemma_concat_group<T>(groups: Seq<Seq<T>>, g: int)
    requires
        0 <= g < groups.len(),
    ensures
        concat(groups.take(g)).len() + groups[g].len() <= concat(groups).len(),
        groups[g] == concat(groups).subrange(
            concat(groups.take(g)).len() as int,
            (concat(groups.take(g)).len() + groups[g].len()) as int,
        ),
    decreases groups.len(),
{
    let front = groups.drop_last();
    if g == groups.len() - 1 {
        assert(groups.take(g) =~= front);
        assert(groups[g] =~= concat(groups).subrange(
            concat(front).len() as int,
            (concat(front).len() + groups[g].len()) as int,
        ));
    } else {
        lemma_concat_group(front, g);
        assert(front.take(g) =~= groups.take(g));
        assert(front[g] == groups[g]);
        let at = concat(groups.take(g)).len() as int;
        assert(concat(front).subrange(at, at + groups[g].len()) =~= concat(groups).subrange(
            at,
            at + groups[g].len(),
        ));
    }
}

/// A plan is fixed by the requests and the limit: group number `g` holds the
/// requests from index `g * limit` up to `(g + 1) * limit`, or up to the end
/// for the last group.
pub proof fn lemma_plan_group<T>(groups: Seq<Seq<T>>, requests: Seq<T>, limit: int, g: int)
    requires
        limit > 0,
        is_plan(groups, requests, limit),
        0 <= g < groups.len(),
    ensures
        g * limit + groups[g].len() <= requests.len(),
        groups[g] == requests.subrange(g * limit, g * limit + groups[g].len()),
        g < groups.len() - 1 ==> groups[g].len() == limit,
        g == groups.len() - 1 ==> groups[g].len() == requests.len() - g * limit,
{
    lemma_concat_group(groups, g);
    assert forall|k: int| 0 <= k < groups.take(g).len() implies (#[trigger] groups.take(g)[k]).len()
        == limit by {
        assert(groups.take(g)[k] == groups[k]);
    }
    lemma_concat_full(groups.take(g), limit);
    if g == groups.len() - 1 {
        assert(groups.take(g) =~= groups.drop_last());
    }
}

/// Two plans of the same requests under the same limit are the same plan.
pub proof fn lemma_plan_unique<T>(first: Seq<Seq<T>>, second: Seq<Seq<T>>, requests: Seq<T>, limit: int)
    requires
        limit > 0,
        is_plan(first, requests, limit),
        is_plan(second, requests, limit),
    ensures
        first == second,
{
    assert forall|g: int| 0 <= g < first.len() implies first[g] == second[g] by {
        lemma_plan_group(first, requests, limit, g);
        lemma_plan_group(second, requests, limit, g);
    }
    assert(first =~= second);
}

/// Splits `requests`, in their order, into groups of `limit` requests; the
/// last group holds what is left.
pub fn plan(requests: &Vec<ChannelRequest>, limit: usize) -> (result: Result<
    Vec<ConnectionGroup>,
    ConfigurationError,
>)
    ensures
        limit == 0 <==> result is Err,
        result matches Err(e) ==> e == ConfigurationError::ZeroChannelLimit,
        result matches Ok(groups) ==> is_plan(
            group_views(groups@),
            request_views(requests@),
            limit as int,
        ),
{
    if limit == 0 {
        return Err(ConfigurationError::ZeroChannelLimit);
    }
    let ghost all = request_views(requests@);
    let n: usize = requests.len();
    let mut groups: Vec<ConnectionGroup> = Vec::new();
    let mut current: Vec<ChannelRequest> = Vec::new();
    let mut i: usize = 0;
    while i < n
        invariant
            limit > 0,
            n == requests@.len(),
            all == request_views(requests@),
            i <= n,
            current@.len() < limit,
            i == groups@.len() * limit + current@.len(),
            concat(group_views(groups@)) + request_views(current@) == all.subrange(0, i as int),
            forall|g: int| 0 <= g < groups@.len() ==> (#[trigger] group_views(groups@)[g]).len() == limit,
        decreases n - i,
    {
        let ghost before = current@;
        current.push(requests[i].duplicate());
        assert(request_views(current@) =~= request_views(before).push(all[i as int]));
        assert(all.subrange(0, i + 1) =~= all.subrange(0, i as int).push(all[i as int]));
        assert(concat(group_views(groups@)) + request_views(current@) =~= all.subrange(
            0,
            i + 1,
        ));
        i = i + 1;
        if current.len() == limit {
            let ghost old_groups = groups@;
            let group = ConnectionGroup { requests: current };
            groups.push(group);
            current = Vec::new();
            proof {
                assert(group_views(groups@) =~= group_views(old_groups).push(group@));
                lemma_concat_push(group_views(old_groups), group@);
                assert(request_views(current@) =~= Seq::empty());
                assert(concat(group_views(groups@)) + request_views(current@) =~= all.subrange(
                    0,
                    i as int,
                ));
                assert(groups@.len() * limit == old_groups.len() * limit + limit)
                    by (nonlinear_arith)
                    requires
                        groups@.len() == old_groups.len() + 1,
                ;
            }
        }
    }
    proof {
        assert(all.subrange(0, n as int) =~= all);
        lemma_group_count(groups@.len() as int, current@.len() as int, limit as int);
    }
    if current.len() > 0 {
        let ghost old_groups = groups@;
        let group = ConnectionGroup { requests: current };
        groups.push(group);
        proof {
            assert(group_views(groups@) =~= group_views(old_groups).push(group@));
            lemma_concat_push(group_views(old_groups), group@);
        }
    } else {
        assert(request_views(current@) =~= Seq::empty());
        assert(concat(group_views(groups@)) + request_views(current@) =~= concat(
            group_views(groups@),
        ));
    }
    Ok(groups)
}

} // verus!
