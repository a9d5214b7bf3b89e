//! How many events of each kind a bulk data set holds.

use vstd::prelude::*;

verus! {

/// The weights, out of 2000, of the event kinds in bulk data.
pub const ACTIVITY_WEIGHT_TOTAL: u32 = 2_000;

/// The number of events of each kind to generate.
#[derive(Clone, Copy, Debug, PartialEq, Eq, Structural)]
pub struct ActivityTargets {
    pub initial_draft: u32,
    pub save_draft: u32,
    pub publish_from_draft: u32,
    pub initial_publish: u32,
    pub update_published: u32,
    pub add_draft_to_published: u32,
    pub discard_draft_on_published: u32,
    pub unpublish_to_draft: u32,
    pub unpublish_to_closed: u32,
    pub reopen_to_draft: u32,
    pub republish_from_closed: u32,
    pub delete_draft: u32,
    pub delete_published: u32,
    pub delete_closed: u32,
}

impl ActivityTargets {
    /// The number of events over all kinds.
    pub open spec fn total_spec(self) -> int {
        self.initial_draft + self.save_draft + self.publish_from_draft + self.initial_publish
            + self.update_published + self.add_draft_to_published + self.discard_draft_on_published
            + self.unpublish_to_draft + self.unpublish_to_closed + self.reopen_to_draft
            + self.republish_from_closed + self.delete_draft + self.delete_published
            + self.delete_closed
    }

    /// Returns the number of events over all kinds.
    pub fn total(self) -> (r: u32)
        requires
            self.total_spec() <= u32::MAX,
        ensures
            r == self.total_spec(),
    {
        self.initial_draft + self.save_draft + self.publish_from_draft + self.initial_publish
            + self.update_published + self.add_draft_to_published + self.discard_draft_on_published
            + self.unpublish_to_draft + self.unpublish_to_closed + self.reopen_to_draft
            + self.republish_from_closed + self.delete_draft + self.delete_published
            + self.delete_closed
    }
}

/// The share of `total` a kind of weight `weight` gets, rounded down.
pub open spec fn share(total: int, weight: int) -> int {
    total * weight / 2000
}

/// The shares of all kinds, the last (deletions of closed contents)
/// included, before the remainder is assigned.
pub open spec fn assigned_shares(t: int) -> int {
    share(t, 400) + share(t, 300) + share(t, 53) + share(t, 12) + share(t, 377) + share(t, 400)
        + share(t, 100) + share(t, 160) + share(t, 80) + share(t, 20) + share(t, 8) + share(t, 20)
        + share(t, 60) + share(t, 10)
}

/// The targets for `total` events: each kind gets its weighted share,
/// rounded down, and what rounding left over goes to deletions of closed
/// contents.
pub open spec fn activity_targets_spec(total: u32) -> ActivityTargets {
    let t = total as int;
    ActivityTargets {
        initial_draft: share(t, 400) as u32,
        save_draft: share(t, 300) as u32,
        publish_from_draft: share(t, 53) as u32,
        initial_publish: share(t, 12) as u32,
        update_published: share(t, 377) as u32,
        add_draft_to_published: share(t, 400) as u32,
        discard_draft_on_published: share(t, 100) as u32,
        unpublish_to_draft: share(t, 160) as u32,
        unpublish_to_closed: share(t, 80) as u32,
        reopen_to_draft: share(t, 20) as u32,
        republish_from_closed: share(t, 8) as u32,
        delete_draft: share(t, 20) as u32,
        delete_published: share(t, 60) as u32,
        delete_closed: (share(t, 10) + (t - assigned_shares(t))) as u32,
    }
}

/// The largest total whose weighted shares are computed without overflow.
pub const MAX_ACTIVITY_TOTAL: u32 = 10_737_418;

proof fn lemma_share_bounds(t: int, w: int)
    requires
        0 <= t,
        0 <= w,
    ensures
        0 <= share(t, w),
        share(t, w) * 2000 <= t * w,
        t * w < share(t, w) * 2000 + 2000,
{
    assert(0 <= t * w) by (nonlinear_arith)
        requires 0 <= t, 0 <= w;
    vstd::arithmetic::div_mod::lemma_fundamental_div_mod(t * w, 2000);
}

proof fn lemma_assigned_at_most_total(t: int)
    requires
        0 <= t,
    ensures
        0 <= assigned_shares(t) <= t,
        t - assigned_shares(t) < 14,
{
    lemma_share_bounds(t, 400);
    lemma_share_bounds(t, 300);
    lemma_share_bounds(t, 53);
    lemma_share_bounds(t, 12);
    lemma_share_bounds(t, 377);
    lemma_share_bounds(t, 100);
    lemma_share_bounds(t, 160);
    lemma_share_bounds(t, 80);
    lemma_share_bounds(t, 20);
    lemma_share_bounds(t, 8);
    lemma_share_bounds(t, 60);
    lemma_share_bounds(t, 10);
    assert(t * 400 + t * 300 + t * 53 + t * 12 + t * 377 + t * 400 + t * 100 + t * 160 + t * 80
        + t * 20 + t * 8 + t * 20 + t * 60 + t * 10 == t * 2000) by (nonlinear_arith);
}

/// The targets of `total` events add up to `total`.
pub proof fn lemma_targets_sum_to_total(total: u32)
    requires
        total <= MAX_ACTIVITY_TOTAL,
    ensures
        activity_targets_spec(total).total_spec() == total,
{
    lemma_assigned_at_most_total(total as int);
    lemma_share_bounds(total as int, 400);
    lemma_share_bounds(total as int, 10);
}

/// Computes the targets of a bulk data set of `total` events; the number
/// of days it spans plays no part.
pub fn compute_activity_targets(total: u32, days: u32) -> (r: ActivityTargets)
    requires
        total <= MAX_ACTIVITY_TOTAL,
    ensures
        r == activity_targets_spec(total),
        r.total_spec() == total,
{
    proof {
        lemma_targets_sum_to_total(total);
        lemma_assigned_at_most_total(total as int);
        lemma_share_bounds(total as int, 400);
    }
    let initial_draft = total * 400 / ACTIVITY_WEIGHT_TOTAL;
    let save_draft = total * 300 / ACTIVITY_WEIGHT_TOTAL;
    let publish_from_draft = total * 53 / ACTIVITY_WEIGHT_TOTAL;
    let initial_publish = total * 12 / ACTIVITY_WEIGHT_TOTAL;
    let update_published = total * 377 / ACTIVITY_WEIGHT_TOTAL;
    let add_draft_to_published = total * 400 / ACTIVITY_WEIGHT_TOTAL;
    let discard_draft_on_published = total * 100 / ACTIVITY_WEIGHT_TOTAL;
    let unpublish_to_draft = total * 160 / ACTIVITY_WEIGHT_TOTAL;
    let unpublish_to_closed = total * 80 / ACTIVITY_WEIGHT_TOTAL;
    let reopen_to_draft = total * 20 / ACTIVITY_WEIGHT_TOTAL;
    let republish_from_closed = total * 8 / ACTIVITY_WEIGHT_TOTAL;
    let delete_draft = total * 20 / ACTIVITY_WEIGHT_TOTAL;
    let delete_published = total * 60 / ACTIVITY_WEIGHT_TOTAL;
    let delete_closed_share = total * 10 / ACTIVITY_WEIGHT_TOTAL;
    let assigned = initial_draft + save_draft + publish_from_draft + initial_publish
        + update_published + add_draft_to_published + discard_draft_on_published
        + unpublish_to_draft + unpublish_to_closed + reopen_to_draft + republish_from_closed
        + delete_draft + delete_published + delete_closed_share;
    let delete_closed = delete_closed_share + total.saturating_sub(assigned);
    ActivityTargets {
        initial_draft,
        save_draft,
        publish_from_draft,
        initial_publish,
        update_published,
        add_draft_to_published,
        discard_draft_on_published,
        unpublish_to_draft,
        unpublish_to_closed,
        reopen_to_draft,
        republish_from_closed,
        delete_draft,
        delete_published,
        delete_closed,
    }
}

} // verus!
