//! Generation of a bulk data set: coordinated draft-then-publish
//! lifecycles that drive the publication metrics, stand-alone drafts, draft
//! saves and direct publications, then shuffled filler events of the other
//! kinds on randomly picked contents.

use vstd::prelude::*;
use crate::text::{copy_str, push_str, u64_text, decimal_text};
use crate::time::{
    UtcTimestamp, jst_day, jst_day_spec, jst_datetime, jst_instant_seconds, lemma_jst_day_bounds,
    lemma_jst_day_of_instant, MIN_DAY, MAX_DAY, MIN_INSTANT_SECONDS, MAX_INSTANT_SECONDS,
};
use crate::seed::rng::{SeededRng, lcg_next};
use crate::seed::activity::ActivityTargets;
use crate::seed::config::DebugSeedConfig;
use crate::seed::schedule::{BulkDaySchedule, WeightedBulkDay, random_received_at_on_schedule, received_at_spec, lcg_iter};
use crate::seed::template::{
    BulkTemplate, BulkEventTiming, build_bulk_webhook_body, bulk_body_spec, body_instants_valid,
    days_before, days_before_valid, minus_days,
};
use crate::seed::timing::{
    bulk_apis, bulk_api_names, api_publish_lead_days, api_draft_to_publish_days,
    publish_lead_days_spec, draft_to_publish_days_spec,
};

verus! {

/// A generated webhook: what it is about, when it was received, and its body.
pub struct BulkEvent {
    pub api: String,
    pub content_id: String,
    pub template: BulkTemplate,
    pub received_at: UtcTimestamp,
    pub timing: BulkEventTiming,
    pub body: String,
}

/// The event's body is the template's body for its fields.
pub open spec fn body_matches(e: BulkEvent) -> bool {
    e.body@ == bulk_body_spec(e.api@, e.content_id@, e.template, e.received_at, e.timing)
}

/// The event is received on one of the schedule's days.
pub open spec fn on_schedule(e: BulkEvent, days: Seq<WeightedBulkDay>) -> bool {
    exists|i: int| 0 <= i < days.len() && jst_day_spec(e.received_at.seconds as int) == #[trigger] days[i].date
}

/// A schedule whose days leave 33 days of representable time before them,
/// room for the longest lead of a publication before its instant.
pub open spec fn schedule_roomy(s: BulkDaySchedule) -> bool {
    &&& s.wf()
    &&& forall|i: int| 0 <= i < s.days@.len() ==> MIN_DAY + 33 <= (#[trigger] s.days@[i]).date
}

/// A whole-second instant with a month of representable time before it.
pub open spec fn roomy_instant(t: UtcTimestamp) -> bool {
    &&& t.nanos == 0
    &&& MIN_INSTANT_SECONDS + 32 * 86_400 <= t.seconds <= MAX_INSTANT_SECONDS
}

proof fn lemma_roomy_days_before(t: UtcTimestamp, k: int)
    requires
        roomy_instant(t),
        0 <= k <= 31,
    ensures
        days_before_valid(t, k),
        days_before(t, k).valid(),
        t.valid(),
{
}

proof fn lemma_scheduled_instant_roomy(t: UtcTimestamp, s: BulkDaySchedule, i: int)
    requires
        schedule_roomy(s),
        0 <= i < s.days@.len(),
        jst_day_spec(t.seconds as int) == s.days@[i].date,
        t.valid(),
        t.nanos == 0,
    ensures
        roomy_instant(t),
{
    lemma_jst_day_bounds(t.seconds as int);
}

/// The content id of metric lifecycle `p` of `api`.
pub open spec fn metric_content_id(api: Seq<char>, p: nat) -> Seq<char> {
    "metric-"@ + api + "-"@ + decimal_text(p)
}

/// The content id of stand-alone draft `j`.
pub open spec fn orphan_content_id(j: nat) -> Seq<char> {
    "activity-draft-"@ + decimal_text(j)
}

/// The content id of draft save `j`.
pub open spec fn save_content_id(j: nat) -> Seq<char> {
    "activity-save-draft-"@ + decimal_text(j)
}

/// The content id of direct publication `j` of `api`.
pub open spec fn direct_content_id(api: Seq<char>, j: nat) -> Seq<char> {
    "metric-"@ + api + "-direct-"@ + decimal_text(j)
}

/// The content id of filler content `k`.
pub open spec fn filler_content_id(k: nat) -> Seq<char> {
    "content-"@ + decimal_text(k)
}

/// The earliest and latest JST days seen, after seeing `day`.
pub open spec fn track_min(current: Option<i64>, day: i64) -> Option<i64> {
    match current {
        Some(c) => Some(if day < c { day } else { c }),
        None => Some(day),
    }
}

pub open spec fn track_max(current: Option<i64>, day: i64) -> Option<i64> {
    match current {
        Some(c) => Some(if day > c { day } else { c }),
        None => Some(day),
    }
}

/// Records the JST day of an instant in the earliest and latest days seen.
pub fn track_date(received_at: UtcTimestamp, min_dt: &mut Option<i64>, max_dt: &mut Option<i64>)
    requires
        received_at.valid(),
    ensures
        *final(min_dt) == track_min(*old(min_dt), jst_day_spec(received_at.seconds as int) as i64),
        *final(max_dt) == track_max(*old(max_dt), jst_day_spec(received_at.seconds as int) as i64),
{
    let day = jst_day(received_at);
    *min_dt = match *min_dt {
        Some(c) => Some(if day < c { day } else { c }),
        None => Some(day),
    };
    *max_dt = match *max_dt {
        Some(c) => Some(if day > c { day } else { c }),
        None => Some(day),
    };
}

/// The earliest and latest days cover every event's day.
pub open spec fn days_covered(events: Seq<BulkEvent>, min_dt: Option<i64>, max_dt: Option<i64>) -> bool {
    forall|i: int| 0 <= i < events.len() ==> (min_dt matches Some(lo) && max_dt matches Some(hi)
        && lo <= jst_day_spec((#[trigger] events[i]).received_at.seconds as int) <= hi)
}

/// Everything generated so far is well formed: bodies match, events lie
/// on the schedule, and the day range covers them.
pub open spec fn generated_ok(events: Seq<BulkEvent>, days: Seq<WeightedBulkDay>, min_dt: Option<i64>, max_dt: Option<i64>) -> bool {
    &&& forall|i: int| 0 <= i < events.len() ==> body_matches(#[trigger] events[i])
    &&& forall|i: int| 0 <= i < events.len() ==> on_schedule(#[trigger] events[i], days)
    &&& days_covered(events, min_dt, max_dt)
}

fn push_bulk_event(
    events: &mut Vec<BulkEvent>,
    min_dt: &mut Option<i64>,
    max_dt: &mut Option<i64>,
    api: &str,
    content_id: &str,
    template: BulkTemplate,
    received_at: UtcTimestamp,
    timing: BulkEventTiming,
)
    requires
        body_instants_valid(received_at, timing),
        days_covered(old(events)@, *old(min_dt), *old(max_dt)),
    ensures
        final(events)@.len() == old(events)@.len() + 1,
        forall|i: int| 0 <= i < old(events)@.len() ==> final(events)@[i] == old(events)@[i],
        final(events)@.last().api@ == api@,
        final(events)@.last().content_id@ == content_id@,
        final(events)@.last().template == template,
        final(events)@.last().received_at == received_at,
        final(events)@.last().timing == timing,
        body_matches(final(events)@.last()),
        days_covered(final(events)@, *final(min_dt), *final(max_dt)),
{
    let body = build_bulk_webhook_body(api, content_id, template, received_at, &timing);
    track_date(received_at, min_dt, max_dt);
    events.push(BulkEvent {
        api: copy_str(api),
        content_id: copy_str(content_id),
        template,
        received_at,
        timing,
        body,
    });
}

/// Picks the content of a filler event: one draw, mapped by `index_of` to
/// a content index below `contents`, named `content-{index}`.
pub fn pick_content_id<F: Fn(u64, u32) -> u32>(rng: &mut SeededRng, contents: u32, index_of: &F) -> (r: String)
    requires
        contents >= 1,
        forall|raw: u64, n: u32| index_of.requires((raw, n)),
    ensures
        final(rng)@ == lcg_next(old(rng)@),
        exists|k: u32| index_of.ensures((lcg_next(old(rng)@), contents), k) && r@ == filler_content_id(k as nat),
{
    let raw = rng.next_u64();
    let index = index_of(raw, contents);
    let mut id = copy_str("content-");
    let digits = u64_text(index as u64);
    push_str(&mut id, digits.as_str());
    assert(id@ == filler_content_id(index as nat));
    assert(index_of.ensures((lcg_next(old(rng)@), contents), index));
    id
}

/// The templates of a run of events.
pub open spec fn templates_of(events: Seq<BulkEvent>) -> Seq<BulkTemplate> {
    events.map_values(|e: BulkEvent| e.template)
}

/// `n` copies of a template.
pub open spec fn repeat_template(t: BulkTemplate, n: nat) -> Seq<BulkTemplate> {
    Seq::new(n, |i: int| t)
}

/// `n` draft-then-publish pairs.
pub open spec fn pair_templates(n: nat) -> Seq<BulkTemplate> {
    Seq::new(2 * n, |i: int| if i % 2 == 0 { BulkTemplate::InitialDraft } else { BulkTemplate::PublishFromDraft })
}

/// The filler templates before shuffling: each filler kind repeated its
/// target number of times, in kind order.
pub open spec fn filler_list(t: ActivityTargets) -> Seq<BulkTemplate> {
    repeat_template(BulkTemplate::UpdatePublished, t.update_published as nat)
        + repeat_template(BulkTemplate::AddDraftToPublished, t.add_draft_to_published as nat)
        + repeat_template(BulkTemplate::DiscardDraftOnPublished, t.discard_draft_on_published as nat)
        + repeat_template(BulkTemplate::UnpublishToDraft, t.unpublish_to_draft as nat)
        + repeat_template(BulkTemplate::UnpublishToClosed, t.unpublish_to_closed as nat)
        + repeat_template(BulkTemplate::ReopenToDraft, t.reopen_to_draft as nat)
        + repeat_template(BulkTemplate::RepublishFromClosed, t.republish_from_closed as nat)
        + repeat_template(BulkTemplate::DeleteDraft, t.delete_draft as nat)
        + repeat_template(BulkTemplate::DeletePublished, t.delete_published as nat)
        + repeat_template(BulkTemplate::DeleteClosed, t.delete_closed as nat)
}

/// A kind filler events are drawn from: none of the drafts, draft saves
/// and publications the lifecycle metrics are computed from.
pub open spec fn is_filler_template(t: BulkTemplate) -> bool {
    t != BulkTemplate::InitialDraft && t != BulkTemplate::PublishFromDraft && t != BulkTemplate::SaveDraft
        && t != BulkTemplate::InitialPublish
}

/// The number of stand-alone drafts: drafts beyond those of lifecycles.
pub open spec fn orphan_count(t: ActivityTargets) -> nat {
    if t.initial_draft >= t.publish_from_draft { (t.initial_draft - t.publish_from_draft) as nat } else { 0 }
}

/// The number of filler events.
pub open spec fn filler_count(t: ActivityTargets) -> nat {
    (t.update_published + t.add_draft_to_published + t.discard_draft_on_published
        + t.unpublish_to_draft + t.unpublish_to_closed + t.reopen_to_draft
        + t.republish_from_closed + t.delete_draft + t.delete_published + t.delete_closed) as nat
}

/// How many events of a kind a run with these targets generates: lifecycle
/// and stand-alone drafts together make the larger of the draft and
/// publication targets, every other kind its target.
pub open spec fn target_count(t: ActivityTargets, k: BulkTemplate) -> nat {
    match k {
        BulkTemplate::InitialDraft => t.publish_from_draft as nat + orphan_count(t),
        BulkTemplate::SaveDraft => t.save_draft as nat,
        BulkTemplate::PublishFromDraft => t.publish_from_draft as nat,
        BulkTemplate::InitialPublish => t.initial_publish as nat,
        BulkTemplate::UpdatePublished => t.update_published as nat,
        BulkTemplate::AddDraftToPublished => t.add_draft_to_published as nat,
        BulkTemplate::DiscardDraftOnPublished => t.discard_draft_on_published as nat,
        BulkTemplate::UnpublishToDraft => t.unpublish_to_draft as nat,
        BulkTemplate::UnpublishToClosed => t.unpublish_to_closed as nat,
        BulkTemplate::ReopenToDraft => t.reopen_to_draft as nat,
        BulkTemplate::RepublishFromClosed => t.republish_from_closed as nat,
        BulkTemplate::DeleteDraft => t.delete_draft as nat,
        BulkTemplate::DeletePublished => t.delete_published as nat,
        BulkTemplate::DeleteClosed => t.delete_closed as nat,
    }
}

proof fn lemma_repeat_count(t: BulkTemplate, n: nat, k: BulkTemplate)
    ensures
        repeat_template(t, n).to_multiset().count(k) == if k == t { n } else { 0 },
    decreases n,
{
    broadcast use vstd::seq_lib::group_to_multiset_ensures, vstd::multiset::group_multiset_axioms;

    if n > 0 {
        lemma_repeat_count(t, (n - 1) as nat, k);
        assert(repeat_template(t, n) =~= repeat_template(t, (n - 1) as nat).push(t));
        vstd::seq_lib::to_multiset_build(repeat_template(t, (n - 1) as nat), t);
    } else {
        assert(repeat_template(t, n) =~= Seq::<BulkTemplate>::empty());
    }
}

proof fn lemma_pair_count(n: nat, k: BulkTemplate)
    ensures
        pair_templates(n).to_multiset().count(k) == if k == BulkTemplate::InitialDraft
            || k == BulkTemplate::PublishFromDraft { n } else { 0 },
    decreases n,
{
    broadcast use vstd::seq_lib::group_to_multiset_ensures, vstd::multiset::group_multiset_axioms;

    if n > 0 {
        let m = (n - 1) as nat;
        lemma_pair_count(m, k);
        assert(pair_templates(n) =~= pair_templates(m).push(BulkTemplate::InitialDraft).push(BulkTemplate::PublishFromDraft));
        vstd::seq_lib::to_multiset_build(pair_templates(m), BulkTemplate::InitialDraft);
        vstd::seq_lib::to_multiset_build(pair_templates(m).push(BulkTemplate::InitialDraft), BulkTemplate::PublishFromDraft);
    } else {
        assert(pair_templates(n) =~= Seq::<BulkTemplate>::empty());
    }
}

proof fn lemma_concat_count(a: Seq<BulkTemplate>, b: Seq<BulkTemplate>, k: BulkTemplate)
    ensures
        (a + b).to_multiset().count(k) == a.to_multiset().count(k) + b.to_multiset().count(k),
{
    broadcast use vstd::seq_lib::group_to_multiset_ensures, vstd::multiset::group_multiset_axioms;

    vstd::seq_lib::lemma_multiset_commutative(a, b);
}

proof fn lemma_filler_list_count(t: ActivityTargets, k: BulkTemplate)
    ensures
        filler_list(t).to_multiset().count(k) == if k == BulkTemplate::InitialDraft
            || k == BulkTemplate::SaveDraft || k == BulkTemplate::PublishFromDraft
            || k == BulkTemplate::InitialPublish { 0 } else { target_count(t, k) },
        filler_list(t).len() == filler_count(t),
{
    let r1 = repeat_template(BulkTemplate::UpdatePublished, t.update_published as nat);
    let r2 = repeat_template(BulkTemplate::AddDraftToPublished, t.add_draft_to_published as nat);
    let r3 = repeat_template(BulkTemplate::DiscardDraftOnPublished, t.discard_draft_on_published as nat);
    let r4 = repeat_template(BulkTemplate::UnpublishToDraft, t.unpublish_to_draft as nat);
    let r5 = repeat_template(BulkTemplate::UnpublishToClosed, t.unpublish_to_closed as nat);
    let r6 = repeat_template(BulkTemplate::ReopenToDraft, t.reopen_to_draft as nat);
    let r7 = repeat_template(BulkTemplate::RepublishFromClosed, t.republish_from_closed as nat);
    let r8 = repeat_template(BulkTemplate::DeleteDraft, t.delete_draft as nat);
    let r9 = repeat_template(BulkTemplate::DeletePublished, t.delete_published as nat);
    let r10 = repeat_template(BulkTemplate::DeleteClosed, t.delete_closed as nat);
    lemma_repeat_count(BulkTemplate::UpdatePublished, t.update_published as nat, k);
    lemma_repeat_count(BulkTemplate::AddDraftToPublished, t.add_draft_to_published as nat, k);
    lemma_repeat_count(BulkTemplate::DiscardDraftOnPublished, t.discard_draft_on_published as nat, k);
    lemma_repeat_count(BulkTemplate::UnpublishToDraft, t.unpublish_to_draft as nat, k);
    lemma_repeat_count(BulkTemplate::UnpublishToClosed, t.unpublish_to_closed as nat, k);
    lemma_repeat_count(BulkTemplate::ReopenToDraft, t.reopen_to_draft as nat, k);
    lemma_repeat_count(BulkTemplate::RepublishFromClosed, t.republish_from_closed as nat, k);
    lemma_repeat_count(BulkTemplate::DeleteDraft, t.delete_draft as nat, k);
    lemma_repeat_count(BulkTemplate::DeletePublished, t.delete_published as nat, k);
    lemma_repeat_count(BulkTemplate::DeleteClosed, t.delete_closed as nat, k);
    lemma_concat_count(r1, r2, k);
    lemma_concat_count(r1 + r2, r3, k);
    lemma_concat_count(r1 + r2 + r3, r4, k);
    lemma_concat_count(r1 + r2 + r3 + r4, r5, k);
    lemma_concat_count(r1 + r2 + r3 + r4 + r5, r6, k);
    lemma_concat_count(r1 + r2 + r3 + r4 + r5 + r6, r7, k);
    lemma_concat_count(r1 + r2 + r3 + r4 + r5 + r6 + r7, r8, k);
    lemma_concat_count(r1 + r2 + r3 + r4 + r5 + r6 + r7 + r8, r9, k);
    lemma_concat_count(r1 + r2 + r3 + r4 + r5 + r6 + r7 + r8 + r9, r10, k);
}

fn push_repeated(out: &mut Vec<BulkTemplate>, t: BulkTemplate, n: u32)
    ensures
        final(out)@ == old(out)@ + repeat_template(t, n as nat),
{
    let mut i: u32 = 0;
    while i < n
        invariant
            i <= n,
            out@ == old(out)@ + repeat_template(t, i as nat),
        decreases n - i,
    {
        out.push(t);
        i = i + 1;
        assert(out@ =~= old(out)@ + repeat_template(t, i as nat));
    }
}

fn filler_templates(t: &ActivityTargets) -> (r: Vec<BulkTemplate>)
    ensures
        r@ == filler_list(*t),
{
    let mut out: Vec<BulkTemplate> = Vec::new();
    push_repeated(&mut out, BulkTemplate::UpdatePublished, t.update_published);
    push_repeated(&mut out, BulkTemplate::AddDraftToPublished, t.add_draft_to_published);
    push_repeated(&mut out, BulkTemplate::DiscardDraftOnPublished, t.discard_draft_on_published);
    push_repeated(&mut out, BulkTemplate::UnpublishToDraft, t.unpublish_to_draft);
    push_repeated(&mut out, BulkTemplate::UnpublishToClosed, t.unpublish_to_closed);
    push_repeated(&mut out, BulkTemplate::ReopenToDraft, t.reopen_to_draft);
    push_repeated(&mut out, BulkTemplate::RepublishFromClosed, t.republish_from_closed);
    push_repeated(&mut out, BulkTemplate::DeleteDraft, t.delete_draft);
    push_repeated(&mut out, BulkTemplate::DeletePublished, t.delete_published);
    push_repeated(&mut out, BulkTemplate::DeleteClosed, t.delete_closed);
    assert(out@ =~= filler_list(*t));
    out
}

/// The order a shuffle from position `index` down leaves a sequence in,
/// and the state after: position `index` swaps with a drawn position at or
/// below it, then the shuffle goes on one position lower (Fisher-Yates).
#[verifier::opaque]
pub open spec fn shuffle_spec(t: Seq<BulkTemplate>, s: u64, index: int) -> (Seq<BulkTemplate>, u64)
    decreases index,
{
    if index < 1 || index >= t.len() {
        (t, s)
    } else {
        let s1 = lcg_next(s);
        let j = ((s1 as usize) as int) % (index + 1);
        shuffle_spec(t.update(index, t[j]).update(j, t[index]), s1, index - 1)
    }
}

proof fn lemma_shuffle_step(t: Seq<BulkTemplate>, s: u64, index: int)
    requires
        1 <= index < t.len(),
    ensures
        shuffle_spec(t, s, index) == shuffle_spec(
            t.update(index, t[((lcg_next(s) as usize) as int) % (index + 1)])
                .update(((lcg_next(s) as usize) as int) % (index + 1), t[index]),
            lcg_next(s),
            index - 1,
        ),
{
    reveal(shuffle_spec);
}

proof fn lemma_shuffle_done(t: Seq<BulkTemplate>, s: u64, index: int)
    requires
        index < 1 || index >= t.len(),
    ensures
        shuffle_spec(t, s, index) == (t, s),
{
    reveal(shuffle_spec);
}

/// A shuffle keeps what the sequence holds.
pub proof fn lemma_shuffle_keeps_templates(t: Seq<BulkTemplate>, s: u64, index: int)
    ensures
        shuffle_spec(t, s, index).0.to_multiset() == t.to_multiset(),
        shuffle_spec(t, s, index).0.len() == t.len(),
    decreases index,
{
    broadcast use vstd::seq_lib::group_to_multiset_ensures, vstd::multiset::group_multiset_axioms;

    reveal(shuffle_spec);
    if !(index < 1 || index >= t.len()) {
        let s1 = lcg_next(s);
        let j = ((s1 as usize) as int) % (index + 1);
        let t1 = t.update(index, t[j]);
        let t2 = t1.update(j, t[index]);
        vstd::seq_lib::to_multiset_update(t, index, t[j]);
        vstd::seq_lib::to_multiset_update(t1, j, t[index]);
        assert(t2.to_multiset() =~= t.to_multiset()) by {
            broadcast use vstd::multiset::group_multiset_axioms;
            if j != index {
                assert(t1[j] == t[j]);
            }
        }
        lemma_shuffle_keeps_templates(t2, s1, index - 1);
    }
}

proof fn lemma_lcg_iter_after_step(s: u64, n: nat)
    ensures
        lcg_iter(lcg_next(s), n) == lcg_iter(s, n + 1),
    decreases n,
{
    if n > 0 {
        lemma_lcg_iter_after_step(s, (n - 1) as nat);
        assert(lcg_iter(lcg_next(s), n) == lcg_next(lcg_iter(lcg_next(s), (n - 1) as nat)));
        assert(lcg_iter(s, n + 1) == lcg_next(lcg_iter(s, n)));
    } else {
        assert(lcg_iter(s, 0) == s);
        assert(lcg_iter(s, 1) == lcg_next(lcg_iter(s, 0)));
    }
}

/// A shuffle from position `index` down takes exactly `index` draws.
pub proof fn lemma_shuffle_draws(t: Seq<BulkTemplate>, s: u64, index: int)
    requires
        0 <= index < t.len(),
    ensures
        shuffle_spec(t, s, index).1 == lcg_iter(s, index as nat),
    decreases index,
{
    reveal(shuffle_spec);
    if index >= 1 {
        let s1 = lcg_next(s);
        let j = ((s1 as usize) as int) % (index + 1);
        let t2 = t.update(index, t[j]).update(j, t[index]);
        lemma_shuffle_draws(t2, s1, index - 1);
        lemma_lcg_iter_after_step(s, (index - 1) as nat);
    }
}

/// Shuffles templates in place with the generator (Fisher-Yates from the
/// last position down).
pub fn shuffle_bulk_templates(rng: &mut SeededRng, templates: &mut Vec<BulkTemplate>)
    ensures
        (final(templates)@, final(rng)@) == shuffle_spec(old(templates)@, old(rng)@, old(templates)@.len() - 1),
        final(templates)@.to_multiset() == old(templates)@.to_multiset(),
        final(templates)@.len() == old(templates)@.len(),
        final(rng)@ == lcg_iter(old(rng)@, if old(templates)@.len() <= 1 { 0 } else { (old(templates)@.len() - 1) as nat }),
{
    proof {
        lemma_shuffle_keeps_templates(old(templates)@, old(rng)@, old(templates)@.len() - 1);
        if old(templates)@.len() >= 1 {
            lemma_shuffle_draws(old(templates)@, old(rng)@, old(templates)@.len() - 1);
        }
    }
    if templates.len() <= 1 {
        proof {
            lemma_shuffle_done(templates@, rng@, templates@.len() - 1);
        }
        return;
    }
    let mut index: usize = templates.len() - 1;
    while index >= 1
        invariant
            templates@.len() == old(templates)@.len(),
            index < templates.len(),
            shuffle_spec(old(templates)@, old(rng)@, old(templates)@.len() - 1)
                == shuffle_spec(templates@, rng@, index as int),
        decreases index,
    {
        let ghost t0 = templates@;
        let ghost s0 = rng@;
        let j = rng.next_usize(index + 1);
        let a = templates[index];
        let b = templates[j];
        templates.set(index, b);
        templates.set(j, a);
        proof {
            lemma_shuffle_step(t0, s0, index as int);
            assert(templates@ == t0.update(index as int, t0[j as int]).update(j as int, t0[index as int]));
        }
        index = index - 1;
    }
    proof {
        lemma_shuffle_done(templates@, rng@, index as int);
    }
}

/// Metric lifecycle `p` is written at `base + 2p` (its initial draft) and
/// `base + 2p + 1` (its publication): both on the same content of the API
/// in turn, the draft created `draft_to_publish_days` and the content
/// `publish_lead_days` before publication, the draft received no later than
/// the publication's JST day.
pub open spec fn pair_ok(ev: Seq<BulkEvent>, base: int, p: nat) -> bool {
    let d = ev[base + 2 * p];
    let q = ev[base + 2 * p + 1];
    let api = bulk_api_names()[(p % 10) as int];
    &&& d.api@ == api && q.api@ == api
    &&& d.content_id@ == metric_content_id(api, p) && q.content_id@ == metric_content_id(api, p)
    &&& d.timing == (BulkEventTiming {
        draft_created_at: Some(days_before(q.received_at, draft_to_publish_days_spec(api, p as u32))),
        content_created_at: None,
        content_published_at: None,
    })
    &&& q.timing == (BulkEventTiming {
        draft_created_at: None,
        content_created_at: Some(days_before(q.received_at, publish_lead_days_spec(api, p as u32))),
        content_published_at: Some(q.received_at),
    })
    &&& jst_day_spec(d.received_at.seconds as int) <= jst_day_spec(q.received_at.seconds as int)
}

/// Stand-alone draft `j` at `base + j`: its draft created `j % 7 + 1` days
/// before receipt.
pub open spec fn orphan_ok(ev: Seq<BulkEvent>, base: int, j: nat) -> bool {
    let e = ev[base + j];
    let api = bulk_api_names()[(j % 10) as int];
    &&& e.api@ == api
    &&& e.content_id@ == orphan_content_id(j)
    &&& e.timing == (BulkEventTiming {
        draft_created_at: Some(days_before(e.received_at, (j % 7 + 1) as int)),
        content_created_at: None,
        content_published_at: None,
    })
}

/// Draft save `j` at `base + j`: its draft created `j % 10 + 1` days
/// before receipt.
pub open spec fn save_ok(ev: Seq<BulkEvent>, base: int, j: nat) -> bool {
    let e = ev[base + j];
    let api = bulk_api_names()[(j % 10) as int];
    &&& e.api@ == api
    &&& e.content_id@ == save_content_id(j)
    &&& e.timing == (BulkEventTiming {
        draft_created_at: Some(days_before(e.received_at, (j % 10 + 1) as int)),
        content_created_at: None,
        content_published_at: None,
    })
}

/// Direct publication `j` at `base + j`: published on receipt, created
/// `publish_lead_days + j % 4` days before.
pub open spec fn direct_ok(ev: Seq<BulkEvent>, base: int, j: nat) -> bool {
    let e = ev[base + j];
    let api = bulk_api_names()[(j % 10) as int];
    &&& e.api@ == api
    &&& e.content_id@ == direct_content_id(api, j)
    &&& e.timing == (BulkEventTiming {
        draft_created_at: None,
        content_created_at: Some(days_before(e.received_at, publish_lead_days_spec(api, j as u32) + j % 4)),
        content_published_at: Some(e.received_at),
    })
}

/// A filler event: of a bulk API, on a picked content, with every instant
/// derived from receipt.
pub open spec fn filler_ok<F: Fn(u64, u32) -> u32>(e: BulkEvent, contents: u32, index_of: F) -> bool {
    &&& exists|i: int| 0 <= i < 10 && e.api@ == #[trigger] bulk_api_names()[i]
    &&& exists|raw: u64, k: u32| index_of.ensures((raw, contents), k) && e.content_id@ == filler_content_id(k as nat)
    &&& e.timing == (BulkEventTiming { draft_created_at: None, content_created_at: None, content_published_at: None })
}

/// In every metric lifecycle the draft is created the API's
/// draft-to-publish days before the publication, which lie within five
/// days of the API's base duration, and the content is published on
/// receipt of the publication.
pub proof fn lemma_lifecycle_draft_lead(ev: Seq<BulkEvent>, base: int, p: nat)
    requires
        pair_ok(ev, base, p),
    ensures
        ({
            let api = bulk_api_names()[(p % 10) as int];
            let dtp = draft_to_publish_days_spec(api, p as u32);
            let publication = ev[base + 2 * p + 1];
            &&& ev[base + 2 * p].timing.draft_created_at == Some(days_before(publication.received_at, dtp))
            &&& publication.timing.content_published_at == Some(publication.received_at)
            &&& crate::seed::timing::timing_profile_spec(api).2 <= dtp <= crate::seed::timing::timing_profile_spec(api).2 + 5
        }),
{
    crate::seed::timing::lemma_bulk_apis_have_profiles((p % 10) as int, p as u32);
}

proof fn lemma_api_days_small(api: Seq<char>, index: u32)
    ensures
        1 <= publish_lead_days_spec(api, index) <= 18,
        1 <= draft_to_publish_days_spec(api, index) <= 29,
{
}

/// The generator's state after `n` receipt instants drawn from `s`.
pub open spec fn draws_state(s: u64, days: Seq<WeightedBulkDay>, n: nat) -> u64
    decreases n,
{
    if n == 0 {
        s
    } else {
        received_at_spec(draws_state(s, days, (n - 1) as nat), days).1
    }
}

/// Event `base + j` is received at the `j`-th instant drawn from `s`.
pub open spec fn drawn_at(ev: Seq<BulkEvent>, base: int, j: nat, s: u64, days: Seq<WeightedBulkDay>) -> bool {
    ev[base + j].received_at == received_at_spec(draws_state(s, days, j), days).0
}

/// The days among the first `n` of a schedule on which the draft of a
/// publication on `publish_day` may be received: days up to the
/// publication's, except the publication's own day when it is the last.
pub open spec fn eligible_draft_days(days: Seq<WeightedBulkDay>, publish_day: i64, n: int) -> Seq<i64>
    decreases n,
{
    if n <= 0 {
        Seq::empty()
    } else {
        let prev = eligible_draft_days(days, publish_day, n - 1);
        let d = days[n - 1].date;
        if d <= publish_day && !(publish_day == days.last().date && d == publish_day) {
            prev.push(d)
        } else {
            prev
        }
    }
}

/// The draft day drawn from `s` for a publication on `publish_day` (one
/// draw among the eligible days, or the publication's day without a draw
/// when none is eligible), and the state after.
pub open spec fn draft_day_spec(s: u64, days: Seq<WeightedBulkDay>, publish_day: i64) -> (i64, u64) {
    let e = eligible_draft_days(days, publish_day, days.len() as int);
    if e.len() == 0 {
        (publish_day, s)
    } else {
        let s1 = lcg_next(s);
        (e[((s1 as usize) as int) % (e.len() as int)], s1)
    }
}

/// The receipt instants of metric lifecycle `p` drawn from `s` (its
/// publication, then its draft at `9 + p % 6` o'clock JST on the drawn
/// draft day) and the state after.
pub open spec fn pair_spec(s: u64, days: Seq<WeightedBulkDay>, p: nat) -> (UtcTimestamp, UtcTimestamp, u64) {
    let (publish_at, s1) = received_at_spec(s, days);
    let (draft_day, s2) = draft_day_spec(s1, days, jst_day_spec(publish_at.seconds as int) as i64);
    (
        publish_at,
        UtcTimestamp { seconds: jst_instant_seconds(draft_day as int, 9 + (p % 6) as int, 15, 0) as i64, nanos: 0 },
        s2,
    )
}

/// The generator's state after `n` metric lifecycles drawn from `s`.
pub open spec fn pairs_state(s: u64, days: Seq<WeightedBulkDay>, n: nat) -> u64
    decreases n,
{
    if n == 0 {
        s
    } else {
        pair_spec(pairs_state(s, days, (n - 1) as nat), days, (n - 1) as nat).2
    }
}

/// Metric lifecycle `p` at `base + 2p` is received at the instants drawn
/// for it from `s`.
pub open spec fn pair_drawn(ev: Seq<BulkEvent>, base: int, p: nat, s: u64, days: Seq<WeightedBulkDay>) -> bool {
    let (publish_at, draft_at, _) = pair_spec(pairs_state(s, days, p), days, p);
    ev[base + 2 * p].received_at == draft_at && ev[base + 2 * p + 1].received_at == publish_at
}

/// The draws of one filler event from `s`: its receipt instant, the index
/// of its API among the bulk APIs, and the draw its content is picked by,
/// which is also the state after.
pub open spec fn filler_spec(s: u64, days: Seq<WeightedBulkDay>) -> (UtcTimestamp, int, u64) {
    let (t, s1) = received_at_spec(s, days);
    let s2 = lcg_next(s1);
    (t, ((s2 as usize) as int) % 10, lcg_next(s2))
}

/// The generator's state after `n` filler events drawn from `s`.
pub open spec fn fillers_state(s: u64, days: Seq<WeightedBulkDay>, n: nat) -> u64
    decreases n,
{
    if n == 0 {
        s
    } else {
        filler_spec(fillers_state(s, days, (n - 1) as nat), days).2
    }
}

/// Filler `j` at `base + j` is received at its drawn instant, on its drawn
/// API, on the content `index_of` picks from its drawn value.
pub open spec fn filler_drawn<F: Fn(u64, u32) -> u32>(
    ev: Seq<BulkEvent>,
    base: int,
    j: nat,
    s: u64,
    days: Seq<WeightedBulkDay>,
    contents: u32,
    index_of: F,
) -> bool {
    let e = ev[base + j];
    let (t, a, raw) = filler_spec(fillers_state(s, days, j), days);
    &&& e.received_at == t
    &&& e.api@ == bulk_api_names()[a]
    &&& exists|k: u32| index_of.ensures((raw, contents), k) && e.content_id@ == filler_content_id(k as nat)
}

fn draw_event_instant(rng: &mut SeededRng, schedule: &BulkDaySchedule) -> (t: UtcTimestamp)
    requires
        schedule_roomy(*schedule),
    ensures
        roomy_instant(t),
        t.valid(),
        (t, final(rng)@) == received_at_spec(old(rng)@, schedule.days@),
        exists|i: int| 0 <= i < schedule.days@.len() && jst_day_spec(t.seconds as int) == #[trigger] schedule.days@[i].date,
{
    let t = random_received_at_on_schedule(rng, schedule);
    proof {
        let i = choose|i: int| 0 <= i < schedule.days@.len() && jst_day_spec(t.seconds as int) == #[trigger] schedule.days@[i].date;
        lemma_scheduled_instant_roomy(t, *schedule, i);
    }
    t
}

fn api_at(index: u32) -> (r: &'static str)
    ensures
        r@ == bulk_api_names()[(index % 10) as int],
{
    let apis = bulk_apis();
    apis[(index % 10) as usize]
}

fn metric_id(api: &str, p: u32) -> (r: String)
    ensures
        r@ == metric_content_id(api@, p as nat),
{
    let mut id = copy_str("metric-");
    push_str(&mut id, api);
    push_str(&mut id, "-");
    let digits = u64_text(p as u64);
    push_str(&mut id, digits.as_str());
    id
}

fn prefixed_id(prefix: &str, j: u32) -> (r: String)
    ensures
        r@ == prefix@ + decimal_text(j as nat),
{
    let mut id = copy_str(prefix);
    let digits = u64_text(j as u64);
    push_str(&mut id, digits.as_str());
    id
}

fn draft_day_before(rng: &mut SeededRng, schedule: &BulkDaySchedule, publish_day: i64) -> (d: i64)
    requires
        schedule_roomy(*schedule),
        exists|i: int| 0 <= i < schedule.days@.len() && publish_day == #[trigger] schedule.days@[i].date,
    ensures
        d <= publish_day,
        exists|i: int| 0 <= i < schedule.days@.len() && d == #[trigger] schedule.days@[i].date,
        (d, final(rng)@) == draft_day_spec(old(rng)@, schedule.days@, publish_day),
{
    let latest = schedule.latest_date();
    let mut eligible: Vec<i64> = Vec::new();
    let mut i: usize = 0;
    while i < schedule.days.len()
        invariant
            i <= schedule.days@.len(),
            latest == schedule.days@.last().date,
            eligible@ == eligible_draft_days(schedule.days@, publish_day, i as int),
            forall|k: int| 0 <= k < eligible@.len() ==> #[trigger] eligible@[k] <= publish_day
                && exists|m: int| 0 <= m < schedule.days@.len() && eligible@[k] == #[trigger] schedule.days@[m].date,
        decreases schedule.days.len() - i,
    {
        let date = schedule.days[i].date;
        if date <= publish_day && !(publish_day == latest && date == publish_day) {
            eligible.push(date);
            assert(schedule.days@[i as int].date == date);
        }
        i = i + 1;
    }
    assert(schedule.days@.len() == i);
    if eligible.len() == 0 {
        publish_day
    } else {
        let k = rng.next_usize(eligible.len());
        eligible[k]
    }
}

fn generate_metric_pairs(
    rng: &mut SeededRng,
    schedule: &BulkDaySchedule,
    count: u32,
    events: &mut Vec<BulkEvent>,
    min_dt: &mut Option<i64>,
    max_dt: &mut Option<i64>,
)
    requires
        schedule_roomy(*schedule),
        generated_ok(old(events)@, schedule.days@, *old(min_dt), *old(max_dt)),
    ensures
        final(events)@.len() == old(events)@.len() + 2 * count,
        final(events)@.subrange(0, old(events)@.len() as int) == old(events)@,
        templates_of(final(events)@) == templates_of(old(events)@) + pair_templates(count as nat),
        forall|p: nat| p < count ==> #[trigger] pair_ok(final(events)@, old(events)@.len() as int, p),
        generated_ok(final(events)@, schedule.days@, *final(min_dt), *final(max_dt)),
        final(rng)@ == pairs_state(old(rng)@, schedule.days@, count as nat),
        forall|p: nat| p < count ==> #[trigger] pair_drawn(final(events)@, old(events)@.len() as int, p, old(rng)@, schedule.days@),
{
    let ghost base = events@.len() as int;
    let ghost start = events@;
    let ghost s0 = rng@;
    let mut p: u32 = 0;
    while p < count
        invariant
            schedule_roomy(*schedule),
            p <= count,
            base == start.len(),
            events@.len() == base + 2 * p,
            events@.subrange(0, base) == start,
            templates_of(events@) == templates_of(start) + pair_templates(p as nat),
            forall|q: nat| q < p ==> #[trigger] pair_ok(events@, base, q),
            generated_ok(events@, schedule.days@, *min_dt, *max_dt),
            s0 == old(rng)@,
            rng@ == pairs_state(s0, schedule.days@, p as nat),
            forall|q: nat| q < p ==> #[trigger] pair_drawn(events@, base, q, s0, schedule.days@),
        decreases count - p,
    {
        let api = api_at(p);
        let content_id = metric_id(api, p);
        let lead = api_publish_lead_days(api, p);
        let dtp = api_draft_to_publish_days(api, p);
        proof {
            lemma_api_days_small(api@, p);
        }
        let ghost s_before = rng@;
        let publish_at = draw_event_instant(rng, schedule);
        let ghost s_mid = rng@;
        proof {
            lemma_roomy_days_before(publish_at, lead as int);
            lemma_roomy_days_before(publish_at, dtp as int);
            lemma_roomy_days_before(publish_at, 1);
            lemma_roomy_days_before(publish_at, 7);
        }
        let content_created_at = minus_days(publish_at, lead);
        let draft_created_at = minus_days(publish_at, dtp);
        let publish_day = jst_day(publish_at);
        let draft_day = draft_day_before(rng, schedule, publish_day);
        let ghost s_after = rng@;
        let hour: u32 = 9 + p % 6;
        proof {
            let m = choose|m: int| 0 <= m < schedule.days@.len() && draft_day == #[trigger] schedule.days@[m].date;
            assert(MIN_DAY + 33 <= schedule.days@[m].date <= MAX_DAY);
            lemma_jst_day_of_instant(draft_day as int, hour as int, 15, 0);
        }
        let draft_received_at = jst_datetime(draft_day, hour, 15, 0);
        proof {
            let m = choose|m: int| 0 <= m < schedule.days@.len() && draft_day == #[trigger] schedule.days@[m].date;
            lemma_scheduled_instant_roomy(draft_received_at, *schedule, m);
            lemma_roomy_days_before(draft_received_at, 1);
            lemma_roomy_days_before(draft_received_at, 7);
        }
        let ghost before = events@;
        push_bulk_event(events, min_dt, max_dt, api, content_id.as_str(), BulkTemplate::InitialDraft,
            draft_received_at, BulkEventTiming {
                draft_created_at: Some(draft_created_at),
                content_created_at: None,
                content_published_at: None,
            });
        push_bulk_event(events, min_dt, max_dt, api, content_id.as_str(), BulkTemplate::PublishFromDraft,
            publish_at, BulkEventTiming {
                draft_created_at: None,
                content_created_at: Some(content_created_at),
                content_published_at: Some(publish_at),
            });
        proof {
            let n = before.len() as int;
            assert(events@[n].received_at == draft_received_at);
            assert(events@[n + 1].received_at == publish_at);
            assert(on_schedule(events@[n], schedule.days@)) by {
                let m = choose|m: int| 0 <= m < schedule.days@.len() && draft_day == #[trigger] schedule.days@[m].date;
                assert(jst_day_spec(events@[n].received_at.seconds as int) == schedule.days@[m].date);
            }
            assert(on_schedule(events@[n + 1], schedule.days@));
            assert forall|i: int| 0 <= i < events@.len() implies body_matches(#[trigger] events@[i]) by {
                if i < n {
                    assert(events@[i] == before[i]);
                }
            }
            assert forall|i: int| 0 <= i < events@.len() implies on_schedule(#[trigger] events@[i], schedule.days@) by {
                if i < n {
                    assert(events@[i] == before[i]);
                }
            }
            assert(templates_of(events@) =~= templates_of(start) + pair_templates((p + 1) as nat)) by {
                let lhs = templates_of(events@);
                let rhs = templates_of(start) + pair_templates((p + 1) as nat);
                assert(templates_of(before) == templates_of(start) + pair_templates(p as nat));
                assert(lhs.len() == rhs.len());
                assert forall|i: int| 0 <= i < lhs.len() implies lhs[i] == rhs[i] by {
                    if i < n {
                        assert(events@[i] == before[i]);
                        assert(templates_of(before)[i] == before[i].template);
                        if i >= base {
                            assert(pair_templates(p as nat)[i - base] == pair_templates((p + 1) as nat)[i - base]);
                        }
                    }
                }
            }
            assert(events@.subrange(0, base) =~= start) by {
                assert(before.subrange(0, base) == start);
            }
            assert forall|q: nat| q < p + 1 implies #[trigger] pair_ok(events@, base, q) by {
                if q < p {
                    assert(pair_ok(before, base, q));
                    assert(events@[base + 2 * q] == before[base + 2 * q]);
                    assert(events@[base + 2 * q + 1] == before[base + 2 * q + 1]);
                } else {
                    assert(base + 2 * q == n);
                }
            }
            assert(s_before == pairs_state(s0, schedule.days@, p as nat));
            assert((publish_at, s_mid) == received_at_spec(s_before, schedule.days@));
            assert((draft_day, s_after) == draft_day_spec(s_mid, schedule.days@, publish_day));
            assert(publish_day == jst_day_spec(publish_at.seconds as int) as i64);
            assert(draft_received_at == pair_spec(s_before, schedule.days@, p as nat).1);
            assert(s_after == pair_spec(s_before, schedule.days@, p as nat).2);
            assert forall|q: nat| q < p + 1 implies #[trigger] pair_drawn(events@, base, q, s0, schedule.days@) by {
                if q < p {
                    assert(pair_drawn(before, base, q, s0, schedule.days@));
                    assert(events@[base + 2 * q] == before[base + 2 * q]);
                    assert(events@[base + 2 * q + 1] == before[base + 2 * q + 1]);
                } else {
                    assert(base + 2 * q == n);
                }
            }
        }
        p = p + 1;
    }
}

fn generate_orphan_drafts(
    rng: &mut SeededRng,
    schedule: &BulkDaySchedule,
    count: u32,
    events: &mut Vec<BulkEvent>,
    min_dt: &mut Option<i64>,
    max_dt: &mut Option<i64>,
)
    requires
        schedule_roomy(*schedule),
        generated_ok(old(events)@, schedule.days@, *old(min_dt), *old(max_dt)),
    ensures
        final(events)@.len() == old(events)@.len() + count,
        final(events)@.subrange(0, old(events)@.len() as int) == old(events)@,
        templates_of(final(events)@) == templates_of(old(events)@) + repeat_template(BulkTemplate::InitialDraft, count as nat),
        forall|j: nat| j < count ==> #[trigger] orphan_ok(final(events)@, old(events)@.len() as int, j),
        final(rng)@ == draws_state(old(rng)@, schedule.days@, count as nat),
        forall|j: nat| j < count ==> #[trigger] drawn_at(final(events)@, old(events)@.len() as int, j, old(rng)@, schedule.days@),
        generated_ok(final(events)@, schedule.days@, *final(min_dt), *final(max_dt)),
{
    let ghost base = events@.len() as int;
    let ghost start = events@;
    let ghost s0 = rng@;
    let mut j: u32 = 0;
    while j < count
        invariant
            schedule_roomy(*schedule),
            j <= count,
            base == start.len(),
            events@.len() == base + j,
            events@.subrange(0, base) == start,
            templates_of(events@) == templates_of(start) + repeat_template(BulkTemplate::InitialDraft, j as nat),
            forall|q: nat| q < j ==> #[trigger] orphan_ok(events@, base, q),
            generated_ok(events@, schedule.days@, *min_dt, *max_dt),
            s0 == old(rng)@,
            rng@ == draws_state(s0, schedule.days@, j as nat),
            forall|q: nat| q < j ==> #[trigger] drawn_at(events@, base, q, s0, schedule.days@),
        decreases count - j,
    {
        let api = api_at(j);
        let content_id = prefixed_id("activity-draft-", j);
        let ghost s_before = rng@;
        let received_at = draw_event_instant(rng, schedule);
        let back: i64 = (j % 7 + 1) as i64;
        proof {
            lemma_roomy_days_before(received_at, back as int);
            lemma_roomy_days_before(received_at, 1);
            lemma_roomy_days_before(received_at, 7);
        }
        let draft_created_at = minus_days(received_at, back);
        let ghost before = events@;
        push_bulk_event(events, min_dt, max_dt, api, content_id.as_str(), BulkTemplate::InitialDraft,
            received_at, BulkEventTiming { draft_created_at: Some(draft_created_at), content_created_at: None, content_published_at: None });
        proof {
            let n = before.len() as int;
            assert(events@[n].received_at == received_at);
            assert(on_schedule(events@[n], schedule.days@));
            assert forall|i: int| 0 <= i < events@.len() implies body_matches(#[trigger] events@[i]) by {
                if i < n {
                    assert(events@[i] == before[i]);
                }
            }
            assert forall|i: int| 0 <= i < events@.len() implies on_schedule(#[trigger] events@[i], schedule.days@) by {
                if i < n {
                    assert(events@[i] == before[i]);
                }
            }
            assert(templates_of(events@) =~= templates_of(start) + repeat_template(BulkTemplate::InitialDraft, (j + 1) as nat)) by {
                let lhs = templates_of(events@);
                let rhs = templates_of(start) + repeat_template(BulkTemplate::InitialDraft, (j + 1) as nat);
                assert(templates_of(before) == templates_of(start) + repeat_template(BulkTemplate::InitialDraft, j as nat));
                assert forall|i: int| 0 <= i < lhs.len() implies lhs[i] == rhs[i] by {
                    if i < n {
                        assert(events@[i] == before[i]);
                        assert(templates_of(before)[i] == before[i].template);
                    }
                }
            }
            assert(events@.subrange(0, base) =~= start) by {
                assert(before.subrange(0, base) == start);
            }
            assert forall|q: nat| q < j + 1 implies #[trigger] orphan_ok(events@, base, q) by {
                if q < j {
                    assert(orphan_ok(before, base, q));
                    assert(events@[base + q] == before[base + q]);
                } else {
                    assert(base + q == n);
                }
            }
            assert(s_before == draws_state(s0, schedule.days@, j as nat));
            assert(received_at == received_at_spec(s_before, schedule.days@).0);
            assert forall|q: nat| q < j + 1 implies #[trigger] drawn_at(events@, base, q, s0, schedule.days@) by {
                if q < j {
                    assert(drawn_at(before, base, q, s0, schedule.days@));
                    assert(events@[base + q] == before[base + q]);
                } else {
                    assert(base + q == n);
                }
            }
        }
        j = j + 1;
    }
}

fn generate_draft_saves(
    rng: &mut SeededRng,
    schedule: &BulkDaySchedule,
    count: u32,
    events: &mut Vec<BulkEvent>,
    min_dt: &mut Option<i64>,
    max_dt: &mut Option<i64>,
)
    requires
        schedule_roomy(*schedule),
        generated_ok(old(events)@, schedule.days@, *old(min_dt), *old(max_dt)),
    ensures
        final(events)@.len() == old(events)@.len() + count,
        final(events)@.subrange(0, old(events)@.len() as int) == old(events)@,
        templates_of(final(events)@) == templates_of(old(events)@) + repeat_template(BulkTemplate::SaveDraft, count as nat),
        forall|j: nat| j < count ==> #[trigger] save_ok(final(events)@, old(events)@.len() as int, j),
        final(rng)@ == draws_state(old(rng)@, schedule.days@, count as nat),
        forall|j: nat| j < count ==> #[trigger] drawn_at(final(events)@, old(events)@.len() as int, j, old(rng)@, schedule.days@),
        generated_ok(final(events)@, schedule.days@, *final(min_dt), *final(max_dt)),
{
    let ghost base = events@.len() as int;
    let ghost start = events@;
    let ghost s0 = rng@;
    let mut j: u32 = 0;
    while j < count
        invariant
            schedule_roomy(*schedule),
            j <= count,
            base == start.len(),
            events@.len() == base + j,
            events@.subrange(0, base) == start,
            templates_of(events@) == templates_of(start) + repeat_template(BulkTemplate::SaveDraft, j as nat),
            forall|q: nat| q < j ==> #[trigger] save_ok(events@, base, q),
            generated_ok(events@, schedule.days@, *min_dt, *max_dt),
            s0 == old(rng)@,
            rng@ == draws_state(s0, schedule.days@, j as nat),
            forall|q: nat| q < j ==> #[trigger] drawn_at(events@, base, q, s0, schedule.days@),
        decreases count - j,
    {
        let api = api_at(j);
        let content_id = prefixed_id("activity-save-draft-", j);
        let ghost s_before = rng@;
        let received_at = draw_event_instant(rng, schedule);
        let back: i64 = (j % 10 + 1) as i64;
        proof {
            lemma_roomy_days_before(received_at, back as int);
            lemma_roomy_days_before(received_at, 1);
            lemma_roomy_days_before(received_at, 7);
        }
        let draft_created_at = minus_days(received_at, back);
        let ghost before = events@;
        push_bulk_event(events, min_dt, max_dt, api, content_id.as_str(), BulkTemplate::SaveDraft,
            received_at, BulkEventTiming { draft_created_at: Some(draft_created_at), content_created_at: None, content_published_at: None });
        proof {
            let n = before.len() as int;
            assert(events@[n].received_at == received_at);
            assert(on_schedule(events@[n], schedule.days@));
            assert forall|i: int| 0 <= i < events@.len() implies body_matches(#[trigger] events@[i]) by {
                if i < n {
                    assert(events@[i] == before[i]);
                }
            }
            assert forall|i: int| 0 <= i < events@.len() implies on_schedule(#[trigger] events@[i], schedule.days@) by {
                if i < n {
                    assert(events@[i] == before[i]);
                }
            }
            assert(templates_of(events@) =~= templates_of(start) + repeat_template(BulkTemplate::SaveDraft, (j + 1) as nat)) by {
                let lhs = templates_of(events@);
                let rhs = templates_of(start) + repeat_template(BulkTemplate::SaveDraft, (j + 1) as nat);
                assert(templates_of(before) == templates_of(start) + repeat_template(BulkTemplate::SaveDraft, j as nat));
                assert forall|i: int| 0 <= i < lhs.len() implies lhs[i] == rhs[i] by {
                    if i < n {
                        assert(events@[i] == before[i]);
                        assert(templates_of(before)[i] == before[i].template);
                    }
                }
            }
            assert(events@.subrange(0, base) =~= start) by {
                assert(before.subrange(0, base) == start);
            }
            assert forall|q: nat| q < j + 1 implies #[trigger] save_ok(events@, base, q) by {
                if q < j {
                    assert(save_ok(before, base, q));
                    assert(events@[base + q] == before[base + q]);
                } else {
                    assert(base + q == n);
                }
            }
            assert(s_before == draws_state(s0, schedule.days@, j as nat));
            assert(received_at == received_at_spec(s_before, schedule.days@).0);
            assert forall|q: nat| q < j + 1 implies #[trigger] drawn_at(events@, base, q, s0, schedule.days@) by {
                if q < j {
                    assert(drawn_at(before, base, q, s0, schedule.days@));
                    assert(events@[base + q] == before[base + q]);
                } else {
                    assert(base + q == n);
                }
            }
        }
        j = j + 1;
    }
}

fn generate_direct_publications(
    rng: &mut SeededRng,
    schedule: &BulkDaySchedule,
    count: u32,
    events: &mut Vec<BulkEvent>,
    min_dt: &mut Option<i64>,
    max_dt: &mut Option<i64>,
)
    requires
        schedule_roomy(*schedule),
        generated_ok(old(events)@, schedule.days@, *old(min_dt), *old(max_dt)),
    ensures
        final(events)@.len() == old(events)@.len() + count,
        final(events)@.subrange(0, old(events)@.len() as int) == old(events)@,
        templates_of(final(events)@) == templates_of(old(events)@) + repeat_template(BulkTemplate::InitialPublish, count as nat),
        forall|j: nat| j < count ==> #[trigger] direct_ok(final(events)@, old(events)@.len() as int, j),
        final(rng)@ == draws_state(old(rng)@, schedule.days@, count as nat),
        forall|j: nat| j < count ==> #[trigger] drawn_at(final(events)@, old(events)@.len() as int, j, old(rng)@, schedule.days@),
        generated_ok(final(events)@, schedule.days@, *final(min_dt), *final(max_dt)),
{
    let ghost base = events@.len() as int;
    let ghost start = events@;
    let ghost s0 = rng@;
    let mut j: u32 = 0;
    while j < count
        invariant
            schedule_roomy(*schedule),
            j <= count,
            base == start.len(),
            events@.len() == base + j,
            events@.subrange(0, base) == start,
            templates_of(events@) == templates_of(start) + repeat_template(BulkTemplate::InitialPublish, j as nat),
            forall|q: nat| q < j ==> #[trigger] direct_ok(events@, base, q),
            generated_ok(events@, schedule.days@, *min_dt, *max_dt),
            s0 == old(rng)@,
            rng@ == draws_state(s0, schedule.days@, j as nat),
            forall|q: nat| q < j ==> #[trigger] drawn_at(events@, base, q, s0, schedule.days@),
        decreases count - j,
    {
        let api = api_at(j);
        let content_id = direct_id(api, j);
        let ghost s_before = rng@;
        let received_at = draw_event_instant(rng, schedule);
        proof {
            lemma_api_days_small(api@, j);
        }
        let lead: i64 = api_publish_lead_days(api, j) + (j % 4) as i64;
        proof {
            lemma_roomy_days_before(received_at, lead as int);
            lemma_roomy_days_before(received_at, 1);
            lemma_roomy_days_before(received_at, 7);
        }
        let content_created_at = minus_days(received_at, lead);
        let ghost before = events@;
        push_bulk_event(events, min_dt, max_dt, api, content_id.as_str(), BulkTemplate::InitialPublish,
            received_at, BulkEventTiming { draft_created_at: None, content_created_at: Some(content_created_at), content_published_at: Some(received_at) });
        proof {
            let n = before.len() as int;
            assert(events@[n].received_at == received_at);
            assert(on_schedule(events@[n], schedule.days@));
            assert forall|i: int| 0 <= i < events@.len() implies body_matches(#[trigger] events@[i]) by {
                if i < n {
                    assert(events@[i] == before[i]);
                }
            }
            assert forall|i: int| 0 <= i < events@.len() implies on_schedule(#[trigger] events@[i], schedule.days@) by {
                if i < n {
                    assert(events@[i] == before[i]);
                }
            }
            assert(templates_of(events@) =~= templates_of(start) + repeat_template(BulkTemplate::InitialPublish, (j + 1) as nat)) by {
                let lhs = templates_of(events@);
                let rhs = templates_of(start) + repeat_template(BulkTemplate::InitialPublish, (j + 1) as nat);
                assert(templates_of(before) == templates_of(start) + repeat_template(BulkTemplate::InitialPublish, j as nat));
                assert forall|i: int| 0 <= i < lhs.len() implies lhs[i] == rhs[i] by {
                    if i < n {
                        assert(events@[i] == before[i]);
                        assert(templates_of(before)[i] == before[i].template);
                    }
                }
            }
            assert(events@.subrange(0, base) =~= start) by {
                assert(before.subrange(0, base) == start);
            }
            assert forall|q: nat| q < j + 1 implies #[trigger] direct_ok(events@, base, q) by {
                if q < j {
                    assert(direct_ok(before, base, q));
                    assert(events@[base + q] == before[base + q]);
                } else {
                    assert(base + q == n);
                }
            }
            assert(s_before == draws_state(s0, schedule.days@, j as nat));
            assert(received_at == received_at_spec(s_before, schedule.days@).0);
            assert forall|q: nat| q < j + 1 implies #[trigger] drawn_at(events@, base, q, s0, schedule.days@) by {
                if q < j {
                    assert(drawn_at(before, base, q, s0, schedule.days@));
                    assert(events@[base + q] == before[base + q]);
                } else {
                    assert(base + q == n);
                }
            }
        }
        j = j + 1;
    }
}

fn direct_id(api: &str, j: u32) -> (r: String)
    ensures
        r@ == direct_content_id(api@, j as nat),
{
    let mut id = copy_str("metric-");
    push_str(&mut id, api);
    push_str(&mut id, "-direct-");
    let digits = u64_text(j as u64);
    push_str(&mut id, digits.as_str());
    id
}

fn generate_fillers<F: Fn(u64, u32) -> u32>(
    rng: &mut SeededRng,
    schedule: &BulkDaySchedule,
    contents: u32,
    templates: &Vec<BulkTemplate>,
    events: &mut Vec<BulkEvent>,
    min_dt: &mut Option<i64>,
    max_dt: &mut Option<i64>,
    index_of: &F,
)
    requires
        schedule_roomy(*schedule),
        generated_ok(old(events)@, schedule.days@, *old(min_dt), *old(max_dt)),
        templates@.len() > 0 ==> contents >= 1,
        forall|raw: u64, n: u32| index_of.requires((raw, n)),
    ensures
        final(events)@.len() == old(events)@.len() + templates@.len(),
        final(events)@.subrange(0, old(events)@.len() as int) == old(events)@,
        templates_of(final(events)@) == templates_of(old(events)@) + templates@,
        forall|j: int| 0 <= j < templates@.len() ==> #[trigger] filler_ok(final(events)@[old(events)@.len() + j], contents, *index_of),
        generated_ok(final(events)@, schedule.days@, *final(min_dt), *final(max_dt)),
        final(rng)@ == fillers_state(old(rng)@, schedule.days@, templates@.len()),
        forall|j: nat| j < templates@.len() ==> #[trigger] filler_drawn(final(events)@, old(events)@.len() as int, j,
            old(rng)@, schedule.days@, contents, *index_of),
{
    let ghost base = events@.len() as int;
    let ghost start = events@;
    let ghost s0 = rng@;
    let apis = bulk_apis();
    let mut j: usize = 0;
    while j < templates.len()
        invariant
            schedule_roomy(*schedule),
            templates@.len() > 0 ==> contents >= 1,
            forall|raw: u64, n: u32| index_of.requires((raw, n)),
            apis@.len() == 10,
            forall|i: int| 0 <= i < 10 ==> (#[trigger] apis@[i])@ == bulk_api_names()[i],
            j <= templates@.len(),
            base == start.len(),
            events@.len() == base + j,
            events@.subrange(0, base) == start,
            templates_of(events@) == templates_of(start) + templates@.subrange(0, j as int),
            forall|q: int| 0 <= q < j ==> #[trigger] filler_ok(events@[base + q], contents, *index_of),
            generated_ok(events@, schedule.days@, *min_dt, *max_dt),
            s0 == old(rng)@,
            rng@ == fillers_state(s0, schedule.days@, j as nat),
            forall|q: nat| q < j ==> #[trigger] filler_drawn(events@, base, q, s0, schedule.days@, contents, *index_of),
        decreases templates.len() - j,
    {
        let template = templates[j];
        let ghost s_before = rng@;
        let received_at = draw_event_instant(rng, schedule);
        let ghost s_mid = rng@;
        let a = rng.next_usize(10);
        let ghost s_api = rng@;
        let api = apis[a];
        let content_id = pick_content_id(rng, contents, index_of);
        proof {
            lemma_roomy_days_before(received_at, 1);
            lemma_roomy_days_before(received_at, 7);
        }
        let ghost before = events@;
        push_bulk_event(events, min_dt, max_dt, api, content_id.as_str(), template, received_at,
            BulkEventTiming::for_filler(template));
        proof {
            let n = before.len() as int;
            assert(events@[n].received_at == received_at);
            assert(on_schedule(events@[n], schedule.days@));
            assert(events@[n].api@ == bulk_api_names()[a as int]);
            assert(filler_ok(events@[n], contents, *index_of));
            assert forall|i: int| 0 <= i < events@.len() implies body_matches(#[trigger] events@[i]) by {
                if i < n {
                    assert(events@[i] == before[i]);
                }
            }
            assert forall|i: int| 0 <= i < events@.len() implies on_schedule(#[trigger] events@[i], schedule.days@) by {
                if i < n {
                    assert(events@[i] == before[i]);
                }
            }
            assert(templates_of(events@) =~= templates_of(start) + templates@.subrange(0, j + 1)) by {
                let lhs = templates_of(events@);
                let rhs = templates_of(start) + templates@.subrange(0, j + 1);
                assert(templates_of(before) == templates_of(start) + templates@.subrange(0, j as int));
                assert forall|i: int| 0 <= i < lhs.len() implies lhs[i] == rhs[i] by {
                    if i < n {
                        assert(events@[i] == before[i]);
                        assert(templates_of(before)[i] == before[i].template);
                    }
                }
            }
            assert(events@.subrange(0, base) =~= start) by {
                assert(before.subrange(0, base) == start);
            }
            assert forall|q: int| 0 <= q < j + 1 implies #[trigger] filler_ok(events@[base + q], contents, *index_of) by {
                if q < j {
                    assert(events@[base + q] == before[base + q]);
                } else {
                    assert(base + q == n);
                }
            }
            assert(s_before == fillers_state(s0, schedule.days@, j as nat));
            assert((received_at, s_mid) == received_at_spec(s_before, schedule.days@));
            assert(s_api == lcg_next(s_mid));
            assert(rng@ == lcg_next(s_api));
            let kk = choose|kk: u32| index_of.ensures((lcg_next(s_api), contents), kk)
                && content_id@ == filler_content_id(kk as nat);
            assert(events@[n].content_id@ == filler_content_id(kk as nat));
            assert(filler_drawn(events@, base, j as nat, s0, schedule.days@, contents, *index_of));
            assert forall|q: nat| q < j + 1 implies #[trigger] filler_drawn(events@, base, q, s0, schedule.days@, contents, *index_of) by {
                if q < j {
                    assert(filler_drawn(before, base, q, s0, schedule.days@, contents, *index_of));
                    assert(events@[base + q] == before[base + q]);
                }
            }
        }
        j = j + 1;
    }
    assert(templates@.subrange(0, templates@.len() as int) =~= templates@);
}

proof fn lemma_templates_of_subrange(s: Seq<BulkEvent>, a: int, b: int)
    requires
        0 <= a <= b <= s.len(),
    ensures
        templates_of(s.subrange(a, b)) =~= templates_of(s).subrange(a, b),
{
}

/// The generator's states after the phases of a bulk run drawn from `s`:
/// after the lifecycles, the stand-alone drafts, the draft saves, the
/// direct publications, and the shuffle of the filler templates.
pub open spec fn bulk_phase_states(s: u64, days: Seq<WeightedBulkDay>, t: ActivityTargets) -> (u64, u64, u64, u64, u64) {
    let s1 = pairs_state(s, days, t.publish_from_draft as nat);
    let s2 = draws_state(s1, days, orphan_count(t));
    let s3 = draws_state(s2, days, t.save_draft as nat);
    let s4 = draws_state(s3, days, t.initial_publish as nat);
    (s1, s2, s3, s4, shuffle_spec(filler_list(t), s4, filler_list(t).len() - 1).1)
}

/// The filler templates of a bulk run drawn from `s`, in the order the
/// shuffle leaves them.
pub open spec fn shuffled_fillers(s: u64, days: Seq<WeightedBulkDay>, t: ActivityTargets) -> Seq<BulkTemplate> {
    shuffle_spec(filler_list(t), bulk_phase_states(s, days, t).3, filler_list(t).len() - 1).0
}

/// The templates of a bulk run drawn from generator state `s`, in order:
/// a draft and a publication per lifecycle, the stand-alone drafts, the
/// draft saves, the direct publications, then the shuffled fillers.
pub open spec fn bulk_templates(s: u64, days: Seq<WeightedBulkDay>, t: ActivityTargets) -> Seq<BulkTemplate> {
    pair_templates(t.publish_from_draft as nat) + repeat_template(BulkTemplate::InitialDraft, orphan_count(t))
        + repeat_template(BulkTemplate::SaveDraft, t.save_draft as nat)
        + repeat_template(BulkTemplate::InitialPublish, t.initial_publish as nat) + shuffled_fillers(s, days, t)
}

/// The events of a bulk run drawn from generator state `s` over the
/// schedule days `days` for targets `t`, from position 0: the lifecycles,
/// the stand-alone drafts, the draft saves, the direct publications and
/// the shuffled fillers, in that order, each with its template, API,
/// content, timing and drawn receipt instant.
pub open spec fn bulk_events_drawn<F: Fn(u64, u32) -> u32>(
    ev: Seq<BulkEvent>,
    s: u64,
    days: Seq<WeightedBulkDay>,
    t: ActivityTargets,
    contents: u32,
    index_of: F,
) -> bool {
    let st = bulk_phase_states(s, days, t);
    let b1 = 2 * t.publish_from_draft;
    let b2 = b1 + orphan_count(t);
    let b3 = b2 + t.save_draft;
    let b4 = b3 + t.initial_publish;
    &&& templates_of(ev) == bulk_templates(s, days, t)
    &&& forall|p: nat| p < t.publish_from_draft ==> #[trigger] pair_ok(ev, 0, p) && pair_drawn(ev, 0, p, s, days)
    &&& forall|j: nat| j < orphan_count(t) ==> #[trigger] orphan_ok(ev, b1, j) && drawn_at(ev, b1, j, st.0, days)
    &&& forall|j: nat| j < t.save_draft ==> #[trigger] save_ok(ev, b2, j) && drawn_at(ev, b2, j, st.1, days)
    &&& forall|j: nat| j < t.initial_publish ==> #[trigger] direct_ok(ev, b3, j) && drawn_at(ev, b3, j, st.2, days)
    &&& forall|j: nat| j < filler_count(t) ==> #[trigger] filler_drawn(ev, b4, j, st.4, days, contents, index_of)
        && filler_ok(ev[b4 + j], contents, index_of)
}

/// The number of events a run with these targets generates: two per
/// lifecycle, then the stand-alone drafts, draft saves, direct
/// publications and fillers.
pub open spec fn generated_count(t: ActivityTargets) -> nat {
    2 * t.publish_from_draft as nat + orphan_count(t) + t.save_draft as nat + t.initial_publish as nat
        + filler_count(t)
}

/// Generates the events of a bulk data set and appends them to `events`,
/// widening the earliest and latest JST days seen to cover them.
///
/// The events come in this order: `publish_from_draft` lifecycles (an
/// initial draft, then its publication, on the same content), stand-alone
/// drafts up to the draft target, draft saves, direct publications, and
/// the shuffled filler events of every other kind, whose contents
/// `index_of` picks from the generator's draws. Every event is received on
/// a day of the schedule, at the instant drawn for it in this order
/// (`pair_drawn`, `drawn_at`, `filler_drawn`); each kind occurs its target
/// number of times (lifecycle and stand-alone drafts together making the
/// larger of the draft and publication targets).
#[verifier::rlimit(40)]
#[verifier::spinoff_prover]
pub fn generate_bulk_activity_events<F: Fn(u64, u32) -> u32>(
    config: &DebugSeedConfig,
    rng: &mut SeededRng,
    schedule: &BulkDaySchedule,
    targets: &ActivityTargets,
    events: &mut Vec<BulkEvent>,
    min_dt: &mut Option<i64>,
    max_dt: &mut Option<i64>,
    index_of: &F,
)
    requires
        schedule_roomy(*schedule),
        generated_ok(old(events)@, schedule.days@, *old(min_dt), *old(max_dt)),
        filler_count(*targets) > 0 ==> config.contents >= 1,
        forall|raw: u64, n: u32| index_of.requires((raw, n)),
    ensures
        final(events)@.len() == old(events)@.len() + generated_count(*targets),
        final(events)@.subrange(0, old(events)@.len() as int) == old(events)@,
        templates_of(final(events)@) == templates_of(old(events)@) + bulk_templates(old(rng)@, schedule.days@, *targets),
        forall|k: BulkTemplate| #[trigger] templates_of(final(events)@.subrange(old(events)@.len() as int,
            final(events)@.len() as int)).to_multiset().count(k) == target_count(*targets, k),
        forall|p: nat| p < targets.publish_from_draft ==> #[trigger] pair_ok(final(events)@, old(events)@.len() as int, p),
        forall|j: nat| j < orphan_count(*targets) ==> #[trigger] orphan_ok(final(events)@,
            old(events)@.len() + 2 * targets.publish_from_draft, j),
        forall|j: nat| j < targets.save_draft ==> #[trigger] save_ok(final(events)@,
            old(events)@.len() + 2 * targets.publish_from_draft + orphan_count(*targets), j),
        forall|j: nat| j < targets.initial_publish ==> #[trigger] direct_ok(final(events)@,
            old(events)@.len() + 2 * targets.publish_from_draft + orphan_count(*targets) + targets.save_draft, j),
        forall|j: int| 0 <= j < filler_count(*targets) ==> #[trigger] filler_ok(final(events)@[old(events)@.len()
            + 2 * targets.publish_from_draft + orphan_count(*targets) + targets.save_draft
            + targets.initial_publish + j], config.contents, *index_of),
        forall|j: int| 0 <= j < filler_count(*targets) ==> is_filler_template((#[trigger] final(events)@[old(events)@.len()
            + 2 * targets.publish_from_draft + orphan_count(*targets) + targets.save_draft
            + targets.initial_publish + j]).template),
        generated_ok(final(events)@, schedule.days@, *final(min_dt), *final(max_dt)),
        final(rng)@ == fillers_state(bulk_phase_states(old(rng)@, schedule.days@, *targets).4, schedule.days@,
            filler_count(*targets)),
        forall|p: nat| p < targets.publish_from_draft ==> #[trigger] pair_drawn(final(events)@,
            old(events)@.len() as int, p, old(rng)@, schedule.days@),
        forall|j: nat| j < orphan_count(*targets) ==> #[trigger] drawn_at(final(events)@,
            old(events)@.len() + 2 * targets.publish_from_draft, j,
            bulk_phase_states(old(rng)@, schedule.days@, *targets).0, schedule.days@),
        forall|j: nat| j < targets.save_draft ==> #[trigger] drawn_at(final(events)@,
            old(events)@.len() + 2 * targets.publish_from_draft + orphan_count(*targets), j,
            bulk_phase_states(old(rng)@, schedule.days@, *targets).1, schedule.days@),
        forall|j: nat| j < targets.initial_publish ==> #[trigger] drawn_at(final(events)@,
            old(events)@.len() + 2 * targets.publish_from_draft + orphan_count(*targets) + targets.save_draft, j,
            bulk_phase_states(old(rng)@, schedule.days@, *targets).2, schedule.days@),
        forall|j: nat| j < filler_count(*targets) ==> #[trigger] filler_drawn(final(events)@, old(events)@.len()
            + 2 * targets.publish_from_draft + orphan_count(*targets) + targets.save_draft + targets.initial_publish,
            j, bulk_phase_states(old(rng)@, schedule.days@, *targets).4, schedule.days@, config.contents, *index_of),
        forall|j: int| 0 <= j < filler_count(*targets) ==> (#[trigger] final(events)@[old(events)@.len()
            + 2 * targets.publish_from_draft + orphan_count(*targets) + targets.save_draft
            + targets.initial_publish + j]).template == shuffled_fillers(old(rng)@, schedule.days@, *targets)[j],
{
    let ghost start = events@;
    let ghost s_start = rng@;
    let ghost b0 = start.len() as int;
    let orphan_drafts = targets.initial_draft.saturating_sub(targets.publish_from_draft);
    generate_metric_pairs(rng, schedule, targets.publish_from_draft, events, min_dt, max_dt);
    let ghost e1 = events@;
    generate_orphan_drafts(rng, schedule, orphan_drafts, events, min_dt, max_dt);
    let ghost e2 = events@;
    generate_draft_saves(rng, schedule, targets.save_draft, events, min_dt, max_dt);
    let ghost e3 = events@;
    generate_direct_publications(rng, schedule, targets.initial_publish, events, min_dt, max_dt);
    let ghost e4 = events@;
    let mut fillers = filler_templates(targets);
    proof {
        lemma_filler_list_count(*targets, BulkTemplate::UpdatePublished);
    }
    let ghost unshuffled = fillers@;
    let ghost state_before_shuffle = rng@;
    shuffle_bulk_templates(rng, &mut fillers);
    proof {
        lemma_shuffle_keeps_templates(unshuffled, state_before_shuffle, unshuffled.len() - 1);
        assert(fillers@.len() == filler_count(*targets));
    }
    generate_fillers(rng, schedule, config.contents, &fillers, events, min_dt, max_dt, index_of);
    proof {
        let pfd = targets.publish_from_draft as int;
        let o = orphan_count(*targets) as int;
        let sv = targets.save_draft as int;
        let ip = targets.initial_publish as int;
        assert(orphan_drafts == o);
        let fin = events@;
        // Earlier phases survive later appends.
        assert forall|i: int| 0 <= i < e1.len() implies fin[i] == e1[i] by {
            assert(e2.subrange(0, e1.len() as int)[i] == e1[i]);
            assert(e3.subrange(0, e2.len() as int)[i] == e2[i]);
            assert(e4.subrange(0, e3.len() as int)[i] == e3[i]);
            assert(fin.subrange(0, e4.len() as int)[i] == e4[i]);
        }
        assert forall|i: int| 0 <= i < e2.len() implies fin[i] == e2[i] by {
            assert(e3.subrange(0, e2.len() as int)[i] == e2[i]);
            assert(e4.subrange(0, e3.len() as int)[i] == e3[i]);
            assert(fin.subrange(0, e4.len() as int)[i] == e4[i]);
        }
        assert forall|i: int| 0 <= i < e3.len() implies fin[i] == e3[i] by {
            assert(e4.subrange(0, e3.len() as int)[i] == e3[i]);
            assert(fin.subrange(0, e4.len() as int)[i] == e4[i]);
        }
        assert forall|i: int| 0 <= i < e4.len() implies fin[i] == e4[i] by {
            assert(fin.subrange(0, e4.len() as int)[i] == e4[i]);
        }
        assert(fin.subrange(0, b0) =~= start) by {
            assert forall|i: int| 0 <= i < b0 implies fin[i] == start[i] by {
                assert(e1.subrange(0, b0)[i] == start[i]);
            }
        }
        assert forall|p: nat| p < targets.publish_from_draft implies #[trigger] pair_ok(fin, b0, p) by {
            assert(pair_ok(e1, b0, p));
            assert(fin[b0 + 2 * p] == e1[b0 + 2 * p]);
            assert(fin[b0 + 2 * p + 1] == e1[b0 + 2 * p + 1]);
        }
        assert forall|j: nat| j < orphan_count(*targets) implies #[trigger] orphan_ok(fin, b0 + 2 * pfd, j) by {
            assert(orphan_ok(e2, e1.len() as int, j));
            assert(fin[b0 + 2 * pfd + j] == e2[b0 + 2 * pfd + j]);
        }
        assert forall|j: nat| j < targets.save_draft implies #[trigger] save_ok(fin, b0 + 2 * pfd + o, j) by {
            assert(save_ok(e3, e2.len() as int, j));
            assert(fin[b0 + 2 * pfd + o + j] == e3[b0 + 2 * pfd + o + j]);
        }
        assert forall|j: nat| j < targets.initial_publish implies #[trigger] direct_ok(fin, b0 + 2 * pfd + o + sv, j) by {
            assert(direct_ok(e4, e3.len() as int, j));
            assert(fin[b0 + 2 * pfd + o + sv + j] == e4[b0 + 2 * pfd + o + sv + j]);
        }
        // Template counts of the new events.
        let new_part = pair_templates(pfd as nat) + repeat_template(BulkTemplate::InitialDraft, o as nat)
            + repeat_template(BulkTemplate::SaveDraft, sv as nat)
            + repeat_template(BulkTemplate::InitialPublish, ip as nat) + fillers@;
        assert(templates_of(fin) =~= templates_of(start) + new_part);
        assert(new_part =~= bulk_templates(s_start, schedule.days@, *targets));
        lemma_templates_of_subrange(fin, b0, fin.len() as int);
        assert(templates_of(fin.subrange(b0, fin.len() as int)) =~= new_part);
        assert forall|k: BulkTemplate| #[trigger] templates_of(fin.subrange(b0, fin.len() as int)).to_multiset().count(k)
            == target_count(*targets, k) by {
            lemma_pair_count(pfd as nat, k);
            lemma_repeat_count(BulkTemplate::InitialDraft, o as nat, k);
            lemma_repeat_count(BulkTemplate::SaveDraft, sv as nat, k);
            lemma_repeat_count(BulkTemplate::InitialPublish, ip as nat, k);
            lemma_filler_list_count(*targets, k);
            let a1 = pair_templates(pfd as nat);
            let a2 = repeat_template(BulkTemplate::InitialDraft, o as nat);
            let a3 = repeat_template(BulkTemplate::SaveDraft, sv as nat);
            let a4 = repeat_template(BulkTemplate::InitialPublish, ip as nat);
            lemma_concat_count(a1, a2, k);
            lemma_concat_count(a1 + a2, a3, k);
            lemma_concat_count(a1 + a2 + a3, a4, k);
            lemma_concat_count(a1 + a2 + a3 + a4, fillers@, k);
        }
        let days = schedule.days@;
        assert forall|p: nat| p < targets.publish_from_draft implies #[trigger] pair_drawn(fin, b0, p, s_start, days) by {
            assert(pair_drawn(e1, b0, p, s_start, days));
            assert(fin[b0 + 2 * p] == e1[b0 + 2 * p]);
            assert(fin[b0 + 2 * p + 1] == e1[b0 + 2 * p + 1]);
        }
        let st = bulk_phase_states(s_start, days, *targets);
        assert forall|j: nat| j < orphan_count(*targets) implies #[trigger] drawn_at(fin, b0 + 2 * pfd, j, st.0, days) by {
            assert(drawn_at(e2, e1.len() as int, j, st.0, days));
            assert(fin[b0 + 2 * pfd + j] == e2[b0 + 2 * pfd + j]);
        }
        assert forall|j: nat| j < targets.save_draft implies #[trigger] drawn_at(fin, b0 + 2 * pfd + o, j, st.1, days) by {
            assert(drawn_at(e3, e2.len() as int, j, st.1, days));
            assert(fin[b0 + 2 * pfd + o + j] == e3[b0 + 2 * pfd + o + j]);
        }
        assert forall|j: nat| j < targets.initial_publish implies #[trigger] drawn_at(fin, b0 + 2 * pfd + o + sv, j, st.2, days) by {
            assert(drawn_at(e4, e3.len() as int, j, st.2, days));
            assert(fin[b0 + 2 * pfd + o + sv + j] == e4[b0 + 2 * pfd + o + sv + j]);
        }
        let b5 = b0 + 2 * pfd + o + sv + ip;
        assert forall|j: int| 0 <= j < filler_count(*targets) implies (#[trigger] fin[b5 + j]).template
            == shuffled_fillers(s_start, days, *targets)[j] by {
            assert(templates_of(fin)[b5 + j] == fin[b5 + j].template);
            assert((templates_of(start) + new_part)[b5 + j] == fillers@[j]);
        }
        assert forall|j: int| 0 <= j < filler_count(*targets) implies is_filler_template(
            (#[trigger] fin[b5 + j]).template) by {
            broadcast use vstd::seq_lib::group_to_multiset_ensures;
            assert(templates_of(fin)[b5 + j] == fin[b5 + j].template);
            assert((templates_of(start) + new_part)[b5 + j] == fillers@[j]);
            let t = fillers@[j];
            assert(fillers@.contains(t));
            assert(fillers@.to_multiset().count(t) > 0);
            lemma_filler_list_count(*targets, t);
        }
    }
}

} // verus!
