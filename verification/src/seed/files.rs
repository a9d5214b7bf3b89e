//! How generated events are laid out in files: partition directories,
//! batched file names, and the runs that produce the events.

use vstd::prelude::*;
use crate::event_kind::texts;
use crate::status::{canonicalize_statuses, strictly_sorted};
use crate::text::{copy_str, push_str, u64_text, decimal_text};
use crate::time::{UtcTimestamp, current_timestamp, jst_day, jst_day_spec, MIN_DAY, MAX_DAY, UNIX_EPOCH_DAY};
use crate::normalize::NormalizedEvent;
use crate::storage::{build_s3_key, s3_key_spec};
use crate::ingest::{EVENT_PREFIX, or_unknown};
use crate::normalize::opt_text;
use crate::seed::rng::SeededRng;
use crate::seed::config::{DebugSeedConfig, DebugSeedPreset, config_problem};
use crate::seed::activity::{compute_activity_targets, activity_targets_spec, MAX_ACTIVITY_TOTAL, share,
    lemma_targets_sum_to_total};
use crate::seed::schedule::{build_realistic_bulk_day_schedule, BulkDaySchedule, lcg_iter, schedule_spec};
use crate::seed::bulk::{BulkEvent, generate_bulk_activity_events, generated_count, generated_ok,
    schedule_roomy, templates_of, target_count, orphan_count, bulk_events_drawn, bulk_templates};
use crate::seed::template::BulkTemplate;

verus! {

/// Returns today's calendar day in JST, or `None` when the system clock
/// cannot be read as an instant (before 1970, or past the last instant
/// `chrono` represents).
pub fn jst_today() -> (d: Option<i64>)
    ensures
        d matches Some(day) ==> (exists|t: UtcTimestamp| t.valid() && t.seconds >= 0
            && day == jst_day_spec(t.seconds as int)) && UNIX_EPOCH_DAY <= day <= MAX_DAY + 1,
{
    match current_timestamp() {
        Some(now) => Some(jst_day(now)),
        None => None,
    }
}

/// The indices, in increasing order, of the first `n` entries equal to `d`.
pub open spec fn members_spec(dirs: Seq<Seq<char>>, d: Seq<char>, n: int) -> Seq<usize>
    decreases n,
{
    if n <= 0 {
        Seq::empty()
    } else {
        members_spec(dirs, d, n - 1) + if dirs[n - 1] == d { seq![(n - 1) as usize] } else { Seq::empty() }
    }
}

/// The events of one partition directory, by index.
pub struct PartitionGroup {
    pub dir: String,
    pub members: Vec<usize>,
}

pub open spec fn group_dirs(groups: Seq<PartitionGroup>) -> Seq<Seq<char>> {
    groups.map_values(|g: PartitionGroup| g.dir@)
}

fn indices_of(dirs: &Vec<String>, d: &str) -> (r: Vec<usize>)
    ensures
        r@ == members_spec(texts(dirs@), d@, dirs@.len() as int),
{
    let mut r: Vec<usize> = Vec::new();
    let mut i: usize = 0;
    while i < dirs.len()
        invariant
            i <= dirs.len(),
            r@ == members_spec(texts(dirs@), d@, i as int),
        decreases dirs.len() - i,
    {
        if crate::text::str_equal(dirs[i].as_str(), d) {
            r.push(i);
        }
        assert(texts(dirs@)[i as int] == dirs@[i as int]@);
        i = i + 1;
    }
    r
}

fn copy_texts(v: &Vec<String>) -> (r: Vec<String>)
    ensures
        texts(r@) == texts(v@),
{
    let mut r: Vec<String> = Vec::new();
    let mut i: usize = 0;
    while i < v.len()
        invariant
            i <= v.len(),
            r@.len() == i,
            forall|j: int| 0 <= j < i ==> (#[trigger] r@[j])@ == v@[j]@,
        decreases v.len() - i,
    {
        let item = v[i].clone();
        r.push(item);
        i = i + 1;
    }
    assert(texts(r@) =~= texts(v@));
    r
}

/// Groups events by their partition directories: one group per distinct
/// directory, in increasing text order, each holding the indices of its
/// events in order.
pub fn group_by_partition(dirs: &Vec<String>) -> (r: Vec<PartitionGroup>)
    ensures
        strictly_sorted(group_dirs(r@)),
        group_dirs(r@).to_set() == texts(dirs@).to_set(),
        forall|k: int| 0 <= k < r@.len() ==> (#[trigger] r@[k]).members@
            == members_spec(texts(dirs@), r@[k].dir@, dirs@.len() as int),
{
    let distinct = canonicalize_statuses(copy_texts(dirs));
    let mut groups: Vec<PartitionGroup> = Vec::new();
    let mut k: usize = 0;
    while k < distinct.len()
        invariant
            k <= distinct.len(),
            strictly_sorted(texts(distinct@)),
            texts(distinct@).to_set() == texts(dirs@).to_set(),
            groups@.len() == k,
            forall|j: int| 0 <= j < k ==> (#[trigger] groups@[j]).dir@ == distinct@[j]@,
            forall|j: int| 0 <= j < k ==> (#[trigger] groups@[j]).members@
                == members_spec(texts(dirs@), groups@[j].dir@, dirs@.len() as int),
        decreases distinct.len() - k,
    {
        let d = distinct[k].clone();
        let members = indices_of(dirs, d.as_str());
        groups.push(PartitionGroup { dir: d, members });
        k = k + 1;
    }
    assert(group_dirs(groups@) =~= texts(distinct@));
    groups
}

proof fn lemma_members_spec_contains(dirs: Seq<Seq<char>>, d: Seq<char>, n: int, i: usize)
    requires
        0 <= n <= dirs.len(),
        n <= usize::MAX + 1,
    ensures
        members_spec(dirs, d, n).contains(i) <==> (i < n && dirs[i as int] == d),
    decreases n,
{
    if n > 0 {
        lemma_members_spec_contains(dirs, d, n - 1, i);
        let prev = members_spec(dirs, d, n - 1);
        let tail: Seq<usize> = if dirs[n - 1] == d { seq![(n - 1) as usize] } else { Seq::empty() };
        let all = prev + tail;
        assert(members_spec(dirs, d, n) == all);
        if all.contains(i) {
            let k = choose|k: int| 0 <= k < all.len() && all[k] == i;
            if k >= prev.len() {
                assert(tail[k - prev.len()] == i);
            } else {
                assert(prev[k] == i);
            }
        }
        if i < n && dirs[i as int] == d {
            if i == n - 1 {
                assert(all[prev.len() as int] == i);
            } else {
                let k = choose|k: int| 0 <= k < prev.len() && prev[k] == i;
                assert(all[k] == i);
            }
        }
    }
}

/// Grouping by partition places every event in exactly one group: each
/// event's directory is the directory of a group, a group holds exactly the
/// events of its directory, and no two groups share a directory.
pub proof fn lemma_groups_partition_events(dirs: Seq<Seq<char>>, groups: Seq<PartitionGroup>)
    requires
        dirs.len() <= usize::MAX,
        strictly_sorted(group_dirs(groups)),
        group_dirs(groups).to_set() == dirs.to_set(),
        forall|k: int| 0 <= k < groups.len() ==> (#[trigger] groups[k]).members@
            == members_spec(dirs, groups[k].dir@, dirs.len() as int),
    ensures
        forall|i: int| 0 <= i < dirs.len() ==> group_dirs(groups).contains(#[trigger] dirs[i]),
        forall|i: usize, k: int| 0 <= k < groups.len() ==> (#[trigger] groups[k].members@.contains(i)
            <==> (i < dirs.len() && dirs[i as int] == groups[k].dir@)),
        forall|k1: int, k2: int| 0 <= k1 < k2 < groups.len() ==> groups[k1].dir@ != groups[k2].dir@,
{
    let n = dirs.len() as int;
    assert forall|i: int| 0 <= i < n implies group_dirs(groups).contains(#[trigger] dirs[i]) by {
        assert(dirs.to_set().contains(dirs[i]));
        assert(group_dirs(groups).to_set().contains(dirs[i]));
    }
    assert forall|i: usize, k: int| 0 <= k < groups.len() implies (#[trigger] groups[k].members@.contains(i)
        <==> (i < n && dirs[i as int] == groups[k].dir@)) by {
        lemma_members_spec_contains(dirs, groups[k].dir@, n, i);
    }
    assert forall|k1: int, k2: int| 0 <= k1 < k2 < groups.len() implies groups[k1].dir@ != groups[k2].dir@ by {
        assert(group_dirs(groups)[k1] == groups[k1].dir@);
        assert(group_dirs(groups)[k2] == groups[k2].dir@);
        crate::status::lemma_text_less_irreflexive(groups[k1].dir@);
    }
}

/// The three-digit (at least) zero-padded decimal text of a number.
pub open spec fn padded3(n: nat) -> Seq<char> {
    let t = decimal_text(n);
    if t.len() == 1 { "00"@ + t } else if t.len() == 2 { "0"@ + t } else { t }
}

/// The path of batch file `shard` of a partition.
pub open spec fn shard_path_spec(partition: Seq<char>, shard: nat) -> Seq<char> {
    partition + "/events-"@ + padded3(shard) + ".parquet"@
}

/// Returns the path of batch file `shard` of a partition,
/// `{partition}/events-{shard:03}.parquet`.
pub fn shard_file_path(partition: &str, shard: u64) -> (r: String)
    ensures
        r@ == shard_path_spec(partition@, shard as nat),
{
    let digits = u64_text(shard);
    let mut r = copy_str(partition);
    push_str(&mut r, "/events-");
    let n = digits.unicode_len();
    if n == 1 {
        push_str(&mut r, "00");
    } else if n == 2 {
        push_str(&mut r, "0");
    }
    push_str(&mut r, digits.as_str());
    push_str(&mut r, ".parquet");
    r
}

/// A batch file: its path and the indices of the events it holds.
pub struct ShardFile {
    pub path: String,
    pub members: Vec<usize>,
}

/// The number of batch files of `len` events at up to `rows` per file.
pub open spec fn shard_count(len: nat, rows: nat) -> nat {
    if rows == 0 { 0 } else { ((len + rows - 1) / rows as int) as nat }
}

/// The events of batch file `s` of a group: up to `rows` consecutive
/// members from position `s * rows`.
pub open spec fn shard_members(members: Seq<usize>, rows: nat, s: nat) -> Seq<usize> {
    let lo = s * rows;
    let hi: int = if (s + 1) * rows <= members.len() { ((s + 1) * rows) as int } else { members.len() as int };
    members.subrange(lo as int, hi as int)
}

/// The batch files of one group, as (path, members).
pub open spec fn group_shards(dir: Seq<char>, members: Seq<usize>, rows: nat) -> Seq<(Seq<char>, Seq<usize>)> {
    Seq::new(shard_count(members.len(), rows), |s: int| (shard_path_spec(dir, s as nat), shard_members(members, rows, s as nat)))
}

/// The batch files of all groups, group by group.
pub open spec fn all_shards(groups: Seq<PartitionGroup>, rows: nat) -> Seq<(Seq<char>, Seq<usize>)>
    decreases groups.len(),
{
    if groups.len() == 0 {
        Seq::empty()
    } else {
        all_shards(groups.drop_last(), rows) + group_shards(groups.last().dir@, groups.last().members@, rows)
    }
}

/// The batch files as (path, members).
pub open spec fn shard_views(files: Seq<ShardFile>) -> Seq<(Seq<char>, Seq<usize>)> {
    files.map_values(|f: ShardFile| (f.path@, f.members@))
}

proof fn lemma_shard_count_step(len: int, rows: int, s: int)
    requires
        rows > 0,
        s >= 1,
        (s - 1) * rows < len <= s * rows,
    ensures
        (len + rows - 1) / rows == s,
{
    assert(s * rows <= len + rows - 1 < (s + 1) * rows) by (nonlinear_arith)
        requires (s - 1) * rows < len, len <= s * rows, rows > 0;
    vstd::arithmetic::div_mod::lemma_fundamental_div_mod(len + rows - 1, rows);
    let q = (len + rows - 1) / rows;
    let r = (len + rows - 1) % rows;
    assert(q == s) by (nonlinear_arith)
        requires
            len + rows - 1 == rows * q + r,
            0 <= r < rows,
            s * rows <= len + rows - 1,
            len + rows - 1 < (s + 1) * rows,
            rows > 0;
}

fn member_range(members: &Vec<usize>, start: usize, end: usize) -> (r: Vec<usize>)
    requires
        start <= end <= members@.len(),
    ensures
        r@ == members@.subrange(start as int, end as int),
{
    let mut r: Vec<usize> = Vec::new();
    let mut i: usize = start;
    while i < end
        invariant
            start <= i <= end <= members@.len(),
            r@ == members@.subrange(start as int, i as int),
        decreases end - i,
    {
        r.push(members[i]);
        i = i + 1;
        assert(r@ =~= members@.subrange(start as int, i as int));
    }
    r
}

/// Splits each group into batch files of up to `rows_per_file` events, in
/// member order, named `{dir}/events-{shard:03}.parquet`, group by group.
pub fn shard_files(groups: &Vec<PartitionGroup>, rows_per_file: u32) -> (r: Vec<ShardFile>)
    requires
        rows_per_file > 0,
    ensures
        shard_views(r@) == all_shards(groups@, rows_per_file as nat),
{
    let rows = rows_per_file as usize;
    let ghost nrows = rows_per_file as nat;
    let mut files: Vec<ShardFile> = Vec::new();
    let mut k: usize = 0;
    while k < groups.len()
        invariant
            rows == rows_per_file,
            nrows == rows_per_file as nat,
            rows > 0,
            k <= groups@.len(),
            shard_views(files@) == all_shards(groups@.subrange(0, k as int), nrows),
        decreases groups.len() - k,
    {
        let g = &groups[k];
        let len = g.members.len();
        let ghost before = shard_views(files@);
        let ghost gs = group_shards(g.dir@, g.members@, nrows);
        let mut start: usize = 0;
        let mut s: usize = 0;
        while start < len
            invariant
                rows == rows_per_file,
                nrows == rows_per_file as nat,
                rows > 0,
                len == g.members@.len(),
                gs == group_shards(g.dir@, g.members@, nrows),
                start <= len,
                start == s * rows || (start == len && (s - 1) * rows < len <= s * rows && s >= 1),
                s == 0 ==> start == 0,
                s <= shard_count(len as nat, nrows),
                start < len ==> start == s * rows,
                shard_views(files@) == before + gs.subrange(0, s as int),
            decreases len - start,
        {
            proof {
                assert(start == s * rows);
                assert(s * rows < len);
                assert(s < len) by (nonlinear_arith)
                    requires s * rows < len, rows > 0;
                assert(s < shard_count(len as nat, nrows)) by {
                    assert(((len + rows - 1) / rows as int) > s) by (nonlinear_arith)
                        requires s * rows < len, rows > 0;
                }
            }
            let end: usize = if len - start > rows { start + rows } else { len };
            let members = member_range(&g.members, start, end);
            let path = shard_file_path(g.dir.as_str(), s as u64);
            let ghost prev = shard_views(files@);
            files.push(ShardFile { path, members });
            proof {
                assert(gs[s as int] == (shard_path_spec(g.dir@, s as nat), shard_members(g.members@, nrows, s as nat)));
                assert((s + 1) * rows == s * rows + rows) by (nonlinear_arith);
                assert(shard_views(files@) =~= prev.push((shard_path_spec(g.dir@, s as nat), shard_members(g.members@, nrows, s as nat))));
                assert(gs.subrange(0, s + 1) =~= gs.subrange(0, s as int).push(gs[s as int]));
            }
            start = end;
            s = s + 1;
            proof {
                assert((s - 1) * rows == s * rows - rows) by (nonlinear_arith);
            }
        }
        proof {
            if s >= 1 {
                if start == s * rows {
                    assert((s - 1) * rows < len) by (nonlinear_arith)
                        requires s * rows == len, rows > 0, s >= 1;
                }
                lemma_shard_count_step(len as int, rows as int, s as int);
                assert(((len as nat + nrows - 1) / (nrows as int)) == s);
            } else {
                assert(len == 0);
                vstd::arithmetic::div_mod::lemma_basic_div(nrows - 1, nrows as int);
            }
            assert(s == shard_count(len as nat, nrows));
            assert(gs.subrange(0, s as int) =~= gs);
            assert(groups@.subrange(0, k + 1).drop_last() =~= groups@.subrange(0, k as int));
            assert(groups@.subrange(0, k + 1).last() == groups@[k as int]);
        }
        k = k + 1;
    }
    assert(groups@.subrange(0, groups@.len() as int) =~= groups@);
    files
}

/// The members of a run of batch files, in order.
pub open spec fn concat_members(shards: Seq<(Seq<char>, Seq<usize>)>) -> Seq<usize>
    decreases shards.len(),
{
    if shards.len() == 0 {
        Seq::empty()
    } else {
        concat_members(shards.drop_last()) + shards.last().1
    }
}

/// The batch files of a group hold its members in order, each once: their
/// members, concatenated, are the group's members.
pub proof fn lemma_shards_cover_members(dir: Seq<char>, members: Seq<usize>, rows: nat)
    requires
        rows > 0,
    ensures
        concat_members(group_shards(dir, members, rows)) == members,
{
    let gs = group_shards(dir, members, rows);
    let n = gs.len() as int;
    let len = members.len() as int;
    assert forall|s: int| 0 <= s <= n implies #[trigger] concat_members(gs.subrange(0, s))
        == members.subrange(0, if s * rows <= len { s * rows } else { len }) by {
        lemma_concat_prefix(dir, members, rows, s);
    }
    if n > 0 {
        assert(n * rows >= len) by (nonlinear_arith)
            requires n == (len + rows - 1) / (rows as int), rows > 0;
    } else {
        assert(len == 0) by (nonlinear_arith)
            requires n == (len + rows - 1) / (rows as int), rows > 0, len >= 0, n == 0;
    }
    assert(gs.subrange(0, n) =~= gs);
    assert(members.subrange(0, len) =~= members);
}

/// The members of the groups, group by group.
pub open spec fn group_members_concat(groups: Seq<PartitionGroup>) -> Seq<usize>
    decreases groups.len(),
{
    if groups.len() == 0 {
        Seq::empty()
    } else {
        group_members_concat(groups.drop_last()) + groups.last().members@
    }
}

proof fn lemma_concat_members_add(a: Seq<(Seq<char>, Seq<usize>)>, b: Seq<(Seq<char>, Seq<usize>)>)
    ensures
        concat_members(a + b) == concat_members(a) + concat_members(b),
    decreases b.len(),
{
    if b.len() == 0 {
        assert(a + b =~= a);
        assert(concat_members(a) + concat_members(b) =~= concat_members(a));
    } else {
        assert((a + b).drop_last() =~= a + b.drop_last());
        assert((a + b).last() == b.last());
        lemma_concat_members_add(a, b.drop_last());
        assert(concat_members(a) + concat_members(b) =~= concat_members(a) + concat_members(b.drop_last()) + b.last().1);
    }
}

proof fn lemma_all_shards_members(groups: Seq<PartitionGroup>, rows: nat)
    requires
        rows > 0,
    ensures
        concat_members(all_shards(groups, rows)) == group_members_concat(groups),
    decreases groups.len(),
{
    if groups.len() > 0 {
        lemma_all_shards_members(groups.drop_last(), rows);
        let g = groups.last();
        lemma_concat_members_add(all_shards(groups.drop_last(), rows), group_shards(g.dir@, g.members@, rows));
        lemma_shards_cover_members(g.dir@, g.members@, rows);
    }
}

/// How many of `gdirs` equal `x`.
spec fn count_dir(gdirs: Seq<Seq<char>>, x: Seq<char>) -> nat
    decreases gdirs.len(),
{
    if gdirs.len() == 0 {
        0
    } else {
        count_dir(gdirs.drop_last(), x) + if gdirs.last() == x { 1nat } else { 0nat }
    }
}

/// The members of the first `m` events over the directories `gdirs`, in all.
spec fn members_total(gdirs: Seq<Seq<char>>, dirs: Seq<Seq<char>>, m: int) -> nat
    decreases gdirs.len(),
{
    if gdirs.len() == 0 {
        0
    } else {
        members_total(gdirs.drop_last(), dirs, m) + members_spec(dirs, gdirs.last(), m).len()
    }
}

proof fn lemma_members_total_step(gdirs: Seq<Seq<char>>, dirs: Seq<Seq<char>>, m: int)
    requires
        m >= 1,
    ensures
        members_total(gdirs, dirs, m) == members_total(gdirs, dirs, m - 1) + count_dir(gdirs, dirs[m - 1]),
    decreases gdirs.len(),
{
    if gdirs.len() > 0 {
        lemma_members_total_step(gdirs.drop_last(), dirs, m);
    }
}

proof fn lemma_members_total_empty(gdirs: Seq<Seq<char>>, dirs: Seq<Seq<char>>)
    ensures
        members_total(gdirs, dirs, 0) == 0,
    decreases gdirs.len(),
{
    if gdirs.len() > 0 {
        lemma_members_total_empty(gdirs.drop_last(), dirs);
    }
}

proof fn lemma_count_dir_once(gdirs: Seq<Seq<char>>, x: Seq<char>)
    requires
        gdirs.contains(x),
        forall|a: int, b: int| 0 <= a < b < gdirs.len() ==> gdirs[a] != gdirs[b],
    ensures
        count_dir(gdirs, x) == 1,
    decreases gdirs.len(),
{
    let front = gdirs.drop_last();
    if gdirs.last() == x {
        assert(!front.contains(x)) by {
            if front.contains(x) {
                let a = choose|a: int| 0 <= a < front.len() && front[a] == x;
                assert(gdirs[a] == gdirs[gdirs.len() - 1]);
            }
        }
        lemma_count_dir_none(front, x);
    } else {
        let a = choose|a: int| 0 <= a < gdirs.len() && gdirs[a] == x;
        assert(front[a] == x);
        lemma_count_dir_once(front, x);
    }
}

proof fn lemma_count_dir_none(gdirs: Seq<Seq<char>>, x: Seq<char>)
    requires
        !gdirs.contains(x),
    ensures
        count_dir(gdirs, x) == 0,
    decreases gdirs.len(),
{
    if gdirs.len() > 0 {
        let front = gdirs.drop_last();
        assert(!front.contains(x)) by {
            if front.contains(x) {
                let a = choose|a: int| 0 <= a < front.len() && front[a] == x;
                assert(gdirs[a] == x);
            }
        }
        assert(gdirs[gdirs.len() - 1] != x);
        lemma_count_dir_none(front, x);
    }
}

proof fn lemma_members_total_all(gdirs: Seq<Seq<char>>, dirs: Seq<Seq<char>>, m: int)
    requires
        0 <= m <= dirs.len(),
        forall|i: int| 0 <= i < dirs.len() ==> gdirs.contains(#[trigger] dirs[i]),
        forall|a: int, b: int| 0 <= a < b < gdirs.len() ==> gdirs[a] != gdirs[b],
    ensures
        members_total(gdirs, dirs, m) == m,
    decreases m,
{
    if m == 0 {
        lemma_members_total_empty(gdirs, dirs);
    } else {
        lemma_members_total_all(gdirs, dirs, m - 1);
        lemma_members_total_step(gdirs, dirs, m);
        assert(gdirs.contains(dirs[m - 1]));
        lemma_count_dir_once(gdirs, dirs[m - 1]);
    }
}

proof fn lemma_group_members_len(groups: Seq<PartitionGroup>, dirs: Seq<Seq<char>>)
    requires
        forall|k: int| 0 <= k < groups.len() ==> (#[trigger] groups[k]).members@
            == members_spec(dirs, groups[k].dir@, dirs.len() as int),
    ensures
        group_members_concat(groups).len() == members_total(group_dirs(groups), dirs, dirs.len() as int),
    decreases groups.len(),
{
    if groups.len() > 0 {
        let front = groups.drop_last();
        assert forall|k: int| 0 <= k < front.len() implies (#[trigger] front[k]).members@
            == members_spec(dirs, front[k].dir@, dirs.len() as int) by {
            assert(front[k] == groups[k]);
        }
        lemma_group_members_len(front, dirs);
        assert(group_dirs(groups).drop_last() =~= group_dirs(front));
        assert(group_dirs(groups).last() == groups.last().dir@);
    }
}

/// The batch files of a grouping hold, in all, one row per event: grouping
/// the events by partition and splitting each group into files of up to
/// `rows` rows leaves as many rows across the files as there are events.
pub proof fn lemma_files_hold_every_event(dirs: Seq<Seq<char>>, groups: Seq<PartitionGroup>, files: Seq<ShardFile>, rows: nat)
    requires
        dirs.len() <= usize::MAX,
        rows > 0,
        strictly_sorted(group_dirs(groups)),
        group_dirs(groups).to_set() == dirs.to_set(),
        forall|k: int| 0 <= k < groups.len() ==> (#[trigger] groups[k]).members@
            == members_spec(dirs, groups[k].dir@, dirs.len() as int),
        shard_views(files) == all_shards(groups, rows),
    ensures
        concat_members(shard_views(files)).len() == dirs.len(),
{
    lemma_groups_partition_events(dirs, groups);
    let gdirs = group_dirs(groups);
    assert forall|a: int, b: int| 0 <= a < b < gdirs.len() implies gdirs[a] != gdirs[b] by {
        assert(gdirs[a] == groups[a].dir@ && gdirs[b] == groups[b].dir@);
    }
    lemma_members_total_all(gdirs, dirs, dirs.len() as int);
    lemma_group_members_len(groups, dirs);
    lemma_all_shards_members(groups, rows);
}

proof fn lemma_concat_prefix(dir: Seq<char>, members: Seq<usize>, rows: nat, s: int)
    requires
        rows > 0,
        0 <= s <= group_shards(dir, members, rows).len(),
    ensures
        concat_members(group_shards(dir, members, rows).subrange(0, s))
            == members.subrange(0, if s * rows <= members.len() { s * rows } else { members.len() as int }),
    decreases s,
{
    let gs = group_shards(dir, members, rows);
    let len = members.len() as int;
    if s == 0 {
        assert(gs.subrange(0, 0) =~= Seq::<(Seq<char>, Seq<usize>)>::empty());
        assert(members.subrange(0, 0) =~= Seq::<usize>::empty());
    } else {
        lemma_concat_prefix(dir, members, rows, s - 1);
        assert(gs.subrange(0, s).drop_last() =~= gs.subrange(0, s - 1));
        assert(gs.subrange(0, s).last() == gs[s - 1]);
        assert((s - 1) * rows < len) by (nonlinear_arith)
            requires s - 1 < (len + rows - 1) / (rows as int), rows > 0, len >= 0, s >= 1;
        assert(s * rows == (s - 1) * rows + rows) by (nonlinear_arith);
        let lo = (s - 1) * rows;
        let hi = if s * rows <= len { s * rows } else { len };
        let last = gs[s - 1];
        assert(last.1 == shard_members(members, rows, (s - 1) as nat));
        assert(((s - 1) as nat) * rows == lo);
        assert((((s - 1) as nat) + 1) * rows == s * rows) by (nonlinear_arith)
            requires s >= 1;
        assert(shard_members(members, rows, (s - 1) as nat) == members.subrange(lo, hi));
        assert(concat_members(gs.subrange(0, s)) == concat_members(gs.subrange(0, s - 1)) + last.1);
        assert(members.subrange(0, lo) + members.subrange(lo, hi) =~= members.subrange(0, hi));
    }
}

/// The object key a debug event is written under.
pub open spec fn seed_key_spec(e: crate::normalize::EventView, event_id: Seq<char>) -> Seq<char> {
    s3_key_spec(EVENT_PREFIX@, or_unknown(e.service), or_unknown(e.api), e.received_at, event_id)
}

/// Returns the object key a debug event is written under: the debug prefix,
/// the event's service and API (`unknown` when absent), its JST day and
/// the event id.
pub fn seed_object_key(event: &NormalizedEvent, event_id: &str) -> (r: String)
    requires
        event.received_at.valid(),
    ensures
        r@ == seed_key_spec(event@, event_id@),
{
    let service: &str = match &event.service {
        Some(s) => s.as_str(),
        None => "unknown",
    };
    let api: &str = match &event.api {
        Some(a) => a.as_str(),
        None => "unknown",
    };
    build_s3_key(EVENT_PREFIX, service, api, event.received_at, event_id)
}

/// A bulk run draws a larger share of drafts than of publications from
/// draft, so its stand-alone drafts are the difference and the events
/// generated number exactly the requested count.
pub proof fn lemma_bulk_events_number_the_count(count: u32)
    requires
        count <= MAX_ACTIVITY_TOTAL,
    ensures
        activity_targets_spec(count).initial_draft >= activity_targets_spec(count).publish_from_draft,
        generated_count(activity_targets_spec(count)) == count,
        target_count(activity_targets_spec(count), BulkTemplate::InitialDraft)
            == activity_targets_spec(count).initial_draft,
{
    lemma_targets_sum_to_total(count);
    let t = count as int;
    assert(t * 53 <= t * 400) by (nonlinear_arith) requires t >= 0;
    vstd::arithmetic::div_mod::lemma_div_is_ordered(t * 53, t * 400, 2000);
}

/// A JST day from which a bulk run of up to 3660 days back fits the
/// representable range with room to spare.
pub open spec fn bulk_today_ok(today: i64) -> bool {
    UNIX_EPOCH_DAY <= today <= MAX_DAY - 10
}

/// Generates the events of a bulk run ending on `today`: the schedule of
/// the `days` days up to today drawn from the seeded generator, then the
/// events for the targets of `count` events, with filler contents picked
/// by `index_of`. Returns the events and their earliest and latest JST
/// days.
#[verifier::rlimit(30)]
pub fn generate_bulk_events<F: Fn(u64, u32) -> u32>(config: &DebugSeedConfig, today: i64, index_of: &F)
    -> (r: (Vec<BulkEvent>, Option<i64>, Option<i64>))
    requires
        config_problem(*config) is None,
        config.preset == DebugSeedPreset::Bulk,
        config.count <= MAX_ACTIVITY_TOTAL,
        bulk_today_ok(today),
        forall|raw: u64, n: u32| index_of.requires((raw, n)),
    ensures
        r.0@.len() == config.count,
        forall|k: BulkTemplate| #[trigger] templates_of(r.0@).to_multiset().count(k)
            == target_count(activity_targets_spec(config.count), k),
        forall|i: int| 0 <= i < r.0@.len() ==> today - config.days < jst_day_spec((#[trigger] r.0@[i]).received_at.seconds as int) <= today,
        forall|i: int| 0 <= i < r.0@.len() ==> crate::seed::bulk::body_matches(#[trigger] r.0@[i]),
        crate::seed::bulk::days_covered(r.0@, r.1, r.2),
        bulk_events_drawn(r.0@, lcg_iter(config.seed, 2 * config.days as nat),
            schedule_spec(config.seed, (today - (config.days - 1)) as i64, config.days),
            activity_targets_spec(config.count), config.contents, *index_of),
{
    let start_date = today - (config.days as i64 - 1);
    let mut rng = SeededRng::new(config.seed);
    let targets = compute_activity_targets(config.count, config.days);
    let schedule = build_realistic_bulk_day_schedule(&mut rng, start_date, config.days);
    proof {
        lemma_bulk_events_number_the_count(config.count);
        assert forall|i: int| 0 <= i < schedule.days@.len() implies MIN_DAY + 33 <= (#[trigger] schedule.days@[i]).date by {
            assert(start_date <= schedule.days@[i].date);
        }
        assert(schedule_roomy(schedule));
    }
    let mut events: Vec<BulkEvent> = Vec::new();
    let mut min_dt: Option<i64> = None;
    let mut max_dt: Option<i64> = None;
    let ghost start = events@;
    let ghost s_sched = rng@;
    generate_bulk_activity_events(config, &mut rng, &schedule, &targets, &mut events, &mut min_dt,
        &mut max_dt, index_of);
    proof {
        assert(templates_of(start) + bulk_templates(s_sched, schedule.days@, targets) =~= bulk_templates(s_sched,
            schedule.days@, targets));
        assert(events@.subrange(0, events@.len() as int) =~= events@);
        assert forall|i: int| 0 <= i < events@.len() implies today - config.days
            < jst_day_spec((#[trigger] events@[i]).received_at.seconds as int) <= today by {
            assert(crate::seed::bulk::on_schedule(events@[i], schedule.days@));
            let m = choose|m: int| 0 <= m < schedule.days@.len()
                && jst_day_spec(events@[i].received_at.seconds as int) == #[trigger] schedule.days@[m].date;
            assert(start_date <= schedule.days@[m].date < start_date + config.days);
        }
    }
    (events, min_dt, max_dt)
}

} // verus!
