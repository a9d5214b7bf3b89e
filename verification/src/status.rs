//! Content status sets: extraction from a content document, canonical
//! (sorted, duplicate-free) order, and the comma-separated column text.

use vstd::prelude::*;
use crate::text::{push_char, push_str};
use crate::event_kind::texts;
use crate::json::{JsonValue, member_value, object_get};

verus! {

/// `a` sorts strictly before `b` in character (code point) order, which is
/// also the byte order of their UTF-8 encodings.
pub open spec fn text_less(a: Seq<char>, b: Seq<char>) -> bool {
    exists|k: int|
        0 <= k <= a.len() && k <= b.len() && a.subrange(0, k) == b.subrange(0, k) && (
        (k == a.len() && k < b.len()) || (k < a.len() && k < b.len() && (a[k] as int) < (b[k] as int)))
}

/// Every element sorts strictly before every later one.
pub open spec fn strictly_sorted(s: Seq<Seq<char>>) -> bool {
    forall|i: int, j: int| 0 <= i < j < s.len() ==> text_less(s[i], s[j])
}

/// `sorted` is the canonical form of the status list `raw`: the distinct
/// statuses of `raw` in increasing order.
pub open spec fn canonical_statuses(raw: Seq<Seq<char>>, sorted: Seq<Seq<char>>) -> bool {
    &&& strictly_sorted(sorted)
    &&& sorted.to_set() == raw.to_set()
}

proof fn lemma_prefix_eq_index(a: Seq<char>, b: Seq<char>, k: int, i: int)
    requires
        0 <= i < k <= a.len(),
        k <= b.len(),
        a.subrange(0, k) == b.subrange(0, k),
    ensures
        a[i] == b[i],
{
    assert(a.subrange(0, k)[i] == a[i]);
    assert(b.subrange(0, k)[i] == b[i]);
    assert(a.subrange(0, k)[i] == b.subrange(0, k)[i]);
}

/// The length of the longest common prefix of `a` and `b` within `m`.
proof fn first_mismatch(a: Seq<char>, b: Seq<char>, m: int) -> (k: int)
    requires
        0 <= m <= a.len(),
        m <= b.len(),
    ensures
        0 <= k <= m,
        forall|i: int| 0 <= i < k ==> a[i] == b[i],
        k < m ==> a[k] != b[k],
    decreases m,
{
    if m == 0 {
        0
    } else {
        let k = first_mismatch(a, b, m - 1);
        if k < m - 1 {
            k
        } else if a[m - 1] != b[m - 1] {
            m - 1
        } else {
            m
        }
    }
}

pub proof fn lemma_text_less_irreflexive(a: Seq<char>)
    ensures
        !text_less(a, a),
{
}

pub proof fn lemma_text_less_trans(a: Seq<char>, b: Seq<char>, c: Seq<char>)
    requires
        text_less(a, b),
        text_less(b, c),
    ensures
        text_less(a, c),
{
    let k1 = choose|k: int|
        0 <= k <= a.len() && k <= b.len() && a.subrange(0, k) == b.subrange(0, k) && (
        (k == a.len() && k < b.len()) || (k < a.len() && k < b.len() && (a[k] as int) < (b[k] as int)));
    let k2 = choose|k: int|
        0 <= k <= b.len() && k <= c.len() && b.subrange(0, k) == c.subrange(0, k) && (
        (k == b.len() && k < c.len()) || (k < b.len() && k < c.len() && (b[k] as int) < (c[k] as int)));
    let k = if k1 <= k2 { k1 } else { k2 };
    assert forall|i: int| 0 <= i < k implies a[i] == c[i] by {
        lemma_prefix_eq_index(a, b, k1, i);
        lemma_prefix_eq_index(b, c, k2, i);
    }
    assert(a.subrange(0, k) =~= c.subrange(0, k));
    if k1 < k2 {
        lemma_prefix_eq_index(b, c, k2, k1);
    } else if k2 < k1 {
        lemma_prefix_eq_index(a, b, k1, k2);
    }
}

pub proof fn lemma_text_less_total(a: Seq<char>, b: Seq<char>)
    requires
        a != b,
    ensures
        text_less(a, b) || text_less(b, a),
{
    let m = if a.len() <= b.len() { a.len() as int } else { b.len() as int };
    let k = first_mismatch(a, b, m);
    assert(a.subrange(0, k) =~= b.subrange(0, k));
    if k == m {
        if a.len() == b.len() {
            assert(a =~= b);
        }
    } else {
        assert((a[k] as int) != (b[k] as int));
    }
}

pub proof fn lemma_text_less_asym(a: Seq<char>, b: Seq<char>)
    requires
        text_less(a, b),
    ensures
        !text_less(b, a),
{
    if text_less(b, a) {
        lemma_text_less_trans(a, b, a);
    }
}

/// The result of comparing two texts in character order.
#[derive(Clone, Copy, Debug, PartialEq, Eq, Structural)]
pub enum TextOrder {
    Less,
    Equal,
    Greater,
}

/// Compares two texts in character order.
pub fn compare_text(a: &str, b: &str) -> (r: TextOrder)
    ensures
        (r == TextOrder::Less) == text_less(a@, b@),
        (r == TextOrder::Equal) == (a@ == b@),
        (r == TextOrder::Greater) == text_less(b@, a@),
{
    let ca = crate::text::chars_of(a);
    let cb = crate::text::chars_of(b);
    let m = if ca.len() <= cb.len() { ca.len() } else { cb.len() };
    let mut k: usize = 0;
    while k < m
        invariant
            ca@ == a@,
            cb@ == b@,
            m <= ca.len(),
            m <= cb.len(),
            m == ca.len() || m == cb.len(),
            0 <= k <= m,
            forall|i: int| 0 <= i < k ==> a@[i] == b@[i],
        decreases m - k,
    {
        let x = ca[k];
        let y = cb[k];
        if x != y {
            assert(a@.subrange(0, k as int) =~= b@.subrange(0, k as int));
            if x < y {
                proof { lemma_text_less_asym(a@, b@); }
                assert(a@ != b@);
                return TextOrder::Less;
            } else {
                assert(y < x);
                assert((b@[k as int] as int) < (a@[k as int] as int));
                proof { lemma_text_less_asym(b@, a@); }
                assert(a@ != b@);
                return TextOrder::Greater;
            }
        }
        k = k + 1;
    }
    assert(a@.subrange(0, k as int) =~= b@.subrange(0, k as int));
    if ca.len() == cb.len() {
        assert(a@ =~= b@);
        proof { lemma_text_less_irreflexive(a@); }
        TextOrder::Equal
    } else if ca.len() < cb.len() {
        proof { lemma_text_less_asym(a@, b@); }
        TextOrder::Less
    } else {
        proof { lemma_text_less_asym(b@, a@); }
        TextOrder::Greater
    }
}

/// Inserts `x` into a strictly sorted list unless it is already there.
fn insert_status(sorted: &mut Vec<String>, x: String)
    requires
        strictly_sorted(texts(old(sorted)@)),
    ensures
        strictly_sorted(texts(final(sorted)@)),
        texts(final(sorted)@).to_set() == texts(old(sorted)@).to_set().insert(x@),
{
    let ghost s0 = texts(sorted@);
    let mut p: usize = 0;
    while p < sorted.len() && compare_text(sorted[p].as_str(), x.as_str()) == TextOrder::Less
        invariant
            sorted@ == old(sorted)@,
            s0 == texts(sorted@),
            0 <= p <= sorted.len(),
            forall|i: int| 0 <= i < p ==> text_less(s0[i], x@),
        decreases sorted.len() - p,
    {
        p = p + 1;
    }
    if p < sorted.len() && compare_text(sorted[p].as_str(), x.as_str()) == TextOrder::Equal {
        assert(s0[p as int] == x@);
        assert(s0.to_set().insert(x@) =~= s0.to_set());
        return;
    }
    // every element from `p` on sorts after `x`
    assert forall|i: int| p <= i < s0.len() implies text_less(x@, s0[i]) by {
        assert(!text_less(s0[p as int], x@));
        assert(s0[p as int] != x@);
        lemma_text_less_total(s0[p as int], x@);
        if i > p {
            lemma_text_less_trans(x@, s0[p as int], s0[i]);
        }
    }
    sorted.insert(p, x);
    let ghost s1 = texts(sorted@);
    assert(s1 =~= s0.insert(p as int, x@));
    assert forall|i: int, j: int| 0 <= i < j < s1.len() implies text_less(s1[i], s1[j]) by {
        if j < p {
            assert(s1[i] == s0[i]);
            assert(s1[j] == s0[j]);
        } else if i < p && j == p {
        } else if i < p && j > p {
            assert(s1[j] == s0[j - 1]);
        } else if i == p {
            assert(s1[j] == s0[j - 1]);
        } else {
            assert(s1[i] == s0[i - 1]);
            assert(s1[j] == s0[j - 1]);
        }
    }
    assert forall|t: Seq<char>| s1.to_set().contains(t) == s0.to_set().insert(x@).contains(t) by {
        if s0.contains(t) {
            let i = choose|i: int| 0 <= i < s0.len() && s0[i] == t;
            if i < p {
                assert(s1[i] == t);
            } else {
                assert(s1[i + 1] == t);
            }
        }
        if s1.contains(t) {
            let i = choose|i: int| 0 <= i < s1.len() && s1[i] == t;
            if i < p {
                assert(s0[i] == t);
            } else if i > p {
                assert(s0[i - 1] == t);
            }
        }
        assert(s1[p as int] == x@);
    }
    assert(s1.to_set() =~= s0.to_set().insert(x@));
}

/// Puts a status list in canonical form: sorted, without duplicates.
pub fn canonicalize_statuses(raw: Vec<String>) -> (r: Vec<String>)
    ensures
        canonical_statuses(texts(raw@), texts(r@)),
{
    let ghost all = texts(raw@);
    let mut out: Vec<String> = Vec::new();
    let mut i: usize = 0;
    let mut raw = raw;
    assert(texts(out@).to_set() =~= all.subrange(0, 0).to_set());
    while i < raw.len()
        invariant
            texts(raw@) == all,
            0 <= i <= raw.len(),
            strictly_sorted(texts(out@)),
            texts(out@).to_set() == all.subrange(0, i as int).to_set(),
        decreases raw.len() - i,
    {
        let x = raw[i].clone();
        insert_status(&mut out, x);
        assert(all.subrange(0, i + 1) =~= all.subrange(0, i as int).push(all[i as int]));
        proof { all.subrange(0, i as int).lemma_push_to_set_commute(all[i as int]); }
        i = i + 1;
    }
    assert(all.subrange(0, i as int) =~= all);
    out
}

/// The string items of a document array, in order.
pub open spec fn string_items(items: Seq<JsonValue>) -> Seq<Seq<char>>
    decreases items.len(),
{
    if items.len() == 0 {
        Seq::empty()
    } else {
        let prefix = string_items(items.drop_last());
        match items.last() {
            JsonValue::Str(s) => prefix.push(s@),
            _ => prefix,
        }
    }
}

/// The `status` member of a content document that is an object.
pub open spec fn status_member(doc: Option<JsonValue>) -> Option<JsonValue> {
    match doc {
        Some(JsonValue::Object(m)) => member_value(m@, "status"@),
        _ => None,
    }
}

/// The raw status list of a content document: its `status` member as a
/// single string, or the string items of its `status` array; otherwise empty.
pub open spec fn raw_statuses(doc: Option<JsonValue>) -> Seq<Seq<char>> {
    match doc {
        Some(JsonValue::Object(m)) => match member_value(m@, "status"@) {
            Some(JsonValue::Str(s)) => seq![s@],
            Some(JsonValue::Array(items)) => string_items(items@),
            _ => Seq::empty(),
        },
        _ => Seq::empty(),
    }
}

/// A list of one status is its own canonical form; an empty list's is empty.
pub proof fn lemma_canonical_of_short_lists(raw: Seq<Seq<char>>, r: Seq<Seq<char>>)
    requires
        raw.len() <= 1,
        canonical_statuses(raw, r),
    ensures
        r == raw,
{
    assert(strictly_sorted(raw));
    lemma_sorted_statuses_unique(r, raw);
}

/// Reads the status set of a content document in canonical form: a single
/// string status gives exactly that status; a document without a string or
/// array `status` member gives none.
pub fn extract_statuses(doc: Option<&JsonValue>) -> (r: Vec<String>)
    ensures
        canonical_statuses(raw_statuses(match doc { Some(x) => Some(*x), None => None }), texts(r@)),
        status_member(match doc { Some(x) => Some(*x), None => None }) matches Some(JsonValue::Str(st))
            ==> texts(r@) == seq![st@],
        raw_statuses(match doc { Some(x) => Some(*x), None => None }).len() == 0 ==> r@.len() == 0,
{
    let ghost od = match doc { Some(x) => Some(*x), None => None };
    let mut raw: Vec<String> = Vec::new();
    if let Some(JsonValue::Object(members)) = doc {
        match object_get(members, "status") {
            Some(JsonValue::Str(s)) => {
                raw.push(s.clone());
                assert(texts(raw@) =~= raw_statuses(od));
            },
            Some(JsonValue::Array(items)) => {
                let mut i: usize = 0;
                while i < items.len()
                    invariant
                        0 <= i <= items.len(),
                        texts(raw@) == string_items(items@.subrange(0, i as int)),
                    decreases items.len() - i,
                {
                    let ghost pre = items@.subrange(0, i + 1);
                    assert(pre.drop_last() =~= items@.subrange(0, i as int));
                    if let JsonValue::Str(s) = &items[i] {
                        raw.push(s.clone());
                    }
                    assert(texts(raw@) =~= string_items(pre));
                    i = i + 1;
                }
                assert(items@.subrange(0, i as int) =~= items@);
            },
            _ => {
                assert(texts(raw@) =~= raw_statuses(od));
            },
        }
    } else {
        assert(texts(raw@) =~= raw_statuses(od));
    }
    let r = canonicalize_statuses(raw);
    proof {
        if let Some(JsonValue::Str(st)) = status_member(od) {
            assert(raw_statuses(od) == seq![st@]);
        }
        if raw_statuses(od).len() <= 1 {
            lemma_canonical_of_short_lists(raw_statuses(od), texts(r@));
        }
    }
    r
}

/// The statuses joined with commas.
pub open spec fn comma_joined(s: Seq<Seq<char>>) -> Seq<char>
    decreases s.len(),
{
    if s.len() == 0 {
        Seq::empty()
    } else if s.len() == 1 {
        s[0]
    } else {
        comma_joined(s.drop_last()) + seq![','] + s.last()
    }
}

/// The status column text: nothing for an empty set, else the statuses
/// joined with commas.
pub open spec fn status_csv_spec(s: Seq<Seq<char>>) -> Option<Seq<char>> {
    if s.len() == 0 {
        None
    } else {
        Some(comma_joined(s))
    }
}

/// Renders a status set as its column text.
pub fn status_csv(statuses: &[String]) -> (r: Option<String>)
    ensures
        match r { Some(x) => status_csv_spec(texts(statuses@)) == Some(x@), None => status_csv_spec(texts(statuses@)) is None },
{
    if statuses.len() == 0 {
        return None;
    }
    let mut out = statuses[0].clone();
    let mut i: usize = 1;
    assert(texts(statuses@).subrange(0, 1).drop_last().len() == 0);
    while i < statuses.len()
        invariant
            1 <= i <= statuses.len(),
            out@ == comma_joined(texts(statuses@).subrange(0, i as int)),
        decreases statuses.len() - i,
    {
        let ghost pre = texts(statuses@).subrange(0, i + 1);
        assert(pre.drop_last() =~= texts(statuses@).subrange(0, i as int));
        push_char(&mut out, ',');
        push_str(&mut out, statuses[i].as_str());
        assert(out@ =~= comma_joined(pre));
        i = i + 1;
    }
    assert(texts(statuses@).subrange(0, i as int) =~= texts(statuses@));
    Some(out)
}

/// The pieces of a text between commas, as `str::split(',')` yields them:
/// one more piece than there are commas, empty pieces included.
pub open spec fn split_commas(t: Seq<char>) -> Seq<Seq<char>>
    decreases t.len(),
{
    if t.len() == 0 {
        seq![Seq::empty()]
    } else {
        let pieces = split_commas(t.drop_last());
        if t.last() == ',' {
            pieces.push(Seq::empty())
        } else {
            pieces.update(pieces.len() - 1, pieces.last().push(t.last()))
        }
    }
}

pub proof fn lemma_split_nonempty(t: Seq<char>)
    ensures
        split_commas(t).len() > 0,
    decreases t.len(),
{
    if t.len() > 0 {
        lemma_split_nonempty(t.drop_last());
    }
}

/// Splitting at a comma splits the two sides apart.
proof fn lemma_split_at_comma(a: Seq<char>, b: Seq<char>)
    ensures
        split_commas(a + seq![','] + b) == split_commas(a) + split_commas(b),
    decreases b.len(),
{
    let t = a + seq![','] + b;
    lemma_split_nonempty(a);
    if b.len() == 0 {
        assert(t =~= a.push(','));
        assert(t.drop_last() =~= a);
        assert(split_commas(t) =~= split_commas(a) + split_commas(b));
    } else {
        let b1 = b.drop_last();
        assert(t.drop_last() =~= a + seq![','] + b1);
        lemma_split_at_comma(a, b1);
        lemma_split_nonempty(b1);
        let x = split_commas(a);
        let y = split_commas(b1);
        if b.last() == ',' {
            assert(split_commas(t) =~= x + y.push(Seq::empty()));
        } else {
            assert(split_commas(t) =~= x + y.update(y.len() - 1, y.last().push(b.last())));
        }
    }
}

/// A text without commas is one piece.
proof fn lemma_split_no_comma(t: Seq<char>)
    requires
        !t.contains(','),
    ensures
        split_commas(t) == seq![t],
    decreases t.len(),
{
    if t.len() > 0 {
        assert(!t.drop_last().contains(',')) by {
            if t.drop_last().contains(',') {
                let k = choose|k: int| 0 <= k < t.drop_last().len() && t.drop_last()[k] == ',';
                assert(t[k] == ',');
            }
        }
        lemma_split_no_comma(t.drop_last());
        assert(t[t.len() - 1] != ',');
        assert(t.drop_last().push(t.last()) =~= t);
        assert(seq![t.drop_last()].update(0, t.drop_last().push(t.last())) =~= seq![t]);
        assert(split_commas(t) == split_commas(t.drop_last()).update(0, t.drop_last().push(t.last())));
    } else {
        assert(t =~= Seq::<char>::empty());
    }
}

/// Splitting the column text of a status set at its commas gives the set
/// back, element by element, whenever no status holds a comma.
pub proof fn lemma_status_csv_splits_back(statuses: Seq<Seq<char>>)
    requires
        statuses.len() > 0,
        forall|i: int| 0 <= i < statuses.len() ==> !(#[trigger] statuses[i]).contains(','),
    ensures
        status_csv_spec(statuses) == Some(comma_joined(statuses)),
        split_commas(comma_joined(statuses)) == statuses,
    decreases statuses.len(),
{
    let n = statuses.len();
    if n == 1 {
        lemma_split_no_comma(statuses[0]);
        assert(statuses =~= seq![statuses[0]]);
    } else {
        let front = statuses.drop_last();
        assert forall|i: int| 0 <= i < front.len() implies !(#[trigger] front[i]).contains(',') by {
            assert(front[i] == statuses[i]);
        }
        lemma_status_csv_splits_back(front);
        lemma_split_at_comma(comma_joined(front), statuses.last());
        assert(!statuses[n - 1].contains(','));
        lemma_split_no_comma(statuses.last());
        assert(statuses =~= front + seq![statuses.last()]);
    }
}

/// Two strictly sorted lists of the same statuses are the same list.
pub proof fn lemma_sorted_statuses_unique(a: Seq<Seq<char>>, b: Seq<Seq<char>>)
    requires
        strictly_sorted(a),
        strictly_sorted(b),
        a.to_set() == b.to_set(),
    ensures
        a == b,
    decreases a.len(),
{
    if a.len() == 0 {
        if b.len() > 0 {
            assert(b.to_set().contains(b[0]));
            assert(!a.to_set().contains(b[0]));
        }
        assert(a =~= b);
    } else {
        assert(a.to_set().contains(a[0]));
        assert(b.to_set().contains(a[0]));
        let j = choose|j: int| 0 <= j < b.len() && b[j] == a[0];
        assert(b.to_set().contains(b[0]));
        assert(a.to_set().contains(b[0]));
        let i = choose|i: int| 0 <= i < a.len() && a[i] == b[0];
        if j > 0 {
            if i > 0 {
                lemma_text_less_asym(a[0], a[i]);
            } else {
                lemma_text_less_irreflexive(b[0]);
            }
        }
        assert(a[0] == b[0]);
        let a1 = a.drop_first();
        let b1 = b.drop_first();
        assert forall|x: Seq<char>| a1.to_set().contains(x) == b1.to_set().contains(x) by {
            if a1.to_set().contains(x) {
                let k = choose|k: int| 0 <= k < a1.len() && a1[k] == x;
                assert(a[k + 1] == x);
                assert(text_less(a[0], x));
                assert(b.to_set().contains(x));
                let m = choose|m: int| 0 <= m < b.len() && b[m] == x;
                if m == 0 {
                    lemma_text_less_irreflexive(x);
                }
                assert(b1[m - 1] == x);
            }
            if b1.to_set().contains(x) {
                let k = choose|k: int| 0 <= k < b1.len() && b1[k] == x;
                assert(b[k + 1] == x);
                assert(text_less(b[0], x));
                assert(a.to_set().contains(x));
                let m = choose|m: int| 0 <= m < a.len() && a[m] == x;
                if m == 0 {
                    lemma_text_less_irreflexive(x);
                }
                assert(a1[m - 1] == x);
            }
        }
        assert(a1.to_set() =~= b1.to_set());
        lemma_sorted_statuses_unique(a1, b1);
        assert(a =~= b1.insert(0, b[0]));
        assert(b =~= b1.insert(0, b[0]));
    }
}

/// The canonical form of a status list: its distinct statuses in increasing
/// order.
pub open spec fn sorted_statuses(raw: Seq<Seq<char>>) -> Seq<Seq<char>> {
    choose|s: Seq<Seq<char>>| canonical_statuses(raw, s)
}

/// A list in canonical form for `raw` is `sorted_statuses(raw)`.
pub proof fn lemma_canonical_is_sorted_statuses(raw: Seq<Seq<char>>, s: Seq<Seq<char>>)
    requires
        canonical_statuses(raw, s),
    ensures
        s == sorted_statuses(raw),
{
    let t = sorted_statuses(raw);
    assert(canonical_statuses(raw, t));
    lemma_sorted_statuses_unique(s, t);
}

} // verus!
