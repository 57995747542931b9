//! Remote directory listings: which entries are shown, the synthetic parent
//! entry, and their order.
use vstd::prelude::*;
use crate::model::SftpEntry;
use crate::rdp::views;
use crate::text::{lowered, to_lowercase, trim, trimmed};

verus! {

broadcast use vstd::seq_lib::group_to_multiset_ensures;

/// One entry as the file-transfer channel reports it.
#[derive(Clone, Debug, PartialEq, Eq)]
pub struct RawEntry {
    /// The entry's base name, if its path has one.
    pub name: Option<String>,
    pub is_dir: bool,
    pub size: Option<u64>,
    pub modified: Option<u64>,
    pub perm: Option<u32>,
}

/// The path that is listed: the trimmed input, or `.` when that is empty.
pub open spec fn listing_path_of(p: Seq<char>) -> Seq<char> {
    if trimmed(p).len() == 0 { "."@ } else { trimmed(p) }
}

/// Whether a listed path is a root, which gets no parent entry.
pub open spec fn is_root(p: Seq<char>) -> bool {
    p == "/"@ || p == "."@ || p.len() == 0
}

/// Whether a raw entry is shown: it has a name, and the name is not empty, `.` or `..`.
pub open spec fn is_shown(e: RawEntry) -> bool {
    e.name is Some && e.name->0@.len() != 0 && e.name->0@ != "."@ && e.name->0@ != ".."@
}

/// The listing entry for a raw entry that has a name.
pub open spec fn entry_from(e: RawEntry) -> SftpEntry {
    SftpEntry { name: e.name->0, is_dir: e.is_dir, size: e.size, modified: e.modified, perm: e.perm }
}

/// The shown entries of a directory, in the order the directory reported them.
pub open spec fn shown_of(raw: Seq<RawEntry>) -> Seq<SftpEntry>
    decreases raw.len(),
{
    if raw.len() == 0 {
        Seq::empty()
    } else if is_shown(raw.last()) {
        shown_of(raw.drop_last()).push(entry_from(raw.last()))
    } else {
        shown_of(raw.drop_last())
    }
}

/// Lexicographic order of texts by character, from position `i` on.
pub open spec fn text_le_from(a: Seq<char>, b: Seq<char>, i: int) -> bool
    decreases a.len() - i,
{
    if i >= a.len() {
        true
    } else if i >= b.len() {
        false
    } else if a[i] != b[i] {
        a[i] < b[i]
    } else {
        text_le_from(a, b, i + 1)
    }
}

/// Lexicographic order of texts by character.
pub open spec fn text_le(a: Seq<char>, b: Seq<char>) -> bool {
    text_le_from(a, b, 0)
}

/// An entry with the key that its name is compared by.
pub open spec fn keyed_le(a: (SftpEntry, Seq<char>), b: (SftpEntry, Seq<char>)) -> bool {
    (a.0.is_dir && !b.0.is_dir) || (a.0.is_dir == b.0.is_dir && text_le(a.1, b.1))
}

/// The listing order: directories before files, then names ignoring case.
pub open spec fn entry_le(a: SftpEntry, b: SftpEntry) -> bool {
    keyed_le((a, lowered(a.name@)), (b, lowered(b.name@)))
}

/// Whether entries stand in listing order.
pub open spec fn is_ordered(s: Seq<SftpEntry>) -> bool {
    forall|i: int, j: int| 0 <= i < j < s.len() ==> entry_le(#[trigger] s[i], #[trigger] s[j])
}

/// Whether keyed entries stand in order.
pub open spec fn is_keyed_ordered(s: Seq<(SftpEntry, Seq<char>)>) -> bool {
    forall|i: int, j: int| 0 <= i < j < s.len() ==> keyed_le(#[trigger] s[i], #[trigger] s[j])
}

/// Whether two keyed entries are of equal rank: both directories or both
/// files, with the same key.
pub open spec fn same_rank(a: (SftpEntry, Seq<char>), b: (SftpEntry, Seq<char>)) -> bool {
    a.0.is_dir == b.0.is_dir && a.1 == b.1
}

/// The first position from `k` on whose entry comes after `e`.
pub open spec fn insert_position(s: Seq<(SftpEntry, Seq<char>)>, e: (SftpEntry, Seq<char>), k: int) -> int
    decreases s.len() - k,
{
    if k >= s.len() {
        s.len() as int
    } else if !keyed_le(s[k], e) {
        k
    } else {
        insert_position(s, e, k + 1)
    }
}

/// Keyed entries put in order one at a time, each after those it does not precede.
pub open spec fn keyed_order(s: Seq<(SftpEntry, Seq<char>)>) -> Seq<(SftpEntry, Seq<char>)>
    decreases s.len(),
{
    if s.len() == 0 {
        Seq::empty()
    } else {
        let t = keyed_order(s.drop_last());
        t.insert(insert_position(t, s.last(), 0), s.last())
    }
}

/// Entries paired with their keys.
pub open spec fn paired(es: Seq<SftpEntry>, ks: Seq<Seq<char>>) -> Seq<(SftpEntry, Seq<char>)> {
    Seq::new(es.len(), |i: int| (es[i], ks[i]))
}

/// Entries paired with their lowercase names.
pub open spec fn keyed_by_name(es: Seq<SftpEntry>) -> Seq<(SftpEntry, Seq<char>)> {
    Seq::new(es.len(), |i: int| (es[i], lowered(es[i].name@)))
}

/// The entries of keyed entries.
pub open spec fn entries_of(s: Seq<(SftpEntry, Seq<char>)>) -> Seq<SftpEntry> {
    Seq::new(s.len(), |i: int| s[i].0)
}

/// Entries in listing order: a stable sort by rank.
pub open spec fn listing_order(s: Seq<SftpEntry>) -> Seq<SftpEntry> {
    entries_of(keyed_order(keyed_by_name(s)))
}

/// Whether an entry is the synthetic parent entry.
pub open spec fn is_parent_entry(e: SftpEntry) -> bool {
    e.name@ == ".."@ && e.is_dir && e.size is None && e.modified is None && e.perm is None
}

/// What a listing of path `p` holds when the directory reports `raw`: a
/// parent entry first unless `p` is a root, then the shown entries in listing order.
pub open spec fn is_listing(p: Seq<char>, raw: Seq<RawEntry>, r: Seq<SftpEntry>) -> bool {
    let body = listing_order(shown_of(raw));
    if is_root(listing_path_of(p)) {
        r == body
    } else {
        r.len() == body.len() + 1 && is_parent_entry(r[0]) && r.drop_first() == body
    }
}

proof fn lemma_text_le_trans(a: Seq<char>, b: Seq<char>, c: Seq<char>, i: int)
    requires
        0 <= i,
        text_le_from(a, b, i),
        text_le_from(b, c, i),
    ensures
        text_le_from(a, c, i),
    decreases a.len() - i,
{
    if i < a.len() && i < b.len() && i < c.len() && a[i] == b[i] && b[i] == c[i] {
        lemma_text_le_trans(a, b, c, i + 1);
    }
}

proof fn lemma_text_le_total(a: Seq<char>, b: Seq<char>, i: int)
    requires
        0 <= i,
    ensures
        text_le_from(a, b, i) || text_le_from(b, a, i),
    decreases a.len() - i,
{
    if i < a.len() && i < b.len() && a[i] == b[i] {
        lemma_text_le_total(a, b, i + 1);
    }
}

proof fn lemma_keyed_le_trans(a: (SftpEntry, Seq<char>), b: (SftpEntry, Seq<char>), c: (SftpEntry, Seq<char>))
    requires
        keyed_le(a, b),
        keyed_le(b, c),
    ensures
        keyed_le(a, c),
{
    if a.0.is_dir == b.0.is_dir && b.0.is_dir == c.0.is_dir {
        lemma_text_le_trans(a.1, b.1, c.1, 0);
    }
}

proof fn lemma_keyed_le_total(a: (SftpEntry, Seq<char>), b: (SftpEntry, Seq<char>))
    ensures
        keyed_le(a, b) || keyed_le(b, a),
{
    lemma_text_le_total(a.1, b.1, 0);
}

proof fn lemma_text_le_refl(a: Seq<char>, i: int)
    requires
        0 <= i,
    ensures
        text_le_from(a, a, i),
    decreases a.len() - i,
{
    if i < a.len() {
        lemma_text_le_refl(a, i + 1);
    }
}

/// Whether `a` comes before or with `b` in character order.
pub fn text_le_exec(a: &str, b: &str) -> (r: bool)
    ensures
        r == text_le(a@, b@),
{
    let n = a.unicode_len();
    let m = b.unicode_len();
    let mut i: usize = 0;
    while i < n
        invariant
            n == a@.len(),
            m == b@.len(),
            i <= n,
            text_le_from(a@, b@, 0) == text_le_from(a@, b@, i as int),
        decreases n - i,
    {
        if i >= m {
            return false;
        }
        let x = a.get_char(i);
        let y = b.get_char(i);
        if x != y {
            return x < y;
        }
        i = i + 1;
    }
    true
}

fn copy_entry(e: &SftpEntry) -> (r: SftpEntry)
    ensures
        r == *e,
{
    SftpEntry { name: e.name.clone(), is_dir: e.is_dir, size: e.size, modified: e.modified, perm: e.perm }
}

proof fn lemma_insert_position(s: Seq<(SftpEntry, Seq<char>)>, e: (SftpEntry, Seq<char>), k: int)
    requires
        0 <= k <= s.len(),
        is_keyed_ordered(s),
        forall|j: int| 0 <= j < k ==> keyed_le(#[trigger] s[j], e),
    ensures
        k <= insert_position(s, e, k) <= s.len(),
        forall|j: int| 0 <= j < insert_position(s, e, k) ==> keyed_le(#[trigger] s[j], e),
        forall|j: int|
            insert_position(s, e, k) <= j < s.len() ==> keyed_le(e, #[trigger] s[j]) && !keyed_le(
                s[j],
                e,
            ),
    decreases s.len() - k,
{
    if k < s.len() {
        if !keyed_le(s[k], e) {
            lemma_keyed_le_total(s[k], e);
            assert forall|j: int| k <= j < s.len() implies keyed_le(e, #[trigger] s[j]) && !keyed_le(
                s[j],
                e,
            ) by {
                if j > k {
                    lemma_keyed_le_trans(e, s[k], s[j]);
                    if keyed_le(s[j], e) {
                        lemma_keyed_le_trans(s[k], s[j], e);
                    }
                }
            }
        } else {
            lemma_insert_position(s, e, k + 1);
        }
    }
}

/// Keyed order puts keyed entries in order and keeps each exactly once.
pub proof fn lemma_keyed_order(s: Seq<(SftpEntry, Seq<char>)>)
    ensures
        is_keyed_ordered(keyed_order(s)),
        keyed_order(s).to_multiset() =~= s.to_multiset(),
    decreases s.len(),
{
    if s.len() > 0 {
        let t = keyed_order(s.drop_last());
        lemma_keyed_order(s.drop_last());
        lemma_insert_position(t, s.last(), 0);
        let pos = insert_position(t, s.last(), 0);
        let u = t.insert(pos, s.last());
        assert forall|i: int, j: int| 0 <= i < j < u.len() implies keyed_le(
            #[trigger] u[i],
            #[trigger] u[j],
        ) by {
            if i < pos && j > pos {
                assert(u[i] == t[i]);
                assert(u[j] == t[j - 1]);
            } else if j > pos && i > pos {
                assert(u[i] == t[i - 1]);
                assert(u[j] == t[j - 1]);
            }
        }
        assert(s =~= s.drop_last().push(s.last()));
    }
}

/// Keyed order is stable: entries of equal rank keep the order in which they came.
pub proof fn lemma_keyed_order_stable(s: Seq<(SftpEntry, Seq<char>)>, e: (SftpEntry, Seq<char>))
    ensures
        keyed_order(s).filter(|x: (SftpEntry, Seq<char>)| same_rank(x, e)) == s.filter(
            |x: (SftpEntry, Seq<char>)| same_rank(x, e),
        ),
    decreases s.len(),
{
    let p = |x: (SftpEntry, Seq<char>)| same_rank(x, e);
    reveal(Seq::filter);
    if s.len() > 0 {
        let y = s.last();
        let t = keyed_order(s.drop_last());
        lemma_keyed_order_stable(s.drop_last(), e);
        lemma_keyed_order(s.drop_last());
        lemma_insert_position(t, y, 0);
        let pos = insert_position(t, y, 0);
        let front = t.subrange(0, pos);
        let back = t.subrange(pos, t.len() as int);
        assert(t =~= front + back);
        assert(t.insert(pos, y) =~= front + seq![y] + back);
        Seq::filter_distributes_over_add(front, back, p);
        Seq::filter_distributes_over_add(front + seq![y], back, p);
        Seq::filter_distributes_over_add(front, seq![y], p);
        assert(seq![y].drop_last() =~= Seq::<(SftpEntry, Seq<char>)>::empty());
        if p(y) {
            assert(back.filter(p) =~= Seq::<(SftpEntry, Seq<char>)>::empty()) by {
                assert forall|j: int| 0 <= j < back.len() implies !p(#[trigger] back[j]) by {
                    assert(back[j] == t[pos + j]);
                    if p(back[j]) {
                        lemma_text_le_refl(y.1, 0);
                    }
                }
                lemma_filter_none(back, p);
            }
        }
        assert(keyed_order(s) == t.insert(pos, y));
        assert(s.filter(p) == (if p(y) {
            s.drop_last().filter(p).push(y)
        } else {
            s.drop_last().filter(p)
        }));
        assert(seq![y].filter(p) == (if p(y) {
            seq![y]
        } else {
            Seq::<(SftpEntry, Seq<char>)>::empty()
        })) by {
            assert(seq![y].drop_last().filter(p) =~= Seq::<(SftpEntry, Seq<char>)>::empty());
            assert(seq![y].last() == y);
        }
        assert(keyed_order(s).filter(p) =~= s.filter(p));
    }
}

proof fn lemma_filter_none(s: Seq<(SftpEntry, Seq<char>)>, p: spec_fn((SftpEntry, Seq<char>)) -> bool)
    requires
        forall|j: int| 0 <= j < s.len() ==> !p(#[trigger] s[j]),
    ensures
        s.filter(p) =~= Seq::<(SftpEntry, Seq<char>)>::empty(),
    decreases s.len(),
{
    reveal(Seq::filter);
    if s.len() > 0 {
        assert forall|j: int| 0 <= j < s.drop_last().len() implies !p(#[trigger] s.drop_last()[j]) by {
            assert(s.drop_last()[j] == s[j]);
        }
        lemma_filter_none(s.drop_last(), p);
        assert(!p(s.last()));
    }
}

proof fn lemma_keyed_contains(s: Seq<(SftpEntry, Seq<char>)>, i: int)
    requires
        0 <= i < keyed_order(s).len(),
    ensures
        s.contains(keyed_order(s)[i]),
{
    lemma_keyed_order(s);
    let x = keyed_order(s)[i];
    assert(keyed_order(s).to_multiset().count(x) > 0);
    assert(s.to_multiset().count(x) > 0);
}

/// Listing order puts entries in order and keeps each exactly once.
pub proof fn lemma_listing_order(s: Seq<SftpEntry>)
    ensures
        is_ordered(listing_order(s)),
        listing_order(s).to_multiset() =~= s.to_multiset(),
    decreases s.len(),
{
    let k = keyed_by_name(s);
    let o = keyed_order(k);
    lemma_keyed_order(k);
    assert forall|i: int| 0 <= i < o.len() implies (#[trigger] o[i]).1 == lowered(o[i].0.name@) by {
        lemma_keyed_contains(k, i);
    }
    assert forall|i: int, j: int| 0 <= i < j < listing_order(s).len() implies entry_le(
        #[trigger] listing_order(s)[i],
        #[trigger] listing_order(s)[j],
    ) by {
        assert(keyed_le(o[i], o[j]));
        assert(o[i].1 == lowered(o[i].0.name@));
        assert(o[j].1 == lowered(o[j].0.name@));
    }
    if s.len() > 0 {
        lemma_listing_order(s.drop_last());
        let t = keyed_order(k.drop_last());
        assert(k.drop_last() =~= keyed_by_name(s.drop_last()));
        let pos = insert_position(t, k.last(), 0);
        lemma_keyed_order(k.drop_last());
        lemma_insert_position(t, k.last(), 0);
        assert(entries_of(t.insert(pos, k.last())) =~= entries_of(t).insert(pos, s.last()));
        assert(s =~= s.drop_last().push(s.last()));
    }
}

/// Puts entries in order by rank, with the keys given for them: directories
/// before files, then keys in character order; entries of equal rank keep
/// their order.
pub fn order_by_keys(entries: Vec<SftpEntry>, keys: Vec<String>) -> (r: Vec<SftpEntry>)
    requires
        entries@.len() == keys@.len(),
    ensures
        r@ == entries_of(keyed_order(paired(entries@, views(keys@)))),
{
    let ghost ks = views(keys@);
    let ghost all = paired(entries@, ks);
    let mut sorted: Vec<SftpEntry> = Vec::new();
    let mut sorted_keys: Vec<String> = Vec::new();
    let mut i: usize = 0;
    while i < entries.len()
        invariant
            entries@.len() == keys@.len(),
            ks == views(keys@),
            all == paired(entries@, ks),
            i <= entries@.len(),
            sorted@.len() == sorted_keys@.len(),
            paired(sorted@, views(sorted_keys@)) == keyed_order(all.subrange(0, i as int)),
        decreases entries@.len() - i,
    {
        let e = copy_entry(&entries[i]);
        let key = keys[i].clone();
        let ghost cur = paired(sorted@, views(sorted_keys@));
        let ghost item = (e, key@);
        assert(item == all[i as int]);
        let mut pos: usize = 0;
        while pos < sorted.len()
            invariant
                pos <= sorted@.len(),
                sorted@.len() == sorted_keys@.len(),
                cur == paired(sorted@, views(sorted_keys@)),
                item == (e, key@),
                insert_position(cur, item, 0) == insert_position(cur, item, pos as int),
            ensures
                insert_position(cur, item, 0) == pos,
            decreases sorted@.len() - pos,
        {
            let s = &sorted[pos];
            assert(cur[pos as int] == (sorted@[pos as int], sorted_keys@[pos as int]@));
            let before = (s.is_dir && !e.is_dir) || (s.is_dir == e.is_dir && text_le_exec(
                sorted_keys[pos].as_str(),
                key.as_str(),
            ));
            if !before {
                break;
            }
            pos = pos + 1;
        }
        sorted.insert(pos, e);
        sorted_keys.insert(pos, key);
        proof {
            assert(all.subrange(0, i as int + 1).drop_last() =~= all.subrange(0, i as int));
            assert(paired(sorted@, views(sorted_keys@)) =~= cur.insert(pos as int, item));
        }
        i = i + 1;
    }
    proof {
        assert(all.subrange(0, entries@.len() as int) =~= all);
        assert(paired(sorted@, views(sorted_keys@)) =~= keyed_order(all));
        assert(sorted@ =~= entries_of(paired(sorted@, views(sorted_keys@))));
    }
    sorted
}

/// Puts entries in listing order, keeping each entry exactly once.
pub fn sort_entries(entries: Vec<SftpEntry>) -> (r: Vec<SftpEntry>)
    ensures
        r@ == listing_order(entries@),
        is_ordered(r@),
        r@.to_multiset() =~= entries@.to_multiset(),
{
    let mut keys: Vec<String> = Vec::new();
    let mut i: usize = 0;
    while i < entries.len()
        invariant
            i <= entries@.len(),
            keys@.len() == i,
            forall|j: int| 0 <= j < i ==> #[trigger] keys@[j]@ == lowered(entries@[j].name@),
        decreases entries@.len() - i,
    {
        keys.push(to_lowercase(entries[i].name.as_str()));
        i = i + 1;
    }
    let ghost before = entries@;
    assert(paired(entries@, views(keys@)) =~= keyed_by_name(entries@));
    let r = order_by_keys(entries, keys);
    proof {
        lemma_listing_order(before);
    }
    r
}

/// The path that a listing reads: the trimmed input, or `.` when that is empty.
pub fn listing_path(path: &str) -> (r: String)
    ensures
        r@ == listing_path_of(path@),
{
    let t = trim(path);
    if t.unicode_len() == 0 {
        String::from_str(".")
    } else {
        t
    }
}

fn is_root_exec(p: &String) -> (r: bool)
    ensures
        r == is_root(p@),
{
    *p == String::from_str("/") || *p == String::from_str(".") || p.unicode_len() == 0
}

fn is_shown_exec(e: &RawEntry) -> (r: bool)
    ensures
        r == is_shown(*e),
{
    match &e.name {
        Some(n) => n.unicode_len() != 0 && !(*n == String::from_str(".")) && !(*n
            == String::from_str("..")),
        None => false,
    }
}

/// The shown entries of a directory, in reported order.
pub fn shown_entries(raw: &Vec<RawEntry>) -> (r: Vec<SftpEntry>)
    ensures
        r@ == shown_of(raw@),
{
    let mut out: Vec<SftpEntry> = Vec::new();
    let mut i: usize = 0;
    while i < raw.len()
        invariant
            i <= raw.len(),
            out@ == shown_of(raw@.subrange(0, i as int)),
        decreases raw.len() - i,
    {
        let e = &raw[i];
        assert(raw@.subrange(0, i as int + 1).drop_last() =~= raw@.subrange(0, i as int));
        if is_shown_exec(e) {
            let name = match &e.name {
                Some(n) => n.clone(),
                None => String::new(),
            };
            out.push(
                SftpEntry { name, is_dir: e.is_dir, size: e.size, modified: e.modified, perm: e.perm },
            );
        }
        i = i + 1;
    }
    assert(raw@.subrange(0, raw.len() as int) =~= raw@);
    out
}

/// Builds the listing of `path` from what the directory reported.
pub fn build_listing(path: &str, raw: &Vec<RawEntry>) -> (r: Vec<SftpEntry>)
    ensures
        is_listing(path@, raw@, r@),
{
    let clean = listing_path(path);
    let sorted = sort_entries(shown_entries(raw));
    if is_root_exec(&clean) {
        sorted
    } else {
        let mut sorted = sorted;
        let mut out: Vec<SftpEntry> = Vec::new();
        out.push(
            SftpEntry {
                name: String::from_str(".."),
                is_dir: true,
                size: None,
                modified: None,
                perm: None,
            },
        );
        out.append(&mut sorted);
        assert(out@.drop_first() =~= listing_order(shown_of(raw@)));
        out
    }
}

proof fn lemma_shown_names(raw: Seq<RawEntry>)
    ensures
        forall|i: int| 0 <= i < shown_of(raw).len() ==> #[trigger] shown_of(raw)[i].name@ != ".."@,
    decreases raw.len(),
{
    if raw.len() > 0 {
        lemma_shown_names(raw.drop_last());
    }
}

/// Listing the same path twice, over a directory that reports the same
/// entries, gives the same entries in the same order; the parent entry `..`
/// stands first when the path is not a root (`""`, `.`, `/`), and nowhere
/// else.
pub proof fn listing_is_stable(p: Seq<char>, raw: Seq<RawEntry>, r1: Seq<SftpEntry>, r2: Seq<SftpEntry>)
    requires
        is_listing(p, raw, r1),
        is_listing(p, raw, r2),
    ensures
        r1.len() == r2.len(),
        forall|i: int| 0 <= i < r1.len() ==> (#[trigger] r1[i]).name@ == r2[i].name@ && r1[i].is_dir
            == r2[i].is_dir && r1[i].size == r2[i].size && r1[i].modified == r2[i].modified
            && r1[i].perm == r2[i].perm,
        forall|i: int| 0 <= i < r1.len() ==> ((#[trigger] r1[i]).name@ == ".."@ <==> (i == 0
            && !is_root(listing_path_of(p)))),
{
    let shown = shown_of(raw);
    let body = listing_order(shown);
    lemma_listing_order(shown);
    lemma_shown_names(raw);
    assert forall|i: int| 0 <= i < body.len() implies #[trigger] body[i].name@ != ".."@ by {
        lemma_keyed_contains(keyed_by_name(shown), i);
    }
    if !is_root(listing_path_of(p)) {
        assert forall|i: int| 0 <= i < r1.len() implies (#[trigger] r1[i]).name@ == r2[i].name@
            && r1[i].is_dir == r2[i].is_dir && r1[i].size == r2[i].size && r1[i].modified
            == r2[i].modified && r1[i].perm == r2[i].perm by {
            if i > 0 {
                assert(r1[i] == r1.drop_first()[i - 1]);
                assert(r2[i] == r2.drop_first()[i - 1]);
            }
        }
        assert forall|i: int| 0 <= i < r1.len() implies ((#[trigger] r1[i]).name@ == ".."@ <==> (i
            == 0 && !is_root(listing_path_of(p)))) by {
            if i > 0 {
                assert(r1[i] == body[i - 1]);
            }
        }
    }
}

} // verus!
