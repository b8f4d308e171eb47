//! Cache of raw table record blobs, hotfix pushes and hotfix optional data,
//! served to clients that ask for records missing from their local tables.
use std::collections::BTreeMap;
use std::collections::HashMap;
use vstd::prelude::*;
use vstd::std_specs::iter::IteratorSpec;

use crate::text::same_text;

verus! {

broadcast use {
    vstd::std_specs::hash::group_hash_axioms,
    vstd::std_specs::btree::group_btree_axioms,
    vstd::laws_cmp::group_laws_cmp,
};

/// The id of a hotfix: its push and its unique id within the push.
#[derive(Debug, Clone, Copy, PartialEq, Eq, PartialOrd, Ord, Hash)]
pub struct HotfixId {
    pub push_id: i32,
    pub unique_id: u32,
}

/// The status of a hotfix record.
#[derive(Debug, Clone, Copy, PartialEq, Eq)]
pub enum HotfixRecordStatus {
    NotSet,
    Valid,
    RecordRemoved,
    Invalid,
    NotPublic,
}

/// The status stored as `value`: 1 to 4 name a status, anything else is
/// "not set".
pub open spec fn status_of_value(value: u8) -> HotfixRecordStatus {
    if value == 1 {
        HotfixRecordStatus::Valid
    } else if value == 2 {
        HotfixRecordStatus::RecordRemoved
    } else if value == 3 {
        HotfixRecordStatus::Invalid
    } else if value == 4 {
        HotfixRecordStatus::NotPublic
    } else {
        HotfixRecordStatus::NotSet
    }
}

impl From<u8> for HotfixRecordStatus {
    fn from(value: u8) -> (r: Self) {
        if value == 1 {
            HotfixRecordStatus::Valid
        } else if value == 2 {
            HotfixRecordStatus::RecordRemoved
        } else if value == 3 {
            HotfixRecordStatus::Invalid
        } else if value == 4 {
            HotfixRecordStatus::NotPublic
        } else {
            HotfixRecordStatus::NotSet
        }
    }
}

impl vstd::std_specs::convert::FromSpecImpl<u8> for HotfixRecordStatus {
    open spec fn obeys_from_spec() -> bool {
        true
    }

    open spec fn from_spec(value: u8) -> HotfixRecordStatus {
        status_of_value(value)
    }
}

/// One record of a hotfix push.
#[derive(Debug, Clone, Copy, PartialEq, Eq)]
pub struct HotfixRecord {
    pub table_hash: u32,
    pub record_id: i32,
    pub id: HotfixId,
    pub status: HotfixRecordStatus,
    pub available_locales_mask: u32,
}

/// The records of one hotfix push and the locales they are available in.
#[derive(Debug, Clone, Default, PartialEq, Eq)]
pub struct HotfixPush {
    pub records: Vec<HotfixRecord>,
    pub available_locales_mask: u32,
}

/// One piece of optional data attached to a hotfixed record.
#[derive(Debug, Clone, PartialEq, Eq)]
pub struct HotfixOptionalData {
    pub key: u32,
    pub data: Vec<u8>,
}

/// A `hotfix_blob` row: a raw record of a table in one locale.
pub struct HotfixBlobRowLikeCpp {
    pub table_hash: u32,
    pub record_id: i32,
    pub locale: String,
    pub blob: Vec<u8>,
}

/// A `hotfix_data` row.
#[derive(Debug, Clone, Copy, PartialEq, Eq)]
pub struct HotfixDataRowLikeCpp {
    pub push_id: i32,
    pub unique_id: u32,
    pub table_hash: u32,
    pub record_id: i32,
    pub status: u8,
}

/// A `hotfix_optional_data` row.
pub struct HotfixOptionalDataRowLikeCpp {
    pub table_hash: u32,
    pub record_id: i32,
    pub locale: String,
    pub key: u32,
    pub data: Vec<u8>,
}

/// The optional data of one (locale, table, record), in load order.
struct OptionalDataGroup {
    locale: String,
    table_hash: u32,
    record_id: i32,
    entries: Vec<HotfixOptionalData>,
}

/// The index of a client locale name in the table locale order.
pub open spec fn locale_index_of(locale: Seq<char>) -> Option<u32> {
    if locale == "enUS"@ {
        Some(0)
    } else if locale == "koKR"@ {
        Some(1)
    } else if locale == "frFR"@ {
        Some(2)
    } else if locale == "deDE"@ {
        Some(3)
    } else if locale == "zhCN"@ {
        Some(4)
    } else if locale == "zhTW"@ {
        Some(5)
    } else if locale == "esES"@ {
        Some(6)
    } else if locale == "esMX"@ {
        Some(7)
    } else if locale == "ruRU"@ {
        Some(8)
    } else if locale == "jaJP"@ {
        Some(9)
    } else if locale == "ptBR"@ {
        Some(10)
    } else if locale == "itIT"@ {
        Some(11)
    } else {
        None
    }
}

/// The mask bit of a locale name; zero for a name that is not a locale.
pub open spec fn locale_mask_of(locale: Seq<char>) -> u32 {
    match locale_index_of(locale) {
        Some(i) => (1u32 << i) as u32,
        None => 0,
    }
}

fn locale_index(locale: &str) -> (r: Option<u32>)
    ensures
        r == locale_index_of(locale@),
{
    if same_text(locale, "enUS") {
        Some(0)
    } else if same_text(locale, "koKR") {
        Some(1)
    } else if same_text(locale, "frFR") {
        Some(2)
    } else if same_text(locale, "deDE") {
        Some(3)
    } else if same_text(locale, "zhCN") {
        Some(4)
    } else if same_text(locale, "zhTW") {
        Some(5)
    } else if same_text(locale, "esES") {
        Some(6)
    } else if same_text(locale, "esMX") {
        Some(7)
    } else if same_text(locale, "ruRU") {
        Some(8)
    } else if same_text(locale, "jaJP") {
        Some(9)
    } else if same_text(locale, "ptBR") {
        Some(10)
    } else if same_text(locale, "itIT") {
        Some(11)
    } else {
        None
    }
}

fn locale_mask_for_name(locale: &str) -> (m: u32)
    ensures
        m == locale_mask_of(locale@),
{
    match locale_index(locale) {
        Some(i) => 1u32 << i,
        None => 0,
    }
}

/// The locale mask bit of a locale name (zero for an unknown name).
pub fn hotfix_locale_mask(locale: &str) -> (m: u32)
    ensures
        m == locale_mask_of(locale@),
{
    locale_mask_for_name(locale)
}


/// The tables of `t` with the blob of record `k` of table `h` set to `v`
/// (an absent table is created).
pub open spec fn with_blob(
    t: Map<u32, Map<u32, Seq<u8>>>,
    h: u32,
    k: u32,
    v: Seq<u8>,
) -> Map<u32, Map<u32, Seq<u8>>> {
    t.insert(
        h,
        (if t.contains_key(h) {
            t[h]
        } else {
            Map::empty()
        }).insert(k, v),
    )
}

/// The blob of record `k` of table `h`, if there is one.
pub open spec fn blob_at(t: Map<u32, Map<u32, Seq<u8>>>, h: u32, k: u32) -> Option<Seq<u8>> {
    if t.contains_key(h) && t[h].contains_key(k) {
        Some(t[h][k])
    } else {
        None
    }
}

/// A blob written is read back as written, and writing it leaves every other
/// blob, and every other table, as it was.
pub proof fn lemma_blob_read_after_write(
    t: Map<u32, Map<u32, Seq<u8>>>,
    h: u32,
    k: u32,
    v: Seq<u8>,
    h2: u32,
    k2: u32,
)
    ensures
        blob_at(with_blob(t, h, k, v), h, k) == Some(v),
        (h2, k2) != (h, k) ==> blob_at(with_blob(t, h, k, v), h2, k2) == blob_at(t, h2, k2),
        with_blob(t, h, k, v).dom() == t.dom().insert(h),
{
    assert(with_blob(t, h, k, v).dom() =~= t.dom().insert(h));
}

/// The tables after the `hotfix_blob` rows of the locale, in order.
pub open spec fn blobs_after_rows(
    t: Map<u32, Map<u32, Seq<u8>>>,
    rows: Seq<HotfixBlobRowLikeCpp>,
    locale: Seq<char>,
) -> Map<u32, Map<u32, Seq<u8>>>
    decreases rows.len(),
{
    if rows.len() == 0 {
        t
    } else {
        let before = blobs_after_rows(t, rows.drop_last(), locale);
        let r = rows.last();
        if r.locale@ == locale {
            with_blob(before, r.table_hash, r.record_id as u32, r.blob@)
        } else {
            before
        }
    }
}

/// The tables after the records of table `h`, in order (the table exists
/// afterwards even when there are no records).
pub open spec fn blobs_after_records(
    t: Map<u32, Map<u32, Seq<u8>>>,
    h: u32,
    records: Seq<(u32, Vec<u8>)>,
) -> Map<u32, Map<u32, Seq<u8>>>
    decreases records.len(),
{
    if records.len() == 0 {
        t.insert(
            h,
            if t.contains_key(h) {
                t[h]
            } else {
                Map::empty()
            },
        )
    } else {
        let before = blobs_after_records(t, h, records.drop_last());
        with_blob(before, h, records.last().0, records.last().1@)
    }
}

/// The number of rows of the locale.
pub open spec fn rows_of_locale(rows: Seq<HotfixBlobRowLikeCpp>, locale: Seq<char>) -> nat
    decreases rows.len(),
{
    if rows.len() == 0 {
        0
    } else {
        rows_of_locale(rows.drop_last(), locale) + if rows.last().locale@ == locale {
            1nat
        } else {
            0nat
        }
    }
}

/// Whether table `h` of `t` holds any blob.
pub open spec fn table_has_data(t: Map<u32, Map<u32, Seq<u8>>>, h: u32) -> bool {
    t.contains_key(h) && t[h].len() > 0
}

/// A `hotfix_data` row that is left out: a valid record of a table that has
/// no data, of which no blob is held either.
pub open spec fn hotfix_row_skipped(t: Map<u32, Map<u32, Seq<u8>>>, r: HotfixDataRowLikeCpp) -> bool {
    &&& status_of_value(r.status) == HotfixRecordStatus::Valid
    &&& !table_has_data(t, r.table_hash)
    &&& blob_at(t, r.table_hash, r.record_id as u32) is None
}

/// The record a `hotfix_data` row gives, available in the locales of `mask`.
pub open spec fn record_of_row(r: HotfixDataRowLikeCpp, mask: u32) -> HotfixRecord {
    HotfixRecord {
        table_hash: r.table_hash,
        record_id: r.record_id,
        id: HotfixId { push_id: r.push_id, unique_id: r.unique_id },
        status: status_of_value(r.status),
        available_locales_mask: mask,
    }
}

/// The pushes (records and locale mask) after the `hotfix_data` rows, in
/// order: every row that is not left out is appended to its push, and the
/// push becomes available in the locale.
pub open spec fn pushes_after_rows(
    p: Map<i32, (Seq<HotfixRecord>, u32)>,
    rows: Seq<HotfixDataRowLikeCpp>,
    t: Map<u32, Map<u32, Seq<u8>>>,
    mask: u32,
) -> Map<i32, (Seq<HotfixRecord>, u32)>
    decreases rows.len(),
{
    if rows.len() == 0 {
        p
    } else {
        let before = pushes_after_rows(p, rows.drop_last(), t, mask);
        let r = rows.last();
        if hotfix_row_skipped(t, r) {
            before
        } else {
            let (records, m) = if before.contains_key(r.push_id) {
                before[r.push_id]
            } else {
                (Seq::empty(), 0u32)
            };
            before.insert(r.push_id, (records.push(record_of_row(r, mask)), m | mask))
        }
    }
}

/// The union of the locale masks of records.
pub open spec fn masks_of(records: Seq<HotfixRecord>) -> u32
    decreases records.len(),
{
    if records.len() == 0 {
        0
    } else {
        masks_of(records.drop_last()) | records.last().available_locales_mask
    }
}

/// The pushes are as loading builds them: each push has a record, its
/// records carry its id, and its locale mask is the union of theirs; and
/// `max_id` is the largest push id, or 0 where there is none above 0.
pub open spec fn pushes_consistent(p: Map<i32, (Seq<HotfixRecord>, u32)>, max_id: i32) -> bool {
    &&& max_id >= 0
    &&& max_id == 0 || p.contains_key(max_id)
    &&& forall|k: i32| #[trigger] p.contains_key(k) ==> {
        &&& k <= max_id
        &&& p[k].0.len() > 0
        &&& p[k].1 == masks_of(p[k].0)
        &&& forall|i: int| 0 <= i < p[k].0.len() ==> (#[trigger] p[k].0[i]).id.push_id == k
    }
}

/// Appending a record of push `k` keeps the pushes consistent, with the
/// largest id raised to `k` where `k` is larger.
proof fn lemma_append_keeps_consistent(
    p: Map<i32, (Seq<HotfixRecord>, u32)>,
    max_id: i32,
    k: i32,
    rec: HotfixRecord,
)
    requires
        pushes_consistent(p, max_id),
        rec.id.push_id == k,
    ensures
        ({
            let (records, m) = if p.contains_key(k) {
                p[k]
            } else {
                (Seq::empty(), 0u32)
            };
            pushes_consistent(
                p.insert(k, (records.push(rec), m | rec.available_locales_mask)),
                if k > max_id {
                    k
                } else {
                    max_id
                },
            )
        }),
{
    let (records, m) = if p.contains_key(k) {
        p[k]
    } else {
        (Seq::empty(), 0u32)
    };
    assert(records.push(rec).drop_last() =~= records);
    assert(m == masks_of(records));
}

/// The largest push id after the `hotfix_data` rows.
pub open spec fn max_push_after_rows(
    max: i32,
    rows: Seq<HotfixDataRowLikeCpp>,
    t: Map<u32, Map<u32, Seq<u8>>>,
) -> i32
    decreases rows.len(),
{
    if rows.len() == 0 {
        max
    } else {
        let before = max_push_after_rows(max, rows.drop_last(), t);
        let r = rows.last();
        if hotfix_row_skipped(t, r) || r.push_id <= before {
            before
        } else {
            r.push_id
        }
    }
}

/// The number of `hotfix_data` rows that are not left out.
pub open spec fn kept_hotfix_rows(rows: Seq<HotfixDataRowLikeCpp>, t: Map<u32, Map<u32, Seq<u8>>>) -> nat
    decreases rows.len(),
{
    if rows.len() == 0 {
        0
    } else {
        kept_hotfix_rows(rows.drop_last(), t) + if hotfix_row_skipped(t, rows.last()) {
            0nat
        } else {
            1nat
        }
    }
}

/// The optional data after the `hotfix_optional_data` rows of the locale, in
/// order: each is appended under its (locale, table, record).
pub open spec fn optional_after_rows(
    o: Map<(Seq<char>, u32, i32), Seq<HotfixOptionalData>>,
    rows: Seq<HotfixOptionalDataRowLikeCpp>,
    locale: Seq<char>,
) -> Map<(Seq<char>, u32, i32), Seq<HotfixOptionalData>>
    decreases rows.len(),
{
    if rows.len() == 0 {
        o
    } else {
        let before = optional_after_rows(o, rows.drop_last(), locale);
        let r = rows.last();
        let k = (r.locale@, r.table_hash, r.record_id);
        if r.locale@ == locale {
            before.insert(
                k,
                (if before.contains_key(k) {
                    before[k]
                } else {
                    Seq::empty()
                }).push(HotfixOptionalData { key: r.key, data: r.data }),
            )
        } else {
            before
        }
    }
}

/// The number of optional data rows of the locale.
pub open spec fn optional_rows_of_locale(rows: Seq<HotfixOptionalDataRowLikeCpp>, locale: Seq<char>) -> nat
    decreases rows.len(),
{
    if rows.len() == 0 {
        0
    } else {
        optional_rows_of_locale(rows.drop_last(), locale) + if rows.last().locale@ == locale {
            1nat
        } else {
            0nat
        }
    }
}

/// The sum of the sizes of the tables `ks` of `t`.
pub open spec fn table_sizes(t: Map<u32, Map<u32, Seq<u8>>>, ks: Seq<u32>) -> nat
    decreases ks.len(),
{
    if ks.len() == 0 {
        0
    } else {
        table_sizes(t, ks.drop_last()) + t[ks.last()].len()
    }
}

/// Leaving out one table of the list takes its size off the sum.
proof fn lemma_table_sizes_remove(t: Map<u32, Map<u32, Seq<u8>>>, ks: Seq<u32>, j: int)
    requires
        0 <= j < ks.len(),
    ensures
        table_sizes(t, ks) == table_sizes(t, ks.remove(j)) + t[ks[j]].len(),
    decreases ks.len(),
{
    if j == ks.len() - 1 {
        assert(ks.remove(j) =~= ks.drop_last());
    } else {
        lemma_table_sizes_remove(t, ks.drop_last(), j);
        assert(ks.remove(j).drop_last() =~= ks.drop_last().remove(j));
        assert(ks.remove(j).last() == ks.last());
    }
}

/// The sum does not depend on the order in which the tables are listed.
proof fn lemma_table_sizes_reorder(t: Map<u32, Map<u32, Seq<u8>>>, a: Seq<u32>, b: Seq<u32>)
    requires
        a.no_duplicates(),
        b.no_duplicates(),
        forall|x: u32| a.contains(x) <==> b.contains(x),
    ensures
        table_sizes(t, a) == table_sizes(t, b),
    decreases a.len(),
{
    if a.len() == 0 {
        if b.len() > 0 {
            assert(b.contains(b[0]));
        }
    } else {
        let x = a.last();
        assert(a.contains(x));
        let j = choose|j: int| 0 <= j < b.len() && b[j] == x;
        lemma_table_sizes_remove(t, b, j);
        let a1 = a.drop_last();
        let b1 = b.remove(j);
        assert forall|y: u32| a1.contains(y) <==> b1.contains(y) by {
            if a1.contains(y) {
                let i = choose|i: int| 0 <= i < a1.len() && a1[i] == y;
                assert(a[i] == y && i != a.len() - 1);
                assert(y != x);
                assert(a.contains(y));
                let jj = choose|jj: int| 0 <= jj < b.len() && b[jj] == y;
                assert(jj != j);
                if jj < j {
                    assert(b1[jj] == y);
                } else {
                    assert(b1[jj - 1] == y);
                }
            }
            if b1.contains(y) {
                let i = choose|i: int| 0 <= i < b1.len() && b1[i] == y;
                let jj = if i < j { i } else { i + 1 };
                assert(b[jj] == y && jj != j);
                assert(y != x);
                assert(b.contains(y));
                let ia = choose|ia: int| 0 <= ia < a.len() && a[ia] == y;
                assert(ia != a.len() - 1);
                assert(a1[ia] == y);
            }
        }
        lemma_table_sizes_reorder(t, a1, b1);
    }
}

/// The sum over tables of equal sizes is equal.
proof fn lemma_table_sizes_same(t1: Map<u32, Map<u32, Seq<u8>>>, t2: Map<u32, Map<u32, Seq<u8>>>, ks: Seq<u32>)
    requires
        forall|i: int| 0 <= i < ks.len() ==> t1[ks[i]].len() == t2[ks[i]].len(),
    ensures
        table_sizes(t1, ks) == table_sizes(t2, ks),
    decreases ks.len(),
{
    if ks.len() > 0 {
        lemma_table_sizes_same(t1, t2, ks.drop_last());
    }
}

/// `ks` names each key of `m` once.
pub open spec fn lists_keys_once<K, V>(m: Map<K, V>, ks: Seq<K>) -> bool {
    &&& ks.no_duplicates()
    &&& forall|i: int| 0 <= i < ks.len() ==> #[trigger] m.contains_key(ks[i])
    &&& forall|k: K| #[trigger] m.contains_key(k) ==> ks.contains(k)
}

spec fn key_of_group(g: OptionalDataGroup) -> (Seq<char>, u32, i32) {
    (g.locale@, g.table_hash, g.record_id)
}

/// Optional data groups, one per (locale, table, record).
struct OptionalDataIndex {
    groups: Vec<OptionalDataGroup>,
}

impl OptionalDataIndex {
    #[verifier::type_invariant]
    spec fn keys_distinct(&self) -> bool {
        groups_distinct(self.groups@)
    }

    closed spec fn entries_by_key(&self) -> Map<(Seq<char>, u32, i32), Seq<HotfixOptionalData>> {
        groups_map(self.groups@)
    }

    fn add(&mut self, locale: String, table_hash: u32, record_id: i32, entry: HotfixOptionalData)
        ensures
            final(self).entries_by_key() == old(self).entries_by_key().insert(
                (locale@, table_hash, record_id),
                (if old(self).entries_by_key().contains_key((locale@, table_hash, record_id)) {
                    old(self).entries_by_key()[(locale@, table_hash, record_id)]
                } else {
                    Seq::empty()
                }).push(entry),
            ),
    {
        proof {
            use_type_invariant(&*self);
        }
        let ghost gs0 = self.groups@;
        let found = self.find(locale.as_str(), table_hash, record_id);
        let mut gs: Vec<OptionalDataGroup> = Vec::new();
        std::mem::swap(&mut gs, &mut self.groups);
        match found {
            Some(i) => {
                let mut g = gs.remove(i);
                g.entries.push(entry);
                gs.insert(i, g);
                proof {
                    assert(gs@ =~= gs0.update(i as int, g));
                    lemma_optional_lookup(gs0, i as int);
                    lemma_optional_update(gs0, i as int, g);
                }
            },
            None => {
                let g = OptionalDataGroup { locale, table_hash, record_id, entries: vec![entry] };
                gs.push(g);
                proof {
                    lemma_optional_push(gs0, g);
                    assert(g.entries@ =~= Seq::<HotfixOptionalData>::empty().push(entry));
                }
            },
        }
        self.groups = gs;
    }

    fn find(&self, locale: &str, table_hash: u32, record_id: i32) -> (r: Option<usize>)
        ensures
            r matches Some(i) ==> i < self.groups@.len() && key_of_group(self.groups@[i as int]) == (
                locale@,
                table_hash,
                record_id,
            ),
            r is None ==> !self.entries_by_key().contains_key((locale@, table_hash, record_id)),
    {
        let mut i: usize = 0;
        while i < self.groups.len()
            invariant
                i <= self.groups@.len(),
                forall|j: int| 0 <= j < i ==> key_of_group(self.groups@[j]) != (
                    locale@,
                    table_hash,
                    record_id,
                ),
            decreases self.groups@.len() - i,
        {
            let g = &self.groups[i];
            if g.table_hash == table_hash && g.record_id == record_id && same_text(
                g.locale.as_str(),
                locale,
            ) {
                return Some(i);
            }
            i = i + 1;
        }
        None
    }

    fn get(&self, locale: &str, table_hash: u32, record_id: i32) -> (r: Option<&[HotfixOptionalData]>)
        ensures
            r matches Some(s) ==> self.entries_by_key().contains_key((locale@, table_hash, record_id))
                && s@ == self.entries_by_key()[(locale@, table_hash, record_id)],
            r is None ==> !self.entries_by_key().contains_key((locale@, table_hash, record_id)),
    {
        proof {
            use_type_invariant(self);
        }
        match self.find(locale, table_hash, record_id) {
            Some(i) => {
                proof {
                    lemma_optional_lookup(self.groups@, i as int);
                }
                Some(self.groups[i].entries.as_slice())
            },
            None => None,
        }
    }
}

/// Raw record blobs by table and record, hotfix pushes by push id, and the
/// optional data of hotfixed records by locale, table and record.
pub struct HotfixBlobCache {
    blobs: HashMap<u32, HashMap<u32, Vec<u8>>>,
    hotfix_data: BTreeMap<i32, HotfixPush>,
    optional_data: OptionalDataIndex,
    max_hotfix_id: i32,
}

impl HotfixBlobCache {
    /// The cached blobs: table hash, then record id, to the record's bytes.
    pub closed spec fn blob_tables(&self) -> Map<u32, Map<u32, Seq<u8>>> {
        self.blobs@.map_values(|t: HashMap<u32, Vec<u8>>| t@.map_values(|v: Vec<u8>| v@))
    }

    /// The hotfix pushes: push id to the push's records and locale mask.
    pub closed spec fn push_records(&self) -> Map<i32, (Seq<HotfixRecord>, u32)> {
        self.hotfix_data@.map_values(|p: HotfixPush| (p.records@, p.available_locales_mask))
    }

    /// The optional data: (locale, table hash, record id) to its entries.
    pub closed spec fn optional(&self) -> Map<(Seq<char>, u32, i32), Seq<HotfixOptionalData>> {
        self.optional_data.entries_by_key()
    }

    /// The largest push id seen.
    pub closed spec fn max_id(&self) -> i32 {
        self.max_hotfix_id
    }
}


/// The optional data groups as a map from their key to their entries.
spec fn groups_map(gs: Seq<OptionalDataGroup>) -> Map<(Seq<char>, u32, i32), Seq<HotfixOptionalData>> {
    Map::new(
        |k: (Seq<char>, u32, i32)| exists|i: int| 0 <= i < gs.len() && #[trigger] key_of_group(gs[i]) == k,
        |k: (Seq<char>, u32, i32)|
            gs[choose|i: int| 0 <= i < gs.len() && #[trigger] key_of_group(gs[i]) == k].entries@,
    )
}

spec fn groups_distinct(gs: Seq<OptionalDataGroup>) -> bool {
    forall|i: int, j: int| 0 <= i < j < gs.len() ==> key_of_group(gs[i]) != key_of_group(gs[j])
}

proof fn lemma_optional_lookup(gs: Seq<OptionalDataGroup>, i: int)
    requires
        groups_distinct(gs),
        0 <= i < gs.len(),
    ensures
        groups_map(gs).contains_key(key_of_group(gs[i])),
        groups_map(gs)[key_of_group(gs[i])] == gs[i].entries@,
{
    let k = key_of_group(gs[i]);
    assert(groups_map(gs).contains_key(k));
    let j = choose|j: int| 0 <= j < gs.len() && #[trigger] key_of_group(gs[j]) == k;
    if j != i {
        if j < i {
            assert(key_of_group(gs[j]) != key_of_group(gs[i]));
        } else {
            assert(key_of_group(gs[i]) != key_of_group(gs[j]));
        }
    }
}

proof fn lemma_optional_update(gs: Seq<OptionalDataGroup>, i: int, g: OptionalDataGroup)
    requires
        groups_distinct(gs),
        0 <= i < gs.len(),
        key_of_group(g) == key_of_group(gs[i]),
    ensures
        groups_distinct(gs.update(i, g)),
        groups_map(gs.update(i, g)) == groups_map(gs).insert(key_of_group(g), g.entries@),
{
    let gs1 = gs.update(i, g);
    assert forall|a: int, b: int| 0 <= a < b < gs1.len() implies key_of_group(gs1[a]) != key_of_group(
        gs1[b],
    ) by {
        assert(key_of_group(gs1[a]) == key_of_group(gs[a]));
        assert(key_of_group(gs1[b]) == key_of_group(gs[b]));
    }
    assert forall|k: (Seq<char>, u32, i32)| #[trigger] groups_map(gs1).contains_key(k) == groups_map(
        gs,
    ).insert(key_of_group(g), g.entries@).contains_key(k) by {
        if groups_map(gs).contains_key(k) {
            let j = choose|j: int| 0 <= j < gs.len() && #[trigger] key_of_group(gs[j]) == k;
            assert(key_of_group(gs1[j]) == k);
        }
        if groups_map(gs1).contains_key(k) {
            let j = choose|j: int| 0 <= j < gs1.len() && #[trigger] key_of_group(gs1[j]) == k;
            assert(key_of_group(gs[j]) == k);
        }
        assert(key_of_group(gs1[i]) == key_of_group(g));
    }
    assert forall|k: (Seq<char>, u32, i32)| #[trigger] groups_map(gs1).contains_key(k) implies groups_map(
        gs1,
    )[k] == groups_map(gs).insert(key_of_group(g), g.entries@)[k] by {
        let j = choose|j: int| 0 <= j < gs1.len() && #[trigger] key_of_group(gs1[j]) == k;
        lemma_optional_lookup(gs1, j);
        assert(key_of_group(gs[j]) == k);
        lemma_optional_lookup(gs, j);
    }
    assert(groups_map(gs1) =~= groups_map(gs).insert(key_of_group(g), g.entries@));
}

proof fn lemma_optional_push(gs: Seq<OptionalDataGroup>, g: OptionalDataGroup)
    requires
        groups_distinct(gs),
        !groups_map(gs).contains_key(key_of_group(g)),
    ensures
        groups_distinct(gs.push(g)),
        groups_map(gs.push(g)) == groups_map(gs).insert(key_of_group(g), g.entries@),
{
    let gs1 = gs.push(g);
    assert forall|a: int, b: int| 0 <= a < b < gs1.len() implies key_of_group(gs1[a]) != key_of_group(
        gs1[b],
    ) by {
        if b == gs.len() {
            if key_of_group(gs[a]) == key_of_group(g) {
                assert(groups_map(gs).contains_key(key_of_group(g)));
            }
        }
    }
    assert forall|k: (Seq<char>, u32, i32)| #[trigger] groups_map(gs1).contains_key(k) == groups_map(
        gs,
    ).insert(key_of_group(g), g.entries@).contains_key(k) by {
        if groups_map(gs).contains_key(k) {
            let j = choose|j: int| 0 <= j < gs.len() && #[trigger] key_of_group(gs[j]) == k;
            assert(key_of_group(gs1[j]) == k);
        }
        if groups_map(gs1).contains_key(k) {
            let j = choose|j: int| 0 <= j < gs1.len() && #[trigger] key_of_group(gs1[j]) == k;
            if j < gs.len() {
                assert(key_of_group(gs[j]) == k);
            }
        }
        assert(key_of_group(gs1[gs.len() as int]) == key_of_group(g));
    }
    assert forall|k: (Seq<char>, u32, i32)| #[trigger] groups_map(gs1).contains_key(k) implies groups_map(
        gs1,
    )[k] == groups_map(gs).insert(key_of_group(g), g.entries@)[k] by {
        let j = choose|j: int| 0 <= j < gs1.len() && #[trigger] key_of_group(gs1[j]) == k;
        lemma_optional_lookup(gs1, j);
        if j < gs.len() {
            assert(key_of_group(gs[j]) == k);
            lemma_optional_lookup(gs, j);
        }
    }
    assert(groups_map(gs1) =~= groups_map(gs).insert(key_of_group(g), g.entries@));
}

/// Storing records of table `h` leaves the other tables as they were.
proof fn lemma_blobs_after_records_other(t: Map<u32, Map<u32, Seq<u8>>>, h: u32, records: Seq<(u32, Vec<u8>)>)
    ensures
        blobs_after_records(t, h, records) == t.insert(h, blobs_after_records(t, h, records)[h]),
    decreases records.len(),
{
    if records.len() > 0 {
        lemma_blobs_after_records_other(t, h, records.drop_last());
    }
    assert(blobs_after_records(t, h, records) =~= t.insert(h, blobs_after_records(t, h, records)[h]));
}

/// The keys of a hash map walk name each key once.
proof fn lemma_pair_keys<V>(m: &HashMap<u32, V>, ks: Seq<u32>)
    requires
        vstd::std_specs::hash::spec_hash_map_iter(m).remaining().no_duplicates(),
        ks.len() == vstd::std_specs::hash::spec_hash_map_iter(m).remaining().len(),
        forall|i: int| 0 <= i < ks.len() ==> ks[i] == *vstd::std_specs::hash::spec_hash_map_iter(m).remaining()[i].0,
    ensures
        lists_keys_once(m@, ks),
{
    let pairs = vstd::std_specs::hash::spec_hash_map_iter(m).remaining();
    assert forall|i: int| 0 <= i < ks.len() implies #[trigger] m@.contains_key(ks[i]) by {
        assert(m@.contains_key(*pairs[i].0));
    }
    assert forall|k: u32| #[trigger] m@.contains_key(k) implies ks.contains(k) by {
        assert(pairs.contains((&k, &m@[k])));
        let j = choose|j: int| 0 <= j < pairs.len() && pairs[j] == (&k, &m@[k]);
        assert(ks[j] == k);
    }
    assert forall|a: int, b: int| 0 <= a < ks.len() && 0 <= b < ks.len() && a != b implies ks[a]
        != ks[b] by {
        if ks[a] == ks[b] {
            assert(m@.contains_key(*pairs[a].0) && m@[*pairs[a].0] == *pairs[a].1);
            assert(m@.contains_key(*pairs[b].0) && m@[*pairs[b].0] == *pairs[b].1);
            assert(pairs[a] == pairs[b]);
        }
    }
}

/// A push is offered in a locale when it is available there and has a
/// record; it is offered under the id of its first record.
pub open spec fn offered_id(push: (Seq<HotfixRecord>, u32), mask: u32) -> Option<HotfixId> {
    if push.1 & mask != 0 && push.0.len() > 0 {
        Some(push.0[0].id)
    } else {
        None
    }
}

/// `ks` holds the keys of `m` in ascending order.
pub open spec fn ascending_keys<V>(m: Map<i32, V>, ks: Seq<i32>) -> bool {
    &&& forall|i: int, j: int| 0 <= i < j < ks.len() ==> ks[i] < ks[j]
    &&& forall|i: int| 0 <= i < ks.len() ==> #[trigger] m.contains_key(ks[i])
    &&& forall|k: i32| #[trigger] m.contains_key(k) ==> ks.contains(k)
}

/// The sum of the record counts of the pushes `ks` of `p`.
pub open spec fn record_counts(p: Map<i32, (Seq<HotfixRecord>, u32)>, ks: Seq<i32>) -> nat
    decreases ks.len(),
{
    if ks.len() == 0 {
        0
    } else {
        record_counts(p, ks.drop_last()) + p[ks.last()].0.len()
    }
}

/// The keys of a walk of a B-tree map come in ascending order, each once.
proof fn lemma_btree_keys_ascending<V>(m: &BTreeMap<i32, V>, pairs: Seq<(&i32, &V)>, ks: Seq<i32>)
    requires
        pairs == vstd::std_specs::btree::spec_btree_map_iter(m).remaining(),
        vstd::std_specs::btree::increasing_seq(pairs.map_values(|kv: (&i32, &V)| *kv.0)),
        ks.len() == pairs.len(),
        forall|i: int| 0 <= i < ks.len() ==> ks[i] == *pairs[i].0,
    ensures
        ascending_keys(m@, ks),
{
    let s = pairs.map_values(|kv: (&i32, &V)| *kv.0);
    assert(s =~= ks);
    assert forall|i: int, j: int| 0 <= i < j < ks.len() implies ks[i] < ks[j] by {
        assert(vstd::std_specs::cmp::OrdSpec::cmp_spec(&s[i], &s[j]) is Less);
    }
    assert forall|i: int| 0 <= i < ks.len() implies #[trigger] m@.contains_key(ks[i]) by {
        assert(m@.contains_key(*pairs[i].0));
    }
    assert forall|k: i32| #[trigger] m@.contains_key(k) implies ks.contains(k) by {
        assert(pairs.contains((&k, &m@[k])));
        let j = choose|j: int| 0 <= j < pairs.len() && pairs[j] == (&k, &m@[k]);
        assert(ks[j] == k);
    }
}

impl HotfixBlobCache {
    /// An empty cache.
    pub fn new() -> (c: Self)
        ensures
            c.blob_tables() == Map::<u32, Map<u32, Seq<u8>>>::empty(),
            c.push_records() == Map::<i32, (Seq<HotfixRecord>, u32)>::empty(),
            c.optional() == Map::<(Seq<char>, u32, i32), Seq<HotfixOptionalData>>::empty(),
            c.max_id() == 0,
            pushes_consistent(c.push_records(), c.max_id()),
    {
        let c = HotfixBlobCache {
            blobs: HashMap::new(),
            hotfix_data: BTreeMap::new(),
            optional_data: OptionalDataIndex { groups: Vec::new() },
            max_hotfix_id: 0,
        };
        proof {
            assert(c.blob_tables() =~= Map::<u32, Map<u32, Seq<u8>>>::empty());
            assert(c.push_records() =~= Map::<i32, (Seq<HotfixRecord>, u32)>::empty());
            assert(c.optional() =~= Map::<(Seq<char>, u32, i32), Seq<HotfixOptionalData>>::empty());
        }
        c
    }

    /// Inserts or replaces the blob of one record.
    pub fn insert_blob(&mut self, table_hash: u32, record_id: i32, bytes: Vec<u8>)
        ensures
            final(self).blob_tables() == with_blob(
                old(self).blob_tables(),
                table_hash,
                record_id as u32,
                bytes@,
            ),
            final(self).push_records() == old(self).push_records(),
            final(self).optional() == old(self).optional(),
            final(self).max_id() == old(self).max_id(),
    {
        let ghost t0 = self.blob_tables();
        let mut table = match self.blobs.remove(&table_hash) {
            Some(t) => t,
            None => HashMap::new(),
        };
        table.insert(record_id as u32, bytes);
        self.blobs.insert(table_hash, table);
        proof {
            assert(self.blob_tables() =~= with_blob(t0, table_hash, record_id as u32, bytes@)) by {
                assert(self.blob_tables()[table_hash] =~= with_blob(
                    t0,
                    table_hash,
                    record_id as u32,
                    bytes@,
                )[table_hash]);
            }
        }
    }

    /// Stores the records of one table read from its file: every record
    /// replaces an earlier blob with the same id, and the table exists
    /// afterwards; gives the number of records stored.
    pub fn load_db2(&mut self, table_hash: u32, records: Vec<(u32, Vec<u8>)>) -> (n: usize)
        ensures
            n == records@.len(),
            final(self).blob_tables() == blobs_after_records(old(self).blob_tables(), table_hash, records@),
            final(self).push_records() == old(self).push_records(),
            final(self).optional() == old(self).optional(),
            final(self).max_id() == old(self).max_id(),
    {
        let ghost t0 = self.blob_tables();
        let ghost all = records@;
        let mut table = match self.blobs.remove(&table_hash) {
            Some(t) => t,
            None => HashMap::new(),
        };
        let mut count: usize = 0;
        let n = records.len();
        proof {
            assert(all.take(0) =~= Seq::<(u32, Vec<u8>)>::empty());
        }
        for record in it: records
            invariant
                all == it.seq(),
                n == all.len(),
                count == it.index(),
                !self.blobs@.contains_key(table_hash),
                self.blobs@ == old(self).blobs@.remove(table_hash),
                blobs_after_records(t0, table_hash, all.take(it.index() as int))[table_hash] =~= table@.map_values(
                    |v: Vec<u8>| v@,
                ),
        {
            let ghost i = it.index() as int;
            proof {
                assert(all.take(i + 1).drop_last() =~= all.take(i));
            }
            let (record_id, bytes) = record;
            table.insert(record_id, bytes);
            count = count + 1;
        }
        self.blobs.insert(table_hash, table);
        proof {
            assert(all.take(all.len() as int) =~= all);
            lemma_blobs_after_records_other(t0, table_hash, all);
            assert(self.blob_tables() =~= blobs_after_records(t0, table_hash, all)) by {
                assert(self.blob_tables()[table_hash] =~= blobs_after_records(t0, table_hash, all)[table_hash]);
            }
        }
        count
    }

    /// Applies the `hotfix_blob` rows: the rows of the locale replace the
    /// blobs of their records; gives the number of such rows.
    pub fn load_hotfix_blob_rows(&mut self, rows: Vec<HotfixBlobRowLikeCpp>, locale: &str) -> (n: usize)
        ensures
            n == rows_of_locale(rows@, locale@),
            final(self).blob_tables() == blobs_after_rows(old(self).blob_tables(), rows@, locale@),
            final(self).push_records() == old(self).push_records(),
            final(self).optional() == old(self).optional(),
            final(self).max_id() == old(self).max_id(),
    {
        let ghost all = rows@;
        let ghost t0 = self.blob_tables();
        let n = rows.len();
        let mut count: usize = 0;
        for row in it: rows
            invariant
                all == it.seq(),
                n == all.len(),
                count == rows_of_locale(all.take(it.index() as int), locale@),
                count <= it.index(),
                self.blob_tables() == blobs_after_rows(t0, all.take(it.index() as int), locale@),
                self.push_records() == old(self).push_records(),
                self.optional() == old(self).optional(),
                self.max_id() == old(self).max_id(),
        {
            let ghost i = it.index() as int;
            proof {
                assert(all.take(i + 1).drop_last() =~= all.take(i));
            }
            if same_text(row.locale.as_str(), locale) {
                self.insert_blob(row.table_hash, row.record_id, row.blob);
                count = count + 1;
            }
        }
        proof {
            assert(all.take(all.len() as int) =~= all);
        }
        count
    }

    /// Applies the `hotfix_data` rows for the locale: each row that is not
    /// left out is appended to its push, which becomes available in the
    /// locale; gives the number of rows appended.
    pub fn load_hotfix_data_rows(&mut self, rows: Vec<HotfixDataRowLikeCpp>, locale: &str) -> (n: usize)
        ensures
            n == kept_hotfix_rows(rows@, old(self).blob_tables()),
            final(self).push_records() == pushes_after_rows(
                old(self).push_records(),
                rows@,
                old(self).blob_tables(),
                locale_mask_of(locale@),
            ),
            final(self).max_id() == max_push_after_rows(old(self).max_id(), rows@, old(self).blob_tables()),
            pushes_consistent(old(self).push_records(), old(self).max_id()) ==> pushes_consistent(
                final(self).push_records(),
                final(self).max_id(),
            ),
            final(self).blob_tables() == old(self).blob_tables(),
            final(self).optional() == old(self).optional(),
    {
        let ghost all = rows@;
        let ghost t = self.blob_tables();
        let ghost p0 = self.push_records();
        let ghost m0 = self.max_id();
        let mask = locale_mask_for_name(locale);
        let n = rows.len();
        let mut count: usize = 0;
        for row in it: rows
            invariant
                all == it.seq(),
                n == all.len(),
                mask == locale_mask_of(locale@),
                count == kept_hotfix_rows(all.take(it.index() as int), t),
                count <= it.index(),
                self.blob_tables() == t,
                self.push_records() == pushes_after_rows(p0, all.take(it.index() as int), t, mask),
                self.max_id() == max_push_after_rows(m0, all.take(it.index() as int), t),
                pushes_consistent(p0, m0) ==> pushes_consistent(self.push_records(), self.max_id()),
                self.optional() == old(self).optional(),
        {
            let ghost i = it.index() as int;
            let ghost before = self.push_records();
            let ghost max_before = self.max_id();
            proof {
                assert(all.take(i + 1).drop_last() =~= all.take(i));
                assert(all.take(i + 1).last() == row);
            }
            let status = HotfixRecordStatus::from(row.status);
            let skipped = match status {
                HotfixRecordStatus::Valid => !self.has_table(row.table_hash) && self.get(
                    row.table_hash,
                    row.record_id,
                ).is_none(),
                _ => false,
            };
            if !skipped {
                let record = HotfixRecord {
                    table_hash: row.table_hash,
                    record_id: row.record_id,
                    id: HotfixId { push_id: row.push_id, unique_id: row.unique_id },
                    status,
                    available_locales_mask: mask,
                };
                let mut push = match self.hotfix_data.remove(&row.push_id) {
                    Some(p) => p,
                    None => HotfixPush { records: Vec::new(), available_locales_mask: 0 },
                };
                push.available_locales_mask = push.available_locales_mask | record.available_locales_mask;
                push.records.push(record);
                self.hotfix_data.insert(row.push_id, push);
                if row.push_id > self.max_hotfix_id {
                    self.max_hotfix_id = row.push_id;
                }
                count = count + 1;
                proof {
                    assert(record == record_of_row(row, mask));
                    assert(self.push_records() =~= pushes_after_rows(p0, all.take(i + 1), t, mask));
                    if pushes_consistent(p0, m0) {
                        lemma_append_keeps_consistent(before, max_before, row.push_id, record);
                    }
                }
            }
        }
        proof {
            assert(all.take(all.len() as int) =~= all);
        }
        count
    }

    /// Applies the `hotfix_optional_data` rows: the rows of the locale are
    /// appended under their (locale, table, record); gives the number of such
    /// rows.
    pub fn load_hotfix_optional_data_rows(
        &mut self,
        rows: Vec<HotfixOptionalDataRowLikeCpp>,
        locale: &str,
    ) -> (n: usize)
        ensures
            n == optional_rows_of_locale(rows@, locale@),
            final(self).optional() == optional_after_rows(old(self).optional(), rows@, locale@),
            final(self).blob_tables() == old(self).blob_tables(),
            final(self).push_records() == old(self).push_records(),
            final(self).max_id() == old(self).max_id(),
    {
        let ghost all = rows@;
        let ghost o0 = self.optional();
        let n = rows.len();
        let mut count: usize = 0;
        for row in it: rows
            invariant
                all == it.seq(),
                n == all.len(),
                count == optional_rows_of_locale(all.take(it.index() as int), locale@),
                count <= it.index(),
                self.optional() == optional_after_rows(o0, all.take(it.index() as int), locale@),
                self.blob_tables() == old(self).blob_tables(),
                self.push_records() == old(self).push_records(),
                self.max_id() == old(self).max_id(),
        {
            let ghost i = it.index() as int;
            proof {
                assert(all.take(i + 1).drop_last() =~= all.take(i));
                assert(all.take(i + 1).last() == row);
            }
            if same_text(row.locale.as_str(), locale) {
                self.add_optional_data(row.locale, row.table_hash, row.record_id, HotfixOptionalData {
                    key: row.key,
                    data: row.data,
                });
                count = count + 1;
            }
        }
        proof {
            assert(all.take(all.len() as int) =~= all);
        }
        count
    }

    /// Appends one piece of optional data under (locale, table, record).
    fn add_optional_data(&mut self, locale: String, table_hash: u32, record_id: i32, entry: HotfixOptionalData)
        ensures
            final(self).optional() == old(self).optional().insert(
                (locale@, table_hash, record_id),
                (if old(self).optional().contains_key((locale@, table_hash, record_id)) {
                    old(self).optional()[(locale@, table_hash, record_id)]
                } else {
                    Seq::empty()
                }).push(entry),
            ),
            final(self).blob_tables() == old(self).blob_tables(),
            final(self).push_records() == old(self).push_records(),
            final(self).max_id() == old(self).max_id(),
    {
        self.optional_data.add(locale, table_hash, record_id, entry);
    }

    /// The blob of a record.
    pub fn get(&self, table_hash: u32, record_id: i32) -> (r: Option<&[u8]>)
        ensures
            r matches Some(s) ==> self.blob_tables().contains_key(table_hash) && self.blob_tables()[table_hash].contains_key(
                record_id as u32,
            ) && s@ == self.blob_tables()[table_hash][record_id as u32],
            r is None ==> !(self.blob_tables().contains_key(table_hash) && self.blob_tables()[table_hash].contains_key(
                record_id as u32,
            )),
    {
        match self.blobs.get(&table_hash) {
            Some(table) => match table.get(&(record_id as u32)) {
                Some(v) => Some(v.as_slice()),
                None => None,
            },
            None => None,
        }
    }

    /// The optional data of a record in a locale.
    pub fn get_optional_data(&self, table_hash: u32, record_id: i32, locale: &str) -> (r: Option<
        &[HotfixOptionalData],
    >)
        ensures
            r matches Some(s) ==> self.optional().contains_key((locale@, table_hash, record_id)) && s@
                == self.optional()[(locale@, table_hash, record_id)],
            r is None ==> !self.optional().contains_key((locale@, table_hash, record_id)),
    {
        self.optional_data.get(locale, table_hash, record_id)
    }

    /// Whether the cache has any data for a table: a blob of one of its
    /// records.
    pub fn has_table(&self, table_hash: u32) -> (b: bool)
        ensures
            b == table_has_data(self.blob_tables(), table_hash),
    {
        match self.blobs.get(&table_hash) {
            Some(table) => {
                proof {
                    assert(self.blob_tables()[table_hash].dom() =~= table@.dom());
                }
                table.len() > 0
            },
            None => false,
        }
    }

    /// The number of blobs over all tables (saturating at the largest
    /// `usize`).
    pub fn total_blobs(&self) -> (n: usize)
        ensures
            exists|ks: Seq<u32>| #[trigger]
                lists_keys_once(self.blob_tables(), ks) && n == (if table_sizes(self.blob_tables(), ks)
                    <= usize::MAX {
                    table_sizes(self.blob_tables(), ks)
                } else {
                    usize::MAX as nat
                }),
    {
        let ghost t = self.blob_tables();
        let ghost pairs = vstd::std_specs::hash::spec_hash_map_iter(&self.blobs).remaining();
        let ghost mut ks: Seq<u32> = Seq::empty();
        let mut total: usize = 0;
        for pair in it: self.blobs.iter()
            invariant
                it.seq() == pairs,
                pairs.no_duplicates(),
                t == self.blob_tables(),
                ks.len() == it.index(),
                forall|i: int| 0 <= i < ks.len() ==> ks[i] == *pairs[i].0,
                total == (if table_sizes(t, ks) <= usize::MAX {
                    table_sizes(t, ks)
                } else {
                    usize::MAX as nat
                }),
        {
            let (k, table) = pair;
            let ghost i = it.index() as int;
            let ghost ks0 = ks;
            proof {
                assert(pair == pairs[i]);
                assert(self.blobs@.contains_key(*pairs[i].0));
                assert(t[*k].dom() =~= table@.dom());
                assert(t[*k].len() == table@.len());
                ks = ks.push(*k);
                assert(ks.drop_last() =~= ks0);
            }
            total = total.saturating_add(table.len());
        }
        proof {
            lemma_pair_keys(&self.blobs, ks);
            assert(lists_keys_once(self.blob_tables(), ks));
        }
        total
    }

    /// The hotfix pushes by push id.
    pub fn hotfix_pushes(&self) -> (r: &BTreeMap<i32, HotfixPush>)
        ensures
            r@.dom() == self.push_records().dom(),
            forall|k: i32| #[trigger] r@.contains_key(k) ==> (r@[k].records@, r@[k].available_locales_mask)
                == self.push_records()[k],
    {
        &self.hotfix_data
    }

    /// The hotfix push with the id.
    pub fn hotfix_push(&self, push_id: i32) -> (r: Option<&HotfixPush>)
        ensures
            r is Some <==> self.push_records().contains_key(push_id),
            r matches Some(p) ==> (p.records@, p.available_locales_mask) == self.push_records()[push_id],
    {
        self.hotfix_data.get(&push_id)
    }

    /// The id of every push offered in the locale, in push id order.
    pub fn available_hotfix_ids(&self, locale: &str) -> (r: Vec<HotfixId>)
        ensures
            exists|ks: Seq<i32>| #[trigger]
                ascending_keys(self.push_records(), ks) && r@ == ks.filter_map(
                    |k: i32| offered_id(self.push_records()[k], locale_mask_of(locale@)),
                ),
    {
        let mask = locale_mask_for_name(locale);
        let ghost p = self.push_records();
        let ghost pairs = vstd::std_specs::btree::spec_btree_map_iter(&self.hotfix_data).remaining();
        let ghost mut ks: Seq<i32> = Seq::empty();
        let mut r: Vec<HotfixId> = Vec::new();
        for pair in it: self.hotfix_data.iter()
            invariant
                it.seq() == pairs,
                vstd::std_specs::btree::increasing_seq(pairs.map_values(|kv: (&i32, &HotfixPush)| *kv.0)),
                p == self.push_records(),
                mask == locale_mask_of(locale@),
                ks.len() == it.index(),
                forall|i: int| 0 <= i < ks.len() ==> ks[i] == *pairs[i].0,
                r@ == ks.filter_map(|k: i32| offered_id(p[k], mask)),
        {
            let (k, push) = pair;
            let ghost i = it.index() as int;
            let ghost ks0 = ks;
            proof {
                assert(pair == pairs[i]);
                assert(self.hotfix_data@.contains_key(*pairs[i].0));
                ks = ks.push(*k);
                assert(ks.drop_last() =~= ks0);
            }
            let ghost r0 = r@;
            if push.available_locales_mask & mask != 0 && push.records.len() > 0 {
                r.push(push.records[0].id);
            }
            proof {
                assert(p[*k] == (push.records@, push.available_locales_mask));
                assert(r@ =~= r0 + match offered_id(p[*k], mask) {
                    Some(x) => seq![x],
                    None => Seq::empty(),
                });
            }
        }
        proof {
            lemma_btree_keys_ascending(&self.hotfix_data, pairs, ks);
            assert(ascending_keys(self.push_records(), ks));
        }
        r
    }

    /// The number of hotfix records over all pushes (saturating at the
    /// largest `usize`).
    pub fn hotfix_count(&self) -> (n: usize)
        ensures
            exists|ks: Seq<i32>| #[trigger]
                ascending_keys(self.push_records(), ks) && n == (if record_counts(self.push_records(), ks)
                    <= usize::MAX {
                    record_counts(self.push_records(), ks)
                } else {
                    usize::MAX as nat
                }),
    {
        let ghost p = self.push_records();
        let ghost pairs = vstd::std_specs::btree::spec_btree_map_iter(&self.hotfix_data).remaining();
        let ghost mut ks: Seq<i32> = Seq::empty();
        let mut total: usize = 0;
        for pair in it: self.hotfix_data.iter()
            invariant
                it.seq() == pairs,
                vstd::std_specs::btree::increasing_seq(pairs.map_values(|kv: (&i32, &HotfixPush)| *kv.0)),
                p == self.push_records(),
                ks.len() == it.index(),
                forall|i: int| 0 <= i < ks.len() ==> ks[i] == *pairs[i].0,
                total == (if record_counts(p, ks) <= usize::MAX {
                    record_counts(p, ks)
                } else {
                    usize::MAX as nat
                }),
        {
            let (k, push) = pair;
            let ghost i = it.index() as int;
            let ghost ks0 = ks;
            proof {
                assert(pair == pairs[i]);
                assert(self.hotfix_data@.contains_key(*pairs[i].0));
                assert(p[*k].0.len() == push.records@.len());
                ks = ks.push(*k);
                assert(ks.drop_last() =~= ks0);
            }
            total = total.saturating_add(push.records.len());
        }
        proof {
            lemma_btree_keys_ascending(&self.hotfix_data, pairs, ks);
            assert(ascending_keys(self.push_records(), ks));
        }
        total
    }

    /// The largest push id seen.
    pub fn max_hotfix_id(&self) -> (m: i32)
        ensures
            m == self.max_id(),
    {
        self.max_hotfix_id
    }
}

impl Default for HotfixBlobCache {
    fn default() -> (c: Self)
        ensures
            c.blob_tables() == Map::<u32, Map<u32, Seq<u8>>>::empty(),
            c.push_records() == Map::<i32, (Seq<HotfixRecord>, u32)>::empty(),
            c.optional() == Map::<(Seq<char>, u32, i32), Seq<HotfixOptionalData>>::empty(),
            c.max_id() == 0,
            pushes_consistent(c.push_records(), c.max_id()),
    {
        HotfixBlobCache::new()
    }
}

/// Writing a blob adds one to the number of blobs when the record had none,
/// and leaves the number as it was when it replaces one (the number summed
/// over the tables in any order).
pub proof fn lemma_insert_blob_count(
    before: &HotfixBlobCache,
    after: &HotfixBlobCache,
    table_hash: u32,
    record_id: u32,
    bytes: Seq<u8>,
    ks: Seq<u32>,
    ks2: Seq<u32>,
)
    requires
        after.blob_tables() == with_blob(before.blob_tables(), table_hash, record_id, bytes),
        lists_keys_once(before.blob_tables(), ks),
        lists_keys_once(after.blob_tables(), ks2),
    ensures
        table_sizes(after.blob_tables(), ks2) == table_sizes(before.blob_tables(), ks) + (if blob_at(
            before.blob_tables(),
            table_hash,
            record_id,
        ) is Some {
            0int
        } else {
            1int
        }),
{
    let t = before.blob_tables();
    let t2 = after.blob_tables();
    let h = table_hash;
    assert forall|x: u32| t.contains_key(x) implies #[trigger] t[x].dom().finite() by {
        assert(before.blobs@.contains_key(x));
        assert(t[x].dom() =~= before.blobs@[x]@.dom());
    }
    let old_t: Map<u32, Seq<u8>> = if t.contains_key(h) {
        t[h]
    } else {
        Map::empty()
    };
    assert(old_t.dom().finite());
    assert(t2[h] == old_t.insert(record_id, bytes));
    assert(t2[h].dom() =~= old_t.dom().insert(record_id));
    assert(t2[h].len() == old_t.len() + (if old_t.contains_key(record_id) {
        0int
    } else {
        1int
    }));
    if t.contains_key(h) {
        assert(ks.contains(h));
        let j = choose|j: int| 0 <= j < ks.len() && ks[j] == h;
        assert forall|x: u32| ks.contains(x) <==> ks2.contains(x) by {
            if ks.contains(x) {
                let i = choose|i: int| 0 <= i < ks.len() && ks[i] == x;
                assert(t.contains_key(ks[i]));
                assert(t2.contains_key(x));
            }
            if ks2.contains(x) {
                let i = choose|i: int| 0 <= i < ks2.len() && ks2[i] == x;
                assert(t2.contains_key(ks2[i]));
                assert(t.contains_key(x));
            }
        }
        lemma_table_sizes_reorder(t2, ks2, ks);
        lemma_table_sizes_remove(t2, ks, j);
        lemma_table_sizes_remove(t, ks, j);
        let r = ks.remove(j);
        assert forall|i: int| 0 <= i < r.len() implies t[r[i]].len() == t2[r[i]].len() by {
            let ii = if i < j { i } else { i + 1 };
            assert(r[i] == ks[ii] && ii != j);
            assert(ks[ii] != ks[j]);
        }
        lemma_table_sizes_same(t, t2, r);
    } else {
        let ks3 = ks.push(h);
        assert(!ks.contains(h));
        assert(ks3.no_duplicates()) by {
            assert forall|a: int, b: int| 0 <= a < b < ks3.len() implies ks3[a] != ks3[b] by {
                if b == ks.len() {
                    assert(ks.contains(ks[a]));
                }
            }
        }
        assert forall|x: u32| ks3.contains(x) <==> ks2.contains(x) by {
            if ks3.contains(x) {
                let i = choose|i: int| 0 <= i < ks3.len() && ks3[i] == x;
                if i < ks.len() {
                    assert(ks[i] == x);
                    assert(t.contains_key(ks[i]));
                }
                assert(t2.contains_key(x));
            }
            if ks2.contains(x) {
                let i = choose|i: int| 0 <= i < ks2.len() && ks2[i] == x;
                assert(t2.contains_key(ks2[i]));
                if x != h {
                    assert(t.contains_key(x));
                    assert(ks.contains(x));
                    let ii = choose|ii: int| 0 <= ii < ks.len() && ks[ii] == x;
                    assert(ks3[ii] == x);
                } else {
                    assert(ks3[ks.len() as int] == x);
                }
            }
        }
        lemma_table_sizes_reorder(t2, ks2, ks3);
        assert(ks3.drop_last() =~= ks);
        assert forall|i: int| 0 <= i < ks.len() implies t[ks[i]].len() == t2[ks[i]].len() by {
            assert(ks.contains(ks[i]));
            assert(ks[i] != h);
        }
        lemma_table_sizes_same(t, t2, ks);
    }
}

} // verus!
