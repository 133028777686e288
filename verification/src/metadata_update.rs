//! Adding the metadata fields (`updated_at`, and for a deleting update
//! `is_deleted` and `deleted_at`) to a MongoDB update.
//!
//! An update is a document of update operators or an aggregation pipeline of
//! such documents. Only three levels of it are read: the update document, its
//! `$set` document, and that document's `metadata` document. Values that are
//! not looked into are carried as `L`.
use vstd::prelude::*;

use crate::documents::{
    doc_extend, doc_get, doc_insert, find_key, first_key_at, has_key, insert_entry, key_position, keyed,
    lemma_extend_map, lemma_first_key_unique, lemma_get_map, lemma_insert_map, lemma_map_keeps_keys,
    lemma_some_first, map_values_of, lemma_insert_present, law_get_after_insert,
    law_insert_keeps_other_keys, lemma_insert_keeps_has_key,
};
use crate::errors::ServiceError;

verus! {

/// A value that is not a document: the two kinds that metadata is made of,
/// or any other value.
#[derive(Debug, Clone)]
pub enum Field<L> {
    Boolean(bool),
    /// Milliseconds since the Unix epoch.
    DateTime(i64),
    Other(L),
}

/// A value that is a document `D`, or not a document.
#[derive(Debug, Clone)]
pub enum Entry<D, L> {
    Doc(D),
    Field(Field<L>),
}

/// The `metadata` document.
pub type MetaDoc<L> = Vec<(String, Field<L>)>;

/// The `$set` document.
pub type SetDoc<L> = Vec<(String, Entry<MetaDoc<L>, L>)>;

/// An update document, or a stage of a pipeline.
pub type TopDoc<L> = Vec<(String, Entry<SetDoc<L>, L>)>;

/// The modifications of an update.
#[derive(Debug, Clone)]
pub enum UpdateModifications<L> {
    /// A document of update operators.
    Document(TopDoc<L>),
    /// An aggregation pipeline.
    Pipeline(Vec<TopDoc<L>>),
    /// A kind of modification that is not supported here.
    Unsupported,
}

pub type MetaDocV<L> = Seq<(Seq<char>, Field<L>)>;

pub type SetDocV<L> = Seq<(Seq<char>, Entry<MetaDocV<L>, L>)>;

pub type TopDocV<L> = Seq<(Seq<char>, Entry<SetDocV<L>, L>)>;

/// The modifications of an update, with keys taken by their characters.
pub enum UpdateView<L> {
    Document(TopDocV<L>),
    Pipeline(Seq<TopDocV<L>>),
    Unsupported,
}

pub open spec fn set_entry_view<L>(e: Entry<MetaDoc<L>, L>) -> Entry<MetaDocV<L>, L> {
    match e {
        Entry::Doc(m) => Entry::Doc(keyed(m@)),
        Entry::Field(f) => Entry::Field(f),
    }
}

pub open spec fn set_entry_fn<L>() -> spec_fn(Entry<MetaDoc<L>, L>) -> Entry<MetaDocV<L>, L> {
    |e: Entry<MetaDoc<L>, L>| set_entry_view(e)
}

pub open spec fn set_doc_view<L>(s: SetDoc<L>) -> SetDocV<L> {
    map_values_of(keyed(s@), set_entry_fn())
}

pub open spec fn top_entry_view<L>(e: Entry<SetDoc<L>, L>) -> Entry<SetDocV<L>, L> {
    match e {
        Entry::Doc(s) => Entry::Doc(set_doc_view(s)),
        Entry::Field(f) => Entry::Field(f),
    }
}

pub open spec fn top_entry_fn<L>() -> spec_fn(Entry<SetDoc<L>, L>) -> Entry<SetDocV<L>, L> {
    |e: Entry<SetDoc<L>, L>| top_entry_view(e)
}

pub open spec fn top_doc_view<L>(t: TopDoc<L>) -> TopDocV<L> {
    map_values_of(keyed(t@), top_entry_fn())
}

pub open spec fn top_doc_fn<L>() -> spec_fn(TopDoc<L>) -> TopDocV<L> {
    |t: TopDoc<L>| top_doc_view(t)
}

impl<L> UpdateModifications<L> {
    pub open spec fn view(&self) -> UpdateView<L> {
        match self {
            UpdateModifications::Document(t) => UpdateView::Document(top_doc_view(*t)),
            UpdateModifications::Pipeline(p) => UpdateView::Pipeline(p@.map_values(top_doc_fn())),
            UpdateModifications::Unsupported => UpdateView::Unsupported,
        }
    }
}

/// The metadata fields set directly in a `$set` document.
pub open spec fn metadata_field_updates<L>(now: i64, deleted: bool) -> SetDocV<L> {
    seq![("metadata.updated_at"@, Entry::Field(Field::DateTime(now)))] + if deleted {
        seq![
            ("metadata.is_deleted"@, Entry::Field(Field::Boolean(true))),
            ("metadata.deleted_at"@, Entry::Field(Field::DateTime(now))),
        ]
    } else {
        seq![]
    }
}

/// The `metadata` document with its fields updated.
pub open spec fn spec_update_metadata_doc<L>(m: MetaDocV<L>, now: i64, deleted: bool) -> MetaDocV<L> {
    let m1 = doc_insert(m, "updated_at"@, Field::DateTime(now));
    if deleted {
        doc_insert(doc_insert(m1, "is_deleted"@, Field::Boolean(true)), "deleted_at"@, Field::DateTime(now))
    } else {
        m1
    }
}

/// A `$set` document with the metadata fields updated: inside its `metadata`
/// document when it has one, or else as dotted fields of its own.
pub open spec fn spec_update_set_doc<L>(s: SetDocV<L>, now: i64, deleted: bool) -> SetDocV<L> {
    match doc_get(s, "metadata"@) {
        Some(Entry::Doc(m)) => doc_insert(
            s,
            "metadata"@,
            Entry::Doc(spec_update_metadata_doc(m, now, deleted)),
        ),
        _ => doc_extend(s, metadata_field_updates(now, deleted)),
    }
}

/// An update document, given a `$set` document when it has none, with the
/// metadata fields of that `$set` document updated when it is a document.
pub open spec fn spec_update_top_doc<L>(t: TopDocV<L>, now: i64, deleted: bool) -> TopDocV<L> {
    let t1 = if has_key(t, "$set"@) {
        t
    } else {
        t.push(("$set"@, Entry::Doc(seq![])))
    };
    match doc_get(t1, "$set"@) {
        Some(Entry::Doc(s)) => doc_insert(t1, "$set"@, Entry::Doc(spec_update_set_doc(s, now, deleted))),
        _ => t1,
    }
}

/// The first stage of a pipeline that has a `$set` key.
pub open spec fn first_set_stage_at<L>(p: Seq<TopDocV<L>>, i: int) -> bool {
    &&& 0 <= i < p.len()
    &&& has_key(p[i], "$set"@)
    &&& forall|j: int| 0 <= j < i ==> !has_key(#[trigger] p[j], "$set"@)
}

pub open spec fn has_set_stage<L>(p: Seq<TopDocV<L>>) -> bool {
    exists|i: int| first_set_stage_at(p, i)
}

/// A pipeline with the metadata fields updated in the `$set` document of its
/// first stage that has one, or else with a new `$set` stage in second place.
pub open spec fn spec_update_pipeline<L>(p: Seq<TopDocV<L>>, now: i64, deleted: bool) -> Seq<
    TopDocV<L>,
> {
    if has_set_stage(p) {
        let i = choose|i: int| first_set_stage_at(p, i);
        match doc_get(p[i], "$set"@) {
            Some(Entry::Doc(s)) => p.update(
                i,
                doc_insert(p[i], "$set"@, Entry::Doc(spec_update_set_doc(s, now, deleted))),
            ),
            _ => p,
        }
    } else {
        p.insert(1, seq![("$set"@, Entry::Doc(metadata_field_updates(now, deleted)))])
    }
}

/// The update with its metadata fields added, or `None` for a kind of update
/// that is not supported.
pub open spec fn spec_add_metadata_update<L>(u: UpdateView<L>, deleted: bool, now: i64) -> Option<
    UpdateView<L>,
> {
    match u {
        UpdateView::Document(t) => Some(UpdateView::Document(spec_update_top_doc(t, now, deleted))),
        UpdateView::Pipeline(p) => Some(UpdateView::Pipeline(spec_update_pipeline(p, now, deleted))),
        UpdateView::Unsupported => None,
    }
}

/// The updates that can be completed: a pipeline without a `$set` stage must
/// have a first stage for the new stage to follow (inserting the new stage
/// in second place into an empty pipeline would panic).
pub open spec fn update_accepted<L>(u: UpdateView<L>) -> bool {
    match u {
        UpdateView::Pipeline(p) => !has_set_stage(p) ==> p.len() >= 1,
        _ => true,
    }
}

/// A `$set` document holds the marks of an update made at `now`: in its
/// `metadata` document when it has one, else in dotted fields; for a deleting
/// update the deletion marks are there too.
pub open spec fn set_doc_holds_marks<L>(s2: SetDocV<L>, now: i64, deleted: bool) -> bool {
    match doc_get(s2, "metadata"@) {
        Some(Entry::Doc(m2)) => {
            &&& doc_get(m2, "updated_at"@) == Some(Field::<L>::DateTime(now))
            &&& deleted ==> doc_get(m2, "is_deleted"@) == Some(Field::<L>::Boolean(true))
            &&& deleted ==> doc_get(m2, "deleted_at"@) == Some(Field::<L>::DateTime(now))
        },
        _ => {
            &&& doc_get(s2, "metadata.updated_at"@) == Some(
                Entry::<MetaDocV<L>, L>::Field(Field::DateTime(now)),
            )
            &&& deleted ==> doc_get(s2, "metadata.is_deleted"@) == Some(
                Entry::<MetaDocV<L>, L>::Field(Field::Boolean(true)),
            )
            &&& deleted ==> doc_get(s2, "metadata.deleted_at"@) == Some(
                Entry::<MetaDocV<L>, L>::Field(Field::DateTime(now)),
            )
        },
    }
}

/// Updating a `metadata` document twice at the same time is updating it once.
proof fn lemma_update_metadata_doc_idempotent<L>(m: MetaDocV<L>, now: i64, deleted: bool)
    ensures
        spec_update_metadata_doc(spec_update_metadata_doc(m, now, deleted), now, deleted)
            == spec_update_metadata_doc(m, now, deleted),
{
    let ua = "updated_at"@;
    let isd = "is_deleted"@;
    let dat = "deleted_at"@;
    reveal_strlit("updated_at");
    reveal_strlit("is_deleted");
    reveal_strlit("deleted_at");
    assert(ua != isd && ua != dat && isd != dat) by {
        assert(ua[0] != isd[0]);
        assert(ua[0] != dat[0]);
        assert(isd[0] != dat[0]);
    }
    let m1 = doc_insert(m, ua, Field::<L>::DateTime(now));
    law_get_after_insert(m, ua, Field::<L>::DateTime(now));
    if deleted {
        let m2 = doc_insert(m1, isd, Field::<L>::Boolean(true));
        let m3 = doc_insert(m2, dat, Field::<L>::DateTime(now));
        law_get_after_insert(m1, isd, Field::<L>::Boolean(true));
        law_get_after_insert(m2, dat, Field::<L>::DateTime(now));
        law_insert_keeps_other_keys(m1, isd, Field::<L>::Boolean(true), ua);
        law_insert_keeps_other_keys(m2, dat, Field::<L>::DateTime(now), ua);
        law_insert_keeps_other_keys(m2, dat, Field::<L>::DateTime(now), isd);
        lemma_insert_present(m3, ua, Field::<L>::DateTime(now));
        lemma_insert_present(m3, isd, Field::<L>::Boolean(true));
        lemma_insert_present(m3, dat, Field::<L>::DateTime(now));
    } else {
        lemma_insert_present(m1, ua, Field::<L>::DateTime(now));
    }
}

/// The keys of the dotted metadata fields differ from `metadata`, and from each other.
proof fn lemma_metadata_keys_distinct()
    ensures
        "metadata.updated_at"@ != "metadata"@,
        "metadata.is_deleted"@ != "metadata"@,
        "metadata.deleted_at"@ != "metadata"@,
        "metadata.updated_at"@ != "metadata.is_deleted"@,
        "metadata.updated_at"@ != "metadata.deleted_at"@,
        "metadata.is_deleted"@ != "metadata.deleted_at"@,
{
    reveal_strlit("metadata.updated_at");
    reveal_strlit("metadata.is_deleted");
    reveal_strlit("metadata.deleted_at");
    reveal_strlit("metadata");
    assert("metadata.updated_at"@.len() != "metadata"@.len());
    assert("metadata.is_deleted"@.len() != "metadata"@.len());
    assert("metadata.deleted_at"@.len() != "metadata"@.len());
    assert("metadata.updated_at"@[9] != "metadata.is_deleted"@[9]);
    assert("metadata.updated_at"@[9] != "metadata.deleted_at"@[9]);
    assert("metadata.is_deleted"@[9] != "metadata.deleted_at"@[9]);
}

/// Setting the dotted metadata fields keeps the value of `metadata`, gives
/// each field its value, and setting them again changes nothing.
proof fn lemma_field_updates<L>(s: SetDocV<L>, now: i64, deleted: bool)
    ensures
        doc_get(doc_extend(s, metadata_field_updates::<L>(now, deleted)), "metadata"@) == doc_get(
            s,
            "metadata"@,
        ),
        doc_extend(doc_extend(s, metadata_field_updates::<L>(now, deleted)), metadata_field_updates::<L>(now, deleted))
            == doc_extend(s, metadata_field_updates::<L>(now, deleted)),
        doc_get(doc_extend(s, metadata_field_updates::<L>(now, deleted)), "metadata.updated_at"@)
            == Some(Entry::<MetaDocV<L>, L>::Field(Field::DateTime(now))),
        deleted ==> doc_get(doc_extend(s, metadata_field_updates::<L>(now, deleted)), "metadata.is_deleted"@)
            == Some(Entry::<MetaDocV<L>, L>::Field(Field::Boolean(true))),
        deleted ==> doc_get(doc_extend(s, metadata_field_updates::<L>(now, deleted)), "metadata.deleted_at"@)
            == Some(Entry::<MetaDocV<L>, L>::Field(Field::DateTime(now))),
{
    reveal_with_fuel(doc_extend, 4);
    lemma_metadata_keys_distinct();
    let items = metadata_field_updates::<L>(now, deleted);
    let ua = "metadata.updated_at"@;
    let isd = "metadata.is_deleted"@;
    let dat = "metadata.deleted_at"@;
    let vua = Entry::<MetaDocV<L>, L>::Field(Field::DateTime(now));
    let visd = Entry::<MetaDocV<L>, L>::Field(Field::Boolean(true));
    let vdat = Entry::<MetaDocV<L>, L>::Field(Field::DateTime(now));
    let s1 = doc_insert(s, ua, vua);
    law_get_after_insert(s, ua, vua);
    law_insert_keeps_other_keys(s, ua, vua, "metadata"@);
    if deleted {
        assert(items[0] == (ua, vua));
        assert(items.drop_first()[0] == (isd, visd));
        assert(items.drop_first().drop_first()[0] == (dat, vdat));
        assert(items.drop_first().drop_first().drop_first().len() == 0);
        let s2 = doc_insert(s1, isd, visd);
        let s3 = doc_insert(s2, dat, vdat);
        assert(doc_extend(s, items) == s3);
        assert(doc_extend(s3, items) == doc_insert(doc_insert(doc_insert(s3, ua, vua), isd, visd), dat, vdat));
        law_get_after_insert(s1, isd, visd);
        law_get_after_insert(s2, dat, vdat);
        law_insert_keeps_other_keys(s1, isd, visd, ua);
        law_insert_keeps_other_keys(s2, dat, vdat, ua);
        law_insert_keeps_other_keys(s2, dat, vdat, isd);
        law_insert_keeps_other_keys(s1, isd, visd, "metadata"@);
        law_insert_keeps_other_keys(s2, dat, vdat, "metadata"@);
        lemma_insert_present(s3, ua, vua);
        lemma_insert_present(s3, isd, visd);
        lemma_insert_present(s3, dat, vdat);
    } else {
        assert(items[0] == (ua, vua));
        assert(items.drop_first().len() == 0);
        assert(doc_extend(s, items) == s1);
        assert(doc_extend(s1, items) == doc_insert(s1, ua, vua));
        lemma_insert_present(s1, ua, vua);
    }
}

/// Updating a `$set` document twice at the same time is updating it once.
proof fn lemma_update_set_doc_idempotent<L>(s: SetDocV<L>, now: i64, deleted: bool)
    ensures
        spec_update_set_doc(spec_update_set_doc(s, now, deleted), now, deleted)
            == spec_update_set_doc(s, now, deleted),
{
    let s2 = spec_update_set_doc(s, now, deleted);
    match doc_get(s, "metadata"@) {
        Some(Entry::Doc(m)) => {
            let um = spec_update_metadata_doc(m, now, deleted);
            law_get_after_insert(s, "metadata"@, Entry::Doc(um));
            lemma_update_metadata_doc_idempotent(m, now, deleted);
            lemma_insert_present(s2, "metadata"@, Entry::Doc(um));
        },
        _ => {
            lemma_field_updates(s, now, deleted);
        },
    }
}

/// Updating an update document twice at the same time is updating it once.
pub proof fn law_update_document_idempotent<L>(t: TopDocV<L>, now: i64, deleted: bool)
    ensures
        spec_update_top_doc(spec_update_top_doc(t, now, deleted), now, deleted)
            == spec_update_top_doc(t, now, deleted),
{
    let k = "$set"@;
    let t1 = if has_key(t, k) {
        t
    } else {
        t.push((k, Entry::Doc(seq![])))
    };
    if !has_key(t, k) {
        assert(first_key_at(t1, k, t.len() as int)) by {
            assert forall|j: int| 0 <= j < t.len() implies t1[j].0 != k by {
                if t1[j].0 == k {
                    lemma_some_first(t, k, j);
                }
            }
        }
    }
    assert(has_key(t1, k));
    let t2 = spec_update_top_doc(t, now, deleted);
    match doc_get(t1, k) {
        Some(Entry::Doc(s)) => {
            let us = spec_update_set_doc(s, now, deleted);
            lemma_insert_keeps_has_key(t1, k, Entry::Doc(us), k);
            law_get_after_insert(t1, k, Entry::Doc(us));
            lemma_update_set_doc_idempotent(s, now, deleted);
            lemma_insert_present(t2, k, Entry::Doc(us));
        },
        _ => {},
    }
}

/// An update document, once updated, has a `$set` key; when its `$set` value
/// is a document, that document holds the time of the update: in its
/// `metadata` document when it has one, else in dotted fields; for a deleting
/// update the deletion marks are there too. Every other key keeps its value.
pub proof fn law_update_document_marks<L>(t: TopDocV<L>, now: i64, deleted: bool, other: Seq<char>)
    requires
        other != "$set"@,
    ensures
        has_key(spec_update_top_doc(t, now, deleted), "$set"@),
        doc_get(spec_update_top_doc(t, now, deleted), other) == doc_get(t, other),
        match doc_get(spec_update_top_doc(t, now, deleted), "$set"@) {
            Some(Entry::Doc(s2)) => match doc_get(s2, "metadata"@) {
                Some(Entry::Doc(m2)) => {
                    &&& doc_get(m2, "updated_at"@) == Some(Field::<L>::DateTime(now))
                    &&& deleted ==> doc_get(m2, "is_deleted"@) == Some(Field::<L>::Boolean(true))
                    &&& deleted ==> doc_get(m2, "deleted_at"@) == Some(Field::<L>::DateTime(now))
                },
                _ => {
                    &&& doc_get(s2, "metadata.updated_at"@) == Some(
                        Entry::<MetaDocV<L>, L>::Field(Field::DateTime(now)),
                    )
                    &&& deleted ==> doc_get(s2, "metadata.is_deleted"@) == Some(
                        Entry::<MetaDocV<L>, L>::Field(Field::Boolean(true)),
                    )
                    &&& deleted ==> doc_get(s2, "metadata.deleted_at"@) == Some(
                        Entry::<MetaDocV<L>, L>::Field(Field::DateTime(now)),
                    )
                },
            },
            _ => true,
        },
{
    let k = "$set"@;
    let t1 = if has_key(t, k) {
        t
    } else {
        t.push((k, Entry::Doc(seq![])))
    };
    if !has_key(t, k) {
        assert(first_key_at(t1, k, t.len() as int)) by {
            assert forall|j: int| 0 <= j < t.len() implies t1[j].0 != k by {
                if t1[j].0 == k {
                    lemma_some_first(t, k, j);
                }
            }
        }
        assert(t1 == doc_insert(t, k, Entry::<SetDocV<L>, L>::Doc(seq![])));
        law_insert_keeps_other_keys(t, k, Entry::<SetDocV<L>, L>::Doc(seq![]), other);
    }
    assert(has_key(t1, k));
    match doc_get(t1, k) {
        Some(Entry::Doc(s)) => {
            let us = spec_update_set_doc(s, now, deleted);
            lemma_insert_keeps_has_key(t1, k, Entry::Doc(us), k);
            law_get_after_insert(t1, k, Entry::Doc(us));
            law_insert_keeps_other_keys(t1, k, Entry::Doc(us), other);
            match doc_get(s, "metadata"@) {
                Some(Entry::Doc(m)) => {
                    let um = spec_update_metadata_doc(m, now, deleted);
                    law_get_after_insert(s, "metadata"@, Entry::Doc(um));
                    reveal_strlit("updated_at");
                    reveal_strlit("is_deleted");
                    reveal_strlit("deleted_at");
                    let ua = "updated_at"@;
                    let isd = "is_deleted"@;
                    let dat = "deleted_at"@;
                    assert(ua[0] != isd[0] && ua[0] != dat[0] && isd[0] != dat[0]);
                    let m1 = doc_insert(m, ua, Field::<L>::DateTime(now));
                    law_get_after_insert(m, ua, Field::<L>::DateTime(now));
                    if deleted {
                        let m2 = doc_insert(m1, isd, Field::<L>::Boolean(true));
                        law_get_after_insert(m1, isd, Field::<L>::Boolean(true));
                        law_get_after_insert(m2, dat, Field::<L>::DateTime(now));
                        law_insert_keeps_other_keys(m1, isd, Field::<L>::Boolean(true), ua);
                        law_insert_keeps_other_keys(m2, dat, Field::<L>::DateTime(now), ua);
                        law_insert_keeps_other_keys(m2, dat, Field::<L>::DateTime(now), isd);
                    }
                },
                _ => {
                    lemma_field_updates(s, now, deleted);
                },
            }
        },
        _ => {},
    }
}

/// An updated `$set` document holds the marks of the update.
proof fn lemma_update_set_doc_marks<L>(s: SetDocV<L>, now: i64, deleted: bool)
    ensures
        set_doc_holds_marks(spec_update_set_doc(s, now, deleted), now, deleted),
{
    match doc_get(s, "metadata"@) {
        Some(Entry::Doc(m)) => {
            let um = spec_update_metadata_doc(m, now, deleted);
            law_get_after_insert(s, "metadata"@, Entry::Doc(um));
            reveal_strlit("updated_at");
            reveal_strlit("is_deleted");
            reveal_strlit("deleted_at");
            let ua = "updated_at"@;
            let isd = "is_deleted"@;
            let dat = "deleted_at"@;
            assert(ua[0] != isd[0] && ua[0] != dat[0] && isd[0] != dat[0]);
            let m1 = doc_insert(m, ua, Field::<L>::DateTime(now));
            law_get_after_insert(m, ua, Field::<L>::DateTime(now));
            if deleted {
                let m2 = doc_insert(m1, isd, Field::<L>::Boolean(true));
                law_get_after_insert(m1, isd, Field::<L>::Boolean(true));
                law_get_after_insert(m2, dat, Field::<L>::DateTime(now));
                law_insert_keeps_other_keys(m1, isd, Field::<L>::Boolean(true), ua);
                law_insert_keeps_other_keys(m2, dat, Field::<L>::DateTime(now), ua);
                law_insert_keeps_other_keys(m2, dat, Field::<L>::DateTime(now), isd);
            }
        },
        _ => {
            lemma_field_updates(s, now, deleted);
        },
    }
}

/// In a pipeline whose stage `i` is the first with a `$set` key, updating
/// touches that stage alone: every other stage, and every other key of that
/// stage, keep their values; when its `$set` value is a document, that
/// document then holds the time of the update (in its `metadata` document
/// when it has one, else in dotted fields), and for a deleting update the
/// deletion marks.
pub proof fn law_update_pipeline_marks_set_stage<L>(
    p: Seq<TopDocV<L>>,
    i: int,
    now: i64,
    deleted: bool,
    other: Seq<char>,
)
    requires
        0 <= i < p.len(),
        has_key(p[i], "$set"@),
        forall|j: int| 0 <= j < i ==> !has_key(#[trigger] p[j], "$set"@),
        other != "$set"@,
    ensures
        spec_update_pipeline(p, now, deleted).len() == p.len(),
        forall|j: int|
            0 <= j < p.len() && j != i ==> #[trigger] spec_update_pipeline(p, now, deleted)[j] == p[j],
        doc_get(spec_update_pipeline(p, now, deleted)[i], other) == doc_get(p[i], other),
        has_key(spec_update_pipeline(p, now, deleted)[i], "$set"@),
        match doc_get(p[i], "$set"@) {
            Some(Entry::Doc(_)) => match doc_get(spec_update_pipeline(p, now, deleted)[i], "$set"@) {
                Some(Entry::Doc(s2)) => set_doc_holds_marks(s2, now, deleted),
                _ => false,
            },
            _ => spec_update_pipeline(p, now, deleted)[i] == p[i],
        },
{
    assert(first_set_stage_at(p, i));
    assert(has_set_stage(p));
    let c = choose|c: int| first_set_stage_at(p, c);
    assert(c == i) by {
        if c < i {
            assert(!has_key(p[c], "$set"@));
        }
        if i < c {
            assert(!has_key(p[i], "$set"@));
        }
    }
    let k = "$set"@;
    match doc_get(p[i], k) {
        Some(Entry::Doc(s)) => {
            let us = spec_update_set_doc(s, now, deleted);
            law_get_after_insert(p[i], k, Entry::Doc(us));
            law_insert_keeps_other_keys(p[i], k, Entry::Doc(us), other);
            lemma_insert_keeps_has_key(p[i], k, Entry::Doc(us), k);
            lemma_update_set_doc_marks(s, now, deleted);
        },
        _ => {},
    }
}

/// A pipeline in which no stage has a `$set` key gets a new stage in second
/// place, whose only key is `$set`, setting `metadata.updated_at` to the time
/// of the update and, for a deleting update, `metadata.is_deleted` to true and
/// `metadata.deleted_at` to that time; every stage that was there stays, in
/// order.
pub proof fn law_update_pipeline_adds_set_stage<L>(p: Seq<TopDocV<L>>, now: i64, deleted: bool)
    requires
        p.len() >= 1,
        forall|j: int| 0 <= j < p.len() ==> !has_key(#[trigger] p[j], "$set"@),
    ensures
        spec_update_pipeline(p, now, deleted).len() == p.len() + 1,
        spec_update_pipeline(p, now, deleted)[0] == p[0],
        forall|j: int|
            1 <= j < p.len() ==> #[trigger] spec_update_pipeline(p, now, deleted)[j + 1] == p[j],
        spec_update_pipeline(p, now, deleted)[1] == seq![
            (
                "$set"@,
                Entry::<SetDocV<L>, L>::Doc(
                    if deleted {
                        seq![
                            ("metadata.updated_at"@, Entry::<MetaDocV<L>, L>::Field(Field::<L>::DateTime(now))),
                            ("metadata.is_deleted"@, Entry::<MetaDocV<L>, L>::Field(Field::<L>::Boolean(true))),
                            ("metadata.deleted_at"@, Entry::<MetaDocV<L>, L>::Field(Field::<L>::DateTime(now))),
                        ]
                    } else {
                        seq![("metadata.updated_at"@, Entry::<MetaDocV<L>, L>::Field(Field::<L>::DateTime(now)))]
                    },
                ),
            ),
        ],
{
    assert(!has_set_stage(p)) by {
        if has_set_stage(p) {
            let c = choose|c: int| first_set_stage_at(p, c);
            assert(has_key(p[c], "$set"@));
        }
    }
    let fields = metadata_field_updates::<L>(now, deleted);
    if deleted {
        assert(fields =~= seq![
            ("metadata.updated_at"@, Entry::<MetaDocV<L>, L>::Field(Field::<L>::DateTime(now))),
            ("metadata.is_deleted"@, Entry::<MetaDocV<L>, L>::Field(Field::<L>::Boolean(true))),
            ("metadata.deleted_at"@, Entry::<MetaDocV<L>, L>::Field(Field::<L>::DateTime(now))),
        ]);
    } else {
        assert(fields =~= seq![("metadata.updated_at"@, Entry::<MetaDocV<L>, L>::Field(Field::<L>::DateTime(now)))]);
    }
}

/// Inserts the entries of `items`, one after the other.
pub fn extend_entries<V>(d: &mut Vec<(String, V)>, items: Vec<(String, V)>)
    ensures
        keyed(final(d)@) == doc_extend(keyed(old(d)@), keyed(items@)),
{
    let ghost target = doc_extend(keyed(d@), keyed(items@));
    let mut items = items;
    let ghost all = keyed(items@);
    let mut rest: Vec<(String, V)> = Vec::new();
    // Take the items from the back so that they can be inserted from the front.
    while items.len() > 0
        invariant
            keyed(items@) + keyed(rest@).reverse() == all,
            target == doc_extend(keyed(d@), all),
        decreases items.len(),
    {
        let ghost before_items = items@;
        let ghost before_rest = rest@;
        let e = items.pop().unwrap();
        rest.push(e);
        assert(keyed(before_items) =~= keyed(items@).push((e.0@, e.1)));
        assert(keyed(rest@).reverse() =~= seq![(e.0@, e.1)] + keyed(before_rest).reverse());
        assert(keyed(items@) + keyed(rest@).reverse() =~= keyed(before_items) + keyed(
            before_rest,
        ).reverse());
    }
    assert(keyed(rest@).reverse() =~= all);
    while rest.len() > 0
        invariant
            target == doc_extend(keyed(d@), keyed(rest@).reverse()),
        decreases rest.len(),
    {
        let ghost before_rest = rest@;
        let ghost before_d = keyed(d@);
        let e = rest.pop().unwrap();
        let ghost ev = (e.0@, e.1);
        insert_entry(d, e.0, e.1);
        assert(keyed(before_rest).reverse()[0] == ev);
        assert(keyed(before_rest).reverse().drop_first() =~= keyed(rest@).reverse());
    }
    assert(keyed(rest@).reverse() =~= Seq::<(Seq<char>, V)>::empty());
}

/// Updates the fields of a `metadata` document.
fn update_metadata_doc<L>(m: &mut MetaDoc<L>, now: i64, deleted: bool)
    ensures
        keyed(final(m)@) == spec_update_metadata_doc(keyed(old(m)@), now, deleted),
{
    insert_entry(m, String::from_str("updated_at"), Field::DateTime(now));
    if deleted {
        insert_entry(m, String::from_str("is_deleted"), Field::Boolean(true));
        insert_entry(m, String::from_str("deleted_at"), Field::DateTime(now));
    }
}

/// The metadata fields set directly in a `$set` document.
fn metadata_field_update_entries<L>(now: i64, deleted: bool) -> (s: SetDoc<L>)
    ensures
        set_doc_view(s) == metadata_field_updates::<L>(now, deleted),
{
    let mut s: SetDoc<L> = Vec::new();
    s.push((String::from_str("metadata.updated_at"), Entry::Field(Field::DateTime(now))));
    if deleted {
        s.push((String::from_str("metadata.is_deleted"), Entry::Field(Field::Boolean(true))));
        s.push((String::from_str("metadata.deleted_at"), Entry::Field(Field::DateTime(now))));
    }
    assert(set_doc_view(s) =~= metadata_field_updates::<L>(now, deleted));
    s
}

/// Updates the metadata fields of a `$set` document.
fn update_set_doc<L>(s: &mut SetDoc<L>, now: i64, deleted: bool)
    ensures
        set_doc_view(*final(s)) == spec_update_set_doc(set_doc_view(*old(s)), now, deleted),
{
    let ghost old_k = keyed(s@);
    let ghost f = set_entry_fn::<L>();
    proof {
        lemma_get_map(old_k, f, "metadata"@);
        lemma_map_keeps_keys(old_k, f, "metadata"@);
    }
    match find_key(s, "metadata") {
        Some(i) => {
            proof {
                lemma_first_key_unique(old_k, "metadata"@, i as int, key_position(old_k, "metadata"@));
            }
            let (k, e) = s.remove(i);
            match e {
                Entry::Doc(m) => {
                    let mut m = m;
                    update_metadata_doc(&mut m, now, deleted);
                    let ghost ne = Entry::Doc(m);
                    s.insert(i, (k, Entry::Doc(m)));
                    proof {
                        lemma_insert_map(old_k, f, "metadata"@, ne);
                    }
                    assert(keyed(s@) =~= doc_insert(old_k, "metadata"@, ne));
                },
                Entry::Field(fl) => {
                    s.insert(i, (k, Entry::Field(fl)));
                    assert(keyed(s@) =~= old_k);
                    let items = metadata_field_update_entries::<L>(now, deleted);
                    let ghost iv = keyed(items@);
                    extend_entries(s, items);
                    proof {
                        lemma_extend_map(old_k, f, iv);
                    }
                },
            }
        },
        None => {
            let items = metadata_field_update_entries::<L>(now, deleted);
            let ghost iv = keyed(items@);
            extend_entries(s, items);
            proof {
                lemma_extend_map(old_k, f, iv);
            }
        },
    }
}

/// Updates the `$set` document of an update document, giving it one when it
/// has none.
fn update_top_doc<L>(t: &mut TopDoc<L>, now: i64, deleted: bool)
    ensures
        top_doc_view(*final(t)) == spec_update_top_doc(top_doc_view(*old(t)), now, deleted),
{
    let ghost f = top_entry_fn::<L>();
    let ghost old_v = top_doc_view(*t);
    proof {
        lemma_map_keeps_keys(keyed(t@), f, "$set"@);
    }
    let i = match find_key(t, "$set") {
        Some(i) => i,
        None => {
            let empty: SetDoc<L> = Vec::new();
            assert(set_doc_view(empty) =~= seq![]);
            t.push((String::from_str("$set"), Entry::Doc(empty)));
            assert(top_doc_view(*t) =~= old_v.push(("$set"@, Entry::Doc(seq![]))));
            (t.len() - 1) as usize
        },
    };
    let ghost t1 = top_doc_view(*t);
    let ghost k1 = keyed(t@);
    proof {
        if !has_key(old_v, "$set"@) {
            assert forall|j: int| 0 <= j < i implies k1[j].0 != "$set"@ by {
                assert(k1[j].0 == old_v[j].0);
                if k1[j].0 == "$set"@ {
                    lemma_some_first(old_v, "$set"@, j);
                }
            }
        }
        assert(first_key_at(k1, "$set"@, i as int));
        lemma_map_keeps_keys(k1, f, "$set"@);
        lemma_get_map(k1, f, "$set"@);
        lemma_first_key_unique(k1, "$set"@, i as int, key_position(k1, "$set"@));
        assert(t1 == (if has_key(old_v, "$set"@) {
            old_v
        } else {
            old_v.push(("$set"@, Entry::Doc(seq![])))
        }));
    }
    let (k, e) = t.remove(i);
    match e {
        Entry::Doc(s) => {
            let mut s = s;
            update_set_doc(&mut s, now, deleted);
            let ghost ne = Entry::Doc(s);
            t.insert(i, (k, Entry::Doc(s)));
            proof {
                lemma_insert_map(k1, f, "$set"@, ne);
            }
            assert(keyed(t@) =~= doc_insert(k1, "$set"@, ne));
        },
        Entry::Field(fl) => {
            t.insert(i, (k, Entry::Field(fl)));
            assert(keyed(t@) =~= k1);
        },
    }
}

/// The first stage of a pipeline that has a `$set` key.
fn find_set_stage<L>(p: &Vec<TopDoc<L>>) -> (r: Option<usize>)
    ensures
        match r {
            Some(i) => first_set_stage_at(p@.map_values(top_doc_fn()), i as int),
            None => !has_set_stage(p@.map_values(top_doc_fn())),
        },
{
    let ghost pv = p@.map_values(top_doc_fn::<L>());
    let mut i: usize = 0;
    while i < p.len()
        invariant
            i <= p@.len(),
            pv == p@.map_values(top_doc_fn::<L>()),
            forall|j: int| 0 <= j < i ==> !has_key(#[trigger] pv[j], "$set"@),
        decreases p@.len() - i,
    {
        proof {
            lemma_map_keeps_keys(keyed(p@[i as int]@), top_entry_fn::<L>(), "$set"@);
        }
        if find_key(&p[i], "$set").is_some() {
            return Some(i);
        }
        i = i + 1;
    }
    proof {
        if has_set_stage(pv) {
            let j = choose|j: int| first_set_stage_at(pv, j);
        }
    }
    None
}

/// Updates the metadata fields of a pipeline.
fn update_pipeline<L>(p: &mut Vec<TopDoc<L>>, now: i64, deleted: bool)
    requires
        !has_set_stage(old(p)@.map_values(top_doc_fn())) ==> old(p)@.len() >= 1,
    ensures
        final(p)@.map_values(top_doc_fn()) == spec_update_pipeline(
            old(p)@.map_values(top_doc_fn()),
            now,
            deleted,
        ),
{
    let ghost pv = p@.map_values(top_doc_fn::<L>());
    let ghost f = top_entry_fn::<L>();
    match find_set_stage(p) {
        Some(i) => {
            let ghost c = choose|c: int| first_set_stage_at(pv, c);
            assert(i == c) by {
                if i < c {
                    assert(!has_key(pv[i as int], "$set"@));
                }
                if c < i {
                    assert(!has_key(pv[c], "$set"@));
                }
            }
            let mut stage = p.remove(i);
            let ghost k1 = keyed(stage@);
            assert(pv[i as int] == top_doc_view(stage));
            proof {
                lemma_map_keeps_keys(k1, f, "$set"@);
                lemma_get_map(k1, f, "$set"@);
            }
            let j = find_key(&stage, "$set").unwrap();
            proof {
                lemma_first_key_unique(k1, "$set"@, j as int, key_position(k1, "$set"@));
            }
            let (k, e) = stage.remove(j);
            match e {
                Entry::Doc(s) => {
                    let mut s = s;
                    update_set_doc(&mut s, now, deleted);
                    let ghost ne = Entry::Doc(s);
                    stage.insert(j, (k, Entry::Doc(s)));
                    proof {
                        lemma_insert_map(k1, f, "$set"@, ne);
                    }
                    assert(keyed(stage@) =~= doc_insert(k1, "$set"@, ne));
                },
                Entry::Field(fl) => {
                    stage.insert(j, (k, Entry::Field(fl)));
                    assert(keyed(stage@) =~= k1);
                },
            }
            let ghost sv = top_doc_view(stage);
            p.insert(i, stage);
            assert(p@.map_values(top_doc_fn::<L>()) =~= spec_update_pipeline(pv, now, deleted));
        },
        None => {
            let items = metadata_field_update_entries::<L>(now, deleted);
            let mut stage: TopDoc<L> = Vec::new();
            stage.push((String::from_str("$set"), Entry::Doc(items)));
            assert(top_doc_view(stage) =~= seq![
                ("$set"@, Entry::Doc(metadata_field_updates::<L>(now, deleted))),
            ]);
            p.insert(1, stage);
            assert(p@.map_values(top_doc_fn::<L>()) =~= spec_update_pipeline(pv, now, deleted));
        },
    }
}

/// The current time, from `bson::DateTime::now`, in milliseconds since the Unix epoch.
#[verifier::external_body]
pub(crate) fn bson_now_millis() -> i64 {
    bson::DateTime::now().timestamp_millis()
}

/// Adds the metadata fields of an update made at time `now` (milliseconds
/// since the Unix epoch): `updated_at`, and for an update that marks the
/// document deleted also `is_deleted` and `deleted_at`. A kind of update that
/// is not supported gives an internal error whose context is `op_name`.
pub fn add_metadata_update_at<L>(
    updated_doc: UpdateModifications<L>,
    should_mark_deleted: bool,
    op_name: &str,
    now: i64,
) -> (r: Result<UpdateModifications<L>, ServiceError>)
    requires
        update_accepted(updated_doc.view()),
    ensures
        match r {
            Ok(u) => spec_add_metadata_update(updated_doc.view(), should_mark_deleted, now)
                == Some(u.view()),
            Err(e) => {
                &&& spec_add_metadata_update(updated_doc.view(), should_mark_deleted, now) is None
                &&& e is Internal
                &&& e->Internal_message@ == "Unexpected UpdateModifications type"@
                &&& e->Internal_context matches Some(c) && c@ == op_name@
            },
        },
{
    match updated_doc {
        UpdateModifications::Document(t) => {
            let mut t = t;
            update_top_doc(&mut t, now, should_mark_deleted);
            Ok(UpdateModifications::Document(t))
        },
        UpdateModifications::Pipeline(p) => {
            let mut p = p;
            update_pipeline(&mut p, now, should_mark_deleted);
            Ok(UpdateModifications::Pipeline(p))
        },
        UpdateModifications::Unsupported => Err(
            ServiceError::internal(
                String::from_str("Unexpected UpdateModifications type"),
                Some(op_name.to_owned()),
            ),
        ),
    }
}

/// Adds the metadata fields of an update made now: `updated_at`, and for an
/// update that marks the document deleted also `is_deleted` and `deleted_at`.
/// The time is read once and used for every field.
pub fn add_metadata_update<L>(
    updated_doc: UpdateModifications<L>,
    should_mark_deleted: bool,
    op_name: &str,
) -> (r: Result<UpdateModifications<L>, ServiceError>)
    requires
        update_accepted(updated_doc.view()),
    ensures
        r is Err <==> updated_doc.view() is Unsupported,
        r matches Ok(u) ==> exists|now: i64|
            spec_add_metadata_update(updated_doc.view(), should_mark_deleted, now) == Some(
                u.view(),
            ),
        r matches Err(e) ==> {
            &&& e is Internal
            &&& e->Internal_message@ == "Unexpected UpdateModifications type"@
            &&& e->Internal_context matches Some(c) && c@ == op_name@
        },
{
    let now = bson_now_millis();
    add_metadata_update_at(updated_doc, should_mark_deleted, op_name, now)
}

} // verus!
