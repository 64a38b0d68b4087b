//! The registry that keeps every open listener alive until it is closed.
//!
//! A record is made when a listener is opened and leaves only when the
//! listener is closed. The handles that a host holds refer to records by id
//! and own nothing, so dropping a handle never stops a listener.

use vstd::prelude::*;
use crate::text::same_text;

verus! {

/// What is known of a listener from the moment it was opened.
#[derive(Clone, Debug, PartialEq, Eq)]
pub struct ListenerMetadata {
    /// The id that the relay gave the listener.
    pub id: String,
    /// What the listener forwards to, as shown in the dashboard.
    pub forwards_to: String,
    /// The listener's opaque metadata.
    pub metadata: String,
    /// The URL of the endpoint; a labeled listener has none.
    pub url: Option<String>,
    /// The protocol of the endpoint; a labeled listener has none.
    pub proto: Option<String>,
    /// The labels of a labeled listener; empty for the other kinds. In a
    /// record of the registry no label occurs twice.
    pub labels: Vec<(String, String)>,
}

/// What a record keeps alive.
#[derive(Clone, Copy, Debug, PartialEq, Eq, Structural)]
pub enum Role {
    /// A listener whose connections are forwarded on request.
    Listener,
    /// A task that forwards a listener's connections and can be joined.
    Forwarder,
}

/// One record of the registry.
#[derive(Clone, Debug, PartialEq, Eq)]
pub struct Storage {
    pub role: Role,
    /// The session that the listener was opened on.
    pub session_id: String,
    pub tun_meta: ListenerMetadata,
}

/// What a `ListenerMetadata` holds.
pub struct MetadataView {
    pub id: Seq<char>,
    pub forwards_to: Seq<char>,
    pub metadata: Seq<char>,
    pub url: Option<Seq<char>>,
    pub proto: Option<Seq<char>>,
    pub labels: Seq<(Seq<char>, Seq<char>)>,
}

/// What a `Storage` holds.
pub struct StorageView {
    pub role: Role,
    pub session_id: Seq<char>,
    pub meta: MetadataView,
}

impl View for ListenerMetadata {
    type V = MetadataView;

    open spec fn view(&self) -> MetadataView {
        MetadataView {
            id: self.id@,
            forwards_to: self.forwards_to@,
            metadata: self.metadata@,
            url: self.url.deep_view(),
            proto: self.proto.deep_view(),
            labels: self.labels.deep_view(),
        }
    }
}

impl View for Storage {
    type V = StorageView;

    open spec fn view(&self) -> StorageView {
        StorageView { role: self.role, session_id: self.session_id@, meta: self.tun_meta@ }
    }
}

/// Labels, each with its value, in order.
pub type Labels = Seq<(Seq<char>, Seq<char>)>;

/// No label occurs twice.
pub open spec fn labels_distinct(labels: Labels) -> bool {
    forall|i: int, j: int|
        0 <= i < j < labels.len() ==> #[trigger] labels[i].0 != #[trigger] labels[j].0
}

/// Some entry has this label.
pub open spec fn has_label(labels: Labels, name: Seq<char>) -> bool {
    exists|i: int| 0 <= i < labels.len() && #[trigger] labels[i].0 == name
}

/// The entries that do not have this label, in their order.
pub open spec fn without_label(labels: Labels, name: Seq<char>) -> Labels
    decreases labels.len(),
{
    if labels.len() == 0 {
        labels
    } else if labels.last().0 == name {
        without_label(labels.drop_last(), name)
    } else {
        without_label(labels.drop_last(), name).push(labels.last())
    }
}

/// The labels as a map holds them: each label once, with the value that
/// was given last, in the place of that last entry.
pub open spec fn last_wins(labels: Labels) -> Labels
    decreases labels.len(),
{
    if labels.len() == 0 {
        labels
    } else {
        without_label(last_wins(labels.drop_last()), labels.last().0).push(labels.last())
    }
}

/// A record as the registry keeps it: with each label once.
pub open spec fn settled(record: StorageView) -> StorageView {
    StorageView {
        role: record.role,
        session_id: record.session_id,
        meta: MetadataView {
            id: record.meta.id,
            forwards_to: record.meta.forwards_to,
            metadata: record.meta.metadata,
            url: record.meta.url,
            proto: record.meta.proto,
            labels: last_wins(record.meta.labels),
        },
    }
}

/// In every record, no label occurs twice.
pub open spec fn all_settled(records: Seq<StorageView>) -> bool {
    forall|i: int| 0 <= i < records.len() ==> labels_distinct(#[trigger] records[i].meta.labels)
}

/// Taking away a label that no entry has changes nothing.
pub proof fn without_label_absent(labels: Labels, name: Seq<char>)
    requires
        !has_label(labels, name),
    ensures
        without_label(labels, name) == labels,
    decreases labels.len(),
{
    if labels.len() > 0 {
        let n = labels.len() - 1;
        assert(labels[n].0 != name);
        assert forall|i: int| 0 <= i < n implies #[trigger] labels.drop_last()[i].0 != name by {
            assert(labels[i].0 != name);
        }
        without_label_absent(labels.drop_last(), name);
        assert(labels.drop_last().push(labels.last()) =~= labels);
    }
}

/// Where labels are distinct, taking away a label takes away the one entry
/// that has it.
pub proof fn without_label_at(labels: Labels, name: Seq<char>, at: int)
    requires
        labels_distinct(labels),
        0 <= at < labels.len(),
        labels[at].0 == name,
    ensures
        without_label(labels, name) == labels.remove(at),
    decreases labels.len(),
{
    let n = labels.len() - 1;
    let front = labels.drop_last();
    if at == n {
        assert forall|i: int| 0 <= i < n implies #[trigger] front[i].0 != name by {
            assert(labels[i].0 != labels[n].0);
        }
        assert(!has_label(front, name));
        without_label_absent(front, name);
        assert(labels.remove(at) =~= front);
    } else {
        assert(labels[at].0 != labels[n].0);
        assert(labels_distinct(front)) by {
            assert forall|i: int, j: int| 0 <= i < j < front.len() implies #[trigger] front[i].0
                != #[trigger] front[j].0 by {
                assert(labels[i].0 != labels[j].0);
            }
        }
        assert(front[at].0 == name);
        without_label_at(front, name, at);
        assert(front.remove(at).push(labels.last()) =~= labels.remove(at));
    }
}

/// What is left after a label is taken away: no entry has that label, and
/// each entry that is left was there before.
pub proof fn without_label_lacks(labels: Labels, name: Seq<char>)
    ensures
        !has_label(without_label(labels, name), name),
        forall|i: int|
            0 <= i < without_label(labels, name).len() ==> exists|j: int|
                0 <= j < labels.len() && labels[j] == #[trigger] without_label(labels, name)[i],
    decreases labels.len(),
{
    let rest = without_label(labels, name);
    if labels.len() > 0 {
        let n = labels.len() - 1;
        let front = labels.drop_last();
        without_label_lacks(front, name);
        let kept = without_label(front, name);
        assert forall|i: int| 0 <= i < rest.len() implies exists|j: int|
            0 <= j < labels.len() && labels[j] == #[trigger] rest[i] by {
            if i < kept.len() {
                let j = choose|j: int| 0 <= j < front.len() && front[j] == kept[i];
                assert(labels[j] == rest[i]);
            } else {
                assert(labels[n] == rest[i]);
            }
        }
        assert forall|i: int| 0 <= i < rest.len() implies #[trigger] rest[i].0 != name by {
            if i < kept.len() {
                assert(kept[i].0 != name);
            }
        }
    }
}

/// Where labels are distinct, they stay distinct after one is taken away.
pub proof fn without_label_distinct(labels: Labels, name: Seq<char>)
    requires
        labels_distinct(labels),
    ensures
        labels_distinct(without_label(labels, name)),
{
    if has_label(labels, name) {
        let at = choose|i: int| 0 <= i < labels.len() && #[trigger] labels[i].0 == name;
        without_label_at(labels, name, at);
        let rest = labels.remove(at);
        assert forall|i: int, j: int| 0 <= i < j < rest.len() implies #[trigger] rest[i].0
            != #[trigger] rest[j].0 by {
            let a = if i < at {
                i
            } else {
                i + 1
            };
            let b = if j < at {
                j
            } else {
                j + 1
            };
            assert(labels[a].0 != labels[b].0);
        }
    } else {
        without_label_absent(labels, name);
    }
}

/// In the labels as a map holds them, no label occurs twice.
pub proof fn last_wins_distinct(labels: Labels)
    ensures
        labels_distinct(last_wins(labels)),
    decreases labels.len(),
{
    if labels.len() > 0 {
        let front = last_wins(labels.drop_last());
        let name = labels.last().0;
        last_wins_distinct(labels.drop_last());
        without_label_distinct(front, name);
        without_label_lacks(front, name);
        let kept = without_label(front, name);
        let all = kept.push(labels.last());
        assert forall|i: int, j: int| 0 <= i < j < all.len() implies #[trigger] all[i].0
            != #[trigger] all[j].0 by {
            if j < kept.len() {
                assert(kept[i].0 != kept[j].0);
            } else {
                assert(kept[i].0 != name);
            }
        }
    }
}

/// Labels of which none occurs twice are as a map holds them already.
pub proof fn last_wins_of_distinct(labels: Labels)
    requires
        labels_distinct(labels),
    ensures
        last_wins(labels) == labels,
    decreases labels.len(),
{
    if labels.len() > 0 {
        let n = labels.len() - 1;
        let front = labels.drop_last();
        assert(labels_distinct(front)) by {
            assert forall|i: int, j: int| 0 <= i < j < front.len() implies #[trigger] front[i].0
                != #[trigger] front[j].0 by {
                assert(labels[i].0 != labels[j].0);
            }
        }
        last_wins_of_distinct(front);
        assert forall|i: int| 0 <= i < front.len() implies #[trigger] front[i].0
            != labels.last().0 by {
            assert(labels[i].0 != labels[n].0);
        }
        assert(!has_label(front, labels.last().0));
        without_label_absent(front, labels.last().0);
        assert(front.push(labels.last()) =~= labels);
    }
}

/// A record that is settled stays as it is when it is settled again.
pub proof fn settled_is_stable(record: StorageView)
    ensures
        settled(settled(record)) == settled(record),
        labels_distinct(settled(record).meta.labels),
{
    last_wins_distinct(record.meta.labels);
    last_wins_of_distinct(last_wins(record.meta.labels));
}

/// Records that are all among settled records are settled.
pub proof fn part_is_settled(records: Seq<StorageView>, part: Seq<StorageView>)
    requires
        all_settled(records),
        forall|i: int|
            0 <= i < part.len() ==> exists|j: int|
                0 <= j < records.len() && records[j] == #[trigger] part[i],
    ensures
        all_settled(part),
{
    assert forall|i: int| 0 <= i < part.len() implies labels_distinct(
        #[trigger] part[i].meta.labels,
    ) by {
        let j = choose|j: int| 0 <= j < records.len() && records[j] == part[i];
        assert(labels_distinct(records[j].meta.labels));
    }
}

/// The position of the entry with this label, if there is one.
fn label_position(labels: &Vec<(String, String)>, name: &str) -> (at: Option<usize>)
    ensures
        match at {
            Some(i) => i < labels.len() && labels.deep_view()[i as int].0 == name@,
            None => !has_label(labels.deep_view(), name@),
        },
{
    let mut i: usize = 0;
    while i < labels.len()
        invariant
            i <= labels.len(),
            labels.deep_view().len() == labels.len(),
            forall|j: int| 0 <= j < i ==> #[trigger] labels.deep_view()[j].0 != name@,
        decreases labels.len() - i,
    {
        assert(labels.deep_view()[i as int].0 == labels@[i as int].0@);
        if same_text(labels[i].0.as_str(), name) {
            return Some(i);
        }
        i = i + 1;
    }
    None
}

/// The labels as a map holds them: each label once, with the value that
/// was given last.
pub fn unique_labels(labels: &Vec<(String, String)>) -> (unique: Vec<(String, String)>)
    ensures
        unique.deep_view() == last_wins(labels.deep_view()),
        labels_distinct(unique.deep_view()),
{
    let ghost given = labels.deep_view();
    let mut out: Vec<(String, String)> = Vec::new();
    let mut i: usize = 0;
    assert(given.take(0) =~= Seq::<(Seq<char>, Seq<char>)>::empty());
    assert(out.deep_view() =~= Seq::<(Seq<char>, Seq<char>)>::empty());
    while i < labels.len()
        invariant
            i <= labels.len(),
            given == labels.deep_view(),
            given.len() == labels.len(),
            out.deep_view() == last_wins(given.take(i as int)),
        decreases labels.len() - i,
    {
        let ghost before = out.deep_view();
        let ghost next = given.take(i + 1);
        assert(next.drop_last() =~= given.take(i as int));
        assert(next.last() == given[i as int]);
        assert(given[i as int] == (labels@[i as int].0@, labels@[i as int].1@));
        proof {
            last_wins_distinct(given.take(i as int));
        }
        let entry = (labels[i].0.clone(), labels[i].1.clone());
        match label_position(&out, entry.0.as_str()) {
            Some(at) => {
                proof {
                    without_label_at(before, entry.0@, at as int);
                }
                out.remove(at);
                assert(out.deep_view() =~= before.remove(at as int));
            },
            None => {
                proof {
                    without_label_absent(before, entry.0@);
                }
            },
        }
        let ghost kept = out.deep_view();
        out.push(entry);
        assert(out.deep_view() =~= kept.push((entry.0@, entry.1@)));
        i = i + 1;
    }
    assert(given.take(i as int) =~= given);
    proof {
        last_wins_distinct(given);
    }
    out
}

/// What a list of records holds, in order.
pub open spec fn record_views(records: Seq<Storage>) -> Seq<StorageView> {
    Seq::new(records.len(), |i: int| records[i]@)
}

/// Some record has this id.
pub open spec fn has_id(records: Seq<StorageView>, id: Seq<char>) -> bool {
    exists|i: int| 0 <= i < records.len() && #[trigger] records[i].meta.id == id
}

/// No two records share an id.
pub open spec fn distinct(records: Seq<StorageView>) -> bool {
    forall|i: int, j: int|
        0 <= i < j < records.len() ==> #[trigger] records[i].meta.id != #[trigger] records[j].meta.id
}

/// The record with this id, if there is one.
pub open spec fn lookup(records: Seq<StorageView>, id: Seq<char>) -> Option<StorageView> {
    if has_id(records, id) {
        Some(records[choose|i: int| 0 <= i < records.len() && #[trigger] records[i].meta.id == id])
    } else {
        None
    }
}

/// The records that do not have this id, in their order.
pub open spec fn without(records: Seq<StorageView>, id: Seq<char>) -> Seq<StorageView>
    decreases records.len(),
{
    if records.len() == 0 {
        records
    } else if records.last().meta.id == id {
        without(records.drop_last(), id)
    } else {
        without(records.drop_last(), id).push(records.last())
    }
}

/// A record passes a filter when each part of the filter that is given
/// equals what the record was made with.
pub open spec fn passes(
    record: StorageView,
    session_id: Option<Seq<char>>,
    url: Option<Seq<char>>,
) -> bool {
    &&& session_id is Some ==> record.session_id == session_id->Some_0
    &&& url is Some ==> record.meta.url == url
}

/// The records that pass a filter, in their order.
pub open spec fn selected(
    records: Seq<StorageView>,
    session_id: Option<Seq<char>>,
    url: Option<Seq<char>>,
) -> Seq<StorageView>
    decreases records.len(),
{
    if records.len() == 0 {
        records
    } else if passes(records.last(), session_id, url) {
        selected(records.drop_last(), session_id, url).push(records.last())
    } else {
        selected(records.drop_last(), session_id, url)
    }
}

/// The records that do not pass a filter, in their order.
pub open spec fn rejected(
    records: Seq<StorageView>,
    session_id: Option<Seq<char>>,
    url: Option<Seq<char>>,
) -> Seq<StorageView>
    decreases records.len(),
{
    if records.len() == 0 {
        records
    } else if passes(records.last(), session_id, url) {
        rejected(records.drop_last(), session_id, url)
    } else {
        rejected(records.drop_last(), session_id, url).push(records.last())
    }
}

/// The ids of a list of records, in order.
pub open spec fn ids_of(records: Seq<StorageView>) -> Seq<Seq<char>> {
    Seq::new(records.len(), |i: int| records[i].meta.id)
}

/// The records that a filter leaves behind all fail it, and each of them
/// was there before.
pub proof fn rejected_from(
    records: Seq<StorageView>,
    session_id: Option<Seq<char>>,
    url: Option<Seq<char>>,
)
    ensures
        forall|i: int|
            0 <= i < rejected(records, session_id, url).len() ==> !passes(
                #[trigger] rejected(records, session_id, url)[i],
                session_id,
                url,
            ),
        forall|i: int|
            0 <= i < rejected(records, session_id, url).len() ==> exists|j: int|
                0 <= j < records.len() && records[j] == #[trigger] rejected(
                    records,
                    session_id,
                    url,
                )[i],
    decreases records.len(),
{
    let rest = rejected(records, session_id, url);
    if records.len() > 0 {
        let n = records.len() - 1;
        let front = records.drop_last();
        rejected_from(front, session_id, url);
        let kept = rejected(front, session_id, url);
        assert forall|i: int| 0 <= i < rest.len() implies exists|j: int|
            0 <= j < records.len() && records[j] == #[trigger] rest[i] by {
            if i < kept.len() {
                let j = choose|j: int| 0 <= j < front.len() && front[j] == kept[i];
                assert(records[j] == rest[i]);
            } else {
                assert(records[n] == rest[i]);
            }
        }
    }
}

/// Every record that fails a filter is among those that the filter leaves
/// behind.
pub proof fn rejected_complete(
    records: Seq<StorageView>,
    session_id: Option<Seq<char>>,
    url: Option<Seq<char>>,
    at: int,
)
    requires
        0 <= at < records.len(),
        !passes(records[at], session_id, url),
    ensures
        exists|i: int|
            0 <= i < rejected(records, session_id, url).len() && rejected(
                records,
                session_id,
                url,
            )[i] == records[at],
    decreases records.len(),
{
    let rest = rejected(records, session_id, url);
    let n = records.len() - 1;
    let front = records.drop_last();
    let kept = rejected(front, session_id, url);
    if at < n {
        assert(front[at] == records[at]);
        rejected_complete(front, session_id, url, at);
        let i = choose|i: int| 0 <= i < kept.len() && kept[i] == front[at];
        assert(rest[i] == records[at]);
    } else {
        assert(rest[rest.len() - 1] == records[at]);
    }
}

/// Where ids are distinct, they are distinct among the records that a
/// filter leaves behind.
pub proof fn rejected_distinct(
    records: Seq<StorageView>,
    session_id: Option<Seq<char>>,
    url: Option<Seq<char>>,
)
    requires
        distinct(records),
    ensures
        distinct(rejected(records, session_id, url)),
    decreases records.len(),
{
    let rest = rejected(records, session_id, url);
    if records.len() > 0 {
        let n = records.len() - 1;
        let front = records.drop_last();
        let kept = rejected(front, session_id, url);
        assert(distinct(front)) by {
            assert forall|i: int, j: int| 0 <= i < j < front.len() implies #[trigger] front[i].meta.id
                != #[trigger] front[j].meta.id by {
                assert(records[i].meta.id != records[j].meta.id);
            }
        }
        rejected_distinct(front, session_id, url);
        rejected_from(front, session_id, url);
        if !passes(records.last(), session_id, url) {
            assert forall|i: int, j: int| 0 <= i < j < rest.len() implies #[trigger] rest[i].meta.id
                != #[trigger] rest[j].meta.id by {
                if j < kept.len() {
                    assert(kept[i].meta.id != kept[j].meta.id);
                } else {
                    let k = choose|k: int| 0 <= k < front.len() && front[k] == kept[i];
                    assert(records[k].meta.id != records[n].meta.id);
                }
            }
        }
    }
}

/// The records that pass a filter all pass it, and each of them was there
/// before.
pub proof fn selected_from(
    records: Seq<StorageView>,
    session_id: Option<Seq<char>>,
    url: Option<Seq<char>>,
)
    ensures
        forall|i: int|
            0 <= i < selected(records, session_id, url).len() ==> passes(
                #[trigger] selected(records, session_id, url)[i],
                session_id,
                url,
            ),
        forall|i: int|
            0 <= i < selected(records, session_id, url).len() ==> exists|j: int|
                0 <= j < records.len() && records[j] == #[trigger] selected(
                    records,
                    session_id,
                    url,
                )[i],
    decreases records.len(),
{
    let rest = selected(records, session_id, url);
    if records.len() > 0 {
        let n = records.len() - 1;
        let front = records.drop_last();
        selected_from(front, session_id, url);
        let kept = selected(front, session_id, url);
        assert forall|i: int| 0 <= i < rest.len() implies exists|j: int|
            0 <= j < records.len() && records[j] == #[trigger] rest[i] by {
            if i < kept.len() {
                let j = choose|j: int| 0 <= j < front.len() && front[j] == kept[i];
                assert(records[j] == rest[i]);
            } else {
                assert(records[n] == rest[i]);
            }
        }
    }
}

/// Every record that passes a filter is among those that the filter
/// selects.
pub proof fn selected_complete(
    records: Seq<StorageView>,
    session_id: Option<Seq<char>>,
    url: Option<Seq<char>>,
    at: int,
)
    requires
        0 <= at < records.len(),
        passes(records[at], session_id, url),
    ensures
        exists|i: int|
            0 <= i < selected(records, session_id, url).len() && selected(
                records,
                session_id,
                url,
            )[i] == records[at],
    decreases records.len(),
{
    let rest = selected(records, session_id, url);
    let n = records.len() - 1;
    let front = records.drop_last();
    let kept = selected(front, session_id, url);
    if at < n {
        assert(front[at] == records[at]);
        selected_complete(front, session_id, url, at);
        let i = choose|i: int| 0 <= i < kept.len() && kept[i] == front[at];
        assert(rest[i] == records[at]);
    } else {
        assert(rest[rest.len() - 1] == records[at]);
    }
}

/// With no filter at all every record passes, so none is left behind.
pub proof fn nothing_rejected_without_filter(records: Seq<StorageView>)
    ensures
        rejected(records, None, None) == Seq::<StorageView>::empty(),
        selected(records, None, None) == records,
    decreases records.len(),
{
    if records.len() > 0 {
        nothing_rejected_without_filter(records.drop_last());
        assert(records.drop_last().push(records.last()) =~= records);
    } else {
        assert(records =~= Seq::<StorageView>::empty());
    }
}

/// Taking away an id that no record has changes nothing.
pub proof fn without_absent(records: Seq<StorageView>, id: Seq<char>)
    requires
        !has_id(records, id),
    ensures
        without(records, id) == records,
    decreases records.len(),
{
    if records.len() > 0 {
        let n = records.len() - 1;
        assert(records[n].meta.id != id);
        assert forall|i: int| 0 <= i < n implies #[trigger] records.drop_last()[i].meta.id
            != id by {
            assert(records[i].meta.id != id);
        }
        without_absent(records.drop_last(), id);
        assert(records.drop_last().push(records.last()) =~= records);
    }
}

/// Where ids are distinct, taking away an id takes away the one record
/// that has it.
pub proof fn without_at(records: Seq<StorageView>, id: Seq<char>, at: int)
    requires
        distinct(records),
        0 <= at < records.len(),
        records[at].meta.id == id,
    ensures
        without(records, id) == records.remove(at),
    decreases records.len(),
{
    let n = records.len() - 1;
    let front = records.drop_last();
    if at == n {
        assert forall|i: int| 0 <= i < n implies #[trigger] front[i].meta.id != id by {
            assert(records[i].meta.id != records[n].meta.id);
        }
        assert(!has_id(front, id));
        without_absent(front, id);
        assert(records.remove(at) =~= front);
    } else {
        assert(records[at].meta.id != records[n].meta.id);
        assert(distinct(front)) by {
            assert forall|i: int, j: int| 0 <= i < j < front.len() implies #[trigger] front[i].meta.id
                != #[trigger] front[j].meta.id by {
                assert(records[i].meta.id != records[j].meta.id);
            }
        }
        assert(front[at].meta.id == id);
        without_at(front, id, at);
        assert(front.remove(at).push(records.last()) =~= records.remove(at));
    }
}

/// What is left after an id is taken away: no record has that id, every
/// other record is still there and found as before, and distinct ids stay
/// distinct.
pub proof fn without_lacks(records: Seq<StorageView>, id: Seq<char>)
    ensures
        !has_id(without(records, id), id),
        forall|other: Seq<char>|
            other != id ==> has_id(without(records, id), other) == has_id(records, other),
        distinct(records) ==> distinct(without(records, id)),
        forall|i: int|
            0 <= i < without(records, id).len() ==> exists|j: int|
                0 <= j < records.len() && records[j] == #[trigger] without(records, id)[i],
    decreases records.len(),
{
    let rest = without(records, id);
    if records.len() == 0 {
    } else {
        let n = records.len() - 1;
        let front = records.drop_last();
        let last = records.last();
        without_lacks(front, id);
        let kept = without(front, id);
        assert forall|other: Seq<char>| other != id implies has_id(rest, other) == has_id(
            records,
            other,
        ) by {
            if has_id(records, other) {
                let k = choose|k: int| 0 <= k < records.len() && #[trigger] records[k].meta.id == other;
                if k < n {
                    assert(front[k].meta.id == other);
                    assert(has_id(front, other));
                    let m = choose|m: int| 0 <= m < kept.len() && #[trigger] kept[m].meta.id == other;
                    assert(rest[m].meta.id == other);
                } else {
                    assert(last.meta.id == other);
                    assert(rest[rest.len() - 1].meta.id == other);
                }
            }
            if has_id(rest, other) {
                let m = choose|m: int| 0 <= m < rest.len() && #[trigger] rest[m].meta.id == other;
                if m < kept.len() {
                    assert(kept[m].meta.id == other);
                    assert(has_id(kept, other));
                    let k = choose|k: int| 0 <= k < front.len() && #[trigger] front[k].meta.id == other;
                    assert(records[k].meta.id == other);
                } else {
                    assert(records[n].meta.id == other);
                }
            }
        }
        assert forall|i: int| 0 <= i < rest.len() implies exists|j: int|
            0 <= j < records.len() && records[j] == #[trigger] rest[i] by {
            if i < kept.len() {
                let j = choose|j: int| 0 <= j < front.len() && front[j] == kept[i];
                assert(records[j] == rest[i]);
            } else {
                assert(records[n] == rest[i]);
            }
        }
        if distinct(records) {
            assert(distinct(front)) by {
                assert forall|i: int, j: int| 0 <= i < j < front.len() implies #[trigger] front[i].meta.id
                    != #[trigger] front[j].meta.id by {
                    assert(records[i].meta.id != records[j].meta.id);
                }
            }
            if last.meta.id != id {
                assert forall|i: int, j: int| 0 <= i < j < rest.len() implies #[trigger] rest[i].meta.id
                    != #[trigger] rest[j].meta.id by {
                    if j < kept.len() {
                        assert(kept[i].meta.id != kept[j].meta.id);
                    } else {
                        let k = choose|k: int| 0 <= k < front.len() && front[k] == kept[i];
                        assert(records[k].meta.id != records[n].meta.id);
                    }
                }
            }
        }
        if last.meta.id != id {
            assert forall|i: int| 0 <= i < rest.len() implies #[trigger] rest[i].meta.id != id by {
                if i < kept.len() {
                    assert(kept[i].meta.id != id);
                }
            }
        }
    }
}

/// Where ids are distinct, the record found under an id is the record at
/// any position that holds the id.
pub proof fn lookup_at(records: Seq<StorageView>, id: Seq<char>, at: int)
    requires
        distinct(records),
        0 <= at < records.len(),
        records[at].meta.id == id,
    ensures
        lookup(records, id) == Some(records[at]),
{
    assert(has_id(records, id));
    let k = choose|k: int| 0 <= k < records.len() && #[trigger] records[k].meta.id == id;
    if k < at {
        assert(records[k].meta.id != records[at].meta.id);
    }
    if at < k {
        assert(records[at].meta.id != records[k].meta.id);
    }
}

impl ListenerMetadata {
    /// A copy that holds the same values.
    pub fn copy(&self) -> (twin: ListenerMetadata)
        ensures
            twin@ == self@,
    {
        let mut labels: Vec<(String, String)> = Vec::new();
        let mut i: usize = 0;
        while i < self.labels.len()
            invariant
                i <= self.labels.len(),
                labels.len() == i,
                forall|j: int|
                    0 <= j < i ==> labels@[j].0@ == self.labels@[j].0@ && labels@[j].1@
                        == self.labels@[j].1@,
            decreases self.labels.len() - i,
        {
            let pair = &self.labels[i];
            labels.push((pair.0.clone(), pair.1.clone()));
            i = i + 1;
        }
        assert(labels.deep_view() =~= self.labels.deep_view());
        let url = match &self.url {
            Some(u) => Some(u.clone()),
            None => None,
        };
        let proto = match &self.proto {
            Some(p) => Some(p.clone()),
            None => None,
        };
        ListenerMetadata {
            id: self.id.clone(),
            forwards_to: self.forwards_to.clone(),
            metadata: self.metadata.clone(),
            url,
            proto,
            labels,
        }
    }
}

impl Storage {
    /// A copy that holds the same values.
    pub fn copy(&self) -> (twin: Storage)
        ensures
            twin@ == self@,
    {
        Storage {
            role: self.role,
            session_id: self.session_id.clone(),
            tun_meta: self.tun_meta.copy(),
        }
    }

    /// Whether the record passes a filter: each part of the filter that is
    /// given equals what the record was made with.
    pub fn passes_filter(&self, session_id: &Option<String>, url: &Option<String>) -> (yes: bool)
        ensures
            yes == passes(self@, session_id.deep_view(), url.deep_view()),
    {
        let session_ok = match session_id {
            Some(wanted) => same_text(wanted.as_str(), self.session_id.as_str()),
            None => true,
        };
        let url_ok = match url {
            Some(wanted) => match &self.tun_meta.url {
                Some(mine) => same_text(wanted.as_str(), mine.as_str()),
                None => false,
            },
            None => true,
        };
        session_ok && url_ok
    }
}

/// The records of all open listeners, by id. No two records share an id,
/// and in no record does a label occur twice.
pub struct Registry {
    entries: Vec<Storage>,
}

impl View for Registry {
    type V = Seq<StorageView>;

    /// The records, in the order in which they were made.
    closed spec fn view(&self) -> Seq<StorageView> {
        record_views(self.entries@)
    }
}

impl Registry {
    #[verifier::type_invariant]
    spec fn sound(self) -> bool {
        distinct(record_views(self.entries@)) && all_settled(record_views(self.entries@))
    }

    /// A registry without records.
    pub fn new() -> (registry: Registry)
        ensures
            registry@ == Seq::<StorageView>::empty(),
    {
        let registry = Registry { entries: Vec::new() };
        assert(registry@ =~= Seq::<StorageView>::empty());
        registry
    }

    /// The position of the record with this id, if there is one.
    fn position(&self, id: &str) -> (at: Option<usize>)
        ensures
            distinct(self@),
            all_settled(self@),
            match at {
                Some(i) => i < self@.len() && self@[i as int].meta.id == id@ && i
                    < self.entries@.len(),
                None => !has_id(self@, id@),
            },
    {
        proof {
            use_type_invariant(self);
        }
        let mut i: usize = 0;
        while i < self.entries.len()
            invariant
                i <= self.entries.len(),
                forall|j: int| 0 <= j < i ==> #[trigger] self@[j].meta.id != id@,
                self@.len() == self.entries@.len(),
                distinct(self@),
                all_settled(self@),
            decreases self.entries.len() - i,
        {
            if same_text(self.entries[i].tun_meta.id.as_str(), id) {
                return Some(i);
            }
            i = i + 1;
        }
        None
    }

    /// How many records there are.
    pub fn len(&self) -> (n: usize)
        ensures
            n == self@.len(),
            distinct(self@),
            all_settled(self@),
    {
        proof {
            use_type_invariant(self);
        }
        self.entries.len()
    }

    /// Puts a record in, with each of its labels once: where a label was
    /// given more than once, its last value stands. A record that had the
    /// same id is replaced; every other record stays, in its place.
    pub fn insert(&mut self, record: Storage)
        ensures
            final(self)@ == without(old(self)@, record@.meta.id).push(settled(record@)),
            distinct(final(self)@),
            all_settled(final(self)@),
            lookup(final(self)@, record@.meta.id) == Some(settled(record@)),
    {
        let ghost given = record@;
        let mut record = record;
        let labels = unique_labels(&record.tun_meta.labels);
        record.tun_meta.labels = labels;
        assert(record@ == settled(given));
        let found = self.position(record.tun_meta.id.as_str());
        let ghost before = self@;
        let ghost id = record@.meta.id;
        proof {
            without_lacks(before, id);
            match found {
                Some(i) => {
                    without_at(before, id, i as int);
                },
                None => {
                    without_absent(before, id);
                },
            }
        }
        let ghost kept = without(before, id);
        let ghost after = kept.push(record@);
        proof {
            assert(distinct(after)) by {
                assert forall|i: int, j: int| 0 <= i < j < after.len() implies #[trigger] after[i].meta.id
                    != #[trigger] after[j].meta.id by {
                    if j < kept.len() {
                        assert(kept[i].meta.id != kept[j].meta.id);
                    } else {
                        assert(kept[i].meta.id != id);
                    }
                }
            }
            assert(all_settled(after)) by {
                assert forall|i: int| 0 <= i < after.len() implies labels_distinct(
                    #[trigger] after[i].meta.labels,
                ) by {
                    if i < kept.len() {
                        let j = choose|j: int| 0 <= j < before.len() && before[j] == kept[i];
                        assert(labels_distinct(before[j].meta.labels));
                    }
                }
            }
            lookup_at(after, id, kept.len() as int);
        }
        let mut entries: Vec<Storage> = Vec::new();
        assert(record_views(entries@) =~= Seq::<StorageView>::empty());
        core::mem::swap(&mut self.entries, &mut entries);
        match found {
            Some(i) => {
                assert(record_views(entries@.remove(i as int)) =~= before.remove(i as int));
                entries.remove(i);
            },
            None => {},
        }
        assert(record_views(entries@.push(record)) =~= after);
        entries.push(record);
        self.entries = entries;
    }

    /// The record with this id, if there is one.
    pub fn get(&self, id: &str) -> (record: Option<Storage>)
        ensures
            record.is_some() == has_id(self@, id@),
            match record {
                Some(found) => lookup(self@, id@) == Some(found@) && found@.meta.id == id@
                    && labels_distinct(found@.meta.labels),
                None => lookup(self@, id@) is None,
            },
            distinct(self@),
            all_settled(self@),
    {
        match self.position(id) {
            Some(i) => {
                proof {
                    lookup_at(self@, id@, i as int);
                    assert(labels_distinct(self@[i as int].meta.labels));
                }
                Some(self.entries[i].copy())
            },
            None => None,
        }
    }

    /// Takes out the record with this id, if there is one. Every other
    /// record stays, in its place. The listener itself is not closed by
    /// this: whoever removes a record has asked the relay to close it.
    pub fn remove(&mut self, id: &str)
        ensures
            final(self)@ == without(old(self)@, id@),
            distinct(final(self)@),
            all_settled(final(self)@),
            !has_id(final(self)@, id@),
    {
        let found = self.position(id);
        let ghost before = self@;
        proof {
            without_lacks(before, id@);
            part_is_settled(before, without(before, id@));
        }
        match found {
            Some(i) => {
                proof {
                    without_at(before, id@, i as int);
                }
                let mut entries: Vec<Storage> = Vec::new();
                assert(record_views(entries@) =~= Seq::<StorageView>::empty());
                core::mem::swap(&mut self.entries, &mut entries);
                assert(record_views(entries@.remove(i as int)) =~= before.remove(i as int));
                entries.remove(i);
                self.entries = entries;
            },
            None => {
                proof {
                    without_absent(before, id@);
                }
            },
        }
    }

    /// Takes out every record that passes a filter. The records that fail
    /// it stay, in their order.
    pub fn remove_selected(&mut self, session_id: &Option<String>, url: &Option<String>)
        ensures
            final(self)@ == rejected(old(self)@, session_id.deep_view(), url.deep_view()),
            distinct(final(self)@),
            all_settled(final(self)@),
    {
        proof {
            use_type_invariant(&*self);
        }
        let ghost before = self@;
        let ghost sid = session_id.deep_view();
        let ghost wanted = url.deep_view();
        let mut kept: Vec<Storage> = Vec::new();
        let mut i: usize = 0;
        assert(before.take(0) =~= Seq::<StorageView>::empty());
        assert(record_views(kept@) =~= Seq::<StorageView>::empty());
        while i < self.entries.len()
            invariant
                i <= self.entries.len(),
                before == record_views(self.entries@),
                sid == session_id.deep_view(),
                wanted == url.deep_view(),
                record_views(kept@) == rejected(before.take(i as int), sid, wanted),
            decreases self.entries.len() - i,
        {
            let ghost next = before.take(i + 1);
            assert(next.drop_last() =~= before.take(i as int));
            assert(next.last() == self.entries@[i as int]@);
            if !self.entries[i].passes_filter(session_id, url) {
                let twin = self.entries[i].copy();
                assert(record_views(kept@.push(twin)) =~= record_views(kept@).push(twin@));
                kept.push(twin);
            }
            i = i + 1;
        }
        assert(before.take(i as int) =~= before);
        proof {
            rejected_distinct(before, sid, wanted);
            rejected_from(before, sid, wanted);
            part_is_settled(before, rejected(before, sid, wanted));
        }
        self.entries = kept;
    }

    /// The ids of the records that pass a filter, in the order in which
    /// the records were made.
    pub fn ids(&self, session_id: &Option<String>, url: &Option<String>) -> (ids: Vec<String>)
        ensures
            ids.deep_view() == ids_of(selected(self@, session_id.deep_view(), url.deep_view())),
            distinct(self@),
            all_settled(self@),
    {
        let records = self.list(session_id, url);
        let mut ids: Vec<String> = Vec::new();
        let mut i: usize = 0;
        while i < records.len()
            invariant
                i <= records.len(),
                ids.len() == i,
                forall|j: int| 0 <= j < i ==> #[trigger] ids@[j]@ == records@[j]@.meta.id,
            decreases records.len() - i,
        {
            ids.push(records[i].tun_meta.id.clone());
            i = i + 1;
        }
        assert(ids.deep_view() =~= ids_of(record_views(records@)));
        ids
    }

    /// The records that pass a filter, in the order in which they were
    /// made. The filter looks at what each record was made with.
    pub fn list(&self, session_id: &Option<String>, url: &Option<String>) -> (records: Vec<Storage>)
        ensures
            record_views(records@) == selected(self@, session_id.deep_view(), url.deep_view()),
            distinct(self@),
            all_settled(self@),
    {
        proof {
            use_type_invariant(self);
        }
        let mut out: Vec<Storage> = Vec::new();
        let mut i: usize = 0;
        let ghost sid = session_id.deep_view();
        let ghost wanted = url.deep_view();
        assert(self@.take(0) =~= Seq::<StorageView>::empty());
        assert(record_views(out@) =~= Seq::<StorageView>::empty());
        while i < self.entries.len()
            invariant
                i <= self.entries.len(),
                self@.len() == self.entries@.len(),
                sid == session_id.deep_view(),
                wanted == url.deep_view(),
                record_views(out@) == selected(self@.take(i as int), sid, wanted),
            decreases self.entries.len() - i,
        {
            let ghost next = self@.take(i + 1);
            assert(next.drop_last() =~= self@.take(i as int));
            assert(next.last() == self.entries@[i as int]@);
            if self.entries[i].passes_filter(session_id, url) {
                let twin = self.entries[i].copy();
                assert(record_views(out@.push(twin)) =~= record_views(out@).push(twin@));
                out.push(twin);
            }
            i = i + 1;
        }
        assert(self@.take(i as int) =~= self@);
        out
    }
}

} // verus!
