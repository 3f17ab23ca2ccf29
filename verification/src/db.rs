//! The resource repository: one table of resources, kept newest first.
//!
//! A row holds its two timestamps as epoch seconds; they become text when a
//! row is handed out as a `Resource`. Three things hold of every table: no
//! identifier occurs twice, no row was updated before it was created, and
//! the rows stand in the order of their creation, the latest first.

use crate::error::ApiError;
use crate::handlers::{deleted_reply, found_reply};
use crate::resources::{
    copy_optional_text, optional_text, CreateResource, CreateResourceView, Resource,
    ResourceView, UpdateResource, UpdateResourceView,
};
use crate::text::{decimal, decimal_value, hex, lemma_decimal_value, render};
use vstd::prelude::*;
use vstd::string::StringExecFns;

verus! {

/// One row of the table.
pub struct Row {
    pub id: String,
    pub name: String,
    pub description: Option<String>,
    pub created: u64,
    pub updated: u64,
}

/// A row as plain values.
pub struct RowView {
    pub id: Seq<char>,
    pub name: Seq<char>,
    pub description: Option<Seq<char>>,
    pub created: nat,
    pub updated: nat,
}

impl View for Row {
    type V = RowView;

    open spec fn view(&self) -> RowView {
        RowView {
            id: self.id@,
            name: self.name@,
            description: optional_text(self.description),
            created: self.created as nat,
            updated: self.updated as nat,
        }
    }
}

/// The table of resources.
pub struct ResourceTable {
    rows: Vec<Row>,
}

/// What holds of the rows of every table.
pub open spec fn well_formed(rows: Seq<RowView>) -> bool {
    &&& forall|i: int, j: int|
        0 <= i < j < rows.len() ==> (#[trigger] rows[i]).id != (#[trigger] rows[j]).id
    &&& forall|i: int, j: int|
        0 <= i <= j < rows.len() ==> (#[trigger] rows[i]).created >= (#[trigger] rows[j]).created
    &&& forall|i: int| 0 <= i < rows.len() ==> (#[trigger] rows[i]).updated >= rows[i].created
}

/// The first index from `from` on whose row has the identifier `id`, or the
/// number of rows where there is none.
pub open spec fn find_from(rows: Seq<RowView>, id: Seq<char>, from: int) -> int
    decreases rows.len() - from,
{
    if from < 0 || from >= rows.len() {
        rows.len() as int
    } else if rows[from].id == id {
        from
    } else {
        find_from(rows, id, from + 1)
    }
}

/// The index of the row with the identifier `id`, or the number of rows.
pub open spec fn find(rows: Seq<RowView>, id: Seq<char>) -> int {
    find_from(rows, id, 0)
}

/// Whether a row has the identifier `id`.
pub open spec fn holds(rows: Seq<RowView>, id: Seq<char>) -> bool {
    find(rows, id) < rows.len()
}

/// The first index from `from` on whose row was created at `created` or
/// before, or the number of rows where there is none.
pub open spec fn slot_from(rows: Seq<RowView>, created: nat, from: int) -> int
    decreases rows.len() - from,
{
    if from < 0 || from >= rows.len() {
        rows.len() as int
    } else if rows[from].created <= created {
        from
    } else {
        slot_from(rows, created, from + 1)
    }
}

/// Where a row created at `created` goes: behind the rows created later,
/// before all others.
pub open spec fn slot(rows: Seq<RowView>, created: nat) -> int {
    slot_from(rows, created, 0)
}

/// The resource that a row is handed out as.
pub open spec fn rendered(row: RowView) -> ResourceView {
    ResourceView {
        id: row.id,
        name: row.name,
        description: row.description,
        created_at: decimal(row.created),
        updated_at: decimal(row.updated),
    }
}

/// The resource with the identifier `id`, if there is one.
pub open spec fn lookup(rows: Seq<RowView>, id: Seq<char>) -> Option<ResourceView> {
    if holds(rows, id) {
        Some(rendered(rows[find(rows, id)]))
    } else {
        None
    }
}

/// The identifier made at `secs` seconds and `nanos` nanoseconds: both in
/// hexadecimal, one behind the other.
pub open spec fn identifier(secs: nat, nanos: nat) -> Seq<char> {
    hex(secs) + hex(nanos)
}

/// The row that a creation request becomes at the given time.
pub open spec fn fresh_row(input: CreateResourceView, secs: nat, nanos: nat) -> RowView {
    RowView {
        id: identifier(secs, nanos),
        name: input.name,
        description: input.description,
        created: secs,
        updated: secs,
    }
}

/// The rows after a creation request at the given time: unchanged where the
/// identifier is taken, else with the fresh row in its slot.
pub open spec fn created_rows(
    rows: Seq<RowView>,
    input: CreateResourceView,
    secs: nat,
    nanos: nat,
) -> Seq<RowView> {
    if holds(rows, identifier(secs, nanos)) {
        rows
    } else {
        rows.insert(slot(rows, secs), fresh_row(input, secs, nanos))
    }
}

/// The later of two times.
pub open spec fn later(a: nat, b: nat) -> nat {
    if a >= b {
        a
    } else {
        b
    }
}

/// A row after an update at `secs`: a field that the request holds replaces
/// the stored one, a field that it leaves out stays; the time of the update
/// never goes back.
pub open spec fn merged(row: RowView, patch: UpdateResourceView, secs: nat) -> RowView {
    RowView {
        id: row.id,
        name: match patch.name {
            Some(name) => name,
            None => row.name,
        },
        description: match patch.description {
            Some(description) => Some(description),
            None => row.description,
        },
        created: row.created,
        updated: later(row.updated, secs),
    }
}

/// The rows after an update of `id`.
pub open spec fn updated_rows(
    rows: Seq<RowView>,
    id: Seq<char>,
    patch: UpdateResourceView,
    secs: nat,
) -> Seq<RowView> {
    if holds(rows, id) {
        rows.update(find(rows, id), merged(rows[find(rows, id)], patch, secs))
    } else {
        rows
    }
}

/// The rows after `id` was deleted.
pub open spec fn deleted_rows(rows: Seq<RowView>, id: Seq<char>) -> Seq<RowView> {
    if holds(rows, id) {
        rows.remove(find(rows, id))
    } else {
        rows
    }
}

/// What `find_from` returns: an index at or behind `from` before which, from
/// `from` on, no row has the identifier, and whose row has it if it is one.
pub proof fn lemma_find_from(rows: Seq<RowView>, id: Seq<char>, from: int)
    requires
        0 <= from <= rows.len(),
    ensures
        from <= find_from(rows, id, from) <= rows.len(),
        find_from(rows, id, from) < rows.len() ==> rows[find_from(rows, id, from)].id == id,
        forall|k: int| from <= k < find_from(rows, id, from) ==> (#[trigger] rows[k]).id != id,
    decreases rows.len() - from,
{
    if from < rows.len() && rows[from].id != id {
        lemma_find_from(rows, id, from + 1);
    }
}

/// A row found by its identifier is the row that `find` names, where no
/// identifier occurs twice.
pub proof fn lemma_find_unique(rows: Seq<RowView>, id: Seq<char>, index: int)
    requires
        well_formed(rows),
        0 <= index < rows.len(),
        rows[index].id == id,
    ensures
        find(rows, id) == index,
{
    lemma_find_from(rows, id, 0);
    let found = find(rows, id);
    if found < index {
        assert(rows[found].id != rows[index].id);
    } else if found > index {
        assert(rows[index].id != id);
    }
}

/// No row has an identifier that is not found.
pub proof fn lemma_find_absent(rows: Seq<RowView>, id: Seq<char>)
    requires
        !holds(rows, id),
    ensures
        forall|k: int| 0 <= k < rows.len() ==> (#[trigger] rows[k]).id != id,
{
    lemma_find_from(rows, id, 0);
}

/// What `slot_from` returns: an index at or behind `from` before which, from
/// `from` on, every row was created later, and whose row was not.
pub proof fn lemma_slot_from(rows: Seq<RowView>, created: nat, from: int)
    requires
        0 <= from <= rows.len(),
    ensures
        from <= slot_from(rows, created, from) <= rows.len(),
        slot_from(rows, created, from) < rows.len() ==> rows[slot_from(
            rows,
            created,
            from,
        )].created <= created,
        forall|k: int|
            from <= k < slot_from(rows, created, from) ==> (#[trigger] rows[k]).created > created,
    decreases rows.len() - from,
{
    if from < rows.len() && rows[from].created > created {
        lemma_slot_from(rows, created, from + 1);
    }
}

/// Creation keeps a table well formed.
pub proof fn lemma_created_well_formed(
    rows: Seq<RowView>,
    input: CreateResourceView,
    secs: nat,
    nanos: nat,
)
    requires
        well_formed(rows),
    ensures
        well_formed(created_rows(rows, input, secs, nanos)),
{
    let id = identifier(secs, nanos);
    if !holds(rows, id) {
        let at = slot(rows, secs);
        let row = fresh_row(input, secs, nanos);
        let after = rows.insert(at, row);
        lemma_find_absent(rows, id);
        lemma_slot_from(rows, secs, 0);
        assert forall|i: int| 0 <= i < after.len() implies #[trigger] after[i] == (if i < at {
            rows[i]
        } else if i == at {
            row
        } else {
            rows[i - 1]
        }) by {}
        assert forall|i: int, j: int| 0 <= i <= j < after.len() implies (#[trigger] after[i]).created
            >= (#[trigger] after[j]).created by {
            if i < at && j > at {
                assert(rows[i].created >= rows[j - 1].created);
            } else if i == at && j > at {
                assert(rows[at].created >= rows[j - 1].created);
            } else if i > at {
                assert(rows[i - 1].created >= rows[j - 1].created);
            }
        }
        assert forall|i: int, j: int| 0 <= i < j < after.len() implies (#[trigger] after[i]).id != (
        #[trigger] after[j]).id by {
            if i < at && j > at {
                assert(rows[i].id != rows[j - 1].id);
            } else if i > at {
                assert(rows[i - 1].id != rows[j - 1].id);
            } else if i == at {
                assert(rows[j - 1].id != id);
            }
        }
    }
}

/// An update keeps a table well formed.
pub proof fn lemma_updated_well_formed(
    rows: Seq<RowView>,
    id: Seq<char>,
    patch: UpdateResourceView,
    secs: nat,
)
    requires
        well_formed(rows),
    ensures
        well_formed(updated_rows(rows, id, patch, secs)),
{
    if holds(rows, id) {
        let at = find(rows, id);
        lemma_find_from(rows, id, 0);
        let after = updated_rows(rows, id, patch, secs);
        assert forall|i: int| 0 <= i < after.len() implies (#[trigger] after[i]).id == rows[i].id
            && after[i].created == rows[i].created && after[i].updated >= rows[i].updated by {}
        assert forall|i: int, j: int| 0 <= i < j < after.len() implies (#[trigger] after[i]).id != (
        #[trigger] after[j]).id by {
            assert(rows[i].id != rows[j].id);
        }
        assert forall|i: int, j: int| 0 <= i <= j < after.len() implies (#[trigger] after[i]).created
            >= (#[trigger] after[j]).created by {
            assert(rows[i].created >= rows[j].created);
        }
        assert forall|i: int| 0 <= i < after.len() implies (#[trigger] after[i]).updated
            >= after[i].created by {
            assert(rows[i].updated >= rows[i].created);
        }
    }
}

/// A deletion keeps a table well formed.
pub proof fn lemma_deleted_well_formed(rows: Seq<RowView>, id: Seq<char>)
    requires
        well_formed(rows),
    ensures
        well_formed(deleted_rows(rows, id)),
{
    if holds(rows, id) {
        let at = find(rows, id);
        lemma_find_from(rows, id, 0);
        let after = rows.remove(at);
        assert forall|i: int| 0 <= i < after.len() implies #[trigger] after[i] == (if i < at {
            rows[i]
        } else {
            rows[i + 1]
        }) by {}
        assert forall|i: int, j: int| 0 <= i < j < after.len() implies (#[trigger] after[i]).id != (
        #[trigger] after[j]).id by {
            let a = if i < at { i } else { i + 1 };
            let b = if j < at { j } else { j + 1 };
            assert(rows[a].id != rows[b].id);
        }
        assert forall|i: int, j: int| 0 <= i <= j < after.len() implies (#[trigger] after[i]).created
            >= (#[trigger] after[j]).created by {
            let a = if i < at { i } else { i + 1 };
            let b = if j < at { j } else { j + 1 };
            assert(rows[a].created >= rows[b].created);
        }
        assert forall|i: int| 0 <= i < after.len() implies (#[trigger] after[i]).updated
            >= after[i].created by {
            let a = if i < at { i } else { i + 1 };
            assert(rows[a].updated >= rows[a].created);
        }
    }
}

/// The identifier made at `secs` seconds and `nanos` nanoseconds.
pub fn generate_id(secs: u64, nanos: u32) -> (id: String)
    ensures
        id@ == identifier(secs as nat, nanos as nat),
{
    let mut id = render(secs, 16);
    let low = render(nanos as u64, 16);
    id.append(low.as_str());
    id
}

/// The time `secs`, in epoch seconds, as the text of a timestamp.
pub fn timestamp_string(secs: u64) -> (text: String)
    ensures
        text@ == decimal(secs as nat),
{
    render(secs, 10)
}

/// What is reported when a freshly inserted resource cannot be read back:
/// a resource that was found is handed on, a missing one is a storage
/// failure.
pub fn created_or_missing(fetched: Option<Resource>) -> (r: Result<Resource, ApiError>)
    ensures
        match fetched {
            Some(resource) => r == Ok::<Resource, ApiError>(resource),
            None => r matches Err(ApiError::Database(message)) && message@
                == "Failed to retrieve created resource"@,
        },
{
    match fetched {
        Some(resource) => Ok(resource),
        None => Err(ApiError::Database(String::from_str("Failed to retrieve created resource"))),
    }
}

impl Row {
    /// The resource that the row is handed out as.
    pub fn to_resource(&self) -> (resource: Resource)
        ensures
            resource@ == rendered(self@),
    {
        Resource {
            id: self.id.clone(),
            name: self.name.clone(),
            description: copy_optional_text(&self.description),
            created_at: timestamp_string(self.created),
            updated_at: timestamp_string(self.updated),
        }
    }
}

impl View for ResourceTable {
    type V = Seq<RowView>;

    closed spec fn view(&self) -> Seq<RowView> {
        self.rows@.map_values(|row: Row| row@)
    }
}

impl ResourceTable {
    /// Whether the table is as every table must be.
    pub open spec fn wf(&self) -> bool {
        well_formed(self@)
    }

    /// An empty table.
    pub fn new() -> (table: ResourceTable)
        ensures
            table@ == Seq::<RowView>::empty(),
            table.wf(),
    {
        let table = ResourceTable { rows: Vec::new() };
        assert(table@ =~= Seq::<RowView>::empty());
        table
    }

    /// The number of resources.
    pub fn len(&self) -> (n: usize)
        ensures
            n == self@.len(),
    {
        self.rows.len()
    }

    fn index_of(&self, id: &str) -> (index: usize)
        ensures
            index == find(self@, id@),
            index <= self.rows@.len(),
    {
        let wanted = String::from_str(id);
        let mut index: usize = 0;
        while index < self.rows.len()
            invariant
                index <= self.rows@.len(),
                wanted@ == id@,
                find(self@, id@) == find_from(self@, id@, index as int),
            decreases self.rows@.len() - index,
        {
            if self.rows[index].id == wanted {
                return index;
            }
            index = index + 1;
        }
        index
    }

    /// All resources, the latest created first: each row as it is handed
    /// out, in the order of the table, so that no resource in the list was
    /// created after one that stands before it.
    pub fn list_resources(&self) -> (resources: Vec<Resource>)
        requires
            self.wf(),
        ensures
            resources@.len() == self@.len(),
            forall|i: int| 0 <= i < self@.len() ==> (#[trigger] resources@[i])@ == rendered(self@[i]),
            forall|i: int, j: int|
                0 <= i <= j < resources@.len() ==> decimal_value(
                    (#[trigger] resources@[i])@.created_at,
                ) >= decimal_value((#[trigger] resources@[j])@.created_at),
    {
        proof {
            assert forall|i: int, j: int| 0 <= i <= j < self@.len() implies decimal_value(
                rendered(self@[i]).created_at,
            ) >= decimal_value(rendered(self@[j]).created_at) by {
                lemma_listed_newest_first(self@, i, j);
            }
        }
        let mut resources: Vec<Resource> = Vec::new();
        let mut index: usize = 0;
        while index < self.rows.len()
            invariant
                index <= self.rows@.len(),
                resources@.len() == index,
                forall|i: int| 0 <= i < index ==> (#[trigger] resources@[i])@ == rendered(self@[i]),
            decreases self.rows@.len() - index,
        {
            resources.push(self.rows[index].to_resource());
            index = index + 1;
        }
        resources
    }

    /// The resource with the identifier `id`, if there is one.
    pub fn get_resource(&self, id: &str) -> (found: Option<Resource>)
        ensures
            match found {
                Some(resource) => lookup(self@, id@) == Some(resource@),
                None => lookup(self@, id@) is None,
            },
    {
        let index = self.index_of(id);
        if index < self.rows.len() {
            Some(self.rows[index].to_resource())
        } else {
            None
        }
    }

    /// Stores a new resource made from `input` at the time of `secs` seconds
    /// and `nanos` nanoseconds, and hands it out. Where the identifier of
    /// that time is taken, nothing is stored and the storage failure says so.
    pub fn create_resource(&mut self, input: CreateResource, secs: u64, nanos: u32) -> (r: Result<
        Resource,
        ApiError,
    >)
        requires
            old(self).wf(),
        ensures
            final(self).wf(),
            final(self)@ == created_rows(old(self)@, input@, secs as nat, nanos as nat),
            match r {
                Ok(resource) => !holds(old(self)@, identifier(secs as nat, nanos as nat))
                    && resource@ == rendered(fresh_row(input@, secs as nat, nanos as nat)),
                Err(error) => holds(old(self)@, identifier(secs as nat, nanos as nat)) && (
                error matches ApiError::Database(message) && message@
                    == "UNIQUE constraint failed: resources.id"@),
            },
    {
        proof {
            lemma_created_well_formed(self@, input@, secs as nat, nanos as nat);
        }
        let id = generate_id(secs, nanos);
        if self.index_of(id.as_str()) < self.rows.len() {
            return Err(
                ApiError::Database(String::from_str("UNIQUE constraint failed: resources.id")),
            );
        }
        let mut at: usize = 0;
        while at < self.rows.len() && self.rows[at].created > secs
            invariant
                at <= self.rows@.len(),
                slot(self@, secs as nat) == slot_from(self@, secs as nat, at as int),
            decreases self.rows@.len() - at,
        {
            at = at + 1;
        }
        let row = Row {
            id,
            name: input.name,
            description: input.description,
            created: secs,
            updated: secs,
        };
        let resource = row.to_resource();
        let ghost before = self@;
        self.rows.insert(at, row);
        assert(self@ =~= before.insert(at as int, row@));
        Ok(resource)
    }

    /// Changes the resource with the identifier `id` at the time of `secs`
    /// seconds and hands out the result; a field that `input` leaves out is
    /// kept. Nothing is changed and nothing handed out where no resource has
    /// that identifier.
    pub fn update_resource(&mut self, id: &str, input: UpdateResource, secs: u64) -> (updated:
        Option<Resource>)
        requires
            old(self).wf(),
        ensures
            final(self).wf(),
            final(self)@ == updated_rows(old(self)@, id@, input@, secs as nat),
            match updated {
                Some(resource) => holds(old(self)@, id@) && resource@ == rendered(
                    merged(old(self)@[find(old(self)@, id@)], input@, secs as nat),
                ),
                None => !holds(old(self)@, id@),
            },
    {
        proof {
            lemma_updated_well_formed(self@, id@, input@, secs as nat);
        }
        let index = self.index_of(id);
        if index >= self.rows.len() {
            return None;
        }
        let ghost before = self@;
        let old_row = self.rows.remove(index);
        let row = Row {
            id: old_row.id,
            name: match input.name {
                Some(name) => name,
                None => old_row.name,
            },
            description: match input.description {
                Some(description) => Some(description),
                None => old_row.description,
            },
            created: old_row.created,
            updated: if old_row.updated >= secs {
                old_row.updated
            } else {
                secs
            },
        };
        let resource = row.to_resource();
        self.rows.insert(index, row);
        assert(self@ =~= before.update(index as int, row@));
        Some(resource)
    }

    /// Removes the resource with the identifier `id` and says whether there
    /// was one.
    pub fn delete_resource(&mut self, id: &str) -> (deleted: bool)
        requires
            old(self).wf(),
        ensures
            final(self).wf(),
            final(self)@ == deleted_rows(old(self)@, id@),
            deleted == holds(old(self)@, id@),
    {
        proof {
            lemma_deleted_well_formed(self@, id@);
        }
        let index = self.index_of(id);
        if index >= self.rows.len() {
            return false;
        }
        let ghost before = self@;
        let _ = self.rows.remove(index);
        assert(self@ =~= before.remove(index as int));
        true
    }
}

/// A resource that was created is found under its identifier, with the name
/// and the description of the request that created it.
pub proof fn lemma_created_is_found(
    rows: Seq<RowView>,
    input: CreateResourceView,
    secs: nat,
    nanos: nat,
)
    requires
        well_formed(rows),
        !holds(rows, identifier(secs, nanos)),
    ensures
        lookup(created_rows(rows, input, secs, nanos), identifier(secs, nanos)) == Some(
            rendered(fresh_row(input, secs, nanos)),
        ),
        rendered(fresh_row(input, secs, nanos)).name == input.name,
        rendered(fresh_row(input, secs, nanos)).description == input.description,
{
    let after = created_rows(rows, input, secs, nanos);
    lemma_created_well_formed(rows, input, secs, nanos);
    lemma_slot_from(rows, secs, 0);
    lemma_find_unique(after, identifier(secs, nanos), slot(rows, secs));
}

/// Creating a resource changes no other: every other identifier leads to
/// what it led to before.
pub proof fn lemma_created_keeps_others(
    rows: Seq<RowView>,
    input: CreateResourceView,
    secs: nat,
    nanos: nat,
    other: Seq<char>,
)
    requires
        well_formed(rows),
        other != identifier(secs, nanos),
    ensures
        lookup(created_rows(rows, input, secs, nanos), other) == lookup(rows, other),
{
    let id = identifier(secs, nanos);
    let after = created_rows(rows, input, secs, nanos);
    if !holds(rows, id) {
        let at = slot(rows, secs);
        lemma_created_well_formed(rows, input, secs, nanos);
        lemma_slot_from(rows, secs, 0);
        lemma_find_from(rows, other, 0);
        lemma_find_from(after, other, 0);
        if holds(rows, other) {
            let k = find(rows, other);
            let moved = if k < at { k } else { k + 1 };
            assert(after[moved] == rows[k]);
            lemma_find_unique(after, other, moved);
        } else if holds(after, other) {
            let k = find(after, other);
            if k < at {
                assert(rows[k].id == other);
            } else if k > at {
                assert(rows[k - 1].id == other);
            }
        }
    }
}

/// An update replaces the fields that the request holds and keeps those that
/// it leaves out; the identifier and the time of creation stay, and the time
/// of the update does not go back and is not before the creation.
pub proof fn lemma_updated_is_merged(
    rows: Seq<RowView>,
    id: Seq<char>,
    patch: UpdateResourceView,
    secs: nat,
)
    requires
        well_formed(rows),
        holds(rows, id),
    ensures
        lookup(updated_rows(rows, id, patch, secs), id) == Some(
            rendered(merged(rows[find(rows, id)], patch, secs)),
        ),
        patch.name is None ==> merged(rows[find(rows, id)], patch, secs).name == rows[find(
            rows,
            id,
        )].name,
        patch.description is None ==> merged(rows[find(rows, id)], patch, secs).description
            == rows[find(rows, id)].description,
        merged(rows[find(rows, id)], patch, secs).id == id,
        merged(rows[find(rows, id)], patch, secs).created == rows[find(rows, id)].created,
        merged(rows[find(rows, id)], patch, secs).updated >= rows[find(rows, id)].updated,
        merged(rows[find(rows, id)], patch, secs).updated >= merged(
            rows[find(rows, id)],
            patch,
            secs,
        ).created,
{
    let after = updated_rows(rows, id, patch, secs);
    lemma_find_from(rows, id, 0);
    lemma_updated_well_formed(rows, id, patch, secs);
    lemma_find_unique(after, id, find(rows, id));
    assert(rows[find(rows, id)].updated >= rows[find(rows, id)].created);
}

/// An update changes no other resource.
pub proof fn lemma_updated_keeps_others(
    rows: Seq<RowView>,
    id: Seq<char>,
    patch: UpdateResourceView,
    secs: nat,
    other: Seq<char>,
)
    requires
        well_formed(rows),
        other != id,
    ensures
        lookup(updated_rows(rows, id, patch, secs), other) == lookup(rows, other),
{
    let after = updated_rows(rows, id, patch, secs);
    if holds(rows, id) {
        let at = find(rows, id);
        lemma_updated_well_formed(rows, id, patch, secs);
        lemma_find_from(rows, id, 0);
        lemma_find_from(rows, other, 0);
        lemma_find_from(after, other, 0);
        if holds(rows, other) {
            let k = find(rows, other);
            assert(after[k] == rows[k]);
            lemma_find_unique(after, other, k);
        } else if holds(after, other) {
            let k = find(after, other);
            assert(rows[k].id == other);
        }
    }
}

/// An update of an identifier that no resource has changes nothing, and is
/// answered with not-found.
pub proof fn lemma_update_of_absent(
    rows: Seq<RowView>,
    id: Seq<char>,
    patch: UpdateResourceView,
    secs: nat,
)
    requires
        !holds(rows, id),
    ensures
        updated_rows(rows, id, patch, secs) == rows,
        found_reply(Ok(None)) == Err::<crate::responses::ApiResponse<Resource>, ApiError>(
            ApiError::NotFound,
        ),
{
}

/// A resource can be deleted once: after the deletion no resource has its
/// identifier, so a second deletion finds nothing, changes nothing and is
/// answered with not-found, where the first was answered with success.
pub proof fn lemma_delete_once(rows: Seq<RowView>, id: Seq<char>)
    requires
        well_formed(rows),
        holds(rows, id),
    ensures
        deleted_reply(Ok(holds(rows, id))) == Ok::<(), ApiError>(()),
        !holds(deleted_rows(rows, id), id),
        deleted_rows(deleted_rows(rows, id), id) == deleted_rows(rows, id),
        deleted_reply(Ok(holds(deleted_rows(rows, id), id))) == Err::<(), ApiError>(
            ApiError::NotFound,
        ),
{
    let at = find(rows, id);
    let after = deleted_rows(rows, id);
    lemma_find_from(rows, id, 0);
    lemma_find_from(after, id, 0);
    if holds(after, id) {
        let k = find(after, id);
        if k < at {
            assert(rows[k].id != rows[at].id);
        } else {
            assert(rows[at].id != rows[k + 1].id);
        }
    }
}

/// Deleting a resource changes no other.
pub proof fn lemma_deleted_keeps_others(rows: Seq<RowView>, id: Seq<char>, other: Seq<char>)
    requires
        well_formed(rows),
        other != id,
    ensures
        lookup(deleted_rows(rows, id), other) == lookup(rows, other),
{
    let after = deleted_rows(rows, id);
    if holds(rows, id) {
        let at = find(rows, id);
        lemma_deleted_well_formed(rows, id);
        lemma_find_from(rows, id, 0);
        lemma_find_from(rows, other, 0);
        lemma_find_from(after, other, 0);
        if holds(rows, other) {
            let k = find(rows, other);
            let moved = if k < at { k } else { k - 1 };
            assert(after[moved] == rows[k]);
            lemma_find_unique(after, other, moved);
        } else if holds(after, other) {
            let k = find(after, other);
            if k < at {
                assert(rows[k].id == other);
            } else {
                assert(rows[k + 1].id == other);
            }
        }
    }
}

/// The list is ordered by the time of creation, the latest first: of two
/// resources in it, the one that stands earlier was not created before the
/// other, by the numbers that their timestamps stand for.
pub proof fn lemma_listed_newest_first(rows: Seq<RowView>, i: int, j: int)
    requires
        well_formed(rows),
        0 <= i <= j < rows.len(),
    ensures
        decimal_value(rendered(rows[i]).created_at) >= decimal_value(rendered(rows[j]).created_at),
{
    lemma_decimal_value(rows[i].created);
    lemma_decimal_value(rows[j].created);
}

/// In every resource that a table hands out, the timestamp of the last
/// update stands for a time that is not before the creation.
pub proof fn lemma_updated_not_before_created(rows: Seq<RowView>, i: int)
    requires
        well_formed(rows),
        0 <= i < rows.len(),
    ensures
        decimal_value(rendered(rows[i]).updated_at) >= decimal_value(rendered(rows[i]).created_at),
{
    lemma_decimal_value(rows[i].created);
    lemma_decimal_value(rows[i].updated);
}

} // verus!
