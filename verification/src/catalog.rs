//! The resource services' pure core: building a record from a create
//! request, merging a partial update field-by-field against the current
//! record, shaping responses, and assembling a paginated listing. Dates
//! travel as day numbers and timestamps as unix seconds, so every field is
//! a plain value the contracts can speak about.

use vstd::prelude::*;
use crate::errors::ApiError;
use crate::pagination::spec_total_pages;
use crate::pagination::total_pages;
use crate::toggle::{spec_toggle, RelationRow, RelationTable, Toggled};

verus! {

/// A catalog model as the store holds it. `release_date` is a day number;
/// `created_at` and `updated_at` are unix seconds.
#[derive(Clone, Debug)]
pub struct ModelRecord {
    pub id: i32,
    pub name: String,
    pub series: Option<String>,
    pub grade: Option<String>,
    pub release_date: Option<i32>,
    pub status: String,
    pub manufacturer_id: i32,
    pub parent_id: Option<i32>,
    pub notes: Option<String>,
    pub created_at: i64,
    pub updated_at: i64,
}

/// A request to create a model.
#[derive(Clone, Debug)]
pub struct CreateModelRequest {
    pub name: String,
    pub series: Option<String>,
    pub grade: Option<String>,
    pub release_date: Option<i32>,
    pub status: String,
    pub manufacturer_id: i32,
    pub parent_id: Option<i32>,
    pub notes: Option<String>,
}

/// A partial update of a model: every field optional, absent fields keep
/// their current value.
#[derive(Clone, Debug)]
pub struct UpdateModelRequest {
    pub name: Option<String>,
    pub series: Option<String>,
    pub grade: Option<String>,
    pub release_date: Option<i32>,
    pub status: Option<String>,
    pub manufacturer_id: Option<i32>,
    pub parent_id: Option<i32>,
    pub notes: Option<String>,
}

/// A model as a listing or detail endpoint returns it.
#[derive(Clone, Debug)]
pub struct ModelResponse {
    pub id: i32,
    pub name: String,
    pub series: Option<String>,
    pub grade: Option<String>,
    pub release_date: Option<i32>,
    pub status: String,
    pub manufacturer_id: i32,
    pub parent_id: Option<i32>,
    pub notes: Option<String>,
    pub created_at: i64,
    pub updated_at: i64,
}

/// One page of a model listing with its window and page-count arithmetic.
#[derive(Clone, Debug)]
pub struct ModelListResponse {
    pub models: Vec<ModelResponse>,
    pub total: u64,
    pub page: u64,
    pub per_page: u64,
    pub total_pages: u64,
}

/// The note request body of a favorite toggle.
#[derive(Clone, Debug)]
pub struct ToggleFavoriteRequest {
    pub notes: Option<String>,
}

/// The note request body of a purchase toggle.
#[derive(Clone, Debug)]
pub struct TogglePurchaseRequest {
    pub notes: Option<String>,
}

/// Clones an optional string, field for field.
fn clone_opt_string(o: &Option<String>) -> (r: Option<String>)
    ensures
        r == *o,
{
    match o {
        Some(s) => Some(s.clone()),
        None => None,
    }
}

impl CreateModelRequest {
    /// The request-shape rules: a name of 1 to 255 characters, a series of
    /// at most 100, a grade of at most 50.
    pub fn is_valid(&self) -> (r: bool)
        ensures
            r == (1 <= self.name@.len() <= 255 && (self.series matches Some(s) ==> s@.len() <= 100)
                && (self.grade matches Some(g) ==> g@.len() <= 50)),
    {
        let name_len: usize = self.name.as_str().unicode_len();
        let series_ok: bool = match &self.series {
            Some(s) => s.as_str().unicode_len() <= 100,
            None => true,
        };
        let grade_ok: bool = match &self.grade {
            Some(g) => g.as_str().unicode_len() <= 50,
            None => true,
        };
        1 <= name_len && name_len <= 255 && series_ok && grade_ok
    }
}

impl UpdateModelRequest {
    /// The same shape rules as on create, applied to whichever fields are
    /// present.
    pub fn is_valid(&self) -> (r: bool)
        ensures
            r == ((self.name matches Some(n) ==> 1 <= n@.len() <= 255) && (self.series matches Some(
                s,
            ) ==> s@.len() <= 100) && (self.grade matches Some(g) ==> g@.len() <= 50)),
    {
        let name_ok: bool = match &self.name {
            Some(n) => {
                let l: usize = n.as_str().unicode_len();
                1 <= l && l <= 255
            },
            None => true,
        };
        let series_ok: bool = match &self.series {
            Some(s) => s.as_str().unicode_len() <= 100,
            None => true,
        };
        let grade_ok: bool = match &self.grade {
            Some(g) => g.as_str().unicode_len() <= 50,
            None => true,
        };
        name_ok && series_ok && grade_ok
    }
}

/// The record a create request produces: every field from the request, the
/// given id, and both timestamps set to `now`.
pub fn new_model_record(request: CreateModelRequest, id: i32, now: i64) -> (r: ModelRecord)
    ensures
        r.id == id,
        r.name == request.name,
        r.series == request.series,
        r.grade == request.grade,
        r.release_date == request.release_date,
        r.status == request.status,
        r.manufacturer_id == request.manufacturer_id,
        r.parent_id == request.parent_id,
        r.notes == request.notes,
        r.created_at == now,
        r.updated_at == now,
{
    ModelRecord {
        id,
        name: request.name,
        series: request.series,
        grade: request.grade,
        release_date: request.release_date,
        status: request.status,
        manufacturer_id: request.manufacturer_id,
        parent_id: request.parent_id,
        notes: request.notes,
        created_at: now,
        updated_at: now,
    }
}

/// Merges a partial update against the current record: each field takes
/// the new value if the request carries one, else keeps the existing one.
/// The id and creation time never change; the update time becomes `now`.
pub fn merge_model_update(existing: &ModelRecord, request: UpdateModelRequest, now: i64) -> (r:
    ModelRecord)
    ensures
        r.id == existing.id,
        r.name == if request.name is Some {
            request.name->Some_0
        } else {
            existing.name
        },
        r.series == if request.series is Some {
            request.series
        } else {
            existing.series
        },
        r.grade == if request.grade is Some {
            request.grade
        } else {
            existing.grade
        },
        r.release_date == if request.release_date is Some {
            request.release_date
        } else {
            existing.release_date
        },
        r.status == if request.status is Some {
            request.status->Some_0
        } else {
            existing.status
        },
        r.manufacturer_id == if request.manufacturer_id is Some {
            request.manufacturer_id->Some_0
        } else {
            existing.manufacturer_id
        },
        r.parent_id == if request.parent_id is Some {
            request.parent_id
        } else {
            existing.parent_id
        },
        r.notes == if request.notes is Some {
            request.notes
        } else {
            existing.notes
        },
        r.created_at == existing.created_at,
        r.updated_at == now,
{
    let name: String = match request.name {
        Some(n) => n,
        None => existing.name.clone(),
    };
    let series: Option<String> = match request.series {
        Some(s) => Some(s),
        None => clone_opt_string(&existing.series),
    };
    let grade: Option<String> = match request.grade {
        Some(g) => Some(g),
        None => clone_opt_string(&existing.grade),
    };
    let release_date: Option<i32> = match request.release_date {
        Some(d) => Some(d),
        None => existing.release_date,
    };
    let status: String = match request.status {
        Some(s) => s,
        None => existing.status.clone(),
    };
    let manufacturer_id: i32 = match request.manufacturer_id {
        Some(m) => m,
        None => existing.manufacturer_id,
    };
    let parent_id: Option<i32> = match request.parent_id {
        Some(p) => Some(p),
        None => existing.parent_id,
    };
    let notes: Option<String> = match request.notes {
        Some(n) => Some(n),
        None => clone_opt_string(&existing.notes),
    };
    ModelRecord {
        id: existing.id,
        name,
        series,
        grade,
        release_date,
        status,
        manufacturer_id,
        parent_id,
        notes,
        created_at: existing.created_at,
        updated_at: now,
    }
}

/// Shapes a stored model into its response, field for field.
pub fn model_response(m: ModelRecord) -> (r: ModelResponse)
    ensures
        r.id == m.id,
        r.name == m.name,
        r.series == m.series,
        r.grade == m.grade,
        r.release_date == m.release_date,
        r.status == m.status,
        r.manufacturer_id == m.manufacturer_id,
        r.parent_id == m.parent_id,
        r.notes == m.notes,
        r.created_at == m.created_at,
        r.updated_at == m.updated_at,
{
    ModelResponse {
        id: m.id,
        name: m.name,
        series: m.series,
        grade: m.grade,
        release_date: m.release_date,
        status: m.status,
        manufacturer_id: m.manufacturer_id,
        parent_id: m.parent_id,
        notes: m.notes,
        created_at: m.created_at,
        updated_at: m.updated_at,
    }
}

/// Assembles one page of a model listing: the fetched page of items, the
/// window it answers, and `total_pages` as the ceiling of
/// `total / per_page`.
pub fn model_list_response(models: Vec<ModelResponse>, total: u64, page: u64, per_page: u64) -> (r:
    ModelListResponse)
    requires
        per_page >= 1,
    ensures
        r.models == models,
        r.total == total,
        r.page == page,
        r.per_page == per_page,
        r.total_pages == spec_total_pages(total as int, per_page as int),
{
    let tp: u64 = total_pages(total, per_page);
    ModelListResponse { models, total, page, per_page, total_pages: tp }
}

/// Flips whether the user favorites the model, carrying the note of the
/// toggle request into the row when one is inserted; every other row is
/// untouched.
pub fn toggle_favorite(
    table: &mut RelationTable,
    user_id: i32,
    model_id: i32,
    request: ToggleFavoriteRequest,
    now: i64,
) -> (r: Toggled)
    requires
        old(table).wf(),
    ensures
        final(table).wf(),
        final(table).pairs() == spec_toggle(old(table).pairs(), (user_id, model_id)),
        (r == Toggled::On) <==> !old(table).pairs().contains((user_id, model_id)),
        r == Toggled::On ==> final(table).rows_seq() == old(table).rows_seq().push(
            RelationRow { user_id, model_id, notes: request.notes, created_at: now },
        ),
        r == Toggled::Off ==> exists|k: int|
            0 <= k < old(table).rows_seq().len() && (#[trigger] old(table).rows_seq()[k]).user_id
                == user_id && old(table).rows_seq()[k].model_id == model_id
                && final(table).rows_seq() == old(table).rows_seq().remove(k),
{
    table.toggle(user_id, model_id, request.notes, now)
}

/// Flips whether the user has the model marked as purchased, carrying the
/// note of the toggle request into the row when one is inserted; every
/// other row is untouched.
pub fn toggle_purchase(
    table: &mut RelationTable,
    user_id: i32,
    model_id: i32,
    request: TogglePurchaseRequest,
    now: i64,
) -> (r: Toggled)
    requires
        old(table).wf(),
    ensures
        final(table).wf(),
        final(table).pairs() == spec_toggle(old(table).pairs(), (user_id, model_id)),
        (r == Toggled::On) <==> !old(table).pairs().contains((user_id, model_id)),
        r == Toggled::On ==> final(table).rows_seq() == old(table).rows_seq().push(
            RelationRow { user_id, model_id, notes: request.notes, created_at: now },
        ),
        r == Toggled::Off ==> exists|k: int|
            0 <= k < old(table).rows_seq().len() && (#[trigger] old(table).rows_seq()[k]).user_id
                == user_id && old(table).rows_seq()[k].model_id == model_id
                && final(table).rows_seq() == old(table).rows_seq().remove(k),
{
    table.toggle(user_id, model_id, request.notes, now)
}

/// Classifies a deletion by how many rows the store removed: deleting an
/// absent resource is `NotFound`, not a silent success.
pub fn delete_outcome(rows_affected: u64) -> (r: Result<(), ApiError>)
    ensures
        rows_affected == 0 <==> r == Err::<(), ApiError>(ApiError::NotFound),
        rows_affected > 0 <==> r == Ok::<(), ApiError>(()),
{
    if rows_affected == 0 {
        Err(ApiError::NotFound)
    } else {
        Ok(())
    }
}

/// A manufacturer as the store holds it. The active period travels as two
/// optional day numbers; `models_count` is filled by a separate count
/// query, when at all.
#[derive(Clone, Debug)]
pub struct ManufacturerRecord {
    pub id: i32,
    pub name: String,
    pub country: String,
    pub active_period_start: Option<i32>,
    pub active_period_end: Option<i32>,
    pub models_count: Option<i64>,
}

/// A request to create a manufacturer.
#[derive(Clone, Debug)]
pub struct CreateManufacturerRequest {
    pub name: String,
    pub country: String,
    pub active_period_start: Option<i32>,
    pub active_period_end: Option<i32>,
}

/// A partial update of a manufacturer.
#[derive(Clone, Debug)]
pub struct UpdateManufacturerRequest {
    pub name: Option<String>,
    pub country: Option<String>,
    pub active_period_start: Option<i32>,
    pub active_period_end: Option<i32>,
}

/// A manufacturer as the endpoints return it.
#[derive(Clone, Debug)]
pub struct ManufacturerResponse {
    pub id: i32,
    pub name: String,
    pub country: String,
    pub active_period_start: Option<i32>,
    pub active_period_end: Option<i32>,
    pub models_count: Option<i64>,
}

impl CreateManufacturerRequest {
    /// The request-shape rules: a name of 1 to 255 characters and a
    /// country of at most 100.
    pub fn is_valid(&self) -> (r: bool)
        ensures
            r == (1 <= self.name@.len() <= 255 && self.country@.len() <= 100),
    {
        let name_len: usize = self.name.as_str().unicode_len();
        1 <= name_len && name_len <= 255 && self.country.as_str().unicode_len() <= 100
    }
}

impl UpdateManufacturerRequest {
    /// The same shape rules as on create, applied to whichever fields are
    /// present.
    pub fn is_valid(&self) -> (r: bool)
        ensures
            r == ((self.name matches Some(n) ==> 1 <= n@.len() <= 255) && (self.country
                matches Some(c) ==> c@.len() <= 100)),
    {
        let name_ok: bool = match &self.name {
            Some(n) => {
                let l: usize = n.as_str().unicode_len();
                1 <= l && l <= 255
            },
            None => true,
        };
        let country_ok: bool = match &self.country {
            Some(c) => c.as_str().unicode_len() <= 100,
            None => true,
        };
        name_ok && country_ok
    }
}

/// The record a create request produces, under the given id; no model
/// count is known yet.
pub fn new_manufacturer_record(request: CreateManufacturerRequest, id: i32) -> (r:
    ManufacturerRecord)
    ensures
        r.id == id,
        r.name == request.name,
        r.country == request.country,
        r.active_period_start == request.active_period_start,
        r.active_period_end == request.active_period_end,
        r.models_count is None,
{
    ManufacturerRecord {
        id,
        name: request.name,
        country: request.country,
        active_period_start: request.active_period_start,
        active_period_end: request.active_period_end,
        models_count: None,
    }
}

/// Merges a partial update against the current manufacturer: new value if
/// present, else the existing one; the id and the count stay.
pub fn merge_manufacturer_update(
    existing: &ManufacturerRecord,
    request: UpdateManufacturerRequest,
) -> (r: ManufacturerRecord)
    ensures
        r.id == existing.id,
        r.name == if request.name is Some {
            request.name->Some_0
        } else {
            existing.name
        },
        r.country == if request.country is Some {
            request.country->Some_0
        } else {
            existing.country
        },
        r.active_period_start == if request.active_period_start is Some {
            request.active_period_start
        } else {
            existing.active_period_start
        },
        r.active_period_end == if request.active_period_end is Some {
            request.active_period_end
        } else {
            existing.active_period_end
        },
        r.models_count == existing.models_count,
{
    let name: String = match request.name {
        Some(n) => n,
        None => existing.name.clone(),
    };
    let country: String = match request.country {
        Some(c) => c,
        None => existing.country.clone(),
    };
    let active_period_start: Option<i32> = match request.active_period_start {
        Some(d) => Some(d),
        None => existing.active_period_start,
    };
    let active_period_end: Option<i32> = match request.active_period_end {
        Some(d) => Some(d),
        None => existing.active_period_end,
    };
    ManufacturerRecord {
        id: existing.id,
        name,
        country,
        active_period_start,
        active_period_end,
        models_count: existing.models_count,
    }
}

/// Shapes a stored manufacturer into its response, field for field.
pub fn manufacturer_response(m: ManufacturerRecord) -> (r: ManufacturerResponse)
    ensures
        r.id == m.id,
        r.name == m.name,
        r.country == m.country,
        r.active_period_start == m.active_period_start,
        r.active_period_end == m.active_period_end,
        r.models_count == m.models_count,
{
    ManufacturerResponse {
        id: m.id,
        name: m.name,
        country: m.country,
        active_period_start: m.active_period_start,
        active_period_end: m.active_period_end,
        models_count: m.models_count,
    }
}

} // verus!
