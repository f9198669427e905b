//! The request handlers: each decodes a routing decision into one store
//! operation and shapes the outcome into a response envelope.

use vstd::prelude::*;
use crate::ids::fresh_record_id;
use crate::model::{
    get_response_found, get_response_not_found, id_response_ok, get_response_exclusive,
    id_response_exclusive, HealthCheckModel, HealthCheckModelGetResponse,
    HealthCheckModelUpdateRequest, IdResponse, InsertHealthCheckModelRequest, RecordId,
};
use crate::routes::{route_of, spec_route_of, Method, Route};
use crate::store::{created_record, updated_record, RecordStore, StoredRecord};

verus! {

/// What one handled request answers with: a payload for the 200 responses,
/// or a failure class with its detail.
#[derive(Clone, PartialEq, Eq, Debug)]
pub enum HandlerResponse {
    /// The liveness payload, the literal `ok`.
    Liveness,
    /// The envelope of a create or update.
    Id(IdResponse),
    /// The envelope of a read.
    Fetched(HealthCheckModelGetResponse),
    /// A malformed path or body, rejected before any connection is leased.
    Validation(String),
    /// A statement that could not be executed.
    Storage(String),
    /// No connection could be leased for this request.
    PoolUnavailable(String),
    /// No route matches the request.
    NotRouted,
}

/// The HTTP status each response class is written with.
pub open spec fn spec_status_of(r: HandlerResponse) -> u16 {
    match r {
        HandlerResponse::Liveness => 200u16,
        HandlerResponse::Id(_) => 200u16,
        HandlerResponse::Fetched(_) => 200u16,
        HandlerResponse::Validation(_) => 400u16,
        HandlerResponse::NotRouted => 404u16,
        HandlerResponse::Storage(_) => 500u16,
        HandlerResponse::PoolUnavailable(_) => 503u16,
    }
}

pub fn status_of(r: &HandlerResponse) -> (s: u16)
    ensures
        s == spec_status_of(*r),
{
    match r {
        HandlerResponse::Liveness => 200,
        HandlerResponse::Id(_) => 200,
        HandlerResponse::Fetched(_) => 200,
        HandlerResponse::Validation(_) => 400,
        HandlerResponse::NotRouted => 404,
        HandlerResponse::Storage(_) => 500,
        HandlerResponse::PoolUnavailable(_) => 503,
    }
}

/// What a read of `id` against the records `m` answers: the record's fields
/// on a match, and the `not_found` failure otherwise.
pub open spec fn get_outcome(
    m: Map<u128, StoredRecord>,
    id: RecordId,
    resp: HealthCheckModelGetResponse,
) -> bool {
    &&& get_response_exclusive(resp)
    &&& resp.success <==> m.contains_key(id.value)
    &&& m.contains_key(id.value) ==> resp.model == Some(
        (HealthCheckModel { name: m[id.value].name, url: m[id.value].url }),
    )
    &&& !m.contains_key(id.value) ==> (resp.error matches Some(e) && e.error@ == "not_found"@
        && e.error_loc@ == "Not found."@)
}

/// The records `post` hold exactly what `pre` held plus one new record under
/// the fresh, non-nil identifier `id`, created from `req` for some
/// organization.
pub open spec fn create_applied(
    pre: Map<u128, StoredRecord>,
    post: Map<u128, StoredRecord>,
    id: RecordId,
    req: InsertHealthCheckModelRequest,
) -> bool {
    &&& id.value != 0
    &&& !pre.contains_key(id.value)
    &&& exists|org: u128|
        post == pre.insert(id.value, created_record(id, (RecordId { value: org }), req))
}

/// What a creation request answers and does to the records: a missing or
/// empty-named body is rejected with nothing changed; otherwise either the
/// success envelope with the new identifier and the record added, or a
/// storage failure with nothing changed, and the latter only when some
/// record already occupies the drawn identifier.
pub open spec fn create_outcome(
    pre: Map<u128, StoredRecord>,
    post: Map<u128, StoredRecord>,
    body: Option<InsertHealthCheckModelRequest>,
    r: HandlerResponse,
) -> bool {
    match body {
        None => r is Validation && post == pre,
        Some(req) => if req.name@.len() == 0 {
            r is Validation && post == pre
        } else {
            match r {
                HandlerResponse::Id(resp) => {
                    &&& id_response_exclusive(resp)
                    &&& resp.success
                    &&& resp.id matches Some(id) && create_applied(pre, post, id, req)
                },
                HandlerResponse::Storage(_) => post == pre && (exists|v: u128|
                    pre.contains_key(v)),
                _ => false,
            }
        },
    }
}

/// What an update request answers and does to the records: a missing or
/// empty-named body is rejected with nothing changed; otherwise the success
/// envelope carrying the request's identifier unconditionally, with the
/// matching record's name and url replaced when one exists and nothing
/// changed when none does.
pub open spec fn update_outcome(
    pre: Map<u128, StoredRecord>,
    post: Map<u128, StoredRecord>,
    id: RecordId,
    body: Option<HealthCheckModelUpdateRequest>,
    r: HandlerResponse,
) -> bool {
    match body {
        None => r is Validation && post == pre,
        Some(req) => if req.name@.len() == 0 {
            r is Validation && post == pre
        } else {
            &&& r == HandlerResponse::Id((IdResponse { success: true, id: Some(id), error: None }))
            &&& pre.contains_key(id.value) ==> post == pre.insert(
                id.value,
                updated_record(pre[id.value], req),
            )
            &&& !pre.contains_key(id.value) ==> post == pre
        },
    }
}

/// Reads one record and shapes it into the read envelope.
pub fn get_health_check(store: &RecordStore, id: RecordId) -> (r: HealthCheckModelGetResponse)
    ensures
        get_outcome(store@, id, r),
{
    match store.get_health_check_by_id(id) {
        Some(m) => get_response_found(m),
        None => get_response_not_found(),
    }
}

/// Creates one record for a freshly drawn organization identifier and
/// shapes the outcome into the identifier envelope.
pub fn post_health_check(
    store: &mut RecordStore,
    body: Option<InsertHealthCheckModelRequest>,
) -> (r: HandlerResponse)
    requires
        old(store).wf(),
    ensures
        final(store).wf(),
        create_outcome(old(store)@, final(store)@, body, r),
{
    match body {
        None => HandlerResponse::Validation("missing request body".to_string()),
        Some(req) => {
            if req.name.as_str().is_empty() {
                HandlerResponse::Validation("name must not be empty".to_string())
            } else {
                let organization_id = fresh_record_id();
                match store.insert_health_check(organization_id, &req) {
                    Ok(id) => {
                        proof {
                            let org = organization_id.value;
                            assert(RecordId { value: org } == organization_id);
                            assert(store@ == old(store)@.insert(
                                id.value,
                                created_record(id, (RecordId { value: org }), req),
                            ));
                        }
                        HandlerResponse::Id(id_response_ok(id))
                    },
                    Err(detail) => HandlerResponse::Storage(detail),
                }
            }
        },
    }
}

/// Updates one record's name and url and shapes the outcome into the
/// identifier envelope, which reports the identifier unconditionally.
pub fn post_update_health_check(
    store: &mut RecordStore,
    id: RecordId,
    body: Option<HealthCheckModelUpdateRequest>,
) -> (r: HandlerResponse)
    requires
        old(store).wf(),
    ensures
        final(store).wf(),
        update_outcome(old(store)@, final(store)@, id, body, r),
{
    match body {
        None => HandlerResponse::Validation("missing request body".to_string()),
        Some(req) => {
            if req.name.as_str().is_empty() {
                HandlerResponse::Validation("name must not be empty".to_string())
            } else {
                let returned = store.update_health_check(id, &req);
                HandlerResponse::Id(id_response_ok(returned))
            }
        },
    }
}

/// The update request a decoded body stands for.
pub open spec fn spec_update_body(
    body: Option<InsertHealthCheckModelRequest>,
) -> Option<HealthCheckModelUpdateRequest> {
    match body {
        None => None,
        Some(req) => Some((HealthCheckModelUpdateRequest { name: req.name, url: req.url })),
    }
}

fn to_update_request(req: &InsertHealthCheckModelRequest) -> (r: HealthCheckModelUpdateRequest)
    ensures
        r == (HealthCheckModelUpdateRequest { name: req.name, url: req.url }),
{
    HealthCheckModelUpdateRequest { name: req.name.clone(), url: req.url.clone() }
}

/// Handles one decoded request against the records: routes it, runs the one
/// store operation the route asks for, and shapes the outcome. The liveness
/// route, a malformed identifier, a missing route and a rejected body all
/// answer without touching the records.
pub fn handle_request(
    store: &mut RecordStore,
    method: Method,
    path: &str,
    body: Option<InsertHealthCheckModelRequest>,
) -> (r: HandlerResponse)
    requires
        old(store).wf(),
    ensures
        final(store).wf(),
        ({
            let rt = spec_route_of(method, path@);
            &&& rt is Liveness ==> r is Liveness && final(store)@ == old(store)@
            &&& rt is NotRouted ==> r is NotRouted && final(store)@ == old(store)@
            &&& rt is MalformedId ==> r is Validation && final(store)@ == old(store)@
            &&& rt matches Route::GetHealthCheck(id) ==> final(store)@ == old(store)@ && (
            r matches HandlerResponse::Fetched(resp) && get_outcome(old(store)@, id, resp))
            &&& rt is CreateHealthCheck ==> create_outcome(old(store)@, final(store)@, body, r)
            &&& rt matches Route::UpdateHealthCheck(id) ==> update_outcome(
                old(store)@,
                final(store)@,
                id,
                spec_update_body(body),
                r,
            )
        }),
{
    match route_of(method, path) {
        Route::Liveness => HandlerResponse::Liveness,
        Route::NotRouted => HandlerResponse::NotRouted,
        Route::MalformedId => HandlerResponse::Validation("invalid identifier".to_string()),
        Route::GetHealthCheck(id) => HandlerResponse::Fetched(get_health_check(store, id)),
        Route::CreateHealthCheck => post_health_check(store, body),
        Route::UpdateHealthCheck(id) => {
            let update_body = match body {
                Some(req) => Some(to_update_request(&req)),
                None => None,
            };
            post_update_health_check(store, id, update_body)
        },
    }
}

} // verus!
