//! Wire-level data shapes: identifiers, request bodies, and the uniform
//! response envelopes with their success/error exclusivity invariant.

use vstd::prelude::*;

verus! {

broadcast use vstd::string::group_string_axioms;

/// A 128-bit identifier, the value of a UUID. Identifies records and
/// organizations; the all-zero value is the nil identifier.
#[derive(Clone, Copy, PartialEq, Eq, Structural, Debug, Hash)]
pub struct RecordId {
    pub value: u128,
}

impl RecordId {
    /// The nil identifier (all bits zero), never assigned to a record.
    pub fn nil() -> (r: RecordId)
        ensures
            r.value == 0,
    {
        RecordId { value: 0 }
    }

    pub fn is_nil(&self) -> (r: bool)
        ensures
            r == (self.value == 0),
    {
        self.value == 0
    }
}

/// An error as the envelope carries it: a kind tag and a human-readable
/// detail.
#[derive(Clone, PartialEq, Eq, Debug)]
pub struct OpdayError {
    pub error: String,
    pub error_loc: String,
}

/// Envelope for operations that answer with an identifier (create, update).
#[derive(Clone, PartialEq, Eq, Debug)]
pub struct IdResponse {
    pub success: bool,
    pub id: Option<RecordId>,
    pub error: Option<OpdayError>,
}

/// The client-visible fields of one health-check record.
#[derive(Clone, PartialEq, Eq, Debug)]
pub struct HealthCheckModel {
    pub name: String,
    pub url: String,
}

/// Envelope for the read operation: the record when found, an error when not.
#[derive(Clone, PartialEq, Eq, Debug)]
pub struct HealthCheckModelGetResponse {
    pub success: bool,
    pub model: Option<HealthCheckModel>,
    pub error: Option<OpdayError>,
}

/// A decoded creation request body.
#[derive(Clone, PartialEq, Eq, Debug)]
pub struct InsertHealthCheckModelRequest {
    pub name: String,
    pub url: String,
}

/// A freshly created record together with its assigned identifier.
#[derive(Clone, PartialEq, Eq, Debug)]
pub struct InsertedHealthCheckModel {
    pub id: RecordId,
    pub model: HealthCheckModel,
}

/// A decoded update request body.
#[derive(Clone, PartialEq, Eq, Debug)]
pub struct HealthCheckModelUpdateRequest {
    pub name: String,
    pub url: String,
}

/// The envelope invariant for identifier responses: the payload is present
/// exactly on success, and the error exactly on failure.
pub open spec fn id_response_exclusive(r: IdResponse) -> bool {
    &&& r.success <==> r.id is Some
    &&& r.success <==> r.error is None
}

/// The envelope invariant for read responses: the record is present exactly
/// on success, and the error exactly on failure.
pub open spec fn get_response_exclusive(r: HealthCheckModelGetResponse) -> bool {
    &&& r.success <==> r.model is Some
    &&& r.success <==> r.error is None
}

/// Builds the success envelope for create and update: the identifier and no
/// error.
pub fn id_response_ok(id: RecordId) -> (r: IdResponse)
    ensures
        r == (IdResponse { success: true, id: Some(id), error: None }),
        id_response_exclusive(r),
{
    IdResponse { success: true, id: Some(id), error: None }
}

/// Builds the error carried by a read response when no row matches.
pub fn not_found_error() -> (r: OpdayError)
    ensures
        r.error@ == "not_found"@,
        r.error_loc@ == "Not found."@,
{
    OpdayError { error: "not_found".to_string(), error_loc: "Not found.".to_string() }
}

/// Builds the read envelope for a record that was found.
pub fn get_response_found(model: HealthCheckModel) -> (r: HealthCheckModelGetResponse)
    ensures
        r == (HealthCheckModelGetResponse { success: true, model: Some(model), error: None }),
        get_response_exclusive(r),
{
    HealthCheckModelGetResponse { success: true, model: Some(model), error: None }
}

/// Builds the read envelope for a lookup that matched no row: a failure
/// carrying the `not_found` error, never a storage error.
pub fn get_response_not_found() -> (r: HealthCheckModelGetResponse)
    ensures
        !r.success,
        r.model is None,
        r.error is Some,
        r.error.unwrap().error@ == "not_found"@,
        r.error.unwrap().error_loc@ == "Not found."@,
        get_response_exclusive(r),
{
    HealthCheckModelGetResponse { success: false, model: None, error: Some(not_found_error()) }
}

/// Maps a failure's description to the internal-failure status and message,
/// the shape in which lease or storage failures reach the client.
pub fn internal_error(detail: String) -> (r: (u16, String))
    ensures
        r.0 == 500u16,
        r.1@ == detail@,
{
    (500, detail)
}

/// The success/error exclusivity of a read envelope depends only on which
/// fields are populated: any re-encoding that keeps the success flag and the
/// presence of the record and of the error keeps the invariant. So a decode
/// followed by a re-encode of a library-built envelope preserves it.
pub proof fn lemma_roundtrip_preserves_exclusivity(
    a: HealthCheckModelGetResponse,
    b: HealthCheckModelGetResponse,
)
    requires
        get_response_exclusive(a),
        a.success == b.success,
        a.model is Some <==> b.model is Some,
        a.error is Some <==> b.error is Some,
    ensures
        get_response_exclusive(b),
{
}

/// The same fact for identifier envelopes.
pub proof fn lemma_roundtrip_preserves_id_exclusivity(a: IdResponse, b: IdResponse)
    requires
        id_response_exclusive(a),
        a.success == b.success,
        a.id is Some <==> b.id is Some,
        a.error is Some <==> b.error is Some,
    ensures
        id_response_exclusive(b),
{
}

} // verus!
