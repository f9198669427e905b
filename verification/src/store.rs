//! The record store: the table of health-check records keyed by identifier,
//! with create, read-by-id and update. Models the persisted table; the
//! surrounding application replays each operation against the database.

use vstd::prelude::*;
use std::collections::HashMap;
use crate::ids::fresh_record_id;
use crate::model::{
    HealthCheckModel, HealthCheckModelUpdateRequest, InsertHealthCheckModelRequest, RecordId,
};

verus! {

broadcast use vstd::std_specs::hash::group_hash_axioms;

/// One row of the table: identifiers, display fields, and the status code
/// the check expects.
#[derive(Clone, PartialEq, Eq, Debug)]
pub struct StoredRecord {
    pub id: RecordId,
    pub organization_id: RecordId,
    pub name: String,
    pub url: String,
    pub expected_status_code: u16,
}

/// The record a creation request gives rise to: a server-assigned
/// identifier, the caller's organization, the requested name and url, and
/// the expected status code fixed at 200.
pub open spec fn created_record(
    id: RecordId,
    organization_id: RecordId,
    req: InsertHealthCheckModelRequest,
) -> StoredRecord {
    StoredRecord {
        id,
        organization_id,
        name: req.name,
        url: req.url,
        expected_status_code: 200u16,
    }
}

/// The record an update request turns an existing row into: name and url
/// replaced, identifiers and expected status code kept.
pub open spec fn updated_record(
    prev: StoredRecord,
    req: HealthCheckModelUpdateRequest,
) -> StoredRecord {
    StoredRecord {
        id: prev.id,
        organization_id: prev.organization_id,
        name: req.name,
        url: req.url,
        expected_status_code: prev.expected_status_code,
    }
}

/// The table of records. Viewed as a map from identifier value to record.
pub struct RecordStore {
    records: HashMap<u128, StoredRecord>,
}

impl View for RecordStore {
    type V = Map<u128, StoredRecord>;

    closed spec fn view(&self) -> Map<u128, StoredRecord> {
        self.records@
    }
}

impl RecordStore {
    /// Well-formedness: every row is keyed by its own identifier, carries a
    /// non-empty name, and no row is keyed by the nil identifier.
    pub open spec fn wf(self) -> bool {
        forall|k: u128| #[trigger] self@.contains_key(k)
            ==> self@[k].id.value == k && self@[k].name@.len() > 0 && k != 0
    }

    /// An empty store.
    pub fn new() -> (s: RecordStore)
        ensures
            s@ == Map::<u128, StoredRecord>::empty(),
            s.wf(),
    {
        RecordStore { records: HashMap::new() }
    }

    /// Looks up exactly one row by identifier; `None` when no row matches,
    /// never an error.
    pub fn get_health_check_by_id(&self, id: RecordId) -> (r: Option<HealthCheckModel>)
        ensures
            r is Some <==> self@.contains_key(id.value),
            r matches Some(m) ==> m.name == self@[id.value].name && m.url == self@[id.value].url,
    {
        match self.records.get(&id.value) {
            Some(rec) => Some(HealthCheckModel { name: rec.name.clone(), url: rec.url.clone() }),
            None => None,
        }
    }

    /// Inserts a new row under a freshly drawn identifier and returns it.
    /// The expected status code is fixed at 200. When the row cannot be
    /// inserted because the drawn identifier already keys a row (the unique
    /// constraint), nothing changes and the failure's description comes
    /// back; the caller must not assume partial success.
    pub fn insert_health_check(
        &mut self,
        organization_id: RecordId,
        model: &InsertHealthCheckModelRequest,
    ) -> (r: Result<RecordId, String>)
        requires
            old(self).wf(),
            model.name@.len() > 0,
        ensures
            final(self).wf(),
            r matches Ok(id) ==> {
                &&& id.value != 0
                &&& !old(self)@.contains_key(id.value)
                &&& final(self)@ == old(self)@.insert(
                    id.value,
                    created_record(id, organization_id, *model),
                )
            },
            r is Err ==> final(self)@ == old(self)@ && (exists|v: u128|
                old(self)@.contains_key(v)),
    {
        let id = fresh_record_id();
        if self.records.contains_key(&id.value) {
            proof {
                assert(old(self)@.contains_key(id.value));
            }
            Err("duplicate identifier".to_string())
        } else {
            let record = StoredRecord {
                id,
                organization_id,
                name: model.name.clone(),
                url: model.url.clone(),
                expected_status_code: 200,
            };
            self.records.insert(id.value, record);
            proof {
                assert forall|k: u128| #[trigger] self@.contains_key(k)
                    implies self@[k].id.value == k && self@[k].name@.len() > 0 && k != 0 by {
                    if k != id.value {
                        assert(old(self)@.contains_key(k));
                    }
                }
            }
            Ok(id)
        }
    }

    /// Updates name and url of the row matching the identifier, and returns
    /// the identifier unconditionally: a missing row is not reported as a
    /// distinct outcome, and callers that need existence confirmation must
    /// read the record back.
    pub fn update_health_check(
        &mut self,
        id: RecordId,
        model: &HealthCheckModelUpdateRequest,
    ) -> (r: RecordId)
        requires
            old(self).wf(),
            model.name@.len() > 0,
        ensures
            r == id,
            final(self).wf(),
            old(self)@.contains_key(id.value) ==> final(self)@ == old(self)@.insert(
                id.value,
                updated_record(old(self)@[id.value], *model),
            ),
            !old(self)@.contains_key(id.value) ==> final(self)@ == old(self)@,
    {
        let updated = match self.records.get(&id.value) {
            Some(rec) => Some(
                StoredRecord {
                    id: rec.id,
                    organization_id: rec.organization_id,
                    name: model.name.clone(),
                    url: model.url.clone(),
                    expected_status_code: rec.expected_status_code,
                },
            ),
            None => None,
        };
        match updated {
            Some(rec) => {
                self.records.insert(id.value, rec);
                proof {
                    assert forall|k: u128| #[trigger] self@.contains_key(k)
                        implies self@[k].id.value == k && self@[k].name@.len() > 0 && k != 0 by {
                        if k != id.value {
                            assert(old(self)@.contains_key(k));
                        } else {
                            assert(old(self)@.contains_key(k));
                        }
                    }
                }
            },
            None => {},
        }
        id
    }
}

} // verus!
