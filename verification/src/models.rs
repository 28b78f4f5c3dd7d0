//! The rows of the service's tables, as plain values.
//!
//! Identifiers that are UUIDs in the database are `u128` here, and points in
//! time are microseconds since the Unix epoch, so that rows can be compared
//! and ordered in contracts. The address snapshot of a delivery is an opaque
//! JSON value that is only ever carried along.

use crate::status::DeliveryStatus;
use vstd::prelude::*;

verus! {

/// `serde_json::Value`, the type of an address snapshot. Nothing is known of
/// what a value holds; it can only be moved and cloned.
#[verifier::external_type_specification]
#[verifier::external_body]
pub struct ExJsonValue(serde_json::Value);

/// `Clone::clone` of `serde_json::Value`: the derived, field-by-field copy, so
/// the clone is the same JSON value as the one it was made from.
pub assume_specification[ <serde_json::Value as Clone>::clone ](
    v: &serde_json::Value,
) -> (r: serde_json::Value)
    ensures
        r == *v,
;

/// What a storage layer adds to a row that is being inserted: the identifier
/// it generated and its clock reading.
#[derive(Clone, Copy, Debug, PartialEq, Eq, Structural)]
pub struct Stamp {
    /// A freshly generated identifier.
    pub id: u128,
    /// The current time, in microseconds since the Unix epoch.
    pub now: i64,
}

/// A stored delivery address of a patient.
#[derive(Debug, PartialEq, Eq)]
pub struct DeliveryAddressEntity {
    pub id: i32,
    pub patient_id: i32,
    pub recipient_name: Option<String>,
    pub phone_number: Option<String>,
    pub street_address: String,
    pub city: String,
    pub state: Option<String>,
    pub postal_code: Option<String>,
    pub country: Option<String>,
    pub is_default: Option<bool>,
    pub created_at: i64,
    pub updated_at: i64,
}

/// A delivery: the aggregate that the status lifecycle moves.
#[derive(Debug, PartialEq, Eq)]
pub struct DeliveryEntity {
    pub id: u128,
    pub delivery_address: serde_json::Value,
    pub order_id: i32,
    pub status: DeliveryStatus,
    pub created_at: i64,
    pub updated_at: i64,
}

/// The columns that a new delivery is inserted with.
#[derive(Debug, PartialEq, Eq)]
pub struct CreateDeliveryEntity {
    pub delivery_address: serde_json::Value,
    pub order_id: i32,
    pub status: DeliveryStatus,
}

/// The fields of a delivery address as a patient submits them.
#[derive(Debug, PartialEq, Eq)]
pub struct CreateDeliveryAddressReq {
    pub recipient_name: String,
    pub phone_number: String,
    pub street_address: String,
    pub city: String,
    pub state: String,
    pub postal_code: String,
    pub country: String,
}

/// The columns that a delivery address is inserted or overwritten with.
#[derive(Debug, PartialEq, Eq)]
pub struct CreateDeliveryAddressEntity {
    pub patient_id: i32,
    pub recipient_name: String,
    pub phone_number: String,
    pub street_address: String,
    pub city: String,
    pub state: String,
    pub postal_code: String,
    pub country: String,
    pub is_default: bool,
}

/// One line of a delivery's audit trail.
#[derive(Debug, PartialEq, Eq)]
pub struct DeliveryLogEntity {
    pub id: u128,
    pub delivery_id: u128,
    pub description: String,
    pub status: DeliveryStatus,
    pub created_at: i64,
    pub updated_at: i64,
}

/// The columns that a new audit line is inserted with.
#[derive(Debug, PartialEq, Eq)]
pub struct CreateDeliveryLogEntity {
    pub delivery_id: u128,
    pub description: String,
    pub status: DeliveryStatus,
}

impl Clone for DeliveryEntity {
    fn clone(&self) -> (r: Self)
        ensures
            r == *self,
    {
        DeliveryEntity {
            id: self.id,
            delivery_address: self.delivery_address.clone(),
            order_id: self.order_id,
            status: self.status,
            created_at: self.created_at,
            updated_at: self.updated_at,
        }
    }
}

impl Clone for CreateDeliveryEntity {
    fn clone(&self) -> (r: Self)
        ensures
            r == *self,
    {
        CreateDeliveryEntity {
            delivery_address: self.delivery_address.clone(),
            order_id: self.order_id,
            status: self.status,
        }
    }
}

impl Clone for DeliveryLogEntity {
    fn clone(&self) -> (r: Self)
        ensures
            r == *self,
    {
        DeliveryLogEntity {
            id: self.id,
            delivery_id: self.delivery_id,
            description: self.description.clone(),
            status: self.status,
            created_at: self.created_at,
            updated_at: self.updated_at,
        }
    }
}

impl Clone for CreateDeliveryLogEntity {
    fn clone(&self) -> (r: Self)
        ensures
            r == *self,
    {
        CreateDeliveryLogEntity {
            delivery_id: self.delivery_id,
            description: self.description.clone(),
            status: self.status,
        }
    }
}

impl Clone for CreateDeliveryAddressEntity {
    fn clone(&self) -> (r: Self)
        ensures
            r == *self,
    {
        CreateDeliveryAddressEntity {
            patient_id: self.patient_id,
            recipient_name: self.recipient_name.clone(),
            phone_number: self.phone_number.clone(),
            street_address: self.street_address.clone(),
            city: self.city.clone(),
            state: self.state.clone(),
            postal_code: self.postal_code.clone(),
            country: self.country.clone(),
            is_default: self.is_default,
        }
    }
}

impl DeliveryEntity {
    /// The row that inserting `new` yields under `stamp`.
    pub open spec fn inserted(new: CreateDeliveryEntity, stamp: Stamp) -> DeliveryEntity {
        DeliveryEntity {
            id: stamp.id,
            delivery_address: new.delivery_address,
            order_id: new.order_id,
            status: new.status,
            created_at: stamp.now,
            updated_at: stamp.now,
        }
    }

    /// This row after its status was set to `status` at `now`.
    pub open spec fn moved_to(self, status: DeliveryStatus, now: i64) -> DeliveryEntity {
        DeliveryEntity { status, updated_at: now, ..self }
    }

    /// Whether `later` is this delivery at a later time: the identifier, the
    /// order, the address snapshot and the creation time never change.
    pub open spec fn same_delivery(self, later: DeliveryEntity) -> bool {
        &&& later.id == self.id
        &&& later.order_id == self.order_id
        &&& later.delivery_address == self.delivery_address
        &&& later.created_at == self.created_at
    }
}

impl CreateDeliveryEntity {
    /// The columns of a delivery for order `order_id` to `delivery_address`:
    /// every delivery starts in `PREPARING`.
    pub open spec fn starting(order_id: i32, delivery_address: serde_json::Value) -> CreateDeliveryEntity {
        CreateDeliveryEntity { delivery_address, order_id, status: DeliveryStatus::Preparing }
    }

    /// The columns of a delivery for order `order_id` to `delivery_address`:
    /// every delivery starts in `PREPARING`.
    pub fn new(order_id: i32, delivery_address: serde_json::Value) -> (r: CreateDeliveryEntity)
        ensures
            r == Self::starting(order_id, delivery_address),
    {
        CreateDeliveryEntity { delivery_address, order_id, status: DeliveryStatus::Preparing }
    }
}

impl DeliveryLogEntity {
    /// The row that inserting `new` yields under `stamp`.
    pub open spec fn inserted(new: CreateDeliveryLogEntity, stamp: Stamp) -> DeliveryLogEntity {
        DeliveryLogEntity {
            id: stamp.id,
            delivery_id: new.delivery_id,
            description: new.description,
            status: new.status,
            created_at: stamp.now,
            updated_at: stamp.now,
        }
    }
}

impl CreateDeliveryAddressEntity {
    /// The columns for the address that patient `patient_id` submitted. An
    /// address written this way is never the default one.
    pub open spec fn submitted(patient_id: i32, body: CreateDeliveryAddressReq) -> CreateDeliveryAddressEntity {
        CreateDeliveryAddressEntity {
            patient_id,
            recipient_name: body.recipient_name,
            phone_number: body.phone_number,
            street_address: body.street_address,
            city: body.city,
            state: body.state,
            postal_code: body.postal_code,
            country: body.country,
            is_default: false,
        }
    }

    /// The columns for the address that patient `patient_id` submitted. An
    /// address written this way is never the default one.
    pub fn from_request(patient_id: i32, body: CreateDeliveryAddressReq) -> (r:
        CreateDeliveryAddressEntity)
        ensures
            r == Self::submitted(patient_id, body),
    {
        CreateDeliveryAddressEntity {
            patient_id,
            recipient_name: body.recipient_name,
            phone_number: body.phone_number,
            street_address: body.street_address,
            city: body.city,
            state: body.state,
            postal_code: body.postal_code,
            country: body.country,
            is_default: false,
        }
    }
}

} // verus!
