//! The result of one executed transaction, as the harness hands it back.
//!
//! The harness never interprets success or failure on the caller's behalf:
//! whatever the ledger decided is carried here for the test to assert on.
//! Only the fields the harness itself reads are plain values; the new
//! addresses stay the engine's own opaque address types, so that the test
//! can feed them straight back into further calls.

use vstd::prelude::*;

use radix_common::types::ComponentAddress;
use radix_common::math::Decimal;
use radix_common::types::PackageAddress;
use radix_common::types::ResourceAddress;

use crate::errors::EnvError;
use crate::ledger::decimal_decodable;
use crate::ledger::decode_decimal;

verus! {

/// What one executed transaction left behind.
#[derive(Debug)]
pub struct Receipt {
    /// `Ok` when the transaction was committed with a successful outcome;
    /// otherwise a description of the rejection or failure.
    pub result: Result<(), String>,
    /// The component addresses the transaction created, in creation order.
    pub new_component_addresses: Vec<ComponentAddress>,
    /// The resource addresses the transaction created, in creation order.
    pub new_resource_addresses: Vec<ResourceAddress>,
    /// The package addresses the transaction created, in creation order.
    pub new_package_addresses: Vec<PackageAddress>,
    /// The raw bytes each instruction returned, one entry per instruction;
    /// empty bytes for instructions that returned nothing.
    pub outputs: Vec<Vec<u8>>,
}

impl Receipt {
    /// Whether the transaction was committed and succeeded.
    pub open spec fn committed(self) -> bool {
        self.result is Ok
    }

    /// Whether the transaction was committed and succeeded.
    pub fn is_ok(&self) -> (r: bool)
        ensures
            r == self.committed(),
    {
        self.result.is_ok()
    }

    /// The first resource address the transaction created, or
    /// `ExecutionFailed` when the transaction did not succeed or created
    /// none.
    pub fn first_new_resource(&self) -> (r: Result<ResourceAddress, EnvError>)
        ensures
            r == if self.committed() && self.new_resource_addresses@.len() > 0 {
                Ok::<ResourceAddress, EnvError>(self.new_resource_addresses@[0])
            } else {
                Err::<ResourceAddress, EnvError>(EnvError::ExecutionFailed)
            },
    {
        if self.result.is_ok() && self.new_resource_addresses.len() > 0 {
            Ok(self.new_resource_addresses[0])
        } else {
            Err(EnvError::ExecutionFailed)
        }
    }

    /// The first package address the transaction created, or
    /// `ExecutionFailed` when the transaction did not succeed or created
    /// none.
    pub fn first_new_package(&self) -> (r: Result<PackageAddress, EnvError>)
        ensures
            r == if self.committed() && self.new_package_addresses@.len() > 0 {
                Ok::<PackageAddress, EnvError>(self.new_package_addresses@[0])
            } else {
                Err::<PackageAddress, EnvError>(EnvError::ExecutionFailed)
            },
    {
        if self.result.is_ok() && self.new_package_addresses.len() > 0 {
            Ok(self.new_package_addresses[0])
        } else {
            Err(EnvError::ExecutionFailed)
        }
    }

    /// The decimal that the transaction's second instruction returned —
    /// the query instruction, in the manifests this harness builds, whose
    /// first instruction only locks the fee. `Ok` exactly when the
    /// transaction succeeded, a second output exists and it encodes a
    /// decimal; every other case is `ExecutionFailed`.
    pub fn balance_output(&self) -> (r: Result<Decimal, EnvError>)
        ensures
            r is Ok <==> self.committed() && self.outputs@.len() >= 2 && decimal_decodable(
                self.outputs@[1]@,
            ),
            r is Err ==> r == Err::<Decimal, EnvError>(EnvError::ExecutionFailed),
    {
        if self.result.is_ok() && self.outputs.len() >= 2 {
            match decode_decimal(self.outputs[1].as_slice()) {
                Some(d) => Ok(d),
                None => Err(EnvError::ExecutionFailed),
            }
        } else {
            Err(EnvError::ExecutionFailed)
        }
    }
}

} // verus!
