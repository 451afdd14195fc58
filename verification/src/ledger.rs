//! The boundary to the ledger engine.
//!
//! Everything the library takes on trust stands in this file: the
//! declarations of the engine's types, and the wrappers whose bodies hand
//! work to the engine. Each wrapper's doc comment names the outside items
//! it relies on. Nothing else in the crate calls the engine.
//!
//! Nothing is promised of what a transaction leaves behind: the receipt a
//! wrapper returns depends on the whole ledger state, so the verified code
//! around these wrappers is written to hold for every outcome.

use std::collections::BTreeSet;

use vstd::prelude::*;

use radix_common::crypto::PublicKey;
use radix_common::crypto::Secp256k1PrivateKey;
use radix_common::crypto::Secp256k1PublicKey;
use radix_common::data::manifest::manifest_decode;
use radix_common::data::manifest::ManifestValue;
use radix_common::data::scrypto::scrypto_decode;
use radix_common::math::Decimal;
use radix_common::types::ComponentAddress;
use radix_common::types::FromPublicKey;
use radix_common::types::NodeId;
use radix_common::types::NonFungibleGlobalId;
use radix_common::types::PackageAddress;
use radix_common::types::ResourceAddress;
use radix_engine::blueprints::resource::FungibleVaultBalanceFieldPayload;
use radix_engine::blueprints::resource::FungibleVaultField;
use radix_engine::blueprints::resource::NonFungibleVaultBalanceFieldPayload;
use radix_engine::blueprints::resource::NonFungibleVaultField;
use radix_engine::system::system_db_reader::SystemDatabaseReader;
use radix_engine::transaction::execute_and_commit_transaction;
use radix_engine::transaction::ExecutionConfig;
use radix_engine::transaction::TransactionOutcome;
use radix_engine::transaction::TransactionReceipt;
use radix_engine::transaction::TransactionResult;
use radix_engine::updates::ProtocolBuilder;
use radix_engine::vm::DefaultVmModules;
use radix_engine_interface::api::ModuleId;
use radix_engine_interface::blueprints::account::ACCOUNT_BALANCE_IDENT;
use radix_engine_interface::blueprints::package::PackageDefinition;
use radix_engine_interface::blueprints::resource::FungibleResourceRoles;
use radix_engine_interface::blueprints::resource::OwnerRole;
use radix_engine_interface::object_modules::metadata::ManifestMetadataInit;
use radix_engine_interface::object_modules::ModuleConfig;
use radix_engine_interface::blueprints::transaction_processor::InstructionOutput;
use radix_engine_interface::types::IndexedScryptoValue;
use radix_substate_store_impls::memory_db::InMemorySubstateDatabase;
use radix_substate_store_interface::db_key_mapper::DatabaseKeyMapper;
use radix_substate_store_interface::db_key_mapper::SpreadPrefixKeyMapper;
use radix_substate_store_interface::interface::ListableSubstateDatabase;
use radix_substate_store_interface::interface::SubstateDatabase;
use radix_transactions::builder::ManifestBuilder;
use radix_transactions::model::IntoExecutable;
use radix_transactions::model::TestTransaction;
use radix_transactions::model::TransactionManifestV1;
use radix_transactions::validation::TransactionValidator;

verus! {

#[verifier::external_type_specification]
#[verifier::external_body]
pub struct ExSecp256k1PublicKey(Secp256k1PublicKey);

#[verifier::external_type_specification]
#[verifier::external_body]
pub struct ExComponentAddress(ComponentAddress);

#[verifier::external_type_specification]
#[verifier::external_body]
pub struct ExPackageAddress(PackageAddress);

#[verifier::external_type_specification]
#[verifier::external_body]
pub struct ExResourceAddress(ResourceAddress);

#[verifier::external_type_specification]
#[verifier::external_body]
pub struct ExDecimal(Decimal);

#[verifier::external_type_specification]
#[verifier::external_body]
pub struct ExPackageDefinition(PackageDefinition);

#[verifier::external_type_specification]
#[verifier::external_body]
pub struct ExTransactionReceipt(TransactionReceipt);

#[verifier::external_type_specification]
#[verifier::external_body]
pub struct ExTransactionManifestV1(TransactionManifestV1);

#[verifier::external_type_specification]
#[verifier::external_body]
pub struct ExInMemorySubstateDatabase(InMemorySubstateDatabase);

/// Whether the bytes are one well-formed manifest-encoded value: exactly
/// what `manifest_decode` accepts. The decision depends on the bytes
/// alone; spelling it out would restate the engine's encoding, so it is
/// only named.
pub uninterp spec fn manifest_arg_decodable(bytes: Seq<u8>) -> bool;

/// Every element is one well-formed manifest-encoded value.
pub open spec fn args_decodable(args: Seq<Vec<u8>>) -> bool {
    forall|i: int| 0 <= i < args.len() ==> manifest_arg_decodable(args[i]@)
}

/// Whether the bytes encode one decimal: exactly what `scrypto_decode`
/// accepts for the ledger's numeric type. The decision depends on the
/// bytes alone; spelling it out would restate the engine's encoding, so
/// it is only named.
pub uninterp spec fn decimal_decodable(bytes: Seq<u8>) -> bool;

/// Relies on `InMemorySubstateDatabase::standard` and
/// `ProtocolBuilder::for_simulator`: a fresh in-memory ledger with the
/// simulator network's testing genesis committed, which includes a funded
/// faucet that pays the fees of every transaction this library submits.
#[verifier::external_body]
pub(crate) fn ledger_genesis() -> InMemorySubstateDatabase {
    let mut db = InMemorySubstateDatabase::standard();
    ProtocolBuilder::for_simulator()
        .from_bootstrap_to_latest()
        .commit_each_protocol_update(&mut db);
    db
}

/// Relies on `Secp256k1PrivateKey::from_u64`, which fails only for zero,
/// and on `ComponentAddress::preallocated_account_from_public_key`: the
/// key pair numbered `n` and the address of its preallocated account. The
/// account exists on the ledger as soon as anything is deposited to it.
#[verifier::external_body]
pub(crate) fn derive_account_key(n: u64) -> (r: (Secp256k1PublicKey, ComponentAddress))
    requires
        n >= 1,
{
    let key = Secp256k1PrivateKey::from_u64(n).unwrap().public_key();
    let account =
        ComponentAddress::preallocated_account_from_public_key(&PublicKey::Secp256k1(key));
    (key, account)
}

/// Relies on `ManifestBuilder`'s `lock_fee_from_faucet`,
/// `get_free_xrd_from_faucet` and `try_deposit_entire_worktop_or_abort`: a
/// transaction that asks the testing faucet for its free allowance and
/// deposits all of it into the account.
#[verifier::external_body]
pub(crate) fn build_fund_account_manifest(account: &ComponentAddress) -> TransactionManifestV1 {
    ManifestBuilder::new()
        .lock_fee_from_faucet()
        .get_free_xrd_from_faucet()
        .try_deposit_entire_worktop_or_abort(*account, None)
        .build_no_validate()
}

/// Relies on `ManifestBuilder::publish_package_advanced`: a transaction
/// that publishes the code under the given blueprint definition, with no
/// owner and no metadata.
#[verifier::external_body]
pub(crate) fn build_publish_manifest(
    code: &[u8],
    definition: &PackageDefinition,
) -> TransactionManifestV1 {
    ManifestBuilder::new()
        .lock_fee_from_faucet()
        .publish_package_advanced(
            None,
            code.to_vec(),
            definition.clone(),
            ManifestMetadataInit::default(),
            OwnerRole::None,
        )
        .build_no_validate()
}

/// Relies on `manifest_decode` and `ManifestBuilder::call_function_raw`: a
/// transaction that calls the function with the given encoded arguments
/// and deposits everything the call leaves on the worktop into the
/// account. `None` exactly when some argument is not a well-formed
/// encoded value.
#[verifier::external_body]
pub(crate) fn build_call_function_manifest(
    package: &PackageAddress,
    blueprint_name: &str,
    function_name: &str,
    args: &Vec<Vec<u8>>,
    deposit_to: &ComponentAddress,
) -> (r: Option<TransactionManifestV1>)
    ensures
        r is Some <==> forall|i: int| 0 <= i < args@.len() ==> manifest_arg_decodable(args@[i]@),
{
    let mut fields = Vec::new();
    for a in args.iter() {
        fields.push(manifest_decode::<ManifestValue>(a).ok()?);
    }
    Some(
        ManifestBuilder::new()
            .lock_fee_from_faucet()
            .call_function_raw(*package, blueprint_name, function_name, ManifestValue::Tuple {
                fields,
            })
            .try_deposit_entire_worktop_or_abort(*deposit_to, None)
            .build_no_validate(),
    )
}

/// Relies on `manifest_decode` and `ManifestBuilder::call_method_raw`: a
/// transaction that calls the method with the given encoded arguments and
/// deposits everything the call leaves on the worktop into the account.
/// `None` exactly when some argument is not a well-formed encoded value.
#[verifier::external_body]
pub(crate) fn build_call_method_manifest(
    component: &ComponentAddress,
    method_name: &str,
    args: &Vec<Vec<u8>>,
    deposit_to: &ComponentAddress,
) -> (r: Option<TransactionManifestV1>)
    ensures
        r is Some <==> forall|i: int| 0 <= i < args@.len() ==> manifest_arg_decodable(args@[i]@),
{
    let mut fields = Vec::new();
    for a in args.iter() {
        fields.push(manifest_decode::<ManifestValue>(a).ok()?);
    }
    Some(
        ManifestBuilder::new()
            .lock_fee_from_faucet()
            .call_method_raw(*component, method_name, ManifestValue::Tuple { fields })
            .try_deposit_entire_worktop_or_abort(*deposit_to, None)
            .build_no_validate(),
    )
}

/// As [`build_call_method_manifest`], but relies additionally on
/// `ManifestBuilder::create_proof_from_account_of_amount` to put a proof
/// of one unit of the badge resource, drawn from the acting account, on
/// the auth zone before the call.
#[verifier::external_body]
pub(crate) fn build_call_method_auth_manifest(
    account: &ComponentAddress,
    badge: &ResourceAddress,
    component: &ComponentAddress,
    method_name: &str,
    args: &Vec<Vec<u8>>,
) -> (r: Option<TransactionManifestV1>)
    ensures
        r is Some <==> forall|i: int| 0 <= i < args@.len() ==> manifest_arg_decodable(args@[i]@),
{
    let mut fields = Vec::new();
    for a in args.iter() {
        fields.push(manifest_decode::<ManifestValue>(a).ok()?);
    }
    Some(
        ManifestBuilder::new()
            .lock_fee_from_faucet()
            .create_proof_from_account_of_amount(*account, *badge, Decimal::ONE)
            .call_method_raw(*component, method_name, ManifestValue::Tuple { fields })
            .try_deposit_entire_worktop_or_abort(*account, None)
            .build_no_validate(),
    )
}

/// Relies on the account blueprint's `balance` method: a transaction
/// whose second instruction returns the account's balance of the resource
/// as an encoded decimal.
#[verifier::external_body]
pub(crate) fn build_balance_manifest(
    component: &ComponentAddress,
    resource: &ResourceAddress,
) -> TransactionManifestV1 {
    ManifestBuilder::new()
        .lock_fee_from_faucet()
        .call_method(*component, ACCOUNT_BALANCE_IDENT, (*resource,))
        .build_no_validate()
}

/// Relies on `ManifestBuilder::create_fungible_resource`: a transaction
/// that creates an unowned fungible resource of 18 decimal places with
/// the given fixed initial supply and deposits all of it into the
/// account.
#[verifier::external_body]
pub(crate) fn build_create_token_manifest(
    max_supply: &Decimal,
    deposit_to: &ComponentAddress,
) -> TransactionManifestV1 {
    ManifestBuilder::new()
        .lock_fee_from_faucet()
        .create_fungible_resource(
            OwnerRole::None,
            true,
            18,
            FungibleResourceRoles::default(),
            ModuleConfig::default(),
            Some(*max_supply),
        )
        .try_deposit_entire_worktop_or_abort(*deposit_to, None)
        .build_no_validate()
}

/// Relies on `ManifestBuilder::withdraw_from_account`: a transaction that
/// withdraws the amount of the resource from the sender's account and
/// deposits everything withdrawn into the recipient's account.
#[verifier::external_body]
pub(crate) fn build_transfer_manifest(
    from: &ComponentAddress,
    resource: &ResourceAddress,
    amount: &Decimal,
    to: &ComponentAddress,
) -> TransactionManifestV1 {
    ManifestBuilder::new()
        .lock_fee_from_faucet()
        .withdraw_from_account(*from, *resource, *amount)
        .try_deposit_entire_worktop_or_abort(*to, None)
        .build_no_validate()
}

/// Relies on `TestTransaction::new_v1_from_nonce`, `IntoExecutable` and
/// `execute_and_commit_transaction`: runs the manifest against the ledger
/// under the given nonce, carrying the signer's signature badge as the
/// transaction's proof when one is given, and commits whatever the ledger
/// decided. `None` when the manifest cannot be prepared at all, in which
/// case the ledger is untouched.
#[verifier::external_body]
pub(crate) fn ledger_execute(
    db: &mut InMemorySubstateDatabase,
    manifest: TransactionManifestV1,
    signer: Option<&Secp256k1PublicKey>,
    nonce: u32,
    trace: bool,
) -> Option<TransactionReceipt> {
    let mut proofs: BTreeSet<NonFungibleGlobalId> = BTreeSet::new();
    if let Some(key) = signer {
        proofs.insert(NonFungibleGlobalId::from_public_key(key));
    }
    let tx = TestTransaction::new_v1_from_nonce(manifest, nonce, proofs);
    let executable = tx.into_executable(&TransactionValidator::new_for_latest_simulator()).ok()?;
    let config = ExecutionConfig::for_test_transaction().with_kernel_trace(trace);
    Some(execute_and_commit_transaction(db, &DefaultVmModules::default(), &config, executable))
}

/// Relies on `TransactionReceipt::result` and `CommitResult::outcome`:
/// `Ok` exactly when the transaction was committed with a successful
/// outcome, else the engine's rejection or failure printed as text.
#[verifier::external_body]
pub(crate) fn receipt_outcome(receipt: &TransactionReceipt) -> Result<(), String> {
    match &receipt.result {
        TransactionResult::Commit(c) => match &c.outcome {
            TransactionOutcome::Success(_) => Ok(()),
            TransactionOutcome::Failure(e) => Err(format!("{:?}", e)),
        },
        other => Err(format!("{:?}", other)),
    }
}

/// Relies on `TransactionOutcome::Success`: the bytes each instruction
/// returned, one entry per instruction, empty bytes for instructions that
/// returned nothing; empty when the transaction did not succeed.
#[verifier::external_body]
pub(crate) fn receipt_outputs(receipt: &TransactionReceipt) -> Vec<Vec<u8>> {
    match &receipt.result {
        TransactionResult::Commit(c) => match &c.outcome {
            TransactionOutcome::Success(outs) => outs.iter().map(|o| match o {
                InstructionOutput::CallReturn(b) => b.clone(),
                InstructionOutput::None => Vec::new(),
            }).collect(),
            TransactionOutcome::Failure(_) => Vec::new(),
        },
        _ => Vec::new(),
    }
}

/// Relies on `CommitResult::new_component_addresses`: the component
/// addresses a committed transaction created, in creation order; empty
/// when nothing was committed.
#[verifier::external_body]
pub(crate) fn receipt_new_components(receipt: &TransactionReceipt) -> Vec<ComponentAddress> {
    match &receipt.result {
        TransactionResult::Commit(c) => c.new_component_addresses().iter().cloned().collect(),
        _ => Vec::new(),
    }
}

/// Relies on `CommitResult::new_resource_addresses`: the resource
/// addresses a committed transaction created, in creation order; empty
/// when nothing was committed.
#[verifier::external_body]
pub(crate) fn receipt_new_resources(receipt: &TransactionReceipt) -> Vec<ResourceAddress> {
    match &receipt.result {
        TransactionResult::Commit(c) => c.new_resource_addresses().iter().cloned().collect(),
        _ => Vec::new(),
    }
}

/// Relies on `CommitResult::new_package_addresses`: the package
/// addresses a committed transaction created, in creation order; empty
/// when nothing was committed.
#[verifier::external_body]
pub(crate) fn receipt_new_packages(receipt: &TransactionReceipt) -> Vec<PackageAddress> {
    match &receipt.result {
        TransactionResult::Commit(c) => c.new_package_addresses().iter().cloned().collect(),
        _ => Vec::new(),
    }
}

/// Relies on `scrypto_decode`: the decimal that the bytes encode, and
/// `Some` exactly when they encode one.
#[verifier::external_body]
pub(crate) fn decode_decimal(bytes: &[u8]) -> (r: Option<Decimal>)
    ensures
        r is Some <==> decimal_decodable(bytes@),
{
    scrypto_decode::<Decimal>(bytes).ok()
}

/// Relies on `ComponentAddress::as_node_id`: the thirty bytes that
/// identify the component's node in the ledger's state store.
#[verifier::external_body]
pub(crate) fn component_node_bytes(address: &ComponentAddress) -> (r: Vec<u8>)
    ensures
        r@.len() == 30,
{
    address.as_node_id().0.to_vec()
}

/// Relies on `SpreadPrefixKeyMapper`, `ListableSubstateDatabase` and
/// `IndexedScryptoValue::from_slice`, the engine's reading of its own
/// self-describing value encoding: the ids of every node that the
/// substates stored under this node own, across all of the node's
/// partitions, in store order. Every returned id is thirty bytes.
#[verifier::external_body]
pub(crate) fn node_child_refs(db: &InMemorySubstateDatabase, id: &Vec<u8>) -> (r: Vec<Vec<u8>>)
    requires
        id@.len() == 30,
    ensures
        forall|i: int| 0 <= i < r@.len() ==> r@[i]@.len() == 30,
{
    let node = NodeId(id.as_slice().try_into().unwrap());
    let node_key = SpreadPrefixKeyMapper::to_db_node_key(&node);
    let mut out: Vec<Vec<u8>> = Vec::new();
    for pk in db.list_partition_keys() {
        if pk.node_key != node_key {
            continue;
        }
        for (_key, value) in db.list_raw_values_from_db_key(&pk, None) {
            if let Ok(v) = IndexedScryptoValue::from_slice(&value) {
                out.extend(v.owned_nodes().iter().map(|n| n.0.to_vec()));
            }
        }
    }
    out
}

/// Relies on `NodeId::is_internal_fungible_vault`,
/// `SystemDatabaseReader::read_typed_object_field` on the vault's balance
/// field, and `ObjectInfo::try_get_outer_object`: when the node is a
/// vault, the address of the resource it holds and the amount in it;
/// `None` for any other node.
#[verifier::external_body]
pub(crate) fn vault_info(
    db: &InMemorySubstateDatabase,
    id: &Vec<u8>,
) -> Option<(ResourceAddress, Decimal)>
    requires
        id@.len() == 30,
{
    let node = NodeId(id.as_slice().try_into().unwrap());
    let reader = SystemDatabaseReader::new(db);
    let amount = if node.is_internal_fungible_vault() {
        let field = FungibleVaultField::Balance.into();
        let b: FungibleVaultBalanceFieldPayload = reader.read_typed_object_field(&node, ModuleId::Main, field).ok()?;
        b.fully_update_and_into_latest_version().amount()
    } else if node.is_internal_non_fungible_vault() {
        let field = NonFungibleVaultField::Balance.into();
        let b: NonFungibleVaultBalanceFieldPayload = reader.read_typed_object_field(&node, ModuleId::Main, field).ok()?;
        b.fully_update_and_into_latest_version().amount
    } else {
        return None;
    };
    let info = reader.get_object_info(node).ok()?;
    Some((ResourceAddress::new_or_panic(info.try_get_outer_object()?.into()), amount))
}

/// Relies on the derived equality of `ResourceAddress`, which compares
/// the address bytes, and two resource addresses are the same resource
/// exactly when their bytes agree.
#[verifier::external_body]
pub(crate) fn resource_eq(a: &ResourceAddress, b: &ResourceAddress) -> (r: bool)
    ensures
        r == (a == b),
{
    a == b
}

/// Relies on `Decimal::ZERO`: the zero amount.
#[verifier::external_body]
pub(crate) fn decimal_zero() -> Decimal {
    Decimal::ZERO
}

} // verus!
