use radix_common::constants::XRD;
use radix_common::data::manifest::manifest_encode;
use radix_common::math::Decimal;
use radix_engine_interface::blueprints::package::PackageDefinition;

use scrypto_unit::EnvError;
use scrypto_unit::TestEnv;

#[test]
fn test_create_user() {
    let mut test_env = TestEnv::new();

    test_env.create_user("alice").unwrap();
    test_env.create_user("bob").unwrap();
    test_env.create_user("carol").unwrap();

    assert!(test_env.has_user("alice"));
    assert!(test_env.has_user("bob"));
    assert!(test_env.has_user("carol"));
    assert_eq!(test_env.user_count(), 3);
}

#[test]
fn test_get_user() {
    let mut test_env = TestEnv::new();
    test_env.create_user("alice").unwrap();
    test_env.get_user("alice").unwrap();
}

#[test]
fn test_acting_as() {
    let mut test_env = TestEnv::new();

    let user = test_env.create_user("alice").unwrap();
    test_env.acting_as("alice").unwrap();
    let current = test_env.get_current_user().unwrap();

    assert_eq!(user.account, current.account);
    assert_eq!(user.key, current.key);
}

#[test]
fn test_create_token_send_amount() {
    let mut test_env = TestEnv::new();

    let _admin = test_env.create_user("admin").unwrap();
    let user = test_env.create_user("user").unwrap();

    test_env.acting_as("admin").unwrap();

    let token = test_env.create_token(Decimal::from(10000u32)).unwrap();
    let transfer_receipt = test_env
        .transfer_resource(Decimal::from(10u32), &token, &user)
        .unwrap();
    println!("{:?}", transfer_receipt.result);
    assert!(transfer_receipt.result.is_ok());
}

#[test]
fn unknown_names_are_errors_never_defaults() {
    let mut test_env = TestEnv::new();
    assert_eq!(test_env.get_user("nobody").unwrap_err(), EnvError::NotFound);
    assert_eq!(
        test_env.get_package("nothing").unwrap_err(),
        EnvError::NotFound
    );
    assert_eq!(test_env.acting_as("nobody").unwrap_err(), EnvError::NotFound);
    assert_eq!(
        test_env.using_package("nothing").unwrap_err(),
        EnvError::NotFound
    );
}

#[test]
fn unset_selections_are_errors_never_defaults() {
    let mut test_env = TestEnv::new();
    assert_eq!(
        test_env.get_current_user().unwrap_err(),
        EnvError::NoCurrentUser
    );
    assert_eq!(
        test_env.get_current_package().unwrap_err(),
        EnvError::NoCurrentPackage
    );
    assert_eq!(
        test_env.create_token(Decimal::from(1u32)).unwrap_err(),
        EnvError::NoCurrentUser
    );

    test_env.create_user("alice").unwrap();
    assert_eq!(
        test_env
            .call_function("Hello", "instantiate", vec![])
            .unwrap_err(),
        EnvError::NoCurrentPackage
    );
}

#[test]
fn duplicate_user_name_is_refused() {
    let mut test_env = TestEnv::new();
    let first = test_env.create_user("alice").unwrap();
    assert_eq!(
        test_env.create_user("alice").unwrap_err(),
        EnvError::DuplicateName
    );
    assert_eq!(test_env.user_count(), 1);
    let still = test_env.get_user("alice").unwrap();
    assert_eq!(first.account, still.account);
}

#[test]
fn created_token_supply_is_visible_in_balances() {
    let mut test_env = TestEnv::new();
    let admin = test_env.create_user("admin").unwrap();

    let token = test_env.create_token(Decimal::from(10000u32)).unwrap();

    let balances = test_env.get_all_balances(admin.account);
    let entry = balances
        .iter()
        .find(|b| b.resource == token)
        .expect("the new token should be among the account's balances");
    assert_eq!(entry.amount, Decimal::from(10000u32));
    assert_eq!(
        test_env.get_balance(admin.account, token),
        Decimal::from(10000u32)
    );
}

#[test]
fn transfer_conserves_balances() {
    let mut test_env = TestEnv::new();
    let admin = test_env.create_user("admin").unwrap();
    let user = test_env.create_user("user").unwrap();
    test_env.acting_as("admin").unwrap();

    let token = test_env.create_token(Decimal::from(10000u32)).unwrap();
    let receipt = test_env
        .transfer_resource(Decimal::from(10u32), &token, &user)
        .unwrap();
    assert!(receipt.result.is_ok());

    assert_eq!(
        test_env.get_balance(admin.account, token),
        Decimal::from(9990u32)
    );
    assert_eq!(
        test_env.get_balance(user.account, token),
        Decimal::from(10u32)
    );

    // The direct balance query on the account agrees with the walker.
    assert_eq!(
        test_env.get_amount_for_rd(admin.account, token).unwrap(),
        Decimal::from(9990u32)
    );
    assert_eq!(
        test_env.get_amount_for_rd(user.account, token).unwrap(),
        Decimal::from(10u32)
    );
}

#[test]
fn overdraft_fails_in_the_receipt_not_the_harness() {
    let mut test_env = TestEnv::new();
    let admin = test_env.create_user("admin").unwrap();
    let user = test_env.create_user("user").unwrap();

    let token = test_env.create_token(Decimal::from(100u32)).unwrap();
    let receipt = test_env
        .transfer_resource(Decimal::from(1000u32), &token, &user)
        .unwrap();
    assert!(receipt.result.is_err());

    assert_eq!(
        test_env.get_balance(admin.account, token),
        Decimal::from(100u32)
    );
    // No vault of the token exists under the recipient: zero, not an error.
    assert_eq!(test_env.get_balance(user.account, token), Decimal::ZERO);
}

#[test]
fn failed_publish_leaves_the_registry_untouched() {
    let mut test_env = TestEnv::new();
    let err = test_env
        .publish_package("pkg", b"not a wasm module", PackageDefinition::default())
        .unwrap_err();
    assert_eq!(err, EnvError::ExecutionFailed);
    assert_eq!(test_env.get_package("pkg").unwrap_err(), EnvError::NotFound);
    assert_eq!(
        test_env.get_current_package().unwrap_err(),
        EnvError::NoCurrentPackage
    );
}

#[test]
fn malformed_arguments_are_refused_before_submission() {
    let mut test_env = TestEnv::new();
    let admin = test_env.create_user("admin").unwrap();
    let err = test_env
        .call_method(admin.account, "balance", vec![vec![0xFF]])
        .unwrap_err();
    assert_eq!(err, EnvError::InvalidArguments);
}

const PACKAGE: &str = "hello-world";

/// The smallest module the ledger accepts as package code: one memory,
/// exported under the name the engine expects, and nothing else.
fn minimal_package_code() -> Vec<u8> {
    vec![
        0x00, 0x61, 0x73, 0x6D, 0x01, 0x00, 0x00, 0x00, // module header
        0x05, 0x03, 0x01, 0x00, 0x01, // one memory of one page
        0x07, 0x0A, 0x01, 0x06, 0x6D, 0x65, 0x6D, 0x6F, 0x72, 0x79, 0x02,
        0x00, // export "memory"
    ]
}

#[test]
fn test_build_package() {
    let mut test_env = TestEnv::new();

    test_env.create_user("admin").unwrap();
    test_env.create_user("user").unwrap();

    test_env.acting_as("admin").unwrap();
    let package = minimal_package_code();

    test_env
        .publish_package(PACKAGE, &package, PackageDefinition::default())
        .unwrap();
    test_env.using_package(PACKAGE).unwrap();
    test_env.get_package(PACKAGE).unwrap();
}

#[test]
fn package_selection_is_first_write_wins() {
    let mut test_env = TestEnv::new();
    test_env.create_user("admin").unwrap();

    let first = test_env
        .publish_package("one", &minimal_package_code(), PackageDefinition::default())
        .unwrap();
    let second = test_env
        .publish_package("two", &minimal_package_code(), PackageDefinition::default())
        .unwrap();
    assert_ne!(first, second);

    // The first package published stays current until selected away.
    assert_eq!(test_env.get_current_package().unwrap(), first);
    test_env.using_package("two").unwrap();
    assert_eq!(test_env.get_current_package().unwrap(), second);
}

#[test]
fn user_selection_is_first_write_wins() {
    let mut test_env = TestEnv::new();
    let alice = test_env.create_user("alice").unwrap();
    test_env.create_user("bob").unwrap();

    let current = test_env.get_current_user().unwrap();
    assert_eq!(current.account, alice.account);
}

const BLUEPRINT: &str = "Hello";

#[test]
/// Calling a blueprint function that does not exist fails inside the
/// receipt, not in the harness.
fn test_package_functions_error() {
    let mut test_env = TestEnv::new();

    test_env.create_user("admin").unwrap();
    test_env.create_user("user").unwrap();

    test_env.acting_as("admin").unwrap();
    let package = minimal_package_code();

    test_env
        .publish_package(PACKAGE, &package, PackageDefinition::default())
        .unwrap();
    // no need to call using_package: the package just published is the default.

    let instantiate_receipt = test_env
        .call_function(BLUEPRINT, "instantiate_other", vec![])
        .unwrap();
    assert!(instantiate_receipt.result.is_err());
}

#[test]
fn badge_gated_call_succeeds_with_the_badge_held() {
    let mut test_env = TestEnv::new();
    let admin = test_env.create_user("admin").unwrap();
    let badge = test_env.create_token(Decimal::from(100u32)).unwrap();

    let args = vec![manifest_encode(&XRD).unwrap()];
    let receipt = test_env
        .call_method_auth(admin.account, "balance", badge, args)
        .unwrap();
    assert!(receipt.result.is_ok());
}

#[test]
fn badge_gated_call_fails_without_the_badge() {
    let mut test_env = TestEnv::new();
    test_env.create_user("admin").unwrap();
    let badge = test_env.create_token(Decimal::from(100u32)).unwrap();

    let user = test_env.create_user("user").unwrap();
    test_env.acting_as("user").unwrap();

    let args = vec![manifest_encode(&XRD).unwrap()];
    let receipt = test_env
        .call_method_auth(user.account, "balance", badge, args)
        .unwrap();
    assert!(receipt.result.is_err());
}

/// A module with one function under the blueprint naming scheme: it
/// ignores its argument and returns the three bytes at offset zero — an
/// encoded unit value placed there by the data segment — as its result
/// slice.
fn single_function_package_code() -> Vec<u8> {
    vec![
        0x00, 0x61, 0x73, 0x6D, 0x01, 0x00, 0x00, 0x00, // module header
        0x01, 0x06, 0x01, 0x60, 0x01, 0x7E, 0x01, 0x7E, // one type: (i64) -> i64
        0x03, 0x02, 0x01, 0x00, // one function of that type
        0x05, 0x03, 0x01, 0x00, 0x01, // one memory of one page
        0x07, 0x1E, 0x02, 0x06, 0x6D, 0x65, 0x6D, 0x6F, 0x72, 0x79, 0x02, 0x00, 0x11, 0x48,
        0x65, 0x6C, 0x6C, 0x6F, 0x5F, 0x69, 0x6E, 0x73, 0x74, 0x61, 0x6E, 0x74, 0x69, 0x61,
        0x74, 0x65, 0x00, 0x00, // exports: "memory" and the function
        0x0A, 0x06, 0x01, 0x04, 0x00, 0x42, 0x03, 0x0B, // body: i64.const 3
        0x0B, 0x09, 0x01, 0x00, 0x41, 0x00, 0x0B, 0x03, 0x5C, 0x21, 0x00, // data: unit value
    ]
}

#[test]
fn test_package_functions() {
    let mut test_env = TestEnv::new();

    test_env.create_user("admin").unwrap();
    test_env.create_user("user").unwrap();

    test_env.acting_as("admin").unwrap();
    let package = single_function_package_code();

    test_env
        .publish_package(
            PACKAGE,
            &package,
            PackageDefinition::new_single_function_test_definition(BLUEPRINT, "instantiate"),
        )
        .unwrap();
    // no need to call using_package: the package just published is the default.

    let instantiate_receipt = test_env
        .call_function(BLUEPRINT, "instantiate", vec![])
        .unwrap();
    println!("{:?}", instantiate_receipt.result);
    assert!(instantiate_receipt.result.is_ok());
}
