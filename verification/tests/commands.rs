use mpc_recovery::commands::{
    contract_call, derived_public_key_command, public_key_command, quote, script, sign_command,
    CALL_TAIL,
};

#[test]
fn json_is_quoted_for_the_shell() {
    assert_eq!(quote("{\"a\":1}"), "'{\"a\":1}'");
    assert_eq!(quote(""), "''");
}

#[test]
fn sign_command_calls_sign_with_the_request() {
    let request = "{\"request\":{\"payload\":[1,2],\"path\":\"test\",\"key_version\":0}}";
    assert_eq!(
        sign_command("v1.signer-dev.testnet", request, "alexkushnir.testnet"),
        "near call v1.signer-dev.testnet sign \
         '{\"request\":{\"payload\":[1,2],\"path\":\"test\",\"key_version\":0}}' \
         --accountId alexkushnir.testnet --gas 300000000000000 --deposit 1"
    );
}

#[test]
fn public_key_command_takes_no_arguments() {
    assert_eq!(
        public_key_command("v1.signer-dev.testnet", "alexkushnir.testnet"),
        "near call v1.signer-dev.testnet public_key --accountId alexkushnir.testnet \
         --gas 300000000000000 --deposit 1"
    );
}

#[test]
fn derived_public_key_command_names_path_and_predecessor() {
    let arguments = "{\"path\":\"test\",\"predecessor\":\"alexkushnir.testnet\"}";
    assert_eq!(
        derived_public_key_command("v1.signer-dev.testnet", arguments, "alexkushnir.testnet"),
        "near call v1.signer-dev.testnet derived_public_key \
         '{\"path\":\"test\",\"predecessor\":\"alexkushnir.testnet\"}' \
         --accountId alexkushnir.testnet --gas 300000000000000 --deposit 1"
    );
}

#[test]
fn contract_call_puts_the_parts_in_order() {
    assert_eq!(
        contract_call("c", "m", Some("x y"), "who"),
        format!("near call c m x y --accountId who{}", CALL_TAIL)
    );
    assert_eq!(contract_call("c", "m", None, "who"), format!("near call c m --accountId who{}", CALL_TAIL));
    assert_eq!(CALL_TAIL, " --gas 300000000000000 --deposit 1");
}

#[test]
fn script_separates_commands_by_empty_lines() {
    assert_eq!(script(&vec!["one".to_string(), "two".to_string()]), "one\n\ntwo\n\n");
    assert_eq!(script(&vec!["only".to_string()]), "only\n\n");
    assert_eq!(script(&Vec::new()), "");
}
