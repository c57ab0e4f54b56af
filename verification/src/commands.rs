//! Example command lines that call the signer contract with the `near` tool.

use vstd::prelude::*;
use vstd::string::StringExecFns;

verus! {

/// What every call ends with: the gas attached and the deposit.
pub const CALL_TAIL: &'static str = " --gas 300000000000000 --deposit 1";

/// A JSON text between single quotes, as a shell takes it for one argument.
pub open spec fn quoted(json: Seq<char>) -> Seq<char> {
    "'"@ + json + "'"@
}

/// The command line that calls `method` of the contract `contract` in the
/// name of `caller`, with `arguments` where the method takes any.
pub open spec fn call_line(
    contract: Seq<char>,
    method: Seq<char>,
    arguments: Option<Seq<char>>,
    caller: Seq<char>,
) -> Seq<char> {
    "near call "@ + contract + " "@ + method + (match arguments {
        Some(arguments) => " "@ + arguments,
        None => Seq::empty(),
    }) + " --accountId "@ + caller + CALL_TAIL@
}

/// The commands of a list, each followed by an empty line.
pub open spec fn script_of(commands: Seq<String>) -> Seq<char>
    decreases commands.len(),
{
    if commands.len() == 0 {
        Seq::empty()
    } else {
        script_of(commands.drop_last()) + commands.last()@ + "\n\n"@
    }
}

/// A JSON text between single quotes.
pub fn quote(json: &str) -> (r: String)
    ensures
        r@ == quoted(json@),
{
    let mut out = String::from_str("'");
    out.append(json);
    out.append("'");
    out
}

/// The command line that calls `method` of the contract `contract` in the
/// name of `caller`, with `arguments` where the method takes any.
pub fn contract_call(contract: &str, method: &str, arguments: Option<&str>, caller: &str) -> (r: String)
    ensures
        r@ == call_line(
            contract@,
            method@,
            match arguments {
                Some(a) => Some(a@),
                None => None,
            },
            caller@,
        ),
{
    let mut out = String::from_str("near call ");
    out.append(contract);
    out.append(" ");
    out.append(method);
    match arguments {
        Some(arguments) => {
            out.append(" ");
            out.append(arguments);
            assert(out@ == "near call "@ + contract@ + " "@ + method@ + (" "@ + arguments@));
        },
        None => {
            assert(out@ == "near call "@ + contract@ + " "@ + method@ + Seq::<char>::empty());
        },
    }
    out.append(" --accountId ");
    out.append(caller);
    out.append(CALL_TAIL);
    out
}

/// The command that asks the contract to sign the request with the given
/// JSON text.
pub fn sign_command(contract: &str, request_json: &str, caller: &str) -> (r: String)
    ensures
        r@ == call_line(contract@, "sign"@, Some(quoted(request_json@)), caller@),
{
    let arguments = quote(request_json);
    contract_call(contract, "sign", Some(arguments.as_str()), caller)
}

/// The command that asks the contract for its public key.
pub fn public_key_command(contract: &str, caller: &str) -> (r: String)
    ensures
        r@ == call_line(contract@, "public_key"@, None, caller@),
{
    contract_call(contract, "public_key", None, caller)
}

/// The command that asks the contract for the public key derived for the
/// path and predecessor in the given JSON text.
pub fn derived_public_key_command(contract: &str, arguments_json: &str, caller: &str) -> (r: String)
    ensures
        r@ == call_line(contract@, "derived_public_key"@, Some(quoted(arguments_json@)), caller@),
{
    let arguments = quote(arguments_json);
    contract_call(contract, "derived_public_key", Some(arguments.as_str()), caller)
}

/// The text of a script that holds the commands, each followed by an empty
/// line.
pub fn script(commands: &Vec<String>) -> (r: String)
    ensures
        r@ == script_of(commands@),
{
    let mut out = String::new();
    let mut i: usize = 0;
    while i < commands.len()
        invariant
            i <= commands.len(),
            out@ == script_of(commands@.take(i as int)),
        decreases commands.len() - i,
    {
        proof {
            assert(commands@.take(i + 1).drop_last() == commands@.take(i as int));
            assert(commands@.take(i + 1).last() == commands@[i as int]);
        }
        out.append(commands[i].as_str());
        out.append("\n\n");
        i = i + 1;
    }
    assert(commands@.take(commands@.len() as int) == commands@);
    out
}

} // verus!
