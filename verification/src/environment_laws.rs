//! Where each part of the configuration comes from and goes to.

use crate::environment::{ClientOptions, Environment, Property, Variables};
use vstd::prelude::*;
use vstd::string::*;

verus! {

/// Each variable that is set is in force where it belongs, and nowhere else; an
/// endpoint or pool that is not set has its default, and the bootnode, the addresses
/// and the secrets have none.
pub proof fn every_variable_goes_to_its_own_place(variables: Variables, settled: Environment)
    requires
        call_ensures(Environment::from_variables, (variables,), settled),
    ensures
        settled.static_origin@ == match variables.static_origin {
            Some(set) => set@,
            None => "http://127.0.0.1:8099"@,
        },
        settled.rpc_url@ == match variables.rpc_url {
            Some(set) => set@,
            None => "https://soroban-testnet.stellar.org"@,
        },
        settled.pool_contract@ == match variables.pool_contract {
            Some(set) => set@,
            None => "CCPNFGD7A6LJ7H4FGFLTBSU6XGCPFR5DN76N5WNXOTDPOKASJIU4EMFV"@,
        },
        settled.bootnode_url == variables.bootnode_url,
        settled.account_a.label@ == "A"@,
        settled.account_b.label@ == "B"@,
        settled.account_c.label@ == "C"@,
        settled.account_d.label@ == "D"@,
        settled.account_a.address == variables.account_a_address,
        settled.account_b.address == variables.account_b_address,
        settled.account_c.address == variables.account_c_address,
        settled.account_d.address == variables.account_d_address,
        settled.account_a.secret == variables.account_a_secret,
        settled.account_b.secret == variables.account_b_secret,
        settled.account_c.secret == variables.account_c_secret,
        settled.account_d.secret == variables.account_d_secret,
{
}

/// The client gets the configured endpoints: the RPC endpoint, the bootnode if there is
/// one, the circuits of the static server, and the prover worker that it was given.
pub proof fn the_client_gets_the_configured_endpoints(
    env: &Environment,
    prover_url: String,
    options: ClientOptions,
    circuits: String,
)
    requires
        call_ensures(Environment::client_options, (env, prover_url), options),
        call_ensures(Environment::test_circuits_base_url, (env,), circuits),
    ensures
        options.rpc_url@ == env.rpc_url@,
        options.prover_url@ == prover_url@,
        options.circuits_base_url@ == circuits@,
        circuits@ == env.static_origin@ + "/circuits/"@,
        options.bootnode_url is Some <==> env.bootnode_url is Some,
        options.bootnode_url matches Some(url) ==> url@ == env.bootnode_url->0@,
{
}

/// The pool session has one option: the configured pool.
pub proof fn the_pool_session_names_the_configured_pool(env: &Environment, options: Vec<Property>)
    requires
        call_ensures(Environment::open_pool, (env,), options),
    ensures
        options@.len() == 1,
        options@[0].name@ == "poolContract"@,
        options@[0].value@ == env.pool_contract@,
{
    let list = crate::environment::property_views(options@);
    assert(list.len() == 1);
    assert(list[0] == ("poolContract"@, env.pool_contract@));
}

} // verus!
