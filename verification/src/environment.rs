//! What the end-to-end tests are configured with: endpoints, the pool under test
//! and the test accounts.

use vstd::prelude::*;
use vstd::string::*;

verus! {

/// Origin of the static server when none is configured.
pub const DEFAULT_STATIC_ORIGIN: &'static str = "http://127.0.0.1:8099";

/// Testnet RPC endpoint when none is configured.
pub const DEFAULT_RPC_URL: &'static str = "https://soroban-testnet.stellar.org";

/// Pool under test when none is configured: the native XLM pool, which requires
/// no membership leaf.
pub const DEFAULT_POOL_CONTRACT: &'static str =
    "CCPNFGD7A6LJ7H4FGFLTBSU6XGCPFR5DN76N5WNXOTDPOKASJIU4EMFV";

/// Passphrase of the test network.
pub const TESTNET_PASSPHRASE: &'static str = "Test SDF Network ; September 2015";

/// Amount seeded per setup deposit, in stroops (0.1 XLM).
pub const SEED_DEPOSIT_STROOPS: u128 = 1_000_000;

/// Amount moved by the transfer and withdraw flows, in stroops.
pub const FLOW_AMOUNT_STROOPS: u128 = 500_000;

/// A test account: its label, and its address and secret where they are
/// configured.
#[derive(Clone, Copy, Debug, PartialEq, Eq)]
pub struct TestAccount {
    pub label: &'static str,
    pub address: Option<&'static str>,
    pub secret: Option<&'static str>,
}

/// The configuration variables, each set or not.
#[derive(Clone, Copy, Debug, PartialEq, Eq)]
pub struct Variables {
    pub static_origin: Option<&'static str>,
    pub rpc_url: Option<&'static str>,
    pub bootnode_url: Option<&'static str>,
    pub pool_contract: Option<&'static str>,
    pub account_a_address: Option<&'static str>,
    pub account_a_secret: Option<&'static str>,
    pub account_b_address: Option<&'static str>,
    pub account_b_secret: Option<&'static str>,
    pub account_c_address: Option<&'static str>,
    pub account_c_secret: Option<&'static str>,
    pub account_d_address: Option<&'static str>,
    pub account_d_secret: Option<&'static str>,
}

/// The configuration in force.
#[derive(Clone, Copy, Debug, PartialEq, Eq)]
pub struct Environment {
    pub static_origin: &'static str,
    pub rpc_url: &'static str,
    /// Archive RPC for history that the RPC endpoint no longer retains. There is
    /// no default.
    pub bootnode_url: Option<&'static str>,
    pub pool_contract: &'static str,
    pub account_a: TestAccount,
    pub account_b: TestAccount,
    pub account_c: TestAccount,
    pub account_d: TestAccount,
}

/// The value of a variable, or its default.
pub open spec fn value_or(variable: Option<&'static str>, default: &'static str) -> &'static str {
    match variable {
        Some(value) => value,
        None => default,
    }
}

fn pick(variable: Option<&'static str>, default: &'static str) -> (r: &'static str)
    ensures
        r == value_or(variable, default),
{
    match variable {
        Some(value) => value,
        None => default,
    }
}

impl Environment {
    /// Settles the configuration: what is not set takes its default, and the four
    /// accounts get their labels.
    pub fn from_variables(variables: Variables) -> (r: Self)
        ensures
            r.static_origin == value_or(variables.static_origin, DEFAULT_STATIC_ORIGIN),
            r.rpc_url == value_or(variables.rpc_url, DEFAULT_RPC_URL),
            r.bootnode_url == variables.bootnode_url,
            r.pool_contract == value_or(variables.pool_contract, DEFAULT_POOL_CONTRACT),
            r.account_a == (TestAccount {
                label: "A",
                address: variables.account_a_address,
                secret: variables.account_a_secret,
            }),
            r.account_b == (TestAccount {
                label: "B",
                address: variables.account_b_address,
                secret: variables.account_b_secret,
            }),
            r.account_c == (TestAccount {
                label: "C",
                address: variables.account_c_address,
                secret: variables.account_c_secret,
            }),
            r.account_d == (TestAccount {
                label: "D",
                address: variables.account_d_address,
                secret: variables.account_d_secret,
            }),
    {
        Environment {
            static_origin: pick(variables.static_origin, DEFAULT_STATIC_ORIGIN),
            rpc_url: pick(variables.rpc_url, DEFAULT_RPC_URL),
            bootnode_url: variables.bootnode_url,
            pool_contract: pick(variables.pool_contract, DEFAULT_POOL_CONTRACT),
            account_a: TestAccount {
                label: "A",
                address: variables.account_a_address,
                secret: variables.account_a_secret,
            },
            account_b: TestAccount {
                label: "B",
                address: variables.account_b_address,
                secret: variables.account_b_secret,
            },
            account_c: TestAccount {
                label: "C",
                address: variables.account_c_address,
                secret: variables.account_c_secret,
            },
            account_d: TestAccount {
                label: "D",
                address: variables.account_d_address,
                secret: variables.account_d_secret,
            },
        }
    }

    /// Where the circuit artifacts are served.
    pub fn test_circuits_base_url(&self) -> (r: String)
        ensures
            r@ == self.static_origin@ + "/circuits/"@,
    {
        let mut url = self.static_origin.to_owned();
        url.append("/circuits/");
        url
    }
}

/// A named property of an options object.
#[derive(Debug, PartialEq, Eq)]
pub struct Property {
    pub name: &'static str,
    pub value: String,
}

/// The views of a list of properties: names and values.
pub open spec fn property_views(list: Seq<Property>) -> Seq<(Seq<char>, Seq<char>)> {
    Seq::new(list.len(), |i: int| (list[i].name@, list[i].value@))
}

/// What a client is constructed with, beside storage and contract configuration.
#[derive(Debug, PartialEq, Eq)]
pub struct ClientOptions {
    pub rpc_url: String,
    pub prover_url: String,
    pub circuits_base_url: String,
    pub bootnode_url: Option<String>,
}

/// File of the prover's worker loader.
pub const PROVER_WORKER: &'static str = "prover-worker.js";

impl Environment {
    /// What to construct the client with, given where its prover worker is.
    pub fn client_options(&self, prover_url: String) -> (r: ClientOptions)
        ensures
            r.rpc_url@ == self.rpc_url@,
            r.prover_url@ == prover_url@,
            r.circuits_base_url@ == self.static_origin@ + "/circuits/"@,
            match (r.bootnode_url, self.bootnode_url) {
                (Some(url), Some(configured)) => url@ == configured@,
                (None, None) => true,
                _ => false,
            },
    {
        ClientOptions {
            rpc_url: self.rpc_url.to_owned(),
            prover_url,
            circuits_base_url: self.test_circuits_base_url(),
            bootnode_url: match self.bootnode_url {
                Some(url) => Some(url.to_owned()),
                None => None,
            },
        }
    }

    /// The options of the session with the pool under test.
    pub fn open_pool(&self) -> (r: Vec<Property>)
        ensures
            property_views(r@) == seq![("poolContract"@, self.pool_contract@)],
    {
        let mut options: Vec<Property> = Vec::new();
        options.push(Property { name: "poolContract", value: self.pool_contract.to_owned() });
        proof {
            assert(property_views(options@) =~= seq![("poolContract"@, self.pool_contract@)]);
        }
        options
    }
}

} // verus!
