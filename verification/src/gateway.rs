//! The methods that the gateway offers to its clients.

use crate::address::{address_from_hex, optional_address, parsed_address, zero_bytes, Address};
use crate::error::{kind_of, RpcError};
use crate::pipeline::{admission, begin, Action, Pipeline};
use crate::signature::Signature;
use vstd::prelude::*;
use vstd::string::*;

verus! {

/// A message to a conversation, with the signature of its sender.
#[derive(Debug)]
pub struct Message {
    pub conversation_id: Vec<u8>,
    pub payload: Vec<u8>,
    pub v: Vec<u8>,
    pub r: Vec<u8>,
    pub s: Vec<u8>,
}

/// Why a gateway cannot be set up.
#[derive(Debug)]
pub enum ConfigError {
    /// The address of the registry did not parse; holds the parser's words.
    BadRegistryAddress(String),
    /// The signing key is not a key.
    BadSigningKey,
    /// The signing key stands for the address of all zeros.
    ZeroWallet,
}

/// A `ConfigError` as plain values.
pub enum ConfigFault {
    BadRegistryAddress(Seq<char>),
    BadSigningKey,
    ZeroWallet,
}

impl View for ConfigError {
    type V = ConfigFault;

    open spec fn view(&self) -> ConfigFault {
        match *self {
            ConfigError::BadRegistryAddress(c) => ConfigFault::BadRegistryAddress(c@),
            ConfigError::BadSigningKey => ConfigFault::BadSigningKey,
            ConfigError::ZeroWallet => ConfigFault::ZeroWallet,
        }
    }
}

/// The wallet and the registry address of a gateway, in that order, or why
/// there is no gateway: a registry address that does not parse is reported
/// first, then a key that is no key, then a wallet of all zeros.
pub open spec fn decide_config(
    wallet: Option<Seq<u8>>,
    registry: Result<Seq<u8>, Seq<char>>,
) -> Result<(Seq<u8>, Seq<u8>), ConfigFault> {
    if registry is Err {
        Err(ConfigFault::BadRegistryAddress(registry->Err_0))
    } else if wallet is None {
        Err(ConfigFault::BadSigningKey)
    } else if wallet->Some_0 == zero_bytes() {
        Err(ConfigFault::ZeroWallet)
    } else {
        Ok((wallet->Some_0, registry->Ok_0))
    }
}

/// The code under which a method that is not offered answers. It is the code
/// of no kind of failure.
pub open spec fn unimplemented_code() -> int {
    -32601
}

/// The words with which `send_message` answers.
pub open spec fn unimplemented_text() -> Seq<char> {
    "sendMessage is not implemented"@
}

/// The address of the wallet whose signing key is the given scalar of
/// thirty-two bytes, as `LocalWallet::from_bytes` derives it; nothing where
/// it refuses the scalar.
pub uninterp spec fn address_of_signing_key(key: Seq<u8>) -> Option<Seq<u8>>;

/// Calls `LocalWallet::from_bytes` (`ethers::signers`) and hands back the
/// bytes of the wallet's address, or `None` for any `WalletError`. The key
/// must have thirty-two bytes, or the call panics. The result is only given
/// its name.
#[verifier::external_body]
fn wallet_of_key(key: &[u8]) -> (wallet: Option<[u8; 20]>)
    requires
        key@.len() == 32,
    ensures
        wallet is Some ==> address_of_signing_key(key@) == Some(wallet->Some_0@),
        wallet is None ==> address_of_signing_key(key@) is None,
{
    match ethers::signers::LocalWallet::from_bytes(key) {
        Ok(wallet) => Some(ethers::signers::Signer::address(&wallet).0),
        Err(_) => None,
    }
}

/// The wallet address that a signing key stands for, if it is a key of
/// thirty-two bytes.
pub open spec fn wallet_of(key: Seq<u8>) -> Option<Seq<u8>> {
    if key.len() == 32 {
        address_of_signing_key(key)
    } else {
        None
    }
}

/// The methods of the gateway, in the namespace `xps`.
pub trait Xps {
    /// Not offered yet: answers every message with an error.
    fn send_message(&self, message: Message) -> (r: Result<(), RpcError>)
        ensures
            r is Err,
            r->Err_0.code == unimplemented_code(),
            r->Err_0.message@ == unimplemented_text(),
    ;

    /// Starts the pipeline that grants the installation `(name, value)` to
    /// `did`, and hands out its first action.
    fn grant_installation(&self, did: String, name: String, value: String, signature: Signature) -> (out:
        (Pipeline, Action))
        ensures
            (out.0@, out.1@) == begin(
                admission(did@, name@, value@, signature.v, signature.r@, signature.s@),
            ),
            out.0@.wf(),
    ;

    /// Whether the gateway is alive: always `"OK"`.
    fn status(&self) -> (r: Result<String, RpcError>)
        ensures
            r is Ok,
            r->Ok_0@ == "OK"@,
    ;

    /// The address with which the gateway signs; never the address of all
    /// zeros.
    fn wallet_address(&self) -> (r: Result<Address, RpcError>)
        ensures
            r is Ok,
            r->Ok_0@ != zero_bytes(),
    ;
}

/// A gateway set up with its signing key and the address of its registry.
/// Nothing in it changes once it is made.
#[derive(Debug)]
pub struct XpsMethods {
    wallet: Address,
    registry: Address,
}

impl XpsMethods {
    #[verifier::type_invariant]
    closed spec fn inv(self) -> bool {
        self.wallet@ != zero_bytes()
    }

    /// The address with which the gateway signs.
    pub closed spec fn wallet(&self) -> Seq<u8> {
        self.wallet@
    }

    /// The address of the registry contract.
    pub closed spec fn registry(&self) -> Seq<u8> {
        self.registry@
    }

    /// A gateway, or why there is none, as plain values.
    pub open spec fn outcome(r: Result<XpsMethods, ConfigError>) -> Result<
        (Seq<u8>, Seq<u8>),
        ConfigFault,
    > {
        match r {
            Ok(g) => Ok((g.wallet(), g.registry())),
            Err(e) => Err(e@),
        }
    }

    /// Decides on a gateway from what the derivation of the wallet and the
    /// parsing of the registry address have yielded.
    pub fn configure(wallet: Option<Address>, registry: Result<Address, String>) -> (r: Result<
        XpsMethods,
        ConfigError,
    >)
        ensures
            XpsMethods::outcome(r) == decide_config(
                optional_address(wallet),
                parsed_address(registry),
            ),
    {
        let registry = match registry {
            Ok(a) => a,
            Err(cause) => {
                return Err(ConfigError::BadRegistryAddress(cause));
            },
        };
        let wallet = match wallet {
            Some(a) => a,
            None => {
                return Err(ConfigError::BadSigningKey);
            },
        };
        if wallet.is_zero() {
            return Err(ConfigError::ZeroWallet);
        }
        Ok(XpsMethods { wallet, registry })
    }

    /// Sets up a gateway that signs with `signing_key` and writes to the
    /// registry at the address written in `registry`.
    pub fn new(signing_key: &[u8], registry: &str) -> (r: Result<XpsMethods, ConfigError>)
        ensures
            XpsMethods::outcome(r) == decide_config(
                wallet_of(signing_key@),
                address_from_hex(registry@),
            ),
    {
        let wallet = if signing_key.len() == 32 {
            match wallet_of_key(signing_key) {
                Some(bytes) => Address::from_bytes(bytes.as_slice()),
                None => None,
            }
        } else {
            None
        };
        XpsMethods::configure(wallet, Address::parse(registry))
    }

    /// The address of the registry contract.
    pub fn registry_address(&self) -> (a: Address)
        ensures
            a@ == self.registry(),
    {
        self.registry
    }
}

impl Xps for XpsMethods {
    fn send_message(&self, message: Message) -> (r: Result<(), RpcError>)
        ensures
            kind_of(r->Err_0.code as int) is None,
    {
        Err(RpcError { code: -32601, message: String::from_str("sendMessage is not implemented") })
    }

    fn grant_installation(&self, did: String, name: String, value: String, signature: Signature) -> (out:
        (Pipeline, Action)) {
        Pipeline::start(did.as_str(), name.as_str(), value.as_str(), &signature)
    }

    fn status(&self) -> (r: Result<String, RpcError>) {
        Ok(String::from_str("OK"))
    }

    fn wallet_address(&self) -> (r: Result<Address, RpcError>)
        ensures
            r->Ok_0@ == self.wallet(),
    {
        proof {
            use_type_invariant(self);
        }
        Ok(self.wallet)
    }
}

} // verus!
