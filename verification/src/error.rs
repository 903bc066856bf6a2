//! The failures of a contact operation: a closed set of kinds, each with the
//! cause that the lower layer reported, and their stable numeric codes.

use crate::address::Address;
use vstd::prelude::*;
use vstd::string::*;

verus! {

/// The kinds of failure. No failure is ever reported under the kind of
/// another.
#[derive(Clone, Copy, Debug, PartialEq, Eq, Structural)]
pub enum ErrorKind {
    /// An address in hexadecimal text did not parse.
    BadAddress,
    /// The registry contract reverted a call or its data did not encode.
    ContractError,
    /// The connection to the ledger node failed.
    ProviderError,
    /// A number did not fit the integer width it was meant for.
    IntConversion,
    /// The document of an identifier could not be resolved.
    ResolutionError,
    /// The resolved document is deactivated.
    DIDDeactivated,
    /// A value of the registry did not convert to its domain type.
    TypeConversion,
    /// The key package did not pass verification.
    KeyPackageVerification,
    /// A byte field did not parse from its wire form.
    ParseBytes,
    /// The signature does not speak for the controller of the identifier.
    SignatureMismatch,
}

/// The numeric code under which a kind is reported to clients.
pub open spec fn code_of(kind: ErrorKind) -> int {
    match kind {
        ErrorKind::BadAddress => -32001,
        ErrorKind::ContractError => -32002,
        ErrorKind::ProviderError => -32003,
        ErrorKind::IntConversion => -32004,
        ErrorKind::ResolutionError => -32005,
        ErrorKind::DIDDeactivated => -32006,
        ErrorKind::TypeConversion => -32007,
        ErrorKind::KeyPackageVerification => -32008,
        ErrorKind::ParseBytes => -32009,
        ErrorKind::SignatureMismatch => -32010,
    }
}

/// The kind that a code stands for, if it stands for one.
pub open spec fn kind_of(code: int) -> Option<ErrorKind> {
    if code == -32001 {
        Some(ErrorKind::BadAddress)
    } else if code == -32002 {
        Some(ErrorKind::ContractError)
    } else if code == -32003 {
        Some(ErrorKind::ProviderError)
    } else if code == -32004 {
        Some(ErrorKind::IntConversion)
    } else if code == -32005 {
        Some(ErrorKind::ResolutionError)
    } else if code == -32006 {
        Some(ErrorKind::DIDDeactivated)
    } else if code == -32007 {
        Some(ErrorKind::TypeConversion)
    } else if code == -32008 {
        Some(ErrorKind::KeyPackageVerification)
    } else if code == -32009 {
        Some(ErrorKind::ParseBytes)
    } else if code == -32010 {
        Some(ErrorKind::SignatureMismatch)
    } else {
        None
    }
}

/// A client that branches on the code recovers the kind: no two kinds share
/// a code, and every code that stands for a kind is the code of that kind.
pub proof fn lemma_code_identifies_kind(a: ErrorKind, b: ErrorKind, code: int)
    ensures
        kind_of(code_of(a)) == Some(a),
        code_of(a) == code_of(b) ==> a == b,
        kind_of(code) is Some ==> code_of(kind_of(code)->Some_0) == code,
        -32099 <= code_of(a) <= -32000,
{
}

impl ErrorKind {
    /// The code of this kind.
    pub fn code(self) -> (c: i32)
        ensures
            c == code_of(self),
    {
        match self {
            ErrorKind::BadAddress => -32001,
            ErrorKind::ContractError => -32002,
            ErrorKind::ProviderError => -32003,
            ErrorKind::IntConversion => -32004,
            ErrorKind::ResolutionError => -32005,
            ErrorKind::DIDDeactivated => -32006,
            ErrorKind::TypeConversion => -32007,
            ErrorKind::KeyPackageVerification => -32008,
            ErrorKind::ParseBytes => -32009,
            ErrorKind::SignatureMismatch => -32010,
        }
    }

    /// Whether a failure of this kind may pass if the request is made again
    /// unchanged: only a failure to reach the ledger node is of that sort.
    /// The pipeline itself never tries again.
    pub fn is_transient(self) -> (t: bool)
        ensures
            t == (self == ErrorKind::ProviderError),
    {
        match self {
            ErrorKind::ProviderError => true,
            _ => false,
        }
    }

    /// The kind with the given code.
    pub fn from_code(code: i32) -> (k: Option<ErrorKind>)
        ensures
            k == kind_of(code as int),
    {
        if code == -32001 {
            Some(ErrorKind::BadAddress)
        } else if code == -32002 {
            Some(ErrorKind::ContractError)
        } else if code == -32003 {
            Some(ErrorKind::ProviderError)
        } else if code == -32004 {
            Some(ErrorKind::IntConversion)
        } else if code == -32005 {
            Some(ErrorKind::ResolutionError)
        } else if code == -32006 {
            Some(ErrorKind::DIDDeactivated)
        } else if code == -32007 {
            Some(ErrorKind::TypeConversion)
        } else if code == -32008 {
            Some(ErrorKind::KeyPackageVerification)
        } else if code == -32009 {
            Some(ErrorKind::ParseBytes)
        } else if code == -32010 {
            Some(ErrorKind::SignatureMismatch)
        } else {
            None
        }
    }
}

/// Why a signature does not speak for the controller of an identifier.
#[derive(Clone, Copy, Debug)]
pub enum SignerFailure {
    /// No signer can be recovered from the signature.
    Unrecoverable,
    /// The signer that was recovered is not the controller.
    NotController { recovered: Address, controller: Address },
}

/// A `SignerFailure` as plain values.
pub enum SignerFault {
    Unrecoverable,
    NotController { recovered: Seq<u8>, controller: Seq<u8> },
}

impl View for SignerFailure {
    type V = SignerFault;

    open spec fn view(&self) -> SignerFault {
        match *self {
            SignerFailure::Unrecoverable => SignerFault::Unrecoverable,
            SignerFailure::NotController { recovered, controller } => SignerFault::NotController {
                recovered: recovered@,
                controller: controller@,
            },
        }
    }
}

/// A failed contact operation. Each variant but the last wraps the cause that
/// a lower layer reported, as the text of that cause; the last is the
/// pipeline's own refusal of a signature.
#[derive(Debug)]
pub enum ContactOperationError {
    /// The address text did not parse; holds the parser's words.
    BadAddress(String),
    /// The registry contract failed; holds its words.
    ContractError(String),
    /// The ledger node could not be reached; holds the transport's words.
    ProviderError(String),
    /// A number did not fit its integer width.
    IntConversion,
    /// Resolution failed; holds the resolver's words and the identifier.
    ResolutionError(String, String),
    /// The identifier is deactivated.
    DIDDeactivated,
    /// A registry value did not convert; holds the converter's words.
    Type(String),
    /// The key package was refused; holds the verifier's words.
    KeyPackage(String),
    /// A byte field did not parse; holds the parser's words.
    ParseBytes(String),
    /// The signature does not speak for the controller.
    SignatureMismatch(SignerFailure),
}

/// A `ContactOperationError` as plain values.
pub enum Failure {
    BadAddress(Seq<char>),
    ContractError(Seq<char>),
    ProviderError(Seq<char>),
    IntConversion,
    ResolutionError(Seq<char>, Seq<char>),
    DIDDeactivated,
    Type(Seq<char>),
    KeyPackage(Seq<char>),
    ParseBytes(Seq<char>),
    SignatureMismatch(SignerFault),
}

impl View for ContactOperationError {
    type V = Failure;

    open spec fn view(&self) -> Failure {
        match *self {
            ContactOperationError::BadAddress(c) => Failure::BadAddress(c@),
            ContactOperationError::ContractError(c) => Failure::ContractError(c@),
            ContactOperationError::ProviderError(c) => Failure::ProviderError(c@),
            ContactOperationError::IntConversion => Failure::IntConversion,
            ContactOperationError::ResolutionError(c, did) => Failure::ResolutionError(c@, did@),
            ContactOperationError::DIDDeactivated => Failure::DIDDeactivated,
            ContactOperationError::Type(c) => Failure::Type(c@),
            ContactOperationError::KeyPackage(c) => Failure::KeyPackage(c@),
            ContactOperationError::ParseBytes(c) => Failure::ParseBytes(c@),
            ContactOperationError::SignatureMismatch(f) => Failure::SignatureMismatch(f@),
        }
    }
}

/// The kind of a failure.
pub open spec fn kind_of_failure(f: Failure) -> ErrorKind {
    match f {
        Failure::BadAddress(_) => ErrorKind::BadAddress,
        Failure::ContractError(_) => ErrorKind::ContractError,
        Failure::ProviderError(_) => ErrorKind::ProviderError,
        Failure::IntConversion => ErrorKind::IntConversion,
        Failure::ResolutionError(_, _) => ErrorKind::ResolutionError,
        Failure::DIDDeactivated => ErrorKind::DIDDeactivated,
        Failure::Type(_) => ErrorKind::TypeConversion,
        Failure::KeyPackage(_) => ErrorKind::KeyPackageVerification,
        Failure::ParseBytes(_) => ErrorKind::ParseBytes,
        Failure::SignatureMismatch(_) => ErrorKind::SignatureMismatch,
    }
}

/// The words in which a failure is reported.
pub open spec fn message_of(f: Failure) -> Seq<char> {
    match f {
        Failure::BadAddress(c) => "Invalid address "@ + c,
        Failure::ContractError(c) => c,
        Failure::ProviderError(c) => c,
        Failure::IntConversion => "Error converting from int: out of range integral type conversion attempted"@,
        Failure::ResolutionError(c, did) => "Error Resolving "@ + did + ": "@ + c,
        Failure::DIDDeactivated => "The DID has been deactivated, and no longer valid"@,
        Failure::Type(_) => "Type failed to convert"@,
        Failure::KeyPackage(c) => "Error verifying key package: "@ + c,
        Failure::ParseBytes(c) => "Error parsing hex-encoded bytes: "@ + c,
        Failure::SignatureMismatch(SignerFault::Unrecoverable) => "No signer can be recovered from the signature"@,
        Failure::SignatureMismatch(SignerFault::NotController { .. }) => "The signature was not made by the controller of the DID"@,
    }
}

/// A failure as it crosses the transport boundary: a code and a message.
#[derive(Debug)]
pub struct RpcError {
    pub code: i32,
    pub message: String,
}

impl ContactOperationError {
    /// The kind of this failure.
    pub fn kind(&self) -> (k: ErrorKind)
        ensures
            k == kind_of_failure(self@),
    {
        match self {
            ContactOperationError::BadAddress(_) => ErrorKind::BadAddress,
            ContactOperationError::ContractError(_) => ErrorKind::ContractError,
            ContactOperationError::ProviderError(_) => ErrorKind::ProviderError,
            ContactOperationError::IntConversion => ErrorKind::IntConversion,
            ContactOperationError::ResolutionError(_, _) => ErrorKind::ResolutionError,
            ContactOperationError::DIDDeactivated => ErrorKind::DIDDeactivated,
            ContactOperationError::Type(_) => ErrorKind::TypeConversion,
            ContactOperationError::KeyPackage(_) => ErrorKind::KeyPackageVerification,
            ContactOperationError::ParseBytes(_) => ErrorKind::ParseBytes,
            ContactOperationError::SignatureMismatch(_) => ErrorKind::SignatureMismatch,
        }
    }

    /// The words in which this failure is reported.
    pub fn message(&self) -> (m: String)
        ensures
            m@ == message_of(self@),
    {
        match self {
            ContactOperationError::BadAddress(c) => String::from_str("Invalid address ").concat(
                c.as_str(),
            ),
            ContactOperationError::ContractError(c) => c.clone(),
            ContactOperationError::ProviderError(c) => c.clone(),
            ContactOperationError::IntConversion => String::from_str(
                "Error converting from int: out of range integral type conversion attempted",
            ),
            ContactOperationError::ResolutionError(c, did) => String::from_str(
                "Error Resolving ",
            ).concat(did.as_str()).concat(": ").concat(c.as_str()),
            ContactOperationError::DIDDeactivated => String::from_str(
                "The DID has been deactivated, and no longer valid",
            ),
            ContactOperationError::Type(_) => String::from_str("Type failed to convert"),
            ContactOperationError::KeyPackage(c) => String::from_str(
                "Error verifying key package: ",
            ).concat(c.as_str()),
            ContactOperationError::ParseBytes(c) => String::from_str(
                "Error parsing hex-encoded bytes: ",
            ).concat(c.as_str()),
            ContactOperationError::SignatureMismatch(SignerFailure::Unrecoverable) => {
                String::from_str("No signer can be recovered from the signature")
            },
            ContactOperationError::SignatureMismatch(SignerFailure::NotController { .. }) => {
                String::from_str("The signature was not made by the controller of the DID")
            },
        }
    }

    /// The form in which this failure crosses the transport boundary: the
    /// code of its kind and its message.
    pub fn to_rpc(&self) -> (e: RpcError)
        ensures
            e.code == code_of(kind_of_failure(self@)),
            e.message@ == message_of(self@),
    {
        RpcError { code: self.kind().code(), message: self.message() }
    }
}

} // verus!
