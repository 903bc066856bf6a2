use xps_gateway::address::Address;
use xps_gateway::error::{ContactOperationError, ErrorKind, SignerFailure};
use xps_gateway::registry::{
    authorize, commit_error, prepare_call, resolution_error, CommitFailure, Installation,
};
use xps_gateway::document::{is_active, DidDocument, Resolution};

fn all_kinds() -> Vec<(ErrorKind, i32)> {
    vec![
        (ErrorKind::BadAddress, -32001),
        (ErrorKind::ContractError, -32002),
        (ErrorKind::ProviderError, -32003),
        (ErrorKind::IntConversion, -32004),
        (ErrorKind::ResolutionError, -32005),
        (ErrorKind::DIDDeactivated, -32006),
        (ErrorKind::TypeConversion, -32007),
        (ErrorKind::KeyPackageVerification, -32008),
        (ErrorKind::ParseBytes, -32009),
        (ErrorKind::SignatureMismatch, -32010),
    ]
}

#[test]
fn each_kind_has_its_code() {
    for (kind, code) in all_kinds() {
        assert_eq!(kind.code(), code);
        assert_eq!(ErrorKind::from_code(code), Some(kind));
    }
}

#[test]
fn no_two_kinds_share_a_code() {
    let kinds = all_kinds();
    for (i, (a, _)) in kinds.iter().enumerate() {
        for (j, (b, _)) in kinds.iter().enumerate() {
            assert_eq!(a.code() == b.code(), i == j);
        }
    }
}

#[test]
fn other_codes_stand_for_no_kind() {
    for code in [0, -1, -32000, -32011, -32601, -32700, 32001, i32::MIN, i32::MAX] {
        assert_eq!(ErrorKind::from_code(code), None);
    }
}

fn one_of_each() -> Vec<(ContactOperationError, ErrorKind, &'static str)> {
    let a = Address::from_bytes(&[1u8; 20]).unwrap();
    let b = Address::from_bytes(&[2u8; 20]).unwrap();
    vec![
        (
            ContactOperationError::BadAddress("Invalid input length".to_string()),
            ErrorKind::BadAddress,
            "Invalid address Invalid input length",
        ),
        (
            ContactOperationError::ContractError("execution reverted".to_string()),
            ErrorKind::ContractError,
            "execution reverted",
        ),
        (
            ContactOperationError::ProviderError("connection refused".to_string()),
            ErrorKind::ProviderError,
            "connection refused",
        ),
        (
            ContactOperationError::IntConversion,
            ErrorKind::IntConversion,
            "Error converting from int: out of range integral type conversion attempted",
        ),
        (
            ContactOperationError::ResolutionError("no such block".to_string(), "did:ethr:0x1".to_string()),
            ErrorKind::ResolutionError,
            "Error Resolving did:ethr:0x1: no such block",
        ),
        (
            ContactOperationError::DIDDeactivated,
            ErrorKind::DIDDeactivated,
            "The DID has been deactivated, and no longer valid",
        ),
        (
            ContactOperationError::Type("not a word".to_string()),
            ErrorKind::TypeConversion,
            "Type failed to convert",
        ),
        (
            ContactOperationError::KeyPackage("expired".to_string()),
            ErrorKind::KeyPackageVerification,
            "Error verifying key package: expired",
        ),
        (
            ContactOperationError::ParseBytes("odd number of digits".to_string()),
            ErrorKind::ParseBytes,
            "Error parsing hex-encoded bytes: odd number of digits",
        ),
        (
            ContactOperationError::SignatureMismatch(SignerFailure::Unrecoverable),
            ErrorKind::SignatureMismatch,
            "No signer can be recovered from the signature",
        ),
        (
            ContactOperationError::SignatureMismatch(SignerFailure::NotController {
                recovered: a,
                controller: b,
            }),
            ErrorKind::SignatureMismatch,
            "The signature was not made by the controller of the DID",
        ),
    ]
}

#[test]
fn each_failure_has_its_kind_and_words() {
    for (error, kind, message) in one_of_each() {
        assert_eq!(error.kind(), kind);
        assert_eq!(error.message(), message);
    }
}

#[test]
fn failures_cross_the_boundary_with_code_and_words() {
    for (error, kind, message) in one_of_each() {
        let rpc = error.to_rpc();
        assert_eq!(rpc.code, kind.code());
        assert_eq!(rpc.message, message);
    }
}

#[test]
fn submission_failures_are_reported_as_they_are() {
    assert!(matches!(
        commit_error(CommitFailure::Contract("c".to_string())),
        ContactOperationError::ContractError(c) if c == "c"
    ));
    assert!(matches!(
        commit_error(CommitFailure::Provider("p".to_string())),
        ContactOperationError::ProviderError(c) if c == "p"
    ));
    assert!(matches!(commit_error(CommitFailure::IntConversion), ContactOperationError::IntConversion));
    assert!(matches!(
        commit_error(CommitFailure::Type("t".to_string())),
        ContactOperationError::Type(c) if c == "t"
    ));
    assert!(matches!(
        resolution_error("cause".to_string(), "did".to_string()),
        ContactOperationError::ResolutionError(c, d) if c == "cause" && d == "did"
    ));
}

fn document(controller: Address, deactivated: bool) -> DidDocument {
    DidDocument::from_resolution(Resolution {
        controller,
        installations: vec![vec![1, 2], vec![3]],
        deactivated,
        block_height: 7,
    })
}

#[test]
fn only_the_controller_of_an_active_document_may_grant() {
    let a = Address::from_bytes(&[1u8; 20]).unwrap();
    let b = Address::from_bytes(&[2u8; 20]).unwrap();
    assert!(authorize(&document(a, false), &a).is_ok());
    assert!(matches!(
        authorize(&document(a, false), &b),
        Err(ContactOperationError::SignatureMismatch(SignerFailure::NotController { recovered, controller }))
            if recovered.same_as(&b) && controller.same_as(&a)
    ));
    assert!(matches!(authorize(&document(a, true), &a), Err(ContactOperationError::DIDDeactivated)));
    assert!(matches!(authorize(&document(a, true), &b), Err(ContactOperationError::DIDDeactivated)));
}

#[test]
fn call_needs_a_recovery_value_of_eight_bits() {
    let a = Address::from_bytes(&[1u8; 20]).unwrap();
    let b = Address::from_bytes(&[2u8; 20]).unwrap();
    let installation = || Installation { name: "device-1".to_string(), value: vec![4, 5] };
    let call = prepare_call(a, b, installation(), 255, &[6; 32], &[7; 32]).unwrap();
    assert!(call.identity.same_as(&a) && call.signer.same_as(&b));
    assert_eq!(call.sig_v, 255);
    assert_eq!((call.sig_r, call.sig_s), (vec![6u8; 32], vec![7u8; 32]));
    assert_eq!((call.name.as_str(), call.value), ("device-1", vec![4u8, 5]));
    assert_eq!(prepare_call(a, b, installation(), 0, &[], &[]).unwrap().sig_v, 0);
    assert!(matches!(
        prepare_call(a, b, installation(), 256, &[6; 32], &[7; 32]),
        Err(ContactOperationError::IntConversion)
    ));
    assert!(matches!(
        prepare_call(a, b, installation(), u64::MAX, &[6; 32], &[7; 32]),
        Err(ContactOperationError::IntConversion)
    ));
}

#[test]
fn document_reads() {
    let a = Address::from_bytes(&[1u8; 20]).unwrap();
    let d = document(a, false);
    assert!(d.is_active());
    assert!(is_active(&d));
    assert!(!is_active(&document(a, true)));
    assert!(d.controller().same_as(&a));
    assert_eq!(d.version(), 7);
    assert!(d.has_installation(&[1, 2]));
    assert!(d.has_installation(&[3]));
    assert!(!d.has_installation(&[1]));
    assert!(!d.has_installation(&[]));
    assert!(!d.has_installation(&[1, 2, 3]));
}

#[test]
fn resolutions_without_a_write_between_differ_in_version_only() {
    let a = Address::from_bytes(&[1u8; 20]).unwrap();
    let b = Address::from_bytes(&[2u8; 20]).unwrap();
    let at = |height: u64, keys: Vec<Vec<u8>>, controller: Address, deactivated: bool| {
        DidDocument::from_resolution(Resolution {
            controller,
            installations: keys,
            deactivated,
            block_height: height,
        })
    };
    let first = at(10, vec![vec![1], vec![2]], a, false);
    let second = at(11, vec![vec![1], vec![2]], a, false);
    assert!(first.same_content_as(&second));
    assert!(second.same_content_as(&first));
    assert!(first.is_stale_against(&second));
    assert!(!second.is_stale_against(&first));
    assert!(!first.is_stale_against(&first));
    assert_ne!(first.version(), second.version());

    assert!(first.same_content_as(&at(12, vec![vec![2], vec![1], vec![2]], a, false)));
    assert!(!first.same_content_as(&at(12, vec![vec![1], vec![2], vec![3]], a, false)));
    assert!(!first.same_content_as(&at(12, vec![vec![1]], a, false)));
    assert!(!first.same_content_as(&at(12, vec![vec![1], vec![2]], b, false)));
    assert!(!first.same_content_as(&at(12, vec![vec![1], vec![2]], a, true)));
}

#[test]
fn only_an_unreachable_node_is_transient() {
    for (kind, _) in all_kinds() {
        assert_eq!(kind.is_transient(), kind == ErrorKind::ProviderError);
    }
}
