use ethers::signers::{LocalWallet, Signer};
use xps_gateway::address::Address;
use xps_gateway::document::{DidDocument, Resolution};
use xps_gateway::error::{ContactOperationError, ErrorKind, SignerFailure};
use xps_gateway::pipeline::{accept, Action, Event, GrantInstallationResult, Pipeline};
use xps_gateway::registry::{CommitFailure, RegistryCall};
use xps_gateway::signature::{payload, Signature};

fn hex(bytes: &[u8]) -> String {
    let mut out = String::from("0x");
    for b in bytes {
        out.push_str(&format!("{:02x}", b));
    }
    out
}

fn wallet() -> LocalWallet {
    LocalWallet::from_bytes(&[7u8; 32]).unwrap()
}

fn address_of(w: &LocalWallet) -> Address {
    Address::from_bytes(&w.address().0).unwrap()
}

fn did_of(w: &LocalWallet) -> String {
    format!("did:ethr:{}", hex(&w.address().0))
}

fn sign(w: &LocalWallet, did: &str, name: &str, value: &[u8]) -> Signature {
    let message = payload(did, name, value);
    let signature = w.sign_hash(ethers::utils::hash_message(&message)).unwrap();
    let mut r = [0u8; 32];
    let mut s = [0u8; 32];
    signature.r.to_big_endian(&mut r);
    signature.s.to_big_endian(&mut s);
    Signature { v: signature.v, r: hex(&r), s: hex(&s) }
}

/// A registry that keeps its state in memory and records what is written.
struct Ledger {
    controller: Address,
    installations: Vec<Vec<u8>>,
    deactivated: bool,
    height: u64,
    resolve_failure: Option<String>,
    commit_failure: Option<CommitFailure>,
    resolved: Vec<String>,
    committed: Vec<RegistryCall>,
}

impl Ledger {
    fn new(controller: Address) -> Ledger {
        Ledger {
            controller,
            installations: Vec::new(),
            deactivated: false,
            height: 100,
            resolve_failure: None,
            commit_failure: None,
            resolved: Vec::new(),
            committed: Vec::new(),
        }
    }

    fn resolve(&mut self, did: &str) -> Result<Resolution, String> {
        self.resolved.push(did.to_string());
        self.height += 1;
        match &self.resolve_failure {
            Some(cause) => Err(cause.clone()),
            None => Ok(Resolution {
                controller: self.controller,
                installations: self.installations.clone(),
                deactivated: self.deactivated,
                block_height: self.height,
            }),
        }
    }

    fn commit(&mut self, call: RegistryCall) -> Result<Vec<u8>, CommitFailure> {
        if let Some(failure) = self.commit_failure.take() {
            return Err(failure);
        }
        self.installations.push(call.value.clone());
        self.committed.push(call);
        Ok(vec![0xaa; 32])
    }
}

/// Carries a request to its end, doing what the pipeline asks for.
fn drive(
    ledger: &mut Ledger,
    verdict: Result<(), String>,
    did: &str,
    name: &str,
    value: &str,
    signature: &Signature,
) -> (Result<GrantInstallationResult, ContactOperationError>, Vec<&'static str>) {
    let (mut pipeline, mut action) = Pipeline::start(did, name, value, signature);
    let mut trace = Vec::new();
    loop {
        let event = match action {
            Action::Resolve { did, .. } => {
                trace.push("resolve");
                Event::Resolved(ledger.resolve(&did))
            }
            Action::VerifyKeyPackage { .. } => {
                trace.push("verify");
                Event::KeyPackageVerified(verdict.clone())
            }
            Action::Commit(call) => {
                trace.push("commit");
                Event::Committed(ledger.commit(call))
            }
            Action::Finish(outcome) => {
                assert!(pipeline.is_finished());
                return (outcome, trace);
            }
        };
        let (following, handed) = pipeline.step(event);
        pipeline = following;
        action = handed.unwrap();
    }
}

#[test]
fn grant_is_committed_and_then_resolved() {
    let w = wallet();
    let did = did_of(&w);
    let key_package = vec![1u8, 2, 3, 4];
    let signature = sign(&w, &did, "device-1", &key_package);
    let mut ledger = Ledger::new(address_of(&w));

    let before = DidDocument::from_resolution(ledger.resolve(&did).unwrap());
    assert!(!before.has_installation(&key_package));

    let (outcome, trace) =
        drive(&mut ledger, Ok(()), &did, "device-1", &hex(&key_package), &signature);
    let granted = outcome.unwrap();
    assert_eq!(granted.did, did);
    assert_eq!(granted.name, "device-1");
    assert_eq!(granted.value, key_package);
    assert_eq!(granted.transaction, vec![0xaa; 32]);
    assert_eq!(trace, vec!["resolve", "verify", "commit"]);

    assert_eq!(ledger.committed.len(), 1);
    let call = &ledger.committed[0];
    assert!(call.identity.same_as(&address_of(&w)));
    assert!(call.signer.same_as(&address_of(&w)));
    assert_eq!(call.sig_v as u64, signature.v);
    assert_eq!(hex(&call.sig_r), signature.r);
    assert_eq!(hex(&call.sig_s), signature.s);
    assert_eq!(call.name, "device-1");
    assert_eq!(call.value, key_package);

    let after = DidDocument::from_resolution(ledger.resolve(&did).unwrap());
    assert!(after.has_installation(&key_package));
    assert!(after.is_active());
    assert!(before.is_stale_against(&after));
}

#[test]
fn deactivated_identifier_is_refused() {
    let w = wallet();
    let did = did_of(&w);
    let key_package = vec![1u8, 2, 3, 4];
    let signature = sign(&w, &did, "device-1", &key_package);
    let mut ledger = Ledger::new(address_of(&w));
    let (first, _) = drive(&mut ledger, Ok(()), &did, "device-1", &hex(&key_package), &signature);
    assert!(first.is_ok());

    ledger.deactivated = true;
    let (second, trace) =
        drive(&mut ledger, Ok(()), &did, "device-1", &hex(&key_package), &signature);
    assert!(matches!(second, Err(ContactOperationError::DIDDeactivated)));
    assert_eq!(trace, vec!["resolve"]);
    assert_eq!(ledger.committed.len(), 1);
}

#[test]
fn deactivated_wins_over_signer_and_key_package() {
    let w = wallet();
    let stranger = LocalWallet::from_bytes(&[9u8; 32]).unwrap();
    let did = did_of(&w);
    let signature = sign(&stranger, &did, "device-1", &[5, 6]);
    let mut ledger = Ledger::new(address_of(&w));
    ledger.deactivated = true;
    let (outcome, trace) =
        drive(&mut ledger, Err("broken".to_string()), &did, "device-1", "0x0506", &signature);
    assert!(matches!(outcome, Err(ContactOperationError::DIDDeactivated)));
    assert_eq!(trace, vec!["resolve"]);
    assert!(ledger.committed.is_empty());
}

#[test]
fn malformed_address_is_refused_before_anything_is_asked() {
    let w = wallet();
    let signature = sign(&w, "did:ethr:0x12", "device-1", &[1]);
    let mut ledger = Ledger::new(address_of(&w));
    for did in ["did:ethr:0x12", "did:ethr:mainnet:zz", "", "0x", "did:ethr:0xd1D374DDE031075157fDb64536eF5cC13Ae7500g"] {
        let (outcome, trace) = drive(&mut ledger, Ok(()), did, "device-1", "0x01", &signature);
        let error = outcome.unwrap_err();
        assert_eq!(error.kind(), ErrorKind::BadAddress);
        assert!(trace.is_empty());
    }
    assert!(ledger.resolved.is_empty());
    assert!(ledger.committed.is_empty());
}

#[test]
fn malformed_address_carries_the_parser_words() {
    let signature = Signature { v: 27, r: "zz".to_string(), s: "zz".to_string() };
    let (pipeline, action) = Pipeline::start("did:ethr:0x12", "n", "zz", &signature);
    assert!(pipeline.is_finished());
    match action {
        Action::Finish(Err(ContactOperationError::BadAddress(cause))) => {
            assert_eq!(cause, "Invalid input length")
        }
        other => panic!("{:?}", other),
    }
}

#[test]
fn finished_request_takes_no_event() {
    let signature = Signature { v: 27, r: String::new(), s: String::new() };
    let (pipeline, _) = Pipeline::start("nothing", "n", "", &signature);
    let (pipeline, a) = pipeline.step(Event::KeyPackageVerified(Ok(())));
    assert!(a.is_none());
    let (pipeline, b) = pipeline.step(Event::Committed(Ok(vec![1])));
    assert!(b.is_none());
    let (pipeline, c) = pipeline.step(Event::Resolved(Err("x".to_string())));
    assert!(c.is_none());
    assert!(pipeline.is_finished());
}

#[test]
fn refused_key_package_is_not_committed() {
    let w = wallet();
    let did = did_of(&w);
    let signature = sign(&w, &did, "device-1", &[1, 2]);
    let mut ledger = Ledger::new(address_of(&w));
    let (outcome, trace) = drive(
        &mut ledger,
        Err("credential does not verify".to_string()),
        &did,
        "device-1",
        "0x0102",
        &signature,
    );
    match outcome {
        Err(ContactOperationError::KeyPackage(cause)) => {
            assert_eq!(cause, "credential does not verify")
        }
        other => panic!("{:?}", other),
    }
    assert_eq!(trace, vec!["resolve", "verify"]);
    assert!(ledger.committed.is_empty());
}

#[test]
fn failed_resolution_names_the_identifier() {
    let w = wallet();
    let did = did_of(&w);
    let signature = sign(&w, &did, "device-1", &[1, 2]);
    let mut ledger = Ledger::new(address_of(&w));
    ledger.resolve_failure = Some("node unreachable".to_string());
    let (outcome, trace) = drive(&mut ledger, Ok(()), &did, "device-1", "0x0102", &signature);
    let error = outcome.unwrap_err();
    assert_eq!(error.kind(), ErrorKind::ResolutionError);
    assert_eq!(error.message(), format!("Error Resolving {}: node unreachable", did));
    assert_eq!(trace, vec!["resolve"]);
}

#[test]
fn failed_submission_keeps_its_kind() {
    let w = wallet();
    let did = did_of(&w);
    let signature = sign(&w, &did, "device-1", &[1, 2]);
    let cases = vec![
        (CommitFailure::Contract("reverted".to_string()), ErrorKind::ContractError, "reverted"),
        (CommitFailure::Provider("timed out".to_string()), ErrorKind::ProviderError, "timed out"),
        (
            CommitFailure::IntConversion,
            ErrorKind::IntConversion,
            "Error converting from int: out of range integral type conversion attempted",
        ),
        (CommitFailure::Type("bad word".to_string()), ErrorKind::TypeConversion, "Type failed to convert"),
    ];
    for (failure, kind, message) in cases {
        let mut ledger = Ledger::new(address_of(&w));
        ledger.commit_failure = Some(failure);
        let (outcome, trace) = drive(&mut ledger, Ok(()), &did, "device-1", "0x0102", &signature);
        let error = outcome.unwrap_err();
        assert_eq!(error.kind(), kind);
        assert_eq!(error.message(), message);
        assert_eq!(trace, vec!["resolve", "verify", "commit"]);
        assert!(ledger.committed.is_empty());
    }
}

#[test]
fn signer_that_is_not_controller_is_refused() {
    let w = wallet();
    let stranger = LocalWallet::from_bytes(&[9u8; 32]).unwrap();
    let did = did_of(&w);
    let signature = sign(&stranger, &did, "device-1", &[1, 2]);
    let mut ledger = Ledger::new(address_of(&w));
    let (outcome, trace) = drive(&mut ledger, Ok(()), &did, "device-1", "0x0102", &signature);
    match outcome {
        Err(ContactOperationError::SignatureMismatch(SignerFailure::NotController {
            recovered,
            controller,
        })) => {
            assert!(recovered.same_as(&address_of(&stranger)));
            assert!(controller.same_as(&address_of(&w)));
        }
        other => panic!("{:?}", other),
    }
    assert_eq!(trace, vec!["resolve"]);
    assert!(ledger.committed.is_empty());
}

#[test]
fn signature_over_another_request_is_refused() {
    let w = wallet();
    let did = did_of(&w);
    let signature = sign(&w, &did, "device-1", &[1, 2]);
    let mut ledger = Ledger::new(address_of(&w));
    let (outcome, _) = drive(&mut ledger, Ok(()), &did, "device-2", "0x0102", &signature);
    assert_eq!(outcome.unwrap_err().kind(), ErrorKind::SignatureMismatch);
    let (outcome, _) = drive(&mut ledger, Ok(()), &did, "device-1", "0x0103", &signature);
    assert_eq!(outcome.unwrap_err().kind(), ErrorKind::SignatureMismatch);
    assert!(ledger.committed.is_empty());
}

#[test]
fn unrecoverable_signature_is_refused_before_resolution() {
    let w = wallet();
    let did = did_of(&w);
    let signature = Signature { v: 27, r: hex(&[0u8; 32]), s: hex(&[0u8; 32]) };
    let mut ledger = Ledger::new(address_of(&w));
    let (outcome, trace) = drive(&mut ledger, Ok(()), &did, "device-1", "0x0102", &signature);
    assert!(matches!(
        outcome,
        Err(ContactOperationError::SignatureMismatch(SignerFailure::Unrecoverable))
    ));
    assert!(trace.is_empty());
}

#[test]
fn byte_fields_that_do_not_parse_are_refused() {
    let w = wallet();
    let did = did_of(&w);
    let good = sign(&w, &did, "device-1", &[1, 2]);
    let mut ledger = Ledger::new(address_of(&w));

    let (outcome, trace) = drive(&mut ledger, Ok(()), &did, "device-1", "0x012", &good);
    match outcome {
        Err(ContactOperationError::ParseBytes(cause)) => {
            assert_eq!(cause, "Failed to parse bytes: odd number of digits")
        }
        other => panic!("{:?}", other),
    }
    assert!(trace.is_empty());

    let bad_r = Signature { v: good.v, r: "0xq".to_string(), s: good.s.clone() };
    let (outcome, _) = drive(&mut ledger, Ok(()), &did, "device-1", "0x0102", &bad_r);
    assert_eq!(outcome.unwrap_err().kind(), ErrorKind::ParseBytes);

    let short_s = Signature { v: good.v, r: good.r.clone(), s: "0x01".to_string() };
    let (outcome, _) = drive(&mut ledger, Ok(()), &did, "device-1", "0x0102", &short_s);
    match outcome {
        Err(ContactOperationError::ParseBytes(cause)) => {
            assert_eq!(cause, "signature scalar is not 32 bytes long")
        }
        other => panic!("{:?}", other),
    }
    assert!(ledger.resolved.is_empty());
}

#[test]
fn bad_address_is_reported_before_bad_bytes() {
    let signature = Signature { v: 27, r: "q".to_string(), s: "q".to_string() };
    let (_, action) = Pipeline::start("did:ethr:q", "n", "q", &signature);
    assert!(matches!(action, Action::Finish(Err(ContactOperationError::BadAddress(_)))));
}

#[test]
fn recovery_value_that_does_not_fit_is_refused_at_commit() {
    let w = wallet();
    let did = did_of(&w);
    let good = sign(&w, &did, "device-1", &[1, 2]);
    let wide = Signature { v: if good.v == 27 { 301 } else { 300 }, r: good.r, s: good.s };
    let mut ledger = Ledger::new(address_of(&w));
    let (outcome, trace) = drive(&mut ledger, Ok(()), &did, "device-1", "0x0102", &wide);
    assert!(matches!(outcome, Err(ContactOperationError::IntConversion)));
    assert_eq!(trace, vec!["resolve", "verify"]);
    assert!(ledger.committed.is_empty());
}

#[test]
fn event_that_is_not_awaited_changes_nothing() {
    let w = wallet();
    let did = did_of(&w);
    let signature = sign(&w, &did, "device-1", &[1, 2]);
    let mut ledger = Ledger::new(address_of(&w));
    let (pipeline, action) = Pipeline::start(&did, "device-1", "0x0102", &signature);
    assert!(matches!(action, Action::Resolve { .. }));
    let (pipeline, none) = pipeline.step(Event::Committed(Ok(vec![1])));
    assert!(none.is_none());
    let (pipeline, none) = pipeline.step(Event::KeyPackageVerified(Ok(())));
    assert!(none.is_none());
    assert!(!pipeline.is_finished());
    let (pipeline, action) = pipeline.step(Event::Resolved(ledger.resolve(&did)));
    assert!(matches!(action, Some(Action::VerifyKeyPackage { .. })));
    let (pipeline, none) = pipeline.step(Event::Resolved(ledger.resolve(&did)));
    assert!(none.is_none());
    let (pipeline, action) = pipeline.step(Event::KeyPackageVerified(Ok(())));
    assert!(matches!(action, Some(Action::Commit(_))));
    let (pipeline, none) = pipeline.step(Event::KeyPackageVerified(Ok(())));
    assert!(none.is_none());
    let (pipeline, action) = pipeline.step(Event::Committed(Ok(vec![3])));
    match action {
        Some(Action::Finish(Ok(granted))) => assert_eq!(granted.transaction, vec![3]),
        other => panic!("{:?}", other),
    }
    assert!(pipeline.is_finished());
}

#[test]
fn resolve_action_names_identifier_and_address() {
    let w = wallet();
    let did = format!("did:ethr:mainnet:{}", hex(&w.address().0));
    let signature = sign(&w, &did, "device-1", &[1, 2]);
    let (_, action) = Pipeline::start(&did, "device-1", "0x0102", &signature);
    match action {
        Action::Resolve { did: asked, identity } => {
            assert_eq!(asked, did);
            assert!(identity.same_as(&address_of(&w)));
        }
        other => panic!("{:?}", other),
    }
}

fn ok32() -> Result<Vec<u8>, String> {
    Ok(vec![2u8; 32])
}

fn no_bytes(words: &str) -> Result<Vec<u8>, String> {
    Err(words.to_string())
}

fn no_address(words: &str) -> Result<Address, String> {
    Err(words.to_string())
}

#[test]
fn accept_reports_the_first_failure() {
    let a = Address::from_bytes(&[1u8; 20]).unwrap();

    let all = accept("d", "n", 28, Ok(a), ok32(), ok32(), Ok(vec![9]), Some(a)).unwrap();
    assert_eq!((all.did.as_str(), all.name.as_str(), all.v), ("d", "n", 28));
    assert_eq!((all.value, all.r, all.s), (vec![9u8], vec![2u8; 32], vec![2u8; 32]));
    assert!(all.identity.same_as(&a) && all.signer.same_as(&a));

    let e = accept("d", "n", 28, no_address("a"), no_bytes("r"), no_bytes("s"), no_bytes("v"), None).unwrap_err();
    assert!(matches!(e, ContactOperationError::BadAddress(c) if c == "a"));
    let e = accept("d", "n", 28, Ok(a), no_bytes("r"), no_bytes("s"), no_bytes("v"), None).unwrap_err();
    assert!(matches!(e, ContactOperationError::ParseBytes(c) if c == "r"));
    let e = accept("d", "n", 28, Ok(a), ok32(), no_bytes("s"), no_bytes("v"), None).unwrap_err();
    assert!(matches!(e, ContactOperationError::ParseBytes(c) if c == "s"));
    let e = accept("d", "n", 28, Ok(a), Ok(vec![1]), ok32(), no_bytes("v"), None).unwrap_err();
    assert!(matches!(e, ContactOperationError::ParseBytes(c) if c == "v"));
    let e = accept("d", "n", 28, Ok(a), Ok(vec![1]), ok32(), Ok(vec![]), Some(a)).unwrap_err();
    assert!(
        matches!(e, ContactOperationError::ParseBytes(c) if c == "signature scalar is not 32 bytes long")
    );
    let e = accept("d", "n", 28, Ok(a), ok32(), ok32(), Ok(vec![]), None).unwrap_err();
    assert!(matches!(e, ContactOperationError::SignatureMismatch(SignerFailure::Unrecoverable)));
}
