use state_machine::balances;
use state_machine::proof_of_existence;
use state_machine::runtime::ExtrinsicFailure;
use state_machine::support::{Block, Dispatch, DispatchError, Extrinsic, Header};
use state_machine::{Runtime, RuntimeCall};

fn transfer(caller: &str, to: &str, amount: u128) -> Extrinsic<String, RuntimeCall> {
    Extrinsic {
        caller: caller.to_string(),
        call: RuntimeCall::Balances(balances::Call::Transfer { to: to.to_string(), amount }),
    }
}

fn create_claim(caller: &str, claim: &str) -> Extrinsic<String, RuntimeCall> {
    Extrinsic {
        caller: caller.to_string(),
        call: RuntimeCall::ProofOfExistence(proof_of_existence::Call::CreateClaim {
            claim: claim.to_string(),
        }),
    }
}

fn revoke_claim(caller: &str, claim: &str) -> Extrinsic<String, RuntimeCall> {
    Extrinsic {
        caller: caller.to_string(),
        call: RuntimeCall::ProofOfExistence(proof_of_existence::Call::RevokeClaim {
            claim: claim.to_string(),
        }),
    }
}

fn block(
    number: u32,
    extrinsics: Vec<Extrinsic<String, RuntimeCall>>,
) -> state_machine::types::Block {
    Block { header: Header { block_number: number }, extrinsics }
}

#[test]
fn new_runtime_is_empty() {
    let runtime = Runtime::new();
    assert_eq!(runtime.block_number(), 0);
    assert_eq!(runtime.balance(&"alice".to_string()), 0);
    assert_eq!(runtime.nonce(&"alice".to_string()), 0);
    assert_eq!(runtime.get_claim(&"Hello".to_string()), None);
}

#[test]
fn unwritten_accounts_stay_zero() {
    let mut runtime = Runtime::new();
    runtime.set_balance(&"alice".to_string(), 100);
    let result = runtime.execute_block(block(1, vec![transfer("alice", "bob", 10)]));
    assert_eq!(result, Ok(vec![]));
    assert_eq!(runtime.balance(&"dave".to_string()), 0);
    assert_eq!(runtime.nonce(&"dave".to_string()), 0);
    assert_eq!(runtime.nonce(&"bob".to_string()), 0);
    assert_eq!(runtime.nonce(&"alice".to_string()), 1);
}

#[test]
fn mismatched_block_number_is_refused_but_counted() {
    let mut runtime = Runtime::new();
    runtime.set_balance(&"alice".to_string(), 100);
    let result = runtime.execute_block(block(5, vec![transfer("alice", "bob", 10)]));
    assert_eq!(result, Err(DispatchError::BlockNumberMismatch));
    assert_eq!(
        DispatchError::BlockNumberMismatch.message(),
        "The current block number is invalid."
    );
    assert_eq!(runtime.block_number(), 1);
    assert_eq!(runtime.balance(&"alice".to_string()), 100);
    assert_eq!(runtime.balance(&"bob".to_string()), 0);
    assert_eq!(runtime.nonce(&"alice".to_string()), 0);

    // Block 1 is now behind; the next block must carry number 2.
    let result = runtime.execute_block(block(1, vec![transfer("alice", "bob", 10)]));
    assert_eq!(result, Err(DispatchError::BlockNumberMismatch));
    assert_eq!(runtime.block_number(), 2);
    let result = runtime.execute_block(block(3, vec![transfer("alice", "bob", 10)]));
    assert_eq!(result, Ok(vec![]));
    assert_eq!(runtime.block_number(), 3);
    assert_eq!(runtime.balance(&"bob".to_string()), 10);
}

#[test]
fn failed_extrinsic_does_not_stop_block() {
    let mut runtime = Runtime::new();
    runtime.set_balance(&"alice".to_string(), 100);
    let result = runtime.execute_block(block(
        1,
        vec![transfer("alice", "bob", 500), transfer("alice", "charlie", 20)],
    ));
    assert_eq!(
        result,
        Ok(vec![ExtrinsicFailure {
            block_number: 1,
            index: 0,
            error: DispatchError::InsufficientFunds
        }])
    );
    assert_eq!(runtime.balance(&"alice".to_string()), 80);
    assert_eq!(runtime.balance(&"charlie".to_string()), 20);
    assert_eq!(runtime.balance(&"bob".to_string()), 0);
    assert_eq!(runtime.nonce(&"alice".to_string()), 2);
}

#[test]
fn two_blocks_of_transfers_and_claims() {
    let mut runtime = Runtime::new();
    runtime.set_balance(&"alice".to_string(), 100);

    let result = runtime.execute_block(block(
        1,
        vec![transfer("alice", "bob", 30), transfer("alice", "charlie", 20)],
    ));
    assert_eq!(result, Ok(vec![]));
    assert_eq!(runtime.balance(&"alice".to_string()), 50);
    assert_eq!(runtime.balance(&"bob".to_string()), 30);
    assert_eq!(runtime.balance(&"charlie".to_string()), 20);

    let result = runtime.execute_block(block(
        2,
        vec![
            create_claim("alice", "Hello"),
            create_claim("bob", "Hello"),
            revoke_claim("alice", "Hello"),
            create_claim("bob", "Hello"),
        ],
    ));
    assert_eq!(
        result,
        Ok(vec![ExtrinsicFailure {
            block_number: 2,
            index: 1,
            error: DispatchError::AlreadyClaimed
        }])
    );
    assert_eq!(runtime.get_claim(&"Hello".to_string()), Some(&"bob".to_string()));
    assert_eq!(runtime.block_number(), 2);
    assert_eq!(runtime.nonce(&"alice".to_string()), 4);
    assert_eq!(runtime.nonce(&"bob".to_string()), 2);
}

#[test]
fn failures_are_reported_in_order() {
    let mut runtime = Runtime::new();
    let result = runtime.execute_block(block(
        1,
        vec![
            revoke_claim("alice", "x"),
            create_claim("alice", "x"),
            revoke_claim("bob", "x"),
            transfer("bob", "alice", 1),
        ],
    ));
    assert_eq!(
        result,
        Ok(vec![
            ExtrinsicFailure { block_number: 1, index: 0, error: DispatchError::ClaimNotFound },
            ExtrinsicFailure { block_number: 1, index: 2, error: DispatchError::NotClaimOwner },
            ExtrinsicFailure { block_number: 1, index: 3, error: DispatchError::InsufficientFunds },
        ])
    );
    assert_eq!(runtime.get_claim(&"x".to_string()), Some(&"alice".to_string()));
}

#[test]
fn empty_block_advances_number() {
    let mut runtime = Runtime::new();
    assert_eq!(runtime.execute_block(block(1, vec![])), Ok(vec![]));
    assert_eq!(runtime.block_number(), 1);
}

#[test]
fn runtime_dispatch_routes_to_module() {
    let mut runtime = Runtime::new();
    runtime.set_balance(&"alice".to_string(), 5);
    let call = RuntimeCall::Balances(balances::Call::Transfer { to: "bob".to_string(), amount: 5 });
    assert_eq!(runtime.dispatch("alice".to_string(), call), Ok(()));
    assert_eq!(runtime.balance(&"bob".to_string()), 5);
    let call = RuntimeCall::ProofOfExistence(proof_of_existence::Call::CreateClaim {
        claim: "c".to_string(),
    });
    assert_eq!(runtime.dispatch("bob".to_string(), call), Ok(()));
    assert_eq!(runtime.get_claim(&"c".to_string()), Some(&"bob".to_string()));
    // Dispatch alone does not touch nonces.
    assert_eq!(runtime.nonce(&"alice".to_string()), 0);
}

#[test]
fn error_messages() {
    assert_eq!(DispatchError::InsufficientFunds.message(), "Insufficient funds.");
    assert_eq!(DispatchError::Overflow.message(), "Overflow.");
    assert_eq!(
        DispatchError::AlreadyClaimed.message(),
        "This content is already been claimed."
    );
    assert_eq!(DispatchError::ClaimNotFound.message(), "Claim does not exist.");
    assert_eq!(
        DispatchError::NotClaimOwner.message(),
        "This content is owned by some other user."
    );
    assert_eq!(
        DispatchError::BlockNumberMismatch.message(),
        "The current block number is invalid."
    );
}
