use vstd::prelude::*;
use crate::address::instance_address;
use crate::error::ProtocolError;
use crate::service::{
    account_gate, creation_result, deployment_outcome, resolution, stage_after_deployment,
    submission_result, CreationOutcome, Stage,
};

verus! {

/// One provisioning run against a ledger whose existing accounts are `ledger`: the
/// instance address is resolved and looked up, and the account is created where it
/// is absent. Gives the ledger afterwards and the number of accounts created.
pub open spec fn provisioning_run(ledger: Set<Seq<u8>>, payer: Seq<u8>, program: Seq<u8>) -> (
    Set<Seq<u8>>,
    nat,
) {
    match resolution(Stage::DeploymentVerified, payer, program) {
        Ok(a) => if ledger.contains(a) {
            (ledger, 0)
        } else {
            (ledger.insert(a), 1)
        },
        Err(_) => (ledger, 0),
    }
}

/// Once a deployment is confirmed, the instance address does not depend on the
/// session's stage nor on how often it is asked for: it is a function of the payer
/// and program keys alone.
pub proof fn lemma_resolution_deterministic(
    stage1: Stage,
    stage2: Stage,
    payer: Seq<u8>,
    program: Seq<u8>,
)
    requires
        stage1.deployment_confirmed(),
        stage2.deployment_confirmed(),
    ensures
        resolution(stage1, payer, program) == resolution(stage2, payer, program),
        resolution(stage1, payer, program) is Ok <==> instance_address(payer, program) is Some,
        resolution(stage1, payer, program) matches Ok(a) ==> instance_address(payer, program)
            == Some(a),
{
}

/// Running provisioning twice for the same payer and program creates at most one
/// account: the second run finds the account that the first left and creates none.
pub proof fn lemma_provisioning_idempotent(ledger: Set<Seq<u8>>, payer: Seq<u8>, program: Seq<u8>)
    ensures
        provisioning_run(provisioning_run(ledger, payer, program).0, payer, program).1 == 0,
        provisioning_run(provisioning_run(ledger, payer, program).0, payer, program).0
            == provisioning_run(ledger, payer, program).0,
        provisioning_run(ledger, payer, program).1 <= 1,
        resolution(Stage::DeploymentVerified, payer, program) matches Ok(a)
            ==> provisioning_run(ledger, payer, program).0.contains(a),
{
}

/// A deployment check that does not answer `Ok(true)` leaves the session where no
/// resolution, creation or mutation can proceed; each of those fails and leaves the
/// stage as it is.
pub proof fn lemma_deployment_gates(
    stage: Stage,
    fetched: Option<bool>,
    payer: Seq<u8>,
    program: Seq<u8>,
    outcome: CreationOutcome,
    confirmed: bool,
)
    requires
        deployment_outcome(stage, fetched) != Ok::<bool, ProtocolError>(true),
    ensures
        resolution(stage_after_deployment(stage, fetched), payer, program) is Err,
        creation_result(stage_after_deployment(stage, fetched), payer, program, outcome) is Err,
        account_gate(stage_after_deployment(stage, fetched)) is Some,
        submission_result(stage_after_deployment(stage, fetched), confirmed) is Err,
{
}

/// On a session that has not connected, every operation but `connect` fails with
/// `ClientNotConnected`.
pub proof fn lemma_unconnected_fails(
    fetched: Option<bool>,
    payer: Seq<u8>,
    program: Seq<u8>,
    outcome: CreationOutcome,
    confirmed: bool,
)
    ensures
        deployment_outcome(Stage::Disconnected, fetched) == Err::<bool, ProtocolError>(
            ProtocolError::ClientNotConnected,
        ),
        resolution(Stage::Disconnected, payer, program) == Err::<Seq<u8>, ProtocolError>(
            ProtocolError::ClientNotConnected,
        ),
        creation_result(Stage::Disconnected, payer, program, outcome) == Err::<(), ProtocolError>(
            ProtocolError::ClientNotConnected,
        ),
        account_gate(Stage::Disconnected) == Some(ProtocolError::ClientNotConnected),
        submission_result(Stage::Disconnected, confirmed) == Err::<(), ProtocolError>(
            ProtocolError::ClientNotConnected,
        ),
{
}

} // verus!
