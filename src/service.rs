use vstd::prelude::*;
use crate::address::{derive_instance_address, instance_address};
use crate::error::ProtocolError;
use crate::record::{le_bytes_u32, CounterRecord, RECORD_SIZE};

verus! {

/// Where a session stands in the provisioning pipeline.
#[derive(Debug, Clone, Copy, PartialEq, Eq, Structural)]
pub enum Stage {
    Disconnected,
    Connected,
    DeploymentVerified,
    AccountResolved { present: bool },
    AccountReady,
    MutationSubmitted,
}

/// What the resolver found at the instance address.
#[derive(Debug, Clone, Copy)]
pub enum Provisioning {
    /// The account exists: no creation is needed.
    Present([u8; 32]),
    /// The account is absent and must be created before use.
    Absent([u8; 32]),
}

/// What the network answered to an account-creation transaction.
#[derive(Debug, Clone, Copy, PartialEq, Eq, Structural)]
pub enum CreationOutcome {
    /// The transaction was confirmed.
    Created,
    /// The account had been created meanwhile, by another client for the same pair.
    AlreadyExists,
    /// Any other failure: funding, an expired block reference, a rejection.
    Failed,
}

/// The parameters of a funded, seeded account-creation instruction.
#[derive(Debug, Clone, Copy)]
pub struct CreateAccountRequest {
    pub from: [u8; 32],
    pub to: [u8; 32],
    pub base: [u8; 32],
    pub lamports: u64,
    pub space: u64,
    pub owner: [u8; 32],
}

/// An instruction to the program naming one account.
pub struct MutationInstruction {
    pub program_id: [u8; 32],
    pub account: [u8; 32],
    pub is_writable: bool,
    pub is_signer: bool,
    pub data: Vec<u8>,
}

impl Stage {
    pub open spec fn is_connected(self) -> bool {
        !(self is Disconnected)
    }

    /// A deployment check has succeeded since the session last lost that state.
    pub open spec fn deployment_confirmed(self) -> bool {
        self.is_connected() && !(self is Connected)
    }

    /// The instance account is known to exist.
    pub open spec fn account_ready(self) -> bool {
        self is AccountReady || self is MutationSubmitted
    }
}

/// The error that an operation needing a confirmed deployment fails with, if any.
pub open spec fn deployment_gate(stage: Stage) -> Option<ProtocolError> {
    if stage is Disconnected {
        Some(ProtocolError::ClientNotConnected)
    } else if stage is Connected {
        Some(ProtocolError::AccountIsNotExecutable)
    } else {
        None
    }
}

/// The error that an operation needing the instance account fails with, if any.
pub open spec fn account_gate(stage: Stage) -> Option<ProtocolError> {
    if deployment_gate(stage) is Some {
        deployment_gate(stage)
    } else if !stage.account_ready() {
        Some(ProtocolError::InstanceAccountNotReady)
    } else {
        None
    }
}

/// Outcome of `connect` given the two liveness checks.
pub open spec fn connect_outcome(node_answered: bool, payer_found: bool) -> Result<
    (),
    ProtocolError,
> {
    if !node_answered {
        Err(ProtocolError::NetworkFailure)
    } else if !payer_found {
        Err(ProtocolError::KeyPairForPayerNotFound)
    } else {
        Ok(())
    }
}

/// Outcome of a deployment check given what was fetched at the program's address:
/// `None` where the fetch failed, else the account's executable flag.
pub open spec fn deployment_outcome(stage: Stage, fetched: Option<bool>) -> Result<
    bool,
    ProtocolError,
> {
    if !stage.is_connected() {
        Err(ProtocolError::ClientNotConnected)
    } else {
        match fetched {
            None => Err(ProtocolError::NetworkFailure),
            Some(executable) => Ok(executable),
        }
    }
}

/// The stage after a deployment check.
pub open spec fn stage_after_deployment(stage: Stage, fetched: Option<bool>) -> Stage {
    if !stage.is_connected() {
        stage
    } else if fetched == Some(true) {
        if stage.deployment_confirmed() {
            stage
        } else {
            Stage::DeploymentVerified
        }
    } else {
        Stage::Connected
    }
}

/// The instance address as the session resolves it.
pub open spec fn resolution(stage: Stage, payer: Seq<u8>, program: Seq<u8>) -> Result<
    Seq<u8>,
    ProtocolError,
> {
    match deployment_gate(stage) {
        Some(e) => Err(e),
        None => match instance_address(payer, program) {
            Some(a) => Ok(a),
            None => Err(ProtocolError::AccountDerivationFailure),
        },
    }
}

/// Outcome of recording an account-creation answer.
pub open spec fn creation_result(
    stage: Stage,
    payer: Seq<u8>,
    program: Seq<u8>,
    outcome: CreationOutcome,
) -> Result<(), ProtocolError> {
    match resolution(stage, payer, program) {
        Err(e) => Err(e),
        Ok(_) => if outcome is Failed {
            Err(ProtocolError::TransactionRejected)
        } else {
            Ok(())
        },
    }
}

/// Outcome of recording a mutation's submission.
pub open spec fn submission_result(stage: Stage, confirmed: bool) -> Result<(), ProtocolError> {
    match account_gate(stage) {
        Some(e) => Err(e),
        None => if confirmed {
            Ok(())
        } else {
            Err(ProtocolError::TransactionRejected)
        },
    }
}

/// A client session against one program, for one payer. It holds the session's
/// stage and decides each step; the network work of each step is done by its
/// caller, who hands the answers back.
pub struct SolanaService {
    json_rpc_url: String,
    payer: [u8; 32],
    program: [u8; 32],
    stage: Stage,
}

impl Provisioning {
    pub open spec fn spec_address(self) -> [u8; 32] {
        match self {
            Provisioning::Present(a) => a,
            Provisioning::Absent(a) => a,
        }
    }

    /// The instance address, whether or not the account exists.
    pub fn address(&self) -> (r: [u8; 32])
        ensures
            r == self.spec_address(),
    {
        match self {
            Provisioning::Present(a) => *a,
            Provisioning::Absent(a) => *a,
        }
    }
}

impl SolanaService {
    pub closed spec fn spec_stage(&self) -> Stage {
        self.stage
    }

    pub closed spec fn spec_payer(&self) -> Seq<u8> {
        self.payer@
    }

    pub closed spec fn spec_program(&self) -> Seq<u8> {
        self.program@
    }

    pub closed spec fn spec_url(&self) -> Seq<char> {
        self.json_rpc_url@
    }

    /// A session for the payer and program keys, not yet connected.
    pub fn new(json_rpc_url: String, payer: [u8; 32], program: [u8; 32]) -> (r: SolanaService)
        ensures
            r.spec_stage() == Stage::Disconnected,
            r.spec_payer() == payer@,
            r.spec_program() == program@,
            r.spec_url() == json_rpc_url@,
    {
        SolanaService { json_rpc_url, payer, program, stage: Stage::Disconnected }
    }

    pub fn json_rpc_url(&self) -> (r: &String)
        ensures
            r@ == self.spec_url(),
    {
        &self.json_rpc_url
    }

    pub fn payer(&self) -> (r: [u8; 32])
        ensures
            r@ == self.spec_payer(),
    {
        self.payer
    }

    pub fn program(&self) -> (r: [u8; 32])
        ensures
            r@ == self.spec_program(),
    {
        self.program
    }

    pub fn stage(&self) -> (r: Stage)
        ensures
            r == self.spec_stage(),
    {
        self.stage
    }

    /// Records the two liveness checks of a new session: whether the node answered
    /// its version query, and whether the payer's account was found. Succeeds only
    /// if both did; the session is then connected afresh.
    pub fn connect(&mut self, node_answered: bool, payer_found: bool) -> (r: Result<
        (),
        ProtocolError,
    >)
        ensures
            r == connect_outcome(node_answered, payer_found),
            final(self).spec_stage() == (if r is Ok {
                Stage::Connected
            } else {
                old(self).spec_stage()
            }),
            final(self).spec_payer() == old(self).spec_payer(),
            final(self).spec_program() == old(self).spec_program(),
            final(self).spec_url() == old(self).spec_url(),
    {
        if !node_answered {
            return Err(ProtocolError::NetworkFailure);
        }
        if !payer_found {
            return Err(ProtocolError::KeyPairForPayerNotFound);
        }
        self.stage = Stage::Connected;
        Ok(())
    }

    /// Records a fresh fetch of the program's account (`None` where the fetch
    /// failed, else its executable flag) and returns whether the program is deployed.
    /// Nothing is cached: a check that does not return `Ok(true)` withdraws an
    /// earlier confirmation.
    pub fn is_program_deployed(&mut self, fetched: Option<bool>) -> (r: Result<
        bool,
        ProtocolError,
    >)
        ensures
            r == deployment_outcome(old(self).spec_stage(), fetched),
            final(self).spec_stage() == stage_after_deployment(old(self).spec_stage(), fetched),
            final(self).spec_payer() == old(self).spec_payer(),
            final(self).spec_program() == old(self).spec_program(),
            final(self).spec_url() == old(self).spec_url(),
    {
        if self.stage == Stage::Disconnected {
            return Err(ProtocolError::ClientNotConnected);
        }
        match fetched {
            Some(true) => {
                if self.stage == Stage::Connected {
                    self.stage = Stage::DeploymentVerified;
                }
                Ok(true)
            },
            Some(false) => {
                self.stage = Stage::Connected;
                Ok(false)
            },
            None => {
                self.stage = Stage::Connected;
                Err(ProtocolError::NetworkFailure)
            },
        }
    }

    fn check_deployment(&self) -> (r: Result<(), ProtocolError>)
        ensures
            r is Ok <==> deployment_gate(self.spec_stage()) is None,
            r matches Err(e) ==> deployment_gate(self.spec_stage()) == Some(e),
    {
        match self.stage {
            Stage::Disconnected => Err(ProtocolError::ClientNotConnected),
            Stage::Connected => Err(ProtocolError::AccountIsNotExecutable),
            _ => Ok(()),
        }
    }

    /// The address of the payer's instance account of the program: the same on every
    /// call for the same keys. Needs a confirmed deployment; consults no network.
    pub fn resolve_instance_address(&self) -> (r: Result<[u8; 32], ProtocolError>)
        ensures
            r is Ok <==> resolution(self.spec_stage(), self.spec_payer(), self.spec_program()) is Ok,
            r matches Ok(a) ==> resolution(self.spec_stage(), self.spec_payer(), self.spec_program())
                == Ok::<Seq<u8>, ProtocolError>(a@),
            r matches Err(e) ==> resolution(self.spec_stage(), self.spec_payer(), self.spec_program())
                == Err::<Seq<u8>, ProtocolError>(e),
    {
        self.check_deployment()?;
        derive_instance_address(&self.payer, &self.program)
    }

    /// Records whether an account was found at the instance address and says whether
    /// it must be created. A present account is ready for mutation at once.
    pub fn get_or_create_program_instance_account(&mut self, present: bool) -> (r: Result<
        Provisioning,
        ProtocolError,
    >)
        ensures
            r is Ok <==> resolution(old(self).spec_stage(), old(self).spec_payer(), old(self).spec_program()) is Ok,
            r matches Ok(p) ==> resolution(old(self).spec_stage(), old(self).spec_payer(), old(self).spec_program())
                == Ok::<Seq<u8>, ProtocolError>(p.spec_address()@) && (p is Present <==> present),
            r matches Err(e) ==> resolution(old(self).spec_stage(), old(self).spec_payer(), old(self).spec_program())
                == Err::<Seq<u8>, ProtocolError>(e),
            final(self).spec_stage() == (if r is Err {
                old(self).spec_stage()
            } else if present {
                Stage::AccountReady
            } else {
                Stage::AccountResolved { present: false }
            }),
            final(self).spec_payer() == old(self).spec_payer(),
            final(self).spec_program() == old(self).spec_program(),
            final(self).spec_url() == old(self).spec_url(),
    {
        let address = self.resolve_instance_address()?;
        if present {
            self.stage = Stage::AccountReady;
            Ok(Provisioning::Present(address))
        } else {
            self.stage = Stage::AccountResolved { present: false };
            Ok(Provisioning::Absent(address))
        }
    }

    /// The creation instruction for the instance account, funded with `lamports`
    /// (the network's rent-exempt minimum for `RECORD_SIZE` bytes): the payer funds
    /// it and is its base key, and the program owns it.
    pub fn create_account_instance(&self, lamports: u64) -> (r: Result<
        CreateAccountRequest,
        ProtocolError,
    >)
        ensures
            r is Ok <==> resolution(self.spec_stage(), self.spec_payer(), self.spec_program()) is Ok,
            r matches Ok(q) ==> resolution(self.spec_stage(), self.spec_payer(), self.spec_program())
                == Ok::<Seq<u8>, ProtocolError>(q.to@) && q.from@ == self.spec_payer()
                && q.base@ == self.spec_payer() && q.owner@ == self.spec_program()
                && q.lamports == lamports && q.space == RECORD_SIZE,
            r matches Err(e) ==> resolution(self.spec_stage(), self.spec_payer(), self.spec_program())
                == Err::<Seq<u8>, ProtocolError>(e),
    {
        let to = self.resolve_instance_address()?;
        Ok(
            CreateAccountRequest {
                from: self.payer,
                to,
                base: self.payer,
                lamports,
                space: CounterRecord::get_contract_size() as u64,
                owner: self.program,
            },
        )
    }

    /// Records the network's answer to the creation transaction. An account that a
    /// concurrent client created meanwhile is as good as one created here; any other
    /// failure is returned.
    pub fn record_creation(&mut self, outcome: CreationOutcome) -> (r: Result<(), ProtocolError>)
        ensures
            r == creation_result(old(self).spec_stage(), old(self).spec_payer(), old(self).spec_program(), outcome),
            final(self).spec_stage() == (if r is Ok {
                Stage::AccountReady
            } else {
                old(self).spec_stage()
            }),
            final(self).spec_payer() == old(self).spec_payer(),
            final(self).spec_program() == old(self).spec_program(),
            final(self).spec_url() == old(self).spec_url(),
    {
        self.resolve_instance_address()?;
        match outcome {
            CreationOutcome::Failed => Err(ProtocolError::TransactionRejected),
            _ => {
                self.stage = Stage::AccountReady;
                Ok(())
            },
        }
    }

    /// The mutation instruction: the program as target, the instance account as its
    /// one writable, non-signing account, and a zeroed counter record as data.
    pub fn add_to_counter(&self) -> (r: Result<MutationInstruction, ProtocolError>)
        ensures
            r is Ok <==> account_gate(self.spec_stage()) is None && resolution(
                self.spec_stage(),
                self.spec_payer(),
                self.spec_program(),
            ) is Ok,
            r matches Ok(m) ==> resolution(self.spec_stage(), self.spec_payer(), self.spec_program())
                == Ok::<Seq<u8>, ProtocolError>(m.account@) && m.program_id@ == self.spec_program()
                && m.is_writable && !m.is_signer && m.data@ == le_bytes_u32(0),
            r matches Err(e) ==> account_gate(self.spec_stage()) == Some(e) || (account_gate(
                self.spec_stage(),
            ) is None && resolution(self.spec_stage(), self.spec_payer(), self.spec_program())
                == Err::<Seq<u8>, ProtocolError>(e)),
    {
        self.check_deployment()?;
        match self.stage {
            Stage::AccountReady => {},
            Stage::MutationSubmitted => {},
            _ => {
                return Err(ProtocolError::InstanceAccountNotReady);
            },
        }
        let account = self.resolve_instance_address()?;
        let data = CounterRecord::new().serialize();
        Ok(
            MutationInstruction {
                program_id: self.program,
                account,
                is_writable: true,
                is_signer: false,
                data,
            },
        )
    }

    /// Records whether the mutation transaction was confirmed. A rejected one leaves
    /// the session where it was, ready for another attempt.
    pub fn record_submission(&mut self, confirmed: bool) -> (r: Result<(), ProtocolError>)
        ensures
            r == submission_result(old(self).spec_stage(), confirmed),
            final(self).spec_stage() == (if r is Ok {
                Stage::MutationSubmitted
            } else {
                old(self).spec_stage()
            }),
            final(self).spec_payer() == old(self).spec_payer(),
            final(self).spec_program() == old(self).spec_program(),
            final(self).spec_url() == old(self).spec_url(),
    {
        self.check_deployment()?;
        match self.stage {
            Stage::AccountReady => {},
            Stage::MutationSubmitted => {},
            _ => {
                return Err(ProtocolError::InstanceAccountNotReady);
            },
        }
        if !confirmed {
            return Err(ProtocolError::TransactionRejected);
        }
        self.stage = Stage::MutationSubmitted;
        Ok(())
    }
}

} // verus!
