use vstd::prelude::*;

verus! {

/// Every way an operation of the client can fail.
#[derive(Debug, Clone, Copy, PartialEq, Eq, Structural)]
pub enum ProtocolError {
    /// An operation other than `connect` was attempted before a connection was made.
    ClientNotConnected,
    /// The program account exists but is not marked executable, or its deployment
    /// has not been confirmed before a step that needs it.
    AccountIsNotExecutable,
    /// The program's key material could not be read.
    KeyPairForProgramNotAvailable,
    /// No configuration file could be located.
    ConfigFilePathNotFound,
    /// The payer's key material or its account on the network is missing.
    KeyPairForPayerNotFound,
    /// The instance address could not be derived from its inputs.
    AccountDerivationFailure,
    /// The remote node could not be reached or answered with an error.
    NetworkFailure,
    /// The network refused a submitted transaction.
    TransactionRejected,
    /// A mutation was attempted before the instance account was known to exist.
    InstanceAccountNotReady,
}

} // verus!
