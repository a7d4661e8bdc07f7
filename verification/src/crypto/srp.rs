use vstd::prelude::*;

verus! {

/// Why an SRP exchange failed.
#[derive(Clone, Copy, Debug, PartialEq, Eq, Structural)]
pub enum SRPError {
    /// The modulus is not one that the module accepts.
    BadModulus,
    /// The protocol version is not one that the module knows.
    BadVersion,
    /// The server's proof is not the expected one: the password is wrong or
    /// somebody sits in the middle. The login must be aborted.
    ProofMismatch,
}

/// The client's side of an SRP exchange, as encoded strings.
#[derive(Clone, Debug, PartialEq, Eq)]
pub struct SRPResult {
    pub expected_server_proof: String,
    pub client_proof: String,
    pub client_ephemeral: String,
}

/// The credential that is registered with the server.
#[derive(Clone, Debug, PartialEq, Eq)]
pub struct SRPVerifier {
    pub modulus_id: String,
    pub version: u64,
    pub salt: String,
    pub verifier: String,
}

/// The computations of the Secure Remote Password protocol. An
/// implementation selects the hash and exponentiation scheme by the
/// protocol version.
pub trait SRPModule {
    /// Computes the client ephemeral, the client proof and the proof that
    /// is expected of the server, from the server's challenge.
    fn get_srp(
        &self,
        version: u64,
        modulus: String,
        server_ephemeral: String,
        salt: String,
        password: String,
    ) -> Result<SRPResult, SRPError>;

    /// Derives a fresh salt and the verifier of the password under it, for
    /// the current protocol version.
    fn get_srp_verifier(&self, password: String) -> Result<SRPVerifier, SRPError>;

    /// Derives the password that unlocks the locally held private keys.
    fn compute_key_password(&self, password: String, salt: String) -> Result<String, SRPError>;
}

impl SRPResult {
    /// Holds the proof that the server returned against the expected one.
    /// The session may be trusted only if this succeeds; on a mismatch the
    /// login is over.
    pub fn check_server_proof(&self, server_proof: &String) -> (r: Result<(), SRPError>)
        ensures
            r is Ok <==> server_proof@ == self.expected_server_proof@,
            r matches Err(e) ==> e == SRPError::ProofMismatch,
    {
        if *server_proof == self.expected_server_proof {
            Ok(())
        } else {
            Err(SRPError::ProofMismatch)
        }
    }
}

} // verus!
