//! Proofs attached to messages: creation rules and verification.
//!
//! Instants are microseconds since 1970-01-01T00:00:00 UTC.
use vstd::prelude::*;
use crate::error::VaultlessError;
use crate::text::{chars_of, chars_eq};

verus! {

/// A stored proof.
#[derive(Debug)]
pub struct MessageProof {
    pub id: u128,
    pub message_id: u128,
    pub content_hash: String,
    pub signature: String,
    pub public_key: String,
    pub algorithm: String,
    pub hash_algorithm: String,
    pub created_at: i64,
    pub verified_at: Option<i64>,
    pub verification_count: i32,
    /// Metadata as JSON text.
    pub proof_metadata: Option<String>,
}

/// A request to attach a proof.
#[derive(Debug)]
pub struct CreateProof {
    pub message_id: u128,
    pub content_hash: String,
    pub signature: String,
    pub public_key: String,
    pub algorithm: Option<String>,
    pub hash_algorithm: Option<String>,
    /// Metadata as JSON text.
    pub proof_metadata: Option<String>,
}

/// A request to verify a message's proof.
#[derive(Debug)]
pub struct VerifyProofRequest {
    pub message_id: u128,
    pub content_hash: String,
    pub signature: String,
    pub public_key: String,
}

/// The answer to a verification.
#[derive(Debug, Clone, Copy, PartialEq, Eq, Structural)]
pub struct ProofVerificationResult {
    pub is_valid: bool,
    pub message_id: u128,
    pub verified_at: i64,
    pub proof_id: u128,
}

/// The first rule a proof request breaks, if any: a content hash of exactly
/// 64 characters (a SHA-256 digest in hexadecimal), a non-empty signature
/// and public key.
pub open spec fn proof_violation(p: CreateProof) -> Option<Seq<char>> {
    if p.content_hash@.len() != 64 {
        Some("content_hash: length must be 64"@)
    } else if p.signature@.len() < 1 {
        Some("signature: length must be at least 1"@)
    } else if p.public_key@.len() < 1 {
        Some("public_key: length must be at least 1"@)
    } else {
        None
    }
}

impl CreateProof {
    /// Checks the request.
    pub fn validate(&self) -> (r: Result<(), VaultlessError>)
        ensures
            match proof_violation(*self) {
                None => r is Ok,
                Some(m) => r matches Err(VaultlessError::Validation(e)) && e@ == m,
            },
    {
        if self.content_hash.as_str().unicode_len() != 64 {
            return Err(VaultlessError::Validation(String::from_str("content_hash: length must be 64")));
        }
        if self.signature.as_str().unicode_len() < 1 {
            return Err(VaultlessError::Validation(String::from_str("signature: length must be at least 1")));
        }
        if self.public_key.as_str().unicode_len() < 1 {
            return Err(VaultlessError::Validation(String::from_str("public_key: length must be at least 1")));
        }
        Ok(())
    }

    /// The signature algorithm recorded: the requested one, else Ed25519.
    pub fn algorithm_or_default(&self) -> (s: String)
        ensures
            s@ == (match self.algorithm { Some(a) => a@, None => "Ed25519"@ }),
    {
        match &self.algorithm {
            Some(a) => a.clone(),
            None => String::from_str("Ed25519"),
        }
    }

    /// The hash algorithm recorded: the requested one, else SHA-256.
    pub fn hash_algorithm_or_default(&self) -> (s: String)
        ensures
            s@ == (match self.hash_algorithm { Some(a) => a@, None => "SHA-256"@ }),
    {
        match &self.hash_algorithm {
            Some(a) => a.clone(),
            None => String::from_str("SHA-256"),
        }
    }
}

impl MessageProof {
    /// Does the request present this proof's hash, signature and key?
    pub fn matches_request(&self, request: &VerifyProofRequest) -> (r: Result<(), VaultlessError>)
        ensures
            (self.content_hash@ == request.content_hash@ && self.signature@ == request.signature@
                && self.public_key@ == request.public_key@) ==> r is Ok,
            !(self.content_hash@ == request.content_hash@ && self.signature@ == request.signature@
                && self.public_key@ == request.public_key@)
                ==> (r matches Err(VaultlessError::InvalidProof(m)) && m@ == "Invalid proof"@),
    {
        if !chars_eq(&chars_of(self.content_hash.as_str()), &chars_of(request.content_hash.as_str()))
            || !chars_eq(&chars_of(self.signature.as_str()), &chars_of(request.signature.as_str()))
            || !chars_eq(&chars_of(self.public_key.as_str()), &chars_of(request.public_key.as_str())) {
            return Err(VaultlessError::InvalidProof(String::from_str("Invalid proof")));
        }
        Ok(())
    }

    /// The answer after the proof was marked verified: valid, at its first
    /// verification instant (or `now` when it has none).
    pub fn verification_result(&self, message_id: u128, now: i64) -> (r: ProofVerificationResult)
        ensures
            r == (ProofVerificationResult {
                is_valid: true,
                message_id,
                verified_at: match self.verified_at { Some(t) => t, None => now },
                proof_id: self.id,
            }),
    {
        ProofVerificationResult {
            is_valid: true,
            message_id,
            verified_at: match self.verified_at { Some(t) => t, None => now },
            proof_id: self.id,
        }
    }
}

} // verus!
