//! Detached-signature verification. The signature file is de-armored and
//! scanned for its first signature packet; that packet's issuer key id picks
//! the candidate subkey out of the trusted keyring (lookup-first, failing
//! closed on an unknown issuer); the cryptographic check then runs over the
//! binary's exact bytes.

use crate::keyring::{spec_raw_for, KeyEntry, TrustedKeyring};
use vstd::prelude::*;

verus! {

/// Why verification failed. `UntrustedIssuer` (wrong signer) is kept apart
/// from `SignatureInvalid` (content or signature corrupted).
#[derive(Clone, Copy, Debug, PartialEq, Eq, Structural)]
pub enum VerifyError {
    /// The signature file holds no signature packet.
    MissingSignature,
    /// The first signature packet names no issuer key id.
    NoIssuer,
    /// The issuer's key id is not in the trusted keyring.
    UntrustedIssuer,
    /// The cryptographic check failed over the binary's content.
    SignatureInvalid,
}

/// What scanning the signature file for its first signature packet found.
/// Only the first packet is ever consulted; later packets are ignored.
#[derive(Clone, Copy, Debug, PartialEq, Eq, Structural)]
pub enum IssuerScan {
    /// No signature packet at all.
    NoSignaturePackets,
    /// The first signature packet names no issuer.
    FirstWithoutIssuer,
    /// The first signature packet names this issuer key id.
    FirstIssuedBy(u64),
}

/// What the scan of a signature file finds: nothing, a first signature packet
/// without an issuer, or the first packet's first issuer key id read as a
/// big-endian integer. A function of the file bytes alone.
pub uninterp spec fn scan_of(signature_file: Seq<u8>) -> IssuerScan;

/// Whether the first signature packet of the signature file checks out
/// cryptographically, with the subkey parsed from the given serialized
/// public-key packet, over the given content. A function of these three byte
/// strings alone; which combinations pass is the crypto library's judgement.
pub uninterp spec fn crypto_ok_of(
    signature_file: Seq<u8>,
    subkey_packet: Seq<u8>,
    content: Seq<u8>,
) -> bool;

/// The verdict that the scan of the signature file and the set of trusted key
/// ids determine, before any cryptography runs: which error the scan already
/// settles, or which trusted issuer the cryptographic check must use.
pub open spec fn issuer_verdict(scan: IssuerScan, trusted: Seq<u64>) -> Result<u64, VerifyError> {
    match scan {
        IssuerScan::NoSignaturePackets => Err(VerifyError::MissingSignature),
        IssuerScan::FirstWithoutIssuer => Err(VerifyError::NoIssuer),
        IssuerScan::FirstIssuedBy(id) => if trusted.contains(id) {
            Ok(id)
        } else {
            Err(VerifyError::UntrustedIssuer)
        },
    }
}

/// The whole verification verdict as a function of the signature file's
/// bytes, the binary's bytes and the keyring: the error the first-packet scan
/// settles, or, for a trusted issuer, the cryptographic outcome over the
/// subkey packet the keyring holds first under that id.
pub open spec fn spec_verify(
    signature_file: Seq<u8>,
    content: Seq<u8>,
    keyring: TrustedKeyring,
) -> Result<(), VerifyError> {
    match issuer_verdict(scan_of(signature_file), keyring@) {
        Err(e) => Err(e),
        Ok(id) => if crypto_ok_of(signature_file, spec_raw_for(keyring.spec_table(), id), content) {
            Ok(())
        } else {
            Err(VerifyError::SignatureInvalid)
        },
    }
}

/// Relies on pgp's Dearmor, PacketParser and Signature::issuer_key_id:
/// de-armors what decodes (a broken or truncated armor contributes the bytes
/// decoded before the break; its error is a value, never followed by another
/// read), then walks the decoded packets in order to the first signature
/// packet and reads that packet's first issuer key id, if any, as a
/// big-endian integer. A packet whose body does not parse is skipped; one
/// whose header does not parse ends the stream.
#[verifier::external_body]
fn scan_signature_file(bytes: &[u8]) -> (r: IssuerScan)
    ensures
        r == scan_of(bytes@),
{
    let mut decoded = Vec::new();
    let _ = std::io::Read::read_to_end(&mut pgp::armor::Dearmor::new(bytes), &mut decoded);
    let first = pgp::packet::PacketParser::new(decoded.as_slice()).find_map(|p| match p {
        Ok(pgp::packet::Packet::Signature(sig)) => Some(sig),
        _ => None,
    });
    match first.map(|sig| sig.issuer_key_id().first().map(|kid| kid.as_ref().to_vec())) {
        None => IssuerScan::NoSignaturePackets,
        Some(None) => IssuerScan::FirstWithoutIssuer,
        Some(Some(kid)) => IssuerScan::FirstIssuedBy(u64::from_be_bytes(
            kid.try_into().expect("key ids are 8 bytes"),
        )),
    }
}

/// Relies on pgp's PacketParser, Dearmor and Signature::verify: parses the
/// subkey back out of its serialized packet, de-armors the signature file the
/// same way the scan does (what decodes before any break; the error is a
/// value, never followed by another read), takes its first signature packet,
/// and checks it cryptographically over the given content. The outcome is a
/// function of the three byte strings alone. (For the binary-type signatures
/// this launcher consumes, pgp hashes exactly the given content; a text-type
/// signature would have its line endings normalized first — still a function
/// of these arguments.)
#[verifier::external_body]
fn check_first_signature(signature_file: &[u8], subkey_packet: &[u8], content: &[u8]) -> (r: bool)
    ensures
        r == crypto_ok_of(signature_file@, subkey_packet@, content@),
{
    let parsed_key = pgp::packet::PacketParser::new(subkey_packet).next();
    let Some(Ok(pgp::packet::Packet::PublicSubkey(key))) = parsed_key else {
        return false;
    };
    let mut decoded = Vec::new();
    let _ = std::io::Read::read_to_end(&mut pgp::armor::Dearmor::new(signature_file), &mut decoded);
    let first = pgp::packet::PacketParser::new(decoded.as_slice()).find_map(|p| match p {
        Ok(pgp::packet::Packet::Signature(sig)) => Some(sig),
        _ => None,
    });
    match first {
        Some(sig) => sig.verify(&key, content).is_ok(),
        None => false,
    }
}

/// Looks the scanned issuer up in the keyring and returns exactly the verdict
/// the scan and the keyring determine: an unknown issuer fails closed as
/// `UntrustedIssuer`, and the entry that comes back is the trusted issuer's.
pub fn resolve_issuer<'a>(keyring: &'a TrustedKeyring, scan: IssuerScan) -> (r: Result<
    &'a KeyEntry,
    VerifyError,
>)
    ensures
        match issuer_verdict(scan, keyring@) {
            Ok(id) => r matches Ok(entry) && entry.spec_id() == id && keyring@.contains(id)
                && entry.spec_raw() == spec_raw_for(keyring.spec_table(), id),
            Err(err) => r matches Err(e) && e == err,
        },
{
    match scan {
        IssuerScan::NoSignaturePackets => Err(VerifyError::MissingSignature),
        IssuerScan::FirstWithoutIssuer => Err(VerifyError::NoIssuer),
        IssuerScan::FirstIssuedBy(id) => match keyring.find_subkey(id) {
            Some(entry) => Ok(entry),
            None => Err(VerifyError::UntrustedIssuer),
        },
    }
}

/// The verification verdict determined by the cryptographic result alone:
/// success when the signature held over the content, `SignatureInvalid` when
/// it did not.
pub fn crypto_verdict(passed: bool) -> (r: Result<(), VerifyError>)
    ensures
        r == if passed {
            Ok::<(), VerifyError>(())
        } else {
            Err::<(), VerifyError>(VerifyError::SignatureInvalid)
        },
{
    if passed {
        Ok(())
    } else {
        Err(VerifyError::SignatureInvalid)
    }
}

/// Verifies the detached signature file over the binary's exact bytes against
/// the trusted keyring: the result is `spec_verify` of the two byte contents
/// and the keyring. The first signature packet found is the only one
/// consulted: no packet fails with `MissingSignature`, a packet without an
/// issuer with `NoIssuer`, an issuer the keyring does not hold with
/// `UntrustedIssuer`, and a failed cryptographic check with
/// `SignatureInvalid`. Nothing is mutated; an empty keyring can never succeed
/// and never reaches the cryptographic check.
pub fn verify(binary: &[u8], signature_file: &[u8], keyring: &TrustedKeyring) -> (r: Result<
    (),
    VerifyError,
>)
    ensures
        r == spec_verify(signature_file@, binary@, *keyring),
        r is Ok ==> keyring@.len() > 0,
        keyring@.len() == 0 ==> (r matches Err(e) && e != VerifyError::SignatureInvalid),
{
    let scan = scan_signature_file(signature_file);
    let entry = match resolve_issuer(keyring, scan) {
        Ok(entry) => entry,
        Err(e) => {
            return Err(e);
        },
    };
    let passed = check_first_signature(signature_file, entry.raw_packet().as_slice(), binary);
    crypto_verdict(passed)
}

/// Verification soundness: the verdict succeeds exactly when the file's
/// first-packet scan names an issuer the keyring trusts and the cryptographic
/// check passes, over that issuer's subkey packet, on the binary's exact
/// bytes.
pub proof fn lemma_verification_soundness(
    signature_file: Seq<u8>,
    content: Seq<u8>,
    keyring: TrustedKeyring,
)
    ensures
        spec_verify(signature_file, content, keyring) == Ok::<(), VerifyError>(()) <==> (
        issuer_verdict(scan_of(signature_file), keyring@) matches Ok(id) && crypto_ok_of(
            signature_file,
            spec_raw_for(keyring.spec_table(), id),
            content,
        )),
{
}

/// The pre-crypto half of soundness: the issuer verdict admits exactly the
/// scans whose first signature packet names an issuer the keyring trusts, and
/// the issuer it admits is that one.
pub proof fn lemma_issuer_soundness(scan: IssuerScan, trusted: Seq<u64>)
    ensures
        issuer_verdict(scan, trusted) is Ok <==> (scan matches IssuerScan::FirstIssuedBy(id)
            && trusted.contains(id)),
        issuer_verdict(scan, trusted) matches Ok(id) ==> scan == IssuerScan::FirstIssuedBy(id),
{
}

/// A signature issued by a key the keyring does not hold is rejected as
/// `UntrustedIssuer` — never as `SignatureInvalid`: the wrong signer is kept
/// apart from a corrupted signature.
pub proof fn lemma_untrusted_issuer_rejected(
    signature_file: Seq<u8>,
    content: Seq<u8>,
    keyring: TrustedKeyring,
    issuer: u64,
)
    requires
        scan_of(signature_file) == IssuerScan::FirstIssuedBy(issuer),
        !keyring@.contains(issuer),
    ensures
        spec_verify(signature_file, content, keyring) == Err::<(), VerifyError>(
            VerifyError::UntrustedIssuer,
        ),
{
}

} // verus!
