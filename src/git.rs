//! Records of the source-control client.
use vstd::prelude::*;
use rsa::pkcs8::EncodePrivateKey;
use rsa::traits::PublicKeyParts;
use crate::crypto::{base64_encode, base64_of};
use crate::error::PloyerError;
use crate::text::concat3;

verus! {

/// Handle of the source-control client; it keeps no state.
pub struct GitService;

/// Relies on rsa's `RsaPrivateKey::new` with `OsRng` and 4096 bits, its
/// public exponent and modulus (`BigUint::to_bytes_be`) and
/// `EncodePrivateKey::to_pkcs8_pem` with LF line endings. The key is random;
/// `new` fixes the exponent at 65537 and draws until the modulus has exactly
/// 4096 bits, so it is 512 bytes long.
#[verifier::external_body]
fn rsa_4096_keypair() -> (r: Option<(Vec<u8>, Vec<u8>, String)>)
    ensures
        r matches Some(t) ==> t.0@ == seq![1u8, 0, 1] && t.1@.len() == 512,
{
    let key = rsa::RsaPrivateKey::new(&mut rand::rngs::OsRng, 4096).ok()?;
    let pem = key.to_pkcs8_pem(rsa::pkcs8::LineEnding::LF).ok()?;
    Some((key.e().to_bytes_be(), key.n().to_bytes_be(), pem.to_string()))
}

/// The four big-endian bytes of a 32-bit length.
pub open spec fn u32_be(n: nat) -> Seq<u8> {
    seq![
        ((n / 0x100_0000) % 0x100) as u8,
        ((n / 0x1_0000) % 0x100) as u8,
        ((n / 0x100) % 0x100) as u8,
        (n % 0x100) as u8,
    ]
}

/// A length-prefixed string of the SSH wire format.
pub open spec fn ssh_string(b: Seq<u8>) -> Seq<u8> {
    u32_be(b.len()) + b
}

/// A big-endian magnitude as an SSH `mpint`: a zero byte goes in front when
/// the high bit is set, so that it reads as positive.
pub open spec fn mpint(b: Seq<u8>) -> Seq<u8> {
    if b.len() > 0 && b[0] >= 0x80 {
        seq![0u8] + b
    } else {
        b
    }
}

/// The bytes of `ssh-rsa`.
pub open spec fn ssh_rsa_name() -> Seq<u8> {
    seq![0x73u8, 0x73, 0x68, 0x2d, 0x72, 0x73, 0x61]
}

/// The public-key blob of an RSA key with exponent `e` and modulus `n`.
pub open spec fn ssh_rsa_blob(e: Seq<u8>, n: Seq<u8>) -> Seq<u8> {
    ssh_string(ssh_rsa_name()) + ssh_string(mpint(e)) + ssh_string(mpint(n))
}

/// Label of the public line of a deploy key.
pub open spec fn deploy_key_line(e: Seq<u8>, n: Seq<u8>) -> Seq<char> {
    "ssh-rsa "@ + base64_of(ssh_rsa_blob(e, n)) + " ployer-deploy-key"@
}

fn push_u32_be(v: &mut Vec<u8>, n: u32)
    ensures
        final(v)@ == old(v)@ + u32_be(n as nat),
{
    v.push((n / 0x100_0000) as u8);
    v.push(((n / 0x1_0000) % 0x100) as u8);
    v.push(((n / 0x100) % 0x100) as u8);
    v.push((n % 0x100) as u8);
    assert(final(v)@ =~= old(v)@ + u32_be(n as nat));
}

fn push_all(v: &mut Vec<u8>, b: &[u8])
    ensures
        final(v)@ == old(v)@ + b@,
{
    let mut i: usize = 0;
    while i < b.len()
        invariant
            0 <= i <= b@.len(),
            v@ == old(v)@ + b@.subrange(0, i as int),
        decreases b@.len() - i,
    {
        v.push(b[i]);
        i = i + 1;
        assert(v@ =~= old(v)@ + b@.subrange(0, i as int));
    }
    assert(b@.subrange(0, b@.len() as int) =~= b@);
}

fn push_mpint(v: &mut Vec<u8>, b: &[u8])
    requires
        b@.len() < 0xffff_ffff,
    ensures
        final(v)@ == old(v)@ + ssh_string(mpint(b@)),
{
    if b.len() > 0 && b[0] >= 0x80 {
        push_u32_be(v, (b.len() + 1) as u32);
        v.push(0u8);
        push_all(v, b);
    } else {
        push_u32_be(v, b.len() as u32);
        push_all(v, b);
    }
    assert(final(v)@ =~= old(v)@ + ssh_string(mpint(b@)));
}

/// The OpenSSH public line `ssh-rsa <base64 blob> ployer-deploy-key` of an
/// RSA key given by the big-endian bytes of its exponent and modulus.
pub fn openssh_public_key(e: &[u8], n: &[u8]) -> (r: String)
    requires
        e@.len() < 0xffff_ffff,
        n@.len() < 0xffff_ffff,
    ensures
        r@ == deploy_key_line(e@, n@),
{
    let mut blob: Vec<u8> = Vec::new();
    push_u32_be(&mut blob, 7);
    push_all(&mut blob, &[0x73u8, 0x73, 0x68, 0x2d, 0x72, 0x73, 0x61]);
    push_mpint(&mut blob, e);
    push_mpint(&mut blob, n);
    proof {
        assert(seq![0x73u8, 0x73, 0x68, 0x2d, 0x72, 0x73, 0x61] =~= ssh_rsa_name());
        assert(blob@ =~= ssh_rsa_blob(e@, n@));
    }
    let encoded = base64_encode(blob.as_slice());
    concat3("ssh-rsa ", encoded.as_str(), " ployer-deploy-key")
}

impl GitService {
    pub fn new() -> (r: GitService) {
        GitService
    }

    /// A fresh RSA-4096 deploy key: the OpenSSH public line and the PKCS#8
    /// PEM of the private key. It fails only when the key cannot be drawn
    /// or encoded.
    pub fn generate_deploy_key() -> (r: Result<(String, String), PloyerError>)
        ensures
            r matches Ok(k) ==> exists|n: Seq<u8>|
                n.len() == 512 && k.0@ == deploy_key_line(seq![1u8, 0, 1], n),
            r matches Err(e) ==> e is Ssh,
    {
        match rsa_4096_keypair() {
            Some((e, n, pem)) => deploy_key_from_parts(e.as_slice(), n.as_slice(), pem),
            None => Err(PloyerError::Ssh(String::from_str("Failed to generate private key"))),
        }
    }
}

/// The deploy key of an RSA key given by the big-endian bytes of its
/// exponent and modulus and the PEM of its private half. A component too
/// long for the SSH wire format is an error.
pub fn deploy_key_from_parts(e: &[u8], n: &[u8], pem: String) -> (r: Result<
    (String, String),
    PloyerError,
>)
    ensures
        r is Err <==> e@.len() >= 0xffff_ffff || n@.len() >= 0xffff_ffff,
        r matches Err(x) ==> x is Ssh,
        r matches Ok(k) ==> k.0@ == deploy_key_line(e@, n@) && k.1 == pem,
{
    if e.len() >= 0xffff_ffff || n.len() >= 0xffff_ffff {
        return Err(PloyerError::Ssh(String::from_str("Key component too long")));
    }
    Ok((openssh_public_key(e, n), pem))
}

/// The head commit of a clone.
#[derive(Clone, Debug)]
pub struct CommitInfo {
    pub sha: String,
    pub message: String,
    pub author: String,
    pub timestamp: i64,
}

} // verus!
