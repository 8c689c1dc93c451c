//! DTLS-SRTP key derivation (RFC 5764).

use vstd::prelude::*;
use crate::models::errors::RustTgCallsError;
use crate::utils::text::{push_str, push_char};

verus! {

/// The RFC 5764 exporter label of the SRTP keying material.
pub const DTLS_SRTP_EXPORTER_LABEL: &'static str = "EXTRACTOR-dtls_srtp";

/// The SRTP protection profiles the transport negotiates.
#[derive(Debug, Clone, Copy, PartialEq, Eq, Structural)]
pub enum ProtectionProfile {
    AeadAes128Gcm,
    Aes128CmHmacSha1_80,
}

/// The salt length of a profile.
pub open spec fn spec_salt_len(p: ProtectionProfile) -> nat {
    match p {
        ProtectionProfile::AeadAes128Gcm => 12,
        ProtectionProfile::Aes128CmHmacSha1_80 => 14,
    }
}

impl ProtectionProfile {
    /// The master key length: 16 bytes for both profiles.
    pub fn key_len(&self) -> (out: usize)
        ensures
            out == 16,
    {
        16
    }

    /// The master salt length: 12 bytes for AES-GCM, 14 for AES-CM.
    pub fn salt_len(&self) -> (out: usize)
        ensures
            out == spec_salt_len(*self),
    {
        match self {
            ProtectionProfile::AeadAes128Gcm => 12,
            ProtectionProfile::Aes128CmHmacSha1_80 => 14,
        }
    }
}

/// The four parts of the keying material, in RFC 5764 §4.2 order:
/// client key, server key, client salt, server salt.
pub open spec fn keying_parts(m: Seq<u8>, salt: nat) -> (Seq<u8>, Seq<u8>, Seq<u8>, Seq<u8>) {
    (
        m.subrange(0, 16),
        m.subrange(16, 32),
        m.subrange(32, 32 + salt as int),
        m.subrange(32 + salt as int, 32 + 2 * salt as int),
    )
}

fn copy_key(m: &[u8], at: usize) -> (out: [u8; 16])
    requires
        at + 16 <= m@.len(),
    ensures
        out@ == m@.subrange(at as int, at + 16),
{
    let mut k: [u8; 16] = [0u8; 16];
    let n: usize = m.len();
    let mut i: usize = 0;
    while i < 16
        invariant
            i <= 16,
            n == m@.len(),
            at + 16 <= m@.len(),
            forall|j: int| 0 <= j < i ==> k@[j] == m@[at + j],
        decreases 16 - i,
    {
        k.set(i, m[at + i]);
        i = i + 1;
    }
    assert(k@ =~= m@.subrange(at as int, at + 16));
    k
}

fn copy_bytes(m: &[u8], lo: usize, hi: usize) -> (out: Vec<u8>)
    requires
        lo <= hi <= m@.len(),
    ensures
        out@ == m@.subrange(lo as int, hi as int),
{
    let mut v: Vec<u8> = Vec::new();
    let mut i: usize = lo;
    while i < hi
        invariant
            lo <= i <= hi,
            hi <= m@.len(),
            v@ == m@.subrange(lo as int, i as int),
        decreases hi - i,
    {
        v.push(m[i]);
        assert(m@.subrange(lo as int, i as int + 1) =~= m@.subrange(lo as int, i as int).push(m@[i as int]));
        i = i + 1;
    }
    v
}

/// Splits exported keying material into (server key, server salt, client
/// key, client salt). The material must hold two keys and two salts.
pub fn derive_srtp_keying_material_both(material: &[u8], profile: ProtectionProfile)
    -> (out: Result<([u8; 16], Vec<u8>, [u8; 16], Vec<u8>), RustTgCallsError>)
    ensures
        material@.len() < 2 * (16 + spec_salt_len(profile)) ==> (out matches Err(RustTgCallsError::InvalidParams(m))
            && m@ == "keying material buffer too small"@),
        material@.len() >= 2 * (16 + spec_salt_len(profile)) ==> (out matches Ok((sk, ss, ck, cs))
            && ck@ == keying_parts(material@, spec_salt_len(profile)).0
            && sk@ == keying_parts(material@, spec_salt_len(profile)).1
            && cs@ == keying_parts(material@, spec_salt_len(profile)).2
            && ss@ == keying_parts(material@, spec_salt_len(profile)).3),
{
    let key_len = profile.key_len();
    let salt_len = profile.salt_len();
    let total_len = 2 * (key_len + salt_len);
    if material.len() < total_len {
        return Err(RustTgCallsError::InvalidParams(String::from_str("keying material buffer too small")));
    }
    let client_key = copy_key(material, 0);
    let server_key = copy_key(material, key_len);
    let client_salt = copy_bytes(material, 2 * key_len, 2 * key_len + salt_len);
    let server_salt = copy_bytes(material, 2 * key_len + salt_len, 2 * key_len + 2 * salt_len);
    Ok((server_key, server_salt, client_key, client_salt))
}

/// The server half of the keying material (server key, server salt): we
/// are the DTLS server, so this half feeds our encryption.
pub fn derive_srtp_keying_material(material: &[u8], profile: ProtectionProfile)
    -> (out: Result<([u8; 16], Vec<u8>), RustTgCallsError>)
    ensures
        material@.len() < 2 * (16 + spec_salt_len(profile)) ==> (out matches Err(RustTgCallsError::InvalidParams(m))
            && m@ == "keying material buffer too small"@),
        material@.len() >= 2 * (16 + spec_salt_len(profile)) ==> (out matches Ok((sk, ss))
            && sk@ == keying_parts(material@, spec_salt_len(profile)).1
            && ss@ == keying_parts(material@, spec_salt_len(profile)).3),
{
    match derive_srtp_keying_material_both(material, profile) {
        Ok((server_key, server_salt, _client_key, _client_salt)) => Ok((server_key, server_salt)),
        Err(e) => Err(e),
    }
}

/// The four parts tile the first `2 * (16 + salt)` bytes of the material
/// without gap or overlap.
pub proof fn lemma_keying_parts_tile(m: Seq<u8>, salt: nat)
    requires
        m.len() >= 2 * (16 + salt),
    ensures
        ({
            let (ck, sk, cs, ss) = keying_parts(m, salt);
            ck + sk + cs + ss == m.take(2 * (16 + salt) as int)
                && ck.len() == 16 && sk.len() == 16 && cs.len() == salt && ss.len() == salt
        }),
{
    let (ck, sk, cs, ss) = keying_parts(m, salt);
    assert(ck + sk + cs + ss =~= m.take(2 * (16 + salt) as int));
}

/// A lower-case hexadecimal digit.
pub open spec fn hex_digit(d: nat) -> char {
    if d < 10 { crate::utils::text::digit_char(d) }
    else if d == 10 { 'a' }
    else if d == 11 { 'b' }
    else if d == 12 { 'c' }
    else if d == 13 { 'd' }
    else if d == 14 { 'e' }
    else { 'f' }
}

/// Four lower-case hexadecimal digits (`{:04x}`).
pub open spec fn hex4(v: nat) -> Seq<char> {
    seq![hex_digit((v / 4096) % 16), hex_digit((v / 256) % 16), hex_digit((v / 16) % 16), hex_digit(v % 16)]
}

fn hex_digit_exec(d: u16) -> (out: char)
    requires
        d < 16,
    ensures
        out == hex_digit(d as nat),
{
    if d == 0 { '0' }
    else if d == 1 { '1' }
    else if d == 2 { '2' }
    else if d == 3 { '3' }
    else if d == 4 { '4' }
    else if d == 5 { '5' }
    else if d == 6 { '6' }
    else if d == 7 { '7' }
    else if d == 8 { '8' }
    else if d == 9 { '9' }
    else if d == 10 { 'a' }
    else if d == 11 { 'b' }
    else if d == 12 { 'c' }
    else if d == 13 { 'd' }
    else if d == 14 { 'e' }
    else { 'f' }
}

/// What `translate_profile` decides for an IANA DTLS-SRTP profile value.
pub open spec fn spec_translate_profile(v: u16) -> Result<ProtectionProfile, Seq<char>> {
    if v == 7 {
        Ok(ProtectionProfile::AeadAes128Gcm)
    } else if v == 1 {
        Ok(ProtectionProfile::Aes128CmHmacSha1_80)
    } else {
        Err("unsupported SRTP profile value 0x"@ + hex4(v as nat))
    }
}

/// Maps an IANA DTLS-SRTP profile value to a protection profile:
/// `0x0007` is AES-128-GCM, `0x0001` is AES-128-CM-HMAC-SHA1-80.
pub fn translate_profile(iana_val: u16) -> (out: Result<ProtectionProfile, RustTgCallsError>)
    ensures
        match spec_translate_profile(iana_val) {
            Ok(p) => out == Ok::<ProtectionProfile, RustTgCallsError>(p),
            Err(m) => out matches Err(RustTgCallsError::InvalidParams(s)) && s@ == m,
        },
{
    if iana_val == 0x0007 {
        Ok(ProtectionProfile::AeadAes128Gcm)
    } else if iana_val == 0x0001 {
        Ok(ProtectionProfile::Aes128CmHmacSha1_80)
    } else {
        let mut m = String::from_str("unsupported SRTP profile value 0x");
        push_char(&mut m, hex_digit_exec((iana_val / 4096) % 16));
        push_char(&mut m, hex_digit_exec((iana_val / 256) % 16));
        push_char(&mut m, hex_digit_exec((iana_val / 16) % 16));
        push_char(&mut m, hex_digit_exec(iana_val % 16));
        assert(m@ =~= "unsupported SRTP profile value 0x"@ + hex4(iana_val as nat));
        Err(RustTgCallsError::InvalidParams(m))
    }
}

/// The protection profile to key SRTP with after a DTLS handshake that
/// negotiated the IANA profile value `iana_val`: the one `translate_profile`
/// names, and AES-128-CM-HMAC-SHA1-80 for any value it does not know.
pub fn negotiated_profile(iana_val: u16) -> (out: ProtectionProfile)
    ensures
        out == (if iana_val == 0x0007 { ProtectionProfile::AeadAes128Gcm } else { ProtectionProfile::Aes128CmHmacSha1_80 }),
{
    match translate_profile(iana_val) {
        Ok(p) => p,
        Err(_) => ProtectionProfile::Aes128CmHmacSha1_80,
    }
}

} // verus!
