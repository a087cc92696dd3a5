//! Argon2id over the PIN.
//!
//! This does not produce the store's key. It produces the key that unwraps the
//! store's key: a 6-digit PIN has 10⁶ values, and the KDF's cost is what makes
//! each guess expensive for someone who already holds the protected blob.
//!
//! The parameters live in the key material file, not in this binary, so the
//! cost can be raised later without making existing stores unopenable.

use vstd::prelude::*;

use argon2::{Algorithm, Argon2, Block, Params, Version};

use crate::crypto::fill_random;
use crate::crypto::pin::Pin;
use crate::error::{ClipError, CryptoReason, ErrorView};
use crate::text::{decimal, decimal_text};

verus! {

/// The salt's length in bytes.
pub const SALT_LEN: usize = 16;

/// The wrapping key's length. XChaCha20-Poly1305 takes 256 bits.
pub const WRAP_KEY_LEN: usize = 32;

/// OWASP's minimum memory cost for Argon2id, and this build's floor.
pub const MIN_M_COST_KIB: u32 = 19456;

/// OWASP's minimum iteration count.
pub const MIN_T_COST: u32 = 2;

/// Fixed: one lane. Not a range.
pub const P_COST: u32 = 1;

/// A ceiling, so a damaged file cannot make this process allocate its way out
/// of memory.
pub const MAX_M_COST_KIB: u32 = 1048576;

/// Likewise for the iteration count.
pub const MAX_T_COST: u32 = 64;

/// The memory cost this build writes into a new key material file: 128 MiB.
pub const DEFAULT_M_COST_KIB: u32 = 131072;

/// The iteration count this build writes into a new key material file.
pub const DEFAULT_T_COST: u32 = 3;

/// Whether this build will run a parameter tuple: within the floor and the
/// ceiling, one lane. Below the floor is refused, never raised, because a
/// different cost derives a different key and would read as a wrong PIN.
pub open spec fn params_acceptable(m_cost_kib: u32, t_cost: u32, p_cost: u32) -> bool {
    &&& MIN_M_COST_KIB <= m_cost_kib <= MAX_M_COST_KIB
    &&& MIN_T_COST <= t_cost <= MAX_T_COST
    &&& p_cost == P_COST
}

/// The KDF settings a particular key material file was written with.
#[derive(Clone, Copy, PartialEq, Eq)]
pub struct KdfParams {
    pub m_cost_kib: u32,
    pub t_cost: u32,
    pub p_cost: u32,
    pub salt: [u8; SALT_LEN],
}

impl KdfParams {
    /// How the parameters read in a log line: the costs, and the salt, which
    /// is key material, redacted.
    pub fn describe(&self) -> (r: String)
        ensures
            r@ == "KdfParams { m_cost_kib: "@ + decimal(self.m_cost_kib as nat) + ", t_cost: "@
                + decimal(self.t_cost as nat) + ", p_cost: "@ + decimal(self.p_cost as nat)
                + ", salt: \"<redacted>\" }"@,
    {
        let mut text = String::from_str("KdfParams { m_cost_kib: ");
        text.append(decimal_text(self.m_cost_kib as u64).as_str());
        text.append(", t_cost: ");
        text.append(decimal_text(self.t_cost as u64).as_str());
        text.append(", p_cost: ");
        text.append(decimal_text(self.p_cost as u64).as_str());
        text.append(", salt: \"<redacted>\" }");
        text
    }

    /// Fresh parameters at this build's cost, with a new random salt.
    pub fn generate() -> (r: Result<KdfParams, ClipError>)
        ensures
            r matches Ok(p) ==> p.m_cost_kib == DEFAULT_M_COST_KIB && p.t_cost == DEFAULT_T_COST
                && p.p_cost == P_COST,
            r matches Err(e) ==> e@ == ErrorView::Storage,
    {
        let mut salt = [0u8; SALT_LEN];
        match fill_random(&mut salt) {
            Ok(()) => {},
            Err(error) => return Err(error),
        }
        Ok(KdfParams { m_cost_kib: DEFAULT_M_COST_KIB, t_cost: DEFAULT_T_COST, p_cost: P_COST, salt })
    }

    /// Reject parameters this build will not run, as
    /// `crypto { bad_key_material }`.
    pub fn validate(&self) -> (r: Result<(), ClipError>)
        ensures
            params_acceptable(self.m_cost_kib, self.t_cost, self.p_cost) <==> r is Ok,
            r matches Err(e) ==> e@ == (ErrorView::Crypto { reason: CryptoReason::BadKeyMaterial }),
    {
        let within_bounds = self.m_cost_kib >= MIN_M_COST_KIB && self.m_cost_kib <= MAX_M_COST_KIB
            && self.t_cost >= MIN_T_COST && self.t_cost <= MAX_T_COST && self.p_cost == P_COST;
        if within_bounds {
            return Ok(());
        }
        Err(ClipError::Crypto { reason: CryptoReason::BadKeyMaterial })
    }
}

/// The tuple this build writes passes the check every reader applies, or a new
/// store would be refused at the next launch.
pub proof fn lemma_default_params_acceptable()
    ensures
        params_acceptable(DEFAULT_M_COST_KIB, DEFAULT_T_COST, P_COST),
{
}

/// The key that wraps the DEK. Never the store's key. No `Debug`.
#[derive(Clone)]
pub struct WrapKey([u8; WRAP_KEY_LEN]);

impl View for WrapKey {
    type V = Seq<u8>;

    closed spec fn view(&self) -> Seq<u8> {
        self.0@
    }
}

impl WrapKey {
    /// How the key reads in a log line: a fixed string.
    pub fn describe(&self) -> (r: String)
        ensures
            r@ == "WrapKey(<redacted>)"@,
    {
        String::from_str("WrapKey(<redacted>)")
    }

    /// Overwrite the key with zeroes. Call it before the key is dropped.
    pub fn wipe(&mut self)
        ensures
            final(self)@ == crate::crypto::zero_key(),
    {
        crate::crypto::wipe_key_bytes(&mut self.0);
    }

    pub fn expose(&self) -> (r: &[u8; WRAP_KEY_LEN])
        ensures
            r@ == self@,
    {
        &self.0
    }
}

/// What Argon2id (version 0x13, 32-byte output) derives from a password, a
/// salt and a cost tuple, or `None` where the argon2 crate refuses the
/// parameters or the inputs.
pub uninterp spec fn argon2id_output(
    password: Seq<u8>,
    salt: Seq<u8>,
    m_cost_kib: u32,
    t_cost: u32,
    p_cost: u32,
) -> Option<Seq<u8>>;

/// Run Argon2id (`argon2::Argon2::hash_password_into_with_memory`), with the
/// block memory allocated here and wiped afterwards (`Zeroize` for the
/// blocks, which argon2's `zeroize` feature provides).
///
/// Only a tuple this build accepts is handed over: `Params::new` multiplies
/// the lane count, which a damaged file could make overflow. The output is a
/// function of the arguments alone, and is named rather than stated: the
/// contract says only that it is `argon2id_output` of them.
#[verifier::external_body]
fn argon2id(password: &[u8], salt: &[u8; SALT_LEN], m_cost_kib: u32, t_cost: u32, p_cost: u32) -> (r: Option<[u8; WRAP_KEY_LEN]>)
    requires
        params_acceptable(m_cost_kib, t_cost, p_cost),
    ensures
        r is Some == argon2id_output(password@, salt@, m_cost_kib, t_cost, p_cost) is Some,
        r matches Some(k) ==> argon2id_output(password@, salt@, m_cost_kib, t_cost, p_cost) == Some(k@),
{
    let params = match Params::new(m_cost_kib, t_cost, p_cost, Some(WRAP_KEY_LEN)) {
        Ok(params) => params,
        Err(_) => return None,
    };
    let mut blocks = vec![Block::default(); params.block_count()];
    let mut derived = [0u8; WRAP_KEY_LEN];
    let outcome = Argon2::new(Algorithm::Argon2id, Version::V0x13, params)
        .hash_password_into_with_memory(password, salt, &mut derived, &mut blocks);
    zeroize::Zeroize::zeroize(&mut blocks);
    match outcome {
        Ok(()) => Some(derived),
        Err(_) => None,
    }
}

/// The wrapping key a PIN derives under a parameter tuple, if any.
pub open spec fn derived_key(pin: Seq<char>, params: KdfParams) -> Option<Seq<u8>> {
    if params_acceptable(params.m_cost_kib, params.t_cost, params.p_cost) {
        argon2id_output(vstd::utf8::encode_utf8(pin), params.salt@, params.m_cost_kib, params.t_cost, params.p_cost)
    } else {
        None
    }
}

/// Derive the wrapping key from a PIN and the parameters that store was
/// written with. Parameters this build will not run, or that the KDF refuses,
/// are `crypto { bad_key_material }`, checked before anything is allocated.
pub fn derive(pin: &Pin, params: &KdfParams) -> (r: Result<WrapKey, ClipError>)
    ensures
        match derived_key(pin@, *params) {
            Some(k) => r matches Ok(w) && w@ == k,
            None => r matches Err(e) && e@ == (ErrorView::Crypto { reason: CryptoReason::BadKeyMaterial }),
        },
{
    params.validate()?;
    match argon2id(pin.expose(), &params.salt, params.m_cost_kib, params.t_cost, params.p_cost) {
        Some(derived) => Ok(WrapKey(derived)),
        None => Err(ClipError::Crypto { reason: CryptoReason::BadKeyMaterial }),
    }
}

} // verus!
