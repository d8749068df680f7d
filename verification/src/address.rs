//! Reward-address validation, run once at startup: a checksum-protected text
//! decode, a whitelist of recognized prefixes, a payload version byte, a
//! length floor, and an elliptic-curve point decompression.  The core never
//! reads the decoded point; it only needs the address to be valid.

use vstd::prelude::*;
use vstd::slice::slice_subrange;
use vstd::string::StringExecFns;

use crate::rpc::Arguments;

verus! {

/// What a checksum-protected decode of an address string yields: the
/// lowercased human-readable part and the byte payload, or nothing when the
/// string or its checksum is bad.  A function of the string alone.
pub uninterp spec fn bech32_parsed(s: Seq<char>) -> Option<(Seq<char>, Seq<u8>)>;

/// Relies on bech32::decode (with Hrp::to_lowercase): verifies the checksum
/// and hands back the human-readable part and the byte payload; the outcome
/// depends on the string alone.
#[verifier::external_body]
fn bech32_decode(s: &str) -> (r: Result<(String, Vec<u8>), String>)
    ensures
        (r is Ok) <==> (bech32_parsed(s@) is Some),
        r matches Ok(p) ==> bech32_parsed(s@) == Some((p.0@, p.1@)),
{
    match bech32::decode(s) {
        Ok((hrp, data)) => Ok((hrp.to_lowercase(), data)),
        Err(e) => Err(e.to_string()),
    }
}

#[verifier::external_type_specification]
#[verifier::external_body]
pub struct ExG1(substrate_bn::G1);

/// Whether 33 compressed-point bytes name a point on the curve: their first
/// 32 bytes must encode a field element whose cube plus the curve constant
/// has a square root there.  A function of the bytes alone.
pub uninterp spec fn g1_point_valid(bytes: Seq<u8>) -> bool;

/// Relies on substrate_bn's Fq::from_slice, the Fq arithmetic operators,
/// G1::b, Fq::sqrt and AffineG1::new: decompresses 33 bytes (32 x-coordinate
/// bytes and a sign byte this construction reads but does not apply) into a
/// curve point.  Every step is a function of the bytes alone.
#[verifier::external_body]
fn g1_decompress(bytes: &[u8]) -> (r: Option<substrate_bn::G1>)
    requires
        bytes@.len() == 33,
    ensures
        (r is Some) == g1_point_valid(bytes@),
{
    let fq = match substrate_bn::Fq::from_slice(&bytes[0..32]) {
        Ok(f) => f,
        Err(_) => return None,
    };
    let y_squared = (fq * fq * fq) + substrate_bn::G1::b();
    let y = match y_squared.sqrt() {
        Some(y) => y,
        None => return None,
    };
    match substrate_bn::AffineG1::new(fq, y) {
        Ok(p) => Some(p.into()),
        Err(_) => None,
    }
}

/// Decompress a reversed-sign compressed point: exactly 33 bytes whose first
/// 32 must name a valid curve point.
pub fn from_compressed_reversed_sign(bytes: &[u8]) -> (r: Option<substrate_bn::G1>)
    ensures
        (r is Some) <==> (bytes@.len() == 33 && g1_point_valid(bytes@)),
{
    if bytes.len() != 33 {
        return None;
    }
    g1_decompress(bytes)
}

/// The recognized address prefixes.
pub open spec fn hrp_accepted(hrp: Seq<char>) -> bool {
    ||| hrp == "dero"@
    ||| hrp == "deroi"@
    ||| hrp == "deto"@
    ||| hrp == "detoi"@
    ||| hrp == "deroproof"@
}

/// Every prefix but the testnet pair names the main network.
pub open spec fn hrp_mainnet(hrp: Seq<char>) -> bool {
    !(hrp == "deto"@ || hrp == "detoi"@)
}

/// A string is a valid address: it decodes under the checksum, carries a
/// recognized prefix, payload version byte 1, at least 33 further payload
/// bytes, and a public key that lies on the curve.
pub open spec fn address_ok(s: Seq<char>) -> bool {
    match bech32_parsed(s) {
        Option::None => false,
        Option::Some(p) => {
            &&& hrp_accepted(p.0)
            &&& p.1.len() >= 1
            &&& p.1[0] == 1
            &&& p.1.len() >= 34
            &&& g1_point_valid(p.1.subrange(1, 34))
        },
    }
}

/// Compare a decoded human-readable part against one fixed prefix.
fn hrp_is(hrp: &String, lit: &str) -> (r: bool)
    ensures
        r == (hrp@ == lit@),
{
    let owned: String = lit.to_owned();
    hrp.eq(&owned)
}

/// A validated reward address: which network it names, whether it is a proof
/// address, and the decompressed public key.  The service arguments stay
/// empty in this construction.
#[derive(Debug, Clone)]
pub struct Address {
    pub network: u64,
    pub mainnet: bool,
    pub proof_flag: bool,
    pub public_key: Option<substrate_bn::G1>,
    pub arguments: Arguments,
}

impl Address {
    /// Decode and validate an encoded address.  Succeeds exactly on valid
    /// addresses; the error string names the first check that failed.
    pub fn from_string(encoded: &str) -> (r: Result<Address, String>)
        ensures
            (r is Ok) <==> address_ok(encoded@),
            r matches Ok(a) ==> {
                &&& a.public_key is Some
                &&& a.network == 0
                &&& (bech32_parsed(encoded@) matches Some(p) && a.mainnet == hrp_mainnet(p.0)
                    && a.proof_flag == (p.0 == "deroproof"@))
            },
    {
        let decoded: Result<(String, Vec<u8>), String> = bech32_decode(encoded);
        let (hrp, data): (String, Vec<u8>) = match decoded {
            Ok(p) => p,
            Err(e) => { return Err(e) },
        };
        let recognized: bool = hrp_is(&hrp, "dero") || hrp_is(&hrp, "deroi") || hrp_is(
            &hrp,
            "deto",
        ) || hrp_is(&hrp, "detoi") || hrp_is(&hrp, "deroproof");
        if !recognized {
            return Err("invalid human-readable part".to_owned());
        }
        if data.len() < 1 {
            return Err("invalid decode version".to_owned());
        }
        if data[0] != 1 {
            return Err("invalid address version".to_owned());
        }
        if data.len() - 1 < 33 {
            return Err("invalid address length as per spec".to_owned());
        }
        let key_bytes: &[u8] = slice_subrange(data.as_slice(), 1, 34);
        let public_key: substrate_bn::G1 = match from_compressed_reversed_sign(key_bytes) {
            Some(g) => g,
            None => { return Err("public key is not a curve point".to_owned()) },
        };
        let mainnet: bool = !(hrp_is(&hrp, "deto") || hrp_is(&hrp, "detoi"));
        let proof_flag: bool = hrp_is(&hrp, "deroproof");
        Ok(
            Address {
                network: 0,
                mainnet,
                proof_flag,
                public_key: Some(public_key),
                arguments: Arguments::empty(),
            },
        )
    }
}

/// Accept or reject a reward address at startup: success exactly on valid
/// addresses.
pub fn validate(s: &str) -> (r: Result<(), String>)
    ensures
        (r is Ok) <==> address_ok(s@),
{
    match Address::from_string(s) {
        Ok(_) => Ok(()),
        Err(e) => Err(("invalid address, reason: ".to_owned()).concat(e.as_str())),
    }
}

} // verus!
