//! The security boundary: every inbound request must carry a detached
//! Ed25519 signature, sent hex-encoded in one header, over the bytes of the
//! timestamp header followed by the raw body. Hex decoding is verified
//! here; the curve arithmetic is the one trusted call.

use vstd::prelude::*;

verus! {

/// The hex value of one ASCII byte, if it is a hex digit.
pub open spec fn spec_hex_digit(b: u8) -> Option<u8> {
    if 48 <= b && b <= 57 {
        Some((b - 48) as u8)
    } else if 97 <= b && b <= 102 {
        Some((b - 87) as u8)
    } else if 65 <= b && b <= 70 {
        Some((b - 55) as u8)
    } else {
        None
    }
}

/// Hex decoding of a byte string: two digits to a byte, `None` on an odd
/// length or a byte that is no hex digit.
pub open spec fn spec_hex_decode(s: Seq<u8>) -> Option<Seq<u8>>
    decreases s.len(),
{
    if s.len() == 0 {
        Some(Seq::empty())
    } else if s.len() == 1 {
        None
    } else {
        match (spec_hex_digit(s[0]), spec_hex_digit(s[1])) {
            (Some(hi), Some(lo)) => match spec_hex_decode(s.skip(2)) {
                Some(rest) => Some(seq![(hi * 16 + lo) as u8] + rest),
                None => None,
            },
            _ => None,
        }
    }
}

fn hex_digit(b: u8) -> (r: Option<u8>)
    ensures
        r == spec_hex_digit(b),
{
    if 48 <= b && b <= 57 {
        Some(b - 48)
    } else if 97 <= b && b <= 102 {
        Some(b - 87)
    } else if 65 <= b && b <= 70 {
        Some(b - 55)
    } else {
        None
    }
}

/// Decode a hex byte string, rejecting anything that is not entirely made
/// of digit pairs.
pub fn hex_decode(s: &Vec<u8>) -> (r: Option<Vec<u8>>)
    ensures
        match r {
            Some(v) => spec_hex_decode(s@) == Some(v@),
            None => spec_hex_decode(s@) is None,
        },
{
    let mut out: Vec<u8> = Vec::new();
    let mut i: usize = 0;
    assert(s@.skip(0) =~= s@);
    while i < s.len()
        invariant
            i <= s.len(),
            spec_hex_decode(s@) == (match spec_hex_decode(s@.skip(i as int)) {
                Some(rest) => Some(out@ + rest),
                None => None::<Seq<u8>>,
            }),
        decreases s.len() - i,
    {
        if i + 1 == s.len() {
            return None;
        }
        assert(s@.skip(i as int)[0] == s@[i as int]);
        assert(s@.skip(i as int)[1] == s@[i as int + 1]);
        let hi = hex_digit(s[i]);
        let lo = hex_digit(s[i + 1]);
        let (h, l) = match (hi, lo) {
            (Some(h), Some(l)) => (h, l),
            _ => { return None; },
        };
        let ghost old_out = out@;
        out.push(h * 16 + l);
        proof {
            assert(s@.skip(i as int).skip(2) =~= s@.skip(i as int + 2));
            assert(spec_hex_decode(s@.skip(i as int + 2)) matches Some(rest) ==> old_out + (seq![
                (h * 16 + l) as u8,
            ] + rest) =~= out@ + rest);
        }
        i = i + 2;
    }
    assert(s@.skip(i as int).len() == 0);
    assert(out@ + Seq::<u8>::empty() =~= out@);
    Some(out)
}

/// Whether the platform's Ed25519 scheme accepts `sig` as a signature on
/// `msg` under the public key bytes `pk`: a function of the three byte
/// strings alone.
pub uninterp spec fn ed25519_valid(pk: Seq<u8>, msg: Seq<u8>, sig: Seq<u8>) -> bool;

/// Relies on `ed25519_dalek::VerifyingKey::verify` (and `from_bytes`):
/// whether a key parses and accepts a signature on a message is a function
/// of the key, message and signature bytes alone, here named
/// `ed25519_valid`. A byte string that is no valid key encoding accepts
/// nothing.
#[verifier::external_body]
fn ed25519_verify(pk: &Vec<u8>, msg: &Vec<u8>, sig: &Vec<u8>) -> (r: bool)
    requires
        pk@.len() == 32,
        sig@.len() == 64,
    ensures
        r == ed25519_valid(pk@, msg@, sig@),
{
    let pk_arr: &[u8; 32] = pk.as_slice().try_into().expect("admitted keys are 32 bytes");
    let sig_arr: &[u8; 64] = sig.as_slice().try_into().expect("admitted signatures are 64 bytes");
    let sig = ed25519_dalek::Signature::from_bytes(sig_arr);
    match ed25519_dalek::VerifyingKey::from_bytes(pk_arr) {
        Ok(vk) => ed25519_dalek::Verifier::verify(&vk, msg.as_slice(), &sig).is_ok(),
        Err(_) => false,
    }
}

/// The statically configured public key: 32 bytes, checked once at
/// construction (process start), then read-only.
pub struct DiscordPublicKey {
    pub bytes: Vec<u8>,
}

impl DiscordPublicKey {
    /// Well-formed: exactly the platform's key length.
    pub open spec fn wf(&self) -> bool {
        self.bytes@.len() == 32
    }

    pub fn from_bytes(bytes: Vec<u8>) -> (r: Option<DiscordPublicKey>)
        ensures
            match r {
                Some(k) => k.wf() && k.bytes@ == bytes@,
                None => bytes@.len() != 32,
            },
    {
        if bytes.len() == 32 {
            Some(DiscordPublicKey { bytes })
        } else {
            None
        }
    }
}

fn concat_bytes(a: &Vec<u8>, b: &Vec<u8>) -> (r: Vec<u8>)
    ensures
        r@ == a@ + b@,
{
    let mut r: Vec<u8> = Vec::new();
    let mut i: usize = 0;
    while i < a.len()
        invariant
            i <= a.len(),
            r@ == a@.take(i as int),
        decreases a.len() - i,
    {
        r.push(a[i]);
        assert(r@ =~= a@.take(i as int + 1));
        i = i + 1;
    }
    let mut j: usize = 0;
    while j < b.len()
        invariant
            j <= b.len(),
            r@ == a@.take(a@.len() as int) + b@.take(j as int),
        decreases b.len() - j,
    {
        r.push(b[j]);
        assert(r@ =~= a@.take(a@.len() as int) + b@.take(j as int + 1));
        j = j + 1;
    }
    assert(a@.take(a@.len() as int) + b@.take(b@.len() as int) =~= a@ + b@);
    r
}

/// What a request must satisfy to be accepted: both headers and the body
/// present, the signature header a hex encoding of exactly 64 bytes, and
/// the scheme accepting that signature over `timestamp ++ body`.
pub open spec fn spec_validate_signature(
    sig_hex: Option<Vec<u8>>,
    timestamp: Option<Vec<u8>>,
    body: Option<Vec<u8>>,
    pub_key: DiscordPublicKey,
) -> bool {
    match (sig_hex, timestamp, body) {
        (Some(sh), Some(t), Some(b)) => match spec_hex_decode(sh@) {
            Some(sig) => sig.len() == 64 && ed25519_valid(pub_key.bytes@, t@ + b@, sig),
            None => false,
        },
        _ => false,
    }
}

/// Accept a request only if it carries a valid detached signature over the
/// timestamp header's bytes followed by the raw body's bytes. A missing
/// header, a missing body, or a signature header that is not hex of 64
/// bytes is rejected outright, never an error.
pub fn validate_discord_signature(
    sig_hex: &Option<Vec<u8>>,
    timestamp: &Option<Vec<u8>>,
    body: &Option<Vec<u8>>,
    pub_key: &DiscordPublicKey,
) -> (ok: bool)
    requires
        pub_key.wf(),
    ensures
        ok == spec_validate_signature(*sig_hex, *timestamp, *body, *pub_key),
        sig_hex is None || timestamp is None || body is None ==> ok == false,
{
    match (sig_hex, timestamp, body) {
        (Some(sh), Some(t), Some(b)) => match hex_decode(sh) {
            Some(sig) => {
                if sig.len() == 64 {
                    let msg = concat_bytes(t, b);
                    ed25519_verify(&pub_key.bytes, &msg, &sig)
                } else {
                    false
                }
            },
            None => false,
        },
        _ => false,
    }
}

} // verus!
