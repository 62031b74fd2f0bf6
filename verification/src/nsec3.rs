use vstd::prelude::*;
use sha1::Digest;
use crate::error::{DecodeError, DecodeResult};
use crate::name::Name;

verus! {

/// The SHA-1 digest of a byte sequence, by name only: a function of the
/// input bytes alone, computed by an outside hasher.
pub uninterp spec fn sha1_of(input: Seq<u8>) -> Seq<u8>;

/// Relies on sha1::Sha1 through its one-shot Digest::digest: the 20-byte
/// SHA-1 digest of the input, a function of the input bytes alone.
#[verifier::external_body]
fn sha1_digest(input: &[u8]) -> (digest: Vec<u8>)
    ensures
        digest@ == sha1_of(input@),
        digest@.len() == 20,
{
    sha1::Sha1::digest(input).to_vec()
}

/// The iterated NSEC3 hash of RFC 5155: the digest of the owner name's
/// wire form and the salt, rehashed with the salt the given number of
/// further times.
pub open spec fn nsec3_hash_value(salt: Seq<u8>, wire: Seq<u8>, iterations: nat) -> Seq<u8>
    decreases iterations,
{
    if iterations == 0 {
        sha1_of(wire + salt)
    } else {
        sha1_of(nsec3_hash_value(salt, wire, (iterations - 1) as nat) + salt)
    }
}

/// The NSEC3 hash algorithms of the IANA "DNSSEC NSEC3 Hash Algorithms"
/// registry; SHA-1, code 1, is the only assigned one.
#[derive(Debug, PartialEq, Eq, Structural, Hash, Clone, Copy)]
pub enum Nsec3HashAlgorithm {
    SHA1,
}

impl Nsec3HashAlgorithm {
    /// Reads an algorithm from its registry code: only code 1 names an
    /// algorithm, every other value is an unknown-algorithm error.
    pub fn from_u8(value: u8) -> (r: DecodeResult<Self>)
        ensures
            value == 1 <==> r is Ok,
            r matches Ok(a) ==> a == Nsec3HashAlgorithm::SHA1,
            r is Err ==> r == Err::<Self, DecodeError>(
                DecodeError::UnknownAlgorithmTypeValue(value),
            ),
    {
        match value {
            1 => Ok(Nsec3HashAlgorithm::SHA1),
            _ => Err(DecodeError::UnknownAlgorithmTypeValue(value)),
        }
    }

    /// Hashes an owner name as RFC 5155 asks: the name's canonical wire
    /// form (fully qualified, ASCII letters lowercased, wildcard labels
    /// kept literal) is digested with the salt, then the digest is
    /// rehashed with the salt `iterations` further times. The result is
    /// always 20 bytes long.
    pub fn hash(&self, salt: &[u8], name: &Name, iterations: u16) -> (digest: Vec<u8>)
        requires
            name.wf(),
        ensures
            digest@ == nsec3_hash_value(salt@, name.spec_canonical_wire(), iterations as nat),
            digest@.len() == 20,
    {
        match *self {
            Nsec3HashAlgorithm::SHA1 => {
                let wire = name.emit_canonical();
                Self::sha1_iterated_hash(salt, wire.as_slice(), iterations)
            },
        }
    }

    /// The iterated SHA-1 digest, computed with an explicit loop so the
    /// iteration count cannot grow the call stack.
    fn sha1_iterated_hash(salt: &[u8], bytes: &[u8], iterations: u16) -> (digest: Vec<u8>)
        ensures
            digest@ == nsec3_hash_value(salt@, bytes@, iterations as nat),
            digest@.len() == 20,
    {
        let mut input: Vec<u8> = vstd::slice::slice_to_vec(bytes);
        append_bytes(&mut input, salt);
        let mut digest = sha1_digest(input.as_slice());
        assert(digest@ == nsec3_hash_value(salt@, bytes@, 0));
        let mut k: u16 = 0;
        while k < iterations
            invariant
                k <= iterations,
                digest@ == nsec3_hash_value(salt@, bytes@, k as nat),
                digest@.len() == 20,
            decreases iterations - k,
        {
            let ghost prev = digest@;
            let mut next = digest;
            append_bytes(&mut next, salt);
            digest = sha1_digest(next.as_slice());
            proof {
                assert(digest@ == sha1_of(prev + salt@));
                assert(nsec3_hash_value(salt@, bytes@, (k + 1) as nat) == sha1_of(
                    nsec3_hash_value(salt@, bytes@, k as nat) + salt@,
                ));
            }
            k = k + 1;
        }
        digest
    }
}

impl From<Nsec3HashAlgorithm> for u8 {
    /// The registry code of an algorithm.
    fn from(a: Nsec3HashAlgorithm) -> (code: u8) {
        match a {
            Nsec3HashAlgorithm::SHA1 => 1,
        }
    }
}

impl vstd::std_specs::convert::FromSpecImpl<Nsec3HashAlgorithm> for u8 {
    open spec fn obeys_from_spec() -> bool {
        true
    }

    open spec fn from_spec(a: Nsec3HashAlgorithm) -> u8 {
        match a {
            Nsec3HashAlgorithm::SHA1 => 1,
        }
    }
}

/// Appends a byte slice to a vector.
fn append_bytes(dst: &mut Vec<u8>, src: &[u8])
    ensures
        final(dst)@ == old(dst)@ + src@,
{
    let n: usize = src.len();
    let mut i: usize = 0;
    while i < n
        invariant
            i <= n,
            n == src@.len(),
            dst@ == old(dst)@ + src@.take(i as int),
        decreases n - i,
    {
        dst.push(src[i]);
        proof {
            assert(old(dst)@ + src@.take(i + 1) =~= (old(dst)@ + src@.take(i as int)).push(
                src@[i as int],
            ));
        }
        i = i + 1;
    }
    proof {
        assert(src@.take(n as int) =~= src@);
        assert(dst@ + Seq::<u8>::empty() =~= dst@);
    }
}

} // verus!
