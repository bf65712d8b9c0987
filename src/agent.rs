//! The peer side of the threshold evaluation: an agent answers a blinded
//! point with its share applied to it.
use vstd::prelude::*;

use crate::error::FingerprintError;
use crate::field::Scalar;
use crate::group::{g1_decode, g1_mul, Point};

verus! {

/// A request for an agent's contribution.
#[derive(Clone, Debug)]
pub struct CooperationRequest {
    pub generation: u64,
    pub blinded_value: Vec<u8>,
}

/// An agent's contribution.
#[derive(Clone, Debug)]
pub struct CooperationResponse {
    pub generation: u64,
    pub blinded_exponent: Vec<u8>,
    /// Reserved; always empty.
    pub proof_of_computation: Vec<u8>,
}

/// The service that an agent holding a share runs for its peers.
pub struct CooperationAgentService {
    agent_secret_shard: Scalar,
}

impl CooperationAgentService {
    pub closed spec fn shard_view(&self) -> Scalar {
        self.agent_secret_shard
    }

    pub fn new(secret_shard: Scalar) -> (r: CooperationAgentService)
        ensures
            r.shard_view() == secret_shard,
    {
        CooperationAgentService { agent_secret_shard: secret_shard }
    }

    /// `[k_a] B` for the blinded point `B`; a request of another generation,
    /// of another length than 32 bytes, or that is no point is rejected.
    pub fn compute_exponent(&self, request: &CooperationRequest) -> (r: Result<
        CooperationResponse,
        FingerprintError,
    >)
        requires
            self.shard_view().wf(),
        ensures
            request.generation != 0 ==> r == Err::<CooperationResponse, FingerprintError>(
                FingerprintError::InvalidInput,
            ),
            request.blinded_value@.len() != 32 ==> r == Err::<
                CooperationResponse,
                FingerprintError,
            >(FingerprintError::InvalidInput),
            g1_decode(request.blinded_value@) is None ==> r == Err::<
                CooperationResponse,
                FingerprintError,
            >(FingerprintError::InvalidInput),
            (request.generation == 0 && request.blinded_value@.len() == 32 && g1_decode(
                request.blinded_value@,
            ) is Some) ==> (r matches Ok(resp) && resp.generation == 0
                && resp.blinded_exponent@ == g1_mul(
                g1_decode(request.blinded_value@)->Some_0,
                self.shard_view().val(),
            ) && resp.proof_of_computation@.len() == 0),
    {
        if request.generation != 0 {
            return Err(FingerprintError::InvalidInput);
        }
        if request.blinded_value.len() != 32 {
            return Err(FingerprintError::InvalidInput);
        }
        let mut buf = [0u8; 32];
        let mut i: usize = 0;
        while i < 32
            invariant
                i <= 32,
                request.blinded_value@.len() == 32,
                forall|k: int| 0 <= k < i ==> buf@[k] == request.blinded_value@[k],
            decreases 32 - i,
        {
            buf[i] = request.blinded_value[i];
            i = i + 1;
        }
        assert(buf@ =~= request.blinded_value@);
        let point = match Point::from_compressed(&buf) {
            Some(p) => p,
            None => return Err(FingerprintError::InvalidInput),
        };
        let exponent = point.mul(&self.agent_secret_shard).to_bytes();
        let mut blinded_exponent: Vec<u8> = Vec::new();
        let mut k: usize = 0;
        while k < 32
            invariant
                k <= 32,
                blinded_exponent@ == exponent@.subrange(0, k as int),
            decreases 32 - k,
        {
            blinded_exponent.push(exponent[k]);
            k = k + 1;
            assert(blinded_exponent@ =~= exponent@.subrange(0, k as int));
        }
        assert(exponent@.subrange(0, 32) =~= exponent@);
        Ok(CooperationResponse { generation: 0, blinded_exponent, proof_of_computation: Vec::new() })
    }
}

} // verus!
