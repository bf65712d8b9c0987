//! The values that configure a fingerprinting agent.
use vstd::prelude::*;

use crate::error::FingerprintError;

verus! {

/// An agent's number and its share, in compact form.
#[derive(Clone, Debug)]
pub struct AgentConfig {
    pub agent_id: usize,
    pub secret_shard: String,
}

/// Where another agent is reached.
#[derive(Clone, Debug)]
pub struct AgentReferenceConfig {
    pub agent_id: usize,
    /// `host:port`, which may resolve to several endpoints.
    pub address: String,
}

/// Where a service listens.
#[derive(Clone, Debug)]
pub struct GrpcConfig {
    pub host: String,
    pub port: u16,
}

/// The threshold evaluator: this agent's number and share, the number of
/// agents, the threshold and the other agents.
#[derive(Clone, Debug)]
pub struct CooperativeTopologyConfig {
    pub agent_id: usize,
    pub secret_shard: String,
    pub agents: usize,
    pub threshold: usize,
    pub members: Vec<AgentReferenceConfig>,
}

/// The single-key evaluator, with its key in compact form.
#[derive(Clone, Debug)]
pub struct NaiveTopologyConfig {
    pub secret: String,
}

/// Which evaluator the service runs.
#[derive(Clone, Debug)]
pub enum FingerprintServiceConfig {
    Cooperative(CooperativeTopologyConfig),
    Naive(NaiveTopologyConfig),
}

/// Agent `i` is among `members`.
pub open spec fn has_member(members: Seq<AgentReferenceConfig>, i: int) -> bool {
    exists|k: int| 0 <= k < members.len() && #[trigger] members[k].agent_id == i
}

/// `1 <= threshold <= agents`, this agent is one of `1..=agents`, and every
/// other agent of `1..=agents` has a reference.
pub open spec fn cooperative_config_valid(c: CooperativeTopologyConfig) -> bool {
    &&& 1 <= c.threshold <= c.agents
    &&& 1 <= c.agent_id <= c.agents
    &&& forall|i: int| 1 <= i <= c.agents && i != c.agent_id ==> #[trigger] has_member(c.members@, i)
}

impl CooperativeTopologyConfig {
    /// Checks the configuration; an inconsistent one is `ConfigInvalid`.
    pub fn validate(&self) -> (r: Result<(), FingerprintError>)
        ensures
            r is Ok <==> cooperative_config_valid(*self),
            r is Err ==> r == Err::<(), FingerprintError>(FingerprintError::ConfigInvalid),
    {
        if self.threshold < 1 || self.threshold > self.agents {
            return Err(FingerprintError::ConfigInvalid);
        }
        if self.agent_id < 1 || self.agent_id > self.agents {
            return Err(FingerprintError::ConfigInvalid);
        }
        let mut i: usize = 1;
        while i <= self.agents
            invariant
                1 <= i,
                i <= self.agents + 1,
                1 <= self.threshold <= self.agents,
                1 <= self.agent_id <= self.agents,
                forall|j: int|
                    1 <= j < i && j != self.agent_id ==> #[trigger] has_member(self.members@, j),
            decreases self.agents + 1 - i,
        {
            if i != self.agent_id {
                let mut found = false;
                let mut k: usize = 0;
                while k < self.members.len()
                    invariant
                        k <= self.members@.len(),
                        found ==> has_member(self.members@, i as int),
                        !found ==> forall|m: int|
                            0 <= m < k ==> (#[trigger] self.members@[m]).agent_id != i,
                    decreases self.members@.len() - k,
                {
                    if self.members[k].agent_id == i {
                        found = true;
                    }
                    k = k + 1;
                }
                if !found {
                    assert(!has_member(self.members@, i as int));
                    return Err(FingerprintError::ConfigInvalid);
                }
                assert(has_member(self.members@, i as int));
            }
            assert(forall|j: int|
                1 <= j <= i && j != self.agent_id ==> #[trigger] has_member(self.members@, j));
            if i == self.agents {
                return Ok(());
            }
            i = i + 1;
        }
        Ok(())
    }
}

} // verus!
