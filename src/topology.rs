//! Where the agents are: for each agent number, its redundant endpoints.
use vstd::prelude::*;

use rand::Rng;
use std::collections::HashMap;

use crate::error::FingerprintError;

verus! {

broadcast use vstd::std_specs::hash::group_hash_axioms;

/// Relies on `rand::thread_rng().gen_range(0..n)`: some index below `n`.
#[verifier::external_body]
fn random_below(n: usize) -> (r: usize)
    requires
        n > 0,
    ensures
        r < n,
{
    rand::thread_rng().gen_range(0..n)
}

/// Every agent of `members` has at least one endpoint, and no agent is listed twice.
pub open spec fn members_valid(members: Seq<(usize, Vec<String>)>) -> bool {
    &&& forall|k: int| 0 <= k < members.len() ==> (#[trigger] members[k]).1@.len() > 0
    &&& forall|k: int, l: int|
        0 <= k < l < members.len() ==> (#[trigger] members[k]).0 != (#[trigger] members[l]).0
}

/// The map holds exactly the agents of `members`, each with its endpoints.
pub open spec fn holds_members(
    map: Map<usize, Vec<String>>,
    members: Seq<(usize, Vec<String>)>,
) -> bool {
    &&& forall|k: int|
        0 <= k < members.len() ==> map.contains_key((#[trigger] members[k]).0) && map[members[k].0]
            == members[k].1
    &&& forall|id: usize|
        #[trigger] map.contains_key(id) ==> exists|k: int|
            0 <= k < members.len() && (#[trigger] members[k]).0 == id
}

/// The agents `1..=count`, each with its endpoints.
pub struct GrpcAgentsTopology {
    count: usize,
    threshold: usize,
    members: HashMap<usize, Vec<String>>,
}

impl GrpcAgentsTopology {
    pub closed spec fn count_view(&self) -> usize {
        self.count
    }

    pub closed spec fn threshold_view(&self) -> usize {
        self.threshold
    }

    /// Each agent's endpoints.
    pub closed spec fn members_view(&self) -> Map<usize, Vec<String>> {
        self.members@
    }

    /// `members` pairs each agent number with the endpoints it was resolved
    /// to. An agent without endpoints, or listed twice, is a configuration
    /// error.
    pub fn new(count: usize, threshold: usize, members: Vec<(usize, Vec<String>)>) -> (r: Result<
        Self,
        FingerprintError,
    >)
        ensures
            r is Ok <==> members_valid(members@),
            r is Err ==> r == Err::<Self, FingerprintError>(FingerprintError::ConfigInvalid),
            r matches Ok(t) ==> t.count_view() == count && t.threshold_view() == threshold
                && holds_members(t.members_view(), members@),
    {
        let ghost all = members@;
        let mut rest = members;
        let mut map: HashMap<usize, Vec<String>> = HashMap::new();
        while rest.len() > 0
            invariant
                all == members@,
                rest@ == all.subrange(0, rest@.len() as int),
                rest@.len() <= all.len(),
                members_valid(all.subrange(rest@.len() as int, all.len() as int)),
                holds_members(map@, all.subrange(rest@.len() as int, all.len() as int)),
            decreases rest@.len(),
        {
            let ghost n = rest@.len() as int;
            let (id, endpoints) = rest.pop().unwrap();
            assert(all[n - 1] == (id, endpoints));
            if endpoints.len() == 0 {
                assert(all[n - 1].1@.len() == 0);
                assert(!members_valid(all));
                return Err(FingerprintError::ConfigInvalid);
            }
            if map.contains_key(&id) {
                let ghost suffix = all.subrange(n, all.len() as int);
                let ghost k = choose|k: int| 0 <= k < suffix.len() && #[trigger] suffix[k].0 == id;
                assert(suffix[k] == all[n + k]);
                assert(all[n + k].0 == all[n - 1].0);
                assert(!members_valid(all));
                return Err(FingerprintError::ConfigInvalid);
            }
            map.insert(id, endpoints);
            proof {
                let suffix = all.subrange(n - 1, all.len() as int);
                let old_suffix = all.subrange(n, all.len() as int);
                assert forall|k: int| 0 < k < suffix.len() implies #[trigger] suffix[k] == old_suffix[k - 1] by {}
                assert forall|k: int, l: int|
                    0 <= k < l < suffix.len() implies (#[trigger] suffix[k]).0 != (#[trigger] suffix[l]).0 by {
                    if k == 0 {
                        assert(old_suffix[l - 1].0 != id);
                    } else {
                        assert(suffix[k] == old_suffix[k - 1] && suffix[l] == old_suffix[l - 1]);
                    }
                }
                assert forall|k: int| 0 <= k < suffix.len() implies map@.contains_key(
                    (#[trigger] suffix[k]).0,
                ) && map@[suffix[k].0] == suffix[k].1 by {
                    if k > 0 {
                        assert(suffix[k] == old_suffix[k - 1]);
                        assert(old_suffix[k - 1].0 != id);
                    }
                }
                assert forall|i: usize| #[trigger] map@.contains_key(i) implies exists|k: int|
                    0 <= k < suffix.len() && (#[trigger] suffix[k]).0 == i by {
                    if i != id {
                        let k = choose|k: int| 0 <= k < old_suffix.len() && #[trigger] old_suffix[k].0 == i;
                        assert(suffix[k + 1] == old_suffix[k]);
                    } else {
                        assert(suffix[0].0 == i);
                    }
                }
                assert(members_valid(suffix));
            }
        }
        assert(all.subrange(0, all.len() as int) =~= all);
        Ok(Self { count, threshold, members: map })
    }

    pub fn count(&self) -> (r: usize)
        ensures
            r == self.count_view(),
    {
        self.count
    }

    pub fn threshold(&self) -> (r: usize)
        ensures
            r == self.threshold_view(),
    {
        self.threshold
    }

    /// The endpoint at `pick` (modulo their number) of `agent`: an agent out of
    /// `1..=count`, or without endpoints, cannot be reached.
    pub fn endpoint(&self, agent: usize, pick: usize) -> (r: Result<String, FingerprintError>)
        ensures
            r is Err ==> r == Err::<String, FingerprintError>(FingerprintError::PeerUnavailable),
            r is Ok <==> 1 <= agent <= self.count_view() && self.members_view().contains_key(agent)
                && self.members_view()[agent]@.len() > 0,
            r matches Ok(s) ==> s@ == self.members_view()[agent]@[(pick as int) % (
            self.members_view()[agent]@.len() as int)]@,
    {
        if agent == 0 || agent > self.count {
            return Err(FingerprintError::PeerUnavailable);
        }
        match self.members.get(&agent) {
            Some(endpoints) => {
                if endpoints.len() == 0 {
                    return Err(FingerprintError::PeerUnavailable);
                }
                Ok(endpoints[pick % endpoints.len()].clone())
            },
            None => Err(FingerprintError::PeerUnavailable),
        }
    }

    /// An endpoint of `agent`, chosen at random; an agent out of `1..=count`,
    /// or without endpoints, cannot be reached.
    pub fn select_endpoint(&self, agent: usize) -> (r: Result<String, FingerprintError>)
        ensures
            r is Err ==> r == Err::<String, FingerprintError>(FingerprintError::PeerUnavailable),
            r is Ok <==> 1 <= agent <= self.count_view() && self.members_view().contains_key(agent)
                && self.members_view()[agent]@.len() > 0,
            r matches Ok(s) ==> exists|i: int|
                0 <= i < self.members_view()[agent]@.len() && s@
                    == #[trigger] self.members_view()[agent]@[i]@,
    {
        let pick = random_below(usize::MAX);
        let r = self.endpoint(agent, pick);
        proof {
            if r is Ok {
                let len = self.members_view()[agent]@.len() as int;
                let i = (pick as int) % len;
                assert(0 <= i < len);
                assert(r->Ok_0@ == self.members_view()[agent]@[i]@);
            }
        }
        r
    }
}

} // verus!
