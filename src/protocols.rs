//! The oblivious pseudorandom function: a single-key evaluator, and a
//! threshold evaluator that blinds its input and combines the answers of a
//! quorum of agents.
use vstd::prelude::*;

use crate::error::FingerprintError;
use crate::field::{finv, fr_modulus, Scalar};
use crate::group::{g1_add, g1_decode, g1_hash_to_curve, g1_mul, Point};
use crate::secret_sharing::{lagrange_spec, SecretSharing};
use crate::squeeze::{squeeze_point_spec, HashSqueeze};

verus! {

/// The domain tag under which inputs are hashed to the curve.
pub const HASH_TO_CURVE_PREFIX: &'static str = "TX_FINGERPRINT";

/// The domain tag is short ASCII, as hashing to the curve demands.
pub proof fn lemma_prefix_fits()
    ensures
        vstd::string::is_ascii(HASH_TO_CURVE_PREFIX),
        HASH_TO_CURVE_PREFIX@.len() <= 64,
{
    reveal_strlit("TX_FINGERPRINT");
}

/// The point that an input hashes to.
pub open spec fn input_point(u: Seq<u8>) -> Seq<u8> {
    g1_hash_to_curve(HASH_TO_CURVE_PREFIX@, u)
}

/// The function evaluated under a whole key `k`: `squeeze([k] H(u))`.
pub open spec fn naive_oprf(k: nat, u: Seq<u8>) -> nat {
    squeeze_point_spec(g1_mul(input_point(u), k))
}

/// An evaluator of the function on a field element.
pub trait FingerprintProtocol {
    /// The evaluator is set up consistently.
    spec fn protocol_wf(&self) -> bool;

    /// `d` is an output that the evaluator may give for the input encoded by `u`.
    spec fn may_output(&self, u: Seq<u8>, d: nat) -> bool;

    /// The evaluator never fails.
    spec fn infallible(&self) -> bool;

    /// `e` is an error that the evaluator may report.
    spec fn may_fail_with(&self, e: FingerprintError) -> bool;

    fn process(&self, unblinded: &Scalar) -> (r: Result<Scalar, FingerprintError>)
        requires
            self.protocol_wf(),
            unblinded.wf(),
        ensures
            r matches Ok(d) ==> d.wf() && self.may_output(unblinded.bytes_view(), d.val()),
            r matches Err(e) ==> !self.infallible() && self.may_fail_with(e),
    ;
}

/// The evaluator that holds the whole key.
pub struct NaiveProtocol {
    secret: Scalar,
}

impl NaiveProtocol {
    pub closed spec fn secret_view(&self) -> Scalar {
        self.secret
    }

    pub fn new(secret: Scalar) -> (r: Self)
        ensures
            r.secret_view() == secret,
    {
        Self { secret }
    }

    /// `squeeze([k] H(u))`.
    pub fn evaluate(&self, unblinded: &Scalar) -> (r: Scalar)
        requires
            self.secret_view().wf(),
        ensures
            r.wf(),
            r.val() == naive_oprf(self.secret_view().val(), unblinded.bytes_view()),
    {
        proof {
            lemma_prefix_fits();
        }
        let curve_point = Point::hash_to_curve(HASH_TO_CURVE_PREFIX, &unblinded.to_bytes());
        let hash_with_secret = curve_point.mul(&self.secret);
        hash_with_secret.squeeze()
    }
}

impl FingerprintProtocol for NaiveProtocol {
    open spec fn protocol_wf(&self) -> bool {
        self.secret_view().wf()
    }

    open spec fn may_output(&self, u: Seq<u8>, d: nat) -> bool {
        d == naive_oprf(self.secret_view().val(), u)
    }

    open spec fn infallible(&self) -> bool {
        true
    }

    open spec fn may_fail_with(&self, e: FingerprintError) -> bool {
        false
    }

    fn process(&self, unblinded: &Scalar) -> (r: Result<Scalar, FingerprintError>) {
        Ok(self.evaluate(unblinded))
    }
}

/// The agents that take part in the threshold evaluation.
pub trait AgentsTopology {
    /// How many agents there are; they are numbered `1..=count`.
    spec fn count_spec(&self) -> usize;

    /// How many agents must answer.
    spec fn threshold_spec(&self) -> usize;

    fn count(&self) -> (r: usize)
        ensures
            r == self.count_spec(),
    ;

    fn threshold(&self) -> (r: usize)
        ensures
            r == self.threshold_spec(),
    ;

    /// Asks `agent` for `[k_agent] B`, where `blinded_value` encodes `B`; the
    /// answer is the agent's number and the compressed point.
    fn obtain_shard(&self, agent: usize, generation: u64, blinded_value: &[u8; 32]) -> Result<
        (usize, Vec<u8>),
        FingerprintError,
    >;
}

/// What goes to every peer: the generation of the key (always 0) and the
/// compressed blinded point.
#[derive(Clone, Copy, Debug)]
pub struct ShardRequest {
    pub generation: u64,
    pub blinded_value: [u8; 32],
}

/// The request for the blinded point `[r] H(u)`.
pub fn shard_request(unblinded: &Scalar, r: &Scalar) -> (res: (ShardRequest, Point))
    requires
        r.wf(),
    ensures
        res.1.wf(),
        res.1.view_bytes() == g1_mul(input_point(unblinded.bytes_view()), r.val()),
        res.0.generation == 0,
        res.0.blinded_value@ == res.1.view_bytes(),
{
    proof {
        lemma_prefix_fits();
    }
    let curve_point = Point::hash_to_curve(HASH_TO_CURVE_PREFIX, &unblinded.to_bytes());
    let blinded = curve_point.mul(r);
    (ShardRequest { generation: 0, blinded_value: blinded.to_bytes() }, blinded)
}

/// Takes a peer's answer to a request sent to `agent`: it counts only where
/// it succeeded, names `agent`, is 32 bytes long and encodes a point.
pub fn accept_answer(agent: usize, answer: Result<(usize, Vec<u8>), FingerprintError>) -> (r:
    Option<Point>)
    ensures
        r is Some <==> (answer matches Ok((id, b)) && id == agent && b@.len() == 32 && g1_decode(
            b@,
        ) is Some),
        r matches Some(p) ==> p.wf() && (answer matches Ok((id, b)) && g1_decode(b@) == Some(
            p.view_bytes(),
        )),
{
    match answer {
        Ok((id, shard)) => {
            if id != agent || shard.len() != 32 {
                return None;
            }
            let mut buf = [0u8; 32];
            let mut i: usize = 0;
            while i < 32
                invariant
                    i <= 32,
                    shard@.len() == 32,
                    forall|k: int| 0 <= k < i ==> buf@[k] == shard@[k],
                decreases 32 - i,
            {
                buf[i] = shard[i];
                i = i + 1;
            }
            assert(buf@ =~= shard@);
            Point::from_compressed(&buf)
        },
        Err(_) => None,
    }
}

/// `sum_{k < m} lambda_{ids[k]} * pts[k]` over the quorum `ids`, added in order.
pub open spec fn interpolate(ids: Seq<usize>, pts: Seq<Seq<u8>>, m: nat) -> Seq<u8>
    decreases m,
{
    if m <= 1 {
        g1_mul(pts[0], lagrange_spec(ids[0] as nat, ids))
    } else {
        g1_add(
            interpolate(ids, pts, (m - 1) as nat),
            g1_mul(pts[m - 1], lagrange_spec(ids[m - 1] as nat, ids)),
        )
    }
}

/// What the quorum's answers give once unblinded with `r^-1` and squeezed.
pub open spec fn combined_output(r: nat, ids: Seq<usize>, pts: Seq<Seq<u8>>) -> nat {
    squeeze_point_spec(g1_mul(interpolate(ids, pts, ids.len()), finv(r)))
}

/// Numbers that are strictly increasing.
pub open spec fn increasing(ids: Seq<usize>) -> bool {
    forall|a: int, b: int| 0 <= a < b < ids.len() ==> ids[a] < ids[b]
}

/// The encodings of a sequence of points.
pub open spec fn point_views(pts: Seq<Point>) -> Seq<Seq<u8>> {
    pts.map_values(|p: Point| p.view_bytes())
}

/// The threshold evaluator run by agent `agent`, which holds `secret_shard`.
pub struct CollaborativeProtocol<T: AgentsTopology> {
    agent: usize,
    secret_shard: Scalar,
    topology: T,
}

impl<T: AgentsTopology> CollaborativeProtocol<T> {
    pub closed spec fn agent_view(&self) -> usize {
        self.agent
    }

    pub closed spec fn shard_view(&self) -> Scalar {
        self.secret_shard
    }

    pub fn new(agent_info: (usize, Scalar), topology: T) -> (r: Self)
        ensures
            r.agent_view() == agent_info.0,
            r.shard_view() == agent_info.1,
    {
        Self { agent: agent_info.0, secret_shard: agent_info.1, topology }
    }

    /// Sends `request` to the other agents `1..=count`, in order, until
    /// `threshold - 1` of them have given an accepted answer (see
    /// `accept_answer`); the others are passed over.
    pub fn collect(&self, request: &ShardRequest, count: usize, threshold: usize) -> (r: (
        Vec<usize>,
        Vec<Point>,
    ))
        requires
            1 <= threshold,
        ensures
            r.0@.len() == r.1@.len(),
            r.0@.len() <= threshold - 1,
            increasing(r.0@),
            forall|k: int|
                0 <= k < r.0@.len() ==> 1 <= #[trigger] r.0@[k] <= count && r.0@[k]
                    != self.agent_view(),
            forall|k: int| 0 <= k < r.1@.len() ==> (#[trigger] r.1@[k]).wf(),
    {
        let mut ids: Vec<usize> = Vec::new();
        let mut points: Vec<Point> = Vec::new();
        let mut i: usize = 0;
        while i < count && ids.len() < threshold - 1
            invariant
                1 <= threshold,
                i <= count,
                ids@.len() == points@.len(),
                ids@.len() <= threshold - 1,
                increasing(ids@),
                forall|k: int| 0 <= k < ids@.len() ==> #[trigger] ids@[k] <= i,
                forall|k: int|
                    0 <= k < ids@.len() ==> 1 <= #[trigger] ids@[k] <= count && ids@[k]
                        != self.agent_view(),
                forall|k: int| 0 <= k < points@.len() ==> (#[trigger] points@[k]).wf(),
            decreases count - i,
        {
            let agent = i + 1;
            if agent != self.agent {
                let answer = self.topology.obtain_shard(
                    agent,
                    request.generation,
                    &request.blinded_value,
                );
                if let Some(point) = accept_answer(agent, answer) {
                    ids.push(agent);
                    points.push(point);
                }
            }
            i = i + 1;
        }
        (ids, points)
    }

    /// Adds this agent's own answer `[k_a] B` to the peers' answers and, where
    /// the quorum reaches the threshold, interpolates at zero, unblinds with
    /// `r^-1` and squeezes.
    pub fn combine(
        &self,
        r: &Scalar,
        blinded: &Point,
        ids: Vec<usize>,
        points: Vec<Point>,
        threshold: usize,
    ) -> (res: Result<Scalar, FingerprintError>)
        requires
            r.wf(),
            r.val() != 0,
            blinded.wf(),
            self.shard_view().wf(),
            ids@.len() == points@.len(),
            forall|k: int| 0 <= k < points@.len() ==> (#[trigger] points@[k]).wf(),
        ensures
            g1_decode(g1_mul(blinded.view_bytes(), self.shard_view().val())) == Some(
                g1_mul(blinded.view_bytes(), self.shard_view().val()),
            ),
            ({
                let all_ids = ids@.push(self.agent_view());
                let all_pts = point_views(points@).push(
                    g1_mul(blinded.view_bytes(), self.shard_view().val()),
                );
                &&& all_ids.len() < threshold ==> res == Err::<Scalar, FingerprintError>(
                    FingerprintError::QuorumUnavailable,
                )
                &&& all_ids.len() >= threshold ==> (res matches Ok(d) && d.wf() && d.val()
                    == combined_output(r.val(), all_ids, all_pts))
            }),
    {
        let ghost in_pts = points@;
        let mut ids = ids;
        let mut points = points;
        let own = blinded.mul(&self.secret_shard);
        ids.push(self.agent);
        points.push(own);
        let ghost pv = point_views(points@);
        assert(pv =~= point_views(in_pts).push(own.view_bytes()));
        if ids.len() < threshold {
            return Err(FingerprintError::QuorumUnavailable);
        }
        let lambda0 = SecretSharing::lagrange_coefficient(ids[0], ids.as_slice());
        let mut y = points[0].mul(&lambda0);
        let mut k: usize = 1;
        while k < ids.len()
            invariant
                1 <= k <= ids@.len(),
                ids@.len() == points@.len(),
                pv == point_views(points@),
                forall|m: int| 0 <= m < points@.len() ==> (#[trigger] points@[m]).wf(),
                y.wf(),
                y.view_bytes() == interpolate(ids@, pv, k as nat),
            decreases ids@.len() - k,
        {
            let lambda = SecretSharing::lagrange_coefficient(ids[k], ids.as_slice());
            let term = points[k].mul(&lambda);
            y = y.add(&term);
            k = k + 1;
        }
        let unblinding = match r.invert() {
            Some(inv) => inv,
            None => return Err(FingerprintError::InternalCrypto),
        };
        let hash_with_secret = y.mul(&unblinding);
        Ok(hash_with_secret.squeeze())
    }

    /// `d` is what a quorum of `threshold` agents gives for the input `u`
    /// blinded by `r`: peers with distinct numbers in `1..=count`, each
    /// answering with a point, and this agent last with `[k_a] [r] H(u)`.
    pub open spec fn quorum_output(&self, u: Seq<u8>, r: nat, d: nat) -> bool {
        exists|ids: Seq<usize>, pts: Seq<Seq<u8>>|
            #![trigger combined_output(r, ids, pts)]
            ids.len() == self.topology_view().threshold_spec() && ids.len() >= 1 && ids.len()
                == pts.len() && increasing(ids.drop_last()) && (forall|k: int|
                0 <= k < ids.len() - 1 ==> 1 <= #[trigger] ids[k] <= self.topology_view().count_spec()
                    && ids[k] != self.agent_view()) && (forall|k: int|
                0 <= k < pts.len() ==> g1_decode(#[trigger] pts[k]) == Some(pts[k]))
                && ids.last() == self.agent_view() && pts.last() == g1_mul(
                g1_mul(input_point(u), r),
                self.shard_view().val(),
            ) && combined_output(r, ids, pts) == d
    }

    pub closed spec fn topology_view(&self) -> &T {
        &self.topology
    }

    /// The evaluation blinded by `r`: the request for `[r] H(u)` goes to the
    /// other agents, and the quorum's answers are combined. A threshold of
    /// zero is a configuration error; a quorum that cannot be completed is
    /// `QuorumUnavailable`.
    pub fn process_blinded(&self, unblinded: &Scalar, r: &Scalar) -> (res: Result<
        Scalar,
        FingerprintError,
    >)
        requires
            self.shard_view().wf(),
            r.wf(),
            r.val() != 0,
        ensures
            self.topology_view().threshold_spec() == 0 ==> res == Err::<Scalar, FingerprintError>(
                FingerprintError::ConfigInvalid,
            ),
            self.topology_view().threshold_spec() >= 1 && res is Err ==> res == Err::<
                Scalar,
                FingerprintError,
            >(FingerprintError::QuorumUnavailable),
            self.topology_view().threshold_spec() == 1 ==> (res matches Ok(d) && d.val()
                == combined_output(
                r.val(),
                seq![self.agent_view()],
                seq![
                    g1_mul(
                        g1_mul(input_point(unblinded.bytes_view()), r.val()),
                        self.shard_view().val(),
                    ),
                ],
            )),
            res matches Ok(d) ==> d.wf() && self.quorum_output(
                unblinded.bytes_view(),
                r.val(),
                d.val(),
            ),
    {
        let count = self.topology.count();
        let threshold = self.topology.threshold();
        if threshold == 0 {
            return Err(FingerprintError::ConfigInvalid);
        }
        let (request, blinded) = shard_request(unblinded, r);
        let (ids, points) = self.collect(&request, count, threshold);
        let ghost all_ids = ids@.push(self.agent_view());
        let ghost all_pts = point_views(points@).push(
            g1_mul(blinded.view_bytes(), self.shard_view().val()),
        );
        let ghost in_ids = ids@;
        let ghost in_pts = points@;
        let res = self.combine(r, &blinded, ids, points, threshold);
        proof {
            if threshold == 1 {
                assert(in_ids.len() == 0);
                assert(all_ids =~= seq![self.agent_view()]);
                assert(all_pts =~= seq![
                    g1_mul(
                        g1_mul(input_point(unblinded.bytes_view()), r.val()),
                        self.shard_view().val(),
                    ),
                ]);
            }
            if res is Ok {
                assert(all_ids.drop_last() =~= in_ids);
                assert forall|k: int| 0 <= k < all_pts.len() implies g1_decode(
                    #[trigger] all_pts[k],
                ) == Some(all_pts[k]) by {
                    if k < in_pts.len() {
                        assert(in_pts[k].wf());
                        assert(all_pts[k] == in_pts[k].view_bytes());
                    }
                }
                assert(all_ids.len() == threshold);
                assert(combined_output(r.val(), all_ids, all_pts) == res->Ok_0.val());
            }
        }
        res
    }

    /// The agents' topology.
    pub fn topology(&self) -> (r: &T)
        ensures
            r == self.topology_view(),
    {
        &self.topology
    }
}

/// Draws at most this many blinding factors before giving up on a nonzero one.
pub const BLINDING_DRAWS: usize = 16;

impl<T: AgentsTopology> FingerprintProtocol for CollaborativeProtocol<T> {
    open spec fn protocol_wf(&self) -> bool {
        self.shard_view().wf()
    }

    /// Some nonzero blinding factor gives `d` through a quorum.
    open spec fn may_output(&self, u: Seq<u8>, d: nat) -> bool {
        exists|r: nat| 0 < r < fr_modulus() && #[trigger] self.quorum_output(u, r, d)
    }

    open spec fn infallible(&self) -> bool {
        false
    }

    /// A threshold of zero, a quorum that cannot be completed, or (with
    /// negligible chance) only zero blinding factors drawn.
    open spec fn may_fail_with(&self, e: FingerprintError) -> bool {
        ||| (e == FingerprintError::ConfigInvalid && self.topology_view().threshold_spec() == 0)
        ||| (e == FingerprintError::QuorumUnavailable && self.topology_view().threshold_spec() >= 1)
        ||| e == FingerprintError::InternalCrypto
    }

    /// Draws a nonzero blinding factor (drawing again on zero) and evaluates.
    fn process(&self, unblinded: &Scalar) -> (r: Result<Scalar, FingerprintError>) {
        let mut draws: usize = 0;
        while draws < BLINDING_DRAWS
            invariant
                self.shard_view().wf(),
                unblinded.wf(),
            decreases BLINDING_DRAWS - draws,
        {
            let blinding_factor = Scalar::random();
            if blinding_factor.invert().is_some() {
                let res = self.process_blinded(unblinded, &blinding_factor);
                proof {
                    if res is Ok {
                        assert(self.quorum_output(
                            unblinded.bytes_view(),
                            blinding_factor.val(),
                            res->Ok_0.val(),
                        ));
                    }
                }
                return res;
            }
            draws = draws + 1;
        }
        Err(FingerprintError::InternalCrypto)
    }
}

} // verus!
