//! The query executor: submits a statement to the session it owns and
//! retries failures with a bounded, backoff-delayed budget. The
//! session is an injected capability, so a store-backed client and a
//! scripted double plug in alike.

use vstd::prelude::*;
use vstd::string::StringExecFns;

use crate::dao::rows::{QueryError, QueryResult};

verus! {

/// The retry configuration an executor is built with: the base
/// backoff delay and the total attempt budget (first attempt
/// included).
#[derive(Debug, Clone, Copy, PartialEq, Eq, Structural)]
pub struct RetryPolicy {
    pub base_delay_ms: u64,
    pub max_attempts: u64,
}

/// `b` to the `e`-th power, saturating at `u64::MAX` the way a chain
/// of saturating multiplications does.
pub open spec fn pow_sat(b: int, e: nat) -> int
    decreases e,
{
    if e == 0 {
        1
    } else {
        let p = b * pow_sat(b, (e - 1) as nat);
        if p > u64::MAX {
            u64::MAX as int
        } else {
            p
        }
    }
}

impl RetryPolicy {
    /// A policy that makes at least one attempt.
    pub open spec fn wf(self) -> bool {
        1 <= self.max_attempts
    }

    /// The default configuration: base delay 10, one first attempt
    /// and three retries.
    pub fn standard() -> (r: RetryPolicy)
        ensures
            r == (RetryPolicy { base_delay_ms: 10, max_attempts: 4 }),
    {
        RetryPolicy { base_delay_ms: 10, max_attempts: 4 }
    }

    /// The backoff delay before retry `i` (counting retries from 0):
    /// the base delay taken to the `i+1`-th power, saturating at
    /// `u64::MAX`.
    pub fn delay_for_retry(&self, i: u64) -> (d: u64)
        ensures
            d as int == pow_sat(self.base_delay_ms as int, (i + 1) as nat),
    {
        let b = self.base_delay_ms;
        let mut cur: u64 = b;
        let mut j: u64 = 0;
        proof {
            assert(pow_sat(b as int, 0) == 1);
            assert(cur as int == pow_sat(b as int, 1));
        }
        while j < i
            invariant
                j <= i,
                cur as int == pow_sat(b as int, (j + 1) as nat),
            decreases i - j,
        {
            proof {
                let q = (u64::MAX as int) / (b as int);
                vstd::arithmetic::mul::lemma_mul_basics(cur as int);
                vstd::arithmetic::mul::lemma_mul_is_commutative(cur as int, b as int);
                if b != 0 {
                    vstd::arithmetic::div_mod::lemma_fundamental_div_mod(u64::MAX as int, b as int);
                    vstd::arithmetic::div_mod::lemma_mod_bound(u64::MAX as int, b as int);
                    if cur > q {
                        vstd::arithmetic::mul::lemma_mul_inequality(q + 1, cur as int, b as int);
                        vstd::arithmetic::mul::lemma_mul_is_distributive_add_other_way(
                            b as int,
                            q,
                            1,
                        );
                        vstd::arithmetic::mul::lemma_mul_is_commutative(q, b as int);
                        assert(cur as int * b as int > u64::MAX);
                    } else {
                        vstd::arithmetic::mul::lemma_mul_inequality(cur as int, q, b as int);
                        vstd::arithmetic::mul::lemma_mul_is_commutative(q, b as int);
                        assert(cur as int * b as int <= u64::MAX);
                    }
                }
            }
            if b != 0 && cur > u64::MAX / b {
                cur = u64::MAX;
            } else {
                cur = cur * b;
            }
            j = j + 1;
        }
        cur
    }
}

/// A jittered delay: the given fraction, in hundredths, of `d`.
pub fn jittered(d: u64, factor_pct: u64) -> (r: u64)
    requires
        factor_pct <= 100,
    ensures
        r as int == d * factor_pct / 100,
        r <= d,
{
    proof {
        assert(d * factor_pct / 100 <= d) by (nonlinear_arith)
            requires
                factor_pct <= 100,
        ;
    }
    ((d as u128 * factor_pct as u128) / 100) as u64
}

/// The capability an executor is built over: submit one statement,
/// get back a result set or an error. A value of the model is the
/// sequence of outcomes that future submissions will hand back, in
/// order; a store-backed session is free to leave it abstract.
pub trait Queryable: Sized {
    spec fn pending(&self) -> Seq<Result<QueryResult, QueryError>>;

    /// Submits one statement: the next pending outcome comes back, or
    /// some error once nothing is pending.
    fn query(&mut self, statement: &str) -> (r: Result<QueryResult, QueryError>)
        ensures
            old(self).pending().len() > 0 ==> r == old(self).pending()[0] && final(self).pending()
                == old(self).pending().drop_first(),
            old(self).pending().len() == 0 ==> r is Err && final(self).pending() == old(
                self,
            ).pending(),
    ;
}

/// A session double driven by a script of outcomes, the seam the
/// tests of the layers above substitute for a real store connection.
pub struct ScriptedSession {
    script: Vec<Result<QueryResult, QueryError>>,
}

impl ScriptedSession {
    /// A session that will hand back exactly the scripted outcomes.
    pub fn new(script: Vec<Result<QueryResult, QueryError>>) -> (r: ScriptedSession)
        ensures
            r.pending() == script@,
    {
        ScriptedSession { script }
    }

    /// How many scripted outcomes have not been consumed yet.
    pub fn remaining(&self) -> (n: usize)
        ensures
            n == self.pending().len(),
    {
        self.script.len()
    }
}

impl Queryable for ScriptedSession {
    closed spec fn pending(&self) -> Seq<Result<QueryResult, QueryError>> {
        self.script@
    }

    fn query(&mut self, _statement: &str) -> (r: Result<QueryResult, QueryError>) {
        if self.script.len() > 0 {
            let out = self.script.remove(0);
            assert(self.script@ =~= old(self).script@.drop_first());
            out
        } else {
            Err(QueryError::InvalidMessage(String::from_str("no scripted outcome left")))
        }
    }
}

/// How many attempts a run against script `p` with attempt budget `k`
/// makes: attempts stop at the first success, at the end of the
/// budget, or when the script runs dry.
pub open spec fn retry_used(p: Seq<Result<QueryResult, QueryError>>, k: nat) -> nat
    decreases k,
{
    if p.len() == 0 || k == 0 {
        0
    } else if p[0] is Ok || k == 1 {
        1
    } else {
        (1 + retry_used(p.drop_first(), (k - 1) as nat)) as nat
    }
}

/// What a run against script `p` with attempt budget `k` hands back:
/// the first success within the budget, else the budget's last
/// failure; `None` where the script runs dry first.
pub open spec fn retry_result(p: Seq<Result<QueryResult, QueryError>>, k: nat) -> Option<
    Result<QueryResult, QueryError>,
>
    decreases k,
{
    if p.len() == 0 || k == 0 {
        None
    } else if p[0] is Ok || k == 1 {
        Some(p[0])
    } else {
        retry_result(p.drop_first(), (k - 1) as nat)
    }
}

/// Bounds on a retry run: it consumes at least one outcome while any
/// is scripted, never more than the budget, and exactly the whole
/// script where the script ran dry.
pub proof fn lemma_retry_bounds(p: Seq<Result<QueryResult, QueryError>>, k: nat)
    requires
        1 <= k,
    ensures
        retry_used(p, k) <= p.len(),
        retry_used(p, k) <= k,
        p.len() > 0 ==> 1 <= retry_used(p, k),
        retry_result(p, k) is None ==> retry_used(p, k) == p.len(),
        retry_result(p, k) is Some ==> 1 <= retry_used(p, k),
    decreases k,
{
    if p.len() == 0 || k == 1 {
    } else if p[0] is Ok {
    } else {
        lemma_retry_bounds(p.drop_first(), (k - 1) as nat);
    }
}

/// Retry exhaustion: against a script that fails at every attempt of
/// the budget, the whole budget of `k` attempts is used and the last
/// attempt's failure is what comes back.
pub proof fn lemma_retry_exhaustion(p: Seq<Result<QueryResult, QueryError>>, k: nat)
    requires
        1 <= k <= p.len(),
        forall|i: int| 0 <= i < k ==> p[i] is Err,
    ensures
        retry_used(p, k) == k,
        retry_result(p, k) == Some(p[k - 1]),
    decreases k,
{
    assert(p[0] is Err);
    if k > 1 {
        assert forall|i: int| 0 <= i < k - 1 implies p.drop_first()[i] is Err by {
            assert(p[i + 1] is Err);
        }
        lemma_retry_exhaustion(p.drop_first(), (k - 1) as nat);
        assert(p.drop_first()[k - 2] == p[k - 1]);
    }
}

/// A single transient failure recovers: against a script that fails
/// once and then succeeds, exactly two attempts are made and the
/// success is what comes back.
pub proof fn lemma_retry_single_failure_recovers(
    p: Seq<Result<QueryResult, QueryError>>,
    k: nat,
)
    requires
        2 <= k,
        2 <= p.len(),
        p[0] is Err,
        p[1] is Ok,
    ensures
        retry_used(p, k) == 2,
        retry_result(p, k) == Some(p[1]),
{
    assert(p.drop_first()[0] == p[1]);
    assert(retry_used(p.drop_first(), (k - 1) as nat) == 1);
    assert(retry_result(p.drop_first(), (k - 1) as nat) == Some(p[1]));
}

/// The results that successive retry runs against script `p` hand
/// back, as far as the script pins them down.
pub open spec fn stream_results(p: Seq<Result<QueryResult, QueryError>>, k: nat) -> Seq<
    Result<QueryResult, QueryError>,
>
    decreases p.len(),
    via stream_results_decreases
{
    if p.len() == 0 || k == 0 {
        Seq::empty()
    } else {
        match retry_result(p, k) {
            None => Seq::empty(),
            Some(o) => seq![o] + stream_results(p.skip(retry_used(p, k) as int), k),
        }
    }
}

#[via_fn]
proof fn stream_results_decreases(p: Seq<Result<QueryResult, QueryError>>, k: nat) {
    if p.len() > 0 && k > 0 && retry_result(p, k) is Some {
        lemma_retry_bounds(p, k);
    }
}

/// What the repository depends on: execute one query with retries.
/// The model is the sequence of results that successive calls hand
/// back.
pub trait SessionManager: Sized {
    spec fn results(&self) -> Seq<Result<QueryResult, QueryError>>;

    /// Executes one statement: the next modelled result comes back,
    /// or some error once the model pins nothing down.
    fn execute_query(&mut self, query_statement: &str) -> (r: Result<QueryResult, QueryError>)
        ensures
            old(self).results().len() > 0 ==> r == old(self).results()[0] && final(self).results()
                == old(self).results().drop_first(),
            old(self).results().len() == 0 ==> r is Err && final(self).results().len() == 0,
    ;
}

/// The query executor: owns its session and retries every failure
/// uniformly, up to the policy's attempt budget. Between attempts a
/// store-backed caller is meant to wait the policy's jittered backoff
/// delay (`delay_for_retry`, `jittered`); the waiting itself is the
/// surrounding runtime's affair, so the executor only decides.
pub struct SessionManagerImpl<Q: Queryable> {
    pub session: Q,
    pub policy: RetryPolicy,
}

impl<Q: Queryable> SessionManagerImpl<Q> {
    /// The attempt budget actually applied: at least one attempt.
    pub open spec fn budget(self) -> nat {
        if self.policy.max_attempts == 0 {
            1
        } else {
            self.policy.max_attempts as nat
        }
    }

    /// An executor over the given session, with the default policy.
    pub fn new(session: Q) -> (r: SessionManagerImpl<Q>)
        ensures
            r.session == session,
            r.policy == (RetryPolicy { base_delay_ms: 10, max_attempts: 4 }),
    {
        SessionManagerImpl { session, policy: RetryPolicy::standard() }
    }

    /// An executor over the given session and retry configuration.
    pub fn with_policy(session: Q, policy: RetryPolicy) -> (r: SessionManagerImpl<Q>)
        requires
            policy.wf(),
        ensures
            r.session == session,
            r.policy == policy,
    {
        SessionManagerImpl { session, policy }
    }
}

impl<Q: Queryable> SessionManager for SessionManagerImpl<Q> {
    open spec fn results(&self) -> Seq<Result<QueryResult, QueryError>> {
        stream_results(self.session.pending(), self.budget())
    }

    /// Submits the statement up to `budget` times, stopping at the
    /// first success; the retry run over the session's pending
    /// outcomes says exactly what comes back and what is consumed.
    fn execute_query(&mut self, query_statement: &str) -> (r: Result<QueryResult, QueryError>)
        ensures
            final(self).policy == old(self).policy,
            final(self).session.pending() == old(self).session.pending().skip(
                retry_used(old(self).session.pending(), old(self).budget()) as int,
            ),
            match retry_result(old(self).session.pending(), old(self).budget()) {
                Some(o) => r == o,
                None => r is Err,
            },
    {
        let ghost p = self.session.pending();
        let ghost k = self.budget();
        let k_exec: u64 = if self.policy.max_attempts == 0 {
            1
        } else {
            self.policy.max_attempts
        };
        let mut result = self.session.query(query_statement);
        let mut attempt: u64 = 1;
        let ghost mut consumed: int = if p.len() > 0 {
            1
        } else {
            0
        };
        proof {
            assert(p.skip(0) =~= p);
            if p.len() > 0 {
                assert(p.skip(1) =~= p.drop_first());
            }
        }
        while result.is_err() && attempt < k_exec
            invariant
                1 <= attempt <= k_exec,
                k == k_exec as nat,
                self.policy == old(self).policy,
                k == old(self).budget(),
                p == old(self).session.pending(),
                0 <= consumed <= p.len(),
                self.session.pending() == p.skip(consumed),
                result is Ok ==> consumed == retry_used(p, k) && Some(result) == retry_result(
                    p,
                    k,
                ),
                result is Err && attempt < k_exec ==> retry_used(p, k) == consumed + retry_used(
                    self.session.pending(),
                    (k - attempt) as nat,
                ) && retry_result(p, k) == retry_result(
                    self.session.pending(),
                    (k - attempt) as nat,
                ),
                result is Err && attempt == k_exec ==> consumed == retry_used(p, k)
                    && (retry_result(p, k) is Some ==> retry_result(p, k)->0 == result),
            decreases k_exec - attempt,
        {
            let ghost cur = self.session.pending();
            let r2 = self.session.query(query_statement);
            proof {
                if cur.len() > 0 {
                    consumed = consumed + 1;
                    assert(p.skip(consumed) =~= p.skip(consumed - 1).drop_first());
                } else {
                    assert(p.skip(consumed) =~= cur);
                }
            }
            result = r2;
            attempt = attempt + 1;
        }
        proof {
            lemma_retry_bounds(p, k);
            let used = retry_used(p, k) as int;
            assert(consumed == used);
            assert(self.session.pending() == p.skip(used));
            if retry_result(p, k) is Some {
                let o = retry_result(p, k)->0;
                assert(stream_results(p, k) == seq![o] + stream_results(p.skip(used), k));
                assert(stream_results(p, k)[0] == o);
                assert(stream_results(p, k).drop_first() =~= stream_results(p.skip(used), k));
                assert(result == o);
            } else {
                assert(p.skip(used).len() == 0);
                assert(old(self).results().len() == 0);
                assert(self.results().len() == 0);
                assert(result is Err);
            }
        }
        result
    }
}

} // verus!
