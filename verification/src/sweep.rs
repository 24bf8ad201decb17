//! The sweep engine: per-target result lines and the deduplicated result set.
//!
//! A sweep probes the 254 targets of one /24 prefix. The probes themselves
//! run outside this crate; their reports come back as one outcome per host
//! suffix, paired by position with one optional resolution per suffix. This
//! module turns those reports into result lines — a resolved hostname when
//! resolution is enabled and produced non-empty text, the textual IP address
//! otherwise — and accumulates the lines of any number of sweeps into one
//! set without duplicates.

use vstd::prelude::*;

use crate::addr::ProbeTarget;
use crate::addr::SubnetPrefix;
use crate::addr::ip_text;
use crate::addr::target_text;
use crate::addr::target_string;
use crate::policy::ProbeOutcome;
use crate::policy::ProbeStrategy;
use crate::policy::effective_of;
use crate::policy::effective_outcome;

verus! {

/// The text of one result line: the resolution's text when resolution is on
/// and it produced non-empty text, else the address text itself.
pub open spec fn line_text(addr: Seq<char>, resolve: bool, resolution: Option<String>) -> Seq<
    char,
> {
    if resolve && resolution is Some && resolution->0@.len() > 0 {
        resolution->0@
    } else {
        addr
    }
}

/// The result line for one reachable target.
pub fn result_line(target: &ProbeTarget, resolve: bool, resolution: &Option<String>) -> (r: String)
    ensures
        r@ == line_text(target_text(*target), resolve, *resolution),
{
    if resolve {
        match resolution {
            Some(name) => {
                if name.as_str().is_empty() {
                    target_string(target)
                } else {
                    name.clone()
                }
            },
            None => target_string(target),
        }
    } else {
        target_string(target)
    }
}

/// An insertion-order-irrelevant collection of unique result lines.
pub struct ResultSet {
    lines: Vec<String>,
}

impl View for ResultSet {
    type V = Set<Seq<char>>;

    closed spec fn view(&self) -> Set<Seq<char>> {
        self.lines@.map_values(|s: String| s@).to_set()
    }
}

impl ResultSet {
    /// The stored lines are pairwise distinct.
    pub closed spec fn wf(&self) -> bool {
        forall|i: int, j: int|
            0 <= i < j < self.lines@.len() ==> self.lines@[i]@ != self.lines@[j]@
    }

    /// An empty result set.
    pub fn new() -> (r: ResultSet)
        ensures
            r.wf(),
            r@ == Set::<Seq<char>>::empty(),
            r@.len() == 0,
    {
        let r = ResultSet { lines: Vec::new() };
        proof {
            assert(r.lines@.map_values(|s: String| s@).to_set() =~= Set::<Seq<char>>::empty());
        }
        r
    }

    /// Whether some stored line has this text.
    pub fn contains_line(&self, line: &String) -> (b: bool)
        ensures
            b == self@.contains(line@),
    {
        let n = self.lines.len();
        let mut k: usize = 0;
        while k < n
            invariant
                n == self.lines@.len(),
                k <= n,
                forall|j: int| 0 <= j < k ==> self.lines@[j]@ != line@,
            decreases n - k,
        {
            if self.lines[k].eq(line) {
                proof {
                    let mapped = self.lines@.map_values(|s: String| s@);
                    assert(mapped[k as int] == line@);
                    assert(mapped.contains(line@));
                }
                return true;
            }
            k = k + 1;
        }
        proof {
            let mapped = self.lines@.map_values(|s: String| s@);
            assert forall|j: int| 0 <= j < mapped.len() implies mapped[j] != line@ by {
                assert(self.lines@[j]@ != line@);
            }
            assert(!mapped.contains(line@));
        }
        false
    }

    /// Add a line unless an equal one is already present.
    pub fn insert(&mut self, line: String)
        requires
            old(self).wf(),
        ensures
            final(self).wf(),
            final(self)@ == old(self)@.insert(line@),
    {
        if self.contains_line(&line) {
            proof {
                assert(self@.insert(line@) =~= self@);
            }
        } else {
            let ghost pre = self.lines@;
            self.lines.push(line);
            proof {
                let mapped = pre.map_values(|s: String| s@);
                let pushed = self.lines@.map_values(|s: String| s@);
                assert(pushed =~= mapped.push(line@));
                assert forall|j: int| 0 <= j < mapped.len() implies mapped[j] != line@ by {
                    if mapped[j] == line@ {
                        assert(mapped.contains(line@));
                    }
                }
                assert forall|i: int, j: int|
                    0 <= i < j < self.lines@.len() implies self.lines@[i]@ != self.lines@[j]@ by {
                    if j < pre.len() {
                        assert(pre[i]@ != pre[j]@);
                    } else {
                        assert(self.lines@[j] == line);
                        assert(self.lines@[i]@ == mapped[i]);
                    }
                }
                assert(pushed.to_set() =~= mapped.to_set().insert(line@)) by {
                    assert forall|x: Seq<char>| pushed.to_set().contains(x) implies mapped.to_set(
                    ).insert(line@).contains(x) by {
                        let j = choose|j: int| 0 <= j < pushed.len() && pushed[j] == x;
                        if j < mapped.len() {
                            assert(mapped[j] == x);
                            assert(mapped.contains(x));
                        }
                    }
                    assert forall|x: Seq<char>|
                        mapped.to_set().insert(line@).contains(x) implies pushed.to_set().contains(
                        x,
                    ) by {
                        if mapped.to_set().contains(x) {
                            let j = choose|j: int| 0 <= j < mapped.len() && mapped[j] == x;
                            assert(pushed[j] == x);
                            assert(pushed.contains(x));
                        } else {
                            assert(pushed[mapped.len() as int] == line@);
                            assert(pushed.contains(line@));
                        }
                    }
                }
            }
        }
    }

    /// How many distinct lines are present.
    pub fn len(&self) -> (n: usize)
        requires
            self.wf(),
        ensures
            n == self@.len(),
    {
        proof {
            let mapped = self.lines@.map_values(|s: String| s@);
            assert(mapped.no_duplicates());
            mapped.unique_seq_to_set();
        }
        self.lines.len()
    }

    /// The stored lines, one per distinct result.
    pub fn lines(&self) -> (r: &Vec<String>)
        requires
            self.wf(),
        ensures
            r@.map_values(|s: String| s@).to_set() == self@,
            r@.map_values(|s: String| s@).no_duplicates(),
            r@.len() == self@.len(),
    {
        proof {
            let mapped = self.lines@.map_values(|s: String| s@);
            assert(mapped.no_duplicates());
            mapped.unique_seq_to_set();
        }
        &self.lines
    }
}

/// The result line that index `i` of a sweep contributes: the target's
/// suffix is `i + 1`.
pub open spec fn line_at(prefix: SubnetPrefix, i: int, resolve: bool, resolution: Option<
    String,
>) -> Seq<char> {
    line_text(ip_text(prefix.a, prefix.b, prefix.c, (i + 1) as u8), resolve, resolution)
}

/// What each probe's report counts as under the run's strategy and
/// capability: in degraded raw-socket mode everything counts as unreachable.
pub open spec fn effective_seq(
    strategy: ProbeStrategy,
    capability_ok: bool,
    outcomes: Seq<ProbeOutcome>,
) -> Seq<ProbeOutcome> {
    Seq::new(outcomes.len(), |i: int| effective_of(strategy, capability_ok, outcomes[i]))
}

/// The result lines contributed by the first `n` indices of a sweep.
pub open spec fn swept_upto(
    prefix: SubnetPrefix,
    outcomes: Seq<ProbeOutcome>,
    resolve: bool,
    resolutions: Seq<Option<String>>,
    n: int,
) -> Set<Seq<char>>
    decreases n,
{
    if n <= 0 {
        Set::empty()
    } else {
        let rest = swept_upto(prefix, outcomes, resolve, resolutions, n - 1);
        if outcomes[n - 1] is Reachable {
            rest.insert(line_at(prefix, n - 1, resolve, resolutions[n - 1]))
        } else {
            rest
        }
    }
}

/// The result lines of one whole sweep: one line per reachable target,
/// collected as a set.
pub open spec fn swept_lines(
    prefix: SubnetPrefix,
    outcomes: Seq<ProbeOutcome>,
    resolve: bool,
    resolutions: Seq<Option<String>>,
) -> Set<Seq<char>> {
    swept_upto(prefix, outcomes, resolve, resolutions, outcomes.len() as int)
}

/// Merge one sweep of `prefix` into an accumulated result set.
///
/// `outcomes[i]` is the probe report for suffix `i + 1`, and `resolutions[i]`
/// the hostname resolution attempted for it (or `None`). Every line of a
/// reachable target joins the set; duplicates — within this sweep or against
/// lines already present — are discarded.
pub fn sweep_into(
    set: &mut ResultSet,
    prefix: SubnetPrefix,
    strategy: ProbeStrategy,
    capability_ok: bool,
    outcomes: &Vec<ProbeOutcome>,
    resolve: bool,
    resolutions: &Vec<Option<String>>,
)
    requires
        old(set).wf(),
        outcomes@.len() == 254,
        resolutions@.len() == 254,
    ensures
        final(set).wf(),
        final(set)@ == old(set)@ + swept_lines(
            prefix,
            effective_seq(strategy, capability_ok, outcomes@),
            resolve,
            resolutions@,
        ),
{
    let ghost eff = effective_seq(strategy, capability_ok, outcomes@);
    let mut i: usize = 0;
    while i < 254
        invariant
            set.wf(),
            outcomes@.len() == 254,
            resolutions@.len() == 254,
            i <= 254,
            eff == effective_seq(strategy, capability_ok, outcomes@),
            set@ == old(set)@ + swept_upto(prefix, eff, resolve, resolutions@, i as int),
        decreases 254 - i,
    {
        let o = effective_outcome(strategy, capability_ok, outcomes[i]);
        proof {
            assert(eff[i as int] == o);
        }
        match o {
            ProbeOutcome::Reachable => {
                let target = ProbeTarget { prefix, suffix: (i as u8) + 1 };
                let line = result_line(&target, resolve, &resolutions[i]);
                proof {
                    assert(line@ == line_at(prefix, i as int, resolve, resolutions@[i as int]));
                    assert((old(set)@ + swept_upto(prefix, eff, resolve, resolutions@, i as int)).insert(
                        line@,
                    ) =~= old(set)@ + swept_upto(prefix, eff, resolve, resolutions@, i + 1));
                }
                set.insert(line);
            },
            ProbeOutcome::Unreachable => {
            },
        }
        i = i + 1;
    }
}

/// Sweep one prefix into a fresh result set.
///
/// This is the engine's public contract: given the per-suffix probe reports
/// and resolutions of one /24 prefix, the returned set holds exactly the
/// result lines of the targets that count as reachable under the run's
/// strategy and capability.
pub fn sweep(
    prefix: SubnetPrefix,
    strategy: ProbeStrategy,
    capability_ok: bool,
    outcomes: &Vec<ProbeOutcome>,
    resolve: bool,
    resolutions: &Vec<Option<String>>,
) -> (r: ResultSet)
    requires
        outcomes@.len() == 254,
        resolutions@.len() == 254,
    ensures
        r.wf(),
        r@ == swept_lines(
            prefix,
            effective_seq(strategy, capability_ok, outcomes@),
            resolve,
            resolutions@,
        ),
{
    let mut r = ResultSet::new();
    sweep_into(&mut r, prefix, strategy, capability_ok, outcomes, resolve, resolutions);
    proof {
        assert(Set::<Seq<char>>::empty() + swept_lines(
            prefix,
            effective_seq(strategy, capability_ok, outcomes@),
            resolve,
            resolutions@,
        ) =~= swept_lines(
            prefix,
            effective_seq(strategy, capability_ok, outcomes@),
            resolve,
            resolutions@,
        ));
    }
    r
}

} // verus!
