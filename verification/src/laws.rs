//! Laws of the sweep engine, stated and proved over its specification
//! functions.

use vstd::prelude::*;

use crate::addr::LocalAddress;
use crate::addr::ProbeTarget;
use crate::addr::SubnetPrefix;
use crate::addr::ip_text;
use crate::addr::prefix_of;
use crate::addr::target_text;
use crate::policy::ProbeOutcome;
use crate::policy::ProbeStrategy;
use crate::sweep::effective_seq;
use crate::sweep::line_at;
use crate::sweep::line_text;
use crate::sweep::swept_lines;
use crate::sweep::swept_upto;
use crate::text::dec_of;

verus! {

proof fn lemma_swept_upto_bounded(
    prefix: SubnetPrefix,
    outcomes: Seq<ProbeOutcome>,
    resolve: bool,
    resolutions: Seq<Option<String>>,
    n: int,
)
    requires
        n >= 0,
    ensures
        swept_upto(prefix, outcomes, resolve, resolutions, n).finite(),
        swept_upto(prefix, outcomes, resolve, resolutions, n).len() <= n,
    decreases n,
{
    if n > 0 {
        lemma_swept_upto_bounded(prefix, outcomes, resolve, resolutions, n - 1);
    }
}

/// A sweep of one prefix yields at most as many lines as it probed targets —
/// for a /24 that is at most 254.
pub proof fn lemma_sweep_size_bounded(
    prefix: SubnetPrefix,
    outcomes: Seq<ProbeOutcome>,
    resolve: bool,
    resolutions: Seq<Option<String>>,
)
    ensures
        swept_lines(prefix, outcomes, resolve, resolutions).finite(),
        swept_lines(prefix, outcomes, resolve, resolutions).len() <= outcomes.len(),
{
    lemma_swept_upto_bounded(prefix, outcomes, resolve, resolutions, outcomes.len() as int);
}

proof fn lemma_swept_upto_member(
    prefix: SubnetPrefix,
    outcomes: Seq<ProbeOutcome>,
    resolve: bool,
    resolutions: Seq<Option<String>>,
    n: int,
    l: Seq<char>,
)
    requires
        swept_upto(prefix, outcomes, resolve, resolutions, n).contains(l),
    ensures
        exists|i: int|
            0 <= i < n && outcomes[i] is Reachable && l == line_at(
                prefix,
                i,
                resolve,
                resolutions[i],
            ),
    decreases n,
{
    if n > 0 {
        if outcomes[n - 1] is Reachable && l == line_at(prefix, n - 1, resolve, resolutions[n - 1]) {
            assert(0 <= n - 1 < n && outcomes[n - 1] is Reachable && l == line_at(
                prefix,
                n - 1,
                resolve,
                resolutions[n - 1],
            ));
        } else {
            lemma_swept_upto_member(prefix, outcomes, resolve, resolutions, n - 1, l);
        }
    }
}

/// Every member of a sweep's result is the line of some target that reported
/// reachable.
pub proof fn lemma_swept_member_reachable(
    prefix: SubnetPrefix,
    outcomes: Seq<ProbeOutcome>,
    resolve: bool,
    resolutions: Seq<Option<String>>,
    l: Seq<char>,
)
    requires
        swept_lines(prefix, outcomes, resolve, resolutions).contains(l),
    ensures
        exists|i: int|
            0 <= i < outcomes.len() && outcomes[i] is Reachable && l == line_at(
                prefix,
                i,
                resolve,
                resolutions[i],
            ),
{
    lemma_swept_upto_member(
        prefix,
        outcomes,
        resolve,
        resolutions,
        outcomes.len() as int,
        l,
    );
}

proof fn lemma_swept_upto_complete(
    prefix: SubnetPrefix,
    outcomes: Seq<ProbeOutcome>,
    resolve: bool,
    resolutions: Seq<Option<String>>,
    n: int,
    i: int,
)
    requires
        0 <= i < n,
        outcomes[i] is Reachable,
    ensures
        swept_upto(prefix, outcomes, resolve, resolutions, n).contains(
            line_at(prefix, i, resolve, resolutions[i]),
        ),
    decreases n,
{
    if i < n - 1 {
        lemma_swept_upto_complete(prefix, outcomes, resolve, resolutions, n - 1, i);
    }
}

/// Conversely, the line of every target that reported reachable is a member
/// of the sweep's result: nothing reachable is dropped.
pub proof fn lemma_swept_complete(
    prefix: SubnetPrefix,
    outcomes: Seq<ProbeOutcome>,
    resolve: bool,
    resolutions: Seq<Option<String>>,
    i: int,
)
    requires
        0 <= i < outcomes.len(),
        outcomes[i] is Reachable,
    ensures
        swept_lines(prefix, outcomes, resolve, resolutions).contains(
            line_at(prefix, i, resolve, resolutions[i]),
        ),
{
    lemma_swept_upto_complete(
        prefix,
        outcomes,
        resolve,
        resolutions,
        outcomes.len() as int,
        i,
    );
}

/// Sweeping the same prefix twice over the same probe reports adds nothing
/// the second time: merging a sweep's lines into a set that already holds
/// them leaves the set as it is.
pub proof fn lemma_sweep_idempotent(
    base: Set<Seq<char>>,
    prefix: SubnetPrefix,
    outcomes: Seq<ProbeOutcome>,
    resolve: bool,
    resolutions: Seq<Option<String>>,
)
    ensures
        (base + swept_lines(prefix, outcomes, resolve, resolutions)) + swept_lines(
            prefix,
            outcomes,
            resolve,
            resolutions,
        ) == base + swept_lines(prefix, outcomes, resolve, resolutions),
{
    assert((base + swept_lines(prefix, outcomes, resolve, resolutions)) + swept_lines(
        prefix,
        outcomes,
        resolve,
        resolutions,
    ) =~= base + swept_lines(prefix, outcomes, resolve, resolutions));
}

/// Two local addresses on the same /24 sweep the same prefix, and merging
/// both sweeps puts each reachable host's line into the set exactly once:
/// the merge equals a single sweep of that prefix.
pub proof fn lemma_duplicate_subnet_dedup(
    base: Set<Seq<char>>,
    addr1: LocalAddress,
    addr2: LocalAddress,
    outcomes: Seq<ProbeOutcome>,
    resolve: bool,
    resolutions: Seq<Option<String>>,
)
    requires
        prefix_of(addr1) == prefix_of(addr2),
    ensures
        (base + swept_lines(prefix_of(addr1), outcomes, resolve, resolutions)) + swept_lines(
            prefix_of(addr2),
            outcomes,
            resolve,
            resolutions,
        ) == base + swept_lines(prefix_of(addr1), outcomes, resolve, resolutions),
{
    lemma_sweep_idempotent(base, prefix_of(addr1), outcomes, resolve, resolutions);
}

/// With resolution disabled, every member of a sweep's result is the textual
/// IP address of a reachable target.
pub proof fn lemma_no_resolution_lines_are_addresses(
    prefix: SubnetPrefix,
    outcomes: Seq<ProbeOutcome>,
    resolutions: Seq<Option<String>>,
    l: Seq<char>,
)
    requires
        swept_lines(prefix, outcomes, false, resolutions).contains(l),
    ensures
        exists|i: int|
            0 <= i < outcomes.len() && outcomes[i] is Reachable && l == ip_text(
                prefix.a,
                prefix.b,
                prefix.c,
                ((i + 1) as u8),
            ),
{
    lemma_swept_member_reachable(prefix, outcomes, false, resolutions, l);
    let i = choose|i: int|
        0 <= i < outcomes.len() && outcomes[i] is Reachable && l == line_at(
            prefix,
            i,
            false,
            resolutions[i],
        );
    assert(l == ip_text(prefix.a, prefix.b, prefix.c, ((i + 1) as u8)));
}

/// With resolution enabled but failed for a target — no resolution, or empty
/// text — the target's line still equals its textual IP address.
pub proof fn lemma_failed_resolution_falls_back(t: ProbeTarget, resolution: Option<String>)
    requires
        resolution is None || resolution->0@.len() == 0,
    ensures
        line_text(target_text(t), true, resolution) == target_text(t),
{
}

/// A result line is never empty: a resolved name is only used when its text
/// is non-empty, and a textual IP address always has at least one digit.
pub proof fn lemma_line_never_empty(t: ProbeTarget, resolve: bool, resolution: Option<String>)
    ensures
        line_text(target_text(t), resolve, resolution).len() > 0,
{
    assert(dec_of(t.prefix.a as nat).len() > 0) by {
        lemma_dec_of_nonempty(t.prefix.a as nat);
    }
}

proof fn lemma_dec_of_nonempty(n: nat)
    ensures
        dec_of(n).len() > 0,
{
    if n < 10 {
        assert(dec_of(n) == seq![crate::text::digit_char(n)]);
    } else {
        assert(dec_of(n) == dec_of(n / 10) + seq![crate::text::digit_char(n % 10)]);
    }
}

proof fn lemma_all_unreachable_upto_empty(
    prefix: SubnetPrefix,
    outcomes: Seq<ProbeOutcome>,
    resolve: bool,
    resolutions: Seq<Option<String>>,
    n: int,
)
    requires
        forall|i: int| 0 <= i < outcomes.len() ==> !((#[trigger] outcomes[i]) is Reachable),
        n <= outcomes.len(),
    ensures
        swept_upto(prefix, outcomes, resolve, resolutions, n) == Set::<Seq<char>>::empty(),
    decreases n,
{
    if n > 0 {
        lemma_all_unreachable_upto_empty(prefix, outcomes, resolve, resolutions, n - 1);
    }
}

/// Degraded-mode propagation: when the raw-socket strategy runs without the
/// raw-socket capability, every probe counts as unreachable, whatever it
/// reported, and the sweep yields no lines at all.
pub proof fn lemma_degraded_mode_sweeps_nothing(
    prefix: SubnetPrefix,
    strategy: ProbeStrategy,
    capability_ok: bool,
    outcomes: Seq<ProbeOutcome>,
    resolve: bool,
    resolutions: Seq<Option<String>>,
)
    requires
        strategy is RawSocket,
        !capability_ok,
    ensures
        forall|i: int|
            0 <= i < outcomes.len() ==> (#[trigger] effective_seq(
                strategy,
                capability_ok,
                outcomes,
            )[i]) is Unreachable,
        swept_lines(
            prefix,
            effective_seq(strategy, capability_ok, outcomes),
            resolve,
            resolutions,
        ) == Set::<Seq<char>>::empty(),
{
    let eff = effective_seq(strategy, capability_ok, outcomes);
    lemma_all_unreachable_upto_empty(prefix, eff, resolve, resolutions, eff.len() as int);
}

} // verus!
