use crate::safety::SafetyCheck;
use crate::visit::{classify, event_resolution, reports, EntryEvent, ObjectError, Resolution};
use vstd::prelude::*;

verus! {

/// Counts accumulated over the entries of a pack.
#[derive(PartialEq, Eq, Structural, Clone, Copy, Debug)]
pub struct Outcome {
    /// Entries written and accepted, tolerated trees included.
    pub processed: usize,
    /// Trees accepted although their id changed.
    pub tolerated: usize,
    /// Failing entries passed over under the most lenient policy.
    pub failed: usize,
}

/// A run that stopped at a failing entry.
#[derive(Debug)]
pub struct Aborted {
    /// Position of the failing entry.
    pub at: usize,
    /// Its error, with the object's kind and ids.
    pub error: ObjectError,
    /// What was counted before it.
    pub so_far: Outcome,
}

/// The state of a run after some entries: counts, and whether it stopped.
pub struct Tally {
    pub aborted: bool,
    pub processed: nat,
    pub tolerated: nat,
    pub failed: nat,
}

impl Outcome {
    pub open spec fn matches_tally(self, t: Tally) -> bool {
        self.processed as nat == t.processed && self.tolerated as nat == t.tolerated
            && self.failed as nat == t.failed
    }
}

/// The state after entries `evs`, taken in order under `policy`: an accepted entry
/// counts as processed; a failing one stops the run unless the policy is the
/// most lenient, which counts it and goes on.
pub open spec fn tally(policy: SafetyCheck, evs: Seq<EntryEvent>) -> Tally
    decreases evs.len(),
{
    if evs.len() == 0 {
        Tally { aborted: false, processed: 0, tolerated: 0, failed: 0 }
    } else {
        let t = tally(policy, evs.drop_last());
        if t.aborted {
            t
        } else {
            match event_resolution(evs.last()) {
                Some(Resolution::Exact) => Tally { processed: t.processed + 1, ..t },
                Some(Resolution::ToleratedTree) => Tally {
                    processed: t.processed + 1,
                    tolerated: t.tolerated + 1,
                    ..t
                },
                None => if policy.spec_aborts_on_error() {
                    Tally { aborted: true, ..t }
                } else {
                    Tally { failed: t.failed + 1, ..t }
                },
            }
        }
    }
}

/// Counts bounded by the number of entries seen.
proof fn lemma_tally_bounded(policy: SafetyCheck, evs: Seq<EntryEvent>)
    ensures
        tally(policy, evs).processed + tally(policy, evs).failed <= evs.len(),
        tally(policy, evs).tolerated <= tally(policy, evs).processed,
    decreases evs.len(),
{
    if evs.len() > 0 {
        lemma_tally_bounded(policy, evs.drop_last());
    }
}

/// Once a run has stopped, later entries change nothing.
proof fn lemma_tally_stopped(policy: SafetyCheck, evs: Seq<EntryEvent>, n: int)
    requires
        0 <= n <= evs.len(),
        tally(policy, evs.subrange(0, n)).aborted,
    ensures
        tally(policy, evs) == tally(policy, evs.subrange(0, n)),
    decreases evs.len() - n,
{
    if n < evs.len() {
        assert(evs.subrange(0, n + 1).drop_last() == evs.subrange(0, n));
        assert(tally(policy, evs.subrange(0, n + 1)) == tally(policy, evs.subrange(0, n)));
        lemma_tally_stopped(policy, evs, n + 1);
    } else {
        assert(evs.subrange(0, n) == evs);
    }
}

/// Entries that are all accepted after a prefix that did not stop add one processed
/// object each and no failure.
proof fn lemma_tally_accepted_rest(policy: SafetyCheck, evs: Seq<EntryEvent>, n: int)
    requires
        0 <= n <= evs.len(),
        !tally(policy, evs.subrange(0, n)).aborted,
        forall|j: int| n <= j < evs.len() ==> (#[trigger] event_resolution(evs[j])) is Some,
    ensures
        !tally(policy, evs).aborted,
        tally(policy, evs).processed == tally(policy, evs.subrange(0, n)).processed + (evs.len()
            - n),
        tally(policy, evs).failed == tally(policy, evs.subrange(0, n)).failed,
    decreases evs.len() - n,
{
    if n < evs.len() {
        assert(evs.subrange(0, n + 1).drop_last() == evs.subrange(0, n));
        assert(evs.subrange(0, n + 1).last() == evs[n]);
        assert(event_resolution(evs[n]) is Some);
        lemma_tally_accepted_rest(policy, evs, n + 1);
    } else {
        assert(evs.subrange(0, n) == evs);
    }
}

/// The entry was written, under the id its index records.
pub open spec fn written_as_recorded(ev: EntryEvent) -> bool {
    ev matches EntryEvent::Written { written: Ok(actual), expected, .. } && actual@ == expected@
}

/// A pack whose every object is written under the id its index records explodes
/// under the strictest policy with every entry processed, no tolerated mismatch
/// and no failure.
pub proof fn lemma_clean_pack_round_trips(evs: Seq<EntryEvent>)
    requires
        forall|j: int| 0 <= j < evs.len() ==> written_as_recorded(#[trigger] evs[j]),
    ensures
        !tally(SafetyCheck::All, evs).aborted,
        tally(SafetyCheck::All, evs).processed == evs.len(),
        tally(SafetyCheck::All, evs).tolerated == 0,
        tally(SafetyCheck::All, evs).failed == 0,
    decreases evs.len(),
{
    if evs.len() > 0 {
        let init = evs.drop_last();
        assert forall|j: int| 0 <= j < init.len() implies written_as_recorded(#[trigger] init[j]) by {
            assert(init[j] == evs[j]);
        }
        lemma_clean_pack_round_trips(init);
        assert(evs[evs.len() - 1] == evs.last());
    }
}

/// Under every policy, a tree written under an id other than the recorded one is
/// accepted: the run goes on, with the tree counted as processed and as a
/// tolerated mismatch.
pub proof fn lemma_tree_tolerated(
    policy: SafetyCheck,
    before: Seq<EntryEvent>,
    expected: Vec<u8>,
    actual: Vec<u8>,
)
    requires
        !tally(policy, before).aborted,
        expected@ != actual@,
    ensures
        ({
            let tree = EntryEvent::Written {
                kind: crate::object::ObjectKind::Tree,
                expected,
                written: Ok(actual),
            };
            let t = tally(policy, before.push(tree));
            &&& event_resolution(tree) == Some(Resolution::ToleratedTree)
            &&& !t.aborted
            &&& t.processed == tally(policy, before).processed + 1
            &&& t.tolerated == tally(policy, before).tolerated + 1
            &&& t.failed == tally(policy, before).failed
        }),
{
    let tree = EntryEvent::Written {
        kind: crate::object::ObjectKind::Tree,
        expected,
        written: Ok(actual),
    };
    assert(before.push(tree).drop_last() == before);
}

/// A pack with one failing entry, followed by at least one of its other entries,
/// all of which are accepted: every policy but the most lenient stops with fewer
/// processed objects than there are accepted entries; the most lenient one
/// completes with all of them processed and one failure counted.
pub proof fn lemma_leniency(policy: SafetyCheck, evs: Seq<EntryEvent>, bad: int)
    requires
        0 <= bad < evs.len() - 1,
        event_resolution(evs[bad]) is None,
        forall|j: int| 0 <= j < evs.len() && j != bad ==> (#[trigger] event_resolution(evs[j])) is Some,
    ensures
        policy.spec_aborts_on_error() ==> tally(policy, evs).aborted && tally(policy, evs).processed
            < evs.len() - 1,
        !policy.spec_aborts_on_error() ==> !tally(policy, evs).aborted && tally(policy, evs).processed
            == evs.len() - 1 && tally(policy, evs).failed == 1,
{
    let head = evs.subrange(0, bad);
    assert forall|j: int| 0 <= j < head.len() implies (#[trigger] event_resolution(head[j])) is Some by {
        assert(head[j] == evs[j]);
    }
    lemma_tally_accepted_rest(policy, head, 0);
    assert(head.subrange(0, 0) == Seq::<EntryEvent>::empty());
    assert(evs.subrange(0, bad + 1).drop_last() == head);
    assert(evs.subrange(0, bad + 1).last() == evs[bad]);
    if policy.spec_aborts_on_error() {
        lemma_tally_stopped(policy, evs, bad + 1);
    } else {
        lemma_tally_accepted_rest(policy, evs, bad + 1);
    }
}

/// Takes every entry of a pack in order under `policy` and accumulates the
/// outcome; under every policy but the most lenient, the first failing entry
/// stops the run and is reported with what was counted before it.
pub fn explode_entries(policy: SafetyCheck, evs: &Vec<EntryEvent>) -> (r: Result<Outcome, Aborted>)
    ensures
        r is Ok <==> !tally(policy, evs@).aborted,
        r matches Ok(o) ==> o.matches_tally(tally(policy, evs@)),
        r matches Err(a) ==> {
            &&& a.so_far.matches_tally(tally(policy, evs@))
            &&& a.at < evs@.len()
            &&& event_resolution(evs@[a.at as int]) is None
            &&& reports(a.error, evs@[a.at as int])
            &&& forall|j: int| 0 <= j < a.at ==> (#[trigger] event_resolution(evs@[j])) is Some
        },
{
    let mut out = Outcome { processed: 0, tolerated: 0, failed: 0 };
    let mut i: usize = 0;
    while i < evs.len()
        invariant
            i <= evs@.len(),
            !tally(policy, evs@.subrange(0, i as int)).aborted,
            out.matches_tally(tally(policy, evs@.subrange(0, i as int))),
            policy.spec_aborts_on_error() ==> forall|j: int|
                0 <= j < i ==> (#[trigger] event_resolution(evs@[j])) is Some,
        decreases evs@.len() - i,
    {
        proof {
            lemma_tally_bounded(policy, evs@.subrange(0, i as int));
            assert(evs@.subrange(0, i + 1).drop_last() == evs@.subrange(0, i as int));
            assert(evs@.subrange(0, i + 1).last() == evs@[i as int]);
        }
        match classify(&evs[i]) {
            Ok(Resolution::Exact) => {
                out.processed = out.processed + 1;
            },
            Ok(Resolution::ToleratedTree) => {
                out.processed = out.processed + 1;
                out.tolerated = out.tolerated + 1;
            },
            Err(error) => {
                if policy.aborts_on_error() {
                    proof {
                        lemma_tally_stopped(policy, evs@, i + 1);
                    }
                    return Err(Aborted { at: i, error, so_far: out });
                }
                out.failed = out.failed + 1;
            },
        }
        i = i + 1;
    }
    assert(evs@.subrange(0, i as int) == evs@);
    Ok(out)
}

} // verus!
