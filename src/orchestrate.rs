use vstd::prelude::*;

verus! {

/// The next thing a run of the explosion has to do.
#[derive(PartialEq, Eq, Structural, Clone, Copy, Debug)]
pub enum Step {
    /// Open the pack's index and data files as a pair.
    OpenBundle,
    /// Make sure the output directory exists and can be accessed.
    CheckDestination,
    /// Walk every entry of the pack and write each object.
    Traverse,
    /// Remove the pack's index file.
    RemoveIndex,
    /// Remove the pack's data file.
    RemoveData,
    /// Nothing is left to do.
    Finished,
}

/// What came of the step that was performed.
#[derive(PartialEq, Eq, Structural, Clone, Copy, Debug)]
pub enum Event {
    BundleOpened,
    BundleOpenFailed,
    DestinationAccessible,
    DestinationInaccessible,
    TraversalSucceeded,
    TraversalFailed,
    Removed,
    RemoveFailed,
}

/// Why a run did not complete.
#[derive(PartialEq, Eq, Structural, Clone, Copy, Debug)]
pub enum ExplodeError {
    /// The pack path does not name a paired index and data file.
    BundleOpen,
    /// The output directory is missing or cannot be accessed.
    InaccessibleDestination,
    /// The traversal stopped on an object it could not decode, write or verify.
    Traversal,
    /// Removing a pack file failed after the pack was exploded.
    Deletion,
}

/// The state of one run: what was asked for, how far it got, and its outcome.
#[derive(PartialEq, Eq, Structural, Clone, Copy, Debug)]
pub struct Explosion {
    pub has_destination: bool,
    pub delete_pack: bool,
    pub step: Step,
    /// Every object was handed through the output writer without a fatal error.
    pub exploded: bool,
    pub error: Option<ExplodeError>,
}

/// The state that follows `m` once `ev` is reported; an event that does not
/// belong to the current step changes nothing.
pub open spec fn next_state(m: Explosion, ev: Event) -> Explosion {
    let stop = |e: ExplodeError| Explosion { step: Step::Finished, error: Some(e), ..m };
    match (m.step, ev) {
        (Step::OpenBundle, Event::BundleOpened) => Explosion {
            step: if m.has_destination {
                Step::CheckDestination
            } else {
                Step::Traverse
            },
            ..m
        },
        (Step::OpenBundle, Event::BundleOpenFailed) => stop(ExplodeError::BundleOpen),
        (Step::CheckDestination, Event::DestinationAccessible) => Explosion {
            step: Step::Traverse,
            ..m
        },
        (Step::CheckDestination, Event::DestinationInaccessible) => stop(
            ExplodeError::InaccessibleDestination,
        ),
        (Step::Traverse, Event::TraversalSucceeded) => Explosion {
            step: if m.delete_pack {
                Step::RemoveIndex
            } else {
                Step::Finished
            },
            exploded: true,
            ..m
        },
        (Step::Traverse, Event::TraversalFailed) => stop(ExplodeError::Traversal),
        (Step::RemoveIndex, Event::Removed) => Explosion { step: Step::RemoveData, ..m },
        (Step::RemoveData, Event::Removed) => Explosion { step: Step::Finished, ..m },
        (Step::RemoveIndex, Event::RemoveFailed) => stop(ExplodeError::Deletion),
        (Step::RemoveData, Event::RemoveFailed) => stop(ExplodeError::Deletion),
        _ => m,
    }
}

/// The state after the events `evs`, in order, starting from `m`.
pub open spec fn run(m: Explosion, evs: Seq<Event>) -> Explosion
    decreases evs.len(),
{
    if evs.len() == 0 {
        m
    } else {
        next_state(run(m, evs.drop_last()), evs.last())
    }
}

impl Explosion {
    /// A run that has done nothing yet.
    pub fn new(has_destination: bool, delete_pack: bool) -> (r: Explosion)
        ensures
            r == (Explosion {
                has_destination,
                delete_pack,
                step: Step::OpenBundle,
                exploded: false,
                error: None,
            }),
    {
        Explosion { has_destination, delete_pack, step: Step::OpenBundle, exploded: false, error: None }
    }

    /// What has to be done next.
    pub fn next_step(&self) -> (r: Step)
        ensures
            r == self.step,
    {
        self.step
    }

    /// The run has nothing left to do.
    pub fn is_finished(&self) -> (r: bool)
        ensures
            r == (self.step is Finished),
    {
        self.step == Step::Finished
    }

    /// Takes in what came of the current step.
    pub fn advance(&mut self, ev: Event)
        ensures
            *final(self) == next_state(*old(self), ev),
    {
        let stop = match (self.step, ev) {
            (Step::OpenBundle, Event::BundleOpenFailed) => Some(ExplodeError::BundleOpen),
            (Step::CheckDestination, Event::DestinationInaccessible) => Some(
                ExplodeError::InaccessibleDestination,
            ),
            (Step::Traverse, Event::TraversalFailed) => Some(ExplodeError::Traversal),
            (Step::RemoveIndex, Event::RemoveFailed) => Some(ExplodeError::Deletion),
            (Step::RemoveData, Event::RemoveFailed) => Some(ExplodeError::Deletion),
            _ => None,
        };
        if let Some(e) = stop {
            self.step = Step::Finished;
            self.error = Some(e);
            return;
        }
        match (self.step, ev) {
            (Step::OpenBundle, Event::BundleOpened) => {
                self.step = if self.has_destination {
                    Step::CheckDestination
                } else {
                    Step::Traverse
                };
            },
            (Step::CheckDestination, Event::DestinationAccessible) => {
                self.step = Step::Traverse;
            },
            (Step::Traverse, Event::TraversalSucceeded) => {
                self.exploded = true;
                self.step = if self.delete_pack {
                    Step::RemoveIndex
                } else {
                    Step::Finished
                };
            },
            (Step::RemoveIndex, Event::Removed) => {
                self.step = Step::RemoveData;
            },
            (Step::RemoveData, Event::Removed) => {
                self.step = Step::Finished;
            },
            _ => {},
        }
    }
}

/// Running `a` and then `b` is running `a + b`.
proof fn lemma_run_concat(m: Explosion, a: Seq<Event>, b: Seq<Event>)
    ensures
        run(m, a + b) == run(run(m, a), b),
    decreases b.len(),
{
    if b.len() == 0 {
        assert(a + b == a);
    } else {
        lemma_run_concat(m, a, b.drop_last());
        assert((a + b).drop_last() == a + b.drop_last());
        assert((a + b).last() == b.last());
    }
}

/// A finished run takes in no further event.
proof fn lemma_finished_stays(m: Explosion, evs: Seq<Event>)
    requires
        m.step is Finished,
    ensures
        run(m, evs) == m,
    decreases evs.len(),
{
    if evs.len() > 0 {
        lemma_finished_stays(m, evs.drop_last());
    }
}

/// The pack files are only ever removed after a traversal without a fatal error,
/// and only when their removal was asked for.
pub open spec fn deletion_gated(m: Explosion) -> bool {
    &&& (m.step is RemoveIndex || m.step is RemoveData) ==> m.exploded && m.delete_pack
        && m.error is None
    &&& (m.step is OpenBundle || m.step is CheckDestination || m.step is Traverse)
        ==> !m.exploded && m.error is None
    &&& (m.error == Some(ExplodeError::BundleOpen) || m.error == Some(
        ExplodeError::InaccessibleDestination,
    ) || m.error == Some(ExplodeError::Traversal)) ==> !m.exploded
}

/// Whatever is reported, a run started by `Explosion::new` removes the pack files
/// only after its traversal succeeded and only when asked to; a failed
/// traversal leaves them in place.  A successful traversal with removal asked
/// for goes on to remove the index file and then the data file.
pub proof fn lemma_deletion_gated(has_destination: bool, delete_pack: bool, evs: Seq<Event>)
    ensures
        ({
            let start = Explosion {
                has_destination,
                delete_pack,
                step: Step::OpenBundle,
                exploded: false,
                error: None,
            };
            let m = run(start, evs);
            &&& m.delete_pack == delete_pack && m.has_destination == has_destination
            &&& deletion_gated(m)
            &&& m.step is Traverse && delete_pack ==> next_state(m, Event::TraversalSucceeded).step
                is RemoveIndex
            &&& m.step is Traverse ==> !next_state(m, Event::TraversalFailed).exploded
                && next_state(m, Event::TraversalFailed).step is Finished
        }),
    decreases evs.len(),
{
    let start = Explosion {
        has_destination,
        delete_pack,
        step: Step::OpenBundle,
        exploded: false,
        error: None,
    };
    if evs.len() > 0 {
        lemma_deletion_gated(has_destination, delete_pack, evs.drop_last());
        assert(run(start, evs) == next_state(run(start, evs.drop_last()), evs.last()));
    } else {
        assert(run(start, evs) == start);
    }
}

/// A run given an output directory that turns out to be inaccessible ends at once
/// with that error: no traversal is started and nothing is written or removed,
/// whatever is reported afterwards.
pub proof fn lemma_inaccessible_destination(delete_pack: bool, rest: Seq<Event>)
    ensures
        ({
            let start = Explosion {
                has_destination: true,
                delete_pack,
                step: Step::OpenBundle,
                exploded: false,
                error: None,
            };
            run(start, seq![Event::BundleOpened, Event::DestinationInaccessible] + rest) == Explosion {
                step: Step::Finished,
                error: Some(ExplodeError::InaccessibleDestination),
                ..start
            }
        }),
{
    let start = Explosion {
        has_destination: true,
        delete_pack,
        step: Step::OpenBundle,
        exploded: false,
        error: None,
    };
    let head = seq![Event::BundleOpened, Event::DestinationInaccessible];
    lemma_run_concat(start, head, rest);
    let one = seq![Event::BundleOpened];
    assert(head.drop_last() == one);
    assert(one.drop_last() == Seq::<Event>::empty());
    assert(run(start, Seq::<Event>::empty()) == start);
    assert(run(start, one) == next_state(start, Event::BundleOpened));
    assert(run(start, head) == next_state(run(start, one), Event::DestinationInaccessible));
    lemma_finished_stays(run(start, head), rest);
}

} // verus!
