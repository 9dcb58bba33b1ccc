use vstd::prelude::*;

use crate::time::{fits_i128, Duration, Instant, TimeScale};

use super::{CentralSolarEclipseCharacter, CentralSolarEclipsePathLimitKind, Error, EventEvidence};

verus! {

/// Offset, in nanoseconds, inside each end of the central path at which its character is sampled.
pub const CENTRAL_INTERIOR_OFFSET_NANOSECONDS: i128 = 1_000_000_000i128;

/// The instants just inside the central path at which its start and end characters are
/// sampled: one offset after the start tangency and one offset before the end tangency.
///
/// Fails when either instant leaves the representable range.
pub fn central_interior_samples<S: TimeScale>(start: Instant<S>, end: Instant<S>) -> (r: Result<
    (Instant<S>, Instant<S>),
    Error,
>)
    ensures
        r is Ok <==> fits_i128(start@ + CENTRAL_INTERIOR_OFFSET_NANOSECONDS) && fits_i128(
            end@ - CENTRAL_INTERIOR_OFFSET_NANOSECONDS,
        ),
        r matches Ok(p) ==> p.0@ == start@ + CENTRAL_INTERIOR_OFFSET_NANOSECONDS && p.1@ == end@
            - CENTRAL_INTERIOR_OFFSET_NANOSECONDS,
        r matches Err(e) ==> e == Error::Time(crate::time::Error::Overflow {
            operation: if fits_i128(start@ + CENTRAL_INTERIOR_OFFSET_NANOSECONDS) {
                "retarding an instant"
            } else {
                "advancing an instant"
            },
        }),
{
    let offset = Duration::from_nanoseconds(CENTRAL_INTERIOR_OFFSET_NANOSECONDS);
    let first = match start.checked_add(offset) {
        Ok(t) => t,
        Err(e) => return Err(Error::Time(e)),
    };
    let last = match end.checked_sub(offset) {
        Ok(t) => t,
        Err(e) => return Err(Error::Time(e)),
    };
    Ok((first, last))
}

/// The annular/total character changes between sample `i` and sample `i + 1`.
pub open spec fn character_changes_at<S: TimeScale>(samples: Seq<(Instant<S>, CentralSolarEclipseCharacter)>, i: int) -> bool {
    0 <= i && i + 1 < samples.len() && samples[i].1 != samples[i + 1].1
}

/// Finds where the annular/total character of a central path changes.
///
/// Returns, in increasing order, exactly the indices `i` at which the character of
/// sample `i` differs from that of sample `i + 1`; each such pair brackets one
/// transition to refine.
pub fn central_path_transitions<S: TimeScale>(samples: &Vec<(Instant<S>, CentralSolarEclipseCharacter)>) -> (r: Vec<
    usize,
>)
    ensures
        forall|k: int| 0 <= k < r@.len() ==> character_changes_at(samples@, #[trigger] r@[k] as int),
        forall|k: int, l: int| 0 <= k < l < r@.len() ==> r@[k] < r@[l],
        forall|i: int| #[trigger] character_changes_at(samples@, i) ==> exists|k: int| 0 <= k < r@.len() && r@[k] == i,
{
    let mut out: Vec<usize> = Vec::new();
    let mut i: usize = 0;
    while i < samples.len() && i + 1 < samples.len()
        invariant
            i < samples@.len() || (samples@.len() == 0 && i == 0),
            forall|k: int| 0 <= k < out@.len() ==> character_changes_at(samples@, #[trigger] out@[k] as int),
            forall|k: int| 0 <= k < out@.len() ==> #[trigger] out@[k] < i,
            forall|k: int, l: int| 0 <= k < l < out@.len() ==> out@[k] < out@[l],
            forall|j: int| 0 <= j < i && #[trigger] character_changes_at(samples@, j) ==> exists|k: int|
                0 <= k < out@.len() && out@[k] == j,
        decreases samples@.len() - i,
    {
        if samples[i].1 != samples[i + 1].1 {
            let ghost before = out@;
            out.push(i);
            proof {
                assert forall|j: int| 0 <= j < i + 1 && #[trigger] character_changes_at(samples@, j) implies exists|k: int|
                    0 <= k < out@.len() && out@[k] == j by {
                    if j < i {
                        let k = choose|k: int| 0 <= k < before.len() && before[k] == j;
                        assert(out@[k] == j);
                    } else {
                        assert(out@[before.len() as int] == j);
                    }
                }
            }
        }
        i = i + 1;
    }
    proof {
        assert forall|j: int| #[trigger] character_changes_at(samples@, j) implies exists|k: int|
            0 <= k < out@.len() && out@[k] == j by {
            assert(j < i);
        }
    }
    out
}

/// One refined tangency between the lunar shadow axis and the reference ellipsoid; the
/// ellipsoid residual `Q` is carried unchanged.
#[derive(Debug, Copy, PartialEq)]
pub struct CentralSolarEclipsePathLimit<S: TimeScale, Q> {
    /// Start or end of the central path.
    pub kind: CentralSolarEclipsePathLimitKind,
    /// Refined physical instant.
    pub instant: Instant<S>,
    /// Numerical root-search evidence.
    pub evidence: EventEvidence<S, Q>,
}

impl<S: TimeScale, Q: Copy> Clone for CentralSolarEclipsePathLimit<S, Q> {
    fn clone(&self) -> (r: Self)
        ensures
            r == *self,
    {
        *self
    }
}

/// One refined change between annular and total character along a central path; the
/// shadow radius `W` at the transition is carried unchanged.
#[derive(Debug, Copy, PartialEq)]
pub struct HybridSolarEclipseTransition<S: TimeScale, W> {
    /// Refined transition instant.
    pub instant: Instant<S>,
    /// Character before the transition.
    pub before: CentralSolarEclipseCharacter,
    /// Character after the transition.
    pub after: CentralSolarEclipseCharacter,
    /// Numerical root-search evidence.
    pub evidence: EventEvidence<S, W>,
}

impl<S: TimeScale, W: Copy> Clone for HybridSolarEclipseTransition<S, W> {
    fn clone(&self) -> (r: Self)
        ensures
            r == *self,
    {
        *self
    }
}

/// A transition changes the character and lies in `[lo, hi]`.
pub open spec fn transition_inside<S: TimeScale, W>(t: HybridSolarEclipseTransition<S, W>, lo: int, hi: int) -> bool {
    t.before != t.after && lo <= t.instant@ <= hi
}

/// Transitions run in chronological order.
pub open spec fn transitions_ordered<S: TimeScale, W>(transitions: Seq<HybridSolarEclipseTransition<S, W>>) -> bool {
    forall|k: int, l: int| 0 <= k < l < transitions.len() ==> transitions[k].instant@ <= transitions[l].instant@
}

/// Each transition starts from the character the previous one ended with.
pub open spec fn transitions_chained<S: TimeScale, W>(transitions: Seq<HybridSolarEclipseTransition<S, W>>) -> bool {
    forall|k: int| 0 <= k < transitions.len() - 1 ==> #[trigger] transitions[k].after == transitions[k + 1].before
}

/// Every transition changes the character and lies in `[lo, hi]`.
pub open spec fn transitions_inside<S: TimeScale, W>(transitions: Seq<HybridSolarEclipseTransition<S, W>>, lo: int, hi: int) -> bool {
    forall|k: int| 0 <= k < transitions.len() ==> #[trigger] transition_inside(transitions[k], lo, hi)
}

/// The transitions of a central path are consistent with its limits and characters:
/// each changes the character, they lie between the start and end tangencies in
/// chronological order, and they chain from the start character to the end character.
pub open spec fn central_path_consistent<S: TimeScale, Q, W>(
    start: CentralSolarEclipsePathLimit<S, Q>,
    end: CentralSolarEclipsePathLimit<S, Q>,
    start_character: CentralSolarEclipseCharacter,
    end_character: CentralSolarEclipseCharacter,
    transitions: Seq<HybridSolarEclipseTransition<S, W>>,
) -> bool {
    &&& start.kind == CentralSolarEclipsePathLimitKind::Start
    &&& end.kind == CentralSolarEclipsePathLimitKind::End
    &&& start.instant@ <= end.instant@
    &&& transitions_inside(transitions, start.instant@, end.instant@)
    &&& transitions_ordered(transitions)
    &&& transitions_chained(transitions)
    &&& transitions.len() == 0 ==> start_character == end_character
    &&& transitions.len() > 0 ==> transitions[0].before == start_character && transitions.last().after
        == end_character
}

/// Checks that transitions change the character, lie in `[lo, hi]`, run in order and chain.
fn check_transitions<S: TimeScale, W>(transitions: &Vec<HybridSolarEclipseTransition<S, W>>, lo: Instant<S>, hi: Instant<S>) -> (b: bool)
    ensures
        b == (transitions_inside(transitions@, lo@, hi@) && transitions_ordered(transitions@) && transitions_chained(
            transitions@,
        )),
{
    let n = transitions.len();
    let mut i: usize = 0;
    while i < n
        invariant
            n == transitions@.len(),
            i <= n,
            forall|k: int| 0 <= k < i ==> #[trigger] transition_inside(transitions@[k], lo@, hi@),
            forall|k: int, l: int| 0 <= k < l < i ==> transitions@[k].instant@ <= transitions@[l].instant@,
            forall|k: int| 0 <= k < i - 1 ==> #[trigger] transitions@[k].after == transitions@[k + 1].before,
        decreases n - i,
    {
        let t = &transitions[i];
        if t.before == t.after || t.instant.is_before(lo) || hi.is_before(t.instant) {
            proof {
                assert(!transition_inside(transitions@[i as int], lo@, hi@));
            }
            return false;
        }
        if i > 0 {
            let p = &transitions[i - 1];
            if t.instant.is_before(p.instant) {
                proof {
                    assert(transitions@[i - 1].instant@ > transitions@[i as int].instant@);
                    assert(!transitions_ordered(transitions@));
                }
                return false;
            }
            if p.after != t.before {
                proof {
                    assert(transitions@[i - 1].after != transitions@[(i - 1) + 1].before);
                    assert(!transitions_chained(transitions@));
                }
                return false;
            }
        }
        i = i + 1;
    }
    true
}

/// Complete interval and annular/total transitions of one central solar-eclipse path.
///
/// Its transitions always lie inside the path, in chronological order, and chain the
/// start character to the end character.
#[derive(Debug)]
pub struct GlobalSolarEclipseCentralPath<S: TimeScale, Q, W> {
    start: CentralSolarEclipsePathLimit<S, Q>,
    end: CentralSolarEclipsePathLimit<S, Q>,
    start_character: CentralSolarEclipseCharacter,
    greatest_character: CentralSolarEclipseCharacter,
    end_character: CentralSolarEclipseCharacter,
    transitions: Vec<HybridSolarEclipseTransition<S, W>>,
}

impl<S: TimeScale, Q, W> GlobalSolarEclipseCentralPath<S, Q, W> {
    /// The transitions are consistent with the limits and characters.
    #[verifier::type_invariant]
    closed spec fn consistent(self) -> bool {
        central_path_consistent(self.start, self.end, self.start_character, self.end_character, self.transitions@)
    }

    /// The first shadow-axis tangency.
    pub closed spec fn start_spec(self) -> CentralSolarEclipsePathLimit<S, Q> {
        self.start
    }

    /// The last shadow-axis tangency.
    pub closed spec fn end_spec(self) -> CentralSolarEclipsePathLimit<S, Q> {
        self.end
    }

    /// The character just inside the start.
    pub closed spec fn start_character_spec(self) -> CentralSolarEclipseCharacter {
        self.start_character
    }

    /// The character at greatest eclipse.
    pub closed spec fn greatest_character_spec(self) -> CentralSolarEclipseCharacter {
        self.greatest_character
    }

    /// The character just inside the end.
    pub closed spec fn end_character_spec(self) -> CentralSolarEclipseCharacter {
        self.end_character
    }

    /// The refined transitions.
    pub closed spec fn transitions_spec(self) -> Seq<HybridSolarEclipseTransition<S, W>> {
        self.transitions@
    }

    /// Assembles a central path from its limits, characters and refined transitions.
    ///
    /// Fails unless the limits are a start and an end in order, every transition changes
    /// the character and lies between them in chronological order, and the transitions
    /// chain the start character to the end character.
    pub fn new(
        start: CentralSolarEclipsePathLimit<S, Q>,
        end: CentralSolarEclipsePathLimit<S, Q>,
        start_character: CentralSolarEclipseCharacter,
        greatest_character: CentralSolarEclipseCharacter,
        end_character: CentralSolarEclipseCharacter,
        transitions: Vec<HybridSolarEclipseTransition<S, W>>,
    ) -> (r: Result<Self, Error>)
        ensures
            r is Ok <==> central_path_consistent(start, end, start_character, end_character, transitions@),
            r matches Ok(p) ==> {
                &&& p.start_spec() == start
                &&& p.end_spec() == end
                &&& p.start_character_spec() == start_character
                &&& p.greatest_character_spec() == greatest_character
                &&& p.end_character_spec() == end_character
                &&& p.transitions_spec() == transitions@
            },
            r matches Err(e) ==> e == (Error::InconsistentEclipseContacts { eclipse: "central solar-eclipse path" }),
    {
        let rejected = Error::InconsistentEclipseContacts { eclipse: "central solar-eclipse path" };
        if start.kind != CentralSolarEclipsePathLimitKind::Start || end.kind != CentralSolarEclipsePathLimitKind::End
            || end.instant.is_before(start.instant) {
            return Err(rejected);
        }
        let n = transitions.len();
        if n == 0 {
            if start_character != end_character {
                return Err(rejected);
            }
        } else if transitions[0].before != start_character || transitions[n - 1].after != end_character {
            return Err(rejected);
        }
        if !check_transitions(&transitions, start.instant, end.instant) {
            return Err(rejected);
        }
        Ok(GlobalSolarEclipseCentralPath {
            start,
            end,
            start_character,
            greatest_character,
            end_character,
            transitions,
        })
    }

    /// Returns the first shadow-axis tangency with the reference ellipsoid.
    pub fn start(&self) -> (l: &CentralSolarEclipsePathLimit<S, Q>)
        ensures
            *l == self.start_spec(),
            l.instant@ <= self.end_spec().instant@,
    {
        proof { use_type_invariant(self); }
        &self.start
    }

    /// Returns the last shadow-axis tangency with the reference ellipsoid.
    pub fn end(&self) -> (l: &CentralSolarEclipsePathLimit<S, Q>)
        ensures
            *l == self.end_spec(),
    {
        &self.end
    }

    /// Returns the annular or total character immediately inside the start of the central path.
    pub fn start_character(&self) -> (c: CentralSolarEclipseCharacter)
        ensures
            c == self.start_character_spec(),
    {
        self.start_character
    }

    /// Returns the annular or total character at greatest eclipse.
    pub fn greatest_character(&self) -> (c: CentralSolarEclipseCharacter)
        ensures
            c == self.greatest_character_spec(),
    {
        self.greatest_character
    }

    /// Returns the annular or total character immediately inside the end of the central path.
    pub fn end_character(&self) -> (c: CentralSolarEclipseCharacter)
        ensures
            c == self.end_character_spec(),
    {
        self.end_character
    }

    /// Returns every refined annular/total transition in chronological order, all within the path.
    pub fn transitions(&self) -> (t: &Vec<HybridSolarEclipseTransition<S, W>>)
        ensures
            t@ == self.transitions_spec(),
            central_path_consistent(
                self.start_spec(),
                self.end_spec(),
                self.start_character_spec(),
                self.end_character_spec(),
                t@,
            ),
    {
        proof { use_type_invariant(self); }
        &self.transitions
    }
}

} // verus!
