//! The list of keystrokes that a pressed keystroke may match.

use crate::keystroke::{Keystroke, KeystrokeView};
use smallvec::SmallVec;
use vstd::prelude::*;

verus! {

/// A list of keystrokes that needs no allocation for up to two of them.
#[verifier::external_body]
#[derive(Debug)]
pub struct Candidates {
    list: SmallVec<[Keystroke; 2]>,
}

/// What a list of candidates holds, in order.
pub uninterp spec fn candidate_items(candidates: Candidates) -> Seq<KeystrokeView>;

/// `smallvec::SmallVec::new`: the new list holds nothing.
#[verifier::external_body]
pub(crate) fn new_candidates() -> (candidates: Candidates)
    ensures
        candidate_items(candidates) == Seq::<KeystrokeView>::empty(),
{
    Candidates { list: SmallVec::new() }
}

/// `smallvec::SmallVec::push`: the keystroke comes after what the list held.
/// There is room for it without growing the list.
#[verifier::external_body]
pub(crate) fn push_candidate(candidates: &mut Candidates, keystroke: Keystroke)
    requires
        candidate_items(*old(candidates)).len() < 2,
    ensures
        candidate_items(*final(candidates)) == candidate_items(*old(candidates)).push(keystroke@),
{
    candidates.list.push(keystroke);
}

/// `smallvec::SmallVec::into_vec`: the keystrokes of the list, in its order.
#[verifier::external_body]
fn take_candidates(candidates: Candidates) -> (keystrokes: Vec<Keystroke>)
    ensures
        keystrokes@.map_values(|k: Keystroke| k@) == candidate_items(candidates),
{
    candidates.list.into_vec()
}

impl Candidates {
    /// The keystrokes to match, in the order in which to try them.
    pub fn into_vec(self) -> (keystrokes: Vec<Keystroke>)
        ensures
            keystrokes@.map_values(|k: Keystroke| k@) == candidate_items(self),
    {
        take_candidates(self)
    }
}

} // verus!
