//! The candidates that the content provider offers for a round.

use rand::seq::SliceRandom;
use vstd::prelude::*;

verus! {

/// One item of the provider's catalogue.
#[derive(Debug, Clone, Copy, PartialEq, Eq)]
pub struct Anime {
    pub mal_id: u32,
}

/// The provider's answer: the candidates for a round.
#[derive(Debug, Clone, PartialEq, Eq)]
pub struct MALResponse {
    pub data: Vec<Anime>,
}

/// `rand::seq::SliceRandom::choose` on the slice of `candidates`, drawing
/// from `rand::thread_rng()`: `None` for an empty slice, else a reference to
/// the element at an index that the generator picked below the length.
/// Which element it is depends on the generator.
#[verifier::external_body]
fn choose_at_random(candidates: &Vec<Anime>) -> (chosen: Option<&Anime>)
    ensures
        candidates@.len() == 0 ==> chosen is None,
        candidates@.len() > 0 ==> chosen is Some && candidates@.contains(*chosen->0),
{
    candidates.choose(&mut rand::thread_rng())
}

impl MALResponse {
    /// One of the candidates, picked at random; `None` exactly when there is
    /// no candidate.
    pub fn pick(&self) -> (chosen: Option<Anime>)
        ensures
            chosen is None <==> self.data@.len() == 0,
            chosen matches Some(anime) ==> self.data@.contains(anime),
    {
        match choose_at_random(&self.data) {
            Some(anime) => Some(*anime),
            None => None,
        }
    }
}

} // verus!
