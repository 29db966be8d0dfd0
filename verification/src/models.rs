//! The records that the upstream game-statistics service returns, and the
//! error taxonomy under which a fetch can fail. Records are immutable once
//! fetched: a fresher fetch replaces them wholesale.

use vstd::prelude::*;

verus! {

/// The identity record that a display name resolves to: the internal id is
/// the key of the second lookup stage.
#[derive(Debug)]
pub struct NameToId {
    pub id: String,
    pub account_id: String,
    pub puuid: String,
    pub name: String,
    pub profile_icon_id: u32,
    pub revision_date: u128,
    pub summoner_level: u32,
}

impl Clone for NameToId {
    fn clone(&self) -> (r: Self)
        ensures
            r == *self,
    {
        NameToId {
            id: self.id.clone(),
            account_id: self.account_id.clone(),
            puuid: self.puuid.clone(),
            name: self.name.clone(),
            profile_icon_id: self.profile_icon_id,
            revision_date: self.revision_date,
            summoner_level: self.summoner_level,
        }
    }
}

/// One mastery record of a result collection: per-champion score, tier and
/// activity figures, in the order the upstream service presents them.
#[derive(Debug)]
pub struct ChampionMastery {
    pub champion_id: u32,
    pub champion_level: u8,
    pub champion_points: u32,
    pub last_play_time: u128,
    pub champion_points_since_last_level: u32,
    pub champion_points_until_next_level: u32,
    pub chest_granted: bool,
    pub tokens_earned: u8,
    pub summoner_id: String,
}

impl Clone for ChampionMastery {
    fn clone(&self) -> (r: Self)
        ensures
            r == *self,
    {
        ChampionMastery {
            champion_id: self.champion_id,
            champion_level: self.champion_level,
            champion_points: self.champion_points,
            last_play_time: self.last_play_time,
            champion_points_since_last_level: self.champion_points_since_last_level,
            champion_points_until_next_level: self.champion_points_until_next_level,
            chest_granted: self.chest_granted,
            tokens_earned: self.tokens_earned,
            summoner_id: self.summoner_id.clone(),
        }
    }
}

/// A copy of a mastery collection, record for record in order.
pub fn clone_masteries(list: &Vec<ChampionMastery>) -> (r: Vec<ChampionMastery>)
    ensures
        r@ == list@,
{
    let mut r: Vec<ChampionMastery> = Vec::new();
    let mut i: usize = 0;
    while i < list.len()
        invariant
            0 <= i <= list.len(),
            r@ =~= list@.subrange(0, i as int),
        decreases list.len() - i,
    {
        r.push(list[i].clone());
        proof {
            assert(r@ =~= list@.subrange(0, i + 1 as int));
        }
        i += 1;
    }
    proof {
        assert(list@.subrange(0, list@.len() as int) =~= list@);
    }
    r
}

/// Why a fetch from the upstream service failed. Cache operations cannot
/// fail; these are the only errors the lookup pipeline propagates, and they
/// reach the caller unchanged.
#[derive(Clone, Copy, Debug, PartialEq, Eq, Structural)]
pub enum FetchError {
    /// The upstream reports no identity under the given display name.
    NotFound,
    /// The upstream throttled the request.
    RateLimited,
    /// The configured credential was rejected.
    Unauthorized,
    /// The network failed, timed out, or the payload did not decode.
    Transport,
    /// A startup credential is missing. Fatal before any request is
    /// served; the lookup pipeline itself never produces it.
    NotConfigured,
}

} // verus!
