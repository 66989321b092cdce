//! The score of the current round and the best score of the session.

use crate::player::Player;
use vstd::prelude::*;

verus! {

/// The best score reached so far. It lives as long as the process and never
/// goes down.
#[derive(Clone, Copy, Debug, PartialEq, Eq, Structural)]
pub struct HighScore {
    pub score: u64,
}

impl Default for HighScore {
    fn default() -> (h: HighScore)
        ensures
            h.score == 0,
    {
        HighScore { score: 0 }
    }
}

/// A score after `collected` more coins. The score stops at the largest
/// value that its integer can hold.
pub open spec fn score_after(score: u64, collected: nat) -> u64 {
    if score + collected <= u64::MAX {
        (score + collected) as u64
    } else {
        u64::MAX
    }
}

/// The larger of the best score so far and the score of a round.
pub open spec fn raised_to(high_score: HighScore, score: u64) -> HighScore {
    if score > high_score.score {
        HighScore { score }
    } else {
        high_score
    }
}

/// The number shown as the current score: the player's score, or zero while
/// there is no player.
pub open spec fn shown_score(player: Option<Player>) -> u64 {
    match player {
        Some(p) => p.score,
        None => 0,
    }
}

/// Counts one collected coin for the player.
pub fn on_scored(player: &mut Player)
    ensures
        *final(player) == (Player { score: score_after(old(player).score, 1), ..*old(player) }),
{
    if player.score < u64::MAX {
        player.score = player.score + 1;
    }
}

/// Raises the high score to the player's score if that is higher. This is
/// what happens at the end of a round.
pub fn update_high_score(player: &Player, high_score: &mut HighScore)
    ensures
        *final(high_score) == raised_to(*old(high_score), player.score),
{
    if player.score > high_score.score {
        high_score.score = player.score;
    }
}

/// The number to show as the current score.
pub fn display_score(player: &Option<Player>) -> (shown: u64)
    ensures
        shown == shown_score(*player),
{
    match player {
        Some(p) => p.score,
        None => 0,
    }
}

/// The number to show as the high score.
pub fn display_high_score(high_score: &HighScore) -> (shown: u64)
    ensures
        shown == high_score.score,
{
    high_score.score
}

/// Collecting coins one at a time adds up: `n` coins and then one more give
/// the score that `n + 1` coins give.
pub proof fn lemma_score_after_one_more(score: u64, n: nat)
    ensures
        score_after(score_after(score, n), 1) == score_after(score, n + 1),
{
}

/// A round that starts at zero and collects `n` coins ends with the score
/// `n`, as long as `n` fits the score's integer.
pub proof fn lemma_score_counts_coins(n: nat)
    requires
        n <= u64::MAX,
    ensures
        score_after(0, n) == n,
{
}

/// The high score never goes down, and after a round it is the larger of
/// what it was and the round's score.
pub proof fn lemma_high_score_is_maximum(high_score: HighScore, score: u64)
    ensures
        raised_to(high_score, score).score >= high_score.score,
        raised_to(high_score, score).score >= score,
        raised_to(high_score, score).score == high_score.score || raised_to(
            high_score,
            score,
        ).score == score,
{
}

} // verus!
