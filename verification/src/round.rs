//! Whole rounds: what holds of the score over any sequence of frames.

use crate::events::GameState;
use crate::game::{FrameDraws, GameView, Input};
use crate::player::Player;
use crate::score::{raised_to, score_after};
use vstd::prelude::*;

verus! {

/// Everything that goes into one frame.
pub struct Frame {
    /// Time since the frame before, in microseconds.
    pub dt: u32,
    /// What the player did.
    pub input: Input,
    /// The random draws of the frame.
    pub draws: FrameDraws,
}

impl GameView {
    /// The state after one frame.
    pub open spec fn after_frame(self, frame: Frame) -> GameView {
        self.stepped(frame.dt, frame.input, frame.draws)
    }

    /// The state after the given frames, in order.
    pub open spec fn after_frames(self, frames: Seq<Frame>) -> GameView
        decreases frames.len(),
    {
        if frames.len() == 0 {
            self
        } else {
            self.after_frames(frames.drop_last()).after_frame(frames.last())
        }
    }

    /// The number of coins picked up over the given frames.
    pub open spec fn pickups_over(self, frames: Seq<Frame>) -> nat
        decreases frames.len(),
    {
        if frames.len() == 0 {
            0
        } else {
            let last = frames.last();
            self.pickups_over(frames.drop_last()) + self.after_frames(frames.drop_last()).pickups(
                last.dt,
                last.input.intent,
                last.draws,
            )
        }
    }

    /// Whether the craft gets through all of the given frames without
    /// running into an astroid.
    pub open spec fn unharmed_over(self, frames: Seq<Frame>) -> bool
        decreases frames.len(),
    {
        if frames.len() == 0 {
            true
        } else {
            let last = frames.last();
            self.unharmed_over(frames.drop_last()) && !self.after_frames(
                frames.drop_last(),
            ).crash(last.dt, last.input.intent, last.draws)
        }
    }
}

/// While the craft runs into no astroid the round goes on, and the score
/// is the score at the outset plus the coins picked up since.
pub proof fn lemma_score_counts_pickups(v: GameView, frames: Seq<Frame>)
    requires
        v.state == GameState::Playing,
        v.player is Some,
        v.unharmed_over(frames),
    ensures
        v.after_frames(frames).state == GameState::Playing,
        v.after_frames(frames).high_score == v.high_score,
        v.after_frames(frames).player matches Some(p) && p.score == score_after(
            v.player->Some_0.score,
            v.pickups_over(frames),
        ),
    decreases frames.len(),
{
    if frames.len() > 0 {
        lemma_score_counts_pickups(v, frames.drop_last());
    }
}

/// A round that begins from the menu and sees `n` coins picked up and no
/// astroid hit has the score `n`, as long as `n` fits the score's integer.
pub proof fn lemma_round_score_is_pickup_count(menu: GameView, frames: Seq<Frame>)
    requires
        menu.state == GameState::Menu,
        menu.started().unharmed_over(frames),
        menu.started().pickups_over(frames) <= u64::MAX,
    ensures
        menu.started().after_frames(frames).player matches Some(p) && p.score
            == menu.started().pickups_over(frames),
{
    lemma_score_counts_pickups(menu.started(), frames);
}

/// The frame in which the craft runs into an astroid ends the round: the
/// game is back in the menu, no entity of the round is left, and the high
/// score is the larger of what it was and the score of the round, the coins
/// of that last frame included.
pub proof fn lemma_crash_ends_round(v: GameView, frame: Frame)
    requires
        v.state == GameState::Playing,
        v.player is Some,
        v.crash(frame.dt, frame.input.intent, frame.draws),
    ensures
        v.after_frame(frame).state == GameState::Menu,
        v.after_frame(frame).player is None,
        v.after_frame(frame).astroids.len() == 0,
        v.after_frame(frame).coins.len() == 0,
        v.after_frame(frame).high_score == raised_to(
            v.high_score,
            score_after(
                v.player->Some_0.score,
                v.pickups(frame.dt, frame.input.intent, frame.draws),
            ),
        ),
{
}

/// A whole round: from the menu a start signal, then frames without a
/// crash, then a frame with a crash. If `n` coins were picked up in all,
/// the high score ends as the larger of the previous high score and `n`,
/// and the next round begins with a score of zero.
pub proof fn lemma_round_raises_high_score(menu: GameView, frames: Seq<Frame>, last: Frame)
    requires
        menu.state == GameState::Menu,
        menu.started().unharmed_over(frames),
        menu.started().after_frames(frames).crash(last.dt, last.input.intent, last.draws),
        menu.started().pickups_over(frames.push(last)) <= u64::MAX,
    ensures
        ({
            let n = menu.started().pickups_over(frames.push(last));
            let end = menu.started().after_frames(frames.push(last));
            &&& end.state == GameState::Menu
            &&& end.high_score.score == if n > menu.high_score.score {
                n
            } else {
                menu.high_score.score as nat
            }
            &&& end.started().player == Some(Player::fresh())
            &&& Player::fresh().score == 0
            &&& end.started().high_score == end.high_score
        }),
{
    let begun = menu.started();
    let all = frames.push(last);
    assert(all.drop_last() =~= frames);
    assert(all.last() == last);
    lemma_score_counts_pickups(begun, frames);
    lemma_crash_ends_round(begun.after_frames(frames), last);
}

} // verus!
