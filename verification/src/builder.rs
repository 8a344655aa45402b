//! Builds a session configuration step by step, then the game itself.

use vstd::prelude::*;
use crate::game::{default_setup, GameSetup, PolarGame};
use crate::high_score::HighScore;
use crate::object::Point;
use crate::player::Player;
use crate::T_MAX;

verus! {

/// A builder over the session configuration.
pub struct PolarGameBuilder {
    pub setup: GameSetup,
}

impl Default for PolarGameBuilder {
    /// A builder holding the default configuration.
    fn default() -> (b: PolarGameBuilder)
        ensures
            b.setup == default_setup(),
    {
        PolarGameBuilder { setup: GameSetup::default() }
    }
}

impl PolarGameBuilder {
    /// Sets the tunnel length.
    pub fn with_tunnel_length(&mut self, length: i64) -> (r: &mut Self)
        ensures
            *r == (PolarGameBuilder {
                setup: GameSetup { radial_max: length, ..old(self).setup },
            }),
            *final(self) == *final(r),
    {
        self.setup.radial_max = length;
        self
    }

    /// Sets where the player starts.
    pub fn with_player_start(&mut self, start: Point) -> (r: &mut Self)
        ensures
            *r == (PolarGameBuilder {
                setup: GameSetup { player_start: start, ..old(self).setup },
            }),
            *final(self) == *final(r),
    {
        self.setup.player_start = start;
        self
    }

    /// Sets the player's width.
    pub fn with_player_width(&mut self, width: Point) -> (r: &mut Self)
        ensures
            *r == (PolarGameBuilder {
                setup: GameSetup { player_width: width, ..old(self).setup },
            }),
            *final(self) == *final(r),
    {
        self.setup.player_width = width;
        self
    }

    /// Builds the configured game, handing it the persisted record and the
    /// seed of the session's random stream.
    pub fn build_game(&mut self, record: i64, seed: u64) -> (g: PolarGame)
        requires
            old(self).setup.wf(),
            0 <= record <= T_MAX,
        ensures
            *final(self) == *old(self),
            g.wf(),
            g.setup == old(self).setup,
            g.player == (Player {
                position: old(self).setup.player_start,
                width: old(self).setup.player_width,
                destroyed: false,
            }),
            g.flares@ =~= Seq::<crate::flare::Flare>::empty(),
            g.high_score == (HighScore { current_score: 0, record: record }),
            g.time.start == 0 && g.time.elapsed == 0 && g.time.previous_flare == 0,
    {
        PolarGame::new(self.setup, record, seed)
    }
}

} // verus!
