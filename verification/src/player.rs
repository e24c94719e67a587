use vstd::prelude::*;

use crate::color::{Color, IndexedEnum};
use crate::cube_set::CubeSet;
use crate::error::ColorMixError;

verus! {

/// A player's starting health, and the maximum health healing can reach.
pub const STARTING_HP: u32 = 5;

/// One player's cube holdings and health: real cubes (backed by bank stock
/// when played) and ephemeral cubes (transient duplicates that never touch
/// the bank and vanish at the end of the owning player's turn).
pub struct Player {
    cubes: CubeSet,
    ephemeral_cubes: CubeSet,
    hp: u32,
}

impl Player {
    /// How many real cubes of `color` the player holds.
    pub closed spec fn spec_real(self, color: Color) -> u32 {
        self.cubes.count_of(color)
    }

    /// How many ephemeral cubes of `color` the player holds.
    pub closed spec fn spec_eph(self, color: Color) -> u32 {
        self.ephemeral_cubes.count_of(color)
    }

    /// The player's health.
    pub closed spec fn spec_health(self) -> u32 {
        self.hp
    }

    /// All cubes of `color` the player holds, real and ephemeral together.
    pub open spec fn spec_total(self, color: Color) -> int {
        self.spec_real(color) + self.spec_eph(color)
    }

    /// Counters for each color, health within `0 ..= STARTING_HP`.
    pub closed spec fn wf(self) -> bool {
        &&& self.cubes.wf()
        &&& self.ephemeral_cubes.wf()
        &&& self.hp <= STARTING_HP
    }

    /// `other` holds the same cubes as `self`, real and ephemeral alike.
    pub open spec fn same_cubes(self, other: Player) -> bool {
        forall|d: Color|
            #![trigger other.spec_real(d)]
            #![trigger other.spec_eph(d)]
            other.spec_real(d) == self.spec_real(d) && other.spec_eph(d) == self.spec_eph(d)
    }

    /// `other` holds the same cubes as `self` for every color but `c`.
    pub open spec fn same_cubes_except(self, other: Player, c: Color) -> bool {
        forall|d: Color|
            #![trigger other.spec_real(d)]
            #![trigger other.spec_eph(d)]
            d != c ==> other.spec_real(d) == self.spec_real(d) && other.spec_eph(d)
                == self.spec_eph(d)
    }

    /// How `post` relates to `pre` after one cube of `c` was removed:
    /// an ephemeral cube is consumed preferentially and reported as
    /// `was_real == false`; only when no ephemeral cube of `c` exists is a
    /// real cube consumed and reported as `was_real == true`.
    pub open spec fn spec_removed(pre: Player, post: Player, c: Color, was_real: bool) -> bool {
        &&& post.spec_health() == pre.spec_health()
        &&& pre.same_cubes_except(post, c)
        &&& if pre.spec_eph(c) > 0 {
            &&& !was_real
            &&& post.spec_eph(c) == pre.spec_eph(c) - 1
            &&& post.spec_real(c) == pre.spec_real(c)
        } else {
            &&& was_real
            &&& post.spec_real(c) == pre.spec_real(c) - 1
            &&& post.spec_eph(c) == pre.spec_eph(c)
        }
    }

    /// How `post` relates to `pre` after one real cube of `c` was added:
    /// exactly that counter grew by one.
    pub open spec fn spec_added(pre: Player, post: Player, c: Color) -> bool {
        &&& post.spec_health() == pre.spec_health()
        &&& pre.same_cubes_except(post, c)
        &&& post.spec_real(c) == pre.spec_real(c) + 1
        &&& post.spec_eph(c) == pre.spec_eph(c)
    }

    /// How `post` relates to `pre` after the ephemeral cubes were cleared:
    /// no ephemeral cube is left, real cubes and health are kept.
    pub open spec fn spec_cleared(pre: Player, post: Player) -> bool {
        &&& post.spec_health() == pre.spec_health()
        &&& forall|c: Color| #[trigger] post.spec_eph(c) == 0
        &&& forall|c: Color| #[trigger] post.spec_real(c) == pre.spec_real(c)
    }

    /// Add one real cube of `color`.
    pub fn add_cube(&mut self, color: Color)
        requires
            old(self).wf(),
            old(self).spec_real(color) < u32::MAX,
        ensures
            final(self).wf(),
            final(self).spec_real(color) == old(self).spec_real(color) + 1,
            final(self).spec_eph(color) == old(self).spec_eph(color),
            old(self).same_cubes_except(*final(self), color),
            final(self).spec_health() == old(self).spec_health(),
    {
        self.cubes.insert(color);
        proof {
            lemma_color_frames(old(self).cubes, final(self).cubes, color);
        }
    }

    /// Remove one cube of `color`, ephemeral cubes first; reports whether the
    /// consumed cube was real (so its cost must be returned to the bank).
    /// Fails with `InvalidAction`, changing nothing, if the player holds no
    /// cube of `color` at all.
    pub fn remove_cube(&mut self, color: Color) -> (r: Result<bool, ColorMixError>)
        requires
            old(self).wf(),
        ensures
            final(self).wf(),
            old(self).spec_total(color) > 0 ==> (r matches Ok(was_real)
                && Player::spec_removed(*old(self), *final(self), color, was_real)),
            old(self).spec_total(color) == 0 ==> r == Err::<bool, ColorMixError>(
                ColorMixError::InvalidAction,
            ) && *final(self) == *old(self),
    {
        if self.ephemeral_cubes.capacity(color) > 0 {
            let res = self.ephemeral_cubes.remove(color);
            proof {
                lemma_color_frames(old(self).ephemeral_cubes, final(self).ephemeral_cubes, color);
            }
            match res {
                Ok(_) => Ok(false),
                Err(e) => Err(e),
            }
        } else {
            let res = self.cubes.remove(color);
            proof {
                lemma_color_frames(old(self).cubes, final(self).cubes, color);
            }
            match res {
                Ok(_) => Ok(true),
                Err(e) => Err(e),
            }
        }
    }

    /// Double the player's current holdings of `color`: add as many new
    /// ephemeral cubes of `color` as the player holds in total, real and
    /// ephemeral together. The bank is not involved.
    pub fn double_cubes(&mut self, color: Color)
        requires
            old(self).wf(),
            old(self).spec_real(color) + 2 * old(self).spec_eph(color) <= u32::MAX,
        ensures
            final(self).wf(),
            final(self).spec_eph(color) == old(self).spec_real(color) + 2 * old(self).spec_eph(
                color,
            ),
            final(self).spec_real(color) == old(self).spec_real(color),
            old(self).same_cubes_except(*final(self), color),
            final(self).spec_health() == old(self).spec_health(),
    {
        let total_cubes = self.cubes.capacity(color) + self.ephemeral_cubes.capacity(color);
        self.ephemeral_cubes.insert_n(color, total_cubes);
        proof {
            lemma_color_frames(old(self).ephemeral_cubes, final(self).ephemeral_cubes, color);
        }
    }

    /// Discard every ephemeral cube; called once at the end of the owning
    /// player's turn.
    pub fn clear_ephemeral(&mut self)
        requires
            old(self).wf(),
        ensures
            final(self).wf(),
            forall|c: Color| #[trigger] final(self).spec_eph(c) == 0,
            forall|c: Color| #[trigger] final(self).spec_real(c) == old(self).spec_real(c),
            final(self).spec_health() == old(self).spec_health(),
    {
        self.ephemeral_cubes.clear();
    }

    /// Lower the player's health by one.
    pub fn damage(&mut self)
        requires
            old(self).wf(),
            old(self).spec_health() > 0,
        ensures
            final(self).wf(),
            final(self).spec_health() == old(self).spec_health() - 1,
            old(self).same_cubes(*final(self)),
    {
        self.hp = self.hp - 1;
    }

    /// Lower the player's health by `count`, stopping at zero.
    pub fn damage_n(&mut self, count: u32)
        requires
            old(self).wf(),
        ensures
            final(self).wf(),
            final(self).spec_health() == if count >= old(self).spec_health() {
                0u32
            } else {
                (old(self).spec_health() - count) as u32
            },
            old(self).same_cubes(*final(self)),
    {
        if count >= self.hp {
            self.hp = 0;
        } else {
            self.hp = self.hp - count;
        }
    }

    /// Raise the player's health by one; fails with `InvalidAction`, changing
    /// nothing, if the player is already at maximum health.
    pub fn heal(&mut self) -> (r: Result<(), ColorMixError>)
        requires
            old(self).wf(),
        ensures
            final(self).wf(),
            old(self).spec_health() < STARTING_HP ==> r is Ok && final(self).spec_health() == old(
                self,
            ).spec_health() + 1,
            old(self).spec_health() >= STARTING_HP ==> r == Err::<(), ColorMixError>(
                ColorMixError::InvalidAction,
            ) && *final(self) == *old(self),
            old(self).same_cubes(*final(self)),
    {
        if self.hp < STARTING_HP {
            self.hp = self.hp + 1;
            Ok(())
        } else {
            Err(ColorMixError::InvalidAction)
        }
    }

    /// Whether the player has lost: health has reached zero.
    pub fn is_dead(&self) -> (r: bool)
        ensures
            r == (self.spec_health() == 0),
    {
        self.hp == 0
    }

    /// The player's health.
    pub fn health(&self) -> (h: u32)
        ensures
            h == self.spec_health(),
    {
        self.hp
    }

    /// How many real cubes of `color` the player holds.
    pub fn cube_count(&self, color: Color) -> (n: u32)
        requires
            self.wf(),
        ensures
            n == self.spec_real(color),
    {
        self.cubes.capacity(color)
    }

    /// How many ephemeral cubes of `color` the player holds.
    pub fn ephemeral_count(&self, color: Color) -> (n: u32)
        requires
            self.wf(),
        ensures
            n == self.spec_eph(color),
    {
        self.ephemeral_cubes.capacity(color)
    }
}

impl Default for Player {
    /// A fresh player: no cubes and full health.
    fn default() -> (p: Player)
        ensures
            p.wf(),
            p.spec_health() == STARTING_HP,
            forall|c: Color| #[trigger] p.spec_real(c) == 0,
            forall|c: Color| #[trigger] p.spec_eph(c) == 0,
    {
        Player {
            cubes: CubeSet::with_initial_count(0),
            ephemeral_cubes: CubeSet::with_initial_count(0),
            hp: STARTING_HP,
        }
    }
}

/// Helper for the cube-frame conditions above: a `same_except` step on one of
/// a player's two cube sets leaves every color but `c` unchanged, stated over
/// colors rather than dense indices.
proof fn lemma_color_frames(pre: CubeSet, post: CubeSet, c: Color)
    requires
        pre.same_except(post, c),
    ensures
        forall|d: Color| d != c ==> #[trigger] post.count_of(d) == pre.count_of(d),
{
    assert forall|d: Color| d != c implies #[trigger] post.count_of(d) == pre.count_of(d) by {
        d.lemma_idx_injective(c);
    }
}

} // verus!
