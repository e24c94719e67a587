use vstd::prelude::*;

use crate::bank::Bank;
use crate::color::{
    spec_color_from_byte, spec_cost, spec_primary_from_byte, Color, PrimaryColor,
};
use crate::error::ColorMixError;
use crate::player::{Player, STARTING_HP};
use crate::pot::{spec_pot_color, Pot};

verus! {

/// A cube to play, one variant per color, each carrying the payload its
/// effect needs.
#[derive(Clone, Copy, Debug, PartialEq, Eq, Structural)]
pub enum PlayCube {
    Red,
    Yellow,
    Blue,
    Orange { double_color: Color },
    Purple { steal_color: Color },
    Green,
}

impl PlayCube {
    /// The color of the cube this play spends.
    pub open spec fn spec_color(self) -> Color {
        match self {
            PlayCube::Red => Color::Red,
            PlayCube::Yellow => Color::Yellow,
            PlayCube::Blue => Color::Blue,
            PlayCube::Orange { .. } => Color::Orange,
            PlayCube::Purple { .. } => Color::Purple,
            PlayCube::Green => Color::Green,
        }
    }

    /// The color of the cube this play spends.
    pub fn color(&self) -> (c: Color)
        ensures
            c == self.spec_color(),
    {
        match self {
            PlayCube::Red => Color::Red,
            PlayCube::Yellow => Color::Yellow,
            PlayCube::Blue => Color::Blue,
            PlayCube::Orange { .. } => Color::Orange,
            PlayCube::Purple { .. } => Color::Purple,
            PlayCube::Green => Color::Green,
        }
    }
}

/// One move of the game: play a cube, or finish the turn and choose the
/// primary color rotated into the pot.
#[derive(Clone, Copy, Debug, PartialEq, Eq, Structural)]
pub enum Action {
    PlayCube(PlayCube),
    FinishTurn(PrimaryColor),
}

/// The action a one-token command encodes, if any: `f` plus a primary-color
/// letter finishes the turn; `r`, `y`, `b`, `g` play the cube of that color;
/// `o` and `p` plus a color letter play Orange (doubling that color) and
/// Purple (stealing that color).
pub open spec fn spec_parse(s: Seq<u8>) -> Option<Action> {
    if s.len() == 1 {
        if s[0] == 114 {  // 'r'
            Some(Action::PlayCube(PlayCube::Red))
        } else if s[0] == 121 {  // 'y'
            Some(Action::PlayCube(PlayCube::Yellow))
        } else if s[0] == 98 {  // 'b'
            Some(Action::PlayCube(PlayCube::Blue))
        } else if s[0] == 103 {  // 'g'
            Some(Action::PlayCube(PlayCube::Green))
        } else {
            None
        }
    } else if s.len() == 2 {
        if s[0] == 102 {  // 'f'
            match spec_primary_from_byte(s[1]) {
                Some(p) => Some(Action::FinishTurn(p)),
                None => None,
            }
        } else if s[0] == 111 {  // 'o'
            match spec_color_from_byte(s[1]) {
                Some(c) => Some(Action::PlayCube(PlayCube::Orange { double_color: c })),
                None => None,
            }
        } else if s[0] == 112 {  // 'p'
            match spec_color_from_byte(s[1]) {
                Some(c) => Some(Action::PlayCube(PlayCube::Purple { steal_color: c })),
                None => None,
            }
        } else {
            None
        }
    } else {
        None
    }
}

impl Action {
    /// Decode one ASCII command token into an action; any unrecognized token
    /// is a parse failure and no state is touched.
    pub fn parse(s: &[u8]) -> (r: Result<Action, ColorMixError>)
        ensures
            match r {
                Ok(a) => spec_parse(s@) == Some(a),
                Err(e) => e == ColorMixError::ParseError && spec_parse(s@) is None,
            },
    {
        if s.len() == 1 {
            let b = s[0];
            if b == 114 {
                Ok(Action::PlayCube(PlayCube::Red))
            } else if b == 121 {
                Ok(Action::PlayCube(PlayCube::Yellow))
            } else if b == 98 {
                Ok(Action::PlayCube(PlayCube::Blue))
            } else if b == 103 {
                Ok(Action::PlayCube(PlayCube::Green))
            } else {
                Err(ColorMixError::ParseError)
            }
        } else if s.len() == 2 {
            let b0 = s[0];
            let b1 = s[1];
            if b0 == 102 {
                match PrimaryColor::from_byte(b1) {
                    Ok(p) => Ok(Action::FinishTurn(p)),
                    Err(e) => Err(e),
                }
            } else if b0 == 111 {
                match Color::from_byte(b1) {
                    Ok(c) => Ok(Action::PlayCube(PlayCube::Orange { double_color: c })),
                    Err(e) => Err(e),
                }
            } else if b0 == 112 {
                match Color::from_byte(b1) {
                    Ok(c) => Ok(Action::PlayCube(PlayCube::Purple { steal_color: c })),
                    Err(e) => Err(e),
                }
            } else {
                Err(ColorMixError::ParseError)
            }
        } else {
            Err(ColorMixError::ParseError)
        }
    }
}

/// The turn engine: both players, the shared bank and pot, and whose turn it
/// is. Mutated only through `do_action`.
pub struct ColorMix {
    player1: Player,
    player2: Player,
    pot: Pot,
    bank: Bank,
    p1_turn: bool,
}

impl ColorMix {
    /// Player 1's state.
    pub closed spec fn spec_p1(self) -> Player {
        self.player1
    }

    /// Player 2's state.
    pub closed spec fn spec_p2(self) -> Player {
        self.player2
    }

    /// The shared pot.
    pub closed spec fn spec_pot(self) -> Pot {
        self.pot
    }

    /// The shared bank.
    pub closed spec fn spec_bank(self) -> Bank {
        self.bank
    }

    /// Whether it is player 1's turn.
    pub closed spec fn spec_p1_turn(self) -> bool {
        self.p1_turn
    }

    /// The player whose turn it is.
    pub open spec fn spec_cur(self) -> Player {
        if self.spec_p1_turn() {
            self.spec_p1()
        } else {
            self.spec_p2()
        }
    }

    /// The player whose turn it is not.
    pub open spec fn spec_other(self) -> Player {
        if self.spec_p1_turn() {
            self.spec_p2()
        } else {
            self.spec_p1()
        }
    }

    /// Both players and the bank are well formed.
    pub open spec fn wf(self) -> bool {
        &&& self.spec_p1().wf()
        &&& self.spec_p2().wf()
        &&& self.spec_bank().wf()
    }

    /// The game is over: one of the players is dead.
    pub open spec fn spec_finished(self) -> bool {
        self.spec_p1().spec_health() == 0 || self.spec_p2().spec_health() == 0
    }

    /// Room left in the counters so that one cube play cannot overflow them:
    /// the bank can still take a two-unit deposit, and the acting player can
    /// still take one more real cube of any color.
    pub open spec fn spec_headroom(self) -> bool {
        &&& forall|p: PrimaryColor| #[trigger] self.spec_bank().spec_count(p) <= u32::MAX - 2
        &&& forall|c: Color| #[trigger] self.spec_cur().spec_real(c) < u32::MAX
    }

    /// The machine-limit condition under which `action` cannot overflow a
    /// counter: for a cube play, general headroom, and for a doubling play
    /// room in the doubled ephemeral counter; for a finish turn, room for
    /// the one cube the next player may draw.
    pub open spec fn spec_action_fits(self, action: Action) -> bool {
        match action {
            Action::PlayCube(pc) => {
                &&& self.spec_headroom()
                &&& match pc {
                    PlayCube::Orange { double_color } => self.spec_cur().spec_real(double_color)
                        + 2 * self.spec_cur().spec_eph(double_color) <= u32::MAX,
                    _ => true,
                }
            },
            Action::FinishTurn(p) => self.spec_other().spec_real(
                spec_pot_color(p, self.spec_pot().spec_slot0(), self.spec_pot().spec_inverted()),
            ) < u32::MAX,
        }
    }

    /// How `post` relates to `pre` after one cube of color `col` was spent by
    /// the current player: only that player changed, by the preferential
    /// removal of `Player::spec_removed`.
    pub open spec fn spec_spent(pre: ColorMix, post: ColorMix, col: Color, was_real: bool) -> bool {
        &&& post.spec_p1_turn() == pre.spec_p1_turn()
        &&& post.spec_pot() == pre.spec_pot()
        &&& post.spec_bank() == pre.spec_bank()
        &&& post.spec_other() == pre.spec_other()
        &&& Player::spec_removed(pre.spec_cur(), post.spec_cur(), col, was_real)
    }

    /// How the bank and the current player change when the current player
    /// attempts a pot draw of the color `pc`: if the bank holds the full cost
    /// of `pc` it loses that cost and the player gains one real cube of `pc`;
    /// otherwise nothing happens (an empty bank stalls draws silently).
    pub open spec fn spec_drawn_for(pre: ColorMix, post: ColorMix, pc: Color) -> bool {
        &&& post.spec_p1_turn() == pre.spec_p1_turn()
        &&& post.spec_other() == pre.spec_other()
        &&& if pre.spec_bank().spec_can_withdraw(pc) {
            &&& forall|p: PrimaryColor|
                #[trigger] post.spec_bank().spec_count(p) == pre.spec_bank().spec_count(p)
                    - spec_cost(pc, p)
            &&& Player::spec_added(pre.spec_cur(), post.spec_cur(), pc)
        } else {
            &&& post.spec_bank() == pre.spec_bank()
            &&& post.spec_cur() == pre.spec_cur()
        }
    }

    /// A pot draw of the pot's current color, the pot itself unchanged.
    pub open spec fn spec_drawn(pre: ColorMix, post: ColorMix) -> bool {
        &&& post.spec_pot() == pre.spec_pot()
        &&& ColorMix::spec_drawn_for(pre, post, pre.spec_pot().spec_color())
    }

    /// How `post` relates to `pre` through the color-specific effect of
    /// playing `pc`, on the state `pre` as it stands after the cube spend.
    /// Red damages the other player; Yellow draws from the pot; Blue heals
    /// the current player, failing at maximum health; Orange doubles the
    /// current player's holdings of the payload color; Purple steals one
    /// cube of the payload color from the other player, failing if none is
    /// held; Green toggles pot inversion and then draws. A failed effect
    /// changes nothing and reports `InvalidAction`.
    pub open spec fn spec_effect(
        pre: ColorMix,
        post: ColorMix,
        pc: PlayCube,
        r: Result<(), ColorMixError>,
    ) -> bool {
        match pc {
            PlayCube::Red => {
                &&& r is Ok
                &&& post.spec_p1_turn() == pre.spec_p1_turn()
                &&& post.spec_pot() == pre.spec_pot()
                &&& post.spec_bank() == pre.spec_bank()
                &&& post.spec_cur() == pre.spec_cur()
                &&& post.spec_other().spec_health() == pre.spec_other().spec_health() - 1
                &&& pre.spec_other().same_cubes(post.spec_other())
            },
            PlayCube::Yellow => {
                &&& r is Ok
                &&& ColorMix::spec_drawn(pre, post)
            },
            PlayCube::Blue => {
                if pre.spec_cur().spec_health() < STARTING_HP {
                    &&& r is Ok
                    &&& post.spec_p1_turn() == pre.spec_p1_turn()
                    &&& post.spec_pot() == pre.spec_pot()
                    &&& post.spec_bank() == pre.spec_bank()
                    &&& post.spec_other() == pre.spec_other()
                    &&& post.spec_cur().spec_health() == pre.spec_cur().spec_health() + 1
                    &&& pre.spec_cur().same_cubes(post.spec_cur())
                } else {
                    &&& r == Err::<(), ColorMixError>(ColorMixError::InvalidAction)
                    &&& post == pre
                }
            },
            PlayCube::Orange { double_color } => {
                &&& r is Ok
                &&& post.spec_p1_turn() == pre.spec_p1_turn()
                &&& post.spec_pot() == pre.spec_pot()
                &&& post.spec_bank() == pre.spec_bank()
                &&& post.spec_other() == pre.spec_other()
                &&& post.spec_cur().spec_health() == pre.spec_cur().spec_health()
                &&& pre.spec_cur().same_cubes_except(post.spec_cur(), double_color)
                &&& post.spec_cur().spec_real(double_color) == pre.spec_cur().spec_real(
                    double_color,
                )
                &&& post.spec_cur().spec_eph(double_color) == pre.spec_cur().spec_real(double_color)
                    + 2 * pre.spec_cur().spec_eph(double_color)
            },
            PlayCube::Purple { steal_color } => {
                if pre.spec_other().spec_total(steal_color) > 0 {
                    &&& r is Ok
                    &&& post.spec_p1_turn() == pre.spec_p1_turn()
                    &&& post.spec_pot() == pre.spec_pot()
                    &&& post.spec_bank() == pre.spec_bank()
                    &&& Player::spec_removed(
                        pre.spec_other(),
                        post.spec_other(),
                        steal_color,
                        pre.spec_other().spec_eph(steal_color) == 0,
                    )
                    &&& Player::spec_added(pre.spec_cur(), post.spec_cur(), steal_color)
                } else {
                    &&& r == Err::<(), ColorMixError>(ColorMixError::InvalidAction)
                    &&& post == pre
                }
            },
            PlayCube::Green => {
                &&& r is Ok
                &&& post.spec_pot().spec_slot0() == pre.spec_pot().spec_slot0()
                &&& post.spec_pot().spec_slot1() == pre.spec_pot().spec_slot1()
                &&& post.spec_pot().spec_inverted() == !pre.spec_pot().spec_inverted()
                &&& ColorMix::spec_drawn_for(
                    pre,
                    post,
                    spec_pot_color(
                        pre.spec_pot().spec_slot0(),
                        pre.spec_pot().spec_slot1(),
                        !pre.spec_pot().spec_inverted(),
                    ),
                )
            },
        }
    }

    /// How `post` relates to `pre` after a successful play was settled with
    /// the bank: the cost of a spent real cube is deposited, a spent
    /// ephemeral cube leaves the bank untouched. Nothing else changes.
    pub open spec fn spec_settled(
        pre: ColorMix,
        post: ColorMix,
        col: Color,
        was_real: bool,
    ) -> bool {
        &&& post.spec_p1_turn() == pre.spec_p1_turn()
        &&& post.spec_pot() == pre.spec_pot()
        &&& post.spec_cur() == pre.spec_cur()
        &&& post.spec_other() == pre.spec_other()
        &&& if was_real {
            forall|p: PrimaryColor|
                #[trigger] post.spec_bank().spec_count(p) == pre.spec_bank().spec_count(p)
                    + spec_cost(col, p)
        } else {
            post.spec_bank() == pre.spec_bank()
        }
    }

    /// How `post` relates to `pre` after a failed effect was rolled back:
    /// the spent cube is returned to the current player's real holdings and
    /// nothing else changes; in particular the bank is never touched on
    /// failure.
    pub open spec fn spec_rolled_back(pre: ColorMix, post: ColorMix, col: Color) -> bool {
        &&& post.spec_p1_turn() == pre.spec_p1_turn()
        &&& post.spec_pot() == pre.spec_pot()
        &&& post.spec_bank() == pre.spec_bank()
        &&& post.spec_other() == pre.spec_other()
        &&& Player::spec_added(pre.spec_cur(), post.spec_cur(), col)
    }

    /// The full protocol of playing a cube, as `pre` to `post`: spend one
    /// cube of the play's color (failing with `InvalidAction`, changing
    /// nothing, if none is held), trigger the effect, then either settle the
    /// spend with the bank on success or roll the spent cube back on failure
    /// and report the effect's error.
    pub open spec fn spec_play_cube(
        pre: ColorMix,
        post: ColorMix,
        pc: PlayCube,
        r: Result<(), ColorMixError>,
    ) -> bool {
        let col = pc.spec_color();
        if pre.spec_cur().spec_total(col) == 0 {
            &&& r == Err::<(), ColorMixError>(ColorMixError::InvalidAction)
            &&& post == pre
        } else {
            let was_real = pre.spec_cur().spec_eph(col) == 0;
            exists|mid: ColorMix, eff: ColorMix|
                {
                    &&& ColorMix::spec_spent(pre, mid, col, was_real)
                    &&& #[trigger] ColorMix::spec_effect(mid, eff, pc, r)
                    &&& match r {
                        Ok(_) => ColorMix::spec_settled(eff, post, col, was_real),
                        Err(_) => ColorMix::spec_rolled_back(eff, post, col),
                    }
                }
        }
    }

    /// The full protocol of finishing a turn with `p` as the new pot color:
    /// the finishing player's ephemeral cubes are cleared, the pot window
    /// slides, the turn passes, and the now-current player attempts a pot
    /// draw of the rotated pot's color.
    pub open spec fn spec_finish_turn(pre: ColorMix, post: ColorMix, p: PrimaryColor) -> bool {
        let drawn_color = spec_pot_color(
            p,
            pre.spec_pot().spec_slot0(),
            pre.spec_pot().spec_inverted(),
        );
        &&& post.spec_p1_turn() == !pre.spec_p1_turn()
        &&& post.spec_pot().spec_slot0() == p
        &&& post.spec_pot().spec_slot1() == pre.spec_pot().spec_slot0()
        &&& post.spec_pot().spec_inverted() == pre.spec_pot().spec_inverted()
        &&& Player::spec_cleared(pre.spec_cur(), post.spec_other())
        &&& if pre.spec_bank().spec_can_withdraw(drawn_color) {
            &&& forall|q: PrimaryColor|
                #[trigger] post.spec_bank().spec_count(q) == pre.spec_bank().spec_count(q)
                    - spec_cost(drawn_color, q)
            &&& Player::spec_added(pre.spec_other(), post.spec_cur(), drawn_color)
        } else {
            &&& post.spec_bank() == pre.spec_bank()
            &&& post.spec_cur() == pre.spec_other()
        }
    }

    /// What `do_action` does: dispatch to the play-cube protocol or the
    /// finish-turn protocol.
    pub open spec fn spec_do_action(
        pre: ColorMix,
        post: ColorMix,
        action: Action,
        r: Result<(), ColorMixError>,
    ) -> bool {
        match action {
            Action::PlayCube(pc) => ColorMix::spec_play_cube(pre, post, pc, r),
            Action::FinishTurn(p) => r is Ok && ColorMix::spec_finish_turn(pre, post, p),
        }
    }

    /// Whether it is player 1's turn.
    pub fn p1_turn(&self) -> (r: bool)
        ensures
            r == self.spec_p1_turn(),
    {
        self.p1_turn
    }

    /// Whether the game is over.
    pub fn finished(&self) -> (r: bool)
        ensures
            r == self.spec_finished(),
    {
        self.player1.is_dead() || self.player2.is_dead()
    }

    /// Whether player 1 has won; meaningful only once the game is over, when
    /// the surviving player is the winner.
    pub fn p1_wins(&self) -> (r: bool)
        requires
            self.spec_finished(),
        ensures
            r == (self.spec_p2().spec_health() == 0),
    {
        self.player2.is_dead()
    }

    /// Mutable access to the player whose turn it is; everything else is
    /// untouched.
    fn cur_player_mut(&mut self) -> (p: &mut Player)
        ensures
            *p == old(self).spec_cur(),
            final(self).spec_cur() == *final(p),
            final(self).spec_other() == old(self).spec_other(),
            final(self).spec_p1_turn() == old(self).spec_p1_turn(),
            final(self).spec_pot() == old(self).spec_pot(),
            final(self).spec_bank() == old(self).spec_bank(),
    {
        if self.p1_turn {
            &mut self.player1
        } else {
            &mut self.player2
        }
    }

    /// Mutable access to the player whose turn it is not; everything else is
    /// untouched.
    fn other_player_mut(&mut self) -> (p: &mut Player)
        ensures
            *p == old(self).spec_other(),
            final(self).spec_other() == *final(p),
            final(self).spec_cur() == old(self).spec_cur(),
            final(self).spec_p1_turn() == old(self).spec_p1_turn(),
            final(self).spec_pot() == old(self).spec_pot(),
            final(self).spec_bank() == old(self).spec_bank(),
    {
        if self.p1_turn {
            &mut self.player2
        } else {
            &mut self.player1
        }
    }

    /// Compute the pot's current color, withdraw its cost from the bank and
    /// hand the cube to the current player; an empty bank silently stalls
    /// the draw.
    fn draw_from_pot(&mut self) -> (r: Result<(), ColorMixError>)
        requires
            old(self).wf(),
            old(self).spec_cur().spec_real(old(self).spec_pot().spec_color()) < u32::MAX,
        ensures
            final(self).wf(),
            r is Ok,
            ColorMix::spec_drawn(*old(self), *final(self)),
    {
        let pot_color = self.pot.color();
        if self.bank.maybe_withdraw(pot_color) {
            let player = self.cur_player_mut();
            player.add_cube(pot_color);
        }
        Ok(())
    }

    /// Trigger the color-specific effect of `play_cube` on the state as it
    /// stands after the cube spend.
    fn trigger_action(&mut self, play_cube: PlayCube) -> (r: Result<(), ColorMixError>)
        requires
            old(self).wf(),
            match play_cube {
                PlayCube::Red => old(self).spec_other().spec_health() > 0,
                PlayCube::Yellow => old(self).spec_cur().spec_real(
                    old(self).spec_pot().spec_color(),
                ) < u32::MAX,
                PlayCube::Blue => true,
                PlayCube::Orange { double_color } => old(self).spec_cur().spec_real(double_color)
                    + 2 * old(self).spec_cur().spec_eph(double_color) <= u32::MAX,
                PlayCube::Purple { steal_color } => old(self).spec_cur().spec_real(steal_color)
                    < u32::MAX,
                PlayCube::Green => old(self).spec_cur().spec_real(
                    spec_pot_color(
                        old(self).spec_pot().spec_slot0(),
                        old(self).spec_pot().spec_slot1(),
                        !old(self).spec_pot().spec_inverted(),
                    ),
                ) < u32::MAX,
            },
        ensures
            final(self).wf(),
            ColorMix::spec_effect(*old(self), *final(self), play_cube, r),
    {
        match play_cube {
            PlayCube::Red => {
                let other_player = self.other_player_mut();
                other_player.damage();
                Ok(())
            },
            PlayCube::Yellow => self.draw_from_pot(),
            PlayCube::Blue => {
                let player = self.cur_player_mut();
                player.heal()
            },
            PlayCube::Orange { double_color } => {
                let player = self.cur_player_mut();
                player.double_cubes(double_color);
                Ok(())
            },
            PlayCube::Purple { steal_color } => {
                let other_player = self.other_player_mut();
                let stolen = other_player.remove_cube(steal_color);
                match stolen {
                    Ok(_) => {},
                    Err(e) => {
                        return Err(e);
                    },
                }
                let player = self.cur_player_mut();
                player.add_cube(steal_color);
                Ok(())
            },
            PlayCube::Green => {
                self.pot.swap_inverted_state();
                self.draw_from_pot()
            },
        }
    }

    /// Play one cube: spend it, trigger its effect, then settle the spend
    /// with the bank on success or roll the cube back on failure.
    fn play_cube(&mut self, play_cube: PlayCube) -> (r: Result<(), ColorMixError>)
        requires
            old(self).wf(),
            !old(self).spec_finished(),
            old(self).spec_action_fits(Action::PlayCube(play_cube)),
        ensures
            final(self).wf(),
            ColorMix::spec_play_cube(*old(self), *final(self), play_cube, r),
    {
        let ghost pre = *old(self);
        let color = play_cube.color();
        let player = self.cur_player_mut();
        let removed = player.remove_cube(color);
        let add_to_bank = match removed {
            Ok(w) => w,
            Err(e) => {
                proof {
                    assert(*final(self) == pre);
                }
                return Err(e);
            },
        };
        let ghost mid = *self;
        proof {
            assert(ColorMix::spec_spent(pre, mid, color, add_to_bank));
            assert(Player::spec_removed(pre.spec_cur(), mid.spec_cur(), color, add_to_bank));
            assert forall|c: Color|
                #[trigger] mid.spec_cur().spec_real(c) <= pre.spec_cur().spec_real(c) by {
                if c != color {
                    assert(mid.spec_cur().spec_real(c) == pre.spec_cur().spec_real(c));
                }
            }
            assert forall|c: Color|
                #[trigger] mid.spec_cur().spec_eph(c) <= pre.spec_cur().spec_eph(c) by {
                if c != color {
                    assert(mid.spec_cur().spec_eph(c) == pre.spec_cur().spec_eph(c));
                }
            }
        }
        let res = self.trigger_action(play_cube);
        match res {
            Ok(_) => {
                let ghost eff = *self;
                if add_to_bank {
                    self.bank.deposit(color);
                }
                proof {
                    assert(ColorMix::spec_effect(mid, eff, play_cube, res));
                    assert(ColorMix::spec_settled(eff, *final(self), color, add_to_bank));
                    assert(add_to_bank == (pre.spec_cur().spec_eph(color) == 0));
                    assert(ColorMix::spec_play_cube(pre, *final(self), play_cube, res));
                }
            },
            Err(_) => {
                let ghost eff = *self;
                let player = self.cur_player_mut();
                player.add_cube(color);
                proof {
                    assert(ColorMix::spec_effect(mid, eff, play_cube, res));
                    assert(ColorMix::spec_rolled_back(eff, *final(self), color));
                    assert(ColorMix::spec_play_cube(pre, *final(self), play_cube, res));
                }
            },
        }
        res
    }

    /// Slide the pot window with the chosen primary color.
    fn rotate_color(&mut self, color: PrimaryColor) -> (r: Result<(), ColorMixError>)
        ensures
            r is Ok,
            final(self).spec_pot().spec_slot0() == color,
            final(self).spec_pot().spec_slot1() == old(self).spec_pot().spec_slot0(),
            final(self).spec_pot().spec_inverted() == old(self).spec_pot().spec_inverted(),
            final(self).spec_p1() == old(self).spec_p1(),
            final(self).spec_p2() == old(self).spec_p2(),
            final(self).spec_bank() == old(self).spec_bank(),
            final(self).spec_p1_turn() == old(self).spec_p1_turn(),
    {
        self.pot.rotate_color(color);
        Ok(())
    }

    /// End the current player's turn: clear their ephemeral cubes, rotate
    /// the pot, pass the turn, and let the now-current player attempt a pot
    /// draw.
    fn finish_turn(&mut self, pot_color: PrimaryColor) -> (r: Result<(), ColorMixError>)
        requires
            old(self).wf(),
            old(self).spec_other().spec_real(
                spec_pot_color(
                    pot_color,
                    old(self).spec_pot().spec_slot0(),
                    old(self).spec_pot().spec_inverted(),
                ),
            ) < u32::MAX,
        ensures
            final(self).wf(),
            r is Ok,
            ColorMix::spec_finish_turn(*old(self), *final(self), pot_color),
    {
        let player = self.cur_player_mut();
        player.clear_ephemeral();
        let _ = self.rotate_color(pot_color);
        self.p1_turn = !self.p1_turn;
        self.draw_from_pot()
    }

    /// Apply one action under the play-cube or finish-turn protocol. The
    /// game must not be over, and the counters must have room for the
    /// action (`spec_action_fits`).
    pub fn do_action(&mut self, action: Action) -> (r: Result<(), ColorMixError>)
        requires
            old(self).wf(),
            !old(self).spec_finished(),
            old(self).spec_action_fits(action),
        ensures
            final(self).wf(),
            ColorMix::spec_do_action(*old(self), *final(self), action, r),
    {
        match action {
            Action::PlayCube(pc) => self.play_cube(pc),
            Action::FinishTurn(pot_color) => self.finish_turn(pot_color),
        }
    }

    /// A fresh game with a bank of `initial_count` units per primary color.
    /// Construction performs an implicit end of player 2's turn, so that
    /// player 1 starts as the active player, having drawn the starting pot
    /// color (Yellow) from the bank if the bank could supply its cost.
    pub fn new(initial_count: u32) -> (g: ColorMix)
        ensures
            g.wf(),
            g.spec_p1_turn(),
            g.spec_pot().spec_slot0() == PrimaryColor::Yellow,
            g.spec_pot().spec_slot1() == PrimaryColor::Yellow,
            !g.spec_pot().spec_inverted(),
            g.spec_p1().spec_health() == STARTING_HP,
            g.spec_p2().spec_health() == STARTING_HP,
            forall|c: Color| #[trigger] g.spec_p1().spec_eph(c) == 0,
            forall|c: Color| #[trigger] g.spec_p2().spec_eph(c) == 0,
            forall|c: Color| #[trigger] g.spec_p2().spec_real(c) == 0,
            initial_count >= 2 ==> {
                &&& g.spec_p1().spec_real(Color::Yellow) == 1
                &&& forall|c: Color|
                    c != Color::Yellow ==> #[trigger] g.spec_p1().spec_real(c) == 0
                &&& g.spec_bank().spec_count(PrimaryColor::Yellow) == initial_count - 2
                &&& g.spec_bank().spec_count(PrimaryColor::Red) == initial_count
                &&& g.spec_bank().spec_count(PrimaryColor::Blue) == initial_count
            },
            initial_count < 2 ==> {
                &&& forall|c: Color| #[trigger] g.spec_p1().spec_real(c) == 0
                &&& forall|p: PrimaryColor| #[trigger] g.spec_bank().spec_count(p) == initial_count
            },
    {
        let mut color_mix = ColorMix {
            player1: Player::default(),
            player2: Player::default(),
            pot: Pot::default(),
            bank: Bank::new(initial_count),
            p1_turn: false,
        };
        let ghost start = color_mix;

        // Finish player 2's turn so that player 1 starts by drawing from the
        // pot.
        let _ = color_mix.finish_turn(PrimaryColor::Yellow);

        proof {
            let post = color_mix;
            assert(spec_pot_color(PrimaryColor::Yellow, PrimaryColor::Yellow, false)
                == Color::Yellow);
            assert(spec_cost(Color::Yellow, PrimaryColor::Yellow) == 2);
            assert(spec_cost(Color::Yellow, PrimaryColor::Red) == 0);
            assert(spec_cost(Color::Yellow, PrimaryColor::Blue) == 0);
            assert(post.spec_p1() == post.spec_cur());
            assert(post.spec_p2() == post.spec_other());
            assert(start.spec_cur() == start.spec_p2());
            assert(start.spec_other() == start.spec_p1());
            assert(Player::spec_cleared(start.spec_p2(), post.spec_p2()));
            if initial_count >= 2 {
                assert(start.spec_bank().spec_can_withdraw(Color::Yellow)) by {
                    assert forall|p: PrimaryColor|
                        #[trigger] start.spec_bank().spec_count(p) >= spec_cost(
                            Color::Yellow,
                            p,
                        ) by {
                        assert(start.spec_bank().spec_count(p) == initial_count);
                    }
                }
                assert(Player::spec_added(start.spec_p1(), post.spec_p1(), Color::Yellow));
                assert(post.spec_p1().spec_real(Color::Yellow) == 1);
                assert forall|c: Color|
                    c != Color::Yellow implies #[trigger] post.spec_p1().spec_real(c) == 0 by {
                    assert(post.spec_p1().spec_real(c) == start.spec_p1().spec_real(c));
                }
            } else {
                assert(start.spec_bank().spec_count(PrimaryColor::Yellow) == initial_count);
                assert(!start.spec_bank().spec_can_withdraw(Color::Yellow)) by {
                    assert(start.spec_bank().spec_count(PrimaryColor::Yellow) < spec_cost(
                        Color::Yellow,
                        PrimaryColor::Yellow,
                    ));
                }
                assert(post.spec_p1() == start.spec_p1());
            }
            assert forall|c: Color| #[trigger] post.spec_p1().spec_eph(c) == 0 by {
                assert(start.spec_p1().spec_eph(c) == 0);
                if initial_count >= 2 {
                    if c != Color::Yellow {
                        assert(post.spec_p1().spec_eph(c) == start.spec_p1().spec_eph(c));
                    }
                }
            }
        }
        color_mix
    }

    /// Law: a failed play is rolled back in full. If `play_cube` (or
    /// `do_action` on a cube play) reports an error, the acting player's
    /// total holdings of every color and their health are unchanged from
    /// before the call, the other player is unchanged, and the bank and the
    /// pot are untouched.
    pub proof fn lemma_play_rolled_back(
        pre: ColorMix,
        post: ColorMix,
        pc: PlayCube,
        r: Result<(), ColorMixError>,
    )
        requires
            ColorMix::spec_play_cube(pre, post, pc, r),
            r is Err,
        ensures
            forall|c: Color|
                #[trigger] post.spec_cur().spec_total(c) == pre.spec_cur().spec_total(c),
            post.spec_cur().spec_health() == pre.spec_cur().spec_health(),
            post.spec_other() == pre.spec_other(),
            forall|p: PrimaryColor|
                #[trigger] post.spec_bank().spec_count(p) == pre.spec_bank().spec_count(p),
            post.spec_pot() == pre.spec_pot(),
            post.spec_p1_turn() == pre.spec_p1_turn(),
    {
        let col = pc.spec_color();
        if pre.spec_cur().spec_total(col) == 0 {
            // The spend itself failed: the state is exactly the old one.
        } else {
            let was_real = pre.spec_cur().spec_eph(col) == 0;
            let (mid, eff) = choose|mid: ColorMix, eff: ColorMix|
                {
                    &&& ColorMix::spec_spent(pre, mid, col, was_real)
                    &&& #[trigger] ColorMix::spec_effect(mid, eff, pc, r)
                    &&& match r {
                        Ok(_) => ColorMix::spec_settled(eff, post, col, was_real),
                        Err(_) => ColorMix::spec_rolled_back(eff, post, col),
                    }
                };
            // Only the heal and the steal can fail, and a failed effect
            // leaves the post-spend state untouched.
            match pc {
                PlayCube::Blue => {
                    assert(eff == mid);
                },
                PlayCube::Purple { steal_color } => {
                    assert(eff == mid);
                },
                _ => {
                    assert(false);
                },
            }
            assert forall|c: Color|
                #[trigger] post.spec_cur().spec_total(c) == pre.spec_cur().spec_total(c) by {
                if c != col {
                    assert(mid.spec_cur().spec_real(c) == pre.spec_cur().spec_real(c));
                    assert(mid.spec_cur().spec_eph(c) == pre.spec_cur().spec_eph(c));
                    assert(post.spec_cur().spec_real(c) == mid.spec_cur().spec_real(c));
                    assert(post.spec_cur().spec_eph(c) == mid.spec_cur().spec_eph(c));
                }
            }
        }
    }

    /// Player 1's state.
    pub fn player1(&self) -> (p: &Player)
        ensures
            *p == self.spec_p1(),
    {
        &self.player1
    }

    /// Player 2's state.
    pub fn player2(&self) -> (p: &Player)
        ensures
            *p == self.spec_p2(),
    {
        &self.player2
    }

    /// The shared pot.
    pub fn pot(&self) -> (p: &Pot)
        ensures
            *p == self.spec_pot(),
    {
        &self.pot
    }

    /// The shared bank.
    pub fn bank(&self) -> (b: &Bank)
        ensures
            *b == self.spec_bank(),
    {
        &self.bank
    }
}

} // verus!
