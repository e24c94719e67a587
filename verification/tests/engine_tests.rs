use color_mix::color::{Color, PrimaryColor};
use color_mix::color_mix::{Action, ColorMix, PlayCube};
use color_mix::error::ColorMixError;

#[test]
fn test_new_engine_initial_draw() {
    // The implicit finish turn of construction rotates Yellow into the
    // all-Yellow pot, passes the turn to player 1, and lets player 1 draw
    // the pot color (Yellow, costing two Yellow units).
    let g = ColorMix::new(6);
    assert!(g.p1_turn());
    assert!(!g.finished());
    assert_eq!(g.player1().health(), 5);
    assert_eq!(g.player2().health(), 5);
    assert_eq!(g.player1().cube_count(Color::Yellow), 1);
    assert_eq!(g.player1().cube_count(Color::Red), 0);
    assert_eq!(g.player2().cube_count(Color::Yellow), 0);
    assert_eq!(g.bank().count(PrimaryColor::Yellow), 4);
    assert_eq!(g.bank().count(PrimaryColor::Red), 6);
    assert_eq!(g.bank().count(PrimaryColor::Blue), 6);
    assert_eq!(g.pot().slots(), (PrimaryColor::Yellow, PrimaryColor::Yellow));
    assert!(!g.pot().inverted());
    assert_eq!(g.pot().color(), Color::Yellow);
}

#[test]
fn test_new_engine_bank_too_small_to_draw() {
    // With one unit per primary color the bank cannot supply the two-unit
    // cost of the starting draw, which silently stalls.
    let g = ColorMix::new(1);
    assert!(g.p1_turn());
    assert_eq!(g.player1().cube_count(Color::Yellow), 0);
    assert_eq!(g.bank().count(PrimaryColor::Yellow), 1);
}

#[test]
fn test_play_unheld_cube_fails() {
    // Player 1 holds no Red cube: the play fails with InvalidAction and
    // nothing changes.
    let mut g = ColorMix::new(6);
    let r = g.do_action(Action::PlayCube(PlayCube::Red));
    assert_eq!(r, Err(ColorMixError::InvalidAction));
    assert!(g.p1_turn());
    assert_eq!(g.player1().health(), 5);
    assert_eq!(g.player2().health(), 5);
    assert_eq!(g.player1().cube_count(Color::Red), 0);
    assert_eq!(g.player1().cube_count(Color::Yellow), 1);
    assert_eq!(g.bank().count(PrimaryColor::Red), 6);
    assert_eq!(g.bank().count(PrimaryColor::Yellow), 4);
}

#[test]
fn test_heal_at_max_rolls_back() {
    let mut g = ColorMix::new(6);
    // Rotate Blue in twice so that player 1 draws a Blue cube.
    g.do_action(Action::FinishTurn(PrimaryColor::Blue)).unwrap();
    // Player 2 drew mix(Blue, Yellow) = Green.
    assert_eq!(g.player2().cube_count(Color::Green), 1);
    g.do_action(Action::FinishTurn(PrimaryColor::Blue)).unwrap();
    // Player 1 drew mix(Blue, Blue) = Blue.
    assert!(g.p1_turn());
    assert_eq!(g.player1().cube_count(Color::Blue), 1);
    assert_eq!(g.bank().count(PrimaryColor::Blue), 3);

    // Healing at maximum health fails; the spent Blue cube comes back and
    // the bank is untouched.
    let r = g.do_action(Action::PlayCube(PlayCube::Blue));
    assert_eq!(r, Err(ColorMixError::InvalidAction));
    assert_eq!(g.player1().health(), 5);
    assert_eq!(g.player1().cube_count(Color::Blue), 1);
    assert_eq!(g.bank().count(PrimaryColor::Blue), 3);
    assert_eq!(g.bank().count(PrimaryColor::Yellow), 3);
    assert_eq!(g.bank().count(PrimaryColor::Red), 6);

    // Below maximum health the same heal succeeds: rotate Red cubes to
    // player 2, let player 2 strike once, then player 1 heals back to 5.
    g.do_action(Action::FinishTurn(PrimaryColor::Red)).unwrap();
    g.do_action(Action::FinishTurn(PrimaryColor::Red)).unwrap();
    g.do_action(Action::FinishTurn(PrimaryColor::Red)).unwrap();
    assert!(!g.p1_turn());
    assert_eq!(g.player2().cube_count(Color::Red), 1);
    g.do_action(Action::PlayCube(PlayCube::Red)).unwrap();
    assert_eq!(g.player1().health(), 4);
    g.do_action(Action::FinishTurn(PrimaryColor::Blue)).unwrap();
    assert!(g.p1_turn());
    let heal = g.do_action(Action::PlayCube(PlayCube::Blue));
    assert_eq!(heal, Ok(()));
    assert_eq!(g.player1().health(), 5);
    assert_eq!(g.player1().cube_count(Color::Blue), 0);
}

#[test]
fn test_failed_steal_rolls_back() {
    let mut g = ColorMix::new(6);
    g.do_action(Action::FinishTurn(PrimaryColor::Red)).unwrap();
    // Player 2 drew mix(Red, Yellow) = Orange.
    assert_eq!(g.player2().cube_count(Color::Orange), 1);
    g.do_action(Action::FinishTurn(PrimaryColor::Blue)).unwrap();
    // Player 1 drew mix(Blue, Red) = Purple.
    assert!(g.p1_turn());
    assert_eq!(g.player1().cube_count(Color::Purple), 1);
    assert_eq!(g.bank().count(PrimaryColor::Red), 4);
    assert_eq!(g.bank().count(PrimaryColor::Blue), 5);
    assert_eq!(g.bank().count(PrimaryColor::Yellow), 3);

    // Player 2 holds no Green: the steal fails, the Purple cube is
    // restored, the bank is untouched.
    let r = g.do_action(Action::PlayCube(PlayCube::Purple { steal_color: Color::Green }));
    assert_eq!(r, Err(ColorMixError::InvalidAction));
    assert_eq!(g.player1().cube_count(Color::Purple), 1);
    assert_eq!(g.player2().cube_count(Color::Orange), 1);
    assert_eq!(g.bank().count(PrimaryColor::Red), 4);
    assert_eq!(g.bank().count(PrimaryColor::Blue), 5);
    assert_eq!(g.bank().count(PrimaryColor::Yellow), 3);

    // Stealing the Orange cube player 2 does hold succeeds: the cube moves
    // into player 1's real holdings and the spent Purple settles with the
    // bank (one Red and one Blue unit).
    let r2 = g.do_action(Action::PlayCube(PlayCube::Purple { steal_color: Color::Orange }));
    assert_eq!(r2, Ok(()));
    assert_eq!(g.player1().cube_count(Color::Orange), 1);
    assert_eq!(g.player1().cube_count(Color::Purple), 0);
    assert_eq!(g.player2().cube_count(Color::Orange), 0);
    assert_eq!(g.bank().count(PrimaryColor::Red), 5);
    assert_eq!(g.bank().count(PrimaryColor::Blue), 6);
}

#[test]
fn test_ephemeral_spend_skips_bank() {
    let mut g = ColorMix::new(6);
    g.do_action(Action::FinishTurn(PrimaryColor::Yellow)).unwrap();
    // Player 2 drew Yellow from the all-Yellow pot.
    assert_eq!(g.player2().cube_count(Color::Yellow), 1);
    assert_eq!(g.bank().count(PrimaryColor::Yellow), 2);
    g.do_action(Action::FinishTurn(PrimaryColor::Red)).unwrap();
    // Player 1 drew mix(Red, Yellow) = Orange.
    assert!(g.p1_turn());
    assert_eq!(g.player1().cube_count(Color::Orange), 1);
    assert_eq!(g.bank().count(PrimaryColor::Red), 5);
    assert_eq!(g.bank().count(PrimaryColor::Yellow), 1);

    // Doubling Yellow adds one ephemeral Yellow; the spent real Orange
    // settles its Red and Yellow units with the bank.
    let r = g.do_action(Action::PlayCube(PlayCube::Orange { double_color: Color::Yellow }));
    assert_eq!(r, Ok(()));
    assert_eq!(g.player1().cube_count(Color::Yellow), 1);
    assert_eq!(g.player1().ephemeral_count(Color::Yellow), 1);
    assert_eq!(g.player1().cube_count(Color::Orange), 0);
    assert_eq!(g.bank().count(PrimaryColor::Red), 6);
    assert_eq!(g.bank().count(PrimaryColor::Yellow), 2);

    // Playing Yellow consumes the ephemeral copy first: the real Yellow
    // stays, and no Yellow cost is deposited into the bank. The effect
    // draws the pot color, mix(Red, Yellow) = Orange.
    let r2 = g.do_action(Action::PlayCube(PlayCube::Yellow));
    assert_eq!(r2, Ok(()));
    assert_eq!(g.player1().ephemeral_count(Color::Yellow), 0);
    assert_eq!(g.player1().cube_count(Color::Yellow), 1);
    assert_eq!(g.player1().cube_count(Color::Orange), 1);
    assert_eq!(g.bank().count(PrimaryColor::Red), 5);
    assert_eq!(g.bank().count(PrimaryColor::Yellow), 1);
}

#[test]
fn test_finish_turn_clears_ephemeral() {
    let mut g = ColorMix::new(6);
    g.do_action(Action::FinishTurn(PrimaryColor::Yellow)).unwrap();
    g.do_action(Action::FinishTurn(PrimaryColor::Red)).unwrap();
    g.do_action(Action::PlayCube(PlayCube::Orange { double_color: Color::Yellow })).unwrap();
    assert_eq!(g.player1().ephemeral_count(Color::Yellow), 1);
    // Ending the turn wipes the owner's ephemeral cubes.
    g.do_action(Action::FinishTurn(PrimaryColor::Red)).unwrap();
    assert_eq!(g.player1().ephemeral_count(Color::Yellow), 0);
    assert_eq!(g.player1().cube_count(Color::Yellow), 1);
}

#[test]
fn test_green_toggles_inversion() {
    let mut g = ColorMix::new(6);
    g.do_action(Action::FinishTurn(PrimaryColor::Blue)).unwrap();
    // Player 2 drew mix(Blue, Yellow) = Green.
    assert_eq!(g.player2().cube_count(Color::Green), 1);
    assert_eq!(g.bank().count(PrimaryColor::Yellow), 3);
    assert_eq!(g.bank().count(PrimaryColor::Blue), 5);

    // Green inverts the pot, then draws its complemented color:
    // opposite(Green) = Red.
    let r = g.do_action(Action::PlayCube(PlayCube::Green));
    assert_eq!(r, Ok(()));
    assert!(g.pot().inverted());
    assert_eq!(g.pot().color(), Color::Red);
    assert_eq!(g.player2().cube_count(Color::Green), 0);
    assert_eq!(g.player2().cube_count(Color::Red), 1);
    assert_eq!(g.bank().count(PrimaryColor::Red), 4);
    // The spent Green settles one Yellow and one Blue unit.
    assert_eq!(g.bank().count(PrimaryColor::Yellow), 4);
    assert_eq!(g.bank().count(PrimaryColor::Blue), 6);
}

#[test]
fn test_red_kills_opponent() {
    let mut g = ColorMix::new(6);
    // Rotate Red in twice so the pot yields Red cubes from then on.
    g.do_action(Action::FinishTurn(PrimaryColor::Red)).unwrap();
    g.do_action(Action::FinishTurn(PrimaryColor::Red)).unwrap();
    assert!(g.p1_turn());
    assert_eq!(g.player1().cube_count(Color::Red), 1);

    // The players trade Red plays until the opponent of the acting player
    // dies; player 1 strikes first every round, so player 2 dies first.
    while !g.finished() {
        g.do_action(Action::PlayCube(PlayCube::Red)).unwrap();
        if g.finished() {
            break;
        }
        g.do_action(Action::FinishTurn(PrimaryColor::Red)).unwrap();
    }
    assert!(g.finished());
    assert!(g.p1_wins());
    assert!(g.p1_turn());
    assert_eq!(g.player2().health(), 0);
    assert_eq!(g.player1().health(), 1);
}

#[test]
fn test_parse_tokens() {
    assert_eq!(Action::parse(b"r"), Ok(Action::PlayCube(PlayCube::Red)));
    assert_eq!(Action::parse(b"y"), Ok(Action::PlayCube(PlayCube::Yellow)));
    assert_eq!(Action::parse(b"b"), Ok(Action::PlayCube(PlayCube::Blue)));
    assert_eq!(Action::parse(b"g"), Ok(Action::PlayCube(PlayCube::Green)));
    assert_eq!(Action::parse(b"fy"), Ok(Action::FinishTurn(PrimaryColor::Yellow)));
    assert_eq!(Action::parse(b"fr"), Ok(Action::FinishTurn(PrimaryColor::Red)));
    assert_eq!(
        Action::parse(b"ob"),
        Ok(Action::PlayCube(PlayCube::Orange { double_color: Color::Blue }))
    );
    assert_eq!(
        Action::parse(b"pg"),
        Ok(Action::PlayCube(PlayCube::Purple { steal_color: Color::Green }))
    );
}

#[test]
fn test_parse_failures() {
    assert_eq!(Action::parse(b""), Err(ColorMixError::ParseError));
    assert_eq!(Action::parse(b"x"), Err(ColorMixError::ParseError));
    assert_eq!(Action::parse(b"f"), Err(ColorMixError::ParseError));
    assert_eq!(Action::parse(b"fo"), Err(ColorMixError::ParseError));
    assert_eq!(Action::parse(b"oz"), Err(ColorMixError::ParseError));
    assert_eq!(Action::parse(b"rr"), Err(ColorMixError::ParseError));
    assert_eq!(Action::parse(b"fyy"), Err(ColorMixError::ParseError));
}

#[test]
fn test_play_cube_colors() {
    assert_eq!(PlayCube::Red.color(), Color::Red);
    assert_eq!(PlayCube::Yellow.color(), Color::Yellow);
    assert_eq!(PlayCube::Blue.color(), Color::Blue);
    assert_eq!(PlayCube::Orange { double_color: Color::Red }.color(), Color::Orange);
    assert_eq!(PlayCube::Purple { steal_color: Color::Blue }.color(), Color::Purple);
    assert_eq!(PlayCube::Green.color(), Color::Green);
}
