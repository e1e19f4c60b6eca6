use fgcore::input::FgInput;
use fgcore::player::{Player, PlayerState, BOT_DASH_TIME, METER_MAX, PLAYER_DASH_TIME};

fn tick(p: &mut Player, movement: i8, attack: bool, special: bool) {
    p.set_input(FgInput::new(movement, attack, special));
    p.update_buffer();
    p.update_state();
    p.update_move();
}

#[test]
fn end_to_end_basic_flow() {
    let mut p = Player::new(0, false);
    assert_eq!(p.state, PlayerState::Idle(0));
    assert_eq!(p.meter, 0);
    assert_eq!(p.position, 0);

    tick(&mut p, 0, false, false);
    assert_eq!(p.state, PlayerState::Idle(1));

    tick(&mut p, 1, false, false);
    assert_eq!(p.state, PlayerState::FWalk(0));

    tick(&mut p, 0, false, false);
    assert_eq!(p.state, PlayerState::Idle(0));

    tick(&mut p, 0, true, false);
    assert_eq!(p.state, PlayerState::NNormal(0, false));
    assert_eq!(p.normal_buff, None);
    assert_eq!(p.special_buff, None);
}

#[test]
fn dash_double_tap_within_window() {
    let mut p = Player::new(0, false);
    tick(&mut p, 1, false, false);
    assert_eq!(p.dash_buff, None);
    assert_eq!(p.fdash_timer, PLAYER_DASH_TIME);

    tick(&mut p, 0, false, false);
    tick(&mut p, 0, false, false);
    assert_eq!(p.fdash_timer, PLAYER_DASH_TIME - 2);

    tick(&mut p, 1, false, false);
    assert!(p.dash_buff.is_some());
    assert_eq!(p.dash_buff.unwrap().movement, 1);
    assert_eq!(p.fdash_timer, 0);
    assert_eq!(p.bdash_timer, 0);
    assert_eq!(p.state, PlayerState::FDash(0));
    assert_eq!(p.get_audio(), Some("fdash"));
}

#[test]
fn dash_double_tap_too_late() {
    let mut p = Player::new(0, false);
    tick(&mut p, 1, false, false);
    for _ in 0..10 {
        tick(&mut p, 0, false, false);
    }
    assert_eq!(p.fdash_timer, 0);

    tick(&mut p, 1, false, false);
    assert_eq!(p.dash_buff, None);
    assert_eq!(p.fdash_timer, PLAYER_DASH_TIME);
}

#[test]
fn dash_backward_mirrors() {
    let mut p = Player::new(0, false);
    tick(&mut p, -1, false, false);
    assert_eq!(p.bdash_timer, PLAYER_DASH_TIME);
    assert_eq!(p.state, PlayerState::BWalk(0));

    tick(&mut p, 0, false, false);
    tick(&mut p, -1, false, false);
    assert_eq!(p.state, PlayerState::BDash(0));
    assert_eq!(p.get_audio(), Some("bdash"));
}

#[test]
fn dash_intervening_backward_edge_cancels() {
    let mut p = Player::new(0, false);
    tick(&mut p, 1, false, false);
    assert_eq!(p.fdash_timer, PLAYER_DASH_TIME);

    tick(&mut p, -1, false, false);
    assert_eq!(p.fdash_timer, 0);
    assert_eq!(p.bdash_timer, PLAYER_DASH_TIME);

    tick(&mut p, 1, false, false);
    assert_eq!(p.dash_buff, None);
    assert_eq!(p.fdash_timer, PLAYER_DASH_TIME);
    assert_eq!(p.bdash_timer, 0);
}

#[test]
fn dash_window_bot_is_shorter() {
    let mut p = Player::new(0, true);
    tick(&mut p, 1, false, false);
    assert_eq!(p.fdash_timer, BOT_DASH_TIME);
    for _ in 0..3 {
        tick(&mut p, 0, false, false);
    }
    tick(&mut p, 1, false, false);
    assert_eq!(p.dash_buff, None);

    let mut q = Player::new(0, true);
    tick(&mut q, 1, false, false);
    tick(&mut q, 0, false, false);
    tick(&mut q, 1, false, false);
    assert_eq!(q.state, PlayerState::FDash(0));
}

#[test]
fn special_requires_exactly_full_meter() {
    let mut p = Player::new(0, false);
    p.inc_meter(999);
    tick(&mut p, 0, false, true);
    assert_eq!(p.state_int(), 0);
    assert_eq!(p.meter, 999);

    let mut q = Player::new(0, false);
    q.inc_meter(1500);
    assert_eq!(q.meter, METER_MAX);
    tick(&mut q, 0, false, true);
    assert_eq!(q.state, PlayerState::NSpecial(0, false));
    assert_eq!(q.meter, 0);
    assert_eq!(q.get_audio(), Some("nspecial"));
    assert!(q.is_special());
}

#[test]
fn heavy_variants_on_directional_press() {
    let mut p = Player::new(0, false);
    p.inc_meter(1000);
    tick(&mut p, 1, false, true);
    assert_eq!(p.state, PlayerState::MSpecial(0, false));
    assert_eq!(p.meter, 0);

    let mut q = Player::new(0, false);
    tick(&mut q, -1, true, false);
    assert_eq!(q.state, PlayerState::MNormal(0, false));
    assert_eq!(q.get_audio(), Some("mnormal"));
}

#[test]
fn special_buffer_outranks_normal_buffer() {
    let mut p = Player::new(0, false);
    p.inc_meter(1000);
    tick(&mut p, 0, true, true);
    assert_eq!(p.state, PlayerState::NSpecial(0, false));

    let mut q = Player::new(0, false);
    tick(&mut q, 0, true, true);
    assert_eq!(q.state, PlayerState::NNormal(0, false));
    assert_eq!(q.meter, 0);
}

#[test]
fn attack_exhaustion_falls_back_to_idle() {
    let mut p = Player::new(0, false);
    tick(&mut p, 0, true, false);
    assert_eq!(p.state, PlayerState::NNormal(0, false));
    for _ in 0..22 {
        tick(&mut p, 0, false, false);
    }
    assert_eq!(p.state, PlayerState::NNormal(22, false));
    tick(&mut p, 0, false, false);
    assert_eq!(p.state, PlayerState::Idle(0));
}

#[test]
fn special_exhaustion_falls_back_to_idle() {
    let mut p = Player::new(0, false);
    p.inc_meter(1000);
    tick(&mut p, 0, false, true);
    assert_eq!(p.state, PlayerState::NSpecial(0, false));
    for _ in 0..41 {
        tick(&mut p, 0, false, false);
    }
    assert_eq!(p.state, PlayerState::NSpecial(41, false));
    tick(&mut p, 0, false, false);
    assert_eq!(p.state, PlayerState::Idle(0));
}

#[test]
fn walk_exhaustion_falls_back_to_idle() {
    let mut p = Player::new(0, false);
    p.state = PlayerState::FWalk(24);
    p.update_move();
    assert_eq!(p.state, PlayerState::Idle(0));
}

#[test]
fn round_reset_preserves_wins_and_halves_meter() {
    let mut p = Player::new(0, false);
    p.wins = 2;
    p.inc_meter(750);
    p.set_input(FgInput::new(1, true, true));
    assert!(p.normal_buff.is_some());

    p.reset(7);
    assert_eq!(p.wins, 2);
    assert_eq!(p.meter, 375);
    assert_eq!(p.position, 7);
    assert_eq!(p.state, PlayerState::Idle(0));
    assert_eq!(p.normal_buff, None);
    assert_eq!(p.special_buff, None);
    assert_eq!(p.dash_buff, None);
    assert_eq!(p.fdash_timer, 0);
    assert_eq!(p.bdash_timer, 0);
    assert_eq!(p.last_dir, 0);
}

#[test]
fn death_states_and_flags() {
    let mut p = Player::new(0, false);
    p.get_attacked(false);
    assert_eq!(p.state, PlayerState::NormalDead(false));
    assert!(p.is_dead());
    assert!(p.newly_dead());
    assert_eq!(p.get_audio(), Some("ender_hit"));
    assert_eq!(p.state_int(), 12);

    tick(&mut p, 0, false, false);
    assert_eq!(p.state, PlayerState::NormalDead(true));
    assert!(p.is_dead());
    assert!(!p.newly_dead());
    assert_eq!(p.get_audio(), None);

    tick(&mut p, 1, true, true);
    assert!(p.is_dead());

    let mut q = Player::new(0, false);
    q.get_attacked(true);
    assert_eq!(q.state, PlayerState::SpecialDead(false));
    assert_eq!(q.state_int(), 13);
}

#[test]
fn hit_confirm_flag() {
    let mut p = Player::new(0, false);
    assert!(!p.get_hit());
    p.set_hit();
    assert!(!p.get_hit());

    tick(&mut p, 0, true, false);
    assert_eq!(p.state, PlayerState::NNormal(0, false));
    p.set_hit();
    assert!(p.get_hit());
    assert_eq!(p.state, PlayerState::NNormal(0, true));
}

#[test]
fn can_attack_only_in_neutral() {
    let mut p = Player::new(0, false);
    assert!(p.can_attack());
    tick(&mut p, 1, false, false);
    assert!(p.can_attack());
    tick(&mut p, 0, true, false);
    assert!(!p.can_attack());
    p.get_attacked(false);
    assert!(!p.can_attack());
}

#[test]
fn recovery_windows() {
    let mut p = Player::new(0, false);
    assert_eq!(p.recovery_punishable(), 0);
    assert_eq!(p.recovery(), 0);

    tick(&mut p, 0, true, false);
    assert_eq!(p.recovery_punishable(), 22);
    assert_eq!(p.recovery(), 22);
    tick(&mut p, 0, false, false);
    assert_eq!(p.recovery_punishable(), 21);

    p.state = PlayerState::FDash(3);
    assert_eq!(p.recovery_punishable(), 12);
    p.state = PlayerState::BDash(2);
    assert_eq!(p.recovery_punishable(), 0);
    assert_eq!(p.recovery(), 19);
}

#[test]
fn position_clamped_to_stage() {
    let mut p = Player::new(100, false);
    p.move_position(-150, 800);
    assert_eq!(p.position, 0);
    p.move_position(900, 800);
    assert_eq!(p.position, 800);
    p.move_position(-10, 800);
    assert_eq!(p.position, 790);
}

#[test]
fn meter_saturates_at_cap() {
    let mut p = Player::new(0, false);
    p.inc_meter(600);
    assert_eq!(p.meter, 600);
    p.inc_meter(600);
    assert_eq!(p.meter, METER_MAX);
}

#[test]
fn buffered_attack_time_to_live() {
    let mut p = Player::new(0, false);
    assert_eq!(p.buff_time(), 0);
    p.set_input(FgInput::new(0, true, false));
    assert_eq!(p.buff_time(), 4);
    p.update_buffer();
    assert_eq!(p.buff_time(), 3);
    p.update_buffer();
    p.update_buffer();
    p.update_buffer();
    assert_eq!(p.buff_time(), 0);
}

#[test]
fn update_move_returns_current_entry() {
    let mut p = Player::new(0, false);
    let m = p.update_move();
    assert_eq!(m.animation_frame, "idle_0");
    assert_eq!(m.duration, 6);
    assert_eq!(m.data.speed, 0);

    tick(&mut p, 1, false, false);
    let m = p.update_move();
    assert_eq!(m.animation_frame, "fwalk_0");
    assert_eq!(m.data.speed, 6);
    assert_eq!(m.data.meter, 3);
}

#[test]
fn get_move_does_not_advance() {
    let mut p = Player::new(0, false);
    p.state = PlayerState::BWalk(5);
    let m = p.get_move();
    assert_eq!(m.animation_frame, "bwalk_1");
    assert_eq!(m.data.speed, -5);
    assert_eq!(p.state, PlayerState::BWalk(5));
}

#[test]
fn state_len_reports_frames() {
    assert_eq!(PlayerState::Idle(7).state_len(), 7);
    assert_eq!(PlayerState::NormalDead(true).state_len(), 0);

    let mut p = Player::new(0, false);
    p.state = PlayerState::MSpecial(9, true);
    assert_eq!(p.state_len(), 9);
    assert_eq!(p.state_int(), 11);
}
