use san_andreas_unbound::session::{
    load_player_info, FailedLogin, InfoLoad, KickReason, PlayerInfo, Position, SanAndreasUnbound,
    DEFAULT_SKIN, MAX_LOGIN_ATTEMPTS,
};

fn pos(x: f32, y: f32, z: f32) -> Position {
    Position { x: x.to_bits(), y: y.to_bits(), z: z.to_bits() }
}

#[test]
fn third_failed_login_kicks() {
    let mut g = SanAndreasUnbound::new();
    assert_eq!(MAX_LOGIN_ATTEMPTS, 3);
    assert_eq!(g.on_login_attempt_failed(4), FailedLogin::Warn { attempts: 1 });
    assert_eq!(g.on_login_attempt_failed(4), FailedLogin::Warn { attempts: 2 });
    assert_eq!(g.on_login_attempt_failed(4), FailedLogin::Kick);
    // further failures before the kick lands only warn
    assert_eq!(g.on_login_attempt_failed(4), FailedLogin::Warn { attempts: 4 });
    assert_eq!(g.login_attempts(4), 4);
}

#[test]
fn login_and_connect_reset_the_count() {
    let mut g = SanAndreasUnbound::new();
    g.on_login_attempt_failed(1);
    g.on_login_attempt_failed(1);
    g.on_player_login(1);
    assert_eq!(g.login_attempts(1), 0);
    assert_eq!(g.on_login_attempt_failed(1), FailedLogin::Warn { attempts: 1 });
    g.on_player_connect(1);
    assert_eq!(g.login_attempts(1), 0);
}

#[test]
fn failures_count_per_player() {
    let mut g = SanAndreasUnbound::new();
    g.on_login_attempt_failed(1);
    g.on_login_attempt_failed(1);
    assert_eq!(g.on_login_attempt_failed(2), FailedLogin::Warn { attempts: 1 });
    assert_eq!(g.login_attempts(1), 2);
}

#[test]
fn spawn_needs_login() {
    let mut g = SanAndreasUnbound::new();
    assert_eq!(g.on_player_spawn(0), None);
    assert!(!g.on_player_request_class(0));
    let info = PlayerInfo { account_id: 11, skin: 100, pos: pos(1.0, 2.0, 3.0) };
    g.on_player_info_loaded(0, info);
    assert!(g.is_authenticated(0));
    assert!(g.on_player_request_class(0));
    assert_eq!(g.on_player_spawn(0), Some(info));
    assert_eq!(g.on_player_disconnect(0), Some(info));
    assert_eq!(g.on_player_spawn(0), None);
    assert_eq!(g.on_player_disconnect(0), None);
}

#[test]
fn death_moves_the_stored_position() {
    let mut g = SanAndreasUnbound::new();
    let info = PlayerInfo { account_id: 5, skin: 7, pos: pos(0.0, 0.0, 0.0) };
    g.on_player_info_loaded(3, info);
    g.on_player_death(3, pos(10.5, -4.0, 12.25));
    let now = g.on_player_spawn(3).unwrap();
    assert_eq!(now.account_id, 5);
    assert_eq!(now.skin, 7);
    assert_eq!(f32::from_bits(now.pos.x), 10.5);
    assert_eq!(f32::from_bits(now.pos.y), -4.0);
    assert_eq!(f32::from_bits(now.pos.z), 12.25);
    // a player who is not logged in has nothing to update
    g.on_player_death(8, pos(1.0, 1.0, 1.0));
    assert_eq!(g.on_player_spawn(8), None);
}

#[test]
fn stored_info_takes_the_last_row() {
    let rows = vec![(20, pos(1.0, 1.0, 1.0)), (21, pos(2.0, 2.0, 2.0))];
    let r = load_player_info(9, &rows, pos(5.0, 5.0, 5.0));
    assert_eq!(r, InfoLoad::Stored(PlayerInfo { account_id: 9, skin: 21, pos: pos(2.0, 2.0, 2.0) }));
}

#[test]
fn missing_info_is_created_at_current_position() {
    let r = load_player_info(9, &Vec::new(), pos(5.0, 6.0, 7.0));
    assert_eq!(DEFAULT_SKIN, 230);
    assert_eq!(r, InfoLoad::Created(PlayerInfo { account_id: 9, skin: 230, pos: pos(5.0, 6.0, 7.0) }));
}

#[test]
fn kick_reason_texts() {
    assert_eq!(KickReason::FailedLogins.text(), "Multiple failed attempts to login");
    assert_eq!(KickReason::AuthorizationCancelled.text(), "Didn't login to their account");
    assert_eq!(KickReason::NotLoggedIn.text(), "Not logged in");
}
