use player_state::{
    BorrowConflict, DeathReason, EntityExtension, Flags, Hint, InvalidStateError, Player,
    PlayerId, PlayerTuple, Point, Status, TeamId,
};
use std::time::Instant;

fn index_of(status: &Status) -> Option<usize> {
    match status {
        Status::Alive { entity_index, .. } => Some(*entity_index),
        _ => None,
    }
}

fn dead_status() -> Status {
    Status::Dead {
        reason: DeathReason::Weapon(PlayerId(4)),
        position: Point { x: 1.5f32.to_bits(), y: (-2.0f32).to_bits() },
        time: Instant::now(),
        visual_range: 300.0f32.to_bits(),
    }
}

#[test]
fn fresh_player_is_spawning() {
    let p = Player::new(PlayerId(1));
    assert!(!p.status.is_alive());
    assert!(matches!(p.status, Status::Spawning { .. }));
    assert_eq!(p.player_id, PlayerId(1));
    assert_eq!(p.score, 0);
    assert_eq!(p.team_id, None);
    assert_eq!(p.flags, Flags::default());
    assert_eq!(p.hint, Hint::default());
}

#[test]
fn new_alive_reports_alive_with_index() {
    let s = Status::new_alive(42);
    assert!(s.is_alive());
    assert_eq!(index_of(&s), Some(42));
    match s {
        Status::Alive { aim_target, .. } => assert_eq!(aim_target, None),
        _ => panic!("not alive"),
    }
}

#[test]
fn set_entity_index_refuses_spawning() {
    let mut s = Status::Spawning { time: Instant::now() };
    let before = format!("{:?}", s);
    assert_eq!(s.try_set_entity_index(9), Err(InvalidStateError));
    assert!(matches!(s, Status::Spawning { .. }));
    assert_eq!(format!("{:?}", s), before);
}

#[test]
fn set_entity_index_refuses_dead() {
    let mut s = dead_status();
    let before = format!("{:?}", s);
    assert_eq!(s.try_set_entity_index(9), Err(InvalidStateError));
    assert!(!s.is_alive());
    assert_eq!(format!("{:?}", s), before);
}

#[test]
fn set_entity_index_keeps_aim_and_time() {
    let time = Instant::now();
    let aim = Some(Point { x: 3.0f32.to_bits(), y: 4.0f32.to_bits() });
    let mut s = Status::Alive { entity_index: 1, aim_target: aim, time };
    s.set_entity_index(2);
    match s {
        Status::Alive { entity_index, aim_target, time: t } => {
            assert_eq!(entity_index, 2);
            assert_eq!(aim_target, aim);
            assert_eq!(t, time);
        }
        _ => panic!("not alive"),
    }
}

#[test]
fn joining_first_team_leaves_flag_clear() {
    let mut p = Player::new(PlayerId(2));
    p.change_team(Some(TeamId(10)));
    assert!(!p.flags.left_populated_team);
    assert_eq!(p.team_id, Some(TeamId(10)));
}

#[test]
fn switching_team_sets_flag() {
    let mut p = Player::new(PlayerId(2));
    p.change_team(Some(TeamId(10)));
    p.change_team(Some(TeamId(11)));
    assert!(p.flags.left_populated_team);
    assert!(!p.flags.left_game);
    assert!(!p.flags.upgraded);
    assert_eq!(p.team_id, Some(TeamId(11)));
}

#[test]
fn leaving_team_sets_flag() {
    let mut p = Player::new(PlayerId(2));
    p.team_id = Some(TeamId(10));
    p.change_team(None);
    assert!(p.flags.left_populated_team);
    assert_eq!(p.team_id, None);
}

#[test]
fn no_team_to_no_team_leaves_flag_clear() {
    let mut p = Player::new(PlayerId(2));
    p.score = 17;
    p.change_team(None);
    assert!(!p.flags.left_populated_team);
    assert_eq!(p.team_id, None);
    assert_eq!(p.score, 17);
}

#[test]
fn default_flags_are_clear() {
    let f = Flags::default();
    assert!(!f.left_game);
    assert!(!f.left_populated_team);
    assert!(!f.upgraded);
}

#[test]
fn default_hint_is_unset() {
    assert_eq!(Hint::default().aspect, 0);
}

#[test]
fn tuples_are_equal_only_to_themselves() {
    let a = PlayerTuple::new(PlayerId(5));
    let b = PlayerTuple::new(PlayerId(5));
    assert!(a != b);
    assert!(b != a);
    assert!(a == a);
    assert!(b == b);
}

#[test]
fn tuple_holds_fresh_player() {
    let t = PlayerTuple::new(PlayerId(6));
    let p = t.borrow().unwrap();
    assert_eq!(p.player_id, PlayerId(6));
    assert!(matches!(p.status, Status::Spawning { .. }));
    assert_eq!(p.score, 0);
    assert_eq!(p.team_id, None);
    assert_eq!(p.flags, Flags::default());
    assert_eq!(p.hint, Hint::default());
}

#[test]
fn try_set_entity_index_moves_living_avatar() {
    let mut s = Status::new_alive(1);
    assert_eq!(s.try_set_entity_index(4), Ok(()));
    assert_eq!(index_of(&s), Some(4));
    assert!(s.is_alive());
}

#[test]
fn mutable_borrow_excludes_other_borrows() {
    let t = PlayerTuple::new(PlayerId(8));
    {
        let mut w = t.borrow_mut().unwrap();
        w.score = 12;
        assert_eq!(t.borrow().err(), Some(BorrowConflict::MutablyBorrowed));
        assert_eq!(t.borrow_mut().err(), Some(BorrowConflict::Borrowed));
    }
    assert_eq!(t.borrow().unwrap().score, 12);
}

#[test]
fn shared_borrows_coexist_and_exclude_writer() {
    let t = PlayerTuple::new(PlayerId(8));
    let r1 = t.borrow().unwrap();
    let r2 = t.borrow().unwrap();
    assert_eq!(r1.player_id, r2.player_id);
    assert_eq!(t.borrow_mut().err(), Some(BorrowConflict::Borrowed));
    drop(r1);
    drop(r2);
    assert!(t.borrow_mut().is_ok());
}

#[test]
fn extension_starts_blank_and_keeps_writes() {
    let mut t = PlayerTuple::new(PlayerId(9));
    assert_eq!(t.unsafe_extension().altitude, 0);
    assert!(t.unsafe_extension().reloads.is_empty());
    {
        let e = t.unsafe_extension_mut();
        e.altitude = -3;
        e.reloads.push(true);
    }
    assert_eq!(t.unsafe_extension().altitude, -3);
    assert_eq!(t.unsafe_extension().reloads, vec![true]);
    let blank = EntityExtension::default();
    assert_eq!(blank.altitude, 0);
}

#[test]
fn lifecycle_end_to_end() {
    let t = PlayerTuple::new(PlayerId(7));
    let mut p = t.borrow_mut().unwrap();
    assert!(matches!(p.status, Status::Spawning { .. }));
    p.status = Status::new_alive(3);
    assert!(p.status.is_alive());
    assert_eq!(index_of(&p.status), Some(3));
    p.status.set_entity_index(5);
    assert_eq!(index_of(&p.status), Some(5));
    p.status = dead_status();
    assert!(!p.status.is_alive());
    assert_eq!(index_of(&p.status), None);
}

fn require_send_sync<T: Send + Sync>() {}

#[test]
fn tuple_is_shareable_between_threads() {
    require_send_sync::<PlayerTuple>();
    require_send_sync::<Player>();
}
