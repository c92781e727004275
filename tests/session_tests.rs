use tray_panel::session::{FetchTrigger, Route, Session};
use tray_panel::vehicle::{find_vehicle, CallFailed, LockCommand, LockFlag, VehicleSummary};

fn vehicle(key: &str, nick: &str) -> VehicleSummary {
    VehicleSummary {
        key: key.to_string(),
        nick_name: nick.to_string(),
        model_name: "Ioniq 5".to_string(),
        trim: "SEL".to_string(),
    }
}

#[test]
fn fetch_fires_on_token_changes_only() {
    let mut t = FetchTrigger::new();
    let seq = [None, Some("tok1".to_string()), Some("tok1".to_string()), Some("tok2".to_string())];
    let fired: Vec<Option<String>> = seq.iter().map(|tok| t.observe(tok)).collect();
    assert_eq!(fired, vec![None, Some("tok1".to_string()), None, Some("tok2".to_string())]);
    assert_eq!(fired.iter().filter(|f| f.is_some()).count(), 2);
}

#[test]
fn fetch_not_fired_when_logged_out() {
    let mut t = FetchTrigger::new();
    assert_eq!(t.observe(&None), None);
    assert_eq!(t.observe(&None), None);
    assert_eq!(t.observe(&Some("a".to_string())), Some("a".to_string()));
}

#[test]
fn home_route_follows_token() {
    let mut s = Session::new();
    assert_eq!(s.home_route(), Route::Login);
    assert_eq!(s.on_login(Ok("tok".to_string())), Ok(Route::Vehicles));
    assert_eq!(s.token, Some("tok".to_string()));
    assert_eq!(s.home_route(), Route::Vehicles);
}

#[test]
fn failed_login_keeps_session() {
    let mut s = Session::new();
    assert_eq!(s.on_login(Err(CallFailed::Remote)), Err(CallFailed::Remote));
    assert_eq!(s.token, None);
    assert_eq!(s.home_route(), Route::Login);
}

#[test]
fn vehicle_list_stored_and_kept_on_failure() {
    let mut s = Session::new();
    assert_eq!(s.on_vehicles(Ok(vec![vehicle("k1", "Blue")])), Ok(()));
    assert_eq!(s.on_vehicles(Err(CallFailed::Remote)), Err(CallFailed::Remote));
    let v = s.vehicles.as_ref().unwrap();
    assert_eq!(v.len(), 1);
    assert_eq!(v[0].key, "k1");
}

#[test]
fn vehicle_label() {
    assert_eq!(vehicle("k1", "Blue").label(), "Blue - Ioniq 5 (SEL)");
}

#[test]
fn find_vehicle_by_key() {
    let vs = vec![vehicle("k1", "A"), vehicle("k2", "B"), vehicle("k2", "C")];
    assert_eq!(find_vehicle(&vs, &"k2".to_string()), Some(1));
    assert_eq!(find_vehicle(&vs, &"k1".to_string()), Some(0));
    assert_eq!(find_vehicle(&vs, &"zz".to_string()), None);
    assert_eq!(find_vehicle(&Vec::new(), &"k1".to_string()), None);
}

#[test]
fn lock_command_success_flips() {
    let mut f = LockFlag::new(true);
    assert_eq!(f.press(), Some(LockCommand::Unlock));
    assert!(f.is_busy());
    assert_eq!(f.press(), None);
    assert_eq!(f.finish(LockCommand::Unlock, Ok(())), Ok(()));
    assert_eq!(f.state, Some(false));
    assert_eq!(f.press(), Some(LockCommand::Lock));
    assert_eq!(f.finish(LockCommand::Lock, Ok(())), Ok(()));
    assert_eq!(f.state, Some(true));
}

#[test]
fn lock_command_failure_resolves_busy() {
    let mut f = LockFlag::new(false);
    assert_eq!(f.press(), Some(LockCommand::Lock));
    assert_eq!(f.finish(LockCommand::Lock, Err(CallFailed::Remote)), Err(CallFailed::Remote));
    assert_eq!(f.state, Some(false));
    assert!(!f.is_busy());
    assert_eq!(f.press(), Some(LockCommand::Lock));
}

#[test]
fn offered_command_follows_flag() {
    let mut f = LockFlag::new(true);
    assert_eq!(f.offered(), Some(LockCommand::Unlock));
    f.press();
    assert_eq!(f.offered(), None);
    f.finish(LockCommand::Unlock, Ok(()));
    assert_eq!(f.offered(), Some(LockCommand::Lock));
}
