use autonomous_game::context::{ContextError, GameState};
use autonomous_game::shared::SharedState;

#[test]
fn shared_state_starts_disconnected() {
    let s = SharedState::new();
    assert_eq!(s.get_sui_address(), "");
    assert_eq!(s.get_player_balance(), 0);
    assert!(!s.get_is_paid());
    assert_eq!(s.get_speed_override(), 0);
}

#[test]
fn set_then_get_balance() {
    let mut s = SharedState::new();
    s.set_player_balance(12_345);
    assert_eq!(s.get_player_balance(), 12_345);
    s.set_player_balance(-7);
    assert_eq!(s.get_player_balance(), -7);
}

#[test]
fn set_then_get_sui_address() {
    let mut s = SharedState::new();
    s.update_sui_address(String::from("0xabc123"));
    assert_eq!(s.get_sui_address(), "0xabc123");
}

#[test]
fn set_then_get_is_paid() {
    let mut s = SharedState::new();
    s.update_is_paid(true);
    assert!(s.get_is_paid());
    s.update_is_paid(false);
    assert!(!s.get_is_paid());
}

#[test]
fn set_then_get_speed_override() {
    let mut s = SharedState::new();
    s.set_speed_override(400);
    assert_eq!(s.get_speed_override(), 400);
}

#[test]
fn writes_touch_only_their_field() {
    let mut s = SharedState::new();
    s.update_sui_address(String::from("0xdead"));
    s.set_player_balance(99);
    s.update_is_paid(true);
    s.set_speed_override(250);
    assert_eq!(s.get_sui_address(), "0xdead");
    assert_eq!(s.get_player_balance(), 99);
    assert!(s.get_is_paid());
    assert_eq!(s.get_speed_override(), 250);
}

#[test]
fn first_caller_becomes_owner() {
    let mut g = GameState::new();
    assert_eq!(g.new_context(7), Ok(()));
    assert!(g.get_context(7).is_ok());
    assert_eq!(g.get_context(7).unwrap().sui_address, "");
}

#[test]
fn non_owner_access_is_fatal() {
    let mut g = GameState::new();
    g.new_context(7).unwrap();
    // A confined read from another execution context fails loudly; the
    // caller is expected to abort on this.
    assert_eq!(g.get_context(8).err(), Some(ContextError::WrongThread));
    assert_eq!(
        g.set_sui_address(8, String::from("0xabc")).err(),
        Some(ContextError::WrongThread)
    );
    // The owner still sees the untouched value.
    assert_eq!(g.get_context(7).unwrap().sui_address, "");
}

#[test]
fn double_initialization_is_fatal() {
    let mut g = GameState::new();
    g.new_context(7).unwrap();
    assert_eq!(g.new_context(7).err(), Some(ContextError::AlreadyInitialized));
    assert_eq!(g.new_context(8).err(), Some(ContextError::WrongThread));
}

#[test]
fn access_before_initialization_is_fatal() {
    let g = GameState::new();
    assert_eq!(g.get_context(7).err(), Some(ContextError::ThreadNotSet));
    let mut g2 = GameState::new();
    g2.set_thread_id(7);
    assert_eq!(g2.get_context(7).err(), Some(ContextError::NotInitialized));
}

#[test]
fn thread_id_is_recorded_once() {
    let mut g = GameState::new();
    g.set_thread_id(7);
    g.set_thread_id(8);
    assert!(g.same_thread(7).is_ok());
    assert_eq!(g.same_thread(8).err(), Some(ContextError::WrongThread));
}

#[test]
fn owner_writes_are_visible_to_owner_reads() {
    let mut g = GameState::new();
    g.new_context(42).unwrap();
    g.set_sui_address(42, String::from("0xfeed")).unwrap();
    assert_eq!(g.get_context(42).unwrap().sui_address, "0xfeed");
}
