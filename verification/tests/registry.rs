use chat_relay::error::AuthError;
use chat_relay::registry::SessionRegistry;
use chat_relay::session::Session;

#[test]
fn new_session_has_no_channel() {
    let session: Session<u32> = Session::new(4);
    assert_eq!(session.unread, 4);
    assert_eq!(session.channel, None);
}

#[test]
fn new_registry_is_empty() {
    let registry: SessionRegistry<u32> = SessionRegistry::new();
    assert_eq!(registry.len(), 0);
    assert!(registry.get("A").is_none());
    assert!(registry.channels().is_empty());
}

#[test]
fn create_or_reset_creates_then_resets() {
    let mut registry: SessionRegistry<u32> = SessionRegistry::new();
    registry.create_or_reset("A", 3);
    assert_eq!(registry.len(), 1);
    assert_eq!(registry.get("A").unwrap().unread, 3);
    assert_eq!(registry.get("A").unwrap().channel, None);

    registry.set_channel("A", 9).unwrap();
    registry.create_or_reset("A", 5);
    assert_eq!(registry.len(), 1);
    assert_eq!(registry.get("A").unwrap().unread, 5);
    assert_eq!(registry.get("A").unwrap().channel, Some(9));

    registry.create_or_reset("B", 0);
    assert_eq!(registry.len(), 2);
    assert_eq!(registry.get("B").unwrap().unread, 0);
    assert_eq!(registry.get("A").unwrap().unread, 5);
}

#[test]
fn set_channel_needs_a_session() {
    let mut registry: SessionRegistry<u32> = SessionRegistry::new();
    assert_eq!(registry.set_channel("A", 1), Err(AuthError::UnknownUser));
    assert_eq!(registry.len(), 0);
    registry.create_or_reset("A", 2);
    assert_eq!(registry.set_channel("A", 1), Ok(()));
    assert_eq!(registry.set_channel("A", 2), Ok(()));
    assert_eq!(registry.get("A").unwrap().channel, Some(2));
    assert_eq!(registry.get("A").unwrap().unread, 2);
    assert_eq!(registry.set_channel("B", 3), Err(AuthError::UnknownUser));
}

#[test]
fn reset_unread_returns_the_old_count() {
    let mut registry: SessionRegistry<u32> = SessionRegistry::new();
    assert_eq!(registry.reset_unread("A"), Err(AuthError::UnknownUser));
    registry.create_or_reset("A", 7);
    registry.create_or_reset("B", 4);
    registry.set_channel("A", 1).unwrap();
    assert_eq!(registry.reset_unread("A"), Ok(7));
    assert_eq!(registry.get("A").unwrap().unread, 0);
    assert_eq!(registry.get("A").unwrap().channel, Some(1));
    assert_eq!(registry.get("B").unwrap().unread, 4);
    assert_eq!(registry.reset_unread("A"), Ok(0));
}

#[test]
fn for_each_mut_reaches_every_session() {
    let mut registry: SessionRegistry<u32> = SessionRegistry::new();
    registry.create_or_reset("A", 1);
    registry.create_or_reset("B", 2);
    registry.create_or_reset("C", 3);
    registry.set_channel("B", 8).unwrap();
    registry.for_each_mut(|s: Session<u32>| Session { unread: s.unread * 10, channel: s.channel });
    assert_eq!(registry.get("A").unwrap().unread, 10);
    assert_eq!(registry.get("B").unwrap().unread, 20);
    assert_eq!(registry.get("C").unwrap().unread, 30);
    assert_eq!(registry.get("B").unwrap().channel, Some(8));
    assert_eq!(registry.get("A").unwrap().channel, None);
    assert_eq!(registry.len(), 3);
}

#[test]
fn channels_lists_bound_connections_in_order_of_registration() {
    let mut registry: SessionRegistry<u32> = SessionRegistry::new();
    registry.create_or_reset("A", 0);
    registry.create_or_reset("B", 0);
    registry.create_or_reset("C", 0);
    registry.set_channel("C", 3).unwrap();
    assert_eq!(registry.channels(), vec![&3]);
    registry.set_channel("A", 1).unwrap();
    assert_eq!(registry.channels(), vec![&1, &3]);
    registry.set_channel("C", 4).unwrap();
    assert_eq!(registry.channels(), vec![&1, &4]);
}

#[test]
fn many_users_are_all_found() {
    let mut registry: SessionRegistry<usize> = SessionRegistry::new();
    for i in 0..200 {
        let name = format!("user-{}", i);
        registry.create_or_reset(&name, i);
        registry.set_channel(&name, i * 2).unwrap();
    }
    assert_eq!(registry.len(), 200);
    for i in 0..200 {
        let name = format!("user-{}", i);
        assert_eq!(registry.get(&name).unwrap().unread, i);
        assert_eq!(registry.get(&name).unwrap().channel, Some(i * 2));
    }
    let handles = registry.channels();
    assert_eq!(handles.len(), 200);
    for i in 0..200 {
        assert_eq!(*handles[i], i * 2);
    }
}
