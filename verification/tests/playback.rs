use turto::config::{ConfigStore, GuildConfig};
use turto::engine::{advance, enqueue, PlayError};
use turto::metadata::Metadata;
use turto::playlist::Playlist;
use turto::registry::Registry;
use turto::track_end::{reaction, TrackEndAction, TrackEndHandler};

fn item(url: &str, requester: u64) -> Metadata {
    Metadata {
        title: Some(format!("title of {}", url)),
        duration_ms: Some(30_000),
        url: url.to_string(),
        requester,
    }
}

#[test]
fn playlist_pops_in_push_order() {
    let mut p = Playlist::new();
    let a = item("a", 1);
    let b = item("b", 2);
    let c = item("c", 3);
    p.push_back(a.clone());
    p.push_back(b.clone());
    p.push_back(c.clone());
    assert_eq!(p.len(), 3);
    assert_eq!(p.pop_front(), Some(a));
    assert_eq!(p.pop_front(), Some(b));
    assert_eq!(p.pop_front(), Some(c));
    assert_eq!(p.pop_front(), None);
    assert!(p.is_empty());
}

#[test]
fn playlist_empty_state_is_reusable() {
    let mut p = Playlist::new();
    assert!(p.is_empty());
    assert_eq!(p.pop_front(), None);
    let a = item("a", 1);
    p.push_back(a.clone());
    assert_eq!(p.pop_front(), Some(a.clone()));
    assert_eq!(p.pop_front(), None);
    p.push_back(a.clone());
    assert_eq!(p.pop_front(), Some(a));
}

#[test]
fn advance_on_empty_guild_signals_exhaustion() {
    let mut reg = Registry::new();
    let r = advance(&mut reg, 42);
    assert_eq!(r, Err(PlayError::EmptyPlaylist(42)));
    // the guild keeps an (empty) entry and nothing is handed to the backend
    assert!(reg.contains(42));
    assert_eq!(reg.len_of(42), 0);
    // repeatable: still the same signal
    assert_eq!(advance(&mut reg, 42), Err(PlayError::EmptyPlaylist(42)));
}

#[test]
fn advance_removes_exactly_the_oldest() {
    let mut reg = Registry::new();
    let x = item("x", 1);
    let y = item("y", 2);
    reg.push_back(5, x.clone());
    reg.push_back(5, y.clone());
    let r = advance(&mut reg, 5);
    assert_eq!(r, Ok(x));
    assert_eq!(reg.len_of(5), 1);
    // the removed item is not returned by a subsequent pop
    assert_eq!(reg.pop_front(5), Some(y));
    assert_eq!(reg.len_of(5), 0);
}

#[test]
fn entry_creation_is_idempotent() {
    let mut reg = Registry::new();
    assert!(!reg.contains(9));
    reg.ensure_entry(9);
    assert!(reg.contains(9));
    assert_eq!(reg.guild_count(), 1);
    reg.ensure_entry(9);
    assert_eq!(reg.guild_count(), 1);
    assert_eq!(reg.len_of(9), 0);
}

#[test]
fn with_entry_creates_once_and_both_calls_see_the_same_entry() {
    let mut reg = Registry::new();
    assert!(!reg.contains(11));
    let len1: usize = reg.with_entry(11, |p: Playlist| {
        let n = p.len();
        (p, n)
    });
    let len2: usize = reg.with_entry(11, |p: Playlist| {
        let n = p.len();
        (p, n)
    });
    // exactly one entry came into being; both calls observed its state
    assert_eq!(len1, 0);
    assert_eq!(len2, 0);
    assert_eq!(reg.guild_count(), 1);
    assert!(reg.contains(11));
}

#[test]
fn with_entry_hands_the_playlist_whole_to_the_closure() {
    let mut reg = Registry::new();
    let a = item("a", 1);
    let pushed = a.clone();
    reg.with_entry(12, move |mut p: Playlist| {
        p.push_back(pushed);
        (p, ())
    });
    assert_eq!(reg.len_of(12), 1);
    assert_eq!(reg.pop_front(12), Some(a));
}

#[test]
fn config_with_entry_toggles_atomically() {
    let mut cfg = ConfigStore::new();
    let was: bool = cfg.with_entry(13, |c: GuildConfig| {
        let was = c.auto_leave;
        (GuildConfig { auto_leave: !was }, was)
    });
    assert_eq!(was, false);
    assert_eq!(cfg.auto_leave(13), true);
    assert_eq!(cfg.guild_count(), 1);
}

#[test]
fn guilds_are_isolated() {
    let mut reg = Registry::new();
    let a = item("a", 1);
    let b = item("b", 2);
    reg.push_back(1, a.clone());
    reg.push_back(2, b.clone());
    assert_eq!(reg.len_of(1), 1);
    assert_eq!(reg.len_of(2), 1);
    // draining one guild leaves the other untouched
    assert_eq!(reg.pop_front(1), Some(a));
    assert_eq!(reg.len_of(1), 0);
    assert_eq!(reg.len_of(2), 1);
    assert_eq!(reg.pop_front(2), Some(b));
}

#[test]
fn config_entries_are_isolated_per_guild() {
    let mut cfg = ConfigStore::new();
    cfg.set_auto_leave(1, true);
    assert_eq!(cfg.auto_leave(2), false);
    assert_eq!(cfg.auto_leave(1), true);
    cfg.set_auto_leave(2, true);
    cfg.set_auto_leave(1, false);
    assert_eq!(cfg.auto_leave(2), true);
    assert_eq!(cfg.auto_leave(1), false);
}

#[test]
fn config_defaults_to_staying_connected() {
    let mut cfg = ConfigStore::new();
    assert!(!cfg.contains(3));
    assert_eq!(cfg.auto_leave(3), false);
    assert!(cfg.contains(3));
    assert_eq!(cfg.guild_count(), 1);
    // created once; reading again changes nothing
    assert_eq!(cfg.auto_leave(3), false);
    assert_eq!(cfg.guild_count(), 1);
    assert_eq!(GuildConfig::default().auto_leave, false);
    cfg.set_auto_leave(3, true);
    assert_eq!(cfg.auto_leave(3), true);
}

#[test]
fn enqueue_on_idle_empty_guild_starts_it() {
    let mut reg = Registry::new();
    let a = item("a", 1);
    let started = enqueue(&mut reg, 7, a.clone(), false);
    assert_eq!(started, Some(a));
    // the item went straight to the backend: the playlist is empty again
    assert_eq!(reg.len_of(7), 0);
}

#[test]
fn enqueue_during_session_appends_only() {
    let mut reg = Registry::new();
    let a = item("a", 1);
    let b = item("b", 2);
    reg.push_back(7, a.clone());
    let started = enqueue(&mut reg, 7, b.clone(), true);
    assert_eq!(started, None);
    // appended at the back, order kept
    assert_eq!(reg.pop_front(7), Some(a));
    assert_eq!(reg.pop_front(7), Some(b));
}

#[test]
fn exhaustion_with_auto_leave_disconnects() {
    let mut reg = Registry::new();
    let mut cfg = ConfigStore::new();
    cfg.set_auto_leave(8, true);
    let a = item("a", 1);
    // enqueue on the idle guild: the backend is told to start A
    let started = enqueue(&mut reg, 8, a.clone(), false);
    assert_eq!(started, Some(a));
    assert_eq!(reg.len_of(8), 0);
    // the backend signals completion: nothing is left, auto-leave fires
    let handler = TrackEndHandler { guild_id: 8 };
    let act = handler.act(&mut reg, &mut cfg);
    assert_eq!(act, TrackEndAction::Disconnect);
}

#[test]
fn continuation_plays_next_without_disconnect() {
    let mut reg = Registry::new();
    let mut cfg = ConfigStore::new();
    cfg.set_auto_leave(6, false);
    let b = item("b", 1);
    let c = item("c", 2);
    // B starts on an idle guild; C queues behind it during the session
    assert_eq!(enqueue(&mut reg, 6, b.clone(), false), Some(b));
    assert_eq!(enqueue(&mut reg, 6, c.clone(), true), None);
    // B completes: the handler starts C, no disconnect
    let handler = TrackEndHandler { guild_id: 6 };
    let act = handler.act(&mut reg, &mut cfg);
    assert_eq!(act, TrackEndAction::Start(c));
    assert_eq!(reg.len_of(6), 0);
    // C completes: exhausted, auto-leave is off, the session just stays
    let act2 = handler.act(&mut reg, &mut cfg);
    assert_eq!(act2, TrackEndAction::Stay);
}

#[test]
fn reaction_handles_each_outcome() {
    let m = item("m", 1);
    assert_eq!(
        reaction(Ok(m.clone()), false),
        TrackEndAction::Start(m.clone())
    );
    assert_eq!(
        reaction(Err(PlayError::EmptyPlaylist(4)), true),
        TrackEndAction::Disconnect
    );
    assert_eq!(
        reaction(Err(PlayError::EmptyPlaylist(4)), false),
        TrackEndAction::Stay
    );
    // start failures are terminal for the session, never a disconnect
    assert_eq!(reaction(Err(PlayError::Resolution), true), TrackEndAction::Stay);
    assert_eq!(reaction(Err(PlayError::Backend), true), TrackEndAction::Stay);
}

#[test]
fn play_error_classifies_exhaustion() {
    assert!(PlayError::EmptyPlaylist(1).is_empty_playlist());
    assert!(!PlayError::Resolution.is_empty_playlist());
    assert!(!PlayError::Backend.is_empty_playlist());
}

#[test]
fn metadata_moves_through_the_queue_unchanged() {
    let mut reg = Registry::new();
    let m = Metadata {
        title: None,
        duration_ms: None,
        url: "https://example.invalid/stream".to_string(),
        requester: 77,
    };
    reg.push_back(2, m.clone());
    let back = reg.pop_front(2).unwrap();
    assert_eq!(back.title, None);
    assert_eq!(back.duration_ms, None);
    assert_eq!(back.url, "https://example.invalid/stream");
    assert_eq!(back.requester, 77);
}
