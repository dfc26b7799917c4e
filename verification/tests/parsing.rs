use audio_idle_inhibit::audio::listing_reports_uncorked;
use audio_idle_inhibit::events::is_wake_event;
use audio_idle_inhibit::registry::bind_globals;
use audio_idle_inhibit::registry::BindError;
use audio_idle_inhibit::registry::GlobalEntry;
use audio_idle_inhibit::text::contains_str;
use audio_idle_inhibit::text::match_at;
use audio_idle_inhibit::text::str_eq;

fn global(name: u32, interface: &str, version: u32) -> GlobalEntry {
    GlobalEntry {
        name,
        interface: String::from(interface),
        version,
    }
}

#[test]
fn filter_accepts_only_stream_change_events() {
    assert!(!is_wake_event("Event 'change' on client #3"));
    assert!(!is_wake_event("Event 'new' on sink-input #1"));
    assert!(is_wake_event("Event 'change' on sink-input #1"));
    assert!(is_wake_event("Event 'change' on source-output #2"));
}

#[test]
fn filter_discards_noise_lines() {
    assert!(!is_wake_event(""));
    assert!(!is_wake_event("Event 'change' on "));
    assert!(!is_wake_event("Event 'remove' on source-output #2"));
    assert!(!is_wake_event("Event 'change' on sink #0"));
    assert!(!is_wake_event("something else entirely"));
}

#[test]
fn filter_accepts_any_stream_id() {
    assert!(is_wake_event("Event 'change' on sink-input #42"));
    assert!(is_wake_event("Event 'change' on source-output"));
}

#[test]
fn listing_with_uncorked_stream_reports_active() {
    let listing = "Sink Input #7\n\tCorked: no\n\tMute: no\n";
    assert!(listing_reports_uncorked(listing));
}

#[test]
fn listing_with_only_corked_streams_reports_idle() {
    let listing = "Sink Input #7\n\tCorked: yes\n\tMute: no\n";
    assert!(!listing_reports_uncorked(listing));
    assert!(!listing_reports_uncorked(""));
    assert!(!listing_reports_uncorked("no streams at all"));
}

#[test]
fn text_search_finds_patterns() {
    assert!(contains_str("abcdef", "cde"));
    assert!(contains_str("abcdef", "abcdef"));
    assert!(contains_str("abcdef", ""));
    assert!(contains_str("abcdef", "f"));
    assert!(!contains_str("abcdef", "fg"));
    assert!(!contains_str("", "a"));
    assert!(match_at("abcdef", "cd", 2));
    assert!(!match_at("abcdef", "cd", 3));
    assert!(!match_at("abcdef", "ef", 5));
    assert!(str_eq("same", "same"));
    assert!(!str_eq("same", "sama"));
    assert!(!str_eq("same", "sam"));
}

#[test]
fn binder_binds_both_capabilities() {
    let globals = vec![
        global(1, "wl_shm", 1),
        global(2, "wl_compositor", 4),
        global(3, "zwp_idle_inhibit_manager_v1", 1),
    ];
    let bindings = bind_globals(&globals).unwrap();
    assert_eq!(bindings.compositor.name, 2);
    assert_eq!(bindings.compositor.version, 4);
    assert_eq!(bindings.idle_inhibit_manager.name, 3);
    assert_eq!(bindings.idle_inhibit_manager.version, 1);
}

#[test]
fn binder_first_advertisement_wins() {
    let globals = vec![
        global(5, "wl_compositor", 1),
        global(6, "wl_compositor", 3),
        global(7, "zwp_idle_inhibit_manager_v1", 1),
        global(8, "zwp_idle_inhibit_manager_v1", 2),
    ];
    let bindings = bind_globals(&globals).unwrap();
    assert_eq!(bindings.compositor.name, 5);
    assert_eq!(bindings.idle_inhibit_manager.name, 7);
}

#[test]
fn binder_fails_without_idle_inhibit_manager() {
    let globals = vec![global(1, "wl_compositor", 1), global(2, "wl_shm", 1)];
    assert_eq!(
        bind_globals(&globals),
        Err(BindError::MissingIdleInhibitManager)
    );
}

#[test]
fn binder_fails_without_compositor() {
    let globals = vec![global(1, "zwp_idle_inhibit_manager_v1", 1)];
    assert_eq!(bind_globals(&globals), Err(BindError::MissingCompositor));
}

#[test]
fn binder_fails_on_empty_registry() {
    let globals = Vec::new();
    assert_eq!(
        bind_globals(&globals),
        Err(BindError::MissingIdleInhibitManager)
    );
}

#[test]
fn binder_fails_fast_on_low_version() {
    let globals = vec![
        global(1, "wl_compositor", 0),
        global(2, "zwp_idle_inhibit_manager_v1", 1),
    ];
    assert_eq!(bind_globals(&globals), Err(BindError::CompositorVersionTooLow));
    let globals = vec![
        global(1, "wl_compositor", 1),
        global(2, "zwp_idle_inhibit_manager_v1", 0),
    ];
    assert_eq!(
        bind_globals(&globals),
        Err(BindError::IdleInhibitManagerVersionTooLow)
    );
}
