use lanyarrs::api::socket::{
    hello_message, init_state_message, is_zero, presence_update_message, SessionAction,
    SessionPhase, SocketEvent, SocketOpcode, SocketSession, UpdateForwarder,
    HEARTBEAT_INTERVAL_MS, HEARTBEAT_TIMEOUT_NS, INIT_STATE, PRESENCE_UPDATE,
};
use lanyarrs::api::types::{ResponseData, ResponseSpotify};
use lanyarrs::api::user::{
    presence_or_status, user_or_status, validate_user_id, UserResponse, INVALID_ID_MSG,
};
use lanyarrs::api::utils::{found, is_active, ok_or_status, StatusCode};
use lanyarrs::discord::{
    Activity, ActivityType, Assets, ClientStatus, Opcode, Presence, PresenceUser, Timestamps,
    User,
};
use lanyarrs::text::{str_eq, strip_prefix};

fn user(id: &str) -> User {
    User {
        id: id.to_string(),
        username: "alice".to_string(),
        discriminator: "0".to_string(),
        global_name: Some("Alice".to_string()),
        avatar: None,
        bot: None,
        public_flags: None,
        avatar_decoration_data: None,
        collectibles: None,
        primary_guild: None,
        display_name_styles: None,
    }
}

fn activity(kind: ActivityType, id: Option<&str>) -> Activity {
    Activity {
        name: "Spotify".to_string(),
        kind,
        url: None,
        created_at: 1700000000000,
        timestamps: Some(Timestamps { start: Some(10), end: Some(20) }),
        status_display_type: None,
        details: Some("Song".to_string()),
        details_url: None,
        state: Some("Artist".to_string()),
        state_url: None,
        emoji: None,
        party: None,
        assets: Some(Assets {
            large_image: Some("spotify:ab67616d0000b273".to_string()),
            large_text: Some("Album".to_string()),
            large_url: None,
            small_image: None,
            small_text: None,
            small_url: None,
            invite_cover_image: None,
        }),
        secrets: None,
        instance: None,
        flags: None,
        buttons: None,
        sync_id: Some("track123".to_string()),
        id: id.map(|s| s.to_string()),
    }
}

fn presence(activities: Vec<Activity>, status: ClientStatus) -> Presence {
    Presence {
        user: PresenceUser { id: "123".to_string() },
        guild_id: Some("1".to_string()),
        status: "online".to_string(),
        activities,
        client_status: status,
    }
}

#[test]
fn is_active_only_absent_or_offline_is_inactive() {
    assert!(!is_active(None));
    assert!(!is_active(Some("offline")));
    assert!(is_active(Some("online")));
    assert!(is_active(Some("idle")));
    assert!(is_active(Some("dnd")));
    assert!(is_active(Some("")));
    assert!(is_active(Some("Offline")));
}

#[test]
fn ok_or_status_maps_each_outcome() {
    let ok: Result<Option<u32>, ()> = Ok(Some(5));
    assert_eq!(ok_or_status(ok, "nf", "err"), Ok(5));
    let missing: Result<Option<u32>, ()> = Ok(None);
    assert_eq!(
        ok_or_status(missing, "nf", "err"),
        Err((StatusCode::NotFound, "nf".to_string()))
    );
    let failed: Result<Option<u32>, ()> = Err(());
    assert_eq!(
        ok_or_status(failed, "nf", "err"),
        Err((StatusCode::InternalServerError, "err".to_string()))
    );
}

#[test]
fn status_codes_have_their_numbers() {
    assert_eq!(StatusCode::BadRequest.as_u16(), 400);
    assert_eq!(StatusCode::NotFound.as_u16(), 404);
    assert_eq!(StatusCode::InternalServerError.as_u16(), 500);
}

#[test]
fn found_keeps_only_present_values() {
    assert_eq!(found::<u8, ()>(Ok(Some(3))), Some(3));
    assert_eq!(found::<u8, ()>(Ok(None)), None);
    assert_eq!(found::<u8, ()>(Err(())), None);
}

#[test]
fn text_helpers() {
    assert!(str_eq("abc", "abc"));
    assert!(!str_eq("abc", "abd"));
    assert!(!str_eq("abc", "ab"));
    assert!(str_eq("", ""));
    assert!(str_eq("żółw", "żółw"));
    assert_eq!(strip_prefix("spotify:xyz", "spotify:"), Some("xyz".to_string()));
    assert_eq!(strip_prefix("spotify:", "spotify:"), Some(String::new()));
    assert_eq!(strip_prefix("spot", "spotify:"), None);
    assert_eq!(strip_prefix("mp:external/x", "spotify:"), None);
}

#[test]
fn discord_opcodes_round_trip() {
    let all = [
        (Opcode::Dispatch, 0),
        (Opcode::Heartbeat, 1),
        (Opcode::Identify, 2),
        (Opcode::PresenceUpdate, 3),
        (Opcode::Hello, 10),
        (Opcode::HeartbeatAck, 11),
    ];
    for (op, code) in all {
        assert_eq!(op.code(), code);
        assert_eq!(Opcode::from_code(code as i64), Some(op));
    }
    assert_eq!(Opcode::from_code(4), None);
    assert_eq!(Opcode::from_code(-1), None);
    assert_eq!(Opcode::from_code(1 << 40), None);
}

#[test]
fn spotify_from_complete_activity() {
    let p = presence(
        vec![
            activity(ActivityType::Playing, Some("spotify:1")),
            activity(ActivityType::Listening, Some("other")),
            activity(ActivityType::Listening, Some("spotify:1")),
        ],
        ClientStatus::empty(),
    );
    let s = ResponseSpotify::from_presence(&p).expect("song");
    assert_eq!(s.track_id, "track123");
    assert_eq!(s.song, "Song");
    assert_eq!(s.artist, "Artist");
    assert_eq!(s.album, "Album");
    assert_eq!(s.album_art_url, "https://i.scdn.co/image/ab67616d0000b273");
    assert_eq!(s.timestamps.start, Some(10));
    assert_eq!(s.timestamps.end, Some(20));
}

#[test]
fn spotify_needs_every_detail_of_the_first_spotify_activity() {
    let mut incomplete = activity(ActivityType::Listening, Some("spotify:1"));
    incomplete.timestamps = None;
    let complete = activity(ActivityType::Listening, Some("spotify:1"));
    let p = presence(vec![incomplete, complete], ClientStatus::empty());
    assert!(ResponseSpotify::from_presence(&p).is_none());

    let mut odd_image = activity(ActivityType::Listening, Some("spotify:1"));
    odd_image.assets.as_mut().unwrap().large_image = Some("mp:external/abc".to_string());
    let p = presence(vec![odd_image], ClientStatus::empty());
    assert!(ResponseSpotify::from_presence(&p).is_none());

    let mut no_album = activity(ActivityType::Listening, Some("spotify:1"));
    no_album.assets.as_mut().unwrap().large_text = None;
    let p = presence(vec![no_album], ClientStatus::empty());
    assert!(ResponseSpotify::from_presence(&p).is_none());

    let p = presence(vec![], ClientStatus::empty());
    assert!(ResponseSpotify::from_presence(&p).is_none());
}

#[test]
fn build_summarizes_platforms_and_song() {
    let status = ClientStatus {
        desktop: Some("online".to_string()),
        mobile: Some("offline".to_string()),
        web: None,
        embedded: Some("idle".to_string()),
        vr: Some("dnd".to_string()),
    };
    let p = presence(vec![activity(ActivityType::Listening, Some("spotify:1"))], status);
    let d = ResponseData::build(user("123"), p);
    assert!(d.active_on_discord_desktop);
    assert!(!d.active_on_discord_mobile);
    assert!(!d.active_on_discord_web);
    assert!(d.active_on_discord_embedded);
    assert!(d.active_on_discord_vr);
    assert!(d.listening_to_spotify);
    assert_eq!(d.spotify.as_ref().unwrap().song, "Song");
    assert_eq!(d.discord_user.id, "123");
    assert_eq!(d.discord_status, "online");
    assert_eq!(d.activities.len(), 1);
}

#[test]
fn listening_flag_matches_song() {
    let p = presence(vec![activity(ActivityType::Playing, None)], ClientStatus::empty());
    let d = ResponseData::build(user("9"), p);
    assert!(!d.listening_to_spotify);
    assert!(d.spotify.is_none());
    assert!(!d.active_on_discord_desktop);
}

#[test]
fn user_response_is_successful() {
    let p = presence(vec![], ClientStatus::empty());
    let r = UserResponse::build(user("77"), p);
    assert!(r.success);
    assert_eq!(r.data.discord_user.id, "77");
}

#[test]
fn user_ids_have_seventeen_to_nineteen_digits() {
    assert!(validate_user_id("12345678901234567").is_ok());
    assert!(validate_user_id("1234567890123456789").is_ok());
    let bad = Err((StatusCode::BadRequest, INVALID_ID_MSG.to_string()));
    assert_eq!(validate_user_id("1234567890123456"), bad);
    assert_eq!(validate_user_id("12345678901234567890"), bad);
    assert_eq!(validate_user_id("1234567890123456a"), bad);
    assert_eq!(validate_user_id(""), bad);
    assert_eq!(validate_user_id("12345678901234567\n"), bad);
}

#[test]
fn lookups_answer_with_their_messages() {
    let r = user_or_status::<()>(Ok(None));
    assert_eq!(r.unwrap_err(), (StatusCode::NotFound, "User not found".to_string()));
    let r = user_or_status::<()>(Err(()));
    assert_eq!(
        r.unwrap_err(),
        (StatusCode::InternalServerError, "Failed to get user".to_string())
    );
    let r = user_or_status::<()>(Ok(Some(user("5"))));
    assert_eq!(r.unwrap().id, "5");
    let r = presence_or_status::<()>(Ok(None));
    assert_eq!(r.unwrap_err(), (StatusCode::NotFound, "Presence not found".to_string()));
    let r = presence_or_status::<()>(Err(()));
    assert_eq!(
        r.unwrap_err(),
        (StatusCode::InternalServerError, "Failed to get presence".to_string())
    );
}

#[test]
fn socket_opcodes_and_messages() {
    assert_eq!(SocketOpcode::Event.code(), 0);
    assert_eq!(SocketOpcode::Hello.code(), 1);
    assert_eq!(SocketOpcode::Initialize.code(), 2);
    assert_eq!(SocketOpcode::Heartbeat.code(), 3);
    assert_eq!(SocketOpcode::Unsubscribe.code(), 4);
    assert_eq!(SocketOpcode::from_code(3), Some(SocketOpcode::Heartbeat));
    assert_eq!(SocketOpcode::from_code(5), None);
    let h = hello_message();
    assert_eq!(h.op, SocketOpcode::Hello);
    assert_eq!(h.t, None);
    assert_eq!(h.seq, 0);
    assert_eq!(h.d.heartbeat_interval, 10000);
    assert_eq!(HEARTBEAT_INTERVAL_MS, 10000);
    let d = ResponseData::build(user("1"), presence(vec![], ClientStatus::empty()));
    let m = init_state_message(d.clone());
    assert_eq!(m.t, Some(INIT_STATE));
    assert_eq!(m.seq, 1);
    let m = presence_update_message(7, d);
    assert_eq!(m.t, Some(PRESENCE_UPDATE));
    assert_eq!(m.seq, 7);
    assert!(is_zero(&0));
    assert!(!is_zero(&1));
    assert!(!is_zero(&-1));
}

fn text(now_ns: u64, op: u64, id: Option<&str>) -> SocketEvent {
    SocketEvent::Text { now_ns, op, subscribe_to_id: id.map(|s| s.to_string()) }
}

#[test]
fn handshake_subscribes_on_initialize() {
    let mut s = SocketSession::new(0);
    assert_eq!(s.step(SocketEvent::OtherFrame), SessionAction::Continue);
    assert_eq!(s.step(text(5, 3, None)), SessionAction::Continue);
    assert_eq!(s.last_heartbeat_ns, 5);
    assert_eq!(s.step(text(6, 2, Some("42"))), SessionAction::Subscribe("42".to_string()));
    assert_eq!(s.phase, SessionPhase::Subscribed);
}

#[test]
fn handshake_closes_on_anything_else() {
    for e in [
        text(1, 2, None),
        text(1, 0, None),
        text(1, 4, Some("42")),
        text(1, 9, None),
        SocketEvent::Undecodable,
        SocketEvent::Closed,
        SocketEvent::Failed,
    ] {
        let mut s = SocketSession::new(0);
        assert_eq!(s.step(e), SessionAction::Close);
        assert_eq!(s.phase, SessionPhase::Closed);
    }
}

#[test]
fn subscribed_session_ignores_noise_and_leaves_on_unsubscribe() {
    let mut s = SocketSession::new(0);
    s.step(text(1, 2, Some("42")));
    assert_eq!(s.step(SocketEvent::Undecodable), SessionAction::Continue);
    assert_eq!(s.step(text(2, 0, None)), SessionAction::Continue);
    assert_eq!(s.step(text(2, 2, Some("43"))), SessionAction::Continue);
    assert_eq!(s.step(text(2, 9, None)), SessionAction::Continue);
    assert_eq!(s.phase, SessionPhase::Subscribed);
    assert_eq!(s.step(text(3, 4, None)), SessionAction::Close);
    assert_eq!(s.phase, SessionPhase::Closed);
    assert_eq!(s.step(text(4, 2, Some("42"))), SessionAction::Close);
    assert_eq!(s.phase, SessionPhase::Closed);
}

#[test]
fn heartbeat_timeout_is_strict() {
    let mut s = SocketSession::new(100);
    assert_eq!(s.step(SocketEvent::Tick { now_ns: 100 + HEARTBEAT_TIMEOUT_NS }), SessionAction::Continue);
    assert_eq!(s.step(SocketEvent::Tick { now_ns: 101 + HEARTBEAT_TIMEOUT_NS }), SessionAction::Close);

    let mut s = SocketSession::new(0);
    s.step(text(10, 2, Some("1")));
    s.step(text(HEARTBEAT_TIMEOUT_NS, 3, None));
    assert_eq!(s.step(SocketEvent::Tick { now_ns: 2 * HEARTBEAT_TIMEOUT_NS }), SessionAction::Continue);
    assert_eq!(s.step(SocketEvent::Tick { now_ns: 2 * HEARTBEAT_TIMEOUT_NS + 1 }), SessionAction::Close);
}

#[test]
fn forwarded_updates_count_up_from_the_initial_state() {
    let mut f = UpdateForwarder::new();
    assert_eq!(f.sequence(), 1);
    assert_eq!(f.next_sequence(), 2);
    assert_eq!(f.next_sequence(), 3);
    assert_eq!(f.sequence(), 3);
}
