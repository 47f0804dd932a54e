use oaytmd::error::Error;
use oaytmd::models::request::CommandRequest;
use oaytmd::models::response::{Player, Queue, StateResponse, WebsocketEvent};
use oaytmd::models::shared::{LikeStatus, RepeatMode, TrackState, VideoType};
use oaytmd::plugin::actions::{
    send_command, CommandOutcome, NextAction, PlayPauseAction, RepeatAction, RepeatFollowup,
    VolumeControlAction, VolumeControlActionSettings,
};
use oaytmd::plugin::connection::{
    connect_failure, event_handler_failure, reinitialize, ReconnectGate, ReinitAction,
};
use oaytmd::plugin::player::{handle_ws_event, PlayerWrapper, WsEventAction};
use oaytmd::plugin::settings::{GlobalEventHandler, GlobalSettings};
use oaytmd::plugin::volume::{next_volume, VolumeAccumulator};
use oaytmd::ytmd::socket::{
    error_event, state_update_decision, state_update_event, PayloadValue, SocketPayload,
    StateUpdateDecision,
};

fn state(repeat: Option<RepeatMode>, muted: bool, volume: u32) -> StateResponse {
    StateResponse {
        player: Player {
            ad_playing: false,
            queue: repeat.map(|r| Queue {
                autoplay: true,
                items: vec![],
                automix_items: vec![],
                is_generating: false,
                is_infinite: false,
                repeat_mode: r,
                selected_item_index: 0,
            }),
            track_state: TrackState::Playing,
            video_progress: 12,
            volume,
            muted,
        },
        video: None,
        playlist_id: None,
    }
}

#[test]
fn simple_keys() {
    assert_eq!(NextAction::key_up(), CommandRequest::Next);
    assert_eq!(PlayPauseAction::key_up(), CommandRequest::PlayPause);
}

#[test]
fn repeat_key_cycles() {
    assert_eq!(RepeatAction::key_up(&RepeatMode::Unknown), CommandRequest::RepeatMode(RepeatMode::Off));
    assert_eq!(RepeatAction::key_up(&RepeatMode::Off), CommandRequest::RepeatMode(RepeatMode::All));
    assert_eq!(RepeatAction::key_up(&RepeatMode::All), CommandRequest::RepeatMode(RepeatMode::One));
    assert_eq!(RepeatAction::key_up(&RepeatMode::One), CommandRequest::RepeatMode(RepeatMode::Off));
    let mut m = RepeatMode::Off;
    for _ in 0..3 {
        m = RepeatAction::next_mode(&m);
    }
    assert_eq!(m, RepeatMode::Off);
}

#[test]
fn repeat_key_states() {
    assert_eq!(RepeatAction::set_new_state(&RepeatMode::Unknown), 0);
    assert_eq!(RepeatAction::set_new_state(&RepeatMode::Off), 0);
    assert_eq!(RepeatAction::set_new_state(&RepeatMode::All), 1);
    assert_eq!(RepeatAction::set_new_state(&RepeatMode::One), 2);
    for m in [RepeatMode::Off, RepeatMode::All, RepeatMode::One] {
        let next = RepeatAction::next_mode(&m);
        assert_eq!(RepeatAction::set_new_state(&next), (RepeatAction::set_new_state(&m) + 1) % 3);
    }
    assert_eq!(RepeatAction::after_key_up(&RepeatMode::One, true), RepeatFollowup::SetState(2));
    assert_eq!(RepeatAction::after_key_up(&RepeatMode::One, false), RepeatFollowup::ShowAlert);
}

#[test]
fn wire_codes() {
    assert_eq!(RepeatMode::Unknown.to_i8(), -1);
    assert_eq!(RepeatMode::Off.to_i8(), 0);
    assert_eq!(RepeatMode::One.to_i8(), 2);
    assert_eq!(RepeatMode::from_i8(1), Some(RepeatMode::All));
    assert_eq!(RepeatMode::from_i8(3), None);
    assert_eq!(TrackState::from_i8(-1), Some(TrackState::Unknown));
    assert_eq!(TrackState::Buffering.to_i8(), 2);
    assert_eq!(LikeStatus::from_i8(0), Some(LikeStatus::Displike));
    assert_eq!(LikeStatus::default(), LikeStatus::Indifferent);
    assert_eq!(VideoType::Podcast.to_i8(), 3);
    assert_eq!(VideoType::from_i8(-2), None);
    assert_eq!(RepeatMode::default(), RepeatMode::Off);
    assert_eq!(TrackState::default(), TrackState::Paused);
    for v in -1i8..=2 {
        assert_eq!(RepeatMode::from_i8(v).unwrap().to_i8(), v);
        assert_eq!(TrackState::from_i8(v).unwrap().to_i8(), v);
        assert_eq!(LikeStatus::from_i8(v).unwrap().to_i8(), v);
    }
}

#[test]
fn command_alerts() {
    assert!(send_command(&CommandOutcome::NotConnected));
    assert!(!send_command(&CommandOutcome::Sent));
    assert!(send_command(&CommandOutcome::Failed(Error::UnableToConnect)));
}

#[test]
fn volume_dial() {
    assert_eq!(VolumeControlActionSettings::default().step_size, 3);
    assert_eq!(VolumeControlAction::dial_up(false), CommandRequest::Mute);
    assert_eq!(VolumeControlAction::dial_up(true), CommandRequest::Unmute);
    let s = VolumeControlActionSettings::default();
    assert_eq!(VolumeControlAction::dial_rotate(&s, 2), 6);
    assert_eq!(VolumeControlAction::dial_rotate(&s, -4), -12);
}

#[test]
fn volume_batches() {
    let mut acc = VolumeAccumulator::new();
    acc.add(6);
    acc.add(-2);
    acc.add(9);
    assert_eq!(acc.total(), 13);
    assert_eq!(acc.take(), 13);
    assert_eq!(acc.take(), 0);
    assert_eq!(next_volume(50, 0), None);
    assert_eq!(next_volume(50, 13), Some(63));
    assert_eq!(next_volume(95, 13), Some(100));
    assert_eq!(next_volume(5, -13), Some(0));
    assert_eq!(next_volume(0, 100), Some(100));
}

#[test]
fn player_from_state() {
    let p = PlayerWrapper::apply_state_update(&state(Some(RepeatMode::One), true, 42));
    assert_eq!(p.track_state, TrackState::Playing);
    assert!(p.muted);
    assert_eq!(p.volume, 42);
    assert_eq!(p.repeat_mode, RepeatMode::One);
    let p = PlayerWrapper::apply_state_update(&state(None, false, 7));
    assert_eq!(p.repeat_mode, RepeatMode::Off);
    let d = PlayerWrapper::default();
    assert_eq!(d.track_state, TrackState::Paused);
    assert_eq!(d.volume, 0);
    assert!(!d.muted);
}

#[test]
fn ws_events() {
    match handle_ws_event(&WebsocketEvent::StateUpdate(state(Some(RepeatMode::All), false, 3))) {
        WsEventAction::StorePlayer(p) => {
            assert_eq!(p.repeat_mode, RepeatMode::All);
            assert_eq!(p.volume, 3);
        }
        _ => panic!("expected a player"),
    }
    match handle_ws_event(&WebsocketEvent::Error("boom".to_string())) {
        WsEventAction::Report(m) => assert_eq!(m, "boom"),
        _ => panic!("expected a report"),
    }
}

fn value(is_object: bool, text: &str) -> PayloadValue {
    PayloadValue { is_object, text: text.to_string() }
}

#[test]
fn socket_state_update_payloads() {
    let p = SocketPayload::Text(vec![value(false, "1"), value(true, "{}"), value(true, "{\"a\":1}")]);
    assert!(matches!(state_update_decision(&p), StateUpdateDecision::Decode(1)));
    let p = SocketPayload::Text(vec![value(false, "1"), value(false, "\"s\"")]);
    assert!(matches!(state_update_decision(&p), StateUpdateDecision::Ignore));
    let p = SocketPayload::Text(vec![]);
    assert!(matches!(state_update_decision(&p), StateUpdateDecision::Ignore));
    match state_update_decision(&SocketPayload::Other("Binary([1])".to_string())) {
        StateUpdateDecision::Emit(WebsocketEvent::Error(m)) => {
            assert_eq!(m, "Unexpected payload for state-update: Binary([1])")
        }
        _ => panic!("expected an error"),
    }
    assert!(matches!(state_update_event(Ok(state(None, false, 0))), WebsocketEvent::StateUpdate(_)));
    match state_update_event(Err("missing field".to_string())) {
        WebsocketEvent::Error(m) => assert_eq!(m, "missing field"),
        _ => panic!("expected an error"),
    }
}

#[test]
fn socket_error_payloads() {
    let p = SocketPayload::Text(vec![value(false, "\"bad token\""), value(false, "2")]);
    match error_event(&p) {
        WebsocketEvent::Error(m) => assert_eq!(m, "\"bad token\""),
        _ => panic!(),
    }
    match error_event(&SocketPayload::Text(vec![])) {
        WebsocketEvent::Error(m) => assert_eq!(m, "Unknown error"),
        _ => panic!(),
    }
    match error_event(&SocketPayload::Other("Binary([])".to_string())) {
        WebsocketEvent::Error(m) => assert_eq!(m, "Binary([])"),
        _ => panic!(),
    }
}

fn global(host: &str, port: u16, token: Option<&str>) -> GlobalSettings {
    let mut g = GlobalSettings::default_for("oaytmd".to_string(), "0.1.0".to_string());
    g.client_settings.host = host.to_string();
    g.client_settings.port = port;
    g.client_settings.token = token.map(|t| t.to_string());
    g
}

#[test]
fn default_global_settings() {
    let g = GlobalSettings::default_for("oaytmd".to_string(), "0.1.0".to_string());
    assert_eq!(g.client_settings.host, "127.0.0.1");
    assert_eq!(g.client_settings.port, 9863);
    assert_eq!(g.client_settings.app_name, "YTMD Controller");
    assert_eq!(g.client_settings.app_id, "oaytmd");
    assert_eq!(g.client_settings.app_version, "0.1.0");
    assert!(g.client_settings.token.is_none());
    assert!(g.error.is_none());
    assert_eq!(g.client_settings().base_url(), "http://127.0.0.1:9863");
}

#[test]
fn settings_change_detection() {
    let current = global("127.0.0.1", 9863, Some("t"));
    assert!(!current.settings_changed(&global("127.0.0.1", 9863, Some("t"))));
    assert!(current.settings_changed(&global("127.0.0.2", 9863, Some("t"))));
    assert!(current.settings_changed(&global("127.0.0.1", 9864, Some("t"))));
    assert!(current.settings_changed(&global("127.0.0.1", 9863, Some("u"))));
    assert!(current.settings_changed(&global("127.0.0.1", 9863, None)));
    let no_token = global("127.0.0.1", 9863, None);
    assert!(no_token.settings_changed(&no_token.clone()));
    let no_host = global("", 9863, Some("t"));
    assert!(no_host.settings_changed(&no_host.clone()));
    let incoming = global("h", 1, Some("t"));
    let r = GlobalEventHandler::did_receive_global_settings(&current, incoming);
    assert_eq!(r.unwrap().client_settings.host, "h");
    let r = GlobalEventHandler::did_receive_global_settings(&current, current.clone());
    assert!(r.is_none());
}

#[test]
fn error_recording() {
    let g = global("h", 1, Some("t"));
    assert!(g.with_error(None).is_none());
    let g2 = g.with_error(Some("Connection failed: x")).unwrap();
    assert_eq!(g2.error.as_deref(), Some("Connection failed: x"));
    assert_eq!(g2.client_settings.host, "h");
    assert!(g2.with_error(Some("Connection failed: x")).is_none());
    let g3 = g2.with_error(None).unwrap();
    assert!(g3.error.is_none());
    let g4 = g2.with_token(Some("new".to_string()));
    assert_eq!(g4.client_settings.token.as_deref(), Some("new"));
    assert_eq!(g4.error.as_deref(), Some("Connection failed: x"));
}

#[test]
fn reconnect_gate() {
    let mut gate = ReconnectGate::new();
    assert!(!gate.is_active());
    assert!(gate.schedule_reconnect());
    assert!(!gate.schedule_reconnect());
    assert!(gate.is_active());
    gate.connected();
    assert!(!gate.is_active());
    assert!(gate.schedule_reconnect());
}

#[test]
fn reinitialize_outcomes() {
    let mut gate = ReconnectGate::new();
    gate.schedule_reconnect();
    let current = global("h", 1, None);
    let mut connected = current.client_settings.clone();
    connected.token = Some("fresh".to_string());
    match reinitialize(&mut gate, &current, Ok(&connected)) {
        ReinitAction::PersistToken(g) => {
            assert_eq!(g.client_settings.token.as_deref(), Some("fresh"));
            assert_eq!(g.client_settings.host, "h");
        }
        _ => panic!("expected persisted token"),
    }
    assert!(!gate.is_active());
    gate.schedule_reconnect();
    let msg = connect_failure(&Error::UnableToConnect);
    assert_eq!(msg, "Failed to connect to YTMD: Unable to connect to YTMD");
    match reinitialize(&mut gate, &current, Err(msg)) {
        ReinitAction::ShowError(s) => {
            assert_eq!(s, "Connection failed: Failed to connect to YTMD: Unable to connect to YTMD")
        }
        _ => panic!("expected an error"),
    }
    assert!(gate.is_active());
    assert_eq!(
        event_handler_failure(&Error::SocketClientNotConnected),
        "Failed to set up event handler for YTMD client: Socket client not connected"
    );
}
