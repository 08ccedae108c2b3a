use bulletforcehax2_lib::hook::{
    apply_action, Direction, FrameVerdict, Note, WebSocketHookAction, WebSocketServer,
};
use bulletforcehax2_lib::lobby::{RoomEntry, RoomInfo};
use bulletforcehax2_lib::message::{
    get_rpc_method_name, join_arguments, message_summary, MessageKind, MethodName, Param,
    Parameter, PhotonMessage, RpcCall, SerializedView,
};
use bulletforcehax2_lib::props::{PropValue, Property};
use bulletforcehax2_lib::session::{HaxState, Player};

fn state(strip: bool, mobile: bool, versions: bool) -> HaxState {
    HaxState::new(strip, mobile, versions, vec!["Fire".to_string(), "Reload".to_string()])
}

fn text_param(code: u8, s: &str) -> Parameter {
    Parameter { code, value: Param::Text(s.to_string()) }
}

fn player(nick: &str, id: &str) -> Player {
    Player { nickname: Some(nick.to_string()), user_id: Some(id.to_string()) }
}

fn listing_event(code: u8) -> PhotonMessage {
    let info = RoomInfo {
        custom_properties: vec![
            Property { key: "roomName".to_string(), value: PropValue::Text("Room".to_string()) },
            Property { key: "password".to_string(), value: PropValue::Text("secret".to_string()) },
        ],
    };
    PhotonMessage::EventData {
        code,
        parameters: vec![
            Parameter { code: 1, value: Param::Integer(7) },
            Parameter {
                code: 222,
                value: Param::Rooms(vec![RoomEntry { game_name: "g".to_string(), info }]),
            },
        ],
    }
}

fn join_response(actors: Vec<(i32, Player)>) -> PhotonMessage {
    PhotonMessage::OperationResponse {
        operation_code: 226,
        return_code: 0,
        parameters: vec![
            Parameter { code: 254, value: Param::Integer(1) },
            Parameter { code: 249, value: Param::Actors(actors) },
        ],
    }
}

#[test]
fn undecodable_frame_forwards_original() {
    let mut s = state(true, true, true);
    let r = s.websocket_hook(None, WebSocketServer::LobbyServer, Direction::ServerToClient);
    assert!(matches!(r.action, WebSocketHookAction::DoNothing));
    assert!(matches!(r.note, Note::DecodeError));
    assert!(r.summary.is_none());
    assert!(matches!(apply_action(&r.action, None), FrameVerdict::ForwardOriginal));
    let r = s.websocket_hook(None, WebSocketServer::GameServer, Direction::ClientToServer);
    assert!(matches!(r.action, WebSocketHookAction::DoNothing));
}

#[test]
fn listing_is_rewritten_with_passwords_stripped() {
    let mut s = state(true, false, false);
    let r = s.websocket_hook(
        Some(listing_event(230)),
        WebSocketServer::LobbyServer,
        Direction::ServerToClient,
    );
    assert!(matches!(r.summary, Some((MessageKind::EventData, 230))));
    match r.action {
        WebSocketHookAction::Change(PhotonMessage::EventData { code, parameters }) => {
            assert_eq!(code, 230);
            assert_eq!(parameters.len(), 2);
            assert!(matches!(parameters[0].value, Param::Integer(7)));
            match &parameters[1].value {
                Param::Rooms(rooms) => {
                    let props = &rooms[0].info.custom_properties;
                    assert!(matches!(&props[0].value, PropValue::Text(n) if n == "[p] Room"));
                    assert!(matches!(&props[1].value, PropValue::Text(p) if p.is_empty()));
                }
                _ => panic!("room list expected"),
            }
        }
        _ => panic!("expected a change"),
    }
}

#[test]
fn listing_with_toggles_off_is_forwarded_verbatim() {
    let mut s = state(false, false, false);
    let r = s.websocket_hook(
        Some(listing_event(229)),
        WebSocketServer::LobbyServer,
        Direction::ServerToClient,
    );
    assert!(matches!(r.action, WebSocketHookAction::DoNothing));
    assert!(matches!(apply_action(&r.action, Some(vec![1, 2])), FrameVerdict::ForwardOriginal));
}

#[test]
fn listing_event_without_rooms_is_missing_field() {
    let mut s = state(true, true, true);
    let msg = PhotonMessage::EventData { code: 230, parameters: vec![] };
    let r = s.websocket_hook(Some(msg), WebSocketServer::LobbyServer, Direction::ServerToClient);
    assert!(matches!(r.action, WebSocketHookAction::DoNothing));
    assert!(matches!(r.note, Note::MissingField));
}

#[test]
fn authenticate_sets_identity_and_version_is_pinned() {
    let mut s = state(false, false, true);
    let auth = PhotonMessage::OperationRequest {
        operation_code: 230,
        parameters: vec![text_param(220, "1.89.0_1.99"), text_param(225, "user-1")],
    };
    let r = s.websocket_hook(Some(auth), WebSocketServer::LobbyServer, Direction::ClientToServer);
    assert!(matches!(r.action, WebSocketHookAction::DoNothing));
    assert_eq!(s.game_version.as_deref(), Some("1.89.0_1.99"));
    assert_eq!(s.user_id.as_deref(), Some("user-1"));

    let info = RoomInfo {
        custom_properties: vec![
            Property { key: "roomName".to_string(), value: PropValue::Text("R".to_string()) },
            Property {
                key: "gameVersion".to_string(),
                value: PropValue::Text("1.80.0".to_string()),
            },
        ],
    };
    let msg = PhotonMessage::EventData {
        code: 230,
        parameters: vec![Parameter {
            code: 222,
            value: Param::Rooms(vec![RoomEntry { game_name: "g".to_string(), info }]),
        }],
    };
    let r = s.websocket_hook(Some(msg), WebSocketServer::LobbyServer, Direction::ServerToClient);
    match r.action {
        WebSocketHookAction::Change(PhotonMessage::EventData { parameters, .. }) => {
            match &parameters[0].value {
                Param::Rooms(rooms) => {
                    let props = &rooms[0].info.custom_properties;
                    assert!(matches!(&props[0].value, PropValue::Text(n) if n == "[1.80.0] R"));
                    assert!(matches!(&props[1].value, PropValue::Text(v) if v == "1.89.0"));
                }
                _ => panic!("room list expected"),
            }
        }
        _ => panic!("expected a change"),
    }
}

#[test]
fn unknown_version_is_noted() {
    let mut s = state(false, false, true);
    let r = s.websocket_hook(
        Some(listing_event(230)),
        WebSocketServer::LobbyServer,
        Direction::ServerToClient,
    );
    assert!(matches!(r.action, WebSocketHookAction::DoNothing));
    assert!(matches!(r.note, Note::VersionUnknown));
}

#[test]
fn join_response_records_players_and_later_merge_keeps_old() {
    let mut s = state(false, false, false);
    let r = s.websocket_hook(
        Some(join_response(vec![(1, player("P1", "u1")), (2, player("P2", "u2"))])),
        WebSocketServer::GameServer,
        Direction::ServerToClient,
    );
    assert!(matches!(r.action, WebSocketHookAction::DoNothing));
    assert!(matches!(r.note, Note::JoinedGame(1)));
    assert_eq!(s.player_id, Some(1));
    assert_eq!(s.players.len(), 2);

    let r = s.websocket_hook(
        Some(join_response(vec![(2, player("P2b", "u2b"))])),
        WebSocketServer::GameServer,
        Direction::ServerToClient,
    );
    assert!(matches!(r.action, WebSocketHookAction::DoNothing));
    assert_eq!(s.players.len(), 2);
    assert_eq!(s.players[&1].nickname.as_deref(), Some("P1"));
    assert_eq!(s.players[&2].nickname.as_deref(), Some("P2b"));
    assert_eq!(s.players[&2].user_id.as_deref(), Some("u2b"));
}

#[test]
fn failed_join_response_changes_nothing() {
    let mut s = state(false, false, false);
    let msg = PhotonMessage::OperationResponse {
        operation_code: 226,
        return_code: 32765,
        parameters: vec![Parameter { code: 254, value: Param::Integer(3) }],
    };
    s.websocket_hook(Some(msg), WebSocketServer::GameServer, Direction::ServerToClient);
    assert_eq!(s.player_id, None);
    assert!(s.players.is_empty());
}

#[test]
fn game_frames_are_observed_only() {
    let mut s = state(true, true, true);
    let rpc = PhotonMessage::EventData {
        code: 200,
        parameters: vec![Parameter {
            code: 245,
            value: Param::Rpc(RpcCall {
                owner_id: 4,
                method_name: None,
                method_index: Some(1),
                arguments: vec!["1".to_string(), "true".to_string()],
            }),
        }],
    };
    let r = s.websocket_hook(Some(rpc), WebSocketServer::GameServer, Direction::ServerToClient);
    assert!(matches!(r.action, WebSocketHookAction::DoNothing));
    match r.note {
        Note::RpcCall { method: MethodName::Named(m), sender, arguments, to_server } => {
            assert_eq!(m, "Reload");
            assert_eq!(sender, 4);
            assert_eq!(arguments, "1,true");
            assert!(!to_server);
        }
        _ => panic!("rpc note expected"),
    }

    let sync = PhotonMessage::EventData {
        code: 206,
        parameters: vec![Parameter {
            code: 245,
            value: Param::Views(vec![SerializedView { view_id: 1001, data: "[1]".to_string() }]),
        }],
    };
    let r = s.websocket_hook(Some(sync), WebSocketServer::GameServer, Direction::ServerToClient);
    match r.note {
        Note::Serialized(v) => {
            assert_eq!(v.len(), 1);
            assert_eq!(v[0].view_id, 1001);
            assert_eq!(v[0].data, "[1]");
        }
        _ => panic!("serialize note expected"),
    }

    let broken = PhotonMessage::EventData { code: 201, parameters: vec![] };
    let r = s.websocket_hook(Some(broken), WebSocketServer::GameServer, Direction::ServerToClient);
    assert!(matches!(r.note, Note::MissingField));
    assert!(matches!(r.action, WebSocketHookAction::DoNothing));
}

#[test]
fn raised_rpc_is_noted_towards_server() {
    let mut s = state(false, false, false);
    let msg = PhotonMessage::OperationRequest {
        operation_code: 253,
        parameters: vec![
            Parameter { code: 244, value: Param::Integer(200) },
            Parameter {
                code: 245,
                value: Param::Rpc(RpcCall {
                    owner_id: 2,
                    method_name: Some("Fire".to_string()),
                    method_index: None,
                    arguments: vec![],
                }),
            },
        ],
    };
    let r = s.websocket_hook(Some(msg), WebSocketServer::GameServer, Direction::ClientToServer);
    match r.note {
        Note::RpcCall { method: MethodName::Named(m), sender, arguments, to_server } => {
            assert_eq!(m, "Fire");
            assert_eq!(sender, 2);
            assert_eq!(arguments, "");
            assert!(to_server);
        }
        _ => panic!("rpc note expected"),
    }
}

#[test]
fn change_settles_to_replacement_or_original() {
    let change = WebSocketHookAction::Change(PhotonMessage::Unclassified);
    match apply_action(&change, Some(vec![9, 8, 7])) {
        FrameVerdict::ForwardReplacement(b) => assert_eq!(b, vec![9, 8, 7]),
        _ => panic!("replacement expected"),
    }
    assert!(matches!(apply_action(&change, None), FrameVerdict::ForwardOriginal));
    assert!(matches!(apply_action(&WebSocketHookAction::Drop, None), FrameVerdict::Drop));
}

#[test]
fn method_names_resolve_or_stay_unresolved() {
    let names = vec!["Fire".to_string()];
    let call = |name: Option<&str>, index: Option<u8>| RpcCall {
        owner_id: 0,
        method_name: name.map(|n| n.to_string()),
        method_index: index,
        arguments: vec![],
    };
    assert!(matches!(get_rpc_method_name(&call(Some("Jump"), Some(0)), &names),
        MethodName::Named(n) if n == "Jump"));
    assert!(matches!(get_rpc_method_name(&call(None, Some(0)), &names),
        MethodName::Named(n) if n == "Fire"));
    assert!(matches!(get_rpc_method_name(&call(None, Some(1)), &names), MethodName::Unresolved));
    assert!(matches!(get_rpc_method_name(&call(None, None), &names), MethodName::Unresolved));
}

#[test]
fn arguments_join_with_commas() {
    assert_eq!(join_arguments(&vec![]), "");
    assert_eq!(join_arguments(&vec!["a".to_string()]), "a");
    assert_eq!(join_arguments(&vec!["a".to_string(), "b".to_string(), "c".to_string()]), "a,b,c");
}

#[test]
fn summaries_name_kind_and_code() {
    let m = PhotonMessage::InternalOperationResponse { operation_code: 1 };
    assert!(matches!(message_summary(&m), Some((MessageKind::InternalOperationResponse, 1))));
    assert!(message_summary(&PhotonMessage::Unclassified).is_none());
}
