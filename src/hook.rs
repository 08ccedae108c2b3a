use vstd::prelude::*;

use crate::lobby::{
    mutate_listing, rooms_view, transform_listing, warns_version, FlagSnapshot, ListingChange,
    RoomEntry,
};
use crate::message::{
    find_param, get_rpc_method_name, get_text_param, join_arguments, joined, message_summary,
    method_name_of, param_of, param_pos, strings_view, summary_of, text_param, MessageKind,
    MethodName, Param, Parameter, PhotonMessage, SerializedView, EV_GAME_LIST,
    EV_GAME_LIST_UPDATE, EV_JOIN, OP_AUTHENTICATE, OP_JOIN_GAME, OP_RAISE_EVENT, PARAM_ACTOR_NR,
    PARAM_APP_VERSION, PARAM_CODE, PARAM_DATA, PARAM_GAME_LIST, PARAM_PLAYER_PROPERTIES,
    PARAM_USER_ID, PUN_INSTANTIATION, PUN_RPC, PUN_SEND_SERIALIZE, PUN_SEND_SERIALIZE_RELIABLE,
};
use crate::session::{copy_player, merged, HaxState, Player};

verus! {

/// Which relay connection a frame belongs to; fixed when the connection is set up.
pub enum WebSocketServer {
    LobbyServer,
    GameServer,
}

pub enum Direction {
    ClientToServer,
    ServerToClient,
}

/// What to do with a decoded frame.
pub enum WebSocketHookAction {
    /// Replace the original frame with this message.
    Change(PhotonMessage),
    /// Do not forward the frame.
    Drop,
    /// Forward the original bytes.
    DoNothing,
}

/// What a frame told us, for the log.
pub enum Note {
    Nothing,
    DecodeError,
    MissingField,
    /// Version pinning was skipped: no local version is known.
    VersionUnknown,
    JoinRequest,
    JoinedGame(i32),
    PlayerJoined(Player),
    Instantiation,
    Serialized(Vec<SerializedView>),
    RpcCall { method: MethodName, sender: i32, arguments: String, to_server: bool },
}

/// The outcome of one frame.
pub struct HookReport {
    pub action: WebSocketHookAction,
    pub note: Note,
    /// Kind and code for the summary record.
    pub summary: Option<(MessageKind, u8)>,
    /// Direction of the frame, for the summary record.
    pub direction: Direction,
}

/// What the transport layer does with the frame's bytes.
pub enum FrameVerdict {
    ForwardOriginal,
    ForwardReplacement(Vec<u8>),
    Drop,
}

pub open spec fn flags_of(s: HaxState) -> FlagSnapshot {
    FlagSnapshot {
        strip_passwords: s.strip_passwords,
        show_mobile_games: s.show_mobile_games,
        show_other_versions: s.show_other_versions,
        game_version: s.game_version,
    }
}

pub open spec fn listing_param(ps: Seq<Parameter>) -> Option<Seq<RoomEntry>> {
    match param_of(ps, PARAM_GAME_LIST) {
        Some(Param::Rooms(v)) => Some(v@),
        _ => None,
    }
}

pub open spec fn is_listing_event(m: PhotonMessage) -> bool {
    m matches PhotonMessage::EventData { code, .. } && (code == EV_GAME_LIST || code
        == EV_GAME_LIST_UPDATE)
}

pub open spec fn is_auth_request(m: PhotonMessage) -> bool {
    m matches PhotonMessage::OperationRequest { operation_code, .. } && operation_code
        == OP_AUTHENTICATE
}

pub open spec fn is_join_success(m: PhotonMessage) -> bool {
    m matches PhotonMessage::OperationResponse { operation_code, return_code, .. }
        && operation_code == OP_JOIN_GAME && return_code == 0
}

pub open spec fn is_rpc_event(m: PhotonMessage) -> bool {
    m matches PhotonMessage::EventData { code, .. } && code == PUN_RPC
}

pub open spec fn params_of(m: PhotonMessage) -> Seq<Parameter> {
    match m {
        PhotonMessage::OperationRequest { parameters, .. } => parameters@,
        PhotonMessage::OperationResponse { parameters, .. } => parameters@,
        PhotonMessage::EventData { parameters, .. } => parameters@,
        _ => Seq::empty(),
    }
}

/// The session after an authenticate request with parameters `ps`.
pub open spec fn after_auth(s: HaxState, t: HaxState, ps: Seq<Parameter>) -> bool {
    &&& t.game_version == (if text_param(ps, PARAM_APP_VERSION) is Some {
        Some(text_param(ps, PARAM_APP_VERSION)->0)
    } else {
        s.game_version
    })
    &&& t.user_id == (if text_param(ps, PARAM_USER_ID) is Some {
        Some(text_param(ps, PARAM_USER_ID)->0)
    } else {
        s.user_id
    })
    &&& t.player_id == s.player_id
    &&& t.players@ == s.players@
    &&& same_config(s, t)
}

/// The session after a successful join response with parameters `ps`.
pub open spec fn after_join(s: HaxState, t: HaxState, ps: Seq<Parameter>) -> bool {
    &&& match param_of(ps, PARAM_ACTOR_NR) {
        Some(Param::Integer(a)) => {
            &&& t.player_id == Some(a)
            &&& t.players@ == match param_of(ps, PARAM_PLAYER_PROPERTIES) {
                Some(Param::Actors(v)) => merged(s.players@, v@),
                _ => s.players@,
            }
        },
        _ => t.player_id == s.player_id && t.players@ == s.players@,
    }
    &&& t.game_version == s.game_version
    &&& t.user_id == s.user_id
    &&& same_config(s, t)
}

pub open spec fn same_config(s: HaxState, t: HaxState) -> bool {
    &&& t.strip_passwords == s.strip_passwords
    &&& t.show_mobile_games == s.show_mobile_games
    &&& t.show_other_versions == s.show_other_versions
    &&& t.rpc_names@ == s.rpc_names@
}

pub open spec fn unchanged_state(s: HaxState, t: HaxState) -> bool {
    &&& t.game_version == s.game_version
    &&& t.user_id == s.user_id
    &&& t.player_id == s.player_id
    &&& t.players@ == s.players@
    &&& same_config(s, t)
}

/// `ps2` is `ps` with the room listing replaced by one whose view is `expected`.
pub open spec fn listing_replaced(
    ps: Seq<Parameter>,
    ps2: Seq<Parameter>,
    expected: Seq<(Seq<char>, crate::props::Props)>,
) -> bool {
    let i = param_pos(ps, PARAM_GAME_LIST);
    &&& ps2.len() == ps.len()
    &&& forall|j: int| 0 <= j < ps.len() && j != i ==> ps2[j] == ps[j]
    &&& ps2[i].code == PARAM_GAME_LIST
    &&& ps2[i].value matches Param::Rooms(out) && rooms_view(out@) == expected
}

fn copy_views(v: &Vec<SerializedView>) -> (r: Vec<SerializedView>)
    ensures
        r@ == v@,
{
    let mut r: Vec<SerializedView> = Vec::new();
    let mut i: usize = 0;
    while i < v.len()
        invariant
            i <= v.len(),
            r@ == v@.subrange(0, i as int),
        decreases v.len() - i,
    {
        r.push(SerializedView { view_id: v[i].view_id, data: v[i].data.clone() });
        assert(r@ =~= v@.subrange(0, i + 1));
        i = i + 1;
    }
    assert(v@.subrange(0, v.len() as int) =~= v@);
    r
}

/// Settles a frame once the replacement, if any, was encoded: a change whose encoding failed
/// (`None`) falls back to the original bytes.
pub fn apply_action(action: &WebSocketHookAction, encoded: Option<Vec<u8>>) -> (r: FrameVerdict)
    ensures
        action is DoNothing ==> r is ForwardOriginal,
        action is Drop ==> r is Drop,
        action is Change ==> match encoded {
            Some(b) => r == FrameVerdict::ForwardReplacement(b),
            None => r is ForwardOriginal,
        },
{
    match action {
        WebSocketHookAction::Change(_) => match encoded {
            Some(b) => FrameVerdict::ForwardReplacement(b),
            None => FrameVerdict::ForwardOriginal,
        },
        WebSocketHookAction::Drop => FrameVerdict::Drop,
        WebSocketHookAction::DoNothing => FrameVerdict::ForwardOriginal,
    }
}

impl HaxState {
    /// Note for an RPC whose call descriptor is the data parameter of `ps`.
    fn rpc_call_note(&self, ps: &Vec<Parameter>, to_server: bool) -> (r: Note)
        ensures
            match param_of(ps@, PARAM_DATA) {
                Some(Param::Rpc(call)) => r matches Note::RpcCall { method, sender, arguments, to_server: ts }
                    && method == method_name_of(call, self.rpc_names@) && sender == call.owner_id
                    && arguments@ == joined(strings_view(call.arguments@)) && ts == to_server,
                _ => r is MissingField,
            },
    {
        match find_param(ps, PARAM_DATA) {
            Some(i) => match &ps[i].value {
                Param::Rpc(call) => Note::RpcCall {
                    method: get_rpc_method_name(call, &self.rpc_names),
                    sender: call.owner_id,
                    arguments: join_arguments(&call.arguments),
                    to_server,
                },
                _ => Note::MissingField,
            },
            None => Note::MissingField,
        }
    }

    /// Lobby traffic: learns the identity from authenticate requests and rewrites room listings.
    fn match_packet_lobby(&mut self, msg: PhotonMessage) -> (r: (WebSocketHookAction, Note))
        ensures
            !(r.0 is Drop),
            is_auth_request(msg) ==> after_auth(*old(self), *final(self), params_of(msg)),
            !is_auth_request(msg) ==> unchanged_state(*old(self), *final(self)),
            !is_listing_event(msg) ==> r.0 is DoNothing,
            is_listing_event(msg) ==> match listing_param(params_of(msg)) {
                Some(rs) => {
                    let expected = transform_listing(rooms_view(rs), flags_of(*old(self)));
                    &&& (r.0 is DoNothing <==> expected == rooms_view(rs))
                    &&& (r.0 matches WebSocketHookAction::Change(m2) ==> m2 matches PhotonMessage::EventData {
                        code: c2,
                        parameters: ps2,
                    } && msg matches PhotonMessage::EventData { code, .. } && c2 == code
                        && listing_replaced(params_of(msg), ps2@, expected))
                    &&& (r.1 is VersionUnknown <==> warns_version(
                        rooms_view(rs),
                        flags_of(*old(self)),
                    ))
                },
                None => r.0 is DoNothing && r.1 is MissingField,
            },
    {
        match msg {
            PhotonMessage::OperationRequest { operation_code, parameters } => {
                if operation_code == OP_AUTHENTICATE {
                    let app_version = get_text_param(&parameters, PARAM_APP_VERSION);
                    let user_id = get_text_param(&parameters, PARAM_USER_ID);
                    self.set_auth_identity(app_version, user_id);
                }
                (WebSocketHookAction::DoNothing, Note::Nothing)
            },
            PhotonMessage::EventData { code, parameters } => {
                if code == EV_GAME_LIST || code == EV_GAME_LIST_UPDATE {
                    let mut parameters = parameters;
                    match find_param(&parameters, PARAM_GAME_LIST) {
                        Some(i) => {
                            let flags = self.snapshot_flags();
                            let pass = match &parameters[i].value {
                                Param::Rooms(rooms) => Some(mutate_listing(rooms, &flags)),
                                _ => None,
                            };
                            match pass {
                                Some(p) => {
                                    let note = if p.version_unknown {
                                        Note::VersionUnknown
                                    } else {
                                        Note::Nothing
                                    };
                                    match p.change {
                                        ListingChange::Changed(out) => {
                                            parameters.set(
                                                i,
                                                Parameter {
                                                    code: PARAM_GAME_LIST,
                                                    value: Param::Rooms(out),
                                                },
                                            );
                                            (
                                                WebSocketHookAction::Change(
                                                    PhotonMessage::EventData { code, parameters },
                                                ),
                                                note,
                                            )
                                        },
                                        ListingChange::Unchanged => (
                                            WebSocketHookAction::DoNothing,
                                            note,
                                        ),
                                    }
                                },
                                None => (WebSocketHookAction::DoNothing, Note::MissingField),
                            }
                        },
                        None => (WebSocketHookAction::DoNothing, Note::MissingField),
                    }
                } else {
                    (WebSocketHookAction::DoNothing, Note::Nothing)
                }
            },
            _ => (WebSocketHookAction::DoNothing, Note::Nothing),
        }
    }

    /// Game traffic: observed only; a successful join response records the local actor and the
    /// players.
    fn match_packet_game(&mut self, msg: &PhotonMessage) -> (r: Note)
        ensures
            is_join_success(*msg) ==> after_join(*old(self), *final(self), params_of(*msg)),
            !is_join_success(*msg) ==> unchanged_state(*old(self), *final(self)),
            is_rpc_event(*msg) ==> match param_of(params_of(*msg), PARAM_DATA) {
                Some(Param::Rpc(call)) => r matches Note::RpcCall { method, sender, to_server, .. }
                    && method == method_name_of(call, old(self).rpc_names@) && sender
                    == call.owner_id && !to_server,
                _ => r is MissingField,
            },
    {
        match msg {
            PhotonMessage::OperationRequest { operation_code, parameters } => {
                if *operation_code == OP_JOIN_GAME {
                    Note::JoinRequest
                } else if *operation_code == OP_RAISE_EVENT {
                    match find_param(parameters, PARAM_CODE) {
                        Some(i) => match &parameters[i].value {
                            Param::Integer(c) => if *c == PUN_RPC as i32 {
                                self.rpc_call_note(parameters, true)
                            } else {
                                Note::Nothing
                            },
                            _ => Note::MissingField,
                        },
                        None => Note::MissingField,
                    }
                } else {
                    Note::Nothing
                }
            },
            PhotonMessage::OperationResponse { operation_code, return_code, parameters } => {
                if *operation_code == OP_JOIN_GAME && *return_code == 0 {
                    match find_param(parameters, PARAM_ACTOR_NR) {
                        Some(i) => match &parameters[i].value {
                            Param::Integer(actor) => {
                                self.set_player_id(*actor);
                                match find_param(parameters, PARAM_PLAYER_PROPERTIES) {
                                    Some(j) => match &parameters[j].value {
                                        Param::Actors(v) => self.merge_players(v),
                                        _ => {},
                                    },
                                    None => {},
                                }
                                Note::JoinedGame(*actor)
                            },
                            _ => Note::MissingField,
                        },
                        None => Note::MissingField,
                    }
                } else {
                    Note::Nothing
                }
            },
            PhotonMessage::EventData { code, parameters } => {
                if *code == EV_JOIN {
                    match find_param(parameters, PARAM_PLAYER_PROPERTIES) {
                        Some(i) => match &parameters[i].value {
                            Param::Player(p) => Note::PlayerJoined(copy_player(p)),
                            _ => Note::MissingField,
                        },
                        None => Note::MissingField,
                    }
                } else if *code == PUN_INSTANTIATION {
                    Note::Instantiation
                } else if *code == PUN_SEND_SERIALIZE || *code == PUN_SEND_SERIALIZE_RELIABLE {
                    match find_param(parameters, PARAM_DATA) {
                        Some(i) => match &parameters[i].value {
                            Param::Views(v) => Note::Serialized(copy_views(v)),
                            _ => Note::MissingField,
                        },
                        None => Note::MissingField,
                    }
                } else if *code == PUN_RPC {
                    self.rpc_call_note(parameters, false)
                } else {
                    Note::Nothing
                }
            },
            _ => Note::Nothing,
        }
    }

    /// Handles one frame of the connection. `decoded` is the codec's reading of the frame's
    /// bytes, `None` where it could not read them.
    ///
    /// An unreadable frame is forwarded as it came. Lobby frames may be rewritten (room
    /// listings) or teach the session its identity (authenticate requests); game frames are
    /// forwarded as they came, and a successful join response records the local actor and the
    /// players. No frame is dropped.
    pub fn websocket_hook(
        &mut self,
        decoded: Option<PhotonMessage>,
        server: WebSocketServer,
        direction: Direction,
    ) -> (r: HookReport)
        ensures
            !(r.action is Drop),
            r.direction == direction,
            decoded is None ==> r.action is DoNothing && r.note is DecodeError && r.summary is None
                && unchanged_state(*old(self), *final(self)),
            decoded matches Some(m) ==> r.summary == summary_of(m),
            server is GameServer ==> r.action is DoNothing,
            server is GameServer ==> (decoded matches Some(m) ==> (if is_join_success(m) {
                after_join(*old(self), *final(self), params_of(m))
            } else {
                unchanged_state(*old(self), *final(self))
            })),
            server is GameServer ==> (decoded matches Some(m) ==> (is_rpc_event(m) ==> match param_of(
                params_of(m),
                PARAM_DATA,
            ) {
                Some(Param::Rpc(call)) => r.note matches Note::RpcCall { method, sender, to_server, .. }
                    && method == method_name_of(call, old(self).rpc_names@) && sender
                    == call.owner_id && !to_server,
                _ => r.note is MissingField,
            })),
            server is LobbyServer ==> (decoded matches Some(m) ==> {
                &&& (if is_auth_request(m) {
                    after_auth(*old(self), *final(self), params_of(m))
                } else {
                    unchanged_state(*old(self), *final(self))
                })
                &&& (!is_listing_event(m) ==> r.action is DoNothing)
                &&& (is_listing_event(m) && listing_param(params_of(m)) is None ==> r.action is DoNothing)
                &&& (is_listing_event(m) ==> (listing_param(params_of(m)) matches Some(rs) ==> {
                    let expected = transform_listing(rooms_view(rs), flags_of(*old(self)));
                    &&& (r.action is DoNothing <==> expected == rooms_view(rs))
                    &&& (r.action matches WebSocketHookAction::Change(m2) ==> m2 matches PhotonMessage::EventData {
                        code: c2,
                        parameters: ps2,
                    } && m matches PhotonMessage::EventData { code, .. } && c2 == code
                        && listing_replaced(params_of(m), ps2@, expected))
                    &&& (r.note is VersionUnknown <==> warns_version(
                        rooms_view(rs),
                        flags_of(*old(self)),
                    ))
                }))
            }),
    {
        match decoded {
            None => HookReport {
                action: WebSocketHookAction::DoNothing,
                note: Note::DecodeError,
                summary: None,
                direction,
            },
            Some(m) => {
                let summary = message_summary(&m);
                match server {
                    WebSocketServer::LobbyServer => {
                        let (action, note) = self.match_packet_lobby(m);
                        HookReport { action, note, summary, direction }
                    },
                    WebSocketServer::GameServer => {
                        let note = self.match_packet_game(&m);
                        HookReport { action: WebSocketHookAction::DoNothing, note, summary, direction }
                    },
                }
            },
        }
    }
}

} // verus!
