use vstd::prelude::*;

use crate::lobby::RoomEntry;
use crate::session::Player;

verus! {

pub const OP_AUTHENTICATE: u8 = 230;
pub const OP_JOIN_GAME: u8 = 226;
pub const OP_RAISE_EVENT: u8 = 253;

pub const EV_GAME_LIST: u8 = 230;
pub const EV_GAME_LIST_UPDATE: u8 = 229;
pub const EV_JOIN: u8 = 255;

pub const PUN_RPC: u8 = 200;
pub const PUN_SEND_SERIALIZE: u8 = 201;
pub const PUN_INSTANTIATION: u8 = 202;
pub const PUN_SEND_SERIALIZE_RELIABLE: u8 = 206;

pub const PARAM_GAME_LIST: u8 = 222;
pub const PARAM_APP_VERSION: u8 = 220;
pub const PARAM_USER_ID: u8 = 225;
pub const PARAM_PLAYER_PROPERTIES: u8 = 249;
pub const PARAM_ACTOR_NR: u8 = 254;
pub const PARAM_CODE: u8 = 244;
pub const PARAM_DATA: u8 = 245;

/// A remote-procedure call as the codec decodes it.
pub struct RpcCall {
    /// Actor that owns the calling object.
    pub owner_id: i32,
    pub method_name: Option<String>,
    /// Index into the shared list of method names, where the call names none.
    pub method_index: Option<u8>,
    /// Each argument, already rendered as text.
    pub arguments: Vec<String>,
}

/// One object's serialized stream of a state-synchronization event.
pub struct SerializedView {
    pub view_id: i32,
    pub data: String,
}

/// A parameter value, as far as this crate reads it.
pub enum Param {
    Text(String),
    Integer(i32),
    Rooms(Vec<RoomEntry>),
    Actors(Vec<(i32, Player)>),
    Player(Player),
    Rpc(RpcCall),
    Views(Vec<SerializedView>),
    Other,
}

pub struct Parameter {
    pub code: u8,
    pub value: Param,
}

/// A decoded frame.
pub enum PhotonMessage {
    OperationRequest { operation_code: u8, parameters: Vec<Parameter> },
    OperationResponse { operation_code: u8, return_code: i16, parameters: Vec<Parameter> },
    EventData { code: u8, parameters: Vec<Parameter> },
    InternalOperationRequest { operation_code: u8 },
    InternalOperationResponse { operation_code: u8 },
    Unclassified,
}

/// Kind of a frame, for the summary record.
pub enum MessageKind {
    OperationRequest,
    OperationResponse,
    EventData,
    InternalOperationRequest,
    InternalOperationResponse,
}

/// A method name, or the mark that it could not be resolved.
pub enum MethodName {
    Named(String),
    Unresolved,
}

/// `i` is the position of the first parameter with `code`.
pub open spec fn first_code_at(ps: Seq<Parameter>, code: u8, i: int) -> bool {
    &&& 0 <= i < ps.len()
    &&& ps[i].code == code
    &&& forall|j: int| 0 <= j < i ==> ps[j].code != code
}

pub open spec fn param_pos(ps: Seq<Parameter>, code: u8) -> int {
    choose|i: int| first_code_at(ps, code, i)
}

/// The value of the first parameter with `code`.
pub open spec fn param_of(ps: Seq<Parameter>, code: u8) -> Option<Param> {
    if exists|i: int| first_code_at(ps, code, i) {
        Some(ps[param_pos(ps, code)].value)
    } else {
        None
    }
}

pub open spec fn text_param(ps: Seq<Parameter>, code: u8) -> Option<String> {
    match param_of(ps, code) {
        Some(Param::Text(s)) => Some(s),
        _ => None,
    }
}

/// Position of the first parameter with `code`.
pub fn find_param(ps: &Vec<Parameter>, code: u8) -> (r: Option<usize>)
    ensures
        match r {
            Some(i) => first_code_at(ps@, code, i as int) && param_of(ps@, code) == Some(
                ps@[i as int].value,
            ),
            None => param_of(ps@, code) is None,
        },
{
    let mut i: usize = 0;
    while i < ps.len()
        invariant
            i <= ps.len(),
            forall|j: int| 0 <= j < i ==> ps@[j].code != code,
        decreases ps.len() - i,
    {
        if ps[i].code == code {
            proof {
                let k = param_pos(ps@, code);
                assert(first_code_at(ps@, code, i as int));
                if k < i {
                    assert(ps@[k].code != code);
                } else if i < k {
                    assert(ps@[i as int].code != code);
                }
            }
            return Some(i);
        }
        i = i + 1;
    }
    proof {
        if exists|k: int| first_code_at(ps@, code, k) {
            let k = param_pos(ps@, code);
            assert(ps@[k].code == code);
        }
    }
    None
}

/// A copy of the text parameter with `code`, where it is text.
pub fn get_text_param(ps: &Vec<Parameter>, code: u8) -> (r: Option<String>)
    ensures
        r == text_param(ps@, code),
{
    match find_param(ps, code) {
        Some(i) => match &ps[i].value {
            Param::Text(s) => Some(s.clone()),
            _ => None,
        },
        None => None,
    }
}

pub open spec fn summary_of(m: PhotonMessage) -> Option<(MessageKind, u8)> {
    match m {
        PhotonMessage::OperationRequest { operation_code, .. } => Some(
            (MessageKind::OperationRequest, operation_code),
        ),
        PhotonMessage::OperationResponse { operation_code, .. } => Some(
            (MessageKind::OperationResponse, operation_code),
        ),
        PhotonMessage::EventData { code, .. } => Some((MessageKind::EventData, code)),
        PhotonMessage::InternalOperationRequest { operation_code } => Some(
            (MessageKind::InternalOperationRequest, operation_code),
        ),
        PhotonMessage::InternalOperationResponse { operation_code } => Some(
            (MessageKind::InternalOperationResponse, operation_code),
        ),
        PhotonMessage::Unclassified => None,
    }
}

/// Kind and code of a frame for the summary record; none for an unclassified frame.
pub fn message_summary(m: &PhotonMessage) -> (r: Option<(MessageKind, u8)>)
    ensures
        r == summary_of(*m),
{
    match m {
        PhotonMessage::OperationRequest { operation_code, .. } => Some(
            (MessageKind::OperationRequest, *operation_code),
        ),
        PhotonMessage::OperationResponse { operation_code, .. } => Some(
            (MessageKind::OperationResponse, *operation_code),
        ),
        PhotonMessage::EventData { code, .. } => Some((MessageKind::EventData, *code)),
        PhotonMessage::InternalOperationRequest { operation_code } => Some(
            (MessageKind::InternalOperationRequest, *operation_code),
        ),
        PhotonMessage::InternalOperationResponse { operation_code } => Some(
            (MessageKind::InternalOperationResponse, *operation_code),
        ),
        PhotonMessage::Unclassified => None,
    }
}

pub open spec fn method_name_of(call: RpcCall, names: Seq<String>) -> MethodName {
    match call.method_name {
        Some(n) => MethodName::Named(n),
        None => match call.method_index {
            Some(i) => if (i as int) < names.len() {
                MethodName::Named(names[i as int])
            } else {
                MethodName::Unresolved
            },
            None => MethodName::Unresolved,
        },
    }
}

/// The name a call gives, else the one its index selects in `names`, else `Unresolved`.
pub fn get_rpc_method_name(call: &RpcCall, names: &Vec<String>) -> (r: MethodName)
    ensures
        r == method_name_of(*call, names@),
{
    match &call.method_name {
        Some(n) => MethodName::Named(n.clone()),
        None => match call.method_index {
            Some(i) => if (i as usize) < names.len() {
                MethodName::Named(names[i as usize].clone())
            } else {
                MethodName::Unresolved
            },
            None => MethodName::Unresolved,
        },
    }
}

/// The texts of `parts`, separated by `","`.
pub open spec fn joined(parts: Seq<Seq<char>>) -> Seq<char>
    decreases parts.len(),
{
    if parts.len() == 0 {
        Seq::empty()
    } else if parts.len() == 1 {
        parts[0]
    } else {
        joined(parts.drop_last()) + ","@ + parts.last()
    }
}

pub open spec fn strings_view(v: Seq<String>) -> Seq<Seq<char>> {
    v.map_values(|s: String| s@)
}

/// The arguments of a call as one text, separated by commas.
pub fn join_arguments(args: &Vec<String>) -> (r: String)
    ensures
        r@ == joined(strings_view(args@)),
{
    let mut r = String::new();
    let mut i: usize = 0;
    while i < args.len()
        invariant
            i <= args.len(),
            r@ == joined(strings_view(args@.subrange(0, i as int))),
        decreases args.len() - i,
    {
        let ghost before = strings_view(args@.subrange(0, i as int));
        if i > 0 {
            r.append(",");
        }
        r.append(args[i].as_str());
        proof {
            let now = strings_view(args@.subrange(0, i + 1));
            assert(now.drop_last() =~= before);
            assert(now.last() == args@[i as int]@);
            if i == 0 {
                assert(before =~= Seq::<Seq<char>>::empty());
                assert(r@ =~= now[0]);
            }
        }
        i = i + 1;
    }
    assert(args@.subrange(0, args.len() as int) =~= args@);
    r
}

} // verus!
