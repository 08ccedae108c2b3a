use vstd::prelude::*;

use crate::props::{
    bracket, bracketed, copy_props, get_text, is_prefix_of, props_eq, props_view, set_text,
    starts_with, text_of, with_text, Property, Props,
};

verus! {

/// The store tag of rooms that the web client lists.
pub const WEB_STORE: &'static str = "BALYZE_WEB";

/// The store tag of rooms made from the mobile client.
pub const MOBILE_STORE: &'static str = "BALYZE_MOBILE";

/// Version-tag prefix of another game that shares the relay; its rooms are never touched.
pub const FOREIGN_VERSION_PREFIX: &'static str = "newfps-";

/// A room's custom properties.
pub struct RoomInfo {
    pub custom_properties: Vec<Property>,
}

impl View for RoomInfo {
    type V = Props;

    open spec fn view(&self) -> Props {
        props_view(self.custom_properties@)
    }
}

/// One room of a listing: its name and its properties.
pub struct RoomEntry {
    pub game_name: String,
    pub info: RoomInfo,
}

impl View for RoomEntry {
    type V = (Seq<char>, Props);

    open spec fn view(&self) -> (Seq<char>, Props) {
        (self.game_name@, self.info@)
    }
}

/// The toggles and the known game version, copied once per pass.
pub struct FlagSnapshot {
    pub strip_passwords: bool,
    pub show_mobile_games: bool,
    pub show_other_versions: bool,
    pub game_version: Option<String>,
}

/// What the engine made of a listing.
pub enum ListingChange {
    Unchanged,
    Changed(Vec<RoomEntry>),
}

/// Result of one pass over a listing.
pub struct LobbyPass {
    pub change: ListingChange,
    /// Version pinning was asked for, a room was subject to it, and no local version is known.
    pub version_unknown: bool,
}

pub open spec fn prefix_name(ps: Props, tag: Seq<char>) -> Props {
    match text_of(ps, "roomName"@) {
        Some(n) => with_text(ps, "roomName"@, bracket(tag) + n),
        None => ps,
    }
}

pub open spec fn strip_password_spec(ps: Props) -> Props {
    match text_of(ps, "password"@) {
        Some(pw) => if pw.len() > 0 {
            with_text(prefix_name(ps, "p"@), "password"@, Seq::empty())
        } else {
            ps
        },
        None => ps,
    }
}

pub open spec fn force_web_spec(ps: Props) -> Props {
    match text_of(ps, "storeID"@) {
        Some(s) => {
            let named = if s == WEB_STORE@ {
                ps
            } else if s == MOBILE_STORE@ {
                prefix_name(ps, "M"@)
            } else {
                prefix_name(ps, s)
            };
            with_text(named, "storeID"@, WEB_STORE@)
        },
        None => ps,
    }
}

pub open spec fn pin_version_spec(ps: Props, target: Seq<char>) -> Props {
    match text_of(ps, "gameVersion"@) {
        Some(v) => if v != target {
            with_text(prefix_name(ps, v), "gameVersion"@, target)
        } else {
            ps
        },
        None => ps,
    }
}

/// The part of a version before its first `'_'`, or all of it.
pub open spec fn before_underscore(s: Seq<char>) -> Seq<char>
    decreases s.len(),
{
    if s.len() == 0 {
        s
    } else if s[0] == '_' {
        Seq::empty()
    } else {
        seq![s[0]] + before_underscore(s.drop_first())
    }
}

pub open spec fn local_version(f: FlagSnapshot) -> Option<Seq<char>> {
    match f.game_version {
        Some(v) => Some(before_underscore(v@)),
        None => None,
    }
}

/// The room belongs to the other game: its lower-case `gameversion` starts with the reserved prefix.
pub open spec fn is_exempt(ps: Props) -> bool {
    match text_of(ps, "gameversion"@) {
        Some(v) => is_prefix_of(FOREIGN_VERSION_PREFIX@, v),
        None => false,
    }
}

/// All rules, in their order, on one room.
pub open spec fn transform_props(ps: Props, f: FlagSnapshot) -> Props {
    if is_exempt(ps) {
        ps
    } else {
        let a = if f.show_mobile_games {
            force_web_spec(ps)
        } else {
            ps
        };
        let b = if f.show_other_versions && local_version(f) is Some {
            pin_version_spec(a, local_version(f)->0)
        } else {
            a
        };
        if f.strip_passwords {
            strip_password_spec(b)
        } else {
            b
        }
    }
}

pub open spec fn rooms_view(rs: Seq<RoomEntry>) -> Seq<(Seq<char>, Props)> {
    rs.map_values(|e: RoomEntry| e@)
}

pub open spec fn transform_listing(rs: Seq<(Seq<char>, Props)>, f: FlagSnapshot) -> Seq<
    (Seq<char>, Props),
> {
    rs.map_values(|e: (Seq<char>, Props)| (e.0, transform_props(e.1, f)))
}

pub open spec fn warns_version(rs: Seq<(Seq<char>, Props)>, f: FlagSnapshot) -> bool {
    &&& f.show_other_versions
    &&& f.game_version is None
    &&& exists|i: int| 0 <= i < rs.len() && !is_exempt(#[trigger] rs[i].1)
}

/// Prefixes the display name with `"[" + tag + "] "`, where it is text.
fn prefix_room_name(props: &mut Vec<Property>, tag: &str)
    ensures
        props_view(final(props)@) == prefix_name(props_view(old(props)@), tag@),
{
    let key = String::from_str("roomName");
    match get_text(props, &key) {
        Some(name) => {
            let named = bracketed(tag, name.as_str());
            set_text(props, &key, named);
        },
        None => {},
    }
}

/// Blanks a non-empty password and marks the room name with `"[p] "`.
pub fn strip_password(room_info: &mut RoomInfo)
    ensures
        final(room_info)@ == strip_password_spec(old(room_info)@),
{
    let key = String::from_str("password");
    match get_text(&room_info.custom_properties, &key) {
        Some(pw) => {
            if pw.unicode_len() > 0 {
                prefix_room_name(&mut room_info.custom_properties, "p");
                set_text(&mut room_info.custom_properties, &key, String::new());
            }
        },
        None => {},
    }
}

/// Sets the store tag to the web tag, marking the name with the tag it had.
pub fn force_games_web(room_info: &mut RoomInfo)
    ensures
        final(room_info)@ == force_web_spec(old(room_info)@),
{
    let key = String::from_str("storeID");
    match get_text(&room_info.custom_properties, &key) {
        Some(store) => {
            let web = String::from_str(WEB_STORE);
            let mobile = String::from_str(MOBILE_STORE);
            if store == web {
            } else if store == mobile {
                prefix_room_name(&mut room_info.custom_properties, "M");
            } else {
                prefix_room_name(&mut room_info.custom_properties, store.as_str());
            }
            set_text(&mut room_info.custom_properties, &key, web);
        },
        None => {},
    }
}

/// Overwrites a differing version tag with `target_version`, marking the name with the old one.
pub fn force_games_current_ver(room_info: &mut RoomInfo, target_version: &str)
    ensures
        final(room_info)@ == pin_version_spec(old(room_info)@, target_version@),
{
    let key = String::from_str("gameVersion");
    let target = String::from_str(target_version);
    match get_text(&room_info.custom_properties, &key) {
        Some(actual) => {
            if !(actual == target) {
                prefix_room_name(&mut room_info.custom_properties, actual.as_str());
                set_text(&mut room_info.custom_properties, &key, target);
            }
        },
        None => {},
    }
}

proof fn lemma_before_underscore(s: Seq<char>, i: int)
    requires
        0 <= i <= s.len(),
        forall|j: int| 0 <= j < i ==> s[j] != '_',
        i == s.len() || s[i] == '_',
    ensures
        before_underscore(s) == s.subrange(0, i),
    decreases i,
{
    if i == 0 {
        assert(s.subrange(0, 0) =~= Seq::<char>::empty());
    } else {
        let t = s.drop_first();
        assert forall|j: int| 0 <= j < i - 1 implies t[j] != '_' by {
            assert(s[j + 1] != '_');
        }
        lemma_before_underscore(t, i - 1);
        assert(s.subrange(0, i) =~= seq![s[0]] + t.subrange(0, i - 1));
    }
}

/// The part of a version string before its first `'_'` (`"1.89.0_1.99"` gives `"1.89.0"`).
pub fn effective_version(version: &str) -> (r: String)
    ensures
        r@ == before_underscore(version@),
{
    let n = version.unicode_len();
    let mut i: usize = 0;
    while i < n && version.get_char(i) != '_'
        invariant
            n == version@.len(),
            i <= n,
            forall|j: int| 0 <= j < i ==> version@[j] != '_',
        decreases n - i,
    {
        i = i + 1;
    }
    proof {
        lemma_before_underscore(version@, i as int);
    }
    String::from_str(version.substring_char(0, i))
}

/// Whether the room belongs to the other game that shares the relay.
pub fn room_is_exempt(room_info: &RoomInfo) -> (r: bool)
    ensures
        r == is_exempt(room_info@),
{
    let key = String::from_str("gameversion");
    match get_text(&room_info.custom_properties, &key) {
        Some(v) => starts_with(v.as_str(), FOREIGN_VERSION_PREFIX),
        None => false,
    }
}

/// Applies every enabled rule to one room; `local` is the effective local version.
fn mutate_room(room_info: &mut RoomInfo, flags: &FlagSnapshot, local: &Option<String>)
    requires
        match local {
            Some(v) => local_version(*flags) == Some(v@),
            None => local_version(*flags) is None,
        },
    ensures
        final(room_info)@ == transform_props(old(room_info)@, *flags),
{
    if room_is_exempt(room_info) {
        return;
    }
    if flags.show_mobile_games {
        force_games_web(room_info);
    }
    if flags.show_other_versions {
        match local {
            Some(v) => force_games_current_ver(room_info, v.as_str()),
            None => {},
        }
    }
    if flags.strip_passwords {
        strip_password(room_info);
    }
}

/// Runs the lobby rules over a room listing.
///
/// The result is `Unchanged` exactly when no room is altered; otherwise it holds the
/// rewritten listing, rooms in the same order and under the same names.
pub fn mutate_listing(rooms: &Vec<RoomEntry>, flags: &FlagSnapshot) -> (r: LobbyPass)
    ensures
        r.change is Unchanged <==> transform_listing(rooms_view(rooms@), *flags) == rooms_view(
            rooms@,
        ),
        r.change matches ListingChange::Changed(out) ==> rooms_view(out@) == transform_listing(
            rooms_view(rooms@),
            *flags,
        ),
        r.version_unknown == warns_version(rooms_view(rooms@), *flags),
{
    let local: Option<String> = match &flags.game_version {
        Some(v) => Some(effective_version(v.as_str())),
        None => None,
    };
    let ghost rv = rooms_view(rooms@);
    let ghost expected = transform_listing(rv, *flags);
    let mut out: Vec<RoomEntry> = Vec::new();
    let mut changed = false;
    let mut subject = false;
    let mut i: usize = 0;
    while i < rooms.len()
        invariant
            i <= rooms.len(),
            rv == rooms_view(rooms@),
            expected == transform_listing(rv, *flags),
            match local {
                Some(v) => local_version(*flags) == Some(v@),
                None => local_version(*flags) is None,
            },
            out@.len() == i,
            forall|j: int| 0 <= j < i ==> (#[trigger] out@[j])@ == expected[j],
            changed == exists|j: int| 0 <= j < i && expected[j] != #[trigger] rv[j],
            subject == exists|j: int| 0 <= j < i && !is_exempt(#[trigger] rv[j].1),
        decreases rooms.len() - i,
    {
        let entry = &rooms[i];
        let mut info = RoomInfo { custom_properties: copy_props(&entry.info.custom_properties) };
        if !room_is_exempt(&info) {
            subject = true;
        }
        mutate_room(&mut info, flags, &local);
        if !props_eq(&info.custom_properties, &entry.info.custom_properties) {
            changed = true;
        }
        out.push(RoomEntry { game_name: entry.game_name.clone(), info });
        proof {
            assert(expected[i as int] != rv[i as int] <==> transform_props(rv[i as int].1, *flags)
                != rv[i as int].1);
        }
        i = i + 1;
    }
    let version_unknown = flags.show_other_versions && flags.game_version.is_none() && subject;
    if changed {
        proof {
            let j = choose|j: int| 0 <= j < rooms.len() && expected[j] != #[trigger] rv[j];
            assert(expected[j] != rv[j]);
        }
        assert(rooms_view(out@) =~= expected);
        LobbyPass { change: ListingChange::Changed(out), version_unknown }
    } else {
        assert(expected =~= rv);
        LobbyPass { change: ListingChange::Unchanged, version_unknown }
    }
}

/// With every toggle off, no listing is altered.
pub proof fn lemma_all_off_unchanged(rs: Seq<(Seq<char>, Props)>, f: FlagSnapshot)
    requires
        !f.strip_passwords,
        !f.show_mobile_games,
        !f.show_other_versions,
    ensures
        transform_listing(rs, f) == rs,
{
    assert(transform_listing(rs, f) =~= rs);
}

/// A room of the other game is left as it is, whatever the toggles.
pub proof fn lemma_exempt_untouched(ps: Props, f: FlagSnapshot)
    requires
        is_exempt(ps),
    ensures
        transform_props(ps, f) == ps,
{
}

/// With no known local version, version pinning is skipped and every other rule still applies.
pub proof fn lemma_unknown_version_skips_pinning(ps: Props, f: FlagSnapshot)
    requires
        f.game_version is None,
    ensures
        transform_props(ps, f) == transform_props(
            ps,
            FlagSnapshot {
                strip_passwords: f.strip_passwords,
                show_mobile_games: f.show_mobile_games,
                show_other_versions: false,
                game_version: None,
            },
        ),
{
}

} // verus!
