use vstd::prelude::*;

use std::collections::HashMap;

use crate::lobby::FlagSnapshot;

verus! {

broadcast use vstd::std_specs::hash::group_hash_axioms;

/// Identity of one participant of a joined game.
pub struct Player {
    pub nickname: Option<String>,
    pub user_id: Option<String>,
}

/// What one connection knows, and the toggles that drive the lobby rules.
pub struct HaxState {
    pub strip_passwords: bool,
    pub show_mobile_games: bool,
    pub show_other_versions: bool,
    pub game_version: Option<String>,
    pub user_id: Option<String>,
    pub player_id: Option<i32>,
    pub players: HashMap<i32, Player>,
    /// Method names that an RPC may name by index.
    pub rpc_names: Vec<String>,
}

/// `m` after inserting each entry of `s` in turn: a later entry wins over an earlier one.
pub open spec fn merged(m: Map<i32, Player>, s: Seq<(i32, Player)>) -> Map<i32, Player>
    decreases s.len(),
{
    if s.len() == 0 {
        m
    } else {
        merged(m, s.drop_last()).insert(s.last().0, s.last().1)
    }
}

/// `s[i]` is the last entry of `s` for its actor.
pub open spec fn last_for_actor(s: Seq<(i32, Player)>, i: int) -> bool {
    &&& 0 <= i < s.len()
    &&& forall|j: int| i < j < s.len() ==> s[j].0 != s[i].0
}

pub fn copy_opt_string(s: &Option<String>) -> (r: Option<String>)
    ensures
        r == *s,
{
    match s {
        Some(x) => Some(x.clone()),
        None => None,
    }
}

pub fn copy_player(p: &Player) -> (r: Player)
    ensures
        r == *p,
{
    Player { nickname: copy_opt_string(&p.nickname), user_id: copy_opt_string(&p.user_id) }
}

impl HaxState {
    /// A fresh session: nothing known yet, no players.
    pub fn new(
        strip_passwords: bool,
        show_mobile_games: bool,
        show_other_versions: bool,
        rpc_names: Vec<String>,
    ) -> (r: HaxState)
        ensures
            r.strip_passwords == strip_passwords,
            r.show_mobile_games == show_mobile_games,
            r.show_other_versions == show_other_versions,
            r.game_version is None,
            r.user_id is None,
            r.player_id is None,
            r.players@ == Map::<i32, Player>::empty(),
            r.rpc_names@ == rpc_names@,
    {
        HaxState {
            strip_passwords,
            show_mobile_games,
            show_other_versions,
            game_version: None,
            user_id: None,
            player_id: None,
            players: HashMap::new(),
            rpc_names,
        }
    }

    /// Records what an authenticate request carried; an absent value keeps the one known.
    pub fn set_auth_identity(&mut self, app_version: Option<String>, user_id: Option<String>)
        ensures
            final(self).game_version == (if app_version is Some {
                app_version
            } else {
                old(self).game_version
            }),
            final(self).user_id == (if user_id is Some {
                user_id
            } else {
                old(self).user_id
            }),
            final(self).player_id == old(self).player_id,
            final(self).players@ == old(self).players@,
            final(self).strip_passwords == old(self).strip_passwords,
            final(self).show_mobile_games == old(self).show_mobile_games,
            final(self).show_other_versions == old(self).show_other_versions,
            final(self).rpc_names@ == old(self).rpc_names@,
    {
        if app_version.is_some() {
            self.game_version = app_version;
        }
        if user_id.is_some() {
            self.user_id = user_id;
        }
    }

    /// Records the local actor number of a joined game.
    pub fn set_player_id(&mut self, actor_number: i32)
        ensures
            final(self).player_id == Some(actor_number),
            final(self).game_version == old(self).game_version,
            final(self).user_id == old(self).user_id,
            final(self).players@ == old(self).players@,
            final(self).strip_passwords == old(self).strip_passwords,
            final(self).show_mobile_games == old(self).show_mobile_games,
            final(self).show_other_versions == old(self).show_other_versions,
            final(self).rpc_names@ == old(self).rpc_names@,
    {
        self.player_id = Some(actor_number);
    }

    /// Adds or overwrites the given players; none is removed.
    pub fn merge_players(&mut self, incoming: &Vec<(i32, Player)>)
        ensures
            final(self).players@ == merged(old(self).players@, incoming@),
            final(self).player_id == old(self).player_id,
            final(self).game_version == old(self).game_version,
            final(self).user_id == old(self).user_id,
            final(self).strip_passwords == old(self).strip_passwords,
            final(self).show_mobile_games == old(self).show_mobile_games,
            final(self).show_other_versions == old(self).show_other_versions,
            final(self).rpc_names@ == old(self).rpc_names@,
    {
        let ghost start = self.players@;
        let mut i: usize = 0;
        while i < incoming.len()
            invariant
                i <= incoming.len(),
                self.players@ == merged(start, incoming@.subrange(0, i as int)),
                self.player_id == old(self).player_id,
                self.game_version == old(self).game_version,
                self.user_id == old(self).user_id,
                self.strip_passwords == old(self).strip_passwords,
                self.show_mobile_games == old(self).show_mobile_games,
                self.show_other_versions == old(self).show_other_versions,
                self.rpc_names@ == old(self).rpc_names@,
            decreases incoming.len() - i,
        {
            let actor = incoming[i].0;
            let p = copy_player(&incoming[i].1);
            self.players.insert(actor, p);
            proof {
                let s = incoming@.subrange(0, i + 1);
                assert(s.drop_last() =~= incoming@.subrange(0, i as int));
            }
            i = i + 1;
        }
        assert(incoming@.subrange(0, incoming.len() as int) =~= incoming@);
    }

    /// A copy of the toggles and the known game version, for one pass of the lobby rules.
    pub fn snapshot_flags(&self) -> (r: FlagSnapshot)
        ensures
            r.strip_passwords == self.strip_passwords,
            r.show_mobile_games == self.show_mobile_games,
            r.show_other_versions == self.show_other_versions,
            r.game_version == self.game_version,
    {
        FlagSnapshot {
            strip_passwords: self.strip_passwords,
            show_mobile_games: self.show_mobile_games,
            show_other_versions: self.show_other_versions,
            game_version: copy_opt_string(&self.game_version),
        }
    }
}

/// Merging never removes a player; an actor that the new entries do not name keeps its record;
/// and an actor that they name gets the record of its last entry.
pub proof fn lemma_merge_players(m: Map<i32, Player>, s: Seq<(i32, Player)>)
    ensures
        forall|k: i32| m.contains_key(k) ==> #[trigger] merged(m, s).contains_key(k),
        forall|k: i32|
            m.contains_key(k) && (forall|j: int| 0 <= j < s.len() ==> s[j].0 != k) ==> #[trigger] merged(
                m,
                s,
            )[k] == m[k],
        forall|i: int|
            #[trigger] last_for_actor(s, i) ==> merged(m, s).contains_key(s[i].0) && merged(m, s)[s[i].0]
                == s[i].1,
    decreases s.len(),
{
    if s.len() > 0 {
        let t = s.drop_last();
        lemma_merge_players(m, t);
        assert forall|i: int| #[trigger] last_for_actor(s, i) implies merged(m, s).contains_key(
            s[i].0,
        ) && merged(m, s)[s[i].0] == s[i].1 by {
            if i < s.len() - 1 {
                assert(last_for_actor(t, i));
            }
        }
        assert forall|k: i32| m.contains_key(k) implies #[trigger] merged(m, s).contains_key(k) by {
            assert(merged(m, t).contains_key(k));
        }
        assert forall|k: i32|
            m.contains_key(k) && (forall|j: int| 0 <= j < s.len() ==> s[j].0 != k) implies #[trigger] merged(
            m,
            s,
        )[k] == m[k] by {
            assert(s[s.len() - 1].0 != k);
            assert forall|j: int| 0 <= j < t.len() implies t[j].0 != k by {
                assert(s[j].0 != k);
            }
            assert(merged(m, t).contains_key(k));
            assert(merged(m, t)[k] == m[k]);
        }
    }
}

} // verus!
