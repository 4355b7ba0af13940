//! Lobbies: the players that wait for a match, and the steps of a running
//! lobby.

use vstd::prelude::*;
use uuid::Uuid;

verus! {

/// A fresh id: the text of `uuid::Uuid::new_v4()`.
///
/// Trusted: that the text is 36 characters long, the length of the
/// hyphenated form in which a `Uuid` is displayed. The id is random, so no
/// more is said of it. `new_v4` draws from the system's source of
/// randomness and gives up where the system has none.
#[verifier::external_body]
fn random_id() -> (id: String)
    ensures
        id@.len() == 36,
{
    Uuid::new_v4().to_string()
}

/// What a lobby is made with.
#[derive(Debug)]
pub struct LobbySettings {
    pub name: String,
    pub player_limit: usize,
}

impl Clone for LobbySettings {
    fn clone(&self) -> (copy: LobbySettings)
        ensures
            copy.name@ == self.name@,
            copy.player_limit == self.player_limit,
    {
        LobbySettings { name: self.name.clone(), player_limit: self.player_limit }
    }
}

impl LobbySettings {
    pub fn new(name: String, player_limit: usize) -> (settings: LobbySettings)
        ensures
            settings.name == name,
            settings.player_limit == player_limit,
    {
        LobbySettings { name, player_limit }
    }
}

/// What a running lobby is told.
#[derive(Debug, Copy, Clone, PartialEq, Eq, Structural)]
pub enum LobbyCommand {
    Start,
    End,
}

/// What a running lobby tells.
#[derive(Debug, Copy, Clone, PartialEq, Eq, Structural)]
pub enum LobbyNotification {
    Started,
    Ended,
}

/// What a running lobby does about one message: the notice it gives, if
/// any, and whether it goes on.
#[derive(Debug, Copy, Clone, PartialEq, Eq, Structural)]
pub struct LobbyStep {
    pub notification: Option<LobbyNotification>,
    pub stop: bool,
}

/// The step for a message: a lobby that is started says so and goes on, a
/// lobby that is ended says so and stops, and a lobby whose commands have
/// run dry stops without a word.
pub open spec fn step_of(msg: Option<LobbyCommand>) -> LobbyStep {
    match msg {
        Some(LobbyCommand::Start) => LobbyStep {
            notification: Some(LobbyNotification::Started),
            stop: false,
        },
        Some(LobbyCommand::End) => LobbyStep {
            notification: Some(LobbyNotification::Ended),
            stop: true,
        },
        None => LobbyStep { notification: None, stop: true },
    }
}

/// What a running lobby does about the message it received, `None` standing
/// for the end of its commands.
pub fn lobby_step(msg: Option<LobbyCommand>) -> (step: LobbyStep)
    ensures
        step == step_of(msg),
{
    match msg {
        Some(LobbyCommand::Start) => LobbyStep {
            notification: Some(LobbyNotification::Started),
            stop: false,
        },
        Some(LobbyCommand::End) => LobbyStep {
            notification: Some(LobbyNotification::Ended),
            stop: true,
        },
        None => LobbyStep { notification: None, stop: true },
    }
}

/// The texts of a list of strings.
pub open spec fn texts(list: Seq<String>) -> Seq<Seq<char>> {
    Seq::new(list.len(), |i: int| list[i]@)
}

/// The index of the first of `names`, from index `from` on, that is `name`;
/// the number of names if there is none.
pub open spec fn position(names: Seq<Seq<char>>, name: Seq<char>, from: int) -> int
    decreases names.len() - from,
{
    if from < 0 || from >= names.len() {
        names.len() as int
    } else if names[from] == name {
        from
    } else {
        position(names, name, from + 1)
    }
}

/// The position is the first index that holds the name.
pub proof fn lemma_position(names: Seq<Seq<char>>, name: Seq<char>, from: int)
    requires
        0 <= from <= names.len(),
    ensures
        from <= position(names, name, from) <= names.len(),
        position(names, name, from) < names.len() ==> names[position(names, name, from)] == name,
        forall|i: int| from <= i < position(names, name, from) ==> names[i] != name,
    decreases names.len() - from,
{
    if from < names.len() && names[from] != name {
        lemma_position(names, name, from + 1);
    }
}

/// A lobby.
#[derive(Debug)]
pub struct Lobby {
    pub uuid: String,
    pub lobby_name: String,
    pub player_limit: usize,
    pub player_list: Vec<String>,
    pub creator_username: String,
    pub is_started: bool,
}

impl Lobby {
    /// The names of the players, in the order they joined.
    pub open spec fn players(&self) -> Seq<Seq<char>> {
        texts(self.player_list@)
    }

    /// A lobby without players that has not started.
    pub fn new(
        creator_username: String,
        uuid: String,
        lobby_name: String,
        player_limit: usize,
    ) -> (lobby: Lobby)
        ensures
            lobby.uuid == uuid,
            lobby.lobby_name == lobby_name,
            lobby.player_limit == player_limit,
            lobby.player_list@.len() == 0,
            lobby.creator_username == creator_username,
            !lobby.is_started,
    {
        Lobby {
            uuid,
            lobby_name,
            player_limit,
            player_list: Vec::new(),
            creator_username,
            is_started: false,
        }
    }

    /// A lobby with the name and the limit of the settings.
    pub fn from_settings_with_id(
        lobby_settings: LobbySettings,
        creator_username: String,
        uuid: String,
    ) -> (lobby: Lobby)
        ensures
            lobby.uuid == uuid,
            lobby.lobby_name == lobby_settings.name,
            lobby.player_limit == lobby_settings.player_limit,
            lobby.player_list@.len() == 0,
            lobby.creator_username == creator_username,
            !lobby.is_started,
    {
        Self::new(creator_username, uuid, lobby_settings.name, lobby_settings.player_limit)
    }

    /// A lobby with the name and the limit of the settings, under a fresh
    /// random id.
    pub fn from_settings(lobby_settings: LobbySettings, creator_username: String) -> (lobby: Lobby)
        ensures
            lobby.uuid@.len() == 36,
            lobby.lobby_name == lobby_settings.name,
            lobby.player_limit == lobby_settings.player_limit,
            lobby.player_list@.len() == 0,
            lobby.creator_username == creator_username,
            !lobby.is_started,
    {
        Lobby::from_settings_with_id(lobby_settings, creator_username, random_id())
    }

    pub fn player_count(&self) -> (count: usize)
        ensures
            count == self.players().len(),
    {
        self.player_list.len()
    }

    /// Adds a player at the end of the list. Neither the limit nor the
    /// names that are there are looked at.
    pub fn add_player(&mut self, username: String)
        ensures
            final(self).players() == old(self).players().push(username@),
            same_but_players(*final(self), *old(self)),
    {
        self.player_list.push(username);
        assert(self.players() =~= old(self).players().push(username@));
    }

    /// Whether a player of that name is in the lobby.
    pub fn has_player(&self, username: &str) -> (found: bool)
        ensures
            found == (position(self.players(), username@, 0) < self.players().len()),
    {
        self.find_player(username) < self.player_list.len()
    }

    fn find_player(&self, username: &str) -> (index: usize)
        ensures
            index == position(self.players(), username@, 0),
            index <= self.player_list@.len(),
    {
        let name = username.to_owned();
        let mut i: usize = 0;
        proof {
            lemma_position(self.players(), username@, 0);
        }
        while i < self.player_list.len()
            invariant
                i <= self.player_list@.len(),
                name@ == username@,
                position(self.players(), username@, 0) == position(
                    self.players(),
                    username@,
                    i as int,
                ),
            decreases self.player_list@.len() - i,
        {
            assert(self.players()[i as int] == self.player_list@[i as int]@);
            if self.player_list[i] == name {
                return i;
            }
            i += 1;
        }
        i
    }

    /// Removes the first player of that name from the list.
    pub fn remove_player(&mut self, username: &str)
        requires
            position(old(self).players(), username@, 0) < old(self).players().len(),
        ensures
            final(self).players() == old(self).players().remove(
                position(old(self).players(), username@, 0),
            ),
            same_but_players(*final(self), *old(self)),
    {
        let index = self.find_player(username);
        self.player_list.remove(index);
        assert(self.players() =~= old(self).players().remove(index as int));
    }
}

/// Whether two lobbies differ in nothing but their players.
pub open spec fn same_but_players(a: Lobby, b: Lobby) -> bool {
    &&& a.uuid == b.uuid
    &&& a.lobby_name == b.lobby_name
    &&& a.player_limit == b.player_limit
    &&& a.creator_username == b.creator_username
    &&& a.is_started == b.is_started
}

/// The ids of a list of lobbies.
pub open spec fn ids(lobbies: Seq<Lobby>) -> Seq<Seq<char>> {
    Seq::new(lobbies.len(), |i: int| lobbies[i].uuid@)
}

/// The lobbies of a server, each under its id.
#[derive(Debug)]
pub struct LobbyContainer {
    lobbies: Vec<Lobby>,
}

impl View for LobbyContainer {
    type V = Seq<Lobby>;

    closed spec fn view(&self) -> Seq<Lobby> {
        self.lobbies@
    }
}

impl LobbyContainer {
    /// The invariant: no two lobbies have the same id.
    pub open spec fn wf(&self) -> bool {
        forall|i: int, j: int|
            0 <= i < j < self@.len() ==> (#[trigger] self@[i]).uuid@ != (#[trigger] self@[j]).uuid@
    }

    /// Where the lobby with that id is; the number of lobbies if there is
    /// none.
    pub open spec fn index_of(&self, uuid: Seq<char>) -> int {
        position(ids(self@), uuid, 0)
    }

    /// Whether there is a lobby with that id.
    pub open spec fn has(&self, uuid: Seq<char>) -> bool {
        self.index_of(uuid) < self@.len()
    }

    pub fn new() -> (container: LobbyContainer)
        ensures
            container.wf(),
            container@.len() == 0,
    {
        LobbyContainer { lobbies: Vec::new() }
    }

    fn find(&self, uuid: &str) -> (index: usize)
        ensures
            index == self.index_of(uuid@),
            index <= self@.len(),
            index < self@.len() ==> self@[index as int].uuid@ == uuid@,
            forall|i: int| 0 <= i < index ==> (#[trigger] self@[i]).uuid@ != uuid@,
    {
        let id = uuid.to_owned();
        let mut i: usize = 0;
        proof {
            lemma_position(ids(self@), uuid@, 0);
        }
        while i < self.lobbies.len()
            invariant
                i <= self.lobbies@.len(),
                id@ == uuid@,
                self.index_of(uuid@) == position(ids(self@), uuid@, i as int),
                forall|k: int| 0 <= k < i ==> (#[trigger] self@[k]).uuid@ != uuid@,
            decreases self.lobbies@.len() - i,
        {
            assert(ids(self@)[i as int] == self.lobbies@[i as int].uuid@);
            if self.lobbies[i].uuid == id {
                return i;
            }
            i += 1;
        }
        i
    }

    pub fn contains_id(&self, uuid: &str) -> (found: bool)
        ensures
            found == self.has(uuid@),
    {
        self.find(uuid) < self.lobbies.len()
    }

    /// Puts the lobby under its id. A lobby that was there under that id
    /// makes way and is handed back.
    pub fn add_lobby(&mut self, lobby: Lobby) -> (previous: Option<Lobby>)
        requires
            old(self).wf(),
        ensures
            final(self).wf(),
            final(self).has(lobby.uuid@),
            final(self)@[final(self).index_of(lobby.uuid@)] == lobby,
            match previous {
                Some(p) => old(self).has(lobby.uuid@) && p == old(self)@[old(self).index_of(
                    lobby.uuid@,
                )] && final(self)@ == old(self)@.remove(old(self).index_of(lobby.uuid@)).push(
                    lobby,
                ),
                None => !old(self).has(lobby.uuid@) && final(self)@ == old(self)@.push(lobby),
            },
    {
        let index = self.find(lobby.uuid.as_str());
        let previous = if index < self.lobbies.len() {
            Some(self.lobbies.remove(index))
        } else {
            None
        };
        let ghost rest = self@;
        let ghost id = lobby.uuid@;
        assert forall|k: int| 0 <= k < rest.len() implies (#[trigger] rest[k]).uuid@ != id by {
            if index < old(self)@.len() {
                if k < index {
                    assert(rest[k] == old(self)@[k]);
                } else {
                    assert(rest[k] == old(self)@[k + 1]);
                }
            }
        }
        assert forall|i: int, j: int| 0 <= i < j < rest.len() implies (#[trigger] rest[i]).uuid@ != (
        #[trigger] rest[j]).uuid@ by {
            if index < old(self)@.len() {
                let a = if i < index {
                    i
                } else {
                    i + 1
                };
                let b = if j < index {
                    j
                } else {
                    j + 1
                };
                assert(rest[i] == old(self)@[a] && rest[j] == old(self)@[b]);
            }
        }
        self.lobbies.push(lobby);
        proof {
            let n = rest.len() as int;
            assert(self@[n] == lobby);
            lemma_position(ids(self@), id, 0);
            assert(ids(self@)[n] == id);
            assert forall|k: int| 0 <= k < n implies ids(self@)[k] != id by {
                assert(self@[k] == rest[k]);
            }
            assert(self.index_of(id) == n);
            assert forall|i: int, j: int| 0 <= i < j < self@.len() implies (#[trigger] self@[i]).uuid@
                != (#[trigger] self@[j]).uuid@ by {
                assert(self@[i] == rest[i]);
                if j < n {
                    assert(self@[j] == rest[j]);
                }
            }
        }
        previous
    }

    /// The lobby with that id, if there is one.
    pub fn get_lobby(&self, uuid: &str) -> (lobby: Option<&Lobby>)
        ensures
            match lobby {
                Some(l) => self.has(uuid@) && *l == self@[self.index_of(uuid@)],
                None => !self.has(uuid@),
            },
    {
        let index = self.find(uuid);
        if index < self.lobbies.len() {
            Some(&self.lobbies[index])
        } else {
            None
        }
    }

    /// Takes the lobby with that id out, if there is one, and hands it
    /// back.
    pub fn delete_lobby(&mut self, uuid: &str) -> (lobby: Option<Lobby>)
        requires
            old(self).wf(),
        ensures
            final(self).wf(),
            !final(self).has(uuid@),
            match lobby {
                Some(l) => old(self).has(uuid@) && l == old(self)@[old(self).index_of(uuid@)]
                    && final(self)@ == old(self)@.remove(old(self).index_of(uuid@)),
                None => !old(self).has(uuid@) && final(self)@ == old(self)@,
            },
    {
        let index = self.find(uuid);
        if index < self.lobbies.len() {
            let lobby = self.lobbies.remove(index);
            proof {
                let rest = self@;
                assert forall|k: int| 0 <= k < rest.len() implies (#[trigger] rest[k]).uuid@
                    != uuid@ by {
                    if k < index {
                        assert(rest[k] == old(self)@[k]);
                    } else {
                        assert(rest[k] == old(self)@[k + 1]);
                    }
                }
                assert forall|i: int, j: int| 0 <= i < j < rest.len() implies (
                #[trigger] rest[i]).uuid@ != (#[trigger] rest[j]).uuid@ by {
                    let a = if i < index {
                        i
                    } else {
                        i + 1
                    };
                    let b = if j < index {
                        j
                    } else {
                        j + 1
                    };
                    assert(rest[i] == old(self)@[a] && rest[j] == old(self)@[b]);
                }
                lemma_position(ids(rest), uuid@, 0);
                if position(ids(rest), uuid@, 0) < rest.len() {
                    let k = position(ids(rest), uuid@, 0);
                    assert(ids(rest)[k] == rest[k].uuid@);
                }
            }
            Some(lobby)
        } else {
            None
        }
    }

    /// Adds a player to the lobby with that id.
    pub fn add_player(&mut self, uuid: &str, username: String)
        requires
            old(self).wf(),
            old(self).has(uuid@),
        ensures
            final(self).wf(),
            final(self)@.len() == old(self)@.len(),
            final(self).index_of(uuid@) == old(self).index_of(uuid@),
            same_but_players(
                final(self)@[old(self).index_of(uuid@)],
                old(self)@[old(self).index_of(uuid@)],
            ),
            final(self)@[old(self).index_of(uuid@)].players() == old(self)@[old(self).index_of(
                uuid@,
            )].players().push(username@),
            forall|k: int|
                0 <= k < old(self)@.len() && k != old(self).index_of(uuid@) ==> final(self)@[k]
                    == old(self)@[k],
    {
        let index = self.find(uuid);
        self.lobbies[index].add_player(username);
        proof {
            assert(ids(self@) =~= ids(old(self)@)) by {
                assert forall|k: int| 0 <= k < self@.len() implies ids(self@)[k] == ids(
                    old(self)@,
                )[k] by {
                    if k != index {
                        assert(self@[k] == old(self)@[k]);
                    }
                }
            }
            assert forall|i: int, j: int| 0 <= i < j < self@.len() implies (#[trigger] self@[i]).uuid@
                != (#[trigger] self@[j]).uuid@ by {
                assert(self@[i].uuid@ == old(self)@[i].uuid@);
                assert(self@[j].uuid@ == old(self)@[j].uuid@);
            }
        }
    }

    /// Removes the first player of that name from the lobby with that id.
    pub fn remove_player(&mut self, uuid: &str, username: &str)
        requires
            old(self).wf(),
            old(self).has(uuid@),
            position(old(self)@[old(self).index_of(uuid@)].players(), username@, 0) < old(self)@[old(self).index_of(uuid@)].players().len(),
        ensures
            final(self).wf(),
            final(self)@.len() == old(self)@.len(),
            final(self).index_of(uuid@) == old(self).index_of(uuid@),
            same_but_players(
                final(self)@[old(self).index_of(uuid@)],
                old(self)@[old(self).index_of(uuid@)],
            ),
            final(self)@[old(self).index_of(uuid@)].players() == old(self)@[old(self).index_of(
                uuid@,
            )].players().remove(
                position(old(self)@[old(self).index_of(uuid@)].players(), username@, 0),
            ),
            forall|k: int|
                0 <= k < old(self)@.len() && k != old(self).index_of(uuid@) ==> final(self)@[k]
                    == old(self)@[k],
    {
        let index = self.find(uuid);
        self.lobbies[index].remove_player(username);
        proof {
            assert(ids(self@) =~= ids(old(self)@)) by {
                assert forall|k: int| 0 <= k < self@.len() implies ids(self@)[k] == ids(
                    old(self)@,
                )[k] by {
                    if k != index {
                        assert(self@[k] == old(self)@[k]);
                    }
                }
            }
            assert forall|i: int, j: int| 0 <= i < j < self@.len() implies (#[trigger] self@[i]).uuid@
                != (#[trigger] self@[j]).uuid@ by {
                assert(self@[i].uuid@ == old(self)@[i].uuid@);
                assert(self@[j].uuid@ == old(self)@[j].uuid@);
            }
        }
    }
}

} // verus!
