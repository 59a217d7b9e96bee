//! The store: the roster of players, the name being typed for the next
//! one, and the messages that change them.

use crate::player::Player;
use crate::player::PlayerView;
use crate::player::lemma_fresh_player;
use crate::player::lemma_recorded_on_complete_sheet;
use crate::score::Score;
use crate::util::edited_score;
use crate::util::entered;
use vstd::prelude::*;

verus! {

/// What can happen to the store.
#[derive(Debug, Clone)]
pub enum Message {
    /// The text of the name field is now this.
    PlayerNameChanged(String),
    /// The name field was submitted.
    AddPlayer,
    /// The player at this position of the roster gets this score.
    SetScore(usize, Score),
}

/// A message, as plain values.
pub enum MessageView {
    PlayerNameChanged(Seq<char>),
    AddPlayer,
    SetScore(int, Score),
}

impl View for Message {
    type V = MessageView;

    open spec fn view(&self) -> MessageView {
        match self {
            Message::PlayerNameChanged(name) => MessageView::PlayerNameChanged(name@),
            Message::AddPlayer => MessageView::AddPlayer,
            Message::SetScore(player_idx, score) => MessageView::SetScore(
                *player_idx as int,
                *score,
            ),
        }
    }
}

/// The state of the store, as plain values.
pub struct StateView {
    /// The roster, in the order in which the players were added.
    pub players: Seq<PlayerView>,
    /// The name typed for the next player, if any was typed since the last
    /// player was added.
    pub pending: Option<Seq<char>>,
}

impl StateView {
    /// The store before any message: no player, no name.
    pub open spec fn initial() -> StateView {
        StateView { players: Seq::empty(), pending: None }
    }

    /// Every player's id is the player's position in the roster, and every
    /// sheet is complete.
    pub open spec fn wf(self) -> bool {
        forall|i: int|
            0 <= i < self.players.len() ==> (#[trigger] self.players[i]).id == i
                && self.players[i].wf()
    }

    /// Whether `message` may be sent in this state: a score can only go to
    /// a player of the roster.
    pub open spec fn admits(self, message: MessageView) -> bool {
        message matches MessageView::SetScore(player_idx, _) ==> 0 <= player_idx
            < self.players.len()
    }

    /// The state after `message`.
    pub open spec fn step(self, message: MessageView) -> StateView
        recommends
            self.admits(message),
    {
        match message {
            MessageView::PlayerNameChanged(name) => StateView { pending: Some(name), ..self },
            MessageView::AddPlayer => match self.pending {
                Some(name) => StateView {
                    players: self.players.push(PlayerView::fresh(self.players.len() as int, name)),
                    pending: None,
                },
                None => self,
            },
            MessageView::SetScore(player_idx, score) => StateView {
                players: self.players.update(player_idx, self.players[player_idx].with_score(score)),
                ..self
            },
        }
    }

    /// Whether the messages of `messages` may be sent one after the other,
    /// starting in this state.
    pub open spec fn admits_all(self, messages: Seq<MessageView>) -> bool
        decreases messages.len(),
    {
        messages.len() == 0 || (self.admits_all(messages.drop_last()) && self.run(
            messages.drop_last(),
        ).admits(messages.last()))
    }

    /// The state after the messages of `messages`, in their order.
    pub open spec fn run(self, messages: Seq<MessageView>) -> StateView
        decreases messages.len(),
    {
        if messages.len() == 0 {
            self
        } else {
            self.run(messages.drop_last()).step(messages.last())
        }
    }

    /// No message breaks the roster: after it every id is still the
    /// player's position and every sheet is still complete. No message but
    /// `AddPlayer` changes the number of players, and none removes one.
    pub proof fn lemma_step_keeps_wf(self, message: MessageView)
        requires
            self.wf(),
            self.admits(message),
        ensures
            self.step(message).wf(),
            self.step(message).players.len() >= self.players.len(),
            !(message is AddPlayer) ==> self.step(message).players.len() == self.players.len(),
    {
        match message {
            MessageView::PlayerNameChanged(_) => {},
            MessageView::AddPlayer => {
                if let Some(name) = self.pending {
                    lemma_fresh_player(self.players.len() as int, name);
                }
            },
            MessageView::SetScore(player_idx, score) => {
                lemma_recorded_on_complete_sheet(self.players[player_idx].scores, score);
            },
        }
    }

    /// Whatever messages the store has taken since it was made, every
    /// player's id is the player's position in the roster.
    pub proof fn lemma_run_keeps_wf(self, messages: Seq<MessageView>)
        requires
            self.wf(),
            self.admits_all(messages),
        ensures
            self.run(messages).wf(),
        decreases messages.len(),
    {
        if messages.len() > 0 {
            self.lemma_run_keeps_wf(messages.drop_last());
            self.run(messages.drop_last()).lemma_step_keeps_wf(messages.last());
        }
    }

    /// Starting from the empty store, whatever messages were sent, the id
    /// of every player is the player's position in the roster.
    pub proof fn lemma_ids_are_positions(messages: Seq<MessageView>)
        requires
            StateView::initial().admits_all(messages),
        ensures
            forall|i: int|
                0 <= i < StateView::initial().run(messages).players.len() ==> (
                #[trigger] StateView::initial().run(messages).players[i]).id == i,
    {
        StateView::initial().lemma_run_keeps_wf(messages);
    }

    /// A name followed by `AddPlayer` appends one player, whose id is the
    /// number of players before, whose name is the one given and who has
    /// no points; the players before stay as they were.
    pub proof fn lemma_named_player_added(self, name: Seq<char>)
        ensures
            self.step(MessageView::PlayerNameChanged(name)).step(MessageView::AddPlayer).players
                == self.players.push(PlayerView::fresh(self.players.len() as int, name)),
            self.step(MessageView::PlayerNameChanged(name)).step(MessageView::AddPlayer).pending
                is None,
    {
    }

    /// `AddPlayer` without a name typed before it changes nothing, and
    /// `AddPlayer` uses the name up: a second `AddPlayer` right after the
    /// first changes nothing either.
    pub proof fn lemma_add_player_needs_name(self)
        ensures
            self.pending is None ==> self.step(MessageView::AddPlayer) == self,
            self.step(MessageView::AddPlayer).pending is None,
            self.step(MessageView::AddPlayer).step(MessageView::AddPlayer) == self.step(
                MessageView::AddPlayer,
            ),
    {
    }

    /// `SetScore` changes the one player it names, and of that player the
    /// one entry of the score's category: every other player and every
    /// other entry is what it was, and so is the name being typed.
    pub proof fn lemma_set_score_changes_one_entry(self, player_idx: int, score: Score)
        requires
            self.wf(),
            0 <= player_idx < self.players.len(),
        ensures
            self.step(MessageView::SetScore(player_idx, score)).pending == self.pending,
            self.step(MessageView::SetScore(player_idx, score)).players.len()
                == self.players.len(),
            forall|i: int|
                0 <= i < self.players.len() && i != player_idx ==> #[trigger] self.step(
                    MessageView::SetScore(player_idx, score),
                ).players[i] == self.players[i],
            self.step(MessageView::SetScore(player_idx, score)).players[player_idx].scores
                == self.players[player_idx].scores.update(score.category(), score),
            self.step(MessageView::SetScore(player_idx, score)).players[player_idx].total()
                == self.players[player_idx].total()
                - self.players[player_idx].scores[score.category()].points() + score.points(),
    {
        lemma_recorded_on_complete_sheet(self.players[player_idx].scores, score);
    }
}

impl Message {
    /// The message that a score cell sends when `text` is typed into it:
    /// `SetScore` for the player, with the score that the cell then holds.
    pub fn score_edited(player: &Player, current: &Score, text: &str) -> (message: Message)
        ensures
            message@ == MessageView::SetScore(player.id as int, entered(*current, text@)),
    {
        Message::SetScore(player.id, edited_score(current, text))
    }
}

/// The roster and the name being typed for the next player.
pub struct WingScore {
    players: Vec<Player>,
    new_player_name: Option<String>,
}

impl View for WingScore {
    type V = StateView;

    closed spec fn view(&self) -> StateView {
        StateView {
            players: self.players@.map_values(|p: Player| p@),
            pending: match self.new_player_name {
                Some(name) => Some(name@),
                None => None,
            },
        }
    }
}

impl WingScore {
    /// A store without players and without a name.
    pub fn new() -> (store: WingScore)
        ensures
            store@ == StateView::initial(),
            store@.wf(),
    {
        let store = WingScore { players: Vec::new(), new_player_name: None };
        proof {
            assert(store@.players =~= Seq::empty());
        }
        store
    }

    /// The roster, in the order in which the players were added.
    pub fn players(&self) -> (players: &Vec<Player>)
        ensures
            players@.len() == self@.players.len(),
            forall|i: int| 0 <= i < players@.len() ==> (#[trigger] players@[i])@ == self@.players[i],
            self@.wf() ==> forall|i: int|
                0 <= i < players@.len() ==> (#[trigger] players@[i]).id == i && players@[i].wf(),
    {
        proof {
            if self@.wf() {
                assert forall|i: int| 0 <= i < self.players@.len() implies (
                #[trigger] self.players@[i]).id == i && self.players@[i].wf() by {
                    assert(self@.players[i] == self.players@[i]@);
                }
            }
        }
        &self.players
    }

    /// The name typed for the next player, if there is one.
    pub fn new_player_name(&self) -> (name: &Option<String>)
        ensures
            name is Some <==> self@.pending is Some,
            name matches Some(text) ==> self@.pending == Some(text@),
    {
        &self.new_player_name
    }

    /// The text to show in the name field: the name being typed, or
    /// nothing.
    pub fn name_field(&self) -> (text: &str)
        ensures
            text@ == match self@.pending {
                Some(name) => name,
                None => Seq::<char>::empty(),
            },
    {
        match &self.new_player_name {
            Some(name) => name.as_str(),
            None => {
                proof {
                    reveal_strlit("");
                    assert(""@ =~= Seq::<char>::empty());
                }
                ""
            },
        }
    }

    /// Takes `message` and moves to the next state. A `SetScore` must name
    /// a player of the roster.
    pub fn update(&mut self, message: Message)
        requires
            old(self)@.admits(message@),
        ensures
            final(self)@ == old(self)@.step(message@),
            old(self)@.wf() ==> final(self)@.wf(),
    {
        proof {
            if self@.wf() {
                self@.lemma_step_keeps_wf(message@);
            }
        }
        match message {
            Message::PlayerNameChanged(name) => {
                self.new_player_name = Some(name);
            },
            Message::AddPlayer => {
                if let Some(name) = self.new_player_name.take() {
                    let player_idx: usize = self.players.len();
                    self.players.push(Player::new(player_idx, name));
                    proof {
                        assert(self@.players =~= old(self)@.step(message@).players);
                    }
                }
            },
            Message::SetScore(player_idx, score) => {
                self.players[player_idx].set_score(score);
                proof {
                    assert(self@.players =~= old(self)@.step(message@).players);
                }
            },
        }
    }
}

} // verus!
