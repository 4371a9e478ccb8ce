use vstd::prelude::*;
use crate::card::Card;
use crate::deck::{Deck, remove_all};
use crate::pile::{Pile, can_place_spec};

verus! {

/// Which of the two center piles a move targets.
#[derive(Copy, Clone, Debug, PartialEq, Eq, Structural)]
pub enum Side {
    Left,
    Right,
}

/// The engine's control state. Computer turns run synchronously inside
/// `computer_turn`, so they need no state of their own; `PlayerWon`,
/// `ComputerWon` and `Exiting` are terminal.
#[derive(Copy, Clone, Debug, PartialEq, Eq, Structural)]
pub enum GameState {
    AwaitingMenuChoice,
    PlayerPlayingLeft,
    PlayerPlayingRight,
    Exiting,
    PlayerWon,
    ComputerWon,
}

/// Input errors and the end-of-game signal. Neither mutates the game.
#[derive(Copy, Clone, Debug, PartialEq, Eq, Structural)]
pub enum GameError {
    /// Malformed or out-of-range menu or card input, or a call the current
    /// state does not accept; recovered by asking again.
    InvalidCommand,
    /// The game has ended (a side won, or the session was exited); no
    /// further turns are processed.
    GameOver,
}

/// What a menu choice asks the caller to do next.
#[derive(Copy, Clone, Debug, PartialEq, Eq, Structural)]
pub enum MenuAction {
    ChooseCard,
    ComputerMove,
    Exit,
}

/// The outcome of the player's attempt to place the chosen card.
#[derive(Copy, Clone, Debug, PartialEq, Eq, Structural)]
pub enum PlaceResult {
    Accepted,
    Rejected,
}

/// What the computer did on its turn.
#[derive(Copy, Clone, Debug, PartialEq, Eq, Structural)]
pub enum ComputerPlay {
    Played { card: Card, side: Side },
    CouldntPlay,
}

/// How a stalemate check ended.
#[derive(Copy, Clone, Debug, PartialEq, Eq, Structural)]
pub enum BurnReport {
    /// At least one side still holds a playable card; nothing changed.
    NotStuck,
    /// The player had no card anywhere to surrender; the computer wins.
    PlayerOutOfCards,
    /// The computer had no card anywhere to surrender; the player wins.
    ComputerOutOfCards,
    /// Each side surrendered one card into its pile.
    Burned { player_card: Card, computer_card: Card },
}

/// A mathematical snapshot of the whole game: the control state, the two
/// pile tops, and the four card sequences.
#[verifier::ext_equal]
pub struct GameModel {
    pub state: GameState,
    pub left_top: Card,
    pub right_top: Card,
    pub player_five: Seq<Card>,
    pub player_reserve: Seq<Card>,
    pub computer_five: Seq<Card>,
    pub computer_reserve: Seq<Card>,
}

/// Whether `c` can go on at least one of the two piles.
pub open spec fn placeable_either(g: GameModel, c: Card) -> bool {
    can_place_spec(g.left_top, c) || can_place_spec(g.right_top, c)
}

/// The player holds no card playable on either pile.
pub open spec fn player_stuck(g: GameModel) -> bool {
    forall|k: int| 0 <= k < g.player_five.len() ==> !placeable_either(g, #[trigger] g.player_five[k])
}

/// The computer holds no card playable on either pile.
pub open spec fn computer_stuck(g: GameModel) -> bool {
    forall|k: int|
        0 <= k < g.computer_five.len() ==> !placeable_either(g, #[trigger] g.computer_five[k])
}

/// The lowest index at or after `i` of a hand card playable on either pile.
pub open spec fn first_playable_from(
    hand: Seq<Card>,
    left_top: Card,
    right_top: Card,
    i: int,
) -> Option<int>
    decreases hand.len() - i,
{
    if i < 0 || i >= hand.len() {
        None
    } else if can_place_spec(left_top, hand[i]) || can_place_spec(right_top, hand[i]) {
        Some(i)
    } else {
        first_playable_from(hand, left_top, right_top, i + 1)
    }
}

/// Draw one card from the top of the reserve into the hand, when the
/// reserve is not empty.
pub open spec fn draw_step(hand: Seq<Card>, reserve: Seq<Card>) -> (Seq<Card>, Seq<Card>) {
    if reserve.len() > 0 {
        (hand.push(reserve.last()), reserve.drop_last())
    } else {
        (hand, reserve)
    }
}

/// Whether the player has a pile targeted and owes a card choice.
pub open spec fn player_playing(g: GameModel) -> bool {
    g.state is PlayerPlayingLeft || g.state is PlayerPlayingRight
}

/// The pile top a player move targets in the given state.
pub open spec fn player_target(g: GameModel) -> Card {
    if g.state is PlayerPlayingLeft {
        g.left_top
    } else {
        g.right_top
    }
}

/// One menu command in the awaiting state: 0 and 1 target the left or right
/// pile, 2 asks for a computer move, 3 exits. Anything else, and any call
/// in another state, changes nothing.
pub open spec fn menu_step(g: GameModel, choice: int) -> GameModel {
    if !(g.state is AwaitingMenuChoice) {
        g
    } else if choice == 0 {
        GameModel { state: GameState::PlayerPlayingLeft, ..g }
    } else if choice == 1 {
        GameModel { state: GameState::PlayerPlayingRight, ..g }
    } else if choice == 3 {
        GameModel { state: GameState::Exiting, ..g }
    } else {
        g
    }
}

/// One player card choice: with a pile targeted and a valid index, try the
/// chosen card there. On acceptance the card becomes the pile's top and
/// leaves the hand, one reserve card (if any) is drawn in its place, and an
/// emptied hand wins at once; on rejection only the targeting is cleared.
/// An invalid index, and any call in another state, changes nothing.
pub open spec fn card_step(g: GameModel, index: int) -> GameModel {
    if !player_playing(g) {
        g
    } else if !(0 <= index && index <= 4 && index < g.player_five.len()) {
        g
    } else {
        let on_left = g.state is PlayerPlayingLeft;
        let c = g.player_five[index];
        if can_place_spec(player_target(g), c) {
            let hand1 = remove_all(g.player_five, c);
            let (hand2, reserve2) = draw_step(hand1, g.player_reserve);
            GameModel {
                state: if hand2.len() == 0 {
                    GameState::PlayerWon
                } else {
                    GameState::AwaitingMenuChoice
                },
                left_top: if on_left {
                    c
                } else {
                    g.left_top
                },
                right_top: if on_left {
                    g.right_top
                } else {
                    c
                },
                player_five: hand2,
                player_reserve: reserve2,
                ..g
            }
        } else {
            GameModel { state: GameState::AwaitingMenuChoice, ..g }
        }
    }
}

/// One computer turn in the awaiting state: scan the hand in order and play
/// the first card either pile accepts, trying the left pile before the
/// right; then draw from the reserve (if any); an emptied hand wins at
/// once. With no playable card, and in any other state, nothing changes.
pub open spec fn computer_step(g: GameModel) -> GameModel {
    if !(g.state is AwaitingMenuChoice) {
        g
    } else {
        match first_playable_from(g.computer_five, g.left_top, g.right_top, 0) {
            Option::None => g,
            Option::Some(i) => {
                let c = g.computer_five[i];
                let on_left = can_place_spec(g.left_top, c);
                let hand1 = remove_all(g.computer_five, c);
                let (hand2, reserve2) = draw_step(hand1, g.computer_reserve);
                GameModel {
                    state: if hand2.len() == 0 {
                        GameState::ComputerWon
                    } else {
                        GameState::AwaitingMenuChoice
                    },
                    left_top: if on_left {
                        c
                    } else {
                        g.left_top
                    },
                    right_top: if on_left {
                        g.right_top
                    } else {
                        c
                    },
                    computer_five: hand2,
                    computer_reserve: reserve2,
                    ..g
                }
            },
        }
    }
}

/// The stalemate resolution: when both sides are stuck in the awaiting
/// state, a side with no cards at all loses at once (the player is checked
/// first); otherwise each side surrenders one card outside the adjacency
/// rule - the player from reserve (else from hand) onto the left pile, the
/// computer likewise onto the right. In every other case nothing changes.
pub open spec fn burn_step(g: GameModel) -> GameModel {
    if !(g.state is AwaitingMenuChoice) {
        g
    } else if !(player_stuck(g) && computer_stuck(g)) {
        g
    } else if g.player_reserve.len() == 0 && g.player_five.len() == 0 {
        GameModel { state: GameState::ComputerWon, ..g }
    } else if g.computer_reserve.len() == 0 && g.computer_five.len() == 0 {
        GameModel { state: GameState::PlayerWon, ..g }
    } else {
        let (p_card, p_five, p_res) = if g.player_reserve.len() > 0 {
            (g.player_reserve.last(), g.player_five, g.player_reserve.drop_last())
        } else {
            (g.player_five.last(), g.player_five.drop_last(), g.player_reserve)
        };
        let (c_card, c_five, c_res) = if g.computer_reserve.len() > 0 {
            (g.computer_reserve.last(), g.computer_five, g.computer_reserve.drop_last())
        } else {
            (g.computer_five.last(), g.computer_five.drop_last(), g.computer_reserve)
        };
        GameModel {
            state: GameState::AwaitingMenuChoice,
            left_top: p_card,
            right_top: c_card,
            player_five: p_five,
            player_reserve: p_res,
            computer_five: c_five,
            computer_reserve: c_res,
        }
    }
}

/// One engine call, as `replay` speaks of it.
pub enum Command {
    Menu { choice: int },
    CardChoice { index: int },
    ComputerTurn,
    StalemateCheck,
}

/// The state after one command.
pub open spec fn step(g: GameModel, c: Command) -> GameModel {
    match c {
        Command::Menu { choice } => menu_step(g, choice),
        Command::CardChoice { index } => card_step(g, index),
        Command::ComputerTurn => computer_step(g),
        Command::StalemateCheck => burn_step(g),
    }
}

/// The state after a sequence of commands, first command first.
pub open spec fn replay(g: GameModel, cs: Seq<Command>) -> GameModel
    decreases cs.len(),
{
    if cs.len() == 0 {
        g
    } else {
        replay(step(g, cs[0]), cs.drop_first())
    }
}

/// Full-game determinism: the engine is a function of its inputs alone.
/// From equal starting states, replaying the same command sequence passes
/// through the same state after every prefix - in particular the same pile
/// tops at every point, and the same winner at the end.
pub proof fn lemma_replay_deterministic(
    g1: GameModel,
    g2: GameModel,
    cs1: Seq<Command>,
    cs2: Seq<Command>,
)
    requires
        g1 == g2,
        cs1 == cs2,
    ensures
        forall|n: int| 0 <= n <= cs1.len() ==> replay(g1, #[trigger] cs1.take(n)) == replay(
            g2,
            cs2.take(n),
        ),
{
}

/// Terminal states absorb: once a side has won, or the session was exited,
/// no command changes the game, so no further turns are processed.
pub proof fn lemma_terminal_states_absorb(g: GameModel, c: Command)
    requires
        g.state is PlayerWon || g.state is ComputerWon || g.state is Exiting,
    ensures
        step(g, c) == g,
{
}

/// A player's accepted play that empties the active hand - which can only
/// happen with the reserve already empty, since a draw would refill the
/// hand - wins the game for the player at once.
pub proof fn lemma_player_empty_hand_wins(g: GameModel, index: int)
    requires
        player_playing(g),
        0 <= index <= 4,
        index < g.player_five.len(),
        can_place_spec(player_target(g), g.player_five[index]),
        card_step(g, index).player_five.len() == 0,
    ensures
        g.player_reserve.len() == 0,
        card_step(g, index).state is PlayerWon,
{
}

/// The same for the computer: a play that empties its hand wins at once.
pub proof fn lemma_computer_empty_hand_wins(g: GameModel)
    requires
        g.state is AwaitingMenuChoice,
        first_playable_from(g.computer_five, g.left_top, g.right_top, 0) is Some,
        computer_step(g).computer_five.len() == 0,
    ensures
        g.computer_reserve.len() == 0,
        computer_step(g).state is ComputerWon,
{
}

/// The whole game: two piles, the player's and the computer's active hands
/// and reserves, and the control state.
pub struct Game {
    state: GameState,
    left_pile: Pile,
    right_pile: Pile,
    player_five: Deck,
    player_reserve: Deck,
    computer_five: Deck,
    computer_reserve: Deck,
}

impl View for Game {
    type V = GameModel;

    closed spec fn view(&self) -> GameModel {
        GameModel {
            state: self.state,
            left_top: self.left_pile.spec_top(),
            right_top: self.right_pile.spec_top(),
            player_five: self.player_five@,
            player_reserve: self.player_reserve@,
            computer_five: self.computer_five@,
            computer_reserve: self.computer_reserve@,
        }
    }
}

/// Whether the given hand holds no card playable on either pile.
fn hand_stuck(hand: &Vec<Card>, left_pile: &Pile, right_pile: &Pile) -> (r: bool)
    requires
        left_pile.wf(),
        right_pile.wf(),
    ensures
        r == (forall|k: int|
            0 <= k < hand@.len() ==> !(can_place_spec(left_pile.spec_top(), #[trigger] hand@[k])
                || can_place_spec(right_pile.spec_top(), hand@[k]))),
{
    let mut k: usize = 0;
    while k < hand.len()
        invariant
            k <= hand@.len(),
            left_pile.wf(),
            right_pile.wf(),
            forall|j: int|
                0 <= j < k ==> !(can_place_spec(left_pile.spec_top(), #[trigger] hand@[j])
                    || can_place_spec(right_pile.spec_top(), hand@[j])),
        decreases hand@.len() - k,
    {
        if left_pile.can_place_card(hand[k]) || right_pile.can_place_card(hand[k]) {
            return false;
        }
        k = k + 1;
    }
    true
}

impl Game {
    /// Well-formed: both piles' stored rank indices match their tops.
    pub closed spec fn wf(&self) -> bool {
        self.left_pile.wf() && self.right_pile.wf()
    }

    /// Set up a game from a full 52-card deck, as dealt at the table: two
    /// starting cards seed the piles, the player takes half of the
    /// remaining 50, the computer the rest, and each side turns the top
    /// five of its half into its active hand, keeping 20 in reserve.
    pub fn new(deck: Deck) -> (g: Game)
        requires
            deck@.len() == 52,
        ensures
            g.wf(),
            g@.state is AwaitingMenuChoice,
            g@.left_top == deck@[50],
            g@.right_top == deck@[51],
            g@.player_five.len() == 5,
            g@.player_reserve.len() == 20,
            g@.computer_five.len() == 5,
            g@.computer_reserve.len() == 20,
            forall|j: int| 0 <= j < 5 ==> g@.player_five[j] == deck@[25 + j],
            forall|k: int| 0 <= k < 20 ==> g@.player_reserve[k] == deck@[49 - k],
            forall|j: int| 0 <= j < 5 ==> g@.computer_five[j] == deck@[j],
            forall|k: int| 0 <= k < 20 ==> g@.computer_reserve[k] == deck@[24 - k],
    {
        let mut deck = deck;
        let ghost d0 = deck@;
        let starting_two = deck.deal_hand(2).unwrap();
        let mut starting_cards = starting_two.get_cards();
        let left_card = starting_cards.pop().unwrap();
        let right_card = starting_cards.pop().unwrap();
        let left_pile = Pile::new(&left_card);
        let right_pile = Pile::new(&right_card);
        let half = deck.len() / 2;
        let mut player_complete = deck.deal_hand(half).unwrap();
        let mut computer_complete = deck.deal_rest().unwrap();
        let player_five = player_complete.deal_hand(5).unwrap();
        let computer_five = computer_complete.deal_hand(5).unwrap();
        Game {
            state: GameState::AwaitingMenuChoice,
            left_pile,
            right_pile,
            player_five,
            player_reserve: player_complete,
            computer_five,
            computer_reserve: computer_complete,
        }
    }

    /// Assemble a game in the awaiting state directly from its parts, for
    /// setting up a mid-game position.
    pub fn from_parts(
        left_pile: Pile,
        right_pile: Pile,
        player_five: Deck,
        player_reserve: Deck,
        computer_five: Deck,
        computer_reserve: Deck,
    ) -> (g: Game)
        requires
            left_pile.wf(),
            right_pile.wf(),
        ensures
            g.wf(),
            g@ == (GameModel {
                state: GameState::AwaitingMenuChoice,
                left_top: left_pile.spec_top(),
                right_top: right_pile.spec_top(),
                player_five: player_five@,
                player_reserve: player_reserve@,
                computer_five: computer_five@,
                computer_reserve: computer_reserve@,
            }),
    {
        Game {
            state: GameState::AwaitingMenuChoice,
            left_pile,
            right_pile,
            player_five,
            player_reserve,
            computer_five,
            computer_reserve,
        }
    }

    /// The two pile tops, left then right.
    pub fn get_middle_cards(&self) -> (r: (Card, Card))
        ensures
            r.0 == self@.left_top,
            r.1 == self@.right_top,
    {
        (self.left_pile.get_top(), self.right_pile.get_top())
    }

    /// The player's active hand, in hand order.
    pub fn get_player_hand(&self) -> (r: Vec<Card>)
        ensures
            r@ == self@.player_five,
    {
        self.player_five.get_cards()
    }

    /// The computer's active hand, in hand order.
    pub fn get_computer_hand(&self) -> (r: Vec<Card>)
        ensures
            r@ == self@.computer_five,
    {
        self.computer_five.get_cards()
    }

    /// How many cards the player's reserve still holds.
    pub fn player_reserve_len(&self) -> (n: usize)
        ensures
            n == self@.player_reserve.len(),
    {
        self.player_reserve.len()
    }

    /// How many cards the computer's reserve still holds.
    pub fn computer_reserve_len(&self) -> (n: usize)
        ensures
            n == self@.computer_reserve.len(),
    {
        self.computer_reserve.len()
    }

    /// The current control state.
    pub fn state(&self) -> (s: GameState)
        ensures
            s == self@.state,
    {
        self.state
    }

    /// Accept a menu command; see `menu_step` for the transition. The
    /// result tells the caller what to do next, or why nothing happened.
    pub fn submit_menu_choice(&mut self, choice: i32) -> (r: Result<MenuAction, GameError>)
        requires
            old(self).wf(),
        ensures
            final(self).wf(),
            final(self)@ == menu_step(old(self)@, choice as int),
            old(self)@.state is AwaitingMenuChoice ==> ({
                &&& (choice == 0 || choice == 1) ==> r == Ok::<MenuAction, GameError>(
                    MenuAction::ChooseCard,
                )
                &&& choice == 2 ==> r == Ok::<MenuAction, GameError>(MenuAction::ComputerMove)
                &&& choice == 3 ==> r == Ok::<MenuAction, GameError>(MenuAction::Exit)
                &&& !(0 <= choice <= 3) ==> r == Err::<MenuAction, GameError>(
                    GameError::InvalidCommand,
                )
            }),
            player_playing(old(self)@) ==> r == Err::<MenuAction, GameError>(
                GameError::InvalidCommand,
            ),
            (old(self)@.state is PlayerWon || old(self)@.state is ComputerWon || old(
                self,
            )@.state is Exiting) ==> r == Err::<MenuAction, GameError>(GameError::GameOver),
    {
        match self.state {
            GameState::AwaitingMenuChoice => {
                if choice == 0 {
                    self.state = GameState::PlayerPlayingLeft;
                    Ok(MenuAction::ChooseCard)
                } else if choice == 1 {
                    self.state = GameState::PlayerPlayingRight;
                    Ok(MenuAction::ChooseCard)
                } else if choice == 2 {
                    Ok(MenuAction::ComputerMove)
                } else if choice == 3 {
                    self.state = GameState::Exiting;
                    Ok(MenuAction::Exit)
                } else {
                    Err(GameError::InvalidCommand)
                }
            },
            GameState::PlayerPlayingLeft | GameState::PlayerPlayingRight => Err(
                GameError::InvalidCommand,
            ),
            _ => Err(GameError::GameOver),
        }
    }

    /// Accept the player's card choice after a pile was targeted; see
    /// `card_step` for the transition. `Accepted` and `Rejected` report the
    /// adjacency rule's verdict on the chosen card; a rejected move spends
    /// the turn but moves no card.
    pub fn submit_card_choice(&mut self, index: usize) -> (r: Result<PlaceResult, GameError>)
        requires
            old(self).wf(),
        ensures
            final(self).wf(),
            final(self)@ == card_step(old(self)@, index as int),
            old(self)@.state is AwaitingMenuChoice ==> r == Err::<PlaceResult, GameError>(
                GameError::InvalidCommand,
            ),
            (old(self)@.state is PlayerWon || old(self)@.state is ComputerWon || old(
                self,
            )@.state is Exiting) ==> r == Err::<PlaceResult, GameError>(GameError::GameOver),
            player_playing(old(self)@) && !(index <= 4 && index < old(self)@.player_five.len())
                ==> r == Err::<PlaceResult, GameError>(GameError::InvalidCommand),
            player_playing(old(self)@) && index <= 4 && index < old(self)@.player_five.len() ==> (
            if can_place_spec(player_target(old(self)@), old(self)@.player_five[index as int]) {
                r == Ok::<PlaceResult, GameError>(PlaceResult::Accepted)
            } else {
                r == Ok::<PlaceResult, GameError>(PlaceResult::Rejected)
            }),
    {
        let on_left = match self.state {
            GameState::PlayerPlayingLeft => true,
            GameState::PlayerPlayingRight => false,
            GameState::AwaitingMenuChoice => {
                return Err(GameError::InvalidCommand);
            },
            _ => {
                return Err(GameError::GameOver);
            },
        };
        if index > 4 || index >= self.player_five.len() {
            return Err(GameError::InvalidCommand);
        }
        let hand = self.player_five.get_cards();
        let chosen = hand[index];
        let outcome = if on_left {
            self.left_pile.place_card(chosen)
        } else {
            self.right_pile.place_card(chosen)
        };
        match outcome {
            Some(_) => {
                self.state = GameState::AwaitingMenuChoice;
                Ok(PlaceResult::Rejected)
            },
            None => {
                self.player_five.remove_card(&chosen);
                match self.player_reserve.deal_one() {
                    Some(new_card) => self.player_five.add_card(new_card),
                    None => {},
                }
                if self.player_five.len() == 0 {
                    self.state = GameState::PlayerWon;
                } else {
                    self.state = GameState::AwaitingMenuChoice;
                }
                proof {
                    assert(self@ =~= card_step(old(self)@, index as int));
                }
                Ok(PlaceResult::Accepted)
            },
        }
    }

    /// Run one computer turn; see `computer_step` for the transition. The
    /// report names the card played and the pile that took it, or says that
    /// no card in the computer's hand was playable.
    #[verifier::loop_isolation(false)]
    pub fn computer_turn(&mut self) -> (r: Result<ComputerPlay, GameError>)
        requires
            old(self).wf(),
        ensures
            final(self).wf(),
            final(self)@ == computer_step(old(self)@),
            player_playing(old(self)@) ==> r == Err::<ComputerPlay, GameError>(
                GameError::InvalidCommand,
            ),
            (old(self)@.state is PlayerWon || old(self)@.state is ComputerWon || old(
                self,
            )@.state is Exiting) ==> r == Err::<ComputerPlay, GameError>(GameError::GameOver),
            old(self)@.state is AwaitingMenuChoice ==> ({
                let found = first_playable_from(
                    old(self)@.computer_five,
                    old(self)@.left_top,
                    old(self)@.right_top,
                    0,
                );
                &&& found is None ==> r == Ok::<ComputerPlay, GameError>(ComputerPlay::CouldntPlay)
                &&& found matches Some(i) ==> r == Ok::<ComputerPlay, GameError>(
                    ComputerPlay::Played {
                        card: old(self)@.computer_five[i],
                        side: if can_place_spec(old(self)@.left_top, old(self)@.computer_five[i]) {
                            Side::Left
                        } else {
                            Side::Right
                        },
                    },
                )
            }),
    {
        match self.state {
            GameState::AwaitingMenuChoice => {},
            GameState::PlayerPlayingLeft | GameState::PlayerPlayingRight => {
                return Err(GameError::InvalidCommand);
            },
            _ => {
                return Err(GameError::GameOver);
            },
        }
        let ghost g0 = self@;
        let options = self.computer_five.get_cards();
        let mut i: usize = 0;
        while i < options.len()
            invariant
                self@ == g0,
                self.wf(),
                options@ == g0.computer_five,
                i <= options@.len(),
                first_playable_from(g0.computer_five, g0.left_top, g0.right_top, 0)
                    == first_playable_from(g0.computer_five, g0.left_top, g0.right_top, i as int),
            decreases options@.len() - i,
        {
            let c = options[i];
            let can_left = self.left_pile.can_place_card(c);
            let can_right = self.right_pile.can_place_card(c);
            if can_left || can_right {
                proof {
                    assert(first_playable_from(g0.computer_five, g0.left_top, g0.right_top, i as int)
                        == Some(i as int));
                }
                if can_left {
                    let _ = self.left_pile.place_card(c);
                } else {
                    let _ = self.right_pile.place_card(c);
                }
                self.computer_five.remove_card(&c);
                match self.computer_reserve.deal_one() {
                    Some(new_card) => self.computer_five.add_card(new_card),
                    None => {},
                }
                if self.computer_five.len() == 0 {
                    self.state = GameState::ComputerWon;
                }
                proof {
                    assert(self@ =~= computer_step(g0));
                }
                return Ok(
                    ComputerPlay::Played {
                        card: c,
                        side: if can_left {
                            Side::Left
                        } else {
                            Side::Right
                        },
                    },
                );
            }
            i = i + 1;
        }
        Ok(ComputerPlay::CouldntPlay)
    }

    /// Check for the stalemate and resolve it; see `burn_step` for the
    /// transition. The report says whether a burn happened and which cards
    /// went into the middle, or which side had nothing left to surrender.
    pub fn try_resolve_stalemate(&mut self) -> (r: Result<BurnReport, GameError>)
        requires
            old(self).wf(),
        ensures
            final(self).wf(),
            final(self)@ == burn_step(old(self)@),
            player_playing(old(self)@) ==> r == Err::<BurnReport, GameError>(
                GameError::InvalidCommand,
            ),
            (old(self)@.state is PlayerWon || old(self)@.state is ComputerWon || old(
                self,
            )@.state is Exiting) ==> r == Err::<BurnReport, GameError>(GameError::GameOver),
            old(self)@.state is AwaitingMenuChoice ==> ({
                let g = old(self)@;
                &&& !(player_stuck(g) && computer_stuck(g)) ==> r == Ok::<BurnReport, GameError>(
                    BurnReport::NotStuck,
                )
                &&& (player_stuck(g) && computer_stuck(g) && g.player_reserve.len() == 0
                    && g.player_five.len() == 0) ==> r == Ok::<BurnReport, GameError>(
                    BurnReport::PlayerOutOfCards,
                )
                &&& (player_stuck(g) && computer_stuck(g) && !(g.player_reserve.len() == 0
                    && g.player_five.len() == 0) && g.computer_reserve.len() == 0
                    && g.computer_five.len() == 0) ==> r == Ok::<BurnReport, GameError>(
                    BurnReport::ComputerOutOfCards,
                )
                &&& (player_stuck(g) && computer_stuck(g) && !(g.player_reserve.len() == 0
                    && g.player_five.len() == 0) && !(g.computer_reserve.len() == 0
                    && g.computer_five.len() == 0)) ==> r == Ok::<BurnReport, GameError>(
                    BurnReport::Burned {
                        player_card: if g.player_reserve.len() > 0 {
                            g.player_reserve.last()
                        } else {
                            g.player_five.last()
                        },
                        computer_card: if g.computer_reserve.len() > 0 {
                            g.computer_reserve.last()
                        } else {
                            g.computer_five.last()
                        },
                    },
                )
            }),
    {
        match self.state {
            GameState::AwaitingMenuChoice => {},
            GameState::PlayerPlayingLeft | GameState::PlayerPlayingRight => {
                return Err(GameError::InvalidCommand);
            },
            _ => {
                return Err(GameError::GameOver);
            },
        }
        let player_hand = self.player_five.get_cards();
        let computer_hand = self.computer_five.get_cards();
        let p_stuck = hand_stuck(&player_hand, &self.left_pile, &self.right_pile);
        let c_stuck = hand_stuck(&computer_hand, &self.left_pile, &self.right_pile);
        if !(p_stuck && c_stuck) {
            return Ok(BurnReport::NotStuck);
        }
        if self.player_reserve.len() == 0 && self.player_five.len() == 0 {
            self.state = GameState::ComputerWon;
            return Ok(BurnReport::PlayerOutOfCards);
        }
        if self.computer_reserve.len() == 0 && self.computer_five.len() == 0 {
            self.state = GameState::PlayerWon;
            return Ok(BurnReport::ComputerOutOfCards);
        }
        let player_card = if self.player_reserve.len() > 0 {
            self.player_reserve.deal_one().unwrap()
        } else {
            self.player_five.deal_one().unwrap()
        };
        self.left_pile.set_card(player_card);
        let computer_card = if self.computer_reserve.len() > 0 {
            self.computer_reserve.deal_one().unwrap()
        } else {
            self.computer_five.deal_one().unwrap()
        };
        self.right_pile.set_card(computer_card);
        proof {
            assert(self@ =~= burn_step(old(self)@));
        }
        Ok(BurnReport::Burned { player_card, computer_card })
    }
}

} // verus!
