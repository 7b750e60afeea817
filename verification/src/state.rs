use vstd::prelude::*;

verus! {

/// The singleton game record. Created once at instantiation, never destroyed,
/// and mutated exclusively through the five guarded transitions in
/// [`crate::contract`].
pub struct State {
    /// The number the owner set; its parity is the outcome a wager is checked
    /// against.
    pub guess_number: i8,
    /// A round is open for wagering.
    pub is_playing: bool,
    /// The round has been settled.
    pub is_lottery: bool,
    /// The guess recorded for the current round.
    pub guess_is_odd: bool,
    /// The single participant of the current round; absent until the first
    /// wager since the last reset.
    pub user: Option<String>,
    /// The owner account, set once at creation.
    pub owner: String,
    /// Total stake required to fully fund the round.
    pub bonus: u128,
    /// Cumulative amount the bettor has contributed toward `bonus`.
    pub user_payed: u128,
}

/// Mathematical image of the game record: account identifiers as character
/// sequences, amounts as unbounded naturals.
pub struct StateModel {
    pub guess_number: int,
    pub is_playing: bool,
    pub is_lottery: bool,
    pub guess_is_odd: bool,
    pub user: Option<Seq<char>>,
    pub owner: Seq<char>,
    pub bonus: nat,
    pub user_payed: nat,
}

impl View for State {
    type V = StateModel;

    open spec fn view(&self) -> StateModel {
        StateModel {
            guess_number: self.guess_number as int,
            is_playing: self.is_playing,
            is_lottery: self.is_lottery,
            guess_is_odd: self.guess_is_odd,
            user: match self.user {
                Option::Some(u) => Option::Some(u@),
                Option::None => Option::None,
            },
            owner: self.owner@,
            bonus: self.bonus as nat,
            user_payed: self.user_payed as nat,
        }
    }
}

/// The record as creation leaves it: all numeric fields zero, both flags
/// clear, no bettor, the creator as owner.
pub open spec fn init_state(owner: Seq<char>) -> StateModel {
    StateModel {
        guess_number: 0,
        is_playing: false,
        is_lottery: false,
        guess_is_odd: false,
        user: Option::None,
        owner: owner,
        bonus: 0,
        user_payed: 0,
    }
}

} // verus!
