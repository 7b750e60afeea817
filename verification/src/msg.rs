use vstd::prelude::*;

use crate::coin_helper::Coin;

verus! {

/// Creates the contract; carries nothing, the creator becomes the owner.
pub struct InstantiateMsg {}

/// The five commands a caller may send; exactly one case per invocation.
#[derive(Clone, Copy, Debug, PartialEq, Eq, Structural)]
pub enum ExecuteMsg {
    /// Place or adjust the round's single wager.
    Guess { is_odd: bool },
    /// Owner adds attached funds to the pool before the round opens.
    AddBonus {},
    /// Owner clears the round and sets the next target number.
    Reset { num: i8 },
    /// Owner opens the round for wagering.
    Start {},
    /// Settle the round and route the pooled funds.
    Lottery {},
}

/// Read-only questions about the record.
pub enum QueryMsg {
    /// Whether a round is open, and the pool amount.
    GetStatus {},
}

/// Answer to [`QueryMsg::GetStatus`].
pub struct StatusResponse {
    pub playing: bool,
    pub bonus: u128,
}

/// Upgrades carry nothing; the record is preserved as-is.
pub struct MigrateMsg {}

/// Declarative instruction to move funds: the host executes it, the core only
/// computes it.
pub struct BankSend {
    pub to_address: String,
    pub amount: Vec<Coin>,
}

} // verus!
