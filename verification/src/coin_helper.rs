use vstd::prelude::*;

verus! {

/// A token amount of a single denomination, as the ledger reports balances and
/// as outbound transfer instructions carry them.
pub struct Coin {
    pub denom: String,
    pub amount: u128,
}

/// Mathematical image of a [`Coin`]: the denomination's characters and the
/// amount as an unbounded natural.
pub struct CoinModel {
    pub denom: Seq<char>,
    pub amount: nat,
}

impl View for Coin {
    type V = CoinModel;

    open spec fn view(&self) -> CoinModel {
        CoinModel { denom: self.denom@, amount: self.amount as nat }
    }
}

/// The sender of a command together with the funds attached to it.
pub struct MessageInfo {
    pub sender: String,
    pub funds: Vec<Coin>,
}

/// The one denomination the game recognizes.
pub open spec fn denom() -> Seq<char> {
    "uluna"@
}

/// The recognized-denomination amount a coin list carries: the first matching
/// coin's amount — a payment or balance holds that denomination at most once —
/// and zero when no coin matches.
pub open spec fn recognized_amount(funds: Seq<Coin>) -> nat
    decreases funds.len(),
{
    if funds.len() == 0 {
        0
    } else if funds[0].denom@ == denom() {
        funds[0].amount as nat
    } else {
        recognized_amount(funds.drop_first())
    }
}

/// The recognized amount attached to a command: the recognized denomination's
/// amount wherever it sits in the attached funds, zero when it is absent.
pub open spec fn attached_amount(info: &MessageInfo) -> nat {
    recognized_amount(info.funds@)
}

/// Pulls the recognized-denomination amount attached to a command; zero if the
/// attached funds do not include that denomination.
pub fn get_coin_u128(info: &MessageInfo) -> (r: u128)
    ensures
        r as nat == attached_amount(info),
{
    let d: String = "uluna".to_owned();
    let mut i: usize = 0;
    assert(info.funds@.skip(0) =~= info.funds@);
    while i < info.funds.len()
        invariant
            i <= info.funds@.len(),
            d@ == denom(),
            recognized_amount(info.funds@) == recognized_amount(info.funds@.skip(i as int)),
        decreases info.funds@.len() - i,
    {
        let c = &info.funds[i];
        assert(info.funds@.skip(i as int)[0] == info.funds@[i as int]);
        if c.denom == d {
            return c.amount;
        }
        assert(info.funds@.skip(i as int).drop_first() =~= info.funds@.skip(i as int + 1));
        i = i + 1;
    }
    assert(info.funds@.skip(i as int).len() == 0);
    0
}

} // verus!
