use vstd::prelude::*;

use crate::coin_helper::{
    attached_amount, denom, get_coin_u128, recognized_amount, Coin, CoinModel, MessageInfo,
};
use crate::error::ContractError;
use crate::msg::{BankSend, ExecuteMsg, InstantiateMsg, QueryMsg, StatusResponse};
use crate::state::{init_state, State, StateModel};

verus! {

/// One incoming command as the transition model sees it: who sent it, how much
/// of the recognized denomination was attached, and which command it is.
pub struct Event {
    pub sender: Seq<char>,
    pub amount: nat,
    pub msg: ExecuteMsg,
}

/// Parity of the target number: the outcome a wager is checked against.
pub open spec fn number_is_odd(n: int) -> bool {
    n % 2 != 0
}

/// An executable transition outcome agrees with the model's outcome: same new
/// record on success, same error on failure.
pub open spec fn models(r: Result<State, ContractError>, m: Result<
    StateModel,
    ContractError,
>) -> bool {
    match (r, m) {
        (Ok(s), Ok(sm)) => s@ == sm,
        (Err(e1), Err(e2)) => e1 == e2,
        _ => false,
    }
}

/// Model of `Start`: only the owner, only while no round is open and no bettor
/// is recorded; opens the round. No funds move.
pub open spec fn step_start(m: StateModel, sender: Seq<char>) -> Result<
    StateModel,
    ContractError,
> {
    if sender != m.owner {
        Err(ContractError::Unauthorized)
    } else if m.user is Some || m.is_playing {
        Err(ContractError::IsPlaying)
    } else {
        Ok(
            StateModel {
                guess_number: m.guess_number,
                is_playing: true,
                is_lottery: m.is_lottery,
                guess_is_odd: m.guess_is_odd,
                user: m.user,
                owner: m.owner,
                bonus: m.bonus,
                user_payed: m.user_payed,
            },
        )
    }
}

/// Model of `AddBonus`: only the owner, only before a round opens and before
/// anyone has wagered; adds the attached amount to the pool.
pub open spec fn step_add_bonus(m: StateModel, sender: Seq<char>, amount: nat) -> Result<
    StateModel,
    ContractError,
> {
    if sender != m.owner {
        Err(ContractError::Unauthorized)
    } else if m.user is Some || m.is_playing {
        Err(ContractError::IsPlaying)
    } else {
        Ok(
            StateModel {
                guess_number: m.guess_number,
                is_playing: m.is_playing,
                is_lottery: m.is_lottery,
                guess_is_odd: m.guess_is_odd,
                user: m.user,
                owner: m.owner,
                bonus: m.bonus + amount,
                user_payed: m.user_payed,
            },
        )
    }
}

/// Model of `Guess`: needs an open, unresolved round; the first wager claims
/// the bettor slot, later ones must come from the recorded bettor; the amount
/// already paid plus the attached amount must equal the pool exactly. Records
/// the guess and the payment.
pub open spec fn step_guess(m: StateModel, sender: Seq<char>, is_odd: bool, amount: nat) -> Result<
    StateModel,
    ContractError,
> {
    if !m.is_playing || m.is_lottery {
        Err(ContractError::NotReady)
    } else if m.user is Some && m.user.unwrap() != sender {
        Err(ContractError::Unauthorized)
    } else if m.user_payed + amount != m.bonus {
        Err(ContractError::Pay)
    } else {
        Ok(
            StateModel {
                guess_number: m.guess_number,
                is_playing: m.is_playing,
                is_lottery: m.is_lottery,
                guess_is_odd: is_odd,
                user: Option::Some(sender),
                owner: m.owner,
                bonus: m.bonus,
                user_payed: m.user_payed + amount,
            },
        )
    }
}

/// Model of `Lottery`: any caller; needs an unresolved round with a bettor.
/// Marks the round settled and closed.
pub open spec fn step_lottery(m: StateModel) -> Result<StateModel, ContractError> {
    if m.is_lottery || m.user is None {
        Err(ContractError::NotReady)
    } else {
        Ok(
            StateModel {
                guess_number: m.guess_number,
                is_playing: false,
                is_lottery: true,
                guess_is_odd: m.guess_is_odd,
                user: m.user,
                owner: m.owner,
                bonus: m.bonus,
                user_payed: m.user_payed,
            },
        )
    }
}

/// Model of `Reset`: refused while a round is open with a bettor (checked
/// before authorization); only the owner. Clears the bettor and both flags,
/// sets the next target number and empties the pool. The amount already paid
/// is deliberately carried over, as the settled round's bookkeeping leaves it.
pub open spec fn step_reset(m: StateModel, sender: Seq<char>, number: int) -> Result<
    StateModel,
    ContractError,
> {
    if m.is_playing && m.user is Some {
        Err(ContractError::IsPlaying)
    } else if sender != m.owner {
        Err(ContractError::Unauthorized)
    } else {
        Ok(
            StateModel {
                guess_number: number,
                is_playing: false,
                is_lottery: false,
                guess_is_odd: m.guess_is_odd,
                user: Option::None,
                owner: m.owner,
                bonus: 0,
                user_payed: m.user_payed,
            },
        )
    }
}

/// Model of a whole invocation: dispatches one event to its transition.
pub open spec fn step(m: StateModel, e: Event) -> Result<StateModel, ContractError> {
    match e.msg {
        ExecuteMsg::Start {  } => step_start(m, e.sender),
        ExecuteMsg::Reset { num } => step_reset(m, e.sender, num as int),
        ExecuteMsg::Guess { is_odd } => step_guess(m, e.sender, is_odd, e.amount),
        ExecuteMsg::AddBonus {  } => step_add_bonus(m, e.sender, e.amount),
        ExecuteMsg::Lottery {  } => step_lottery(m),
    }
}

/// The event an incoming command gives rise to.
pub open spec fn event_of(info: &MessageInfo, msg: ExecuteMsg) -> Event {
    Event { sender: info.sender@, amount: attached_amount(info), msg }
}

/// The payout resolver's choice: a guess whose parity matches the target
/// number's parity pays the owner, a mismatched guess pays the bettor.
pub open spec fn winner(m: StateModel) -> Seq<char>
    recommends
        m.user is Some,
{
    if m.guess_is_odd == number_is_odd(m.guess_number) {
        m.owner
    } else {
        m.user.unwrap()
    }
}

fn clone_user(user: &Option<String>) -> (r: Option<String>)
    ensures
        r == *user,
{
    match user {
        Option::Some(u) => Option::Some(u.clone()),
        Option::None => Option::None,
    }
}

fn is_odd_i8(n: i8) -> (r: bool)
    ensures
        r == number_is_odd(n as int),
{
    let rem: i8 = n % 2;
    rem != 0
}

/// Sets up the initial record: all numeric fields zero, both flags clear, no
/// bettor, the sender as owner.
pub fn instantiate(info: &MessageInfo, _msg: InstantiateMsg) -> (s: State)
    ensures
        s@ == init_state(info.sender@),
{
    State {
        guess_number: 0,
        is_playing: false,
        is_lottery: false,
        guess_is_odd: false,
        user: Option::None,
        owner: info.sender.clone(),
        bonus: 0,
        user_payed: 0,
    }
}

/// Opens the round for wagering. No funds move.
pub fn try_start(state: &State, info: &MessageInfo) -> (r: Result<State, ContractError>)
    ensures
        models(r, step_start(state@, info.sender@)),
{
    if !(info.sender == state.owner) {
        return Err(ContractError::Unauthorized);
    }
    if state.user.is_some() || state.is_playing {
        return Err(ContractError::IsPlaying);
    }
    Ok(
        State {
            guess_number: state.guess_number,
            is_playing: true,
            is_lottery: state.is_lottery,
            guess_is_odd: state.guess_is_odd,
            user: Option::None,
            owner: state.owner.clone(),
            bonus: state.bonus,
            user_payed: state.user_payed,
        },
    )
}

/// Adds the attached amount to the pool before the round opens. Only on the
/// committing path is the sum taken, so only there is the caller asked to keep
/// the pool within the machine word; refused calls answer with their error
/// whatever was attached.
pub fn try_add_bonus(state: &State, info: &MessageInfo) -> (r: Result<State, ContractError>)
    requires
        (info.sender@ == state@.owner && state@.user is None && !state@.is_playing)
            ==> state@.bonus + attached_amount(info) <= u128::MAX,
    ensures
        models(r, step_add_bonus(state@, info.sender@, attached_amount(info))),
{
    if !(info.sender == state.owner) {
        return Err(ContractError::Unauthorized);
    }
    if state.user.is_some() || state.is_playing {
        return Err(ContractError::IsPlaying);
    }
    let pay = get_coin_u128(info);
    Ok(
        State {
            guess_number: state.guess_number,
            is_playing: state.is_playing,
            is_lottery: state.is_lottery,
            guess_is_odd: state.guess_is_odd,
            user: Option::None,
            owner: state.owner.clone(),
            bonus: state.bonus + pay,
            user_payed: state.user_payed,
        },
    )
}

/// Places or adjusts the round's single wager: records the payment and the
/// guessed parity. A fully funded bettor may re-submit with nothing attached
/// purely to change the guess before resolution.
pub fn try_guess(state: &State, info: &MessageInfo, is_odd: bool) -> (r: Result<
    State,
    ContractError,
>)
    ensures
        models(r, step_guess(state@, info.sender@, is_odd, attached_amount(info))),
{
    let pay = get_coin_u128(info);
    if !state.is_playing || state.is_lottery {
        return Err(ContractError::NotReady);
    }
    let user: String = match &state.user {
        Option::Some(u) => {
            if !(*u == info.sender) {
                return Err(ContractError::Unauthorized);
            }
            u.clone()
        },
        Option::None => info.sender.clone(),
    };
    match state.user_payed.checked_add(pay) {
        Option::Some(total) => {
            if total != state.bonus {
                return Err(ContractError::Pay);
            }
            Ok(
                State {
                    guess_number: state.guess_number,
                    is_playing: state.is_playing,
                    is_lottery: state.is_lottery,
                    guess_is_odd: is_odd,
                    user: Option::Some(user),
                    owner: state.owner.clone(),
                    bonus: state.bonus,
                    user_payed: total,
                },
            )
        },
        Option::None => {
            // the exact pool amount fits in the machine word, so an overflowing
            // sum can never equal it
            Err(ContractError::Pay)
        },
    }
}

/// The payout resolver: picks the settled round's recipient from the recorded
/// guess and the target number's parity.
pub fn payout_recipient(state: &State) -> (r: String)
    requires
        state@.user is Some,
    ensures
        r@ == winner(state@),
{
    if state.guess_is_odd == is_odd_i8(state.guess_number) {
        state.owner.clone()
    } else {
        state.user.as_ref().unwrap().clone()
    }
}

/// Settles the round: marks it resolved and closed, and instructs the host to
/// send the contract's whole recognized-denomination balance — passed in by
/// the host — to the recipient the payout resolver picks.
pub fn try_lottery(state: &State, balance: Coin) -> (r: Result<(State, BankSend), ContractError>)
    ensures
        match r {
            Ok(p) => step_lottery(state@) == Ok::<StateModel, ContractError>(p.0@)
                && p.1.to_address@ == winner(state@) && p.1.amount@.len() == 1 && p.1.amount@[0]
                == balance,
            Err(e) => step_lottery(state@) == Err::<StateModel, ContractError>(e),
        },
{
    if state.is_lottery || state.user.is_none() {
        return Err(ContractError::NotReady);
    }
    let to_address = payout_recipient(state);
    let new_state = State {
        guess_number: state.guess_number,
        is_playing: false,
        is_lottery: true,
        guess_is_odd: state.guess_is_odd,
        user: clone_user(&state.user),
        owner: state.owner.clone(),
        bonus: state.bonus,
        user_payed: state.user_payed,
    };
    Ok((new_state, BankSend { to_address, amount: vec![balance] }))
}

/// Clears the round for the next game and instructs the host to sweep the
/// contract's whole balance — passed in by the host — back to the owner, when
/// there is anything to sweep.
pub fn try_reset(state: &State, info: &MessageInfo, number: i8, balances: Vec<Coin>) -> (r: Result<
    (State, Option<BankSend>),
    ContractError,
>)
    ensures
        match r {
            Ok(p) => step_reset(state@, info.sender@, number as int) == Ok::<
                StateModel,
                ContractError,
            >(p.0@) && match p.1 {
                Option::Some(send) => balances@.len() > 0 && send.to_address@ == state@.owner
                    && send.amount == balances,
                Option::None => balances@.len() == 0,
            },
            Err(e) => step_reset(state@, info.sender@, number as int) == Err::<
                StateModel,
                ContractError,
            >(e),
        },
{
    if state.is_playing && state.user.is_some() {
        return Err(ContractError::IsPlaying);
    }
    if !(info.sender == state.owner) {
        return Err(ContractError::Unauthorized);
    }
    let new_state = State {
        guess_number: number,
        is_playing: false,
        is_lottery: false,
        guess_is_odd: state.guess_is_odd,
        user: Option::None,
        owner: state.owner.clone(),
        bonus: 0,
        user_payed: state.user_payed,
    };
    let send = if balances.len() > 0 {
        Option::Some(BankSend { to_address: state.owner.clone(), amount: balances })
    } else {
        Option::None
    };
    Ok((new_state, send))
}

/// The recognized-denomination balance a balance list carries, as a coin: what
/// the ledger would answer for that single denomination.
pub fn denom_balance(balances: &Vec<Coin>) -> (c: Coin)
    ensures
        c@.denom == denom(),
        c@.amount == recognized_amount(balances@),
{
    let d: String = "uluna".to_owned();
    let mut i: usize = 0;
    assert(balances@.skip(0) =~= balances@);
    while i < balances.len()
        invariant
            i <= balances@.len(),
            d@ == denom(),
            recognized_amount(balances@) == recognized_amount(balances@.skip(i as int)),
        decreases balances@.len() - i,
    {
        let c = &balances[i];
        assert(balances@.skip(i as int)[0] == balances@[i as int]);
        if c.denom == d {
            return Coin { denom: c.denom.clone(), amount: c.amount };
        }
        assert(balances@.skip(i as int).drop_first() =~= balances@.skip(i as int + 1));
        i = i + 1;
    }
    assert(balances@.skip(i as int).len() == 0);
    Coin { denom: d, amount: 0 }
}

/// Whether the whole-invocation outcome `r` agrees with the model: the new
/// record matches `step`, and the outbound transfer is exactly what the
/// settled or reset round owes.
pub open spec fn execute_models(
    r: Result<(State, Option<BankSend>), ContractError>,
    m: StateModel,
    e: Event,
    balances: Seq<Coin>,
) -> bool {
    match r {
        Ok(p) => step(m, e) == Ok::<StateModel, ContractError>(p.0@) && match e.msg {
            ExecuteMsg::Lottery {  } => p.1 is Some && p.1.unwrap().to_address@ == winner(m)
                && p.1.unwrap().amount@.len() == 1 && p.1.unwrap().amount@[0]@ == (CoinModel {
                denom: denom(),
                amount: recognized_amount(balances),
            }),
            ExecuteMsg::Reset { .. } => match p.1 {
                Option::Some(send) => balances.len() > 0 && send.to_address@ == m.owner
                    && send.amount@ == balances,
                Option::None => balances.len() == 0,
            },
            _ => p.1 is None,
        },
        Err(err) => step(m, e) == Err::<StateModel, ContractError>(err),
    }
}

/// Dispatches one command to its transition: the returned record is the one
/// and only next persisted value, and any returned transfer instruction is the
/// round's outbound effect. On an error nothing is to be written and nothing
/// moves. `balances` is the ledger's answer for the contract's whole holdings,
/// queried by the host for this invocation.
pub fn execute(state: &State, info: &MessageInfo, msg: ExecuteMsg, balances: Vec<Coin>) -> (r:
    Result<(State, Option<BankSend>), ContractError>)
    requires
        (msg is AddBonus && info.sender@ == state@.owner && state@.user is None
            && !state@.is_playing) ==> state@.bonus + attached_amount(info) <= u128::MAX,
    ensures
        execute_models(r, state@, event_of(info, msg), balances@),
{
    match msg {
        ExecuteMsg::Start {  } => match try_start(state, info) {
            Ok(ns) => Ok((ns, Option::None)),
            Err(e) => Err(e),
        },
        ExecuteMsg::Reset { num } => try_reset(state, info, num, balances),
        ExecuteMsg::Guess { is_odd } => match try_guess(state, info, is_odd) {
            Ok(ns) => Ok((ns, Option::None)),
            Err(e) => Err(e),
        },
        ExecuteMsg::AddBonus {  } => match try_add_bonus(state, info) {
            Ok(ns) => Ok((ns, Option::None)),
            Err(e) => Err(e),
        },
        ExecuteMsg::Lottery {  } => {
            let bal = denom_balance(&balances);
            match try_lottery(state, bal) {
                Ok(p) => Ok((p.0, Option::Some(p.1))),
                Err(e) => Err(e),
            }
        },
    }
}

/// Answers `GetStatus`: whether a round is open, and the pool amount.
pub fn query_status(state: &State) -> (resp: StatusResponse)
    ensures
        resp.playing == state@.is_playing,
        resp.bonus as nat == state@.bonus,
{
    StatusResponse { playing: state.is_playing, bonus: state.bonus }
}

/// Dispatches one read-only question about the record.
pub fn query(state: &State, msg: QueryMsg) -> (resp: StatusResponse)
    ensures
        resp.playing == state@.is_playing,
        resp.bonus as nat == state@.bonus,
{
    match msg {
        QueryMsg::GetStatus {  } => query_status(state),
    }
}

} // verus!
