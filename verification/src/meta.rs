//! What executing a transaction did, as the database holds it.
use crate::error::{
    detail_fits, get_transaction_error, has_stored_error, stored_error, DbTransactionError,
    DbTransactionErrorView,
};
use crate::message::{stored_instructions, DbCompiledInstruction, DbCompiledInstructionView};
use crate::number::{bigint, bigints, to_bigint, to_bigints};
use crate::replica::{
    InnerInstructions, InnerInstructionsView, Reward, RewardType, RewardView,
    TransactionStatusMeta, TransactionStatusMetaView, TransactionTokenBalance,
    TransactionTokenBalanceView,
};
use vstd::prelude::*;

verus! {

/// The stored instructions that were invoked while the instruction at `index` ran.
#[derive(Clone, Debug)]
pub struct DbInnerInstructions {
    pub index: i16,
    pub instructions: Vec<DbCompiledInstruction>,
}

/// What a [`DbInnerInstructions`] holds.
#[verifier::ext_equal]
pub struct DbInnerInstructionsView {
    pub index: i16,
    pub instructions: Seq<DbCompiledInstructionView>,
}

impl View for DbInnerInstructions {
    type V = DbInnerInstructionsView;

    open spec fn view(&self) -> DbInnerInstructionsView {
        DbInnerInstructionsView { index: self.index, instructions: self.instructions.deep_view() }
    }
}

impl DeepView for DbInnerInstructions {
    type V = DbInnerInstructionsView;

    open spec fn deep_view(&self) -> DbInnerInstructionsView {
        self@
    }
}

/// How the inner instructions of one instruction are stored.
pub open spec fn stored_inner(instructions: InnerInstructionsView) -> DbInnerInstructionsView {
    DbInnerInstructionsView {
        index: instructions.index as i16,
        instructions: stored_instructions(instructions.instructions),
    }
}

/// How the inner instructions of a transaction are stored.
pub open spec fn stored_inners(all: Seq<InnerInstructionsView>) -> Seq<DbInnerInstructionsView> {
    all.map_values(|instructions: InnerInstructionsView| stored_inner(instructions))
}

impl From<&InnerInstructions> for DbInnerInstructions {
    fn from(instructions: &InnerInstructions) -> (record: Self)
        ensures
            record@ == stored_inner(instructions@),
    {
        let inner = &instructions.instructions;
        let mut records: Vec<DbCompiledInstruction> = Vec::with_capacity(inner.len());
        for i in 0..inner.len()
            invariant
                records@.len() == i,
                records.deep_view() == stored_instructions(inner.deep_view().take(i as int)),
        {
            let ghost before = records.deep_view();
            let record = DbCompiledInstruction::from(&inner[i].instruction);
            records.push(record);
            assert(records.deep_view() =~= before.push(record@));
            assert(records.deep_view() =~= stored_instructions(inner.deep_view().take(i + 1)));
        }
        assert(inner.deep_view().take(inner@.len() as int) =~= inner.deep_view());
        DbInnerInstructions { index: instructions.index as i16, instructions: records }
    }
}

impl vstd::std_specs::convert::FromSpecImpl<&InnerInstructions> for DbInnerInstructions {
    open spec fn obeys_from_spec() -> bool {
        false
    }

    open spec fn from_spec(instructions: &InnerInstructions) -> Self {
        arbitrary()
    }
}

/// Stores the inner instructions of a transaction.
fn store_inners(all: &Vec<InnerInstructions>) -> (records: Vec<DbInnerInstructions>)
    ensures
        records.deep_view() == stored_inners(all.deep_view()),
{
    let mut records: Vec<DbInnerInstructions> = Vec::with_capacity(all.len());
    for i in 0..all.len()
        invariant
            records@.len() == i,
            records.deep_view() == stored_inners(all.deep_view().take(i as int)),
    {
        let ghost before = records.deep_view();
        let record = DbInnerInstructions::from(&all[i]);
        records.push(record);
        assert(records.deep_view() =~= before.push(record@));
        assert(records.deep_view() =~= stored_inners(all.deep_view().take(i + 1)));
    }
    assert(all.deep_view().take(all@.len() as int) =~= all.deep_view());
    records
}

/// What a stored reward was paid for.
#[derive(Clone, Copy, Debug, PartialEq, Eq, Structural)]
pub enum DbRewardType {
    Fee,
    Rent,
    Staking,
    Voting,
}

/// How the type of a reward is stored: under its name.
pub open spec fn stored_reward_type(reward_type: RewardType) -> DbRewardType {
    match reward_type {
        RewardType::Fee => DbRewardType::Fee,
        RewardType::Rent => DbRewardType::Rent,
        RewardType::Staking => DbRewardType::Staking,
        RewardType::Voting => DbRewardType::Voting,
    }
}

impl From<&RewardType> for DbRewardType {
    fn from(reward_type: &RewardType) -> (record: Self) {
        match reward_type {
            RewardType::Fee => DbRewardType::Fee,
            RewardType::Rent => DbRewardType::Rent,
            RewardType::Staking => DbRewardType::Staking,
            RewardType::Voting => DbRewardType::Voting,
        }
    }
}

impl vstd::std_specs::convert::FromSpecImpl<&RewardType> for DbRewardType {
    open spec fn obeys_from_spec() -> bool {
        true
    }

    open spec fn from_spec(reward_type: &RewardType) -> Self {
        stored_reward_type(*reward_type)
    }
}

/// How the type of a reward is stored, where it has one.
pub fn get_reward_type(reward: &Option<RewardType>) -> (record: Option<DbRewardType>)
    ensures
        record == match *reward {
            Some(reward_type) => Some(stored_reward_type(reward_type)),
            None => None,
        },
{
    match reward {
        Some(reward_type) => Some(DbRewardType::from(reward_type)),
        None => None,
    }
}

/// A stored reward.
#[derive(Clone, Debug)]
pub struct DbReward {
    pub pubkey: String,
    pub lamports: i64,
    pub post_balance: i64,
    pub reward_type: Option<DbRewardType>,
    pub commission: Option<i16>,
}

/// What a [`DbReward`] holds.
#[verifier::ext_equal]
pub struct DbRewardView {
    pub pubkey: Seq<char>,
    pub lamports: i64,
    pub post_balance: i64,
    pub reward_type: Option<DbRewardType>,
    pub commission: Option<i16>,
}

impl View for DbReward {
    type V = DbRewardView;

    open spec fn view(&self) -> DbRewardView {
        DbRewardView {
            pubkey: self.pubkey@,
            lamports: self.lamports,
            post_balance: self.post_balance,
            reward_type: self.reward_type,
            commission: self.commission,
        }
    }
}

impl DeepView for DbReward {
    type V = DbRewardView;

    open spec fn deep_view(&self) -> DbRewardView {
        self@
    }
}

/// How a reward is stored.
pub open spec fn stored_reward(reward: RewardView) -> DbRewardView {
    DbRewardView {
        pubkey: reward.pubkey,
        lamports: reward.lamports,
        post_balance: bigint(reward.post_balance),
        reward_type: match reward.reward_type {
            Some(reward_type) => Some(stored_reward_type(reward_type)),
            None => None,
        },
        commission: match reward.commission {
            Some(commission) => Some(commission as i16),
            None => None,
        },
    }
}

/// How a list of rewards is stored.
pub open spec fn stored_rewards(rewards: Seq<RewardView>) -> Seq<DbRewardView> {
    rewards.map_values(|reward: RewardView| stored_reward(reward))
}

impl From<&Reward> for DbReward {
    fn from(reward: &Reward) -> (record: Self)
        ensures
            record@ == stored_reward(reward@),
    {
        DbReward {
            pubkey: reward.pubkey.clone(),
            lamports: reward.lamports,
            post_balance: to_bigint(reward.post_balance),
            reward_type: get_reward_type(&reward.reward_type),
            commission: match reward.commission {
                Some(commission) => Some(commission as i16),
                None => None,
            },
        }
    }
}

impl vstd::std_specs::convert::FromSpecImpl<&Reward> for DbReward {
    open spec fn obeys_from_spec() -> bool {
        false
    }

    open spec fn from_spec(reward: &Reward) -> Self {
        arbitrary()
    }
}

/// Stores a list of rewards.
fn store_rewards(rewards: &Vec<Reward>) -> (records: Vec<DbReward>)
    ensures
        records.deep_view() == stored_rewards(rewards.deep_view()),
{
    let mut records: Vec<DbReward> = Vec::with_capacity(rewards.len());
    for i in 0..rewards.len()
        invariant
            records@.len() == i,
            records.deep_view() == stored_rewards(rewards.deep_view().take(i as int)),
    {
        let ghost before = records.deep_view();
        let record = DbReward::from(&rewards[i]);
        records.push(record);
        assert(records.deep_view() =~= before.push(record@));
        assert(records.deep_view() =~= stored_rewards(rewards.deep_view().take(i + 1)));
    }
    assert(rewards.deep_view().take(rewards@.len() as int) =~= rewards.deep_view());
    records
}

/// A stored token balance. `ui_token_amount` is the double-precision amount by its IEEE 754 bits.
#[derive(Clone, Debug)]
pub struct DbTransactionTokenBalance {
    pub account_index: i16,
    pub mint: String,
    pub ui_token_amount: Option<u64>,
    pub owner: String,
}

/// What a [`DbTransactionTokenBalance`] holds.
#[verifier::ext_equal]
pub struct DbTransactionTokenBalanceView {
    pub account_index: i16,
    pub mint: Seq<char>,
    pub ui_token_amount: Option<u64>,
    pub owner: Seq<char>,
}

impl View for DbTransactionTokenBalance {
    type V = DbTransactionTokenBalanceView;

    open spec fn view(&self) -> DbTransactionTokenBalanceView {
        DbTransactionTokenBalanceView {
            account_index: self.account_index,
            mint: self.mint@,
            ui_token_amount: self.ui_token_amount,
            owner: self.owner@,
        }
    }
}

impl DeepView for DbTransactionTokenBalance {
    type V = DbTransactionTokenBalanceView;

    open spec fn deep_view(&self) -> DbTransactionTokenBalanceView {
        self@
    }
}

/// How a token balance is stored.
pub open spec fn stored_token_balance(
    token_balance: TransactionTokenBalanceView,
) -> DbTransactionTokenBalanceView {
    DbTransactionTokenBalanceView {
        account_index: token_balance.account_index as i16,
        mint: token_balance.mint,
        ui_token_amount: token_balance.ui_token_amount.ui_amount,
        owner: token_balance.owner,
    }
}

/// How a list of token balances is stored.
pub open spec fn stored_token_balances(balances: Seq<TransactionTokenBalanceView>) -> Seq<
    DbTransactionTokenBalanceView,
> {
    balances.map_values(|balance: TransactionTokenBalanceView| stored_token_balance(balance))
}

impl From<&TransactionTokenBalance> for DbTransactionTokenBalance {
    fn from(token_balance: &TransactionTokenBalance) -> (record: Self)
        ensures
            record@ == stored_token_balance(token_balance@),
    {
        DbTransactionTokenBalance {
            account_index: token_balance.account_index as i16,
            mint: token_balance.mint.clone(),
            ui_token_amount: token_balance.ui_token_amount.ui_amount,
            owner: token_balance.owner.clone(),
        }
    }
}

impl vstd::std_specs::convert::FromSpecImpl<&TransactionTokenBalance> for DbTransactionTokenBalance {
    open spec fn obeys_from_spec() -> bool {
        false
    }

    open spec fn from_spec(token_balance: &TransactionTokenBalance) -> Self {
        arbitrary()
    }
}

/// Stores a list of token balances.
fn store_token_balances(balances: &Vec<TransactionTokenBalance>) -> (records: Vec<
    DbTransactionTokenBalance,
>)
    ensures
        records.deep_view() == stored_token_balances(balances.deep_view()),
{
    let mut records: Vec<DbTransactionTokenBalance> = Vec::with_capacity(balances.len());
    for i in 0..balances.len()
        invariant
            records@.len() == i,
            records.deep_view() == stored_token_balances(balances.deep_view().take(i as int)),
    {
        let ghost before = records.deep_view();
        let record = DbTransactionTokenBalance::from(&balances[i]);
        records.push(record);
        assert(records.deep_view() =~= before.push(record@));
        assert(records.deep_view() =~= stored_token_balances(balances.deep_view().take(i + 1)));
    }
    assert(balances.deep_view().take(balances@.len() as int) =~= balances.deep_view());
    records
}

/// Copies a list of texts.
fn copy_texts(texts: &Vec<String>) -> (copy: Vec<String>)
    ensures
        copy.deep_view() == texts.deep_view(),
{
    let copy = texts.clone();
    assert(copy@ =~= texts@);
    copy
}

/// What executing a stored transaction did.
#[derive(Clone, Debug)]
pub struct DbTransactionStatusMeta {
    pub error: Option<DbTransactionError>,
    pub fee: i64,
    pub pre_balances: Vec<i64>,
    pub post_balances: Vec<i64>,
    pub inner_instructions: Option<Vec<DbInnerInstructions>>,
    pub log_messages: Option<Vec<String>>,
    pub pre_token_balances: Option<Vec<DbTransactionTokenBalance>>,
    pub post_token_balances: Option<Vec<DbTransactionTokenBalance>>,
    pub rewards: Option<Vec<DbReward>>,
}

/// What a [`DbTransactionStatusMeta`] holds.
#[verifier::ext_equal]
pub struct DbTransactionStatusMetaView {
    pub error: Option<DbTransactionErrorView>,
    pub fee: i64,
    pub pre_balances: Seq<i64>,
    pub post_balances: Seq<i64>,
    pub inner_instructions: Option<Seq<DbInnerInstructionsView>>,
    pub log_messages: Option<Seq<Seq<char>>>,
    pub pre_token_balances: Option<Seq<DbTransactionTokenBalanceView>>,
    pub post_token_balances: Option<Seq<DbTransactionTokenBalanceView>>,
    pub rewards: Option<Seq<DbRewardView>>,
}

impl View for DbTransactionStatusMeta {
    type V = DbTransactionStatusMetaView;

    open spec fn view(&self) -> DbTransactionStatusMetaView {
        DbTransactionStatusMetaView {
            error: self.error.deep_view(),
            fee: self.fee,
            pre_balances: self.pre_balances@,
            post_balances: self.post_balances@,
            inner_instructions: self.inner_instructions.deep_view(),
            log_messages: self.log_messages.deep_view(),
            pre_token_balances: self.pre_token_balances.deep_view(),
            post_token_balances: self.post_token_balances.deep_view(),
            rewards: self.rewards.deep_view(),
        }
    }
}

/// How the effects of a transaction are stored. A list that was not recorded stays absent.
pub open spec fn stored_meta(meta: TransactionStatusMetaView) -> DbTransactionStatusMetaView {
    DbTransactionStatusMetaView {
        error: stored_error(meta.status),
        fee: bigint(meta.fee),
        pre_balances: bigints(meta.pre_balances),
        post_balances: bigints(meta.post_balances),
        inner_instructions: match meta.inner_instructions {
            Some(instructions) => Some(stored_inners(instructions)),
            None => None,
        },
        log_messages: meta.log_messages,
        pre_token_balances: match meta.pre_token_balances {
            Some(balances) => Some(stored_token_balances(balances)),
            None => None,
        },
        post_token_balances: match meta.post_token_balances {
            Some(balances) => Some(stored_token_balances(balances)),
            None => None,
        },
        rewards: match meta.rewards {
            Some(rewards) => Some(stored_rewards(rewards)),
            None => None,
        },
    }
}

impl DbTransactionStatusMeta {
    /// Stores the effects of a transaction. If it failed, the database needs a code for its error.
    pub fn from(meta: &TransactionStatusMeta) -> (record: Self)
        requires
            has_stored_error(meta.status),
        ensures
            record@ == stored_meta(meta@),
            detail_fits(record@.error),
    {
        DbTransactionStatusMeta {
            error: get_transaction_error(&meta.status),
            fee: to_bigint(meta.fee),
            pre_balances: to_bigints(&meta.pre_balances),
            post_balances: to_bigints(&meta.post_balances),
            inner_instructions: match &meta.inner_instructions {
                Some(instructions) => Some(store_inners(instructions)),
                None => None,
            },
            log_messages: match &meta.log_messages {
                Some(texts) => Some(copy_texts(texts)),
                None => None,
            },
            pre_token_balances: match &meta.pre_token_balances {
                Some(balances) => Some(store_token_balances(balances)),
                None => None,
            },
            post_token_balances: match &meta.post_token_balances {
                Some(balances) => Some(store_token_balances(balances)),
                None => None,
            },
            rewards: match &meta.rewards {
                Some(rewards) => Some(store_rewards(rewards)),
                None => None,
            },
        }
    }
}

} // verus!
