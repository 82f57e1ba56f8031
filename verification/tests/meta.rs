use geyser_postgres_transaction::error::DbTransactionErrorCode;
use geyser_postgres_transaction::meta::{
    get_reward_type, DbInnerInstructions, DbReward, DbRewardType, DbTransactionStatusMeta,
    DbTransactionTokenBalance,
};
use geyser_postgres_transaction::replica::{
    CompiledInstruction, InnerInstruction, InnerInstructions, Reward, RewardType,
    TransactionError, TransactionStatusMeta, TransactionTokenBalance, UiTokenAmount,
};
use solana_sdk::instruction::InstructionError;

fn inner() -> InnerInstructions {
    InnerInstructions {
        index: 255,
        instructions: vec![
            InnerInstruction {
                instruction: CompiledInstruction {
                    program_id_index: 1,
                    accounts: vec![2, 130],
                    data: vec![4],
                },
            },
            InnerInstruction {
                instruction: CompiledInstruction {
                    program_id_index: 5,
                    accounts: vec![],
                    data: vec![],
                },
            },
        ],
    }
}

fn reward() -> Reward {
    Reward {
        pubkey: "key".to_string(),
        lamports: -5,
        post_balance: u64::MAX - 1,
        reward_type: Some(RewardType::Staking),
        commission: Some(200),
    }
}

fn token_balance(amount: Option<f64>) -> TransactionTokenBalance {
    TransactionTokenBalance {
        account_index: 250,
        mint: "mint".to_string(),
        ui_token_amount: UiTokenAmount {
            ui_amount: amount.map(f64::to_bits),
        },
        owner: "owner".to_string(),
    }
}

#[test]
fn inner_instructions_are_stored_in_order() {
    let record = DbInnerInstructions::from(&inner());
    assert_eq!(record.index, 255i16);
    assert_eq!(record.instructions.len(), 2);
    assert_eq!(record.instructions[0].accounts, vec![2i16, 130]);
    assert_eq!(record.instructions[1].program_id_index, 5);
}

#[test]
fn reward_types_keep_their_names() {
    assert_eq!(DbRewardType::from(&RewardType::Fee), DbRewardType::Fee);
    assert_eq!(DbRewardType::from(&RewardType::Rent), DbRewardType::Rent);
    assert_eq!(DbRewardType::from(&RewardType::Staking), DbRewardType::Staking);
    assert_eq!(DbRewardType::from(&RewardType::Voting), DbRewardType::Voting);
    assert_eq!(get_reward_type(&Some(RewardType::Voting)), Some(DbRewardType::Voting));
    assert_eq!(get_reward_type(&None), None);
}

#[test]
fn a_reward_is_stored() {
    let record = DbReward::from(&reward());
    assert_eq!(record.pubkey, "key");
    assert_eq!(record.lamports, -5);
    assert_eq!(record.post_balance, -2);
    assert_eq!(record.reward_type, Some(DbRewardType::Staking));
    assert_eq!(record.commission, Some(200i16));

    let mut plain = reward();
    plain.reward_type = None;
    plain.commission = None;
    let record = DbReward::from(&plain);
    assert_eq!(record.reward_type, None);
    assert_eq!(record.commission, None);
}

#[test]
fn a_token_balance_keeps_the_bits_of_its_amount() {
    let record = DbTransactionTokenBalance::from(&token_balance(Some(1.25)));
    assert_eq!(record.account_index, 250i16);
    assert_eq!(record.mint, "mint");
    assert_eq!(record.owner, "owner");
    assert_eq!(record.ui_token_amount.map(f64::from_bits), Some(1.25));
    let record = DbTransactionTokenBalance::from(&token_balance(None));
    assert_eq!(record.ui_token_amount, None);
}

#[test]
fn effects_are_stored() {
    let record = DbTransactionStatusMeta::from(&TransactionStatusMeta {
        status: Err(TransactionError::InstructionError(1, InstructionError::Immutable)),
        fee: 5000,
        pre_balances: vec![10, u64::MAX],
        post_balances: vec![5, 6, 7],
        inner_instructions: Some(vec![inner()]),
        log_messages: Some(vec!["one".to_string(), "two".to_string()]),
        pre_token_balances: Some(vec![token_balance(Some(2.0))]),
        post_token_balances: Some(vec![]),
        rewards: Some(vec![reward()]),
    });
    let error = record.error.unwrap();
    assert_eq!(error.error_code, DbTransactionErrorCode::InstructionError);
    assert_eq!(
        error.error_detail.unwrap(),
        "InstructionError: idx (1), error: (Account is immutable)"
    );
    assert_eq!(record.fee, 5000);
    assert_eq!(record.pre_balances, vec![10i64, -1]);
    assert_eq!(record.post_balances, vec![5i64, 6, 7]);
    assert_eq!(record.inner_instructions.unwrap()[0].index, 255);
    assert_eq!(record.log_messages.unwrap(), vec!["one", "two"]);
    assert_eq!(record.pre_token_balances.unwrap().len(), 1);
    assert_eq!(record.post_token_balances.unwrap().len(), 0);
    assert_eq!(record.rewards.unwrap()[0].post_balance, -2);
}

#[test]
fn what_was_not_recorded_stays_absent() {
    let record = DbTransactionStatusMeta::from(&TransactionStatusMeta {
        status: Ok(()),
        fee: 0,
        pre_balances: vec![],
        post_balances: vec![],
        inner_instructions: None,
        log_messages: None,
        pre_token_balances: None,
        post_token_balances: None,
        rewards: None,
    });
    assert!(record.error.is_none());
    assert!(record.inner_instructions.is_none());
    assert!(record.log_messages.is_none());
    assert!(record.pre_token_balances.is_none());
    assert!(record.post_token_balances.is_none());
    assert!(record.rewards.is_none());
}
