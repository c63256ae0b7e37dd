//! Response shapes. Instruction-bearing responses come in two forms: the
//! internal one read off the wire and the public one handed to callers, joined
//! by a total conversion.
use crate::codec::Address;
use crate::identifier::{ExchangeId, MarginAccountId, MarketId};
use std::collections::HashMap;
use vstd::prelude::*;

verus! {

/// A ready-to-sign transaction and what it costs.
pub struct TransactionInfo {
    pub transaction: Vec<u8>,
    pub total_required_lamports: u64,
    pub required_compute_lamports: u64,
    pub required_rent_lamports: u64,
    pub cu_limit: u32,
}

/// One account that an instruction touches, as read off the wire.
#[derive(Clone, Copy, Debug, PartialEq, Eq)]
pub struct AccountMetaInternal {
    pub pubkey: Address,
    pub is_signer: bool,
    pub is_writable: bool,
}

/// One account that an instruction touches.
#[derive(Clone, Copy, Debug, PartialEq, Eq)]
pub struct AccountMeta {
    pub pubkey: Address,
    pub is_signer: bool,
    pub is_writable: bool,
}

impl AccountMeta {
    /// Whether `self` carries the same three fields as `m`.
    pub open spec fn same_as(self, m: AccountMetaInternal) -> bool {
        self.pubkey == m.pubkey && self.is_signer == m.is_signer && self.is_writable
            == m.is_writable
    }

    /// The public form of an account entry; every field is kept.
    pub fn from_internal(m: AccountMetaInternal) -> (r: AccountMeta)
        ensures
            r.same_as(m),
    {
        AccountMeta { pubkey: m.pubkey, is_signer: m.is_signer, is_writable: m.is_writable }
    }
}

/// One on-chain instruction, as read off the wire.
pub struct InstructionInternal {
    pub program_id: Address,
    pub accounts: Vec<AccountMetaInternal>,
    pub data: Vec<u8>,
}

/// One on-chain instruction: the program, the accounts in order, the payload.
pub struct Instruction {
    pub program_id: Address,
    pub accounts: Vec<AccountMeta>,
    pub data: Vec<u8>,
}

impl Instruction {
    /// Whether `self` is the public form of `ix`.
    pub open spec fn same_as(self, ix: InstructionInternal) -> bool {
        &&& self.program_id == ix.program_id
        &&& self.data@ == ix.data@
        &&& self.accounts@.len() == ix.accounts@.len()
        &&& forall|i: int|
            0 <= i < ix.accounts@.len() ==> (#[trigger] self.accounts@[i]).same_as(ix.accounts@[i])
    }

    /// The public form of an instruction.
    pub fn from_internal(ix: InstructionInternal) -> (r: Instruction)
        ensures
            r.same_as(ix),
    {
        let mut accounts: Vec<AccountMeta> = Vec::new();
        let mut i: usize = 0;
        while i < ix.accounts.len()
            invariant
                i <= ix.accounts@.len(),
                accounts@.len() == i,
                forall|j: int|
                    0 <= j < i ==> (#[trigger] accounts@[j]).same_as(ix.accounts@[j]),
            decreases ix.accounts@.len() - i,
        {
            accounts.push(AccountMeta::from_internal(ix.accounts[i]));
            i = i + 1;
        }
        Instruction { program_id: ix.program_id, accounts, data: ix.data }
    }
}

/// Whether `public` is `internal` converted entry by entry, in order.
pub open spec fn same_instructions(public: Seq<Instruction>, internal: Seq<InstructionInternal>) -> bool {
    &&& public.len() == internal.len()
    &&& forall|i: int| 0 <= i < internal.len() ==> (#[trigger] public[i]).same_as(internal[i])
}

/// Converts a list of instructions, keeping their order.
fn convert_instructions(ixs: Vec<InstructionInternal>) -> (r: Vec<Instruction>)
    ensures
        same_instructions(r@, ixs@),
{
    let mut out: Vec<Instruction> = Vec::new();
    let mut rest = ixs;
    let ghost items = rest@;
    let n = rest.len();
    let mut i: usize = 0;
    assert(rest@ =~= items.subrange(0, items.len() as int));
    while rest.len() > 0
        invariant
            i + rest@.len() == items.len(),
            items.len() == n,
            rest@ =~= items.subrange(i as int, items.len() as int),
            same_instructions(out@, items.subrange(0, i as int)),
        decreases rest@.len(),
    {
        let ix = rest.remove(0);
        proof {
            assert(ix == items[i as int]);
        }
        out.push(Instruction::from_internal(ix));
        i = i + 1;
        proof {
            assert(rest@ =~= items.subrange(i as int, items.len() as int));
            assert forall|j: int| 0 <= j < i implies (#[trigger] out@[j]).same_as(
                items.subrange(0, i as int)[j],
            ) by {
                if j < i - 1 {
                    assert(items.subrange(0, i as int)[j] == items.subrange(
                        0,
                        i - 1,
                    )[j]);
                }
            }
        }
    }
    assert(items.subrange(0, items.len() as int) =~= items);
    out
}

/// The two instruction lists of a response, as read off the wire.
pub struct InstructionsInternal {
    pub v3_instructions: Vec<InstructionInternal>,
    pub compute_budget_instructions: Vec<InstructionInternal>,
}

/// The two instruction lists of a response: the exchange's own and the
/// compute-budget ones.
pub struct Instructions {
    pub v3_instructions: Vec<Instruction>,
    pub compute_budget_instructions: Vec<Instruction>,
}

impl Instructions {
    /// Whether `self` is the public form of `ixs`.
    pub open spec fn same_as(self, ixs: InstructionsInternal) -> bool {
        &&& same_instructions(self.v3_instructions@, ixs.v3_instructions@)
        &&& same_instructions(self.compute_budget_instructions@, ixs.compute_budget_instructions@)
    }

    /// The public form of both lists.
    pub fn from_internal(ixs: InstructionsInternal) -> (r: Instructions)
        ensures
            r.same_as(ixs),
    {
        Instructions {
            v3_instructions: convert_instructions(ixs.v3_instructions),
            compute_budget_instructions: convert_instructions(ixs.compute_budget_instructions),
        }
    }
}

/// Instructions to assemble and what they cost, as read off the wire.
pub struct InstructionInfoInternal {
    pub instructions: InstructionsInternal,
    pub total_required_lamports: u64,
    pub required_compute_lamports: u64,
    pub required_rent_lamports: u64,
    pub cu_limit: u32,
}

/// Instructions to assemble and what they cost.
pub struct InstructionInfo {
    pub instructions: Instructions,
    pub total_required_lamports: u64,
    pub required_compute_lamports: u64,
    pub required_rent_lamports: u64,
    pub cu_limit: u32,
}

impl InstructionInfo {
    /// The public form; the cost fields are kept as they are.
    pub fn from_internal(ixs: InstructionInfoInternal) -> (r: InstructionInfo)
        ensures
            r.instructions.same_as(ixs.instructions),
            r.total_required_lamports == ixs.total_required_lamports,
            r.required_compute_lamports == ixs.required_compute_lamports,
            r.required_rent_lamports == ixs.required_rent_lamports,
            r.cu_limit == ixs.cu_limit,
    {
        InstructionInfo {
            instructions: Instructions::from_internal(ixs.instructions),
            total_required_lamports: ixs.total_required_lamports,
            required_compute_lamports: ixs.required_compute_lamports,
            required_rent_lamports: ixs.required_rent_lamports,
            cu_limit: ixs.cu_limit,
        }
    }
}

/// A transaction that creates a margin account, and the account it makes.
pub struct CreateMarginAccountTransactionResponse {
    pub transaction: Vec<u8>,
    pub total_required_lamports: u64,
    pub required_compute_lamports: u64,
    pub required_rent_lamports: u64,
    pub margin_account_address: Address,
    pub margin_account_id: MarginAccountId,
}

/// Instructions that create a margin account, as read off the wire.
pub struct CreateMarginAccountInstructionsResponseInternal {
    pub instructions: InstructionsInternal,
    pub total_required_lamports: u64,
    pub required_compute_lamports: u64,
    pub required_rent_lamports: u64,
    pub margin_account_address: Address,
    pub margin_account_id: MarginAccountId,
}

/// Instructions that create a margin account, and the account they make.
pub struct CreateMarginAccountInstructionsResponse {
    pub instructions: Instructions,
    pub total_required_lamports: u64,
    pub required_compute_lamports: u64,
    pub required_rent_lamports: u64,
    pub margin_account_address: Address,
    pub margin_account_id: MarginAccountId,
}

impl CreateMarginAccountInstructionsResponse {
    /// The public form; every other field is kept as it is.
    pub fn from_internal(ixs: CreateMarginAccountInstructionsResponseInternal) -> (r:
        CreateMarginAccountInstructionsResponse)
        ensures
            r.instructions.same_as(ixs.instructions),
            r.total_required_lamports == ixs.total_required_lamports,
            r.required_compute_lamports == ixs.required_compute_lamports,
            r.required_rent_lamports == ixs.required_rent_lamports,
            r.margin_account_address == ixs.margin_account_address,
            r.margin_account_id == ixs.margin_account_id,
    {
        CreateMarginAccountInstructionsResponse {
            instructions: Instructions::from_internal(ixs.instructions),
            total_required_lamports: ixs.total_required_lamports,
            required_compute_lamports: ixs.required_compute_lamports,
            required_rent_lamports: ixs.required_rent_lamports,
            margin_account_address: ixs.margin_account_address,
            margin_account_id: ixs.margin_account_id,
        }
    }
}

/// A snapshot of an exchange.
pub struct ExchangeInfo {
    pub address: Address,
    pub accounting: ExchangeInfoAccounting,
    pub settings: ExchangeInfoSettings,
    pub id: ExchangeId,
    pub market_ids: Vec<MarketId>,
    pub oracle_configs: Vec<OracleConfig>,
    pub status: u16,
    pub collateral_expo: i16,
    pub collateral_mint: Address,
    pub collateral_vault: Address,
    pub admin: Address,
    pub nominated_admin: Address,
    pub authorized_settler: Address,
    pub authorized_protocol_fees_collector: Address,
}

#[derive(Clone, Copy, Debug)]
pub struct ExchangeInfoAccounting {
    pub notional_open_interest: u128,
    pub last_time_locked_open_interest_accounting_refreshed: u64,
    pub balance: u64,
    pub margin_balance: u64,
    pub lp_balance: u64,
    pub lp_shares: u64,
    pub protocol_fees: u64,
    pub unsettled_collateral_amount: u64,
}

#[derive(Clone, Copy, Debug)]
pub struct ExchangeInfoSettings {
    pub min_lp_duration: u64,
    pub settlement_delay: u64,
    pub min_liquidation_fee: u64,
    pub max_liquidation_fee: u64,
    pub locked_open_interest_staleness_threshold: u64,
    pub protocol_fee_rate: u16,
    pub locked_open_interest_ratio: u16,
    pub max_keeper_tip_rate: u16,
}

#[derive(Clone, Copy, Debug)]
pub struct OracleConfig {
    pub kind: OracleKind,
    pub program_id: Address,
}

#[derive(Clone, Copy, Debug, PartialEq, Eq, Structural)]
pub enum OracleKind {
    Pyth,
    Parcl,
    PythV2,
}

/// The market-id endpoint's answer, in the shape that was asked for.
pub enum MarketIdentifiersResponse {
    Ids(Vec<MarketId>),
    Addresses(Vec<Address>),
    IdMap(HashMap<MarketId, Address>),
}

/// A snapshot of a margin account.
pub struct MarginAccountInfo {
    pub address: Address,
    pub id: MarginAccountId,
    pub active_market_ids: Vec<MarketId>,
    pub positions: Vec<PositionInfo>,
    pub margins: Margins,
    pub margin: u64,
    pub excess_margin: u64,
    pub exchange: Address,
    pub owner: Address,
    pub delegate: Address,
    pub can_close: bool,
    pub can_liquidate: bool,
    pub in_liquidation: bool,
}

#[derive(Clone, Copy, Debug, Default, PartialEq, Eq)]
pub struct Margins {
    pub available_margin: i128,
    pub total_required_margin: u64,
    pub required_initial_margin: u64,
    pub required_maintenance_margin: u64,
    pub required_liquidation_fee_margin: u64,
    pub accumulated_liquidation_fees: u64,
}

#[derive(Clone, Debug)]
pub struct PositionInfo {
    pub size: i128,
    pub last_interaction_price: u128,
    pub last_interaction_funding_per_unit: String,
    pub market_id: MarketId,
}

/// A snapshot of a market.
pub struct MarketInfo {
    pub address: Address,
    pub price_feed_info: PriceFeedInfo,
    pub accounting: MarketInfoAccounting,
    pub settings: MarketInfoSettings,
    pub id: MarketId,
    pub exchange: Address,
    pub price_feed: Address,
    pub status: u8,
}

#[derive(Clone, Copy, Debug)]
pub struct PriceFeedInfo {
    pub price: u64,
    pub expo: i32,
}

#[derive(Clone, Debug)]
pub struct MarketInfoAccounting {
    pub last_utilized_liquidation_capacity: u128,
    pub size: u128,
    pub skew: i128,
    pub last_funding_rate: String,
    pub last_funding_per_unit: String,
    pub last_time_funding_updated: u64,
    pub first_liquidation_epoch_start_time: u64,
    pub last_liquidation_epoch_index: u64,
    pub last_time_liquidation_capacity_updated: u64,
}

#[derive(Clone, Copy, Debug)]
pub struct MarketInfoSettings {
    pub min_position_margin: u128,
    pub skew_scale: u128,
    pub max_side_size: u128,
    pub max_liquidation_limit_accumulation_multiplier: u64,
    pub max_seconds_in_liquidation_epoch: u64,
    pub initial_margin_ratio: u32,
    pub maker_fee_rate: u16,
    pub taker_fee_rate: u16,
    pub max_funding_velocity: u16,
    pub liquidation_fee_rate: u16,
    pub min_initial_margin_ratio: u16,
    pub maintenance_margin_proportion: u16,
    pub max_liquidation_pd: u16,
    pub authorized_liquidator: Address,
}

} // verus!
