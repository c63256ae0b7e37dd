use parcl_v3_client::codec::Address;
use parcl_v3_client::response::{
    AccountMeta, AccountMetaInternal, CreateMarginAccountInstructionsResponse,
    CreateMarginAccountInstructionsResponseInternal, InstructionInfo, InstructionInfoInternal,
    InstructionInternal, InstructionsInternal,
};

fn key(b: u8) -> Address {
    Address { bytes: [b; 32] }
}

fn ix(program: u8, data: Vec<u8>) -> InstructionInternal {
    InstructionInternal {
        program_id: key(program),
        accounts: vec![
            AccountMetaInternal { pubkey: key(program + 1), is_signer: true, is_writable: false },
            AccountMetaInternal { pubkey: key(program + 2), is_signer: false, is_writable: true },
        ],
        data,
    }
}

#[test]
fn account_meta_conversion_keeps_fields() {
    let m = AccountMetaInternal { pubkey: key(5), is_signer: true, is_writable: false };
    let p = AccountMeta::from_internal(m);
    assert_eq!(p, AccountMeta { pubkey: key(5), is_signer: true, is_writable: false });
}

#[test]
fn instruction_info_conversion_keeps_order_and_costs() {
    let internal = InstructionInfoInternal {
        instructions: InstructionsInternal {
            v3_instructions: vec![ix(10, vec![1, 2]), ix(20, vec![])],
            compute_budget_instructions: vec![ix(30, vec![9])],
        },
        total_required_lamports: 5000,
        required_compute_lamports: 3000,
        required_rent_lamports: 2000,
        cu_limit: 200_000,
    };
    let info = InstructionInfo::from_internal(internal);
    assert_eq!(info.total_required_lamports, 5000);
    assert_eq!(info.required_compute_lamports, 3000);
    assert_eq!(info.required_rent_lamports, 2000);
    assert_eq!(info.cu_limit, 200_000);
    let v3 = &info.instructions.v3_instructions;
    assert_eq!(v3.len(), 2);
    assert_eq!(v3[0].program_id, key(10));
    assert_eq!(v3[0].data, vec![1, 2]);
    assert_eq!(v3[1].program_id, key(20));
    assert_eq!(
        v3[0].accounts,
        vec![
            AccountMeta { pubkey: key(11), is_signer: true, is_writable: false },
            AccountMeta { pubkey: key(12), is_signer: false, is_writable: true },
        ]
    );
    let cb = &info.instructions.compute_budget_instructions;
    assert_eq!(cb.len(), 1);
    assert_eq!(cb[0].data, vec![9]);
}

#[test]
fn create_margin_account_conversion_keeps_account() {
    let internal = CreateMarginAccountInstructionsResponseInternal {
        instructions: InstructionsInternal {
            v3_instructions: vec![ix(1, vec![7])],
            compute_budget_instructions: vec![],
        },
        total_required_lamports: 10,
        required_compute_lamports: 4,
        required_rent_lamports: 6,
        margin_account_address: key(99),
        margin_account_id: 3,
    };
    let r = CreateMarginAccountInstructionsResponse::from_internal(internal);
    assert_eq!(r.margin_account_address, key(99));
    assert_eq!(r.margin_account_id, 3);
    assert_eq!(r.total_required_lamports, 10);
    assert_eq!(r.instructions.v3_instructions[0].data, vec![7]);
    assert!(r.instructions.compute_budget_instructions.is_empty());
}
