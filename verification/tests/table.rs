//! Every discriminator key in the full table dispatches to its own variant:
//! a payload of the key followed by schema bytes decodes to that variant.

use pump_swap_decoder::decoder::{AccountMeta, PumpSwapDecoder, RawInstruction};
use pump_swap_decoder::instructions::PumpSwapInstruction;

fn target_program_id() -> Vec<u8> {
    vec![12, 20, 222, 252, 130, 94, 198, 118, 148, 37, 8, 24, 187, 101, 64, 101, 244, 41, 141, 49, 86, 213, 113, 180, 212, 248, 9, 12, 24, 233, 168, 99]
}

fn raw(data: Vec<u8>) -> RawInstruction {
    RawInstruction {
        program_id: target_program_id(),
        accounts: vec![AccountMeta { pubkey: [7u8; 32], is_signer: true, is_writable: false }],
        data,
    }
}

#[test]
fn command_admin_set_coin_creator_decodes_in_full_table() {
    let mut data = vec![242, 40, 117, 145, 73, 96, 105, 104];
    data.extend_from_slice(&[1, 2, 3, 4]);
    let decoded = PumpSwapDecoder::full().decode_instruction(&raw(data)).expect("recognized");
    match decoded.data {
        PumpSwapInstruction::AdminSetCoinCreator(body) => assert_eq!(body, vec![1, 2, 3, 4]),
        other => panic!("wrong variant: {:?}", other),
    }
}

#[test]
fn command_admin_update_token_incentives_decodes_in_full_table() {
    let mut data = vec![209, 11, 115, 87, 213, 23, 124, 204];
    data.extend_from_slice(&[1, 2, 3, 4]);
    let decoded = PumpSwapDecoder::full().decode_instruction(&raw(data)).expect("recognized");
    match decoded.data {
        PumpSwapInstruction::AdminUpdateTokenIncentives(body) => assert_eq!(body, vec![1, 2, 3, 4]),
        other => panic!("wrong variant: {:?}", other),
    }
}

#[test]
fn command_buy_decodes_in_full_table() {
    let mut data = vec![102, 6, 61, 18, 1, 218, 235, 234];
    data.extend_from_slice(&1000u64.to_le_bytes());
    data.extend_from_slice(&2000u64.to_le_bytes());
    data.push(1);
    let decoded = PumpSwapDecoder::full().decode_instruction(&raw(data)).expect("recognized");
    match decoded.data {
        PumpSwapInstruction::Buy(b) => {
            assert_eq!(b.amount, 1000);
            assert_eq!(b.max_quote, 2000);
            assert_eq!(b.flag, 1);
        }
        other => panic!("wrong variant: {:?}", other),
    }
}

#[test]
fn command_buy_exact_quote_in_decodes_in_full_table() {
    let mut data = vec![198, 46, 21, 82, 180, 217, 232, 112];
    data.extend_from_slice(&[1, 2, 3, 4]);
    let decoded = PumpSwapDecoder::full().decode_instruction(&raw(data)).expect("recognized");
    match decoded.data {
        PumpSwapInstruction::BuyExactQuoteIn(body) => assert_eq!(body, vec![1, 2, 3, 4]),
        other => panic!("wrong variant: {:?}", other),
    }
}

#[test]
fn command_claim_token_incentives_decodes_in_full_table() {
    let mut data = vec![16, 4, 71, 28, 204, 1, 40, 27];
    data.extend_from_slice(&[1, 2, 3, 4]);
    let decoded = PumpSwapDecoder::full().decode_instruction(&raw(data)).expect("recognized");
    match decoded.data {
        PumpSwapInstruction::ClaimTokenIncentives(body) => assert_eq!(body, vec![1, 2, 3, 4]),
        other => panic!("wrong variant: {:?}", other),
    }
}

#[test]
fn command_close_user_volume_accumulator_decodes_in_full_table() {
    let mut data = vec![249, 69, 164, 218, 150, 103, 84, 138];
    data.extend_from_slice(&[1, 2, 3, 4]);
    let decoded = PumpSwapDecoder::full().decode_instruction(&raw(data)).expect("recognized");
    match decoded.data {
        PumpSwapInstruction::CloseUserVolumeAccumulator(body) => assert_eq!(body, vec![1, 2, 3, 4]),
        other => panic!("wrong variant: {:?}", other),
    }
}

#[test]
fn command_collect_coin_creator_fee_decodes_in_full_table() {
    let mut data = vec![160, 57, 89, 42, 181, 139, 43, 66];
    data.extend_from_slice(&[1, 2, 3, 4]);
    let decoded = PumpSwapDecoder::full().decode_instruction(&raw(data)).expect("recognized");
    match decoded.data {
        PumpSwapInstruction::CollectCoinCreatorFee(body) => assert_eq!(body, vec![1, 2, 3, 4]),
        other => panic!("wrong variant: {:?}", other),
    }
}

#[test]
fn command_create_config_decodes_in_full_table() {
    let mut data = vec![201, 207, 243, 114, 75, 111, 47, 189];
    data.extend_from_slice(&[1, 2, 3, 4]);
    let decoded = PumpSwapDecoder::full().decode_instruction(&raw(data)).expect("recognized");
    match decoded.data {
        PumpSwapInstruction::CreateConfig(body) => assert_eq!(body, vec![1, 2, 3, 4]),
        other => panic!("wrong variant: {:?}", other),
    }
}

#[test]
fn command_create_pool_decodes_in_full_table() {
    let mut data = vec![233, 146, 209, 142, 207, 104, 64, 188];
    data.extend_from_slice(&[1, 2, 3, 4]);
    let decoded = PumpSwapDecoder::full().decode_instruction(&raw(data)).expect("recognized");
    match decoded.data {
        PumpSwapInstruction::CreatePool(body) => assert_eq!(body, vec![1, 2, 3, 4]),
        other => panic!("wrong variant: {:?}", other),
    }
}

#[test]
fn command_deposit_decodes_in_full_table() {
    let mut data = vec![242, 35, 198, 137, 82, 225, 242, 182];
    data.extend_from_slice(&[1, 2, 3, 4]);
    let decoded = PumpSwapDecoder::full().decode_instruction(&raw(data)).expect("recognized");
    match decoded.data {
        PumpSwapInstruction::Deposit(body) => assert_eq!(body, vec![1, 2, 3, 4]),
        other => panic!("wrong variant: {:?}", other),
    }
}

#[test]
fn command_disable_decodes_in_full_table() {
    let mut data = vec![185, 173, 187, 90, 216, 15, 238, 233];
    data.extend_from_slice(&[1, 2, 3, 4]);
    let decoded = PumpSwapDecoder::full().decode_instruction(&raw(data)).expect("recognized");
    match decoded.data {
        PumpSwapInstruction::Disable(body) => assert_eq!(body, vec![1, 2, 3, 4]),
        other => panic!("wrong variant: {:?}", other),
    }
}

#[test]
fn command_extend_account_decodes_in_full_table() {
    let mut data = vec![234, 102, 194, 203, 150, 72, 62, 229];
    data.extend_from_slice(&[1, 2, 3, 4]);
    let decoded = PumpSwapDecoder::full().decode_instruction(&raw(data)).expect("recognized");
    match decoded.data {
        PumpSwapInstruction::ExtendAccount(body) => assert_eq!(body, vec![1, 2, 3, 4]),
        other => panic!("wrong variant: {:?}", other),
    }
}

#[test]
fn command_init_user_volume_accumulator_decodes_in_full_table() {
    let mut data = vec![94, 6, 202, 115, 255, 96, 232, 183];
    data.extend_from_slice(&[1, 2, 3, 4]);
    let decoded = PumpSwapDecoder::full().decode_instruction(&raw(data)).expect("recognized");
    match decoded.data {
        PumpSwapInstruction::InitUserVolumeAccumulator(body) => assert_eq!(body, vec![1, 2, 3, 4]),
        other => panic!("wrong variant: {:?}", other),
    }
}

#[test]
fn command_sell_decodes_in_full_table() {
    let mut data = vec![51, 230, 133, 164, 1, 127, 131, 173];
    data.extend_from_slice(&[1, 2, 3, 4]);
    let decoded = PumpSwapDecoder::full().decode_instruction(&raw(data)).expect("recognized");
    match decoded.data {
        PumpSwapInstruction::Sell(body) => assert_eq!(body, vec![1, 2, 3, 4]),
        other => panic!("wrong variant: {:?}", other),
    }
}

#[test]
fn command_set_coin_creator_decodes_in_full_table() {
    let mut data = vec![210, 149, 128, 45, 188, 58, 78, 175];
    data.extend_from_slice(&[1, 2, 3, 4]);
    let decoded = PumpSwapDecoder::full().decode_instruction(&raw(data)).expect("recognized");
    match decoded.data {
        PumpSwapInstruction::SetCoinCreator(body) => assert_eq!(body, vec![1, 2, 3, 4]),
        other => panic!("wrong variant: {:?}", other),
    }
}

#[test]
fn command_sync_user_volume_accumulator_decodes_in_full_table() {
    let mut data = vec![86, 31, 192, 87, 163, 87, 79, 238];
    data.extend_from_slice(&[1, 2, 3, 4]);
    let decoded = PumpSwapDecoder::full().decode_instruction(&raw(data)).expect("recognized");
    match decoded.data {
        PumpSwapInstruction::SyncUserVolumeAccumulator(body) => assert_eq!(body, vec![1, 2, 3, 4]),
        other => panic!("wrong variant: {:?}", other),
    }
}

#[test]
fn command_update_admin_decodes_in_full_table() {
    let mut data = vec![161, 176, 40, 213, 60, 184, 179, 228];
    data.extend_from_slice(&[1, 2, 3, 4]);
    let decoded = PumpSwapDecoder::full().decode_instruction(&raw(data)).expect("recognized");
    match decoded.data {
        PumpSwapInstruction::UpdateAdmin(body) => assert_eq!(body, vec![1, 2, 3, 4]),
        other => panic!("wrong variant: {:?}", other),
    }
}

#[test]
fn command_update_fee_config_decodes_in_full_table() {
    let mut data = vec![104, 184, 103, 242, 88, 151, 107, 20];
    data.extend_from_slice(&[1, 2, 3, 4]);
    let decoded = PumpSwapDecoder::full().decode_instruction(&raw(data)).expect("recognized");
    match decoded.data {
        PumpSwapInstruction::UpdateFeeConfig(body) => assert_eq!(body, vec![1, 2, 3, 4]),
        other => panic!("wrong variant: {:?}", other),
    }
}

#[test]
fn command_withdraw_decodes_in_full_table() {
    let mut data = vec![183, 18, 70, 156, 148, 109, 161, 34];
    data.extend_from_slice(&[1, 2, 3, 4]);
    let decoded = PumpSwapDecoder::full().decode_instruction(&raw(data)).expect("recognized");
    match decoded.data {
        PumpSwapInstruction::Withdraw(body) => assert_eq!(body, vec![1, 2, 3, 4]),
        other => panic!("wrong variant: {:?}", other),
    }
}

#[test]
fn event_admin_set_coin_creator_event_decodes_in_full_table() {
    let mut data = vec![228, 69, 165, 46, 81, 203, 154, 29];
    data.extend_from_slice(&vec![45, 220, 93, 24, 25, 97, 172, 104]);
    data.extend_from_slice(&[9, 8, 7]);
    let decoded = PumpSwapDecoder::full().decode_instruction(&raw(data)).expect("recognized");
    match decoded.data {
        PumpSwapInstruction::AdminSetCoinCreatorEvent(body) => assert_eq!(body, vec![9, 8, 7]),
        other => panic!("wrong variant: {:?}", other),
    }
}

#[test]
fn event_admin_update_token_incentives_event_decodes_in_full_table() {
    let mut data = vec![228, 69, 165, 46, 81, 203, 154, 29];
    data.extend_from_slice(&vec![147, 250, 108, 120, 247, 29, 67, 222]);
    data.extend_from_slice(&[9, 8, 7]);
    let decoded = PumpSwapDecoder::full().decode_instruction(&raw(data)).expect("recognized");
    match decoded.data {
        PumpSwapInstruction::AdminUpdateTokenIncentivesEvent(body) => assert_eq!(body, vec![9, 8, 7]),
        other => panic!("wrong variant: {:?}", other),
    }
}

#[test]
fn event_buy_event_decodes_in_full_table() {
    let mut data = vec![228, 69, 165, 46, 81, 203, 154, 29];
    data.extend_from_slice(&vec![103, 244, 82, 31, 44, 245, 119, 119]);
    data.extend_from_slice(&[9, 8, 7]);
    let decoded = PumpSwapDecoder::full().decode_instruction(&raw(data)).expect("recognized");
    match decoded.data {
        PumpSwapInstruction::BuyEvent(body) => assert_eq!(body, vec![9, 8, 7]),
        other => panic!("wrong variant: {:?}", other),
    }
}

#[test]
fn event_claim_token_incentives_event_decodes_in_full_table() {
    let mut data = vec![228, 69, 165, 46, 81, 203, 154, 29];
    data.extend_from_slice(&vec![79, 172, 246, 49, 205, 91, 206, 232]);
    data.extend_from_slice(&[9, 8, 7]);
    let decoded = PumpSwapDecoder::full().decode_instruction(&raw(data)).expect("recognized");
    match decoded.data {
        PumpSwapInstruction::ClaimTokenIncentivesEvent(body) => assert_eq!(body, vec![9, 8, 7]),
        other => panic!("wrong variant: {:?}", other),
    }
}

#[test]
fn event_close_user_volume_accumulator_event_decodes_in_full_table() {
    let mut data = vec![228, 69, 165, 46, 81, 203, 154, 29];
    data.extend_from_slice(&vec![146, 159, 189, 172, 146, 88, 56, 244]);
    data.extend_from_slice(&[9, 8, 7]);
    let decoded = PumpSwapDecoder::full().decode_instruction(&raw(data)).expect("recognized");
    match decoded.data {
        PumpSwapInstruction::CloseUserVolumeAccumulatorEvent(body) => assert_eq!(body, vec![9, 8, 7]),
        other => panic!("wrong variant: {:?}", other),
    }
}

#[test]
fn event_collect_coin_creator_fee_event_decodes_in_full_table() {
    let mut data = vec![228, 69, 165, 46, 81, 203, 154, 29];
    data.extend_from_slice(&vec![232, 245, 194, 238, 234, 218, 58, 89]);
    data.extend_from_slice(&[9, 8, 7]);
    let decoded = PumpSwapDecoder::full().decode_instruction(&raw(data)).expect("recognized");
    match decoded.data {
        PumpSwapInstruction::CollectCoinCreatorFeeEvent(body) => assert_eq!(body, vec![9, 8, 7]),
        other => panic!("wrong variant: {:?}", other),
    }
}

#[test]
fn event_create_config_event_decodes_in_full_table() {
    let mut data = vec![228, 69, 165, 46, 81, 203, 154, 29];
    data.extend_from_slice(&vec![107, 52, 89, 129, 55, 226, 81, 22]);
    data.extend_from_slice(&[9, 8, 7]);
    let decoded = PumpSwapDecoder::full().decode_instruction(&raw(data)).expect("recognized");
    match decoded.data {
        PumpSwapInstruction::CreateConfigEvent(body) => assert_eq!(body, vec![9, 8, 7]),
        other => panic!("wrong variant: {:?}", other),
    }
}

#[test]
fn event_create_pool_event_decodes_in_full_table() {
    let mut data = vec![228, 69, 165, 46, 81, 203, 154, 29];
    data.extend_from_slice(&vec![177, 49, 12, 210, 160, 118, 167, 116]);
    data.extend_from_slice(&[9, 8, 7]);
    let decoded = PumpSwapDecoder::full().decode_instruction(&raw(data)).expect("recognized");
    match decoded.data {
        PumpSwapInstruction::CreatePoolEvent(body) => assert_eq!(body, vec![9, 8, 7]),
        other => panic!("wrong variant: {:?}", other),
    }
}

#[test]
fn event_deposit_event_decodes_in_full_table() {
    let mut data = vec![228, 69, 165, 46, 81, 203, 154, 29];
    data.extend_from_slice(&vec![120, 248, 61, 83, 31, 142, 107, 144]);
    data.extend_from_slice(&[9, 8, 7]);
    let decoded = PumpSwapDecoder::full().decode_instruction(&raw(data)).expect("recognized");
    match decoded.data {
        PumpSwapInstruction::DepositEvent(body) => assert_eq!(body, vec![9, 8, 7]),
        other => panic!("wrong variant: {:?}", other),
    }
}

#[test]
fn event_disable_event_decodes_in_full_table() {
    let mut data = vec![228, 69, 165, 46, 81, 203, 154, 29];
    data.extend_from_slice(&vec![107, 253, 193, 76, 228, 202, 27, 104]);
    data.extend_from_slice(&[9, 8, 7]);
    let decoded = PumpSwapDecoder::full().decode_instruction(&raw(data)).expect("recognized");
    match decoded.data {
        PumpSwapInstruction::DisableEvent(body) => assert_eq!(body, vec![9, 8, 7]),
        other => panic!("wrong variant: {:?}", other),
    }
}

#[test]
fn event_extend_account_event_decodes_in_full_table() {
    let mut data = vec![228, 69, 165, 46, 81, 203, 154, 29];
    data.extend_from_slice(&vec![97, 97, 215, 144, 93, 146, 22, 124]);
    data.extend_from_slice(&[9, 8, 7]);
    let decoded = PumpSwapDecoder::full().decode_instruction(&raw(data)).expect("recognized");
    match decoded.data {
        PumpSwapInstruction::ExtendAccountEvent(body) => assert_eq!(body, vec![9, 8, 7]),
        other => panic!("wrong variant: {:?}", other),
    }
}

#[test]
fn event_init_user_volume_accumulator_event_decodes_in_full_table() {
    let mut data = vec![228, 69, 165, 46, 81, 203, 154, 29];
    data.extend_from_slice(&vec![134, 36, 13, 72, 232, 101, 130, 216]);
    data.extend_from_slice(&[9, 8, 7]);
    let decoded = PumpSwapDecoder::full().decode_instruction(&raw(data)).expect("recognized");
    match decoded.data {
        PumpSwapInstruction::InitUserVolumeAccumulatorEvent(body) => assert_eq!(body, vec![9, 8, 7]),
        other => panic!("wrong variant: {:?}", other),
    }
}

#[test]
fn event_sell_event_decodes_in_full_table() {
    let mut data = vec![228, 69, 165, 46, 81, 203, 154, 29];
    data.extend_from_slice(&vec![62, 47, 55, 10, 165, 3, 220, 42]);
    data.extend_from_slice(&[9, 8, 7]);
    let decoded = PumpSwapDecoder::full().decode_instruction(&raw(data)).expect("recognized");
    match decoded.data {
        PumpSwapInstruction::SellEvent(body) => assert_eq!(body, vec![9, 8, 7]),
        other => panic!("wrong variant: {:?}", other),
    }
}

#[test]
fn event_set_bonding_curve_coin_creator_event_decodes_in_full_table() {
    let mut data = vec![228, 69, 165, 46, 81, 203, 154, 29];
    data.extend_from_slice(&vec![242, 231, 235, 102, 65, 99, 189, 211]);
    data.extend_from_slice(&[9, 8, 7]);
    let decoded = PumpSwapDecoder::full().decode_instruction(&raw(data)).expect("recognized");
    match decoded.data {
        PumpSwapInstruction::SetBondingCurveCoinCreatorEvent(body) => assert_eq!(body, vec![9, 8, 7]),
        other => panic!("wrong variant: {:?}", other),
    }
}

#[test]
fn event_set_metaplex_coin_creator_event_decodes_in_full_table() {
    let mut data = vec![228, 69, 165, 46, 81, 203, 154, 29];
    data.extend_from_slice(&vec![150, 107, 199, 123, 124, 207, 102, 228]);
    data.extend_from_slice(&[9, 8, 7]);
    let decoded = PumpSwapDecoder::full().decode_instruction(&raw(data)).expect("recognized");
    match decoded.data {
        PumpSwapInstruction::SetMetaplexCoinCreatorEvent(body) => assert_eq!(body, vec![9, 8, 7]),
        other => panic!("wrong variant: {:?}", other),
    }
}

#[test]
fn event_sync_user_volume_accumulator_event_decodes_in_full_table() {
    let mut data = vec![228, 69, 165, 46, 81, 203, 154, 29];
    data.extend_from_slice(&vec![197, 122, 167, 124, 116, 81, 91, 255]);
    data.extend_from_slice(&[9, 8, 7]);
    let decoded = PumpSwapDecoder::full().decode_instruction(&raw(data)).expect("recognized");
    match decoded.data {
        PumpSwapInstruction::SyncUserVolumeAccumulatorEvent(body) => assert_eq!(body, vec![9, 8, 7]),
        other => panic!("wrong variant: {:?}", other),
    }
}

#[test]
fn event_update_admin_event_decodes_in_full_table() {
    let mut data = vec![228, 69, 165, 46, 81, 203, 154, 29];
    data.extend_from_slice(&vec![225, 152, 171, 87, 246, 63, 66, 234]);
    data.extend_from_slice(&[9, 8, 7]);
    let decoded = PumpSwapDecoder::full().decode_instruction(&raw(data)).expect("recognized");
    match decoded.data {
        PumpSwapInstruction::UpdateAdminEvent(body) => assert_eq!(body, vec![9, 8, 7]),
        other => panic!("wrong variant: {:?}", other),
    }
}

#[test]
fn event_update_fee_config_event_decodes_in_full_table() {
    let mut data = vec![228, 69, 165, 46, 81, 203, 154, 29];
    data.extend_from_slice(&vec![90, 23, 65, 35, 62, 244, 188, 208]);
    data.extend_from_slice(&[9, 8, 7]);
    let decoded = PumpSwapDecoder::full().decode_instruction(&raw(data)).expect("recognized");
    match decoded.data {
        PumpSwapInstruction::UpdateFeeConfigEvent(body) => assert_eq!(body, vec![9, 8, 7]),
        other => panic!("wrong variant: {:?}", other),
    }
}

#[test]
fn event_withdraw_event_decodes_in_full_table() {
    let mut data = vec![228, 69, 165, 46, 81, 203, 154, 29];
    data.extend_from_slice(&vec![22, 9, 133, 26, 160, 44, 71, 192]);
    data.extend_from_slice(&[9, 8, 7]);
    let decoded = PumpSwapDecoder::full().decode_instruction(&raw(data)).expect("recognized");
    match decoded.data {
        PumpSwapInstruction::WithdrawEvent(body) => assert_eq!(body, vec![9, 8, 7]),
        other => panic!("wrong variant: {:?}", other),
    }
}
