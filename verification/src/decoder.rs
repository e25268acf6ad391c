use vstd::prelude::*;
use vstd::bytes::{spec_u64_from_le_bytes, u64_from_le_bytes};
use vstd::slice::{slice_subrange, slice_to_vec};
use crate::keys::{
    CommandKind, EventKind, TableMode, command_in_table, command_key, command_of, event_in_table,
    event_marker, event_of, event_tag, target_program_id,
};
use crate::instructions::{Buy, InstructionView, PumpSwapInstruction};

verus! {

/// One account reference of a raw instruction: a 32-byte address and the two
/// access flags. The dispatcher copies these through untouched.
#[derive(Clone, Copy, PartialEq, Eq, Debug)]
pub struct AccountMeta {
    pub pubkey: [u8; 32],
    pub is_signer: bool,
    pub is_writable: bool,
}

/// A raw instruction as the surrounding pipeline hands it over: the program it
/// addresses, the accounts it touches, and an opaque byte payload.
#[derive(Clone, PartialEq, Eq, Debug)]
pub struct RawInstruction {
    pub program_id: Vec<u8>,
    pub accounts: Vec<AccountMeta>,
    pub data: Vec<u8>,
}

/// A successfully decoded instruction: the variant the payload represents,
/// together with the program identifier and the account list of the raw input.
#[derive(Clone, PartialEq, Eq, Debug)]
pub struct DecodedInstruction {
    pub program_id: Vec<u8>,
    pub accounts: Vec<AccountMeta>,
    pub data: PumpSwapInstruction,
}

/// The decoder itself; `mode` selects which discriminator table it consults.
#[derive(Clone, Copy, Debug)]
pub struct PumpSwapDecoder {
    pub mode: TableMode,
}

/// The view of an optional decoded variant.
pub open spec fn decoded_view(r: Option<PumpSwapInstruction>) -> Option<InstructionView> {
    match r {
        Some(v) => Some(v@),
        None => None,
    }
}

/// What decoding a command yields once its discriminator has matched. Every
/// variant but Buy keeps its field bytes as they stand; Buy demands the exact
/// canonical length and is decoded in full.
pub open spec fn command_result(k: CommandKind, data: Seq<u8>) -> Option<InstructionView> {
    match k {
        CommandKind::Buy => if data.len() == 25 {
            Some(InstructionView::Buy(Buy {
                amount: spec_u64_from_le_bytes(data.subrange(8, 16)),
                max_quote: spec_u64_from_le_bytes(data.subrange(16, 24)),
                flag: data[24],
            }))
        } else {
            None
        },
        CommandKind::Sell => Some(InstructionView::Sell(data.skip(8))),
        CommandKind::CreatePool => Some(InstructionView::CreatePool(data.skip(8))),
        CommandKind::AdminSetCoinCreator => Some(InstructionView::AdminSetCoinCreator(data.skip(8))),
        CommandKind::AdminUpdateTokenIncentives => Some(InstructionView::AdminUpdateTokenIncentives(data.skip(8))),
        CommandKind::BuyExactQuoteIn => Some(InstructionView::BuyExactQuoteIn(data.skip(8))),
        CommandKind::ClaimTokenIncentives => Some(InstructionView::ClaimTokenIncentives(data.skip(8))),
        CommandKind::CloseUserVolumeAccumulator => Some(InstructionView::CloseUserVolumeAccumulator(data.skip(8))),
        CommandKind::CollectCoinCreatorFee => Some(InstructionView::CollectCoinCreatorFee(data.skip(8))),
        CommandKind::CreateConfig => Some(InstructionView::CreateConfig(data.skip(8))),
        CommandKind::Deposit => Some(InstructionView::Deposit(data.skip(8))),
        CommandKind::Disable => Some(InstructionView::Disable(data.skip(8))),
        CommandKind::ExtendAccount => Some(InstructionView::ExtendAccount(data.skip(8))),
        CommandKind::InitUserVolumeAccumulator => Some(InstructionView::InitUserVolumeAccumulator(data.skip(8))),
        CommandKind::SetCoinCreator => Some(InstructionView::SetCoinCreator(data.skip(8))),
        CommandKind::SyncUserVolumeAccumulator => Some(InstructionView::SyncUserVolumeAccumulator(data.skip(8))),
        CommandKind::UpdateAdmin => Some(InstructionView::UpdateAdmin(data.skip(8))),
        CommandKind::UpdateFeeConfig => Some(InstructionView::UpdateFeeConfig(data.skip(8))),
        CommandKind::Withdraw => Some(InstructionView::Withdraw(data.skip(8))),
    }
}

/// What decoding an event yields once its 16-byte key has matched: the variant
/// carrying its field bytes.
pub open spec fn event_result(k: EventKind, data: Seq<u8>) -> Option<InstructionView> {
    match k {
        EventKind::BuyEvent => Some(InstructionView::BuyEvent(data.skip(16))),
        EventKind::SellEvent => Some(InstructionView::SellEvent(data.skip(16))),
        EventKind::CreatePoolEvent => Some(InstructionView::CreatePoolEvent(data.skip(16))),
        EventKind::AdminSetCoinCreatorEvent => Some(InstructionView::AdminSetCoinCreatorEvent(data.skip(16))),
        EventKind::AdminUpdateTokenIncentivesEvent => Some(InstructionView::AdminUpdateTokenIncentivesEvent(data.skip(16))),
        EventKind::ClaimTokenIncentivesEvent => Some(InstructionView::ClaimTokenIncentivesEvent(data.skip(16))),
        EventKind::CloseUserVolumeAccumulatorEvent => Some(InstructionView::CloseUserVolumeAccumulatorEvent(data.skip(16))),
        EventKind::CollectCoinCreatorFeeEvent => Some(InstructionView::CollectCoinCreatorFeeEvent(data.skip(16))),
        EventKind::CreateConfigEvent => Some(InstructionView::CreateConfigEvent(data.skip(16))),
        EventKind::DepositEvent => Some(InstructionView::DepositEvent(data.skip(16))),
        EventKind::DisableEvent => Some(InstructionView::DisableEvent(data.skip(16))),
        EventKind::ExtendAccountEvent => Some(InstructionView::ExtendAccountEvent(data.skip(16))),
        EventKind::InitUserVolumeAccumulatorEvent => Some(InstructionView::InitUserVolumeAccumulatorEvent(data.skip(16))),
        EventKind::SetBondingCurveCoinCreatorEvent => Some(InstructionView::SetBondingCurveCoinCreatorEvent(data.skip(16))),
        EventKind::SetMetaplexCoinCreatorEvent => Some(InstructionView::SetMetaplexCoinCreatorEvent(data.skip(16))),
        EventKind::SyncUserVolumeAccumulatorEvent => Some(InstructionView::SyncUserVolumeAccumulatorEvent(data.skip(16))),
        EventKind::UpdateAdminEvent => Some(InstructionView::UpdateAdminEvent(data.skip(16))),
        EventKind::UpdateFeeConfigEvent => Some(InstructionView::UpdateFeeConfigEvent(data.skip(16))),
        EventKind::WithdrawEvent => Some(InstructionView::WithdrawEvent(data.skip(16))),
    }
}

/// Legacy normalization. A payload that opens with the Buy discriminator and is
/// exactly 24 bytes long is the old Buy wire shape, which predates the trailing
/// flag byte; it gains one zero byte so that the canonical Buy codec applies.
/// Every other payload passes through unchanged.
pub open spec fn spec_normalize(data: Seq<u8>) -> Seq<u8> {
    if data.len() == 24 && data.subrange(0, 8) == command_key(CommandKind::Buy) {
        data.push(0u8)
    } else {
        data
    }
}

/// The event stage of the lookup: consulted first, and only for payloads long
/// enough to hold a 16-byte key that opens with the event marker.
pub open spec fn spec_event_stage(data: Seq<u8>, mode: TableMode) -> Option<InstructionView> {
    if data.len() >= 16 && data.subrange(0, 8) == event_marker() {
        match event_of(data.subrange(8, 16)) {
            Some(k) => if event_in_table(k, mode) {
                event_result(k, data)
            } else {
                None
            },
            None => None,
        }
    } else {
        None
    }
}

/// The command stage of the lookup, over the first eight bytes of the payload.
pub open spec fn spec_command_stage(data: Seq<u8>, mode: TableMode) -> Option<InstructionView> {
    match command_of(data.subrange(0, 8)) {
        Some(k) => if command_in_table(k, mode) {
            command_result(k, data)
        } else {
            None
        },
        None => None,
    }
}

/// The ordered discriminator lookup over a (normalized) payload: a payload too
/// short for a command key is rejected; the 16-byte event keyspace is probed
/// before the 8-byte command keyspace and wins whenever it yields a result.
pub open spec fn spec_lookup(data: Seq<u8>, mode: TableMode) -> Option<InstructionView> {
    if data.len() < 8 {
        None
    } else if spec_event_stage(data, mode) is Some {
        spec_event_stage(data, mode)
    } else {
        spec_command_stage(data, mode)
    }
}

/// The whole decode of a raw instruction's identity and payload: a foreign
/// program is declined at once, the payload is normalized, then looked up.
pub open spec fn spec_decode(program_id: Seq<u8>, data: Seq<u8>, mode: TableMode) -> Option<
    InstructionView,
> {
    if program_id == target_program_id() {
        spec_lookup(spec_normalize(data), mode)
    } else {
        None
    }
}

/// True exactly when the eight payload bytes at `off` are the given ones.
fn check8(
    data: &Vec<u8>,
    off: usize,
    b0: u8, b1: u8, b2: u8, b3: u8, b4: u8, b5: u8, b6: u8, b7: u8,
) -> (r: bool)
    requires
        off + 8 <= data@.len(),
    ensures
        r <==> data@.subrange(off as int, off as int + 8) == seq![b0, b1, b2, b3, b4, b5, b6, b7],
{
    let n: usize = data.len();
    let r = off + 8 <= n && data[off] == b0 && data[off + 1] == b1 && data[off + 2] == b2 && data[
        off + 3
    ] == b3 && data[off + 4] == b4 && data[off + 5] == b5 && data[off + 6] == b6 && data[off + 7]
        == b7;
    proof {
        let s = data@.subrange(off as int, off as int + 8);
        let t = seq![b0, b1, b2, b3, b4, b5, b6, b7];
        assert(s[0] == data@[off as int] && s[1] == data@[off as int + 1] && s[2] == data@[
            off as int + 2
        ] && s[3] == data@[off as int + 3] && s[4] == data@[off as int + 4] && s[5] == data@[
            off as int + 5
        ] && s[6] == data@[off as int + 6] && s[7] == data@[off as int + 7]);
        assert(t[0] == b0 && t[1] == b1 && t[2] == b2 && t[3] == b3 && t[4] == b4 && t[5] == b5
            && t[6] == b6 && t[7] == b7);
        if r {
            assert(s =~= t);
        }
    }
    r
}

/// A fresh copy of the payload bytes from `start` on.
fn tail_from(data: &Vec<u8>, start: usize) -> (r: Vec<u8>)
    requires
        start <= data@.len(),
    ensures
        r@ == data@.skip(start as int),
{
    let r = slice_to_vec(slice_subrange(data.as_slice(), start, data.len()));
    proof {
        assert(data@.skip(start as int) =~= data@.subrange(start as int, data@.len() as int));
    }
    r
}

/// True exactly when `id` is the identifier of the program this decoder serves.
pub fn program_id_matches(id: &Vec<u8>) -> (r: bool)
    ensures
        r <==> id@ == target_program_id(),
{
    let r = id.len() == 32 && check8(id, 0, 12, 20, 222, 252, 130, 94, 198, 118) && check8(
        id, 8, 148, 37, 8, 24, 187, 101, 64, 101,
    ) && check8(id, 16, 244, 41, 141, 49, 86, 213, 113, 180) && check8(
        id, 24, 212, 248, 9, 12, 24, 233, 168, 99,
    );
    proof {
        if r {
            assert forall|i: int| 0 <= i < 32 implies id@[i] == target_program_id()[i] by {
                if i < 8 {
                    assert(id@[i] == id@.subrange(0, 8)[i]);
                } else if i < 16 {
                    assert(id@[i] == id@.subrange(8, 16)[i - 8]);
                } else if i < 24 {
                    assert(id@[i] == id@.subrange(16, 24)[i - 16]);
                } else {
                    assert(id@[i] == id@.subrange(24, 32)[i - 24]);
                }
            }
            assert(id@ =~= target_program_id());
        }
        if id@ == target_program_id() {
            assert(id@.subrange(0, 8) =~= seq![12, 20, 222, 252, 130, 94, 198, 118u8]);
            assert(id@.subrange(8, 16) =~= seq![148, 37, 8, 24, 187, 101, 64, 101u8]);
            assert(id@.subrange(16, 24) =~= seq![244, 41, 141, 49, 86, 213, 113, 180u8]);
            assert(id@.subrange(24, 32) =~= seq![212, 248, 9, 12, 24, 233, 168, 99u8]);
        }
    }
    r
}

/// The executable legacy normalizer: the one legacy wire shape (a 24-byte
/// payload opening with the Buy discriminator) gains its missing flag byte as
/// zero; anything else is copied unchanged.
pub fn normalize_legacy(data: &Vec<u8>) -> (r: Vec<u8>)
    ensures
        r@ == spec_normalize(data@),
{
    let mut out = slice_to_vec(data.as_slice());
    if data.len() == 24 && check8(data, 0, 102, 6, 61, 18, 1, 218, 235, 234) {
        out.push(0);
        proof {
            assert(data@.subrange(0, 8) == command_key(CommandKind::Buy));
        }
    }
    out
}

/// The Buy codec over a full payload whose discriminator already matched:
/// it demands the exact canonical length and reads the two little-endian
/// quantities and the flag byte.
pub fn decode_buy(data: &Vec<u8>) -> (r: Option<PumpSwapInstruction>)
    requires
        data@.len() >= 8,
    ensures
        decoded_view(r) == command_result(CommandKind::Buy, data@),
{
    if data.len() == 25 {
        let amount = u64_from_le_bytes(slice_subrange(data.as_slice(), 8, 16));
        let max_quote = u64_from_le_bytes(slice_subrange(data.as_slice(), 16, 24));
        let flag = data[24];
        Some(PumpSwapInstruction::Buy(Buy { amount, max_quote, flag }))
    } else {
        None
    }
}

/// The command stage over the first eight bytes of the payload, against the
/// table `mode` selects.
pub fn decode_command(data: &Vec<u8>, mode: TableMode) -> (r: Option<PumpSwapInstruction>)
    requires
        data@.len() >= 8,
    ensures
        decoded_view(r) == spec_command_stage(data@, mode),
{
    if check8(data, 0, 102, 6, 61, 18, 1, 218, 235, 234) {
        proof {
            assert(data@.subrange(0, 8) == command_key(CommandKind::Buy));
        }
        decode_buy(data)
    } else if check8(data, 0, 51, 230, 133, 164, 1, 127, 131, 173) {
        proof {
            assert(data@.subrange(0, 8) == command_key(CommandKind::Sell));
        }
        Some(PumpSwapInstruction::Sell(tail_from(data, 8)))
    } else if check8(data, 0, 233, 146, 209, 142, 207, 104, 64, 188) {
        proof {
            assert(data@.subrange(0, 8) == command_key(CommandKind::CreatePool));
        }
        Some(PumpSwapInstruction::CreatePool(tail_from(data, 8)))
    } else {
        match mode {
            TableMode::Minimal => None,
            TableMode::Full => {
                if check8(data, 0, 242, 40, 117, 145, 73, 96, 105, 104) {
                    proof {
                        assert(data@.subrange(0, 8) == command_key(CommandKind::AdminSetCoinCreator));
                    }
                    Some(PumpSwapInstruction::AdminSetCoinCreator(tail_from(data, 8)))
                } else if check8(data, 0, 209, 11, 115, 87, 213, 23, 124, 204) {
                    proof {
                        assert(data@.subrange(0, 8) == command_key(CommandKind::AdminUpdateTokenIncentives));
                    }
                    Some(PumpSwapInstruction::AdminUpdateTokenIncentives(tail_from(data, 8)))
                } else if check8(data, 0, 198, 46, 21, 82, 180, 217, 232, 112) {
                    proof {
                        assert(data@.subrange(0, 8) == command_key(CommandKind::BuyExactQuoteIn));
                    }
                    Some(PumpSwapInstruction::BuyExactQuoteIn(tail_from(data, 8)))
                } else if check8(data, 0, 16, 4, 71, 28, 204, 1, 40, 27) {
                    proof {
                        assert(data@.subrange(0, 8) == command_key(CommandKind::ClaimTokenIncentives));
                    }
                    Some(PumpSwapInstruction::ClaimTokenIncentives(tail_from(data, 8)))
                } else if check8(data, 0, 249, 69, 164, 218, 150, 103, 84, 138) {
                    proof {
                        assert(data@.subrange(0, 8) == command_key(CommandKind::CloseUserVolumeAccumulator));
                    }
                    Some(PumpSwapInstruction::CloseUserVolumeAccumulator(tail_from(data, 8)))
                } else if check8(data, 0, 160, 57, 89, 42, 181, 139, 43, 66) {
                    proof {
                        assert(data@.subrange(0, 8) == command_key(CommandKind::CollectCoinCreatorFee));
                    }
                    Some(PumpSwapInstruction::CollectCoinCreatorFee(tail_from(data, 8)))
                } else if check8(data, 0, 201, 207, 243, 114, 75, 111, 47, 189) {
                    proof {
                        assert(data@.subrange(0, 8) == command_key(CommandKind::CreateConfig));
                    }
                    Some(PumpSwapInstruction::CreateConfig(tail_from(data, 8)))
                } else if check8(data, 0, 242, 35, 198, 137, 82, 225, 242, 182) {
                    proof {
                        assert(data@.subrange(0, 8) == command_key(CommandKind::Deposit));
                    }
                    Some(PumpSwapInstruction::Deposit(tail_from(data, 8)))
                } else if check8(data, 0, 185, 173, 187, 90, 216, 15, 238, 233) {
                    proof {
                        assert(data@.subrange(0, 8) == command_key(CommandKind::Disable));
                    }
                    Some(PumpSwapInstruction::Disable(tail_from(data, 8)))
                } else if check8(data, 0, 234, 102, 194, 203, 150, 72, 62, 229) {
                    proof {
                        assert(data@.subrange(0, 8) == command_key(CommandKind::ExtendAccount));
                    }
                    Some(PumpSwapInstruction::ExtendAccount(tail_from(data, 8)))
                } else if check8(data, 0, 94, 6, 202, 115, 255, 96, 232, 183) {
                    proof {
                        assert(data@.subrange(0, 8) == command_key(CommandKind::InitUserVolumeAccumulator));
                    }
                    Some(PumpSwapInstruction::InitUserVolumeAccumulator(tail_from(data, 8)))
                } else if check8(data, 0, 210, 149, 128, 45, 188, 58, 78, 175) {
                    proof {
                        assert(data@.subrange(0, 8) == command_key(CommandKind::SetCoinCreator));
                    }
                    Some(PumpSwapInstruction::SetCoinCreator(tail_from(data, 8)))
                } else if check8(data, 0, 86, 31, 192, 87, 163, 87, 79, 238) {
                    proof {
                        assert(data@.subrange(0, 8) == command_key(CommandKind::SyncUserVolumeAccumulator));
                    }
                    Some(PumpSwapInstruction::SyncUserVolumeAccumulator(tail_from(data, 8)))
                } else if check8(data, 0, 161, 176, 40, 213, 60, 184, 179, 228) {
                    proof {
                        assert(data@.subrange(0, 8) == command_key(CommandKind::UpdateAdmin));
                    }
                    Some(PumpSwapInstruction::UpdateAdmin(tail_from(data, 8)))
                } else if check8(data, 0, 104, 184, 103, 242, 88, 151, 107, 20) {
                    proof {
                        assert(data@.subrange(0, 8) == command_key(CommandKind::UpdateFeeConfig));
                    }
                    Some(PumpSwapInstruction::UpdateFeeConfig(tail_from(data, 8)))
                } else if check8(data, 0, 183, 18, 70, 156, 148, 109, 161, 34) {
                    proof {
                        assert(data@.subrange(0, 8) == command_key(CommandKind::Withdraw));
                    }
                    Some(PumpSwapInstruction::Withdraw(tail_from(data, 8)))
                } else {
                    None
                }
            },
        }
    }
}

/// The event stage over the first sixteen bytes of the payload, against the
/// table `mode` selects. The shared marker is checked once; the event-specific
/// tag picks the variant.
pub fn decode_event(data: &Vec<u8>, mode: TableMode) -> (r: Option<PumpSwapInstruction>)
    requires
        data@.len() >= 16,
    ensures
        decoded_view(r) == spec_event_stage(data@, mode),
{
    if !check8(data, 0, 228, 69, 165, 46, 81, 203, 154, 29) {
        proof {
            assert(data@.subrange(0, 8) != event_marker());
        }
        return None;
    }
    proof {
        assert(data@.subrange(0, 8) == event_marker());
    }
    if check8(data, 8, 103, 244, 82, 31, 44, 245, 119, 119) {
        proof {
            assert(data@.subrange(8, 16) == event_tag(EventKind::BuyEvent));
        }
        Some(PumpSwapInstruction::BuyEvent(tail_from(data, 16)))
    } else if check8(data, 8, 62, 47, 55, 10, 165, 3, 220, 42) {
        proof {
            assert(data@.subrange(8, 16) == event_tag(EventKind::SellEvent));
        }
        Some(PumpSwapInstruction::SellEvent(tail_from(data, 16)))
    } else if check8(data, 8, 177, 49, 12, 210, 160, 118, 167, 116) {
        proof {
            assert(data@.subrange(8, 16) == event_tag(EventKind::CreatePoolEvent));
        }
        Some(PumpSwapInstruction::CreatePoolEvent(tail_from(data, 16)))
    } else {
        match mode {
            TableMode::Minimal => None,
            TableMode::Full => {
                if check8(data, 8, 45, 220, 93, 24, 25, 97, 172, 104) {
                    proof {
                        assert(data@.subrange(8, 16) == event_tag(EventKind::AdminSetCoinCreatorEvent));
                    }
                    Some(PumpSwapInstruction::AdminSetCoinCreatorEvent(tail_from(data, 16)))
                } else if check8(data, 8, 147, 250, 108, 120, 247, 29, 67, 222) {
                    proof {
                        assert(data@.subrange(8, 16) == event_tag(EventKind::AdminUpdateTokenIncentivesEvent));
                    }
                    Some(PumpSwapInstruction::AdminUpdateTokenIncentivesEvent(tail_from(data, 16)))
                } else if check8(data, 8, 79, 172, 246, 49, 205, 91, 206, 232) {
                    proof {
                        assert(data@.subrange(8, 16) == event_tag(EventKind::ClaimTokenIncentivesEvent));
                    }
                    Some(PumpSwapInstruction::ClaimTokenIncentivesEvent(tail_from(data, 16)))
                } else if check8(data, 8, 146, 159, 189, 172, 146, 88, 56, 244) {
                    proof {
                        assert(data@.subrange(8, 16) == event_tag(EventKind::CloseUserVolumeAccumulatorEvent));
                    }
                    Some(PumpSwapInstruction::CloseUserVolumeAccumulatorEvent(tail_from(data, 16)))
                } else if check8(data, 8, 232, 245, 194, 238, 234, 218, 58, 89) {
                    proof {
                        assert(data@.subrange(8, 16) == event_tag(EventKind::CollectCoinCreatorFeeEvent));
                    }
                    Some(PumpSwapInstruction::CollectCoinCreatorFeeEvent(tail_from(data, 16)))
                } else if check8(data, 8, 107, 52, 89, 129, 55, 226, 81, 22) {
                    proof {
                        assert(data@.subrange(8, 16) == event_tag(EventKind::CreateConfigEvent));
                    }
                    Some(PumpSwapInstruction::CreateConfigEvent(tail_from(data, 16)))
                } else if check8(data, 8, 120, 248, 61, 83, 31, 142, 107, 144) {
                    proof {
                        assert(data@.subrange(8, 16) == event_tag(EventKind::DepositEvent));
                    }
                    Some(PumpSwapInstruction::DepositEvent(tail_from(data, 16)))
                } else if check8(data, 8, 107, 253, 193, 76, 228, 202, 27, 104) {
                    proof {
                        assert(data@.subrange(8, 16) == event_tag(EventKind::DisableEvent));
                    }
                    Some(PumpSwapInstruction::DisableEvent(tail_from(data, 16)))
                } else if check8(data, 8, 97, 97, 215, 144, 93, 146, 22, 124) {
                    proof {
                        assert(data@.subrange(8, 16) == event_tag(EventKind::ExtendAccountEvent));
                    }
                    Some(PumpSwapInstruction::ExtendAccountEvent(tail_from(data, 16)))
                } else if check8(data, 8, 134, 36, 13, 72, 232, 101, 130, 216) {
                    proof {
                        assert(data@.subrange(8, 16) == event_tag(EventKind::InitUserVolumeAccumulatorEvent));
                    }
                    Some(PumpSwapInstruction::InitUserVolumeAccumulatorEvent(tail_from(data, 16)))
                } else if check8(data, 8, 242, 231, 235, 102, 65, 99, 189, 211) {
                    proof {
                        assert(data@.subrange(8, 16) == event_tag(EventKind::SetBondingCurveCoinCreatorEvent));
                    }
                    Some(PumpSwapInstruction::SetBondingCurveCoinCreatorEvent(tail_from(data, 16)))
                } else if check8(data, 8, 150, 107, 199, 123, 124, 207, 102, 228) {
                    proof {
                        assert(data@.subrange(8, 16) == event_tag(EventKind::SetMetaplexCoinCreatorEvent));
                    }
                    Some(PumpSwapInstruction::SetMetaplexCoinCreatorEvent(tail_from(data, 16)))
                } else if check8(data, 8, 197, 122, 167, 124, 116, 81, 91, 255) {
                    proof {
                        assert(data@.subrange(8, 16) == event_tag(EventKind::SyncUserVolumeAccumulatorEvent));
                    }
                    Some(PumpSwapInstruction::SyncUserVolumeAccumulatorEvent(tail_from(data, 16)))
                } else if check8(data, 8, 225, 152, 171, 87, 246, 63, 66, 234) {
                    proof {
                        assert(data@.subrange(8, 16) == event_tag(EventKind::UpdateAdminEvent));
                    }
                    Some(PumpSwapInstruction::UpdateAdminEvent(tail_from(data, 16)))
                } else if check8(data, 8, 90, 23, 65, 35, 62, 244, 188, 208) {
                    proof {
                        assert(data@.subrange(8, 16) == event_tag(EventKind::UpdateFeeConfigEvent));
                    }
                    Some(PumpSwapInstruction::UpdateFeeConfigEvent(tail_from(data, 16)))
                } else if check8(data, 8, 22, 9, 133, 26, 160, 44, 71, 192) {
                    proof {
                        assert(data@.subrange(8, 16) == event_tag(EventKind::WithdrawEvent));
                    }
                    Some(PumpSwapInstruction::WithdrawEvent(tail_from(data, 16)))
                } else {
                    None
                }
            },
        }
    }
}

impl PumpSwapDecoder {
    /// A decoder over the full discriminator table.
    pub fn full() -> (r: Self)
        ensures
            r.mode is Full,
    {
        PumpSwapDecoder { mode: TableMode::Full }
    }

    /// A decoder over the reduced trading-path table.
    pub fn minimal() -> (r: Self)
        ensures
            r.mode is Minimal,
    {
        PumpSwapDecoder { mode: TableMode::Minimal }
    }

    /// Decode one raw instruction. A recognized payload of the target program
    /// yields the decoded variant together with the program identifier and a
    /// copy of the account list; everything else - a foreign program, a payload
    /// too short for a key, an unknown discriminator, or a recognized
    /// discriminator over a malformed payload - yields nothing.
    pub fn decode_instruction(&self, instruction: &RawInstruction) -> (r: Option<
        DecodedInstruction,
    >)
        ensures
            match r {
                Some(env) => {
                    &&& spec_decode(instruction.program_id@, instruction.data@, self.mode)
                        == Some(env.data@)
                    &&& env.program_id@ == instruction.program_id@
                    &&& env.accounts@ == instruction.accounts@
                },
                None => spec_decode(instruction.program_id@, instruction.data@, self.mode) is None,
            },
    {
        if !program_id_matches(&instruction.program_id) {
            return None;
        }
        let data = normalize_legacy(&instruction.data);
        if data.len() < 8 {
            return None;
        }
        let decoded = if data.len() >= 16 {
            match decode_event(&data, self.mode) {
                Some(v) => Some(v),
                None => decode_command(&data, self.mode),
            }
        } else {
            proof {
                assert(spec_event_stage(data@, self.mode) is None);
            }
            decode_command(&data, self.mode)
        };
        match decoded {
            Some(v) => Some(
                DecodedInstruction {
                    program_id: slice_to_vec(instruction.program_id.as_slice()),
                    accounts: slice_to_vec(instruction.accounts.as_slice()),
                    data: v,
                },
            ),
            None => None,
        }
    }
}

} // verus!
