use vstd::prelude::*;

verus! {

/// The decoded fields of a canonical Buy payload: two little-endian 64-bit
/// quantities followed by a one-byte flag. The legacy wire shape omits the
/// flag byte; normalization restores it as zero before this struct is read.
#[derive(Clone, Copy, PartialEq, Eq, Hash, Debug)]
pub struct Buy {
    pub amount: u64,
    pub max_quote: u64,
    pub flag: u8,
}

/// One variant per known instruction or event of the target program.
///
/// The field-level schema of most variants is the concern of a separate codec;
/// here each carries its raw field bytes, the payload after its discriminator.
/// Buy is the exception: its fields take part in legacy normalization, so they
/// are decoded in full.
#[derive(Clone, PartialEq, Eq, Hash, Debug)]
pub enum PumpSwapInstruction {
    AdminSetCoinCreator(Vec<u8>),
    AdminUpdateTokenIncentives(Vec<u8>),
    Buy(Buy),
    BuyExactQuoteIn(Vec<u8>),
    ClaimTokenIncentives(Vec<u8>),
    CloseUserVolumeAccumulator(Vec<u8>),
    CollectCoinCreatorFee(Vec<u8>),
    CreateConfig(Vec<u8>),
    CreatePool(Vec<u8>),
    Deposit(Vec<u8>),
    Disable(Vec<u8>),
    ExtendAccount(Vec<u8>),
    InitUserVolumeAccumulator(Vec<u8>),
    Sell(Vec<u8>),
    SetCoinCreator(Vec<u8>),
    SyncUserVolumeAccumulator(Vec<u8>),
    UpdateAdmin(Vec<u8>),
    UpdateFeeConfig(Vec<u8>),
    Withdraw(Vec<u8>),
    AdminSetCoinCreatorEvent(Vec<u8>),
    AdminUpdateTokenIncentivesEvent(Vec<u8>),
    BuyEvent(Vec<u8>),
    ClaimTokenIncentivesEvent(Vec<u8>),
    CloseUserVolumeAccumulatorEvent(Vec<u8>),
    CollectCoinCreatorFeeEvent(Vec<u8>),
    CreateConfigEvent(Vec<u8>),
    CreatePoolEvent(Vec<u8>),
    DepositEvent(Vec<u8>),
    DisableEvent(Vec<u8>),
    ExtendAccountEvent(Vec<u8>),
    InitUserVolumeAccumulatorEvent(Vec<u8>),
    SellEvent(Vec<u8>),
    SetBondingCurveCoinCreatorEvent(Vec<u8>),
    SetMetaplexCoinCreatorEvent(Vec<u8>),
    SyncUserVolumeAccumulatorEvent(Vec<u8>),
    UpdateAdminEvent(Vec<u8>),
    UpdateFeeConfigEvent(Vec<u8>),
    WithdrawEvent(Vec<u8>),
}

/// The mathematical shape of a decoded variant, with byte vectors abstracted
/// to sequences.
#[verifier::ext_equal]
pub enum InstructionView {
    AdminSetCoinCreator(Seq<u8>),
    AdminUpdateTokenIncentives(Seq<u8>),
    Buy(Buy),
    BuyExactQuoteIn(Seq<u8>),
    ClaimTokenIncentives(Seq<u8>),
    CloseUserVolumeAccumulator(Seq<u8>),
    CollectCoinCreatorFee(Seq<u8>),
    CreateConfig(Seq<u8>),
    CreatePool(Seq<u8>),
    Deposit(Seq<u8>),
    Disable(Seq<u8>),
    ExtendAccount(Seq<u8>),
    InitUserVolumeAccumulator(Seq<u8>),
    Sell(Seq<u8>),
    SetCoinCreator(Seq<u8>),
    SyncUserVolumeAccumulator(Seq<u8>),
    UpdateAdmin(Seq<u8>),
    UpdateFeeConfig(Seq<u8>),
    Withdraw(Seq<u8>),
    AdminSetCoinCreatorEvent(Seq<u8>),
    AdminUpdateTokenIncentivesEvent(Seq<u8>),
    BuyEvent(Seq<u8>),
    ClaimTokenIncentivesEvent(Seq<u8>),
    CloseUserVolumeAccumulatorEvent(Seq<u8>),
    CollectCoinCreatorFeeEvent(Seq<u8>),
    CreateConfigEvent(Seq<u8>),
    CreatePoolEvent(Seq<u8>),
    DepositEvent(Seq<u8>),
    DisableEvent(Seq<u8>),
    ExtendAccountEvent(Seq<u8>),
    InitUserVolumeAccumulatorEvent(Seq<u8>),
    SellEvent(Seq<u8>),
    SetBondingCurveCoinCreatorEvent(Seq<u8>),
    SetMetaplexCoinCreatorEvent(Seq<u8>),
    SyncUserVolumeAccumulatorEvent(Seq<u8>),
    UpdateAdminEvent(Seq<u8>),
    UpdateFeeConfigEvent(Seq<u8>),
    WithdrawEvent(Seq<u8>),
}

impl View for PumpSwapInstruction {
    type V = InstructionView;

    open spec fn view(&self) -> InstructionView {
        match self {
            PumpSwapInstruction::AdminSetCoinCreator(b) => InstructionView::AdminSetCoinCreator(b@),
            PumpSwapInstruction::AdminUpdateTokenIncentives(b) => InstructionView::AdminUpdateTokenIncentives(b@),
            PumpSwapInstruction::Buy(b) => InstructionView::Buy(*b),
            PumpSwapInstruction::BuyExactQuoteIn(b) => InstructionView::BuyExactQuoteIn(b@),
            PumpSwapInstruction::ClaimTokenIncentives(b) => InstructionView::ClaimTokenIncentives(b@),
            PumpSwapInstruction::CloseUserVolumeAccumulator(b) => InstructionView::CloseUserVolumeAccumulator(b@),
            PumpSwapInstruction::CollectCoinCreatorFee(b) => InstructionView::CollectCoinCreatorFee(b@),
            PumpSwapInstruction::CreateConfig(b) => InstructionView::CreateConfig(b@),
            PumpSwapInstruction::CreatePool(b) => InstructionView::CreatePool(b@),
            PumpSwapInstruction::Deposit(b) => InstructionView::Deposit(b@),
            PumpSwapInstruction::Disable(b) => InstructionView::Disable(b@),
            PumpSwapInstruction::ExtendAccount(b) => InstructionView::ExtendAccount(b@),
            PumpSwapInstruction::InitUserVolumeAccumulator(b) => InstructionView::InitUserVolumeAccumulator(b@),
            PumpSwapInstruction::Sell(b) => InstructionView::Sell(b@),
            PumpSwapInstruction::SetCoinCreator(b) => InstructionView::SetCoinCreator(b@),
            PumpSwapInstruction::SyncUserVolumeAccumulator(b) => InstructionView::SyncUserVolumeAccumulator(b@),
            PumpSwapInstruction::UpdateAdmin(b) => InstructionView::UpdateAdmin(b@),
            PumpSwapInstruction::UpdateFeeConfig(b) => InstructionView::UpdateFeeConfig(b@),
            PumpSwapInstruction::Withdraw(b) => InstructionView::Withdraw(b@),
            PumpSwapInstruction::AdminSetCoinCreatorEvent(b) => InstructionView::AdminSetCoinCreatorEvent(b@),
            PumpSwapInstruction::AdminUpdateTokenIncentivesEvent(b) => InstructionView::AdminUpdateTokenIncentivesEvent(b@),
            PumpSwapInstruction::BuyEvent(b) => InstructionView::BuyEvent(b@),
            PumpSwapInstruction::ClaimTokenIncentivesEvent(b) => InstructionView::ClaimTokenIncentivesEvent(b@),
            PumpSwapInstruction::CloseUserVolumeAccumulatorEvent(b) => InstructionView::CloseUserVolumeAccumulatorEvent(b@),
            PumpSwapInstruction::CollectCoinCreatorFeeEvent(b) => InstructionView::CollectCoinCreatorFeeEvent(b@),
            PumpSwapInstruction::CreateConfigEvent(b) => InstructionView::CreateConfigEvent(b@),
            PumpSwapInstruction::CreatePoolEvent(b) => InstructionView::CreatePoolEvent(b@),
            PumpSwapInstruction::DepositEvent(b) => InstructionView::DepositEvent(b@),
            PumpSwapInstruction::DisableEvent(b) => InstructionView::DisableEvent(b@),
            PumpSwapInstruction::ExtendAccountEvent(b) => InstructionView::ExtendAccountEvent(b@),
            PumpSwapInstruction::InitUserVolumeAccumulatorEvent(b) => InstructionView::InitUserVolumeAccumulatorEvent(b@),
            PumpSwapInstruction::SellEvent(b) => InstructionView::SellEvent(b@),
            PumpSwapInstruction::SetBondingCurveCoinCreatorEvent(b) => InstructionView::SetBondingCurveCoinCreatorEvent(b@),
            PumpSwapInstruction::SetMetaplexCoinCreatorEvent(b) => InstructionView::SetMetaplexCoinCreatorEvent(b@),
            PumpSwapInstruction::SyncUserVolumeAccumulatorEvent(b) => InstructionView::SyncUserVolumeAccumulatorEvent(b@),
            PumpSwapInstruction::UpdateAdminEvent(b) => InstructionView::UpdateAdminEvent(b@),
            PumpSwapInstruction::UpdateFeeConfigEvent(b) => InstructionView::UpdateFeeConfigEvent(b@),
            PumpSwapInstruction::WithdrawEvent(b) => InstructionView::WithdrawEvent(b@),
        }
    }
}

} // verus!
