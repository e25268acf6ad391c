use vstd::prelude::*;

verus! {

/// Which of the two discriminator tables the dispatcher consults: the reduced
/// trading-path table or the one holding every known command and event.
#[derive(Clone, Copy, Debug)]
pub enum TableMode {
    Minimal,
    Full,
}

/// The commands (direct instructions) this program understands, each keyed by
/// an 8-byte discriminator at the start of the payload.
#[derive(Clone, Copy, Debug)]
pub enum CommandKind {
    Buy,
    Sell,
    CreatePool,
    AdminSetCoinCreator,
    AdminUpdateTokenIncentives,
    BuyExactQuoteIn,
    ClaimTokenIncentives,
    CloseUserVolumeAccumulator,
    CollectCoinCreatorFee,
    CreateConfig,
    Deposit,
    Disable,
    ExtendAccount,
    InitUserVolumeAccumulator,
    SetCoinCreator,
    SyncUserVolumeAccumulator,
    UpdateAdmin,
    UpdateFeeConfig,
    Withdraw,
}

/// The events (log records) this program emits; on the wire each is keyed by
/// the shared 8-byte event marker followed by its own 8-byte tag.
#[derive(Clone, Copy, Debug)]
pub enum EventKind {
    BuyEvent,
    SellEvent,
    CreatePoolEvent,
    AdminSetCoinCreatorEvent,
    AdminUpdateTokenIncentivesEvent,
    ClaimTokenIncentivesEvent,
    CloseUserVolumeAccumulatorEvent,
    CollectCoinCreatorFeeEvent,
    CreateConfigEvent,
    DepositEvent,
    DisableEvent,
    ExtendAccountEvent,
    InitUserVolumeAccumulatorEvent,
    SetBondingCurveCoinCreatorEvent,
    SetMetaplexCoinCreatorEvent,
    SyncUserVolumeAccumulatorEvent,
    UpdateAdminEvent,
    UpdateFeeConfigEvent,
    WithdrawEvent,
}

/// The identifier of the one program whose instructions this decoder accepts.
pub open spec fn target_program_id() -> Seq<u8> {
    seq![12u8, 20, 222, 252, 130, 94, 198, 118, 148, 37, 8, 24, 187, 101, 64, 101, 244, 41, 141, 49, 86, 213, 113, 180, 212, 248, 9, 12, 24, 233, 168, 99]
}

/// The 8-byte namespace marker that every event payload starts with.
pub open spec fn event_marker() -> Seq<u8> {
    seq![228u8, 69, 165, 46, 81, 203, 154, 29]
}

/// The 8-byte discriminator of each command.
pub open spec fn command_key(k: CommandKind) -> Seq<u8> {
    match k {
        CommandKind::Buy => seq![102u8, 6, 61, 18, 1, 218, 235, 234],
        CommandKind::Sell => seq![51u8, 230, 133, 164, 1, 127, 131, 173],
        CommandKind::CreatePool => seq![233u8, 146, 209, 142, 207, 104, 64, 188],
        CommandKind::AdminSetCoinCreator => seq![242u8, 40, 117, 145, 73, 96, 105, 104],
        CommandKind::AdminUpdateTokenIncentives => seq![209u8, 11, 115, 87, 213, 23, 124, 204],
        CommandKind::BuyExactQuoteIn => seq![198u8, 46, 21, 82, 180, 217, 232, 112],
        CommandKind::ClaimTokenIncentives => seq![16u8, 4, 71, 28, 204, 1, 40, 27],
        CommandKind::CloseUserVolumeAccumulator => seq![249u8, 69, 164, 218, 150, 103, 84, 138],
        CommandKind::CollectCoinCreatorFee => seq![160u8, 57, 89, 42, 181, 139, 43, 66],
        CommandKind::CreateConfig => seq![201u8, 207, 243, 114, 75, 111, 47, 189],
        CommandKind::Deposit => seq![242u8, 35, 198, 137, 82, 225, 242, 182],
        CommandKind::Disable => seq![185u8, 173, 187, 90, 216, 15, 238, 233],
        CommandKind::ExtendAccount => seq![234u8, 102, 194, 203, 150, 72, 62, 229],
        CommandKind::InitUserVolumeAccumulator => seq![94u8, 6, 202, 115, 255, 96, 232, 183],
        CommandKind::SetCoinCreator => seq![210u8, 149, 128, 45, 188, 58, 78, 175],
        CommandKind::SyncUserVolumeAccumulator => seq![86u8, 31, 192, 87, 163, 87, 79, 238],
        CommandKind::UpdateAdmin => seq![161u8, 176, 40, 213, 60, 184, 179, 228],
        CommandKind::UpdateFeeConfig => seq![104u8, 184, 103, 242, 88, 151, 107, 20],
        CommandKind::Withdraw => seq![183u8, 18, 70, 156, 148, 109, 161, 34],
    }
}

/// The event-specific half of each 16-byte event key (bytes 8..16 of the payload).
pub open spec fn event_tag(k: EventKind) -> Seq<u8> {
    match k {
        EventKind::BuyEvent => seq![103u8, 244, 82, 31, 44, 245, 119, 119],
        EventKind::SellEvent => seq![62u8, 47, 55, 10, 165, 3, 220, 42],
        EventKind::CreatePoolEvent => seq![177u8, 49, 12, 210, 160, 118, 167, 116],
        EventKind::AdminSetCoinCreatorEvent => seq![45u8, 220, 93, 24, 25, 97, 172, 104],
        EventKind::AdminUpdateTokenIncentivesEvent => seq![147u8, 250, 108, 120, 247, 29, 67, 222],
        EventKind::ClaimTokenIncentivesEvent => seq![79u8, 172, 246, 49, 205, 91, 206, 232],
        EventKind::CloseUserVolumeAccumulatorEvent => seq![146u8, 159, 189, 172, 146, 88, 56, 244],
        EventKind::CollectCoinCreatorFeeEvent => seq![232u8, 245, 194, 238, 234, 218, 58, 89],
        EventKind::CreateConfigEvent => seq![107u8, 52, 89, 129, 55, 226, 81, 22],
        EventKind::DepositEvent => seq![120u8, 248, 61, 83, 31, 142, 107, 144],
        EventKind::DisableEvent => seq![107u8, 253, 193, 76, 228, 202, 27, 104],
        EventKind::ExtendAccountEvent => seq![97u8, 97, 215, 144, 93, 146, 22, 124],
        EventKind::InitUserVolumeAccumulatorEvent => seq![134u8, 36, 13, 72, 232, 101, 130, 216],
        EventKind::SetBondingCurveCoinCreatorEvent => seq![242u8, 231, 235, 102, 65, 99, 189, 211],
        EventKind::SetMetaplexCoinCreatorEvent => seq![150u8, 107, 199, 123, 124, 207, 102, 228],
        EventKind::SyncUserVolumeAccumulatorEvent => seq![197u8, 122, 167, 124, 116, 81, 91, 255],
        EventKind::UpdateAdminEvent => seq![225u8, 152, 171, 87, 246, 63, 66, 234],
        EventKind::UpdateFeeConfigEvent => seq![90u8, 23, 65, 35, 62, 244, 188, 208],
        EventKind::WithdrawEvent => seq![22u8, 9, 133, 26, 160, 44, 71, 192],
    }
}

/// Whether a command has an entry in the table selected by `mode`.
/// The minimal table keeps only the high-frequency trading-path entries.
pub open spec fn command_in_table(k: CommandKind, mode: TableMode) -> bool {
    ||| mode is Full
    ||| k is Buy
    ||| k is Sell
    ||| k is CreatePool
}

/// Whether an event has an entry in the table selected by `mode`.
pub open spec fn event_in_table(k: EventKind, mode: TableMode) -> bool {
    ||| mode is Full
    ||| k is BuyEvent
    ||| k is SellEvent
    ||| k is CreatePoolEvent
}

/// The command keyspace: which command, if any, an 8-byte prefix selects.
pub open spec fn command_of(key: Seq<u8>) -> Option<CommandKind> {
    if key == command_key(CommandKind::Buy) {
        Some(CommandKind::Buy)
    } else if key == command_key(CommandKind::Sell) {
        Some(CommandKind::Sell)
    } else if key == command_key(CommandKind::CreatePool) {
        Some(CommandKind::CreatePool)
    } else if key == command_key(CommandKind::AdminSetCoinCreator) {
        Some(CommandKind::AdminSetCoinCreator)
    } else if key == command_key(CommandKind::AdminUpdateTokenIncentives) {
        Some(CommandKind::AdminUpdateTokenIncentives)
    } else if key == command_key(CommandKind::BuyExactQuoteIn) {
        Some(CommandKind::BuyExactQuoteIn)
    } else if key == command_key(CommandKind::ClaimTokenIncentives) {
        Some(CommandKind::ClaimTokenIncentives)
    } else if key == command_key(CommandKind::CloseUserVolumeAccumulator) {
        Some(CommandKind::CloseUserVolumeAccumulator)
    } else if key == command_key(CommandKind::CollectCoinCreatorFee) {
        Some(CommandKind::CollectCoinCreatorFee)
    } else if key == command_key(CommandKind::CreateConfig) {
        Some(CommandKind::CreateConfig)
    } else if key == command_key(CommandKind::Deposit) {
        Some(CommandKind::Deposit)
    } else if key == command_key(CommandKind::Disable) {
        Some(CommandKind::Disable)
    } else if key == command_key(CommandKind::ExtendAccount) {
        Some(CommandKind::ExtendAccount)
    } else if key == command_key(CommandKind::InitUserVolumeAccumulator) {
        Some(CommandKind::InitUserVolumeAccumulator)
    } else if key == command_key(CommandKind::SetCoinCreator) {
        Some(CommandKind::SetCoinCreator)
    } else if key == command_key(CommandKind::SyncUserVolumeAccumulator) {
        Some(CommandKind::SyncUserVolumeAccumulator)
    } else if key == command_key(CommandKind::UpdateAdmin) {
        Some(CommandKind::UpdateAdmin)
    } else if key == command_key(CommandKind::UpdateFeeConfig) {
        Some(CommandKind::UpdateFeeConfig)
    } else if key == command_key(CommandKind::Withdraw) {
        Some(CommandKind::Withdraw)
    } else {
        None
    }
}

/// The event keyspace: which event, if any, an 8-byte tag selects.
pub open spec fn event_of(tag: Seq<u8>) -> Option<EventKind> {
    if tag == event_tag(EventKind::BuyEvent) {
        Some(EventKind::BuyEvent)
    } else if tag == event_tag(EventKind::SellEvent) {
        Some(EventKind::SellEvent)
    } else if tag == event_tag(EventKind::CreatePoolEvent) {
        Some(EventKind::CreatePoolEvent)
    } else if tag == event_tag(EventKind::AdminSetCoinCreatorEvent) {
        Some(EventKind::AdminSetCoinCreatorEvent)
    } else if tag == event_tag(EventKind::AdminUpdateTokenIncentivesEvent) {
        Some(EventKind::AdminUpdateTokenIncentivesEvent)
    } else if tag == event_tag(EventKind::ClaimTokenIncentivesEvent) {
        Some(EventKind::ClaimTokenIncentivesEvent)
    } else if tag == event_tag(EventKind::CloseUserVolumeAccumulatorEvent) {
        Some(EventKind::CloseUserVolumeAccumulatorEvent)
    } else if tag == event_tag(EventKind::CollectCoinCreatorFeeEvent) {
        Some(EventKind::CollectCoinCreatorFeeEvent)
    } else if tag == event_tag(EventKind::CreateConfigEvent) {
        Some(EventKind::CreateConfigEvent)
    } else if tag == event_tag(EventKind::DepositEvent) {
        Some(EventKind::DepositEvent)
    } else if tag == event_tag(EventKind::DisableEvent) {
        Some(EventKind::DisableEvent)
    } else if tag == event_tag(EventKind::ExtendAccountEvent) {
        Some(EventKind::ExtendAccountEvent)
    } else if tag == event_tag(EventKind::InitUserVolumeAccumulatorEvent) {
        Some(EventKind::InitUserVolumeAccumulatorEvent)
    } else if tag == event_tag(EventKind::SetBondingCurveCoinCreatorEvent) {
        Some(EventKind::SetBondingCurveCoinCreatorEvent)
    } else if tag == event_tag(EventKind::SetMetaplexCoinCreatorEvent) {
        Some(EventKind::SetMetaplexCoinCreatorEvent)
    } else if tag == event_tag(EventKind::SyncUserVolumeAccumulatorEvent) {
        Some(EventKind::SyncUserVolumeAccumulatorEvent)
    } else if tag == event_tag(EventKind::UpdateAdminEvent) {
        Some(EventKind::UpdateAdminEvent)
    } else if tag == event_tag(EventKind::UpdateFeeConfigEvent) {
        Some(EventKind::UpdateFeeConfigEvent)
    } else if tag == event_tag(EventKind::WithdrawEvent) {
        Some(EventKind::WithdrawEvent)
    } else {
        None
    }
}

/// Every command's discriminator selects that command and no other:
/// the 8-byte command keyspace is unambiguous.
pub proof fn lemma_command_of_key(k: CommandKind)
    ensures
        command_of(command_key(k)) == Some(k),
{
    match k {
        CommandKind::Buy => {
        },
        CommandKind::Sell => {
            assert(command_key(CommandKind::Sell)[0] != command_key(CommandKind::Buy)[0]);
        },
        CommandKind::CreatePool => {
            assert(command_key(CommandKind::CreatePool)[0] != command_key(CommandKind::Buy)[0]);
            assert(command_key(CommandKind::CreatePool)[0] != command_key(CommandKind::Sell)[0]);
        },
        CommandKind::AdminSetCoinCreator => {
            assert(command_key(CommandKind::AdminSetCoinCreator)[0] != command_key(CommandKind::Buy)[0]);
            assert(command_key(CommandKind::AdminSetCoinCreator)[0] != command_key(CommandKind::Sell)[0]);
            assert(command_key(CommandKind::AdminSetCoinCreator)[0] != command_key(CommandKind::CreatePool)[0]);
        },
        CommandKind::AdminUpdateTokenIncentives => {
            assert(command_key(CommandKind::AdminUpdateTokenIncentives)[0] != command_key(CommandKind::Buy)[0]);
            assert(command_key(CommandKind::AdminUpdateTokenIncentives)[0] != command_key(CommandKind::Sell)[0]);
            assert(command_key(CommandKind::AdminUpdateTokenIncentives)[0] != command_key(CommandKind::CreatePool)[0]);
            assert(command_key(CommandKind::AdminUpdateTokenIncentives)[0] != command_key(CommandKind::AdminSetCoinCreator)[0]);
        },
        CommandKind::BuyExactQuoteIn => {
            assert(command_key(CommandKind::BuyExactQuoteIn)[0] != command_key(CommandKind::Buy)[0]);
            assert(command_key(CommandKind::BuyExactQuoteIn)[0] != command_key(CommandKind::Sell)[0]);
            assert(command_key(CommandKind::BuyExactQuoteIn)[0] != command_key(CommandKind::CreatePool)[0]);
            assert(command_key(CommandKind::BuyExactQuoteIn)[0] != command_key(CommandKind::AdminSetCoinCreator)[0]);
            assert(command_key(CommandKind::BuyExactQuoteIn)[0] != command_key(CommandKind::AdminUpdateTokenIncentives)[0]);
        },
        CommandKind::ClaimTokenIncentives => {
            assert(command_key(CommandKind::ClaimTokenIncentives)[0] != command_key(CommandKind::Buy)[0]);
            assert(command_key(CommandKind::ClaimTokenIncentives)[0] != command_key(CommandKind::Sell)[0]);
            assert(command_key(CommandKind::ClaimTokenIncentives)[0] != command_key(CommandKind::CreatePool)[0]);
            assert(command_key(CommandKind::ClaimTokenIncentives)[0] != command_key(CommandKind::AdminSetCoinCreator)[0]);
            assert(command_key(CommandKind::ClaimTokenIncentives)[0] != command_key(CommandKind::AdminUpdateTokenIncentives)[0]);
            assert(command_key(CommandKind::ClaimTokenIncentives)[0] != command_key(CommandKind::BuyExactQuoteIn)[0]);
        },
        CommandKind::CloseUserVolumeAccumulator => {
            assert(command_key(CommandKind::CloseUserVolumeAccumulator)[0] != command_key(CommandKind::Buy)[0]);
            assert(command_key(CommandKind::CloseUserVolumeAccumulator)[0] != command_key(CommandKind::Sell)[0]);
            assert(command_key(CommandKind::CloseUserVolumeAccumulator)[0] != command_key(CommandKind::CreatePool)[0]);
            assert(command_key(CommandKind::CloseUserVolumeAccumulator)[0] != command_key(CommandKind::AdminSetCoinCreator)[0]);
            assert(command_key(CommandKind::CloseUserVolumeAccumulator)[0] != command_key(CommandKind::AdminUpdateTokenIncentives)[0]);
            assert(command_key(CommandKind::CloseUserVolumeAccumulator)[0] != command_key(CommandKind::BuyExactQuoteIn)[0]);
            assert(command_key(CommandKind::CloseUserVolumeAccumulator)[0] != command_key(CommandKind::ClaimTokenIncentives)[0]);
        },
        CommandKind::CollectCoinCreatorFee => {
            assert(command_key(CommandKind::CollectCoinCreatorFee)[0] != command_key(CommandKind::Buy)[0]);
            assert(command_key(CommandKind::CollectCoinCreatorFee)[0] != command_key(CommandKind::Sell)[0]);
            assert(command_key(CommandKind::CollectCoinCreatorFee)[0] != command_key(CommandKind::CreatePool)[0]);
            assert(command_key(CommandKind::CollectCoinCreatorFee)[0] != command_key(CommandKind::AdminSetCoinCreator)[0]);
            assert(command_key(CommandKind::CollectCoinCreatorFee)[0] != command_key(CommandKind::AdminUpdateTokenIncentives)[0]);
            assert(command_key(CommandKind::CollectCoinCreatorFee)[0] != command_key(CommandKind::BuyExactQuoteIn)[0]);
            assert(command_key(CommandKind::CollectCoinCreatorFee)[0] != command_key(CommandKind::ClaimTokenIncentives)[0]);
            assert(command_key(CommandKind::CollectCoinCreatorFee)[0] != command_key(CommandKind::CloseUserVolumeAccumulator)[0]);
        },
        CommandKind::CreateConfig => {
            assert(command_key(CommandKind::CreateConfig)[0] != command_key(CommandKind::Buy)[0]);
            assert(command_key(CommandKind::CreateConfig)[0] != command_key(CommandKind::Sell)[0]);
            assert(command_key(CommandKind::CreateConfig)[0] != command_key(CommandKind::CreatePool)[0]);
            assert(command_key(CommandKind::CreateConfig)[0] != command_key(CommandKind::AdminSetCoinCreator)[0]);
            assert(command_key(CommandKind::CreateConfig)[0] != command_key(CommandKind::AdminUpdateTokenIncentives)[0]);
            assert(command_key(CommandKind::CreateConfig)[0] != command_key(CommandKind::BuyExactQuoteIn)[0]);
            assert(command_key(CommandKind::CreateConfig)[0] != command_key(CommandKind::ClaimTokenIncentives)[0]);
            assert(command_key(CommandKind::CreateConfig)[0] != command_key(CommandKind::CloseUserVolumeAccumulator)[0]);
            assert(command_key(CommandKind::CreateConfig)[0] != command_key(CommandKind::CollectCoinCreatorFee)[0]);
        },
        CommandKind::Deposit => {
            assert(command_key(CommandKind::Deposit)[0] != command_key(CommandKind::Buy)[0]);
            assert(command_key(CommandKind::Deposit)[0] != command_key(CommandKind::Sell)[0]);
            assert(command_key(CommandKind::Deposit)[0] != command_key(CommandKind::CreatePool)[0]);
            assert(command_key(CommandKind::Deposit)[1] != command_key(CommandKind::AdminSetCoinCreator)[1]);
            assert(command_key(CommandKind::Deposit)[0] != command_key(CommandKind::AdminUpdateTokenIncentives)[0]);
            assert(command_key(CommandKind::Deposit)[0] != command_key(CommandKind::BuyExactQuoteIn)[0]);
            assert(command_key(CommandKind::Deposit)[0] != command_key(CommandKind::ClaimTokenIncentives)[0]);
            assert(command_key(CommandKind::Deposit)[0] != command_key(CommandKind::CloseUserVolumeAccumulator)[0]);
            assert(command_key(CommandKind::Deposit)[0] != command_key(CommandKind::CollectCoinCreatorFee)[0]);
            assert(command_key(CommandKind::Deposit)[0] != command_key(CommandKind::CreateConfig)[0]);
        },
        CommandKind::Disable => {
            assert(command_key(CommandKind::Disable)[0] != command_key(CommandKind::Buy)[0]);
            assert(command_key(CommandKind::Disable)[0] != command_key(CommandKind::Sell)[0]);
            assert(command_key(CommandKind::Disable)[0] != command_key(CommandKind::CreatePool)[0]);
            assert(command_key(CommandKind::Disable)[0] != command_key(CommandKind::AdminSetCoinCreator)[0]);
            assert(command_key(CommandKind::Disable)[0] != command_key(CommandKind::AdminUpdateTokenIncentives)[0]);
            assert(command_key(CommandKind::Disable)[0] != command_key(CommandKind::BuyExactQuoteIn)[0]);
            assert(command_key(CommandKind::Disable)[0] != command_key(CommandKind::ClaimTokenIncentives)[0]);
            assert(command_key(CommandKind::Disable)[0] != command_key(CommandKind::CloseUserVolumeAccumulator)[0]);
            assert(command_key(CommandKind::Disable)[0] != command_key(CommandKind::CollectCoinCreatorFee)[0]);
            assert(command_key(CommandKind::Disable)[0] != command_key(CommandKind::CreateConfig)[0]);
            assert(command_key(CommandKind::Disable)[0] != command_key(CommandKind::Deposit)[0]);
        },
        CommandKind::ExtendAccount => {
            assert(command_key(CommandKind::ExtendAccount)[0] != command_key(CommandKind::Buy)[0]);
            assert(command_key(CommandKind::ExtendAccount)[0] != command_key(CommandKind::Sell)[0]);
            assert(command_key(CommandKind::ExtendAccount)[0] != command_key(CommandKind::CreatePool)[0]);
            assert(command_key(CommandKind::ExtendAccount)[0] != command_key(CommandKind::AdminSetCoinCreator)[0]);
            assert(command_key(CommandKind::ExtendAccount)[0] != command_key(CommandKind::AdminUpdateTokenIncentives)[0]);
            assert(command_key(CommandKind::ExtendAccount)[0] != command_key(CommandKind::BuyExactQuoteIn)[0]);
            assert(command_key(CommandKind::ExtendAccount)[0] != command_key(CommandKind::ClaimTokenIncentives)[0]);
            assert(command_key(CommandKind::ExtendAccount)[0] != command_key(CommandKind::CloseUserVolumeAccumulator)[0]);
            assert(command_key(CommandKind::ExtendAccount)[0] != command_key(CommandKind::CollectCoinCreatorFee)[0]);
            assert(command_key(CommandKind::ExtendAccount)[0] != command_key(CommandKind::CreateConfig)[0]);
            assert(command_key(CommandKind::ExtendAccount)[0] != command_key(CommandKind::Deposit)[0]);
            assert(command_key(CommandKind::ExtendAccount)[0] != command_key(CommandKind::Disable)[0]);
        },
        CommandKind::InitUserVolumeAccumulator => {
            assert(command_key(CommandKind::InitUserVolumeAccumulator)[0] != command_key(CommandKind::Buy)[0]);
            assert(command_key(CommandKind::InitUserVolumeAccumulator)[0] != command_key(CommandKind::Sell)[0]);
            assert(command_key(CommandKind::InitUserVolumeAccumulator)[0] != command_key(CommandKind::CreatePool)[0]);
            assert(command_key(CommandKind::InitUserVolumeAccumulator)[0] != command_key(CommandKind::AdminSetCoinCreator)[0]);
            assert(command_key(CommandKind::InitUserVolumeAccumulator)[0] != command_key(CommandKind::AdminUpdateTokenIncentives)[0]);
            assert(command_key(CommandKind::InitUserVolumeAccumulator)[0] != command_key(CommandKind::BuyExactQuoteIn)[0]);
            assert(command_key(CommandKind::InitUserVolumeAccumulator)[0] != command_key(CommandKind::ClaimTokenIncentives)[0]);
            assert(command_key(CommandKind::InitUserVolumeAccumulator)[0] != command_key(CommandKind::CloseUserVolumeAccumulator)[0]);
            assert(command_key(CommandKind::InitUserVolumeAccumulator)[0] != command_key(CommandKind::CollectCoinCreatorFee)[0]);
            assert(command_key(CommandKind::InitUserVolumeAccumulator)[0] != command_key(CommandKind::CreateConfig)[0]);
            assert(command_key(CommandKind::InitUserVolumeAccumulator)[0] != command_key(CommandKind::Deposit)[0]);
            assert(command_key(CommandKind::InitUserVolumeAccumulator)[0] != command_key(CommandKind::Disable)[0]);
            assert(command_key(CommandKind::InitUserVolumeAccumulator)[0] != command_key(CommandKind::ExtendAccount)[0]);
        },
        CommandKind::SetCoinCreator => {
            assert(command_key(CommandKind::SetCoinCreator)[0] != command_key(CommandKind::Buy)[0]);
            assert(command_key(CommandKind::SetCoinCreator)[0] != command_key(CommandKind::Sell)[0]);
            assert(command_key(CommandKind::SetCoinCreator)[0] != command_key(CommandKind::CreatePool)[0]);
            assert(command_key(CommandKind::SetCoinCreator)[0] != command_key(CommandKind::AdminSetCoinCreator)[0]);
            assert(command_key(CommandKind::SetCoinCreator)[0] != command_key(CommandKind::AdminUpdateTokenIncentives)[0]);
            assert(command_key(CommandKind::SetCoinCreator)[0] != command_key(CommandKind::BuyExactQuoteIn)[0]);
            assert(command_key(CommandKind::SetCoinCreator)[0] != command_key(CommandKind::ClaimTokenIncentives)[0]);
            assert(command_key(CommandKind::SetCoinCreator)[0] != command_key(CommandKind::CloseUserVolumeAccumulator)[0]);
            assert(command_key(CommandKind::SetCoinCreator)[0] != command_key(CommandKind::CollectCoinCreatorFee)[0]);
            assert(command_key(CommandKind::SetCoinCreator)[0] != command_key(CommandKind::CreateConfig)[0]);
            assert(command_key(CommandKind::SetCoinCreator)[0] != command_key(CommandKind::Deposit)[0]);
            assert(command_key(CommandKind::SetCoinCreator)[0] != command_key(CommandKind::Disable)[0]);
            assert(command_key(CommandKind::SetCoinCreator)[0] != command_key(CommandKind::ExtendAccount)[0]);
            assert(command_key(CommandKind::SetCoinCreator)[0] != command_key(CommandKind::InitUserVolumeAccumulator)[0]);
        },
        CommandKind::SyncUserVolumeAccumulator => {
            assert(command_key(CommandKind::SyncUserVolumeAccumulator)[0] != command_key(CommandKind::Buy)[0]);
            assert(command_key(CommandKind::SyncUserVolumeAccumulator)[0] != command_key(CommandKind::Sell)[0]);
            assert(command_key(CommandKind::SyncUserVolumeAccumulator)[0] != command_key(CommandKind::CreatePool)[0]);
            assert(command_key(CommandKind::SyncUserVolumeAccumulator)[0] != command_key(CommandKind::AdminSetCoinCreator)[0]);
            assert(command_key(CommandKind::SyncUserVolumeAccumulator)[0] != command_key(CommandKind::AdminUpdateTokenIncentives)[0]);
            assert(command_key(CommandKind::SyncUserVolumeAccumulator)[0] != command_key(CommandKind::BuyExactQuoteIn)[0]);
            assert(command_key(CommandKind::SyncUserVolumeAccumulator)[0] != command_key(CommandKind::ClaimTokenIncentives)[0]);
            assert(command_key(CommandKind::SyncUserVolumeAccumulator)[0] != command_key(CommandKind::CloseUserVolumeAccumulator)[0]);
            assert(command_key(CommandKind::SyncUserVolumeAccumulator)[0] != command_key(CommandKind::CollectCoinCreatorFee)[0]);
            assert(command_key(CommandKind::SyncUserVolumeAccumulator)[0] != command_key(CommandKind::CreateConfig)[0]);
            assert(command_key(CommandKind::SyncUserVolumeAccumulator)[0] != command_key(CommandKind::Deposit)[0]);
            assert(command_key(CommandKind::SyncUserVolumeAccumulator)[0] != command_key(CommandKind::Disable)[0]);
            assert(command_key(CommandKind::SyncUserVolumeAccumulator)[0] != command_key(CommandKind::ExtendAccount)[0]);
            assert(command_key(CommandKind::SyncUserVolumeAccumulator)[0] != command_key(CommandKind::InitUserVolumeAccumulator)[0]);
            assert(command_key(CommandKind::SyncUserVolumeAccumulator)[0] != command_key(CommandKind::SetCoinCreator)[0]);
        },
        CommandKind::UpdateAdmin => {
            assert(command_key(CommandKind::UpdateAdmin)[0] != command_key(CommandKind::Buy)[0]);
            assert(command_key(CommandKind::UpdateAdmin)[0] != command_key(CommandKind::Sell)[0]);
            assert(command_key(CommandKind::UpdateAdmin)[0] != command_key(CommandKind::CreatePool)[0]);
            assert(command_key(CommandKind::UpdateAdmin)[0] != command_key(CommandKind::AdminSetCoinCreator)[0]);
            assert(command_key(CommandKind::UpdateAdmin)[0] != command_key(CommandKind::AdminUpdateTokenIncentives)[0]);
            assert(command_key(CommandKind::UpdateAdmin)[0] != command_key(CommandKind::BuyExactQuoteIn)[0]);
            assert(command_key(CommandKind::UpdateAdmin)[0] != command_key(CommandKind::ClaimTokenIncentives)[0]);
            assert(command_key(CommandKind::UpdateAdmin)[0] != command_key(CommandKind::CloseUserVolumeAccumulator)[0]);
            assert(command_key(CommandKind::UpdateAdmin)[0] != command_key(CommandKind::CollectCoinCreatorFee)[0]);
            assert(command_key(CommandKind::UpdateAdmin)[0] != command_key(CommandKind::CreateConfig)[0]);
            assert(command_key(CommandKind::UpdateAdmin)[0] != command_key(CommandKind::Deposit)[0]);
            assert(command_key(CommandKind::UpdateAdmin)[0] != command_key(CommandKind::Disable)[0]);
            assert(command_key(CommandKind::UpdateAdmin)[0] != command_key(CommandKind::ExtendAccount)[0]);
            assert(command_key(CommandKind::UpdateAdmin)[0] != command_key(CommandKind::InitUserVolumeAccumulator)[0]);
            assert(command_key(CommandKind::UpdateAdmin)[0] != command_key(CommandKind::SetCoinCreator)[0]);
            assert(command_key(CommandKind::UpdateAdmin)[0] != command_key(CommandKind::SyncUserVolumeAccumulator)[0]);
        },
        CommandKind::UpdateFeeConfig => {
            assert(command_key(CommandKind::UpdateFeeConfig)[0] != command_key(CommandKind::Buy)[0]);
            assert(command_key(CommandKind::UpdateFeeConfig)[0] != command_key(CommandKind::Sell)[0]);
            assert(command_key(CommandKind::UpdateFeeConfig)[0] != command_key(CommandKind::CreatePool)[0]);
            assert(command_key(CommandKind::UpdateFeeConfig)[0] != command_key(CommandKind::AdminSetCoinCreator)[0]);
            assert(command_key(CommandKind::UpdateFeeConfig)[0] != command_key(CommandKind::AdminUpdateTokenIncentives)[0]);
            assert(command_key(CommandKind::UpdateFeeConfig)[0] != command_key(CommandKind::BuyExactQuoteIn)[0]);
            assert(command_key(CommandKind::UpdateFeeConfig)[0] != command_key(CommandKind::ClaimTokenIncentives)[0]);
            assert(command_key(CommandKind::UpdateFeeConfig)[0] != command_key(CommandKind::CloseUserVolumeAccumulator)[0]);
            assert(command_key(CommandKind::UpdateFeeConfig)[0] != command_key(CommandKind::CollectCoinCreatorFee)[0]);
            assert(command_key(CommandKind::UpdateFeeConfig)[0] != command_key(CommandKind::CreateConfig)[0]);
            assert(command_key(CommandKind::UpdateFeeConfig)[0] != command_key(CommandKind::Deposit)[0]);
            assert(command_key(CommandKind::UpdateFeeConfig)[0] != command_key(CommandKind::Disable)[0]);
            assert(command_key(CommandKind::UpdateFeeConfig)[0] != command_key(CommandKind::ExtendAccount)[0]);
            assert(command_key(CommandKind::UpdateFeeConfig)[0] != command_key(CommandKind::InitUserVolumeAccumulator)[0]);
            assert(command_key(CommandKind::UpdateFeeConfig)[0] != command_key(CommandKind::SetCoinCreator)[0]);
            assert(command_key(CommandKind::UpdateFeeConfig)[0] != command_key(CommandKind::SyncUserVolumeAccumulator)[0]);
            assert(command_key(CommandKind::UpdateFeeConfig)[0] != command_key(CommandKind::UpdateAdmin)[0]);
        },
        CommandKind::Withdraw => {
            assert(command_key(CommandKind::Withdraw)[0] != command_key(CommandKind::Buy)[0]);
            assert(command_key(CommandKind::Withdraw)[0] != command_key(CommandKind::Sell)[0]);
            assert(command_key(CommandKind::Withdraw)[0] != command_key(CommandKind::CreatePool)[0]);
            assert(command_key(CommandKind::Withdraw)[0] != command_key(CommandKind::AdminSetCoinCreator)[0]);
            assert(command_key(CommandKind::Withdraw)[0] != command_key(CommandKind::AdminUpdateTokenIncentives)[0]);
            assert(command_key(CommandKind::Withdraw)[0] != command_key(CommandKind::BuyExactQuoteIn)[0]);
            assert(command_key(CommandKind::Withdraw)[0] != command_key(CommandKind::ClaimTokenIncentives)[0]);
            assert(command_key(CommandKind::Withdraw)[0] != command_key(CommandKind::CloseUserVolumeAccumulator)[0]);
            assert(command_key(CommandKind::Withdraw)[0] != command_key(CommandKind::CollectCoinCreatorFee)[0]);
            assert(command_key(CommandKind::Withdraw)[0] != command_key(CommandKind::CreateConfig)[0]);
            assert(command_key(CommandKind::Withdraw)[0] != command_key(CommandKind::Deposit)[0]);
            assert(command_key(CommandKind::Withdraw)[0] != command_key(CommandKind::Disable)[0]);
            assert(command_key(CommandKind::Withdraw)[0] != command_key(CommandKind::ExtendAccount)[0]);
            assert(command_key(CommandKind::Withdraw)[0] != command_key(CommandKind::InitUserVolumeAccumulator)[0]);
            assert(command_key(CommandKind::Withdraw)[0] != command_key(CommandKind::SetCoinCreator)[0]);
            assert(command_key(CommandKind::Withdraw)[0] != command_key(CommandKind::SyncUserVolumeAccumulator)[0]);
            assert(command_key(CommandKind::Withdraw)[0] != command_key(CommandKind::UpdateAdmin)[0]);
            assert(command_key(CommandKind::Withdraw)[0] != command_key(CommandKind::UpdateFeeConfig)[0]);
        },
    }
}

/// Every event tag selects that event and no other: the event keyspace is unambiguous.
pub proof fn lemma_event_of_tag(k: EventKind)
    ensures
        event_of(event_tag(k)) == Some(k),
{
    match k {
        EventKind::BuyEvent => {
        },
        EventKind::SellEvent => {
            assert(event_tag(EventKind::SellEvent)[0] != event_tag(EventKind::BuyEvent)[0]);
        },
        EventKind::CreatePoolEvent => {
            assert(event_tag(EventKind::CreatePoolEvent)[0] != event_tag(EventKind::BuyEvent)[0]);
            assert(event_tag(EventKind::CreatePoolEvent)[0] != event_tag(EventKind::SellEvent)[0]);
        },
        EventKind::AdminSetCoinCreatorEvent => {
            assert(event_tag(EventKind::AdminSetCoinCreatorEvent)[0] != event_tag(EventKind::BuyEvent)[0]);
            assert(event_tag(EventKind::AdminSetCoinCreatorEvent)[0] != event_tag(EventKind::SellEvent)[0]);
            assert(event_tag(EventKind::AdminSetCoinCreatorEvent)[0] != event_tag(EventKind::CreatePoolEvent)[0]);
        },
        EventKind::AdminUpdateTokenIncentivesEvent => {
            assert(event_tag(EventKind::AdminUpdateTokenIncentivesEvent)[0] != event_tag(EventKind::BuyEvent)[0]);
            assert(event_tag(EventKind::AdminUpdateTokenIncentivesEvent)[0] != event_tag(EventKind::SellEvent)[0]);
            assert(event_tag(EventKind::AdminUpdateTokenIncentivesEvent)[0] != event_tag(EventKind::CreatePoolEvent)[0]);
            assert(event_tag(EventKind::AdminUpdateTokenIncentivesEvent)[0] != event_tag(EventKind::AdminSetCoinCreatorEvent)[0]);
        },
        EventKind::ClaimTokenIncentivesEvent => {
            assert(event_tag(EventKind::ClaimTokenIncentivesEvent)[0] != event_tag(EventKind::BuyEvent)[0]);
            assert(event_tag(EventKind::ClaimTokenIncentivesEvent)[0] != event_tag(EventKind::SellEvent)[0]);
            assert(event_tag(EventKind::ClaimTokenIncentivesEvent)[0] != event_tag(EventKind::CreatePoolEvent)[0]);
            assert(event_tag(EventKind::ClaimTokenIncentivesEvent)[0] != event_tag(EventKind::AdminSetCoinCreatorEvent)[0]);
            assert(event_tag(EventKind::ClaimTokenIncentivesEvent)[0] != event_tag(EventKind::AdminUpdateTokenIncentivesEvent)[0]);
        },
        EventKind::CloseUserVolumeAccumulatorEvent => {
            assert(event_tag(EventKind::CloseUserVolumeAccumulatorEvent)[0] != event_tag(EventKind::BuyEvent)[0]);
            assert(event_tag(EventKind::CloseUserVolumeAccumulatorEvent)[0] != event_tag(EventKind::SellEvent)[0]);
            assert(event_tag(EventKind::CloseUserVolumeAccumulatorEvent)[0] != event_tag(EventKind::CreatePoolEvent)[0]);
            assert(event_tag(EventKind::CloseUserVolumeAccumulatorEvent)[0] != event_tag(EventKind::AdminSetCoinCreatorEvent)[0]);
            assert(event_tag(EventKind::CloseUserVolumeAccumulatorEvent)[0] != event_tag(EventKind::AdminUpdateTokenIncentivesEvent)[0]);
            assert(event_tag(EventKind::CloseUserVolumeAccumulatorEvent)[0] != event_tag(EventKind::ClaimTokenIncentivesEvent)[0]);
        },
        EventKind::CollectCoinCreatorFeeEvent => {
            assert(event_tag(EventKind::CollectCoinCreatorFeeEvent)[0] != event_tag(EventKind::BuyEvent)[0]);
            assert(event_tag(EventKind::CollectCoinCreatorFeeEvent)[0] != event_tag(EventKind::SellEvent)[0]);
            assert(event_tag(EventKind::CollectCoinCreatorFeeEvent)[0] != event_tag(EventKind::CreatePoolEvent)[0]);
            assert(event_tag(EventKind::CollectCoinCreatorFeeEvent)[0] != event_tag(EventKind::AdminSetCoinCreatorEvent)[0]);
            assert(event_tag(EventKind::CollectCoinCreatorFeeEvent)[0] != event_tag(EventKind::AdminUpdateTokenIncentivesEvent)[0]);
            assert(event_tag(EventKind::CollectCoinCreatorFeeEvent)[0] != event_tag(EventKind::ClaimTokenIncentivesEvent)[0]);
            assert(event_tag(EventKind::CollectCoinCreatorFeeEvent)[0] != event_tag(EventKind::CloseUserVolumeAccumulatorEvent)[0]);
        },
        EventKind::CreateConfigEvent => {
            assert(event_tag(EventKind::CreateConfigEvent)[0] != event_tag(EventKind::BuyEvent)[0]);
            assert(event_tag(EventKind::CreateConfigEvent)[0] != event_tag(EventKind::SellEvent)[0]);
            assert(event_tag(EventKind::CreateConfigEvent)[0] != event_tag(EventKind::CreatePoolEvent)[0]);
            assert(event_tag(EventKind::CreateConfigEvent)[0] != event_tag(EventKind::AdminSetCoinCreatorEvent)[0]);
            assert(event_tag(EventKind::CreateConfigEvent)[0] != event_tag(EventKind::AdminUpdateTokenIncentivesEvent)[0]);
            assert(event_tag(EventKind::CreateConfigEvent)[0] != event_tag(EventKind::ClaimTokenIncentivesEvent)[0]);
            assert(event_tag(EventKind::CreateConfigEvent)[0] != event_tag(EventKind::CloseUserVolumeAccumulatorEvent)[0]);
            assert(event_tag(EventKind::CreateConfigEvent)[0] != event_tag(EventKind::CollectCoinCreatorFeeEvent)[0]);
        },
        EventKind::DepositEvent => {
            assert(event_tag(EventKind::DepositEvent)[0] != event_tag(EventKind::BuyEvent)[0]);
            assert(event_tag(EventKind::DepositEvent)[0] != event_tag(EventKind::SellEvent)[0]);
            assert(event_tag(EventKind::DepositEvent)[0] != event_tag(EventKind::CreatePoolEvent)[0]);
            assert(event_tag(EventKind::DepositEvent)[0] != event_tag(EventKind::AdminSetCoinCreatorEvent)[0]);
            assert(event_tag(EventKind::DepositEvent)[0] != event_tag(EventKind::AdminUpdateTokenIncentivesEvent)[0]);
            assert(event_tag(EventKind::DepositEvent)[0] != event_tag(EventKind::ClaimTokenIncentivesEvent)[0]);
            assert(event_tag(EventKind::DepositEvent)[0] != event_tag(EventKind::CloseUserVolumeAccumulatorEvent)[0]);
            assert(event_tag(EventKind::DepositEvent)[0] != event_tag(EventKind::CollectCoinCreatorFeeEvent)[0]);
            assert(event_tag(EventKind::DepositEvent)[0] != event_tag(EventKind::CreateConfigEvent)[0]);
        },
        EventKind::DisableEvent => {
            assert(event_tag(EventKind::DisableEvent)[0] != event_tag(EventKind::BuyEvent)[0]);
            assert(event_tag(EventKind::DisableEvent)[0] != event_tag(EventKind::SellEvent)[0]);
            assert(event_tag(EventKind::DisableEvent)[0] != event_tag(EventKind::CreatePoolEvent)[0]);
            assert(event_tag(EventKind::DisableEvent)[0] != event_tag(EventKind::AdminSetCoinCreatorEvent)[0]);
            assert(event_tag(EventKind::DisableEvent)[0] != event_tag(EventKind::AdminUpdateTokenIncentivesEvent)[0]);
            assert(event_tag(EventKind::DisableEvent)[0] != event_tag(EventKind::ClaimTokenIncentivesEvent)[0]);
            assert(event_tag(EventKind::DisableEvent)[0] != event_tag(EventKind::CloseUserVolumeAccumulatorEvent)[0]);
            assert(event_tag(EventKind::DisableEvent)[0] != event_tag(EventKind::CollectCoinCreatorFeeEvent)[0]);
            assert(event_tag(EventKind::DisableEvent)[1] != event_tag(EventKind::CreateConfigEvent)[1]);
            assert(event_tag(EventKind::DisableEvent)[0] != event_tag(EventKind::DepositEvent)[0]);
        },
        EventKind::ExtendAccountEvent => {
            assert(event_tag(EventKind::ExtendAccountEvent)[0] != event_tag(EventKind::BuyEvent)[0]);
            assert(event_tag(EventKind::ExtendAccountEvent)[0] != event_tag(EventKind::SellEvent)[0]);
            assert(event_tag(EventKind::ExtendAccountEvent)[0] != event_tag(EventKind::CreatePoolEvent)[0]);
            assert(event_tag(EventKind::ExtendAccountEvent)[0] != event_tag(EventKind::AdminSetCoinCreatorEvent)[0]);
            assert(event_tag(EventKind::ExtendAccountEvent)[0] != event_tag(EventKind::AdminUpdateTokenIncentivesEvent)[0]);
            assert(event_tag(EventKind::ExtendAccountEvent)[0] != event_tag(EventKind::ClaimTokenIncentivesEvent)[0]);
            assert(event_tag(EventKind::ExtendAccountEvent)[0] != event_tag(EventKind::CloseUserVolumeAccumulatorEvent)[0]);
            assert(event_tag(EventKind::ExtendAccountEvent)[0] != event_tag(EventKind::CollectCoinCreatorFeeEvent)[0]);
            assert(event_tag(EventKind::ExtendAccountEvent)[0] != event_tag(EventKind::CreateConfigEvent)[0]);
            assert(event_tag(EventKind::ExtendAccountEvent)[0] != event_tag(EventKind::DepositEvent)[0]);
            assert(event_tag(EventKind::ExtendAccountEvent)[0] != event_tag(EventKind::DisableEvent)[0]);
        },
        EventKind::InitUserVolumeAccumulatorEvent => {
            assert(event_tag(EventKind::InitUserVolumeAccumulatorEvent)[0] != event_tag(EventKind::BuyEvent)[0]);
            assert(event_tag(EventKind::InitUserVolumeAccumulatorEvent)[0] != event_tag(EventKind::SellEvent)[0]);
            assert(event_tag(EventKind::InitUserVolumeAccumulatorEvent)[0] != event_tag(EventKind::CreatePoolEvent)[0]);
            assert(event_tag(EventKind::InitUserVolumeAccumulatorEvent)[0] != event_tag(EventKind::AdminSetCoinCreatorEvent)[0]);
            assert(event_tag(EventKind::InitUserVolumeAccumulatorEvent)[0] != event_tag(EventKind::AdminUpdateTokenIncentivesEvent)[0]);
            assert(event_tag(EventKind::InitUserVolumeAccumulatorEvent)[0] != event_tag(EventKind::ClaimTokenIncentivesEvent)[0]);
            assert(event_tag(EventKind::InitUserVolumeAccumulatorEvent)[0] != event_tag(EventKind::CloseUserVolumeAccumulatorEvent)[0]);
            assert(event_tag(EventKind::InitUserVolumeAccumulatorEvent)[0] != event_tag(EventKind::CollectCoinCreatorFeeEvent)[0]);
            assert(event_tag(EventKind::InitUserVolumeAccumulatorEvent)[0] != event_tag(EventKind::CreateConfigEvent)[0]);
            assert(event_tag(EventKind::InitUserVolumeAccumulatorEvent)[0] != event_tag(EventKind::DepositEvent)[0]);
            assert(event_tag(EventKind::InitUserVolumeAccumulatorEvent)[0] != event_tag(EventKind::DisableEvent)[0]);
            assert(event_tag(EventKind::InitUserVolumeAccumulatorEvent)[0] != event_tag(EventKind::ExtendAccountEvent)[0]);
        },
        EventKind::SetBondingCurveCoinCreatorEvent => {
            assert(event_tag(EventKind::SetBondingCurveCoinCreatorEvent)[0] != event_tag(EventKind::BuyEvent)[0]);
            assert(event_tag(EventKind::SetBondingCurveCoinCreatorEvent)[0] != event_tag(EventKind::SellEvent)[0]);
            assert(event_tag(EventKind::SetBondingCurveCoinCreatorEvent)[0] != event_tag(EventKind::CreatePoolEvent)[0]);
            assert(event_tag(EventKind::SetBondingCurveCoinCreatorEvent)[0] != event_tag(EventKind::AdminSetCoinCreatorEvent)[0]);
            assert(event_tag(EventKind::SetBondingCurveCoinCreatorEvent)[0] != event_tag(EventKind::AdminUpdateTokenIncentivesEvent)[0]);
            assert(event_tag(EventKind::SetBondingCurveCoinCreatorEvent)[0] != event_tag(EventKind::ClaimTokenIncentivesEvent)[0]);
            assert(event_tag(EventKind::SetBondingCurveCoinCreatorEvent)[0] != event_tag(EventKind::CloseUserVolumeAccumulatorEvent)[0]);
            assert(event_tag(EventKind::SetBondingCurveCoinCreatorEvent)[0] != event_tag(EventKind::CollectCoinCreatorFeeEvent)[0]);
            assert(event_tag(EventKind::SetBondingCurveCoinCreatorEvent)[0] != event_tag(EventKind::CreateConfigEvent)[0]);
            assert(event_tag(EventKind::SetBondingCurveCoinCreatorEvent)[0] != event_tag(EventKind::DepositEvent)[0]);
            assert(event_tag(EventKind::SetBondingCurveCoinCreatorEvent)[0] != event_tag(EventKind::DisableEvent)[0]);
            assert(event_tag(EventKind::SetBondingCurveCoinCreatorEvent)[0] != event_tag(EventKind::ExtendAccountEvent)[0]);
            assert(event_tag(EventKind::SetBondingCurveCoinCreatorEvent)[0] != event_tag(EventKind::InitUserVolumeAccumulatorEvent)[0]);
        },
        EventKind::SetMetaplexCoinCreatorEvent => {
            assert(event_tag(EventKind::SetMetaplexCoinCreatorEvent)[0] != event_tag(EventKind::BuyEvent)[0]);
            assert(event_tag(EventKind::SetMetaplexCoinCreatorEvent)[0] != event_tag(EventKind::SellEvent)[0]);
            assert(event_tag(EventKind::SetMetaplexCoinCreatorEvent)[0] != event_tag(EventKind::CreatePoolEvent)[0]);
            assert(event_tag(EventKind::SetMetaplexCoinCreatorEvent)[0] != event_tag(EventKind::AdminSetCoinCreatorEvent)[0]);
            assert(event_tag(EventKind::SetMetaplexCoinCreatorEvent)[0] != event_tag(EventKind::AdminUpdateTokenIncentivesEvent)[0]);
            assert(event_tag(EventKind::SetMetaplexCoinCreatorEvent)[0] != event_tag(EventKind::ClaimTokenIncentivesEvent)[0]);
            assert(event_tag(EventKind::SetMetaplexCoinCreatorEvent)[0] != event_tag(EventKind::CloseUserVolumeAccumulatorEvent)[0]);
            assert(event_tag(EventKind::SetMetaplexCoinCreatorEvent)[0] != event_tag(EventKind::CollectCoinCreatorFeeEvent)[0]);
            assert(event_tag(EventKind::SetMetaplexCoinCreatorEvent)[0] != event_tag(EventKind::CreateConfigEvent)[0]);
            assert(event_tag(EventKind::SetMetaplexCoinCreatorEvent)[0] != event_tag(EventKind::DepositEvent)[0]);
            assert(event_tag(EventKind::SetMetaplexCoinCreatorEvent)[0] != event_tag(EventKind::DisableEvent)[0]);
            assert(event_tag(EventKind::SetMetaplexCoinCreatorEvent)[0] != event_tag(EventKind::ExtendAccountEvent)[0]);
            assert(event_tag(EventKind::SetMetaplexCoinCreatorEvent)[0] != event_tag(EventKind::InitUserVolumeAccumulatorEvent)[0]);
            assert(event_tag(EventKind::SetMetaplexCoinCreatorEvent)[0] != event_tag(EventKind::SetBondingCurveCoinCreatorEvent)[0]);
        },
        EventKind::SyncUserVolumeAccumulatorEvent => {
            assert(event_tag(EventKind::SyncUserVolumeAccumulatorEvent)[0] != event_tag(EventKind::BuyEvent)[0]);
            assert(event_tag(EventKind::SyncUserVolumeAccumulatorEvent)[0] != event_tag(EventKind::SellEvent)[0]);
            assert(event_tag(EventKind::SyncUserVolumeAccumulatorEvent)[0] != event_tag(EventKind::CreatePoolEvent)[0]);
            assert(event_tag(EventKind::SyncUserVolumeAccumulatorEvent)[0] != event_tag(EventKind::AdminSetCoinCreatorEvent)[0]);
            assert(event_tag(EventKind::SyncUserVolumeAccumulatorEvent)[0] != event_tag(EventKind::AdminUpdateTokenIncentivesEvent)[0]);
            assert(event_tag(EventKind::SyncUserVolumeAccumulatorEvent)[0] != event_tag(EventKind::ClaimTokenIncentivesEvent)[0]);
            assert(event_tag(EventKind::SyncUserVolumeAccumulatorEvent)[0] != event_tag(EventKind::CloseUserVolumeAccumulatorEvent)[0]);
            assert(event_tag(EventKind::SyncUserVolumeAccumulatorEvent)[0] != event_tag(EventKind::CollectCoinCreatorFeeEvent)[0]);
            assert(event_tag(EventKind::SyncUserVolumeAccumulatorEvent)[0] != event_tag(EventKind::CreateConfigEvent)[0]);
            assert(event_tag(EventKind::SyncUserVolumeAccumulatorEvent)[0] != event_tag(EventKind::DepositEvent)[0]);
            assert(event_tag(EventKind::SyncUserVolumeAccumulatorEvent)[0] != event_tag(EventKind::DisableEvent)[0]);
            assert(event_tag(EventKind::SyncUserVolumeAccumulatorEvent)[0] != event_tag(EventKind::ExtendAccountEvent)[0]);
            assert(event_tag(EventKind::SyncUserVolumeAccumulatorEvent)[0] != event_tag(EventKind::InitUserVolumeAccumulatorEvent)[0]);
            assert(event_tag(EventKind::SyncUserVolumeAccumulatorEvent)[0] != event_tag(EventKind::SetBondingCurveCoinCreatorEvent)[0]);
            assert(event_tag(EventKind::SyncUserVolumeAccumulatorEvent)[0] != event_tag(EventKind::SetMetaplexCoinCreatorEvent)[0]);
        },
        EventKind::UpdateAdminEvent => {
            assert(event_tag(EventKind::UpdateAdminEvent)[0] != event_tag(EventKind::BuyEvent)[0]);
            assert(event_tag(EventKind::UpdateAdminEvent)[0] != event_tag(EventKind::SellEvent)[0]);
            assert(event_tag(EventKind::UpdateAdminEvent)[0] != event_tag(EventKind::CreatePoolEvent)[0]);
            assert(event_tag(EventKind::UpdateAdminEvent)[0] != event_tag(EventKind::AdminSetCoinCreatorEvent)[0]);
            assert(event_tag(EventKind::UpdateAdminEvent)[0] != event_tag(EventKind::AdminUpdateTokenIncentivesEvent)[0]);
            assert(event_tag(EventKind::UpdateAdminEvent)[0] != event_tag(EventKind::ClaimTokenIncentivesEvent)[0]);
            assert(event_tag(EventKind::UpdateAdminEvent)[0] != event_tag(EventKind::CloseUserVolumeAccumulatorEvent)[0]);
            assert(event_tag(EventKind::UpdateAdminEvent)[0] != event_tag(EventKind::CollectCoinCreatorFeeEvent)[0]);
            assert(event_tag(EventKind::UpdateAdminEvent)[0] != event_tag(EventKind::CreateConfigEvent)[0]);
            assert(event_tag(EventKind::UpdateAdminEvent)[0] != event_tag(EventKind::DepositEvent)[0]);
            assert(event_tag(EventKind::UpdateAdminEvent)[0] != event_tag(EventKind::DisableEvent)[0]);
            assert(event_tag(EventKind::UpdateAdminEvent)[0] != event_tag(EventKind::ExtendAccountEvent)[0]);
            assert(event_tag(EventKind::UpdateAdminEvent)[0] != event_tag(EventKind::InitUserVolumeAccumulatorEvent)[0]);
            assert(event_tag(EventKind::UpdateAdminEvent)[0] != event_tag(EventKind::SetBondingCurveCoinCreatorEvent)[0]);
            assert(event_tag(EventKind::UpdateAdminEvent)[0] != event_tag(EventKind::SetMetaplexCoinCreatorEvent)[0]);
            assert(event_tag(EventKind::UpdateAdminEvent)[0] != event_tag(EventKind::SyncUserVolumeAccumulatorEvent)[0]);
        },
        EventKind::UpdateFeeConfigEvent => {
            assert(event_tag(EventKind::UpdateFeeConfigEvent)[0] != event_tag(EventKind::BuyEvent)[0]);
            assert(event_tag(EventKind::UpdateFeeConfigEvent)[0] != event_tag(EventKind::SellEvent)[0]);
            assert(event_tag(EventKind::UpdateFeeConfigEvent)[0] != event_tag(EventKind::CreatePoolEvent)[0]);
            assert(event_tag(EventKind::UpdateFeeConfigEvent)[0] != event_tag(EventKind::AdminSetCoinCreatorEvent)[0]);
            assert(event_tag(EventKind::UpdateFeeConfigEvent)[0] != event_tag(EventKind::AdminUpdateTokenIncentivesEvent)[0]);
            assert(event_tag(EventKind::UpdateFeeConfigEvent)[0] != event_tag(EventKind::ClaimTokenIncentivesEvent)[0]);
            assert(event_tag(EventKind::UpdateFeeConfigEvent)[0] != event_tag(EventKind::CloseUserVolumeAccumulatorEvent)[0]);
            assert(event_tag(EventKind::UpdateFeeConfigEvent)[0] != event_tag(EventKind::CollectCoinCreatorFeeEvent)[0]);
            assert(event_tag(EventKind::UpdateFeeConfigEvent)[0] != event_tag(EventKind::CreateConfigEvent)[0]);
            assert(event_tag(EventKind::UpdateFeeConfigEvent)[0] != event_tag(EventKind::DepositEvent)[0]);
            assert(event_tag(EventKind::UpdateFeeConfigEvent)[0] != event_tag(EventKind::DisableEvent)[0]);
            assert(event_tag(EventKind::UpdateFeeConfigEvent)[0] != event_tag(EventKind::ExtendAccountEvent)[0]);
            assert(event_tag(EventKind::UpdateFeeConfigEvent)[0] != event_tag(EventKind::InitUserVolumeAccumulatorEvent)[0]);
            assert(event_tag(EventKind::UpdateFeeConfigEvent)[0] != event_tag(EventKind::SetBondingCurveCoinCreatorEvent)[0]);
            assert(event_tag(EventKind::UpdateFeeConfigEvent)[0] != event_tag(EventKind::SetMetaplexCoinCreatorEvent)[0]);
            assert(event_tag(EventKind::UpdateFeeConfigEvent)[0] != event_tag(EventKind::SyncUserVolumeAccumulatorEvent)[0]);
            assert(event_tag(EventKind::UpdateFeeConfigEvent)[0] != event_tag(EventKind::UpdateAdminEvent)[0]);
        },
        EventKind::WithdrawEvent => {
            assert(event_tag(EventKind::WithdrawEvent)[0] != event_tag(EventKind::BuyEvent)[0]);
            assert(event_tag(EventKind::WithdrawEvent)[0] != event_tag(EventKind::SellEvent)[0]);
            assert(event_tag(EventKind::WithdrawEvent)[0] != event_tag(EventKind::CreatePoolEvent)[0]);
            assert(event_tag(EventKind::WithdrawEvent)[0] != event_tag(EventKind::AdminSetCoinCreatorEvent)[0]);
            assert(event_tag(EventKind::WithdrawEvent)[0] != event_tag(EventKind::AdminUpdateTokenIncentivesEvent)[0]);
            assert(event_tag(EventKind::WithdrawEvent)[0] != event_tag(EventKind::ClaimTokenIncentivesEvent)[0]);
            assert(event_tag(EventKind::WithdrawEvent)[0] != event_tag(EventKind::CloseUserVolumeAccumulatorEvent)[0]);
            assert(event_tag(EventKind::WithdrawEvent)[0] != event_tag(EventKind::CollectCoinCreatorFeeEvent)[0]);
            assert(event_tag(EventKind::WithdrawEvent)[0] != event_tag(EventKind::CreateConfigEvent)[0]);
            assert(event_tag(EventKind::WithdrawEvent)[0] != event_tag(EventKind::DepositEvent)[0]);
            assert(event_tag(EventKind::WithdrawEvent)[0] != event_tag(EventKind::DisableEvent)[0]);
            assert(event_tag(EventKind::WithdrawEvent)[0] != event_tag(EventKind::ExtendAccountEvent)[0]);
            assert(event_tag(EventKind::WithdrawEvent)[0] != event_tag(EventKind::InitUserVolumeAccumulatorEvent)[0]);
            assert(event_tag(EventKind::WithdrawEvent)[0] != event_tag(EventKind::SetBondingCurveCoinCreatorEvent)[0]);
            assert(event_tag(EventKind::WithdrawEvent)[0] != event_tag(EventKind::SetMetaplexCoinCreatorEvent)[0]);
            assert(event_tag(EventKind::WithdrawEvent)[0] != event_tag(EventKind::SyncUserVolumeAccumulatorEvent)[0]);
            assert(event_tag(EventKind::WithdrawEvent)[0] != event_tag(EventKind::UpdateAdminEvent)[0]);
            assert(event_tag(EventKind::WithdrawEvent)[0] != event_tag(EventKind::UpdateFeeConfigEvent)[0]);
        },
    }
}

/// No command discriminator coincides with the event marker, so a payload that
/// opens with a command key can never be mistaken for an event.
pub proof fn lemma_command_key_not_marker(k: CommandKind)
    ensures
        command_key(k) != event_marker(),
{
    match k {
        CommandKind::Buy => {
            assert(command_key(CommandKind::Buy)[0] != event_marker()[0]);
        },
        CommandKind::Sell => {
            assert(command_key(CommandKind::Sell)[0] != event_marker()[0]);
        },
        CommandKind::CreatePool => {
            assert(command_key(CommandKind::CreatePool)[0] != event_marker()[0]);
        },
        CommandKind::AdminSetCoinCreator => {
            assert(command_key(CommandKind::AdminSetCoinCreator)[0] != event_marker()[0]);
        },
        CommandKind::AdminUpdateTokenIncentives => {
            assert(command_key(CommandKind::AdminUpdateTokenIncentives)[0] != event_marker()[0]);
        },
        CommandKind::BuyExactQuoteIn => {
            assert(command_key(CommandKind::BuyExactQuoteIn)[0] != event_marker()[0]);
        },
        CommandKind::ClaimTokenIncentives => {
            assert(command_key(CommandKind::ClaimTokenIncentives)[0] != event_marker()[0]);
        },
        CommandKind::CloseUserVolumeAccumulator => {
            assert(command_key(CommandKind::CloseUserVolumeAccumulator)[0] != event_marker()[0]);
        },
        CommandKind::CollectCoinCreatorFee => {
            assert(command_key(CommandKind::CollectCoinCreatorFee)[0] != event_marker()[0]);
        },
        CommandKind::CreateConfig => {
            assert(command_key(CommandKind::CreateConfig)[0] != event_marker()[0]);
        },
        CommandKind::Deposit => {
            assert(command_key(CommandKind::Deposit)[0] != event_marker()[0]);
        },
        CommandKind::Disable => {
            assert(command_key(CommandKind::Disable)[0] != event_marker()[0]);
        },
        CommandKind::ExtendAccount => {
            assert(command_key(CommandKind::ExtendAccount)[0] != event_marker()[0]);
        },
        CommandKind::InitUserVolumeAccumulator => {
            assert(command_key(CommandKind::InitUserVolumeAccumulator)[0] != event_marker()[0]);
        },
        CommandKind::SetCoinCreator => {
            assert(command_key(CommandKind::SetCoinCreator)[0] != event_marker()[0]);
        },
        CommandKind::SyncUserVolumeAccumulator => {
            assert(command_key(CommandKind::SyncUserVolumeAccumulator)[0] != event_marker()[0]);
        },
        CommandKind::UpdateAdmin => {
            assert(command_key(CommandKind::UpdateAdmin)[0] != event_marker()[0]);
        },
        CommandKind::UpdateFeeConfig => {
            assert(command_key(CommandKind::UpdateFeeConfig)[0] != event_marker()[0]);
        },
        CommandKind::Withdraw => {
            assert(command_key(CommandKind::Withdraw)[0] != event_marker()[0]);
        },
    }
}

/// The event marker itself is not a live command discriminator: a payload whose
/// first eight bytes are the marker matches nothing in the command keyspace.
pub proof fn lemma_marker_is_no_command_key()
    ensures
        command_of(event_marker()) is None,
{
    assert(event_marker()[0] != command_key(CommandKind::Buy)[0]);
    assert(event_marker()[0] != command_key(CommandKind::Sell)[0]);
    assert(event_marker()[0] != command_key(CommandKind::CreatePool)[0]);
    assert(event_marker()[0] != command_key(CommandKind::AdminSetCoinCreator)[0]);
    assert(event_marker()[0] != command_key(CommandKind::AdminUpdateTokenIncentives)[0]);
    assert(event_marker()[0] != command_key(CommandKind::BuyExactQuoteIn)[0]);
    assert(event_marker()[0] != command_key(CommandKind::ClaimTokenIncentives)[0]);
    assert(event_marker()[0] != command_key(CommandKind::CloseUserVolumeAccumulator)[0]);
    assert(event_marker()[0] != command_key(CommandKind::CollectCoinCreatorFee)[0]);
    assert(event_marker()[0] != command_key(CommandKind::CreateConfig)[0]);
    assert(event_marker()[0] != command_key(CommandKind::Deposit)[0]);
    assert(event_marker()[0] != command_key(CommandKind::Disable)[0]);
    assert(event_marker()[0] != command_key(CommandKind::ExtendAccount)[0]);
    assert(event_marker()[0] != command_key(CommandKind::InitUserVolumeAccumulator)[0]);
    assert(event_marker()[0] != command_key(CommandKind::SetCoinCreator)[0]);
    assert(event_marker()[0] != command_key(CommandKind::SyncUserVolumeAccumulator)[0]);
    assert(event_marker()[0] != command_key(CommandKind::UpdateAdmin)[0]);
    assert(event_marker()[0] != command_key(CommandKind::UpdateFeeConfig)[0]);
    assert(event_marker()[0] != command_key(CommandKind::Withdraw)[0]);
}

} // verus!
