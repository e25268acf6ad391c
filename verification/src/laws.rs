use vstd::prelude::*;
use vstd::bytes::spec_u64_from_le_bytes;
use crate::decoder::{
    command_result, event_result, spec_command_stage, spec_decode, spec_event_stage, spec_lookup,
    spec_normalize,
};
use crate::instructions::{Buy, InstructionView};
use crate::keys::{
    CommandKind, EventKind, TableMode, command_in_table, command_key, event_in_table, event_marker,
    event_tag, lemma_command_key_not_marker, lemma_command_of_key, lemma_event_of_tag,
    lemma_marker_is_no_command_key, target_program_id,
};

verus! {

/// A payload that opens with a command's discriminator is dispatched to exactly
/// that command's codec whenever the table in use has an entry for it, and is
/// declined otherwise. In particular the event stage never captures it, since
/// no command key coincides with the event marker.
pub proof fn lemma_command_key_dispatch(k: CommandKind, data: Seq<u8>, mode: TableMode)
    requires
        data.len() >= 8,
        data.subrange(0, 8) == command_key(k),
    ensures
        spec_lookup(data, mode) == (if command_in_table(k, mode) {
            command_result(k, data)
        } else {
            None::<InstructionView>
        }),
{
    lemma_command_key_not_marker(k);
    assert(spec_event_stage(data, mode) is None);
    lemma_command_of_key(k);
}

/// A payload that opens with the event marker followed by a known event tag is
/// dispatched to exactly that event's codec whenever the table in use has an
/// entry for it, and is declined otherwise. The command keyspace is never
/// consulted for it: the lookup result does not depend on any command entry,
/// and the marker itself matches no command key.
pub proof fn lemma_event_key_dispatch(k: EventKind, data: Seq<u8>, mode: TableMode)
    requires
        data.len() >= 16,
        data.subrange(0, 8) == event_marker(),
        data.subrange(8, 16) == event_tag(k),
    ensures
        event_in_table(k, mode) ==> spec_lookup(data, mode) == event_result(k, data),
        !event_in_table(k, mode) ==> spec_lookup(data, mode) is None,
{
    lemma_event_of_tag(k);
    if !event_in_table(k, mode) {
        lemma_marker_is_no_command_key();
        assert(spec_command_stage(data, mode) is None);
    }
}

/// A payload shorter than eight bytes cannot hold any discriminator and is
/// always declined, whatever the program identifier and the table in use.
pub proof fn lemma_short_payload_declined(program_id: Seq<u8>, data: Seq<u8>, mode: TableMode)
    requires
        data.len() < 8,
    ensures
        spec_decode(program_id, data, mode) is None,
{
    assert(spec_normalize(data) == data);
}

/// An instruction of any program other than the target is always declined,
/// whatever its payload holds.
pub proof fn lemma_foreign_program_declined(program_id: Seq<u8>, data: Seq<u8>, mode: TableMode)
    requires
        program_id != target_program_id(),
    ensures
        spec_decode(program_id, data, mode) is None,
{
}

/// The legacy Buy round trip: a 24-byte legacy Buy payload and a canonical
/// 25-byte Buy payload that agree on their first 24 bytes decode to the same
/// variant with the same quantities; the legacy result's flag is the default
/// zero, the canonical result's flag is its own trailing byte.
pub proof fn lemma_legacy_buy_round_trip(
    legacy: Seq<u8>,
    canonical: Seq<u8>,
    mode: TableMode,
)
    requires
        legacy.len() == 24,
        canonical.len() == 25,
        canonical.subrange(0, 24) == legacy,
        legacy.subrange(0, 8) == command_key(CommandKind::Buy),
    ensures
        spec_lookup(spec_normalize(legacy), mode) == Some(
            InstructionView::Buy(
                Buy {
                    amount: spec_u64_from_le_bytes(legacy.subrange(8, 16)),
                    max_quote: spec_u64_from_le_bytes(legacy.subrange(16, 24)),
                    flag: 0,
                },
            ),
        ),
        spec_lookup(spec_normalize(canonical), mode) == Some(
            InstructionView::Buy(
                Buy {
                    amount: spec_u64_from_le_bytes(legacy.subrange(8, 16)),
                    max_quote: spec_u64_from_le_bytes(legacy.subrange(16, 24)),
                    flag: canonical[24],
                },
            ),
        ),
{
    let n = legacy.push(0u8);
    assert(spec_normalize(legacy) == n);
    assert(n.subrange(0, 8) =~= legacy.subrange(0, 8));
    assert(n.subrange(8, 16) =~= legacy.subrange(8, 16));
    assert(n.subrange(16, 24) =~= legacy.subrange(16, 24));
    assert(n[24] == 0);
    lemma_command_key_dispatch(CommandKind::Buy, n, mode);

    assert(canonical.subrange(0, 8) =~= canonical.subrange(0, 24).subrange(0, 8));
    assert(canonical.subrange(8, 16) =~= canonical.subrange(0, 24).subrange(8, 16));
    assert(canonical.subrange(16, 24) =~= canonical.subrange(0, 24).subrange(16, 24));
    assert(spec_normalize(canonical) == canonical);
    lemma_command_key_dispatch(CommandKind::Buy, canonical, mode);
}


} // verus!
