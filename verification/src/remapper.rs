use vstd::prelude::*;

verus! {

use crate::fx::FxCommands;
use crate::fx::spec_find_indices;
use crate::fx::strs_views;

/// Renumbering table for instruments: `mapping[old] == new`, together
/// with the set of FX command ids whose operand names an instrument
/// and therefore tracks the renumbering. A mapping entry of 0xFF is
/// the drop sentinel; the remapper writes it through unchanged, which
/// turns the reference into the empty sentinel.
pub struct InstrumentMapping {
    pub mapping: Vec<u8>,
    pub instrument_tracking_commands: Vec<u8>,
}

/// Renumbering table for tables, with the FX command ids that track
/// table numbers.
pub struct TableMapping {
    pub mapping: Vec<u8>,
    pub table_tracking_commands: Vec<u8>,
}

/// Renumbering table for EQs, with the FX command ids that track EQ
/// numbers.
pub struct EqMapping {
    pub mapping: Vec<u8>,
    pub eq_tracking_commands: Vec<u8>,
}

/// A renumbering table is the identity: every entry maps to itself.
pub open spec fn spec_is_identity(m: Seq<u8>) -> bool {
    forall|i: int| 0 <= i < m.len() ==> #[trigger] m[i] == i
}

/// The mnemonics whose operand names an instrument: the instrument
/// mixer sends of every revision, and the instrument select command.
pub open spec fn spec_instrument_tracking_names() -> Seq<Seq<char>> {
    seq![
        seq!['I', 'V', 'O'],
        seq!['I', 'C', 'H'],
        seq!['I', 'D', 'E'],
        seq!['I', 'R', 'E'],
        seq!['I', 'V', '2'],
        seq!['I', 'C', '2'],
        seq!['I', 'D', '2'],
        seq!['I', 'R', '2'],
        seq!['V', 'I', 'N'],
        seq!['V', 'I', '2'],
        seq!['I', 'N', 'S'],
    ]
}

/// The mnemonics whose operand names a table.
pub open spec fn spec_table_tracking_names() -> Seq<Seq<char>> {
    seq![seq!['T', 'B', 'L'], seq!['T', 'B', 'X']]
}

/// The mnemonics whose operand names an EQ.
pub open spec fn spec_eq_tracking_names() -> Seq<Seq<char>> {
    seq![seq!['E', 'Q', 'M'], seq!['E', 'Q', 'I']]
}

impl InstrumentMapping {
    /// Build an instrument renumbering: the tracking set is resolved
    /// from the version's command table.
    pub fn new(mapping: Vec<u8>, commands: &FxCommands) -> (r: InstrumentMapping)
        requires
            commands.commands@.len() <= 256,
        ensures
            r.mapping == mapping,
            r.instrument_tracking_commands@ == spec_find_indices(
                commands.commands@,
                spec_instrument_tracking_names(),
                0,
            ),
    {
        let names: [&str; 11] = [
            "IVO",
            "ICH",
            "IDE",
            "IRE",
            "IV2",
            "IC2",
            "ID2",
            "IR2",
            "VIN",
            "VI2",
            "INS",
        ];
        let tracking = commands.find_indices(&names);
        proof {
            reveal_strlit("IVO");
            reveal_strlit("ICH");
            reveal_strlit("IDE");
            reveal_strlit("IRE");
            reveal_strlit("IV2");
            reveal_strlit("IC2");
            reveal_strlit("ID2");
            reveal_strlit("IR2");
            reveal_strlit("VIN");
            reveal_strlit("VI2");
            reveal_strlit("INS");
            broadcast use vstd::array::group_array_axioms;

            assert forall|i: int| 0 <= i < 11 implies #[trigger] strs_views(names@)[i]
                == spec_instrument_tracking_names()[i] by {
                assert(strs_views(names@)[i] == names@[i]@);
                assert(names@[i]@ =~= spec_instrument_tracking_names()[i]);
            }
            assert(strs_views(names@) =~= spec_instrument_tracking_names());
        }
        InstrumentMapping { mapping, instrument_tracking_commands: tracking }
    }
}

impl TableMapping {
    /// Build a table renumbering: the tracking set is resolved from
    /// the version's command table.
    pub fn new(mapping: Vec<u8>, commands: &FxCommands) -> (r: TableMapping)
        requires
            commands.commands@.len() <= 256,
        ensures
            r.mapping == mapping,
            r.table_tracking_commands@ == spec_find_indices(
                commands.commands@,
                spec_table_tracking_names(),
                0,
            ),
    {
        let names: [&str; 2] = ["TBL", "TBX"];
        let tracking = commands.find_indices(&names);
        proof {
            reveal_strlit("TBL");
            reveal_strlit("TBX");
            broadcast use vstd::array::group_array_axioms;

            assert forall|i: int| 0 <= i < 2 implies #[trigger] strs_views(names@)[i]
                == spec_table_tracking_names()[i] by {
                assert(strs_views(names@)[i] == names@[i]@);
                assert(names@[i]@ =~= spec_table_tracking_names()[i]);
            }
            assert(strs_views(names@) =~= spec_table_tracking_names());
        }
        TableMapping { mapping, table_tracking_commands: tracking }
    }
}

impl EqMapping {
    /// Build an EQ renumbering: the tracking set is resolved from the
    /// version's command table.
    pub fn new(mapping: Vec<u8>, commands: &FxCommands) -> (r: EqMapping)
        requires
            commands.commands@.len() <= 256,
        ensures
            r.mapping == mapping,
            r.eq_tracking_commands@ == spec_find_indices(
                commands.commands@,
                spec_eq_tracking_names(),
                0,
            ),
    {
        let names: [&str; 2] = ["EQM", "EQI"];
        let tracking = commands.find_indices(&names);
        proof {
            reveal_strlit("EQM");
            reveal_strlit("EQI");
            broadcast use vstd::array::group_array_axioms;

            assert forall|i: int| 0 <= i < 2 implies #[trigger] strs_views(names@)[i]
                == spec_eq_tracking_names()[i] by {
                assert(strs_views(names@)[i] == names@[i]@);
                assert(names@[i]@ =~= spec_eq_tracking_names()[i]);
            }
            assert(strs_views(names@) =~= spec_eq_tracking_names());
        }
        EqMapping { mapping, eq_tracking_commands: tracking }
    }
}

} // verus!
