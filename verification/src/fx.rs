use vstd::prelude::*;

verus! {

use crate::reader::M8Result;
use crate::reader::Reader;
use crate::reader::Writer;
use crate::remapper::EqMapping;
use crate::remapper::InstrumentMapping;
use crate::remapper::TableMapping;
use crate::version::Version;
use vstd::seq_lib::assert_seqs_equal;
use vstd::utf8::encode_utf8;

/// One FX cell of a phrase row or table row: a command id and an
/// operand byte. A command id of 0xFF marks the empty cell.
#[derive(PartialEq, Eq, Structural, Debug, Clone, Copy)]
pub struct FX {
    pub command: u8,
    pub value: u8,
}

/// The two bytes an FX cell encodes to.
pub open spec fn spec_fx_encode(f: FX) -> Seq<u8> {
    seq![f.command, f.value]
}

/// The FX cell a two-byte window decodes to.
pub open spec fn spec_fx_decode(b: Seq<u8>) -> FX {
    FX { command: b[0], value: b[1] }
}

/// Rewriting one FX cell under renumbering: when the command tracks
/// instruments, tables or EQs (in that priority order) and the operand
/// is inside the mapping table, the operand is replaced by its mapped
/// value; any other cell is untouched. A mapped value of 0xFF is kept
/// as written, turning the operand into the empty sentinel.
pub open spec fn spec_map_instr(f: FX, im: InstrumentMapping, tm: TableMapping, em: EqMapping) -> FX {
    if im.instrument_tracking_commands@.contains(f.command) && f.value < im.mapping@.len() {
        FX { command: f.command, value: im.mapping@[f.value as int] }
    } else if tm.table_tracking_commands@.contains(f.command) && f.value < tm.mapping@.len() {
        FX { command: f.command, value: tm.mapping@[f.value as int] }
    } else if em.eq_tracking_commands@.contains(f.command) && f.value < em.mapping@.len() {
        FX { command: f.command, value: em.mapping@[f.value as int] }
    } else {
        f
    }
}

impl Default for FX {
    /// The empty FX cell.
    fn default() -> (r: Self)
        ensures
            r == (FX { command: 0xFFu8, value: 0u8 }),
    {
        Self { command: 0xFF, value: 0 }
    }
}

impl FX {
    /// Decode the two-byte cell.
    pub fn from_reader(reader: &mut Reader) -> (r: M8Result<FX>)
        requires
            old(reader).position + 2 <= old(reader).buffer@.len(),
        ensures
            final(reader).buffer == old(reader).buffer,
            final(reader).position == old(reader).position + 2,
            r matches Ok(f) && f == spec_fx_decode(
                old(reader).buffer@.subrange(old(reader).position as int, old(reader).position + 2),
            ),
    {
        Ok(Self { command: reader.read(), value: reader.read() })
    }

    /// Encode the two-byte cell.
    pub fn write(self, w: &mut Writer)
        ensures
            final(w).buffer@ == old(w).buffer@ + spec_fx_encode(self),
    {
        w.write(self.command);
        w.write(self.value);
        assert(final(w).buffer@ =~= old(w).buffer@ + spec_fx_encode(self));
    }

    /// An FX cell is empty iff its command id is 0xFF.
    pub fn is_empty(self) -> (r: bool)
        ensures
            r == (self.command == 0xFF),
    {
        self.command == 0xFF
    }

    /// Rewrite this cell under instrument, table and EQ renumbering.
    pub fn map_instr(
        self,
        instrument_mapping: &InstrumentMapping,
        table_mapping: &TableMapping,
        eq_mapping: &EqMapping,
    ) -> (r: FX)
        ensures
            r == spec_map_instr(self, *instrument_mapping, *table_mapping, *eq_mapping),
    {
        let uval: usize = self.value as usize;

        if contains_u8(&instrument_mapping.instrument_tracking_commands, self.command) && uval
            < instrument_mapping.mapping.len() {
            Self { command: self.command, value: instrument_mapping.mapping[uval] }
        } else if contains_u8(&table_mapping.table_tracking_commands, self.command) && uval
            < table_mapping.mapping.len() {
            Self { command: self.command, value: table_mapping.mapping[uval] }
        } else if contains_u8(&eq_mapping.eq_tracking_commands, self.command) && uval
            < eq_mapping.mapping.len() {
            Self { command: self.command, value: eq_mapping.mapping[uval] }
        } else {
            self
        }
    }

    /// The command table of a version: 23 + 36 entries before 3.0,
    /// 27 + 36 entries for 3.x, 27 + 45 entries from 4.0 on.
    pub fn fx_command_names(ver: Version) -> (r: FxCommands)
        ensures
            ver.spec_at_least(4, 0) ==> r.commands.deep_view() == spec_commands_v4()
                && r.commands@.len() == 72,
            !ver.spec_at_least(4, 0) && ver.spec_at_least(3, 0) ==> r.commands.deep_view()
                == spec_commands_v3() && r.commands@.len() == 63,
            !ver.spec_at_least(3, 0) ==> r.commands.deep_view() == spec_commands_v2()
                && r.commands@.len() == 59,
    {
        if ver.at_least(4, 0) {
            let mut c = seq_commands_v3();
            let ghost av: Seq<&'static str> = c@;
            let mut tail = fx_mixer_commands_v4();
            let ghost bv: Seq<&'static str> = tail@;
            c.append(&mut tail);
            proof {
                assert(Seq::new(av.len(), |i: int| av[i].deep_view()) == spec_seq_commands_v3());
                assert(Seq::new(bv.len(), |i: int| bv[i].deep_view()) == spec_fx_mixer_commands_v4());
                lemma_table_concat(av, bv, spec_seq_commands_v3(), spec_fx_mixer_commands_v4());
                assert(c.deep_view() =~= spec_commands_v4());
            }
            FxCommands { commands: c }
        } else if ver.at_least(3, 0) {
            let mut c = seq_commands_v3();
            let ghost av: Seq<&'static str> = c@;
            let mut tail = fx_mixer_commands_v2();
            let ghost bv: Seq<&'static str> = tail@;
            c.append(&mut tail);
            proof {
                assert(Seq::new(av.len(), |i: int| av[i].deep_view()) == spec_seq_commands_v3());
                assert(Seq::new(bv.len(), |i: int| bv[i].deep_view()) == spec_fx_mixer_commands_v2());
                lemma_table_concat(av, bv, spec_seq_commands_v3(), spec_fx_mixer_commands_v2());
                assert(c.deep_view() =~= spec_commands_v3());
            }
            FxCommands { commands: c }
        } else {
            let mut c = seq_commands_v2();
            let ghost av: Seq<&'static str> = c@;
            let mut tail = fx_mixer_commands_v2();
            let ghost bv: Seq<&'static str> = tail@;
            c.append(&mut tail);
            proof {
                assert(Seq::new(av.len(), |i: int| av[i].deep_view()) == spec_seq_commands_v2());
                assert(Seq::new(bv.len(), |i: int| bv[i].deep_view()) == spec_fx_mixer_commands_v2());
                lemma_table_concat(av, bv, spec_seq_commands_v2(), spec_fx_mixer_commands_v2());
                assert(c.deep_view() =~= spec_commands_v2());
            }
            FxCommands { commands: c }
        }
    }
}

/// Empty-cell round trip: encoding a cell whose command id is 0xFF
/// yields two bytes whose first is 0xFF, and decoding that pair gives
/// an empty cell again. In fact every FX cell decodes back from its
/// own two bytes.
pub proof fn lemma_fx_empty_cell(f: FX)
    requires
        f.command == 0xFF,
    ensures
        spec_fx_encode(f)[0] == 0xFF,
        spec_fx_decode(spec_fx_encode(f)).command == 0xFF,
        spec_fx_decode(spec_fx_encode(f)) == f,
{
}

/// Every FX cell decodes back from its own two bytes.
pub proof fn lemma_fx_round_trip(f: FX)
    ensures
        spec_fx_decode(spec_fx_encode(f)) == f,
{
}

/// Two command blocks concatenate under deep view.
proof fn lemma_table_concat(av: Seq<&str>, bv: Seq<&str>, sa: Seq<Seq<char>>, sb: Seq<Seq<char>>)
    requires
        Seq::new(av.len(), |i: int| av[i].deep_view()) == sa,
        Seq::new(bv.len(), |i: int| bv[i].deep_view()) == sb,
    ensures
        Seq::new((av + bv).len(), |i: int| (av + bv)[i].deep_view()) == sa + sb,
{
    let cv = av + bv;
    assert forall|i: int| 0 <= i < cv.len() implies cv[i].deep_view() == (sa + sb)[i] by {
        if i < av.len() {
            assert(av[i].deep_view() == Seq::new(av.len(), |j: int| av[j].deep_view())[i]);
        } else {
            assert(bv[i - av.len()].deep_view() == Seq::new(
                bv.len(),
                |j: int| bv[j].deep_view(),
            )[i - av.len()]);
        }
    }
    assert(Seq::new(cv.len(), |i: int| cv[i].deep_view()) =~= sa + sb);
}

/// The command mnemonic table of one format revision; a command id is
/// an index into it.
pub struct FxCommands {
    pub commands: Vec<&'static str>,
}

/// The texts of a list of string references.
pub open spec fn strs_views(list: Seq<&str>) -> Seq<Seq<char>> {
    Seq::new(list.len(), |i: int| list[i]@)
}

/// The ids (in increasing order, one per table entry) of the commands
/// from position `i` on whose mnemonic occurs in `find`.
pub open spec fn spec_find_indices(cmds: Seq<&str>, find: Seq<Seq<char>>, i: int) -> Seq<u8>
    decreases cmds.len() - i when 0 <= i <= cmds.len()
{
    if i >= cmds.len() {
        Seq::<u8>::empty()
    } else {
        (if find.contains(cmds[i]@) {
            seq![i as u8]
        } else {
            Seq::<u8>::empty()
        }) + spec_find_indices(cmds, find, i + 1)
    }
}

impl FxCommands {
    /// Resolve mnemonics to command ids: the ids of all table entries
    /// whose mnemonic occurs in `to_find`, in increasing order.
    pub fn find_indices(&self, to_find: &[&str]) -> (r: Vec<u8>)
        requires
            self.commands@.len() <= 256,
        ensures
            r@ == spec_find_indices(self.commands@, strs_views(to_find@), 0),
    {
        let mut out: Vec<u8> = Vec::new();
        let n: usize = self.commands.len();
        let mut i: usize = 0;
        while i < n
            invariant
                i <= n,
                n == self.commands@.len(),
                n <= 256,
                out@ + spec_find_indices(self.commands@, strs_views(to_find@), i as int)
                    == spec_find_indices(self.commands@, strs_views(to_find@), 0),
            decreases n - i,
        {
            let cmd: &str = self.commands[i];
            if str_slice_contains(to_find, cmd) {
                out.push(i as u8);
            }
            i = i + 1;
            assert(out@ + spec_find_indices(self.commands@, strs_views(to_find@), i as int)
                =~= spec_find_indices(self.commands@, strs_views(to_find@), 0));
        }
        out
    }

    /// The mnemonic of a command id, when the id is inside the table.
    pub fn try_render(&self, cmd: u8) -> (r: Option<&'static str>)
        ensures
            cmd < self.commands@.len() ==> r == Some(self.commands@[cmd as int]),
            cmd >= self.commands@.len() ==> r is None,
    {
        let c: usize = cmd as usize;
        if c < self.commands.len() {
            Some(self.commands[c])
        } else {
            None
        }
    }
}

/// Byte-wise string comparison; two strings are equal iff their UTF-8
/// bytes are.
pub fn str_eq(a: &str, b: &str) -> (r: bool)
    ensures
        r == (a@ == b@),
{
    broadcast use vstd::utf8::encode_utf8_decode_utf8;

    let ab: &[u8] = a.as_bytes();
    let bb: &[u8] = b.as_bytes();
    if ab.len() != bb.len() {
        return false;
    }
    let n: usize = ab.len();
    let mut i: usize = 0;
    while i < n
        invariant
            i <= n,
            n == ab@.len(),
            n == bb@.len(),
            ab@ == encode_utf8(a@),
            bb@ == encode_utf8(b@),
            forall|j: int| 0 <= j < i ==> ab@[j] == bb@[j],
        ensures
            n == ab@.len(),
            n == bb@.len(),
            i <= n,
            ab@ == encode_utf8(a@),
            bb@ == encode_utf8(b@),
            i < n ==> ab@[i as int] != bb@[i as int],
            i == n ==> forall|j: int| 0 <= j < n ==> ab@[j] == bb@[j],
        decreases n - i,
    {
        if ab[i] != bb[i] {
            break;
        }
        i = i + 1;
    }
    if i < n {
        return false;
    }
    proof {
        assert(encode_utf8(a@) =~= encode_utf8(b@));
        assert(vstd::utf8::decode_utf8(encode_utf8(a@)) == a@);
        assert(vstd::utf8::decode_utf8(encode_utf8(b@)) == b@);
    }
    true
}

/// Whether a list of strings holds one equal to `s`.
fn str_slice_contains(list: &[&str], s: &str) -> (r: bool)
    ensures
        r == strs_views(list@).contains(s@),
{
    let n: usize = list.len();
    let mut i: usize = 0;
    while i < n
        invariant
            i <= n,
            n == list@.len(),
            forall|j: int| 0 <= j < i ==> #[trigger] list@[j]@ != s@,
        decreases n - i,
    {
        if str_eq(list[i], s) {
            proof {
                assert(strs_views(list@)[i as int] == s@);
            }
            return true;
        }
        i = i + 1;
    }
    proof {
        if strs_views(list@).contains(s@) {
            let j = choose|j: int| 0 <= j < strs_views(list@).len() && strs_views(list@)[j] == s@;
            assert(list@[j]@ == s@);
        }
    }
    false
}

/// Whether a byte occurs in a list.
pub fn contains_u8(v: &Vec<u8>, x: u8) -> (r: bool)
    ensures
        r == v@.contains(x),
{
    let n: usize = v.len();
    let mut i: usize = 0;
    while i < n
        invariant
            i <= n,
            n == v@.len(),
            forall|j: int| 0 <= j < i ==> v@[j] != x,
        decreases n - i,
    {
        if v[i] == x {
            return true;
        }
        i = i + 1;
    }
    false
}

/// The 23 sequencer command mnemonics of revisions before 3.0.
pub open spec fn spec_seq_commands_v2() -> Seq<Seq<char>> {
    seq![
        seq!['A', 'R', 'P'],
        seq!['C', 'H', 'A'],
        seq!['D', 'E', 'L'],
        seq!['G', 'R', 'V'],
        seq!['H', 'O', 'P'],
        seq!['K', 'I', 'L'],
        seq!['R', 'A', 'N'],
        seq!['R', 'E', 'T'],
        seq!['R', 'E', 'P'],
        seq!['N', 'T', 'H'],
        seq!['P', 'S', 'L'],
        seq!['P', 'S', 'N'],
        seq!['P', 'V', 'B'],
        seq!['P', 'V', 'X'],
        seq!['S', 'C', 'A'],
        seq!['S', 'C', 'G'],
        seq!['S', 'E', 'D'],
        seq!['S', 'N', 'G'],
        seq!['T', 'B', 'L'],
        seq!['T', 'H', 'O'],
        seq!['T', 'I', 'C'],
        seq!['T', 'P', 'O'],
        seq!['T', 'S', 'P'],
    ]
}

/// The 36 FX and mixer command mnemonics of revisions before 4.0.
pub open spec fn spec_fx_mixer_commands_v2() -> Seq<Seq<char>> {
    seq![
        seq!['V', 'M', 'V'],
        seq!['X', 'C', 'M'],
        seq!['X', 'C', 'F'],
        seq!['X', 'C', 'W'],
        seq!['X', 'C', 'R'],
        seq!['X', 'D', 'T'],
        seq!['X', 'D', 'F'],
        seq!['X', 'D', 'W'],
        seq!['X', 'D', 'R'],
        seq!['X', 'R', 'S'],
        seq!['X', 'R', 'D'],
        seq!['X', 'R', 'M'],
        seq!['X', 'R', 'F'],
        seq!['X', 'R', 'W'],
        seq!['X', 'R', 'Z'],
        seq!['V', 'C', 'H'],
        seq!['V', 'C', 'D'],
        seq!['V', 'R', 'E'],
        seq!['V', 'T', '1'],
        seq!['V', 'T', '2'],
        seq!['V', 'T', '3'],
        seq!['V', 'T', '4'],
        seq!['V', 'T', '5'],
        seq!['V', 'T', '6'],
        seq!['V', 'T', '7'],
        seq!['V', 'T', '8'],
        seq!['D', 'J', 'F'],
        seq!['I', 'V', 'O'],
        seq!['I', 'C', 'H'],
        seq!['I', 'D', 'E'],
        seq!['I', 'R', 'E'],
        seq!['I', 'V', '2'],
        seq!['I', 'C', '2'],
        seq!['I', 'D', '2'],
        seq!['I', 'R', '2'],
        seq!['U', 'S', 'B'],
    ]
}

/// The 27 sequencer command mnemonics from revision 3.0 on.
pub open spec fn spec_seq_commands_v3() -> Seq<Seq<char>> {
    seq![
        seq!['A', 'R', 'P'],
        seq!['C', 'H', 'A'],
        seq!['D', 'E', 'L'],
        seq!['G', 'R', 'V'],
        seq!['H', 'O', 'P'],
        seq!['K', 'I', 'L'],
        seq!['R', 'N', 'D'],
        seq!['R', 'N', 'L'],
        seq!['R', 'E', 'T'],
        seq!['R', 'E', 'P'],
        seq!['R', 'M', 'X'],
        seq!['N', 'T', 'H'],
        seq!['P', 'S', 'L'],
        seq!['P', 'B', 'N'],
        seq!['P', 'V', 'B'],
        seq!['P', 'V', 'X'],
        seq!['S', 'C', 'A'],
        seq!['S', 'C', 'G'],
        seq!['S', 'E', 'D'],
        seq!['S', 'N', 'G'],
        seq!['T', 'B', 'L'],
        seq!['T', 'H', 'O'],
        seq!['T', 'I', 'C'],
        seq!['T', 'B', 'X'],
        seq!['T', 'P', 'O'],
        seq!['T', 'S', 'P'],
        seq!['O', 'F', 'F'],
    ]
}

/// The 45 FX and mixer command mnemonics from revision 4.0 on.
pub open spec fn spec_fx_mixer_commands_v4() -> Seq<Seq<char>> {
    seq![
        seq!['V', 'M', 'V'],
        seq!['X', 'C', 'M'],
        seq!['X', 'C', 'F'],
        seq!['X', 'C', 'W'],
        seq!['X', 'C', 'R'],
        seq!['X', 'D', 'T'],
        seq!['X', 'D', 'F'],
        seq!['X', 'D', 'W'],
        seq!['X', 'D', 'R'],
        seq!['X', 'R', 'S'],
        seq!['X', 'R', 'D'],
        seq!['X', 'R', 'M'],
        seq!['X', 'R', 'F'],
        seq!['X', 'R', 'W'],
        seq!['X', 'R', 'Z'],
        seq!['V', 'C', 'H'],
        seq!['V', 'D', 'E'],
        seq!['V', 'R', 'E'],
        seq!['V', 'T', '1'],
        seq!['V', 'T', '2'],
        seq!['V', 'T', '3'],
        seq!['V', 'T', '4'],
        seq!['V', 'T', '5'],
        seq!['V', 'T', '6'],
        seq!['V', 'T', '7'],
        seq!['V', 'T', '8'],
        seq!['D', 'J', 'C'],
        seq!['V', 'I', 'N'],
        seq!['I', 'C', 'H'],
        seq!['I', 'D', 'E'],
        seq!['I', 'R', 'E'],
        seq!['V', 'I', '2'],
        seq!['I', 'C', '2'],
        seq!['I', 'D', '2'],
        seq!['I', 'R', '2'],
        seq!['U', 'S', 'B'],
        seq!['D', 'J', 'R'],
        seq!['D', 'J', 'T'],
        seq!['E', 'Q', 'M'],
        seq!['E', 'Q', 'I'],
        seq!['I', 'N', 'S'],
        seq!['R', 'T', 'O'],
        seq!['A', 'R', 'C'],
        seq!['G', 'G', 'R'],
        seq!['N', 'X', 'T'],
    ]
}

/// The full command table of revisions before 3.0 (59 entries).
pub open spec fn spec_commands_v2() -> Seq<Seq<char>> {
    spec_seq_commands_v2() + spec_fx_mixer_commands_v2()
}

/// The full command table of revisions 3.x (63 entries).
pub open spec fn spec_commands_v3() -> Seq<Seq<char>> {
    spec_seq_commands_v3() + spec_fx_mixer_commands_v2()
}

/// The full command table from revision 4.0 on (72 entries).
pub open spec fn spec_commands_v4() -> Seq<Seq<char>> {
    spec_seq_commands_v3() + spec_fx_mixer_commands_v4()
}

/// Build the pre-3.0 sequencer command block.
fn seq_commands_v2() -> (r: Vec<&'static str>)
    ensures
        r.deep_view() == spec_seq_commands_v2(),
        r@.len() == 23,
{
    let mut r: Vec<&'static str> = Vec::new();
    r.push("ARP");
    r.push("CHA");
    r.push("DEL");
    r.push("GRV");
    r.push("HOP");
    r.push("KIL");
    r.push("RAN");
    r.push("RET");
    r.push("REP");
    r.push("NTH");
    r.push("PSL");
    r.push("PSN");
    r.push("PVB");
    r.push("PVX");
    r.push("SCA");
    r.push("SCG");
    r.push("SED");
    r.push("SNG");
    r.push("TBL");
    r.push("THO");
    r.push("TIC");
    r.push("TPO");
    r.push("TSP");
    proof {
        reveal_strlit("ARP");
        reveal_strlit("CHA");
        reveal_strlit("DEL");
        reveal_strlit("GRV");
        reveal_strlit("HOP");
        reveal_strlit("KIL");
        reveal_strlit("NTH");
        reveal_strlit("PSL");
        reveal_strlit("PSN");
        reveal_strlit("PVB");
        reveal_strlit("PVX");
        reveal_strlit("RAN");
        reveal_strlit("REP");
        reveal_strlit("RET");
        reveal_strlit("SCA");
        reveal_strlit("SCG");
        reveal_strlit("SED");
        reveal_strlit("SNG");
        reveal_strlit("TBL");
        reveal_strlit("THO");
        reveal_strlit("TIC");
        reveal_strlit("TPO");
        reveal_strlit("TSP");
        assert_seqs_equal!(r.deep_view(), spec_seq_commands_v2(), i => {
            assert(r.deep_view()[i] == r@[i]@);
            assert(r@[i]@ =~= spec_seq_commands_v2()[i]);
        });
    }
    r
}

/// Build the pre-4.0 FX and mixer command block.
fn fx_mixer_commands_v2() -> (r: Vec<&'static str>)
    ensures
        r.deep_view() == spec_fx_mixer_commands_v2(),
        r@.len() == 36,
{
    let mut r: Vec<&'static str> = Vec::new();
    r.push("VMV");
    r.push("XCM");
    r.push("XCF");
    r.push("XCW");
    r.push("XCR");
    r.push("XDT");
    r.push("XDF");
    r.push("XDW");
    r.push("XDR");
    r.push("XRS");
    r.push("XRD");
    r.push("XRM");
    r.push("XRF");
    r.push("XRW");
    r.push("XRZ");
    r.push("VCH");
    r.push("VCD");
    r.push("VRE");
    r.push("VT1");
    r.push("VT2");
    r.push("VT3");
    r.push("VT4");
    r.push("VT5");
    r.push("VT6");
    r.push("VT7");
    r.push("VT8");
    r.push("DJF");
    r.push("IVO");
    r.push("ICH");
    r.push("IDE");
    r.push("IRE");
    r.push("IV2");
    r.push("IC2");
    r.push("ID2");
    r.push("IR2");
    r.push("USB");
    proof {
        reveal_strlit("DJF");
        reveal_strlit("IC2");
        reveal_strlit("ICH");
        reveal_strlit("ID2");
        reveal_strlit("IDE");
        reveal_strlit("IR2");
        reveal_strlit("IRE");
        reveal_strlit("IV2");
        reveal_strlit("IVO");
        reveal_strlit("USB");
        reveal_strlit("VCD");
        reveal_strlit("VCH");
        reveal_strlit("VMV");
        reveal_strlit("VRE");
        reveal_strlit("VT1");
        reveal_strlit("VT2");
        reveal_strlit("VT3");
        reveal_strlit("VT4");
        reveal_strlit("VT5");
        reveal_strlit("VT6");
        reveal_strlit("VT7");
        reveal_strlit("VT8");
        reveal_strlit("XCF");
        reveal_strlit("XCM");
        reveal_strlit("XCR");
        reveal_strlit("XCW");
        reveal_strlit("XDF");
        reveal_strlit("XDR");
        reveal_strlit("XDT");
        reveal_strlit("XDW");
        reveal_strlit("XRD");
        reveal_strlit("XRF");
        reveal_strlit("XRM");
        reveal_strlit("XRS");
        reveal_strlit("XRW");
        reveal_strlit("XRZ");
        assert_seqs_equal!(r.deep_view(), spec_fx_mixer_commands_v2(), i => {
            assert(r.deep_view()[i] == r@[i]@);
            assert(r@[i]@ =~= spec_fx_mixer_commands_v2()[i]);
        });
    }
    r
}

/// Build the revision 3.0 sequencer command block.
fn seq_commands_v3() -> (r: Vec<&'static str>)
    ensures
        r.deep_view() == spec_seq_commands_v3(),
        r@.len() == 27,
{
    let mut r: Vec<&'static str> = Vec::new();
    r.push("ARP");
    r.push("CHA");
    r.push("DEL");
    r.push("GRV");
    r.push("HOP");
    r.push("KIL");
    r.push("RND");
    r.push("RNL");
    r.push("RET");
    r.push("REP");
    r.push("RMX");
    r.push("NTH");
    r.push("PSL");
    r.push("PBN");
    r.push("PVB");
    r.push("PVX");
    r.push("SCA");
    r.push("SCG");
    r.push("SED");
    r.push("SNG");
    r.push("TBL");
    r.push("THO");
    r.push("TIC");
    r.push("TBX");
    r.push("TPO");
    r.push("TSP");
    r.push("OFF");
    proof {
        reveal_strlit("ARP");
        reveal_strlit("CHA");
        reveal_strlit("DEL");
        reveal_strlit("GRV");
        reveal_strlit("HOP");
        reveal_strlit("KIL");
        reveal_strlit("NTH");
        reveal_strlit("OFF");
        reveal_strlit("PBN");
        reveal_strlit("PSL");
        reveal_strlit("PVB");
        reveal_strlit("PVX");
        reveal_strlit("REP");
        reveal_strlit("RET");
        reveal_strlit("RMX");
        reveal_strlit("RND");
        reveal_strlit("RNL");
        reveal_strlit("SCA");
        reveal_strlit("SCG");
        reveal_strlit("SED");
        reveal_strlit("SNG");
        reveal_strlit("TBL");
        reveal_strlit("TBX");
        reveal_strlit("THO");
        reveal_strlit("TIC");
        reveal_strlit("TPO");
        reveal_strlit("TSP");
        assert_seqs_equal!(r.deep_view(), spec_seq_commands_v3(), i => {
            assert(r.deep_view()[i] == r@[i]@);
            assert(r@[i]@ =~= spec_seq_commands_v3()[i]);
        });
    }
    r
}

/// Build the revision 4.0 FX and mixer command block.
fn fx_mixer_commands_v4() -> (r: Vec<&'static str>)
    ensures
        r.deep_view() == spec_fx_mixer_commands_v4(),
        r@.len() == 45,
{
    let mut r: Vec<&'static str> = Vec::new();
    r.push("VMV");
    r.push("XCM");
    r.push("XCF");
    r.push("XCW");
    r.push("XCR");
    r.push("XDT");
    r.push("XDF");
    r.push("XDW");
    r.push("XDR");
    r.push("XRS");
    r.push("XRD");
    r.push("XRM");
    r.push("XRF");
    r.push("XRW");
    r.push("XRZ");
    r.push("VCH");
    r.push("VDE");
    r.push("VRE");
    r.push("VT1");
    r.push("VT2");
    r.push("VT3");
    r.push("VT4");
    r.push("VT5");
    r.push("VT6");
    r.push("VT7");
    r.push("VT8");
    r.push("DJC");
    r.push("VIN");
    r.push("ICH");
    r.push("IDE");
    r.push("IRE");
    r.push("VI2");
    r.push("IC2");
    r.push("ID2");
    r.push("IR2");
    r.push("USB");
    r.push("DJR");
    r.push("DJT");
    r.push("EQM");
    r.push("EQI");
    r.push("INS");
    r.push("RTO");
    r.push("ARC");
    r.push("GGR");
    r.push("NXT");
    proof {
        reveal_strlit("ARC");
        reveal_strlit("DJC");
        reveal_strlit("DJR");
        reveal_strlit("DJT");
        reveal_strlit("EQI");
        reveal_strlit("EQM");
        reveal_strlit("GGR");
        reveal_strlit("IC2");
        reveal_strlit("ICH");
        reveal_strlit("ID2");
        reveal_strlit("IDE");
        reveal_strlit("INS");
        reveal_strlit("IR2");
        reveal_strlit("IRE");
        reveal_strlit("NXT");
        reveal_strlit("RTO");
        reveal_strlit("USB");
        reveal_strlit("VCH");
        reveal_strlit("VDE");
        reveal_strlit("VI2");
        reveal_strlit("VIN");
        reveal_strlit("VMV");
        reveal_strlit("VRE");
        reveal_strlit("VT1");
        reveal_strlit("VT2");
        reveal_strlit("VT3");
        reveal_strlit("VT4");
        reveal_strlit("VT5");
        reveal_strlit("VT6");
        reveal_strlit("VT7");
        reveal_strlit("VT8");
        reveal_strlit("XCF");
        reveal_strlit("XCM");
        reveal_strlit("XCR");
        reveal_strlit("XCW");
        reveal_strlit("XDF");
        reveal_strlit("XDR");
        reveal_strlit("XDT");
        reveal_strlit("XDW");
        reveal_strlit("XRD");
        reveal_strlit("XRF");
        reveal_strlit("XRM");
        reveal_strlit("XRS");
        reveal_strlit("XRW");
        reveal_strlit("XRZ");
        assert_seqs_equal!(r.deep_view(), spec_fx_mixer_commands_v4(), i => {
            assert(r.deep_view()[i] == r@[i]@);
            assert(r@[i]@ =~= spec_fx_mixer_commands_v4()[i]);
        });
    }
    r
}

} // verus!
