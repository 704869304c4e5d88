use vstd::prelude::*;

verus! {

use crate::instrument::SynthParams;
use crate::instrument::pad_ff;
use crate::instrument::read_prefix;
use crate::instrument::sp3_decodable;
use crate::instrument::sp3_decodes_to;
use crate::instrument::spec_eq_number;
use crate::instrument::spec_prefix_encode;
use crate::instrument::spec_sp_encode3;
use crate::instrument::spec_transp_flag;
use crate::instrument::wf_sp3;
use crate::instrument::write_prefix;
use crate::instrument::lemma_transp_eq_round_trip;
use crate::instrument::lemma_sp3_round_trip;
use crate::instrument::lemma_sp3_decodable;
use crate::reader::M8Result;
use crate::reader::Reader;
use crate::reader::Writer;
use crate::reader::fits_str_field;
use crate::reader::spec_str_decode;
use crate::reader::spec_str_encode;
use crate::reader::str_decode_ok;
use crate::version::Version;

/// Chord synth instrument, present from revision 3.0 on. Besides its
/// default chord it stores sixteen chord slots of six notes each; on
/// disk every chord slot carries one leading pad byte written as 0xFF
/// and ignored on read.
#[derive(PartialEq, Debug, Clone)]
pub struct HyperSynth {
    pub number: u8,
    pub name: String,
    pub eq_number: u8,
    pub transpose: bool,
    pub table_tick: u8,
    pub synth_params: SynthParams,
    pub scale: u8,
    pub default_chord: [u8; 7],
    pub shift: u8,
    pub swarm: u8,
    pub width: u8,
    pub subosc: u8,
    pub chords: [[u8; 6]; 16],
}

/// The seven bytes of one on-disk chord slot: a 0xFF pad byte then the
/// six notes.
pub open spec fn spec_chord_slot_encode(c: [u8; 6]) -> Seq<u8> {
    seq![0xFFu8, c@[0], c@[1], c@[2], c@[3], c@[4], c@[5]]
}

/// One chord slot decodes from the window `b` at offset `at` (the pad
/// byte is ignored).
pub open spec fn chord_decodes_to(b: Seq<u8>, at: int, c: [u8; 6]) -> bool {
    forall|k: int| 0 <= k < 6 ==> #[trigger] c@[k] == b[at + 1 + k]
}

/// The bytes a chord synth writes into its slot (after the kind byte).
pub open spec fn spec_hyper_encode(ver: Version, x: HyperSynth) -> Seq<u8> {
    spec_prefix_encode(
        ver,
        x.name@,
        x.transpose,
        x.eq_number,
        x.table_tick,
        x.synth_params.volume,
        x.synth_params.pitch,
        x.synth_params.fine_tune,
    ) + seq![
        x.default_chord@[0],
        x.default_chord@[1],
        x.default_chord@[2],
        x.default_chord@[3],
        x.default_chord@[4],
        x.default_chord@[5],
        x.default_chord@[6],
        x.scale,
        x.shift,
        x.swarm,
        x.width,
        x.subosc,
    ] + spec_sp_encode3(x.synth_params, 23) + spec_chord_slot_encode(
        x.chords@[0],
    ) + spec_chord_slot_encode(
        x.chords@[1],
    ) + spec_chord_slot_encode(
        x.chords@[2],
    ) + spec_chord_slot_encode(
        x.chords@[3],
    ) + spec_chord_slot_encode(
        x.chords@[4],
    ) + spec_chord_slot_encode(
        x.chords@[5],
    ) + spec_chord_slot_encode(
        x.chords@[6],
    ) + spec_chord_slot_encode(
        x.chords@[7],
    ) + spec_chord_slot_encode(
        x.chords@[8],
    ) + spec_chord_slot_encode(
        x.chords@[9],
    ) + spec_chord_slot_encode(
        x.chords@[10],
    ) + spec_chord_slot_encode(
        x.chords@[11],
    ) + spec_chord_slot_encode(
        x.chords@[12],
    ) + spec_chord_slot_encode(
        x.chords@[13],
    ) + spec_chord_slot_encode(
        x.chords@[14],
    ) + spec_chord_slot_encode(
        x.chords@[15],
    )
}

/// A chord synth decodes from the 214-byte window `b`.
pub open spec fn hyper_decodable(ver: Version, b: Seq<u8>) -> bool {
    &&& str_decode_ok(b.subrange(0, 12))
    &&& sp3_decodable(b.subrange(29, 86), 23)
}

/// What a chord synth decoded from the window `b` holds.
pub open spec fn hyper_decodes_to(ver: Version, b: Seq<u8>, number: u8, x: HyperSynth) -> bool {
    &&& x.number == number
    &&& x.name@ == spec_str_decode(b.subrange(0, 12))
    &&& x.transpose == spec_transp_flag(ver, b[12])
    &&& x.eq_number == spec_eq_number(ver, b[12])
    &&& x.table_tick == b[13]
    &&& forall|k: int| 0 <= k < 7 ==> #[trigger] x.default_chord@[k] == b[17 + k]
    &&& x.scale == b[24]
    &&& x.shift == b[25]
    &&& x.swarm == b[26]
    &&& x.width == b[27]
    &&& x.subosc == b[28]
    &&& sp3_decodes_to(b.subrange(29, 86), 23, b[14], b[15], b[16], x.synth_params)
    &&& forall|c: int| 0 <= c < 16 ==> chord_decodes_to(b, 86 + 7 * c, #[trigger] x.chords@[c])
}

/// A chord synth is well formed when its name fits, its EQ number
/// fits the packed flags byte, and its parameter block is well formed.
pub open spec fn wf_hyper(ver: Version, x: HyperSynth) -> bool {
    &&& fits_str_field(x.name@, 12)
    &&& x.eq_number < 128
    &&& wf_sp3(x.synth_params)
}

/// Two chord synths hold the same model.
pub open spec fn hyper_model_eq(x: HyperSynth, y: HyperSynth) -> bool {
    &&& x.number == y.number
    &&& x.name@ == y.name@
    &&& x.eq_number == y.eq_number
    &&& x.transpose == y.transpose
    &&& x.table_tick == y.table_tick
    &&& x.synth_params == y.synth_params
    &&& x.scale == y.scale
    &&& x.default_chord == y.default_chord
    &&& x.shift == y.shift
    &&& x.swarm == y.swarm
    &&& x.width == y.width
    &&& x.subosc == y.subosc
    &&& x.chords == y.chords
}

/// Decode one chord slot: skip the pad byte, read six notes.
fn load_chord(reader: &mut Reader) -> (c: [u8; 6])
    requires
        old(reader).position + 7 <= old(reader).buffer@.len(),
    ensures
        final(reader).buffer == old(reader).buffer,
        final(reader).position == old(reader).position + 7,
        forall|k: int|
            0 <= k < 6 ==> #[trigger] c@[k] == old(reader).buffer@[old(reader).position + 1 + k],
{
    broadcast use vstd::array::group_array_axioms;

    let _pad = reader.read();
    let c = [
        reader.read(),
        reader.read(),
        reader.read(),
        reader.read(),
        reader.read(),
        reader.read(),
    ];
    c
}

/// Encode one chord slot: the 0xFF pad byte then six notes.
fn write_chord(w: &mut Writer, c: [u8; 6])
    ensures
        final(w).buffer@ == old(w).buffer@ + spec_chord_slot_encode(c),
{
    broadcast use vstd::array::group_array_axioms;

    w.write(0xFF);
    w.write(c[0]);
    w.write(c[1]);
    w.write(c[2]);
    w.write(c[3]);
    w.write(c[4]);
    w.write(c[5]);
    assert(final(w).buffer@ =~= old(w).buffer@ + spec_chord_slot_encode(c));
}

impl HyperSynth {
    /// Decode a chord synth from the window after its kind byte.
    pub fn from_reader(reader: &mut Reader, number: u8, version: Version) -> (r: M8Result<
        HyperSynth,
    >)
        requires
            old(reader).position + 214 <= old(reader).buffer@.len(),
            version.spec_at_least(3, 0),
        ensures
            final(reader).buffer == old(reader).buffer,
            r is Ok <==> hyper_decodable(
                version,
                old(reader).buffer@.subrange(
                    old(reader).position as int,
                    old(reader).position + 214,
                ),
            ),
            r matches Ok(x) ==> hyper_decodes_to(
                version,
                old(reader).buffer@.subrange(
                    old(reader).position as int,
                    old(reader).position + 214,
                ),
                number,
                x,
            ),
    {
        broadcast use vstd::array::group_array_axioms;

        let ghost b = old(reader).buffer@.subrange(
            old(reader).position as int,
            old(reader).position + 214,
        );
        proof {
            assert(b.subrange(0, 12) =~= old(reader).buffer@.subrange(
                old(reader).position as int,
                old(reader).position + 12,
            ));
            assert(b.subrange(29, 86) =~= old(reader).buffer@.subrange(
                old(reader).position + 29,
                old(reader).position + 86,
            ));
        }
        let (name, transpeq, table_tick, volume, pitch, fine_tune) = match read_prefix(reader) {
            Ok(t) => t,
            Err(e) => {
                return Err(e);
            },
        };
        let transpose: bool = (transpeq & 1) != 0;
        let eq_number: u8 = transpeq >> 1;
        let default_chord = [
            reader.read(),
            reader.read(),
            reader.read(),
            reader.read(),
            reader.read(),
            reader.read(),
            reader.read(),
        ];
        let scale = reader.read();
        let shift = reader.read();
        let swarm = reader.read();
        let width = reader.read();
        let subosc = reader.read();
        let synth_params = match SynthParams::from_reader3(reader, volume, pitch, fine_tune, 23) {
            Ok(p) => p,
            Err(e) => {
                return Err(e);
            },
        };
        let c0 = load_chord(reader);
        let c1 = load_chord(reader);
        let c2 = load_chord(reader);
        let c3 = load_chord(reader);
        let c4 = load_chord(reader);
        let c5 = load_chord(reader);
        let c6 = load_chord(reader);
        let c7 = load_chord(reader);
        let c8 = load_chord(reader);
        let c9 = load_chord(reader);
        let c10 = load_chord(reader);
        let c11 = load_chord(reader);
        let c12 = load_chord(reader);
        let c13 = load_chord(reader);
        let c14 = load_chord(reader);
        let c15 = load_chord(reader);
        let result = HyperSynth {
            number,
            name,
            eq_number,
            transpose,
            table_tick,
            synth_params,
            scale,
            default_chord,
            shift,
            swarm,
            width,
            subosc,
            chords: [c0, c1, c2, c3, c4, c5, c6, c7, c8, c9, c10, c11, c12, c13, c14, c15],
        };
        proof {
            assert forall|c: int| 0 <= c < 16 implies chord_decodes_to(
                b,
                86 + 7 * c,
                #[trigger] result.chords@[c],
            ) by {
                if c == 0 {
                    assert(result.chords@[0] == c0);
                    assert forall|k: int| 0 <= k < 6 implies #[trigger] c0@[k] == b[86 + 7 * 0int + 1 + k] by {
                        assert(b[86 + 7 * 0int + 1 + k] == old(reader).buffer@[old(reader).position + 86 + 7 * 0 + 1 + k]);
                    }
                } else if c == 1 {
                    assert(result.chords@[1] == c1);
                    assert forall|k: int| 0 <= k < 6 implies #[trigger] c1@[k] == b[86 + 7 * 1int + 1 + k] by {
                        assert(b[86 + 7 * 1int + 1 + k] == old(reader).buffer@[old(reader).position + 86 + 7 * 1 + 1 + k]);
                    }
                } else if c == 2 {
                    assert(result.chords@[2] == c2);
                    assert forall|k: int| 0 <= k < 6 implies #[trigger] c2@[k] == b[86 + 7 * 2int + 1 + k] by {
                        assert(b[86 + 7 * 2int + 1 + k] == old(reader).buffer@[old(reader).position + 86 + 7 * 2 + 1 + k]);
                    }
                } else if c == 3 {
                    assert(result.chords@[3] == c3);
                    assert forall|k: int| 0 <= k < 6 implies #[trigger] c3@[k] == b[86 + 7 * 3int + 1 + k] by {
                        assert(b[86 + 7 * 3int + 1 + k] == old(reader).buffer@[old(reader).position + 86 + 7 * 3 + 1 + k]);
                    }
                } else if c == 4 {
                    assert(result.chords@[4] == c4);
                    assert forall|k: int| 0 <= k < 6 implies #[trigger] c4@[k] == b[86 + 7 * 4int + 1 + k] by {
                        assert(b[86 + 7 * 4int + 1 + k] == old(reader).buffer@[old(reader).position + 86 + 7 * 4 + 1 + k]);
                    }
                } else if c == 5 {
                    assert(result.chords@[5] == c5);
                    assert forall|k: int| 0 <= k < 6 implies #[trigger] c5@[k] == b[86 + 7 * 5int + 1 + k] by {
                        assert(b[86 + 7 * 5int + 1 + k] == old(reader).buffer@[old(reader).position + 86 + 7 * 5 + 1 + k]);
                    }
                } else if c == 6 {
                    assert(result.chords@[6] == c6);
                    assert forall|k: int| 0 <= k < 6 implies #[trigger] c6@[k] == b[86 + 7 * 6int + 1 + k] by {
                        assert(b[86 + 7 * 6int + 1 + k] == old(reader).buffer@[old(reader).position + 86 + 7 * 6 + 1 + k]);
                    }
                } else if c == 7 {
                    assert(result.chords@[7] == c7);
                    assert forall|k: int| 0 <= k < 6 implies #[trigger] c7@[k] == b[86 + 7 * 7int + 1 + k] by {
                        assert(b[86 + 7 * 7int + 1 + k] == old(reader).buffer@[old(reader).position + 86 + 7 * 7 + 1 + k]);
                    }
                } else if c == 8 {
                    assert(result.chords@[8] == c8);
                    assert forall|k: int| 0 <= k < 6 implies #[trigger] c8@[k] == b[86 + 7 * 8int + 1 + k] by {
                        assert(b[86 + 7 * 8int + 1 + k] == old(reader).buffer@[old(reader).position + 86 + 7 * 8 + 1 + k]);
                    }
                } else if c == 9 {
                    assert(result.chords@[9] == c9);
                    assert forall|k: int| 0 <= k < 6 implies #[trigger] c9@[k] == b[86 + 7 * 9int + 1 + k] by {
                        assert(b[86 + 7 * 9int + 1 + k] == old(reader).buffer@[old(reader).position + 86 + 7 * 9 + 1 + k]);
                    }
                } else if c == 10 {
                    assert(result.chords@[10] == c10);
                    assert forall|k: int| 0 <= k < 6 implies #[trigger] c10@[k] == b[86 + 7 * 10int + 1 + k] by {
                        assert(b[86 + 7 * 10int + 1 + k] == old(reader).buffer@[old(reader).position + 86 + 7 * 10 + 1 + k]);
                    }
                } else if c == 11 {
                    assert(result.chords@[11] == c11);
                    assert forall|k: int| 0 <= k < 6 implies #[trigger] c11@[k] == b[86 + 7 * 11int + 1 + k] by {
                        assert(b[86 + 7 * 11int + 1 + k] == old(reader).buffer@[old(reader).position + 86 + 7 * 11 + 1 + k]);
                    }
                } else if c == 12 {
                    assert(result.chords@[12] == c12);
                    assert forall|k: int| 0 <= k < 6 implies #[trigger] c12@[k] == b[86 + 7 * 12int + 1 + k] by {
                        assert(b[86 + 7 * 12int + 1 + k] == old(reader).buffer@[old(reader).position + 86 + 7 * 12 + 1 + k]);
                    }
                } else if c == 13 {
                    assert(result.chords@[13] == c13);
                    assert forall|k: int| 0 <= k < 6 implies #[trigger] c13@[k] == b[86 + 7 * 13int + 1 + k] by {
                        assert(b[86 + 7 * 13int + 1 + k] == old(reader).buffer@[old(reader).position + 86 + 7 * 13 + 1 + k]);
                    }
                } else if c == 14 {
                    assert(result.chords@[14] == c14);
                    assert forall|k: int| 0 <= k < 6 implies #[trigger] c14@[k] == b[86 + 7 * 14int + 1 + k] by {
                        assert(b[86 + 7 * 14int + 1 + k] == old(reader).buffer@[old(reader).position + 86 + 7 * 14 + 1 + k]);
                    }
                } else {
                    assert(result.chords@[15] == c15);
                    assert forall|k: int| 0 <= k < 6 implies #[trigger] c15@[k] == b[86 + 7 * 15int + 1 + k] by {
                        assert(b[86 + 7 * 15int + 1 + k] == old(reader).buffer@[old(reader).position + 86 + 7 * 15 + 1 + k]);
                    }
                }
            }
        }
        Ok(result)
    }

    /// Encode a chord synth into its slot (after the kind byte).
    #[verifier::rlimit(100)]
    pub fn write(&self, ver: Version, w: &mut Writer)
        ensures
            final(w).buffer@ == old(w).buffer@ + spec_hyper_encode(ver, *self),
    {
        broadcast use vstd::array::group_array_axioms;

        write_prefix(
            w,
            ver,
            self.name.as_str(),
            self.transpose,
            self.eq_number,
            self.table_tick,
            self.synth_params.volume,
            self.synth_params.pitch,
            self.synth_params.fine_tune,
        );
        w.write(self.default_chord[0]);
        w.write(self.default_chord[1]);
        w.write(self.default_chord[2]);
        w.write(self.default_chord[3]);
        w.write(self.default_chord[4]);
        w.write(self.default_chord[5]);
        w.write(self.default_chord[6]);
        w.write(self.scale);
        w.write(self.shift);
        w.write(self.swarm);
        w.write(self.width);
        w.write(self.subosc);
        self.synth_params.write3(w, 23);
        proof {
            assert(w.buffer@ =~= old(w).buffer@ + spec_prefix_encode(
                ver,
                self.name@,
                self.transpose,
                self.eq_number,
                self.table_tick,
                self.synth_params.volume,
                self.synth_params.pitch,
                self.synth_params.fine_tune,
            ) + seq![
                self.default_chord@[0],
                self.default_chord@[1],
                self.default_chord@[2],
                self.default_chord@[3],
                self.default_chord@[4],
                self.default_chord@[5],
                self.default_chord@[6],
                self.scale,
                self.shift,
                self.swarm,
                self.width,
                self.subosc,
            ] + spec_sp_encode3(self.synth_params, 23));
        }
        let wc0 = self.chords[0];
        write_chord(w, wc0);
        let wc1 = self.chords[1];
        write_chord(w, wc1);
        let wc2 = self.chords[2];
        write_chord(w, wc2);
        let wc3 = self.chords[3];
        write_chord(w, wc3);
        let wc4 = self.chords[4];
        write_chord(w, wc4);
        let wc5 = self.chords[5];
        write_chord(w, wc5);
        let wc6 = self.chords[6];
        write_chord(w, wc6);
        let wc7 = self.chords[7];
        write_chord(w, wc7);
        let wc8 = self.chords[8];
        write_chord(w, wc8);
        let wc9 = self.chords[9];
        write_chord(w, wc9);
        let wc10 = self.chords[10];
        write_chord(w, wc10);
        let wc11 = self.chords[11];
        write_chord(w, wc11);
        let wc12 = self.chords[12];
        write_chord(w, wc12);
        let wc13 = self.chords[13];
        write_chord(w, wc13);
        let wc14 = self.chords[14];
        write_chord(w, wc14);
        let wc15 = self.chords[15];
        write_chord(w, wc15);
        assert(final(w).buffer@ =~= old(w).buffer@ + spec_hyper_encode(ver, *self));
    }
}

/// A well-formed chord synth decodes back from its own slot, and only
/// to itself.
#[verifier::rlimit(100)]
pub proof fn lemma_hyper_round_trip(ver: Version, x: HyperSynth, y: HyperSynth)
    requires
        wf_hyper(ver, x),
        ver.spec_at_least(3, 0),
        hyper_decodes_to(ver, pad_ff(spec_hyper_encode(ver, x), 214), x.number, y),
    ensures
        hyper_model_eq(x, y),
{
    broadcast use vstd::array::group_array_axioms;

    let b = pad_ff(spec_hyper_encode(ver, x), 214);
    assert(b.subrange(0, 12) =~= spec_str_encode(x.name@, 12));
    crate::reader::lemma_str_round_trip(x.name@, 12);
    lemma_transp_eq_round_trip(ver, x.transpose, x.eq_number);
    assert(b.subrange(29, 86) =~= spec_sp_encode3(x.synth_params, 23));
    lemma_sp3_round_trip(x.synth_params, 23, y.synth_params);
    assert(y.default_chord =~= x.default_chord);
    assert forall|c: int| 0 <= c < 16 implies y.chords@[c] =~= x.chords@[c] by {
        assert(chord_decodes_to(b, 86 + 7 * c, y.chords@[c]));
        if c == 0 {
            assert(b.subrange(86 + 7 * 0int, 93 + 7 * 0int) =~= spec_chord_slot_encode(x.chords@[0]));
            assert forall|k: int| 0 <= k < 6 implies y.chords@[0]@[k] == x.chords@[0]@[k] by {
                assert(y.chords@[0]@[k] == b[86 + 7 * 0int + 1 + k]);
                assert(b[86 + 7 * 0int + 1 + k] == spec_chord_slot_encode(x.chords@[0])[1 + k]);
            }
        } else if c == 1 {
            assert(b.subrange(86 + 7 * 1int, 93 + 7 * 1int) =~= spec_chord_slot_encode(x.chords@[1]));
            assert forall|k: int| 0 <= k < 6 implies y.chords@[1]@[k] == x.chords@[1]@[k] by {
                assert(y.chords@[1]@[k] == b[86 + 7 * 1int + 1 + k]);
                assert(b[86 + 7 * 1int + 1 + k] == spec_chord_slot_encode(x.chords@[1])[1 + k]);
            }
        } else if c == 2 {
            assert(b.subrange(86 + 7 * 2int, 93 + 7 * 2int) =~= spec_chord_slot_encode(x.chords@[2]));
            assert forall|k: int| 0 <= k < 6 implies y.chords@[2]@[k] == x.chords@[2]@[k] by {
                assert(y.chords@[2]@[k] == b[86 + 7 * 2int + 1 + k]);
                assert(b[86 + 7 * 2int + 1 + k] == spec_chord_slot_encode(x.chords@[2])[1 + k]);
            }
        } else if c == 3 {
            assert(b.subrange(86 + 7 * 3int, 93 + 7 * 3int) =~= spec_chord_slot_encode(x.chords@[3]));
            assert forall|k: int| 0 <= k < 6 implies y.chords@[3]@[k] == x.chords@[3]@[k] by {
                assert(y.chords@[3]@[k] == b[86 + 7 * 3int + 1 + k]);
                assert(b[86 + 7 * 3int + 1 + k] == spec_chord_slot_encode(x.chords@[3])[1 + k]);
            }
        } else if c == 4 {
            assert(b.subrange(86 + 7 * 4int, 93 + 7 * 4int) =~= spec_chord_slot_encode(x.chords@[4]));
            assert forall|k: int| 0 <= k < 6 implies y.chords@[4]@[k] == x.chords@[4]@[k] by {
                assert(y.chords@[4]@[k] == b[86 + 7 * 4int + 1 + k]);
                assert(b[86 + 7 * 4int + 1 + k] == spec_chord_slot_encode(x.chords@[4])[1 + k]);
            }
        } else if c == 5 {
            assert(b.subrange(86 + 7 * 5int, 93 + 7 * 5int) =~= spec_chord_slot_encode(x.chords@[5]));
            assert forall|k: int| 0 <= k < 6 implies y.chords@[5]@[k] == x.chords@[5]@[k] by {
                assert(y.chords@[5]@[k] == b[86 + 7 * 5int + 1 + k]);
                assert(b[86 + 7 * 5int + 1 + k] == spec_chord_slot_encode(x.chords@[5])[1 + k]);
            }
        } else if c == 6 {
            assert(b.subrange(86 + 7 * 6int, 93 + 7 * 6int) =~= spec_chord_slot_encode(x.chords@[6]));
            assert forall|k: int| 0 <= k < 6 implies y.chords@[6]@[k] == x.chords@[6]@[k] by {
                assert(y.chords@[6]@[k] == b[86 + 7 * 6int + 1 + k]);
                assert(b[86 + 7 * 6int + 1 + k] == spec_chord_slot_encode(x.chords@[6])[1 + k]);
            }
        } else if c == 7 {
            assert(b.subrange(86 + 7 * 7int, 93 + 7 * 7int) =~= spec_chord_slot_encode(x.chords@[7]));
            assert forall|k: int| 0 <= k < 6 implies y.chords@[7]@[k] == x.chords@[7]@[k] by {
                assert(y.chords@[7]@[k] == b[86 + 7 * 7int + 1 + k]);
                assert(b[86 + 7 * 7int + 1 + k] == spec_chord_slot_encode(x.chords@[7])[1 + k]);
            }
        } else if c == 8 {
            assert(b.subrange(86 + 7 * 8int, 93 + 7 * 8int) =~= spec_chord_slot_encode(x.chords@[8]));
            assert forall|k: int| 0 <= k < 6 implies y.chords@[8]@[k] == x.chords@[8]@[k] by {
                assert(y.chords@[8]@[k] == b[86 + 7 * 8int + 1 + k]);
                assert(b[86 + 7 * 8int + 1 + k] == spec_chord_slot_encode(x.chords@[8])[1 + k]);
            }
        } else if c == 9 {
            assert(b.subrange(86 + 7 * 9int, 93 + 7 * 9int) =~= spec_chord_slot_encode(x.chords@[9]));
            assert forall|k: int| 0 <= k < 6 implies y.chords@[9]@[k] == x.chords@[9]@[k] by {
                assert(y.chords@[9]@[k] == b[86 + 7 * 9int + 1 + k]);
                assert(b[86 + 7 * 9int + 1 + k] == spec_chord_slot_encode(x.chords@[9])[1 + k]);
            }
        } else if c == 10 {
            assert(b.subrange(86 + 7 * 10int, 93 + 7 * 10int) =~= spec_chord_slot_encode(x.chords@[10]));
            assert forall|k: int| 0 <= k < 6 implies y.chords@[10]@[k] == x.chords@[10]@[k] by {
                assert(y.chords@[10]@[k] == b[86 + 7 * 10int + 1 + k]);
                assert(b[86 + 7 * 10int + 1 + k] == spec_chord_slot_encode(x.chords@[10])[1 + k]);
            }
        } else if c == 11 {
            assert(b.subrange(86 + 7 * 11int, 93 + 7 * 11int) =~= spec_chord_slot_encode(x.chords@[11]));
            assert forall|k: int| 0 <= k < 6 implies y.chords@[11]@[k] == x.chords@[11]@[k] by {
                assert(y.chords@[11]@[k] == b[86 + 7 * 11int + 1 + k]);
                assert(b[86 + 7 * 11int + 1 + k] == spec_chord_slot_encode(x.chords@[11])[1 + k]);
            }
        } else if c == 12 {
            assert(b.subrange(86 + 7 * 12int, 93 + 7 * 12int) =~= spec_chord_slot_encode(x.chords@[12]));
            assert forall|k: int| 0 <= k < 6 implies y.chords@[12]@[k] == x.chords@[12]@[k] by {
                assert(y.chords@[12]@[k] == b[86 + 7 * 12int + 1 + k]);
                assert(b[86 + 7 * 12int + 1 + k] == spec_chord_slot_encode(x.chords@[12])[1 + k]);
            }
        } else if c == 13 {
            assert(b.subrange(86 + 7 * 13int, 93 + 7 * 13int) =~= spec_chord_slot_encode(x.chords@[13]));
            assert forall|k: int| 0 <= k < 6 implies y.chords@[13]@[k] == x.chords@[13]@[k] by {
                assert(y.chords@[13]@[k] == b[86 + 7 * 13int + 1 + k]);
                assert(b[86 + 7 * 13int + 1 + k] == spec_chord_slot_encode(x.chords@[13])[1 + k]);
            }
        } else if c == 14 {
            assert(b.subrange(86 + 7 * 14int, 93 + 7 * 14int) =~= spec_chord_slot_encode(x.chords@[14]));
            assert forall|k: int| 0 <= k < 6 implies y.chords@[14]@[k] == x.chords@[14]@[k] by {
                assert(y.chords@[14]@[k] == b[86 + 7 * 14int + 1 + k]);
                assert(b[86 + 7 * 14int + 1 + k] == spec_chord_slot_encode(x.chords@[14])[1 + k]);
            }
        } else {
            assert(b.subrange(86 + 7 * 15int, 93 + 7 * 15int) =~= spec_chord_slot_encode(x.chords@[15]));
            assert forall|k: int| 0 <= k < 6 implies y.chords@[15]@[k] == x.chords@[15]@[k] by {
                assert(y.chords@[15]@[k] == b[86 + 7 * 15int + 1 + k]);
                assert(b[86 + 7 * 15int + 1 + k] == spec_chord_slot_encode(x.chords@[15])[1 + k]);
            }
        }
    }
    assert(y.chords =~= x.chords);
}

/// The window of an encoded well-formed chord synth has a decode.
pub proof fn lemma_hyper_decodable(ver: Version, x: HyperSynth)
    requires
        wf_hyper(ver, x),
    ensures
        hyper_decodable(ver, pad_ff(spec_hyper_encode(ver, x), 214)),
{
    let b = pad_ff(spec_hyper_encode(ver, x), 214);
    assert(b.subrange(0, 12) =~= spec_str_encode(x.name@, 12));
    crate::reader::lemma_str_round_trip(x.name@, 12);
    assert(b.subrange(29, 86) =~= spec_sp_encode3(x.synth_params, 23));
    lemma_sp3_decodable(x.synth_params, 23);
}

impl HyperSynth {
    /// The instrument-specific command mnemonics addressed by command ids of 0x80 and above.
    pub fn command_name(&self, _ver: Version) -> (r: Vec<&'static str>)
        ensures
            r@.len() == 20,
    {
        let mut r: Vec<&'static str> = Vec::new();
        r.push("VOL");
        r.push("PIT");
        r.push("FIN");
        r.push("CRD");
        r.push("SHF");
        r.push("SWM");
        r.push("WID");
        r.push("SUB");
        r.push("FLT");
        r.push("CUT");
        r.push("RES");
        r.push("AMP");
        r.push("LIM");
        r.push("PAN");
        r.push("DRY");
        r.push("SCH");
        r.push("SDL");
        r.push("SRV");
        r.push("CVO");
        r.push("SNC");
        r
    }

    /// The modulation destination names of this instrument.
    pub fn destination_names(&self, _ver: Version) -> (r: Vec<&'static str>)
        ensures
            r@.len() == 15,
    {
        let mut r: Vec<&'static str> = Vec::new();
        r.push("OFF");
        r.push("VOLUME");
        r.push("PITCH");
        r.push("SHIFT");
        r.push("SWARM");
        r.push("WIDTH");
        r.push("SUBOSC");
        r.push("CUTOFF");
        r.push("RES");
        r.push("AMP");
        r.push("PAN");
        r.push("MOD AMT");
        r.push("MOD RATE");
        r.push("MOD BOTH");
        r.push("MOD BINV");
        r
    }
}

} // verus!
