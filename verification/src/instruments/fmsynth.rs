use vstd::prelude::*;

verus! {

use crate::instrument::SynthParams;
use crate::instrument::pad_ff;
use crate::instrument::read_prefix;
use crate::instrument::sp2_decodes_to;
use crate::instrument::sp3_decodable;
use crate::instrument::sp3_decodes_to;
use crate::instrument::spec_eq_number;
use crate::instrument::spec_prefix_encode;
use crate::instrument::spec_sp_encode2;
use crate::instrument::spec_sp_encode3;
use crate::instrument::spec_transp_flag;
use crate::instrument::wf_sp2;
use crate::instrument::wf_sp3;
use crate::instrument::write_prefix;
use crate::instrument::lemma_transp_eq_round_trip;
use crate::instrument::lemma_sp2_round_trip;
use crate::instrument::lemma_sp3_round_trip;
use crate::instrument::lemma_sp3_decodable;
use crate::reader::M8Result;
use crate::reader::ParseError;
use crate::reader::Reader;
use crate::reader::Writer;
use crate::reader::fits_str_field;
use crate::reader::spec_str_decode;
use crate::reader::spec_str_encode;
use crate::reader::str_decode_ok;
use crate::version::Version;
use vstd::string::StringExecFns;

/// FM routing algorithm, stored as one byte; ids 0 through 11 are the
/// known algorithms.
#[derive(Copy, Clone, PartialEq, Debug)]
pub struct FmAlgo(pub u8);

impl FmAlgo {
    /// The algorithm id as stored on disk.
    pub fn id(self) -> (r: u8)
        ensures
            r == self.0,
    {
        let FmAlgo(v) = self;
        v
    }

    /// Validate an algorithm id; ids 12 and above are a fatal decode
    /// error.
    pub fn try_from(value: u8) -> (r: M8Result<FmAlgo>)
        ensures
            r is Ok <==> value < 12,
            r matches Ok(a) ==> a == FmAlgo(value),
    {
        if value < 12 {
            Ok(FmAlgo(value))
        } else {
            Err(ParseError(String::from_str("invalid fm algo")))
        }
    }

    /// Human-readable operator routing of this algorithm.
    pub fn str(self) -> (r: &'static str)
        requires
            self.0 < 12,
    {
        match self.0 {
            0 => "A>B>C>D",
            1 => "[A+B]>C>D",
            2 => "[A>B+C]>D",
            3 => "[A>B+A>C]>D",
            4 => "[A+B+C]>D",
            5 => "[A>B>C]+D",
            6 => "[A>B>C]+[A>B>D]",
            7 => "[A>B]+[C>D]",
            8 => "[A>B]+[A>C]+[A>D]",
            9 => "[A>B]+[A>C]+D",
            10 => "[A>B]+C+D",
            _ => "A+B+C+D",
        }
    }
}

/// FM operator waveform. The id stored on disk is the variant's
/// position in this list; ids past the list are a fatal decode error.
#[allow(non_camel_case_types)]
#[derive(PartialEq, Eq, Copy, Clone, Debug)]
pub enum FMWave {
    SIN,
    SW2,
    SW3,
    SW4,
    SW5,
    SW6,
    TRI,
    SAW,
    SQR,
    PUL,
    IMP,
    NOI,
    NLP,
    NHP,
    NBP,
    CLK,
    W09,
    W0A,
    W0B,
    W0C,
    W0D,
    W0E,
    W0F,
    W10,
    W11,
    W12,
    W13,
    W14,
    W15,
    W16,
    W17,
    W18,
    W19,
    W1A,
    W1B,
    W1C,
    W1D,
    W1E,
    W1F,
    W20,
    W21,
    W22,
    W23,
    W24,
    W25,
    W26,
    W27,
    W28,
    W29,
    W2A,
    W2B,
    W2C,
    W2D,
    W2E,
    W2F,
    W30,
    W31,
    W32,
    W33,
    W34,
    W35,
    W36,
    W37,
    W38,
    W39,
    W3A,
    W3B,
    W3C,
    W3D,
    W3E,
    W3F,
    W40,
    W41,
    W42,
    W43,
    W44,
    W45,
}

/// The on-disk id of an FM waveform.
pub open spec fn spec_fm_wave_id(w: FMWave) -> u8 {
    match w {
        FMWave::SIN => 0,
        FMWave::SW2 => 1,
        FMWave::SW3 => 2,
        FMWave::SW4 => 3,
        FMWave::SW5 => 4,
        FMWave::SW6 => 5,
        FMWave::TRI => 6,
        FMWave::SAW => 7,
        FMWave::SQR => 8,
        FMWave::PUL => 9,
        FMWave::IMP => 10,
        FMWave::NOI => 11,
        FMWave::NLP => 12,
        FMWave::NHP => 13,
        FMWave::NBP => 14,
        FMWave::CLK => 15,
        FMWave::W09 => 16,
        FMWave::W0A => 17,
        FMWave::W0B => 18,
        FMWave::W0C => 19,
        FMWave::W0D => 20,
        FMWave::W0E => 21,
        FMWave::W0F => 22,
        FMWave::W10 => 23,
        FMWave::W11 => 24,
        FMWave::W12 => 25,
        FMWave::W13 => 26,
        FMWave::W14 => 27,
        FMWave::W15 => 28,
        FMWave::W16 => 29,
        FMWave::W17 => 30,
        FMWave::W18 => 31,
        FMWave::W19 => 32,
        FMWave::W1A => 33,
        FMWave::W1B => 34,
        FMWave::W1C => 35,
        FMWave::W1D => 36,
        FMWave::W1E => 37,
        FMWave::W1F => 38,
        FMWave::W20 => 39,
        FMWave::W21 => 40,
        FMWave::W22 => 41,
        FMWave::W23 => 42,
        FMWave::W24 => 43,
        FMWave::W25 => 44,
        FMWave::W26 => 45,
        FMWave::W27 => 46,
        FMWave::W28 => 47,
        FMWave::W29 => 48,
        FMWave::W2A => 49,
        FMWave::W2B => 50,
        FMWave::W2C => 51,
        FMWave::W2D => 52,
        FMWave::W2E => 53,
        FMWave::W2F => 54,
        FMWave::W30 => 55,
        FMWave::W31 => 56,
        FMWave::W32 => 57,
        FMWave::W33 => 58,
        FMWave::W34 => 59,
        FMWave::W35 => 60,
        FMWave::W36 => 61,
        FMWave::W37 => 62,
        FMWave::W38 => 63,
        FMWave::W39 => 64,
        FMWave::W3A => 65,
        FMWave::W3B => 66,
        FMWave::W3C => 67,
        FMWave::W3D => 68,
        FMWave::W3E => 69,
        FMWave::W3F => 70,
        FMWave::W40 => 71,
        FMWave::W41 => 72,
        FMWave::W42 => 73,
        FMWave::W43 => 74,
        FMWave::W44 => 75,
        FMWave::W45 => 76,
    }
}

impl FMWave {
    /// The on-disk id of this waveform.
    pub fn id(self) -> (r: u8)
        ensures
            r == spec_fm_wave_id(self),
    {
        match self {
            FMWave::SIN => 0,
            FMWave::SW2 => 1,
            FMWave::SW3 => 2,
            FMWave::SW4 => 3,
            FMWave::SW5 => 4,
            FMWave::SW6 => 5,
            FMWave::TRI => 6,
            FMWave::SAW => 7,
            FMWave::SQR => 8,
            FMWave::PUL => 9,
            FMWave::IMP => 10,
            FMWave::NOI => 11,
            FMWave::NLP => 12,
            FMWave::NHP => 13,
            FMWave::NBP => 14,
            FMWave::CLK => 15,
            FMWave::W09 => 16,
            FMWave::W0A => 17,
            FMWave::W0B => 18,
            FMWave::W0C => 19,
            FMWave::W0D => 20,
            FMWave::W0E => 21,
            FMWave::W0F => 22,
            FMWave::W10 => 23,
            FMWave::W11 => 24,
            FMWave::W12 => 25,
            FMWave::W13 => 26,
            FMWave::W14 => 27,
            FMWave::W15 => 28,
            FMWave::W16 => 29,
            FMWave::W17 => 30,
            FMWave::W18 => 31,
            FMWave::W19 => 32,
            FMWave::W1A => 33,
            FMWave::W1B => 34,
            FMWave::W1C => 35,
            FMWave::W1D => 36,
            FMWave::W1E => 37,
            FMWave::W1F => 38,
            FMWave::W20 => 39,
            FMWave::W21 => 40,
            FMWave::W22 => 41,
            FMWave::W23 => 42,
            FMWave::W24 => 43,
            FMWave::W25 => 44,
            FMWave::W26 => 45,
            FMWave::W27 => 46,
            FMWave::W28 => 47,
            FMWave::W29 => 48,
            FMWave::W2A => 49,
            FMWave::W2B => 50,
            FMWave::W2C => 51,
            FMWave::W2D => 52,
            FMWave::W2E => 53,
            FMWave::W2F => 54,
            FMWave::W30 => 55,
            FMWave::W31 => 56,
            FMWave::W32 => 57,
            FMWave::W33 => 58,
            FMWave::W34 => 59,
            FMWave::W35 => 60,
            FMWave::W36 => 61,
            FMWave::W37 => 62,
            FMWave::W38 => 63,
            FMWave::W39 => 64,
            FMWave::W3A => 65,
            FMWave::W3B => 66,
            FMWave::W3C => 67,
            FMWave::W3D => 68,
            FMWave::W3E => 69,
            FMWave::W3F => 70,
            FMWave::W40 => 71,
            FMWave::W41 => 72,
            FMWave::W42 => 73,
            FMWave::W43 => 74,
            FMWave::W44 => 75,
            FMWave::W45 => 76,
        }
    }

    /// The waveform of an on-disk id, if the id is known.
    pub fn from_id(v: u8) -> (r: Option<FMWave>)
        ensures
            r is Some <==> v < 77,
            r matches Some(w) ==> spec_fm_wave_id(w) == v,
    {
        match v {
            0 => Some(FMWave::SIN),
            1 => Some(FMWave::SW2),
            2 => Some(FMWave::SW3),
            3 => Some(FMWave::SW4),
            4 => Some(FMWave::SW5),
            5 => Some(FMWave::SW6),
            6 => Some(FMWave::TRI),
            7 => Some(FMWave::SAW),
            8 => Some(FMWave::SQR),
            9 => Some(FMWave::PUL),
            10 => Some(FMWave::IMP),
            11 => Some(FMWave::NOI),
            12 => Some(FMWave::NLP),
            13 => Some(FMWave::NHP),
            14 => Some(FMWave::NBP),
            15 => Some(FMWave::CLK),
            16 => Some(FMWave::W09),
            17 => Some(FMWave::W0A),
            18 => Some(FMWave::W0B),
            19 => Some(FMWave::W0C),
            20 => Some(FMWave::W0D),
            21 => Some(FMWave::W0E),
            22 => Some(FMWave::W0F),
            23 => Some(FMWave::W10),
            24 => Some(FMWave::W11),
            25 => Some(FMWave::W12),
            26 => Some(FMWave::W13),
            27 => Some(FMWave::W14),
            28 => Some(FMWave::W15),
            29 => Some(FMWave::W16),
            30 => Some(FMWave::W17),
            31 => Some(FMWave::W18),
            32 => Some(FMWave::W19),
            33 => Some(FMWave::W1A),
            34 => Some(FMWave::W1B),
            35 => Some(FMWave::W1C),
            36 => Some(FMWave::W1D),
            37 => Some(FMWave::W1E),
            38 => Some(FMWave::W1F),
            39 => Some(FMWave::W20),
            40 => Some(FMWave::W21),
            41 => Some(FMWave::W22),
            42 => Some(FMWave::W23),
            43 => Some(FMWave::W24),
            44 => Some(FMWave::W25),
            45 => Some(FMWave::W26),
            46 => Some(FMWave::W27),
            47 => Some(FMWave::W28),
            48 => Some(FMWave::W29),
            49 => Some(FMWave::W2A),
            50 => Some(FMWave::W2B),
            51 => Some(FMWave::W2C),
            52 => Some(FMWave::W2D),
            53 => Some(FMWave::W2E),
            54 => Some(FMWave::W2F),
            55 => Some(FMWave::W30),
            56 => Some(FMWave::W31),
            57 => Some(FMWave::W32),
            58 => Some(FMWave::W33),
            59 => Some(FMWave::W34),
            60 => Some(FMWave::W35),
            61 => Some(FMWave::W36),
            62 => Some(FMWave::W37),
            63 => Some(FMWave::W38),
            64 => Some(FMWave::W39),
            65 => Some(FMWave::W3A),
            66 => Some(FMWave::W3B),
            67 => Some(FMWave::W3C),
            68 => Some(FMWave::W3D),
            69 => Some(FMWave::W3E),
            70 => Some(FMWave::W3F),
            71 => Some(FMWave::W40),
            72 => Some(FMWave::W41),
            73 => Some(FMWave::W42),
            74 => Some(FMWave::W43),
            75 => Some(FMWave::W44),
            76 => Some(FMWave::W45),
            _ => None,
        }
    }
}
/// One FM operator. The waveform id is stored raw; decoding validates
/// it against the known waveform list. The retrigger parameter has no
/// on-disk byte in this layout and stays zero.
#[derive(PartialEq, Debug, Clone, Copy)]
pub struct Operator {
    pub shape: u8,
    pub ratio: u8,
    pub ratio_fine: u8,
    pub level: u8,
    pub feedback: u8,
    pub retrigger: u8,
    pub mod_a: u8,
    pub mod_b: u8,
}

/// FM synth instrument.
#[derive(PartialEq, Debug, Clone)]
pub struct FMSynth {
    pub number: u8,
    pub name: String,
    pub eq_number: u8,
    pub transpose: bool,
    pub table_tick: u8,
    pub synth_params: SynthParams,
    pub algo: FmAlgo,
    pub operators: [Operator; 4],
    pub mod1: u8,
    pub mod2: u8,
    pub mod3: u8,
    pub mod4: u8,
}

/// Operator shape bytes appear on disk only from revision 1.4 on.
pub open spec fn fm_has_shapes(ver: Version) -> bool {
    ver.spec_at_least(1, 4)
}

/// Start of the operator ratio block inside the variant window: the
/// four shape bytes shift it when present.
pub open spec fn fm_ratio_start(ver: Version) -> int {
    if fm_has_shapes(ver) {
        22
    } else {
        18
    }
}

/// The operator arrays are transposed on the wire: shapes of all four
/// operators, then (ratio, ratio_fine) pairs, then (level, feedback)
/// pairs, then all mod_a bytes, then all mod_b bytes.
pub open spec fn spec_fm_ops_encode(x: FMSynth) -> Seq<u8> {
    seq![
        x.operators@[0].ratio,
        x.operators@[0].ratio_fine,
        x.operators@[1].ratio,
        x.operators@[1].ratio_fine,
        x.operators@[2].ratio,
        x.operators@[2].ratio_fine,
        x.operators@[3].ratio,
        x.operators@[3].ratio_fine,
        x.operators@[0].level,
        x.operators@[0].feedback,
        x.operators@[1].level,
        x.operators@[1].feedback,
        x.operators@[2].level,
        x.operators@[2].feedback,
        x.operators@[3].level,
        x.operators@[3].feedback,
        x.operators@[0].mod_a,
        x.operators@[1].mod_a,
        x.operators@[2].mod_a,
        x.operators@[3].mod_a,
        x.operators@[0].mod_b,
        x.operators@[1].mod_b,
        x.operators@[2].mod_b,
        x.operators@[3].mod_b,
        x.mod1,
        x.mod2,
        x.mod3,
        x.mod4,
    ]
}

/// The bytes an FM synth writes into its slot (after the kind byte).
pub open spec fn spec_fm_encode(ver: Version, x: FMSynth) -> Seq<u8> {
    spec_prefix_encode(
        ver,
        x.name@,
        x.transpose,
        x.eq_number,
        x.table_tick,
        x.synth_params.volume,
        x.synth_params.pitch,
        x.synth_params.fine_tune,
    ) + seq![x.algo.0] + (if fm_has_shapes(ver) {
        seq![
            x.operators@[0].shape,
            x.operators@[1].shape,
            x.operators@[2].shape,
            x.operators@[3].shape,
        ]
    } else {
        Seq::<u8>::empty()
    }) + spec_fm_ops_encode(x) + (if ver.spec_at_least(3, 0) {
        spec_sp_encode3(x.synth_params, 2)
    } else {
        spec_sp_encode2(x.synth_params)
    })
}

/// One operator of an FM synth decodes from the window `b`, whose
/// ratio block starts at `o`.
pub open spec fn fm_op_decodes_to(b: Seq<u8>, has_shapes: bool, o: int, k: int, op: Operator) -> bool {
    &&& op.shape == (if has_shapes {
        b[18 + k]
    } else {
        0u8
    })
    &&& op.ratio == b[o + 2 * k]
    &&& op.ratio_fine == b[o + 2 * k + 1]
    &&& op.level == b[o + 8 + 2 * k]
    &&& op.feedback == b[o + 8 + 2 * k + 1]
    &&& op.mod_a == b[o + 16 + k]
    &&& op.mod_b == b[o + 20 + k]
    &&& op.retrigger == 0
}

/// An FM synth decodes from the 214-byte window `b`: the name must
/// decode, the algorithm and (when present) waveform ids must be
/// known, and under revision 3.0 the modulator records must decode.
pub open spec fn fm_decodable(ver: Version, b: Seq<u8>) -> bool {
    &&& str_decode_ok(b.subrange(0, 12))
    &&& b[17] < 12
    &&& (fm_has_shapes(ver) ==> forall|k: int| 0 <= k < 4 ==> #[trigger] b[18 + k] < 77)
    &&& (ver.spec_at_least(3, 0) ==> sp3_decodable(b.subrange(50, 86), 2))
}

/// What an FM synth decoded from the window `b` holds.
pub open spec fn fm_decodes_to(ver: Version, b: Seq<u8>, number: u8, x: FMSynth) -> bool {
    let o = fm_ratio_start(ver);
    &&& x.number == number
    &&& x.name@ == spec_str_decode(b.subrange(0, 12))
    &&& x.transpose == spec_transp_flag(ver, b[12])
    &&& x.eq_number == spec_eq_number(ver, b[12])
    &&& x.table_tick == b[13]
    &&& x.algo == FmAlgo(b[17])
    &&& forall|k: int|
        0 <= k < 4 ==> fm_op_decodes_to(b, fm_has_shapes(ver), o, k, #[trigger] x.operators@[k])
    &&& x.mod1 == b[o + 24]
    &&& x.mod2 == b[o + 25]
    &&& x.mod3 == b[o + 26]
    &&& x.mod4 == b[o + 27]
    &&& if ver.spec_at_least(3, 0) {
        sp3_decodes_to(b.subrange(50, 86), 2, b[14], b[15], b[16], x.synth_params)
    } else {
        sp2_decodes_to(b.subrange(o + 28, o + 62), b[14], b[15], b[16], x.synth_params)
    }
}

/// An FM synth is well formed when its name fits, its algorithm and
/// waveform ids are known, its EQ number fits the packed byte for the
/// version, its parameter block fits the version's modulator layout,
/// and the fields without an on-disk byte are zero.
pub open spec fn wf_fm(ver: Version, x: FMSynth) -> bool {
    &&& fits_str_field(x.name@, 12)
    &&& x.algo.0 < 12
    &&& forall|k: int|
        0 <= k < 4 ==> ((#[trigger] x.operators@[k]).retrigger == 0 && if fm_has_shapes(ver) {
            x.operators@[k].shape < 77
        } else {
            x.operators@[k].shape == 0
        })
    &&& if ver.spec_at_least(3, 0) {
        x.eq_number < 128 && wf_sp3(x.synth_params)
    } else {
        x.eq_number == 0 && wf_sp2(x.synth_params)
    }
}

/// Two FM synths hold the same model.
pub open spec fn fm_model_eq(x: FMSynth, y: FMSynth) -> bool {
    &&& x.number == y.number
    &&& x.name@ == y.name@
    &&& x.eq_number == y.eq_number
    &&& x.transpose == y.transpose
    &&& x.table_tick == y.table_tick
    &&& x.synth_params == y.synth_params
    &&& x.algo == y.algo
    &&& x.operators == y.operators
    &&& x.mod1 == y.mod1
    &&& x.mod2 == y.mod2
    &&& x.mod3 == y.mod3
    &&& x.mod4 == y.mod4
}

impl FMSynth {
    /// Decode an FM synth from the window after its kind byte.
    pub fn from_reader(reader: &mut Reader, number: u8, version: Version) -> (r: M8Result<
        FMSynth,
    >)
        requires
            old(reader).position + 214 <= old(reader).buffer@.len(),
        ensures
            final(reader).buffer == old(reader).buffer,
            r is Ok <==> fm_decodable(
                version,
                old(reader).buffer@.subrange(
                    old(reader).position as int,
                    old(reader).position + 214,
                ),
            ),
            r matches Ok(x) ==> fm_decodes_to(
                version,
                old(reader).buffer@.subrange(
                    old(reader).position as int,
                    old(reader).position + 214,
                ),
                number,
                x,
            ),
    {
        broadcast use vstd::array::group_array_axioms;

        let ghost b = old(reader).buffer@.subrange(
            old(reader).position as int,
            old(reader).position + 214,
        );
        proof {
            assert(b.subrange(0, 12) =~= old(reader).buffer@.subrange(
                old(reader).position as int,
                old(reader).position + 12,
            ));
            assert(b.subrange(50, 86) =~= old(reader).buffer@.subrange(
                old(reader).position + 50,
                old(reader).position + 86,
            ));
            assert(b.subrange(46, 80) =~= old(reader).buffer@.subrange(
                old(reader).position + 46,
                old(reader).position + 80,
            ));
            assert(b.subrange(50, 84) =~= old(reader).buffer@.subrange(
                old(reader).position + 50,
                old(reader).position + 84,
            ));
        }
        let (name, transpeq, table_tick, volume, pitch, fine_tune) = match read_prefix(reader) {
            Ok(t) => t,
            Err(e) => {
                return Err(e);
            },
        };
        let transpose: bool = if version.at_least(3, 0) {
            (transpeq & 1) != 0
        } else {
            transpeq != 0
        };
        let eq_number: u8 = if version.at_least(3, 0) {
            transpeq >> 1
        } else {
            0
        };
        let algo_byte = reader.read();
        let algo = match FmAlgo::try_from(algo_byte) {
            Ok(a) => a,
            Err(e) => {
                return Err(e);
            },
        };
        let mut s0: u8 = 0;
        let mut s1: u8 = 0;
        let mut s2: u8 = 0;
        let mut s3: u8 = 0;
        if version.at_least(1, 4) {
            s0 = reader.read();
            if FMWave::from_id(s0).is_none() {
                proof {
                    assert(b[18 + 0int] == s0);
                    assert(!fm_decodable(version, b));
                }
                return Err(ParseError(String::from_str("invalid fm wave")));
            }
            s1 = reader.read();
            if FMWave::from_id(s1).is_none() {
                proof {
                    assert(b[18 + 1int] == s1);
                    assert(!fm_decodable(version, b));
                }
                return Err(ParseError(String::from_str("invalid fm wave")));
            }
            s2 = reader.read();
            if FMWave::from_id(s2).is_none() {
                proof {
                    assert(b[18 + 2int] == s2);
                    assert(!fm_decodable(version, b));
                }
                return Err(ParseError(String::from_str("invalid fm wave")));
            }
            s3 = reader.read();
            if FMWave::from_id(s3).is_none() {
                proof {
                    assert(b[18 + 3int] == s3);
                    assert(!fm_decodable(version, b));
                }
                return Err(ParseError(String::from_str("invalid fm wave")));
            }
        }
        let r0 = reader.read();
        let f0 = reader.read();
        let r1 = reader.read();
        let f1 = reader.read();
        let r2 = reader.read();
        let f2 = reader.read();
        let r3 = reader.read();
        let f3 = reader.read();
        let l0 = reader.read();
        let fb0 = reader.read();
        let l1 = reader.read();
        let fb1 = reader.read();
        let l2 = reader.read();
        let fb2 = reader.read();
        let l3 = reader.read();
        let fb3 = reader.read();
        let a0 = reader.read();
        let a1 = reader.read();
        let a2 = reader.read();
        let a3 = reader.read();
        let b0 = reader.read();
        let b1 = reader.read();
        let b2 = reader.read();
        let b3 = reader.read();
        let mod1 = reader.read();
        let mod2 = reader.read();
        let mod3 = reader.read();
        let mod4 = reader.read();
        let synth_params = if version.at_least(3, 0) {
            SynthParams::from_reader3(reader, volume, pitch, fine_tune, 2)
        } else {
            SynthParams::from_reader2(reader, volume, pitch, fine_tune)
        };
        let synth_params = match synth_params {
            Ok(p) => p,
            Err(e) => {
                return Err(e);
            },
        };
        proof {
            if version.spec_at_least(1, 4) {
                assert(b[18 + 0int] == s0);
                assert(b[18 + 1int] == s1);
                assert(b[18 + 2int] == s2);
                assert(b[18 + 3int] == s3);
            }
        }
        let operators = [
            Operator {
                shape: s0,
                ratio: r0,
                ratio_fine: f0,
                level: l0,
                feedback: fb0,
                retrigger: 0,
                mod_a: a0,
                mod_b: b0,
            },
            Operator {
                shape: s1,
                ratio: r1,
                ratio_fine: f1,
                level: l1,
                feedback: fb1,
                retrigger: 0,
                mod_a: a1,
                mod_b: b1,
            },
            Operator {
                shape: s2,
                ratio: r2,
                ratio_fine: f2,
                level: l2,
                feedback: fb2,
                retrigger: 0,
                mod_a: a2,
                mod_b: b2,
            },
            Operator {
                shape: s3,
                ratio: r3,
                ratio_fine: f3,
                level: l3,
                feedback: fb3,
                retrigger: 0,
                mod_a: a3,
                mod_b: b3,
            },
        ];
        Ok(
            FMSynth {
                number,
                name,
                eq_number,
                transpose,
                table_tick,
                synth_params,
                algo,
                operators,
                mod1,
                mod2,
                mod3,
                mod4,
            },
        )
    }

    /// Append the transposed operator arrays and the four mod bytes.
    fn write_ops(&self, w: &mut Writer)
        ensures
            final(w).buffer@ == old(w).buffer@ + spec_fm_ops_encode(*self),
    {
        broadcast use vstd::array::group_array_axioms;

        w.write(self.operators[0].ratio);
        w.write(self.operators[0].ratio_fine);
        w.write(self.operators[1].ratio);
        w.write(self.operators[1].ratio_fine);
        w.write(self.operators[2].ratio);
        w.write(self.operators[2].ratio_fine);
        w.write(self.operators[3].ratio);
        w.write(self.operators[3].ratio_fine);
        w.write(self.operators[0].level);
        w.write(self.operators[0].feedback);
        w.write(self.operators[1].level);
        w.write(self.operators[1].feedback);
        w.write(self.operators[2].level);
        w.write(self.operators[2].feedback);
        w.write(self.operators[3].level);
        w.write(self.operators[3].feedback);
        w.write(self.operators[0].mod_a);
        w.write(self.operators[1].mod_a);
        w.write(self.operators[2].mod_a);
        w.write(self.operators[3].mod_a);
        w.write(self.operators[0].mod_b);
        w.write(self.operators[1].mod_b);
        w.write(self.operators[2].mod_b);
        w.write(self.operators[3].mod_b);
        w.write(self.mod1);
        w.write(self.mod2);
        w.write(self.mod3);
        w.write(self.mod4);
        assert(final(w).buffer@ =~= old(w).buffer@ + spec_fm_ops_encode(*self));
    }

    /// Encode an FM synth into its slot (after the kind byte).
    #[verifier::rlimit(100)]
    pub fn write(&self, ver: Version, w: &mut Writer)
        ensures
            final(w).buffer@ == old(w).buffer@ + spec_fm_encode(ver, *self),
    {
        broadcast use vstd::array::group_array_axioms;

        write_prefix(
            w,
            ver,
            self.name.as_str(),
            self.transpose,
            self.eq_number,
            self.table_tick,
            self.synth_params.volume,
            self.synth_params.pitch,
            self.synth_params.fine_tune,
        );
        w.write(self.algo.0);
        if ver.at_least(1, 4) {
            w.write(self.operators[0].shape);
            w.write(self.operators[1].shape);
            w.write(self.operators[2].shape);
            w.write(self.operators[3].shape);
        }
        self.write_ops(w);
        if ver.at_least(3, 0) {
            self.synth_params.write3(w, 2);
        } else {
            self.synth_params.write2(w);
        }
        assert(final(w).buffer@ =~= old(w).buffer@ + spec_fm_encode(ver, *self));
    }
}

/// A well-formed FM synth decodes back from its own slot, and only to
/// itself.
#[verifier::rlimit(100)]
pub proof fn lemma_fm_round_trip(ver: Version, x: FMSynth, y: FMSynth)
    requires
        wf_fm(ver, x),
        fm_decodes_to(ver, pad_ff(spec_fm_encode(ver, x), 214), x.number, y),
    ensures
        fm_model_eq(x, y),
{
    broadcast use vstd::array::group_array_axioms;

    let b = pad_ff(spec_fm_encode(ver, x), 214);
    let o = fm_ratio_start(ver);
    assert(b.subrange(0, 12) =~= spec_str_encode(x.name@, 12));
    crate::reader::lemma_str_round_trip(x.name@, 12);
    lemma_transp_eq_round_trip(ver, x.transpose, x.eq_number);
    assert forall|k: int| 0 <= k < 4 implies y.operators@[k] == x.operators@[k] by {
        assert(fm_op_decodes_to(b, fm_has_shapes(ver), o, k, y.operators@[k]));
        if k == 0 {
            assert(fm_op_decodes_to(b, fm_has_shapes(ver), o, 0, x.operators@[0]));
        } else if k == 1 {
            assert(fm_op_decodes_to(b, fm_has_shapes(ver), o, 1, x.operators@[1]));
        } else if k == 2 {
            assert(fm_op_decodes_to(b, fm_has_shapes(ver), o, 2, x.operators@[2]));
        } else {
            assert(fm_op_decodes_to(b, fm_has_shapes(ver), o, 3, x.operators@[3]));
        }
    }
    assert(y.operators =~= x.operators);
    if ver.spec_at_least(3, 0) {
        assert(b.subrange(50, 86) =~= spec_sp_encode3(x.synth_params, 2));
        lemma_sp3_round_trip(x.synth_params, 2, y.synth_params);
    } else {
        assert(b.subrange(o + 28, o + 62) =~= spec_sp_encode2(x.synth_params));
        lemma_sp2_round_trip(x.synth_params, y.synth_params);
    }
}

/// The window of an encoded well-formed FM synth has a decode.
pub proof fn lemma_fm_decodable(ver: Version, x: FMSynth)
    requires
        wf_fm(ver, x),
    ensures
        fm_decodable(ver, pad_ff(spec_fm_encode(ver, x), 214)),
{
    broadcast use vstd::array::group_array_axioms;

    let b = pad_ff(spec_fm_encode(ver, x), 214);
    assert(b.subrange(0, 12) =~= spec_str_encode(x.name@, 12));
    crate::reader::lemma_str_round_trip(x.name@, 12);
    if fm_has_shapes(ver) {
        assert forall|k: int| 0 <= k < 4 implies #[trigger] b[18 + k] < 77 by {
            if k == 0 {
                assert(b[18] == x.operators@[0].shape);
            } else if k == 1 {
                assert(b[19] == x.operators@[1].shape);
            } else if k == 2 {
                assert(b[20] == x.operators@[2].shape);
            } else {
                assert(b[21] == x.operators@[3].shape);
            }
        }
    }
    if ver.spec_at_least(3, 0) {
        assert(b.subrange(50, 86) =~= spec_sp_encode3(x.synth_params, 2));
        lemma_sp3_decodable(x.synth_params, 2);
    }
}

impl FMSynth {
    /// The instrument-specific command mnemonics addressed by command
    /// ids of 0x80 and above: one extra command before revision 6.0,
    /// two from it on.
    pub fn command_name(&self, ver: Version) -> (r: Vec<&'static str>)
        ensures
            ver.spec_at_least(6, 0) ==> r@.len() == 20,
            !ver.spec_at_least(6, 0) ==> r@.len() == 19,
    {
        if ver.at_least(6, 0) {
            let mut r: Vec<&'static str> = Vec::new();
            r.push("VOL");
            r.push("PIT");
            r.push("FIN");
            r.push("ALG");
            r.push("FM1");
            r.push("FM2");
            r.push("FM3");
            r.push("FM4");
            r.push("FLT");
            r.push("CUT");
            r.push("RES");
            r.push("AMP");
            r.push("LIM");
            r.push("PAN");
            r.push("DRY");
            r.push("SCH");
            r.push("SDL");
            r.push("SRV");
            r.push("SNC");
            r.push("ERR");
            r
        } else {
            let mut r: Vec<&'static str> = Vec::new();
            r.push("VOL");
            r.push("PIT");
            r.push("FIN");
            r.push("ALG");
            r.push("FM1");
            r.push("FM2");
            r.push("FM3");
            r.push("FM4");
            r.push("FLT");
            r.push("CUT");
            r.push("RES");
            r.push("AMP");
            r.push("LIM");
            r.push("PAN");
            r.push("DRY");
            r.push("SCH");
            r.push("SDL");
            r.push("SRV");
            r.push("FMP");
            r
        }
    }

    /// The modulation destination names of this instrument.
    pub fn destination_names(&self, _ver: Version) -> (r: Vec<&'static str>)
        ensures
            r@.len() == 15,
    {
        let mut r: Vec<&'static str> = Vec::new();
        r.push("OFF");
        r.push("VOLUME");
        r.push("PITCH");
        r.push("MOD1");
        r.push("MOD2");
        r.push("MOD3");
        r.push("MOD4");
        r.push("CUTOFF");
        r.push("RES");
        r.push("AMP");
        r.push("PAN");
        r.push("MOD AMT");
        r.push("MOD RATE");
        r.push("MOD BOTH");
        r.push("MOD BINV");
        r
    }

    /// The filter types this instrument can use.
    pub fn filter_types(&self, _ver: Version) -> (r: Vec<&'static str>)
        ensures
            r@.len() == 6,
    {
        crate::instrument::common_filter_types()
    }

    /// Human-readable name of this instrument's filter type.
    pub fn human_readable_filter(&self) -> (r: &'static str)
        requires
            self.synth_params.filter_type < 6,
    {
        match self.synth_params.filter_type {
            0 => "OFF",
            1 => "LOWPASS",
            2 => "HIGHPASS",
            3 => "BANDPASS",
            4 => "BANDSTOP",
            _ => "LP>HP",
        }
    }
}

} // verus!
