use vstd::prelude::*;

verus! {

use crate::fx::FX;
use crate::fx::spec_fx_decode;
use crate::fx::spec_fx_encode;
use crate::fx::spec_map_instr;
use crate::instrument::Instrument;
use crate::reader::M8Result;
use crate::reader::Reader;
use crate::reader::Writer;
use crate::remapper::EqMapping;
use crate::remapper::InstrumentMapping;
use crate::remapper::TableMapping;
use crate::remapper::spec_is_identity;

/// One cell of a chain: a phrase number and a transpose. A phrase
/// number of 0xFF marks the empty cell.
#[derive(PartialEq, Eq, Structural, Debug, Clone, Copy)]
pub struct ChainCell {
    pub phrase: u8,
    pub transpose: u8,
}

/// One chain: an ordered fixed-length run of cells.
#[derive(PartialEq, Debug, Clone)]
pub struct Chain {
    pub cells: Vec<ChainCell>,
}

/// One row of a phrase: a note, its velocity, an instrument number
/// (0xFF marks the empty reference) and three FX cells.
#[derive(PartialEq, Eq, Structural, Debug, Clone, Copy)]
pub struct PhraseRow {
    pub note: u8,
    pub velocity: u8,
    pub instrument: u8,
    pub fx1: FX,
    pub fx2: FX,
    pub fx3: FX,
}

/// One phrase: an ordered fixed-length run of rows.
#[derive(PartialEq, Debug, Clone)]
pub struct Phrase {
    pub rows: Vec<PhraseRow>,
}

/// A song: global settings, the chain grid (row-major chain numbers),
/// and the owned collections the grid and phrases refer to by index.
#[derive(PartialEq, Debug, Clone)]
pub struct Song {
    pub name: String,
    pub tempo: u8,
    pub transpose: u8,
    pub song_grid: Vec<u8>,
    pub chains: Vec<Chain>,
    pub phrases: Vec<Phrase>,
    pub instruments: Vec<Instrument>,
}

/// The two bytes a chain cell encodes to.
pub open spec fn spec_chain_cell_encode(c: ChainCell) -> Seq<u8> {
    seq![c.phrase, c.transpose]
}

/// The chain cell a two-byte window decodes to.
pub open spec fn spec_chain_cell_decode(b: Seq<u8>) -> ChainCell {
    ChainCell { phrase: b[0], transpose: b[1] }
}

/// The nine bytes a phrase row encodes to: note, velocity, instrument
/// number, then the three FX cells.
pub open spec fn spec_phrase_row_encode(r: PhraseRow) -> Seq<u8> {
    seq![r.note, r.velocity, r.instrument] + spec_fx_encode(r.fx1) + spec_fx_encode(r.fx2)
        + spec_fx_encode(r.fx3)
}

/// The phrase row a nine-byte window decodes to.
pub open spec fn spec_phrase_row_decode(b: Seq<u8>) -> PhraseRow {
    PhraseRow {
        note: b[0],
        velocity: b[1],
        instrument: b[2],
        fx1: spec_fx_decode(b.subrange(3, 5)),
        fx2: spec_fx_decode(b.subrange(5, 7)),
        fx3: spec_fx_decode(b.subrange(7, 9)),
    }
}

/// Every chain cell decodes back from its own two bytes.
pub proof fn lemma_chain_cell_round_trip(c: ChainCell)
    ensures
        spec_chain_cell_decode(spec_chain_cell_encode(c)) == c,
{
}

/// Every phrase row decodes back from its own nine bytes.
pub proof fn lemma_phrase_row_round_trip(r: PhraseRow)
    ensures
        spec_phrase_row_decode(spec_phrase_row_encode(r)) == r,
{
    let b = spec_phrase_row_encode(r);
    assert(b.subrange(3, 5) =~= spec_fx_encode(r.fx1));
    assert(b.subrange(5, 7) =~= spec_fx_encode(r.fx2));
    assert(b.subrange(7, 9) =~= spec_fx_encode(r.fx3));
}

impl ChainCell {
    /// Decode the two-byte cell.
    pub fn from_reader(reader: &mut Reader) -> (r: M8Result<ChainCell>)
        requires
            old(reader).position + 2 <= old(reader).buffer@.len(),
        ensures
            final(reader).buffer == old(reader).buffer,
            final(reader).position == old(reader).position + 2,
            r matches Ok(c) && c == spec_chain_cell_decode(
                old(reader).buffer@.subrange(old(reader).position as int, old(reader).position + 2),
            ),
    {
        Ok(Self { phrase: reader.read(), transpose: reader.read() })
    }

    /// Encode the two-byte cell.
    pub fn write(self, w: &mut Writer)
        ensures
            final(w).buffer@ == old(w).buffer@ + spec_chain_cell_encode(self),
    {
        w.write(self.phrase);
        w.write(self.transpose);
        assert(final(w).buffer@ =~= old(w).buffer@ + spec_chain_cell_encode(self));
    }
}

impl PhraseRow {
    /// Decode the nine-byte row.
    pub fn from_reader(reader: &mut Reader) -> (r: M8Result<PhraseRow>)
        requires
            old(reader).position + 9 <= old(reader).buffer@.len(),
        ensures
            final(reader).buffer == old(reader).buffer,
            final(reader).position == old(reader).position + 9,
            r matches Ok(row) && row == spec_phrase_row_decode(
                old(reader).buffer@.subrange(old(reader).position as int, old(reader).position + 9),
            ),
    {
        let ghost b = old(reader).buffer@.subrange(
            old(reader).position as int,
            old(reader).position + 9,
        );
        proof {
            assert(b.subrange(3, 5) =~= old(reader).buffer@.subrange(
                old(reader).position + 3,
                old(reader).position + 5,
            ));
            assert(b.subrange(5, 7) =~= old(reader).buffer@.subrange(
                old(reader).position + 5,
                old(reader).position + 7,
            ));
            assert(b.subrange(7, 9) =~= old(reader).buffer@.subrange(
                old(reader).position + 7,
                old(reader).position + 9,
            ));
        }
        let note = reader.read();
        let velocity = reader.read();
        let instrument = reader.read();
        let fx1 = match FX::from_reader(reader) {
            Ok(f) => f,
            Err(e) => {
                return Err(e);
            },
        };
        let fx2 = match FX::from_reader(reader) {
            Ok(f) => f,
            Err(e) => {
                return Err(e);
            },
        };
        let fx3 = match FX::from_reader(reader) {
            Ok(f) => f,
            Err(e) => {
                return Err(e);
            },
        };
        Ok(PhraseRow { note, velocity, instrument, fx1, fx2, fx3 })
    }

    /// Encode the nine-byte row.
    pub fn write(self, w: &mut Writer)
        ensures
            final(w).buffer@ == old(w).buffer@ + spec_phrase_row_encode(self),
    {
        w.write(self.note);
        w.write(self.velocity);
        w.write(self.instrument);
        self.fx1.write(w);
        self.fx2.write(w);
        self.fx3.write(w);
        assert(final(w).buffer@ =~= old(w).buffer@ + spec_phrase_row_encode(self));
    }
}

impl Chain {
    /// Decode a chain of `count` two-byte cells.
    pub fn from_reader(reader: &mut Reader, count: usize) -> (r: M8Result<Chain>)
        requires
            old(reader).position + 2 * count <= old(reader).buffer@.len(),
        ensures
            final(reader).buffer == old(reader).buffer,
            final(reader).position == old(reader).position + 2 * count,
            r matches Ok(c) && c.cells@.len() == count && forall|k: int|
                0 <= k < count ==> #[trigger] c.cells@[k] == spec_chain_cell_decode(
                    old(reader).buffer@.subrange(
                        old(reader).position + 2 * k,
                        old(reader).position + 2 * k + 2,
                    ),
                ),
    {
        let mut cells: Vec<ChainCell> = Vec::new();
        let mut k: usize = 0;
        while k < count
            invariant
                k <= count,
                old(reader).position + 2 * count <= old(reader).buffer@.len(),
                reader.buffer == old(reader).buffer,
                reader.position == old(reader).position + 2 * k,
                cells@.len() == k,
                forall|j: int|
                    0 <= j < k ==> #[trigger] cells@[j] == spec_chain_cell_decode(
                        old(reader).buffer@.subrange(
                            old(reader).position + 2 * j,
                            old(reader).position + 2 * j + 2,
                        ),
                    ),
            decreases count - k,
        {
            let cell = match ChainCell::from_reader(reader) {
                Ok(c) => c,
                Err(e) => {
                    return Err(e);
                },
            };
            cells.push(cell);
            k = k + 1;
        }
        Ok(Chain { cells })
    }

    /// Encode every cell of this chain, two bytes each.
    pub fn write(&self, w: &mut Writer)
        ensures
            final(w).buffer@.len() == old(w).buffer@.len() + 2 * self.cells@.len(),
            forall|k: int|
                0 <= k < self.cells@.len() ==> #[trigger] final(w).buffer@.subrange(
                    old(w).buffer@.len() + 2 * k,
                    old(w).buffer@.len() + 2 * k + 2,
                ) == spec_chain_cell_encode(self.cells@[k]),
    {
        let n: usize = self.cells.len();
        let mut k: usize = 0;
        while k < n
            invariant
                k <= n,
                n == self.cells@.len(),
                w.buffer@.len() == old(w).buffer@.len() + 2 * k,
                forall|j: int| 0 <= j < old(w).buffer@.len() ==> w.buffer@[j] == old(w).buffer@[j],
                forall|j: int|
                    0 <= j < k ==> #[trigger] w.buffer@.subrange(
                        old(w).buffer@.len() + 2 * j,
                        old(w).buffer@.len() + 2 * j + 2,
                    ) == spec_chain_cell_encode(self.cells@[j]),
            decreases n - k,
        {
            let ghost before = w.buffer@;
            let cell = self.cells[k];
            cell.write(w);
            k = k + 1;
            proof {
                assert forall|j: int|
                    0 <= j < k implies #[trigger] w.buffer@.subrange(
                        old(w).buffer@.len() + 2 * j,
                        old(w).buffer@.len() + 2 * j + 2,
                    ) == spec_chain_cell_encode(self.cells@[j]) by {
                    if j < k - 1 {
                        assert(w.buffer@.subrange(
                            old(w).buffer@.len() + 2 * j,
                            old(w).buffer@.len() + 2 * j + 2,
                        ) =~= before.subrange(
                            old(w).buffer@.len() + 2 * j,
                            old(w).buffer@.len() + 2 * j + 2,
                        ));
                    } else {
                        assert(w.buffer@.subrange(
                            old(w).buffer@.len() + 2 * j,
                            old(w).buffer@.len() + 2 * j + 2,
                        ) =~= spec_chain_cell_encode(self.cells@[j]));
                    }
                }
            }
        }
    }
}

impl Phrase {
    /// Decode a phrase of `count` nine-byte rows.
    pub fn from_reader(reader: &mut Reader, count: usize) -> (r: M8Result<Phrase>)
        requires
            old(reader).position + 9 * count <= old(reader).buffer@.len(),
        ensures
            final(reader).buffer == old(reader).buffer,
            final(reader).position == old(reader).position + 9 * count,
            r matches Ok(p) && p.rows@.len() == count && forall|k: int|
                0 <= k < count ==> #[trigger] p.rows@[k] == spec_phrase_row_decode(
                    old(reader).buffer@.subrange(
                        old(reader).position + 9 * k,
                        old(reader).position + 9 * k + 9,
                    ),
                ),
    {
        let mut rows: Vec<PhraseRow> = Vec::new();
        let mut k: usize = 0;
        while k < count
            invariant
                k <= count,
                old(reader).position + 9 * count <= old(reader).buffer@.len(),
                reader.buffer == old(reader).buffer,
                reader.position == old(reader).position + 9 * k,
                rows@.len() == k,
                forall|j: int|
                    0 <= j < k ==> #[trigger] rows@[j] == spec_phrase_row_decode(
                        old(reader).buffer@.subrange(
                            old(reader).position + 9 * j,
                            old(reader).position + 9 * j + 9,
                        ),
                    ),
            decreases count - k,
        {
            let row = match PhraseRow::from_reader(reader) {
                Ok(r) => r,
                Err(e) => {
                    return Err(e);
                },
            };
            rows.push(row);
            k = k + 1;
        }
        Ok(Phrase { rows })
    }

    /// Encode every row of this phrase, nine bytes each.
    pub fn write(&self, w: &mut Writer)
        ensures
            final(w).buffer@.len() == old(w).buffer@.len() + 9 * self.rows@.len(),
            forall|k: int|
                0 <= k < self.rows@.len() ==> #[trigger] final(w).buffer@.subrange(
                    old(w).buffer@.len() + 9 * k,
                    old(w).buffer@.len() + 9 * k + 9,
                ) == spec_phrase_row_encode(self.rows@[k]),
    {
        let n: usize = self.rows.len();
        let mut k: usize = 0;
        while k < n
            invariant
                k <= n,
                n == self.rows@.len(),
                w.buffer@.len() == old(w).buffer@.len() + 9 * k,
                forall|j: int| 0 <= j < old(w).buffer@.len() ==> w.buffer@[j] == old(w).buffer@[j],
                forall|j: int|
                    0 <= j < k ==> #[trigger] w.buffer@.subrange(
                        old(w).buffer@.len() + 9 * j,
                        old(w).buffer@.len() + 9 * j + 9,
                    ) == spec_phrase_row_encode(self.rows@[j]),
            decreases n - k,
        {
            let ghost before = w.buffer@;
            let row = self.rows[k];
            row.write(w);
            k = k + 1;
            proof {
                assert forall|j: int|
                    0 <= j < k implies #[trigger] w.buffer@.subrange(
                        old(w).buffer@.len() + 9 * j,
                        old(w).buffer@.len() + 9 * j + 9,
                    ) == spec_phrase_row_encode(self.rows@[j]) by {
                    if j < k - 1 {
                        assert(w.buffer@.subrange(
                            old(w).buffer@.len() + 9 * j,
                            old(w).buffer@.len() + 9 * j + 9,
                        ) =~= before.subrange(
                            old(w).buffer@.len() + 9 * j,
                            old(w).buffer@.len() + 9 * j + 9,
                        ));
                    } else {
                        assert(w.buffer@.subrange(
                            old(w).buffer@.len() + 9 * j,
                            old(w).buffer@.len() + 9 * j + 9,
                        ) =~= spec_phrase_row_encode(self.rows@[j]));
                    }
                }
            }
        }
    }
}

/// An instrument reference rewritten under renumbering: replaced by
/// its mapped value when it lies inside the mapping table, untouched
/// otherwise (the empty reference 0xFF lies outside every table of at
/// most 255 entries).
pub open spec fn spec_remap_instr_ref(i: u8, m: Seq<u8>) -> u8 {
    if i < m.len() {
        m[i as int]
    } else {
        i
    }
}

/// One phrase row rewritten under renumbering: the instrument
/// reference by table lookup, each FX cell through its tracking sets;
/// note and velocity are untouched.
pub open spec fn spec_remap_row(
    row: PhraseRow,
    im: InstrumentMapping,
    tm: TableMapping,
    em: EqMapping,
) -> PhraseRow {
    PhraseRow {
        note: row.note,
        velocity: row.velocity,
        instrument: spec_remap_instr_ref(row.instrument, im.mapping@),
        fx1: spec_map_instr(row.fx1, im, tm, em),
        fx2: spec_map_instr(row.fx2, im, tm, em),
        fx3: spec_map_instr(row.fx3, im, tm, em),
    }
}

impl PhraseRow {
    /// Rewrite this row under instrument, table and EQ renumbering.
    pub fn remap(
        self,
        im: &InstrumentMapping,
        tm: &TableMapping,
        em: &EqMapping,
    ) -> (r: PhraseRow)
        ensures
            r == spec_remap_row(self, *im, *tm, *em),
    {
        let uref: usize = self.instrument as usize;
        let instrument: u8 = if uref < im.mapping.len() {
            im.mapping[uref]
        } else {
            self.instrument
        };
        PhraseRow {
            note: self.note,
            velocity: self.velocity,
            instrument,
            fx1: self.fx1.map_instr(im, tm, em),
            fx2: self.fx2.map_instr(im, tm, em),
            fx3: self.fx3.map_instr(im, tm, em),
        }
    }
}

impl Phrase {
    /// Rewrite every row of this phrase under renumbering.
    pub fn remap(&mut self, im: &InstrumentMapping, tm: &TableMapping, em: &EqMapping)
        ensures
            final(self).rows@.len() == old(self).rows@.len(),
            forall|r: int|
                0 <= r < old(self).rows@.len() ==> final(self).rows@[r] == spec_remap_row(
                    old(self).rows@[r],
                    *im,
                    *tm,
                    *em,
                ),
    {
        let n: usize = self.rows.len();
        let mut r: usize = 0;
        while r < n
            invariant
                r <= n,
                n == self.rows@.len(),
                self.rows@.len() == old(self).rows@.len(),
                forall|j: int|
                    0 <= j < r ==> self.rows@[j] == spec_remap_row(
                        old(self).rows@[j],
                        *im,
                        *tm,
                        *em,
                    ),
                forall|j: int| r <= j < n ==> self.rows@[j] == old(self).rows@[j],
            decreases n - r,
        {
            let row = self.rows[r];
            let mapped = row.remap(im, tm, em);
            self.rows[r] = mapped;
            r = r + 1;
        }
    }
}

/// What remapping a song does: every phrase row is rewritten under
/// the three renumbering tables, and everything else - name, settings,
/// grid, chains and the owned records themselves - is untouched.
pub open spec fn spec_song_remapped(
    a: Song,
    b: Song,
    im: InstrumentMapping,
    tm: TableMapping,
    em: EqMapping,
) -> bool {
    &&& b.name == a.name
    &&& b.tempo == a.tempo
    &&& b.transpose == a.transpose
    &&& b.song_grid == a.song_grid
    &&& b.chains == a.chains
    &&& b.instruments == a.instruments
    &&& b.phrases@.len() == a.phrases@.len()
    &&& forall|p: int|
        0 <= p < a.phrases@.len() ==> #[trigger] b.phrases@[p].rows@.len()
            == a.phrases@[p].rows@.len()
    &&& forall|p: int, r: int|
        0 <= p < a.phrases@.len() && 0 <= r < a.phrases@[p].rows@.len()
            ==> #[trigger] b.phrases@[p].rows@[r] == spec_remap_row(
            a.phrases@[p].rows@[r],
            im,
            tm,
            em,
        )
}

/// Two songs hold the same model: equal settings and owned records,
/// with phrases compared row by row.
pub open spec fn song_model_eq(a: Song, b: Song) -> bool {
    &&& a.name == b.name
    &&& a.tempo == b.tempo
    &&& a.transpose == b.transpose
    &&& a.song_grid == b.song_grid
    &&& a.chains == b.chains
    &&& a.instruments == b.instruments
    &&& a.phrases@.len() == b.phrases@.len()
    &&& forall|p: int|
        0 <= p < a.phrases@.len() ==> #[trigger] a.phrases@[p].rows@ == b.phrases@[p].rows@
}

impl Song {
    /// Rewrite all cross references of this song under instrument,
    /// table and EQ renumbering: the instrument reference and the FX
    /// cells of every phrase row. Everything else - name, settings,
    /// grid, chains and the owned records themselves - is untouched.
    pub fn remap(&mut self, im: &InstrumentMapping, tm: &TableMapping, em: &EqMapping)
        ensures
            spec_song_remapped(*old(self), *final(self), *im, *tm, *em),
    {
        let n: usize = self.phrases.len();
        let mut p: usize = 0;
        while p < n
            invariant
                p <= n,
                n == self.phrases@.len(),
                self.name == old(self).name,
                self.tempo == old(self).tempo,
                self.transpose == old(self).transpose,
                self.song_grid == old(self).song_grid,
                self.chains == old(self).chains,
                self.instruments == old(self).instruments,
                self.phrases@.len() == old(self).phrases@.len(),
                forall|q: int|
                    0 <= q < p ==> #[trigger] self.phrases@[q].rows@.len()
                        == old(self).phrases@[q].rows@.len(),
                forall|q: int, r: int|
                    0 <= q < p && 0 <= r < old(self).phrases@[q].rows@.len()
                        ==> #[trigger] self.phrases@[q].rows@[r] == spec_remap_row(
                        old(self).phrases@[q].rows@[r],
                        *im,
                        *tm,
                        *em,
                    ),
                forall|q: int| p <= q < n ==> self.phrases@[q] == old(self).phrases@[q],
            decreases n - p,
        {
            let ph: &mut Phrase = &mut self.phrases[p];
            ph.remap(im, tm, em);
            p = p + 1;
        }
    }
}

/// Identity renumbering leaves every FX cell untouched.
pub proof fn lemma_map_instr_identity(f: FX, im: InstrumentMapping, tm: TableMapping, em: EqMapping)
    requires
        spec_is_identity(im.mapping@),
        spec_is_identity(tm.mapping@),
        spec_is_identity(em.mapping@),
    ensures
        spec_map_instr(f, im, tm, em) == f,
{
}

/// Identity renumbering leaves every phrase row untouched.
pub proof fn lemma_remap_row_identity(
    row: PhraseRow,
    im: InstrumentMapping,
    tm: TableMapping,
    em: EqMapping,
)
    requires
        spec_is_identity(im.mapping@),
        spec_is_identity(tm.mapping@),
        spec_is_identity(em.mapping@),
    ensures
        spec_remap_row(row, im, tm, em) == row,
{
    lemma_map_instr_identity(row.fx1, im, tm, em);
    lemma_map_instr_identity(row.fx2, im, tm, em);
    lemma_map_instr_identity(row.fx3, im, tm, em);
}

/// Remapping identity: a remap under identity renumbering tables
/// leaves the song as it was.
pub proof fn lemma_remap_identity_song(
    a: Song,
    b: Song,
    im: InstrumentMapping,
    tm: TableMapping,
    em: EqMapping,
)
    requires
        spec_is_identity(im.mapping@),
        spec_is_identity(tm.mapping@),
        spec_is_identity(em.mapping@),
        spec_song_remapped(a, b, im, tm, em),
    ensures
        song_model_eq(a, b),
{
    assert forall|p: int| 0 <= p < a.phrases@.len() implies #[trigger] a.phrases@[p].rows@
        == b.phrases@[p].rows@ by {
        assert forall|r: int| 0 <= r < a.phrases@[p].rows@.len() implies a.phrases@[p].rows@[r]
            == b.phrases@[p].rows@[r] by {
            lemma_remap_row_identity(a.phrases@[p].rows@[r], im, tm, em);
        }
        assert(a.phrases@[p].rows@ =~= b.phrases@[p].rows@);
    }
}

} // verus!
