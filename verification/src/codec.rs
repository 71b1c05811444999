//! The byte codec shared with the transition kernel: each cell is one
//! little-endian 32-bit word, 0 = dead, 1 = alive, in row-major cell order.

use vstd::prelude::*;
use crate::grid::GameState;

verus! {

/// The byte sequence a cell sequence encodes to: four bytes per cell,
/// the first byte 1 for a live cell and 0 otherwise, the rest 0.
pub open spec fn encoded(cells: Seq<bool>) -> Seq<u8> {
    Seq::new(cells.len() * 4, |j: int| if cells[j / 4] && j % 4 == 0 { 1u8 } else { 0u8 })
}

/// The 32-bit value of the word that cell `i` occupies.
pub open spec fn word_val(bytes: Seq<u8>, i: int) -> int {
    bytes[4 * i] + 0x100 * bytes[4 * i + 1] + 0x1_0000 * bytes[4 * i + 2] + 0x100_0000 * bytes[
        4 * i + 3]
}

/// The word of cell `i` is a legal cell flag: 0 or 1.
pub open spec fn word_ok(bytes: Seq<u8>, i: int) -> bool {
    word_val(bytes, i) == 0 || word_val(bytes, i) == 1
}

/// The bytes are a legal kernel buffer image: whole words, every word 0 or 1.
pub open spec fn valid_encoding(bytes: Seq<u8>) -> bool {
    &&& bytes.len() % 4 == 0
    &&& forall|i: int| 0 <= i < bytes.len() / 4 ==> word_ok(bytes, i)
}

/// The cell sequence a legal buffer image decodes to.
pub open spec fn decoded(bytes: Seq<u8>) -> Seq<bool> {
    Seq::new((bytes.len() / 4) as nat, |i: int| bytes[4 * i] == 1)
}

/// Why a buffer image failed to decode. A failure is fatal to the caller:
/// it means the kernel produced out-of-contract data.
#[derive(Debug, PartialEq, Eq, Structural)]
pub enum DecodeError {
    /// The byte count is not `width * height * 4`.
    WrongLength { expected: usize, actual: usize },
    /// The word of cell `index` (linear, row-major) holds `value`,
    /// which is neither 0 nor 1.
    BadCell { index: usize, value: u32 },
}

proof fn lemma_div4(i: int, k: int)
    requires
        0 <= k < 4,
    ensures
        (4 * i + k) / 4 == i,
        (4 * i + k) % 4 == k,
{
    assert((4 * i + k) / 4 == i && (4 * i + k) % 4 == k) by (nonlinear_arith)
        requires 0 <= k < 4;
}

/// Round-trip law: the encoding of any cell sequence is a legal buffer
/// image, and decoding it gives back exactly that sequence.
pub proof fn lemma_encode_decode_roundtrip(cells: Seq<bool>)
    ensures
        encoded(cells).len() == cells.len() * 4,
        valid_encoding(encoded(cells)),
        decoded(encoded(cells)) == cells,
{
    let b = encoded(cells);
    assert(b.len() % 4 == 0) by {
        lemma_div4(cells.len() as int, 0);
    }
    assert forall|i: int| 0 <= i < b.len() / 4 implies word_ok(b, i) by {
        lemma_div4(cells.len() as int, 0);
        lemma_div4(i, 0);
        lemma_div4(i, 1);
        lemma_div4(i, 2);
        lemma_div4(i, 3);
    }
    assert(decoded(b) =~= cells) by {
        lemma_div4(cells.len() as int, 0);
        assert forall|i: int| 0 <= i < cells.len() implies decoded(b)[i] == cells[i] by {
            lemma_div4(i, 0);
        }
    }
}

/// A legal buffer image is exactly the encoding of its decoding: the codec
/// loses nothing in either direction.
pub proof fn lemma_decode_encode_roundtrip(bytes: Seq<u8>)
    requires
        valid_encoding(bytes),
    ensures
        encoded(decoded(bytes)) == bytes,
{
    let cells = decoded(bytes);
    assert(encoded(cells) =~= bytes) by {
        assert forall|j: int| 0 <= j < bytes.len() implies encoded(cells)[j] == bytes[j] by {
            let i = j / 4;
            let k = j % 4;
            assert(j == 4 * i + k && 0 <= k < 4) by (nonlinear_arith)
                requires i == j / 4 && k == j % 4 && 0 <= j;
            lemma_div4(i, k);
            assert(0 <= i < bytes.len() / 4) by (nonlinear_arith)
                requires 0 <= 4 * i + k < bytes.len() && 0 <= k < 4 && bytes.len() % 4 == 0;
            assert(word_ok(bytes, i));
            if word_val(bytes, i) == 0 {
                assert(bytes[4 * i] == 0 && bytes[4 * i + 1] == 0 && bytes[4 * i + 2] == 0
                    && bytes[4 * i + 3] == 0);
            } else {
                assert(bytes[4 * i] == 1 && bytes[4 * i + 1] == 0 && bytes[4 * i + 2] == 0
                    && bytes[4 * i + 3] == 0);
            }
        }
    }
}

/// Round-trip law at grid level: what `serialize` produces for a
/// well-formed grid is a legal buffer image of exactly the grid's byte
/// size, and decodes back to the grid's own cells — so `deserialize` of a
/// `serialize` result, at the grid's dimensions, returns `Ok` of an equal
/// grid.
pub proof fn lemma_grid_round_trip(g: GameState)
    requires
        g.wf(),
    ensures
        encoded(g.view()).len() == g.width * g.height * 4,
        valid_encoding(encoded(g.view())),
        decoded(encoded(g.view())) == g.view(),
{
    lemma_encode_decode_roundtrip(g.view());
    assert(g.view().len() * 4 == g.width * g.height * 4);
}

impl GameState {
    /// Marshal the grid into the kernel's input-buffer layout: row-major,
    /// four bytes per cell, little-endian 0 or 1.
    pub fn serialize(&self) -> (bytes: Vec<u8>)
        requires
            self.wf(),
        ensures
            bytes@ == encoded(self.view()),
            bytes@.len() == self.width * self.height * 4,
    {
        let n = self.width * self.height;
        let mut bytes: Vec<u8> = Vec::new();
        let mut i: usize = 0;
        while i < n
            invariant
                i <= n,
                n == self.cells@.len(),
                n * 4 <= usize::MAX,
                bytes@.len() == i * 4,
                forall|j: int| 0 <= j < i * 4 ==> bytes@[j] == (
                    if self.cells@[j / 4] && j % 4 == 0 { 1u8 } else { 0u8 }),
            decreases n - i,
        {
            let alive = self.cells[i];
            bytes.push(if alive { 1u8 } else { 0u8 });
            bytes.push(0u8);
            bytes.push(0u8);
            bytes.push(0u8);
            proof {
                lemma_div4(i as int, 0);
                lemma_div4(i as int, 1);
                lemma_div4(i as int, 2);
                lemma_div4(i as int, 3);
                assert forall|j: int| 0 <= j < (i + 1) * 4 implies bytes@[j] == (
                    if self.cells@[j / 4] && j % 4 == 0 { 1u8 } else { 0u8 }) by {
                    if j >= i * 4 {
                        let k = j - 4 * i;
                        lemma_div4(i as int, k);
                    }
                }
            }
            i = i + 1;
        }
        assert(bytes@ =~= encoded(self.view()));
        bytes
    }

    /// Unmarshal a kernel output-buffer image into a grid of the given
    /// dimensions. Succeeds exactly on legal images of the right length;
    /// any other input is rejected, never coerced. A `BadCell` error names
    /// the first offending cell and the value found there.
    pub fn deserialize(bytes: &[u8], width: usize, height: usize) -> (r: Result<
        GameState,
        DecodeError,
    >)
        requires
            width * height * 4 <= usize::MAX,
        ensures
            (r is Ok) <==> (bytes@.len() == width * height * 4 && valid_encoding(bytes@)),
            match r {
                Ok(g) => {
                    &&& g.wf()
                    &&& g.width == width
                    &&& g.height == height
                    &&& g.view() == decoded(bytes@)
                    &&& encoded(g.view()) == bytes@
                },
                Err(DecodeError::WrongLength { expected, actual }) => {
                    &&& expected == width * height * 4
                    &&& actual == bytes@.len()
                    &&& bytes@.len() != width * height * 4
                },
                Err(DecodeError::BadCell { index, value }) => {
                    &&& bytes@.len() == width * height * 4
                    &&& index < width * height
                    &&& !word_ok(bytes@, index as int)
                    &&& value == word_val(bytes@, index as int)
                    &&& forall|j: int| 0 <= j < index ==> word_ok(bytes@, j)
                },
            },
    {
        let n = width * height;
        let expected = n * 4;
        if bytes.len() != expected {
            return Err(DecodeError::WrongLength { expected, actual: bytes.len() });
        }
        proof {
            lemma_div4(n as int, 0);
        }
        let mut cells: Vec<bool> = Vec::new();
        let mut i: usize = 0;
        while i < n
            invariant
                i <= n,
                n == width * height,
                bytes@.len() == n * 4,
                n * 4 <= usize::MAX,
                cells@.len() == i,
                forall|j: int| 0 <= j < i ==> word_ok(bytes@, j),
                forall|j: int| 0 <= j < i ==> cells@[j] == (bytes@[4 * j] == 1),
            decreases n - i,
        {
            proof {
                lemma_div4(i as int, 0);
                lemma_div4(i as int, 3);
                assert(4 * i + 3 < n * 4) by (nonlinear_arith)
                    requires i < n;
            }
            let base = i * 4;
            let b0 = bytes[base];
            let b1 = bytes[base + 1];
            let b2 = bytes[base + 2];
            let b3 = bytes[base + 3];
            let value: u32 = b0 as u32 + 0x100 * b1 as u32 + 0x1_0000 * b2 as u32 + 0x100_0000
                * b3 as u32;
            if value == 0 {
                cells.push(false);
            } else if value == 1 {
                cells.push(true);
            } else {
                proof {
                    lemma_div4(n as int, 0);
                    assert(bytes@.len() / 4 == n);
                    assert(word_val(bytes@, i as int) == value);
                    assert(!word_ok(bytes@, i as int));
                    assert(!valid_encoding(bytes@));
                }
                return Err(DecodeError::BadCell { index: i, value });
            }
            i = i + 1;
        }
        let g = GameState { width, height, cells };
        proof {
            assert(g.view() =~= decoded(bytes@)) by {
                lemma_div4(n as int, 0);
            }
            lemma_decode_encode_roundtrip(bytes@);
        }
        Ok(g)
    }
}

} // verus!
