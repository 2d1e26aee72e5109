//! The shared transposition table: an array of atomic 64-bit cells, each
//! holding one packed entry. A cell is read and written with a single
//! relaxed atomic access, so entries cannot tear; a stale or foreign entry
//! is recognized by its 16-bit key fragment and treated as a miss.
use core::sync::atomic::{AtomicU64, Ordering};
use vstd::prelude::*;

use crate::moves::Move;
use crate::types::{ScoreType, MATE_SCORE, MAX_DEPTH, MIN_TB_WIN_SCORE};

verus! {

/// The packed bound-kind byte of an entry.
#[derive(Copy, Clone, Debug)]
pub struct TTEntryInfo(pub u8);

impl TTEntryInfo {
    pub open spec fn spec_encode(score_type: ScoreType) -> u8 {
        match score_type {
            ScoreType::Exact => 0,
            ScoreType::LowerBound => 1,
            ScoreType::UpperBound => 2,
        }
    }

    /// Pack a bound kind.
    pub fn new(score_type: ScoreType) -> (r: Self)
        ensures
            r.0 == Self::spec_encode(score_type),
            r.spec_score_type() == score_type,
    {
        TTEntryInfo(
            match score_type {
                ScoreType::Exact => 0,
                ScoreType::LowerBound => 1,
                ScoreType::UpperBound => 2,
            },
        )
    }

    pub open spec fn spec_score_type(self) -> ScoreType {
        if self.0 % 4 == 0 {
            ScoreType::Exact
        } else if self.0 % 4 == 1 {
            ScoreType::LowerBound
        } else {
            ScoreType::UpperBound
        }
    }

    /// The bound kind packed in this byte.
    pub fn score_type(&self) -> (r: ScoreType)
        ensures
            r == self.spec_score_type(),
    {
        if self.0 % 4 == 0 {
            ScoreType::Exact
        } else if self.0 % 4 == 1 {
            ScoreType::LowerBound
        } else {
            ScoreType::UpperBound
        }
    }
}

/// A score as stored in the table: mate-distance scores are made
/// ply-relative on store and restored on read, so that mate distances stay
/// comparable between plies.
#[derive(Copy, Clone, Debug)]
pub struct TTScore(pub i16);

impl TTScore {
    pub open spec fn spec_new(score: int, ply: int) -> int {
        if score >= MIN_TB_WIN_SCORE {
            score + ply
        } else if score <= -MIN_TB_WIN_SCORE {
            score - ply
        } else {
            score
        }
    }

    /// Adjust `score` for storage at `ply`.
    pub fn new(score: i32, ply: usize) -> (r: Self)
        requires
            -MATE_SCORE <= score <= MATE_SCORE,
            ply <= MAX_DEPTH,
        ensures
            r.0 == Self::spec_new(score as int, ply as int),
    {
        let tt_score: i32 = if score >= MIN_TB_WIN_SCORE {
            score + ply as i32
        } else if score <= -MIN_TB_WIN_SCORE {
            score - ply as i32
        } else {
            score
        };
        TTScore(tt_score as i16)
    }

    pub open spec fn spec_get(self, ply: int) -> int {
        if self.0 >= MIN_TB_WIN_SCORE {
            self.0 - ply
        } else if self.0 <= -MIN_TB_WIN_SCORE {
            self.0 + ply
        } else {
            self.0 as int
        }
    }

    /// Read the score back, relative to `ply`.
    pub fn get(&self, ply: usize) -> (r: i32)
        requires
            ply <= MAX_DEPTH,
        ensures
            r == self.spec_get(ply as int),
    {
        let score: i16 = if self.0 >= MIN_TB_WIN_SCORE as i16 {
            self.0 - ply as i16
        } else if self.0 <= -MIN_TB_WIN_SCORE as i16 {
            self.0 + ply as i16
        } else {
            self.0
        };
        score as i32
    }
}

/// Adjusting a score for storage at a ply and reading it back at the same
/// ply returns the original score, for every score a search can store and
/// every reachable ply.
pub proof fn lemma_tt_score_round_trip(score: int, ply: int)
    requires
        -MATE_SCORE <= score <= MATE_SCORE,
        0 <= ply <= MAX_DEPTH,
    ensures
        TTScore(TTScore::spec_new(score, ply) as i16).spec_get(ply) == score,
{
}

/// One decoded table entry.
#[derive(Copy, Clone, Debug)]
pub struct TTEntry {
    pub key: u16,
    pub best_move: Move,
    pub score: TTScore,
    pub depth: u8,
    pub info: TTEntryInfo,
}

/// The unsigned bit pattern of a stored score.
pub open spec fn spec_score_bits(s: i16) -> u64 {
    if s >= 0 {
        s as u64
    } else {
        (s + 0x10000) as u64
    }
}

/// The score a stored bit pattern denotes.
pub open spec fn spec_bits_score(b: u64) -> i16 {
    if b < 0x8000 {
        b as i16
    } else {
        (b - 0x10000) as i16
    }
}

impl TTEntry {
    /// The 64-bit word an entry packs to: key fragment in the low 16 bits,
    /// then the move, the score bits, the depth and the info byte.
    pub open spec fn spec_pack(self) -> u64 {
        ((self.key as u64) + (self.best_move.0 as u64) * 0x10000 + spec_score_bits(self.score.0)
            * 0x1_0000_0000 + (self.depth as u64) * 0x1_0000_0000_0000 + (self.info.0 as u64)
            * 0x100_0000_0000_0000) as u64
    }

    /// Pack this entry into one word.
    pub fn pack(&self) -> (r: u64)
        ensures
            r == self.spec_pack(),
    {
        let sbits: u64 = if self.score.0 >= 0 {
            self.score.0 as u64
        } else {
            (self.score.0 as i32 + 0x10000) as u64
        };
        (self.key as u64) + (self.best_move.0 as u64) * 0x10000 + sbits * 0x1_0000_0000 + (
        self.depth as u64) * 0x1_0000_0000_0000 + (self.info.0 as u64)
            * 0x100_0000_0000_0000
    }

    /// What `unpack` decodes from a word.
    pub open spec fn spec_unpack(word: u64) -> TTEntry {
        TTEntry {
            key: (word % 0x10000) as u16,
            best_move: Move(((word / 0x10000) % 0x10000) as u16),
            score: TTScore(spec_bits_score((word / 0x1_0000_0000) % 0x10000)),
            depth: ((word / 0x1_0000_0000_0000) % 0x100) as u8,
            info: TTEntryInfo(((word / 0x100_0000_0000_0000) % 0x100) as u8),
        }
    }

    /// Decode one word into an entry.
    pub fn unpack(word: u64) -> (r: TTEntry)
        ensures
            r == Self::spec_unpack(word),
    {
        let key: u16 = (word % 0x10000) as u16;
        let mv: u16 = ((word / 0x10000) % 0x10000) as u16;
        let sbits: u64 = (word / 0x1_0000_0000) % 0x10000;
        let score: i16 = if sbits < 0x8000 {
            sbits as i16
        } else {
            (sbits as i32 - 0x10000) as i16
        };
        let depth: u8 = ((word / 0x1_0000_0000_0000) % 0x100) as u8;
        let info: u8 = ((word / 0x100_0000_0000_0000) % 0x100) as u8;
        TTEntry {
            key,
            best_move: Move(mv),
            score: TTScore(score),
            depth,
            info: TTEntryInfo(info),
        }
    }
}

/// Unpacking a packed entry restores it field for field, so a cell read
/// that matches the stored word yields exactly the entry that was stored.
pub proof fn lemma_tt_entry_round_trip(e: TTEntry)
    ensures
        TTEntry::spec_unpack(e.spec_pack()).key == e.key,
        TTEntry::spec_unpack(e.spec_pack()).best_move == e.best_move,
        TTEntry::spec_unpack(e.spec_pack()).score == e.score,
        TTEntry::spec_unpack(e.spec_pack()).depth == e.depth,
        TTEntry::spec_unpack(e.spec_pack()).info == e.info,
{
    let w = e.spec_pack();
    let k = e.key as u64;
    let m = e.best_move.0 as u64;
    let s = spec_score_bits(e.score.0);
    let d = e.depth as u64;
    let i = e.info.0 as u64;
    assert(k < 0x10000 && m < 0x10000 && s < 0x10000 && d < 0x100 && i < 0x100);
    assert((k + m * 0x10000 + s * 0x1_0000_0000 + d * 0x1_0000_0000_0000 + i
        * 0x100_0000_0000_0000) % 0x10000 == k && ((k + m * 0x10000 + s * 0x1_0000_0000 + d
        * 0x1_0000_0000_0000 + i * 0x100_0000_0000_0000) / 0x10000) % 0x10000 == m && ((k + m
        * 0x10000 + s * 0x1_0000_0000 + d * 0x1_0000_0000_0000 + i * 0x100_0000_0000_0000)
        / 0x1_0000_0000) % 0x10000 == s && ((k + m * 0x10000 + s * 0x1_0000_0000 + d
        * 0x1_0000_0000_0000 + i * 0x100_0000_0000_0000) / 0x1_0000_0000_0000) % 0x100 == d && ((k
        + m * 0x10000 + s * 0x1_0000_0000 + d * 0x1_0000_0000_0000 + i * 0x100_0000_0000_0000)
        / 0x100_0000_0000_0000) % 0x100 == i) by (bit_vector)
        requires
            k < 0x10000 && m < 0x10000 && s < 0x10000 && d < 0x100 && i < 0x100,
    ;
    let r = TTEntry::spec_unpack(w);
    assert(spec_bits_score(spec_score_bits(e.score.0)) == e.score.0);
}

/// The table: a vector of atomic cells owned here and shared by reference
/// with every search worker.
pub struct TT {
    pub entries: Vec<AtomicU64>,
}

/// Cells per megabyte: each cell holds one 8-byte entry.
pub const CELLS_PER_MB: usize = 131072;

impl TT {
    /// A table of `size_mb` megabytes of zeroed cells.
    pub fn new(size_mb: usize) -> (r: Self)
        requires
            size_mb * CELLS_PER_MB <= usize::MAX,
        ensures
            r.entries@.len() == size_mb * CELLS_PER_MB,
    {
        let target: usize = size_mb * CELLS_PER_MB;
        let mut entries: Vec<AtomicU64> = Vec::new();
        while entries.len() < target
            invariant
                entries@.len() <= target,
            decreases target - entries@.len(),
        {
            entries.push(AtomicU64::new(0));
        }
        TT { entries }
    }

    /// Grow or shrink the table to `size_mb` megabytes.
    pub fn resize(&mut self, size_mb: usize)
        requires
            size_mb * CELLS_PER_MB <= usize::MAX,
        ensures
            final(self).entries@.len() == size_mb * CELLS_PER_MB,
    {
        let target: usize = size_mb * CELLS_PER_MB;
        while self.entries.len() > target
            invariant
                true,
            decreases self.entries@.len(),
        {
            let _ = self.entries.pop();
        }
        while self.entries.len() < target
            invariant
                self.entries@.len() <= target,
            decreases target - self.entries@.len(),
        {
            self.entries.push(AtomicU64::new(0));
        }
    }

    /// Zero every cell.
    pub fn clear(&mut self)
        ensures
            final(self).entries@.len() == old(self).entries@.len(),
    {
        let mut i: usize = 0;
        while i < self.entries.len()
            invariant
                self.entries@.len() == old(self).entries@.len(),
                i <= self.entries@.len(),
            decreases self.entries@.len() - i,
        {
            let cell: &AtomicU64 = &self.entries[i];
            cell.store(0, Ordering::Relaxed);
            i = i + 1;
        }
    }

    /// A borrowed view for a search worker.
    pub fn slice(&self) -> (r: TTSlice<'_>)
        ensures
            r.entries@.len() == self.entries@.len(),
    {
        TTSlice { entries: self.entries.as_slice() }
    }
}

/// A worker's borrowed view of the table.
#[derive(Copy, Clone)]
pub struct TTSlice<'a> {
    pub entries: &'a [AtomicU64],
}

/// The cell index of a key: the key scaled into the table's length.
pub open spec fn spec_key_index(key: u64, len: int) -> int {
    (key * len) / 0x1_0000_0000_0000_0000
}

impl<'a> TTSlice<'a> {
    /// The cell a key maps to.
    pub fn key_to_index(&self, key: u64) -> (r: usize)
        requires
            self.entries@.len() >= 1,
        ensures
            r == spec_key_index(key, self.entries@.len() as int),
            r < self.entries@.len(),
    {
        let len: u128 = self.entries.len() as u128;
        proof {
            assert((key as int) * (len as int) <= 0xffff_ffff_ffff_ffff * 0xffff_ffff_ffff_ffff)
                by (nonlinear_arith)
                requires
                    0 <= key <= 0xffff_ffff_ffff_ffff,
                    0 <= len <= 0xffff_ffff_ffff_ffff,
            ;
        }
        let idx: u128 = (key as u128) * len / 0x1_0000_0000_0000_0000;
        proof {
            let n = self.entries@.len() as int;
            assert(key * n <= 0xffff_ffff_ffff_ffff * n) by (nonlinear_arith)
                requires
                    0 <= key <= 0xffff_ffff_ffff_ffff,
                    n >= 1,
            ;
            assert(0xffff_ffff_ffff_ffff * n == 0x1_0000_0000_0000_0000 * n - n);
            vstd::arithmetic::div_mod::lemma_remainder_lower(key as int * n, 0x1_0000_0000_0000_0000);
            vstd::arithmetic::div_mod::lemma_remainder_upper(key as int * n, 0x1_0000_0000_0000_0000);
            assert((key * n) / 0x1_0000_0000_0000_0000 < n) by (nonlinear_arith)
                requires
                    n >= 1,
                    key * n <= 0x1_0000_0000_0000_0000 * n - n,
                    ((key * n) / 0x1_0000_0000_0000_0000) * 0x1_0000_0000_0000_0000 <= key * n,
                    key * n - 0x1_0000_0000_0000_0000 < ((key * n) / 0x1_0000_0000_0000_0000)
                        * 0x1_0000_0000_0000_0000,
                    key * n >= 0,
            ;
        }
        idx as usize
    }

    /// Probe the table: the cell's entry, if its key fragment matches `key`.
    /// A mismatch - a collision or a torn, stale or empty cell - is a miss.
    pub fn get(&self, key: u64) -> (r: Option<TTEntry>)
        ensures
            r is Some ==> r->0.key == key % 0x10000,
            self.entries@.len() == 0 ==> r is None,
    {
        if self.entries.len() == 0 {
            return None;
        }
        let index = self.key_to_index(key);
        let word: u64 = self.entries[index].load(Ordering::Relaxed);
        let entry = TTEntry::unpack(word);
        if entry.key == (key % 0x10000) as u16 {
            Some(entry)
        } else {
            None
        }
    }

    /// Store an entry for `key`, always replacing the cell it maps to.
    pub fn store(&self, key: u64, score: i32, score_type: ScoreType, best_move: Move, depth: i32, ply: usize)
        requires
            -MATE_SCORE <= score <= MATE_SCORE,
            ply <= MAX_DEPTH,
            0 <= depth <= 255,
    {
        if self.entries.len() == 0 {
            return ;
        }
        let entry = TTEntry {
            key: (key % 0x10000) as u16,
            best_move,
            score: TTScore::new(score, ply),
            depth: depth as u8,
            info: TTEntryInfo::new(score_type),
        };
        let index = self.key_to_index(key);
        self.entries[index].store(entry.pack(), Ordering::Relaxed);
    }

    /// Occupancy per mille, sampled over the first thousand cells.
    pub fn fill(&self) -> (r: usize)
        ensures
            r <= 1000,
    {
        let sample: usize = if self.entries.len() < 1000 {
            self.entries.len()
        } else {
            1000
        };
        let mut used: usize = 0;
        let mut i: usize = 0;
        while i < sample
            invariant
                used <= i <= sample <= 1000,
                sample <= self.entries@.len(),
            decreases sample - i,
        {
            if self.entries[i].load(Ordering::Relaxed) != 0 {
                used = used + 1;
            }
            i = i + 1;
        }
        used
    }
}

} // verus!
