//! A seekable, randomly addressable view of the per-process page metadata.
//!
//! The metadata source is a flat array of 8-byte records, indexed by virtual
//! page number, so every access is pure offset arithmetic: record `i` lives
//! at byte offset `8 * i`. `PageMap` holds the source as plain bytes handed
//! to its constructor, so the whole read path — offset computation, bounds
//! checking, and per-record decoding — is in view of the verifier; whoever
//! owns the real handle reads the bytes and injects them here.

use vstd::prelude::*;
use crate::codec::SinglePageData;
use crate::FragError;

verus! {

pub const PAGE_SHIFT: u64 = 12;

pub const PAGE_SIZE: u64 = 4096;

/// Is the address an exact multiple of the page size?
pub open spec fn page_aligned(a: int) -> bool {
    a % (PAGE_SIZE as int) == 0
}

/// The 64-bit record read little-endian from eight bytes starting at `off`.
pub open spec fn spec_word_at(data: Seq<u8>, off: int) -> u64
    recommends
        0 <= off,
        off + 8 <= data.len(),
{
    (data[off] as u64) | ((data[off + 1] as u64) << 8) | ((data[off + 2] as u64) << 16) | ((data[off
        + 3] as u64) << 24) | ((data[off + 4] as u64) << 32) | ((data[off + 5] as u64) << 40) | ((
    data[off + 6] as u64) << 48) | ((data[off + 7] as u64) << 56)
}

/// The record for virtual page number `page`.
pub open spec fn spec_entry_word(data: Seq<u8>, page: int) -> u64
    recommends
        0 <= page,
        8 * page + 8 <= data.len(),
{
    spec_word_at(data, 8 * page)
}

/// Does the source hold the whole record for the page at `vaddr`?
pub open spec fn vaddr_in_bounds(data: Seq<u8>, vaddr: int) -> bool {
    8 * (vaddr / (PAGE_SIZE as int)) + 8 <= data.len()
}

/// Is `[start, end)` a well-formed virtual range: page-aligned start and a
/// length that is a whole number of pages?
pub open spec fn range_well_formed(start: int, end: int) -> bool {
    &&& page_aligned(start)
    &&& start <= end
    &&& page_aligned(end - start)
}

/// Does the source hold every record of the range's single byte span?
pub open spec fn range_in_bounds(data: Seq<u8>, start: int, end: int) -> bool {
    8 * (start / (PAGE_SIZE as int)) + 8 * ((end - start) / (PAGE_SIZE as int)) <= data.len()
}

/// The ordered records of the range: element `i` is the record of virtual
/// page `start / PAGE_SIZE + i`.
pub open spec fn spec_range_words(data: Seq<u8>, start: int, end: int) -> Seq<u64> {
    Seq::new(
        (((end - start) / (PAGE_SIZE as int)) as nat),
        |i: int| spec_entry_word(data, start / (PAGE_SIZE as int) + i),
    )
}

/// The raw record values of a decoded entry sequence.
pub open spec fn raws_of(entries: Seq<SinglePageData>) -> Seq<u64> {
    entries.map(|i: int, e: SinglePageData| e.raw())
}

/// Law: a bulk read over an aligned range equals the ordered concatenation
/// of point reads at each page boundary inside the range. For every index
/// `i` of the bulk result, the address `start + i * PAGE_SIZE` is itself
/// page-aligned and in bounds, and the point read there yields the same
/// record.
pub proof fn lemma_range_read_equivalence(data: Seq<u8>, start: u64, end: u64)
    requires
        range_well_formed(start as int, end as int),
        range_in_bounds(data, start as int, end as int),
    ensures
        spec_range_words(data, start as int, end as int).len() == (end - start) / (
        PAGE_SIZE as int),
        forall|i: int|
            #![trigger spec_range_words(data, start as int, end as int)[i]]
            0 <= i < spec_range_words(data, start as int, end as int).len() ==> {
                let va = start + i * (PAGE_SIZE as int);
                &&& page_aligned(va)
                &&& vaddr_in_bounds(data, va)
                &&& spec_range_words(data, start as int, end as int)[i] == spec_entry_word(
                    data,
                    va / (PAGE_SIZE as int),
                )
            },
{
    let ps = PAGE_SIZE as int;
    let n = (end - start) / ps;
    let q = start as int / ps;
    assert(start == ps * q) by {
        vstd::arithmetic::div_mod::lemma_fundamental_div_mod(start as int, ps);
    }
    assert forall|i: int|
        #![trigger spec_range_words(data, start as int, end as int)[i]]
        0 <= i < n implies {
        let va = start + i * ps;
        &&& page_aligned(va)
        &&& vaddr_in_bounds(data, va)
        &&& spec_range_words(data, start as int, end as int)[i] == spec_entry_word(data, va / ps)
    } by {
        let va = start + i * ps;
        assert(va == (q + i) * ps) by {
            vstd::arithmetic::mul::lemma_mul_is_distributive_add_other_way(ps, q, i);
        }
        vstd::arithmetic::div_mod::lemma_fundamental_div_mod_converse_div(va, ps, q + i, 0);
        vstd::arithmetic::div_mod::lemma_fundamental_div_mod_converse_mod(va, ps, q + i, 0);
        assert(va / ps == q + i);
        assert(va % ps == 0);
        assert(8 * (q + i) + 8 <= 8 * q + 8 * n);
    }
}

/// The contents of the per-process page metadata in a seekable way.
///
/// The view is the byte contents of the metadata source, starting at byte
/// offset zero.
pub struct PageMap {
    data: Vec<u8>,
}

impl View for PageMap {
    type V = Seq<u8>;

    closed spec fn view(&self) -> Seq<u8> {
        self.data@
    }
}

/// Reads the record at byte offset `off`.
fn word_at(data: &Vec<u8>, off: usize) -> (w: u64)
    requires
        off + 8 <= data.len(),
    ensures
        w == spec_word_at(data@, off as int),
{
    (data[off] as u64) | ((data[off + 1] as u64) << 8) | ((data[off + 2] as u64) << 16) | ((data[off
        + 3] as u64) << 24) | ((data[off + 4] as u64) << 32) | ((data[off + 5] as u64) << 40) | ((
    data[off + 6] as u64) << 48) | ((data[off + 7] as u64) << 56)
}

impl PageMap {
    /// Wraps the byte contents of an already-read metadata source.
    pub fn new(data: Vec<u8>) -> (m: Self)
        ensures
            m@ == data@,
    {
        PageMap { data }
    }

    /// Get the `SinglePageData` for the page starting at the given address.
    ///
    /// A misaligned address is a caller bug and yields
    /// `ContractViolation`; a source too short to hold the record yields
    /// `IoFailure`.
    pub fn get_by_vaddr(&self, vaddr: u64) -> (r: Result<SinglePageData, FragError>)
        ensures
            match r {
                Ok(e) => page_aligned(vaddr as int) && vaddr_in_bounds(self@, vaddr as int)
                    && e.raw() == spec_entry_word(self@, vaddr as int / (PAGE_SIZE as int)),
                Err(FragError::ContractViolation) => !page_aligned(vaddr as int),
                Err(FragError::IoFailure) => page_aligned(vaddr as int) && !vaddr_in_bounds(
                    self@,
                    vaddr as int,
                ),
                Err(FragError::FrameNotVisible) => false,
            },
    {
        if vaddr % PAGE_SIZE != 0 {
            return Err(FragError::ContractViolation);
        }
        let page: u64 = vaddr >> PAGE_SHIFT;
        proof {
            assert(vaddr >> 12u64 == vaddr / 4096u64 && vaddr >> 12u64 <= 0x000f_ffff_ffff_ffffu64)
                by (bit_vector);
        }
        let offset: u64 = page * 8;
        if offset > u64::MAX - 8 || offset + 8 > self.data.len() as u64 {
            return Err(FragError::IoFailure);
        }
        let w = word_at(&self.data, offset as usize);
        Ok(SinglePageData::from_raw(w))
    }

    /// Get the `SinglePageData` for the pages in the given range of
    /// addresses. `start` is inclusive, `end` is exclusive.
    ///
    /// The whole range is covered by a single contiguous byte span, read
    /// all-or-nothing: a misaligned or inverted range yields
    /// `ContractViolation`, and a source too short for any part of the span
    /// yields `IoFailure` with no partial sequence.
    pub fn get_by_range(&self, start: u64, end: u64) -> (r: Result<
        Vec<SinglePageData>,
        FragError,
    >)
        ensures
            match r {
                Ok(v) => range_well_formed(start as int, end as int) && range_in_bounds(
                    self@,
                    start as int,
                    end as int,
                ) && raws_of(v@) == spec_range_words(self@, start as int, end as int),
                Err(FragError::ContractViolation) => !range_well_formed(start as int, end as int),
                Err(FragError::IoFailure) => range_well_formed(start as int, end as int)
                    && !range_in_bounds(self@, start as int, end as int),
                Err(FragError::FrameNotVisible) => false,
            },
    {
        if end < start {
            return Err(FragError::ContractViolation);
        }
        if (end - start) % PAGE_SIZE != 0 {
            return Err(FragError::ContractViolation);
        }
        if start % PAGE_SIZE != 0 {
            return Err(FragError::ContractViolation);
        }
        let first: u64 = start >> PAGE_SHIFT;
        let npages: u64 = (end - start) >> PAGE_SHIFT;
        proof {
            assert(start >> 12u64 == start / 4096u64 && start >> 12u64 <= 0x000f_ffff_ffff_ffffu64)
                by (bit_vector);
            let d: u64 = (end - start) as u64;
            assert(d >> 12u64 == d / 4096u64 && d >> 12u64 <= 0x000f_ffff_ffff_ffffu64)
                by (bit_vector);
        }
        let offset: u64 = first * 8;
        let nbytes: u64 = npages * 8;
        if offset + nbytes > self.data.len() as u64 {
            return Err(FragError::IoFailure);
        }
        let mut out: Vec<SinglePageData> = Vec::new();
        let mut i: u64 = 0;
        while i < npages
            invariant
                i <= npages,
                offset == 8 * (start as int / (PAGE_SIZE as int)),
                npages == (end as int - start as int) / (PAGE_SIZE as int),
                offset + 8 * npages <= self.data.len(),
                out@.len() == i,
                forall|j: int|
                    0 <= j < i ==> out@[j].raw() == spec_entry_word(
                        self@,
                        start as int / (PAGE_SIZE as int) + j,
                    ),
            decreases npages - i,
        {
            let w = word_at(&self.data, (offset + i * 8) as usize);
            out.push(SinglePageData::from_raw(w));
            i = i + 1;
        }
        proof {
            assert(raws_of(out@) =~= spec_range_words(self@, start as int, end as int));
        }
        Ok(out)
    }
}

} // verus!
