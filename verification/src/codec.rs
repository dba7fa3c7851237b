//! Decoding of a single 8-byte per-page metadata record.
//!
//! A record is an opaque 64-bit value: bit 63 says the page is present in
//! RAM, bit 62 that it is swapped out, bit 61 that it is file-backed or
//! shared-anonymous, bit 56 that it is exclusively mapped, bit 55 that it is
//! soft-dirty, and bits 54..=0 hold the physical frame number when the page
//! is present (for a swapped page they hold swap type and slot instead; zero
//! means the frame could not be resolved). Decoding only masks and shifts;
//! every 64-bit pattern is accepted.

use vstd::prelude::*;

verus! {

pub const PAGEMAP_PRESENT_MASK: u64 = 1u64 << 63;

pub const PAGEMAP_SWAP_MASK: u64 = 1u64 << 62;

pub const PAGEMAP_FILE_MASK: u64 = 1u64 << 61;

pub const PAGEMAP_EXCLUSIVE_MASK: u64 = 1u64 << 56;

pub const PAGEMAP_SOFT_DIRTY_MASK: u64 = 1u64 << 55;

/// Mask of bits 54..=0, the frame-number field.
pub const PAGEMAP_PFN_MASK: u64 = 0x007f_ffff_ffff_ffff;

/// Mask of every bit position the record format defines: the five flag bits
/// and the frame-number field.
pub const PAGEMAP_DEFINED_MASK: u64 = PAGEMAP_PRESENT_MASK | PAGEMAP_SWAP_MASK
    | PAGEMAP_FILE_MASK | PAGEMAP_EXCLUSIVE_MASK | PAGEMAP_SOFT_DIRTY_MASK | PAGEMAP_PFN_MASK;

/// The data for a single page of virtual memory: one 8-byte record of the
/// per-process page metadata, which is a flat array of these values.
#[derive(Copy, Clone, PartialEq, Eq, Hash, Debug, Structural)]
pub struct SinglePageData(u64);

impl SinglePageData {
    /// The raw 64-bit record value.
    pub closed spec fn raw(self) -> u64 {
        self.0
    }

    pub open spec fn spec_present(self) -> bool {
        self.raw() & PAGEMAP_PRESENT_MASK != 0
    }

    pub open spec fn spec_swap(self) -> bool {
        self.raw() & PAGEMAP_SWAP_MASK != 0
    }

    pub open spec fn spec_file_backed(self) -> bool {
        self.raw() & PAGEMAP_FILE_MASK != 0
    }

    pub open spec fn spec_exclusive(self) -> bool {
        self.raw() & PAGEMAP_EXCLUSIVE_MASK != 0
    }

    pub open spec fn spec_soft_dirty(self) -> bool {
        self.raw() & PAGEMAP_SOFT_DIRTY_MASK != 0
    }

    pub open spec fn spec_pfn(self) -> u64 {
        self.raw() & PAGEMAP_PFN_MASK
    }

    /// Wraps a raw 64-bit record value.
    pub fn from_raw(raw: u64) -> (s: Self)
        ensures
            s.raw() == raw,
    {
        SinglePageData(raw)
    }

    /// Is the page present in RAM?
    pub fn present(self) -> (b: bool)
        ensures
            b == self.spec_present(),
    {
        self.0 & PAGEMAP_PRESENT_MASK != 0
    }

    /// Is the page swapped out?
    pub fn swap(self) -> (b: bool)
        ensures
            b == self.spec_swap(),
    {
        self.0 & PAGEMAP_SWAP_MASK != 0
    }

    /// Is the page file-backed/shared-anonymous?
    pub fn file_backed(self) -> (b: bool)
        ensures
            b == self.spec_file_backed(),
    {
        self.0 & PAGEMAP_FILE_MASK != 0
    }

    /// Is the page mapped exclusively (i.e., by exactly one user)?
    pub fn exclusive(self) -> (b: bool)
        ensures
            b == self.spec_exclusive(),
    {
        self.0 & PAGEMAP_EXCLUSIVE_MASK != 0
    }

    /// The software-managed dirty flag, tracked separately from the
    /// hardware dirty bits.
    pub fn soft_dirty(self) -> (b: bool)
        ensures
            b == self.spec_soft_dirty(),
    {
        self.0 & PAGEMAP_SOFT_DIRTY_MASK != 0
    }

    /// The page frame number of the physical page backing this virtual page
    /// if the page is present in RAM. Otherwise, if the page is swapped out,
    /// bits 4..=0 indicate the swap type (i.e., which swap space) and bits
    /// 54..=5 the swap slot on that space.
    pub fn pfn(self) -> (n: u64)
        ensures
            n == self.spec_pfn(),
            n <= PAGEMAP_PFN_MASK,
    {
        proof {
            lemma_pfn_bounded(self);
        }
        self.0 & PAGEMAP_PFN_MASK
    }
}

/// The frame field is a masked value, so it never exceeds its mask.
pub proof fn lemma_pfn_bounded(s: SinglePageData)
    ensures
        s.spec_pfn() <= PAGEMAP_PFN_MASK,
{
    let r = s.raw();
    assert(r & PAGEMAP_PFN_MASK <= PAGEMAP_PFN_MASK) by (bit_vector);
}

/// Reassembles a raw record value from the five decoded flags and the
/// frame-number field.
pub open spec fn spec_assemble(
    present: bool,
    swap: bool,
    file_backed: bool,
    exclusive: bool,
    soft_dirty: bool,
    pfn: u64,
) -> u64 {
    (if present {
        PAGEMAP_PRESENT_MASK
    } else {
        0u64
    }) | (if swap {
        PAGEMAP_SWAP_MASK
    } else {
        0u64
    }) | (if file_backed {
        PAGEMAP_FILE_MASK
    } else {
        0u64
    }) | (if exclusive {
        PAGEMAP_EXCLUSIVE_MASK
    } else {
        0u64
    }) | (if soft_dirty {
        PAGEMAP_SOFT_DIRTY_MASK
    } else {
        0u64
    }) | (pfn & PAGEMAP_PFN_MASK)
}

/// Law: for any record with only defined bit positions set, decoding the
/// five flags and the frame field and reassembling them reproduces the raw
/// value exactly.
pub proof fn lemma_codec_round_trip(s: SinglePageData)
    requires
        s.raw() & PAGEMAP_DEFINED_MASK == s.raw(),
    ensures
        spec_assemble(
            s.spec_present(),
            s.spec_swap(),
            s.spec_file_backed(),
            s.spec_exclusive(),
            s.spec_soft_dirty(),
            s.spec_pfn(),
        ) == s.raw(),
{
    let r = s.raw();
    assert((if r & PAGEMAP_PRESENT_MASK != 0 {
        PAGEMAP_PRESENT_MASK
    } else {
        0u64
    }) | (if r & PAGEMAP_SWAP_MASK != 0 {
        PAGEMAP_SWAP_MASK
    } else {
        0u64
    }) | (if r & PAGEMAP_FILE_MASK != 0 {
        PAGEMAP_FILE_MASK
    } else {
        0u64
    }) | (if r & PAGEMAP_EXCLUSIVE_MASK != 0 {
        PAGEMAP_EXCLUSIVE_MASK
    } else {
        0u64
    }) | (if r & PAGEMAP_SOFT_DIRTY_MASK != 0 {
        PAGEMAP_SOFT_DIRTY_MASK
    } else {
        0u64
    }) | ((r & PAGEMAP_PFN_MASK) & PAGEMAP_PFN_MASK) == r) by (bit_vector)
        requires
            r & PAGEMAP_DEFINED_MASK == r,
    ;
}

/// Law: toggling one defined bit of a record changes exactly the matching
/// decoded field and nothing else. Toggling a flag bit flips that flag's
/// predicate alone and leaves the masked frame field unchanged; toggling a
/// frame bit changes the frame field alone and flips no predicate.
pub proof fn lemma_flag_independence(s: SinglePageData, t: SinglePageData, b: u64)
    requires
        b == 63 || b == 62 || b == 61 || b == 56 || b == 55 || b <= 54,
        t.raw() == s.raw() ^ (1u64 << b),
    ensures
        (t.spec_present() != s.spec_present()) <==> b == 63,
        (t.spec_swap() != s.spec_swap()) <==> b == 62,
        (t.spec_file_backed() != s.spec_file_backed()) <==> b == 61,
        (t.spec_exclusive() != s.spec_exclusive()) <==> b == 56,
        (t.spec_soft_dirty() != s.spec_soft_dirty()) <==> b == 55,
        (t.spec_pfn() != s.spec_pfn()) <==> b <= 54,
{
    let r = s.raw();
    let q = t.raw();
    assert({
        &&& ((q & PAGEMAP_PRESENT_MASK != 0) != (r & PAGEMAP_PRESENT_MASK != 0)) <==> b == 63
        &&& ((q & PAGEMAP_SWAP_MASK != 0) != (r & PAGEMAP_SWAP_MASK != 0)) <==> b == 62
        &&& ((q & PAGEMAP_FILE_MASK != 0) != (r & PAGEMAP_FILE_MASK != 0)) <==> b == 61
        &&& ((q & PAGEMAP_EXCLUSIVE_MASK != 0) != (r & PAGEMAP_EXCLUSIVE_MASK != 0)) <==> b == 56
        &&& ((q & PAGEMAP_SOFT_DIRTY_MASK != 0) != (r & PAGEMAP_SOFT_DIRTY_MASK != 0)) <==> b == 55
        &&& ((q & PAGEMAP_PFN_MASK) != (r & PAGEMAP_PFN_MASK)) <==> b <= 54
    }) by (bit_vector)
        requires
            b == 63 || b == 62 || b == 61 || b == 56 || b == 55 || b <= 54,
            q == r ^ (1u64 << b),
    ;
}

/// The decimal digit character for a value below ten.
pub open spec fn spec_digit(d: u64) -> char
    recommends
        d < 10,
{
    if d == 0 {
        '0'
    } else if d == 1 {
        '1'
    } else if d == 2 {
        '2'
    } else if d == 3 {
        '3'
    } else if d == 4 {
        '4'
    } else if d == 5 {
        '5'
    } else if d == 6 {
        '6'
    } else if d == 7 {
        '7'
    } else if d == 8 {
        '8'
    } else {
        '9'
    }
}

/// The unsigned decimal rendering of a value, most significant digit first,
/// with no leading zeros (a lone `'0'` for zero).
pub open spec fn spec_decimal(n: u64) -> Seq<char>
    decreases n,
{
    if n < 10 {
        seq![spec_digit(n)]
    } else {
        spec_decimal(n / 10).push(spec_digit(n % 10))
    }
}

/// The canonical textual rendering of a record: five fixed-order one
/// character flags (present, swap, file-backed, exclusive, soft-dirty; a
/// letter if set, `'-'` if unset), a space, and the frame value in decimal.
pub open spec fn spec_render(s: SinglePageData) -> Seq<char> {
    seq![
        if s.spec_present() {
            'P'
        } else {
            '-'
        },
        if s.spec_swap() {
            'S'
        } else {
            '-'
        },
        if s.spec_file_backed() {
            'F'
        } else {
            '-'
        },
        if s.spec_exclusive() {
            'X'
        } else {
            '-'
        },
        if s.spec_soft_dirty() {
            'D'
        } else {
            '-'
        },
        ' ',
    ] + spec_decimal(s.spec_pfn())
}

/// The one-character string for a decimal digit.
fn digit_str(d: u64) -> (r: &'static str)
    requires
        d < 10,
    ensures
        r@ == seq![spec_digit(d)],
{
    proof {
        reveal_strlit("0");
        reveal_strlit("1");
        reveal_strlit("2");
        reveal_strlit("3");
        reveal_strlit("4");
        reveal_strlit("5");
        reveal_strlit("6");
        reveal_strlit("7");
        reveal_strlit("8");
        reveal_strlit("9");
    }
    let r = if d == 0 {
        "0"
    } else if d == 1 {
        "1"
    } else if d == 2 {
        "2"
    } else if d == 3 {
        "3"
    } else if d == 4 {
        "4"
    } else if d == 5 {
        "5"
    } else if d == 6 {
        "6"
    } else if d == 7 {
        "7"
    } else if d == 8 {
        "8"
    } else {
        "9"
    };
    proof {
        assert(r@ =~= seq![spec_digit(d)]);
    }
    r
}

/// Appends the decimal rendering of `n` to `out`.
fn push_decimal(n: u64, out: &mut String)
    ensures
        final(out)@ == old(out)@ + spec_decimal(n),
    decreases n,
{
    if n >= 10 {
        push_decimal(n / 10, out);
    }
    out.append(digit_str(n % 10));
    proof {
        assert(final(out)@ =~= old(out)@ + spec_decimal(n));
    }
}

impl SinglePageData {
    /// Renders the record in its canonical textual form: the five flag
    /// characters in fixed order, a space, and the frame value in decimal.
    pub fn render(self) -> (r: String)
        ensures
            r@ == spec_render(self),
    {
        proof {
            reveal_strlit("P");
            reveal_strlit("S");
            reveal_strlit("F");
            reveal_strlit("X");
            reveal_strlit("D");
            reveal_strlit("-");
            reveal_strlit(" ");
        }
        let mut out = String::new();
        out.append(if self.present() {
            "P"
        } else {
            "-"
        });
        out.append(if self.swap() {
            "S"
        } else {
            "-"
        });
        out.append(if self.file_backed() {
            "F"
        } else {
            "-"
        });
        out.append(if self.exclusive() {
            "X"
        } else {
            "-"
        });
        out.append(if self.soft_dirty() {
            "D"
        } else {
            "-"
        });
        out.append(" ");
        push_decimal(self.pfn(), &mut out);
        proof {
            assert(out@ =~= spec_render(self));
        }
        out
    }
}

} // verus!
