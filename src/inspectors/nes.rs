//! The iNES cartridge-image container.

use vstd::prelude::*;

use crate::inspectors::AnalysisContext;
use crate::inspectors::AnalysisError;
use crate::inspectors::BankInfo;
use crate::inspectors::BankType;
use crate::inspectors::MirroringType;
use crate::inspectors::ROMInfo;
use crate::inspectors::ROMInfoView;

verus! {

const INES_PRG_SIZE_IDX: usize = 0x04;

const INES_CHR_SIZE_IDX: usize = 0x05;

const INES_FLAGS_1_IDX: usize = 0x06;

const INES_MIRRORING_TYPE_FOUR_SCREEN_MASK: u8 = 0x08;

const INES_MIRRORING_TYPE_HV_MASK: u8 = 0x01;

const INES_TRAINER_PRESENT_MASK: u8 = 0x04;

/// Size of a program bank, in bytes.
pub const INES_PRG_BANK_SIZE: u32 = 16384;

/// Size of the optional trainer block, in bytes.
pub const INES_PRG_TRAINER_SIZE: u32 = 512;

/// Size of the fixed header, in bytes.
pub const INES_HDR_SIZE: u32 = 16;

// ---------------------------------------------------------------------------
// Model
// ---------------------------------------------------------------------------

/// The first four bytes hold the signature "NES\x1A".
pub open spec fn has_magic(hdr: Seq<u8>) -> bool {
    &&& hdr.len() >= 4
    &&& hdr[0] == 0x4E
    &&& hdr[1] == 0x45
    &&& hdr[2] == 0x53
    &&& hdr[3] == 0x1A
}

/// Bits 2-3 of the second flags byte equal `0b10`: an arcade-hardware
/// variant whose layout this container does not describe.
pub open spec fn is_reserved_variant(flags2: u8) -> bool {
    flags2 & 0x0C == 0x08
}

/// A 16-byte header that this format accepts.
pub open spec fn is_ines_header(hdr: Seq<u8>) -> bool {
    &&& hdr.len() == 16
    &&& has_magic(hdr)
    &&& !is_reserved_variant(hdr[7])
}

/// Mirroring mode encoded in the first flags byte; four-screen wins over
/// the horizontal/vertical bit.
pub open spec fn mirroring_spec(flags1: u8) -> MirroringType {
    if flags1 & 0x08 != 0 {
        MirroringType::FourScreen
    } else if flags1 & 0x01 != 0 {
        MirroringType::Horizontal
    } else {
        MirroringType::Vertical
    }
}

/// A 512-byte trainer sits between the header and the first bank.
pub open spec fn trainer_spec(flags1: u8) -> bool {
    flags1 & 0x04 != 0
}

/// File offset of the first byte of program bank `n`.
pub open spec fn bank_offset(trainer: bool, n: nat) -> nat {
    16 + (if trainer {
        512nat
    } else {
        0nat
    }) + n * 16384
}

/// Number of elements of `s` equal to `v`.
pub open spec fn count_value(s: Seq<u8>, v: u8) -> nat
    decreases s.len(),
{
    if s.len() == 0 {
        0
    } else {
        count_value(s.drop_last(), v) + if s.last() == v {
            1nat
        } else {
            0nat
        }
    }
}

/// Header byte `i` of the image; a byte past the end of a truncated image
/// reads as 0.
pub open spec fn header_byte(bytes: Seq<u8>, i: int) -> u8 {
    if 0 <= i < bytes.len() {
        bytes[i]
    } else {
        0
    }
}

/// The outcome of analysing program bank `bnum` of the image `bytes`, with
/// `empty` as the value of unwritten storage.
pub open spec fn bank_result(bytes: Seq<u8>, empty: u8, bnum: u8, btype: BankType) -> Result<
    BankInfo,
    AnalysisError,
> {
    let start = bank_offset(trainer_spec(header_byte(bytes, 6)), bnum as nat);
    let end = start + 16384;
    if end <= bytes.len() {
        Ok(
            BankInfo {
                banktype: Some(btype),
                size: 16384,
                freespace: count_value(bytes.subrange(start as int, end as int), empty) as u32,
            },
        )
    } else {
        Err(AnalysisError::UnexpectedEof)
    }
}

proof fn lemma_count_value_le_len(s: Seq<u8>, v: u8)
    ensures
        count_value(s, v) <= s.len(),
    decreases s.len(),
{
    if s.len() > 0 {
        lemma_count_value_le_len(s.drop_last(), v);
    }
}

// ---------------------------------------------------------------------------
// Decoding
// ---------------------------------------------------------------------------

/// Whether a file's first 16 bytes identify this container.
pub fn matches(hdr: &[u8; 16]) -> (r: bool)
    ensures
        r == is_ines_header(hdr@),
{
    if hdr[0] == 0x4E && hdr[1] == 0x45 && hdr[2] == 0x53 && hdr[3] == 0x1A {
        if hdr[7] & 0x0C == 0x08 {
            false
        } else {
            true
        }
    } else {
        false
    }
}

/// Decodes the mirroring mode from the first flags byte.
pub fn mirroring_type(flags1: u8) -> (r: Option<MirroringType>)
    ensures
        r == Some(mirroring_spec(flags1)),
{
    if flags1 & INES_MIRRORING_TYPE_FOUR_SCREEN_MASK != 0 {
        Some(MirroringType::FourScreen)
    } else if flags1 & INES_MIRRORING_TYPE_HV_MASK != 0 {
        Some(MirroringType::Horizontal)
    } else {
        Some(MirroringType::Vertical)
    }
}

/// Whether the first flags byte announces a trainer block.
pub fn trainer_present(flags1: u8) -> (r: bool)
    ensures
        r == trainer_spec(flags1),
{
    flags1 & INES_TRAINER_PRESENT_MASK != 0
}

/// Reads header byte `i`, or 0 when the image is too short to hold it.
fn read_header_byte(bytes: &[u8], i: usize) -> (r: u8)
    ensures
        r == header_byte(bytes@, i as int),
{
    if i < bytes.len() {
        bytes[i]
    } else {
        0
    }
}

/// Counts the bytes of `bytes[start..end]` equal to `value`.
fn count_byte(bytes: &[u8], start: usize, end: usize, value: u8) -> (r: u32)
    requires
        start <= end <= bytes@.len(),
        end - start <= u32::MAX,
    ensures
        r == count_value(bytes@.subrange(start as int, end as int), value),
{
    let mut n: u32 = 0;
    let mut i: usize = start;
    while i < end
        invariant
            start <= i <= end <= bytes@.len(),
            end - start <= u32::MAX,
            n <= i - start,
            n == count_value(bytes@.subrange(start as int, i as int), value),
        decreases end - i,
    {
        assert(bytes@.subrange(start as int, i + 1).drop_last() =~= bytes@.subrange(
            start as int,
            i as int,
        ));
        if bytes[i] == value {
            n = n + 1;
        }
        i = i + 1;
    }
    n
}

/// Analyses program bank `bnum` of the image `bytes`: locates it after the
/// header (and the trainer, when present), checks that it lies within the
/// image and counts its bytes equal to `empty`.
pub fn analyze_bank(bytes: &[u8], empty: u8, bnum: u8, btype: BankType) -> (r: Result<
    BankInfo,
    AnalysisError,
>)
    ensures
        r == bank_result(bytes@, empty, bnum, btype),
{
    let base: u32 = if trainer_present(read_header_byte(bytes, INES_FLAGS_1_IDX)) {
        INES_HDR_SIZE + INES_PRG_TRAINER_SIZE
    } else {
        INES_HDR_SIZE
    };
    let bstart: u32 = base + (bnum as u32) * INES_PRG_BANK_SIZE;
    let bend: u32 = bstart + INES_PRG_BANK_SIZE;
    assert(bstart == bank_offset(trainer_spec(header_byte(bytes@, 6)), bnum as nat));
    if bend as usize > bytes.len() {
        return Err(AnalysisError::UnexpectedEof);
    }
    let empties = count_byte(bytes, bstart as usize, bend as usize, empty);
    Ok(BankInfo { banktype: Some(btype), size: bend - bstart, freespace: empties })
}

// ---------------------------------------------------------------------------
// The analysis context
// ---------------------------------------------------------------------------

/// Mathematical view of an [`NESContext`].
pub struct NESContextView {
    pub filepath: Seq<char>,
    pub filesize: Option<u64>,
    pub bytes: Seq<u8>,
    pub empty: u8,
}

/// An iNES image opened for analysis: its path, its size as the file system
/// reported it, its bytes (borrowed from whoever holds the file's contents,
/// such as a read-only mapping), and the byte value that stands for
/// unwritten storage.
pub struct NESContext<'a> {
    filepath: String,
    filesize: Option<u64>,
    bytes: &'a [u8],
    empty: u8,
}

impl<'a> View for NESContext<'a> {
    type V = NESContextView;

    closed spec fn view(&self) -> NESContextView {
        NESContextView {
            filepath: self.filepath@,
            filesize: self.filesize,
            bytes: self.bytes@,
            empty: self.empty,
        }
    }
}

impl<'a> NESContext<'a> {
    /// Builds a context over the contents `bytes` of the file at `filepath`;
    /// any contents are accepted, a truncated header included.
    pub fn new(filepath: String, filesize: Option<u64>, bytes: &'a [u8], empty: u8) -> (r:
        NESContext<'a>)
        ensures
            r@ == (NESContextView { filepath: filepath@, filesize, bytes: bytes@, empty }),
    {
        NESContext { filepath, filesize, bytes, empty }
    }

    fn get_prg_size(&self) -> (r: u8)
        ensures
            r == header_byte(self@.bytes, 4),
    {
        read_header_byte(self.bytes, INES_PRG_SIZE_IDX)
    }

    fn get_chr_size(&self) -> (r: u8)
        ensures
            r == header_byte(self@.bytes, 5),
    {
        read_header_byte(self.bytes, INES_CHR_SIZE_IDX)
    }

    fn get_mirroring_type(&self) -> (r: Option<MirroringType>)
        ensures
            r == mirroring_view(self@.bytes),
    {
        if INES_FLAGS_1_IDX < self.bytes.len() {
            mirroring_type(self.bytes[INES_FLAGS_1_IDX])
        } else {
            None
        }
    }
}

/// The mirroring mode of an image; absent when the image is too short to
/// hold the flags byte.
pub open spec fn mirroring_view(bytes: Seq<u8>) -> Option<MirroringType> {
    if bytes.len() > 6 {
        Some(mirroring_spec(bytes[6]))
    } else {
        None
    }
}

/// The header summary of an image, as [`AnalysisContext::hdr_analysis`]
/// reports it. A count byte missing from a truncated header reads as 0.
pub open spec fn header_view(c: NESContextView) -> ROMInfoView {
    ROMInfoView {
        filename: c.filepath,
        filesize: c.filesize,
        prgsize: header_byte(c.bytes, 4),
        chrsize: header_byte(c.bytes, 5),
        mirroring: mirroring_view(c.bytes),
    }
}

impl<'a> AnalysisContext for NESContext<'a> {
    open spec fn header_spec(&self) -> ROMInfoView {
        header_view(self@)
    }

    open spec fn bank_spec(&self, bnum: u8, btype: BankType) -> Result<BankInfo, AnalysisError> {
        bank_result(self@.bytes, self@.empty, bnum, btype)
    }

    fn hdr_analysis(&self) -> (r: ROMInfo) {
        ROMInfo {
            filename: self.filepath.clone(),
            filesize: self.filesize,
            prgsize: self.get_prg_size(),
            chrsize: self.get_chr_size(),
            mirroring: self.get_mirroring_type(),
        }
    }

    fn bank_analysis(&self, bnum: u8, btype: BankType) -> (r: Result<BankInfo, AnalysisError>) {
        let r = analyze_bank(self.bytes, self.empty, bnum, btype);
        proof {
            lemma_bank_result_bounded(self@.bytes, self.empty, bnum, btype);
        }
        r
    }
}

// ---------------------------------------------------------------------------
// Laws
// ---------------------------------------------------------------------------

/// A bank that is found has the program-bank size, is tagged with the
/// requested kind, and has no more empty bytes than it has bytes.
pub proof fn lemma_bank_result_bounded(bytes: Seq<u8>, empty: u8, bnum: u8, btype: BankType)
    ensures
        bank_result(bytes, empty, bnum, btype) is Ok ==> {
            let b = bank_result(bytes, empty, bnum, btype)->Ok_0;
            &&& b.size == INES_PRG_BANK_SIZE
            &&& b.freespace <= b.size
            &&& b.banktype == Some(btype)
        },
{
    let start = bank_offset(trainer_spec(header_byte(bytes, 6)), bnum as nat);
    let end = start + 16384;
    if end <= bytes.len() {
        lemma_count_value_le_len(bytes.subrange(start as int, end as int), empty);
    }
}

/// Any header whose first four bytes differ from those of an accepted
/// header is refused.
pub proof fn lemma_signature_mutation_rejected(good: Seq<u8>, bad: Seq<u8>)
    requires
        is_ines_header(good),
        bad.len() == 16,
        bad.subrange(0, 4) != good.subrange(0, 4),
    ensures
        !is_ines_header(bad),
{
    if has_magic(bad) {
        assert(bad.subrange(0, 4) =~= good.subrange(0, 4));
    }
}

/// A header announcing the reserved hardware variant is refused, whatever
/// its signature.
pub proof fn lemma_reserved_variant_rejected(hdr: Seq<u8>)
    requires
        hdr.len() == 16,
        is_reserved_variant(hdr[7]),
    ensures
        !is_ines_header(hdr),
{
}

/// Every bank that ends within the image is analysed successfully, with the
/// program-bank size and at most that many empty bytes.
pub proof fn lemma_bank_within_file_succeeds(bytes: Seq<u8>, empty: u8, bnum: u8, btype: BankType)
    requires
        bank_offset(trainer_spec(header_byte(bytes, 6)), bnum as nat) + INES_PRG_BANK_SIZE
            <= bytes.len(),
    ensures
        bank_result(bytes, empty, bnum, btype) is Ok,
        bank_result(bytes, empty, bnum, btype)->Ok_0.size == INES_PRG_BANK_SIZE,
        bank_result(bytes, empty, bnum, btype)->Ok_0.freespace <= INES_PRG_BANK_SIZE,
{
    lemma_bank_result_bounded(bytes, empty, bnum, btype);
}

/// Every bank that runs past the end of the image is refused with an
/// end-of-data error.
pub proof fn lemma_bank_past_end_fails(bytes: Seq<u8>, empty: u8, bnum: u8, btype: BankType)
    requires
        bank_offset(trainer_spec(header_byte(bytes, 6)), bnum as nat) + INES_PRG_BANK_SIZE
            > bytes.len(),
    ensures
        bank_result(bytes, empty, bnum, btype) == Err::<BankInfo, AnalysisError>(
            AnalysisError::UnexpectedEof,
        ),
{
}

/// Two contexts over the same path, size, bytes and empty value give the
/// same header summary and the same result for every bank: analysis reads
/// nothing else.
pub proof fn lemma_analysis_repeatable(a: &NESContext<'_>, b: &NESContext<'_>, bnum: u8, btype: BankType)
    requires
        a@ == b@,
    ensures
        a.header_spec() == b.header_spec(),
        a.bank_spec(bnum, btype) == b.bank_spec(bnum, btype),
{
}

/// A trainer moves every bank 512 bytes further into the file: an image
/// with a trainer and one without, identical but for the trainer bit and the
/// trainer block, give the same result for every bank.
pub proof fn lemma_trainer_shifts_banks(
    with_trainer: Seq<u8>,
    without: Seq<u8>,
    empty: u8,
    bnum: u8,
    btype: BankType,
)
    requires
        without.len() >= INES_HDR_SIZE,
        with_trainer.len() == without.len() + INES_PRG_TRAINER_SIZE,
        trainer_spec(with_trainer[6]),
        !trainer_spec(without[6]),
        with_trainer.subrange(528, with_trainer.len() as int) == without.subrange(
            16,
            without.len() as int,
        ),
    ensures
        bank_offset(true, bnum as nat) == bank_offset(false, bnum as nat) + INES_PRG_TRAINER_SIZE,
        bank_result(with_trainer, empty, bnum, btype) == bank_result(without, empty, bnum, btype),
{
    let s = bank_offset(false, bnum as nat) as int;
    let e = s + 16384;
    let tail_t = with_trainer.subrange(528, with_trainer.len() as int);
    let tail_u = without.subrange(16, without.len() as int);
    assert(s >= 16);
    if e <= without.len() {
        let bank_t = with_trainer.subrange(s + 512, e + 512);
        let bank_u = without.subrange(s, e);
        assert forall|k: int| 0 <= k < bank_u.len() implies #[trigger] bank_t[k] == bank_u[k] by {
            assert(tail_t[s - 16 + k] == with_trainer[s + 512 + k]);
            assert(tail_u[s - 16 + k] == without[s + k]);
        }
        assert(with_trainer.subrange(s + 512, e + 512) =~= without.subrange(s, e));
    }
}

} // verus!
