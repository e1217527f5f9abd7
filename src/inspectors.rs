//! Data model shared by every container format, and the capability that
//! each format back-end provides.

use vstd::prelude::*;

pub mod nes;

verus! {

/// How the console's nametable memory is mirrored.
#[derive(Clone, Copy, Debug, PartialEq, Eq, Structural)]
pub enum MirroringType {
    Horizontal,
    Vertical,
    FourScreen,
}

impl MirroringType {
    pub open spec fn label_spec(self) -> Seq<char> {
        match self {
            MirroringType::Horizontal => "Horizontal mirroring (vertical arrangement)"@,
            MirroringType::Vertical => "Vertical mirroring (horizontal arrangement)"@,
            MirroringType::FourScreen => "Four-screen VRAM"@,
        }
    }

    /// Human-readable description of the mirroring mode.
    pub fn as_str(&self) -> (r: &'static str)
        ensures
            r@ == self.label_spec(),
    {
        match self {
            MirroringType::Horizontal => "Horizontal mirroring (vertical arrangement)",
            MirroringType::Vertical => "Vertical mirroring (horizontal arrangement)",
            MirroringType::FourScreen => "Four-screen VRAM",
        }
    }
}

/// Logical memory region a bank belongs to.
#[derive(Clone, Copy, Debug, PartialEq, Eq, Structural)]
pub enum BankType {
    Prg,
    Chr,
    PCInstRom,
    PCRom,
}

impl BankType {
    pub open spec fn label_spec(self) -> Seq<char> {
        match self {
            BankType::Prg => "PRG"@,
            BankType::Chr => "CHR"@,
            BankType::PCInstRom => "PlayChoice INST-ROM"@,
            BankType::PCRom => "PlayChoice PROM"@,
        }
    }

    /// Short name of the bank kind.
    pub fn as_str(&self) -> (r: &'static str)
        ensures
            r@ == self.label_spec(),
    {
        match self {
            BankType::Prg => "PRG",
            BankType::Chr => "CHR",
            BankType::PCInstRom => "PlayChoice INST-ROM",
            BankType::PCRom => "PlayChoice PROM",
        }
    }
}

/// Header summary of a ROM image.
pub struct ROMInfo {
    pub filename: String,
    /// Size of the file in bytes, when it could be determined.
    pub filesize: Option<u64>,
    /// Number of 16 KiB program banks.
    pub prgsize: u8,
    /// Number of 8 KiB character banks; 0 means the board uses character RAM.
    pub chrsize: u8,
    pub mirroring: Option<MirroringType>,
}

/// Mathematical view of a [`ROMInfo`].
pub struct ROMInfoView {
    pub filename: Seq<char>,
    pub filesize: Option<u64>,
    pub prgsize: u8,
    pub chrsize: u8,
    pub mirroring: Option<MirroringType>,
}

impl View for ROMInfo {
    type V = ROMInfoView;

    open spec fn view(&self) -> ROMInfoView {
        ROMInfoView {
            filename: self.filename@,
            filesize: self.filesize,
            prgsize: self.prgsize,
            chrsize: self.chrsize,
            mirroring: self.mirroring,
        }
    }
}

/// Result of analysing one bank.
#[derive(Clone, Copy, Debug, PartialEq, Eq, Structural)]
pub struct BankInfo {
    /// Kind of the bank, as requested.
    pub banktype: Option<BankType>,
    /// Bank size, in bytes.
    pub size: u32,
    /// Number of bytes of the bank equal to the "empty" value.
    pub freespace: u32,
}

/// Why a bank could not be analysed.
#[derive(Clone, Copy, Debug, PartialEq, Eq, Structural)]
pub enum AnalysisError {
    /// The bank's byte range lies (partly) past the end of the file.
    UnexpectedEof,
}

/// What every container-format back-end offers.
pub trait AnalysisContext {
    /// The header summary that [`AnalysisContext::hdr_analysis`] returns.
    spec fn header_spec(&self) -> ROMInfoView;

    /// The outcome of [`AnalysisContext::bank_analysis`] for a bank.
    spec fn bank_spec(&self, bnum: u8, btype: BankType) -> Result<BankInfo, AnalysisError>;

    /// Decodes the header; never fails.
    fn hdr_analysis(&self) -> (r: ROMInfo)
        ensures
            r@ == self.header_spec(),
    ;

    /// Locates bank `bnum` and counts its empty bytes.
    fn bank_analysis(&self, bnum: u8, btype: BankType) -> (r: Result<BankInfo, AnalysisError>)
        ensures
            r == self.bank_spec(bnum, btype),
            r is Ok ==> r->Ok_0.freespace <= r->Ok_0.size,
            r is Ok ==> r->Ok_0.banktype == Some(btype),
    ;
}

/// Analyses every program bank that the header declares, in order.
pub fn do_bank_usage<C: AnalysisContext>(ctx: &C, hinfo: ROMInfo) -> (r: Vec<
    Result<BankInfo, AnalysisError>,
>)
    ensures
        r@.len() == hinfo.prgsize,
        forall|i: int|
            0 <= i < r@.len() ==> #[trigger] r@[i] == ctx.bank_spec(i as u8, BankType::Prg),
{
    let mut out: Vec<Result<BankInfo, AnalysisError>> = Vec::new();
    let mut rom: u8 = 0;
    while rom < hinfo.prgsize
        invariant
            rom <= hinfo.prgsize,
            out@.len() == rom,
            forall|i: int|
                0 <= i < out@.len() ==> #[trigger] out@[i] == ctx.bank_spec(i as u8, BankType::Prg),
        decreases hinfo.prgsize - rom,
    {
        let res = ctx.bank_analysis(rom, BankType::Prg);
        out.push(res);
        rom = rom + 1;
    }
    out
}

} // verus!
