//! Which standard GTIN encoding a value's shortest form occupies.
use vstd::prelude::*;

verus! {

/// The four standard GTIN encodings.
///
/// Total: every `Gtin14` has exactly one, because its shortest standard form
/// always lands on one of these four widths. GTIN-8 is EAN-8, GTIN-12 is
/// UPC-A, GTIN-13 is EAN-13; the GTIN names are used because the others name
/// barcode symbologies, and this crate never touches bars.
#[derive(Debug, Clone, Copy, PartialEq, Eq, PartialOrd, Ord, Hash)]
pub enum Encoding {
    /// 8 digits. Small items with no room for a full symbol.
    Gtin8,
    /// 12 digits. North America; formerly UPC-A.
    Gtin12,
    /// 13 digits. The global retail default; formerly EAN-13.
    Gtin13,
    /// 14 digits. Cases, pallets and other groupings of a retail item.
    Gtin14,
}

/// How many digits an encoding is written with.
pub open spec fn encoding_width(e: Encoding) -> int {
    match e {
        Encoding::Gtin8 => 8,
        Encoding::Gtin12 => 12,
        Encoding::Gtin13 => 13,
        Encoding::Gtin14 => 14,
    }
}

/// The usual written name of an encoding.
pub open spec fn encoding_label(e: Encoding) -> Seq<char> {
    match e {
        Encoding::Gtin8 => "GTIN-8"@,
        Encoding::Gtin12 => "GTIN-12"@,
        Encoding::Gtin13 => "GTIN-13"@,
        Encoding::Gtin14 => "GTIN-14"@,
    }
}

impl Encoding {
    /// How many digits this encoding is written with.
    pub fn digits(&self) -> (n: usize)
        ensures
            n == encoding_width(*self),
    {
        match self {
            Encoding::Gtin8 => 8,
            Encoding::Gtin12 => 12,
            Encoding::Gtin13 => 13,
            Encoding::Gtin14 => 14,
        }
    }

    /// The written name: `"GTIN-8"`, `"GTIN-12"`, `"GTIN-13"` or `"GTIN-14"`.
    pub fn label(&self) -> (s: &'static str)
        ensures
            s@ == encoding_label(*self),
    {
        match self {
            Encoding::Gtin8 => "GTIN-8",
            Encoding::Gtin12 => "GTIN-12",
            Encoding::Gtin13 => "GTIN-13",
            Encoding::Gtin14 => "GTIN-14",
        }
    }
}

} // verus!
