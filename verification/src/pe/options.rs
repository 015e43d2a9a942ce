//! What a parse is asked to decode.
use vstd::prelude::*;

verus! {

/// The special sections that a parse decodes, one bit each.
#[derive(Default, Debug, Clone, Copy, PartialEq, Eq, PartialOrd, Ord, Hash)]
pub struct ParseSectionFlags {
    pub bits: u32,
}

impl ParseSectionFlags {
    /// No special section.
    pub const NONE: u32 = 0;

    /// The export data
    pub const EXPORT_TABLE: u32 = 0x0001;

    /// The import data
    pub const IMPORT_TABLE: u32 = 0x0002;

    /// The resource data
    pub const RESOURCE_TABLE: u32 = 0x0004;

    /// The exception data
    pub const EXCEPTION_TABLE: u32 = 0x0008;

    /// The attribute certificate table
    pub const CERTIFICATE_TABLE: u32 = 0x0010;

    /// The base relocation table
    pub const BASE_RELOCATION_TABLE: u32 = 0x0020;

    /// The debug data
    pub const DEBUG: u32 = 0x0040;

    /// The architecture data
    pub const ARCHITECTURE: u32 = 0x0080;

    /// The global pointer
    pub const GLOBAL_PTR: u32 = 0x0100;

    /// The thread local storage table
    pub const TLS_TABLE: u32 = 0x0100;

    /// The load configuration table
    pub const LOAD_CONFIG_TABLE: u32 = 0x0200;

    /// The bound import table
    pub const BOUND_TABLE: u32 = 0x0400;

    /// The import address table
    pub const ITA: u32 = 0x0800;

    /// The delay import descriptor
    pub const DELAY_IMPORT_DESCRIPTOR: u32 = 0x1000;

    /// The CLR runtime header
    pub const CLR_RUNTIME_HEADER: u32 = 0x2000;

    /// The reserved directory
    pub const RESERVED: u32 = 0x4000;

    /// Every special section.
    pub const ALL: u32 = 0x7FFF;

    /// The flags with exactly the bits of `bits` set.
    pub fn from_bits_retain(bits: u32) -> (flags: Self)
        ensures
            flags.bits == bits,
    {
        Self { bits }
    }

    /// The bits that are set.
    pub fn bits(&self) -> (bits: u32)
        ensures
            bits == self.bits,
    {
        self.bits
    }

    /// Whether no bit is set.
    pub fn is_empty(&self) -> (b: bool)
        ensures
            b == (self.bits == 0),
    {
        self.bits == 0
    }

    /// Whether every bit of `flags` is set.
    pub open spec fn spec_contains(&self, flags: u32) -> bool {
        self.bits & flags == flags
    }

    /// Whether every bit of `flags` is set.
    #[verifier::when_used_as_spec(spec_contains)]
    pub fn contains(&self, flags: u32) -> (all: bool)
        ensures
            all == self.spec_contains(flags),
    {
        self.bits & flags == flags
    }
}

/// Parsing options.
#[derive(Debug, Clone, Copy, PartialEq, Eq)]
pub struct Options {
    /// The special sections to decode. By default all of them.
    pub parse_special_sections: ParseSectionFlags,
}

impl Options {
    /// Decodes the headers and the section table alone.
    pub fn minimal() -> (options: Self)
        ensures
            options.parse_special_sections.bits == ParseSectionFlags::NONE,
    {
        Self { parse_special_sections: ParseSectionFlags::from_bits_retain(ParseSectionFlags::NONE) }
    }
}

impl Default for Options {
    /// Decodes every special section.
    fn default() -> (options: Self)
        ensures
            options.parse_special_sections.bits == ParseSectionFlags::ALL,
    {
        Self { parse_special_sections: ParseSectionFlags::from_bits_retain(ParseSectionFlags::ALL) }
    }
}

} // verus!
