//! Finds symbol names that match a pattern in the dynamic symbol table of an
//! ELF image, and tells imported symbols from exported ones.

pub mod engine;
pub mod error;
pub mod image;
pub mod pattern;
pub mod report;
pub mod symbol;

pub use engine::{kinds_wanted, parse_symbols, scan_image, select_matches};
pub use error::{ScanError, ScanErrorView};
pub use image::{has_elf_magic, parse, ElfLayout};
pub use pattern::CompiledPattern;
pub use report::{match_line, report_lines};
pub use symbol::{
    SymbolKind, SymbolMatch, SymbolMatchView, SymbolTableEntry, SymbolTableEntryView,
    UNDEFINED_SECTION,
};
