//! From the bytes of a file to the entries of its dynamic symbol table.

use crate::error::{ScanError, ScanErrorView};
use crate::symbol::{SymbolTableEntry, SymbolTableEntryView};
use goblin::elf::Elf;
use vstd::prelude::*;

verus! {

/// Whether the bytes begin with the four-byte ELF signature: `0x7f`, then
/// the letters `E`, `L`, `F`.
pub open spec fn has_elf_magic_spec(image: Seq<u8>) -> bool {
    &&& image.len() >= 4
    &&& image[0] == 0x7f
    &&& image[1] == 0x45
    &&& image[2] == 0x4c
    &&& image[3] == 0x46
}

/// Tells an ELF image from any other file by its first four bytes. An image
/// shorter than the signature is no ELF image.
pub fn has_elf_magic(image: &[u8]) -> (found: bool)
    ensures
        found == has_elf_magic_spec(image@),
{
    image.len() >= 4 && image[0] == 0x7f && image[1] == 0x45 && image[2] == 0x4c && image[3]
        == 0x46
}

/// The views of a run of entries, in the same order.
pub open spec fn entry_views(entries: Seq<SymbolTableEntry>) -> Seq<SymbolTableEntryView> {
    entries.map_values(|e: SymbolTableEntry| e@)
}

/// What `goblin::elf::Elf::parse` finds in an image. `Ok` holds the entries
/// of the dynamic symbol table in table order, each with the name that the
/// dynamic string table gives for its name offset; an image without a
/// dynamic symbol table has none. `Err` holds the text of the parse error.
pub uninterp spec fn dynamic_symbols(image: Seq<u8>) -> Result<
    Seq<SymbolTableEntryView>,
    Seq<char>,
>;

/// Calls `goblin::elf::Elf::parse` and copies out what it found. Trusted:
/// the result is `dynamic_symbols` of the image. On success every entry that
/// the parsed `dynsyms` table yields is copied field by field, in order, with
/// its name looked up by `Strtab::get_at` in the parsed `dynstrtab`; on
/// failure the error's display text is returned.
#[verifier::external_body]
fn read_dynamic_symbols(image: &[u8]) -> (r: Result<Vec<SymbolTableEntry>, String>)
    ensures
        match r {
            Ok(entries) => dynamic_symbols(image@) == Ok::<_, Seq<char>>(entry_views(entries@)),
            Err(complaint) => dynamic_symbols(image@) == Err::<Seq<SymbolTableEntryView>, _>(
                complaint@,
            ),
        },
{
    let elf = Elf::parse(image).map_err(|e| e.to_string())?;
    let names = &elf.dynstrtab;
    Ok(
        elf.dynsyms.iter().map(
            |sym|
                SymbolTableEntry {
                    name: names.get_at(sym.st_name).map(|name| name.to_string()),
                    name_offset: sym.st_name,
                    info: sym.st_info,
                    other: sym.st_other,
                    section_index: sym.st_shndx,
                },
        ).collect(),
    )
}

/// What was read out of one image: its dynamic symbol table.
#[derive(Debug, Clone, PartialEq, Eq)]
pub struct ElfLayout {
    /// The entries in table order.
    pub symbols: Vec<SymbolTableEntry>,
}

impl View for ElfLayout {
    type V = Seq<SymbolTableEntryView>;

    open spec fn view(&self) -> Seq<SymbolTableEntryView> {
        entry_views(self.symbols@)
    }
}

/// What parsing an image gives: `NotElf` for bytes without the signature,
/// `MalformedHeader` with the complaint where the signature is there and the
/// structure cannot be read, and else the entries of the dynamic symbol
/// table.
pub open spec fn layout_of(image: Seq<u8>) -> Result<Seq<SymbolTableEntryView>, ScanErrorView> {
    if !has_elf_magic_spec(image) {
        Err(ScanErrorView::NotElf)
    } else {
        match dynamic_symbols(image) {
            Ok(entries) => Ok(entries),
            Err(complaint) => Err(ScanErrorView::MalformedHeader { complaint }),
        }
    }
}

/// Reads the dynamic symbol table of an image. The signature is checked
/// first, so that a file of another kind is told apart from a broken ELF
/// file.
pub fn parse(image: &[u8]) -> (r: Result<ElfLayout, ScanError>)
    ensures
        match r {
            Ok(layout) => layout_of(image@) == Ok::<_, ScanErrorView>(layout@),
            Err(e) => layout_of(image@) == Err::<Seq<SymbolTableEntryView>, _>(e@),
        },
{
    if !has_elf_magic(image) {
        return Err(ScanError::NotElf);
    }
    match read_dynamic_symbols(image) {
        Ok(symbols) => Ok(ElfLayout { symbols }),
        Err(complaint) => Err(ScanError::MalformedHeader { complaint }),
    }
}

} // verus!
