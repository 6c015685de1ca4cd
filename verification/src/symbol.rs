//! Symbols of a dynamic symbol table and the rule that classifies them.

use vstd::prelude::*;

verus! {

/// The section index that marks a symbol as defined nowhere in the binary.
pub const UNDEFINED_SECTION: usize = 0;

/// Whether a symbol is resolved from elsewhere or defined by the binary.
#[derive(Debug, Clone, Copy, PartialEq, Eq, Structural)]
pub enum SymbolKind {
    /// Referenced by the binary and defined nowhere in it.
    Import,
    /// Defined in one of the binary's own sections.
    Export,
}

impl SymbolKind {
    /// The tag under which a kind is reported.
    pub open spec fn spec_tag(self) -> Seq<char> {
        match self {
            SymbolKind::Import => "IMPORT"@,
            SymbolKind::Export => "EXPORT"@,
        }
    }

    /// The literal `IMPORT` or `EXPORT`.
    pub fn tag(&self) -> (t: &'static str)
        ensures
            t@ == self.spec_tag(),
    {
        match self {
            SymbolKind::Import => "IMPORT",
            SymbolKind::Export => "EXPORT",
        }
    }

    /// The kind that a section index stands for.
    pub open spec fn of_section(section_index: usize) -> SymbolKind {
        if section_index == UNDEFINED_SECTION {
            SymbolKind::Import
        } else {
            SymbolKind::Export
        }
    }

    /// Whether a caller who asked for imports, exports, both or neither
    /// wants symbols of this kind.
    pub open spec fn spec_included(self, include_imports: bool, include_exports: bool) -> bool {
        match self {
            SymbolKind::Import => include_imports,
            SymbolKind::Export => include_exports,
        }
    }

    /// Whether symbols of this kind are wanted under the two flags.
    pub fn included(&self, include_imports: bool, include_exports: bool) -> (wanted: bool)
        ensures
            wanted == self.spec_included(include_imports, include_exports),
    {
        match self {
            SymbolKind::Import => include_imports,
            SymbolKind::Export => include_exports,
        }
    }
}

/// One entry of the dynamic symbol table, with the name that the dynamic
/// string table holds for it.
#[derive(Debug, Clone, PartialEq, Eq)]
pub struct SymbolTableEntry {
    /// The name at `name_offset` in the string table; `None` where the
    /// offset points at no string of the table.
    pub name: Option<String>,
    /// Where in the string table the name starts.
    pub name_offset: usize,
    /// Binding in the upper four bits, type in the lower four.
    pub info: u8,
    /// Visibility in the lower three bits.
    pub other: u8,
    /// The section that defines the symbol, or `UNDEFINED_SECTION`.
    pub section_index: usize,
}

/// A `SymbolTableEntry` with its name as a sequence of characters.
pub struct SymbolTableEntryView {
    pub name: Option<Seq<char>>,
    pub name_offset: usize,
    pub info: u8,
    pub other: u8,
    pub section_index: usize,
}

impl View for SymbolTableEntry {
    type V = SymbolTableEntryView;

    open spec fn view(&self) -> SymbolTableEntryView {
        SymbolTableEntryView {
            name: match self.name {
                Some(name) => Some(name@),
                None => None,
            },
            name_offset: self.name_offset,
            info: self.info,
            other: self.other,
            section_index: self.section_index,
        }
    }
}

/// A symbol that the scan reports: its name and its kind.
#[derive(Debug, Clone, PartialEq, Eq)]
pub struct SymbolMatch {
    pub name: String,
    pub kind: SymbolKind,
}

/// A `SymbolMatch` with its name as a sequence of characters.
pub struct SymbolMatchView {
    pub name: Seq<char>,
    pub kind: SymbolKind,
}

impl View for SymbolMatch {
    type V = SymbolMatchView;

    open spec fn view(&self) -> SymbolMatchView {
        SymbolMatchView { name: self.name@, kind: self.kind }
    }
}

impl SymbolTableEntryView {
    /// Whether the entry stands for a symbol at all: its name resolves and
    /// is not empty. Other entries are padding of the table.
    pub open spec fn is_symbol(self) -> bool {
        self.name is Some && self.name.unwrap().len() > 0
    }

    /// The entry's name and kind, or `None` where it is passed over. The
    /// kind goes by the section index alone: undefined means imported,
    /// every other index means exported.
    pub open spec fn classify(self) -> Option<SymbolMatchView> {
        if self.is_symbol() {
            Some(
                SymbolMatchView {
                    name: self.name.unwrap(),
                    kind: SymbolKind::of_section(self.section_index),
                },
            )
        } else {
            None
        }
    }

    /// The classified entry where its kind is wanted under the two flags.
    pub open spec fn candidate(self, include_imports: bool, include_exports: bool) -> Option<
        SymbolMatchView,
    > {
        match self.classify() {
            Some(m) => if m.kind.spec_included(include_imports, include_exports) {
                Some(m)
            } else {
                None
            },
            None => None,
        }
    }
}

impl SymbolTableEntry {
    /// The binding of the symbol: the upper four bits of `info`.
    pub fn binding(&self) -> (binding: u8)
        ensures
            binding == self.info / 16,
            binding < 16,
    {
        self.info / 16
    }

    /// The type of the symbol: the lower four bits of `info`.
    pub fn symbol_type(&self) -> (symbol_type: u8)
        ensures
            symbol_type == self.info % 16,
            self.info == self.binding_spec() * 16 + symbol_type,
    {
        self.info % 16
    }

    /// The visibility of the symbol: the lower three bits of `other`.
    pub fn visibility(&self) -> (visibility: u8)
        ensures
            visibility == self.other % 8,
            visibility < 8,
    {
        self.other % 8
    }

    /// The binding as contracts speak of it.
    pub open spec fn binding_spec(&self) -> int {
        self.info as int / 16
    }

    /// The kind of the entry by its section index.
    pub fn kind(&self) -> (kind: SymbolKind)
        ensures
            kind == SymbolKind::of_section(self.section_index),
            kind == SymbolKind::Import <==> self.section_index == UNDEFINED_SECTION,
    {
        if self.section_index == UNDEFINED_SECTION {
            SymbolKind::Import
        } else {
            SymbolKind::Export
        }
    }

    /// Classifies the entry: its name and kind, or `None` for an entry whose
    /// name does not resolve or is empty.
    pub fn classify(&self) -> (r: Option<(&str, SymbolKind)>)
        ensures
            match r {
                Some((name, kind)) => self@.classify() == Some(SymbolMatchView { name: name@, kind }),
                None => self@.classify() is None,
            },
    {
        match &self.name {
            Some(name) => {
                if name.as_str().is_empty() {
                    None
                } else {
                    Some((name.as_str(), self.kind()))
                }
            },
            None => None,
        }
    }

    /// The entry's name and kind where it is a symbol of a wanted kind,
    /// before any pattern is tried on the name.
    pub fn candidate(&self, include_imports: bool, include_exports: bool) -> (r: Option<
        (&str, SymbolKind),
    >)
        ensures
            match r {
                Some((name, kind)) => self@.candidate(include_imports, include_exports) == Some(
                    SymbolMatchView { name: name@, kind },
                ),
                None => self@.candidate(include_imports, include_exports) is None,
            },
    {
        match self.classify() {
            Some((name, kind)) => {
                if kind.included(include_imports, include_exports) {
                    Some((name, kind))
                } else {
                    None
                }
            },
            None => None,
        }
    }
}

/// Classification leaves no symbol out and goes by the section index alone.
/// An entry is classified exactly when its name resolves and is not empty;
/// the classified entry keeps that name; it is an import where the section
/// index is the undefined one and an export for every other index.
pub proof fn lemma_classification_exhaustive(entry: SymbolTableEntryView)
    ensures
        entry.classify() is Some <==> entry.is_symbol(),
        entry.is_symbol() ==> entry.classify().unwrap().name == entry.name.unwrap(),
        entry.is_symbol() && entry.section_index == UNDEFINED_SECTION
            ==> entry.classify().unwrap().kind == SymbolKind::Import,
        entry.is_symbol() && entry.section_index != UNDEFINED_SECTION
            ==> entry.classify().unwrap().kind == SymbolKind::Export,
{
}

} // verus!
