//! The scan of one image: parse it, classify every entry of its dynamic
//! symbol table, and keep the wanted kinds whose names the pattern matches.

use crate::error::{ScanError, ScanErrorView};
use crate::image::{dynamic_symbols, entry_views, has_elf_magic_spec, layout_of, parse};
use crate::pattern::{pattern_accepts, pattern_complaint, CompiledPattern};
use crate::symbol::{SymbolMatch, SymbolMatchView, SymbolTableEntry, SymbolTableEntryView};
use vstd::prelude::*;

verus! {

/// What one entry adds to the result: itself, classified, where it is a
/// symbol of a wanted kind whose name the pattern accepts.
pub open spec fn selected(
    entry: SymbolTableEntryView,
    pattern: Seq<char>,
    include_imports: bool,
    include_exports: bool,
) -> Option<SymbolMatchView> {
    match entry.candidate(include_imports, include_exports) {
        Some(m) => if pattern_accepts(pattern, m.name) {
            Some(m)
        } else {
            None
        },
        None => None,
    }
}

/// The matches of a symbol table, in table order.
pub open spec fn select(
    entries: Seq<SymbolTableEntryView>,
    pattern: Seq<char>,
    include_imports: bool,
    include_exports: bool,
) -> Seq<SymbolMatchView>
    decreases entries.len(),
{
    if entries.len() == 0 {
        Seq::empty()
    } else {
        let earlier = select(entries.drop_last(), pattern, include_imports, include_exports);
        match selected(entries.last(), pattern, include_imports, include_exports) {
            Some(m) => earlier.push(m),
            None => earlier,
        }
    }
}

/// The views of a run of matches, in the same order.
pub open spec fn match_views(matches: Seq<SymbolMatch>) -> Seq<SymbolMatchView> {
    matches.map_values(|m: SymbolMatch| m@)
}

/// A result of a scan with its texts as sequences of characters.
pub open spec fn outcome_view(r: Result<Vec<SymbolMatch>, ScanError>) -> Result<
    Seq<SymbolMatchView>,
    ScanErrorView,
> {
    match r {
        Ok(matches) => Ok(match_views(matches@)),
        Err(e) => Err(e@),
    }
}

/// What scanning an image with a compiled pattern gives: the error of the
/// parse, or the matches of the table that was read.
pub open spec fn scan_of(
    image: Seq<u8>,
    pattern: Seq<char>,
    include_imports: bool,
    include_exports: bool,
) -> Result<Seq<SymbolMatchView>, ScanErrorView> {
    match layout_of(image) {
        Ok(entries) => Ok(select(entries, pattern, include_imports, include_exports)),
        Err(e) => Err(e),
    }
}

/// What the whole pipeline gives for a pattern text: `InvalidPattern` where
/// the pattern does not compile, whatever the image holds, and else what the
/// scan of the image gives.
pub open spec fn parse_symbols_spec(
    image: Seq<u8>,
    pattern: Seq<char>,
    include_imports: bool,
    include_exports: bool,
) -> Result<Seq<SymbolMatchView>, ScanErrorView> {
    match pattern_complaint(pattern) {
        Some(complaint) => Err(ScanErrorView::InvalidPattern { pattern, complaint }),
        None => scan_of(image, pattern, include_imports, include_exports),
    }
}

/// From the two limiting switches of an invocation to the kinds that are
/// wanted: imports unless only exports are asked for, exports unless only
/// imports are. With both switches set nothing is wanted.
pub fn kinds_wanted(exports_only: bool, imports_only: bool) -> (wanted: (bool, bool))
    ensures
        wanted.0 == !exports_only,
        wanted.1 == !imports_only,
{
    (!exports_only, !imports_only)
}

/// Filters a symbol table: every entry is classified, entries of a kind
/// that is not wanted are dropped, and of the rest those are kept whose name
/// the pattern matches. The matches come in table order.
pub fn select_matches(
    symbols: &[SymbolTableEntry],
    pattern: &CompiledPattern,
    include_imports: bool,
    include_exports: bool,
) -> (matches: Vec<SymbolMatch>)
    ensures
        match_views(matches@) == select(
            entry_views(symbols@),
            pattern@,
            include_imports,
            include_exports,
        ),
{
    let ghost entries = entry_views(symbols@);
    let mut matches: Vec<SymbolMatch> = Vec::new();
    let mut i: usize = 0;
    assert(entries.take(0) =~= Seq::empty());
    assert(match_views(matches@) =~= Seq::empty());
    while i < symbols.len()
        invariant
            i <= symbols.len(),
            entries == entry_views(symbols@),
            match_views(matches@) == select(
                entries.take(i as int),
                pattern@,
                include_imports,
                include_exports,
            ),
        decreases symbols.len() - i,
    {
        let ghost before = match_views(matches@);
        proof {
            let upto = entries.take(i + 1);
            assert(upto.drop_last() =~= entries.take(i as int));
            assert(upto.last() == symbols@[i as int]@);
        }
        if let Some((name, kind)) = symbols[i].candidate(include_imports, include_exports) {
            if pattern.matches(name) {
                let found = SymbolMatch { name: name.to_owned(), kind };
                matches.push(found);
                assert(match_views(matches@) =~= before.push(found@));
            }
        }
        i += 1;
    }
    assert(entries.take(i as int) =~= entries);
    matches
}

/// Scans one image with a pattern that was compiled beforehand, so that one
/// compiled pattern serves every image of an invocation.
pub fn scan_image(
    image: &[u8],
    pattern: &CompiledPattern,
    include_imports: bool,
    include_exports: bool,
) -> (r: Result<Vec<SymbolMatch>, ScanError>)
    ensures
        outcome_view(r) == scan_of(image@, pattern@, include_imports, include_exports),
{
    match parse(image) {
        Ok(layout) => Ok(
            select_matches(layout.symbols.as_slice(), pattern, include_imports, include_exports),
        ),
        Err(e) => Err(e),
    }
}

/// Scans one image for the symbols whose names match `pattern`. The pattern
/// is compiled before the image is looked at: a pattern that does not
/// compile fails the call with `InvalidPattern` whatever the image holds.
pub fn parse_symbols(
    image: &[u8],
    pattern: &str,
    include_imports: bool,
    include_exports: bool,
) -> (r: Result<Vec<SymbolMatch>, ScanError>)
    ensures
        outcome_view(r) == parse_symbols_spec(image@, pattern@, include_imports, include_exports),
{
    match CompiledPattern::compile(pattern) {
        Ok(compiled) => scan_image(image, &compiled, include_imports, include_exports),
        Err(e) => Err(e),
    }
}

/// The places in the table of the entries that are selected, ascending.
pub open spec fn selected_indices(
    entries: Seq<SymbolTableEntryView>,
    pattern: Seq<char>,
    include_imports: bool,
    include_exports: bool,
) -> Seq<int>
    decreases entries.len(),
{
    if entries.len() == 0 {
        Seq::empty()
    } else {
        let earlier = selected_indices(
            entries.drop_last(),
            pattern,
            include_imports,
            include_exports,
        );
        if selected(entries.last(), pattern, include_imports, include_exports) is Some {
            earlier.push(entries.len() - 1)
        } else {
            earlier
        }
    }
}

/// With neither imports nor exports wanted, no table yields a match,
/// whatever the pattern is.
pub proof fn lemma_no_kind_no_match(entries: Seq<SymbolTableEntryView>, pattern: Seq<char>)
    ensures
        select(entries, pattern, false, false) == Seq::<SymbolMatchView>::empty(),
    decreases entries.len(),
{
    if entries.len() > 0 {
        lemma_no_kind_no_match(entries.drop_last(), pattern);
    }
}

/// With neither imports nor exports wanted, a scan that succeeds returns
/// the empty sequence, whatever the image and the pattern are.
pub proof fn lemma_no_kind_empty_result(image: Seq<u8>, pattern: Seq<char>)
    ensures
        parse_symbols_spec(image, pattern, false, false) matches Ok(matches) ==> matches
            == Seq::<SymbolMatchView>::empty(),
        scan_of(image, pattern, false, false) matches Ok(matches) ==> matches == Seq::<
            SymbolMatchView,
        >::empty(),
{
    if let Ok(entries) = layout_of(image) {
        lemma_no_kind_no_match(entries, pattern);
    }
}

/// A pattern that accepts the name of no symbol in the table yields no
/// match, however many symbols the table holds and whichever kinds are
/// wanted.
pub proof fn lemma_unmatched_pattern_selects_nothing(
    entries: Seq<SymbolTableEntryView>,
    pattern: Seq<char>,
    include_imports: bool,
    include_exports: bool,
)
    requires
        forall|k: int|
            0 <= k < entries.len() && (#[trigger] entries[k]).is_symbol() ==> !pattern_accepts(
                pattern,
                entries[k].name.unwrap(),
            ),
    ensures
        select(entries, pattern, include_imports, include_exports) == Seq::<
            SymbolMatchView,
        >::empty(),
    decreases entries.len(),
{
    if entries.len() > 0 {
        let earlier = entries.drop_last();
        assert forall|k: int| 0 <= k < earlier.len() && (#[trigger] earlier[k]).is_symbol() implies
            !pattern_accepts(pattern, earlier[k].name.unwrap()) by {
            assert(earlier[k] == entries[k]);
        }
        lemma_unmatched_pattern_selects_nothing(
            earlier,
            pattern,
            include_imports,
            include_exports,
        );
        assert(entries.last() == entries[entries.len() - 1]);
    }
}

/// The matches are the selected entries of the table, each once, in table
/// order: the k-th match is the classified entry at the k-th selected place,
/// the selected places ascend, and every entry that is selected has its
/// place among them.
pub proof fn lemma_matches_in_table_order(
    entries: Seq<SymbolTableEntryView>,
    pattern: Seq<char>,
    include_imports: bool,
    include_exports: bool,
)
    ensures
        ({
            let places = selected_indices(entries, pattern, include_imports, include_exports);
            let matches = select(entries, pattern, include_imports, include_exports);
            &&& places.len() == matches.len()
            &&& forall|k: int|
                0 <= k < places.len() ==> 0 <= #[trigger] places[k] < entries.len() && selected(
                    entries[places[k]],
                    pattern,
                    include_imports,
                    include_exports,
                ) == Some(matches[k])
            &&& forall|j: int, k: int|
                0 <= j < k < places.len() ==> #[trigger] places[j] < #[trigger] places[k]
            &&& forall|n: int|
                0 <= n < entries.len() && selected(
                    #[trigger] entries[n],
                    pattern,
                    include_imports,
                    include_exports,
                ) is Some ==> places.contains(n)
        }),
    decreases entries.len(),
{
    if entries.len() > 0 {
        let earlier = entries.drop_last();
        lemma_matches_in_table_order(earlier, pattern, include_imports, include_exports);
        let earlier_places = selected_indices(earlier, pattern, include_imports, include_exports);
        let places = selected_indices(entries, pattern, include_imports, include_exports);
        let matches = select(entries, pattern, include_imports, include_exports);
        let last = entries.len() - 1;
        assert forall|k: int| 0 <= k < earlier_places.len() implies earlier[earlier_places[k]]
            == entries[earlier_places[k]] by {}
        assert forall|n: int|
            0 <= n < entries.len() && selected(
                #[trigger] entries[n],
                pattern,
                include_imports,
                include_exports,
            ) is Some implies places.contains(n) by {
            if n < last {
                assert(earlier[n] == entries[n]);
                assert(earlier_places.contains(n));
                let at = choose|at: int| 0 <= at < earlier_places.len() && earlier_places[at] == n;
                assert(places[at] == n);
            } else {
                assert(places[places.len() - 1] == n);
            }
        }
    }
}

/// Every image is either scanned or refused for a reason of its own: bytes
/// without the signature are refused as not ELF, bytes with the signature
/// whose structure cannot be read are refused as malformed with the
/// complaint, and only an image that was read yields matches. None of this
/// depends on the pattern or on the kinds that are wanted.
pub proof fn lemma_unreadable_image_is_refused(
    image: Seq<u8>,
    pattern: Seq<char>,
    include_imports: bool,
    include_exports: bool,
)
    ensures
        !has_elf_magic_spec(image) ==> scan_of(image, pattern, include_imports, include_exports)
            == Err::<Seq<SymbolMatchView>, _>(ScanErrorView::NotElf),
        has_elf_magic_spec(image) && dynamic_symbols(image) is Err ==> scan_of(
            image,
            pattern,
            include_imports,
            include_exports,
        ) == Err::<Seq<SymbolMatchView>, _>(
            ScanErrorView::MalformedHeader { complaint: dynamic_symbols(image)->Err_0 },
        ),
        scan_of(image, pattern, include_imports, include_exports) is Ok <==> has_elf_magic_spec(
            image,
        ) && dynamic_symbols(image) is Ok,
{
}

/// A scan is a function of the image, the pattern and the two flags: two
/// runs on the same inputs give the same matches in the same order, or the
/// same error.
pub proof fn lemma_scan_repeatable(
    image: Seq<u8>,
    pattern: Seq<char>,
    include_imports: bool,
    include_exports: bool,
    first: Result<Vec<SymbolMatch>, ScanError>,
    second: Result<Vec<SymbolMatch>, ScanError>,
)
    requires
        outcome_view(first) == parse_symbols_spec(
            image,
            pattern,
            include_imports,
            include_exports,
        ),
        outcome_view(second) == parse_symbols_spec(
            image,
            pattern,
            include_imports,
            include_exports,
        ),
    ensures
        outcome_view(first) == outcome_view(second),
        first is Ok ==> second is Ok && match_views(first.unwrap()@) == match_views(
            second.unwrap()@,
        ),
{
}

} // verus!
