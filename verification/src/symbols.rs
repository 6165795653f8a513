//! The symbol table that a caller lends for one rendering: a flat run of
//! names and addresses, searched for the address that an instruction
//! refers to. The decoder's renderer asks the table through its
//! `LookupSymbol` trait.

use vstd::prelude::*;
use vstd::string::StringSliceAdditionalSpecFns;
use vstd::utf8::valid_utf8;

verus! {

/// One entry of a symbol table. The name is given as bytes and counts only
/// if they are valid UTF-8. The view is the pair of the name's bytes and
/// the address.
#[derive(Clone, Copy, Debug, PartialEq, Eq)]
pub struct Symbol<'a> {
    pub name: &'a [u8],
    pub addr: u32,
}

impl<'a> View for Symbol<'a> {
    type V = (Seq<u8>, u32);

    open spec fn view(&self) -> (Seq<u8>, u32) {
        (self.name@, self.addr)
    }
}

/// A borrowed symbol table. The view is the sequence of its entries' views.
#[derive(Clone, Copy, Debug)]
pub struct SymbolSlice<'a> {
    syms: &'a [Symbol<'a>],
}

/// The views of a run of entries.
pub open spec fn entries_of(syms: Seq<Symbol>) -> Seq<(Seq<u8>, u32)> {
    syms.map_values(|sym: Symbol| sym@)
}

/// Whether an entry names the given address: its address is that address,
/// exactly, and its name is valid UTF-8.
pub open spec fn names(entry: (Seq<u8>, u32), destination: u32) -> bool {
    entry.1 == destination && valid_utf8(entry.0)
}

/// Whether entry `index` is the first of the table that names the address.
pub open spec fn is_first_match(table: Seq<(Seq<u8>, u32)>, destination: u32, index: int) -> bool {
    &&& 0 <= index < table.len()
    &&& names(table[index], destination)
    &&& forall|j: int| 0 <= j < index ==> !names(#[trigger] table[j], destination)
}

/// Whether a table names no address at all: it is empty, or no name in it
/// is valid UTF-8.
pub open spec fn names_nothing(table: Seq<(Seq<u8>, u32)>) -> bool {
    forall|index: int| 0 <= index < table.len() ==> !valid_utf8((#[trigger] table[index]).0)
}

/// The error of `std::str::from_utf8`. Nothing is read from it.
#[verifier::external_type_specification]
#[verifier::external_body]
pub struct ExUtf8Error(std::str::Utf8Error);

/// `std::str::from_utf8` hands the bytes back as text if they are valid
/// UTF-8: it succeeds on exactly the valid encodings, and the text it
/// gives has the bytes it was given.
pub assume_specification[ std::str::from_utf8 ](v: &[u8]) -> (text: Result<
    &str,
    std::str::Utf8Error,
>)
    ensures
        text is Ok <==> valid_utf8(v@),
        text is Ok ==> text->Ok_0.spec_bytes() == v@,
;

impl<'a> View for SymbolSlice<'a> {
    type V = Seq<(Seq<u8>, u32)>;

    closed spec fn view(&self) -> Seq<(Seq<u8>, u32)> {
        entries_of(self.syms@)
    }
}

impl<'a> SymbolSlice<'a> {
    /// A table with the given entries, in their order.
    pub fn new(syms: &'a [Symbol<'a>]) -> (table: SymbolSlice<'a>)
        ensures
            table@ == entries_of(syms@),
    {
        SymbolSlice { syms }
    }

    /// Number of entries.
    pub fn len(&self) -> (len: usize)
        ensures
            len == self@.len(),
    {
        self.syms.len()
    }
}

impl<'a> unarm::LookupSymbol for SymbolSlice<'a> {
    /// The name of the first entry whose address is `destination` and whose
    /// name is valid UTF-8; nothing if the table has no such entry. Only an
    /// equal address matches, no range and no nearest entry. The address of
    /// the instruction that refers to `destination` plays no part.
    fn lookup_symbol_name(&self, _source: u32, destination: u32) -> (name: Option<&str>)
        ensures
            match name {
                Some(text) => exists|index: int|
                    #![trigger self@[index]]
                    is_first_match(self@, destination, index) && text.spec_bytes()
                        == self@[index].0,
                None => forall|index: int|
                    0 <= index < self@.len() ==> !names(#[trigger] self@[index], destination),
            },
    {
        let mut i: usize = 0;
        while i < self.syms.len()
            invariant
                0 <= i <= self.syms.len(),
                self@ == entries_of(self.syms@),
                forall|j: int| 0 <= j < i ==> !names(#[trigger] self@[j], destination),
            decreases self.syms.len() - i,
        {
            assert(self@[i as int] == self.syms@[i as int]@);
            if self.syms[i].addr == destination {
                match std::str::from_utf8(self.syms[i].name) {
                    Ok(text) => {
                        assert(is_first_match(self@, destination, i as int));
                        return Some(text);
                    },
                    Err(_) => {},
                }
            }
            i += 1;
        }
        None
    }
}

} // verus!
