//! Decoding a module's bytes into the flat list of what it holds: the
//! structural sections in file order and, for each function body, its
//! instructions.

use vstd::prelude::*;
use vstd::slice::slice_subrange;
use wasmparser::{BinaryReader, FunctionBody, Parser, Payload};

verus! {

/// A structural part of a module, as the binary decoder reports it.
#[derive(Debug, Clone, Copy)]
pub enum Section {
    /// The header, with the declared version.
    Version(u16),
    /// The type section, with the number of its entries.
    Types(u32),
    /// The import section, with the number of its entries.
    Imports(u32),
    /// The function section, with the number of its entries.
    Functions(u32),
    /// The export section, with the number of its entries.
    Exports(u32),
    /// The start of the code section, with the number of function bodies.
    Code(u32),
    /// One function body: the bytes of the module from `start` up to `end`.
    Body { start: u64, end: u64 },
    /// Any other part.
    Other,
}

/// One thing found in a module, in the order of the module's bytes.
#[derive(Debug, PartialEq, Eq)]
pub enum Item {
    Version(u16),
    TypeSection(u32),
    ImportSection(u32),
    FunctionSection(u32),
    ExportSection(u32),
    CodeSection(u32),
    /// The start of a function body.
    Function,
    /// One instruction of the function body most recently started, as the
    /// decoder renders it: its kind, then its immediates.
    Instruction(String),
    /// A part that is neither listed nor counted.
    Other,
}

/// The mathematical value of an `Item`.
pub enum ItemView {
    Version(u16),
    TypeSection(u32),
    ImportSection(u32),
    FunctionSection(u32),
    ExportSection(u32),
    CodeSection(u32),
    Function,
    Instruction(Seq<char>),
    Other,
}

impl View for Item {
    type V = ItemView;

    open spec fn view(&self) -> ItemView {
        match self {
            Item::Version(num) => ItemView::Version(*num),
            Item::TypeSection(count) => ItemView::TypeSection(*count),
            Item::ImportSection(count) => ItemView::ImportSection(*count),
            Item::FunctionSection(count) => ItemView::FunctionSection(*count),
            Item::ExportSection(count) => ItemView::ExportSection(*count),
            Item::CodeSection(count) => ItemView::CodeSection(*count),
            Item::Function => ItemView::Function,
            Item::Instruction(text) => ItemView::Instruction(text@),
            Item::Other => ItemView::Other,
        }
    }
}

/// The values of a list of items, in order.
pub open spec fn item_views(items: Seq<Item>) -> Seq<ItemView> {
    items.map_values(|item: Item| item@)
}

/// Why decoding stopped: the decoder's message.
#[derive(Debug, PartialEq, Eq)]
pub struct DecodeError {
    pub message: String,
}

/// What decoding a module gave: the items found before decoding stopped, and
/// the failure that stopped it, if one did.
#[derive(Debug, PartialEq, Eq)]
pub struct Listing {
    pub items: Vec<Item>,
    pub failure: Option<DecodeError>,
}

/// The mathematical value of a `Listing`.
pub struct ListingView {
    pub items: Seq<ItemView>,
    pub failure: Option<Seq<char>>,
}

impl View for Listing {
    type V = ListingView;

    open spec fn view(&self) -> ListingView {
        ListingView {
            items: item_views(self.items@),
            failure: match self.failure {
                Some(error) => Some(error.message@),
                None => None,
            },
        }
    }
}

/// What the binary decoder reports for the module bytes `data`: its parts in
/// file order, each either a section or the message of a decoding failure.
pub uninterp spec fn module_sections(data: Seq<u8>) -> Seq<Result<Section, Seq<char>>>;

/// What the binary decoder reports for the function body `body` that starts at
/// byte `offset` of its module: the message of a failure to reach the
/// instructions, or else the instructions in order, each either its rendering
/// or the message of a decoding failure.
pub uninterp spec fn body_instructions(body: Seq<u8>, offset: u64) -> Result<
    Seq<Result<Seq<char>, Seq<char>>>,
    Seq<char>,
>;

/// The values of a list of section results.
pub open spec fn section_results(results: Seq<Result<Section, String>>) -> Seq<
    Result<Section, Seq<char>>,
> {
    results.map_values(
        |result: Result<Section, String>|
            match result {
                Ok(section) => Ok(section),
                Err(message) => Err(message@),
            },
    )
}

/// The values of a list of instruction results.
pub open spec fn instruction_results(results: Seq<Result<String, String>>) -> Seq<
    Result<Seq<char>, Seq<char>>,
> {
    results.map_values(
        |result: Result<String, String>|
            match result {
                Ok(text) => Ok(text@),
                Err(message) => Err(message@),
            },
    )
}

/// The value of what reading a function body gave.
pub open spec fn body_results(result: Result<Vec<Result<String, String>>, String>) -> Result<
    Seq<Result<Seq<char>, Seq<char>>>,
    Seq<char>,
> {
    match result {
        Ok(instructions) => Ok(instruction_results(instructions@)),
        Err(message) => Err(message@),
    }
}

/// Calls `wasmparser::Parser::new(0).parse_all(data)` and hands out each
/// payload as a `Section`: the version number, the entry count of a type,
/// import, function or export section (`SectionLimited::count`), the body
/// count of the code section, or the byte range of a function body
/// (`FunctionBody::range`); a failure as its text. The result is what the
/// decoder reports for these bytes, which `module_sections` names.
#[verifier::external_body]
fn read_sections(data: &[u8]) -> (results: Vec<Result<Section, String>>)
    ensures
        section_results(results@) == module_sections(data@),
{
    Parser::new(0).parse_all(data).map(|payload| payload.map(|p| match p {
        Payload::Version { num, .. } => Section::Version(num),
        Payload::TypeSection(s) => Section::Types(s.count()),
        Payload::ImportSection(s) => Section::Imports(s.count()),
        Payload::FunctionSection(s) => Section::Functions(s.count()),
        Payload::ExportSection(s) => Section::Exports(s.count()),
        Payload::CodeSectionStart { count, .. } => Section::Code(count),
        Payload::CodeSectionEntry(b) => Section::Body { start: b.range().start, end: b.range().end },
        _ => Section::Other,
    }).map_err(|e| e.to_string())).collect()
}

/// Calls `wasmparser::FunctionBody::get_operators_reader` on the body made of
/// `body` at `offset`, and hands out each operator of the reader as its
/// `Debug` rendering; a failure as its text. The result is what the decoder
/// reports for this body, which `body_instructions` names. The reader's
/// constructor panics where `offset + body.len()` exceeds `u64::MAX`.
#[verifier::external_body]
fn read_body(body: &[u8], offset: u64) -> (result: Result<Vec<Result<String, String>>, String>)
    requires
        offset + body@.len() <= u64::MAX,
    ensures
        body_results(result) == body_instructions(body@, offset),
{
    match FunctionBody::new(BinaryReader::new(body, offset)).get_operators_reader() {
        Ok(reader) => Ok(reader.into_iter().map(|op| match op {
            Ok(op) => Ok(format!("{:?}", op)),
            Err(e) => Err(e.to_string()),
        }).collect()),
        Err(e) => Err(e.to_string()),
    }
}

/// The listing of `results[..n]`: the renderings before the first failure,
/// each as an instruction, and that failure.
pub open spec fn instructions_through(
    results: Seq<Result<Seq<char>, Seq<char>>>,
    n: nat,
) -> ListingView
    decreases n,
{
    if n == 0 {
        ListingView { items: Seq::empty(), failure: None }
    } else {
        let before = instructions_through(results, (n - 1) as nat);
        if before.failure is Some {
            before
        } else {
            match results[n - 1] {
                Ok(text) => ListingView {
                    items: before.items.push(ItemView::Instruction(text)),
                    failure: None,
                },
                Err(message) => ListingView { items: before.items, failure: Some(message) },
            }
        }
    }
}

/// The listing of one function body: the start of the function, then its
/// instructions up to the first failure.
pub open spec fn body_listing(
    body: Result<Seq<Result<Seq<char>, Seq<char>>>, Seq<char>>,
) -> ListingView {
    match body {
        Ok(results) => {
            let decoded = instructions_through(results, results.len());
            ListingView { items: seq![ItemView::Function] + decoded.items, failure: decoded.failure }
        },
        Err(message) => ListingView { items: seq![ItemView::Function], failure: Some(message) },
    }
}

/// The failure recorded for a function body whose byte range does not lie
/// within its module.
pub open spec fn stray_body_message() -> Seq<char> {
    "function body lies outside the module"@
}

/// The listing of one section of the module `data`.
pub open spec fn section_listing(data: Seq<u8>, section: Section) -> ListingView {
    match section {
        Section::Version(num) => ListingView { items: seq![ItemView::Version(num)], failure: None },
        Section::Types(count) => ListingView {
            items: seq![ItemView::TypeSection(count)],
            failure: None,
        },
        Section::Imports(count) => ListingView {
            items: seq![ItemView::ImportSection(count)],
            failure: None,
        },
        Section::Functions(count) => ListingView {
            items: seq![ItemView::FunctionSection(count)],
            failure: None,
        },
        Section::Exports(count) => ListingView {
            items: seq![ItemView::ExportSection(count)],
            failure: None,
        },
        Section::Code(count) => ListingView {
            items: seq![ItemView::CodeSection(count)],
            failure: None,
        },
        Section::Body { start, end } => if start <= end <= data.len() {
            body_listing(body_instructions(data.subrange(start as int, end as int), start))
        } else {
            ListingView { items: seq![ItemView::Function], failure: Some(stray_body_message()) }
        },
        Section::Other => ListingView { items: seq![ItemView::Other], failure: None },
    }
}

/// The listing of `sections[..n]` of the module `data`: the listings of the
/// sections one after the other, up to the first failure.
pub open spec fn listing_through(
    data: Seq<u8>,
    sections: Seq<Result<Section, Seq<char>>>,
    n: nat,
) -> ListingView
    decreases n,
{
    if n == 0 {
        ListingView { items: Seq::empty(), failure: None }
    } else {
        let before = listing_through(data, sections, (n - 1) as nat);
        if before.failure is Some {
            before
        } else {
            match sections[n - 1] {
                Ok(section) => {
                    let part = section_listing(data, section);
                    ListingView { items: before.items + part.items, failure: part.failure }
                },
                Err(message) => ListingView { items: before.items, failure: Some(message) },
            }
        }
    }
}

/// The listing of the module `data`.
pub open spec fn module_listing(data: Seq<u8>) -> ListingView {
    listing_through(data, module_sections(data), module_sections(data).len())
}

/// Once a failure is met, the rest of the instructions is not looked at.
proof fn lemma_instructions_stop(results: Seq<Result<Seq<char>, Seq<char>>>, m: nat, n: nat)
    requires
        m <= n,
        instructions_through(results, m).failure is Some,
    ensures
        instructions_through(results, n) == instructions_through(results, m),
    decreases n,
{
    if m < n {
        lemma_instructions_stop(results, m, (n - 1) as nat);
    }
}

/// Once a failure is met, the rest of the sections is not looked at.
proof fn lemma_listing_stops(
    data: Seq<u8>,
    sections: Seq<Result<Section, Seq<char>>>,
    m: nat,
    n: nat,
)
    requires
        m <= n,
        listing_through(data, sections, m).failure is Some,
    ensures
        listing_through(data, sections, n) == listing_through(data, sections, m),
    decreases n,
{
    if m < n {
        lemma_listing_stops(data, sections, m, (n - 1) as nat);
    }
}

/// Appends the listing of a function body to `items`, given what the decoder
/// reported for the body, and returns the failure that ended the body, if one
/// did.
pub fn list_body(items: &mut Vec<Item>, decoded: &Result<Vec<Result<String, String>>, String>) -> (failure:
    Option<DecodeError>)
    ensures
        item_views(final(items)@) == item_views(old(items)@) + body_listing(
            body_results(*decoded),
        ).items,
        match failure {
            Some(error) => body_listing(body_results(*decoded)).failure == Some(error.message@),
            None => body_listing(body_results(*decoded)).failure is None,
        },
{
    let ghost before = item_views(items@);
    items.push(Item::Function);
    assert(item_views(items@) =~= before + seq![ItemView::Function]);
    match decoded {
        Err(message) => Some(DecodeError { message: message.clone() }),
        Ok(results) => {
            let ghost values = instruction_results(results@);
            let mut i: usize = 0;
            while i < results.len()
                invariant
                    i <= results@.len(),
                    values == instruction_results(results@),
                    body_results(*decoded) == Ok::<Seq<Result<Seq<char>, Seq<char>>>, Seq<char>>(
                        values,
                    ),
                    before == item_views(old(items)@),
                    instructions_through(values, i as nat).failure is None,
                    item_views(items@) == before + seq![ItemView::Function] + instructions_through(
                        values,
                        i as nat,
                    ).items,
                decreases results@.len() - i,
            {
                assert(values[i as int] == match results@[i as int] {
                    Ok(text) => Ok::<Seq<char>, Seq<char>>(text@),
                    Err(message) => Err(message@),
                });
                let ghost listed = item_views(items@);
                match &results[i] {
                    Ok(text) => {
                        items.push(Item::Instruction(text.clone()));
                        assert(item_views(items@) =~= listed.push(ItemView::Instruction(text@)));
                        assert(item_views(items@) =~= before + seq![ItemView::Function]
                            + instructions_through(values, (i + 1) as nat).items);
                    },
                    Err(message) => {
                        proof {
                            lemma_instructions_stop(values, (i + 1) as nat, values.len());
                        }
                        assert(item_views(items@) =~= before + (seq![ItemView::Function]
                            + instructions_through(values, values.len()).items));
                        return Some(DecodeError { message: message.clone() });
                    },
                }
                i += 1;
            }
            assert(item_views(items@) =~= before + (seq![ItemView::Function]
                + instructions_through(values, values.len()).items));
            None
        },
    }
}

/// Appends the listing of `section` of the module `data` to `items`, and
/// returns the failure met in it, if one was.
fn list_section(items: &mut Vec<Item>, data: &[u8], section: Section) -> (failure: Option<
    DecodeError,
>)
    ensures
        item_views(final(items)@) == item_views(old(items)@) + section_listing(
            data@,
            section,
        ).items,
        match failure {
            Some(error) => section_listing(data@, section).failure == Some(error.message@),
            None => section_listing(data@, section).failure is None,
        },
{
    let ghost before = item_views(items@);
    match section {
        Section::Body { start, end } => {
            if start <= end && end <= data.len() as u64 {
                let body = slice_subrange(data, start as usize, end as usize);
                let decoded = read_body(body, start);
                list_body(items, &decoded)
            } else {
                items.push(Item::Function);
                assert(item_views(items@) =~= before + seq![ItemView::Function]);
                Some(DecodeError { message: "function body lies outside the module".to_owned() })
            }
        },
        _ => {
            let item = match section {
                Section::Version(num) => Item::Version(num),
                Section::Types(count) => Item::TypeSection(count),
                Section::Imports(count) => Item::ImportSection(count),
                Section::Functions(count) => Item::FunctionSection(count),
                Section::Exports(count) => Item::ExportSection(count),
                Section::Code(count) => Item::CodeSection(count),
                _ => Item::Other,
            };
            items.push(item);
            assert(item_views(items@) =~= before + seq![item@]);
            None
        },
    }
}

/// Lists the module `data`, given the sections that the decoder reported for
/// it: the listings of the sections one after the other, up to the first
/// failure. The instructions of each function body are decoded on the way.
pub fn list_sections(data: &[u8], sections: &Vec<Result<Section, String>>) -> (listing: Listing)
    ensures
        listing@ == listing_through(data@, section_results(sections@), sections@.len()),
{
    let ghost values = section_results(sections@);
    let mut items: Vec<Item> = Vec::new();
    let mut i: usize = 0;
    assert(item_views(items@) =~= Seq::empty());
    while i < sections.len()
        invariant
            i <= sections@.len(),
            values == section_results(sections@),
            listing_through(data@, values, i as nat) == (ListingView {
                items: item_views(items@),
                failure: None,
            }),
        decreases sections@.len() - i,
    {
        assert(values[i as int] == match sections@[i as int] {
            Ok(section) => Ok::<Section, Seq<char>>(section),
            Err(message) => Err(message@),
        });
        let failure = match &sections[i] {
            Ok(section) => list_section(&mut items, data, *section),
            Err(message) => Some(DecodeError { message: message.clone() }),
        };
        if failure.is_some() {
            proof {
                lemma_listing_stops(data@, values, (i + 1) as nat, values.len());
            }
            return Listing { items, failure };
        }
        i += 1;
    }
    Listing { items, failure: None }
}

/// Decodes the module `data`: its sections in file order and, for each
/// function body, its instructions, up to the first decoding failure.
pub fn decode_module(data: &[u8]) -> (listing: Listing)
    ensures
        listing@ == module_listing(data@),
{
    let sections = read_sections(data);
    list_sections(data, &sections)
}

} // verus!
