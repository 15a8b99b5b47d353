//! The disassembly printer: a line-by-line trace of what a module holds.

use crate::decode::{decode_module, item_views, module_listing, DecodeError, Item, ItemView};
use crate::text::{decimal, decimal_text, joined, views};
use vstd::prelude::*;
use vstd::string::StringExecFns;

verus! {

/// The line that the trace shows for `item`, if it shows one.
pub open spec fn item_line(item: ItemView) -> Option<Seq<char>> {
    match item {
        ItemView::Version(num) => Some("WASM Version: "@ + decimal(num as nat)),
        ItemView::TypeSection(count) => Some(
            "Type Section: "@ + decimal(count as nat) + " types"@,
        ),
        ItemView::ImportSection(count) => Some("Imports: "@ + decimal(count as nat) + " entries"@),
        ItemView::FunctionSection(count) => Some(
            "Function Section: "@ + decimal(count as nat) + " functions"@,
        ),
        ItemView::ExportSection(count) => Some("Exports: "@ + decimal(count as nat) + " entries"@),
        ItemView::CodeSection(count) => Some(
            "Code Section: "@ + decimal(count as nat) + " functions"@,
        ),
        ItemView::Function => Some("  Function:"@),
        ItemView::Instruction(text) => Some("    \u{25b8} "@ + text),
        ItemView::Other => None,
    }
}

/// The lines of `items`, in order.
pub open spec fn item_lines(items: Seq<ItemView>) -> Seq<Seq<char>>
    decreases items.len(),
{
    if items.len() == 0 {
        Seq::empty()
    } else {
        let before = item_lines(items.drop_last());
        match item_line(items.last()) {
            Some(line) => before.push(line),
            None => before,
        }
    }
}

/// The trace of the module at `path` that holds `items`: a heading, then the
/// lines of the items.
pub open spec fn trace_lines(path: Seq<char>, items: Seq<ItemView>) -> Seq<Seq<char>> {
    seq!["Disassembling "@ + path + "..."@] + item_lines(items)
}

/// What the printer gives for a module: the lines of its trace, and the
/// decoding failure that cut the trace short, if one did.
#[derive(Debug, PartialEq, Eq)]
pub struct Disassembly {
    pub lines: Vec<String>,
    pub failure: Option<DecodeError>,
}

/// `head`, then `count` in decimal, then `tail`.
fn counted_line(head: &str, count: u32, tail: &str) -> (line: String)
    ensures
        line@ == head@ + decimal(count as nat) + tail@,
{
    let mut line = joined(head, decimal_text(count as u128).as_str());
    line.append(tail);
    line
}

/// Renders the line of `item`, if the trace shows one for it.
pub fn render_item(item: &Item) -> (line: Option<String>)
    ensures
        match line {
            Some(text) => item_line(item@) == Some(text@),
            None => item_line(item@) is None,
        },
{
    match item {
        Item::Version(num) => Some(joined("WASM Version: ", decimal_text(*num as u128).as_str())),
        Item::TypeSection(count) => Some(counted_line("Type Section: ", *count, " types")),
        Item::ImportSection(count) => Some(counted_line("Imports: ", *count, " entries")),
        Item::FunctionSection(count) => Some(
            counted_line("Function Section: ", *count, " functions"),
        ),
        Item::ExportSection(count) => Some(counted_line("Exports: ", *count, " entries")),
        Item::CodeSection(count) => Some(counted_line("Code Section: ", *count, " functions")),
        Item::Function => Some("  Function:".to_owned()),
        Item::Instruction(text) => Some(joined("    \u{25b8} ", text.as_str())),
        Item::Other => None,
    }
}

/// Renders the trace of the module at `path` that holds `items`.
pub fn render_trace(path: &str, items: &Vec<Item>) -> (lines: Vec<String>)
    ensures
        views(lines@) == trace_lines(path@, item_views(items@)),
{
    let ghost all = item_views(items@);
    let mut heading = joined("Disassembling ", path);
    heading.append("...");
    let mut lines: Vec<String> = Vec::new();
    lines.push(heading);
    let mut i: usize = 0;
    assert(all.take(0) =~= Seq::empty());
    assert(views(lines@) =~= trace_lines(path@, all.take(0)));
    while i < items.len()
        invariant
            i <= items@.len(),
            all == item_views(items@),
            views(lines@) == trace_lines(path@, all.take(i as int)),
        decreases items@.len() - i,
    {
        proof {
            assert(all.take(i + 1).drop_last() =~= all.take(i as int));
            assert(all.take(i + 1).last() == items@[i as int]@);
        }
        let ghost listed = views(lines@);
        match render_item(&items[i]) {
            Some(line) => {
                lines.push(line);
                assert(views(lines@) =~= listed.push(line@));
                assert(views(lines@) =~= trace_lines(path@, all.take(i + 1)));
            },
            None => {},
        }
        i += 1;
    }
    assert(all.take(i as int) =~= all);
    lines
}

/// Disassembles the module `data`, read from `path`: the trace of everything
/// decoded before the first decoding failure, and that failure.
pub fn disassemble_wasm(path: &str, data: &[u8]) -> (trace: Disassembly)
    ensures
        views(trace.lines@) == trace_lines(path@, module_listing(data@).items),
        match trace.failure {
            Some(error) => module_listing(data@).failure == Some(error.message@),
            None => module_listing(data@).failure is None,
        },
{
    let listing = decode_module(data);
    Disassembly { lines: render_trace(path, &listing.items), failure: listing.failure }
}

} // verus!
