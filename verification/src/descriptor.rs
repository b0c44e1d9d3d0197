//! Descriptors: the text that stands for an entry when it is classified.
//!
//! A directory is described by a tree of itself and its immediate children, a
//! file by one line with its name, size and two timestamps. The caller reads
//! the file system and reports what it found as [`EntryFacts`].

use crate::text::{
    append_decimal, append_digit, append_spaces, decimal_text, digit_char, joined_lines, spaces,
};
use vstd::prelude::*;
use vstd::string::*;

verus! {

/// Why an entry could not be described.
#[derive(Debug, Clone, Copy, PartialEq, Eq, Structural)]
pub enum DescribeError {
    /// The size or a timestamp of the file is not available.
    MetadataUnavailable,
    /// The path has no last component to take a name from.
    NameUnavailable,
}

/// An instant, as seconds since the Unix epoch, and the offset of local time
/// from UTC at that instant, in seconds east.
#[derive(Debug, Clone, Copy, PartialEq, Eq, Structural)]
pub struct Stamp {
    pub secs: i64,
    pub offset: i32,
}

/// What the file system records of a file.
#[derive(Debug, Clone, Copy, PartialEq, Eq, Structural)]
pub struct FileMeta {
    pub bytes: u64,
    pub created: Stamp,
    pub modified: Stamp,
}

/// One item of a walk through a directory: how far below the directory it
/// lies (0 for the directory itself) and the last component of its path.
#[derive(Debug, Clone, PartialEq, Eq)]
pub struct TreeItem {
    pub depth: usize,
    pub name: String,
}

/// What was found at an entry's path.
#[derive(Debug, Clone, PartialEq, Eq)]
pub enum EntryFacts {
    /// A directory, with the items of a walk through it, in walk order. The
    /// walk may go as deep as it likes.
    Directory { listing: Vec<TreeItem> },
    /// Anything else, with its name and metadata as far as they could be had.
    File { name: Option<String>, meta: Option<FileMeta> },
}

/// The size metric of a file: its size in units of 1024 bytes, rounded to the
/// nearest whole number, halves upward. The descriptor shows a hundredth of
/// this number.
pub open spec fn rounded_kib(bytes: nat) -> nat {
    (bytes + 512) / 1024
}

/// The decimal text of `hundredths / 100`, with as many decimals as are
/// needed and no more than two.
pub open spec fn size_text(hundredths: nat) -> Seq<char> {
    let whole = decimal_text(hundredths / 100);
    let rest = hundredths % 100;
    if rest == 0 {
        whole
    } else if rest % 10 == 0 {
        whole.push('.').push(digit_char(rest / 10))
    } else {
        whole.push('.').push(digit_char(rest / 10)).push(digit_char(rest % 10))
    }
}

/// The line that describes a file.
pub open spec fn file_line(
    name: Seq<char>,
    bytes: nat,
    created: Seq<char>,
    modified: Seq<char>,
) -> Seq<char> {
    "文件名: "@ + name + ", 文件大小: "@ + size_text(rounded_kib(bytes)) + " KB, 文件创建日期: "@
        + created + ", 文件修改日期: "@ + modified
}

/// The line of one item of a tree: four spaces for each level of depth, the
/// branch glyph and the item's name.
pub open spec fn tree_line(item: TreeItem) -> Seq<char> {
    spaces(4 * item.depth as nat) + "└── "@ + item.name@
}

/// The items that a tree shows: the directory and its immediate children.
pub open spec fn is_shown() -> spec_fn(TreeItem) -> bool {
    |item: TreeItem| item.depth <= 1
}

/// The lines of a tree, one for each item that is shown, in walk order.
pub open spec fn tree_lines(listing: Seq<TreeItem>) -> Seq<Seq<char>> {
    listing.filter(is_shown()).map_values(|item: TreeItem| tree_line(item))
}

/// The tree that describes a directory.
pub open spec fn tree_text(listing: Seq<TreeItem>) -> Seq<char> {
    joined_lines(tree_lines(listing))
}

/// What chrono writes for the instant `secs` seconds after the Unix epoch, as
/// local time `offset` seconds east of UTC, in the form
/// `year-month-day hour:minute:second`; `None` where chrono cannot represent
/// the instant or the offset.
pub uninterp spec fn timestamp_text(secs: i64, offset: i32) -> Option<Seq<char>>;

/// The descriptor of an entry, or the error that stands in its way. A missing
/// name is reported before missing metadata.
pub open spec fn descriptor_of(facts: EntryFacts) -> Result<Seq<char>, DescribeError> {
    match facts {
        EntryFacts::Directory { listing } => Ok(tree_text(listing@)),
        EntryFacts::File { name: None, meta } => Err(DescribeError::NameUnavailable),
        EntryFacts::File { name: Some(name), meta: None } => Err(
            DescribeError::MetadataUnavailable,
        ),
        EntryFacts::File { name: Some(name), meta: Some(meta) } => {
            match (
                timestamp_text(meta.created.secs, meta.created.offset),
                timestamp_text(meta.modified.secs, meta.modified.offset),
            ) {
                (Some(created), Some(modified)) => Ok(
                    file_line(name@, meta.bytes as nat, created, modified),
                ),
                _ => Err(DescribeError::MetadataUnavailable),
            }
        },
    }
}

/// `res` is `expected`, text for text and error for error.
pub open spec fn descriptor_matches(
    res: Result<String, DescribeError>,
    expected: Result<Seq<char>, DescribeError>,
) -> bool {
    match res {
        Ok(text) => expected == Ok::<Seq<char>, DescribeError>(text@),
        Err(e) => expected == Err::<Seq<char>, DescribeError>(e),
    }
}

/// Formats an instant with chrono: `DateTime::from_timestamp` makes the
/// instant, `FixedOffset::east_opt` the offset, `DateTime::with_timezone`
/// puts the one in the other, and `DateTime::format` with
/// `%Y-%m-%d %H:%M:%S` writes it.
///
/// Trusted: the result is a function of the two numbers alone, named
/// [`timestamp_text`]. Nothing is claimed about which numbers chrono accepts
/// or what text it writes.
#[verifier::external_body]
pub(crate) fn format_timestamp(secs: i64, offset: i32) -> (res: Option<String>)
    ensures
        match res {
            Some(text) => timestamp_text(secs, offset) == Some(text@),
            None => timestamp_text(secs, offset) is None,
        },
{
    let zone = chrono::FixedOffset::east_opt(offset)?;
    let instant = chrono::DateTime::from_timestamp(secs, 0)?;
    Some(instant.with_timezone(&zone).format("%Y-%m-%d %H:%M:%S").to_string())
}

/// The size metric of a file of `bytes` bytes.
pub fn size_metric(bytes: u64) -> (res: u64)
    ensures
        res == rounded_kib(bytes as nat),
{
    let whole = bytes / 1024;
    if bytes % 1024 >= 512 {
        whole + 1
    } else {
        whole
    }
}

/// Appends the text of `hundredths / 100` to `out`.
pub fn append_size(out: &mut String, hundredths: u64)
    ensures
        final(out)@ == old(out)@ + size_text(hundredths as nat),
{
    let rest = hundredths % 100;
    append_decimal(out, hundredths / 100);
    if rest != 0 {
        proof {
            reveal_strlit(".");
        }
        out.append(".");
        append_digit(out, (rest / 10) as u8);
        if rest % 10 != 0 {
            append_digit(out, (rest % 10) as u8);
        }
    }
    assert(out@ =~= old(out)@ + size_text(hundredths as nat));
}

/// Describes a file, given its name, its size and its two timestamps as they
/// are to be shown.
pub fn describe_file(name: &str, bytes: u64, created: &str, modified: &str) -> (res: String)
    ensures
        res@ == file_line(name@, bytes as nat, created@, modified@),
{
    let mut out = String::from_str("文件名: ");
    out.append(name);
    out.append(", 文件大小: ");
    append_size(&mut out, size_metric(bytes));
    out.append(" KB, 文件创建日期: ");
    out.append(created);
    out.append(", 文件修改日期: ");
    out.append(modified);
    assert(out@ =~= file_line(name@, bytes as nat, created@, modified@));
    out
}

/// Describes a directory, given the items of a walk through it: one line for
/// the directory itself and one for each immediate child, in walk order.
/// Items that lie deeper are left out.
pub fn render_tree(listing: &Vec<TreeItem>) -> (res: String)
    ensures
        res@ == tree_text(listing@),
{
    let mut out = String::new();
    let mut any = false;
    let mut i: usize = 0;
    proof {
        reveal(Seq::filter);
        assert(listing@.take(0) =~= Seq::<TreeItem>::empty());
        assert(tree_lines(listing@.take(0)) =~= Seq::<Seq<char>>::empty());
        assert(out@ =~= tree_text(listing@.take(0)));
    }
    while i < listing.len()
        invariant
            i <= listing.len(),
            any == (tree_lines(listing@.take(i as int)).len() > 0),
            out@ == tree_text(listing@.take(i as int)),
        decreases listing.len() - i,
    {
        let item = &listing[i];
        let ghost before = listing@.take(i as int);
        let ghost after = listing@.take(i + 1);
        proof {
            assert(after =~= before.push(*item));
            before.lemma_filter_push(*item, is_shown());
        }
        if item.depth <= 1 {
            proof {
                assert(tree_lines(after) =~= tree_lines(before).push(tree_line(*item)));
                assert(tree_lines(after).drop_last() =~= tree_lines(before));
            }
            if any {
                proof {
                    reveal_strlit("\n");
                }
                out.append("\n");
            }
            append_spaces(&mut out, 4 * item.depth);
            out.append("└── ");
            out.append(item.name.as_str());
            any = true;
            assert(out@ =~= tree_text(after));
        }
        i = i + 1;
    }
    assert(listing@.take(i as int) =~= listing@);
    out
}

/// Describes an entry. A directory never fails. A file fails with
/// `NameUnavailable` when it has no name, else with `MetadataUnavailable`
/// when its metadata is missing or chrono cannot write one of its timestamps.
pub fn analyze_file(facts: &EntryFacts) -> (res: Result<String, DescribeError>)
    ensures
        descriptor_matches(res, descriptor_of(*facts)),
{
    match facts {
        EntryFacts::Directory { listing } => Ok(render_tree(listing)),
        EntryFacts::File { name: None, meta: _ } => Err(DescribeError::NameUnavailable),
        EntryFacts::File { name: Some(_), meta: None } => Err(DescribeError::MetadataUnavailable),
        EntryFacts::File { name: Some(name), meta: Some(meta) } => {
            let created = format_timestamp(meta.created.secs, meta.created.offset);
            let modified = format_timestamp(meta.modified.secs, meta.modified.offset);
            match (created, modified) {
                (Some(created), Some(modified)) => Ok(
                    describe_file(name.as_str(), meta.bytes, created.as_str(), modified.as_str()),
                ),
                _ => Err(DescribeError::MetadataUnavailable),
            }
        },
    }
}

/// The size metric is the whole number nearest to `bytes / 1024`, and the
/// upper one of two that are equally near.
pub proof fn size_metric_is_nearest(bytes: nat)
    ensures
        1024 * rounded_kib(bytes) <= bytes + 512 < 1024 * (rounded_kib(bytes) + 1),
{
}

/// Items that lie deeper than the immediate children leave no trace in the
/// tree, wherever in the walk they come.
pub proof fn deeper_items_are_not_shown(front: Seq<TreeItem>, deep: TreeItem, back: Seq<TreeItem>)
    requires
        deep.depth > 1,
    ensures
        tree_text(front + seq![deep] + back) == tree_text(front + back),
{
    reveal(Seq::filter);
    let shown = is_shown();
    Seq::filter_distributes_over_add(front + seq![deep], back, shown);
    Seq::filter_distributes_over_add(front, seq![deep], shown);
    Seq::filter_distributes_over_add(front, back, shown);
    Seq::<TreeItem>::empty().lemma_filter_push(deep, shown);
    assert(Seq::<TreeItem>::empty().push(deep) =~= seq![deep]);
    assert(seq![deep].filter(shown) =~= Seq::<TreeItem>::empty());
    assert((front + seq![deep] + back).filter(shown) =~= (front + back).filter(shown));
}

/// The tree has exactly one line for each item at depth 0 or 1.
pub proof fn tree_has_a_line_for_each_shown_item(listing: Seq<TreeItem>)
    ensures
        tree_lines(listing).len() == listing.filter(is_shown()).len(),
        forall|k: int|
            0 <= k < tree_lines(listing).len() ==> (#[trigger] listing.filter(is_shown())[k]).depth
                <= 1 && tree_lines(listing)[k] == tree_line(listing.filter(is_shown())[k]),
{
    assert forall|k: int| 0 <= k < listing.filter(is_shown()).len() implies (
    #[trigger] listing.filter(is_shown())[k]).depth <= 1 by {
        listing.lemma_filter_pred(is_shown(), k);
    }
}

} // verus!
