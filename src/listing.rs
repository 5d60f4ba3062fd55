//! The HTML page that lists a directory's immediate children.

use vstd::prelude::*;
use vstd::string::*;

verus! {

/// One child of a listed directory.
pub struct ListingEntry {
    /// The child's file name, as the directory holds it.
    pub name: String,
    /// Whether the child is itself a directory.
    pub is_dir: bool,
}

/// The page's opening: title and heading echo the directory name.
pub open spec fn listing_head(dirname: Seq<char>) -> Seq<char> {
    "<html><head><title>Index of "@ + dirname + "</title></head>"@
        + "<body><h1>Index of "@ + dirname + "</h1><ul>\n"@
}

/// The link target of an entry: a directory gets a trailing separator.
pub open spec fn entry_href(name: Seq<char>, is_dir: bool) -> Seq<char> {
    if is_dir {
        name + "/"@
    } else {
        name
    }
}

/// One list item: the link target, then the bare name as the link text.
pub open spec fn entry_item(name: Seq<char>, is_dir: bool) -> Seq<char> {
    "<li><a href=\""@ + entry_href(name, is_dir) + "\">"@ + name + "</a></li>\n"@
}

/// The list items of the entries, in the order given.
pub open spec fn listing_items(entries: Seq<ListingEntry>) -> Seq<char>
    decreases entries.len(),
{
    if entries.len() == 0 {
        Seq::empty()
    } else {
        let last = entries.last();
        listing_items(entries.drop_last()) + entry_item(last.name@, last.is_dir)
    }
}

pub open spec fn listing_tail() -> Seq<char> {
    "</ul></body></html>"@
}

/// The whole listing page of a directory with the given entries.
pub open spec fn listing_page(dirname: Seq<char>, entries: Seq<ListingEntry>) -> Seq<char> {
    listing_head(dirname) + listing_items(entries) + listing_tail()
}

/// The list item of one directory entry.
pub fn render_entry(entry: &ListingEntry) -> (r: String)
    ensures
        r@ == entry_item(entry.name@, entry.is_dir),
{
    let mut r = String::from_str("<li><a href=\"");
    r.append(entry.name.as_str());
    if entry.is_dir {
        r.append("/");
    }
    r.append("\">");
    r.append(entry.name.as_str());
    r.append("</a></li>\n");
    proof {
        assert(r@ =~= entry_item(entry.name@, entry.is_dir));
    }
    r
}

/// The listing page of `dirname`, whose children are `entries` in the order
/// the directory gave them.
pub fn render_directory(dirname: &String, entries: &Vec<ListingEntry>) -> (r: String)
    ensures
        r@ == listing_page(dirname@, entries@),
{
    let mut r = String::from_str("<html><head><title>Index of ");
    r.append(dirname.as_str());
    r.append("</title></head>");
    r.append("<body><h1>Index of ");
    r.append(dirname.as_str());
    r.append("</h1><ul>\n");
    let ghost head = r@;
    proof {
        assert(head =~= listing_head(dirname@));
        assert(entries@.subrange(0, 0) =~= Seq::<ListingEntry>::empty());
    }
    let mut i: usize = 0;
    while i < entries.len()
        invariant
            i <= entries@.len(),
            head == listing_head(dirname@),
            r@ == head + listing_items(entries@.subrange(0, i as int)),
        decreases entries@.len() - i,
    {
        let item = render_entry(&entries[i]);
        r.append(item.as_str());
        proof {
            let s = entries@.subrange(0, i as int + 1);
            assert(s.drop_last() =~= entries@.subrange(0, i as int));
            assert(s.last() == entries@[i as int]);
            assert(r@ =~= head + listing_items(s));
        }
        i = i + 1;
    }
    proof {
        assert(entries@.subrange(0, entries@.len() as int) =~= entries@);
    }
    r.append("</ul></body></html>");
    proof {
        assert(r@ =~= listing_page(dirname@, entries@));
    }
    r
}

} // verus!
