//! One directory's listing as a line of text: hidden entries are filtered
//! out unless asked for, directories are colored blue and bold, and a space
//! follows every emitted entry except the last one emitted.
use vstd::prelude::*;
use vstd::string::StrSliceExecFns;
use vstd::string::StringExecFns;
use crate::color::{rendered, Attribute, ForgroundColor, TerminalColor};
use crate::command::ListRequest;
use crate::text::starts_with_char;

verus! {

/// One directory entry, as plain values: its file name (the last path
/// component), the path it is displayed as, and whether it is a directory.
pub struct Entry {
    pub name: String,
    pub path: String,
    pub is_dir: bool,
}

/// Whether a file name marks a hidden entry.
pub open spec fn hidden_name(name: Seq<char>) -> bool {
    name.len() > 0 && name[0] == '.'
}

/// A displayed path with a leading `./` taken off.
pub open spec fn stripped(path: Seq<char>) -> Seq<char> {
    if path.len() >= 2 && path[0] == '.' && path[1] == '/' {
        path.subrange(2, path.len() as int)
    } else {
        path
    }
}

/// What one entry contributes to the line: its stripped path, colored blue
/// and bold when the entry is a directory.
pub open spec fn entry_text(e: Entry) -> Seq<char> {
    if e.is_dir {
        rendered(
            Some(ForgroundColor::Blue),
            None,
            Some(Attribute::Bold),
            stripped(e.path@),
        )
    } else {
        stripped(e.path@)
    }
}

/// Whether the entry is shown in the listing.
pub open spec fn entry_shown(e: Entry, show_hidden: bool) -> bool {
    show_hidden || !hidden_name(e.name@)
}

/// Whether some entry after index `i` is shown in the listing.
pub open spec fn shown_after(es: Seq<Entry>, show_hidden: bool, i: int) -> bool {
    exists|j: int| i < j < es.len() && entry_shown(es[j], show_hidden)
}

/// The part of the listing line contributed by the entries from index `i`
/// on. A hidden entry contributes nothing unless `show_hidden`; a shown
/// entry is followed by a space exactly when a later entry is also shown.
pub open spec fn line_from(es: Seq<Entry>, show_hidden: bool, i: int) -> Seq<char>
    decreases es.len() - i,
{
    if i < 0 || i >= es.len() {
        Seq::empty()
    } else {
        let rest = line_from(es, show_hidden, i + 1);
        if !entry_shown(es[i], show_hidden) {
            rest
        } else if shown_after(es, show_hidden, i) {
            entry_text(es[i]) + seq![' '] + rest
        } else {
            entry_text(es[i]) + rest
        }
    }
}

/// The whole listing line for one directory.
pub open spec fn listing_line(es: Seq<Entry>, show_hidden: bool) -> Seq<char> {
    line_from(es, show_hidden, 0)
}

/// The displayed path with a leading `./` taken off.
pub fn strip_dot_slash(path: &String) -> (r: String)
    ensures
        r@ == stripped(path@),
{
    let s: &str = path.as_str();
    let n: usize = s.unicode_len();
    if n >= 2 && s.get_char(0) == '.' && s.get_char(1) == '/' {
        let rest: &str = s.substring_char(2, n);
        rest.to_owned()
    } else {
        path.clone()
    }
}

impl Entry {
    /// Whether this entry is hidden: its file name starts with a dot.
    pub fn is_hidden(&self) -> (r: bool)
        ensures
            r == hidden_name(self.name@),
    {
        starts_with_char(&self.name, '.')
    }
}

impl ListRequest {
    /// Whether the listing leaves this entry out.
    pub fn hides(&self, e: &Entry) -> (r: bool)
        ensures
            r == (!self.show_hidden && hidden_name(e.name@)),
    {
        !self.show_hidden && e.is_hidden()
    }

    /// Whether the listing descends into this entry.
    pub fn descends_into(&self, e: &Entry) -> (r: bool)
        ensures
            r == (self.recursive && e.is_dir),
    {
        self.recursive && e.is_dir
    }
}

/// Whether some entry after index `i` is shown in the listing.
fn any_shown_after(entries: &Vec<Entry>, show_hidden: bool, i: usize) -> (r: bool)
    requires
        i < entries@.len(),
    ensures
        r == shown_after(entries@, show_hidden, i as int),
{
    let n: usize = entries.len();
    let mut j: usize = i + 1;
    while j < n
        invariant
            n == entries@.len(),
            i + 1 <= j <= n,
            forall|k: int| i < k < j ==> !entry_shown(entries@[k], show_hidden),
        decreases n - j,
    {
        if show_hidden || !entries[j].is_hidden() {
            proof {
                assert(entry_shown(entries@[j as int], show_hidden));
            }
            return true;
        }
        j += 1;
    }
    false
}

/// The listing line for the entries of one directory.
pub fn format_entries(entries: &Vec<Entry>, show_hidden: bool) -> (r: String)
    ensures
        r@ == listing_line(entries@, show_hidden),
{
    let mut out = String::new();
    let total: usize = entries.len();
    let mut i: usize = 0;
    proof {
        assert(out@ + line_from(entries@, show_hidden, 0) =~= listing_line(
            entries@,
            show_hidden,
        ));
    }
    while i < total
        invariant
            total == entries@.len(),
            i <= total,
            out@ + line_from(entries@, show_hidden, i as int) == listing_line(
                entries@,
                show_hidden,
            ),
        decreases total - i,
    {
        let e = &entries[i];
        if show_hidden || !e.is_hidden() {
            let value: String = strip_dot_slash(&e.path);
            if e.is_dir {
                let colored = value.color().fg_blue().bold();
                let piece: String = colored.render();
                out.append(piece.as_str());
            } else {
                out.append(value.as_str());
            }
            if any_shown_after(entries, show_hidden, i) {
                out.append(" ");
            }
        }
        proof {
            reveal_strlit(" ");
            assert(" "@ =~= seq![' ']);
            assert(out@ + line_from(entries@, show_hidden, i as int + 1) =~= listing_line(
                entries@,
                show_hidden,
            ));
        }
        i += 1;
    }
    proof {
        assert(out@ =~= listing_line(entries@, show_hidden));
    }
    out
}

} // verus!
