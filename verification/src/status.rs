//! The status area: the three reserved bottom rows of the terminal, each a
//! text buffer that is replaced whole, never patched in place. A replacement
//! triggers a full redraw; the redraw sequence saves the cursor, rewrites
//! the three rows on the status background, re-arms the scroll region so
//! that data lines keep out of the status rows, and restores the cursor.

use vstd::prelude::*;
use vstd::string::*;
use vstd::pervasive::VecAdditionalExecFns;
use crate::ansi::{cursor_to_row_seq, push_cursor_to_row, scroll_region_seq, set_scroll_region_on_term};

verus! {

/// The sequence that saves the cursor position.
pub open spec fn save_cursor_seq() -> Seq<char> {
    "\x1B[s"@
}

/// The sequence that restores the saved cursor position.
pub open spec fn restore_cursor_seq() -> Seq<char> {
    "\x1B[u"@
}

/// The sequence that selects the status-area background color.
pub open spec fn status_bg_seq() -> Seq<char> {
    "\x1B[44m"@
}

/// The sequence that resets all select-graphic-rendition attributes.
pub open spec fn sgr_reset_seq() -> Seq<char> {
    "\x1B[0m"@
}

/// The sequence that clears the cursor's line.
pub open spec fn clear_line_seq() -> Seq<char> {
    "\x1B[2K"@
}

/// The sequence that moves the cursor down one line.
pub open spec fn cursor_down_seq() -> Seq<char> {
    "\x1B[1B"@
}

/// The status line that shows the current filter term: the term between
/// brackets, rendered on the highlight colors, with the status background
/// restored after it.
pub open spec fn filter_status_line_seq(term: Seq<char>) -> Seq<char> {
    "Filter [\x1B[37;101m"@ + term + "\x1B[44m]"@
}

/// The full redraw sequence for three status lines on a terminal of `rows`
/// rows: save the cursor, move to the first status row, select the status
/// background, clear the three rows, move back to the first status row,
/// print the three lines, confine scrolling to the rows above the status
/// area, restore the cursor, and reset the rendition.
pub open spec fn redraw_seq(lines: Seq<Seq<char>>, rows: int) -> Seq<char> {
    save_cursor_seq() + cursor_to_row_seq(rows - 2) + status_bg_seq() + clear_line_seq()
        + cursor_down_seq() + clear_line_seq() + cursor_down_seq() + clear_line_seq()
        + cursor_down_seq() + cursor_to_row_seq(rows - 2) + lines[0] + "\n"@ + lines[1] + "\n"@
        + lines[2] + "\n"@ + scroll_region_seq(0, rows - 4) + restore_cursor_seq()
        + sgr_reset_seq()
}

/// The three reserved bottom rows of the terminal.
pub struct StatusArea {
    status_lines: Vec<String>,
}

impl View for StatusArea {
    type V = Seq<Seq<char>>;

    closed spec fn view(&self) -> Seq<Seq<char>> {
        self.status_lines@.map_values(|s: String| s@)
    }
}

impl StatusArea {
    /// A status area always holds exactly three lines.
    pub open spec fn wf(&self) -> bool {
        self@.len() == 3
    }

    /// A fresh status area: three empty lines.
    pub fn new() -> (s: StatusArea)
        ensures
            s.wf(),
            forall|i: int| 0 <= i < 3 ==> s@[i] == Seq::<char>::empty(),
    {
        let mut status_lines: Vec<String> = Vec::new();
        status_lines.push(String::new());
        status_lines.push(String::new());
        status_lines.push(String::new());
        StatusArea { status_lines }
    }

    /// Replaces the line at `line` whole; an index outside the three rows
    /// changes nothing. After a replacement the caller redraws the whole
    /// area with `redraw_sequence`, so that no stale fragment stays behind.
    pub fn update(&mut self, line: usize, text: &str)
        requires
            old(self).wf(),
        ensures
            final(self).wf(),
            line < 3 ==> final(self)@ == old(self)@.update(line as int, text@),
            line >= 3 ==> final(self)@ == old(self)@,
    {
        if line < 3 {
            self.status_lines.set(line, text.to_owned());
            proof {
                assert(self@ =~= old(self)@.update(line as int, text@));
            }
        }
    }

    /// Builds the full redraw sequence for this area on a terminal of
    /// `rows` rows. The caller writes it to the terminal device in one
    /// piece, never interleaved with another writer of that device.
    pub fn redraw_sequence(&self, rows: u16) -> (r: String)
        requires
            self.wf(),
            rows >= 4,
        ensures
            r@ == redraw_seq(self@, rows as int),
    {
        let mut r = String::new();
        r.append("\x1B[s");
        push_cursor_to_row(&mut r, rows - 2);
        r.append("\x1B[44m");
        r.append("\x1B[2K");
        r.append("\x1B[1B");
        r.append("\x1B[2K");
        r.append("\x1B[1B");
        r.append("\x1B[2K");
        r.append("\x1B[1B");
        push_cursor_to_row(&mut r, rows - 2);
        r.append(self.status_lines[0].as_str());
        r.append("\n");
        r.append(self.status_lines[1].as_str());
        r.append("\n");
        r.append(self.status_lines[2].as_str());
        r.append("\n");
        set_scroll_region_on_term(&mut r, 0, rows - 4);
        r.append("\x1B[u");
        r.append("\x1B[0m");
        proof {
            assert(r@ =~= redraw_seq(self@, rows as int));
        }
        r
    }
}

/// Builds the status line that shows the current filter term.
pub fn filter_status_line(term: &str) -> (r: String)
    ensures
        r@ == filter_status_line_seq(term@),
{
    let mut r = String::from_str("Filter [\x1B[37;101m");
    r.append(term);
    r.append("\x1B[44m]");
    proof {
        assert(r@ =~= filter_status_line_seq(term@));
    }
    r
}

} // verus!
