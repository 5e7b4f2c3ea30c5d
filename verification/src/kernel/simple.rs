//! The VGA text console model: a screen of 25 rows by 80 columns of
//! 16-bit cells (attribute and character) with manual cursor and
//! line-wrap tracking.  The model holds the cells as plain values; the
//! memory-mapped write to the hardware buffer stays outside the library.

use vstd::prelude::*;
use vstd::string::StringSliceAdditionalSpecFns;

verus! {

/// Number of cells of the text screen (25 rows of 80 columns).
pub const VGA_CELLS: usize = 2000;

/// The text console: its cells and the cursor position.
pub struct VgaText {
    cells: Vec<u16>,
    cursor: usize,
}

/// What one output byte does to the screen: past the last cell nothing
/// changes; a line feed moves the cursor to the next row's start; any
/// other byte is stored as a white-on-black cell under the cursor.
pub open spec fn vga_step(cells: Seq<u16>, cursor: int, ch: u8) -> (Seq<u16>, int) {
    if cursor >= 2000 {
        (cells, cursor)
    } else if ch == 10 {
        (cells, (cursor / 80 + 1) * 80)
    } else {
        (cells.update(cursor, (0x0F00 | ch as u16) as u16), cursor + 1)
    }
}

/// What a whole byte string does to the screen, byte by byte.
pub open spec fn vga_fold(cells: Seq<u16>, cursor: int, text: Seq<u8>) -> (Seq<u16>, int)
    decreases text.len(),
{
    if text.len() == 0 {
        (cells, cursor)
    } else {
        let stepped = vga_step(cells, cursor, text[0]);
        vga_fold(stepped.0, stepped.1, text.drop_first())
    }
}

impl VgaText {
    /// The screen's cells.
    pub closed spec fn spec_cells(&self) -> Seq<u16> {
        self.cells@
    }

    /// The cursor position.
    pub closed spec fn spec_cursor(&self) -> int {
        self.cursor as int
    }

    /// A full screen with the cursor inside or just past it.
    pub open spec fn wf(&self) -> bool {
        &&& self.spec_cells().len() == 2000
        &&& 0 <= self.spec_cursor() <= 2000
    }

    /// Create a blank screen with the cursor at the top left.
    pub fn new() -> (r: Self)
        ensures
            r.wf(),
            r.spec_cursor() == 0,
            forall|i: int| 0 <= i < 2000 ==> r.spec_cells()[i] == 0,
    {
        let mut cells: Vec<u16> = Vec::new();
        let mut i: usize = 0;
        while i < VGA_CELLS
            invariant
                0 <= i <= 2000,
                cells@.len() == i,
                forall|k: int| 0 <= k < i ==> cells@[k] == 0,
            decreases 2000 - i,
        {
            cells.push(0);
            i = i + 1;
        }
        VgaText { cells, cursor: 0 }
    }

    /// Read one cell of the screen, for a display driver to copy out.
    pub fn cell_at(&self, index: usize) -> (r: u16)
        requires
            self.wf(),
            index < 2000,
        ensures
            r == self.spec_cells()[index as int],
    {
        self.cells[index]
    }

    /// The cursor's position, for a display driver to place the hardware
    /// cursor.
    pub fn cursor_position(&self) -> (r: usize)
        ensures
            r == self.spec_cursor(),
    {
        self.cursor
    }

    /// Write a text at the cursor, wrapping lines at column 80 and
    /// stopping at the end of the screen.
    pub fn print(&mut self, text: &str)
        requires
            old(self).wf(),
        ensures
            final(self).wf(),
            (final(self).spec_cells(), final(self).spec_cursor()) == vga_fold(
                old(self).spec_cells(),
                old(self).spec_cursor(),
                text.spec_bytes(),
            ),
    {
        let bytes = text.as_bytes();
        proof {
            assert(bytes@.skip(0) =~= bytes@);
        }
        let mut i: usize = 0;
        while i < bytes.len()
            invariant
                self.wf(),
                0 <= i <= bytes@.len(),
                vga_fold(self.spec_cells(), self.spec_cursor(), bytes@.skip(i as int)) == vga_fold(
                    old(self).spec_cells(),
                    old(self).spec_cursor(),
                    bytes@,
                ),
            decreases bytes@.len() - i,
        {
            let ghost pre_cells = self.spec_cells();
            let ghost pre_cursor = self.spec_cursor();
            let ch = bytes[i];
            if self.cursor < VGA_CELLS {
                if ch == 10 {
                    self.cursor = ((self.cursor / 80) + 1) * 80;
                } else {
                    let idx = self.cursor;
                    self.cells[idx] = 0x0F00 | (ch as u16);
                    self.cursor = self.cursor + 1;
                }
            }
            proof {
                assert((self.spec_cells(), self.spec_cursor()) == vga_step(
                    pre_cells,
                    pre_cursor,
                    ch,
                ));
                assert(bytes@.skip(i as int)[0] == ch);
                assert(bytes@.skip(i as int).drop_first() =~= bytes@.skip(i as int + 1));
            }
            i = i + 1;
        }
        proof {
            assert(bytes@.skip(bytes@.len() as int) =~= Seq::<u8>::empty());
        }
    }

    /// Write a text followed by a line break.
    pub fn println(&mut self, text: &str)
        requires
            old(self).wf(),
        ensures
            final(self).wf(),
            (final(self).spec_cells(), final(self).spec_cursor()) == {
                let mid = vga_fold(
                    old(self).spec_cells(),
                    old(self).spec_cursor(),
                    text.spec_bytes(),
                );
                vga_fold(mid.0, mid.1, seq![10u8])
            },
    {
        self.print(text);
        proof {
            reveal_strlit("\n");
            broadcast use vstd::string::is_ascii_spec_bytes;

            assert("\n".is_ascii());
            assert("\n".spec_bytes() =~= seq![10u8]);
        }
        self.print("\n");
    }

    /// Write a text to the serial console; with no serial port attached,
    /// the text console shows it instead.
    pub fn serial_print(&mut self, text: &str)
        requires
            old(self).wf(),
        ensures
            final(self).wf(),
            (final(self).spec_cells(), final(self).spec_cursor()) == vga_fold(
                old(self).spec_cells(),
                old(self).spec_cursor(),
                text.spec_bytes(),
            ),
    {
        self.print(text);
    }

    /// Write a text and a line break to the serial console.
    pub fn serial_println(&mut self, text: &str)
        requires
            old(self).wf(),
        ensures
            final(self).wf(),
            (final(self).spec_cells(), final(self).spec_cursor()) == {
                let mid = vga_fold(
                    old(self).spec_cells(),
                    old(self).spec_cursor(),
                    text.spec_bytes(),
                );
                vga_fold(mid.0, mid.1, seq![10u8])
            },
    {
        self.serial_print(text);
        proof {
            reveal_strlit("\n");
            broadcast use vstd::string::is_ascii_spec_bytes;

            assert("\n".is_ascii());
            assert("\n".spec_bytes() =~= seq![10u8]);
        }
        self.serial_print("\n");
    }
}

/// Write a text at the console's cursor.
pub fn print(console: &mut VgaText, text: &str)
    requires
        old(console).wf(),
    ensures
        final(console).wf(),
        (final(console).spec_cells(), final(console).spec_cursor()) == vga_fold(
            old(console).spec_cells(),
            old(console).spec_cursor(),
            text.spec_bytes(),
        ),
{
    console.print(text);
}

/// Write a text and a line break at the console's cursor.
pub fn println(console: &mut VgaText, text: &str)
    requires
        old(console).wf(),
    ensures
        final(console).wf(),
        (final(console).spec_cells(), final(console).spec_cursor()) == {
            let mid = vga_fold(
                old(console).spec_cells(),
                old(console).spec_cursor(),
                text.spec_bytes(),
            );
            vga_fold(mid.0, mid.1, seq![10u8])
        },
{
    console.println(text);
}

/// Write a text to the serial console.
pub fn serial_print(console: &mut VgaText, text: &str)
    requires
        old(console).wf(),
    ensures
        final(console).wf(),
        (final(console).spec_cells(), final(console).spec_cursor()) == vga_fold(
            old(console).spec_cells(),
            old(console).spec_cursor(),
            text.spec_bytes(),
        ),
{
    console.serial_print(text);
}

/// Write a text and a line break to the serial console.
pub fn serial_println(console: &mut VgaText, text: &str)
    requires
        old(console).wf(),
    ensures
        final(console).wf(),
        (final(console).spec_cells(), final(console).spec_cursor()) == {
            let mid = vga_fold(
                old(console).spec_cells(),
                old(console).spec_cursor(),
                text.spec_bytes(),
            );
            vga_fold(mid.0, mid.1, seq![10u8])
        },
{
    console.serial_println(text);
}

/// Prepare the serial console; nothing is wired in this build.
pub fn init_serial() {
}

/// Print the greeting.
pub fn simple_hello(console: &mut VgaText)
    requires
        old(console).wf(),
    ensures
        final(console).wf(),
{
    console.println("Hello, Retron OS!");
}

} // verus!
