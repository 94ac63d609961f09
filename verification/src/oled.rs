//! The frame of a 128 by 64 monochrome display with an SSD1306 controller.
//!
//! The frame is what goes over the wire: eight pages, each a row of the
//! display eight pixels tall. A page starts with a header of seven bytes
//! that addresses it, followed by one byte per column; bit `k` of that byte
//! is the pixel in row `k` of the page, the least significant bit on top.

use vstd::prelude::*;

verus! {

/// Pixels in a row of the display.
pub const OLED_PXLS_X: usize = 128;

/// Pixels in a column of the display.
pub const OLED_PXLS_Y: usize = 64;

/// Columns of a page.
pub const OLED_COLS: usize = OLED_PXLS_X;

/// Pages of a frame.
pub const OLED_PAGES: usize = OLED_PXLS_Y / 8;

/// Bytes of a page header.
pub const OLED_PAGE_HEADER_SIZE: usize = 7;

/// Bytes of a page, header included.
pub const OLED_PAGE_SIZE: usize = OLED_COLS + OLED_PAGE_HEADER_SIZE;

/// Bytes of a frame: eight pages of 135 bytes.
pub const OLED_FRAME_SIZE: usize = 1080;

/// Where in the frame page `page` starts.
pub open spec fn page_start(page: int) -> int {
    page * 135
}

/// The start of a page is its number times the size of a page.
pub proof fn lemma_page_start(page: int)
    ensures
        page * OLED_PAGE_SIZE == page_start(page),
{
    assert(page * OLED_PAGE_SIZE == page * 135) by (nonlinear_arith)
        requires
            OLED_PAGE_SIZE == 135,
    ;
}

/// Byte `k` of the header of page `page`: control bytes alternate with the
/// commands that set the page address and the column address zero; the
/// last control byte announces pixel data.
pub open spec fn header_byte(page: int, k: int) -> u8 {
    if k == 1 {
        (0xB0 + page) as u8
    } else if k == 3 {
        0x10
    } else if k == 5 {
        0x00
    } else if k == 6 {
        0x40
    } else {
        0x80
    }
}

/// Every page of the frame starts with its header.
pub open spec fn has_headers(frame: Seq<u8>) -> bool {
    &&& frame.len() >= OLED_FRAME_SIZE
    &&& forall|page: int, k: int|
        0 <= page < OLED_PAGES && 0 <= k < OLED_PAGE_HEADER_SIZE ==> #[trigger] frame[page_start(page) + k] == header_byte(page, k)
}

/// Bit `k` of `byte`.
pub open spec fn bit_of(byte: u8, k: int) -> bool {
    (byte >> (k as u8)) & 1u8 == 1u8
}

/// Where in the frame the byte with the pixel `(x, y)` lies.
pub open spec fn pixel_index(x: int, y: int) -> int {
    page_start(y / 8) + 7 + x
}

/// The pixel `(x, y)` is a pixel of the display.
pub open spec fn on_display(x: int, y: int) -> bool {
    0 <= x < OLED_PXLS_X && 0 <= y < OLED_PXLS_Y
}

/// The pixel `(x, y)` of the frame is on.
pub open spec fn pixel_of(frame: Seq<u8>, x: int, y: int) -> bool {
    bit_of(frame[pixel_index(x, y)], y % 8)
}

/// The index is that of a header byte.
pub open spec fn is_header_index(idx: int) -> bool {
    0 <= idx < OLED_FRAME_SIZE && idx % 135 < 7
}

/// What setting, clearing and flipping a bit does to each bit of a byte.
proof fn lemma_set_bit(v: u8, b: u8, c: u8)
    by (bit_vector)
    requires
        b < 8,
        c < 8,
    ensures
        ((v | (1u8 << b)) >> c) & 1u8 == 1u8 <==> (c == b || (v >> c) & 1u8 == 1u8),
        ((v & !(1u8 << b)) >> c) & 1u8 == 1u8 <==> (c != b && (v >> c) & 1u8 == 1u8),
        ((!v) >> c) & 1u8 == 1u8 <==> !((v >> c) & 1u8 == 1u8),
        !((0u8 >> c) & 1u8 == 1u8),
{
}

/// The frame of the display and whether it is on its way to the display.
pub struct OLEDDriver {
    buffer: [u8; OLED_FRAME_SIZE],
    is_transmitting: bool,
}

impl OLEDDriver {
    /// The page headers are always in place.
    #[verifier::type_invariant]
    closed spec fn headers_in_place(self) -> bool {
        has_headers(self.buffer@)
    }

    /// The bytes of the frame.
    pub closed spec fn frame(self) -> Seq<u8> {
        self.buffer@
    }

    /// A transmission of the frame was started and has not been seen to end.
    pub closed spec fn transmitting(self) -> bool {
        self.is_transmitting
    }

    /// The pixel `(x, y)` is on.
    pub open spec fn pixel(self, x: int, y: int) -> bool {
        pixel_of(self.frame(), x, y)
    }

    /// Writes the page headers into a frame; the pixel bytes stay as they are.
    /// The buffer must hold a whole frame.
    pub fn init_oled_buffer(buf: &mut [u8])
        requires
            old(buf)@.len() >= OLED_FRAME_SIZE,
        ensures
            final(buf)@.len() == old(buf)@.len(),
            has_headers(final(buf)@),
            forall|idx: int|
                0 <= idx < old(buf)@.len() && !is_header_index(idx) ==> final(buf)@[idx] == old(buf)@[idx],
    {
        let mut i: usize = 0;
        while i < OLED_PAGES
            invariant
                i <= OLED_PAGES,
                buf@.len() == old(buf)@.len(),
                buf@.len() >= OLED_FRAME_SIZE,
                forall|page: int, k: int|
                    0 <= page < i && 0 <= k < OLED_PAGE_HEADER_SIZE ==> #[trigger] buf@[page_start(page) + k] == header_byte(page, k),
                forall|idx: int|
                    0 <= idx < buf@.len() && !is_header_index(idx) ==> buf@[idx] == old(buf)@[idx],
            decreases OLED_PAGES - i,
        {
            let base: usize = i * OLED_PAGE_SIZE;
            proof {
                lemma_page_start(i as int);
            }
            let page_number: u8 = i as u8;
            buf[base] = 0x80;
            buf[base + 1] = 0xB0 + page_number;
            buf[base + 2] = 0x80;
            buf[base + 3] = 0x10;
            buf[base + 4] = 0x80;
            buf[base + 5] = 0x00;
            buf[base + 6] = 0x40;
            i += 1;
        }
    }

    /// A dark frame with its headers, not in transmission.
    pub fn new() -> (r: OLEDDriver)
        ensures
            !r.transmitting(),
            has_headers(r.frame()),
            r.frame().len() == OLED_FRAME_SIZE,
            forall|x: int, y: int| on_display(x, y) ==> !#[trigger] r.pixel(x, y),
    {
        let mut buffer = [0u8;OLED_FRAME_SIZE];
        OLEDDriver::init_oled_buffer(&mut buffer);
        assert forall|x: int, y: int| on_display(x, y) implies !#[trigger] pixel_of(buffer@, x, y) by {
            lemma_pixel_index(x, y);
            lemma_set_bit(0, 0, (y % 8) as u8);
        }
        OLEDDriver { buffer, is_transmitting: false }
    }

    /// Turns every pixel off. The frame must not be in transmission.
    pub fn clear(&mut self)
        requires
            !old(self).transmitting(),
        ensures
            !final(self).transmitting(),
            final(self).frame().len() == old(self).frame().len(),
            has_headers(final(self).frame()),
            forall|x: int, y: int| on_display(x, y) ==> !#[trigger] final(self).pixel(x, y),
    {
        proof {
            use_type_invariant(&*self);
        }
        let mut i: usize = 0;
        while i < OLED_PAGES
            invariant
                i <= OLED_PAGES,
                !self.is_transmitting,
                self.buffer@.len() == OLED_FRAME_SIZE,
                has_headers(self.buffer@),
                forall|page: int, x: int|
                    0 <= page < i && 0 <= x < OLED_COLS ==> #[trigger] self.buffer@[page_start(page) + 7 + x] == 0,
            decreases OLED_PAGES - i,
        {
            proof {
                lemma_page_start(i as int);
                assert(i < 8);
                assert(i * OLED_PAGE_SIZE == i * 135);
            }
            let start: usize = i * OLED_PAGE_SIZE + OLED_PAGE_HEADER_SIZE;
            let end: usize = start + OLED_PAGE_SIZE - OLED_PAGE_HEADER_SIZE;
            let mut idx: usize = start;
            while idx < end
                invariant
                    i < OLED_PAGES,
                    start == page_start(i as int) + 7,
                    end == start + OLED_COLS,
                    start <= idx <= end,
                    !self.is_transmitting,
                    self.buffer@.len() == OLED_FRAME_SIZE,
                    has_headers(self.buffer@),
                    forall|page: int, x: int|
                        0 <= page < i && 0 <= x < OLED_COLS ==> #[trigger] self.buffer@[page_start(page) + 7 + x] == 0,
                    forall|x: int| 0 <= x < idx - start ==> #[trigger] self.buffer@[start + x] == 0,
                decreases end - idx,
            {
                self.buffer[idx] = 0;
                idx += 1;
            }
            i += 1;
        }
        assert forall|x: int, y: int| on_display(x, y) implies !#[trigger] pixel_of(
            self.buffer@,
            x,
            y,
        ) by {
            lemma_pixel_index(x, y);
            lemma_set_bit(0, 0, (y % 8) as u8);
            assert(self.buffer@[page_start(y / 8) + 7 + x] == 0);
        }
    }

    /// Turns every pixel that is on off, and every pixel that is off on. The
    /// frame must not be in transmission.
    pub fn invert(&mut self)
        requires
            !old(self).transmitting(),
        ensures
            !final(self).transmitting(),
            final(self).frame().len() == old(self).frame().len(),
            has_headers(final(self).frame()),
            forall|x: int, y: int|
                on_display(x, y) ==> #[trigger] final(self).pixel(x, y) == !old(self).pixel(x, y),
    {
        proof {
            use_type_invariant(&*self);
        }
        let ghost before = self.buffer@;
        assert(before.len() == OLED_FRAME_SIZE);
        let mut i: usize = 0;
        while i < OLED_PAGES
            invariant
                i <= OLED_PAGES,
                !self.is_transmitting,
                self.buffer@.len() == OLED_FRAME_SIZE,
                before.len() == OLED_FRAME_SIZE,
                has_headers(self.buffer@),
                forall|page: int, x: int|
                    0 <= page < i && 0 <= x < OLED_COLS ==> #[trigger] self.buffer@[page_start(page) + 7 + x] == !before[page_start(page) + 7 + x],
                forall|page: int, x: int|
                    i <= page < OLED_PAGES && 0 <= x < OLED_COLS ==> #[trigger] self.buffer@[page_start(page) + 7 + x] == before[page_start(page) + 7 + x],
            decreases OLED_PAGES - i,
        {
            proof {
                lemma_page_start(i as int);
                assert(i < 8);
                assert(i * OLED_PAGE_SIZE == i * 135);
            }
            let start: usize = i * OLED_PAGE_SIZE + OLED_PAGE_HEADER_SIZE;
            let end: usize = start + OLED_PAGE_SIZE - OLED_PAGE_HEADER_SIZE;
            let mut idx: usize = start;
            while idx < end
                invariant
                    i < OLED_PAGES,
                    start == page_start(i as int) + 7,
                    end == start + OLED_COLS,
                    start <= idx <= end,
                    !self.is_transmitting,
                    self.buffer@.len() == OLED_FRAME_SIZE,
                    before.len() == OLED_FRAME_SIZE,
                    has_headers(self.buffer@),
                    forall|page: int, x: int|
                        0 <= page < i && 0 <= x < OLED_COLS ==> #[trigger] self.buffer@[page_start(page) + 7 + x] == !before[page_start(page) + 7 + x],
                    forall|page: int, x: int|
                        i < page < OLED_PAGES && 0 <= x < OLED_COLS ==> #[trigger] self.buffer@[page_start(page) + 7 + x] == before[page_start(page) + 7 + x],
                    forall|x: int|
                        0 <= x < idx - start ==> #[trigger] self.buffer@[start + x] == !before[start + x],
                    forall|x: int|
                        idx - start <= x < OLED_COLS ==> #[trigger] self.buffer@[start + x]
                            == before[start + x],
                decreases end - idx,
            {
                assert(self.buffer@[start + (idx - start)] == before[start + (idx - start)]);
                self.buffer[idx] = !self.buffer[idx];
                idx += 1;
            }
            i += 1;
        }
        assert forall|x: int, y: int| on_display(x, y) implies #[trigger] pixel_of(
            self.buffer@,
            x,
            y,
        ) == !pixel_of(before, x, y) by {
            lemma_pixel_index(x, y);
            let at = page_start(y / 8) + 7 + x;
            assert(self.buffer@[at] == !before[at]);
            lemma_set_bit(before[at], 0, (y % 8) as u8);
        }
    }

    /// Turns the pixel `(x, y)` on or off; every other pixel stays as it is.
    /// The pixel must be one of the display, and the frame not in
    /// transmission.
    pub fn set_pixel(&mut self, x: usize, y: usize, on: bool)
        requires
            on_display(x as int, y as int),
            !old(self).transmitting(),
        ensures
            !final(self).transmitting(),
            final(self).frame().len() == old(self).frame().len(),
            has_headers(final(self).frame()),
            final(self).pixel(x as int, y as int) == on,
            forall|x2: int, y2: int|
                on_display(x2, y2) && (x2 != x || y2 != y) ==> #[trigger] final(self).pixel(x2, y2)
                    == old(self).pixel(x2, y2),
    {
        proof {
            use_type_invariant(&*self);
            lemma_pixel_index(x as int, y as int);
        }
        let ghost before = self.buffer@;
        let row: usize = y / 8;
        let bit: usize = y % 8;
        proof {
            lemma_page_start(row as int);
        }
        let idx: usize = row * OLED_PAGE_SIZE + OLED_PAGE_HEADER_SIZE + x;
        let shift: u8 = bit as u8;
        let old_byte: u8 = self.buffer[idx];
        if on {
            self.buffer[idx] = old_byte | (1u8 << shift);
        } else {
            self.buffer[idx] = old_byte & !(1u8 << shift);
        }
        proof {
            lemma_set_bit(old_byte, shift, shift);
            assert forall|x2: int, y2: int| on_display(x2, y2) && (x2 != x || y2 != y) implies (
            #[trigger] pixel_of(self.buffer@, x2, y2)) == pixel_of(before, x2, y2) by {
                lemma_pixel_index(x2, y2);
                if pixel_index(x2, y2) == idx {
                    assert(y2 / 8 == y as int / 8 && x2 == x) by {
                        lemma_pixel_index_injective(x as int, y as int, x2, y2);
                    }
                    lemma_set_bit(old_byte, shift, (y2 % 8) as u8);
                }
            }
        }
    }

    /// The bytes of the frame, headers included.
    pub fn get_buffer(&self) -> (r: &[u8])
        ensures
            r@ == self.frame(),
            r@.len() == OLED_FRAME_SIZE,
            has_headers(r@),
    {
        proof {
            use_type_invariant(self);
        }
        &self.buffer
    }

    /// Hands out the frame for its way to the display, and takes note that it
    /// is in transmission.
    pub fn tx_frame(&mut self) -> (frame: [u8; OLED_FRAME_SIZE])
        ensures
            frame@ == old(self).frame(),
            has_headers(frame@),
            final(self).frame() == old(self).frame(),
            final(self).transmitting(),
    {
        proof {
            use_type_invariant(&*self);
        }
        self.is_transmitting = true;
        self.buffer
    }

    /// Whether the frame is still in transmission. `tx_in_progress` is what
    /// the transport says now; it counts only while a transmission is
    /// believed to be under way, and ends that belief when it is false.
    pub fn tx_active(&mut self, tx_in_progress: bool) -> (active: bool)
        ensures
            active == (old(self).transmitting() && tx_in_progress),
            final(self).transmitting() == active,
            final(self).frame() == old(self).frame(),
    {
        proof {
            use_type_invariant(&*self);
        }
        if self.is_transmitting {
            self.is_transmitting = tx_in_progress;
        }
        self.is_transmitting
    }
}

/// The byte of a pixel of the display lies in the frame and in no header.
pub proof fn lemma_pixel_index(x: int, y: int)
    requires
        on_display(x, y),
    ensures
        0 <= pixel_index(x, y) < OLED_FRAME_SIZE,
        !is_header_index(pixel_index(x, y)),
        0 <= y / 8 < OLED_PAGES,
        0 <= y % 8 < 8,
{
}

/// Two pixels of the display whose bytes coincide lie in the same page and
/// the same column.
pub proof fn lemma_pixel_index_injective(x: int, y: int, x2: int, y2: int)
    requires
        on_display(x, y),
        on_display(x2, y2),
        pixel_index(x, y) == pixel_index(x2, y2),
    ensures
        x == x2,
        y / 8 == y2 / 8,
{
}

} // verus!
