//! The picture of the two screens, as a renderer shows it.
//!
//! A framebuffer holds its screen turned by a quarter: column after
//! column, each from the bottom up, three bytes per pixel. The picture is a
//! window of `WINDOW_WIDTH` by `WINDOW_HEIGHT` pixels, one `0xRRGGBB` word
//! each, row after row, with the top screen above the bottom screen and a
//! border around both.

use vstd::prelude::*;
use crate::memory::{FCRAM_BASE, VRAM_BASE, VRAM_SIZE};
use crate::mmio::gpu::GpuState;
use crate::scheduler::QUANTUMS_PER_FRAME;

verus! {

pub const TOP_SCREEN_WIDTH: u32 = 400;
pub const TOP_SCREEN_HEIGHT: u32 = 240;
pub const BOTTOM_SCREEN_WIDTH: u32 = 320;
pub const BOTTOM_SCREEN_HEIGHT: u32 = 240;

/// Width of the border around the screens, in pixels.
pub const BORDER_SIZE: u32 = 4;

/// Height of the gap between the screens, in pixels.
pub const SCREEN_GAP: u32 = 4;

/// Width of the window: the top screen and the border.
pub const WINDOW_WIDTH: u32 = 408;

/// Height of the window: both screens, the gap and the border.
pub const WINDOW_HEIGHT: u32 = 492;

pub const TOP_SCREEN_X: u32 = 4;
pub const TOP_SCREEN_Y: u32 = 4;

/// The bottom screen is centred under the top screen.
pub const BOTTOM_SCREEN_X: u32 = 44;
pub const BOTTOM_SCREEN_Y: u32 = 248;

/// Colour of the border.
pub const BORDER_COLOR: u32 = 0x333333;

/// Bytes per pixel of a framebuffer.
pub const BYTES_PER_PIXEL_RGB8: u32 = 3;

/// One past the last address of video memory.
pub const VRAM_END: u32 = 0x18600000;

/// The window is the two screens, the gap and the border; the bottom
/// screen is centred under the top screen; the screens lie inside the
/// window, one above the other.
pub proof fn lemma_layout()
    ensures
        VRAM_END == VRAM_BASE + VRAM_SIZE,
        WINDOW_WIDTH == TOP_SCREEN_WIDTH + 2 * BORDER_SIZE,
        WINDOW_HEIGHT == TOP_SCREEN_HEIGHT + BOTTOM_SCREEN_HEIGHT + SCREEN_GAP + 2 * BORDER_SIZE,
        TOP_SCREEN_X == BORDER_SIZE,
        TOP_SCREEN_Y == BORDER_SIZE,
        BOTTOM_SCREEN_X == BORDER_SIZE + (TOP_SCREEN_WIDTH - BOTTOM_SCREEN_WIDTH) / 2,
        BOTTOM_SCREEN_Y == BORDER_SIZE + TOP_SCREEN_HEIGHT + SCREEN_GAP,
        TOP_SCREEN_X + TOP_SCREEN_WIDTH <= WINDOW_WIDTH,
        BOTTOM_SCREEN_X + BOTTOM_SCREEN_WIDTH <= WINDOW_WIDTH,
        TOP_SCREEN_Y + TOP_SCREEN_HEIGHT <= BOTTOM_SCREEN_Y,
        BOTTOM_SCREEN_Y + BOTTOM_SCREEN_HEIGHT <= WINDOW_HEIGHT,
{
}

/// Address of the pixel at column `x` and row `y` of a screen of `height`
/// rows whose framebuffer starts at `fb_addr`.
pub open spec fn pixel_address(fb_addr: u32, height: u32, x: int, y: int) -> int {
    fb_addr + (x * height + (height - 1 - y)) * 3
}

/// The colour of the pixel whose three bytes start at `offset` of a
/// memory: black where they do not all lie inside it.
pub open spec fn color_in(memory: Seq<u8>, offset: int) -> u32 {
    if 0 <= offset && offset + 2 < memory.len() {
        (memory[offset] * 0x1_0000 + memory[offset + 1] * 0x100 + memory[offset + 2]) as u32
    } else {
        0
    }
}

/// The colour of the pixel at an address: read from video memory or from
/// main memory, and black where the address is in neither.
pub open spec fn color_at(fcram: Seq<u8>, vram: Seq<u8>, addr: int) -> u32 {
    if VRAM_BASE <= addr < VRAM_END {
        color_in(vram, addr - VRAM_BASE)
    } else if FCRAM_BASE <= addr <= u32::MAX {
        color_in(fcram, addr - FCRAM_BASE)
    } else {
        0
    }
}

/// Index in the picture of the pixel at column `x` and row `y` of a
/// screen whose corner lies at `screen_x`, `screen_y`.
pub open spec fn window_index(screen_x: u32, screen_y: u32, x: int, y: int) -> int {
    (screen_y + y) * WINDOW_WIDTH + screen_x + x
}

/// A screen and the memory that its pixels come from.
pub struct Screen {
    pub fcram: Seq<u8>,
    pub vram: Seq<u8>,
    pub fb_addr: u32,
    pub screen_x: u32,
    pub screen_y: u32,
    pub width: u32,
    pub height: u32,
}

impl Screen {
    /// The colour of the pixel at column `x` and row `y`.
    pub open spec fn color(self, x: int, y: int) -> u32 {
        color_at(self.fcram, self.vram, pixel_address(self.fb_addr, self.height, x, y))
    }

    /// The picture with the pixel at column `x` and row `y` drawn; a pixel
    /// that falls outside the picture is dropped.
    pub open spec fn draw_pixel(self, picture: Seq<u32>, x: int, y: int) -> Seq<u32> {
        let index = window_index(self.screen_x, self.screen_y, x, y);
        if 0 <= index < picture.len() {
            picture.update(index, self.color(x, y))
        } else {
            picture
        }
    }

    /// The picture with the first `n` pixels of row `y` drawn.
    pub open spec fn draw_row(self, picture: Seq<u32>, y: int, n: int) -> Seq<u32>
        decreases n,
    {
        if n <= 0 {
            picture
        } else {
            self.draw_pixel(self.draw_row(picture, y, n - 1), n - 1, y)
        }
    }

    /// The picture with the first `n` rows drawn, from the top down.
    pub open spec fn draw_rows(self, picture: Seq<u32>, n: int) -> Seq<u32>
        decreases n,
    {
        if n <= 0 {
            picture
        } else {
            self.draw_row(self.draw_rows(picture, n - 1), n - 1, self.width as int)
        }
    }

    /// The picture with the screen drawn.
    pub open spec fn draw(self, picture: Seq<u32>) -> Seq<u32> {
        self.draw_rows(picture, self.height as int)
    }

    /// The picture has a place for the pixel at column `x` and row `y`,
    /// and it is a pixel of the screen.
    pub open spec fn shows(self, picture_len: nat, x: int, y: int) -> bool {
        &&& 0 <= x < self.width
        &&& 0 <= y < self.height
        &&& window_index(self.screen_x, self.screen_y, x, y) < picture_len
    }

    /// The screen lies between the left and the right edge of the window,
    /// so that no two of its pixels share a place.
    pub open spec fn fits_window(self) -> bool {
        self.screen_x + self.width <= WINDOW_WIDTH
    }
}

/// Drawing keeps the length of the picture.
pub proof fn lemma_draw_row_len(s: Screen, picture: Seq<u32>, y: int, n: int)
    ensures
        s.draw_row(picture, y, n).len() == picture.len(),
    decreases n,
{
    if n > 0 {
        lemma_draw_row_len(s, picture, y, n - 1);
    }
}

/// Drawing keeps the length of the picture.
pub proof fn lemma_draw_rows_len(s: Screen, picture: Seq<u32>, n: int)
    ensures
        s.draw_rows(picture, n).len() == picture.len(),
    decreases n,
{
    if n > 0 {
        lemma_draw_rows_len(s, picture, n - 1);
        lemma_draw_row_len(s, s.draw_rows(picture, n - 1), n - 1, s.width as int);
    }
}

/// A row that is drawn holds its pixels' colours, and leaves every other
/// place of the picture as it was.
pub proof fn lemma_draw_row(s: Screen, picture: Seq<u32>, y: int, n: int, index: int)
    requires
        0 <= n <= s.width,
        0 <= index < picture.len(),
    ensures
        s.draw_row(picture, y, n).len() == picture.len(),
        s.draw_row(picture, y, n)[index] == (if window_index(s.screen_x, s.screen_y, 0, y) <= index
            < window_index(s.screen_x, s.screen_y, n, y) {
            s.color(index - window_index(s.screen_x, s.screen_y, 0, y), y)
        } else {
            picture[index]
        }),
    decreases n,
{
    lemma_draw_row_len(s, picture, y, n);
    if n > 0 {
        lemma_draw_row(s, picture, y, n - 1, index);
        lemma_draw_row_len(s, picture, y, n - 1);
    }
}

/// Every pixel of a screen that fits the window shows in the picture with
/// its colour, and drawing the screen leaves the rest of the picture.
pub proof fn law_screen_is_drawn(s: Screen, picture: Seq<u32>, index: int)
    requires
        s.fits_window(),
        0 <= index < picture.len(),
    ensures
        s.draw(picture).len() == picture.len(),
        forall|x: int, y: int|
            s.shows(picture.len(), x, y) && index == window_index(s.screen_x, s.screen_y, x, y)
                ==> s.draw(picture)[index] == s.color(x, y),
        (forall|x: int, y: int|
            0 <= x < s.width && 0 <= y < s.height ==> index != window_index(
                s.screen_x,
                s.screen_y,
                x,
                y,
            )) ==> s.draw(picture)[index] == picture[index],
{
    lemma_rows_drawn(s, picture, s.height as int, index);
}

/// The places of two pixels of a screen that fits the window differ.
proof fn lemma_places_differ(s: Screen, x1: int, y1: int, x2: int, y2: int)
    requires
        s.fits_window(),
        0 <= x1 < s.width,
        0 <= x2 < s.width,
        0 <= y1,
        0 <= y2,
        window_index(s.screen_x, s.screen_y, x1, y1) == window_index(s.screen_x, s.screen_y, x2, y2),
    ensures
        x1 == x2,
        y1 == y2,
{
}

proof fn lemma_rows_drawn(s: Screen, picture: Seq<u32>, n: int, index: int)
    requires
        s.fits_window(),
        0 <= n <= s.height,
        0 <= index < picture.len(),
    ensures
        s.draw_rows(picture, n).len() == picture.len(),
        forall|x: int, y: int|
            0 <= x < s.width && 0 <= y < n && index == window_index(s.screen_x, s.screen_y, x, y)
                ==> s.draw_rows(picture, n)[index] == s.color(x, y),
        (forall|x: int, y: int|
            0 <= x < s.width && 0 <= y < n ==> index != window_index(s.screen_x, s.screen_y, x, y))
            ==> s.draw_rows(picture, n)[index] == picture[index],
    decreases n,
{
    lemma_draw_rows_len(s, picture, n);
    if n > 0 {
        let before = s.draw_rows(picture, n - 1);
        lemma_rows_drawn(s, picture, n - 1, index);
        lemma_draw_rows_len(s, picture, n - 1);
        lemma_draw_row(s, before, n - 1, s.width as int, index);
        let row_start = window_index(s.screen_x, s.screen_y, 0, n - 1);
        assert forall|x: int, y: int|
            0 <= x < s.width && 0 <= y < n && index == window_index(
                s.screen_x,
                s.screen_y,
                x,
                y,
            ) implies s.draw_rows(picture, n)[index] == s.color(x, y) by {
            if y == n - 1 {
                assert(index - row_start == x);
            } else {
                assert(!(row_start <= index < row_start + s.width));
            }
        }
        if forall|x: int, y: int|
            0 <= x < s.width && 0 <= y < n ==> index != window_index(s.screen_x, s.screen_y, x, y) {
            if row_start <= index < row_start + s.width {
                assert(index == window_index(s.screen_x, s.screen_y, index - row_start, n - 1));
            }
        }
    }
}

/// The picture of a frame: the border colour everywhere, then the top
/// screen and the bottom screen, each where its framebuffer address is
/// set.
pub open spec fn frame(len: nat, gpu: GpuState, fcram: Seq<u8>, vram: Seq<u8>) -> Seq<u32> {
    let border = Seq::new(len, |i: int| BORDER_COLOR);
    let top = Screen {
        fcram,
        vram,
        fb_addr: gpu.top_left_addr,
        screen_x: TOP_SCREEN_X,
        screen_y: TOP_SCREEN_Y,
        width: TOP_SCREEN_WIDTH,
        height: TOP_SCREEN_HEIGHT,
    };
    let bottom = Screen {
        fcram,
        vram,
        fb_addr: gpu.bottom_addr,
        screen_x: BOTTOM_SCREEN_X,
        screen_y: BOTTOM_SCREEN_Y,
        width: BOTTOM_SCREEN_WIDTH,
        height: BOTTOM_SCREEN_HEIGHT,
    };
    let with_top = if gpu.top_left_addr != 0 {
        top.draw(border)
    } else {
        border
    };
    if gpu.bottom_addr != 0 {
        bottom.draw(with_top)
    } else {
        with_top
    }
}

/// Reads the colour of the pixel whose three bytes start at `offset`.
fn read_color(memory: &[u8], offset: u128) -> (r: u32)
    ensures
        r == color_in(memory@, offset as int),
{
    let len = memory.len();
    if offset < len as u128 && offset + 2 < len as u128 {
        let i = offset as usize;
        let red = memory[i] as u32;
        let green = memory[i + 1] as u32;
        let blue = memory[i + 2] as u32;
        assert((red << 16) | (green << 8) | blue == red * 0x1_0000 + green * 0x100 + blue)
            by (bit_vector)
            requires
                red < 256,
                green < 256,
                blue < 256,
        ;
        (red << 16) | (green << 8) | blue
    } else {
        0
    }
}

/// Draws one screen into the picture, turning its framebuffer upright.
pub fn render_screen(
    buffer: &mut [u32],
    fcram: &[u8],
    vram: &[u8],
    fb_addr: u32,
    screen_x: u32,
    screen_y: u32,
    width: u32,
    height: u32,
)
    ensures
        final(buffer)@ == (Screen {
            fcram: fcram@,
            vram: vram@,
            fb_addr,
            screen_x,
            screen_y,
            width,
            height,
        }).draw(old(buffer)@),
{
    let ghost screen = Screen {
        fcram: fcram@,
        vram: vram@,
        fb_addr,
        screen_x,
        screen_y,
        width,
        height,
    };
    let len = buffer.len();
    let mut y: u32 = 0;
    while y < height
        invariant
            y <= height,
            len == buffer@.len(),
            buffer@ == screen.draw_rows(old(buffer)@, y as int),
            screen == (Screen {
                fcram: fcram@,
                vram: vram@,
                fb_addr,
                screen_x,
                screen_y,
                width,
                height,
            }),
        decreases height - y,
    {
        let ghost row_start = buffer@;
        let mut x: u32 = 0;
        while x < width
            invariant
                x <= width,
                y < height,
                len == buffer@.len(),
                buffer@ == screen.draw_row(row_start, y as int, x as int),
                screen == (Screen {
                    fcram: fcram@,
                    vram: vram@,
                    fb_addr,
                    screen_x,
                    screen_y,
                    width,
                    height,
                }),
            decreases width - x,
        {
            let fb_x: u64 = (height - 1 - y) as u64;
            let fb_y: u64 = x as u64;
            assert(fb_y * (height as u64) + fb_x <= 0xFFFF_FFFF * 0x1_0000_0000) by (nonlinear_arith)
                requires
                    fb_y <= 0xFFFF_FFFF,
                    height <= 0xFFFF_FFFF,
                    fb_x < height,
            ;
            let cell: u64 = fb_y * (height as u64) + fb_x;
            let addr: u128 = fb_addr as u128 + (cell as u128) * 3;
            assert(addr == pixel_address(fb_addr, height, x as int, y as int));
            let color = if addr >= VRAM_BASE as u128 && addr < VRAM_END as u128 {
                read_color(vram, addr - VRAM_BASE as u128)
            } else if addr >= FCRAM_BASE as u128 && addr <= 0xFFFF_FFFF {
                read_color(fcram, addr - FCRAM_BASE as u128)
            } else {
                0
            };
            assert(color == screen.color(x as int, y as int));
            let index: u64 = (screen_y as u64 + y as u64) * (WINDOW_WIDTH as u64) + screen_x as u64
                + x as u64;
            if index < len as u64 {
                buffer[index as usize] = color;
            }
            x += 1;
        }
        y += 1;
    }
}

/// Fills the picture with the border colour.
fn fill_border(buffer: &mut [u32])
    ensures
        final(buffer)@ == Seq::new(old(buffer)@.len(), |i: int| BORDER_COLOR),
{
    let len = buffer.len();
    let mut i: usize = 0;
    while i < len
        invariant
            i <= len,
            len == buffer@.len(),
            forall|k: int| 0 <= k < i ==> buffer@[k] == BORDER_COLOR,
        decreases len - i,
    {
        buffer[i] = BORDER_COLOR;
        i += 1;
    }
    assert(buffer@ =~= Seq::new(len as nat, |i: int| BORDER_COLOR));
}

/// Draws a frame into the picture: the border, and the screens whose
/// framebuffer addresses are set.
pub fn render(buffer: &mut [u32], gpu: &GpuState, fcram: &[u8], vram: &[u8])
    ensures
        final(buffer)@ == frame(old(buffer)@.len(), *gpu, fcram@, vram@),
{
    fill_border(buffer);
    if gpu.top_left_addr != 0 {
        render_screen(
            buffer,
            fcram,
            vram,
            gpu.top_left_addr,
            TOP_SCREEN_X,
            TOP_SCREEN_Y,
            TOP_SCREEN_WIDTH,
            TOP_SCREEN_HEIGHT,
        );
    }
    if gpu.bottom_addr != 0 {
        render_screen(
            buffer,
            fcram,
            vram,
            gpu.bottom_addr,
            BOTTOM_SCREEN_X,
            BOTTOM_SCREEN_Y,
            BOTTOM_SCREEN_WIDTH,
            BOTTOM_SCREEN_HEIGHT,
        );
    }
}

/// What the window is to do after a round.
#[derive(Clone, Copy, Debug, PartialEq, Eq, Structural)]
pub struct FrameTick {
    /// Rounds completed in the frame that is now running.
    pub completed: usize,
    /// The frame is complete: the picture is to be drawn again.
    pub redraw: bool,
}

/// The frame after one more round.
pub open spec fn spec_frame_tick(completed: usize, has_window: bool) -> FrameTick {
    if completed + 1 >= QUANTUMS_PER_FRAME && has_window {
        FrameTick { completed: 0, redraw: true }
    } else {
        FrameTick { completed: (completed + 1) as usize, redraw: false }
    }
}

/// Counts one more round of the running frame. With the last round of a
/// frame the picture is due, and the count starts again; without a window
/// nothing is drawn, and the count goes on.
pub fn frame_tick(completed: usize, has_window: bool) -> (r: FrameTick)
    requires
        completed < usize::MAX,
    ensures
        r == spec_frame_tick(completed, has_window),
{
    let completed = completed + 1;
    if completed >= QUANTUMS_PER_FRAME && has_window {
        FrameTick { completed: 0, redraw: true }
    } else {
        FrameTick { completed, redraw: false }
    }
}

} // verus!
