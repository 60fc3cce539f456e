use vstd::prelude::*;

verus! {

/// Number of pixel columns of the framebuffer.
pub const DISPLAY_WIDTH: usize = 64;

/// Number of pixel rows of the framebuffer.
pub const DISPLAY_HEIGHT: usize = 32;

/// Number of pixels of the framebuffer, stored row by row.
pub const DISPLAY_SIZE: usize = 2048;

/// Whether the sprite bit at `col` (0 = most significant) of a sprite row is set.
pub open spec fn sprite_bit(row_bits: u8, col: int) -> bool {
    row_bits & (0x80u8 >> (col as u8)) != 0u8
}

/// Index into the row-major framebuffer of the pixel that sprite cell
/// (`row`, `col`) lands on when the sprite is drawn at (`x`, `y`); both
/// coordinates wrap around the screen edges.
pub open spec fn pixel_index(x: u8, y: u8, row: int, col: int) -> int {
    ((y + row) % 32) * 64 + (x + col) % 64
}

/// Column, inside a sprite drawn with its left edge at `x`, of the pixel at index `p`.
pub open spec fn sprite_col(x: u8, p: int) -> int {
    (p % 64 - x) % 64
}

/// Row, inside a sprite drawn with its top edge at `y`, of the pixel at index `p`.
pub open spec fn sprite_row(y: u8, p: int) -> int {
    (p / 64 - y) % 32
}

/// Whether the pixel at index `p` is toggled by drawing the sprite `rows`
/// at (`x`, `y`): it is iff the sprite cell over it (taking wrap-around into
/// account) lies inside the sprite and its bit is set.
pub open spec fn sprite_covers(x: u8, y: u8, rows: Seq<u8>, p: int) -> bool {
    let col = sprite_col(x, p);
    let row = sprite_row(y, p);
    col < 8 && row < rows.len() && sprite_bit(rows[row], col)
}

/// The framebuffer after XOR-drawing the sprite `rows` at (`x`, `y`).
pub open spec fn blend_spec(screen: Seq<bool>, x: u8, y: u8, rows: Seq<u8>) -> Seq<bool> {
    Seq::new(screen.len(), |p: int| screen[p] != sprite_covers(x, y, rows, p))
}

/// Whether drawing the sprite `rows` at (`x`, `y`) turns some lit pixel off.
pub open spec fn collides_spec(screen: Seq<bool>, x: u8, y: u8, rows: Seq<u8>) -> bool {
    exists|row: int, col: int|
        0 <= row < rows.len() && 0 <= col < 8 && sprite_bit(rows[row], col)
            && #[trigger] screen[pixel_index(x, y, row, col)]
}

/// The `height` sprite rows stored in `memory` from `start` on.
pub open spec fn sprite_rows(memory: Seq<u8>, start: int, height: int) -> Seq<u8> {
    Seq::new(height as nat, |row: int| memory[start + row])
}

/// The all-off framebuffer.
pub open spec fn blank_screen() -> Seq<bool> {
    Seq::new(DISPLAY_SIZE as nat, |p: int| false)
}

proof fn lemma_pixel_index_inverse(x: u8, y: u8, row: int, col: int)
    requires
        0 <= row < 32,
        0 <= col < 64,
    ensures
        0 <= pixel_index(x, y, row, col) < DISPLAY_SIZE,
        pixel_index(x, y, row, col) % 64 == (x + col) % 64,
        pixel_index(x, y, row, col) / 64 == (y + row) % 32,
        sprite_col(x, pixel_index(x, y, row, col)) == col,
        sprite_row(y, pixel_index(x, y, row, col)) == row,
{
    let px = (x + col) % 64;
    let py = (y + row) % 32;
    assert(0 <= px < 64 && 0 <= py < 32);
    assert((py * 64 + px) % 64 == px && (py * 64 + px) / 64 == py) by (nonlinear_arith)
        requires
            0 <= px < 64,
            0 <= py < 32,
    ;
    assert((px - x) % 64 == col) by (nonlinear_arith)
        requires
            px == (x + col) % 64,
            0 <= col < 64,
            0 <= x,
    ;
    assert((py - y) % 32 == row) by (nonlinear_arith)
        requires
            py == (y + row) % 32,
            0 <= row < 32,
            0 <= y,
    ;
}

proof fn lemma_pixel_coords(x: u8, y: u8, p: int)
    requires
        0 <= p < DISPLAY_SIZE,
    ensures
        0 <= sprite_col(x, p) < 64,
        0 <= sprite_row(y, p) < 32,
        pixel_index(x, y, sprite_row(y, p), sprite_col(x, p)) == p,
{
    let col = (p % 64 - x) % 64;
    let row = (p / 64 - y) % 32;
    let px = p % 64;
    let py = p / 64;
    assert(0 <= py < 32 && p == py * 64 + px);
    assert((x + col) % 64 == px) by (nonlinear_arith)
        requires
            col == (px - x) % 64,
            0 <= px < 64,
            0 <= x,
    ;
    assert((y + row) % 32 == py) by (nonlinear_arith)
        requires
            row == (py - y) % 32,
            0 <= py < 32,
            0 <= y,
    ;
}

/// Drawing the same sprite twice at the same place gives back the
/// framebuffer as it was before the first draw.
pub proof fn lemma_blend_involution(screen: Seq<bool>, x: u8, y: u8, rows: Seq<u8>)
    ensures
        blend_spec(blend_spec(screen, x, y, rows), x, y, rows) == screen,
{
    assert(blend_spec(blend_spec(screen, x, y, rows), x, y, rows) =~= screen);
}

/// The 64x32 monochrome framebuffer.
pub struct Display {
    disp_buffer: Vec<bool>,
}

impl View for Display {
    type V = Seq<bool>;

    closed spec fn view(&self) -> Seq<bool> {
        self.disp_buffer@
    }
}

impl Display {
    /// A framebuffer holds exactly one flag per pixel.
    pub open spec fn wf(&self) -> bool {
        self@.len() == DISPLAY_SIZE
    }

    /// A framebuffer with every pixel off.
    pub fn init() -> (r: Display)
        ensures
            r@ == blank_screen(),
            r.wf(),
    {
        let mut disp_buffer: Vec<bool> = Vec::new();
        let mut i: usize = 0;
        while i < DISPLAY_SIZE
            invariant
                i <= DISPLAY_SIZE,
                disp_buffer@ == Seq::new(i as nat, |p: int| false),
            decreases DISPLAY_SIZE - i,
        {
            disp_buffer.push(false);
            i = i + 1;
        }
        Display { disp_buffer }
    }

    /// Turns every pixel off.
    pub fn clear_screen(&mut self)
        requires
            old(self).wf(),
        ensures
            final(self)@ == blank_screen(),
            final(self).wf(),
    {
        let mut i: usize = 0;
        while i < DISPLAY_SIZE
            invariant
                i <= DISPLAY_SIZE,
                self.disp_buffer@.len() == DISPLAY_SIZE,
                forall|p: int| 0 <= p < i ==> !self.disp_buffer@[p],
            decreases DISPLAY_SIZE - i,
        {
            self.disp_buffer.set(i, false);
            i = i + 1;
        }
        assert(self@ =~= blank_screen());
    }

    /// Whether the pixel in column `x`, row `y` is lit.
    pub fn is_pixel_on(&self, x: usize, y: usize) -> (r: bool)
        requires
            self.wf(),
            x < DISPLAY_WIDTH,
            y < DISPLAY_HEIGHT,
        ensures
            r == self@[y * 64 + x],
    {
        self.disp_buffer[y * DISPLAY_WIDTH + x]
    }

    /// XOR-draws the `height` sprite rows stored at `memory[start_adress..]`
    /// with its top-left corner at (`x_coord`, `y_coord`), wrapping at the
    /// screen edges. Returns whether some lit pixel was turned off.
    pub fn blend_sprite(
        &mut self,
        x_coord: u8,
        y_coord: u8,
        height: u8,
        start_adress: u16,
        memory: &[u8],
    ) -> (was_turned_off: bool)
        requires
            old(self).wf(),
            height < 16,
            height == 0 || start_adress + height <= memory@.len(),
        ensures
            final(self).wf(),
            final(self)@ == blend_spec(
                old(self)@,
                x_coord,
                y_coord,
                sprite_rows(memory@, start_adress as int, height as int),
            ),
            was_turned_off == collides_spec(
                old(self)@,
                x_coord,
                y_coord,
                sprite_rows(memory@, start_adress as int, height as int),
            ),
    {
        let ghost screen = self@;
        let ghost rows = sprite_rows(memory@, start_adress as int, height as int);
        let mut was_turned_off = false;
        let mut y: usize = 0;
        while y < height as usize
            invariant
                y <= height,
                height < 16,
                height == 0 || start_adress + height <= memory@.len(),
                rows == sprite_rows(memory@, start_adress as int, height as int),
                screen.len() == DISPLAY_SIZE,
                self.disp_buffer@.len() == DISPLAY_SIZE,
                forall|p: int|
                    0 <= p < DISPLAY_SIZE ==> #[trigger] self.disp_buffer@[p] == if sprite_row(
                        y_coord,
                        p,
                    ) < y {
                        screen[p] != sprite_covers(x_coord, y_coord, rows, p)
                    } else {
                        screen[p]
                    },
                was_turned_off == exists|row: int, col: int|
                    0 <= row < y && 0 <= col < 8 && sprite_bit(rows[row], col)
                        && #[trigger] screen[pixel_index(x_coord, y_coord, row, col)],
            decreases height - y,
        {
            let row_bits = memory[start_adress as usize + y];
            assert(row_bits == rows[y as int]);
            let mut x: usize = 0;
            while x < 8
                invariant
                    x <= 8,
                    y < height,
                    height < 16,
                    row_bits == rows[y as int],
                    rows.len() == height,
                    screen.len() == DISPLAY_SIZE,
                    self.disp_buffer@.len() == DISPLAY_SIZE,
                    forall|p: int|
                        0 <= p < DISPLAY_SIZE ==> #[trigger] self.disp_buffer@[p] == if sprite_row(y_coord, p) < y || (sprite_row(y_coord, p) == y && sprite_col(x_coord, p) < x) {
                            screen[p] != sprite_covers(x_coord, y_coord, rows, p)
                        } else {
                            screen[p]
                        },
                    was_turned_off == ((exists|row: int, col: int|
                        0 <= row < y && 0 <= col < 8 && sprite_bit(rows[row], col)
                            && #[trigger] screen[pixel_index(x_coord, y_coord, row, col)]) || (
                    exists|col: int|
                        0 <= col < x && sprite_bit(rows[y as int], col) && #[trigger] screen[pixel_index(
                            x_coord,
                            y_coord,
                            y as int,
                            col,
                        )])),
                decreases 8 - x,
            {
                let actual_x = (x + x_coord as usize) % DISPLAY_WIDTH;
                let actual_y = (y + y_coord as usize) % DISPLAY_HEIGHT;
                let idx = actual_y * DISPLAY_WIDTH + actual_x;
                proof {
                    lemma_pixel_index_inverse(x_coord, y_coord, y as int, x as int);
                    assert(idx == pixel_index(x_coord, y_coord, y as int, x as int));
                }
                let before = self.disp_buffer[idx];
                let bit = row_bits & (128u8 >> (x as u8)) != 0;
                let result = before ^ bit;
                self.disp_buffer.set(idx, result);
                proof {
                    assert forall|p: int| 0 <= p < DISPLAY_SIZE && p != idx implies !(sprite_row(
                        y_coord,
                        p,
                    ) == y && sprite_col(x_coord, p) == x) by {
                        lemma_pixel_coords(x_coord, y_coord, p);
                    }
                    assert(sprite_covers(x_coord, y_coord, rows, idx as int) == bit);
                }
                if before && bit {
                    was_turned_off = true;
                }
                x = x + 1;
            }
            y = y + 1;
        }
        proof {
            assert forall|p: int| 0 <= p < DISPLAY_SIZE implies sprite_row(y_coord, p) < height
                || !sprite_covers(x_coord, y_coord, rows, p) by {}
            assert(self@ =~= blend_spec(screen, x_coord, y_coord, rows));
        }
        was_turned_off
    }
}

} // verus!
