//! The 64x32 monochrome screen and the sprite blitter.
//!
//! A sprite is a run of bytes, one per row, the most significant bit
//! leftmost. Drawing XORs the sprite onto the screen and reports whether a
//! lit pixel was turned off.
use vstd::prelude::*;
use crate::constants::{DISPLAY_HEIGHT, DISPLAY_WIDTH, RAM_SIZE};
use crate::ram::Ram;

verus! {

/// The pixels of the screen: 32 rows of 64 columns, `true` for lit.
pub type Framebuffer = [[bool; DISPLAY_WIDTH]; DISPLAY_HEIGHT];

/// The mathematical model of the screen: `screen[row][column]`.
pub type Screen = Seq<Seq<bool>>;

/// The model of a framebuffer.
pub open spec fn screen_view(framebuffer: Framebuffer) -> Screen {
    Seq::new(32, |row: int| framebuffer@[row]@)
}

/// Whether a model has 32 rows of 64 columns.
pub open spec fn screen_wf(screen: Screen) -> bool {
    &&& screen.len() == 32
    &&& forall|row: int| 0 <= row < 32 ==> (#[trigger] screen[row]).len() == 64
}

/// The screen with every pixel off.
pub open spec fn blank_screen() -> Screen {
    Seq::new(32, |row: int| Seq::new(64, |column: int| false))
}

/// Whether the bit of `byte` in column `column` of a sprite row is set;
/// column 0 is the most significant bit.
pub open spec fn sprite_bit(byte: u8, column: int) -> bool {
    (byte >> ((7 - column) as u8)) & 1 == 1
}

/// The offset within a sprite that lands on screen coordinate `target`
/// when the sprite starts at `start`, along an axis of `size` pixels.
/// Without wrapping a negative or large offset means that nothing lands.
///
/// The definition is opaque, which keeps proofs about whole screens small;
/// a proof that computes with it reveals it first.
#[verifier::opaque]
pub open spec fn sprite_offset(start: int, target: int, size: int, wrap: bool) -> int {
    if wrap {
        (target - start) % size
    } else {
        target - start
    }
}

/// Whether `sprite`, drawn at `(start_x, start_y)`, puts a set bit on pixel
/// `(row, column)`.
pub open spec fn sprite_covers(
    sprite: Seq<u8>,
    start_x: int,
    start_y: int,
    wrap: bool,
    row: int,
    column: int,
) -> bool {
    let sprite_row = sprite_offset(start_y, row, 32, wrap);
    let sprite_column = sprite_offset(start_x, column, 64, wrap);
    &&& 0 <= sprite_row < sprite.len()
    &&& 0 <= sprite_column < 8
    &&& sprite_bit(sprite[sprite_row], sprite_column)
}

/// The screen after `sprite` is drawn at `(start_x, start_y)`: every pixel
/// is XORed with the sprite bit that lands on it.
pub open spec fn blit(screen: Screen, sprite: Seq<u8>, start_x: int, start_y: int, wrap: bool) -> Screen {
    Seq::new(
        32,
        |row: int|
            Seq::new(
                64,
                |column: int|
                    screen[row][column] != sprite_covers(sprite, start_x, start_y, wrap, row, column),
            ),
    )
}

/// Whether drawing `sprite` at `(start_x, start_y)` turns a lit pixel off:
/// whether a set bit of the sprite lands on a lit pixel.
pub open spec fn collides(screen: Screen, sprite: Seq<u8>, start_x: int, start_y: int, wrap: bool) -> bool {
    exists|row: int, column: int|
        0 <= row < 32 && 0 <= column < 64 && #[trigger] screen[row][column] && sprite_covers(
            sprite,
            start_x,
            start_y,
            wrap,
            row,
            column,
        )
}

/// The rows of the `n`-row sprite stored at `index`: the rows that lie
/// beyond the end of memory are left out.
pub open spec fn sprite_rows(memory: Seq<u8>, index: int, n: int) -> Seq<u8> {
    if index + n <= memory.len() {
        memory.subrange(index, index + n)
    } else if index < memory.len() {
        memory.subrange(index, memory.len() as int)
    } else {
        Seq::empty()
    }
}

/// Drawing the same sprite twice at the same place restores the screen.
pub proof fn lemma_blit_twice_restores(
    screen: Screen,
    sprite: Seq<u8>,
    start_x: int,
    start_y: int,
    wrap: bool,
)
    requires
        screen_wf(screen),
    ensures
        blit(blit(screen, sprite, start_x, start_y, wrap), sprite, start_x, start_y, wrap)
            == screen,
{
    let once = blit(screen, sprite, start_x, start_y, wrap);
    assert(blit(once, sprite, start_x, start_y, wrap) =~~= screen);
}

/// Turns every pixel off.
pub fn clear_screen(framebuffer: &mut Framebuffer)
    ensures
        screen_view(*final(framebuffer)) == blank_screen(),
{
    let mut row: usize = 0;
    while row < DISPLAY_HEIGHT
        invariant
            row <= 32,
            forall|r: int, c: int| 0 <= r < row && 0 <= c < 64 ==> framebuffer@[r]@[c] == false,
        decreases 32 - row,
    {
        framebuffer[row] = [false; DISPLAY_WIDTH];
        row += 1;
    }
    assert(screen_view(*framebuffer) =~~= blank_screen());
}

/// The screen coordinate on which offset `offset` of a sprite lands when
/// the sprite starts at `start`, along an axis of `size` pixels. Without
/// wrapping the result may lie beyond the edge.
#[verifier::opaque]
spec fn sprite_target(start: int, offset: int, size: int, wrap: bool) -> int {
    if wrap {
        (start + offset) % size
    } else {
        start + offset
    }
}

/// Whether the first `rows` rows of `sprite`, and the first `columns`
/// columns of the row after them, put a set bit on pixel `(row, column)`.
spec fn sprite_covers_upto(
    sprite: Seq<u8>,
    start_x: int,
    start_y: int,
    wrap: bool,
    row: int,
    column: int,
    rows: int,
    columns: int,
) -> bool {
    let sprite_row = sprite_offset(start_y, row, 32, wrap);
    let sprite_column = sprite_offset(start_x, column, 64, wrap);
    &&& sprite_covers(sprite, start_x, start_y, wrap, row, column)
    &&& sprite_row < rows || (sprite_row == rows && sprite_column < columns)
}

/// The screen after the first `rows` rows of `sprite`, and the first
/// `columns` columns of the row after them, are drawn.
spec fn blit_upto(
    screen: Screen,
    sprite: Seq<u8>,
    start_x: int,
    start_y: int,
    wrap: bool,
    rows: int,
    columns: int,
) -> Screen {
    Seq::new(
        32,
        |row: int|
            Seq::new(
                64,
                |column: int|
                    screen[row][column] != sprite_covers_upto(
                        sprite,
                        start_x,
                        start_y,
                        wrap,
                        row,
                        column,
                        rows,
                        columns,
                    ),
            ),
    )
}

/// Whether the first `rows` rows of `sprite`, and the first `columns`
/// columns of the row after them, turn a lit pixel of `screen` off.
spec fn collides_upto(
    screen: Screen,
    sprite: Seq<u8>,
    start_x: int,
    start_y: int,
    wrap: bool,
    rows: int,
    columns: int,
) -> bool {
    exists|row: int, column: int|
        0 <= row < 32 && 0 <= column < 64 && #[trigger] screen[row][column] && sprite_covers_upto(
            sprite,
            start_x,
            start_y,
            wrap,
            row,
            column,
            rows,
            columns,
        )
}

/// Whether pixel `(row, column)` is where offset `(rows, columns)` of a
/// sprite lands.
spec fn sprite_lands(
    start_x: int,
    start_y: int,
    wrap: bool,
    row: int,
    column: int,
    rows: int,
    columns: int,
) -> bool {
    &&& row == sprite_target(start_y, rows, 32, wrap)
    &&& column == sprite_target(start_x, columns, 64, wrap)
}

/// Once every row is drawn, the whole sprite is.
proof fn lemma_blit_complete(
    screen: Screen,
    sprite: Seq<u8>,
    start_x: int,
    start_y: int,
    wrap: bool,
)
    ensures
        blit_upto(screen, sprite, start_x, start_y, wrap, sprite.len() as int, 0) == blit(
            screen,
            sprite,
            start_x,
            start_y,
            wrap,
        ),
        collides_upto(screen, sprite, start_x, start_y, wrap, sprite.len() as int, 0) == collides(
            screen,
            sprite,
            start_x,
            start_y,
            wrap,
        ),
{
    let a = blit_upto(screen, sprite, start_x, start_y, wrap, sprite.len() as int, 0);
    let b = blit(screen, sprite, start_x, start_y, wrap);
    assert(a =~~= b);
}

/// A pixel lies at a given offset of the sprite exactly when it is the
/// target of that offset.
proof fn lemma_offset_target(start: int, offset: int, target: int, size: int, wrap: bool)
    requires
        size == 32 || size == 64,
        0 <= start < size,
        0 <= offset < size,
        0 <= target < size,
    ensures
        sprite_offset(start, target, size, wrap) == offset <==> target == sprite_target(
            start,
            offset,
            size,
            wrap,
        ),
{
    reveal(sprite_offset);
    reveal(sprite_target);
    if wrap && size == 32 {
        assert((target - start) % 32 == if target >= start {
            target - start
        } else {
            target - start + 32
        });
        assert((start + offset) % 32 == if start + offset < 32 {
            start + offset
        } else {
            start + offset - 32
        });
    } else if wrap {
        assert((target - start) % 64 == if target >= start {
            target - start
        } else {
            target - start + 64
        });
        assert((start + offset) % 64 == if start + offset < 64 {
            start + offset
        } else {
            start + offset - 64
        });
    }
}

/// Nothing is drawn before the first column of the first row.
proof fn lemma_blit_start(screen: Screen, sprite: Seq<u8>, start_x: int, start_y: int, wrap: bool)
    requires
        screen_wf(screen),
    ensures
        blit_upto(screen, sprite, start_x, start_y, wrap, 0, 0) == screen,
        !collides_upto(screen, sprite, start_x, start_y, wrap, 0, 0),
{
    assert(blit_upto(screen, sprite, start_x, start_y, wrap, 0, 0) =~~= screen);
}

/// A row is complete after its eighth column.
proof fn lemma_blit_next_row(
    screen: Screen,
    sprite: Seq<u8>,
    start_x: int,
    start_y: int,
    wrap: bool,
    rows: int,
)
    ensures
        blit_upto(screen, sprite, start_x, start_y, wrap, rows, 8) == blit_upto(
            screen,
            sprite,
            start_x,
            start_y,
            wrap,
            rows + 1,
            0,
        ),
        collides_upto(screen, sprite, start_x, start_y, wrap, rows, 8) == collides_upto(
            screen,
            sprite,
            start_x,
            start_y,
            wrap,
            rows + 1,
            0,
        ),
{
    let a = blit_upto(screen, sprite, start_x, start_y, wrap, rows, 8);
    let b = blit_upto(screen, sprite, start_x, start_y, wrap, rows + 1, 0);
    assert(a =~~= b);
}

/// Drawing one more column of a row adds exactly the pixel that the
/// column lands on, and that pixel was not covered before.
proof fn lemma_cover_step(
    sprite: Seq<u8>,
    start_x: int,
    start_y: int,
    wrap: bool,
    row: int,
    column: int,
    rows: int,
    columns: int,
)
    requires
        0 <= start_x < 64,
        0 <= start_y < 32,
        0 <= rows < sprite.len() <= 32,
        0 <= columns < 8,
        0 <= row < 32,
        0 <= column < 64,
    ensures
        sprite_covers_upto(sprite, start_x, start_y, wrap, row, column, rows, columns + 1) == (
        sprite_covers_upto(sprite, start_x, start_y, wrap, row, column, rows, columns) || (
        sprite_lands(start_x, start_y, wrap, row, column, rows, columns) && sprite_bit(
            sprite[rows],
            columns,
        ))),
        sprite_lands(start_x, start_y, wrap, row, column, rows, columns) ==> !sprite_covers_upto(
            sprite,
            start_x,
            start_y,
            wrap,
            row,
            column,
            rows,
            columns,
        ),
{
    lemma_offset_target(start_y, rows, row, 32, wrap);
    lemma_offset_target(start_x, columns, column, 64, wrap);
}

/// One step of the blitter: the screen after the pixel at offset
/// `(rows, columns)` of the sprite is drawn.
proof fn lemma_blit_pixel(
    screen: Screen,
    sprite: Seq<u8>,
    start_x: int,
    start_y: int,
    wrap: bool,
    rows: int,
    columns: int,
)
    requires
        screen_wf(screen),
        0 <= start_x < 64,
        0 <= start_y < 32,
        0 <= rows < sprite.len() <= 32,
        0 <= columns < 8,
    ensures
        ({
            let earlier = blit_upto(screen, sprite, start_x, start_y, wrap, rows, columns);
            let later = blit_upto(screen, sprite, start_x, start_y, wrap, rows, columns + 1);
            let pixel_row = sprite_target(start_y, rows, 32, wrap);
            let pixel_column = sprite_target(start_x, columns, 64, wrap);
            let set = sprite_bit(sprite[rows], columns);
            if 0 <= pixel_row < 32 && 0 <= pixel_column < 64 {
                &&& earlier[pixel_row][pixel_column] == screen[pixel_row][pixel_column]
                &&& later == earlier.update(
                    pixel_row,
                    earlier[pixel_row].update(
                        pixel_column,
                        screen[pixel_row][pixel_column] != set,
                    ),
                )
            } else {
                later == earlier
            }
        }),
{
    let earlier = blit_upto(screen, sprite, start_x, start_y, wrap, rows, columns);
    let later = blit_upto(screen, sprite, start_x, start_y, wrap, rows, columns + 1);
    let pixel_row = sprite_target(start_y, rows, 32, wrap);
    let pixel_column = sprite_target(start_x, columns, 64, wrap);
    let set = sprite_bit(sprite[rows], columns);
    let expected = if 0 <= pixel_row < 32 && 0 <= pixel_column < 64 {
        earlier.update(
            pixel_row,
            earlier[pixel_row].update(pixel_column, screen[pixel_row][pixel_column] != set),
        )
    } else {
        earlier
    };
    assert forall|row: int| 0 <= row < 32 implies #[trigger] later[row] == expected[row] by {
        assert forall|column: int| 0 <= column < 64 implies #[trigger] later[row][column]
            == expected[row][column] by {
            lemma_cover_step(sprite, start_x, start_y, wrap, row, column, rows, columns);
        }
    }
    if 0 <= pixel_row < 32 && 0 <= pixel_column < 64 {
        lemma_cover_step(sprite, start_x, start_y, wrap, pixel_row, pixel_column, rows, columns);
    }
}

/// One step of the blitter: the collision flag after the pixel at offset
/// `(rows, columns)` of the sprite is drawn.
proof fn lemma_collide_pixel(
    screen: Screen,
    sprite: Seq<u8>,
    start_x: int,
    start_y: int,
    wrap: bool,
    rows: int,
    columns: int,
)
    requires
        screen_wf(screen),
        0 <= start_x < 64,
        0 <= start_y < 32,
        0 <= rows < sprite.len() <= 32,
        0 <= columns < 8,
    ensures
        ({
            let collided = collides_upto(screen, sprite, start_x, start_y, wrap, rows, columns);
            let collision = collides_upto(screen, sprite, start_x, start_y, wrap, rows, columns + 1);
            let pixel_row = sprite_target(start_y, rows, 32, wrap);
            let pixel_column = sprite_target(start_x, columns, 64, wrap);
            let set = sprite_bit(sprite[rows], columns);
            if 0 <= pixel_row < 32 && 0 <= pixel_column < 64 {
                collision == (collided || (screen[pixel_row][pixel_column] && set))
            } else {
                collision == collided
            }
        }),
{
    let collided = collides_upto(screen, sprite, start_x, start_y, wrap, rows, columns);
    let collision = collides_upto(screen, sprite, start_x, start_y, wrap, rows, columns + 1);
    let pixel_row = sprite_target(start_y, rows, 32, wrap);
    let pixel_column = sprite_target(start_x, columns, 64, wrap);
    let set = sprite_bit(sprite[rows], columns);
    if collided {
        let (row, column) = choose|row: int, column: int|
            0 <= row < 32 && 0 <= column < 64 && #[trigger] screen[row][column]
                && sprite_covers_upto(sprite, start_x, start_y, wrap, row, column, rows, columns);
        lemma_cover_step(sprite, start_x, start_y, wrap, row, column, rows, columns);
    }
    if 0 <= pixel_row < 32 && 0 <= pixel_column < 64 && screen[pixel_row][pixel_column] && set {
        lemma_cover_step(sprite, start_x, start_y, wrap, pixel_row, pixel_column, rows, columns);
    }
    if collision {
        let (row, column) = choose|row: int, column: int|
            0 <= row < 32 && 0 <= column < 64 && #[trigger] screen[row][column]
                && sprite_covers_upto(
                sprite,
                start_x,
                start_y,
                wrap,
                row,
                column,
                rows,
                columns + 1,
            );
        lemma_cover_step(sprite, start_x, start_y, wrap, row, column, rows, columns);
    }
}

/// Draws the `n`-row sprite stored at `index` with its top left corner at
/// `(vx mod 64, vy mod 32)` and returns whether a lit pixel went off.
///
/// Rows stored beyond the end of memory are not drawn. Pixels that fall
/// beyond the right or bottom edge are dropped, or come back in at the
/// opposite edge where `wrap` is set.
pub fn draw_sprite(
    framebuffer: &mut Framebuffer,
    memory: &Ram,
    index: u16,
    n: u8,
    vx: u8,
    vy: u8,
    wrap: bool,
) -> (collision: bool)
    requires
        n < 16,
    ensures
        screen_view(*final(framebuffer)) == blit(
            screen_view(*old(framebuffer)),
            sprite_rows(memory@, index as int, n as int),
            vx as int % 64,
            vy as int % 32,
            wrap,
        ),
        collision == collides(
            screen_view(*old(framebuffer)),
            sprite_rows(memory@, index as int, n as int),
            vx as int % 64,
            vy as int % 32,
            wrap,
        ),
{
    let start_x: usize = (vx % 64) as usize;
    let start_y: usize = (vy % 32) as usize;
    let sprite_start: usize = index as usize;
    let ghost sprite = sprite_rows(memory@, index as int, n as int);
    let ghost before = screen_view(*framebuffer);
    proof {
        lemma_blit_start(before, sprite, start_x as int, start_y as int, wrap);
    }
    let mut collision = false;
    let mut sprite_row: usize = 0;
    while sprite_row < n as usize && sprite_start + sprite_row < RAM_SIZE
        invariant
            n < 16,
            start_x < 64,
            start_y < 32,
            sprite_start == index,
            sprite_row <= sprite.len() <= n,
            sprite == sprite_rows(memory@, index as int, n as int),
            screen_wf(before),
            screen_view(*framebuffer) == blit_upto(
                before,
                sprite,
                start_x as int,
                start_y as int,
                wrap,
                sprite_row as int,
                0,
            ),
            collision == collides_upto(
                before,
                sprite,
                start_x as int,
                start_y as int,
                wrap,
                sprite_row as int,
                0,
            ),
        decreases n - sprite_row,
    {
        let byte: u8 = memory.bytes[sprite_start + sprite_row];
        let mut sprite_column: usize = 0;
        while sprite_column < 8
            invariant
                start_x < 64,
                start_y < 32,
                sprite_column <= 8,
                sprite_row < sprite.len() < 16,
                byte == sprite[sprite_row as int],
                screen_wf(before),
                screen_view(*framebuffer) == blit_upto(
                    before,
                    sprite,
                    start_x as int,
                    start_y as int,
                    wrap,
                    sprite_row as int,
                    sprite_column as int,
                ),
                collision == collides_upto(
                    before,
                    sprite,
                    start_x as int,
                    start_y as int,
                    wrap,
                    sprite_row as int,
                    sprite_column as int,
                ),
            decreases 8 - sprite_column,
        {
            let mut pixel_column: usize = start_x + sprite_column;
            let mut pixel_row: usize = start_y + sprite_row;
            if wrap {
                pixel_column = pixel_column % DISPLAY_WIDTH;
                pixel_row = pixel_row % DISPLAY_HEIGHT;
            }
            let shift: u8 = 7 - sprite_column as u8;
            let sprite_pixel_set: bool = (byte >> shift) & 1 == 1;
            let ghost earlier = screen_view(*framebuffer);
            proof {
                reveal(sprite_target);
                lemma_blit_pixel(
                    before,
                    sprite,
                    start_x as int,
                    start_y as int,
                    wrap,
                    sprite_row as int,
                    sprite_column as int,
                );
                lemma_collide_pixel(
                    before,
                    sprite,
                    start_x as int,
                    start_y as int,
                    wrap,
                    sprite_row as int,
                    sprite_column as int,
                );
            }
            if pixel_column < DISPLAY_WIDTH && pixel_row < DISPLAY_HEIGHT {
                let lit: bool = framebuffer[pixel_row][pixel_column];
                if lit && sprite_pixel_set {
                    collision = true;
                }
                framebuffer[pixel_row][pixel_column] = lit != sprite_pixel_set;
                proof {
                    let expected = earlier.update(
                        pixel_row as int,
                        earlier[pixel_row as int].update(
                            pixel_column as int,
                            lit != sprite_pixel_set,
                        ),
                    );
                    assert(screen_view(*framebuffer) =~~= expected);
                }
            }
            sprite_column += 1;
        }
        proof {
            lemma_blit_next_row(
                before,
                sprite,
                start_x as int,
                start_y as int,
                wrap,
                sprite_row as int,
            );
        }
        sprite_row += 1;
    }
    proof {
        lemma_blit_complete(before, sprite, start_x as int, start_y as int, wrap);
    }
    collision
}

} // verus!
