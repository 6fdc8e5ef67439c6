use vstd::prelude::*;

verus! {

/// How many bits of `byte` are set.
pub open spec fn spec_count_ones(byte: u8) -> u32 {
    ((byte & 1) + ((byte >> 1) & 1) + ((byte >> 2) & 1) + ((byte >> 3) & 1) + ((byte >> 4) & 1) + (
    (byte >> 5) & 1) + ((byte >> 6) & 1) + ((byte >> 7) & 1)) as u32
}

/// `u8::count_ones` returns the number of ones in the binary representation of its
/// argument.
pub assume_specification[ u8::count_ones ](byte: u8) -> (ones: u32)
    ensures
        ones == spec_count_ones(byte),
;

/// Whether pixel `k` of `byte` is set, pixel 0 being the leftmost, in the highest bit.
pub open spec fn spec_bit(byte: u8, k: u8) -> bool {
    byte & (0x80u8 >> k) != 0
}

/// Whether pixel `p` of the display is set. Pixels are counted row by row from the top
/// left, 64 to a row, `0..2048`.
pub open spec fn spec_pixel(display: Seq<u8>, p: int) -> bool {
    spec_bit(display[p / 8], (p % 8) as u8)
}

/// The brightness of a pixel in a rendered frame: 255 where it is set, else 0.
pub open spec fn spec_shade(set: bool) -> u8 {
    if set {
        255
    } else {
        0
    }
}

/// Whether the four bytes of pixel `p` in `pixels`, red, green, blue and alpha, show that
/// pixel of the display: white and opaque where it is set, black and opaque where not.
pub open spec fn spec_rendered(display: Seq<u8>, pixels: Seq<u8>, p: int) -> bool {
    &&& pixels[4 * p] == spec_shade(spec_pixel(display, p))
    &&& pixels[4 * p + 1] == spec_shade(spec_pixel(display, p))
    &&& pixels[4 * p + 2] == spec_shade(spec_pixel(display, p))
    &&& pixels[4 * p + 3] == 255
}

/// Whether `pixels` holds the whole display as 2048 pixels of four bytes each.
pub open spec fn spec_is_frame(display: Seq<u8>, pixels: Seq<u8>) -> bool {
    &&& pixels.len() == 8192
    &&& forall|p: int| 0 <= p < 2048 ==> #[trigger] spec_rendered(display, pixels, p)
}

/// Renders the display as 64 by 32 pixels of four bytes each, for a texture.
pub fn frame_rgba(display: &[u8; 256]) -> (pixels: [u8; 8192])
    ensures
        spec_is_frame(display@, pixels@),
{
    let mut pixels: [u8; 8192] = [0;8192];
    let mut p: usize = 0;
    while p < 2048
        invariant
            p <= 2048,
            forall|q: int| 0 <= q < p ==> #[trigger] spec_rendered(display@, pixels@, q),
        decreases 2048 - p,
    {
        let ghost before = pixels@;
        let byte: u8 = display[p / 8];
        let k: u8 = (p % 8) as u8;
        let color: u8 = if byte & (0x80u8 >> k) != 0 { 255 } else { 0 };
        pixels[4 * p] = color;
        pixels[4 * p + 1] = color;
        pixels[4 * p + 2] = color;
        pixels[4 * p + 3] = 255;
        assert forall|q: int| 0 <= q < p + 1 implies #[trigger] spec_rendered(
            display@,
            pixels@,
            q,
        ) by {
            if q < p {
                assert(spec_rendered(display@, before, q));
            }
        }
        p += 1;
    }
    pixels
}

/// Whether a sprite of `rows` rows drawn at column `x` of row `y` stays on the display.
///
/// Pixels are addressed in one line, 64 to a row, so that a row of the sprite that
/// leaves the right edge goes on at the left of the next display row. The sprite fits
/// where its last pixel is one of the display's 2048.
pub open spec fn spec_fits(rows: int, x: u8, y: u8) -> bool {
    rows > 0 ==> 64 * (y + rows - 1) + x + 7 < 2048
}

/// Whether a sprite row drawn with its leftmost pixel at display pixel `base` has a set
/// pixel at display pixel `p`.
pub open spec fn spec_row_pixel(row: u8, base: int, p: int) -> bool {
    base <= p < base + 8 && spec_bit(row, (p - base) as u8)
}

/// Whether the sprite drawn at column `x` of row `y` has a set pixel at display pixel `p`.
///
/// Row `i` of the sprite starts at pixel `64 * (y + i) + x`, so a pixel that lies `d`
/// pixels after the sprite's first belongs to row `d / 64` and is pixel `d % 64` of it.
pub open spec fn spec_sprite_pixel(sprite: Seq<u8>, x: u8, y: u8, p: int) -> bool {
    let d = p - (64 * y + x);
    &&& 0 <= d
    &&& d / 64 < sprite.len()
    &&& d % 64 < 8
    &&& spec_bit(sprite[d / 64], (d % 64) as u8)
}

/// Whether display pixel `p` is set and the sprite drawn at column `x` of row `y` has a
/// set pixel there, so that drawing clears it.
pub open spec fn spec_collides(display: Seq<u8>, sprite: Seq<u8>, x: u8, y: u8, p: int) -> bool {
    0 <= p < 2048 && spec_pixel(display, p) && spec_sprite_pixel(sprite, x, y, p)
}

/// The display byte that holds the leftmost pixel of sprite row `i`.
pub open spec fn spec_row_index(x: u8, y: u8, i: int) -> int {
    8 * (y + i) + x / 8
}

/// The display after one sprite row was combined by exclusive or into the byte at
/// `index`, `offset` pixels from that byte's left edge. Where `offset` is not 0, the
/// pixels that fall off the byte's right edge go to the left of the byte that follows.
pub open spec fn spec_blit_row(display: Seq<u8>, index: int, row: u8, offset: u8) -> Seq<u8> {
    let left = display.update(index, display[index] ^ (row >> offset));
    if offset == 0 {
        left
    } else {
        left.update(index + 1, display[index + 1] ^ (row << ((8 - offset) as u8)))
    }
}

/// Whether drawing one sprite row clears a pixel that was set.
pub open spec fn spec_row_erases(display: Seq<u8>, index: int, row: u8, offset: u8) -> bool {
    ||| display[index] & (row >> offset) != 0
    ||| offset != 0 && display[index + 1] & (row << ((8 - offset) as u8)) != 0
}

/// The display after the rows of `sprite` were drawn one below the other, the first at
/// column `x` of row `y`.
pub open spec fn spec_blit(display: Seq<u8>, sprite: Seq<u8>, x: u8, y: u8) -> Seq<u8>
    decreases sprite.len(),
{
    if sprite.len() == 0 {
        display
    } else {
        spec_blit_row(
            spec_blit(display, sprite.drop_last(), x, y),
            spec_row_index(x, y, sprite.len() - 1),
            sprite.last(),
            x % 8,
        )
    }
}

/// Whether drawing `sprite` clears at least one pixel that was set.
pub open spec fn spec_erases(display: Seq<u8>, sprite: Seq<u8>, x: u8, y: u8) -> bool
    decreases sprite.len(),
{
    sprite.len() > 0 && (spec_erases(display, sprite.drop_last(), x, y) || spec_row_erases(
        spec_blit(display, sprite.drop_last(), x, y),
        spec_row_index(x, y, sprite.len() - 1),
        sprite.last(),
        x % 8,
    ))
}

/// Whether a sprite of `rows` rows drawn at column `x` of row `y` stays on the display.
pub fn fits(rows: usize, x: u8, y: u8) -> (inside: bool)
    ensures
        inside == spec_fits(rows as int, x, y),
{
    rows == 0 || (rows <= 32 && 64 * (y as usize + rows - 1) + (x as usize) + 7 < 2048)
}

/// An exclusive or never sets more bits than the two operands hold together, and sets
/// fewer exactly where the operands share a set bit.
pub proof fn lemma_xor_count(target: u8, part: u8)
    ensures
        spec_count_ones(target ^ part) <= spec_count_ones(target) + spec_count_ones(part) <= 16,
        spec_count_ones(target ^ part) < spec_count_ones(target) + spec_count_ones(part) <==> target
            & part != 0,
{
    assert(spec_count_ones(target ^ part) <= spec_count_ones(target) + spec_count_ones(part) <= 16
        && (spec_count_ones(target ^ part) < spec_count_ones(target) + spec_count_ones(part)
        <==> target & part != 0)) by (bit_vector);
}

/// Combines `part` into the display byte at `index` by exclusive or. Returns the number of
/// set bits in the byte and in `part` before, and the number in the byte after.
fn blit_byte(display: &mut [u8; 256], index: usize, part: u8) -> (counts: (u32, u32))
    requires
        index < 256,
    ensures
        final(display)@ == old(display)@.update(index as int, old(display)@[index as int] ^ part),
        counts.1 <= counts.0 <= 16,
        counts.1 < counts.0 <==> old(display)@[index as int] & part != 0,
{
    let target: u8 = display[index];
    let before: u32 = part.count_ones() + target.count_ones();
    let mixed: u8 = target ^ part;
    display[index] = mixed;
    let after: u32 = mixed.count_ones();
    proof {
        lemma_xor_count(target, part);
    }
    (before, after)
}

/// Draws `sprite` at column `x` of row `y` and tells whether that cleared a set pixel.
///
/// A display pixel changes exactly where the sprite has a set pixel. The set bits of every
/// byte touched are counted before and after: the count falls exactly where a set pixel
/// was cleared.
pub fn blit(display: &mut [u8; 256], sprite: &[u8], x: u8, y: u8) -> (erased: bool)
    requires
        spec_fits(sprite@.len() as int, x, y),
    ensures
        final(display)@ == spec_blit(old(display)@, sprite@, x, y),
        erased == spec_erases(old(display)@, sprite@, x, y),
        forall|p: int|
            0 <= p < 2048 ==> #[trigger] spec_pixel(final(display)@, p) == (spec_pixel(
                old(display)@,
                p,
            ) != spec_sprite_pixel(sprite@, x, y, p)),
        erased <==> exists|p: int| #[trigger] spec_collides(old(display)@, sprite@, x, y, p),
{
    let offset: u8 = x % 8;
    let column: usize = (x / 8) as usize;
    let mut before: u32 = 0;
    let mut after: u32 = 0;
    let mut row: usize = 0;
    while row < sprite.len()
        invariant
            row <= sprite@.len(),
            spec_fits(sprite@.len() as int, x, y),
            offset == x % 8,
            column == x / 8,
            display@ == spec_blit(old(display)@, sprite@.take(row as int), x, y),
            after <= before <= 32 * row,
            after < before <==> spec_erases(old(display)@, sprite@.take(row as int), x, y),
        decreases sprite@.len() - row,
    {
        let source: u8 = sprite[row];
        let index: usize = 8 * (y as usize + row) + column;
        proof {
            assert(sprite@.take(row + 1).drop_last() =~= sprite@.take(row as int));
        }
        let left = blit_byte(display, index, source >> offset);
        before += left.0;
        after += left.1;
        if offset != 0 {
            let right = blit_byte(display, index + 1, source << (8 - offset));
            before += right.0;
            after += right.1;
        }
        row += 1;
    }
    assert(sprite@.take(row as int) =~= sprite@);
    proof {
        lemma_blit_pixels(old(display)@, sprite@, x, y);
    }
    after < before
}

/// How the pixels of a byte come out of an exclusive or and of the two shifts that split
/// a sprite row over two bytes.
proof fn lemma_bits(target: u8, row: u8, offset: u8, k: u8)
    requires
        offset < 8,
        k < 8,
    ensures
        spec_bit(target ^ row, k) == (spec_bit(target, k) != spec_bit(row, k)),
        spec_bit(row >> offset, k) == (k >= offset && spec_bit(row, (k - offset) as u8)),
        offset != 0 ==> spec_bit(row << ((8 - offset) as u8), k) == (k < offset && spec_bit(
            row,
            (k + 8 - offset) as u8,
        )),
        spec_bit(target, k) && spec_bit(row, k) ==> target & row != 0,
{
    assert(((target ^ row) & (0x80u8 >> k) != 0) == ((target & (0x80u8 >> k) != 0) != (row & (0x80u8
        >> k) != 0))) by (bit_vector)
        requires
            k < 8,
    ;
    assert(((row >> offset) & (0x80u8 >> k) != 0) == (k >= offset && row & (0x80u8 >> ((k
        - offset) as u8)) != 0)) by (bit_vector)
        requires
            k < 8,
            offset < 8,
    ;
    assert(offset != 0 ==> ((row << ((8 - offset) as u8)) & (0x80u8 >> k) != 0) == (k < offset
        && row & (0x80u8 >> ((k + 8 - offset) as u8)) != 0)) by (bit_vector)
        requires
            k < 8,
            offset < 8,
    ;
    assert((target & (0x80u8 >> k) != 0) && (row & (0x80u8 >> k) != 0) ==> target & row != 0)
        by (bit_vector)
        requires
            k < 8,
    ;
}

/// Two bytes that share a set bit share a set pixel.
proof fn lemma_shared_bit(target: u8, part: u8) -> (k: u8)
    requires
        target & part != 0,
    ensures
        k < 8,
        spec_bit(target, k),
        spec_bit(part, k),
{
    assert(target & part != 0 ==> (target & 0x80 != 0 && part & 0x80 != 0) || (target & 0x40 != 0
        && part & 0x40 != 0) || (target & 0x20 != 0 && part & 0x20 != 0) || (target & 0x10 != 0
        && part & 0x10 != 0) || (target & 0x08 != 0 && part & 0x08 != 0) || (target & 0x04 != 0
        && part & 0x04 != 0) || (target & 0x02 != 0 && part & 0x02 != 0) || (target & 0x01 != 0
        && part & 0x01 != 0)) by (bit_vector);
    assert(0x80u8 >> 0u8 == 0x80 && 0x80u8 >> 1u8 == 0x40 && 0x80u8 >> 2u8 == 0x20 && 0x80u8 >> 3u8
        == 0x10 && 0x80u8 >> 4u8 == 0x08 && 0x80u8 >> 5u8 == 0x04 && 0x80u8 >> 6u8 == 0x02 && 0x80u8
        >> 7u8 == 0x01) by (bit_vector);
    if target & 0x80 != 0 && part & 0x80 != 0 {
        0
    } else if target & 0x40 != 0 && part & 0x40 != 0 {
        1
    } else if target & 0x20 != 0 && part & 0x20 != 0 {
        2
    } else if target & 0x10 != 0 && part & 0x10 != 0 {
        3
    } else if target & 0x08 != 0 && part & 0x08 != 0 {
        4
    } else if target & 0x04 != 0 && part & 0x04 != 0 {
        5
    } else if target & 0x02 != 0 && part & 0x02 != 0 {
        6
    } else {
        7
    }
}

/// Two bytes with the same eight pixels are equal.
proof fn lemma_same_bits(a: u8, b: u8)
    requires
        forall|k: u8| k < 8 ==> spec_bit(a, k) == spec_bit(b, k),
    ensures
        a == b,
{
    assert(spec_bit(a, 0) == spec_bit(b, 0));
    assert(spec_bit(a, 1) == spec_bit(b, 1));
    assert(spec_bit(a, 2) == spec_bit(b, 2));
    assert(spec_bit(a, 3) == spec_bit(b, 3));
    assert(spec_bit(a, 4) == spec_bit(b, 4));
    assert(spec_bit(a, 5) == spec_bit(b, 5));
    assert(spec_bit(a, 6) == spec_bit(b, 6));
    assert(spec_bit(a, 7) == spec_bit(b, 7));
    assert(((a & (0x80u8 >> 0u8) != 0) == (b & (0x80u8 >> 0u8) != 0)) && ((a & (0x80u8 >> 1u8) != 0)
        == (b & (0x80u8 >> 1u8) != 0)) && ((a & (0x80u8 >> 2u8) != 0) == (b & (0x80u8 >> 2u8) != 0))
        && ((a & (0x80u8 >> 3u8) != 0) == (b & (0x80u8 >> 3u8) != 0)) && ((a & (0x80u8 >> 4u8) != 0)
        == (b & (0x80u8 >> 4u8) != 0)) && ((a & (0x80u8 >> 5u8) != 0) == (b & (0x80u8 >> 5u8) != 0))
        && ((a & (0x80u8 >> 6u8) != 0) == (b & (0x80u8 >> 6u8) != 0)) && ((a & (0x80u8 >> 7u8) != 0)
        == (b & (0x80u8 >> 7u8) != 0)) ==> a == b) by (bit_vector);
}

proof fn lemma_blit_row_pixel(display: Seq<u8>, index: int, row: u8, offset: u8, p: int)
    requires
        display.len() == 256,
        offset < 8,
        0 <= index,
        index + (if offset == 0 { 0int } else { 1int }) < 256,
        0 <= p < 2048,
    ensures
        spec_blit_row(display, index, row, offset).len() == 256,
        spec_pixel(spec_blit_row(display, index, row, offset), p) == (spec_pixel(display, p)
            != spec_row_pixel(row, 8 * index + offset, p)),
{
    let k = (p % 8) as u8;
    if p / 8 == index {
        lemma_bits(display[index], row >> offset, 0, k);
        lemma_bits(0, row, offset, k);
    } else if p / 8 == index + 1 && offset != 0 {
        lemma_bits(display[index + 1], row << ((8 - offset) as u8), 0, k);
        lemma_bits(0, row, offset, k);
    }
}

proof fn lemma_row_erases(display: Seq<u8>, index: int, row: u8, offset: u8)
    requires
        display.len() == 256,
        offset < 8,
        0 <= index,
        index + (if offset == 0 { 0int } else { 1int }) < 256,
    ensures
        spec_row_erases(display, index, row, offset) <==> exists|p: int|
            0 <= p < 2048 && spec_pixel(display, p) && #[trigger] spec_row_pixel(
                row,
                8 * index + offset,
                p,
            ),
{
    let base = 8 * index + offset;
    if display[index] & (row >> offset) != 0 {
        let k = lemma_shared_bit(display[index], row >> offset);
        lemma_bits(0, row, offset, k);
        let p = 8 * index + k;
        assert(0 <= p < 2048 && spec_pixel(display, p) && spec_row_pixel(row, base, p));
    }
    if offset != 0 && display[index + 1] & (row << ((8 - offset) as u8)) != 0 {
        let k = lemma_shared_bit(display[index + 1], row << ((8 - offset) as u8));
        lemma_bits(0, row, offset, k);
        let p = 8 * (index + 1) + k;
        assert(0 <= p < 2048 && spec_pixel(display, p) && spec_row_pixel(row, base, p));
    }
    if exists|p: int|
        0 <= p < 2048 && spec_pixel(display, p) && #[trigger] spec_row_pixel(row, base, p) {
        let p = choose|p: int|
            0 <= p < 2048 && spec_pixel(display, p) && #[trigger] spec_row_pixel(row, base, p);
        let k = (p % 8) as u8;
        lemma_bits(0, row, offset, k);
        if p / 8 == index {
            lemma_bits(display[index], row >> offset, 0, k);
        } else {
            lemma_bits(display[index + 1], row << ((8 - offset) as u8), 0, k);
        }
    }
}

/// A pixel of a sprite is a pixel of its last row or of the rows before, never of both.
proof fn lemma_sprite_pixel_last(sprite: Seq<u8>, x: u8, y: u8, p: int)
    requires
        sprite.len() > 0,
    ensures
        spec_sprite_pixel(sprite, x, y, p) == (spec_sprite_pixel(sprite.drop_last(), x, y, p)
            || spec_row_pixel(sprite.last(), 64 * (y + sprite.len() - 1) + x, p)),
        !(spec_sprite_pixel(sprite.drop_last(), x, y, p) && spec_row_pixel(
            sprite.last(),
            64 * (y + sprite.len() - 1) + x,
            p,
        )),
{
}

/// What drawing a sprite does, pixel by pixel: a display pixel changes exactly where the
/// sprite has a set pixel, and a set pixel is cleared exactly where both are set.
pub proof fn lemma_blit_pixels(display: Seq<u8>, sprite: Seq<u8>, x: u8, y: u8)
    requires
        display.len() == 256,
        spec_fits(sprite.len() as int, x, y),
    ensures
        spec_blit(display, sprite, x, y).len() == 256,
        forall|p: int|
            0 <= p < 2048 ==> #[trigger] spec_pixel(spec_blit(display, sprite, x, y), p) == (
            spec_pixel(display, p) != spec_sprite_pixel(sprite, x, y, p)),
        spec_erases(display, sprite, x, y) <==> exists|p: int|
            #[trigger] spec_collides(display, sprite, x, y, p),
    decreases sprite.len(),
{
    if sprite.len() == 0 {
    } else {
        let init = sprite.drop_last();
        let i = sprite.len() - 1;
        let mid = spec_blit(display, init, x, y);
        let index = spec_row_index(x, y, i);
        let offset = x % 8;
        let base = 64 * (y + i) + x;
        lemma_blit_pixels(display, init, x, y);
        assert forall|p: int| 0 <= p < 2048 implies #[trigger] spec_pixel(
            spec_blit(display, sprite, x, y),
            p,
        ) == (spec_pixel(display, p) != spec_sprite_pixel(sprite, x, y, p)) by {
            lemma_blit_row_pixel(mid, index, sprite.last(), offset, p);
            lemma_sprite_pixel_last(sprite, x, y, p);
            assert(spec_pixel(mid, p) == (spec_pixel(display, p) != spec_sprite_pixel(
                init,
                x,
                y,
                p,
            )));
        }
        lemma_blit_row_pixel(mid, index, sprite.last(), offset, 0);
        lemma_row_erases(mid, index, sprite.last(), offset);
        if spec_erases(display, init, x, y) {
            let p = choose|p: int| #[trigger] spec_collides(display, init, x, y, p);
            lemma_sprite_pixel_last(sprite, x, y, p);
            assert(spec_collides(display, sprite, x, y, p));
        }
        if spec_row_erases(mid, index, sprite.last(), offset) {
            let p = choose|p: int|
                0 <= p < 2048 && spec_pixel(mid, p) && #[trigger] spec_row_pixel(
                    sprite.last(),
                    base,
                    p,
                );
            lemma_sprite_pixel_last(sprite, x, y, p);
            assert(spec_pixel(mid, p) == (spec_pixel(display, p) != spec_sprite_pixel(
                init,
                x,
                y,
                p,
            )));
            assert(spec_collides(display, sprite, x, y, p));
        }
        if exists|p: int| #[trigger] spec_collides(display, sprite, x, y, p) {
            let p = choose|p: int| #[trigger] spec_collides(display, sprite, x, y, p);
            lemma_sprite_pixel_last(sprite, x, y, p);
            if spec_sprite_pixel(init, x, y, p) {
                assert(spec_collides(display, init, x, y, p));
            } else {
                assert(spec_pixel(mid, p) == (spec_pixel(display, p) != spec_sprite_pixel(
                    init,
                    x,
                    y,
                    p,
                )));
            }
        }
    }
}

/// Two displays with the same 2048 pixels are equal.
proof fn lemma_same_pixels(a: Seq<u8>, b: Seq<u8>)
    requires
        a.len() == 256,
        b.len() == 256,
        forall|p: int| 0 <= p < 2048 ==> #[trigger] spec_pixel(a, p) == spec_pixel(b, p),
    ensures
        a == b,
{
    assert forall|j: int| 0 <= j < 256 implies a[j] == b[j] by {
        assert forall|k: u8| k < 8 implies spec_bit(a[j], k) == spec_bit(b[j], k) by {
            let p = 8 * j + k;
            assert(spec_pixel(a, p) == spec_pixel(b, p));
        }
        lemma_same_bits(a[j], b[j]);
    }
}

/// Drawing the same sprite twice at the same place restores the display.
pub proof fn lemma_blit_twice(display: Seq<u8>, sprite: Seq<u8>, x: u8, y: u8)
    requires
        display.len() == 256,
        spec_fits(sprite.len() as int, x, y),
    ensures
        spec_blit(spec_blit(display, sprite, x, y), sprite, x, y) == display,
{
    let once = spec_blit(display, sprite, x, y);
    lemma_blit_pixels(display, sprite, x, y);
    lemma_blit_pixels(once, sprite, x, y);
    let twice = spec_blit(once, sprite, x, y);
    assert forall|p: int| 0 <= p < 2048 implies #[trigger] spec_pixel(twice, p) == spec_pixel(
        display,
        p,
    ) by {
        assert(spec_pixel(once, p) == (spec_pixel(display, p) != spec_sprite_pixel(
            sprite,
            x,
            y,
            p,
        )));
    }
    lemma_same_pixels(twice, display);
}

/// A sprite drawn where none of its pixels is set on the display clears no pixel; drawn
/// there again it clears one, where it has a set pixel at all.
pub proof fn lemma_blit_collision(display: Seq<u8>, sprite: Seq<u8>, x: u8, y: u8)
    requires
        display.len() == 256,
        spec_fits(sprite.len() as int, x, y),
        forall|p: int| 0 <= p < 2048 && spec_sprite_pixel(sprite, x, y, p) ==> !#[trigger] spec_pixel(display, p),
    ensures
        !spec_erases(display, sprite, x, y),
        (exists|i: int| 0 <= i < sprite.len() && #[trigger] sprite[i] != 0) ==> spec_erases(
            spec_blit(display, sprite, x, y),
            sprite,
            x,
            y,
        ),
{
    let once = spec_blit(display, sprite, x, y);
    lemma_blit_pixels(display, sprite, x, y);
    lemma_blit_pixels(once, sprite, x, y);
    if spec_erases(display, sprite, x, y) {
        let p = choose|p: int| #[trigger] spec_collides(display, sprite, x, y, p);
        assert(!spec_pixel(display, p));
    }
    if exists|i: int| 0 <= i < sprite.len() && #[trigger] sprite[i] != 0 {
        let i = choose|i: int| 0 <= i < sprite.len() && #[trigger] sprite[i] != 0;
        let row = sprite[i];
        assert(row & row != 0) by (bit_vector)
            requires
                row != 0,
        ;
        let k = lemma_shared_bit(row, row);
        let p = 64 * (y + i) + x + k;
        assert(spec_pixel(once, p) == (spec_pixel(display, p) != spec_sprite_pixel(
            sprite,
            x,
            y,
            p,
        )));
        assert(spec_collides(once, sprite, x, y, p));
    }
}

} // verus!
