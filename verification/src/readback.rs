//! Layout of the frame read-back: row pitch, staging size, and de-padding.

use vstd::prelude::*;

verus! {

/// Bytes of one RGBA8 pixel.
pub const BYTES_PER_PIXEL: u32 = 4;

/// Alignment that the device demands of the row pitch of a texture-to-buffer copy.
pub const COPY_BYTES_PER_ROW_ALIGNMENT: u32 = 256;

/// Largest target width whose padded row pitch still fits in 32 bits.
pub const MAX_TARGET_WIDTH: u32 = 0x3fff_ffc0;

/// Bytes of one row of `width` pixels, without padding.
pub open spec fn row_bytes(width: u32) -> int {
    BYTES_PER_PIXEL * width
}

/// The least multiple of the copy alignment that holds one row of `width` pixels.
pub open spec fn padded_row_pitch(width: u32) -> int {
    ((row_bytes(width) + COPY_BYTES_PER_ROW_ALIGNMENT - 1) / (COPY_BYTES_PER_ROW_ALIGNMENT as int))
        * COPY_BYTES_PER_ROW_ALIGNMENT
}

/// Bytes of the staging buffer that receives `height` rows at the padded pitch.
pub open spec fn staging_len(width: u32, height: u32) -> int {
    padded_row_pitch(width) * height
}

/// Byte `c` of row `r` of a buffer whose rows start `pitch` bytes apart.
pub open spec fn padded_byte(mapped: Seq<u8>, pitch: int, r: int, c: int) -> u8 {
    mapped[r * pitch + c]
}

/// The rows of a padded buffer laid end to end: of each of the first `rows`
/// rows, which start `pitch` bytes apart, the first `row` bytes.
pub open spec fn unpadded(mapped: Seq<u8>, row: int, pitch: int, rows: int) -> Seq<u8>
    decreases rows,
{
    if rows <= 0 {
        Seq::empty()
    } else {
        unpadded(mapped, row, pitch, rows - 1) + mapped.subrange(
            (rows - 1) * pitch,
            (rows - 1) * pitch + row,
        )
    }
}

/// Computes the row pitch of the copy from the colour target into the staging buffer.
pub fn bytes_per_row(width: u32) -> (pitch: u32)
    requires
        width <= MAX_TARGET_WIDTH,
    ensures
        pitch == padded_row_pitch(width),
        pitch % COPY_BYTES_PER_ROW_ALIGNMENT == 0,
        row_bytes(width) <= pitch < row_bytes(width) + COPY_BYTES_PER_ROW_ALIGNMENT,
{
    let unpadded: u32 = BYTES_PER_PIXEL * width;
    let blocks: u32 = (unpadded + (COPY_BYTES_PER_ROW_ALIGNMENT - 1)) / COPY_BYTES_PER_ROW_ALIGNMENT;
    blocks * COPY_BYTES_PER_ROW_ALIGNMENT
}

/// Computes the size of the staging buffer for a target of the given size.
pub fn staging_size(width: u32, height: u32) -> (size: u64)
    requires
        width <= MAX_TARGET_WIDTH,
    ensures
        size == staging_len(width, height),
{
    let pitch: u64 = bytes_per_row(width) as u64;
    assert(pitch * height <= 0xffff_ffff * 0xffff_ffff) by (nonlinear_arith)
        requires
            pitch <= 0xffff_ffff,
            height <= 0xffff_ffff,
    ;
    pitch * (height as u64)
}

/// Strips the row padding from a mapped staging buffer.
///
/// Gives the dense pixel grid where the target size is in range and the
/// buffer has the staging size for it, and `None` otherwise.
pub fn unpad_rows(mapped: &Vec<u8>, width: u32, height: u32) -> (dense: Option<Vec<u8>>)
    ensures
        dense is Some <==> width <= MAX_TARGET_WIDTH && mapped@.len() == staging_len(width, height),
        dense matches Some(pixels) ==> {
            &&& pixels@ == unpadded(
                mapped@,
                row_bytes(width),
                padded_row_pitch(width),
                height as int,
            )
            &&& pixels@.len() == row_bytes(width) * height
        },
{
    if width > MAX_TARGET_WIDTH {
        return None;
    }
    if mapped.len() as u64 != staging_size(width, height) {
        return None;
    }
    let pitch: usize = bytes_per_row(width) as usize;
    let row: usize = (BYTES_PER_PIXEL * width) as usize;
    let rows: usize = height as usize;
    let mut pixels: Vec<u8> = Vec::new();
    let mut r: usize = 0;
    let mut start: usize = 0;
    while r < rows
        invariant
            r <= rows,
            rows == height,
            row == row_bytes(width),
            pitch == padded_row_pitch(width),
            row <= pitch,
            mapped@.len() == pitch * rows,
            mapped@.len() <= usize::MAX,
            start == r * pitch,
            pixels@ == unpadded(mapped@, row as int, pitch as int, r as int),
            pixels@.len() == row * r,
        decreases rows - r,
    {
        proof {
            assert((r + 1) * pitch <= rows * pitch) by (nonlinear_arith)
                requires
                    r + 1 <= rows,
            ;
            assert((r + 1) * pitch == r * pitch + pitch) by (nonlinear_arith);
            assert(row * (r + 1) == row * r + row) by (nonlinear_arith);
        }
        let ghost before = pixels@;
        let mut c: usize = 0;
        while c < row
            invariant
                c <= row,
                row <= pitch,
                start + pitch <= mapped@.len(),
                mapped@.len() <= usize::MAX,
                pixels@ == before + mapped@.subrange(start as int, start + c),
            decreases row - c,
        {
            pixels.push(mapped[start + c]);
            assert(pixels@ =~= before + mapped@.subrange(start as int, start + c + 1));
            c += 1;
        }
        start += pitch;
        r += 1;
    }
    Some(pixels)
}

/// De-padding keeps every pixel byte in its place: byte `c` of row `r` of the
/// dense grid is byte `c` of row `r` of the padded buffer.
pub proof fn lemma_unpadded_index(mapped: Seq<u8>, row: int, pitch: int, rows: int, r: int, c: int)
    requires
        0 <= row <= pitch,
        0 <= rows,
        rows * pitch <= mapped.len(),
        0 <= r < rows,
        0 <= c < row,
    ensures
        unpadded(mapped, row, pitch, rows).len() == rows * row,
        0 <= r * row + c < rows * row,
        0 <= r * pitch + c < mapped.len(),
        unpadded(mapped, row, pitch, rows)[r * row + c] == padded_byte(mapped, pitch, r, c),
    decreases rows,
{
    assert((rows - 1) * row + row == rows * row) by (nonlinear_arith);
    assert((rows - 1) * pitch + pitch == rows * pitch) by (nonlinear_arith);
    assert(0 <= (rows - 1) * pitch) by (nonlinear_arith)
        requires
            rows >= 1,
            pitch >= 0,
    ;
    lemma_unpadded_len(mapped, row, pitch, rows);
    lemma_unpadded_len(mapped, row, pitch, rows - 1);
    if r == rows - 1 {
        assert(0 <= r * row) by (nonlinear_arith)
            requires
                r >= 0,
                row >= 0,
        ;
    } else {
        assert(rows - 1 >= 1);
        assert((rows - 1) * pitch <= rows * pitch) by (nonlinear_arith)
            requires
                pitch >= 0,
        ;
        lemma_unpadded_index(mapped, row, pitch, rows - 1, r, c);
    }
}

/// The dense grid holds `row` bytes for each of the rows.
pub proof fn lemma_unpadded_len(mapped: Seq<u8>, row: int, pitch: int, rows: int)
    requires
        0 <= row <= pitch,
        0 <= rows,
        rows * pitch <= mapped.len(),
    ensures
        unpadded(mapped, row, pitch, rows).len() == rows * row,
    decreases rows,
{
    if rows > 0 {
        assert((rows - 1) * pitch + pitch == rows * pitch) by (nonlinear_arith);
        assert((rows - 1) * row + row == rows * row) by (nonlinear_arith);
        assert(0 <= (rows - 1) * pitch) by (nonlinear_arith)
            requires
                rows >= 1,
                pitch >= 0,
        ;
        lemma_unpadded_len(mapped, row, pitch, rows - 1);
    } else {
        assert(rows * row == 0) by (nonlinear_arith)
            requires
                rows == 0,
        ;
    }
}

/// Where the rows are not padded, de-padding changes nothing.
pub proof fn lemma_unpadded_of_dense(mapped: Seq<u8>, row: int, rows: int)
    requires
        0 <= row,
        0 <= rows,
        mapped.len() == rows * row,
    ensures
        unpadded(mapped, row, row, rows) == mapped,
{
    lemma_unpadded_len(mapped, row, row, rows);
    assert forall|i: int| 0 <= i < mapped.len() implies unpadded(mapped, row, row, rows)[i]
        == mapped[i] by {
        assert(row > 0) by (nonlinear_arith)
            requires
                0 <= i < rows * row,
                0 <= row,
                0 <= rows,
        ;
        let r = i / row;
        let c = i % row;
        assert(i == r * row + c && 0 <= c < row && 0 <= r) by (nonlinear_arith)
            requires
                r == i / row,
                c == i % row,
                row > 0,
                i >= 0,
        ;
        assert(r < rows) by (nonlinear_arith)
            requires
                i == r * row + c,
                0 <= c,
                i < rows * row,
                row > 0,
        ;
        lemma_unpadded_index(mapped, row, row, rows, r, c);
    }
    assert(unpadded(mapped, row, row, rows) =~= mapped);
}

/// The row pitch of every width in range is a multiple of the copy alignment,
/// holds a whole row, and is the least such number; a width whose row is
/// already aligned is not padded.
pub proof fn lemma_row_pitch(width: u32)
    requires
        width <= MAX_TARGET_WIDTH,
    ensures
        padded_row_pitch(width) % (COPY_BYTES_PER_ROW_ALIGNMENT as int) == 0,
        row_bytes(width) <= padded_row_pitch(width) < row_bytes(width)
            + COPY_BYTES_PER_ROW_ALIGNMENT,
        padded_row_pitch(width) <= u32::MAX,
        row_bytes(width) % (COPY_BYTES_PER_ROW_ALIGNMENT as int) == 0 ==> padded_row_pitch(width)
            == row_bytes(width),
{
}

/// The staging buffer holds at least the dense frame, and exactly the dense
/// frame, four bytes for each pixel, where the row is already aligned.
pub proof fn lemma_staging_len(width: u32, height: u32)
    requires
        width <= MAX_TARGET_WIDTH,
    ensures
        staging_len(width, height) >= BYTES_PER_PIXEL * width * height,
        staging_len(width, height) <= u64::MAX,
        row_bytes(width) % (COPY_BYTES_PER_ROW_ALIGNMENT as int) == 0 ==> staging_len(width, height)
            == BYTES_PER_PIXEL * width * height,
{
    lemma_row_pitch(width);
    let pitch = padded_row_pitch(width);
    let row = row_bytes(width);
    assert(row * height <= pitch * height) by (nonlinear_arith)
        requires
            row <= pitch,
            height >= 0,
    ;
    assert(BYTES_PER_PIXEL * width * height == row * height) by (nonlinear_arith)
        requires
            row == BYTES_PER_PIXEL * width,
    ;
    assert(pitch * height <= 0xffff_ffff * 0xffff_ffff) by (nonlinear_arith)
        requires
            0 <= pitch <= 0xffff_ffff,
            0 <= height <= 0xffff_ffff,
    ;
}

} // verus!
