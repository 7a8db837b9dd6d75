//! The pixel-painting algorithm: a horizontal white bar on a black field,
//! written row by row into a stride-padded 4-byte-pixel memory region.

use vstd::prelude::*;

use vstd::arithmetic::div_mod::{
    lemma_div_is_ordered, lemma_div_multiples_vanish, lemma_div_pos_is_pos,
    lemma_fundamental_div_mod, lemma_fundamental_div_mod_converse, lemma_mod_bound,
    lemma_mod_multiples_vanish, lemma_small_mod,
};
use vstd::arithmetic::mul::{
    lemma_mul_inequality, lemma_mul_is_commutative, lemma_mul_is_distributive_add_other_way,
};

use crate::buffer::Buffer;
use crate::errors::SourceError;
use crate::settings::Settings;
use crate::video::VideoFormat;

verus! {

/// Whether row `row` lies inside the bar that starts at `offset` and is
/// `bar` rows tall.
pub open spec fn in_bar(row: int, offset: u32, bar: u32) -> bool {
    offset <= row < offset + bar
}

/// The value painted into the three color channels of every pixel of row
/// `row`: full white inside the bar, full black outside.
pub open spec fn bar_byte(row: int, offset: u32, bar: u32) -> u8 {
    if in_bar(row, offset, bar) {
        0xffu8
    } else {
        0x00u8
    }
}

/// The frame bytes after the painter has finished every row before `row`
/// and the first `px` pixels of row `row` itself.
///
/// A byte is painted when it lies in a finished part, within the first
/// `width` pixels of its row, and is not the fourth (alpha/pad) channel of
/// its pixel; every other byte keeps its previous value.
pub open spec fn painted_upto(
    data: Seq<u8>,
    stride: int,
    width: int,
    offset: u32,
    bar: u32,
    row: int,
    px: int,
) -> Seq<u8> {
    Seq::new(
        data.len(),
        |i: int|
            if (i / stride < row || (i / stride == row && i % stride < 4 * px)) && i % stride < 4
                * width && (i % stride) % 4 != 3 {
                bar_byte(i / stride, offset, bar)
            } else {
                data[i]
            },
    )
}

/// The frame bytes after `rows` full rows have been painted.
pub open spec fn painted(
    data: Seq<u8>,
    stride: int,
    width: int,
    offset: u32,
    bar: u32,
    rows: int,
) -> Seq<u8> {
    painted_upto(data, stride, width, offset, bar, rows, 0)
}

/// How many rows a writable view of `len` bytes exposes: one per full
/// stride, but never more than the frame is tall.
pub open spec fn rows_in_view(len: int, stride: int, height: int) -> int {
    if len / stride <= height {
        len / stride
    } else {
        height
    }
}

proof fn lemma_painted_upto_zero(data: Seq<u8>, stride: int, width: int, offset: u32, bar: u32)
    requires
        stride >= 1,
    ensures
        painted_upto(data, stride, width, offset, bar, 0, 0) == data,
{
    assert forall|i: int| 0 <= i < data.len() implies painted_upto(
        data,
        stride,
        width,
        offset,
        bar,
        0,
        0,
    )[i] == data[i] by {
        lemma_div_pos_is_pos(i, stride);
        lemma_mod_bound(i, stride);
    }
    assert(painted_upto(data, stride, width, offset, bar, 0, 0) =~= data);
}

/// Painting the three color channels of pixel `px` of row `row` moves the
/// partial-paint state forward by one pixel.
proof fn lemma_paint_pixel(
    data: Seq<u8>,
    stride: int,
    width: int,
    offset: u32,
    bar: u32,
    row: int,
    px: int,
)
    requires
        stride >= 1,
        4 * width <= stride,
        0 <= row,
        0 <= px < width,
        row * stride + stride <= data.len(),
    ensures
        ({
            let b = bar_byte(row, offset, bar);
            let idx = row * stride + 4 * px;
            painted_upto(data, stride, width, offset, bar, row, px).update(idx, b).update(
                idx + 1,
                b,
            ).update(idx + 2, b) == painted_upto(data, stride, width, offset, bar, row, px + 1)
        }),
{
    let b = bar_byte(row, offset, bar);
    let idx = row * stride + 4 * px;
    let lhs = painted_upto(data, stride, width, offset, bar, row, px).update(idx, b).update(
        idx + 1,
        b,
    ).update(idx + 2, b);
    let rhs = painted_upto(data, stride, width, offset, bar, row, px + 1);
    assert(4 * (px + 1) <= 4 * width) by {
        lemma_mul_inequality(px + 1, width, 4);
    }
    assert forall|i: int| 0 <= i < data.len() implies lhs[i] == rhs[i] by {
        lemma_fundamental_div_mod(i, stride);
        lemma_mod_bound(i, stride);
        let r = i / stride;
        let c = i % stride;
        if i == idx || i == idx + 1 || i == idx + 2 {
            let k = i - idx;
            lemma_fundamental_div_mod_converse(i, stride, row, 4 * px + k);
            lemma_mod_multiples_vanish(px, k, 4);
            lemma_small_mod(k as nat, 4nat);
            assert(c == 4 * px + k && r == row && c % 4 == k);
            assert(rhs[i] == b);
            assert(lhs[i] == b);
        } else {
            if r == row && 4 * px <= c < 4 * px + 4 {
                let k = c - 4 * px;
                lemma_mod_multiples_vanish(px, k, 4);
                lemma_small_mod(k as nat, 4nat);
                assert(c % 4 == k);
                lemma_mul_is_commutative(stride, row);
                assert(i == idx + k);
                assert(k == 3);
            }
            assert(lhs[i] == rhs[i]);
        }
    }
    assert(lhs =~= rhs);
}

/// Finishing the last pixel of a row is the same state as standing at the
/// start of the next row.
proof fn lemma_paint_row_step(
    data: Seq<u8>,
    stride: int,
    width: int,
    offset: u32,
    bar: u32,
    row: int,
)
    requires
        stride >= 1,
        0 <= width,
        4 * width <= stride,
        0 <= row,
    ensures
        painted_upto(data, stride, width, offset, bar, row, width) == painted_upto(
            data,
            stride,
            width,
            offset,
            bar,
            row + 1,
            0,
        ),
{
    let lhs = painted_upto(data, stride, width, offset, bar, row, width);
    let rhs = painted_upto(data, stride, width, offset, bar, row + 1, 0);
    assert forall|i: int| 0 <= i < data.len() implies lhs[i] == rhs[i] by {
        lemma_mod_bound(i, stride);
    }
    assert(lhs =~= rhs);
}

/// Paints the test pattern into a writable region of row length `stride`
/// bytes, `width` payload pixels per row, and as many rows as the region
/// holds (but no more than the negotiated frame height), then advances the
/// bar offset by `speed` modulo the frame height.
///
/// Every byte of the result is pinned: the three color channels of each
/// painted pixel carry the bar color of their row, and every other byte —
/// the fourth channel, row padding beyond `width` pixels, and any trailing
/// partial row — keeps its previous value.
pub fn make_image(data: &mut Vec<u8>, stride: usize, width: usize, settings: &mut Settings)
    requires
        old(settings).wf(),
        old(settings).info is Some,
        1 <= stride,
        4 * width <= stride,
    ensures
        *final(settings) == old(settings).advanced(),
        final(settings).offset < old(settings).info->Some_0.height,
        final(data)@ == painted(
            old(data)@,
            stride as int,
            width as int,
            old(settings).offset,
            old(settings).size,
            rows_in_view(
                old(data)@.len() as int,
                stride as int,
                old(settings).info->Some_0.height as int,
            ),
        ),
{
    let ghost orig: Seq<u8> = data@;
    let ghost s0: Settings = *settings;
    let info = settings.info.unwrap();
    let height: u32 = info.height;
    let len: usize = data.len();
    let total_rows: usize = len / stride;
    let nrows: usize = if total_rows <= height as usize {
        total_rows
    } else {
        height as usize
    };
    proof {
        lemma_painted_upto_zero(orig, stride as int, width as int, s0.offset, s0.size);
        lemma_div_pos_is_pos(len as int, stride as int);
        assert(nrows as int == rows_in_view(len as int, stride as int, height as int));
    }
    let mut r: usize = 0;
    while r < nrows
        invariant
            r <= nrows,
            nrows as int <= (len as int) / (stride as int),
            1 <= stride,
            4 * width <= stride,
            len == orig.len(),
            data@.len() == len,
            *settings == s0,
            data@ == painted_upto(
                orig,
                stride as int,
                width as int,
                s0.offset,
                s0.size,
                r as int,
                0,
            ),
        decreases nrows - r,
    {
        proof {
            lemma_mul_inequality((r + 1) as int, (len as int) / (stride as int), stride as int);
            lemma_fundamental_div_mod(len as int, stride as int);
            lemma_mod_bound(len as int, stride as int);
            lemma_mul_is_distributive_add_other_way(stride as int, r as int, 1);
            assert((r as int) * (stride as int) + stride <= len as int);
        }
        let base: usize = r * stride;
        let mut px: usize = 0;
        while px < width
            invariant
                px <= width,
                base == r * stride,
                base + stride <= len,
                1 <= stride,
                4 * width <= stride,
                len == orig.len(),
                data@.len() == len,
                *settings == s0,
                data@ == painted_upto(
                    orig,
                    stride as int,
                    width as int,
                    s0.offset,
                    s0.size,
                    r as int,
                    px as int,
                ),
            decreases width - px,
        {
            proof {
                lemma_mul_inequality((px + 1) as int, width as int, 4);
                assert(4 * (px as int) + 2 < stride);
            }
            let idx: usize = base + 4 * px;
            let white: bool = (r as u64) >= (settings.offset as u64) && (r as u64) < (
            settings.offset as u64) + (settings.size as u64);
            let v: u8 = if white {
                0xff
            } else {
                0x00
            };
            data[idx] = v;
            data[idx + 1] = v;
            data[idx + 2] = v;
            proof {
                assert(v == bar_byte(r as int, s0.offset, s0.size));
                lemma_paint_pixel(
                    orig,
                    stride as int,
                    width as int,
                    s0.offset,
                    s0.size,
                    r as int,
                    px as int,
                );
            }
            px = px + 1;
        }
        proof {
            lemma_paint_row_step(orig, stride as int, width as int, s0.offset, s0.size, r as int);
        }
        r = r + 1;
    }
    let off64: u64 = settings.offset as u64;
    let sp64: u64 = settings.speed as u64;
    let h64: u64 = height as u64;
    let next: u64 = (off64 + sp64) % h64;
    proof {
        lemma_mod_bound((off64 + sp64) as int, h64 as int);
    }
    settings.offset = next as u32;
}

/// Fills a buffer's payload with the current pattern, as the per-request
/// fill path does: refuses with `NotNegotiated` when no usable format
/// descriptor is stored; paints when the payload is large enough for the
/// negotiated layout; and deliberately treats a too-small payload as a
/// logged no-op rather than an error, so the pipeline keeps flowing.
pub fn fill_image(buffer: &mut Buffer, settings: &mut Settings) -> (r: Result<(), SourceError>)
    requires
        old(settings).wf(),
    ensures
        final(settings).wf(),
        r is Err <==> (old(settings).info is None || old(settings).info->Some_0.format
            == VideoFormat::Unknown),
        r is Err ==> r == Result::<(), SourceError>::Err(SourceError::NotNegotiated)
            && *final(settings) == *old(settings) && *final(buffer) == *old(buffer),
        r is Ok ==> ({
            let i = old(settings).info->Some_0;
            if old(buffer).data@.len() >= i.size_bytes() {
                &&& *final(settings) == old(settings).advanced()
                &&& final(buffer).data@ == painted(
                    old(buffer).data@,
                    i.stride(),
                    i.width as int,
                    old(settings).offset,
                    old(settings).size,
                    i.height as int,
                )
                &&& *final(buffer) == (Buffer { data: final(buffer).data, ..*old(buffer) })
            } else {
                *final(settings) == *old(settings) && *final(buffer) == *old(buffer)
            }
        }),
{
    let info_opt: Option<crate::video::VideoInfo> = settings.info;
    match info_opt {
        None => Err(SourceError::NotNegotiated),
        Some(info) => {
            if info.format == VideoFormat::Unknown {
                return Err(SourceError::NotNegotiated);
            }
            let size: u64 = info.frame_size();
            if (buffer.data.len() as u64) >= size {
                proof {
                    assert(1 * (4 * info.width as int) <= (info.height as int) * (4
                        * info.width as int)) by {
                        lemma_mul_inequality(1, info.height as int, 4 * info.width as int);
                    }
                    assert((info.height as int) * (4 * info.width as int)
                        == info.size_bytes()) by (nonlinear_arith);
                    assert(4 * (info.width as int) <= old(buffer).data@.len());
                }
                let stride: usize = (info.width as usize) * 4;
                let ghost len = buffer.data@.len() as int;
                make_image(&mut buffer.data, stride, info.width as usize, settings);
                proof {
                    assert((stride as int) * (info.height as int) == info.size_bytes())
                        by (nonlinear_arith)
                        requires stride as int == 4 * info.width as int;
                    lemma_div_is_ordered(
                        (stride as int) * (info.height as int),
                        len,
                        stride as int,
                    );
                    lemma_div_multiples_vanish(info.height as int, stride as int);
                    assert(rows_in_view(len, stride as int, info.height as int)
                        == info.height as int);
                }
            }
            Ok(())
        },
    }
}

} // verus!
