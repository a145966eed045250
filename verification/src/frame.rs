//! The commands of a frame.

use vstd::prelude::*;
use crate::object::ObjectView;
use crate::pipeline::IndexFormat;
use crate::readback::padded_row_pitch;

verus! {

/// A colour of four 8-bit channels, alpha not premultiplied.
#[derive(Clone, Copy, Debug, PartialEq, Eq)]
pub struct Rgba8 {
    pub r: u8,
    pub g: u8,
    pub b: u8,
    pub a: u8,
}

/// One step of a frame, in the order in which the steps are recorded and run.
#[derive(Clone, Copy, Debug, PartialEq, Eq)]
pub enum Command {
    /// Begin the render pass on the colour target, clearing it to `clear` and keeping what is drawn.
    BeginRenderPass { clear: Rgba8 },
    /// Bind the pipeline of the registered object `object`.
    SetPipeline { object: usize },
    /// Bind the bind group of `object` at `slot`.
    SetBindGroup { slot: u32, object: usize },
    /// Bind the whole vertex buffer of `object` at `slot`.
    SetVertexBuffer { slot: u32, object: usize },
    /// Bind the whole index buffer of `object`, read in `format`.
    SetIndexBuffer { object: usize, format: IndexFormat },
    /// Draw the indices from `first_index` up to `end_index`, each raised by
    /// `base_vertex`, for the instances from `first_instance` up to `end_instance`.
    DrawIndexed {
        first_index: u32,
        end_index: u32,
        base_vertex: i32,
        first_instance: u32,
        end_instance: u32,
    },
    /// End the render pass.
    EndRenderPass,
    /// Copy the whole colour target into the staging buffer from offset 0,
    /// rows `bytes_per_row` apart.
    CopyTextureToBuffer { width: u32, height: u32, bytes_per_row: u32, rows_per_image: u32 },
    /// Submit what was recorded to the queue.
    Submit,
    /// Ask for the staging buffer to be mapped for reading, wait while driving
    /// the device until it reports, and copy the mapped bytes out.
    MapStagingBuffer,
    /// Unmap the staging buffer, whose bytes have been copied out.
    UnmapStagingBuffer,
}

/// Fully transparent black.
pub open spec fn transparent_black() -> Rgba8 {
    Rgba8 { r: 0, g: 0, b: 0, a: 0 }
}

/// The commands that draw the object registered at `index`: bind its
/// pipeline, its bind group at slot 0, its vertex buffer at slot 0 and its
/// index buffer of 16-bit indices, then draw its whole index range, one instance.
pub open spec fn draw_commands(index: int, object: ObjectView) -> Seq<Command> {
    seq![
        Command::SetPipeline { object: index as usize },
        Command::SetBindGroup { slot: 0, object: index as usize },
        Command::SetVertexBuffer { slot: 0, object: index as usize },
        Command::SetIndexBuffer { object: index as usize, format: IndexFormat::Uint16 },
        Command::DrawIndexed {
            first_index: 0,
            end_index: object.num_indices,
            base_vertex: 0,
            first_instance: 0,
            end_instance: 1,
        },
    ]
}

/// The draws of all objects, in the order of the list.
pub open spec fn draws(objects: Seq<ObjectView>) -> Seq<Command>
    decreases objects.len(),
{
    if objects.len() == 0 {
        Seq::empty()
    } else {
        draws(objects.drop_last()) + draw_commands(objects.len() - 1, objects.last())
    }
}

/// The copy of a target of the given size into the staging buffer.
pub open spec fn copy_command(width: u32, height: u32) -> Command {
    Command::CopyTextureToBuffer {
        width,
        height,
        bytes_per_row: padded_row_pitch(width) as u32,
        rows_per_image: height,
    }
}

/// Each object contributes five commands to the draws, and those of the
/// object at `i` stand at the place of `i` in the list.
pub proof fn lemma_draws_at(objects: Seq<ObjectView>, i: int)
    requires
        0 <= i < objects.len(),
    ensures
        draws(objects).len() == 5 * objects.len(),
        draws(objects).subrange(5 * i, 5 * i + 5) == draw_commands(i, objects[i]),
    decreases objects.len(),
{
    lemma_draws_len(objects);
    lemma_draws_len(objects.drop_last());
    if i == objects.len() - 1 {
        assert(draws(objects).subrange(5 * i, 5 * i + 5) =~= draw_commands(i, objects[i]));
    } else {
        lemma_draws_at(objects.drop_last(), i);
        assert(draws(objects).subrange(5 * i, 5 * i + 5) =~= draws(objects.drop_last()).subrange(
            5 * i,
            5 * i + 5,
        ));
    }
}

/// The draws hold five commands for each object.
pub proof fn lemma_draws_len(objects: Seq<ObjectView>)
    ensures
        draws(objects).len() == 5 * objects.len(),
    decreases objects.len(),
{
    if objects.len() > 0 {
        lemma_draws_len(objects.drop_last());
    }
}

} // verus!
