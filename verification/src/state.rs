//! The render session: the colour target, the staging buffer, the registered
//! objects, the frame that draws them and the read-back of its pixels.

use vstd::prelude::*;
use crate::buffer::{BufferDescriptor, BufferUsages};
use crate::frame::{
    copy_command, draw_commands, draws, lemma_draws_at, lemma_draws_len, transparent_black,
    Command, Rgba8,
};
use crate::mapping::{MapOutcome, ReadbackError};
use crate::object::{Object, ObjectView};
use crate::pipeline::IndexFormat;
use crate::readback::{
    bytes_per_row, lemma_row_pitch, lemma_staging_len, lemma_unpadded_index, padded_byte,
    padded_row_pitch, row_bytes, staging_len, staging_size, unpad_rows, unpadded, BYTES_PER_PIXEL,
    COPY_BYTES_PER_ROW_ALIGNMENT, MAX_TARGET_WIDTH,
};
use crate::texture::{
    Image, ImageView, TextureDescriptor, TextureDimension, TextureFormat, TextureUsages,
};

verus! {

/// The colour target of a session: one 2D RGBA8 sRGB image that is drawn into and copied from.
pub open spec fn color_target(width: u32, height: u32) -> TextureDescriptor {
    TextureDescriptor {
        width,
        height,
        depth_or_array_layers: 1,
        mip_level_count: 1,
        sample_count: 1,
        dimension: TextureDimension::D2,
        format: TextureFormat::Rgba8UnormSrgb,
        usage: TextureUsages {
            copy_src: true,
            copy_dst: false,
            texture_binding: false,
            render_attachment: true,
        },
    }
}

/// The staging buffer of a session: it receives the copy of the target and is
/// mapped for reading, and holds exactly the rows of the target at the padded pitch.
pub open spec fn staging_buffer(width: u32, height: u32) -> BufferDescriptor {
    BufferDescriptor {
        size: staging_len(width, height) as u64,
        usage: BufferUsages { map_read: true, copy_dst: true, vertex: false, index: false },
        mapped_at_creation: false,
    }
}

/// The values of a list of objects.
pub open spec fn object_views(objects: Seq<Object>) -> Seq<ObjectView> {
    Seq::new(objects.len(), |i: int| objects[i]@)
}

/// The mathematical value of a [`State`].
pub struct StateView {
    pub width: u32,
    pub height: u32,
    /// The registered objects, in registration order, which is the order in
    /// which they are drawn: a later object is painted over an earlier one.
    pub objects: Seq<ObjectView>,
}

impl StateView {
    /// Every registered object is complete.
    pub open spec fn is_ready(self) -> bool {
        forall|i: int| 0 <= i < self.objects.len() ==> (#[trigger] self.objects[i]).is_complete()
    }

    /// The commands of one frame: one render pass that clears the target to
    /// transparent black and draws the objects in registration order, then the
    /// copy into the staging buffer, the submission, the mapping, and the unmapping.
    pub open spec fn frame(self) -> Seq<Command> {
        seq![Command::BeginRenderPass { clear: transparent_black() }] + draws(self.objects) + seq![
            Command::EndRenderPass,
            copy_command(self.width, self.height),
            Command::Submit,
            Command::MapStagingBuffer,
            Command::UnmapStagingBuffer,
        ]
    }

    /// The frame that the mapped bytes of the staging buffer hold: its rows without their padding.
    pub open spec fn image_of(self, mapped: Seq<u8>) -> ImageView {
        ImageView {
            pixels: unpadded(
                mapped,
                row_bytes(self.width),
                padded_row_pitch(self.width),
                self.height as int,
            ),
            width: self.width,
            height: self.height,
        }
    }

    /// What a frame comes to, given how the mapping ended.
    pub open spec fn outcome(self, outcome: MapOutcome) -> Result<ImageView, ReadbackError> {
        match outcome {
            MapOutcome::Mapped(bytes) => if bytes@.len() == staging_len(self.width, self.height) {
                Ok(self.image_of(bytes@))
            } else {
                Err(ReadbackError::SizeMismatch)
            },
            MapOutcome::Failed => Err(ReadbackError::MapFailed),
            MapOutcome::Lost => Err(ReadbackError::DeviceLost),
            MapOutcome::TimedOut => Err(ReadbackError::Timeout),
        }
    }
}

/// A render session: a colour target of fixed size, the staging buffer that
/// matches it, and the objects to draw.
#[derive(Debug)]
pub struct State {
    width: u32,
    height: u32,
    texture: TextureDescriptor,
    output_buffer: BufferDescriptor,
    objects: Vec<Object>,
}

impl View for State {
    type V = StateView;

    closed spec fn view(&self) -> StateView {
        StateView {
            width: self.width,
            height: self.height,
            objects: object_views(self.objects@),
        }
    }
}

impl State {
    #[verifier::type_invariant]
    spec fn well_formed(self) -> bool {
        &&& 0 < self.width <= MAX_TARGET_WIDTH
        &&& 0 < self.height
        &&& self.texture == color_target(self.width, self.height)
        &&& self.output_buffer == staging_buffer(self.width, self.height)
    }

    /// Opens a session on a target of the given size, with no objects.
    pub fn new(width: u32, height: u32) -> (state: State)
        requires
            0 < width <= MAX_TARGET_WIDTH,
            0 < height,
        ensures
            state@ == (StateView { width, height, objects: Seq::empty() }),
    {
        let texture = TextureDescriptor {
            width,
            height,
            depth_or_array_layers: 1,
            mip_level_count: 1,
            sample_count: 1,
            dimension: TextureDimension::D2,
            format: TextureFormat::Rgba8UnormSrgb,
            usage: TextureUsages {
                copy_src: true,
                copy_dst: false,
                texture_binding: false,
                render_attachment: true,
            },
        };
        let output_buffer = Self::create_output_buffer(width, height);
        let state = State { width, height, texture, output_buffer, objects: Vec::new() };
        assert(state@.objects =~= Seq::empty());
        state
    }

    /// Describes the staging buffer for a target of the given size.
    fn create_output_buffer(width: u32, height: u32) -> (buffer: BufferDescriptor)
        requires
            width <= MAX_TARGET_WIDTH,
        ensures
            buffer == staging_buffer(width, height),
    {
        BufferDescriptor {
            size: staging_size(width, height),
            usage: BufferUsages { map_read: true, copy_dst: true, vertex: false, index: false },
            mapped_at_creation: false,
        }
    }

    /// Replaces the registered objects by `objects`, which the session then owns.
    pub fn set_objects(&mut self, objects: Vec<Object>)
        ensures
            final(self)@ == (StateView { objects: object_views(objects@), ..old(self)@ }),
    {
        proof {
            use_type_invariant(&*self);
        }
        self.objects = objects;
    }

    /// Width of the target in pixels.
    pub fn width(&self) -> (width: u32)
        ensures
            width == self@.width,
            0 < width <= MAX_TARGET_WIDTH,
    {
        proof {
            use_type_invariant(self);
        }
        self.width
    }

    /// Height of the target in pixels.
    pub fn height(&self) -> (height: u32)
        ensures
            height == self@.height,
            0 < height,
    {
        proof {
            use_type_invariant(self);
        }
        self.height
    }

    /// The colour target to allocate.
    pub fn texture(&self) -> (texture: TextureDescriptor)
        ensures
            texture == color_target(self@.width, self@.height),
    {
        proof {
            use_type_invariant(self);
        }
        self.texture
    }

    /// The staging buffer to allocate.
    pub fn output_buffer(&self) -> (buffer: BufferDescriptor)
        ensures
            buffer == staging_buffer(self@.width, self@.height),
    {
        proof {
            use_type_invariant(self);
        }
        self.output_buffer
    }

    /// The registered objects, in registration order.
    pub fn objects(&self) -> (objects: &Vec<Object>)
        ensures
            object_views(objects@) == self@.objects,
    {
        &self.objects
    }

    /// Tells whether every registered object is complete.
    pub fn is_ready(&self) -> (ready: bool)
        ensures
            ready == self@.is_ready(),
    {
        let mut i: usize = 0;
        while i < self.objects.len()
            invariant
                i <= self.objects.len(),
                forall|k: int| 0 <= k < i ==> (#[trigger] self@.objects[k]).is_complete(),
            decreases self.objects.len() - i,
        {
            if !self.objects[i].is_complete() {
                assert(!self@.objects[i as int].is_complete());
                return false;
            }
            i += 1;
        }
        true
    }

    /// Lays out the commands of one frame.
    pub fn render(&self) -> (commands: Vec<Command>)
        requires
            self@.is_ready(),
        ensures
            commands@ == self@.frame(),
    {
        proof {
            use_type_invariant(self);
        }
        let mut commands: Vec<Command> = Vec::new();
        commands.push(Command::BeginRenderPass { clear: Rgba8 { r: 0, g: 0, b: 0, a: 0 } });
        let ghost begin = commands@;
        let count: usize = self.objects.len();
        let mut index: usize = 0;
        while index < count
            invariant
                index <= count,
                count == self.objects@.len(),
                commands@ == begin + draws(self@.objects.subrange(0, index as int)),
            decreases count - index,
        {
            let obj = &self.objects[index];
            let ghost before = commands@;
            commands.push(Command::SetPipeline { object: index });
            commands.push(Command::SetBindGroup { slot: 0, object: index });
            commands.push(Command::SetVertexBuffer { slot: 0, object: index });
            commands.push(Command::SetIndexBuffer { object: index, format: IndexFormat::Uint16 });
            commands.push(
                Command::DrawIndexed {
                    first_index: 0,
                    end_index: obj.num_indices,
                    base_vertex: 0,
                    first_instance: 0,
                    end_instance: 1,
                },
            );
            proof {
                let seen = self@.objects.subrange(0, index + 1);
                assert(seen.drop_last() =~= self@.objects.subrange(0, index as int));
                assert(seen.last() == obj@);
                assert(commands@ =~= before + draw_commands(index as int, obj@));
            }
            index += 1;
        }
        assert(self@.objects.subrange(0, count as int) =~= self@.objects);
        commands.push(Command::EndRenderPass);
        commands.push(
            Command::CopyTextureToBuffer {
                width: self.width,
                height: self.height,
                bytes_per_row: bytes_per_row(self.width),
                rows_per_image: self.height,
            },
        );
        commands.push(Command::Submit);
        commands.push(Command::MapStagingBuffer);
        commands.push(Command::UnmapStagingBuffer);
        assert(commands@ =~= self@.frame());
        commands
    }

    /// Turns the end of the mapping into the frame, or into the error that stops the render.
    pub fn finish(&self, outcome: MapOutcome) -> (frame: Result<Image, ReadbackError>)
        ensures
            match frame {
                Ok(image) => self@.outcome(outcome) == Ok::<ImageView, ReadbackError>(image@),
                Err(error) => self@.outcome(outcome) == Err::<ImageView, ReadbackError>(error),
            },
    {
        proof {
            use_type_invariant(self);
        }
        match outcome {
            MapOutcome::Mapped(bytes) => match unpad_rows(&bytes, self.width, self.height) {
                Some(pixels) => Ok(Image { pixels, width: self.width, height: self.height }),
                None => Err(ReadbackError::SizeMismatch),
            },
            MapOutcome::Failed => Err(ReadbackError::MapFailed),
            MapOutcome::Lost => Err(ReadbackError::DeviceLost),
            MapOutcome::TimedOut => Err(ReadbackError::Timeout),
        }
    }
}

/// A frame is one render pass and what follows it, in this order: the pass
/// begins by clearing the target to transparent black; the objects are drawn
/// one after the other in registration order, so that a later object is
/// painted over an earlier one; the pass ends; the target is copied into the
/// staging buffer with the padded row pitch; the commands are submitted; only
/// then is the staging buffer mapped and read; and last it is unmapped.
pub proof fn lemma_frame_order(state: StateView)
    ensures
        state.frame().len() == 5 * state.objects.len() + 6,
        state.frame()[0] == (Command::BeginRenderPass { clear: transparent_black() }),
        forall|i: int|
            0 <= i < state.objects.len() ==> state.frame().subrange(1 + 5 * i, 6 + 5 * i)
                == draw_commands(i, #[trigger] state.objects[i]),
        state.frame()[5 * (state.objects.len() as int) + 1] == Command::EndRenderPass,
        state.frame()[5 * (state.objects.len() as int) + 2] == copy_command(state.width, state.height),
        state.frame()[5 * (state.objects.len() as int) + 3] == Command::Submit,
        state.frame()[5 * (state.objects.len() as int) + 4] == Command::MapStagingBuffer,
        state.frame()[5 * (state.objects.len() as int) + 5] == Command::UnmapStagingBuffer,
{
    lemma_draws_len(state.objects);
    assert forall|i: int| 0 <= i < state.objects.len() implies state.frame().subrange(
        1 + 5 * i,
        6 + 5 * i,
    ) == draw_commands(i, #[trigger] state.objects[i]) by {
        lemma_draws_at(state.objects, i);
        assert(state.frame().subrange(1 + 5 * i, 6 + 5 * i) =~= draws(state.objects).subrange(
            5 * i,
            5 * i + 5,
        ));
    }
}

/// Registration order is drawing order: of two registered objects, the one
/// registered later is drawn later in the pass, with its own pipeline bound,
/// so that where both cover a pixel the later one decides it.
pub proof fn lemma_later_object_is_drawn_later(state: StateView, earlier: int, later: int)
    requires
        0 <= earlier < later < state.objects.len(),
    ensures
        0 < 5 * earlier + 5 < 5 * later + 1 < 5 * later + 5 < 5 * state.objects.len() + 1,
        state.frame()[5 * earlier + 5] == draw_commands(earlier, state.objects[earlier])[4],
        state.frame()[5 * later + 1] == (Command::SetPipeline { object: later as usize }),
        state.frame()[5 * later + 5] == draw_commands(later, state.objects[later])[4],
        state.frame()[5 * (state.objects.len() as int) + 1] == Command::EndRenderPass,
{
    lemma_frame_order(state);
    let first = state.frame().subrange(1 + 5 * earlier, 6 + 5 * earlier);
    let second = state.frame().subrange(1 + 5 * later, 6 + 5 * later);
    assert(first[4] == state.frame()[5 * earlier + 5]);
    assert(second[0] == state.frame()[5 * later + 1]);
    assert(second[4] == state.frame()[5 * later + 5]);
    assert(first == draw_commands(earlier, state.objects[earlier]));
    assert(second == draw_commands(later, state.objects[later]));
}

/// The copy of a frame fits the staging buffer of its session: its row pitch
/// is a multiple of the copy alignment and holds a whole row of the target,
/// and its rows at that pitch fill the staging buffer exactly.
pub proof fn lemma_copy_fills_staging_buffer(state: StateView)
    requires
        state.width <= MAX_TARGET_WIDTH,
    ensures
        copy_command(state.width, state.height) matches Command::CopyTextureToBuffer {
            width,
            height,
            bytes_per_row,
            rows_per_image,
        } && {
            &&& width == state.width
            &&& height == state.height
            &&& bytes_per_row % COPY_BYTES_PER_ROW_ALIGNMENT == 0
            &&& bytes_per_row >= BYTES_PER_PIXEL * state.width
            &&& rows_per_image == state.height
            &&& bytes_per_row * rows_per_image == staging_buffer(state.width, state.height).size
        },
{
    lemma_row_pitch(state.width);
    lemma_staging_len(state.width, state.height);
}

/// With no object registered, the pass clears the target and draws nothing.
pub proof fn lemma_empty_frame(state: StateView)
    requires
        state.objects.len() == 0,
    ensures
        state.frame() == seq![
            Command::BeginRenderPass { clear: transparent_black() },
            Command::EndRenderPass,
            copy_command(state.width, state.height),
            Command::Submit,
            Command::MapStagingBuffer,
            Command::UnmapStagingBuffer,
        ],
{
    assert(state.frame() =~= seq![
        Command::BeginRenderPass { clear: transparent_black() },
        Command::EndRenderPass,
        copy_command(state.width, state.height),
        Command::Submit,
        Command::MapStagingBuffer,
        Command::UnmapStagingBuffer,
    ]);
}

/// The draw of an object whose indices are in bounds fetches none but that
/// object's vertices: every index in the drawn range, raised by the base
/// vertex, refers to a vertex of the object.
pub proof fn lemma_draw_in_bounds(state: StateView, i: int)
    requires
        0 <= i < state.objects.len(),
        state.objects[i].indices_in_bounds(),
    ensures
        state.frame()[5 * i + 5] matches Command::DrawIndexed {
            first_index,
            end_index,
            base_vertex,
            ..
        } && forall|k: int|
            first_index <= k < end_index ==> {
                &&& 0 <= k < state.objects[i].index_buffer.unwrap().len()
                &&& 0 <= (#[trigger] state.objects[i].index_buffer.unwrap()[k]) + base_vertex
                    < state.objects[i].vertex_buffer.unwrap().len()
            },
{
    lemma_frame_order(state);
    let group = state.frame().subrange(1 + 5 * i, 6 + 5 * i);
    assert(group[4] == state.frame()[5 * i + 5]);
    assert(group == draw_commands(i, state.objects[i]));
}

/// The frame depends on the size of the target and on the registered objects
/// alone, and the image on the mapped bytes and the size: two sessions of one
/// size over the same objects lay out the same frame and read the same mapped
/// bytes back as the same image.
pub proof fn lemma_same_scene_same_frame(first: StateView, second: StateView, mapped: Seq<u8>)
    requires
        first.width == second.width,
        first.height == second.height,
        first.objects =~= second.objects,
    ensures
        first.frame() == second.frame(),
        first.image_of(mapped) == second.image_of(mapped),
{
}

/// Reading back keeps every pixel: each channel of the pixel in column `x` of
/// row `y` of the image is the byte that the staging buffer holds for it,
/// `4 * x + channel` bytes into row `y`, whatever the padding holds.
pub proof fn lemma_image_of_pixel(state: StateView, mapped: Seq<u8>, x: int, y: int, channel: int)
    requires
        state.width <= MAX_TARGET_WIDTH,
        mapped.len() == staging_len(state.width, state.height),
        0 <= x < state.width,
        0 <= y < state.height,
        0 <= channel < 4,
    ensures
        state.image_of(mapped).is_dense(),
        0 <= 4 * (y * state.width + x) + channel < state.image_of(mapped).pixels.len(),
        0 <= y * padded_row_pitch(state.width) + 4 * x + channel < mapped.len(),
        state.image_of(mapped).channel(x, y, channel) == padded_byte(
            mapped,
            padded_row_pitch(state.width),
            y,
            4 * x + channel,
        ),
{
    let row = row_bytes(state.width);
    let pitch = padded_row_pitch(state.width);
    let rows = state.height as int;
    assert(rows * pitch == pitch * rows) by (nonlinear_arith);
    assert(rows * row == 4 * state.width * state.height) by (nonlinear_arith)
        requires
            row == 4 * state.width,
            rows == state.height,
    ;
    assert(4 * (y * state.width + x) + channel == y * row + (4 * x + channel)) by (nonlinear_arith)
        requires
            row == 4 * state.width,
    ;
    lemma_unpadded_index(mapped, row, pitch, rows, y, 4 * x + channel);
}

/// A frame in which every pixel of the staging buffer is transparent black
/// reads back as an image of the size of the target in which every byte is zero.
pub proof fn lemma_clear_frame_is_transparent(state: StateView, mapped: Seq<u8>)
    requires
        0 < state.width <= MAX_TARGET_WIDTH,
        mapped.len() == staging_len(state.width, state.height),
        forall|y: int, c: int|
            0 <= y < state.height && 0 <= c < row_bytes(state.width) ==> #[trigger] padded_byte(
                mapped,
                padded_row_pitch(state.width),
                y,
                c,
            ) == 0,
    ensures
        state.image_of(mapped).width == state.width,
        state.image_of(mapped).height == state.height,
        state.image_of(mapped).pixels.len() == 4 * state.width * state.height,
        forall|i: int|
            0 <= i < state.image_of(mapped).pixels.len() ==> state.image_of(mapped).pixels[i] == 0,
{
    let row = row_bytes(state.width);
    let pitch = padded_row_pitch(state.width);
    let rows = state.height as int;
    let pixels = state.image_of(mapped).pixels;
    assert(rows * pitch == pitch * rows) by (nonlinear_arith);
    assert(rows * row == 4 * state.width * state.height) by (nonlinear_arith)
        requires
            row == 4 * state.width,
            rows == state.height,
    ;
    if rows > 0 {
        lemma_unpadded_index(mapped, row, pitch, rows, 0, 0);
    }
    assert forall|i: int| 0 <= i < pixels.len() implies pixels[i] == 0 by {
        let r = i / row;
        let c = i % row;
        assert(i == r * row + c && 0 <= c < row && 0 <= r) by (nonlinear_arith)
            requires
                r == i / row,
                c == i % row,
                row > 0,
                i >= 0,
        ;
        assert(r < rows) by (nonlinear_arith)
            requires
                i == r * row + c,
                0 <= c,
                i < rows * row,
                row > 0,
        ;
        lemma_unpadded_index(mapped, row, pitch, rows, r, c);
        assert(padded_byte(mapped, pitch, r, c) == 0);
    }
}

} // verus!
