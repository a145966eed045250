use quadrender::buffer::{BufferDescriptor, BufferUsages};
use quadrender::object::Object;
use quadrender::pipeline::IndexFormat;
use quadrender::readback::MAX_TARGET_WIDTH;
use quadrender::frame::{Command, Rgba8};
use quadrender::mapping::{wait_step, MapOutcome, ReadbackError, WaitStep};
use quadrender::state::State;
use quadrender::texture::{
    Image, Texture, TextureDescriptor, TextureDimension, TextureFormat, TextureUsages,
};
use quadrender::vertex::Vertex;

fn triangle_object(index_count: u16) -> Object {
    let vertices = vec![
        Vertex::new([0, 0, 0], [0, 0]),
        Vertex::new([1, 0, 0], [1, 0]),
        Vertex::new([0, 1, 0], [0, 1]),
    ];
    let indices: Vec<u16> = (0..index_count).map(|i| i % 3).collect();
    let texture = Texture::from_image(Image { pixels: vec![9; 4], width: 1, height: 1 }).unwrap();
    Object::build(vertices, indices, texture, TextureFormat::Rgba8UnormSrgb)
}

fn draw_of(object: usize, index_count: u32) -> Vec<Command> {
    vec![
        Command::SetPipeline { object },
        Command::SetBindGroup { slot: 0, object },
        Command::SetVertexBuffer { slot: 0, object },
        Command::SetIndexBuffer { object, format: IndexFormat::Uint16 },
        Command::DrawIndexed {
            first_index: 0,
            end_index: index_count,
            base_vertex: 0,
            first_instance: 0,
            end_instance: 1,
        },
    ]
}

fn tail_of(width: u32, height: u32, bytes_per_row: u32) -> Vec<Command> {
    vec![
        Command::EndRenderPass,
        Command::CopyTextureToBuffer { width, height, bytes_per_row, rows_per_image: height },
        Command::Submit,
        Command::MapStagingBuffer,
        Command::UnmapStagingBuffer,
    ]
}

const CLEAR: Command = Command::BeginRenderPass { clear: Rgba8 { r: 0, g: 0, b: 0, a: 0 } };

#[test]
fn new_session_has_its_size_and_no_objects() {
    let state = State::new(2048, 2048);
    assert_eq!(state.width(), 2048);
    assert_eq!(state.height(), 2048);
    assert!(state.objects().is_empty());
    assert!(state.is_ready());
}

#[test]
fn colour_target_is_drawn_into_and_copied_from() {
    let state = State::new(640, 480);
    assert_eq!(
        state.texture(),
        TextureDescriptor {
            width: 640,
            height: 480,
            depth_or_array_layers: 1,
            mip_level_count: 1,
            sample_count: 1,
            dimension: TextureDimension::D2,
            format: TextureFormat::Rgba8UnormSrgb,
            usage: TextureUsages {
                copy_src: true,
                copy_dst: false,
                texture_binding: false,
                render_attachment: true,
            },
        }
    );
}

#[test]
fn staging_buffer_matches_the_target() {
    let usage = BufferUsages { map_read: true, copy_dst: true, vertex: false, index: false };
    assert_eq!(
        State::new(2048, 2048).output_buffer(),
        BufferDescriptor { size: 4 * 2048 * 2048, usage, mapped_at_creation: false }
    );
    assert_eq!(
        State::new(100, 3).output_buffer(),
        BufferDescriptor { size: 512 * 3, usage, mapped_at_creation: false }
    );
    assert_eq!(
        State::new(MAX_TARGET_WIDTH, 1).output_buffer(),
        BufferDescriptor { size: 4_294_967_040, usage, mapped_at_creation: false }
    );
}

#[test]
fn set_objects_replaces_the_list_wholesale() {
    let mut state = State::new(4, 4);
    state.set_objects(vec![triangle_object(3), triangle_object(6), triangle_object(9)]);
    assert_eq!(state.objects().len(), 3);
    assert_eq!(state.objects()[1].num_indices, 6);
    state.set_objects(vec![triangle_object(12)]);
    assert_eq!(state.objects().len(), 1);
    assert_eq!(state.objects()[0].num_indices, 12);
    assert_eq!(state.width(), 4);
    assert_eq!(state.height(), 4);
    state.set_objects(Vec::new());
    assert!(state.objects().is_empty());
}

#[test]
fn session_with_an_unfinished_object_is_not_ready() {
    let mut state = State::new(4, 4);
    state.set_objects(vec![triangle_object(3), Object::new()]);
    assert!(!state.is_ready());
    state.set_objects(vec![Object::new().set_texture(None), triangle_object(3)]);
    assert!(!state.is_ready());
    state.set_objects(vec![triangle_object(3), triangle_object(3)]);
    assert!(state.is_ready());
}

#[test]
fn frame_without_objects_clears_and_draws_nothing() {
    let state = State::new(2048, 2048);
    let mut expected = vec![CLEAR];
    expected.extend(tail_of(2048, 2048, 8192));
    assert_eq!(state.render(), expected);
}

#[test]
fn frame_draws_the_objects_in_registration_order() {
    let mut state = State::new(100, 50);
    state.set_objects(vec![triangle_object(3), triangle_object(9), triangle_object(6)]);
    let mut expected = vec![CLEAR];
    expected.extend(draw_of(0, 3));
    expected.extend(draw_of(1, 9));
    expected.extend(draw_of(2, 6));
    expected.extend(tail_of(100, 50, 512));
    let commands = state.render();
    assert_eq!(commands, expected);
    assert_eq!(commands.len(), 5 * 3 + 6);
}

#[test]
fn frame_has_one_pass_and_copies_after_it() {
    let mut state = State::new(8, 8);
    state.set_objects(vec![triangle_object(3), triangle_object(3)]);
    let commands = state.render();
    let position = |wanted: fn(&Command) -> bool| -> Vec<usize> {
        commands.iter().enumerate().filter(|(_, c)| wanted(c)).map(|(i, _)| i).collect()
    };
    let begins = position(|c| matches!(c, Command::BeginRenderPass { .. }));
    let draws = position(|c| matches!(c, Command::DrawIndexed { .. }));
    let ends = position(|c| matches!(c, Command::EndRenderPass));
    let copies = position(|c| matches!(c, Command::CopyTextureToBuffer { .. }));
    let submits = position(|c| matches!(c, Command::Submit));
    let maps = position(|c| matches!(c, Command::MapStagingBuffer));
    let unmaps = position(|c| matches!(c, Command::UnmapStagingBuffer));
    assert_eq!(begins, vec![0]);
    assert_eq!(draws, vec![5, 10]);
    assert_eq!(ends, vec![11]);
    assert_eq!(copies, vec![12]);
    assert_eq!(submits, vec![13]);
    assert_eq!(maps, vec![14]);
    assert_eq!(unmaps, vec![15]);
}

#[test]
fn two_fresh_sessions_lay_out_the_same_frame() {
    let mut first = State::new(300, 200);
    first.set_objects(vec![triangle_object(3), triangle_object(6)]);
    let mut second = State::new(300, 200);
    second.set_objects(vec![triangle_object(3), triangle_object(6)]);
    assert_eq!(first.render(), second.render());
    assert_eq!(first.objects(), second.objects());
    let mapped: Vec<u8> = (0..1280 * 200u32).map(|i| (i % 253) as u8).collect();
    assert_eq!(
        first.finish(MapOutcome::Mapped(mapped.clone())),
        second.finish(MapOutcome::Mapped(mapped))
    );
}

#[test]
fn mapped_frame_is_read_back_without_padding() {
    let state = State::new(2, 2);
    let mut mapped = vec![0x77u8; 512];
    mapped[0..8].copy_from_slice(&[1, 2, 3, 4, 5, 6, 7, 8]);
    mapped[256..264].copy_from_slice(&[9, 10, 11, 12, 13, 14, 15, 16]);
    assert_eq!(
        state.finish(MapOutcome::Mapped(mapped)),
        Ok(Image { pixels: (1..=16).collect(), width: 2, height: 2 })
    );
}

#[test]
fn cleared_frame_reads_back_transparent_black() {
    let state = State::new(3, 5);
    let frame = state.finish(MapOutcome::Mapped(vec![0; 256 * 5])).unwrap();
    assert_eq!(frame, Image { pixels: vec![0; 4 * 3 * 5], width: 3, height: 5 });
}

#[test]
fn aligned_frame_is_read_back_as_it_is() {
    let state = State::new(64, 3);
    let mapped: Vec<u8> = (0..768u32).map(|i| (i % 256) as u8).collect();
    assert_eq!(
        state.finish(MapOutcome::Mapped(mapped.clone())),
        Ok(Image { pixels: mapped, width: 64, height: 3 })
    );
}

#[test]
fn mapped_bytes_of_another_size_are_refused() {
    let state = State::new(2, 2);
    assert_eq!(state.finish(MapOutcome::Mapped(vec![0; 16])), Err(ReadbackError::SizeMismatch));
    assert_eq!(state.finish(MapOutcome::Mapped(vec![0; 511])), Err(ReadbackError::SizeMismatch));
    assert_eq!(state.finish(MapOutcome::Mapped(Vec::new())), Err(ReadbackError::SizeMismatch));
}

#[test]
fn failed_mapping_stops_the_render() {
    assert_eq!(State::new(2, 2).finish(MapOutcome::Failed), Err(ReadbackError::MapFailed));
}

#[test]
fn lost_device_stops_the_render() {
    assert_eq!(State::new(2, 2).finish(MapOutcome::Lost), Err(ReadbackError::DeviceLost));
}

#[test]
fn overdue_mapping_stops_the_render_with_its_own_error() {
    assert_eq!(State::new(2, 2).finish(MapOutcome::TimedOut), Err(ReadbackError::Timeout));
}

#[test]
fn wait_takes_a_report_whenever_it_is_there() {
    assert_eq!(wait_step(true, 0, 30_000), WaitStep::TakeReport);
    assert_eq!(wait_step(true, 30_000, 30_000), WaitStep::TakeReport);
    assert_eq!(wait_step(true, u64::MAX, 0), WaitStep::TakeReport);
}

#[test]
fn wait_drives_the_device_until_the_deadline() {
    assert_eq!(wait_step(false, 0, 30_000), WaitStep::Poll);
    assert_eq!(wait_step(false, 29_999, 30_000), WaitStep::Poll);
    assert_eq!(wait_step(false, 0, u64::MAX), WaitStep::Poll);
}

#[test]
fn wait_is_given_up_at_the_deadline() {
    assert_eq!(wait_step(false, 30_000, 30_000), WaitStep::GiveUp);
    assert_eq!(wait_step(false, 30_001, 30_000), WaitStep::GiveUp);
    assert_eq!(wait_step(false, 0, 0), WaitStep::GiveUp);
    assert_eq!(wait_step(false, u64::MAX, u64::MAX), WaitStep::GiveUp);
}

#[test]
fn padding_of_any_content_is_left_out_of_the_frame() {
    let state = State::new(1, 3);
    let mut mapped = vec![0xffu8; 256 * 3];
    for row in 0..3usize {
        mapped[256 * row..256 * row + 4].copy_from_slice(&[0, 0, 0, 0]);
    }
    assert_eq!(
        state.finish(MapOutcome::Mapped(mapped)),
        Ok(Image { pixels: vec![0; 12], width: 1, height: 3 })
    );
}
