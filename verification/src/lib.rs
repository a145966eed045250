//! Verified core of an off-screen renderer for textured quads.
//!
//! A scene is a list of drawable objects, each a textured primitive with its
//! own vertex buffer, index buffer, texture, bind group and render pipeline.
//! A render session draws the objects in one render pass into a colour target
//! of fixed size, copies the target into a staging buffer, and reads the
//! pixels back.
//!
//! This crate holds everything of that which is decided rather than done:
//!
//! - [`vertex`], [`buffer`] and [`bytes`]: the vertex record, its layout, and
//!   the bytes of the vertex and index buffers;
//! - [`texture`]: decoded images and their validation into textures;
//! - [`binding`] and [`pipeline`]: the bind group and the pipeline of an object;
//! - [`object`]: the object and the staged sequence that builds it;
//! - [`frame`]: the commands of a frame, in the order in which they run;
//! - [`readback`] and [`mapping`]: the row pitch and size of the staging
//!   buffer, the wait for its mapping, and the removal of the row padding;
//! - [`state`]: the session, which lays out a frame and turns the mapped
//!   bytes into the image;
//! - [`scene`] and [`run`]: the fixed scene of four quads.
//!
//! The device itself stays with the caller, who creates the resources that
//! the objects and the session describe, performs the commands of the frame
//! one by one, and hands back how the mapping ended. Every function here has a
//! contract that Verus proves; none of them can panic.

pub mod binding;
pub mod buffer;
pub mod bytes;
pub mod frame;
pub mod mapping;
pub mod object;
pub mod pipeline;
pub mod readback;
pub mod scene;
pub mod state;
pub mod texture;
pub mod vertex;

use vstd::prelude::*;
use crate::object::{lemma_ordered_build, Object, ObjectView};
use crate::scene::{quad, quad_indices, quad_triangles, quad_vertices, QUADS};
use crate::frame::Command;
use crate::state::{State, StateView};
use crate::texture::{AssetError, Image, Texture, TextureFormat};

verus! {

/// Width of the colour target of the scene, in pixels.
pub const TARGET_WIDTH: u32 = 2048;

/// Height of the colour target of the scene, in pixels.
pub const TARGET_HEIGHT: u32 = 2048;

/// The scene over the given images: on a target of the fixed size, the quad
/// `i` textured with image `i`, for each of the four quads in order.
pub open spec fn scene(images: Seq<Image>) -> StateView {
    StateView {
        width: TARGET_WIDTH,
        height: TARGET_HEIGHT,
        objects: Seq::new(
            QUADS as nat,
            |i: int|
                ObjectView::built(
                    quad(i),
                    quad_triangles(),
                    images[i]@,
                    TextureFormat::Rgba8UnormSrgb,
                ),
        ),
    }
}

/// Assembles the scene of the first four images and lays out its frame.
///
/// An image that cannot become a texture stops the assembly: the first such
/// image, in order, gives the error, and nothing is rendered.
pub fn run(images: Vec<Image>) -> (result: Result<(State, Vec<Command>), AssetError>)
    requires
        images@.len() >= QUADS,
    ensures
        result is Ok <==> forall|i: int| 0 <= i < QUADS ==> (#[trigger] images@[i])@.is_dense(),
        result matches Ok((state, commands)) ==> {
            &&& state@ == scene(images@)
            &&& state@.is_ready()
            &&& commands@ == state@.frame()
        },
        result matches Err(error) ==> exists|i: int|
            {
                &&& 0 <= i < QUADS
                &&& !(#[trigger] images@[i])@.is_dense()
                &&& error == images@[i]@.rejection()
                &&& forall|j: int| 0 <= j < i ==> (#[trigger] images@[j])@.is_dense()
            },
{
    let mut st = State::new(TARGET_WIDTH, TARGET_HEIGHT);
    let mut rest = images;
    let mut objs: Vec<Object> = Vec::new();
    let mut index: usize = 0;
    while index < QUADS
        invariant
            index <= QUADS,
            images@.len() >= QUADS,
            rest@ == images@.subrange(index as int, images@.len() as int),
            objs@.len() == index,
            forall|j: int| 0 <= j < index ==> (#[trigger] images@[j])@.is_dense(),
            forall|j: int|
                0 <= j < index ==> (#[trigger] objs@[j])@ == ObjectView::built(
                    quad(j),
                    quad_triangles(),
                    images@[j]@,
                    TextureFormat::Rgba8UnormSrgb,
                ),
        decreases QUADS - index,
    {
        let image = rest.remove(0);
        assert(image == images@[index as int]);
        assert(rest@ =~= images@.subrange(index + 1, images@.len() as int));
        let tex = match Texture::from_image(image) {
            Ok(tex) => tex,
            Err(error) => {
                return Err(error);
            },
        };
        let obj = Object::build(
            quad_vertices(index),
            quad_indices(),
            tex,
            TextureFormat::Rgba8UnormSrgb,
        );
        objs.push(obj);
        index += 1;
    }
    st.set_objects(objs);
    assert(st@.objects =~= scene(images@).objects);
    let commands = st.render();
    Ok((st, commands))
}

/// The scene is ready to draw whatever the images are: each of its four
/// objects is complete, counts six indices, and refers with every index to one
/// of its four vertices.
pub proof fn lemma_scene_is_drawable(images: Seq<Image>)
    ensures
        scene(images).objects.len() == QUADS,
        scene(images).is_ready(),
        forall|i: int|
            0 <= i < QUADS ==> {
                &&& (#[trigger] scene(images).objects[i]).indices_in_bounds()
                &&& scene(images).objects[i].num_indices == 6
                &&& scene(images).objects[i].vertex_buffer == Some(quad(i))
                &&& scene(images).objects[i].texture == Some(images[i]@)
            },
{
    assert forall|i: int| 0 <= i < QUADS implies {
        &&& (#[trigger] scene(images).objects[i]).indices_in_bounds()
        &&& scene(images).objects[i].is_complete()
    } by {
        lemma_ordered_build(
            quad(i),
            quad_triangles(),
            images[i]@,
            TextureFormat::Rgba8UnormSrgb,
        );
    }
}

} // verus!
