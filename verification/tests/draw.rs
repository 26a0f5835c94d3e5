use glhf::call::{Call, Payload};
use glhf::draw::{ArrayState, ElementState, ElementType, Topology};
use glhf::nonzero::NonZeroU32;
use glhf::program::LinkedProgram;
use glhf::GLEnum;
use glhf::GLHF;

fn name(raw: u32) -> NonZeroU32 {
    NonZeroU32::new(raw).unwrap()
}

fn linked(gl: &mut GLHF) -> LinkedProgram {
    gl.new
        .program(&mut gl.queue)
        .adopt(name(40))
        .into_linked_unchecked()
}

#[test]
fn topology_constants() {
    assert_eq!(Topology::Points.as_gl(), 0);
    assert_eq!(Topology::Lines.as_gl(), 1);
    assert_eq!(Topology::LineLoop.as_gl(), 2);
    assert_eq!(Topology::LineStrip.as_gl(), 3);
    assert_eq!(Topology::Triangles.as_gl(), 4);
    assert_eq!(Topology::TriangleStrip.as_gl(), 5);
    assert_eq!(Topology::TriangleFan.as_gl(), 6);
}

#[test]
fn element_type_constants_and_sizes() {
    assert_eq!(ElementType::U8.as_gl(), 0x1401);
    assert_eq!(ElementType::U16.as_gl(), 0x1403);
    assert_eq!(ElementType::U32.as_gl(), 0x1405);
    assert_eq!(ElementType::U8.size_of(), 1);
    assert_eq!(ElementType::U16.size_of(), 2);
    assert_eq!(ElementType::U32.size_of(), 4);
}

#[test]
fn arrays_of_one_instance_is_the_plain_call() {
    let mut gl = GLHF::current();
    let program = linked(&mut gl);
    let [array] = gl.new.vertex_arrays::<1>(&mut gl.queue).adopt([name(3)]);
    let vertex_array = gl.vertex_array.bind(&mut gl.queue, &array);
    let framebuffer = gl.framebuffer.draw.bind_default(&mut gl.queue);
    let program = gl.program.bind(&mut gl.queue, &program);
    let state = ArrayState {
        vertex_array,
        framebuffer: &framebuffer,
        program,
    };
    let before = gl.queue.len();
    gl.draw
        .arrays(&mut gl.queue, Topology::Triangles, 3..9, 1, state);
    assert_eq!(gl.queue.len(), before + 1);
    assert_eq!(
        gl.queue.call(before),
        Call::DrawArrays {
            mode: 4,
            first: 3,
            count: 6
        }
    );
    assert_eq!(*gl.queue.payload(before), Payload::Empty);
}

#[test]
fn arrays_of_many_instances_is_the_instanced_call() {
    let mut gl = GLHF::current();
    let program = linked(&mut gl);
    let [array] = gl.new.vertex_arrays::<1>(&mut gl.queue).adopt([name(3)]);
    let vertex_array = gl.vertex_array.bind(&mut gl.queue, &array);
    let framebuffer = gl.framebuffer.draw.bind_default(&mut gl.queue);
    let program = gl.program.bind(&mut gl.queue, &program);
    let state = ArrayState {
        vertex_array,
        framebuffer: &framebuffer,
        program,
    };
    let before = gl.queue.len();
    gl.draw
        .arrays(&mut gl.queue, Topology::Points, 0..10, 7, state);
    assert_eq!(gl.queue.len(), before + 1);
    assert_eq!(
        gl.queue.call(before),
        Call::DrawArraysInstanced {
            mode: 0,
            first: 0,
            count: 10,
            instancecount: 7
        }
    );
}

#[test]
fn arrays_without_vertices_or_instances_queues_nothing() {
    let mut gl = GLHF::current();
    let program = linked(&mut gl);
    let [array] = gl.new.vertex_arrays::<1>(&mut gl.queue).adopt([name(3)]);
    let vertex_array = gl.vertex_array.bind(&mut gl.queue, &array);
    let framebuffer = gl.framebuffer.draw.bind_default(&mut gl.queue);
    let program = gl.program.bind(&mut gl.queue, &program);
    let state = ArrayState {
        vertex_array,
        framebuffer: &framebuffer,
        program,
    };
    let before = gl.queue.len();
    gl.draw
        .arrays(&mut gl.queue, Topology::Triangles, 5..5, 1, state);
    gl.draw
        .arrays(&mut gl.queue, Topology::Triangles, 0..0, 3, state);
    gl.draw
        .arrays(&mut gl.queue, Topology::Triangles, 0..6, 0, state);
    // A reversed range with no instances is nothing to draw either.
    gl.draw
        .arrays(&mut gl.queue, Topology::Triangles, 6..0, 0, state);
    assert_eq!(gl.queue.len(), before);
}

#[test]
fn elements_of_u16_from_the_start() {
    let mut gl = GLHF::current();
    let program = linked(&mut gl);
    let [array] = gl.new.vertex_arrays::<1>(&mut gl.queue).adopt([name(3)]);
    let [indices] = gl.new.buffers::<1>(&mut gl.queue).adopt([name(4)]);
    let vertex_array = gl.vertex_array.bind(&mut gl.queue, &array);
    let elements = gl.buffer.element_array.bind(&mut gl.queue, &indices);
    let framebuffer = gl.framebuffer.draw.bind_default(&mut gl.queue);
    let program = gl.program.bind(&mut gl.queue, &program);
    let state = ElementState {
        elements,
        vertex_array,
        framebuffer: &framebuffer,
        program,
    };
    let before = gl.queue.len();
    gl.draw.elements(
        &mut gl.queue,
        Topology::Triangles,
        ElementType::U16,
        0..6,
        1,
        state,
        12,
    );
    assert_eq!(gl.queue.len(), before + 1);
    assert_eq!(
        gl.queue.call(before),
        Call::DrawElements {
            mode: 4,
            count: 6,
            ty: 0x1403,
            offset: 0
        }
    );
}

#[test]
fn elements_of_u16_from_the_third_index() {
    let mut gl = GLHF::current();
    let program = linked(&mut gl);
    let [array] = gl.new.vertex_arrays::<1>(&mut gl.queue).adopt([name(3)]);
    let [indices] = gl.new.buffers::<1>(&mut gl.queue).adopt([name(4)]);
    let vertex_array = gl.vertex_array.bind(&mut gl.queue, &array);
    let elements = gl.buffer.element_array.bind(&mut gl.queue, &indices);
    let framebuffer = gl.framebuffer.draw.bind_default(&mut gl.queue);
    let program = gl.program.bind(&mut gl.queue, &program);
    let state = ElementState {
        elements,
        vertex_array,
        framebuffer: &framebuffer,
        program,
    };
    let before = gl.queue.len();
    gl.draw.elements(
        &mut gl.queue,
        Topology::Triangles,
        ElementType::U16,
        2..6,
        1,
        state,
        12,
    );
    assert_eq!(gl.queue.len(), before + 1);
    assert_eq!(
        gl.queue.call(before),
        Call::DrawElements {
            mode: 4,
            count: 4,
            ty: 0x1403,
            offset: 4
        }
    );
}

#[test]
fn elements_of_u32_and_many_instances() {
    let mut gl = GLHF::current();
    let program = linked(&mut gl);
    let [array] = gl.new.vertex_arrays::<1>(&mut gl.queue).adopt([name(3)]);
    let [indices] = gl.new.buffers::<1>(&mut gl.queue).adopt([name(4)]);
    let vertex_array = gl.vertex_array.bind(&mut gl.queue, &array);
    let elements = gl.buffer.element_array.bind(&mut gl.queue, &indices);
    let framebuffer = gl.framebuffer.draw.bind_default(&mut gl.queue);
    let program = gl.program.bind(&mut gl.queue, &program);
    let state = ElementState {
        elements,
        vertex_array,
        framebuffer: &framebuffer,
        program,
    };
    let before = gl.queue.len();
    gl.draw.elements(
        &mut gl.queue,
        Topology::TriangleStrip,
        ElementType::U32,
        3..5,
        4,
        state,
        20,
    );
    assert_eq!(
        gl.queue.call(before),
        Call::DrawElementsInstanced {
            mode: 5,
            count: 2,
            ty: 0x1405,
            offset: 12,
            instancecount: 4
        }
    );
}

#[test]
fn elements_without_indices_or_instances_queues_nothing() {
    let mut gl = GLHF::current();
    let program = linked(&mut gl);
    let [array] = gl.new.vertex_arrays::<1>(&mut gl.queue).adopt([name(3)]);
    let [indices] = gl.new.buffers::<1>(&mut gl.queue).adopt([name(4)]);
    let vertex_array = gl.vertex_array.bind(&mut gl.queue, &array);
    let elements = gl.buffer.element_array.bind(&mut gl.queue, &indices);
    let framebuffer = gl.framebuffer.draw.bind_default(&mut gl.queue);
    let program = gl.program.bind(&mut gl.queue, &program);
    let state = ElementState {
        elements,
        vertex_array,
        framebuffer: &framebuffer,
        program,
    };
    let before = gl.queue.len();
    gl.draw.elements(
        &mut gl.queue,
        Topology::Triangles,
        ElementType::U8,
        4..4,
        1,
        state,
        0,
    );
    gl.draw.elements(
        &mut gl.queue,
        Topology::Triangles,
        ElementType::U8,
        0..3,
        0,
        state,
        0,
    );
    gl.draw.ranged_elements(
        &mut gl.queue,
        Topology::Triangles,
        ElementType::U8,
        7..7,
        0..=2,
        state,
        0,
    );
    assert_eq!(gl.queue.len(), before);
}

#[test]
fn ranged_elements_hands_the_bounds_on() {
    let mut gl = GLHF::current();
    let program = linked(&mut gl);
    let [array] = gl.new.vertex_arrays::<1>(&mut gl.queue).adopt([name(3)]);
    let [indices] = gl.new.buffers::<1>(&mut gl.queue).adopt([name(4)]);
    let vertex_array = gl.vertex_array.bind(&mut gl.queue, &array);
    let elements = gl.buffer.element_array.bind(&mut gl.queue, &indices);
    let framebuffer = gl.framebuffer.draw.bind_default(&mut gl.queue);
    let program = gl.program.bind(&mut gl.queue, &program);
    let state = ElementState {
        elements,
        vertex_array,
        framebuffer: &framebuffer,
        program,
    };
    let before = gl.queue.len();
    gl.draw.ranged_elements(
        &mut gl.queue,
        Topology::Lines,
        ElementType::U8,
        1..9,
        5..=17,
        state,
        9,
    );
    assert_eq!(gl.queue.len(), before + 1);
    assert_eq!(
        gl.queue.call(before),
        Call::DrawRangeElements {
            mode: 1,
            start: 5,
            end: 17,
            count: 8,
            ty: 0x1401,
            offset: 1
        }
    );
}
