use glhf::bound::Bound;
use glhf::buffer::usage::{Access, Frequency};
use glhf::buffer::Buffer;
use glhf::call::{Call, Payload};
use glhf::nonzero::NonZeroU32;
use glhf::slot::buffer::{MapRequest, Read, ReadWrite, UnmapError};
use glhf::GLHF;

const ARRAY: u32 = 0x8892;
const ELEMENT_ARRAY: u32 = 0x8893;
const PIXEL_PACK: u32 = 0x88EB;
const PIXEL_UNPACK: u32 = 0x88EC;
const UNIFORM: u32 = 0x8A11;
const TRANSFORM_FEEDBACK: u32 = 0x8C8E;
const COPY_READ: u32 = 0x8F36;
const COPY_WRITE: u32 = 0x8F37;

fn buffer(gl: &mut GLHF, raw: u32) -> Buffer {
    let [buffer] = gl
        .new
        .buffers::<1>(&mut gl.queue)
        .adopt([NonZeroU32::new(raw).unwrap()]);
    gl.queue.take();
    buffer
}

#[test]
fn every_slot_binds_to_its_own_target() {
    let mut gl = GLHF::current();
    let b = buffer(&mut gl, 6);
    gl.buffer.array.bind(&mut gl.queue, &b);
    gl.buffer.copy_read.bind(&mut gl.queue, &b);
    gl.buffer.copy_write.bind(&mut gl.queue, &b);
    gl.buffer.element_array.bind(&mut gl.queue, &b);
    gl.buffer.pixel_pack.bind(&mut gl.queue, &b);
    gl.buffer.pixel_unpack.bind(&mut gl.queue, &b);
    gl.buffer.transform_feedback.bind(&mut gl.queue, &b);
    gl.buffer.uniform.bind(&mut gl.queue, &b);
    let targets = [
        ARRAY,
        COPY_READ,
        COPY_WRITE,
        ELEMENT_ARRAY,
        PIXEL_PACK,
        PIXEL_UNPACK,
        TRANSFORM_FEEDBACK,
        UNIFORM,
    ];
    assert_eq!(gl.queue.len(), targets.len());
    for (index, target) in targets.into_iter().enumerate() {
        assert_eq!(gl.queue.call(index), Call::BindBuffer { target, buffer: 6 });
        assert_eq!(*gl.queue.payload(index), Payload::Empty);
    }
}

#[test]
fn unbind_binds_zero() {
    let mut gl = GLHF::current();
    gl.buffer.element_array.unbind(&mut gl.queue);
    assert_eq!(gl.queue.len(), 1);
    assert_eq!(
        gl.queue.call(0),
        Call::BindBuffer {
            target: ELEMENT_ARRAY,
            buffer: 0
        }
    );
}

#[test]
fn inherit_queues_nothing() {
    let mut gl = GLHF::current();
    let _ = gl.buffer.array.inherit();
    let _ = gl.buffer.array.inherit_mut();
    assert!(gl.queue.is_empty());
}

#[test]
fn data_hands_over_the_bytes_and_the_usage() {
    let mut gl = GLHF::current();
    let b = buffer(&mut gl, 2);
    let active = gl.buffer.array.bind(&mut gl.queue, &b);
    active.data(&mut gl.queue, &[1, 2, 3, 4, 5], Frequency::Dynamic, Access::Copy);
    active.data(&mut gl.queue, &[], Frequency::Stream, Access::Read);
    assert_eq!(
        gl.queue.call(1),
        Call::BufferData {
            target: ARRAY,
            size: 5,
            usage: 0x88EA
        }
    );
    assert_eq!(*gl.queue.payload(1), Payload::Bytes(vec![1, 2, 3, 4, 5]));
    assert_eq!(
        gl.queue.call(2),
        Call::BufferData {
            target: ARRAY,
            size: 0,
            usage: 0x88E1
        }
    );
    assert_eq!(*gl.queue.payload(2), Payload::Bytes(vec![]));
}

#[test]
fn data_uninit_hands_over_a_length_and_no_bytes() {
    let mut gl = GLHF::current();
    let b = buffer(&mut gl, 2);
    gl.buffer
        .uniform
        .bind(&mut gl.queue, &b)
        .data_uninit(&mut gl.queue, 64, Frequency::Static, Access::Draw);
    assert_eq!(
        gl.queue.call(1),
        Call::BufferData {
            target: UNIFORM,
            size: 64,
            usage: 0x88E4
        }
    );
    assert_eq!(*gl.queue.payload(1), Payload::Empty);
}

#[test]
fn sub_data_hands_over_the_offset_and_the_bytes() {
    let mut gl = GLHF::current();
    let b = buffer(&mut gl, 2);
    gl.buffer
        .array
        .bind(&mut gl.queue, &b)
        .sub_data(&mut gl.queue, 16, &[7, 7, 7]);
    assert_eq!(
        gl.queue.call(1),
        Call::BufferSubData {
            target: ARRAY,
            offset: 16,
            size: 3
        }
    );
    assert_eq!(*gl.queue.payload(1), Payload::Bytes(vec![7, 7, 7]));
}

#[test]
fn sub_data_of_no_bytes_queues_nothing() {
    let mut gl = GLHF::current();
    let b = buffer(&mut gl, 2);
    let active = gl.buffer.array.bind(&mut gl.queue, &b);
    let before = gl.queue.len();
    active
        .sub_data(&mut gl.queue, 0, &[])
        .sub_data(&mut gl.queue, 16, &[])
        .sub_data(&mut gl.queue, usize::MAX, &[]);
    assert_eq!(gl.queue.len(), before);
    active.sub_data(&mut gl.queue, 16, &[1]);
    assert_eq!(gl.queue.len(), before + 1);
}

#[test]
fn copies_name_the_target_read_first() {
    let mut gl = GLHF::current();
    let from = buffer(&mut gl, 2);
    let to = buffer(&mut gl, 3);
    let read = gl.buffer.copy_read.bind(&mut gl.queue, &from);
    let write = gl.buffer.copy_write.bind(&mut gl.queue, &to);
    write.copy_from(&mut gl.queue, read, 1, 2, 3);
    read.copy_to(&mut gl.queue, write, 4, 5, 6);
    write.copy_self(&mut gl.queue, 0, 8, 8);
    assert_eq!(gl.queue.len(), 5);
    assert_eq!(
        gl.queue.call(2),
        Call::CopyBufferSubData {
            read_target: COPY_READ,
            write_target: COPY_WRITE,
            read_offset: 1,
            write_offset: 2,
            size: 3
        }
    );
    assert_eq!(
        gl.queue.call(3),
        Call::CopyBufferSubData {
            read_target: COPY_READ,
            write_target: COPY_WRITE,
            read_offset: 4,
            write_offset: 5,
            size: 6
        }
    );
    assert_eq!(
        gl.queue.call(4),
        Call::CopyBufferSubData {
            read_target: COPY_WRITE,
            write_target: COPY_WRITE,
            read_offset: 0,
            write_offset: 8,
            size: 8
        }
    );
}

#[test]
fn copies_of_no_bytes_queue_nothing() {
    let mut gl = GLHF::current();
    let from = buffer(&mut gl, 2);
    let to = buffer(&mut gl, 3);
    let read = gl.buffer.copy_read.bind(&mut gl.queue, &from);
    let write = gl.buffer.copy_write.bind(&mut gl.queue, &to);
    let before = gl.queue.len();
    write.copy_from(&mut gl.queue, read, 1, 2, 0);
    read.copy_to(&mut gl.queue, write, usize::MAX, usize::MAX, 0);
    write.copy_self(&mut gl.queue, 3, 3, 0);
    assert_eq!(gl.queue.len(), before);
}

#[test]
fn len_is_the_integer_that_the_driver_wrote() {
    let mut gl = GLHF::current();
    let b = buffer(&mut gl, 2);
    let active = gl.buffer.array.bind(&mut gl.queue, &b);
    let query = active.len(&mut gl.queue);
    assert_eq!(
        gl.queue.call(1),
        Call::GetBufferParameteri64v {
            target: ARRAY,
            pname: 0x8764
        }
    );
    assert_eq!(query.answer(4096), 4096);
    assert_eq!(active.len(&mut gl.queue).answer(0), 0);
}

#[test]
fn is_empty_asks_for_the_length() {
    let mut gl = GLHF::current();
    let b = buffer(&mut gl, 2);
    let active = gl.buffer.pixel_pack.bind(&mut gl.queue, &b);
    let query = active.is_empty(&mut gl.queue);
    assert_eq!(
        gl.queue.call(1),
        Call::GetBufferParameteri64v {
            target: PIXEL_PACK,
            pname: 0x8764
        }
    );
    assert!(query.answer(0));
    assert!(!active.is_empty(&mut gl.queue).answer(1));
}

#[test]
fn usage_is_read_from_the_constant_that_the_driver_wrote() {
    let mut gl = GLHF::current();
    let b = buffer(&mut gl, 2);
    let active = gl.buffer.array.bind(&mut gl.queue, &b);
    let query = active.usage(&mut gl.queue);
    assert_eq!(
        gl.queue.call(1),
        Call::GetBufferParameteriv {
            target: ARRAY,
            pname: 0x8765
        }
    );
    assert_eq!(query.answer(0x88E8), (Frequency::Dynamic, Access::Draw));
    assert_eq!(
        active.usage(&mut gl.queue).answer(0x88E6),
        (Frequency::Static, Access::Copy)
    );
    assert_eq!(
        active.usage(&mut gl.queue).answer(0x88E1),
        (Frequency::Stream, Access::Read)
    );
}

#[test]
fn map_of_a_bounded_range_asks_for_the_mapping_at_once() {
    let mut gl = GLHF::current();
    let b = buffer(&mut gl, 2);
    let active = gl.buffer.array.bind(&mut gl.queue, &b);
    let request = active.map::<Read>(&mut gl.queue, Bound::Included(4), Bound::Excluded(10));
    assert_eq!(gl.queue.len(), 2);
    assert_eq!(
        gl.queue.call(1),
        Call::MapBufferRange {
            target: ARRAY,
            offset: 4,
            length: 6,
            access: 1
        }
    );
    let MapRequest::Range(mapping) = request else {
        panic!("a bounded range needs no length");
    };
    let guard = mapping.answer(vec![10, 11, 12, 13, 14, 15]);
    assert_eq!(guard.deref(), &[10, 11, 12, 13, 14, 15]);
}

#[test]
fn map_counts_the_bounds_as_they_are_meant() {
    let mut gl = GLHF::current();
    let b = buffer(&mut gl, 2);
    let active = gl.buffer.array.bind(&mut gl.queue, &b);
    let _ = active.map::<ReadWrite>(&mut gl.queue, Bound::Excluded(4), Bound::Included(10));
    let _ = active.map::<ReadWrite>(&mut gl.queue, Bound::Unbounded, Bound::Excluded(3));
    let _ = active.map::<Read>(&mut gl.queue, Bound::Included(7), Bound::Excluded(7));
    assert_eq!(
        gl.queue.call(1),
        Call::MapBufferRange {
            target: ARRAY,
            offset: 5,
            length: 6,
            access: 3
        }
    );
    assert_eq!(
        gl.queue.call(2),
        Call::MapBufferRange {
            target: ARRAY,
            offset: 0,
            length: 3,
            access: 3
        }
    );
    assert_eq!(
        gl.queue.call(3),
        Call::MapBufferRange {
            target: ARRAY,
            offset: 7,
            length: 0,
            access: 1
        }
    );
}

#[test]
fn map_without_an_upper_end_asks_for_the_length_first() {
    let mut gl = GLHF::current();
    let b = buffer(&mut gl, 2);
    let active = gl.buffer.uniform.bind(&mut gl.queue, &b);
    let request = active.map::<ReadWrite>(&mut gl.queue, Bound::Included(8), Bound::Unbounded);
    assert_eq!(gl.queue.len(), 2);
    assert_eq!(
        gl.queue.call(1),
        Call::GetBufferParameteri64v {
            target: UNIFORM,
            pname: 0x8764
        }
    );
    let MapRequest::Length(measuring) = request else {
        panic!("a range without an end needs the length");
    };
    let mapping = measuring.answer(&mut gl.queue, 20);
    assert_eq!(gl.queue.len(), 3);
    assert_eq!(
        gl.queue.call(2),
        Call::MapBufferRange {
            target: UNIFORM,
            offset: 8,
            length: 12,
            access: 3
        }
    );
    let guard = mapping.answer(vec![0; 12]);
    assert_eq!(guard.deref().len(), 12);
}

#[test]
fn unmap_of_a_written_mapping_hands_the_bytes_back() {
    let mut gl = GLHF::current();
    let b = buffer(&mut gl, 2);
    let active = gl.buffer.array.bind(&mut gl.queue, &b);
    let MapRequest::Range(mapping) =
        active.map::<ReadWrite>(&mut gl.queue, Bound::Included(0), Bound::Excluded(3))
    else {
        panic!("a bounded range needs no length");
    };
    let mut guard = mapping.answer(vec![0, 0, 0]);
    guard.deref_mut().copy_from_slice(&[1, 2, 3]);
    assert_eq!(guard.deref(), &[1, 2, 3]);
    let unmapping = guard.unmap(&mut gl.queue);
    assert_eq!(gl.queue.call(2), Call::UnmapBuffer { target: ARRAY });
    assert_eq!(*gl.queue.payload(2), Payload::Bytes(vec![1, 2, 3]));
    assert_eq!(unmapping.answer(1), Ok(()));
}

#[test]
fn unmap_of_a_read_mapping_hands_nothing_back() {
    let mut gl = GLHF::current();
    let b = buffer(&mut gl, 2);
    let active = gl.buffer.array.bind(&mut gl.queue, &b);
    let MapRequest::Range(mapping) =
        active.map::<Read>(&mut gl.queue, Bound::Included(0), Bound::Excluded(3))
    else {
        panic!("a bounded range needs no length");
    };
    let guard = mapping.answer(vec![4, 5, 6]);
    let unmapping = guard.unmap(&mut gl.queue);
    assert_eq!(gl.queue.call(2), Call::UnmapBuffer { target: ARRAY });
    assert_eq!(*gl.queue.payload(2), Payload::Empty);
    assert_eq!(unmapping.answer(1), Ok(()));
}

#[test]
fn unmap_reports_a_lost_store() {
    let mut gl = GLHF::current();
    let b = buffer(&mut gl, 2);
    let active = gl.buffer.array.bind(&mut gl.queue, &b);
    let MapRequest::Range(mapping) =
        active.map::<Read>(&mut gl.queue, Bound::Unbounded, Bound::Excluded(1))
    else {
        panic!("a bounded range needs no length");
    };
    let unmapping = mapping.answer(vec![0]).unmap(&mut gl.queue);
    assert_eq!(unmapping.answer(0), Err(UnmapError::Lost));
}

#[test]
fn the_token_is_free_again_after_unmap() {
    let mut gl = GLHF::current();
    let b = buffer(&mut gl, 2);
    let active = gl.buffer.array.bind(&mut gl.queue, &b);
    let MapRequest::Range(mapping) =
        active.map::<Read>(&mut gl.queue, Bound::Unbounded, Bound::Excluded(1))
    else {
        panic!("a bounded range needs no length");
    };
    let _ = mapping.answer(vec![0]).unmap(&mut gl.queue);
    active.sub_data(&mut gl.queue, 0, &[1]);
    assert_eq!(gl.queue.len(), 4);
}

#[test]
fn buffers_are_deleted_by_name() {
    let mut gl = GLHF::current();
    let first = buffer(&mut gl, 8);
    let second = buffer(&mut gl, 9);
    gl.buffer.delete(&mut gl.queue, [first, second]);
    assert_eq!(gl.queue.call(0), Call::DeleteBuffers { n: 2 });
    assert_eq!(*gl.queue.payload(0), Payload::Words(vec![8, 9]));
}
