use std::collections::HashMap;

use glhf::bound::Bound;
use glhf::buffer::usage::{Access, Frequency};
use glhf::buffer::Buffer;
use glhf::call::{Call, Command, Payload};
use glhf::draw::{ArrayState, ElementState, ElementType, Topology};
use glhf::nonzero::NonZeroU32;
use glhf::slot::buffer::{MapRequest, Read, ReadWrite};
use glhf::slot::framebuffer::IncompleteErrorKind;
use glhf::GLHF;

/// What a call is answered with.
#[derive(Debug, PartialEq)]
enum Answer {
    Names(Vec<u32>),
    Size(i64),
    Bytes(Vec<u8>),
    Flag(u8),
    Status(u32),
}

/// A stand-in for the driver that keeps the stores of buffers and the
/// attachments of framebuffers, and counts the calls that reach it.
#[derive(Default)]
struct Fake {
    calls: usize,
    next: u32,
    bound: HashMap<u32, u32>,
    stores: HashMap<u32, Vec<u8>>,
    mapped: HashMap<u32, usize>,
    framebuffer: u32,
    attachments: HashMap<u32, usize>,
}

impl Fake {
    fn names(&mut self, n: i32) -> Answer {
        let names = (0..n as u32).map(|i| self.next + 1 + i).collect();
        self.next += n as u32;
        Answer::Names(names)
    }

    fn issue(&mut self, commands: Vec<Command>) -> Vec<Answer> {
        let mut answers = Vec::new();
        for Command { call, payload } in commands {
            self.calls += 1;
            match (call, payload) {
                (Call::GenBuffers { n }, _) | (Call::GenFramebuffers { n }, _) => {
                    let names = self.names(n);
                    answers.push(names);
                }
                (Call::BindBuffer { target, buffer }, _) => {
                    self.bound.insert(target, buffer);
                }
                (Call::BufferData { target, size, .. }, payload) => {
                    let store = match payload {
                        Payload::Bytes(bytes) => bytes,
                        _ => vec![0xCD; size as usize],
                    };
                    assert_eq!(store.len(), size as usize);
                    self.stores.insert(self.bound[&target], store);
                }
                (Call::BufferSubData { target, offset, size }, Payload::Bytes(bytes)) => {
                    assert_eq!(bytes.len(), size as usize);
                    let store = self.stores.get_mut(&self.bound[&target]).unwrap();
                    store[offset as usize..offset as usize + bytes.len()].copy_from_slice(&bytes);
                }
                (Call::GetBufferParameteri64v { target, pname: 0x8764 }, _) => {
                    let store = self.stores.get(&self.bound[&target]);
                    answers.push(Answer::Size(store.map_or(0, Vec::len) as i64));
                }
                (Call::MapBufferRange { target, offset, length, .. }, _) => {
                    let name = self.bound[&target];
                    let range = offset as usize..(offset + length) as usize;
                    answers.push(Answer::Bytes(self.stores[&name][range].to_vec()));
                    self.mapped.insert(name, offset as usize);
                }
                (Call::UnmapBuffer { target }, payload) => {
                    let name = self.bound[&target];
                    let offset = self.mapped.remove(&name).unwrap();
                    if let Payload::Bytes(bytes) = payload {
                        let store = self.stores.get_mut(&name).unwrap();
                        store[offset..offset + bytes.len()].copy_from_slice(&bytes);
                    }
                    answers.push(Answer::Flag(1));
                }
                (Call::BindFramebuffer { framebuffer, .. }, _) => {
                    self.framebuffer = framebuffer;
                }
                (Call::FramebufferTexture2D { .. }, _) => {
                    *self.attachments.entry(self.framebuffer).or_default() += 1;
                }
                (Call::CheckFramebufferStatus { .. }, _) => {
                    let attached = self.attachments.get(&self.framebuffer).copied();
                    answers.push(Answer::Status(match attached {
                        Some(_) => 0x8CD5,
                        None => 0x8CD7,
                    }));
                }
                _ => {}
            }
        }
        answers
    }
}

fn size(answers: Vec<Answer>) -> i64 {
    match answers.as_slice() {
        [Answer::Size(size)] => *size,
        _ => panic!("the calls have one answer, a size"),
    }
}

fn bytes(mut answers: Vec<Answer>) -> Vec<u8> {
    match answers.pop() {
        Some(Answer::Bytes(bytes)) if answers.is_empty() => bytes,
        _ => panic!("the calls have one answer, the mapped bytes"),
    }
}

fn flag(answers: Vec<Answer>) -> u8 {
    match answers.as_slice() {
        [Answer::Flag(flag)] => *flag,
        _ => panic!("the calls have one answer, a flag"),
    }
}

fn status(answers: Vec<Answer>) -> u32 {
    match answers.as_slice() {
        [Answer::Status(status)] => *status,
        _ => panic!("the calls have one answer, a status"),
    }
}

fn buffer(gl: &mut GLHF, fake: &mut Fake) -> Buffer {
    let fresh = gl.new.buffers::<1>(&mut gl.queue);
    let names = match fake.issue(gl.queue.take()).pop() {
        Some(Answer::Names(names)) => names,
        _ => panic!("the call is answered with names"),
    };
    let [buffer] = fresh.adopt([NonZeroU32::new(names[0]).unwrap()]);
    buffer
}

#[test]
fn draws_of_nothing_reach_no_driver() {
    let mut gl = GLHF::current();
    let mut fake = Fake::default();
    let indices = buffer(&mut gl, &mut fake);
    let [array] = gl
        .new
        .vertex_arrays::<1>(&mut gl.queue)
        .adopt([NonZeroU32::new(90).unwrap()]);
    let program = gl
        .new
        .program(&mut gl.queue)
        .adopt(NonZeroU32::new(91).unwrap())
        .into_linked_unchecked();
    let vertex_array = gl.vertex_array.bind(&mut gl.queue, &array);
    let elements = gl.buffer.element_array.bind(&mut gl.queue, &indices);
    let framebuffer = gl.framebuffer.draw.bind_default(&mut gl.queue);
    let program = gl.program.bind(&mut gl.queue, &program);
    fake.issue(gl.queue.take());
    let calls = fake.calls;
    let arrays = ArrayState {
        vertex_array,
        framebuffer: &framebuffer,
        program,
    };
    let indexed = ElementState {
        elements,
        vertex_array,
        framebuffer: &framebuffer,
        program,
    };
    for start in [0usize, 1, 77, usize::MAX] {
        for instances in [0usize, 1, 2, usize::MAX] {
            gl.draw
                .arrays(&mut gl.queue, Topology::Triangles, start..start, instances, arrays);
            gl.draw.elements(
                &mut gl.queue,
                Topology::Triangles,
                ElementType::U32,
                start..start,
                instances,
                indexed,
                0,
            );
        }
        gl.draw
            .arrays(&mut gl.queue, Topology::Lines, start..start / 2 + 5, 0, arrays);
        gl.draw.elements(
            &mut gl.queue,
            Topology::Lines,
            ElementType::U16,
            start..start / 2 + 5,
            0,
            indexed,
            0,
        );
        gl.draw.ranged_elements(
            &mut gl.queue,
            Topology::Points,
            ElementType::U8,
            start..start,
            0..=usize::MAX,
            indexed,
            0,
        );
    }
    assert!(gl.queue.is_empty());
    fake.issue(gl.queue.take());
    assert_eq!(fake.calls, calls);
    gl.draw
        .arrays(&mut gl.queue, Topology::Triangles, 0..3, 1, arrays);
    fake.issue(gl.queue.take());
    assert_eq!(fake.calls, calls + 1);
}

#[test]
fn the_length_is_that_of_the_last_data() {
    let mut gl = GLHF::current();
    let mut fake = Fake::default();
    let b = buffer(&mut gl, &mut fake);
    let active = gl.buffer.array.bind(&mut gl.queue, &b);
    active
        .data(&mut gl.queue, &[0; 16], Frequency::Static, Access::Draw)
        .sub_data(&mut gl.queue, 4, &[1, 2, 3, 4, 5, 6, 7, 8])
        .data(&mut gl.queue, &[9, 9, 9], Frequency::Static, Access::Draw);
    let query = active.len(&mut gl.queue);
    assert_eq!(query.answer(size(fake.issue(gl.queue.take()))), 3);
    active
        .sub_data(&mut gl.queue, 1, &[4, 4])
        .data_uninit(&mut gl.queue, 100, Frequency::Dynamic, Access::Read);
    let query = active.len(&mut gl.queue);
    assert_eq!(query.answer(size(fake.issue(gl.queue.take()))), 100);
    active
        .sub_data(&mut gl.queue, 50, &[4; 50])
        .data(&mut gl.queue, &[], Frequency::Stream, Access::Copy);
    let query = active.is_empty(&mut gl.queue);
    assert!(query.answer(size(fake.issue(gl.queue.take()))));
}

#[test]
fn an_empty_patch_reaches_no_driver_and_changes_nothing() {
    let mut gl = GLHF::current();
    let mut fake = Fake::default();
    let b = buffer(&mut gl, &mut fake);
    let active = gl.buffer.array.bind(&mut gl.queue, &b);
    active.data(&mut gl.queue, &[1, 2, 3], Frequency::Static, Access::Draw);
    fake.issue(gl.queue.take());
    let calls = fake.calls;
    // Beyond the end of the store, where a patch of any length would be
    // refused.
    active
        .sub_data(&mut gl.queue, 3, &[])
        .sub_data(&mut gl.queue, 1000, &[])
        .sub_data(&mut gl.queue, usize::MAX, &[]);
    assert!(gl.queue.is_empty());
    fake.issue(gl.queue.take());
    assert_eq!(fake.calls, calls);
    assert_eq!(fake.stores.values().next(), Some(&vec![1, 2, 3]));
    let query = active.len(&mut gl.queue);
    assert_eq!(query.answer(size(fake.issue(gl.queue.take()))), 3);
    active
        .sub_data(&mut gl.queue, 0, &[])
        .data(&mut gl.queue, &[7, 7], Frequency::Static, Access::Draw);
    let query = active.len(&mut gl.queue);
    assert_eq!(query.answer(size(fake.issue(gl.queue.take()))), 2);
}

#[test]
fn what_is_written_through_a_mapping_is_read_through_the_next() {
    let mut gl = GLHF::current();
    let mut fake = Fake::default();
    let b = buffer(&mut gl, &mut fake);
    let active = gl.buffer.array.bind(&mut gl.queue, &b);
    active.data(&mut gl.queue, &[0; 8], Frequency::Dynamic, Access::Read);
    let MapRequest::Range(mapping) =
        active.map::<ReadWrite>(&mut gl.queue, Bound::Included(2), Bound::Excluded(5))
    else {
        panic!("a bounded range needs no length");
    };
    let mut guard = mapping.answer(bytes(fake.issue(gl.queue.take())));
    assert_eq!(guard.deref(), &[0, 0, 0]);
    guard.deref_mut().copy_from_slice(&[1, 2, 3]);
    let unmapping = guard.unmap(&mut gl.queue);
    assert_eq!(unmapping.answer(flag(fake.issue(gl.queue.take()))), Ok(()));

    let MapRequest::Range(mapping) =
        active.map::<Read>(&mut gl.queue, Bound::Included(2), Bound::Excluded(5))
    else {
        panic!("a bounded range needs no length");
    };
    let guard = mapping.answer(bytes(fake.issue(gl.queue.take())));
    assert_eq!(guard.deref(), &[1, 2, 3]);
    let unmapping = guard.unmap(&mut gl.queue);
    assert_eq!(unmapping.answer(flag(fake.issue(gl.queue.take()))), Ok(()));

    let MapRequest::Length(measuring) =
        active.map::<Read>(&mut gl.queue, Bound::Unbounded, Bound::Unbounded)
    else {
        panic!("a range without an end needs the length");
    };
    let len = size(fake.issue(gl.queue.take()));
    let mapping = measuring.answer(&mut gl.queue, len);
    let guard = mapping.answer(bytes(fake.issue(gl.queue.take())));
    assert_eq!(guard.deref(), &[0, 0, 1, 2, 3, 0, 0, 0]);
}

#[test]
fn what_is_written_through_a_read_mapping_is_not_stored() {
    let mut gl = GLHF::current();
    let mut fake = Fake::default();
    let b = buffer(&mut gl, &mut fake);
    let active = gl.buffer.array.bind(&mut gl.queue, &b);
    active.data(&mut gl.queue, &[5, 6, 7], Frequency::Dynamic, Access::Read);
    let MapRequest::Range(mapping) =
        active.map::<Read>(&mut gl.queue, Bound::Unbounded, Bound::Included(2))
    else {
        panic!("a bounded range needs no length");
    };
    let guard = mapping.answer(bytes(fake.issue(gl.queue.take())));
    let _ = guard.unmap(&mut gl.queue);
    fake.issue(gl.queue.take());
    assert_eq!(fake.stores.values().next(), Some(&vec![5, 6, 7]));
}

#[test]
fn a_framebuffer_without_attachments_is_missing_one() {
    let mut gl = GLHF::current();
    let mut fake = Fake::default();
    let fresh = gl.new.framebuffers::<1>(&mut gl.queue);
    let Some(Answer::Names(names)) = fake.issue(gl.queue.take()).pop() else {
        panic!("the call is answered with names");
    };
    let [framebuffer] = fresh.adopt([NonZeroU32::new(names[0]).unwrap()]);
    let checking = gl.framebuffer.draw.try_complete(&mut gl.queue, framebuffer);
    let Err(error) = checking.answer(status(fake.issue(gl.queue.take()))) else {
        panic!("nothing is attached");
    };
    assert_eq!(error.kind, IncompleteErrorKind::MissingAttachment);
    let framebuffer = error.framebuffer;
    let again = gl.framebuffer.draw.try_complete(&mut gl.queue, framebuffer);
    let Err(error) = again.answer(status(fake.issue(gl.queue.take()))) else {
        panic!("nothing is attached");
    };
    assert_eq!(error.kind, IncompleteErrorKind::MissingAttachment);

    let [stateless] = gl
        .new
        .textures::<1>(&mut gl.queue)
        .adopt([NonZeroU32::new(70).unwrap()]);
    let (texture, _) = gl.texture.d2.initialize(&mut gl.queue, stateless);
    error.active.texture_2d(
        &mut gl.queue,
        &texture,
        glhf::framebuffer::Attachment::Color0,
        0,
    );
    let framebuffer = error.framebuffer;
    let checking = gl.framebuffer.draw.try_complete(&mut gl.queue, framebuffer);
    assert!(checking.answer(status(fake.issue(gl.queue.take()))).is_ok());
}
