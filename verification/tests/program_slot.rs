use glhf::call::{Call, Float, Payload};
use glhf::nonzero::NonZeroU32;
use glhf::program::uniform::{
    Mat2, Mat2x3, Mat2x4, Mat3, Mat3x2, Mat3x4, Mat4, Mat4x2, Mat4x3, Matrix, Vec2, Vec3, Vec4,
    Vector,
};
use glhf::program::{Fragment, LinkedProgram, ProgramShaders, Vertex};
use glhf::slot::program::{LogSource, LogText};
use glhf::ThinGLObject;
use glhf::GLHF;

fn name(raw: u32) -> NonZeroU32 {
    NonZeroU32::new(raw).unwrap()
}

fn linked(gl: &mut GLHF) -> LinkedProgram {
    let program = gl
        .new
        .program(&mut gl.queue)
        .adopt(name(40))
        .into_linked_unchecked();
    gl.queue.take();
    program
}

fn floats<const N: usize>(first: u32) -> [Float; N] {
    let mut values = [Float(0); N];
    for (index, value) in values.iter_mut().enumerate() {
        *value = Float(first + index as u32);
    }
    values
}

fn columns<const R: usize, const C: usize>(first: u32) -> [[Float; R]; C] {
    let mut values = [[Float(0); R]; C];
    for (index, column) in values.iter_mut().enumerate() {
        *column = floats::<R>(first + (index * R) as u32);
    }
    values
}

fn words(first: u32, count: u32) -> Payload {
    Payload::Words((first..first + count).collect())
}

fn text(log: Option<LogText>) -> LogText {
    match log {
        Some(text) => text,
        None => panic!("the log is not empty"),
    }
}

#[test]
fn the_slot_uses_and_unuses_programs() {
    let mut gl = GLHF::current();
    let program = linked(&mut gl);
    gl.program.bind(&mut gl.queue, &program);
    gl.program.unbind(&mut gl.queue);
    let _ = gl.program.inherit();
    let _ = gl.program.inherit_mut();
    assert_eq!(gl.queue.len(), 2);
    assert_eq!(gl.queue.call(0), Call::UseProgram { program: 40 });
    assert_eq!(gl.queue.call(1), Call::UseProgram { program: 0 });
}

#[test]
fn compile_hands_the_source_on_and_asks_for_the_status() {
    let mut gl = GLHF::current();
    let shader = gl.new.shader::<Vertex>(&mut gl.queue).adopt(name(6));
    gl.queue.take();
    let compiling = gl.program.compile(&mut gl.queue, shader, "void main(){}");
    assert_eq!(gl.queue.len(), 3);
    assert_eq!(
        gl.queue.call(0),
        Call::ShaderSource {
            shader: 6,
            length: 13
        }
    );
    assert_eq!(
        *gl.queue.payload(0),
        Payload::Bytes(b"void main(){}".to_vec())
    );
    assert_eq!(gl.queue.call(1), Call::CompileShader { shader: 6 });
    assert_eq!(
        gl.queue.call(2),
        Call::GetShaderiv {
            shader: 6,
            pname: 0x8B81
        }
    );
    let Ok(compiled) = compiling.answer(1) else {
        panic!("the status says compiled");
    };
    assert_eq!(compiled.name().get(), 6);
}

#[test]
fn compile_counts_the_bytes_of_the_source() {
    let mut gl = GLHF::current();
    let shader = gl.new.shader::<Fragment>(&mut gl.queue).adopt(name(6));
    gl.queue.take();
    let _ = gl.program.compile(&mut gl.queue, shader, "// é\0");
    assert_eq!(
        gl.queue.call(0),
        Call::ShaderSource {
            shader: 6,
            length: 6
        }
    );
    assert_eq!(
        *gl.queue.payload(0),
        Payload::Bytes(vec![b'/', b'/', b' ', 0xC3, 0xA9, 0])
    );
}

#[test]
fn a_failed_compilation_gives_the_shader_back() {
    let mut gl = GLHF::current();
    let shader = gl.new.shader::<Fragment>(&mut gl.queue).adopt(name(6));
    for status in [0, 2, -1] {
        let shader = gl.new.shader::<Fragment>(&mut gl.queue).adopt(name(6));
        let Err(error) = gl.program.compile(&mut gl.queue, shader, "").answer(status) else {
            panic!("the status says failed");
        };
        assert_eq!(error.shader.name().get(), 6);
    }
    gl.queue.take();
    gl.program.delete_shader(&mut gl.queue, shader);
    assert_eq!(gl.queue.call(0), Call::DeleteShader { shader: 6 });
}

#[test]
fn link_attaches_links_asks_and_detaches() {
    let mut gl = GLHF::current();
    let vertex = gl
        .new
        .shader::<Vertex>(&mut gl.queue)
        .adopt(name(6))
        .into_compiled_unchecked();
    let fragment = gl
        .new
        .shader::<Fragment>(&mut gl.queue)
        .adopt(name(7))
        .into_compiled_unchecked();
    let program = gl.new.program(&mut gl.queue).adopt(name(8));
    gl.queue.take();
    let linking = gl.program.link(
        &mut gl.queue,
        program,
        ProgramShaders::Graphics {
            vertex: &vertex,
            fragment: &fragment,
        },
    );
    let expected = [
        Call::AttachShader {
            program: 8,
            shader: 6,
        },
        Call::AttachShader {
            program: 8,
            shader: 7,
        },
        Call::LinkProgram { program: 8 },
        Call::GetProgramiv {
            program: 8,
            pname: 0x8B82,
        },
        Call::DetachShader {
            program: 8,
            shader: 6,
        },
        Call::DetachShader {
            program: 8,
            shader: 7,
        },
    ];
    assert_eq!(gl.queue.len(), expected.len());
    for (index, call) in expected.into_iter().enumerate() {
        assert_eq!(gl.queue.call(index), call);
        assert_eq!(*gl.queue.payload(index), Payload::Empty);
    }
    let Ok(linked) = linking.answer(1) else {
        panic!("the status says linked");
    };
    assert_eq!(linked.name().get(), 8);
}

#[test]
fn a_failed_linking_gives_the_program_back() {
    let mut gl = GLHF::current();
    let vertex = gl
        .new
        .shader::<Vertex>(&mut gl.queue)
        .adopt(name(6))
        .into_compiled_unchecked();
    let fragment = gl
        .new
        .shader::<Fragment>(&mut gl.queue)
        .adopt(name(7))
        .into_compiled_unchecked();
    let program = gl.new.program(&mut gl.queue).adopt(name(8));
    let shaders = ProgramShaders::Graphics {
        vertex: &vertex,
        fragment: &fragment,
    };
    let Err(error) = gl.program.link(&mut gl.queue, program, shaders).answer(0) else {
        panic!("the status says failed");
    };
    assert_eq!(error.program.name().get(), 8);
    gl.queue.take();
    gl.program.delete(&mut gl.queue, error.program);
    assert_eq!(gl.queue.call(0), Call::DeleteProgram { program: 8 });
}

#[test]
fn the_log_of_a_shader_is_asked_for_in_two_steps() {
    let mut gl = GLHF::current();
    let shader = gl.new.shader::<Vertex>(&mut gl.queue).adopt(name(6));
    gl.queue.take();
    let length = gl.program.shader_log(&mut gl.queue, &shader);
    assert_eq!(
        gl.queue.call(0),
        Call::GetShaderiv {
            shader: 6,
            pname: 0x8B84
        }
    );
    let log = text(length.answer(&mut gl.queue, 8));
    assert_eq!(gl.queue.len(), 2);
    assert_eq!(
        gl.queue.call(1),
        Call::GetShaderInfoLog {
            shader: 6,
            buf_size: 8
        }
    );
    assert_eq!(log.answer(7, b"bad foo\0".to_vec()), b"bad foo\0".to_vec());
}

#[test]
fn the_log_ends_where_the_driver_stopped_writing() {
    let mut gl = GLHF::current();
    let program = gl.new.program(&mut gl.queue).adopt(name(8));
    gl.queue.take();
    let length = gl.program.program_log(&mut gl.queue, &program);
    assert_eq!(
        gl.queue.call(0),
        Call::GetProgramiv {
            program: 8,
            pname: 0x8B84
        }
    );
    let log = text(length.answer(&mut gl.queue, 6));
    assert_eq!(
        gl.queue.call(1),
        Call::GetProgramInfoLog {
            program: 8,
            buf_size: 6
        }
    );
    assert_eq!(log.answer(2, b"no\0\0\0\0".to_vec()), b"no\0".to_vec());
}

#[test]
fn an_empty_log_is_not_asked_for() {
    let mut gl = GLHF::current();
    let program = gl.new.program(&mut gl.queue).adopt(name(8));
    gl.queue.take();
    let length = gl.program.program_log(&mut gl.queue, &program);
    assert!(length.answer(&mut gl.queue, 0).is_none());
    assert_eq!(gl.queue.len(), 1);
    assert_eq!(LogSource::Program(8), LogSource::Program(8));
}

#[test]
fn scalar_uniforms_of_each_type() {
    let mut gl = GLHF::current();
    let program = linked(&mut gl);
    let active = gl.program.bind(&mut gl.queue, &program);
    gl.queue.take();
    active
        .uniform(&mut gl.queue, 3, Vector::Scalar(&[Float(10), Float(11)]))
        .uniform(&mut gl.queue, 4, Vector::Scalar(&[-1i32, 2, 3]))
        .uniform(&mut gl.queue, 5, Vector::Scalar(&[7u32]));
    assert_eq!(
        gl.queue.call(0),
        Call::Uniform1fv {
            location: 3,
            count: 2
        }
    );
    assert_eq!(*gl.queue.payload(0), Payload::Words(vec![10, 11]));
    assert_eq!(
        gl.queue.call(1),
        Call::Uniform1iv {
            location: 4,
            count: 3
        }
    );
    assert_eq!(*gl.queue.payload(1), Payload::Words(vec![0xFFFF_FFFF, 2, 3]));
    assert_eq!(
        gl.queue.call(2),
        Call::Uniform1uiv {
            location: 5,
            count: 1
        }
    );
    assert_eq!(*gl.queue.payload(2), Payload::Words(vec![7]));
}

#[test]
fn vector_uniforms_of_each_size_and_type() {
    let mut gl = GLHF::current();
    let program = linked(&mut gl);
    let active = gl.program.bind(&mut gl.queue, &program);
    gl.queue.take();
    active
        .uniform(
            &mut gl.queue,
            0,
            Vector::Vec2(&[Vec2(floats(0)), Vec2(floats(2))]),
        )
        .uniform(&mut gl.queue, 1, Vector::Vec3(&[Vec3(floats(0))]))
        .uniform(
            &mut gl.queue,
            2,
            Vector::Vec4(&[Vec4(floats(0)), Vec4(floats(4)), Vec4(floats(8))]),
        )
        .uniform(&mut gl.queue, 3, Vector::Vec2(&[Vec2([0i32, 1])]))
        .uniform(&mut gl.queue, 4, Vector::Vec3(&[Vec3([0i32, 1, 2])]))
        .uniform(&mut gl.queue, 5, Vector::Vec4(&[Vec4([0i32, 1, 2, 3])]))
        .uniform(&mut gl.queue, 6, Vector::Vec2(&[Vec2([0u32, 1])]))
        .uniform(&mut gl.queue, 7, Vector::Vec3(&[Vec3([0u32, 1, 2])]))
        .uniform(&mut gl.queue, 8, Vector::Vec4(&[Vec4([0u32, 1, 2, 3])]));
    let expected = [
        (
            Call::Uniform2fv {
                location: 0,
                count: 2,
            },
            4,
        ),
        (
            Call::Uniform3fv {
                location: 1,
                count: 1,
            },
            3,
        ),
        (
            Call::Uniform4fv {
                location: 2,
                count: 3,
            },
            12,
        ),
        (
            Call::Uniform2iv {
                location: 3,
                count: 1,
            },
            2,
        ),
        (
            Call::Uniform3iv {
                location: 4,
                count: 1,
            },
            3,
        ),
        (
            Call::Uniform4iv {
                location: 5,
                count: 1,
            },
            4,
        ),
        (
            Call::Uniform2uiv {
                location: 6,
                count: 1,
            },
            2,
        ),
        (
            Call::Uniform3uiv {
                location: 7,
                count: 1,
            },
            3,
        ),
        (
            Call::Uniform4uiv {
                location: 8,
                count: 1,
            },
            4,
        ),
    ];
    assert_eq!(gl.queue.len(), expected.len());
    for (index, (call, count)) in expected.into_iter().enumerate() {
        assert_eq!(gl.queue.call(index), call);
        assert_eq!(*gl.queue.payload(index), words(0, count));
    }
}

#[test]
fn matrix_uniforms_of_each_shape() {
    let mut gl = GLHF::current();
    let program = linked(&mut gl);
    let active = gl.program.bind(&mut gl.queue, &program);
    gl.queue.take();
    let location = 9;
    let transpose = false;
    active
        .uniform_matrix(&mut gl.queue, 9, Matrix::Mat2(&[Mat2(columns(0))]))
        .uniform_matrix(&mut gl.queue, 9, Matrix::Mat3(&[Mat3(columns(0))]))
        .uniform_matrix(
            &mut gl.queue,
            9,
            Matrix::Mat4(&[Mat4(columns(0)), Mat4(columns(16))]),
        )
        .uniform_matrix(&mut gl.queue, 9, Matrix::Mat2x3(&[Mat2x3(columns(0))]))
        .uniform_matrix(&mut gl.queue, 9, Matrix::Mat2x4(&[Mat2x4(columns(0))]))
        .uniform_matrix(&mut gl.queue, 9, Matrix::Mat3x2(&[Mat3x2(columns(0))]))
        .uniform_matrix(&mut gl.queue, 9, Matrix::Mat3x4(&[Mat3x4(columns(0))]))
        .uniform_matrix(&mut gl.queue, 9, Matrix::Mat4x3(&[Mat4x3(columns(0))]))
        .uniform_matrix(&mut gl.queue, 9, Matrix::Mat4x2(&[Mat4x2(columns(0))]));
    let expected = [
        (
            Call::UniformMatrix2fv {
                location,
                count: 1,
                transpose,
            },
            4,
        ),
        (
            Call::UniformMatrix3fv {
                location,
                count: 1,
                transpose,
            },
            9,
        ),
        (
            Call::UniformMatrix4fv {
                location,
                count: 2,
                transpose,
            },
            32,
        ),
        (
            Call::UniformMatrix2x3fv {
                location,
                count: 1,
                transpose,
            },
            6,
        ),
        (
            Call::UniformMatrix2x4fv {
                location,
                count: 1,
                transpose,
            },
            8,
        ),
        (
            Call::UniformMatrix3x2fv {
                location,
                count: 1,
                transpose,
            },
            6,
        ),
        (
            Call::UniformMatrix3x4fv {
                location,
                count: 1,
                transpose,
            },
            12,
        ),
        (
            Call::UniformMatrix4x3fv {
                location,
                count: 1,
                transpose,
            },
            12,
        ),
        (
            Call::UniformMatrix4x2fv {
                location,
                count: 1,
                transpose,
            },
            8,
        ),
    ];
    assert_eq!(gl.queue.len(), expected.len());
    for (index, (call, count)) in expected.into_iter().enumerate() {
        assert_eq!(gl.queue.call(index), call);
        assert_eq!(*gl.queue.payload(index), words(0, count));
    }
}

#[test]
fn empty_uniforms_queue_nothing() {
    let mut gl = GLHF::current();
    let program = linked(&mut gl);
    let active = gl.program.bind(&mut gl.queue, &program);
    gl.queue.take();
    let none: [Vec3<i32>; 0] = [];
    active
        .uniform(&mut gl.queue, u32::MAX, Vector::<Float>::Scalar(&[]))
        .uniform(&mut gl.queue, 0, Vector::Vec3(&none))
        .uniform_matrix(&mut gl.queue, u32::MAX, Matrix::Mat4(&[]));
    assert!(gl.queue.is_empty());
}

#[test]
fn lengths_and_locations_of_values() {
    let matrices = [Mat4x3(columns(0)), Mat4x3(columns(0))];
    let value = Matrix::Mat4x3(&matrices);
    assert_eq!(value.len(), 2);
    assert!(!value.is_empty());
    assert_eq!(value.locations(), 8);
    let matrices = [Mat2x4(columns(0)), Mat2x4(columns(0)), Mat2x4(columns(0))];
    assert_eq!(Matrix::Mat2x4(&matrices).locations(), 6);
    let matrices = [Mat3x2(columns(0))];
    assert_eq!(Matrix::Mat3x2(&matrices).locations(), 3);
    let matrices = [Mat4x2(columns(0)), Mat4x2(columns(0))];
    assert_eq!(Matrix::Mat4x2(&matrices).locations(), 8);
    assert_eq!(Matrix::Mat3(&[]).locations(), 0);
    assert!(Matrix::Mat3(&[]).is_empty());
    let vectors = [Vec4([1u32, 2, 3, 4]), Vec4([5, 6, 7, 8])];
    let value = Vector::Vec4(&vectors);
    assert_eq!(value.len(), 2);
    assert_eq!(value.locations(), 2);
    assert!(!value.is_empty());
    assert!(Vector::<u32>::Scalar(&[]).is_empty());
    assert_eq!(Vector::Scalar(&[1i32, 2, 3]).locations(), 3);
}

#[test]
fn one_value_is_an_array_of_one() {
    let mut gl = GLHF::current();
    let program = linked(&mut gl);
    let active = gl.program.bind(&mut gl.queue, &program);
    gl.queue.take();
    let scalar = Float(5);
    let vector = Vec3([1u32, 2, 3]);
    let matrix = Mat2(columns(20));
    let several = [Vec2([1i32, 2]), Vec2([3, 4])];
    active
        .uniform(&mut gl.queue, 0, Vector::from(&scalar))
        .uniform(&mut gl.queue, 1, Vector::from(&vector))
        .uniform(&mut gl.queue, 2, Vector::from(&several[..]))
        .uniform_matrix(&mut gl.queue, 3, Matrix::from(&matrix));
    assert_eq!(
        gl.queue.call(0),
        Call::Uniform1fv {
            location: 0,
            count: 1
        }
    );
    assert_eq!(*gl.queue.payload(0), Payload::Words(vec![5]));
    assert_eq!(
        gl.queue.call(1),
        Call::Uniform3uiv {
            location: 1,
            count: 1
        }
    );
    assert_eq!(*gl.queue.payload(1), Payload::Words(vec![1, 2, 3]));
    assert_eq!(
        gl.queue.call(2),
        Call::Uniform2iv {
            location: 2,
            count: 2
        }
    );
    assert_eq!(*gl.queue.payload(2), Payload::Words(vec![1, 2, 3, 4]));
    assert_eq!(
        gl.queue.call(3),
        Call::UniformMatrix2fv {
            location: 3,
            count: 1,
            transpose: false
        }
    );
    assert_eq!(*gl.queue.payload(3), words(20, 4));
    let back: [[Float; 2]; 2] = matrix.into();
    assert_eq!(back, columns(20));
    assert_eq!(Mat2::from(back).0, columns(20));
}
