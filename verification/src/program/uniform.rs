//! The values of uniform variables.
use vstd::arithmetic::div_mod::lemma_fundamental_div_mod_converse;
use vstd::prelude::*;

use crate::call::{Call, Float};
use crate::gl::types::{GLint, GLsizei};
use crate::sealed::Sealed;

verus! {

/// The scalar types of uniform variables.
#[derive(Clone, Copy, Debug, PartialEq, Eq, Structural)]
pub enum Ty {
    U32,
    I32,
    F32,
}

/// A value that lies in memory as a run of 32-bit words.
pub trait Packed: Sized {
    /// The number of words that one value takes.
    spec fn width() -> nat;

    /// The word at place `k` of the value.
    spec fn word(&self, k: int) -> u32;

    /// The number of words that one value takes.
    fn words() -> (width: usize)
        ensures
            width == Self::width(),
            width > 0,
    ;

    /// The word at place `k` of the value.
    fn word_at(&self, k: usize) -> (word: u32)
        requires
            k < Self::width(),
        ensures
            word == self.word(k as int),
    ;
}

/// The words of some values, one value after another.
pub open spec fn packed<P: Packed>(values: Seq<P>) -> Seq<u32> {
    Seq::new(
        values.len() * P::width(),
        |j: int| values[j / P::width() as int].word(j % P::width() as int),
    )
}

/// Lays the words of the values out one after another.
pub(crate) fn pack<P: Packed>(values: &[P]) -> (words: Vec<u32>)
    ensures
        words@ == packed(values@),
{
    let width = P::words();
    let mut words: Vec<u32> = Vec::new();
    let mut i: usize = 0;
    while i < values.len()
        invariant
            i <= values.len(),
            width == P::width(),
            width > 0,
            words@.len() == i * width,
            forall|j: int|
                0 <= j < i * width ==> words@[j] == (#[trigger] values@[j / width as int]).word(
                    j % width as int,
                ),
        decreases values.len() - i,
    {
        let mut k: usize = 0;
        while k < width
            invariant
                i < values.len(),
                k <= width,
                width == P::width(),
                width > 0,
                words@.len() == i * width + k,
                forall|j: int|
                    0 <= j < i * width + k ==> words@[j] == (#[trigger] values@[j
                        / width as int]).word(j % width as int),
            decreases width - k,
        {
            proof {
                lemma_fundamental_div_mod_converse(
                    i * width + k,
                    width as int,
                    i as int,
                    k as int,
                );
            }
            words.push(values[i].word_at(k));
            k += 1;
        }
        assert((i + 1) * width == i * width + width) by (nonlinear_arith);
        i += 1;
    }
    assert(words@ =~= packed(values@));
    words
}

/// The types that a scalar uniform can have. One value is one word.
pub trait Value: Sealed + Packed + Copy + 'static {
    const TYPE: Ty;

    /// A scalar is one word.
    proof fn lemma_one_word()
        ensures
            Self::width() == 1,
    ;
}

impl Sealed for Float {

}

impl Packed for Float {
    open spec fn width() -> nat {
        1
    }

    open spec fn word(&self, k: int) -> u32 {
        self.0
    }

    fn words() -> (width: usize) {
        1
    }

    #[allow(unused_variables)]
    fn word_at(&self, k: usize) -> (word: u32) {
        self.0
    }
}

impl Value for Float {
    const TYPE: Ty = Ty::F32;

    proof fn lemma_one_word() {
    }
}

impl Sealed for i32 {

}

impl Packed for i32 {
    open spec fn width() -> nat {
        1
    }

    /// The bits of the integer.
    open spec fn word(&self, k: int) -> u32 {
        *self as u32
    }

    fn words() -> (width: usize) {
        1
    }

    #[allow(unused_variables)]
    fn word_at(&self, k: usize) -> (word: u32) {
        #[verifier::truncate]
        (*self as u32)
    }
}

impl Value for i32 {
    const TYPE: Ty = Ty::I32;

    proof fn lemma_one_word() {
    }
}

impl Sealed for u32 {

}

impl Packed for u32 {
    open spec fn width() -> nat {
        1
    }

    open spec fn word(&self, k: int) -> u32 {
        *self
    }

    fn words() -> (width: usize) {
        1
    }

    #[allow(unused_variables)]
    fn word_at(&self, k: usize) -> (word: u32) {
        *self
    }
}

impl Value for u32 {
    const TYPE: Ty = Ty::U32;

    proof fn lemma_one_word() {
    }
}

/// Each scalar type of a uniform is marked as the type that it is.
pub proof fn lemma_types()
    ensures
        <Float as Value>::TYPE == Ty::F32,
        <i32 as Value>::TYPE == Ty::I32,
        <u32 as Value>::TYPE == Ty::U32,
{
}

/// A vector of two components.
#[derive(Debug)]
pub struct Vec2<T: Value>(pub [T; 2]);

/// A vector of three components.
#[derive(Debug)]
pub struct Vec3<T: Value>(pub [T; 3]);

/// A vector of four components.
#[derive(Debug)]
pub struct Vec4<T: Value>(pub [T; 4]);

impl<T: Value> Packed for Vec2<T> {
    open spec fn width() -> nat {
        2
    }

    open spec fn word(&self, k: int) -> u32 {
        self.0[k].word(0)
    }

    fn words() -> (width: usize) {
        2
    }

    fn word_at(&self, k: usize) -> (word: u32) {
        proof {
            T::lemma_one_word();
        }
        self.0[k].word_at(0)
    }
}

impl<T: Value> Packed for Vec3<T> {
    open spec fn width() -> nat {
        3
    }

    open spec fn word(&self, k: int) -> u32 {
        self.0[k].word(0)
    }

    fn words() -> (width: usize) {
        3
    }

    fn word_at(&self, k: usize) -> (word: u32) {
        proof {
            T::lemma_one_word();
        }
        self.0[k].word_at(0)
    }
}

impl<T: Value> Packed for Vec4<T> {
    open spec fn width() -> nat {
        4
    }

    open spec fn word(&self, k: int) -> u32 {
        self.0[k].word(0)
    }

    fn words() -> (width: usize) {
        4
    }

    fn word_at(&self, k: usize) -> (word: u32) {
        proof {
            T::lemma_one_word();
        }
        self.0[k].word_at(0)
    }
}

/// A matrix of two columns and two rows, column by column.
#[derive(Clone, Copy, Debug)]
pub struct Mat2(pub [[Float; 2]; 2]);

impl From<[[Float; 2]; 2]> for Mat2 {
    fn from(value: [[Float; 2]; 2]) -> (matrix: Self) {
        Mat2(value)
    }
}

impl vstd::std_specs::convert::FromSpecImpl<[[Float; 2]; 2]> for Mat2 {
    open spec fn obeys_from_spec() -> bool {
        true
    }

    open spec fn from_spec(value: [[Float; 2]; 2]) -> Self {
        Mat2(value)
    }
}

impl From<Mat2> for [[Float; 2]; 2] {
    fn from(value: Mat2) -> (columns: Self) {
        value.0
    }
}

impl vstd::std_specs::convert::FromSpecImpl<Mat2> for [[Float; 2]; 2] {
    open spec fn obeys_from_spec() -> bool {
        true
    }

    open spec fn from_spec(value: Mat2) -> Self {
        value.0
    }
}

impl Packed for Mat2 {
    open spec fn width() -> nat {
        4
    }

    open spec fn word(&self, k: int) -> u32 {
        self.0[k / 2][k % 2].0
    }

    fn words() -> (width: usize) {
        4
    }

    fn word_at(&self, k: usize) -> (word: u32) {
        self.0[k / 2][k % 2].0
    }
}

/// A matrix of three columns and three rows, column by column.
#[derive(Clone, Copy, Debug)]
pub struct Mat3(pub [[Float; 3]; 3]);

impl From<[[Float; 3]; 3]> for Mat3 {
    fn from(value: [[Float; 3]; 3]) -> (matrix: Self) {
        Mat3(value)
    }
}

impl vstd::std_specs::convert::FromSpecImpl<[[Float; 3]; 3]> for Mat3 {
    open spec fn obeys_from_spec() -> bool {
        true
    }

    open spec fn from_spec(value: [[Float; 3]; 3]) -> Self {
        Mat3(value)
    }
}

impl From<Mat3> for [[Float; 3]; 3] {
    fn from(value: Mat3) -> (columns: Self) {
        value.0
    }
}

impl vstd::std_specs::convert::FromSpecImpl<Mat3> for [[Float; 3]; 3] {
    open spec fn obeys_from_spec() -> bool {
        true
    }

    open spec fn from_spec(value: Mat3) -> Self {
        value.0
    }
}

impl Packed for Mat3 {
    open spec fn width() -> nat {
        9
    }

    open spec fn word(&self, k: int) -> u32 {
        self.0[k / 3][k % 3].0
    }

    fn words() -> (width: usize) {
        9
    }

    fn word_at(&self, k: usize) -> (word: u32) {
        self.0[k / 3][k % 3].0
    }
}

/// A matrix of four columns and four rows, column by column.
#[derive(Clone, Copy, Debug)]
pub struct Mat4(pub [[Float; 4]; 4]);

impl From<[[Float; 4]; 4]> for Mat4 {
    fn from(value: [[Float; 4]; 4]) -> (matrix: Self) {
        Mat4(value)
    }
}

impl vstd::std_specs::convert::FromSpecImpl<[[Float; 4]; 4]> for Mat4 {
    open spec fn obeys_from_spec() -> bool {
        true
    }

    open spec fn from_spec(value: [[Float; 4]; 4]) -> Self {
        Mat4(value)
    }
}

impl From<Mat4> for [[Float; 4]; 4] {
    fn from(value: Mat4) -> (columns: Self) {
        value.0
    }
}

impl vstd::std_specs::convert::FromSpecImpl<Mat4> for [[Float; 4]; 4] {
    open spec fn obeys_from_spec() -> bool {
        true
    }

    open spec fn from_spec(value: Mat4) -> Self {
        value.0
    }
}

impl Packed for Mat4 {
    open spec fn width() -> nat {
        16
    }

    open spec fn word(&self, k: int) -> u32 {
        self.0[k / 4][k % 4].0
    }

    fn words() -> (width: usize) {
        16
    }

    fn word_at(&self, k: usize) -> (word: u32) {
        self.0[k / 4][k % 4].0
    }
}

/// A matrix of two columns and three rows, column by column.
#[derive(Clone, Copy, Debug)]
pub struct Mat2x3(pub [[Float; 3]; 2]);

impl From<[[Float; 3]; 2]> for Mat2x3 {
    fn from(value: [[Float; 3]; 2]) -> (matrix: Self) {
        Mat2x3(value)
    }
}

impl vstd::std_specs::convert::FromSpecImpl<[[Float; 3]; 2]> for Mat2x3 {
    open spec fn obeys_from_spec() -> bool {
        true
    }

    open spec fn from_spec(value: [[Float; 3]; 2]) -> Self {
        Mat2x3(value)
    }
}

impl From<Mat2x3> for [[Float; 3]; 2] {
    fn from(value: Mat2x3) -> (columns: Self) {
        value.0
    }
}

impl vstd::std_specs::convert::FromSpecImpl<Mat2x3> for [[Float; 3]; 2] {
    open spec fn obeys_from_spec() -> bool {
        true
    }

    open spec fn from_spec(value: Mat2x3) -> Self {
        value.0
    }
}

impl Packed for Mat2x3 {
    open spec fn width() -> nat {
        6
    }

    open spec fn word(&self, k: int) -> u32 {
        self.0[k / 3][k % 3].0
    }

    fn words() -> (width: usize) {
        6
    }

    fn word_at(&self, k: usize) -> (word: u32) {
        self.0[k / 3][k % 3].0
    }
}

/// A matrix of two columns and four rows, column by column.
#[derive(Clone, Copy, Debug)]
pub struct Mat2x4(pub [[Float; 4]; 2]);

impl From<[[Float; 4]; 2]> for Mat2x4 {
    fn from(value: [[Float; 4]; 2]) -> (matrix: Self) {
        Mat2x4(value)
    }
}

impl vstd::std_specs::convert::FromSpecImpl<[[Float; 4]; 2]> for Mat2x4 {
    open spec fn obeys_from_spec() -> bool {
        true
    }

    open spec fn from_spec(value: [[Float; 4]; 2]) -> Self {
        Mat2x4(value)
    }
}

impl From<Mat2x4> for [[Float; 4]; 2] {
    fn from(value: Mat2x4) -> (columns: Self) {
        value.0
    }
}

impl vstd::std_specs::convert::FromSpecImpl<Mat2x4> for [[Float; 4]; 2] {
    open spec fn obeys_from_spec() -> bool {
        true
    }

    open spec fn from_spec(value: Mat2x4) -> Self {
        value.0
    }
}

impl Packed for Mat2x4 {
    open spec fn width() -> nat {
        8
    }

    open spec fn word(&self, k: int) -> u32 {
        self.0[k / 4][k % 4].0
    }

    fn words() -> (width: usize) {
        8
    }

    fn word_at(&self, k: usize) -> (word: u32) {
        self.0[k / 4][k % 4].0
    }
}

/// A matrix of three columns and two rows, column by column.
#[derive(Clone, Copy, Debug)]
pub struct Mat3x2(pub [[Float; 2]; 3]);

impl From<[[Float; 2]; 3]> for Mat3x2 {
    fn from(value: [[Float; 2]; 3]) -> (matrix: Self) {
        Mat3x2(value)
    }
}

impl vstd::std_specs::convert::FromSpecImpl<[[Float; 2]; 3]> for Mat3x2 {
    open spec fn obeys_from_spec() -> bool {
        true
    }

    open spec fn from_spec(value: [[Float; 2]; 3]) -> Self {
        Mat3x2(value)
    }
}

impl From<Mat3x2> for [[Float; 2]; 3] {
    fn from(value: Mat3x2) -> (columns: Self) {
        value.0
    }
}

impl vstd::std_specs::convert::FromSpecImpl<Mat3x2> for [[Float; 2]; 3] {
    open spec fn obeys_from_spec() -> bool {
        true
    }

    open spec fn from_spec(value: Mat3x2) -> Self {
        value.0
    }
}

impl Packed for Mat3x2 {
    open spec fn width() -> nat {
        6
    }

    open spec fn word(&self, k: int) -> u32 {
        self.0[k / 2][k % 2].0
    }

    fn words() -> (width: usize) {
        6
    }

    fn word_at(&self, k: usize) -> (word: u32) {
        self.0[k / 2][k % 2].0
    }
}

/// A matrix of three columns and four rows, column by column.
#[derive(Clone, Copy, Debug)]
pub struct Mat3x4(pub [[Float; 4]; 3]);

impl From<[[Float; 4]; 3]> for Mat3x4 {
    fn from(value: [[Float; 4]; 3]) -> (matrix: Self) {
        Mat3x4(value)
    }
}

impl vstd::std_specs::convert::FromSpecImpl<[[Float; 4]; 3]> for Mat3x4 {
    open spec fn obeys_from_spec() -> bool {
        true
    }

    open spec fn from_spec(value: [[Float; 4]; 3]) -> Self {
        Mat3x4(value)
    }
}

impl From<Mat3x4> for [[Float; 4]; 3] {
    fn from(value: Mat3x4) -> (columns: Self) {
        value.0
    }
}

impl vstd::std_specs::convert::FromSpecImpl<Mat3x4> for [[Float; 4]; 3] {
    open spec fn obeys_from_spec() -> bool {
        true
    }

    open spec fn from_spec(value: Mat3x4) -> Self {
        value.0
    }
}

impl Packed for Mat3x4 {
    open spec fn width() -> nat {
        12
    }

    open spec fn word(&self, k: int) -> u32 {
        self.0[k / 4][k % 4].0
    }

    fn words() -> (width: usize) {
        12
    }

    fn word_at(&self, k: usize) -> (word: u32) {
        self.0[k / 4][k % 4].0
    }
}

/// A matrix of four columns and two rows, column by column.
#[derive(Clone, Copy, Debug)]
pub struct Mat4x2(pub [[Float; 2]; 4]);

impl From<[[Float; 2]; 4]> for Mat4x2 {
    fn from(value: [[Float; 2]; 4]) -> (matrix: Self) {
        Mat4x2(value)
    }
}

impl vstd::std_specs::convert::FromSpecImpl<[[Float; 2]; 4]> for Mat4x2 {
    open spec fn obeys_from_spec() -> bool {
        true
    }

    open spec fn from_spec(value: [[Float; 2]; 4]) -> Self {
        Mat4x2(value)
    }
}

impl From<Mat4x2> for [[Float; 2]; 4] {
    fn from(value: Mat4x2) -> (columns: Self) {
        value.0
    }
}

impl vstd::std_specs::convert::FromSpecImpl<Mat4x2> for [[Float; 2]; 4] {
    open spec fn obeys_from_spec() -> bool {
        true
    }

    open spec fn from_spec(value: Mat4x2) -> Self {
        value.0
    }
}

impl Packed for Mat4x2 {
    open spec fn width() -> nat {
        8
    }

    open spec fn word(&self, k: int) -> u32 {
        self.0[k / 2][k % 2].0
    }

    fn words() -> (width: usize) {
        8
    }

    fn word_at(&self, k: usize) -> (word: u32) {
        self.0[k / 2][k % 2].0
    }
}

/// A matrix of four columns and three rows, column by column.
#[derive(Clone, Copy, Debug)]
pub struct Mat4x3(pub [[Float; 3]; 4]);

impl From<[[Float; 3]; 4]> for Mat4x3 {
    fn from(value: [[Float; 3]; 4]) -> (matrix: Self) {
        Mat4x3(value)
    }
}

impl vstd::std_specs::convert::FromSpecImpl<[[Float; 3]; 4]> for Mat4x3 {
    open spec fn obeys_from_spec() -> bool {
        true
    }

    open spec fn from_spec(value: [[Float; 3]; 4]) -> Self {
        Mat4x3(value)
    }
}

impl From<Mat4x3> for [[Float; 3]; 4] {
    fn from(value: Mat4x3) -> (columns: Self) {
        value.0
    }
}

impl vstd::std_specs::convert::FromSpecImpl<Mat4x3> for [[Float; 3]; 4] {
    open spec fn obeys_from_spec() -> bool {
        true
    }

    open spec fn from_spec(value: Mat4x3) -> Self {
        value.0
    }
}

impl Packed for Mat4x3 {
    open spec fn width() -> nat {
        12
    }

    open spec fn word(&self, k: int) -> u32 {
        self.0[k / 3][k % 3].0
    }

    fn words() -> (width: usize) {
        12
    }

    fn word_at(&self, k: usize) -> (word: u32) {
        self.0[k / 3][k % 3].0
    }
}

/// The value of a matrix uniform: one matrix, or as many as the array that
/// the shader declares.
#[derive(Debug)]
pub enum Matrix<'a> {
    Mat2(&'a [Mat2]),
    Mat3(&'a [Mat3]),
    Mat4(&'a [Mat4]),
    Mat2x3(&'a [Mat2x3]),
    Mat2x4(&'a [Mat2x4]),
    Mat3x2(&'a [Mat3x2]),
    Mat3x4(&'a [Mat3x4]),
    Mat4x2(&'a [Mat4x2]),
    Mat4x3(&'a [Mat4x3]),
}

impl Matrix<'_> {
    /// The number of matrices.
    pub open spec fn count(&self) -> nat {
        match self {
            Matrix::Mat2(s) => s@.len(),
            Matrix::Mat3(s) => s@.len(),
            Matrix::Mat4(s) => s@.len(),
            Matrix::Mat2x3(s) => s@.len(),
            Matrix::Mat2x4(s) => s@.len(),
            Matrix::Mat3x2(s) => s@.len(),
            Matrix::Mat3x4(s) => s@.len(),
            Matrix::Mat4x2(s) => s@.len(),
            Matrix::Mat4x3(s) => s@.len(),
        }
    }

    /// The number of columns of one matrix. Every column takes a location.
    pub open spec fn columns(&self) -> nat {
        match self {
            Matrix::Mat2(_) | Matrix::Mat2x3(_) | Matrix::Mat2x4(_) => 2,
            Matrix::Mat3(_) | Matrix::Mat3x2(_) | Matrix::Mat3x4(_) => 3,
            Matrix::Mat4(_) | Matrix::Mat4x2(_) | Matrix::Mat4x3(_) => 4,
        }
    }

    /// The words of the matrices, one matrix after another.
    pub open spec fn words(&self) -> Seq<u32> {
        match self {
            Matrix::Mat2(s) => packed(s@),
            Matrix::Mat3(s) => packed(s@),
            Matrix::Mat4(s) => packed(s@),
            Matrix::Mat2x3(s) => packed(s@),
            Matrix::Mat2x4(s) => packed(s@),
            Matrix::Mat3x2(s) => packed(s@),
            Matrix::Mat3x4(s) => packed(s@),
            Matrix::Mat4x2(s) => packed(s@),
            Matrix::Mat4x3(s) => packed(s@),
        }
    }

    /// The call that sets a uniform at `location` to this value. The matrices
    /// are handed over as they lie, never transposed.
    pub open spec fn call(&self, location: GLint) -> Call {
        let count = self.count() as GLsizei;
        let transpose = false;
        match self {
            Matrix::Mat2(_) => Call::UniformMatrix2fv { location, count, transpose },
            Matrix::Mat3(_) => Call::UniformMatrix3fv { location, count, transpose },
            Matrix::Mat4(_) => Call::UniformMatrix4fv { location, count, transpose },
            Matrix::Mat2x3(_) => Call::UniformMatrix2x3fv { location, count, transpose },
            Matrix::Mat2x4(_) => Call::UniformMatrix2x4fv { location, count, transpose },
            Matrix::Mat3x2(_) => Call::UniformMatrix3x2fv { location, count, transpose },
            Matrix::Mat3x4(_) => Call::UniformMatrix3x4fv { location, count, transpose },
            Matrix::Mat4x2(_) => Call::UniformMatrix4x2fv { location, count, transpose },
            Matrix::Mat4x3(_) => Call::UniformMatrix4x3fv { location, count, transpose },
        }
    }

    /// Whether there is no matrix.
    #[must_use]
    pub fn is_empty(&self) -> (empty: bool)
        ensures
            empty == (self.count() == 0),
    {
        self.len() == 0
    }

    /// The number of matrices.
    #[must_use]
    pub fn len(&self) -> (len: usize)
        ensures
            len == self.count(),
    {
        match self {
            Self::Mat2(s) => s.len(),
            Self::Mat3(s) => s.len(),
            Self::Mat4(s) => s.len(),
            Self::Mat2x3(s) => s.len(),
            Self::Mat3x2(s) => s.len(),
            Self::Mat4x3(s) => s.len(),
            Self::Mat4x2(s) => s.len(),
            Self::Mat2x4(s) => s.len(),
            Self::Mat3x4(s) => s.len(),
        }
    }

    /// The number of locations that the value takes.
    #[must_use]
    pub fn locations(&self) -> (locations: usize)
        requires
            self.count() * self.columns() <= usize::MAX,
        ensures
            locations == self.count() * self.columns(),
    {
        let columns: usize = match self {
            Self::Mat2(_) => 2,
            Self::Mat3(_) => 3,
            Self::Mat4(_) => 4,
            Self::Mat2x3(_) => 2,
            Self::Mat3x2(_) => 3,
            Self::Mat4x3(_) => 4,
            Self::Mat4x2(_) => 4,
            Self::Mat2x4(_) => 2,
            Self::Mat3x4(_) => 3,
        };
        self.len() * columns
    }
}

/// The value of a uniform that is no matrix: one value, or as many as the
/// array that the shader declares.
#[derive(Debug)]
pub enum Vector<'a, T: Value> {
    /// Scalars. An `i32` also binds an opaque object such as a sampler.
    ///
    /// Four scalars are no `Vec4`.
    Scalar(&'a [T]),
    Vec2(&'a [Vec2<T>]),
    Vec3(&'a [Vec3<T>]),
    Vec4(&'a [Vec4<T>]),
}

impl<T: Value> Vector<'_, T> {
    /// The number of values.
    pub open spec fn count(&self) -> nat {
        match self {
            Vector::Scalar(s) => s@.len(),
            Vector::Vec2(s) => s@.len(),
            Vector::Vec3(s) => s@.len(),
            Vector::Vec4(s) => s@.len(),
        }
    }

    /// The words of the values, one value after another.
    pub open spec fn words(&self) -> Seq<u32> {
        match self {
            Vector::Scalar(s) => packed(s@),
            Vector::Vec2(s) => packed(s@),
            Vector::Vec3(s) => packed(s@),
            Vector::Vec4(s) => packed(s@),
        }
    }

    /// The call that sets a uniform at `location` to this value: the entry
    /// point for the number of components and the scalar type.
    pub open spec fn call(&self, location: GLint) -> Call {
        let count = self.count() as GLsizei;
        match T::TYPE {
            Ty::F32 => match self {
                Vector::Scalar(_) => Call::Uniform1fv { location, count },
                Vector::Vec2(_) => Call::Uniform2fv { location, count },
                Vector::Vec3(_) => Call::Uniform3fv { location, count },
                Vector::Vec4(_) => Call::Uniform4fv { location, count },
            },
            Ty::I32 => match self {
                Vector::Scalar(_) => Call::Uniform1iv { location, count },
                Vector::Vec2(_) => Call::Uniform2iv { location, count },
                Vector::Vec3(_) => Call::Uniform3iv { location, count },
                Vector::Vec4(_) => Call::Uniform4iv { location, count },
            },
            Ty::U32 => match self {
                Vector::Scalar(_) => Call::Uniform1uiv { location, count },
                Vector::Vec2(_) => Call::Uniform2uiv { location, count },
                Vector::Vec3(_) => Call::Uniform3uiv { location, count },
                Vector::Vec4(_) => Call::Uniform4uiv { location, count },
            },
        }
    }

    /// Whether there is no value.
    #[must_use]
    pub fn is_empty(&self) -> (empty: bool)
        ensures
            empty == (self.count() == 0),
    {
        self.len() == 0
    }

    /// The number of values.
    #[must_use]
    pub fn len(&self) -> (len: usize)
        ensures
            len == self.count(),
    {
        match self {
            Self::Scalar(s) => s.len(),
            Self::Vec2(s) => s.len(),
            Self::Vec3(s) => s.len(),
            Self::Vec4(s) => s.len(),
        }
    }

    /// The number of locations that the value takes: one for every value.
    #[must_use]
    pub fn locations(&self) -> (locations: usize)
        ensures
            locations == self.count(),
    {
        self.len()
    }
}

/// `core::slice::from_ref` makes of a reference a slice of length one that
/// holds the value referred to.
pub assume_specification<T>[ core::slice::from_ref::<T> ](value: &T) -> (slice: &[T])
    ensures
        slice@ == seq![*value],
;

/// One matrix.
impl<'a> From<&'a Mat2> for Matrix<'a> {
    fn from(value: &'a Mat2) -> (matrix: Self)
        ensures
            matrix matches Matrix::Mat2(s) && s@ == seq![*value],
    {
        Matrix::Mat2(core::slice::from_ref(value))
    }
}

impl<'a> vstd::std_specs::convert::FromSpecImpl<&'a Mat2> for Matrix<'a> {
    open spec fn obeys_from_spec() -> bool {
        false
    }

    open spec fn from_spec(value: &'a Mat2) -> Self {
        arbitrary()
    }
}

/// An array of matrices.
impl<'a> From<&'a [Mat2]> for Matrix<'a> {
    fn from(value: &'a [Mat2]) -> (matrix: Self) {
        Matrix::Mat2(value)
    }
}

impl<'a> vstd::std_specs::convert::FromSpecImpl<&'a [Mat2]> for Matrix<'a> {
    open spec fn obeys_from_spec() -> bool {
        true
    }

    open spec fn from_spec(value: &'a [Mat2]) -> Self {
        Matrix::Mat2(value)
    }
}

/// One matrix.
impl<'a> From<&'a Mat3> for Matrix<'a> {
    fn from(value: &'a Mat3) -> (matrix: Self)
        ensures
            matrix matches Matrix::Mat3(s) && s@ == seq![*value],
    {
        Matrix::Mat3(core::slice::from_ref(value))
    }
}

impl<'a> vstd::std_specs::convert::FromSpecImpl<&'a Mat3> for Matrix<'a> {
    open spec fn obeys_from_spec() -> bool {
        false
    }

    open spec fn from_spec(value: &'a Mat3) -> Self {
        arbitrary()
    }
}

/// An array of matrices.
impl<'a> From<&'a [Mat3]> for Matrix<'a> {
    fn from(value: &'a [Mat3]) -> (matrix: Self) {
        Matrix::Mat3(value)
    }
}

impl<'a> vstd::std_specs::convert::FromSpecImpl<&'a [Mat3]> for Matrix<'a> {
    open spec fn obeys_from_spec() -> bool {
        true
    }

    open spec fn from_spec(value: &'a [Mat3]) -> Self {
        Matrix::Mat3(value)
    }
}

/// One matrix.
impl<'a> From<&'a Mat4> for Matrix<'a> {
    fn from(value: &'a Mat4) -> (matrix: Self)
        ensures
            matrix matches Matrix::Mat4(s) && s@ == seq![*value],
    {
        Matrix::Mat4(core::slice::from_ref(value))
    }
}

impl<'a> vstd::std_specs::convert::FromSpecImpl<&'a Mat4> for Matrix<'a> {
    open spec fn obeys_from_spec() -> bool {
        false
    }

    open spec fn from_spec(value: &'a Mat4) -> Self {
        arbitrary()
    }
}

/// An array of matrices.
impl<'a> From<&'a [Mat4]> for Matrix<'a> {
    fn from(value: &'a [Mat4]) -> (matrix: Self) {
        Matrix::Mat4(value)
    }
}

impl<'a> vstd::std_specs::convert::FromSpecImpl<&'a [Mat4]> for Matrix<'a> {
    open spec fn obeys_from_spec() -> bool {
        true
    }

    open spec fn from_spec(value: &'a [Mat4]) -> Self {
        Matrix::Mat4(value)
    }
}

/// One matrix.
impl<'a> From<&'a Mat2x3> for Matrix<'a> {
    fn from(value: &'a Mat2x3) -> (matrix: Self)
        ensures
            matrix matches Matrix::Mat2x3(s) && s@ == seq![*value],
    {
        Matrix::Mat2x3(core::slice::from_ref(value))
    }
}

impl<'a> vstd::std_specs::convert::FromSpecImpl<&'a Mat2x3> for Matrix<'a> {
    open spec fn obeys_from_spec() -> bool {
        false
    }

    open spec fn from_spec(value: &'a Mat2x3) -> Self {
        arbitrary()
    }
}

/// An array of matrices.
impl<'a> From<&'a [Mat2x3]> for Matrix<'a> {
    fn from(value: &'a [Mat2x3]) -> (matrix: Self) {
        Matrix::Mat2x3(value)
    }
}

impl<'a> vstd::std_specs::convert::FromSpecImpl<&'a [Mat2x3]> for Matrix<'a> {
    open spec fn obeys_from_spec() -> bool {
        true
    }

    open spec fn from_spec(value: &'a [Mat2x3]) -> Self {
        Matrix::Mat2x3(value)
    }
}

/// One matrix.
impl<'a> From<&'a Mat2x4> for Matrix<'a> {
    fn from(value: &'a Mat2x4) -> (matrix: Self)
        ensures
            matrix matches Matrix::Mat2x4(s) && s@ == seq![*value],
    {
        Matrix::Mat2x4(core::slice::from_ref(value))
    }
}

impl<'a> vstd::std_specs::convert::FromSpecImpl<&'a Mat2x4> for Matrix<'a> {
    open spec fn obeys_from_spec() -> bool {
        false
    }

    open spec fn from_spec(value: &'a Mat2x4) -> Self {
        arbitrary()
    }
}

/// An array of matrices.
impl<'a> From<&'a [Mat2x4]> for Matrix<'a> {
    fn from(value: &'a [Mat2x4]) -> (matrix: Self) {
        Matrix::Mat2x4(value)
    }
}

impl<'a> vstd::std_specs::convert::FromSpecImpl<&'a [Mat2x4]> for Matrix<'a> {
    open spec fn obeys_from_spec() -> bool {
        true
    }

    open spec fn from_spec(value: &'a [Mat2x4]) -> Self {
        Matrix::Mat2x4(value)
    }
}

/// One matrix.
impl<'a> From<&'a Mat3x2> for Matrix<'a> {
    fn from(value: &'a Mat3x2) -> (matrix: Self)
        ensures
            matrix matches Matrix::Mat3x2(s) && s@ == seq![*value],
    {
        Matrix::Mat3x2(core::slice::from_ref(value))
    }
}

impl<'a> vstd::std_specs::convert::FromSpecImpl<&'a Mat3x2> for Matrix<'a> {
    open spec fn obeys_from_spec() -> bool {
        false
    }

    open spec fn from_spec(value: &'a Mat3x2) -> Self {
        arbitrary()
    }
}

/// An array of matrices.
impl<'a> From<&'a [Mat3x2]> for Matrix<'a> {
    fn from(value: &'a [Mat3x2]) -> (matrix: Self) {
        Matrix::Mat3x2(value)
    }
}

impl<'a> vstd::std_specs::convert::FromSpecImpl<&'a [Mat3x2]> for Matrix<'a> {
    open spec fn obeys_from_spec() -> bool {
        true
    }

    open spec fn from_spec(value: &'a [Mat3x2]) -> Self {
        Matrix::Mat3x2(value)
    }
}

/// One matrix.
impl<'a> From<&'a Mat3x4> for Matrix<'a> {
    fn from(value: &'a Mat3x4) -> (matrix: Self)
        ensures
            matrix matches Matrix::Mat3x4(s) && s@ == seq![*value],
    {
        Matrix::Mat3x4(core::slice::from_ref(value))
    }
}

impl<'a> vstd::std_specs::convert::FromSpecImpl<&'a Mat3x4> for Matrix<'a> {
    open spec fn obeys_from_spec() -> bool {
        false
    }

    open spec fn from_spec(value: &'a Mat3x4) -> Self {
        arbitrary()
    }
}

/// An array of matrices.
impl<'a> From<&'a [Mat3x4]> for Matrix<'a> {
    fn from(value: &'a [Mat3x4]) -> (matrix: Self) {
        Matrix::Mat3x4(value)
    }
}

impl<'a> vstd::std_specs::convert::FromSpecImpl<&'a [Mat3x4]> for Matrix<'a> {
    open spec fn obeys_from_spec() -> bool {
        true
    }

    open spec fn from_spec(value: &'a [Mat3x4]) -> Self {
        Matrix::Mat3x4(value)
    }
}

/// One matrix.
impl<'a> From<&'a Mat4x2> for Matrix<'a> {
    fn from(value: &'a Mat4x2) -> (matrix: Self)
        ensures
            matrix matches Matrix::Mat4x2(s) && s@ == seq![*value],
    {
        Matrix::Mat4x2(core::slice::from_ref(value))
    }
}

impl<'a> vstd::std_specs::convert::FromSpecImpl<&'a Mat4x2> for Matrix<'a> {
    open spec fn obeys_from_spec() -> bool {
        false
    }

    open spec fn from_spec(value: &'a Mat4x2) -> Self {
        arbitrary()
    }
}

/// An array of matrices.
impl<'a> From<&'a [Mat4x2]> for Matrix<'a> {
    fn from(value: &'a [Mat4x2]) -> (matrix: Self) {
        Matrix::Mat4x2(value)
    }
}

impl<'a> vstd::std_specs::convert::FromSpecImpl<&'a [Mat4x2]> for Matrix<'a> {
    open spec fn obeys_from_spec() -> bool {
        true
    }

    open spec fn from_spec(value: &'a [Mat4x2]) -> Self {
        Matrix::Mat4x2(value)
    }
}

/// One matrix.
impl<'a> From<&'a Mat4x3> for Matrix<'a> {
    fn from(value: &'a Mat4x3) -> (matrix: Self)
        ensures
            matrix matches Matrix::Mat4x3(s) && s@ == seq![*value],
    {
        Matrix::Mat4x3(core::slice::from_ref(value))
    }
}

impl<'a> vstd::std_specs::convert::FromSpecImpl<&'a Mat4x3> for Matrix<'a> {
    open spec fn obeys_from_spec() -> bool {
        false
    }

    open spec fn from_spec(value: &'a Mat4x3) -> Self {
        arbitrary()
    }
}

/// An array of matrices.
impl<'a> From<&'a [Mat4x3]> for Matrix<'a> {
    fn from(value: &'a [Mat4x3]) -> (matrix: Self) {
        Matrix::Mat4x3(value)
    }
}

impl<'a> vstd::std_specs::convert::FromSpecImpl<&'a [Mat4x3]> for Matrix<'a> {
    open spec fn obeys_from_spec() -> bool {
        true
    }

    open spec fn from_spec(value: &'a [Mat4x3]) -> Self {
        Matrix::Mat4x3(value)
    }
}

/// One scalar.
impl<'a, T: Value> From<&'a T> for Vector<'a, T> {
    fn from(value: &'a T) -> (vector: Self)
        ensures
            vector matches Vector::Scalar(s) && s@ == seq![*value],
    {
        Vector::Scalar(core::slice::from_ref(value))
    }
}

impl<'a, T: Value> vstd::std_specs::convert::FromSpecImpl<&'a T> for Vector<'a, T> {
    open spec fn obeys_from_spec() -> bool {
        false
    }

    open spec fn from_spec(value: &'a T) -> Self {
        arbitrary()
    }
}

/// An array of scalars.
impl<'a, T: Value> From<&'a [T]> for Vector<'a, T> {
    fn from(value: &'a [T]) -> (vector: Self) {
        Vector::Scalar(value)
    }
}

impl<'a, T: Value> vstd::std_specs::convert::FromSpecImpl<&'a [T]> for Vector<'a, T> {
    open spec fn obeys_from_spec() -> bool {
        true
    }

    open spec fn from_spec(value: &'a [T]) -> Self {
        Vector::Scalar(value)
    }
}

/// One vector.
impl<'a, T: Value> From<&'a Vec2<T>> for Vector<'a, T> {
    fn from(value: &'a Vec2<T>) -> (vector: Self)
        ensures
            vector matches Vector::Vec2(s) && s@ == seq![*value],
    {
        Vector::Vec2(core::slice::from_ref(value))
    }
}

impl<'a, T: Value> vstd::std_specs::convert::FromSpecImpl<&'a Vec2<T>> for Vector<'a, T> {
    open spec fn obeys_from_spec() -> bool {
        false
    }

    open spec fn from_spec(value: &'a Vec2<T>) -> Self {
        arbitrary()
    }
}

/// An array of vectors.
impl<'a, T: Value> From<&'a [Vec2<T>]> for Vector<'a, T> {
    fn from(value: &'a [Vec2<T>]) -> (vector: Self) {
        Vector::Vec2(value)
    }
}

impl<'a, T: Value> vstd::std_specs::convert::FromSpecImpl<&'a [Vec2<T>]> for Vector<'a, T> {
    open spec fn obeys_from_spec() -> bool {
        true
    }

    open spec fn from_spec(value: &'a [Vec2<T>]) -> Self {
        Vector::Vec2(value)
    }
}

/// One vector.
impl<'a, T: Value> From<&'a Vec3<T>> for Vector<'a, T> {
    fn from(value: &'a Vec3<T>) -> (vector: Self)
        ensures
            vector matches Vector::Vec3(s) && s@ == seq![*value],
    {
        Vector::Vec3(core::slice::from_ref(value))
    }
}

impl<'a, T: Value> vstd::std_specs::convert::FromSpecImpl<&'a Vec3<T>> for Vector<'a, T> {
    open spec fn obeys_from_spec() -> bool {
        false
    }

    open spec fn from_spec(value: &'a Vec3<T>) -> Self {
        arbitrary()
    }
}

/// An array of vectors.
impl<'a, T: Value> From<&'a [Vec3<T>]> for Vector<'a, T> {
    fn from(value: &'a [Vec3<T>]) -> (vector: Self) {
        Vector::Vec3(value)
    }
}

impl<'a, T: Value> vstd::std_specs::convert::FromSpecImpl<&'a [Vec3<T>]> for Vector<'a, T> {
    open spec fn obeys_from_spec() -> bool {
        true
    }

    open spec fn from_spec(value: &'a [Vec3<T>]) -> Self {
        Vector::Vec3(value)
    }
}

/// One vector.
impl<'a, T: Value> From<&'a Vec4<T>> for Vector<'a, T> {
    fn from(value: &'a Vec4<T>) -> (vector: Self)
        ensures
            vector matches Vector::Vec4(s) && s@ == seq![*value],
    {
        Vector::Vec4(core::slice::from_ref(value))
    }
}

impl<'a, T: Value> vstd::std_specs::convert::FromSpecImpl<&'a Vec4<T>> for Vector<'a, T> {
    open spec fn obeys_from_spec() -> bool {
        false
    }

    open spec fn from_spec(value: &'a Vec4<T>) -> Self {
        arbitrary()
    }
}

/// An array of vectors.
impl<'a, T: Value> From<&'a [Vec4<T>]> for Vector<'a, T> {
    fn from(value: &'a [Vec4<T>]) -> (vector: Self) {
        Vector::Vec4(value)
    }
}

impl<'a, T: Value> vstd::std_specs::convert::FromSpecImpl<&'a [Vec4<T>]> for Vector<'a, T> {
    open spec fn obeys_from_spec() -> bool {
        true
    }

    open spec fn from_spec(value: &'a [Vec4<T>]) -> Self {
        Vector::Vec4(value)
    }
}

} // verus!
