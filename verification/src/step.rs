//! Places in an input and steps of decoding, and what the plain values of
//! the format decode to: bytes, numbers, rows of numbers, texts and
//! references.

use crate::error::Error;
use crate::model::{views, Layout};
use crate::text::decoded;
use crate::wire::{
    le_binary32, le_i32, le_u16, le_u32, signed_index, vertex_index, Binary32, Vec2, Vec3, Vec4,
};
use vstd::prelude::*;

verus! {

/// A place in an input, with what is known of how the input is laid out.
pub struct Cursor {
    pub layout: Layout,
    pub bytes: Seq<u8>,
    pub pos: int,
}

impl Cursor {
    /// The same input, read from `pos`.
    pub open spec fn at(self, pos: int) -> Cursor {
        Cursor { layout: self.layout, bytes: self.bytes, pos }
    }

    /// The same input, to be read as `layout` says.
    pub open spec fn laid_out(self, layout: Layout) -> Cursor {
        Cursor { layout, bytes: self.bytes, pos: self.pos }
    }

    /// Whether the place is one in the input or its end.
    pub open spec fn valid(self) -> bool {
        0 <= self.pos <= self.bytes.len()
    }
}

/// The outcome of decoding one thing: the thing or the reason why there is
/// none, and where the cursor stands afterwards.
///
/// After a failure the cursor stands where the read that ran out of input
/// began, or behind the field whose value was refused.
pub struct Step<T> {
    pub result: Result<T, Error>,
    pub next: int,
}

impl<T> Step<T> {
    pub open spec fn done(value: T, next: int) -> Step<T> {
        Step { result: Ok(value), next }
    }

    pub open spec fn fail(error: Error, at: int) -> Step<T> {
        Step { result: Err(error), next: at }
    }

    pub open spec fn ok(self) -> bool {
        self.result is Ok
    }

    /// What was decoded; meaningful where the step succeeded.
    pub open spec fn value(self) -> T {
        self.result->Ok_0
    }

    /// This step as one that is taken after `before`: where `before` failed,
    /// decoding stopped there.
    pub open spec fn after<U>(self, before: Step<U>) -> Step<T> {
        match before.result {
            Ok(_) => self,
            Err(error) => Step::fail(error, before.next),
        }
    }

    /// This step with `value` in place of what it decoded.
    pub open spec fn with<U>(self, value: U) -> Step<U> {
        match self.result {
            Ok(_) => Step::done(value, self.next),
            Err(error) => Step::fail(error, self.next),
        }
    }

    /// This step, refused for the sake of `field` unless `allowed` holds.
    pub open spec fn check(self, allowed: bool, field: &'static str) -> Step<T> {
        if self.ok() && !allowed {
            Step::fail(Error::InvalidData(field), self.next)
        } else {
            self
        }
    }

    /// Whether `r`, the result of an executable decoder, is this step's.
    pub open spec fn yields<X: View<V = T>>(self, r: Result<X, Error>) -> bool {
        match r {
            Ok(value) => self.result == Ok::<T, Error>(value@),
            Err(error) => self.result == Err::<T, Error>(error),
        }
    }
}

impl<T> Step<Seq<T>> {
    /// Whether `r`, the result of an executable decoder of many items, is
    /// this step's, item by item.
    pub open spec fn yields_each<X: View<V = T>>(self, r: Result<Vec<X>, Error>) -> bool {
        match r {
            Ok(items) => self.result == Ok::<Seq<T>, Error>(views(items@)),
            Err(error) => self.result == Err::<Seq<T>, Error>(error),
        }
    }
}

/// The first `n` items of a run of items that starts where `c` stands, each
/// decoded by `item` from where the one before it ended.
pub open spec fn repeat<T>(item: spec_fn(Cursor) -> Step<T>, c: Cursor, n: nat) -> Step<Seq<T>>
    decreases n,
{
    if n == 0 {
        Step::done(Seq::empty(), c.pos)
    } else {
        let front = repeat(item, c, (n - 1) as nat);
        let last = item(c.at(front.next)).after(front);
        last.with(front.value().push(last.value()))
    }
}

/// A run stops at its first failure: what fails within `m` items fails in the
/// same way within any more.
pub proof fn lemma_repeat_failure<T>(item: spec_fn(Cursor) -> Step<T>, c: Cursor, m: nat, n: nat)
    requires
        m <= n,
        !repeat(item, c, m).ok(),
    ensures
        repeat(item, c, n) == repeat(item, c, m),
    decreases n,
{
    if m < n {
        lemma_repeat_failure(item, c, m, (n - 1) as nat);
    }
}

/// A run that succeeds has as many items as were asked for, and what holds
/// of every item that `item` decodes from this input holds of each of them.
pub proof fn lemma_repeat_each<T>(
    item: spec_fn(Cursor) -> Step<T>,
    c: Cursor,
    n: nat,
    good: spec_fn(T) -> bool,
)
    requires
        forall|pos: int| #[trigger] item(c.at(pos)).ok() ==> good(item(c.at(pos)).value()),
        repeat(item, c, n).ok(),
    ensures
        repeat(item, c, n).value().len() == n,
        forall|i: int| 0 <= i < n ==> good(#[trigger] repeat(item, c, n).value()[i]),
    decreases n,
{
    if n > 0 {
        lemma_repeat_each(item, c, (n - 1) as nat, good);
        let front = repeat(item, c, (n - 1) as nat);
        assert(item(c.at(front.next)).ok());
    }
}

/// The next `n` bytes.
#[verifier::opaque]
pub open spec fn bin_at(c: Cursor, n: int) -> Step<Seq<u8>> {
    if c.pos + n <= c.bytes.len() {
        Step::done(c.bytes.subrange(c.pos, c.pos + n), c.pos + n)
    } else {
        Step::fail(Error::end_of_input(), c.pos)
    }
}

#[verifier::opaque]
pub open spec fn u8_at(c: Cursor) -> Step<u8> {
    let raw = bin_at(c, 1);
    raw.with(raw.value()[0])
}

#[verifier::opaque]
pub open spec fn u16_at(c: Cursor) -> Step<u16> {
    let raw = bin_at(c, 2);
    raw.with(le_u16(raw.value()))
}

#[verifier::opaque]
pub open spec fn u32_at(c: Cursor) -> Step<u32> {
    let raw = bin_at(c, 4);
    raw.with(le_u32(raw.value()))
}

#[verifier::opaque]
pub open spec fn i32_at(c: Cursor) -> Step<i32> {
    let raw = bin_at(c, 4);
    raw.with(le_i32(raw.value()))
}

#[verifier::opaque]
pub open spec fn binary32_at(c: Cursor) -> Step<Binary32> {
    let raw = bin_at(c, 4);
    raw.with(le_binary32(raw.value()))
}

pub open spec fn binary32_items() -> spec_fn(Cursor) -> Step<Binary32> {
    |c: Cursor| binary32_at(c)
}

/// `n` numbers in a row.
#[verifier::opaque]
pub open spec fn vector_at(c: Cursor, n: nat) -> Step<Seq<Binary32>> {
    repeat(binary32_items(), c, n)
}

#[verifier::opaque]
pub open spec fn vec2_at(c: Cursor) -> Step<Vec2> {
    let v = vector_at(c, 2);
    v.with([v.value()[0], v.value()[1]])
}

#[verifier::opaque]
pub open spec fn vec3_at(c: Cursor) -> Step<Vec3> {
    let v = vector_at(c, 3);
    v.with([v.value()[0], v.value()[1], v.value()[2]])
}

#[verifier::opaque]
pub open spec fn vec4_at(c: Cursor) -> Step<Vec4> {
    let v = vector_at(c, 4);
    v.with([v.value()[0], v.value()[1], v.value()[2], v.value()[3]])
}

/// A text: the number of its bytes, then the bytes.
#[verifier::opaque]
pub open spec fn text_at(c: Cursor) -> Step<Seq<char>> {
    let len = u32_at(c);
    let raw = bin_at(c.at(len.next), len.value() as int).after(len);
    raw.with(decoded(c.layout.encoding, raw.value()))
}

/// A reference of `width` bytes, read as a signed number.
#[verifier::opaque]
pub open spec fn signed_index_at(c: Cursor, width: u8) -> Step<Option<usize>> {
    let raw = bin_at(c, width as int);
    raw.with(signed_index(raw.value()))
}

#[verifier::opaque]
pub open spec fn vertex_index_at(c: Cursor) -> Step<Option<usize>> {
    let raw = bin_at(c, c.layout.vertex as int);
    raw.with(vertex_index(raw.value()))
}

#[verifier::opaque]
pub open spec fn texture_index_at(c: Cursor) -> Step<Option<usize>> {
    signed_index_at(c, c.layout.texture)
}

#[verifier::opaque]
pub open spec fn material_index_at(c: Cursor) -> Step<Option<usize>> {
    signed_index_at(c, c.layout.material)
}

#[verifier::opaque]
pub open spec fn bone_index_at(c: Cursor) -> Step<Option<usize>> {
    signed_index_at(c, c.layout.bone)
}

#[verifier::opaque]
pub open spec fn morph_index_at(c: Cursor) -> Step<Option<usize>> {
    signed_index_at(c, c.layout.morph)
}

#[verifier::opaque]
pub open spec fn rigid_index_at(c: Cursor) -> Step<Option<usize>> {
    signed_index_at(c, c.layout.rigid)
}

} // verus!
