use arrayvec::ArrayVec;
use vstd::prelude::*;

verus! {

#[verifier::external_type_specification]
#[verifier::external_body]
#[verifier::reject_recursive_types(T)]
pub struct ExArrayVec<T, const CAP: usize>(arrayvec::ArrayVec<T, CAP>);

/// What a vector of at most 256 bytes holds, the first byte first.
pub uninterp spec fn bytes_of(v: ArrayVec<u8, 256>) -> Seq<u8>;

/// `ArrayVec::new`: a vector that holds nothing.
#[verifier::external_body]
fn empty() -> (v: ArrayVec<u8, 256>)
    ensures
        bytes_of(v) == Seq::<u8>::empty(),
{
    ArrayVec::new()
}

/// `ArrayVec::from` on an array of the vector's capacity: a full vector that
/// holds the array's bytes in their order.
#[verifier::external_body]
fn filled(array: [u8; 256]) -> (v: ArrayVec<u8, 256>)
    ensures
        bytes_of(v) == array@,
{
    ArrayVec::from(array)
}

/// `ArrayVec::clone`: a vector that holds the same bytes.
#[verifier::external_body]
fn copied(v: &ArrayVec<u8, 256>) -> (c: ArrayVec<u8, 256>)
    ensures
        bytes_of(c) == bytes_of(*v),
{
    v.clone()
}

/// `ArrayVec::pop`: takes the last byte off the vector and returns it;
/// returns `None` and leaves the vector alone where it holds nothing.
#[verifier::external_body]
fn take_last(v: &mut ArrayVec<u8, 256>) -> (r: Option<u8>)
    ensures
        match r {
            Some(item) => bytes_of(*old(v)).len() > 0 && item == bytes_of(*old(v)).last()
                && bytes_of(*final(v)) == bytes_of(*old(v)).drop_last(),
            None => bytes_of(*old(v)).len() == 0 && bytes_of(*final(v)) == bytes_of(*old(v)),
        },
{
    v.pop()
}

/// `ArrayVec::push`: puts a byte behind the last one. The vector must not be
/// full: the call panics on a full one.
#[verifier::external_body]
fn put_last(v: &mut ArrayVec<u8, 256>, item: u8)
    requires
        bytes_of(*old(v)).len() < 256,
    ensures
        bytes_of(*final(v)) == bytes_of(*old(v)).push(item),
{
    v.push(item)
}

/// `last` of the slice that the vector dereferences to: the last byte, or
/// `None` where the vector holds nothing.
#[verifier::external_body]
fn last_of(v: &ArrayVec<u8, 256>) -> (r: Option<&u8>)
    ensures
        match r {
            Some(item) => bytes_of(*v).len() > 0 && *item == bytes_of(*v).last(),
            None => bytes_of(*v).len() == 0,
        },
{
    v.last()
}

/// A stack of bytes in a vector of fixed capacity, with a second vector
/// that holds a copy of it as it was when it was last kept.
pub struct Stack {
    stack: ArrayVec<u8, 256>,
    kstack: ArrayVec<u8, 256>,
}

impl Stack {
    /// What the stack holds, from the bottom up.
    pub closed spec fn bytes(&self) -> Seq<u8> {
        bytes_of(self.stack)
    }

    /// What the stack held when it was last kept.
    pub closed spec fn kept(&self) -> Seq<u8> {
        bytes_of(self.kstack)
    }

    /// A full stack of 256 zero bytes, of which nothing was kept.
    pub fn new() -> (s: Self)
        ensures
            s.bytes() == Seq::new(256, |i: int| 0u8),
            s.kept() == Seq::<u8>::empty(),
    {
        let zeros: [u8; 256] = [0;256];
        assert(zeros@ =~= Seq::new(256, |i: int| 0u8));
        Stack { stack: filled(zeros), kstack: empty() }
    }

    /// In keep mode, keeps a copy of the stack as it is.
    pub fn keep(&mut self, mode: bool)
        ensures
            final(self).bytes() == old(self).bytes(),
            final(self).kept() == (if mode {
                old(self).bytes()
            } else {
                old(self).kept()
            }),
    {
        if mode {
            self.kstack = copied(&self.stack);
        }
    }

    /// Takes the topmost byte off the stack; `None` where it is empty.
    pub fn pop(&mut self) -> (r: Option<u8>)
        ensures
            final(self).kept() == old(self).kept(),
            r == (if old(self).bytes().len() > 0 {
                Some(old(self).bytes().last())
            } else {
                None
            }),
            final(self).bytes() == (if old(self).bytes().len() > 0 {
                old(self).bytes().drop_last()
            } else {
                old(self).bytes()
            }),
    {
        take_last(&mut self.stack)
    }

    /// Puts a byte on top of the stack, which must not be full.
    pub fn push(&mut self, item: u8)
        requires
            old(self).bytes().len() < 256,
        ensures
            final(self).kept() == old(self).kept(),
            final(self).bytes() == old(self).bytes().push(item),
    {
        put_last(&mut self.stack, item)
    }

    /// The topmost byte; `None` where the stack is empty.
    pub fn peek(&self) -> (r: Option<&u8>)
        ensures
            match r {
                Some(item) => self.bytes().len() > 0 && *item == self.bytes().last(),
                None => self.bytes().len() == 0,
            },
    {
        last_of(&self.stack)
    }
}

} // verus!
