use core::marker::PhantomData;
use vstd::layout::size_of;
use vstd::prelude::*;

verus! {

/// A pointer to a value of type `T`, held as the address it points at.
pub struct ConstPtr<T> {
    addr: usize,
    marker: PhantomData<T>,
}

impl<T> View for ConstPtr<T> {
    type V = nat;

    /// The address that the pointer holds.
    closed spec fn view(&self) -> nat {
        self.addr as nat
    }
}

/// The number of bytes that `count` elements of `T` span, signed as `count` is.
pub open spec fn byte_offset<T>(count: int) -> int {
    count * size_of::<T>()
}

/// Moving `addr` by `count` elements of `T` is defined: the distance in bytes
/// fits in an `isize`, and the address reached is an address.
pub open spec fn offset_defined<T>(addr: int, count: int) -> bool {
    &&& isize::MIN <= byte_offset::<T>(count) <= isize::MAX
    &&& 0 <= addr + byte_offset::<T>(count) <= usize::MAX
}

/// The pointer `count` elements of `T` away from `dst`.
pub fn offset<T>(dst: ConstPtr<T>, count: isize) -> (r: ConstPtr<T>)
    requires
        offset_defined::<T>(dst@ as int, count as int),
    ensures
        r@ == dst@ + byte_offset::<T>(count as int),
{
    let size: usize = core::mem::size_of::<T>();
    if count >= 0 {
        let n: usize = count as usize;
        assert(n * size == count * size);
        let addr: usize = dst.addr + n * size;
        ConstPtr { addr, marker: PhantomData }
    } else {
        let n: usize = (-(count + 1)) as usize + 1;
        assert(n * size == -(count * size)) by (nonlinear_arith)
            requires
                n == -count,
        ;
        let addr: usize = dst.addr - n * size;
        ConstPtr { addr, marker: PhantomData }
    }
}

impl<T> ConstPtr<T> {
    /// The pointer that holds `addr`.
    pub fn from_addr(addr: usize) -> (r: ConstPtr<T>)
        ensures
            r@ == addr,
    {
        ConstPtr { addr, marker: PhantomData }
    }

    /// The address that the pointer holds.
    pub fn addr(&self) -> (r: usize)
        ensures
            r == self@,
    {
        self.addr
    }

    /// The pointer `count` elements away, towards lower addresses where `count`
    /// is negative.
    pub fn offset(self, count: isize) -> (r: ConstPtr<T>)
        requires
            offset_defined::<T>(self@ as int, count as int),
        ensures
            r@ == self@ + byte_offset::<T>(count as int),
    {
        offset(self, count)
    }

    /// The pointer `count` elements further on.
    pub fn add(self, count: usize) -> (r: ConstPtr<T>)
        requires
            offset_defined::<T>(self@ as int, count as int),
        ensures
            r@ == self@ + byte_offset::<T>(count as int),
    {
        let size: usize = core::mem::size_of::<T>();
        // Where elements take no space the count may not fit in an `isize`;
        // any count then moves the pointer nowhere.
        let c: isize = #[verifier::truncate] (count as isize);
        if size > 0 {
            assert(count <= count * size) by (nonlinear_arith)
                requires
                    size > 0,
            ;
            assert(c == count);
        } else {
            assert(c * size_of::<T>() == 0 && count * size_of::<T>() == 0) by (nonlinear_arith)
                requires
                    size_of::<T>() == 0,
            ;
        }
        self.offset(c)
    }

    /// The same pointer.
    pub fn as_ptr(self) -> (r: ConstPtr<T>)
        ensures
            r@ == self@,
    {
        self
    }
}

} // verus!
