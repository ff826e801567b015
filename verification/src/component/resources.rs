//! What a resource costs: the host heap memory that a value uses.

use vstd::prelude::*;

verus! {

/// A number of bytes as it is reported: the largest representable number stands
/// for everything above it.
pub open spec fn reported(bytes: int) -> usize {
    if bytes > usize::MAX {
        usize::MAX
    } else {
        bytes as usize
    }
}

/// What a value that reports `bytes` uses beyond its own `inline` bytes.
pub open spec fn beyond(bytes: usize, inline: nat) -> nat {
    if bytes as nat > inline {
        (bytes - inline) as nat
    } else {
        0
    }
}

/// What values that report `bytes` use together beyond `inline` bytes each.
pub open spec fn beyond_all(bytes: Seq<usize>, inline: nat) -> nat
    decreases bytes.len(),
{
    if bytes.len() == 0 {
        0
    } else {
        beyond_all(bytes.drop_last(), inline) + beyond(bytes.last(), inline)
    }
}

/// Types that can report their host heap memory usage.
///
/// The figure is an estimate of the memory, in bytes, that is allocated for the
/// value: its inline size, plus what it owns on the heap.
pub trait HostHeapUsage {
    /// Whether `bytes` is a figure that this value may report.
    spec fn reports(&self, bytes: usize) -> bool;

    /// The number of bytes of memory used by this value, with its inline size
    /// and the heap allocations that it owns.
    fn host_heap_usage(&self) -> (bytes: usize)
        ensures
            self.reports(bytes),
    ;
}

/// Types whose footprint is constant: no change of the value through `&mut`
/// changes what it reports.
///
/// Such a type owns no heap data of its own. Its figure is its inline size.
pub trait FixedHostHeapUsage: Sized {

}

impl<T: FixedHostHeapUsage> HostHeapUsage for T {
    open spec fn reports(&self, bytes: usize) -> bool {
        bytes as nat == vstd::layout::size_of::<T>()
    }

    fn host_heap_usage(&self) -> (bytes: usize) {
        core::mem::size_of::<T>()
    }
}

impl FixedHostHeapUsage for () {

}

impl FixedHostHeapUsage for bool {

}

impl FixedHostHeapUsage for u8 {

}

impl FixedHostHeapUsage for u16 {

}

impl FixedHostHeapUsage for u32 {

}

impl FixedHostHeapUsage for u64 {

}

impl FixedHostHeapUsage for u128 {

}

impl FixedHostHeapUsage for usize {

}

impl FixedHostHeapUsage for i8 {

}

impl FixedHostHeapUsage for i16 {

}

impl FixedHostHeapUsage for i32 {

}

impl FixedHostHeapUsage for i64 {

}

impl FixedHostHeapUsage for i128 {

}

impl FixedHostHeapUsage for isize {

}

impl FixedHostHeapUsage for char {

}

/// The error type of the `anyhow` crate, as an opaque value.
#[verifier::external_type_specification]
#[verifier::external_body]
pub struct ExAnyhowError(anyhow::Error);

/// An `anyhow::Error` owns an allocation of unknown size. Only the pointer to
/// it is counted.
impl HostHeapUsage for anyhow::Error {
    open spec fn reports(&self, bytes: usize) -> bool {
        bytes as nat == vstd::layout::size_of::<anyhow::Error>()
    }

    fn host_heap_usage(&self) -> (bytes: usize) {
        core::mem::size_of::<anyhow::Error>()
    }
}

/// The inline size covers the inner value's own; what the inner value uses
/// beyond that is added.
impl<T: HostHeapUsage> HostHeapUsage for Option<T> {
    open spec fn reports(&self, bytes: usize) -> bool {
        match self {
            Some(t) => exists|b: usize| #[trigger]
                t.reports(b) && bytes == reported(
                    (vstd::layout::size_of::<Option<T>>() + beyond(
                        b,
                        vstd::layout::size_of::<T>(),
                    )) as int,
                ),
            None => bytes as nat == vstd::layout::size_of::<Option<T>>(),
        }
    }

    fn host_heap_usage(&self) -> (bytes: usize) {
        let inline: usize = core::mem::size_of::<Option<T>>();
        match self {
            Some(t) => {
                let own: usize = t.host_heap_usage();
                inline.saturating_add(own.saturating_sub(core::mem::size_of::<T>()))
            },
            None => inline,
        }
    }
}

/// The inline size covers either variant's own; what the inner value uses
/// beyond that is added.
impl<T: HostHeapUsage, E: HostHeapUsage> HostHeapUsage for Result<T, E> {
    open spec fn reports(&self, bytes: usize) -> bool {
        match self {
            Ok(t) => exists|b: usize| #[trigger]
                t.reports(b) && bytes == reported(
                    (vstd::layout::size_of::<Result<T, E>>() + beyond(
                        b,
                        vstd::layout::size_of::<T>(),
                    )) as int,
                ),
            Err(e) => exists|b: usize| #[trigger]
                e.reports(b) && bytes == reported(
                    (vstd::layout::size_of::<Result<T, E>>() + beyond(
                        b,
                        vstd::layout::size_of::<E>(),
                    )) as int,
                ),
        }
    }

    fn host_heap_usage(&self) -> (bytes: usize) {
        let inline: usize = core::mem::size_of::<Result<T, E>>();
        let heap: usize = match self {
            Ok(t) => t.host_heap_usage().saturating_sub(core::mem::size_of::<T>()),
            Err(e) => e.host_heap_usage().saturating_sub(core::mem::size_of::<E>()),
        };
        inline.saturating_add(heap)
    }
}

/// `String::capacity`: the length in bytes that the string can reach without
/// a new allocation, which is at least the length it has. An allocation is at
/// most `isize::MAX` bytes. How much room there is depends on the allocations
/// made.
pub assume_specification[ String::capacity ](s: &String) -> (bytes: usize)
    ensures
        vstd::utf8::encode_utf8(s@).len() <= bytes <= isize::MAX,
;

/// What a value reports that has `inline` bytes of its own and a buffer of
/// `capacity` bytes.
pub fn buffer_usage(inline: usize, capacity: usize) -> (bytes: usize)
    ensures
        bytes == reported(inline + capacity),
{
    inline.saturating_add(capacity)
}

/// The inline size and the buffer, by its capacity.
impl HostHeapUsage for String {
    open spec fn reports(&self, bytes: usize) -> bool {
        exists|capacity: usize| #[trigger]
            call_ensures(String::capacity, (self,), capacity) && bytes == reported(
                vstd::layout::size_of::<String>() + capacity,
            )
    }

    fn host_heap_usage(&self) -> (bytes: usize) {
        let capacity: usize = self.capacity();
        buffer_usage(core::mem::size_of::<String>(), capacity)
    }
}

/// `Vec::capacity`: the number of elements that the vector can hold without a
/// new allocation, which is at least the number it holds. An allocation is at
/// most `isize::MAX` bytes. How much room there is depends on the allocations
/// made.
#[verifier::external_body]
fn vec_capacity<T>(v: &Vec<T>) -> (n: usize)
    ensures
        n >= v@.len(),
        n * vstd::layout::size_of::<T>() <= isize::MAX,
{
    v.capacity()
}

/// `Vec::capacity` may give `capacity` for the vector.
pub closed spec fn is_capacity<T>(v: &Vec<T>, capacity: usize) -> bool {
    call_ensures(vec_capacity::<T>, (v,), capacity)
}

/// There is room for what a vector holds, in one allocation.
pub proof fn law_capacity_holds_the_elements<T>(v: &Vec<T>, capacity: usize)
    requires
        is_capacity(v, capacity),
    ensures
        capacity >= v@.len(),
        capacity * vstd::layout::size_of::<T>() <= isize::MAX,
{
}

/// `each` is element for element what the values report.
pub open spec fn elements_report<T: HostHeapUsage>(values: Seq<T>, each: Seq<usize>) -> bool {
    &&& each.len() == values.len()
    &&& forall|i: int| 0 <= i < each.len() ==> values[i].reports(#[trigger] each[i])
}

/// What a vector reports that has room for `capacity` elements and whose
/// elements report `each`.
pub open spec fn vec_figure<T>(capacity: int, each: Seq<usize>) -> usize {
    reported(
        vstd::layout::size_of::<Vec<T>>() + capacity * vstd::layout::size_of::<T>() + beyond_all(
            each,
            vstd::layout::size_of::<T>(),
        ),
    )
}

/// What a vector reports that has room for `capacity` elements.
pub fn vec_usage<T: HostHeapUsage>(v: &Vec<T>, capacity: usize) -> (bytes: usize)
    requires
        capacity * vstd::layout::size_of::<T>() <= isize::MAX,
    ensures
        exists|each: Seq<usize>| #[trigger]
            elements_report(v@, each) && vec_figure::<T>(capacity as int, each) == bytes,
{
    let inline: usize = core::mem::size_of::<Vec<T>>();
    let place: usize = core::mem::size_of::<T>();
    let ghost mut each: Seq<usize> = Seq::empty();
    let mut heap: usize = 0;
    for i in 0..v.len()
        invariant
            place as nat == vstd::layout::size_of::<T>(),
            each.len() == i,
            forall|j: int| 0 <= j < i ==> v@[j].reports(#[trigger] each[j]),
            heap == reported(beyond_all(each, vstd::layout::size_of::<T>()) as int),
    {
        let own: usize = v[i].host_heap_usage();
        heap = heap.saturating_add(own.saturating_sub(place));
        proof {
            let before = each;
            each = each.push(own);
            assert(each.drop_last() =~= before);
        }
    }
    assert(capacity * place <= isize::MAX);
    let bytes: usize = inline.saturating_add(capacity * place).saturating_add(heap);
    assert(elements_report(v@, each));
    bytes
}

/// The inline size, the buffer by its capacity, and what each element uses beyond
/// its place in the buffer.
impl<T: HostHeapUsage> HostHeapUsage for Vec<T> {
    open spec fn reports(&self, bytes: usize) -> bool {
        exists|capacity: usize, each: Seq<usize>|
            #[trigger] is_capacity(self, capacity) && #[trigger] elements_report(self@, each)
                && vec_figure::<T>(capacity as int, each) == bytes
    }

    fn host_heap_usage(&self) -> (bytes: usize) {
        let capacity: usize = vec_capacity(self);
        assert(is_capacity(self, capacity));
        vec_usage(self, capacity)
    }
}

/// A value of fixed footprint reports the same whatever it becomes, so a change
/// of it in place leaves any total right.
pub proof fn law_fixed_usage_survives_mutation<T: FixedHostHeapUsage>(
    before: T,
    after: T,
    b: usize,
    a: usize,
)
    requires
        before.reports(b),
        after.reports(a),
    ensures
        a == b,
{
}

/// An option has the bytes of its own place, and those that its value has outside of
/// the value's place. More than can be represented is reported as the largest number.
pub proof fn law_option_usage<T: HostHeapUsage>(o: Option<T>, bytes: usize)
    requires
        o.reports(bytes),
    ensures
        match o {
            None => bytes as nat == vstd::layout::size_of::<Option<T>>(),
            Some(t) => exists|own: usize| #[trigger]
                t.reports(own) && {
                    let outside = own - vstd::layout::size_of::<T>();
                    let all = vstd::layout::size_of::<Option<T>>() + outside;
                    &&& outside <= 0 && vstd::layout::size_of::<Option<T>>() <= usize::MAX
                        ==> bytes as nat == vstd::layout::size_of::<Option<T>>()
                    &&& outside > 0 && all <= usize::MAX ==> bytes == all
                    &&& outside > 0 && all > usize::MAX ==> bytes == usize::MAX
                },
        },
{
}

/// A result has the bytes of its own place, and those that its value has outside of
/// the value's place. More than can be represented is reported as the largest number.
pub proof fn law_result_usage<T: HostHeapUsage, E: HostHeapUsage>(r: Result<T, E>, bytes: usize)
    requires
        r.reports(bytes),
    ensures
        ({
            let place = vstd::layout::size_of::<Result<T, E>>();
            match r {
                Ok(t) => exists|own: usize| #[trigger]
                    t.reports(own) && {
                        let outside = own - vstd::layout::size_of::<T>();
                        &&& outside <= 0 && place <= usize::MAX ==> bytes as nat == place
                        &&& outside > 0 && place + outside <= usize::MAX ==> bytes == place
                            + outside
                        &&& outside > 0 && place + outside > usize::MAX ==> bytes == usize::MAX
                    },
                Err(e) => exists|own: usize| #[trigger]
                    e.reports(own) && {
                        let outside = own - vstd::layout::size_of::<E>();
                        &&& outside <= 0 && place <= usize::MAX ==> bytes as nat == place
                        &&& outside > 0 && place + outside <= usize::MAX ==> bytes == place
                            + outside
                        &&& outside > 0 && place + outside > usize::MAX ==> bytes == usize::MAX
                    },
            }
        }),
{
}

/// A string has the bytes of its own place and of its buffer, which holds at least
/// its text.
pub proof fn law_string_usage(s: String, bytes: usize)
    requires
        s.reports(bytes),
        vstd::layout::size_of::<String>() + isize::MAX <= usize::MAX,
    ensures
        bytes - vstd::layout::size_of::<String>() >= vstd::utf8::encode_utf8(s@).len(),
        bytes - vstd::layout::size_of::<String>() <= isize::MAX,
{
}

/// A vector without elements has the bytes of its own place and of its buffer. An
/// element adds what it has outside of its place in the buffer, and nothing if it has
/// nothing there. More than can be represented is reported as the largest number.
pub proof fn law_vector_usage<T>(capacity: int, each: Seq<usize>, own: usize)
    requires
        capacity >= 0,
    ensures
        ({
            let buffer = vstd::layout::size_of::<Vec<T>>() + capacity * vstd::layout::size_of::<
                T,
            >();
            let outside = own - vstd::layout::size_of::<T>();
            let before = vec_figure::<T>(capacity, each);
            let after = vec_figure::<T>(capacity, each.push(own));
            &&& buffer <= usize::MAX ==> vec_figure::<T>(capacity, Seq::empty()) == buffer
            &&& buffer > usize::MAX ==> vec_figure::<T>(capacity, Seq::empty()) == usize::MAX
            &&& outside <= 0 ==> after == before
            &&& outside > 0 && before < usize::MAX && before + outside <= usize::MAX ==> after
                == before + outside
            &&& outside > 0 && before + outside > usize::MAX ==> after == usize::MAX
        }),
{
    assert(each.push(own).drop_last() =~= each);
    let n = vstd::layout::size_of::<T>() as int;
    assert(capacity * n >= 0) by (nonlinear_arith)
        requires
            capacity >= 0,
            n >= 0,
    ;
}

/// What a vector reports is for a buffer with room for its elements, and for what
/// each of its elements reports.
pub proof fn law_vector_reports_its_elements<T: HostHeapUsage>(v: Vec<T>, bytes: usize)
    requires
        v.reports(bytes),
    ensures
        exists|capacity: int, each: Seq<usize>|
            {
                &&& capacity >= v@.len()
                &&& each.len() == v@.len()
                &&& forall|i: int| 0 <= i < each.len() ==> v@[i].reports(#[trigger] each[i])
                &&& bytes == #[trigger] vec_figure::<T>(capacity, each)
            },
{
    let (capacity, each) = choose|capacity: usize, each: Seq<usize>|
        #[trigger] is_capacity(&v, capacity) && #[trigger] elements_report(v@, each)
            && vec_figure::<T>(capacity as int, each) == bytes;
    law_capacity_holds_the_elements(&v, capacity);
    assert(bytes == vec_figure::<T>(capacity as int, each));
}

/// A value of fixed footprint reports its own place and nothing else, and so does an
/// error whose allocation is not known.
pub proof fn law_fixed_usage<T: FixedHostHeapUsage>(t: T, e: anyhow::Error, bytes: usize)
    ensures
        t.reports(bytes) <==> bytes as nat == vstd::layout::size_of::<T>(),
        e.reports(bytes) <==> bytes as nat == vstd::layout::size_of::<anyhow::Error>(),
{
}

} // verus!
