//! How the floats of a vertex buffer are shared out among the attributes of
//! a vertex.
//!
//! A buffer holds one vertex after the other, and a vertex holds its
//! attributes one after the other: so many floats of position, so many of
//! colour, so many of texture coordinates. The driver wants each attribute
//! described by the bytes from one vertex to the next and the bytes from the
//! start of a vertex to the attribute. Both follow from the sizes alone.

use vstd::prelude::*;

verus! {

/// Bytes in one float of a vertex buffer.
pub const FLOAT_BYTES: usize = 4;

/// The most floats the driver takes in one attribute.
pub const MAX_COMPONENTS: u8 = 4;

/// The most attributes a vertex is described with here.
pub const MAX_ATTRIBUTES: usize = 16;

/// One attribute as the driver is told of it.
#[derive(Clone, Copy, Debug, PartialEq, Eq, Structural)]
pub struct Attribute {
    /// The place of the attribute among those of the vertex.
    pub index: u32,
    /// The floats the attribute holds.
    pub components: i32,
    /// The bytes from one vertex to the next.
    pub stride: i32,
    /// The bytes from the start of a vertex to this attribute.
    pub offset: usize,
}

/// The floats of the first `count` attributes together.
pub open spec fn floats_in(sizes: Seq<u8>, count: int) -> int
    decreases count,
{
    if count <= 0 {
        0
    } else {
        floats_in(sizes, count - 1) + sizes[count - 1]
    }
}

/// Sizes that describe a vertex: at least one attribute and no more than
/// sixteen, each of one to four floats.
pub open spec fn describes_vertex(sizes: Seq<u8>) -> bool {
    &&& 0 < sizes.len() <= MAX_ATTRIBUTES
    &&& forall|i: int| 0 <= i < sizes.len() ==> 1 <= #[trigger] sizes[i] <= MAX_COMPONENTS
}

/// Attribute `i` of a vertex with these sizes.
pub open spec fn attribute_at(sizes: Seq<u8>, i: int) -> Attribute {
    Attribute {
        index: i as u32,
        components: sizes[i] as i32,
        stride: (FLOAT_BYTES * floats_in(sizes, sizes.len() as int)) as i32,
        offset: (FLOAT_BYTES * floats_in(sizes, i)) as usize,
    }
}

/// The floats of the first `count` attributes are at least `count` and at
/// most four times as many.
pub proof fn lemma_floats_in_bounds(sizes: Seq<u8>, count: int)
    requires
        describes_vertex(sizes),
        0 <= count <= sizes.len(),
    ensures
        count <= floats_in(sizes, count) <= MAX_COMPONENTS * count,
    decreases count,
{
    if count > 0 {
        lemma_floats_in_bounds(sizes, count - 1);
    }
}

/// The attributes of a vertex lie one behind the other and fill it: each
/// starts where the one before it ends, and the last ends where the next
/// vertex starts.
pub proof fn lemma_attributes_tile(sizes: Seq<u8>, i: int)
    requires
        describes_vertex(sizes),
        0 <= i < sizes.len(),
    ensures
        attribute_at(sizes, i).offset + FLOAT_BYTES * attribute_at(sizes, i).components
            <= attribute_at(sizes, i).stride,
        i == 0 ==> attribute_at(sizes, i).offset == 0,
        i + 1 < sizes.len() ==> attribute_at(sizes, i + 1).offset
            == attribute_at(sizes, i).offset + FLOAT_BYTES * attribute_at(sizes, i).components,
        i + 1 == sizes.len() ==> attribute_at(sizes, i).stride
            == attribute_at(sizes, i).offset + FLOAT_BYTES * attribute_at(sizes, i).components,
{
    let n = sizes.len() as int;
    lemma_floats_in_bounds(sizes, i);
    lemma_floats_in_bounds(sizes, i + 1);
    lemma_floats_in_bounds(sizes, n);
    lemma_floats_in_grows(sizes, i + 1, n);
}

/// More attributes hold no fewer floats.
pub proof fn lemma_floats_in_grows(sizes: Seq<u8>, fewer: int, more: int)
    requires
        0 <= fewer <= more,
    ensures
        floats_in(sizes, fewer) <= floats_in(sizes, more),
    decreases more,
{
    if fewer < more {
        lemma_floats_in_grows(sizes, fewer, more - 1);
    }
}

/// The attributes of a vertex whose attributes hold `sizes` floats, first to
/// last. Nothing where the sizes describe no vertex.
pub fn attributes(sizes: &Vec<u8>) -> (result: Option<Vec<Attribute>>)
    ensures
        result.is_some() <==> describes_vertex(sizes@),
        result matches Some(list) ==> {
            &&& list@.len() == sizes@.len()
            &&& forall|i: int| 0 <= i < list@.len() ==> #[trigger] list@[i] == attribute_at(sizes@, i)
        },
{
    let n = sizes.len();
    if n == 0 || n > MAX_ATTRIBUTES {
        return None;
    }
    let mut total: usize = 0;
    let mut k: usize = 0;
    while k < n
        invariant
            n == sizes.len(),
            0 < n <= MAX_ATTRIBUTES,
            k <= n,
            total == floats_in(sizes@, k as int),
            total <= MAX_COMPONENTS * k,
            forall|i: int| 0 <= i < k ==> 1 <= #[trigger] sizes@[i] <= MAX_COMPONENTS,
        decreases n - k,
    {
        if sizes[k] < 1 || sizes[k] > MAX_COMPONENTS {
            return None;
        }
        total = total + sizes[k] as usize;
        k += 1;
    }
    let stride: i32 = (FLOAT_BYTES * total) as i32;
    let mut list: Vec<Attribute> = Vec::new();
    let mut before: usize = 0;
    let mut i: usize = 0;
    while i < n
        invariant
            n == sizes.len(),
            0 < n <= MAX_ATTRIBUTES,
            describes_vertex(sizes@),
            i <= n,
            before == floats_in(sizes@, i as int),
            before <= MAX_COMPONENTS * i,
            total == floats_in(sizes@, n as int),
            stride == FLOAT_BYTES * total,
            list@.len() == i,
            forall|j: int| 0 <= j < i ==> #[trigger] list@[j] == attribute_at(sizes@, j),
        decreases n - i,
    {
        list.push(
            Attribute {
                index: i as u32,
                components: sizes[i] as i32,
                stride,
                offset: FLOAT_BYTES * before,
            },
        );
        before = before + sizes[i] as usize;
        i += 1;
    }
    Some(list)
}

/// The vertices in a buffer of `floats` floats, each vertex with attributes
/// of these sizes. Nothing where the sizes describe no vertex or the buffer
/// does not end with a whole vertex.
pub fn vertex_count(floats: usize, sizes: &Vec<u8>) -> (result: Option<usize>)
    ensures
        result.is_some() <==> describes_vertex(sizes@) && floats % (floats_in(
            sizes@,
            sizes@.len() as int,
        ) as usize) == 0,
        result matches Some(count) ==> count * floats_in(sizes@, sizes@.len() as int) == floats,
{
    match attributes(sizes) {
        None => None,
        Some(list) => {
            proof {
                lemma_floats_in_bounds(sizes@, sizes@.len() as int);
            }
            let per_vertex: usize = list[0].stride as usize / FLOAT_BYTES;
            if floats % per_vertex == 0 {
                let count = floats / per_vertex;
                assert(count * per_vertex == floats) by (nonlinear_arith)
                    requires
                        per_vertex > 0,
                        floats % per_vertex == 0,
                        count == floats / per_vertex,
                ;
                Some(count)
            } else {
                None
            }
        },
    }
}

/// The bytes a buffer of `floats` floats takes, as the driver counts them.
/// Nothing where the count does not fit.
pub fn buffer_bytes(floats: usize) -> (result: Option<isize>)
    ensures
        result.is_some() <==> FLOAT_BYTES * floats <= isize::MAX,
        result matches Some(bytes) ==> bytes == FLOAT_BYTES * floats,
{
    if floats <= (isize::MAX as usize) / FLOAT_BYTES {
        Some((FLOAT_BYTES * floats) as isize)
    } else {
        None
    }
}

} // verus!
