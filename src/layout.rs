use vstd::prelude::*;

verus! {

/// The size in bytes of one buffer element: a 32-bit float of vertex data, or
/// a 32-bit index.
pub const ELEMENT_BYTES: usize = 4;

/// The number of floats that one vertex takes under attributes of the given
/// component counts.
pub open spec fn total(c: Seq<u32>) -> int
    decreases c.len(),
{
    if c.len() == 0 {
        0
    } else {
        total(c.drop_last()) + c.last()
    }
}

/// Whether a vertex of this shape has a stride in bytes that the driver can
/// take (a 32-bit signed count).
pub open spec fn fits(c: Seq<u32>) -> bool {
    ELEMENT_BYTES * total(c) <= i32::MAX
}

proof fn lemma_total_nonneg(c: Seq<u32>)
    ensures
        0 <= total(c),
    decreases c.len(),
{
    if c.len() > 0 {
        lemma_total_nonneg(c.drop_last());
    }
}

proof fn lemma_total_prefix(c: Seq<u32>, i: int)
    requires
        0 <= i <= c.len(),
    ensures
        0 <= total(c.take(i)) <= total(c),
    decreases c.len(),
{
    if i == c.len() {
        assert(c.take(i) =~= c);
        lemma_total_nonneg(c);
    } else {
        lemma_total_prefix(c.drop_last(), i);
        assert(c.drop_last().take(i) =~= c.take(i));
    }
}

proof fn lemma_total_step(c: Seq<u32>, i: int)
    requires
        0 <= i < c.len(),
    ensures
        total(c.take(i + 1)) == total(c.take(i)) + c[i],
        c[i] <= total(c),
{
    assert(c.take(i + 1).drop_last() =~= c.take(i));
    lemma_total_prefix(c, i);
    lemma_total_prefix(c, i + 1);
}

/// The attributes of a vertex, in the order of their locations, each given by
/// its number of float components. The vertex's stride in bytes always fits
/// the driver's signed 32-bit count.
pub struct VertexLayout {
    components: Vec<u32>,
    floats: u32,
}

impl View for VertexLayout {
    type V = Seq<u32>;

    closed spec fn view(&self) -> Seq<u32> {
        self.components@
    }
}

impl VertexLayout {
    #[verifier::type_invariant]
    spec fn inv(&self) -> bool {
        &&& self.floats == total(self.components@)
        &&& fits(self.components@)
    }

    /// A layout with attributes of the given component counts, or `None` where
    /// the stride of such a vertex would not fit a signed 32-bit count.
    pub fn new(components: Vec<u32>) -> (r: Option<VertexLayout>)
        ensures
            r is Some <==> fits(components@),
            r matches Some(l) ==> l@ == components@,
    {
        let mut sum: u64 = 0;
        let mut i: usize = 0;
        while i < components.len()
            invariant
                i <= components@.len(),
                sum == total(components@.take(i as int)),
                ELEMENT_BYTES * sum <= i32::MAX,
            decreases components@.len() - i,
        {
            proof {
                lemma_total_step(components@, i as int);
            }
            let next: u64 = sum + components[i] as u64;
            if next > 536870911u64 {
                proof {
                    lemma_total_prefix(components@, i as int + 1);
                }
                return None;
            }
            sum = next;
            i = i + 1;
        }
        assert(components@.take(i as int) =~= components@);
        Some(VertexLayout { components, floats: sum as u32 })
    }

    /// The number of attributes.
    pub fn len(&self) -> (n: usize)
        ensures
            n == self@.len(),
    {
        self.components.len()
    }

    /// The number of float components of the attribute at `index`.
    pub fn size(&self, index: usize) -> (r: i32)
        requires
            index < self@.len(),
        ensures
            r == self@[index as int],
    {
        proof {
            use_type_invariant(self);
            lemma_total_step(self.components@, index as int);
        }
        self.components[index] as i32
    }

    /// The distance in bytes from one vertex to the next.
    pub fn stride(&self) -> (r: i32)
        ensures
            r == ELEMENT_BYTES * total(self@),
    {
        proof {
            use_type_invariant(self);
        }
        (self.floats as i32) * 4
    }

    /// Where the attribute at `index` starts, in bytes from the start of its
    /// vertex: the bytes of all the attributes before it.
    pub fn offset(&self, index: usize) -> (r: usize)
        requires
            index <= self@.len(),
        ensures
            r == ELEMENT_BYTES * total(self@.take(index as int)),
    {
        proof {
            use_type_invariant(self);
        }
        let mut sum: u32 = 0;
        let mut i: usize = 0;
        while i < index
            invariant
                i <= index <= self.components@.len(),
                sum == total(self.components@.take(i as int)),
                total(self.components@) <= self.floats,
                ELEMENT_BYTES * self.floats <= i32::MAX,
            decreases index - i,
        {
            proof {
                lemma_total_step(self.components@, i as int);
                lemma_total_prefix(self.components@, i as int + 1);
            }
            sum = sum + self.components[i];
            i = i + 1;
        }
        proof {
            lemma_total_prefix(self.components@, index as int);
        }
        (sum as usize) * ELEMENT_BYTES
    }

    /// The number of whole vertices in `data_len` floats of vertex data, as the
    /// driver counts them. `None` where a vertex has no components, where the
    /// data does not divide into whole vertices, or where the count would not
    /// fit a signed 32-bit count.
    pub fn vertex_count(&self, data_len: usize) -> (r: Option<i32>)
        ensures
            r is Some <==> (total(self@) > 0 && data_len as int % total(self@) == 0 && data_len
                as int / total(self@) <= i32::MAX),
            r matches Some(n) ==> n == data_len as int / total(self@),
    {
        proof {
            use_type_invariant(self);
        }
        let f = self.floats as usize;
        if f == 0 || data_len % f != 0 {
            return None;
        }
        let n = data_len / f;
        if n > 2147483647usize {
            None
        } else {
            Some(n as i32)
        }
    }
}

/// The size in bytes of a buffer of `count` elements, as the driver takes it,
/// or `None` where it would not fit a signed pointer-sized count.
pub fn buffer_bytes(count: usize) -> (r: Option<isize>)
    ensures
        r is Some <==> ELEMENT_BYTES * count <= isize::MAX,
        r matches Some(n) ==> n == ELEMENT_BYTES * count,
{
    if count > (isize::MAX as usize) / ELEMENT_BYTES {
        None
    } else {
        Some((count * ELEMENT_BYTES) as isize)
    }
}

} // verus!
