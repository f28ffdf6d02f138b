use vstd::prelude::*;

use super::text::{list_text, list_to_string};

verus! {

/// The largest number of dimensions a shape holds; longer lists are cut to this length.
pub const MAX_DIMS: usize = 8;

/// The product of the numbers in `s` (1 for the empty sequence).
pub open spec fn seq_product(s: Seq<usize>) -> nat
    decreases s.len(),
{
    if s.len() == 0 {
        1
    } else {
        seq_product(s.drop_last()) * (s.last() as nat)
    }
}

/// Multiplying the numbers of `s` from left to right never exceeds `usize::MAX`.
pub open spec fn product_fits(s: Seq<usize>) -> bool {
    forall|k: int| 0 <= k <= s.len() ==> #[trigger] seq_product(s.take(k)) <= usize::MAX
}

/// The `i`-th entry of `s`, or 0 past its end.
pub open spec fn entry_or_zero(s: Seq<usize>, i: int) -> usize {
    if 0 <= i < s.len() {
        s[i]
    } else {
        0
    }
}

/// The product of two numbers is their product; of one number, that number; of none, 1.
pub proof fn lemma_small_products(s: Seq<usize>)
    ensures
        s.len() == 0 ==> seq_product(s) == 1,
        s.len() == 1 ==> seq_product(s) == s[0],
        s.len() == 2 ==> seq_product(s) == s[0] * s[1],
    decreases s.len(),
{
    if s.len() == 1 {
        assert(s.drop_last() =~= Seq::<usize>::empty());
        assert(seq_product(s.drop_last()) == 1);
        assert(s.last() == s[0]);
        assert(seq_product(s) == seq_product(s.drop_last()) * (s.last() as nat));
    }
    if s.len() == 2 {
        let t = s.drop_last();
        lemma_small_products(t);
        assert(seq_product(t) == s[0]);
    }
}

/// The shape that `Shape::new` builds from `s`: its first eight entries, the unused slots zero.
pub closed spec fn spec_shape(s: Seq<usize>) -> Shape {
    Shape {
        dims: [
            entry_or_zero(s, 0),
            entry_or_zero(s, 1),
            entry_or_zero(s, 2),
            entry_or_zero(s, 3),
            entry_or_zero(s, 4),
            entry_or_zero(s, 5),
            entry_or_zero(s, 6),
            entry_or_zero(s, 7),
        ],
        len: if s.len() < 8 { s.len() as usize } else { 8 },
    }
}

/// The shape of a tensor: up to eight dimension sizes.
#[derive(Debug, Clone, Copy)]
pub struct Shape {
    dims: [usize; 8],
    len: usize,
}

impl View for Shape {
    type V = Seq<usize>;

    closed spec fn view(&self) -> Seq<usize> {
        self.dims@.take(self.len as int)
    }
}

impl Shape {
    /// A shape holds at most eight dimensions and keeps its unused slots zero.
    #[verifier::type_invariant]
    pub closed spec fn well_formed(self) -> bool {
        &&& self.len <= 8
        &&& forall|i: int| self.len <= i < 8 ==> self.dims[i] == 0
    }

    /// Two shapes are equal exactly when they list the same dimensions.
    pub proof fn lemma_eq_iff_view_eq(a: Shape, b: Shape)
        requires
            a.well_formed(),
            b.well_formed(),
        ensures
            (a == b) <==> (a@ == b@),
    {
        if a@ == b@ {
            assert(a.dims@.len() == 8);
            assert(a.len == a@.len());
            assert(b.len == b@.len());
            assert forall|i: int| 0 <= i < 8 implies a.dims[i] == b.dims[i] by {
                if i < a.len {
                    assert(a.dims[i] == a@[i]);
                    assert(b.dims[i] == b@[i]);
                }
            }
            assert(a.dims =~= b.dims);
        }
    }

    /// What `spec_shape` builds lists the first eight entries of its argument.
    pub proof fn lemma_spec_shape_view(s: Seq<usize>)
        ensures
            spec_shape(s)@ == s.take(if s.len() < 8 { s.len() as int } else { 8 }),
            spec_shape(s).well_formed(),
    {
        let r = spec_shape(s);
        assert(r.dims@.len() == 8);
        assert(r@ =~= s.take(if s.len() < 8 { s.len() as int } else { 8 }));
    }

    /// Builds a shape from a list of dimension sizes; entries past the eighth are dropped.
    pub fn new(slice: &[usize]) -> (s: Shape)
        ensures
            s == spec_shape(slice@),
            s@ == slice@.take(if slice@.len() < 8 { slice@.len() as int } else { 8 }),
    {
        let mut dims: [usize; 8] = [0, 0, 0, 0, 0, 0, 0, 0];
        let len: usize = if slice.len() < 8 { slice.len() } else { 8 };
        let mut i: usize = 0;
        while i < len
            invariant
                len <= 8,
                len <= slice@.len(),
                len == (if slice@.len() < 8 { slice@.len() as int } else { 8 }),
                i <= len,
                forall|j: int| 0 <= j < i ==> dims[j] == slice@[j],
                forall|j: int| i <= j < 8 ==> dims[j] == 0,
            decreases len - i,
        {
            dims[i] = slice[i];
            i = i + 1;
        }
        let s = Shape { dims, len };
        proof {
            let t = spec_shape(slice@);
            assert forall|j: int| 0 <= j < 8 implies dims[j] == t.dims[j] by {
                assert(t.dims[j] == entry_or_zero(slice@, j));
            }
            assert(dims =~= t.dims);
            Shape::lemma_spec_shape_view(slice@);
        }
        s
    }

    /// The two-dimensional shape `[rows, cols]`.
    pub(crate) fn pair(rows: usize, cols: usize) -> (s: Shape)
        ensures
            s == spec_shape(seq![rows, cols]),
            s@ == seq![rows, cols],
    {
        let s = Shape { dims: [rows, cols, 0, 0, 0, 0, 0, 0], len: 2 };
        proof {
            let t = spec_shape(seq![rows, cols]);
            assert(s.dims =~= t.dims);
            Shape::lemma_spec_shape_view(seq![rows, cols]);
            assert(seq![rows, cols].take(2) =~= seq![rows, cols]);
        }
        s
    }

    /// The one-dimensional shape `[len]`.
    pub(crate) fn single(len: usize) -> (s: Shape)
        ensures
            s == spec_shape(seq![len]),
            s@ == seq![len],
    {
        let s = Shape { dims: [len, 0, 0, 0, 0, 0, 0, 0], len: 1 };
        proof {
            let t = spec_shape(seq![len]);
            assert(s.dims =~= t.dims);
            Shape::lemma_spec_shape_view(seq![len]);
            assert(seq![len].take(1) =~= seq![len]);
        }
        s
    }

    /// The number of dimensions.
    pub fn ndim(&self) -> (n: usize)
        ensures
            n == self@.len(),
            n <= 8,
    {
        proof {
            use_type_invariant(self);
        }
        self.len
    }

    /// The size of dimension `index`, or `None` past the last dimension.
    pub fn dim(&self, index: usize) -> (d: Option<usize>)
        ensures
            index < self@.len() ==> d == Some(self@[index as int]),
            index >= self@.len() ==> d is None,
    {
        proof {
            use_type_invariant(self);
        }
        if index < self.len {
            Some(self.dims[index])
        } else {
            None
        }
    }

    /// The size of dimension `index`; the index must be below `ndim()`.
    pub fn index(&self, index: usize) -> (d: usize)
        requires
            index < self@.len(),
        ensures
            d == self@[index as int],
    {
        proof {
            use_type_invariant(self);
        }
        self.dims[index]
    }

    /// The dimension sizes, in order.
    pub fn iter(&self) -> (v: Vec<usize>)
        ensures
            v@ == self@,
    {
        proof {
            use_type_invariant(self);
        }
        let mut v: Vec<usize> = Vec::new();
        let mut i: usize = 0;
        while i < self.len
            invariant
                self.len <= 8,
                i <= self.len,
                v@ == self@.take(i as int),
            decreases self.len - i,
        {
            v.push(self.dims[i]);
            proof {
                assert(v@ =~= self@.take(i + 1));
            }
            i = i + 1;
        }
        assert(self@.take(self.len as int) =~= self@);
        v
    }

    /// The dimension sizes, in order.
    pub fn as_ref(&self) -> (v: Vec<usize>)
        ensures
            v@ == self@,
    {
        self.iter()
    }

    /// The total number of elements: the product of all dimension sizes (1 for no dimensions).
    pub fn product(&self) -> (p: usize)
        requires
            product_fits(self@),
        ensures
            p == seq_product(self@),
    {
        proof {
            use_type_invariant(self);
        }
        let mut p: usize = 1;
        let mut i: usize = 0;
        while i < self.len
            invariant
                self.len <= 8,
                self.len == self@.len(),
                i <= self.len,
                product_fits(self@),
                p == seq_product(self@.take(i as int)),
                forall|j: int| 0 <= j < self.len ==> self.dims[j] == self@[j],
            decreases self.len - i,
        {
            proof {
                let t = self@.take(i + 1);
                assert(t.drop_last() =~= self@.take(i as int));
                assert(seq_product(t) <= usize::MAX);
            }
            p = p * self.dims[i];
            i = i + 1;
        }
        assert(self@.take(self.len as int) =~= self@);
        p
    }

    /// The total number of elements, or `None` where multiplying the dimension sizes from left to
    /// right overflows `usize`.
    pub fn checked_product(&self) -> (p: Option<usize>)
        ensures
            p is Some <==> product_fits(self@),
            p matches Some(n) ==> n == seq_product(self@),
    {
        proof {
            use_type_invariant(self);
        }
        let mut p: usize = 1;
        let mut i: usize = 0;
        while i < self.len
            invariant
                self.len <= 8,
                self.len == self@.len(),
                i <= self.len,
                p == seq_product(self@.take(i as int)),
                forall|k: int| 0 <= k <= i ==> #[trigger] seq_product(self@.take(k)) <= usize::MAX,
                forall|j: int| 0 <= j < self.len ==> self.dims[j] == self@[j],
            decreases self.len - i,
        {
            let t = Ghost(self@.take(i + 1));
            proof {
                assert(t@.drop_last() =~= self@.take(i as int));
            }
            match p.checked_mul(self.dims[i]) {
                Some(q) => {
                    p = q;
                },
                None => {
                    proof {
                        assert(t@.last() == self.dims[i as int]);
                        assert(seq_product(t@) > usize::MAX);
                    }
                    return None;
                },
            }
            i = i + 1;
        }
        assert(self@.take(self.len as int) =~= self@);
        Some(p)
    }

    /// Whether `self` and `other` list the same dimensions.
    pub fn same_as(&self, other: &Shape) -> (r: bool)
        ensures
            r == (*self == *other),
            r == (self@ == other@),
    {
        proof {
            use_type_invariant(self);
            use_type_invariant(other);
            Shape::lemma_eq_iff_view_eq(*self, *other);
        }
        if self.len != other.len {
            return false;
        }
        let mut i: usize = 0;
        while i < 8
            invariant
                i <= 8,
                (*self == *other) <==> (self@ == other@),
                forall|j: int| 0 <= j < i ==> self.dims[j] == other.dims[j],
            decreases 8 - i,
        {
            if self.dims[i] != other.dims[i] {
                return false;
            }
            i = i + 1;
        }
        assert(self.dims =~= other.dims);
        true
    }

    /// The dimensions as text, such as `[2, 3]`.
    pub fn to_string(&self) -> (s: String)
        ensures
            s@ == list_text(self@),
    {
        let v = self.iter();
        list_to_string(v.as_slice())
    }
}

impl PartialEq for Shape {
    fn eq(&self, other: &Shape) -> (r: bool) {
        self.same_as(other)
    }
}

impl Eq for Shape {}

impl vstd::std_specs::cmp::PartialEqSpecImpl for Shape {
    open spec fn obeys_eq_spec() -> bool {
        true
    }

    open spec fn eq_spec(&self, other: &Shape) -> bool {
        *self == *other
    }
}

impl<'a> From<&'a [usize]> for Shape {
    fn from(slice: &'a [usize]) -> (s: Shape) {
        Shape::new(slice)
    }
}

impl<'a> vstd::std_specs::convert::FromSpecImpl<&'a [usize]> for Shape {
    open spec fn obeys_from_spec() -> bool {
        true
    }

    open spec fn from_spec(v: &'a [usize]) -> Shape {
        spec_shape(v@)
    }
}

impl From<Vec<usize>> for Shape {
    fn from(v: Vec<usize>) -> (s: Shape) {
        Shape::new(v.as_slice())
    }
}

impl vstd::std_specs::convert::FromSpecImpl<Vec<usize>> for Shape {
    open spec fn obeys_from_spec() -> bool {
        true
    }

    open spec fn from_spec(v: Vec<usize>) -> Shape {
        spec_shape(v@)
    }
}

} // verus!
