//! Fixed-size vectors of numbers: points, directions and colours.

use crate::scalar::Scalar;
use vstd::prelude::*;

verus! {

/// A vector of `N` numbers.
#[derive(Clone, Copy, Debug, PartialEq, Eq)]
pub struct MatVec<const N: usize> {
    pub data: [Scalar; N],
}

/// A colour with its opacity: red, green, blue, alpha.
pub type RGBA = MatVec<4>;

/// A colour: red, green, blue.
pub type Color = MatVec<3>;

/// The colour of a light.
pub type Light = MatVec<3>;

impl<const N: usize> View for MatVec<N> {
    type V = Seq<Scalar>;

    open spec fn view(&self) -> Seq<Scalar> {
        self.data@
    }
}

/// The vector of the first two numbers of a sequence.
pub open spec fn pair(s: Seq<Scalar>) -> MatVec<2> {
    MatVec { data: [s[0], s[1]] }
}

/// The vector of the first three numbers of a sequence.
pub open spec fn triple(s: Seq<Scalar>) -> MatVec<3> {
    MatVec { data: [s[0], s[1], s[2]] }
}

/// The vector of the first four numbers of a sequence.
pub open spec fn quadruple(s: Seq<Scalar>) -> MatVec<4> {
    MatVec { data: [s[0], s[1], s[2], s[3]] }
}

/// Two vectors that hold the same numbers are the same vector.
pub proof fn lemma_same_numbers<const N: usize>(a: MatVec<N>, b: MatVec<N>)
    requires
        a@ == b@,
    ensures
        a == b,
{
    assert(a.data =~= b.data);
}

/// A vector is the vector of its own numbers.
pub proof fn lemma_rebuilt(a: MatVec<2>, b: MatVec<3>, c: MatVec<4>)
    ensures
        a == pair(a@),
        b == triple(b@),
        c == quadruple(c@),
{
    assert(a@ =~= pair(a@)@);
    assert(b@ =~= triple(b@)@);
    assert(c@ =~= quadruple(c@)@);
    lemma_same_numbers(a, pair(a@));
    lemma_same_numbers(b, triple(b@));
    lemma_same_numbers(c, quadruple(c@));
}

impl<const N: usize> MatVec<N> {
    /// The vector that holds the numbers of `data`, in their order.
    pub fn new(data: Vec<Scalar>) -> (r: MatVec<N>)
        requires
            data.len() == N,
        ensures
            r@ == data@,
    {
        let mut cells: [Scalar; N] = [Scalar { bits: 0 };N];
        let mut i: usize = 0;
        while i < N
            invariant
                i <= N,
                data.len() == N,
                cells@.len() == N,
                forall|k: int| 0 <= k < i ==> cells@[k] == data@[k],
            decreases N - i,
        {
            cells[i] = data[i];
            i = i + 1;
        }
        assert(cells@ =~= data@);
        MatVec { data: cells }
    }

    /// The number at index `i`.
    pub fn get(&self, i: usize) -> (r: Scalar)
        requires
            i < N,
        ensures
            r == self@[i as int],
    {
        self.data[i]
    }

    /// Puts `val` at index `i` and leaves the other numbers as they are.
    pub fn set(&mut self, i: usize, val: Scalar)
        requires
            i < N,
        ensures
            final(self)@ == old(self)@.update(i as int, val),
    {
        self.data[i] = val;
    }

    /// The number of components.
    pub fn len(&self) -> (r: usize)
        ensures
            r == N,
            r == self@.len(),
    {
        N
    }

    /// Each component cut to a byte.
    pub fn clip_to_u8(&self) -> (r: Vec<u8>)
        ensures
            r@.len() == N,
            forall|i: int| 0 <= i < N ==> r@[i] == #[trigger] self@[i].byte(),
    {
        let mut clipped: Vec<u8> = Vec::new();
        let mut i: usize = 0;
        while i < N
            invariant
                i <= N,
                clipped@.len() == i,
                forall|k: int| 0 <= k < i ==> clipped@[k] == #[trigger] self@[k].byte(),
            decreases N - i,
        {
            clipped.push(self.data[i].to_byte());
            i = i + 1;
        }
        clipped
    }

    /// The first three components cut to a byte each, and behind them the
    /// fourth cut likewise, or 255 where there are only three.
    pub fn clip_to_pixel(&self) -> (r: (u8, u8, u8, u8))
        requires
            N == 3 || N == 4,
        ensures
            r.0 == self@[0].byte(),
            r.1 == self@[1].byte(),
            r.2 == self@[2].byte(),
            r.3 == if N == 4 {
                self@[3].byte()
            } else {
                255
            },
    {
        let alpha = if N == 4 {
            self.data[3].to_byte()
        } else {
            255
        };
        (self.data[0].to_byte(), self.data[1].to_byte(), self.data[2].to_byte(), alpha)
    }

    /// Every component with the opposite sign.
    pub fn negate(&self) -> (r: MatVec<N>)
        ensures
            r@.len() == N,
            forall|i: int| 0 <= i < N ==> r@[i] == #[trigger] self@[i].negated(),
    {
        let mut cells: [Scalar; N] = self.data;
        let mut i: usize = 0;
        while i < N
            invariant
                i <= N,
                cells@.len() == N,
                forall|k: int| 0 <= k < i ==> cells@[k] == #[trigger] self@[k].negated(),
                forall|k: int| i <= k < N ==> cells@[k] == self@[k],
            decreases N - i,
        {
            cells[i] = self.data[i].neg();
            i = i + 1;
        }
        MatVec { data: cells }
    }

    /// Whether every component is a zero.
    pub fn is_zero(&self) -> (r: bool)
        ensures
            r == forall|i: int| 0 <= i < N ==> #[trigger] self@[i].equals(Scalar::of(0)),
    {
        let mut i: usize = 0;
        while i < N
            invariant
                i <= N,
                forall|k: int| 0 <= k < i ==> #[trigger] self@[k].equals(Scalar::of(0)),
            decreases N - i,
        {
            if !self.data[i].same_value(Scalar { bits: 0 }) {
                assert(!self@[i as int].equals(Scalar::of(0)));
                return false;
            }
            i = i + 1;
        }
        true
    }
}

} // verus!
