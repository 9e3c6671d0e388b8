use vstd::prelude::*;
use crate::rand_ext::random_range;
use crate::scalar::Scalar;
use crate::vec3::{Point3, Vec3};

verus! {

/// The number of gradients and the length of each permutation.
pub const POINT_COUNT: usize = 256;

/// Gradient noise: random unit vectors on a lattice, found by three
/// permutations.
pub struct Perlin {
    ranvec: Vec<Vec3>,
    perm_x: Vec<usize>,
    perm_y: Vec<usize>,
    perm_z: Vec<usize>,
}

/// A point split into its lattice cell and its position within the cell.
#[derive(Clone, Copy, Debug, PartialEq, Eq, Structural)]
pub struct LatticeCell {
    /// The floor of each coordinate.
    pub i: i64,
    pub j: i64,
    pub k: i64,
    /// The fractional part of each coordinate.
    pub u: Scalar,
    pub v: Scalar,
    pub w: Scalar,
}

/// The state of a sum of octaves: the sum so far, the weight of the next
/// octave and the point at which it is taken.
#[derive(Clone, Copy, Debug, PartialEq, Eq, Structural)]
pub struct Octave {
    pub accum: Scalar,
    pub weight: Scalar,
    pub point: Point3,
}

/// `next` is what adding an octave with the noise `n` to `prev` gave.
pub open spec fn octave_added<O: Fn(Octave, Scalar) -> Octave>(
    octave: O,
    prev: Octave,
    n: Scalar,
    next: Octave,
) -> bool {
    call_ensures(octave, (prev, n), next)
}

/// `p` holds each of the numbers below `POINT_COUNT` exactly once.
pub open spec fn is_permutation(p: Seq<usize>) -> bool {
    &&& p.len() == POINT_COUNT
    &&& forall|i: int| 0 <= i < p.len() ==> #[trigger] p[i] < POINT_COUNT
    &&& forall|i: int, j: int| 0 <= i < j < p.len() ==> #[trigger] p[i] != #[trigger] p[j]
    &&& forall|v: usize| v < POINT_COUNT ==> #[trigger] p.contains(v)
}

/// `p` with the entries at the places `i` and `j` exchanged.
pub open spec fn swapped(p: Seq<usize>, i: int, j: int) -> Seq<usize> {
    p.update(i, p[j]).update(j, p[i])
}

/// The draws of a shuffle, one for each place: the draw for a place lies
/// below the place. The first place draws nothing.
pub open spec fn valid_draws(draws: Seq<usize>) -> bool {
    &&& draws.len() == POINT_COUNT
    &&& forall|i: int| 1 <= i < POINT_COUNT ==> #[trigger] draws[i] < i
}

/// `p` after each place from the last down to `from` has changed entries
/// with the place that was drawn for it.
pub open spec fn shuffled_from(p: Seq<usize>, draws: Seq<usize>, from: int) -> Seq<usize>
    decreases POINT_COUNT - from,
{
    if from >= POINT_COUNT {
        p
    } else {
        swapped(shuffled_from(p, draws, from + 1), from, draws[from] as int)
    }
}

/// `after` is a shuffle of `before`: from the last place down to the second,
/// each entry has changed places with an earlier one.
pub open spec fn is_shuffle_of(after: Seq<usize>, before: Seq<usize>) -> bool {
    exists|draws: Seq<usize>| #[trigger] valid_draws(draws) && after == shuffled_from(before, draws, 1)
}

/// A permutation stays one when two of its entries change places.
pub proof fn lemma_swap_keeps_permutation(p: Seq<usize>, i: int, j: int)
    requires
        is_permutation(p),
        0 <= i < p.len(),
        0 <= j < p.len(),
    ensures
        is_permutation(swapped(p, i, j)),
{
    let after = swapped(p, i, j);
    assert forall|v: usize| v < POINT_COUNT implies #[trigger] after.contains(v) by {
        assert(p.contains(v));
        let k = choose|k: int| 0 <= k < p.len() && p[k] == v;
        if k == i {
            assert(after[j] == v);
        } else if k == j {
            assert(after[i] == v);
        } else {
            assert(after[k] == v);
        }
    }
    assert forall|x: int, y: int| 0 <= x < y < after.len() implies #[trigger] after[x]
        != #[trigger] after[y] by {
        let px = if x == i {
            j
        } else if x == j {
            i
        } else {
            x
        };
        let py = if y == i {
            j
        } else if y == j {
            i
        } else {
            y
        };
        assert(after[x] == p[px]);
        assert(after[y] == p[py]);
        if px < py {
            assert(p[px] != p[py]);
        } else if py < px {
            assert(p[py] != p[px]);
        }
    }
}

/// The places at and above `from` are settled once the shuffle has come
/// down to `from`: the last place holds the entry that stood at the place
/// drawn for it, and the length is unchanged.
pub proof fn lemma_shuffle_settles_last(p: Seq<usize>, draws: Seq<usize>, from: int)
    requires
        p.len() == POINT_COUNT,
        valid_draws(draws),
        1 <= from < POINT_COUNT,
    ensures
        shuffled_from(p, draws, from).len() == POINT_COUNT,
        shuffled_from(p, draws, from)[POINT_COUNT - 1] == p[draws[POINT_COUNT - 1] as int],
    decreases POINT_COUNT - from,
{
    if from < POINT_COUNT - 1 {
        lemma_shuffle_settles_last(p, draws, from + 1);
        assert(draws[from] < from);
    } else {
        assert(shuffled_from(p, draws, from + 1) == p);
        assert(draws[from] < from);
    }
}

/// A shuffle never leaves a permutation as it was: its last entry comes
/// from an earlier place.
pub proof fn lemma_shuffle_changes_permutation(after: Seq<usize>, before: Seq<usize>)
    requires
        is_permutation(before),
        is_shuffle_of(after, before),
    ensures
        after != before,
        exists|k: int| 0 <= k < POINT_COUNT - 1 && after[POINT_COUNT - 1] == #[trigger] before[k],
{
    let draws = choose|draws: Seq<usize>| #[trigger]
        valid_draws(draws) && after == shuffled_from(before, draws, 1);
    lemma_shuffle_settles_last(before, draws, 1);
    let k = draws[POINT_COUNT - 1] as int;
    assert(0 <= k < POINT_COUNT - 1);
    assert(after[POINT_COUNT - 1] == before[k]);
    assert(before[k] != before[POINT_COUNT - 1]);
}

/// The lattice coordinate `i + d` folded into the table.
pub open spec fn folded(i: int, d: int) -> int {
    (i + d) % 256
}

/// The coordinate `i + d` folded into the table, for `d` zero or one.
pub fn fold_coordinate(i: i64, d: usize) -> (r: usize)
    requires
        d <= 1,
    ensures
        r == folded(i as int, d as int),
        r < POINT_COUNT,
{
    let m: u64 = if i >= 0 {
        (i as u64) % 256
    } else {
        let n: u64 = (-(i + 1)) as u64;
        255 - (n % 256)
    };
    assert(m == (i as int) % 256);
    let s: u64 = (m + d as u64) % 256;
    s as usize
}

impl Perlin {
    /// There are `POINT_COUNT` gradients, and each table is a permutation.
    #[verifier::type_invariant]
    spec fn inv(self) -> bool {
        &&& self.ranvec@.len() == POINT_COUNT
        &&& is_permutation(self.perm_x@)
        &&& is_permutation(self.perm_y@)
        &&& is_permutation(self.perm_z@)
    }

    /// The gradients.
    pub closed spec fn gradients(self) -> Seq<Vec3> {
        self.ranvec@
    }

    /// The permutation for the x coordinate.
    pub closed spec fn table_x(self) -> Seq<usize> {
        self.perm_x@
    }

    /// The permutation for the y coordinate.
    pub closed spec fn table_y(self) -> Seq<usize> {
        self.perm_y@
    }

    /// The permutation for the z coordinate.
    pub closed spec fn table_z(self) -> Seq<usize> {
        self.perm_z@
    }

    /// There are `POINT_COUNT` gradients, and each table is a permutation.
    /// This holds of every noise.
    pub open spec fn wf(self) -> bool {
        &&& self.gradients().len() == POINT_COUNT
        &&& is_permutation(self.table_x())
        &&& is_permutation(self.table_y())
        &&& is_permutation(self.table_z())
    }

    /// The index of the gradient at a lattice point: the three permuted
    /// coordinates combined by exclusive or.
    pub open spec fn gradient_index(self, i: int, j: int, k: int) -> usize {
        self.table_x()[i % 256] ^ self.table_y()[j % 256] ^ self.table_z()[k % 256]
    }

    /// The gradient at a lattice point.
    pub open spec fn gradient_spec(self, i: int, j: int, k: int) -> Vec3 {
        self.gradients()[self.gradient_index(i, j, k) as int]
    }

    /// `r` is a value that `noise` may give with these kernels.
    pub open spec fn noise_outcome<
        F: Fn(&Point3) -> LatticeCell,
        I: Fn(&[Vec3; 8], Scalar, Scalar, Scalar) -> Scalar,
    >(self, point: Point3, cell: F, interpolate: I, r: Scalar) -> bool {
        exists|c: LatticeCell, corners: [Vec3; 8]|
            {
                &&& #[trigger] call_ensures(cell, (&point,), c)
                &&& self.corners_are(c.i as int, c.j as int, c.k as int, corners)
                &&& #[trigger] call_ensures(interpolate, (&corners, c.u, c.v, c.w), r)
            }
    }

    /// `corners` holds the gradients at the eight corners of the cell at
    /// `(i, j, k)`, the corner `(di, dj, dk)` at index `4 di + 2 dj + dk`.
    pub open spec fn corners_are(self, i: int, j: int, k: int, corners: [Vec3; 8]) -> bool {
        forall|di: int, dj: int, dk: int|
            0 <= di <= 1 && 0 <= dj <= 1 && 0 <= dk <= 1 ==> #[trigger] corners[4 * di + 2 * dj
                + dk] == self.gradient_spec(i + di, j + dj, k + dk)
    }

    /// `state` is what the sum may be after `depth` octaves at `point`.
    pub open spec fn octaves_outcome<
        F: Fn(&Point3) -> LatticeCell,
        I: Fn(&[Vec3; 8], Scalar, Scalar, Scalar) -> Scalar,
        O: Fn(Octave, Scalar) -> Octave,
    >(self, depth: nat, point: Point3, cell: F, interpolate: I, octave: O, state: Octave) -> bool
        decreases depth,
    {
        if depth == 0 {
            state == (Octave {
                accum: Scalar { bits: 0 },
                weight: Scalar { bits: 0x3f80_0000 },
                point,
            })
        } else {
            exists|prev: Octave, n: Scalar|
                {
                    &&& #[trigger] octave_added(octave, prev, n, state)
                    &&& self.octaves_outcome(
                        (depth - 1) as nat,
                        point,
                        cell,
                        interpolate,
                        octave,
                        prev,
                    )
                    &&& self.noise_outcome(prev.point, cell, interpolate, n)
                }
        }
    }

    /// `r` is a value that `turb` may give with these kernels: the
    /// magnitude of a sum of `depth` octaves.
    pub open spec fn turb_outcome<
        F: Fn(&Point3) -> LatticeCell,
        I: Fn(&[Vec3; 8], Scalar, Scalar, Scalar) -> Scalar,
        O: Fn(Octave, Scalar) -> Octave,
    >(self, depth: nat, point: Point3, cell: F, interpolate: I, octave: O, r: Scalar) -> bool {
        exists|state: Octave| #[trigger]
            self.octaves_outcome(depth, point, cell, interpolate, octave, state) && r
                == state.accum.abs_spec()
    }

    /// The noise on the given gradients, with three fresh permutations.
    pub fn new(ranvec: Vec<Vec3>) -> (p: Perlin)
        requires
            ranvec@.len() == POINT_COUNT,
        ensures
            p.wf(),
            p.gradients() == ranvec@,
    {
        Perlin {
            ranvec,
            perm_x: Perlin::generate_permutation(),
            perm_y: Perlin::generate_permutation(),
            perm_z: Perlin::generate_permutation(),
        }
    }

    /// The gradients.
    pub fn ranvec(&self) -> (r: &Vec<Vec3>)
        ensures
            r@ == self.gradients(),
            self.wf(),
    {
        proof {
            use_type_invariant(self);
        }
        &self.ranvec
    }

    /// The permutation for the x coordinate.
    pub fn perm_x(&self) -> (r: &Vec<usize>)
        ensures
            r@ == self.table_x(),
    {
        &self.perm_x
    }

    /// The permutation for the y coordinate.
    pub fn perm_y(&self) -> (r: &Vec<usize>)
        ensures
            r@ == self.table_y(),
    {
        &self.perm_y
    }

    /// The permutation for the z coordinate.
    pub fn perm_z(&self) -> (r: &Vec<usize>)
        ensures
            r@ == self.table_z(),
    {
        &self.perm_z
    }

    /// A random permutation of the numbers below `POINT_COUNT`.
    pub fn generate_permutation() -> (p: Vec<usize>)
        ensures
            is_permutation(p@),
    {
        let mut p: Vec<usize> = Vec::new();
        let mut i: usize = 0;
        while i < POINT_COUNT
            invariant
                i <= POINT_COUNT,
                p@.len() == i,
                forall|k: int| 0 <= k < i ==> #[trigger] p@[k] == k,
            decreases POINT_COUNT - i,
        {
            p.push(i);
            i += 1;
        }
        proof {
            assert forall|v: usize| v < POINT_COUNT implies #[trigger] p@.contains(v) by {
                assert(p@[v as int] == v);
            }
        }
        Perlin::permute(&mut p);
        p
    }

    /// Shuffles a permutation in place: from the last place down to the
    /// second, each entry changes places with a random earlier one.
    pub fn permute(p: &mut Vec<usize>)
        requires
            is_permutation(old(p)@),
        ensures
            is_permutation(final(p)@),
            is_shuffle_of(final(p)@, old(p)@),
    {
        let mut draws: Vec<usize> = Vec::new();
        let mut n: usize = 0;
        while n < POINT_COUNT
            invariant
                n <= POINT_COUNT,
                draws@.len() == n,
            decreases POINT_COUNT - n,
        {
            draws.push(0);
            n += 1;
        }
        let mut i: usize = POINT_COUNT - 1;
        while i >= 1
            invariant
                i < POINT_COUNT,
                draws@.len() == POINT_COUNT,
                forall|k: int| i < k < POINT_COUNT ==> #[trigger] draws@[k] < k,
            decreases i,
        {
            let target = random_range(0, i);
            draws.set(i, target);
            i -= 1;
        }
        Perlin::permute_with(p, &draws);
        proof {
            assert(valid_draws(draws@));
        }
    }

    /// Shuffles in place with the given draws: from the last place down to
    /// the second, each entry changes places with the entry at the place
    /// drawn for it.
    pub fn permute_with(p: &mut Vec<usize>, draws: &Vec<usize>)
        requires
            old(p)@.len() == POINT_COUNT,
            valid_draws(draws@),
        ensures
            final(p)@ == shuffled_from(old(p)@, draws@, 1),
            is_permutation(old(p)@) ==> is_permutation(final(p)@),
    {
        let mut i: usize = POINT_COUNT - 1;
        while i >= 1
            invariant
                i < POINT_COUNT,
                valid_draws(draws@),
                p@.len() == POINT_COUNT,
                p@ == shuffled_from(old(p)@, draws@, i + 1),
                is_permutation(old(p)@) ==> is_permutation(p@),
            decreases i,
        {
            let target = draws[i];
            let a = p[i];
            let b = p[target];
            let ghost before = p@;
            p.set(i, b);
            p.set(target, a);
            proof {
                assert(p@ =~= swapped(before, i as int, target as int));
                if is_permutation(old(p)@) {
                    lemma_swap_keeps_permutation(before, i as int, target as int);
                }
            }
            i -= 1;
        }
    }

    /// Turbulence: the magnitude of a sum of `depth` octaves of noise.
    /// `octave` adds the weighted noise to the sum, halves the weight and
    /// doubles the point.
    pub fn turb<
        F: Fn(&Point3) -> LatticeCell,
        I: Fn(&[Vec3; 8], Scalar, Scalar, Scalar) -> Scalar,
        O: Fn(Octave, Scalar) -> Octave,
    >(&self, point: &Point3, depth: usize, cell: &F, interpolate: &I, octave: &O) -> (r: Scalar)
        requires
            forall|p: &Point3| call_requires(*cell, (p,)),
            forall|c: &[Vec3; 8], u: Scalar, v: Scalar, w: Scalar|
                call_requires(*interpolate, (c, u, v, w)),
            forall|s: Octave, n: Scalar| call_requires(*octave, (s, n)),
        ensures
            self.turb_outcome(depth as nat, *point, *cell, *interpolate, *octave, r),
    {
        let mut state = Octave { accum: Scalar::zero(), weight: Scalar::one(), point: *point };
        let mut i: usize = 0;
        while i < depth
            invariant
                i <= depth,
                forall|p: &Point3| call_requires(*cell, (p,)),
                forall|c: &[Vec3; 8], u: Scalar, v: Scalar, w: Scalar|
                    call_requires(*interpolate, (c, u, v, w)),
                forall|s: Octave, n: Scalar| call_requires(*octave, (s, n)),
                self.octaves_outcome(i as nat, *point, *cell, *interpolate, *octave, state),
            decreases depth - i,
        {
            let ghost prev = state;
            let n = self.noise(&state.point, cell, interpolate);
            state = octave(state, n);
            proof {
                assert(octave_added(*octave, prev, n, state));
            }
            i += 1;
        }
        state.accum.abs()
    }

    /// The gradient at the corner `(di, dj, dk)` of the cell at `(i, j, k)`.
    pub fn gradient(&self, i: i64, j: i64, k: i64, di: usize, dj: usize, dk: usize) -> (g: Vec3)
        requires
            di <= 1,
            dj <= 1,
            dk <= 1,
        ensures
            g == self.gradient_spec(i + di, j + dj, k + dk),
    {
        proof {
            use_type_invariant(self);
        }
        let a = self.perm_x[fold_coordinate(i, di)];
        let b = self.perm_y[fold_coordinate(j, dj)];
        let c = self.perm_z[fold_coordinate(k, dk)];
        assert(a ^ b ^ c < 256) by (bit_vector)
            requires
                a < 256,
                b < 256,
                c < 256,
        ;
        self.ranvec[a ^ b ^ c]
    }

    /// The gradients at the eight corners of the cell at `(i, j, k)`.
    pub fn corners(&self, i: i64, j: i64, k: i64) -> (c: [Vec3; 8])
        ensures
            self.corners_are(i as int, j as int, k as int, c),
    {
        let c = [
            self.gradient(i, j, k, 0, 0, 0),
            self.gradient(i, j, k, 0, 0, 1),
            self.gradient(i, j, k, 0, 1, 0),
            self.gradient(i, j, k, 0, 1, 1),
            self.gradient(i, j, k, 1, 0, 0),
            self.gradient(i, j, k, 1, 0, 1),
            self.gradient(i, j, k, 1, 1, 0),
            self.gradient(i, j, k, 1, 1, 1),
        ];
        assert forall|di: int, dj: int, dk: int|
            0 <= di <= 1 && 0 <= dj <= 1 && 0 <= dk <= 1 implies #[trigger] c[4 * di + 2 * dj + dk]
            == self.gradient_spec(i + di, j + dj, k + dk) by {
            let at = 4 * di + 2 * dj + dk;
            assert(at == 0 || at == 1 || at == 2 || at == 3 || at == 4 || at == 5 || at == 6 || at
                == 7);
        }
        c
    }

    /// The noise at a point. `cell` splits the point into its lattice cell
    /// and the position within it; `interpolate` blends the gradients at the
    /// corners of the cell.
    pub fn noise<
        F: Fn(&Point3) -> LatticeCell,
        I: Fn(&[Vec3; 8], Scalar, Scalar, Scalar) -> Scalar,
    >(&self, point: &Point3, cell: &F, interpolate: &I) -> (r: Scalar)
        requires
            call_requires(*cell, (point,)),
            forall|c: &[Vec3; 8], u: Scalar, v: Scalar, w: Scalar|
                call_requires(*interpolate, (c, u, v, w)),
        ensures
            self.noise_outcome(*point, *cell, *interpolate, r),
    {
        let c = cell(point);
        let corners = self.corners(c.i, c.j, c.k);
        interpolate(&corners, c.u, c.v, c.w)
    }
}

} // verus!
