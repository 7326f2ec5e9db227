//! Level layouts: the grid cells where cubes are stacked, which scene
//! objects become loose physical bodies, and the queue that wakes them.
use vstd::prelude::*;
use crate::text::{has_prefix, starts_with_chars, contains_char};

verus! {

/// A grid cell `(x, y, z)`.
pub type Cell = (i32, i32, i32);

/// The number of whole steps from `lo` up to (not including) `hi`.
pub open spec fn span(lo: i32, hi: i32) -> nat {
    if hi > lo {
        (hi - lo) as nat
    } else {
        0
    }
}

/// The cells of the box from `lo` (inclusive) to `hi` (exclusive), in the
/// order x-major, then y, then z: cell `(lo.0 + i, lo.1 + j, lo.2 + k)`
/// stands at position `(i * dy + j) * dz + k`.
pub open spec fn is_box_enumeration(cells: Seq<Cell>, lo: Cell, hi: Cell) -> bool {
    let dx = span(lo.0, hi.0);
    let dy = span(lo.1, hi.1);
    let dz = span(lo.2, hi.2);
    &&& cells.len() == dx * dy * dz
    &&& forall|i: int, j: int, k: int|
        0 <= i < dx && 0 <= j < dy && 0 <= k < dz ==> #[trigger] cells[(i * dy + j) * dz + k] == (
            (lo.0 + i) as i32,
            (lo.1 + j) as i32,
            (lo.2 + k) as i32,
        )
}

proof fn lemma_index_bounds(i: int, j: int, k: int, dx: int, dy: int, dz: int)
    requires
        0 <= i < dx,
        0 <= j < dy,
        0 <= k < dz,
    ensures
        0 <= (i * dy + j) * dz + k < dx * dy * dz,
{
    assert(0 <= (i * dy + j) * dz + k < dx * dy * dz) by (nonlinear_arith)
        requires
            0 <= i < dx,
            0 <= j < dy,
            0 <= k < dz,
    ;
}

proof fn lemma_next_row(i: int, j: int, dy: int, dz: int)
    ensures
        (i * dy + j + 1) * dz == (i * dy + j) * dz + dz,
        (i * dy + dy) * dz == (i + 1) * dy * dz,
{
    assert((i * dy + j + 1) * dz == (i * dy + j) * dz + dz) by (nonlinear_arith);
    assert((i * dy + dy) * dz == (i + 1) * dy * dz) by (nonlinear_arith);
}

/// Earlier cells come first.
proof fn lemma_index_order(a: int, b: int, c: int, i: int, j: int, k: int, dy: int, dz: int)
    requires
        0 <= b < dy,
        0 <= c < dz,
        0 <= j < dy,
        0 <= k < dz,
        a < i || (a == i && b < j) || (a == i && b == j && c < k),
    ensures
        (a * dy + b) * dz + c < (i * dy + j) * dz + k,
{
    if a < i {
        assert((a * dy + b) * dz + c < (i * dy + j) * dz + k) by (nonlinear_arith)
            requires a < i, 0 <= b < dy, 0 <= c < dz, 0 <= j, 0 <= k;
    } else if b < j {
        assert((a * dy + b) * dz + c < (i * dy + j) * dz + k) by (nonlinear_arith)
            requires a == i, b < j, 0 <= c < dz, 0 <= k;
    }
}

/// All cells of the box from `lo` to `hi`, x-major.
pub fn box_cells(lo: Cell, hi: Cell) -> (cells: Vec<Cell>)
    requires
        span(lo.0, hi.0) * span(lo.1, hi.1) * span(lo.2, hi.2) <= usize::MAX,
    ensures
        is_box_enumeration(cells@, lo, hi),
{
    let ghost dx = span(lo.0, hi.0) as int;
    let ghost dy = span(lo.1, hi.1) as int;
    let ghost dz = span(lo.2, hi.2) as int;
    let mut cells: Vec<Cell> = Vec::new();
    let mut x = lo.0;
    assert(0 * dy * dz == 0) by (nonlinear_arith);
    while x < hi.0
        invariant
            lo.0 <= x,
            x < hi.0 ==> x - lo.0 < dx,
            x >= hi.0 ==> x - lo.0 == dx,
            dx == span(lo.0, hi.0),
            dy == span(lo.1, hi.1),
            dz == span(lo.2, hi.2),
            dx >= 0 && dy >= 0 && dz >= 0,
            dx * dy * dz <= usize::MAX,
            cells@.len() == (x - lo.0) * dy * dz,
            forall|i: int, j: int, k: int|
                0 <= i < x - lo.0 && 0 <= j < dy && 0 <= k < dz ==> #[trigger] cells@[(i * dy + j) * dz + k] == (
                    (lo.0 + i) as i32,
                    (lo.1 + j) as i32,
                    (lo.2 + k) as i32,
                ),
        decreases hi.0 - x,
    {
        let ghost i = (x - lo.0) as int;
        let mut y = lo.1;
        while y < hi.1
            invariant
                lo.0 <= x < hi.0,
                i == x - lo.0,
                0 <= i < dx,
                lo.1 <= y,
                y < hi.1 ==> y - lo.1 < dy,
                y >= hi.1 ==> y - lo.1 == dy,
                dx == span(lo.0, hi.0),
                dy == span(lo.1, hi.1),
                dz == span(lo.2, hi.2),
                dx >= 0 && dy >= 0 && dz >= 0,
                dx * dy * dz <= usize::MAX,
                cells@.len() == (i * dy + (y - lo.1)) * dz,
                forall|a: int, j: int, k: int|
                    0 <= a < dx && 0 <= j < dy && 0 <= k < dz && (a < i || (a == i && j < y - lo.1)) ==> #[trigger] cells@[(a * dy + j) * dz + k] == (
                        (lo.0 + a) as i32,
                        (lo.1 + j) as i32,
                        (lo.2 + k) as i32,
                    ),
            decreases hi.1 - y,
        {
            let ghost j = (y - lo.1) as int;
            let mut z = lo.2;
            while z < hi.2
                invariant
                    lo.0 <= x < hi.0,
                    lo.1 <= y < hi.1,
                    i == x - lo.0,
                    j == y - lo.1,
                    0 <= i < dx,
                    0 <= j < dy,
                    lo.2 <= z,
                    z < hi.2 ==> z - lo.2 < dz,
                    z >= hi.2 ==> z - lo.2 == dz,
                    dx == span(lo.0, hi.0),
                    dy == span(lo.1, hi.1),
                    dz == span(lo.2, hi.2),
                    dx >= 0 && dy >= 0 && dz >= 0,
                    dx * dy * dz <= usize::MAX,
                    cells@.len() == (i * dy + j) * dz + (z - lo.2),
                    forall|a: int, b: int, k: int|
                        0 <= a < dx && 0 <= b < dy && 0 <= k < dz && (a < i || (a == i && b < j) || (a == i && b == j && k < z - lo.2)) ==> #[trigger] cells@[(a * dy + b) * dz + k] == (
                            (lo.0 + a) as i32,
                            (lo.1 + b) as i32,
                            (lo.2 + k) as i32,
                        ),
                decreases hi.2 - z,
            {
                let ghost k = (z - lo.2) as int;
                proof {
                    lemma_index_bounds(i, j, k, dx, dy, dz);
                }
                let ghost before = cells@;
                cells.push((x, y, z));
                proof {
                    assert forall|a: int, b: int, c: int|
                        0 <= a < dx && 0 <= b < dy && 0 <= c < dz && (a < i || (a == i && b < j) || (a == i && b == j && c < k + 1)) implies #[trigger] cells@[(a * dy + b) * dz + c] == (
                            (lo.0 + a) as i32,
                            (lo.1 + b) as i32,
                            (lo.2 + c) as i32,
                        ) by {
                        lemma_index_bounds(a, b, c, dx, dy, dz);
                        if !(a == i && b == j && c == k) {
                            lemma_index_order(a, b, c, i, j, k, dy, dz);
                            assert(before[(a * dy + b) * dz + c] == cells@[(a * dy + b) * dz + c]);
                        }
                    }
                }
                z = z + 1;
            }
            proof {
                lemma_next_row(i, j, dy, dz);
            }
            y = y + 1;
        }
        proof {
            lemma_next_row(i, dy, dy, dz);
        }
        x = x + 1;
    }
    cells
}

/// The stacked-cube block of the cube levels: `x` and `z` from
/// `-half_size` up to `half_size`, `y` from 0 up to `2 * half_size`.
pub fn cube_stack_cells(half_size: i32) -> (cells: Vec<Cell>)
    requires
        i32::MIN / 2 <= half_size <= i32::MAX / 2,
        half_size > 0 ==> 8 * half_size * half_size * half_size <= usize::MAX,
    ensures
        is_box_enumeration(cells@, ((-half_size) as i32, 0i32, (-half_size) as i32), (half_size, (2 * half_size) as i32, half_size)),
        cells@.len() == if half_size > 0 { 8 * half_size * half_size * half_size } else { 0 },
{
    let lo: Cell = (-half_size, 0, -half_size);
    let hi: Cell = (half_size, 2 * half_size, half_size);
    proof {
        if half_size > 0 {
            assert(span(lo.0, hi.0) * span(lo.1, hi.1) * span(lo.2, hi.2) == 8 * half_size * half_size * half_size) by (nonlinear_arith)
                requires
                    span(lo.0, hi.0) == 2 * half_size,
                    span(lo.1, hi.1) == 2 * half_size,
                    span(lo.2, hi.2) == 2 * half_size,
            ;
        } else {
            assert(span(lo.0, hi.0) == 0);
            assert(span(lo.0, hi.0) * span(lo.1, hi.1) * span(lo.2, hi.2) == 0) by (nonlinear_arith)
                requires span(lo.0, hi.0) == 0;
        }
    }
    box_cells(lo, hi)
}

/// The single layer of cubes of the floor level: `x` and `z` from 0 up to
/// `size`, at height 0.
pub fn floor_cells(size: i32) -> (cells: Vec<Cell>)
    requires
        size > 0 ==> size * size <= usize::MAX,
    ensures
        is_box_enumeration(cells@, (0i32, 0i32, 0i32), (size, 1i32, size)),
        cells@.len() == if size > 0 { size * size } else { 0 },
{
    let lo: Cell = (0, 0, 0);
    let hi: Cell = (size, 1, size);
    proof {
        if size > 0 {
            assert(span(lo.0, hi.0) * span(lo.1, hi.1) * span(lo.2, hi.2) == size * size) by (nonlinear_arith)
                requires
                    span(lo.0, hi.0) == size,
                    span(lo.1, hi.1) == 1,
                    span(lo.2, hi.2) == size,
            ;
        } else {
            assert(span(lo.0, hi.0) * span(lo.1, hi.1) * span(lo.2, hi.2) == 0) by (nonlinear_arith)
                requires span(lo.0, hi.0) == 0;
        }
    }
    box_cells(lo, hi)
}

/// A scene object whose name marks it as a piece of furniture: it starts
/// with one of the furniture kinds and holds an underscore.
pub open spec fn is_furniture_name(name: Seq<char>) -> bool {
    &&& (has_prefix(name, seq!['S', 'c', 'h', 'o', 'o', 'l', 'C', 'h', 'a', 'i', 'r'])
        || has_prefix(name, seq!['S', 'c', 'h', 'o', 'o', 'l', 'D', 'e', 's', 'k'])
        || has_prefix(name, seq!['P', 'l', 'a', 's', 't', 'i', 'c', 'C', 'h', 'a', 'i', 'r'])
        || has_prefix(name, seq!['L', 'i', 'b', 'r', 'a', 'r', 'y', 'C', 'h', 'a', 'i', 'r']))
    &&& name.contains('_')
}

/// Whether a scene object is a loose piece of furniture that gets a
/// collider and becomes a physical body: a furniture name, a mesh of its
/// own, and a parent that has none.
pub fn is_loose_furniture(name: &str, has_mesh: bool, has_parent: bool, parent_has_mesh: bool) -> (r: bool)
    ensures
        r == (is_furniture_name(name@) && has_parent && has_mesh && !parent_has_mesh),
{
    proof {
        reveal_strlit("SchoolChair");
        reveal_strlit("SchoolDesk");
        reveal_strlit("PlasticChair");
        reveal_strlit("LibraryChair");
        assert("SchoolChair"@ =~= seq!['S', 'c', 'h', 'o', 'o', 'l', 'C', 'h', 'a', 'i', 'r']);
        assert("SchoolDesk"@ =~= seq!['S', 'c', 'h', 'o', 'o', 'l', 'D', 'e', 's', 'k']);
        assert("PlasticChair"@ =~= seq!['P', 'l', 'a', 's', 't', 'i', 'c', 'C', 'h', 'a', 'i', 'r']);
        assert("LibraryChair"@ =~= seq!['L', 'i', 'b', 'r', 'a', 'r', 'y', 'C', 'h', 'a', 'i', 'r']);
    }
    let kind = starts_with_chars(name, "SchoolChair")
        || starts_with_chars(name, "SchoolDesk")
        || starts_with_chars(name, "PlasticChair")
        || starts_with_chars(name, "LibraryChair");
    kind && contains_char(name, '_') && has_parent && has_mesh && !parent_has_mesh
}

/// Scene objects (by entity number) waiting to become dynamic bodies, one
/// per tick, in the order in which they were found.
#[derive(Debug)]
pub struct MakeDynamic(pub Vec<u64>);

/// What one tick of the queue does.
#[derive(Debug, Clone, Copy, PartialEq, Eq, Structural)]
pub enum MakeDynamicStep {
    /// The first object's collider is not ready yet.
    Wait,
    /// Make this object a dynamic body (with default gravity) and wake it.
    Activate(u64),
    /// The queue is empty and can be dropped.
    Finished,
}

impl MakeDynamic {
    /// The next object in line, if any.
    pub fn first(&self) -> (r: Option<u64>)
        ensures
            self.0@.len() == 0 ==> r is None,
            self.0@.len() > 0 ==> r == Some(self.0@[0]),
    {
        if self.0.len() == 0 {
            None
        } else {
            Some(self.0[0])
        }
    }

    /// One tick: the first object is activated once its collider has been
    /// computed (`first_ready`); an empty queue is finished.
    pub fn step(&mut self, first_ready: bool) -> (r: MakeDynamicStep)
        ensures
            old(self).0@.len() == 0 ==> r == MakeDynamicStep::Finished && final(self).0@ == old(self).0@,
            old(self).0@.len() > 0 && first_ready ==> r == MakeDynamicStep::Activate(old(self).0@[0]) && final(self).0@ == old(self).0@.drop_first(),
            old(self).0@.len() > 0 && !first_ready ==> r == MakeDynamicStep::Wait && final(self).0@ == old(self).0@,
    {
        if self.0.len() == 0 {
            return MakeDynamicStep::Finished;
        }
        if first_ready {
            let e = self.0.remove(0);
            assert(old(self).0@.remove(0) =~= old(self).0@.drop_first());
            MakeDynamicStep::Activate(e)
        } else {
            MakeDynamicStep::Wait
        }
    }
}

} // verus!
