//! Assembly of the static-equilibrium system and binding of solved forces.
//!
//! For a store of `N` joints and `M` members the assembler builds the
//! coefficient matrix `A` of shape `2N x M` and the right-hand side `b` of
//! length `2N`. Rows `2i` and `2i + 1` are the x and y force balances at
//! joint `i`: the column of member `m` holds `+direction` where joint `i`
//! is the member's first endpoint, the negated direction where it is the
//! second, and zero words elsewhere, and `b` holds the negated applied
//! loads. A positive solved force is tension: the member pulls away from
//! its first endpoint along its direction. The numeric least-squares step
//! `G = At*A`, `f = inv(G)*At*b` on the words is the caller's; its outcome
//! comes back through [`bind_result`], which writes the forces only on
//! success and reports a singular system otherwise, leaving the model
//! untouched.

use vstd::prelude::*;

use crate::joints::{Node, Nodes};
use crate::members::{Line, Lines};
use crate::scalar::{flip_sign, ZERO_WORD};
use crate::TrussError;

verus! {

/// The assembled equilibrium system: row-major coefficients and the
/// right-hand side.
#[derive(Clone, Debug)]
pub struct LinearSystem {
    /// Number of rows: two balance equations per joint.
    pub rows: usize,
    /// Number of columns: one per member.
    pub cols: usize,
    /// Coefficient matrix, `rows` rows of `cols` scalar words each.
    pub coeffs: Vec<Vec<u64>>,
    /// Right-hand side, one scalar word per row.
    pub rhs: Vec<u64>,
}

/// The coefficient of member `l` in balance row `r`: row `r` belongs to
/// joint `r / 2`, its even/odd parity picks the x or y direction component,
/// and the sign convention is positive at the member's first endpoint,
/// negative at its second, zero at any other joint.
pub open spec fn coeff(l: Line, r: int) -> u64 {
    let i = r / 2;
    let w = if r % 2 == 0 {
        l.direction.x
    } else {
        l.direction.y
    };
    if l.first as int == i {
        w
    } else if l.second as int == i {
        flip_sign(w)
    } else {
        ZERO_WORD
    }
}

/// The right-hand side of balance row `r`: the negated x or y component of
/// the applied load at joint `r / 2`.
pub open spec fn rhs_entry(nodes: Seq<Node>, r: int) -> u64 {
    let load = nodes[r / 2].load;
    if r % 2 == 0 {
        flip_sign(load.x)
    } else {
        flip_sign(load.y)
    }
}

/// `sys` is the equilibrium system of the two stores: the dimensions are
/// `2N x M`, and every coefficient and right-hand-side entry is the one the
/// sign convention prescribes.
pub open spec fn is_assembly(sys: LinearSystem, nodes: Nodes, lines: Lines) -> bool {
    &&& sys.rows == 2 * nodes.items@.len()
    &&& sys.cols == lines.items@.len()
    &&& sys.coeffs@.len() == sys.rows
    &&& forall|r: int| 0 <= r < sys.rows ==> (#[trigger] sys.coeffs@[r])@.len() == sys.cols
    &&& forall|r: int, m: int|
        0 <= r < sys.rows && 0 <= m < sys.cols ==> (#[trigger] sys.coeffs@[r]@[m]) == coeff(
            lines.items@[m],
            r,
        )
    &&& sys.rhs@.len() == sys.rows
    &&& forall|r: int| 0 <= r < sys.rows ==> (#[trigger] sys.rhs@[r]) == rhs_entry(nodes.items@, r)
}

impl LinearSystem {
    /// A system with balance rows but no member columns: its
    /// normal-equations matrix is identically zero, so the least-squares
    /// solve must fail rather than return an empty force vector.
    pub fn is_trivially_singular(&self) -> (r: bool)
        ensures
            r == (self.cols == 0 && self.rows > 0),
    {
        self.cols == 0 && self.rows > 0
    }
}

/// Assembles the equilibrium system of the two stores. The stores are only
/// read: assembly is a pure function of the model, and the result's shape
/// is `2N x M` whatever the connectivity.
pub fn assemble(nodes: &Nodes, lines: &Lines) -> (sys: LinearSystem)
    requires
        nodes.wf(),
        lines.wf(),
        nodes.items@.len() <= usize::MAX / 2,
    ensures
        is_assembly(sys, *nodes, *lines),
{
    let n = nodes.items.len();
    let cols = lines.items.len();
    let rows = 2 * n;
    let mut coeffs: Vec<Vec<u64>> = Vec::new();
    let mut rhs: Vec<u64> = Vec::new();
    let mut i: usize = 0;
    while i < n
        invariant
            n == nodes.items@.len(),
            cols == lines.items@.len(),
            n <= usize::MAX / 2,
            i <= n,
            nodes.wf(),
            lines.wf(),
            coeffs@.len() == 2 * i,
            rhs@.len() == 2 * i,
            forall|r: int| 0 <= r < 2 * i ==> (#[trigger] coeffs@[r])@.len() == cols,
            forall|r: int, m: int|
                0 <= r < 2 * i && 0 <= m < cols ==> (#[trigger] coeffs@[r]@[m]) == coeff(
                    lines.items@[m],
                    r,
                ),
            forall|r: int| 0 <= r < 2 * i ==> (#[trigger] rhs@[r]) == rhs_entry(nodes.items@, r),
        decreases n - i,
    {
        let node = &nodes.items[i];
        rhs.push(crate::scalar::negate_word(node.load.x));
        rhs.push(crate::scalar::negate_word(node.load.y));
        let mut row_x: Vec<u64> = Vec::new();
        let mut row_y: Vec<u64> = Vec::new();
        let mut m: usize = 0;
        while m < cols
            invariant
                n == nodes.items@.len(),
                cols == lines.items@.len(),
                i < n,
                m <= cols,
                lines.wf(),
                row_x@.len() == m,
                row_y@.len() == m,
                forall|k: int|
                    0 <= k < m ==> (#[trigger] row_x@[k]) == coeff(lines.items@[k], 2 * (i as int)),
                forall|k: int|
                    0 <= k < m ==> (#[trigger] row_y@[k]) == coeff(
                        lines.items@[k],
                        2 * (i as int) + 1,
                    ),
            decreases cols - m,
        {
            let l = lines.items[m];
            if l.first == i {
                row_x.push(l.direction.x);
                row_y.push(l.direction.y);
            } else if l.second == i {
                row_x.push(crate::scalar::negate_word(l.direction.x));
                row_y.push(crate::scalar::negate_word(l.direction.y));
            } else {
                row_x.push(ZERO_WORD);
                row_y.push(ZERO_WORD);
            }
            m += 1;
        }
        coeffs.push(row_x);
        coeffs.push(row_y);
        i += 1;
    }
    LinearSystem { rows, cols, coeffs, rhs }
}

/// Binds the outcome of the numeric least-squares solve back into the
/// member store. On a solved force vector, member `m` gets force `f[m]`,
/// every member in range of the vector, and nothing else changes. When the
/// solve found the normal-equations matrix singular there are no forces:
/// nothing is written — every member keeps its zero word — and the failure
/// is reported as `SingularSystem`.
pub fn bind_result(lines: &mut Lines, outcome: Option<Vec<u64>>) -> (r: Result<(), TrussError>)
    requires
        old(lines).wf(),
    ensures
        final(lines).wf(),
        match outcome {
            Some(f) => {
                &&& r == Ok::<(), TrussError>(())
                &&& final(lines).items@.len() == old(lines).items@.len()
                &&& forall|m: int|
                    0 <= m < old(lines).items@.len() ==> {
                        &&& (#[trigger] final(lines).items@[m]).id == old(lines).items@[m].id
                        &&& final(lines).items@[m].first == old(lines).items@[m].first
                        &&& final(lines).items@[m].second == old(lines).items@[m].second
                        &&& final(lines).items@[m].direction == old(lines).items@[m].direction
                        &&& final(lines).items@[m].force == (if m < f@.len() {
                            f@[m]
                        } else {
                            old(lines).items@[m].force
                        })
                    }
            },
            None => r == Err::<(), TrussError>(TrussError::SingularSystem) && *final(lines)
                == *old(lines),
        },
{
    match outcome {
        Some(f) => {
            let count = if f.len() < lines.items.len() {
                f.len()
            } else {
                lines.items.len()
            };
            let mut m: usize = 0;
            while m < count
                invariant
                    lines.items@.len() == old(lines).items@.len(),
                    count <= old(lines).items@.len(),
                    count <= f@.len(),
                    m <= count,
                    count == if f@.len() < old(lines).items@.len() {
                        f@.len() as int
                    } else {
                        old(lines).items@.len() as int
                    },
                    forall|k: int|
                        0 <= k < m ==> (#[trigger] lines.items@[k]) == (Line {
                            force: f@[k],
                            ..old(lines).items@[k]
                        }),
                    forall|k: int|
                        m <= k < old(lines).items@.len() ==> (#[trigger] lines.items@[k]) == old(
                            lines,
                        ).items@[k],
                decreases count - m,
            {
                let line = &mut lines.items[m];
                line.force = f[m];
                m += 1;
            }
            Ok(())
        },
        None => Err(TrussError::SingularSystem),
    }
}

/// Two systems assembled from the same stores agree in shape and entry for
/// entry: assembly is deterministic.
pub proof fn lemma_assembly_deterministic(
    s1: LinearSystem,
    s2: LinearSystem,
    nodes: Nodes,
    lines: Lines,
)
    requires
        is_assembly(s1, nodes, lines),
        is_assembly(s2, nodes, lines),
    ensures
        s1.rows == s2.rows,
        s1.cols == s2.cols,
        forall|r: int, m: int|
            0 <= r < s1.rows && 0 <= m < s1.cols ==> (#[trigger] s1.coeffs@[r]@[m])
                == s2.coeffs@[r]@[m],
        forall|r: int| 0 <= r < s1.rows ==> (#[trigger] s1.rhs@[r]) == s2.rhs@[r],
{
}

} // verus!
