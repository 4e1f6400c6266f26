//! The elliptic-curve operation builtin: for an instance holding the points
//! `P`, `Q` and the scalar `m`, the two output cells hold `P + m * Q`.

use crate::bigint::BigInt;
use crate::errors::{MemoryError, RunnerError};
use crate::felt::{felt_prime, lemma_felt_prime_positive, prime, Felt};
use crate::math_utils::{
    double_slope_defined, ec_add, ec_add_spec, ec_double, ec_double_spec, lemma_mod_floor_range,
    line_slope_defined, point_view, safe_div_usize, Point,
};
use crate::memory::{Memory, MemorySegmentManager, MemoryView};
use crate::number_theory::{
    is_prime, lemma_bezout_signed, lemma_coprime_to_prime, lemma_divisible_is_multiple,
};
use crate::relocatable::{CellValue, MaybeRelocatable, Relocatable};
use crate::vm_core::VirtualMachine;
use vstd::arithmetic::div_mod::{
    lemma_add_mod_noop, lemma_mul_mod_noop_left, lemma_small_mod,
};
use vstd::arithmetic::power2::{lemma2_to64, lemma_pow2_adds, pow2};
use vstd::prelude::*;

verus! {

/// The number of cells of an instance: five inputs and two outputs.
pub const CELLS_PER_EC_OP: u32 = 7;

/// The number of input cells of an instance: `P.x`, `P.y`, `Q.x`, `Q.y`, `m`.
pub const INPUT_CELLS_PER_EC_OP: u32 = 5;

/// The layout parameters of the builtin.
#[derive(Debug, Clone, Copy, PartialEq, Eq, Structural)]
pub struct EcOpInstanceDef {
    /// Machine steps per instance.
    pub ratio: u32,
    /// The number of doubling rounds.
    pub scalar_height: u32,
    pub scalar_bits: u32,
}

impl EcOpInstanceDef {
    pub fn new(ratio: u32) -> (r: EcOpInstanceDef)
        ensures
            r == (EcOpInstanceDef { ratio, scalar_height: 256, scalar_bits: 252 }),
    {
        EcOpInstanceDef { ratio, scalar_height: 256, scalar_bits: 252 }
    }
}

impl Default for EcOpInstanceDef {
    fn default() -> (r: EcOpInstanceDef)
        ensures
            r == (EcOpInstanceDef { ratio: 256, scalar_height: 256, scalar_bits: 252 }),
    {
        EcOpInstanceDef { ratio: 256, scalar_height: 256, scalar_bits: 252 }
    }
}

/// The curve's coefficient of `x`.
pub open spec fn ec_op_alpha() -> int {
    1
}

/// The curve's constant term.
pub open spec fn ec_op_beta() -> int {
    0x6f21413efbe40de150e596d72f7a8c5609ad26c15c915c1f4cdfcb99cee9e89int
}

/// `(x, y)` satisfies `y^2 = x^3 + alpha * x + beta` in the field.
pub open spec fn on_curve_spec(x: int, y: int, alpha: int, beta: int) -> bool {
    (y * y) % felt_prime() == (x * x * x + alpha * x + beta) % felt_prime()
}

/// The double-and-add computation of `partial_sum + m * doubled_point` over
/// `height` rounds, as the constraint system performs it. Each round adds
/// the doubled point where the low bit of `m` is set, doubles it, and
/// halves `m`. A round that meets two points with one x coordinate cannot
/// be represented: the result is then the pair of points it met.
pub open spec fn ec_op_spec(
    partial_sum: (int, int),
    doubled_point: (int, int),
    m: int,
    alpha: int,
    prime: int,
    height: nat,
) -> Result<(int, int), ((int, int), (int, int))>
    decreases height,
{
    if height == 0 {
        Ok(partial_sum)
    } else if doubled_point.0 == partial_sum.0 {
        Err((partial_sum, doubled_point))
    } else {
        let next = if m % 2 == 1 {
            ec_add_spec(partial_sum, doubled_point, prime)
        } else {
            partial_sum
        };
        ec_op_spec(
            next,
            ec_double_spec(doubled_point, alpha, prime),
            m / 2,
            alpha,
            prime,
            (height - 1) as nat,
        )
    }
}

/// Every slope that the computation takes exists: in each round that is
/// reached, the denominators are invertible modulo `prime`.
pub open spec fn ec_op_defined(
    partial_sum: (int, int),
    doubled_point: (int, int),
    m: int,
    alpha: int,
    prime: int,
    height: nat,
) -> bool
    decreases height,
{
    if height == 0 || doubled_point.0 == partial_sum.0 {
        true
    } else {
        let next = if m % 2 == 1 {
            ec_add_spec(partial_sum, doubled_point, prime)
        } else {
            partial_sum
        };
        &&& m % 2 == 1 ==> line_slope_defined(partial_sum, doubled_point, prime)
        &&& double_slope_defined(doubled_point, prime)
        &&& ec_op_defined(
            next,
            ec_double_spec(doubled_point, alpha, prime),
            m / 2,
            alpha,
            prime,
            (height - 1) as nat,
        )
    }
}

/// Modulo a prime, two reduced points with different x coordinates have a
/// line slope.
pub proof fn lemma_line_slope_defined_for_prime(a: (int, int), b: (int, int), p: int)
    requires
        is_prime(p),
        0 <= a.0 < p,
        0 <= b.0 < p,
        a.0 != b.0,
    ensures
        line_slope_defined(a, b, p),
{
    lemma_mod_floor_range(b.0, p);
    lemma_small_mod(b.0 as nat, p as nat);
    vstd::arithmetic::div_mod::lemma_fundamental_div_mod(b.0, p);
    let d = a.0 - b.0;
    if d % p == 0 {
        lemma_divisible_is_multiple(d, p);
        let k = d / p;
        assert(k == 0) by (nonlinear_arith)
            requires
                d == p * k,
                -p < d < p,
                p > 0,
        ;
        assert(d == 0) by (nonlinear_arith)
            requires
                d == p * k,
                k == 0,
        ;
    }
    lemma_coprime_to_prime(d, p);
}

/// Modulo an odd prime, a reduced point with a y coordinate other than zero
/// has a tangent slope.
pub proof fn lemma_double_slope_defined_for_prime(pt: (int, int), p: int)
    requires
        is_prime(p),
        p > 2,
        0 < pt.1 < p,
    ensures
        double_slope_defined(pt, p),
{
    let y = pt.1;
    lemma_mod_floor_range(y, p);
    lemma_small_mod(y as nat, p as nat);
    vstd::arithmetic::div_mod::lemma_fundamental_div_mod(y, p);
    lemma_coprime_to_prime(y, p);
    if (2 * y) % p == 0 {
        let (s, t) = lemma_bezout_signed(y, p);
        lemma_divisible_is_multiple(2 * y, p);
        let k = (2 * y) / p;
        assert(2 == p * (s * k + 2 * t)) by (nonlinear_arith)
            requires
                s * y + t * p == 1,
                2 * y == p * k,
        ;
        let w = s * k + 2 * t;
        assert(false) by (nonlinear_arith)
            requires
                2 == p * w,
                p > 2,
        ;
    }
    lemma_coprime_to_prime(2 * y, p);
}

/// What the input cells of an instance amount to.
pub ghost enum EcOpInputs {
    /// Some cell has not been written yet.
    Missing,
    /// The first cell that is not a field element holds an address.
    NotInteger(Relocatable),
    /// The values of the cells, in order.
    Ready(Seq<int>),
}

/// The address `by` cells after `a`.
pub open spec fn cell_after(a: Relocatable, by: int) -> Relocatable {
    Relocatable { segment_index: a.segment_index, offset: (a.offset + by) as usize }
}

/// The first `count` cells of the instance at `instance`, read in order up
/// to the first that is missing or not a field element.
pub open spec fn gather_inputs(m: MemoryView, instance: Relocatable, count: nat) -> EcOpInputs
    decreases count,
{
    if count == 0 {
        EcOpInputs::Ready(Seq::empty())
    } else {
        match gather_inputs(m, instance, (count - 1) as nat) {
            EcOpInputs::Ready(values) => match m.get(cell_after(instance, count - 1)) {
                None => EcOpInputs::Missing,
                Some(CellValue::Address(_)) => EcOpInputs::NotInteger(
                    cell_after(instance, count - 1),
                ),
                Some(CellValue::Int(v)) => EcOpInputs::Ready(values.push(v)),
            },
            other => other,
        }
    }
}

/// The outcome of a deduction.
pub ghost enum Deduction {
    /// Nothing can be said of the cell, now or ever from this builtin.
    Deferred,
    /// The cell holds this field element.
    Value(int),
    /// An input cell holds an address.
    NotInteger(Relocatable),
    /// The first input point is not on the curve.
    NotOnCurve,
    /// A round met two points with one x coordinate: (partial sum, scalar,
    /// doubled point).
    SameX((int, int), int, (int, int)),
}

/// The start of the instance that `address` lies in.
pub open spec fn instance_of(address: Relocatable) -> Relocatable {
    Relocatable {
        segment_index: address.segment_index,
        offset: (address.offset - address.offset % (CELLS_PER_EC_OP as usize)) as usize,
    }
}

/// What the builtin deduces for the cell at `address` from memory `m`.
pub open spec fn deduce_spec(address: Relocatable, m: MemoryView, scalar_height: nat) -> Deduction {
    let index = address.offset % (CELLS_PER_EC_OP as usize);
    if index != 5 && index != 6 {
        Deduction::Deferred
    } else {
        match gather_inputs(m, instance_of(address), INPUT_CELLS_PER_EC_OP as nat) {
            EcOpInputs::Missing => Deduction::Deferred,
            EcOpInputs::NotInteger(at) => Deduction::NotInteger(at),
            EcOpInputs::Ready(v) => if !on_curve_spec(v[0], v[1], ec_op_alpha(), ec_op_beta()) {
                Deduction::NotOnCurve
            } else {
                match ec_op_spec(
                    (v[0], v[1]),
                    (v[2], v[3]),
                    v[4],
                    ec_op_alpha(),
                    felt_prime(),
                    scalar_height,
                ) {
                    Err((partial_sum, doubled_point)) => Deduction::SameX(
                        partial_sum,
                        v[4],
                        doubled_point,
                    ),
                    Ok(result) => Deduction::Value(
                        if index == 5 {
                            result.0
                        } else {
                            result.1
                        },
                    ),
                }
            },
        }
    }
}

/// Where the deduction computes at all, every slope it takes exists.
pub open spec fn deduce_defined(address: Relocatable, m: MemoryView, scalar_height: nat) -> bool {
    let index = address.offset % (CELLS_PER_EC_OP as usize);
    (index == 5 || index == 6) ==> match gather_inputs(
        m,
        instance_of(address),
        INPUT_CELLS_PER_EC_OP as nat,
    ) {
        EcOpInputs::Ready(v) => on_curve_spec(v[0], v[1], ec_op_alpha(), ec_op_beta())
            ==> ec_op_defined(
            (v[0], v[1]),
            (v[2], v[3]),
            v[4],
            ec_op_alpha(),
            felt_prime(),
            scalar_height,
        ),
        _ => true,
    }
}

/// The result `r` says what the deduction `d` is.
pub open spec fn reports(r: Result<Option<MaybeRelocatable>, RunnerError>, d: Deduction) -> bool {
    match d {
        Deduction::Deferred => r matches Ok(None),
        Deduction::Value(v) => r matches Ok(Some(cell)) && cell@ == CellValue::Int(v),
        Deduction::NotInteger(at) => r matches Err(RunnerError::ExpectedInteger(cell)) && cell@
            == CellValue::Address(at),
        Deduction::NotOnCurve => r matches Err(RunnerError::PointNotOnCurve(pair)) && pair == (
            0usize,
            1usize,
        ),
        Deduction::SameX(partial_sum, scalar, doubled_point) => r matches Err(
            RunnerError::EcOpSameXCoordinate(s, m, d),
        ) && point_view(s) == partial_sum && m@ == scalar && point_view(d) == doubled_point,
    }
}

/// The values of a list of field elements.
pub open spec fn felt_values(cells: Seq<Felt>) -> Seq<int> {
    cells.map_values(|f: Felt| f@)
}

/// Ceiling division, by `num_integer::div_ceil`, which panics on a zero
/// divisor.
/// Trusted: the result is the quotient, one more where something is left
/// over.
#[verifier::external_body]
fn div_ceil(x: usize, y: usize) -> (r: usize)
    requires
        y != 0,
    ensures
        r == x / y + if x % y == 0 {
            0int
        } else {
            1int
        },
{
    num_integer::div_ceil(x, y)
}

#[derive(Debug, Clone)]
pub struct EcOpBuiltinRunner {
    ratio: u32,
    pub base: isize,
    pub(crate) cells_per_instance: u32,
    pub(crate) n_input_cells: u32,
    ec_op_builtin: EcOpInstanceDef,
    pub(crate) stop_ptr: Option<usize>,
    included: bool,
    instances_per_component: u32,
}

impl EcOpBuiltinRunner {
    /// The runner has the builtin's fixed layout.
    pub closed spec fn wf(&self) -> bool {
        &&& self.cells_per_instance == CELLS_PER_EC_OP
        &&& self.n_input_cells == INPUT_CELLS_PER_EC_OP
        &&& self.instances_per_component == 1
        &&& self.ratio == self.ec_op_builtin.ratio
    }

    /// The index of the builtin's segment.
    pub closed spec fn base_spec(&self) -> isize {
        self.base
    }

    /// Machine steps per instance.
    pub closed spec fn ratio_spec(&self) -> u32 {
        self.ratio
    }

    /// The number of doubling rounds of a deduction.
    pub closed spec fn scalar_height(&self) -> u32 {
        self.ec_op_builtin.scalar_height
    }

    /// Whether the program uses this builtin.
    pub closed spec fn included(&self) -> bool {
        self.included
    }

    /// Where the used part of the segment was found to end.
    pub closed spec fn stop_ptr_spec(&self) -> Option<usize> {
        self.stop_ptr
    }

    pub fn new(instance_def: &EcOpInstanceDef, included: bool) -> (r: EcOpBuiltinRunner)
        ensures
            r.wf(),
            r.base_spec() == 0,
            r.ratio_spec() == instance_def.ratio,
            r.scalar_height() == instance_def.scalar_height,
            r.included() == included,
            r.stop_ptr_spec() is None,
    {
        EcOpBuiltinRunner {
            base: 0,
            ratio: instance_def.ratio,
            n_input_cells: INPUT_CELLS_PER_EC_OP,
            cells_per_instance: CELLS_PER_EC_OP,
            ec_op_builtin: *instance_def,
            stop_ptr: None,
            included,
            instances_per_component: 1,
        }
    }

    /// Whether `(x, y)` is on the curve `y^2 = x^3 + alpha * x + beta` over
    /// the field.
    pub fn point_on_curve(x: &Felt, y: &Felt, alpha: &Felt, beta: &Felt) -> (r: bool)
        ensures
            r == on_curve_spec(x@, y@, alpha@, beta@),
    {
        let lhs = y.times(y);
        let cube = x.times(x).times(x);
        let linear = alpha.times(x);
        let rhs = cube.plus(&linear).plus(beta);
        beta.reduced();
        proof {
            let p = felt_prime();
            lemma_felt_prime_positive();
            lemma_mul_mod_noop_left(x@ * x@, x@, p);
            lemma_add_mod_noop(x@ * x@ * x@, alpha@ * x@, p);
            lemma_add_mod_noop(x@ * x@ * x@ + alpha@ * x@, beta@, p);
            lemma_small_mod(beta@ as nat, p as nat);
            lemma_add_mod_noop(cube@ + linear@, beta@, p);
            vstd::arithmetic::div_mod::lemma_mod_twice(cube@ + linear@, p);
        }
        lhs == rhs
    }

    /// `partial_sum + m * doubled_point` on the curve
    /// `y^2 = x^3 + alpha * x + beta` over GF(prime), computed as the
    /// constraint system computes it; it fails exactly where that system has
    /// no solution, which is where a round meets two points with one x
    /// coordinate.
    pub fn ec_op_impl(
        partial_sum: (Felt, Felt),
        doubled_point: (Felt, Felt),
        m: &Felt,
        alpha: &BigInt,
        prime: &BigInt,
        height: u32,
    ) -> (r: Result<Point, RunnerError>)
        requires
            ec_op_defined(
                (partial_sum.0@, partial_sum.1@),
                (doubled_point.0@, doubled_point.1@),
                m@,
                alpha@,
                prime@,
                height as nat,
            ),
        ensures
            match ec_op_spec(
                (partial_sum.0@, partial_sum.1@),
                (doubled_point.0@, doubled_point.1@),
                m@,
                alpha@,
                prime@,
                height as nat,
            ) {
                Ok(result) => r matches Ok(point) && point_view(point) == result,
                Err((s, d)) => r matches Err(RunnerError::EcOpSameXCoordinate(a, scalar, b))
                    && point_view(a) == s && point_view(b) == d && scalar@ == m@,
            },
    {
        let mut slope = m.to_bigint();
        let mut partial_sum_b: Point = (partial_sum.0.to_bigint(), partial_sum.1.to_bigint());
        let mut doubled_point_b: Point = (doubled_point.0.to_bigint(), doubled_point.1.to_bigint());
        let ghost goal = ec_op_spec(
            (partial_sum.0@, partial_sum.1@),
            (doubled_point.0@, doubled_point.1@),
            m@,
            alpha@,
            prime@,
            height as nat,
        );
        let mut i: u32 = 0;
        while i < height
            invariant
                i <= height,
                goal == ec_op_spec(
                    (partial_sum.0@, partial_sum.1@),
                    (doubled_point.0@, doubled_point.1@),
                    m@,
                    alpha@,
                    prime@,
                    height as nat,
                ),
                ec_op_defined(
                    point_view(partial_sum_b),
                    point_view(doubled_point_b),
                    slope@,
                    alpha@,
                    prime@,
                    (height - i) as nat,
                ),
                ec_op_spec(
                    point_view(partial_sum_b),
                    point_view(doubled_point_b),
                    slope@,
                    alpha@,
                    prime@,
                    (height - i) as nat,
                ) == goal,
            decreases height - i,
        {
            if doubled_point_b.0.minus(&partial_sum_b.0).is_zero() {
                assert(goal == Err::<(int, int), ((int, int), (int, int))>(
                    (point_view(partial_sum_b), point_view(doubled_point_b)),
                ));
                return Err(
                    RunnerError::EcOpSameXCoordinate(partial_sum_b, m.to_bigint(), doubled_point_b),
                );
            }
            if slope.is_odd() {
                let addend: Point = (doubled_point_b.0.clone(), doubled_point_b.1.clone());
                partial_sum_b = ec_add(partial_sum_b, addend, prime);
            }
            doubled_point_b = ec_double(doubled_point_b, alpha, prime);
            proof {
                lemma2_to64();
            }
            slope = slope.shr(1);
            i = i + 1;
        }
        Ok(partial_sum_b)
    }

    /// Gives the runner a fresh segment of `memory`.
    pub fn initialize_segments(&mut self, segments: &mut MemorySegmentManager, memory: &mut Memory)
        requires
            old(memory)@.segments < isize::MAX,
        ensures
            final(self).base_spec() == old(memory)@.segments,
            final(self).wf() == old(self).wf(),
            final(self).ratio_spec() == old(self).ratio_spec(),
            final(self).scalar_height() == old(self).scalar_height(),
            final(self).included() == old(self).included(),
            final(self).stop_ptr_spec() == old(self).stop_ptr_spec(),
            final(memory)@.segments == old(memory)@.segments + 1,
            final(memory)@.temp_segments == old(memory)@.temp_segments,
            final(memory)@.cells == old(memory)@.cells,
            final(segments).segment_used_sizes == old(segments).segment_used_sizes,
    {
        self.base = segments.add(memory).segment_index
    }

    /// What the runner puts on the initial stack: the start of its segment
    /// where the program uses the builtin, nothing otherwise.
    pub fn initial_stack(&self) -> (r: Vec<MaybeRelocatable>)
        ensures
            self.included() ==> r@.len() == 1 && r@[0]@ == CellValue::Address(
                Relocatable { segment_index: self.base_spec(), offset: 0 },
            ),
            !self.included() ==> r@.len() == 0,
    {
        if self.included {
            vec![MaybeRelocatable::RelocatableValue(Relocatable { segment_index: self.base, offset: 0 })]
        } else {
            Vec::new()
        }
    }

    pub fn base(&self) -> (r: isize)
        ensures
            r == self.base_spec(),
    {
        self.base
    }

    pub fn ratio(&self) -> (r: u32)
        ensures
            r == self.ratio_spec(),
    {
        self.ratio
    }

    /// This builtin puts no rule on what may be written to its segment.
    pub fn add_validation_rule(&self, memory: &mut Memory) -> (r: Result<(), RunnerError>)
        ensures
            r is Ok,
            *final(memory) == *old(memory),
    {
        Ok(())
    }

    /// The content of an output cell, deduced from the instance's input
    /// cells once they are all written. The outcome is a function of the
    /// address and of the memory alone.
    pub fn deduce_memory_cell(&self, address: &Relocatable, memory: &Memory) -> (r: Result<
        Option<MaybeRelocatable>,
        RunnerError,
    >)
        requires
            self.wf(),
            deduce_defined(*address, memory@, self.scalar_height() as nat),
        ensures
            reports(r, deduce_spec(*address, memory@, self.scalar_height() as nat)),
    {
        let index = address.offset % (self.cells_per_instance as usize);
        assert(index == address.offset % 7 && index <= address.offset);
        if index != 5 && index != 6 {
            return Ok(None);
        }
        let instance = Relocatable {
            segment_index: address.segment_index,
            offset: address.offset - index,
        };
        let mut input_cells: Vec<Felt> = Vec::new();
        let mut i: usize = 0;
        assert(felt_values(input_cells@) =~= Seq::<int>::empty());
        while i < self.n_input_cells as usize
            invariant
                self.wf(),
                i <= INPUT_CELLS_PER_EC_OP,
                instance == instance_of(*address),
                instance.offset + 5 <= address.offset,
                input_cells@.len() == i,
                gather_inputs(memory@, instance, i as nat) == EcOpInputs::Ready(
                    felt_values(input_cells@),
                ),
            decreases INPUT_CELLS_PER_EC_OP - i,
        {
            let cell = Relocatable {
                segment_index: instance.segment_index,
                offset: instance.offset + i,
            };
            assert(cell == cell_after(instance, i as int));
            match memory.get(&cell) {
                None => {
                    proof {
                        lemma_gather_stops(memory@, instance, (i + 1) as nat, 5);
                    }
                    return Ok(None);
                },
                Some(MaybeRelocatable::Int(num)) => {
                    let ghost before = input_cells@;
                    input_cells.push(num.clone());
                    assert(felt_values(input_cells@) =~= felt_values(before).push(num@));
                },
                Some(MaybeRelocatable::RelocatableValue(_)) => {
                    proof {
                        lemma_gather_stops(memory@, instance, (i + 1) as nat, 5);
                    }
                    return Err(
                        RunnerError::ExpectedInteger(MaybeRelocatable::RelocatableValue(cell)),
                    );
                },
            }
            i = i + 1;
        }
        let alpha = Felt::one();
        let beta = Felt::new(&beta_number());
        proof {
            lemma_felt_prime_positive();
            lemma_add_mod_noop(
                input_cells@[0]@ * input_cells@[0]@ * input_cells@[0]@ + alpha@
                    * input_cells@[0]@,
                ec_op_beta(),
                felt_prime(),
            );
            lemma_add_mod_noop(
                input_cells@[0]@ * input_cells@[0]@ * input_cells@[0]@ + alpha@
                    * input_cells@[0]@,
                beta@,
                felt_prime(),
            );
            vstd::arithmetic::div_mod::lemma_mod_twice(ec_op_beta(), felt_prime());
        }
        if !Self::point_on_curve(&input_cells[0], &input_cells[1], &alpha, &beta) {
            return Err(RunnerError::PointNotOnCurve((0, 1)));
        }
        let p = prime();
        let result = Self::ec_op_impl(
            (input_cells[0].clone(), input_cells[1].clone()),
            (input_cells[2].clone(), input_cells[3].clone()),
            &input_cells[4],
            &alpha.to_bigint(),
            &p,
            self.ec_op_builtin.scalar_height,
        );
        let ghost v = felt_values(input_cells@);
        input_cells[0].reduced();
        input_cells[1].reduced();
        proof {
            lemma_result_reduced(
                (v[0], v[1]),
                (v[2], v[3]),
                v[4],
                ec_op_alpha(),
                felt_prime(),
                self.ec_op_builtin.scalar_height as nat,
            );
        }
        match result {
            Err(e) => Err(e),
            Ok(point) => {
                proof {
                    lemma_small_mod(point.0@ as nat, felt_prime() as nat);
                    lemma_small_mod(point.1@ as nat, felt_prime() as nat);
                }
                if index == 5 {
                    Ok(Some(MaybeRelocatable::Int(Felt::new(&point.0))))
                } else {
                    Ok(Some(MaybeRelocatable::Int(Felt::new(&point.1))))
                }
            },
        }
    }

    /// The number of cells that the machine's steps allow the builtin.
    pub fn get_allocated_memory_units(&self, vm: &VirtualMachine) -> (r: Result<usize, MemoryError>)
        requires
            self.wf(),
        ensures
            r == allocated_units_spec(
                vm.current_step,
                self.ratio_spec(),
                MemoryError::ErrorCalculatingMemoryUnits,
            ),
    {
        match safe_div_usize(vm.current_step, self.ratio as usize) {
            Err(_) => Err(MemoryError::ErrorCalculatingMemoryUnits),
            Ok(value) => match (self.cells_per_instance as usize).checked_mul(value) {
                Some(units) => Ok(units),
                None => Err(MemoryError::ErrorCalculatingMemoryUnits),
            },
        }
    }

    /// The name of the builtin with the bounds of its segment.
    pub fn get_memory_segment_addresses(&self) -> (r: (&'static str, (isize, Option<usize>)))
        ensures
            r.0@ == "ec_op"@,
            r.1 == (self.base_spec(), self.stop_ptr_spec()),
    {
        ("ec_op", (self.base, self.stop_ptr))
    }

    /// The number of cells used in the builtin's segment.
    pub fn get_used_cells(&self, vm: &VirtualMachine) -> (r: Result<usize, MemoryError>)
        ensures
            r == used_cells_spec(self.base_spec(), vm),
    {
        let base = self.base();
        if base < 0 {
            return Err(MemoryError::AddressInTemporarySegment(base));
        }
        match vm.segments.get_segment_used_size(base as usize) {
            Some(size) => Ok(size),
            None => Err(MemoryError::MissingSegmentUsedSizes),
        }
    }

    /// The number of cells used in the builtin's segment with the number the
    /// machine's steps allow it; an error where they allow fewer than are
    /// used.
    pub fn get_used_cells_and_allocated_size(&self, vm: &VirtualMachine) -> (r: Result<
        (usize, usize),
        MemoryError,
    >)
        requires
            self.wf(),
        ensures
            r == if vm.current_step < self.ratio_spec() {
                Err(MemoryError::InsufficientAllocatedCells)
            } else {
                match used_cells_spec(self.base_spec(), vm) {
                    Err(e) => Err(e),
                    Ok(used) => match allocated_units_spec(
                        vm.current_step,
                        self.ratio_spec(),
                        MemoryError::InsufficientAllocatedCells,
                    ) {
                        Err(e) => Err(e),
                        Ok(size) => if used > size {
                            Err(MemoryError::InsufficientAllocatedCells)
                        } else {
                            Ok((used, size))
                        },
                    },
                }
            },
    {
        let ratio = self.ratio as usize;
        let instances_per_component = self.instances_per_component as usize;
        assert(ratio * instances_per_component == ratio) by (nonlinear_arith)
            requires
                instances_per_component == 1,
        ;
        let min_step = ratio * instances_per_component;
        if vm.current_step < min_step {
            return Err(MemoryError::InsufficientAllocatedCells);
        }
        let used = match self.get_used_cells(vm) {
            Ok(used) => used,
            Err(e) => { return Err(e) },
        };
        let instances = match safe_div_usize(vm.current_step, ratio) {
            Ok(instances) => instances,
            Err(_) => { return Err(MemoryError::InsufficientAllocatedCells) },
        };
        let size = match (self.cells_per_instance as usize).checked_mul(instances) {
            Some(size) => size,
            None => { return Err(MemoryError::InsufficientAllocatedCells) },
        };
        if used > size {
            return Err(MemoryError::InsufficientAllocatedCells);
        }
        Ok((used, size))
    }

    /// The number of instances that the used cells begin.
    pub fn get_used_instances(&self, vm: &VirtualMachine) -> (r: Result<usize, MemoryError>)
        requires
            self.wf(),
        ensures
            r == match used_cells_spec(self.base_spec(), vm) {
                Err(e) => Err(e),
                Ok(used) => Ok(instances_spec(used)),
            },
    {
        let used_cells = match self.get_used_cells(vm) {
            Ok(used) => used,
            Err(e) => { return Err(e) },
        };
        Ok(div_ceil(used_cells, self.cells_per_instance as usize))
    }

    /// Reads the builtin's stop pointer from below `pointer` at the end of a
    /// run, checks that it ends the used instances, and returns the stack
    /// pointer below it with the stop offset. A builtin that the program
    /// does not use leaves the stack as it is.
    pub fn final_stack(&self, vm: &VirtualMachine, pointer: Relocatable) -> (r: Result<
        (Relocatable, usize),
        RunnerError,
    >)
        requires
            self.wf(),
        ensures
            final_stack_reports(r, final_stack_spec(self.included(), self.base_spec(), vm, pointer)),
    {
        if self.included {
            let below = match pointer.sub_usize(1) {
                Some(below) => below,
                None => { return Err(RunnerError::FinalStack) },
            };
            let stop_pointer = match vm.get_relocatable(&below) {
                Ok(stop_pointer) => stop_pointer,
                Err(_) => { return Err(RunnerError::FinalStack) },
            };
            if self.base() != stop_pointer.segment_index {
                return Err(RunnerError::InvalidStopPointer("ec_op".to_owned()));
            }
            let stop_ptr = stop_pointer.offset;
            let num_instances = match self.get_used_instances(vm) {
                Ok(n) => n,
                Err(_) => { return Err(RunnerError::FinalStack) },
            };
            let used_cells = match num_instances.checked_mul(self.cells_per_instance as usize) {
                Some(used_cells) => used_cells,
                None => { return Err(RunnerError::FinalStack) },
            };
            if stop_ptr != used_cells {
                return Err(RunnerError::InvalidStopPointer("ec_op".to_owned()));
            }
            Ok((below, stop_ptr))
        } else {
            let stop_ptr = self.base() as usize;
            Ok((pointer, stop_ptr))
        }
    }
}

/// The cells that `step` machine steps allow at one instance per `ratio`
/// steps; `failure` where `ratio` does not divide `step` or the number does
/// not fit.
pub open spec fn allocated_units_spec(step: usize, ratio: u32, failure: MemoryError) -> Result<
    usize,
    MemoryError,
> {
    if ratio == 0 || step % (ratio as usize) != 0 || CELLS_PER_EC_OP * (step / (ratio as usize))
        > usize::MAX {
        Err(failure)
    } else {
        Ok((CELLS_PER_EC_OP * (step / (ratio as usize))) as usize)
    }
}

/// The number of cells used in the segment `base` of the machine.
pub open spec fn used_cells_spec(base: isize, vm: &VirtualMachine) -> Result<usize, MemoryError> {
    if base < 0 {
        Err(MemoryError::AddressInTemporarySegment(base))
    } else {
        match vm.segments.segment_used_sizes {
            Some(sizes) => if base < sizes@.len() {
                Ok(sizes@[base as int])
            } else {
                Err(MemoryError::MissingSegmentUsedSizes)
            },
            None => Err(MemoryError::MissingSegmentUsedSizes),
        }
    }
}

/// The number of instances that `used` cells begin.
pub open spec fn instances_spec(used: usize) -> usize {
    (used / (CELLS_PER_EC_OP as usize) + if used % (CELLS_PER_EC_OP as usize) == 0 {
        0int
    } else {
        1int
    }) as usize
}

/// How reading the final stack ends.
pub ghost enum FinalStack {
    /// The stack pointer to go on with, and the stop offset.
    Done(Relocatable, usize),
    /// The stack does not hold a stop pointer, or the sizes are not known.
    Unreadable,
    /// The stop pointer is not the end of the used instances.
    InvalidStopPointer,
}

/// What the final stack at `pointer` says of a builtin with segment `base`.
pub open spec fn final_stack_spec(
    included: bool,
    base: isize,
    vm: &VirtualMachine,
    pointer: Relocatable,
) -> FinalStack {
    if !included {
        FinalStack::Done(pointer, base as usize)
    } else if pointer.offset == 0 {
        FinalStack::Unreadable
    } else {
        let below = Relocatable {
            segment_index: pointer.segment_index,
            offset: (pointer.offset - 1) as usize,
        };
        match vm.memory@.get(below) {
            Some(CellValue::Address(stop)) => if stop.segment_index != base {
                FinalStack::InvalidStopPointer
            } else {
                match used_cells_spec(base, vm) {
                    Err(_) => FinalStack::Unreadable,
                    Ok(used) => if instances_spec(used) * CELLS_PER_EC_OP > usize::MAX {
                        FinalStack::Unreadable
                    } else if stop.offset != instances_spec(used) * CELLS_PER_EC_OP {
                        FinalStack::InvalidStopPointer
                    } else {
                        FinalStack::Done(below, stop.offset)
                    },
                }
            },
            _ => FinalStack::Unreadable,
        }
    }
}

/// The result `r` says what `f` is.
pub open spec fn final_stack_reports(r: Result<(Relocatable, usize), RunnerError>, f: FinalStack) -> bool {
    match f {
        FinalStack::Done(pointer, stop) => r == Ok::<(Relocatable, usize), RunnerError>(
            (pointer, stop),
        ),
        FinalStack::Unreadable => r == Err::<(Relocatable, usize), RunnerError>(
            RunnerError::FinalStack,
        ),
        FinalStack::InvalidStopPointer => r matches Err(RunnerError::InvalidStopPointer(name))
            && name@ == "ec_op"@,
    }
}

/// A cell that is not one of the two output cells of an instance is never
/// deduced, whatever the memory holds.
pub proof fn lemma_non_output_defers(address: Relocatable, m: MemoryView, scalar_height: nat)
    requires
        address.offset % 7 != 5,
        address.offset % 7 != 6,
    ensures
        deduce_spec(address, m, scalar_height) == Deduction::Deferred,
{
}

/// While an input cell is missing and the input cells before it hold field
/// elements, the deduction is deferred: it is no error.
pub proof fn lemma_missing_input_defers(
    address: Relocatable,
    m: MemoryView,
    scalar_height: nat,
    missing: nat,
)
    requires
        missing < INPUT_CELLS_PER_EC_OP,
        m.get(cell_after(instance_of(address), missing as int)) is None,
        forall|j: int|
            0 <= j < missing ==> (#[trigger] m.get(cell_after(instance_of(address), j)) matches Some(
                CellValue::Int(_),
            )),
    ensures
        deduce_spec(address, m, scalar_height) == Deduction::Deferred,
{
    let instance = instance_of(address);
    lemma_gather_ready(m, instance, missing);
    assert(gather_inputs(m, instance, missing + 1) == EcOpInputs::Missing);
    lemma_gather_stops(m, instance, missing + 1, 5);
}

/// Deduction is stable under writes: once it has an outcome other than
/// deferral, that outcome stays in every memory that keeps what was written.
pub proof fn lemma_deduction_stable(
    address: Relocatable,
    m: MemoryView,
    later: MemoryView,
    scalar_height: nat,
)
    requires
        forall|a: Relocatable| m.get(a) is Some ==> later.get(a) == m.get(a),
    ensures
        deduce_spec(address, m, scalar_height) == Deduction::Deferred || deduce_spec(
            address,
            later,
            scalar_height,
        ) == deduce_spec(address, m, scalar_height),
{
    lemma_gather_stable(m, later, instance_of(address), 5);
}

/// Reading the inputs gives the same in every memory that keeps what was
/// written, unless a cell was missing.
proof fn lemma_gather_stable(m: MemoryView, later: MemoryView, instance: Relocatable, count: nat)
    requires
        forall|a: Relocatable| m.get(a) is Some ==> later.get(a) == m.get(a),
    ensures
        gather_inputs(m, instance, count) == EcOpInputs::Missing || gather_inputs(
            later,
            instance,
            count,
        ) == gather_inputs(m, instance, count),
    decreases count,
{
    if count > 0 {
        lemma_gather_stable(m, later, instance, (count - 1) as nat);
    }
}

/// Cells that all hold field elements are read in full.
proof fn lemma_gather_ready(m: MemoryView, instance: Relocatable, count: nat)
    requires
        forall|j: int|
            0 <= j < count ==> (#[trigger] m.get(cell_after(instance, j)) matches Some(
                CellValue::Int(_),
            )),
    ensures
        gather_inputs(m, instance, count) is Ready,
    decreases count,
{
    if count > 0 {
        lemma_gather_ready(m, instance, (count - 1) as nat);
        assert(m.get(cell_after(instance, count - 1)) matches Some(CellValue::Int(_)));
    }
}

/// Once reading the inputs has stopped, reading further changes nothing.
proof fn lemma_gather_stops(m: MemoryView, instance: Relocatable, from: nat, to: nat)
    requires
        from <= to,
        !(gather_inputs(m, instance, from) is Ready),
    ensures
        gather_inputs(m, instance, to) == gather_inputs(m, instance, from),
    decreases to - from,
{
    if from < to {
        lemma_gather_stops(m, instance, from, (to - 1) as nat);
    }
}

/// A computation from reduced points modulo a positive prime ends in a
/// reduced point.
proof fn lemma_result_reduced(
    partial_sum: (int, int),
    doubled_point: (int, int),
    m: int,
    alpha: int,
    prime: int,
    height: nat,
)
    requires
        prime > 0,
        0 <= partial_sum.0 < prime,
        0 <= partial_sum.1 < prime,
    ensures
        ec_op_spec(partial_sum, doubled_point, m, alpha, prime, height) matches Ok(result) ==> 0
            <= result.0 < prime && 0 <= result.1 < prime,
    decreases height,
{
    if height > 0 && doubled_point.0 != partial_sum.0 {
        let next = if m % 2 == 1 {
            ec_add_spec(partial_sum, doubled_point, prime)
        } else {
            partial_sum
        };
        if m % 2 == 1 {
            let s = crate::math_utils::line_slope_spec(partial_sum, doubled_point, prime);
            lemma_mod_floor_range(s * s - partial_sum.0 - doubled_point.0, prime);
            lemma_mod_floor_range(s * (partial_sum.0 - next.0) - partial_sum.1, prime);
        }
        lemma_result_reduced(
            next,
            ec_double_spec(doubled_point, alpha, prime),
            m / 2,
            alpha,
            prime,
            (height - 1) as nat,
        );
    }
}

/// The curve's constant term as a number.
fn beta_number() -> (r: BigInt)
    ensures
        r@ == ec_op_beta(),
{
    let b0 = BigInt::from_u64(0xf4cdfcb99cee9e89);
    let b1 = BigInt::from_u64(0x609ad26c15c915c1);
    let b2 = BigInt::from_u64(0x150e596d72f7a8c5);
    let b3 = BigInt::from_u64(0x06f21413efbe40de);
    proof {
        lemma2_to64();
        lemma_pow2_adds(64, 64);
        lemma_pow2_adds(64, 128);
        assert(pow2(64) == 0x1_0000_0000_0000_0000int);
        assert(pow2(128) == 0x1_0000_0000_0000_0000_0000_0000_0000_0000int) by (nonlinear_arith)
            requires
                pow2(128) == pow2(64) * pow2(64),
                pow2(64) == 0x1_0000_0000_0000_0000int,
        ;
        assert(pow2(192) == 0x1_0000_0000_0000_0000_0000_0000_0000_0000_0000_0000_0000_0000int)
            by (nonlinear_arith)
            requires
                pow2(192) == pow2(64) * pow2(128),
                pow2(64) == 0x1_0000_0000_0000_0000int,
                pow2(128) == 0x1_0000_0000_0000_0000_0000_0000_0000_0000int,
        ;
    }
    b3.shl(192).plus(&b2.shl(128)).plus(&b1.shl(64)).plus(&b0)
}

} // verus!
