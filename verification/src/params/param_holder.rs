//! The per-call binding context and the output-size derivation.
//!
//! A [`ParamHolder`] is allocated for exactly one function definition. The
//! caller binds optional parameters, inputs and outputs into numbered slots;
//! the context derives the exact number of output elements an invocation
//! will produce from its lookback and the requested index range; `call` runs
//! the computation and fills the bound output buffers.

use vstd::prelude::*;

use crate::fixed::{Fixed, SCALE};
use crate::func_handle::FuncHandle;
use crate::params::input::InputType;
use crate::params::opt_input::{OptInput, OptInputType};
use crate::params::output::OutputType;
use crate::kernels::{kernel_add, kernel_bbands, kernel_div, kernel_medprice, kernel_sma, kernel_typprice};
use crate::registry::{FuncDef, FuncKind};
use crate::types::{TaError, TaResult};

verus! {

/// A caller-supplied price bundle: one optional series per component. A
/// component the function does not read is bound as absent — never as a
/// stray series.
#[derive(Debug)]
pub struct Ohlc {
    pub open: Option<Vec<Fixed>>,
    pub low: Option<Vec<Fixed>>,
    pub high: Option<Vec<Fixed>>,
    pub close: Option<Vec<Fixed>>,
    pub volume: Option<Vec<Fixed>>,
    pub openinterest: Option<Vec<Fixed>>,
}

/// A value bound into an input slot.
#[derive(Debug)]
pub enum InputParam {
    Real(Vec<Fixed>),
    Integer(Vec<i32>),
    Ohlc(Ohlc),
}

/// A scalar bound into an optional-parameter slot.
#[derive(Debug, Clone, Copy, PartialEq, Eq, Structural)]
pub enum OptInputParam {
    Real(Fixed),
    Integer(i32),
}

/// A buffer bound into an output slot.
#[derive(Debug)]
pub enum OutputParam {
    Real(Vec<Fixed>),
    Integer(Vec<i32>),
}

/// The per-call context: the function definition it was allocated for, the
/// optional parameters (defaults prefilled, rebinding a slot is
/// last-write-wins), and the input and output slots, all unbound at first.
#[derive(Debug)]
pub struct ParamHolder {
    pub def: FuncDef,
    pub params: Vec<OptInputParam>,
    pub inputs: Vec<Option<InputParam>>,
    pub outputs: Vec<Option<OutputParam>>,
}

/// Whether an optional-parameter default is representable in its declared
/// kind: an integer-kind default must be a whole value within `i32`.
pub open spec fn default_representable(row: OptInput) -> bool {
    match row.param_type {
        OptInputType::Real => true,
        OptInputType::Integer => (row.default.units as int) % (SCALE as int) == 0 && i32::MIN
            <= (row.default.units as int) / (SCALE as int) <= i32::MAX,
    }
}

/// The prefilled value of an optional-parameter slot.
pub open spec fn default_param(row: OptInput) -> OptInputParam {
    match row.param_type {
        OptInputType::Real => OptInputParam::Real(row.default),
        OptInputType::Integer => OptInputParam::Integer(
            ((row.default.units as int) / (SCALE as int)) as i32,
        ),
    }
}

/// Whether a context can be allocated for `def`: every declared optional
/// parameter has a row with a representable default.
pub open spec fn alloc_ok(def: FuncDef) -> bool {
    def.nb_opt_input <= def.opt_input_rows@.len() && forall|j: int|
        0 <= j < def.nb_opt_input ==> default_representable(#[trigger] def.opt_input_rows@[j])
}

/// The function's lookback: how many leading input elements it consumes
/// before its first output. Derived from the bound optional parameters; a
/// period below the function's minimum has no lookback and fails later
/// stages.
pub open spec fn lookback_spec(ph: ParamHolder) -> Option<int> {
    match ph.def.kind {
        FuncKind::Sma | FuncKind::Bbands => {
            if ph.params@.len() >= 1 {
                match ph.params@[0] {
                    OptInputParam::Integer(p) => if p >= 2 {
                        Some((p - 1) as int)
                    } else {
                        None
                    },
                    OptInputParam::Real(_) => None,
                }
            } else {
                None
            }
        },
        _ => Some(0int),
    }
}

/// The exact number of output elements an invocation over `[start, end]`
/// produces: zero when the effective start `max(lookback, start)` lies past
/// `end`, else the length of `[max(lookback, start), end]`.
pub open spec fn required_size_spec(lookback: int, start: int, end: int) -> int {
    let eff = if lookback > start {
        lookback
    } else {
        start
    };
    if eff > end {
        0
    } else {
        end - eff + 1
    }
}

/// The required output size never shrinks as the end of the range grows,
/// and it is exactly zero whenever the range ends before the effective
/// start `max(lookback, start)`.
pub proof fn lemma_required_size_monotone(lookback: int, start: int, end1: int, end2: int)
    requires
        end1 <= end2,
    ensures
        required_size_spec(lookback, start, end1) <= required_size_spec(lookback, start, end2),
        end1 < lookback || end1 < start ==> required_size_spec(lookback, start, end1) == 0,
{
}

/// Binding an already-bound optional-parameter slot is last-write-wins:
/// binding `first` and then `second` leaves the parameter state that a
/// single bind of `second` on a fresh context would.
pub proof fn lemma_bind_last_wins(
    params: Seq<OptInputParam>,
    position: int,
    first: OptInputParam,
    second: OptInputParam,
)
    requires
        0 <= position < params.len(),
    ensures
        params.update(position, first).update(position, second) == params.update(
            position,
            second,
        ),
{
    assert(params.update(position, first).update(position, second) =~= params.update(
        position,
        second,
    ));
}

/// Whether `param` may be bound at `position`: the slot exists and its
/// declared kind matches the value's shape.
pub open spec fn param_bind_ok(ph: ParamHolder, position: int, param: OptInputParam) -> bool {
    &&& 0 <= position < ph.def.nb_opt_input
    &&& position < ph.def.opt_input_rows@.len()
    &&& position < ph.params@.len()
    &&& match ph.def.opt_input_rows@[position].param_type {
        OptInputType::Real => param is Real,
        OptInputType::Integer => param is Integer,
    }
}

/// Whether `param` may be bound at input slot `position`.
pub open spec fn input_bind_ok(ph: ParamHolder, position: int, param: InputParam) -> bool {
    &&& 0 <= position < ph.def.nb_input
    &&& position < ph.def.input_rows@.len()
    &&& position < ph.inputs@.len()
    &&& match ph.def.input_rows@[position].param_type {
        InputType::Real => param is Real,
        InputType::Integer => param is Integer,
        InputType::Price => param is Ohlc,
    }
}

/// Whether `param` may be bound at output slot `position`.
pub open spec fn output_bind_ok(ph: ParamHolder, position: int, param: OutputParam) -> bool {
    &&& 0 <= position < ph.def.nb_output
    &&& position < ph.def.output_rows@.len()
    &&& position < ph.outputs@.len()
    &&& match ph.def.output_rows@[position].param_type {
        OutputType::Real => param is Real,
        OutputType::Integer => param is Integer,
    }
}


/// The real series bound at input slot `slot`, or the empty series.
pub open spec fn in_real(ph: ParamHolder, slot: int) -> Seq<Fixed> {
    match ph.inputs@[slot] {
        Some(InputParam::Real(v)) => v@,
        _ => Seq::empty(),
    }
}

/// Whether input slot `slot` holds a real series.
pub open spec fn in_real_bound(ph: ParamHolder, slot: int) -> bool {
    0 <= slot < ph.inputs@.len() && (ph.inputs@[slot] matches Some(InputParam::Real(_)))
}

/// The high component of the price bundle at input slot `slot`.
pub open spec fn in_high(ph: ParamHolder, slot: int) -> Seq<Fixed> {
    match ph.inputs@[slot] {
        Some(InputParam::Ohlc(o)) => match o.high {
            Some(v) => v@,
            None => Seq::empty(),
        },
        _ => Seq::empty(),
    }
}

/// The low component of the price bundle at input slot `slot`.
pub open spec fn in_low(ph: ParamHolder, slot: int) -> Seq<Fixed> {
    match ph.inputs@[slot] {
        Some(InputParam::Ohlc(o)) => match o.low {
            Some(v) => v@,
            None => Seq::empty(),
        },
        _ => Seq::empty(),
    }
}

/// The close component of the price bundle at input slot `slot`.
pub open spec fn in_close(ph: ParamHolder, slot: int) -> Seq<Fixed> {
    match ph.inputs@[slot] {
        Some(InputParam::Ohlc(o)) => match o.close {
            Some(v) => v@,
            None => Seq::empty(),
        },
        _ => Seq::empty(),
    }
}

/// Whether input slot `slot` holds a price bundle with high and low present.
pub open spec fn price_hl_bound(ph: ParamHolder, slot: int) -> bool {
    &&& 0 <= slot < ph.inputs@.len()
    &&& match ph.inputs@[slot] {
        Some(InputParam::Ohlc(o)) => o.high is Some && o.low is Some,
        _ => false,
    }
}

/// Whether input slot `slot` holds a price bundle with high, low and close
/// present.
pub open spec fn price_hlc_bound(ph: ParamHolder, slot: int) -> bool {
    &&& 0 <= slot < ph.inputs@.len()
    &&& match ph.inputs@[slot] {
        Some(InputParam::Ohlc(o)) => o.high is Some && o.low is Some && o.close is Some,
        _ => false,
    }
}

/// Whether output slot `slot` holds a real buffer of at least `count`
/// elements — the room the invocation will fill.
pub open spec fn out_real_room(ph: ParamHolder, slot: int, count: int) -> bool {
    &&& 0 <= slot < ph.outputs@.len()
    &&& match ph.outputs@[slot] {
        Some(OutputParam::Real(b)) => b@.len() >= count,
        _ => false,
    }
}

/// The contents of the real buffer at output slot `slot`.
pub open spec fn out_buf(ph: ParamHolder, slot: int) -> Seq<Fixed> {
    match ph.outputs@[slot] {
        Some(OutputParam::Real(b)) => b@,
        _ => Seq::empty(),
    }
}

/// The absolute index of the first valid output element: the effective
/// start `max(lookback, start)`.
pub open spec fn begin_spec(lookback: int, start: int) -> int {
    if lookback > start {
        lookback
    } else {
        start
    }
}

/// The deviation multiplier bound at optional-parameter slot `slot`, in
/// units.
pub open spec fn real_param_units(ph: ParamHolder, slot: int) -> int {
    match ph.params@[slot] {
        OptInputParam::Real(f) => f.units as int,
        OptInputParam::Integer(_) => 0,
    }
}

/// Whether an invocation of `call(start, end)` succeeds: the range is
/// sensible, the lookback is available, every input the function reads is
/// bound and covers the range, every output it writes has room for the
/// required size, and the computation itself stays within machine range.
pub open spec fn call_ok(ph: ParamHolder, start: int, end: int) -> bool {
    &&& 0 <= start <= end
    &&& lookback_spec(ph) is Some
    &&& {
        let lb = lookback_spec(ph).unwrap();
        let begin = begin_spec(lb, start);
        let count = required_size_spec(lb, start, end);
        match ph.def.kind {
            FuncKind::Sma => in_real_bound(ph, 0) && in_real(ph, 0).len() > end && out_real_room(
                ph,
                0,
                count,
            ),
            FuncKind::Bbands => {
                &&& in_real_bound(ph, 0)
                &&& in_real(ph, 0).len() > end
                &&& ph.params@.len() >= 3
                &&& ph.params@[1] is Real
                &&& ph.params@[2] is Real
                &&& out_real_room(ph, 0, count)
                &&& out_real_room(ph, 1, count)
                &&& out_real_room(ph, 2, count)
                &&& crate::kernels::bbands_fits(
                    in_real(ph, 0),
                    lb + 1,
                    real_param_units(ph, 1),
                    real_param_units(ph, 2),
                    begin,
                    count,
                )
            },
            FuncKind::MedPrice => {
                &&& price_hl_bound(ph, 0)
                &&& in_high(ph, 0).len() > end
                &&& in_low(ph, 0).len() > end
                &&& out_real_room(ph, 0, count)
            },
            FuncKind::TypPrice => {
                &&& price_hlc_bound(ph, 0)
                &&& in_high(ph, 0).len() > end
                &&& in_low(ph, 0).len() > end
                &&& in_close(ph, 0).len() > end
                &&& out_real_room(ph, 0, count)
            },
            FuncKind::Add => {
                &&& in_real_bound(ph, 0)
                &&& in_real_bound(ph, 1)
                &&& in_real(ph, 0).len() > end
                &&& in_real(ph, 1).len() > end
                &&& out_real_room(ph, 0, count)
                &&& crate::kernels::add_fits(in_real(ph, 0), in_real(ph, 1), begin, count)
            },
            FuncKind::Div => {
                &&& in_real_bound(ph, 0)
                &&& in_real_bound(ph, 1)
                &&& in_real(ph, 0).len() > end
                &&& in_real(ph, 1).len() > end
                &&& out_real_room(ph, 0, count)
                &&& crate::kernels::div_fits(in_real(ph, 0), in_real(ph, 1), begin, count)
            },
        }
    }
}

/// What a successful invocation leaves behind: the definition, parameters
/// and inputs untouched; each output slot the function writes replaced by a
/// buffer of exactly the required size holding the function's values over
/// `[begin, begin + count)`; every other output slot untouched.
pub open spec fn call_post(o: ParamHolder, n: ParamHolder, start: int, end: int) -> bool {
    let lb = lookback_spec(o).unwrap();
    let begin = begin_spec(lb, start);
    let count = required_size_spec(lb, start, end);
    &&& n.def == o.def
    &&& n.params@ == o.params@
    &&& n.inputs@ == o.inputs@
    &&& n.outputs@.len() == o.outputs@.len()
    &&& match o.def.kind {
        FuncKind::Sma => {
            &&& (n.outputs@[0] matches Some(OutputParam::Real(_)))
            &&& out_buf(n, 0).len() == count
            &&& forall|j: int|
                0 <= j < count ==> (#[trigger] out_buf(n, 0)[j]).units == crate::kernels::sma_at(
                    in_real(o, 0),
                    lb + 1,
                    begin + j,
                )
            &&& forall|s: int| 1 <= s < o.outputs@.len() ==> n.outputs@[s] == o.outputs@[s]
        },
        FuncKind::Bbands => {
            &&& (n.outputs@[0] matches Some(OutputParam::Real(_)))
            &&& (n.outputs@[1] matches Some(OutputParam::Real(_)))
            &&& (n.outputs@[2] matches Some(OutputParam::Real(_)))
            &&& out_buf(n, 0).len() == count
            &&& out_buf(n, 1).len() == count
            &&& out_buf(n, 2).len() == count
            &&& forall|j: int|
                0 <= j < count ==> (#[trigger] out_buf(n, 0)[j]).units
                    == crate::kernels::bbands_upper_at(
                    in_real(o, 0),
                    lb + 1,
                    real_param_units(o, 1),
                    begin + j,
                )
            &&& forall|j: int|
                0 <= j < count ==> (#[trigger] out_buf(n, 1)[j]).units == crate::kernels::sma_at(
                    in_real(o, 0),
                    lb + 1,
                    begin + j,
                )
            &&& forall|j: int|
                0 <= j < count ==> (#[trigger] out_buf(n, 2)[j]).units
                    == crate::kernels::bbands_lower_at(
                    in_real(o, 0),
                    lb + 1,
                    real_param_units(o, 2),
                    begin + j,
                )
            &&& forall|s: int| 3 <= s < o.outputs@.len() ==> n.outputs@[s] == o.outputs@[s]
        },
        FuncKind::MedPrice => {
            &&& (n.outputs@[0] matches Some(OutputParam::Real(_)))
            &&& out_buf(n, 0).len() == count
            &&& forall|j: int|
                0 <= j < count ==> (#[trigger] out_buf(n, 0)[j]).units
                    == crate::kernels::medprice_at(in_high(o, 0), in_low(o, 0), begin + j)
            &&& forall|s: int| 1 <= s < o.outputs@.len() ==> n.outputs@[s] == o.outputs@[s]
        },
        FuncKind::TypPrice => {
            &&& (n.outputs@[0] matches Some(OutputParam::Real(_)))
            &&& out_buf(n, 0).len() == count
            &&& forall|j: int|
                0 <= j < count ==> (#[trigger] out_buf(n, 0)[j]).units
                    == crate::kernels::typprice_at(
                    in_high(o, 0),
                    in_low(o, 0),
                    in_close(o, 0),
                    begin + j,
                )
            &&& forall|s: int| 1 <= s < o.outputs@.len() ==> n.outputs@[s] == o.outputs@[s]
        },
        FuncKind::Add => {
            &&& (n.outputs@[0] matches Some(OutputParam::Real(_)))
            &&& out_buf(n, 0).len() == count
            &&& forall|j: int|
                0 <= j < count ==> (#[trigger] out_buf(n, 0)[j]).units == crate::kernels::add_at(
                    in_real(o, 0),
                    in_real(o, 1),
                    begin + j,
                )
            &&& forall|s: int| 1 <= s < o.outputs@.len() ==> n.outputs@[s] == o.outputs@[s]
        },
        FuncKind::Div => {
            &&& (n.outputs@[0] matches Some(OutputParam::Real(_)))
            &&& out_buf(n, 0).len() == count
            &&& forall|j: int|
                0 <= j < count ==> (#[trigger] out_buf(n, 0)[j]).units == crate::kernels::div_at(
                    in_real(o, 0),
                    in_real(o, 1),
                    begin + j,
                )
            &&& forall|s: int| 1 <= s < o.outputs@.len() ==> n.outputs@[s] == o.outputs@[s]
        },
    }
}

impl ParamHolder {
    /// Allocates a call context for the handle's function: every optional
    /// parameter prefilled with its documented default, every input and
    /// output slot unbound.
    pub fn try_from(handle: FuncHandle) -> (r: TaResult<ParamHolder>)
        ensures
            r.is_ok() == alloc_ok(handle.def),
            !alloc_ok(handle.def) ==> r == Err::<ParamHolder, TaError>(TaError::BadParam),
            r matches Ok(ph) ==> {
                &&& ph.def == handle.def
                &&& ph.params@.len() == handle.def.nb_opt_input
                &&& forall|j: int|
                    0 <= j < handle.def.nb_opt_input ==> #[trigger] ph.params@[j]
                        == default_param(handle.def.opt_input_rows@[j])
                &&& ph.inputs@.len() == handle.def.nb_input
                &&& forall|j: int|
                    0 <= j < handle.def.nb_input ==> #[trigger] ph.inputs@[j] is None
                &&& ph.outputs@.len() == handle.def.nb_output
                &&& forall|j: int|
                    0 <= j < handle.def.nb_output ==> #[trigger] ph.outputs@[j] is None
            },
    {
        let nb_params = handle.def.nb_opt_input;
        if nb_params > handle.def.opt_input_rows.len() {
            return Err(TaError::BadParam);
        }
        let mut params: Vec<OptInputParam> = Vec::new();
        for j in 0..nb_params
            invariant
                nb_params == handle.def.nb_opt_input,
                nb_params <= handle.def.opt_input_rows@.len(),
                params@.len() == j,
                forall|k: int|
                    0 <= k < j ==> default_representable(#[trigger] handle.def.opt_input_rows@[k]),
                forall|k: int|
                    0 <= k < j ==> #[trigger] params@[k] == default_param(
                        handle.def.opt_input_rows@[k],
                    ),
        {
            let row = &handle.def.opt_input_rows[j];
            match row.param_type {
                OptInputType::Real => params.push(OptInputParam::Real(row.default)),
                OptInputType::Integer => {
                    let units = row.default.units;
                    let q = crate::fixed::div_trunc_i128(units as i128, SCALE as i128);
                    if q * (SCALE as i128) == units as i128 && -0x8000_0000i128 <= q && q
                        <= 0x7fff_ffffi128 {
                        proof {
                            vstd::arithmetic::div_mod::lemma_fundamental_div_mod_converse(
                                units as int,
                                SCALE as int,
                                q as int,
                                0,
                            );
                        }
                        params.push(OptInputParam::Integer(q as i32));
                    } else {
                        proof {
                            if (units as int) % (SCALE as int) == 0 {
                                crate::fixed::lemma_div_trunc_exact(units as int, SCALE as int);
                                assert(q as int == (units as int) / (SCALE as int));
                                assert((SCALE as int) * (q as int) == units as int);
                                assert(q * (SCALE as i128) == units as i128);
                            }
                            assert(!default_representable(handle.def.opt_input_rows@[j as int]));
                        }
                        return Err(TaError::BadParam);
                    }
                },
            }
        }
        let nb_inputs = handle.def.nb_input;
        let mut inputs: Vec<Option<InputParam>> = Vec::new();
        for j in 0..nb_inputs
            invariant
                inputs@.len() == j,
                forall|k: int| 0 <= k < j ==> #[trigger] inputs@[k] is None,
        {
            inputs.push(None);
        }
        let nb_outputs = handle.def.nb_output;
        let mut outputs: Vec<Option<OutputParam>> = Vec::new();
        for j in 0..nb_outputs
            invariant
                outputs@.len() == j,
                forall|k: int| 0 <= k < j ==> #[trigger] outputs@[k] is None,
        {
            outputs.push(None);
        }
        Ok(ParamHolder { def: handle.def, params, inputs, outputs })
    }

    /// Binds an optional parameter. Rejected with `BadParam` when the slot
    /// does not exist or the value's kind does not match the descriptor;
    /// otherwise the slot takes the value, last bind winning.
    pub fn set_param(&mut self, position: usize, param: OptInputParam) -> (r: TaResult<()>)
        ensures
            r.is_ok() == param_bind_ok(*old(self), position as int, param),
            r.is_ok() ==> {
                &&& final(self).params@ == old(self).params@.update(position as int, param)
                &&& final(self).def == old(self).def
                &&& final(self).inputs@ == old(self).inputs@
                &&& final(self).outputs@ == old(self).outputs@
            },
            !r.is_ok() ==> *final(self) == *old(self) && r == Err::<(), TaError>(
                TaError::BadParam,
            ),
    {
        if position >= self.def.nb_opt_input || position >= self.def.opt_input_rows.len()
            || position >= self.params.len() {
            return Err(TaError::BadParam);
        }
        let matches_kind = match (self.def.opt_input_rows[position].param_type, &param) {
            (OptInputType::Real, OptInputParam::Real(_)) => true,
            (OptInputType::Integer, OptInputParam::Integer(_)) => true,
            _ => false,
        };
        if !matches_kind {
            return Err(TaError::BadParam);
        }
        self.params[position] = param;
        Ok(())
    }

    /// Binds an input series or price bundle. Rejected with `BadParam` when
    /// the slot does not exist or the value's shape does not match the
    /// descriptor.
    pub fn set_input(&mut self, position: usize, param: InputParam) -> (r: TaResult<()>)
        ensures
            r.is_ok() == input_bind_ok(*old(self), position as int, param),
            r.is_ok() ==> {
                &&& final(self).inputs@ == old(self).inputs@.update(
                    position as int,
                    Some(param),
                )
                &&& final(self).def == old(self).def
                &&& final(self).params@ == old(self).params@
                &&& final(self).outputs@ == old(self).outputs@
            },
            !r.is_ok() ==> *final(self) == *old(self) && r == Err::<(), TaError>(
                TaError::BadParam,
            ),
    {
        if position >= self.def.nb_input || position >= self.def.input_rows.len() || position
            >= self.inputs.len() {
            return Err(TaError::BadParam);
        }
        let matches_kind = match (self.def.input_rows[position].param_type, &param) {
            (InputType::Real, InputParam::Real(_)) => true,
            (InputType::Integer, InputParam::Integer(_)) => true,
            (InputType::Price, InputParam::Ohlc(_)) => true,
            _ => false,
        };
        if !matches_kind {
            return Err(TaError::BadParam);
        }
        self.inputs[position] = Some(param);
        Ok(())
    }

    /// Binds an output buffer. Rejected with `BadParam` when the slot does
    /// not exist or the buffer's element kind does not match the descriptor.
    pub fn set_output(&mut self, position: usize, param: OutputParam) -> (r: TaResult<()>)
        ensures
            r.is_ok() == output_bind_ok(*old(self), position as int, param),
            r.is_ok() ==> {
                &&& final(self).outputs@ == old(self).outputs@.update(
                    position as int,
                    Some(param),
                )
                &&& final(self).def == old(self).def
                &&& final(self).params@ == old(self).params@
                &&& final(self).inputs@ == old(self).inputs@
            },
            !r.is_ok() ==> *final(self) == *old(self) && r == Err::<(), TaError>(
                TaError::BadParam,
            ),
    {
        if position >= self.def.nb_output || position >= self.def.output_rows.len() || position
            >= self.outputs.len() {
            return Err(TaError::BadParam);
        }
        let matches_kind = match (self.def.output_rows[position].param_type, &param) {
            (OutputType::Real, OutputParam::Real(_)) => true,
            (OutputType::Integer, OutputParam::Integer(_)) => true,
            _ => false,
        };
        if !matches_kind {
            return Err(TaError::BadParam);
        }
        self.outputs[position] = Some(param);
        Ok(())
    }

    /// The minimum number of leading elements the function consumes before
    /// producing its first output, under the currently bound parameters.
    /// `None` when the bound parameters are invalid for the function.
    pub fn lookback(&self) -> (r: Option<usize>)
        ensures
            r.is_some() == lookback_spec(*self).is_some(),
            lookback_spec(*self) matches Some(lb) ==> (r matches Some(l) && l as int == lb),
    {
        match self.def.kind {
            FuncKind::Sma | FuncKind::Bbands => {
                if self.params.len() >= 1 {
                    match self.params[0] {
                        OptInputParam::Integer(p) => if p >= 2 {
                            Some((p - 1) as usize)
                        } else {
                            None
                        },
                        OptInputParam::Real(_) => None,
                    }
                } else {
                    None
                }
            },
            _ => Some(0),
        }
    }

    /// The exact number of output elements an invocation over
    /// `[start, end]` will produce, and so the exact buffer length a caller
    /// must bind per output slot. `None` when the lookback is unavailable.
    pub fn required_output_size(&self, start: i32, end: i32) -> (r: Option<usize>)
        ensures
            lookback_spec(*self) matches Some(lb) ==> r matches Some(n) && n as int
                == required_size_spec(lb, start as int, end as int),
            lookback_spec(*self) is None ==> r is None,
    {
        let lb = match self.lookback() {
            Some(l) => l,
            None => {
                return None;
            },
        };
        let lb64: i64 = lb as i64;
        let start64: i64 = start as i64;
        let end64: i64 = end as i64;
        let eff: i64 = if lb64 > start64 {
            lb64
        } else {
            start64
        };
        if eff > end64 {
            Some(0)
        } else {
            Some((end64 - eff + 1) as usize)
        }
    }


    /// Runs the computation over `[start, end]`. Succeeds exactly when the
    /// context is ready (see [`call_ok`]): the result is the absolute index
    /// of the first valid output element and the produced element count —
    /// always exactly the required output size — and every output slot the
    /// function writes is filled per [`call_post`]. On failure the context
    /// is untouched and the error is reported as a miscellaneous failure.
    pub fn call(&mut self, start: i32, end: i32) -> (r: TaResult<(usize, usize)>)
        ensures
            r.is_ok() == call_ok(*old(self), start as int, end as int),
            r matches Ok(v) ==> {
                &&& v.0 as int == begin_spec(
                    lookback_spec(*old(self)).unwrap(),
                    start as int,
                )
                &&& v.1 as int == required_size_spec(
                    lookback_spec(*old(self)).unwrap(),
                    start as int,
                    end as int,
                )
                &&& call_post(*old(self), *final(self), start as int, end as int)
            },
            !r.is_ok() ==> *final(self) == *old(self) && (r matches Err(e) && e
                matches TaError::Misc(m) && m@ == "Error calling func"@),
    {
        if start < 0 || end < start {
            return Err(TaError::Misc("Error calling func".to_owned()));
        }
        let lb = match self.lookback() {
            Some(l) => l,
            None => {
                return Err(TaError::Misc("Error calling func".to_owned()));
            },
        };
        let count = match self.required_output_size(start, end) {
            Some(c) => c,
            None => {
                proof {
                    assert(false);
                }
                return Err(TaError::Misc("Error calling func".to_owned()));
            },
        };
        let start_us = start as usize;
        let end_us = end as usize;
        let begin: usize = if lb > start_us {
            lb
        } else {
            start_us
        };
        match self.def.kind {
            FuncKind::Sma => {
                if self.params.len() < 1 {
                    proof {
                        assert(false);
                    }
                    return Err(TaError::Misc("Error calling func".to_owned()));
                }
                let period = match self.params[0] {
                    OptInputParam::Integer(pv) => pv,
                    OptInputParam::Real(_) => {
                        proof {
                            assert(false);
                        }
                        return Err(TaError::Misc("Error calling func".to_owned()));
                    },
                };
                if self.inputs.len() < 1 {
                    return Err(TaError::Misc("Error calling func".to_owned()));
                }
                let xs = match &self.inputs[0] {
                    Some(InputParam::Real(v)) => v,
                    _ => {
                        return Err(TaError::Misc("Error calling func".to_owned()));
                    },
                };
                if xs.len() <= end_us {
                    return Err(TaError::Misc("Error calling func".to_owned()));
                }
                if self.outputs.len() < 1 {
                    return Err(TaError::Misc("Error calling func".to_owned()));
                }
                let room = match &self.outputs[0] {
                    Some(OutputParam::Real(b)) => b.len() >= count,
                    _ => false,
                };
                if !room {
                    return Err(TaError::Misc("Error calling func".to_owned()));
                }
                let out = if count == 0 {
                    Vec::new()
                } else {
                    kernel_sma(xs, period, begin, count)
                };
                self.outputs[0] = Some(OutputParam::Real(out));
                Ok((begin, count))
            },
            FuncKind::Bbands => {
                if self.params.len() < 3 {
                    return Err(TaError::Misc("Error calling func".to_owned()));
                }
                let period = match self.params[0] {
                    OptInputParam::Integer(pv) => pv,
                    OptInputParam::Real(_) => {
                        proof {
                            assert(false);
                        }
                        return Err(TaError::Misc("Error calling func".to_owned()));
                    },
                };
                let dev_up = match self.params[1] {
                    OptInputParam::Real(f) => f,
                    OptInputParam::Integer(_) => {
                        return Err(TaError::Misc("Error calling func".to_owned()));
                    },
                };
                let dev_dn = match self.params[2] {
                    OptInputParam::Real(f) => f,
                    OptInputParam::Integer(_) => {
                        return Err(TaError::Misc("Error calling func".to_owned()));
                    },
                };
                if self.inputs.len() < 1 {
                    return Err(TaError::Misc("Error calling func".to_owned()));
                }
                let xs = match &self.inputs[0] {
                    Some(InputParam::Real(v)) => v,
                    _ => {
                        return Err(TaError::Misc("Error calling func".to_owned()));
                    },
                };
                if xs.len() <= end_us {
                    return Err(TaError::Misc("Error calling func".to_owned()));
                }
                if self.outputs.len() < 3 {
                    return Err(TaError::Misc("Error calling func".to_owned()));
                }
                let room0 = match &self.outputs[0] {
                    Some(OutputParam::Real(b)) => b.len() >= count,
                    _ => false,
                };
                let room1 = match &self.outputs[1] {
                    Some(OutputParam::Real(b)) => b.len() >= count,
                    _ => false,
                };
                let room2 = match &self.outputs[2] {
                    Some(OutputParam::Real(b)) => b.len() >= count,
                    _ => false,
                };
                if !room0 || !room1 || !room2 {
                    return Err(TaError::Misc("Error calling func".to_owned()));
                }
                let (upper, middle, lower) = if count == 0 {
                    (Vec::new(), Vec::new(), Vec::new())
                } else {
                    match kernel_bbands(xs, period, dev_up, dev_dn, begin, count) {
                        Ok(bufs) => bufs,
                        Err(e) => {
                            return Err(e);
                        },
                    }
                };
                self.outputs[0] = Some(OutputParam::Real(upper));
                self.outputs[1] = Some(OutputParam::Real(middle));
                self.outputs[2] = Some(OutputParam::Real(lower));
                Ok((begin, count))
            },
            FuncKind::MedPrice => {
                if self.inputs.len() < 1 {
                    return Err(TaError::Misc("Error calling func".to_owned()));
                }
                let bundle = match &self.inputs[0] {
                    Some(InputParam::Ohlc(o)) => o,
                    _ => {
                        return Err(TaError::Misc("Error calling func".to_owned()));
                    },
                };
                let high = match &bundle.high {
                    Some(v) => v,
                    None => {
                        return Err(TaError::Misc("Error calling func".to_owned()));
                    },
                };
                let low = match &bundle.low {
                    Some(v) => v,
                    None => {
                        return Err(TaError::Misc("Error calling func".to_owned()));
                    },
                };
                if high.len() <= end_us || low.len() <= end_us {
                    return Err(TaError::Misc("Error calling func".to_owned()));
                }
                if self.outputs.len() < 1 {
                    return Err(TaError::Misc("Error calling func".to_owned()));
                }
                let room = match &self.outputs[0] {
                    Some(OutputParam::Real(b)) => b.len() >= count,
                    _ => false,
                };
                if !room {
                    return Err(TaError::Misc("Error calling func".to_owned()));
                }
                let out = if count == 0 {
                    Vec::new()
                } else {
                    kernel_medprice(high, low, begin, count)
                };
                self.outputs[0] = Some(OutputParam::Real(out));
                Ok((begin, count))
            },
            FuncKind::TypPrice => {
                if self.inputs.len() < 1 {
                    return Err(TaError::Misc("Error calling func".to_owned()));
                }
                let bundle = match &self.inputs[0] {
                    Some(InputParam::Ohlc(o)) => o,
                    _ => {
                        return Err(TaError::Misc("Error calling func".to_owned()));
                    },
                };
                let high = match &bundle.high {
                    Some(v) => v,
                    None => {
                        return Err(TaError::Misc("Error calling func".to_owned()));
                    },
                };
                let low = match &bundle.low {
                    Some(v) => v,
                    None => {
                        return Err(TaError::Misc("Error calling func".to_owned()));
                    },
                };
                let close = match &bundle.close {
                    Some(v) => v,
                    None => {
                        return Err(TaError::Misc("Error calling func".to_owned()));
                    },
                };
                if high.len() <= end_us || low.len() <= end_us || close.len() <= end_us {
                    return Err(TaError::Misc("Error calling func".to_owned()));
                }
                if self.outputs.len() < 1 {
                    return Err(TaError::Misc("Error calling func".to_owned()));
                }
                let room = match &self.outputs[0] {
                    Some(OutputParam::Real(b)) => b.len() >= count,
                    _ => false,
                };
                if !room {
                    return Err(TaError::Misc("Error calling func".to_owned()));
                }
                let out = if count == 0 {
                    Vec::new()
                } else {
                    kernel_typprice(high, low, close, begin, count)
                };
                self.outputs[0] = Some(OutputParam::Real(out));
                Ok((begin, count))
            },
            FuncKind::Add => {
                if self.inputs.len() < 2 {
                    return Err(TaError::Misc("Error calling func".to_owned()));
                }
                let a_ok = match &self.inputs[0] {
                    Some(InputParam::Real(_)) => true,
                    _ => false,
                };
                let b_ok = match &self.inputs[1] {
                    Some(InputParam::Real(_)) => true,
                    _ => false,
                };
                if !a_ok || !b_ok {
                    return Err(TaError::Misc("Error calling func".to_owned()));
                }
                let a = match &self.inputs[0] {
                    Some(InputParam::Real(v)) => v,
                    _ => {
                        proof {
                            assert(false);
                        }
                        return Err(TaError::Misc("Error calling func".to_owned()));
                    },
                };
                let b = match &self.inputs[1] {
                    Some(InputParam::Real(v)) => v,
                    _ => {
                        proof {
                            assert(false);
                        }
                        return Err(TaError::Misc("Error calling func".to_owned()));
                    },
                };
                if a.len() <= end_us || b.len() <= end_us {
                    return Err(TaError::Misc("Error calling func".to_owned()));
                }
                if self.outputs.len() < 1 {
                    return Err(TaError::Misc("Error calling func".to_owned()));
                }
                let room = match &self.outputs[0] {
                    Some(OutputParam::Real(buf)) => buf.len() >= count,
                    _ => false,
                };
                if !room {
                    return Err(TaError::Misc("Error calling func".to_owned()));
                }
                let out = if count == 0 {
                    Vec::new()
                } else {
                    match kernel_add(a, b, begin, count) {
                        Ok(v) => v,
                        Err(e) => {
                            return Err(e);
                        },
                    }
                };
                self.outputs[0] = Some(OutputParam::Real(out));
                Ok((begin, count))
            },
            FuncKind::Div => {
                if self.inputs.len() < 2 {
                    return Err(TaError::Misc("Error calling func".to_owned()));
                }
                let a_ok = match &self.inputs[0] {
                    Some(InputParam::Real(_)) => true,
                    _ => false,
                };
                let b_ok = match &self.inputs[1] {
                    Some(InputParam::Real(_)) => true,
                    _ => false,
                };
                if !a_ok || !b_ok {
                    return Err(TaError::Misc("Error calling func".to_owned()));
                }
                let a = match &self.inputs[0] {
                    Some(InputParam::Real(v)) => v,
                    _ => {
                        proof {
                            assert(false);
                        }
                        return Err(TaError::Misc("Error calling func".to_owned()));
                    },
                };
                let b = match &self.inputs[1] {
                    Some(InputParam::Real(v)) => v,
                    _ => {
                        proof {
                            assert(false);
                        }
                        return Err(TaError::Misc("Error calling func".to_owned()));
                    },
                };
                if a.len() <= end_us || b.len() <= end_us {
                    return Err(TaError::Misc("Error calling func".to_owned()));
                }
                if self.outputs.len() < 1 {
                    return Err(TaError::Misc("Error calling func".to_owned()));
                }
                let room = match &self.outputs[0] {
                    Some(OutputParam::Real(buf)) => buf.len() >= count,
                    _ => false,
                };
                if !room {
                    return Err(TaError::Misc("Error calling func".to_owned()));
                }
                let out = if count == 0 {
                    Vec::new()
                } else {
                    match kernel_div(a, b, begin, count) {
                        Ok(v) => v,
                        Err(e) => {
                            return Err(e);
                        },
                    }
                };
                self.outputs[0] = Some(OutputParam::Real(out));
                Ok((begin, count))
            },
        }
    }

    /// Moves a filled output buffer out of the context, leaving its slot
    /// unbound. Rejected when the slot does not exist or holds no buffer.
    pub fn take_output(&mut self, position: usize) -> (r: TaResult<OutputParam>)
        ensures
            (position < old(self).outputs@.len() && old(self).outputs@[position as int] is Some)
                == r.is_ok(),
            r.is_ok() ==> {
                &&& r == Ok::<OutputParam, TaError>(
                    old(self).outputs@[position as int].unwrap(),
                )
                &&& final(self).outputs@ == old(self).outputs@.update(
                    position as int,
                    None::<OutputParam>,
                )
                &&& final(self).def == old(self).def
                &&& final(self).params@ == old(self).params@
                &&& final(self).inputs@ == old(self).inputs@
            },
            !r.is_ok() ==> *final(self) == *old(self) && r == Err::<OutputParam, TaError>(
                TaError::BadParam,
            ),
    {
        if position >= self.outputs.len() {
            return Err(TaError::BadParam);
        }
        if self.outputs[position].is_none() {
            return Err(TaError::BadParam);
        }
        match self.outputs[position].take() {
            Some(buf) => Ok(buf),
            None => {
                proof {
                    assert(false);
                }
                Err(TaError::BadParam)
            },
        }
    }
}

} // verus!
