//! Entry points of the overlap-studies group.

use vstd::prelude::*;
use vstd::string::StringExecFns;

use crate::fixed::Fixed;
use crate::func_handle::FuncHandle;
use crate::input::{Length, RealSeries};
use crate::kernels::{bbands_fits, bbands_lower_at, bbands_upper_at, sma_at};
use crate::params::param_holder::{
    required_size_spec, InputParam, OptInputParam, OutputParam, ParamHolder,
};
use crate::registry::{eq_def, is_bbands_def, is_sma_def, Registry};
use crate::types::{TaError, TaResult};

verus! {

/// Simple Moving Average: configuration carrying the function's one
/// optional parameter.
#[derive(Debug, Clone, Copy, PartialEq, Eq, Structural)]
pub struct Sma {
    pub time_period: i32,
}

/// Builder for [`Sma`]; an unset period falls back to the registry's
/// documented default of thirty.
#[derive(Debug, Clone, Copy, PartialEq, Eq, Structural)]
pub struct SmaBuilder {
    pub time_period: Option<i32>,
}

impl SmaBuilder {
    /// A builder with every parameter unset.
    pub fn default() -> (r: SmaBuilder)
        ensures
            r.time_period is None,
    {
        SmaBuilder { time_period: None }
    }

    /// Number of period.
    pub fn time_period(self, value: i32) -> (r: SmaBuilder)
        ensures
            r.time_period == Some(value),
    {
        SmaBuilder { time_period: Some(value) }
    }

    /// The configured function, unset parameters at their defaults.
    pub fn build(&self) -> (r: TaResult<Sma>)
        ensures
            r == Ok::<Sma, TaError>(
                Sma {
                    time_period: match self.time_period {
                        Some(v) => v,
                        None => 30,
                    },
                },
            ),
    {
        match self.time_period {
            Some(v) => Ok(Sma { time_period: v }),
            None => Ok(Sma { time_period: 30 }),
        }
    }
}

impl Sma {
    /// Computes the simple moving average of `data` with this
    /// configuration's period.
    ///
    /// Succeeds exactly when the period is at least two and `data` is
    /// non-empty, fits the call surface's index type, and serves at least
    /// as many elements as its declared length. The result holds one
    /// element per index from `period - 1` through `length - 1`: the
    /// truncated mean of the `period` values ending there.
    pub fn calculate<A: Length + RealSeries>(&self, data: A) -> (r: TaResult<Vec<Fixed>>)
        ensures
            r.is_ok() == (data.spec_length() <= i32::MAX && self.time_period >= 2 && 1
                <= data.spec_length() && data.spec_reals().len() >= data.spec_length()),
            r matches Ok(out) ==> {
                &&& out@.len() == required_size_spec(
                    self.time_period - 1,
                    0,
                    data.spec_length() - 1,
                )
                &&& forall|j: int|
                    0 <= j < out@.len() ==> (#[trigger] out@[j]).units == sma_at(
                        data.spec_reals(),
                        self.time_period as int,
                        self.time_period - 1 + j,
                    )
            },
            data.spec_length() > i32::MAX ==> (r matches Err(e) && e matches TaError::Misc(m)
                && m@ == "Error calling func"@),
            data.spec_length() <= i32::MAX && self.time_period < 2 ==> (r matches Err(e) && e
                matches TaError::Misc(m) && m@ == "Failed to get required size"@),
            data.spec_length() <= i32::MAX && self.time_period >= 2 && (data.spec_length() == 0
                || data.spec_reals().len() < data.spec_length()) ==> (r matches Err(e) && e
                matches TaError::Misc(m) && m@ == "Error calling func"@),
    {
        let registry = Registry::standard();
        let handle = match FuncHandle::new(&registry, "SMA") {
            Ok(h) => h,
            Err(_) => {
                proof {
                    assert(false);
                }
                return Err(TaError::Misc("Error calling func".to_owned()));
            },
        };
        proof {
            let (g, i): (int, int) = choose|g: int, i: int|
                0 <= g < registry.groups@.len() && 0 <= i < registry.groups@[g].funcs@.len()
                    && eq_def(#[trigger] registry.groups@[g].funcs@[i], handle.def);
            assert(registry.groups@[g].funcs@[i].name@ == "SMA"@);
            assert(is_sma_def(registry.groups@[g].funcs@[i]));
            assert(is_sma_def(handle.def));
        }
        let mut params = match ParamHolder::try_from(handle) {
            Ok(p) => p,
            Err(_) => {
                proof {
                    assert(false);
                }
                return Err(TaError::Misc("Error calling func".to_owned()));
            },
        };
        match params.set_param(0, OptInputParam::Integer(self.time_period)) {
            Ok(_) => (),
            Err(_) => {
                proof {
                    assert(false);
                }
                return Err(TaError::Misc("Error calling func".to_owned()));
            },
        }
        let xs = vstd::slice::slice_to_vec(data.reals());
        match params.set_input(0, InputParam::Real(xs)) {
            Ok(_) => (),
            Err(_) => {
                proof {
                    assert(false);
                }
                return Err(TaError::Misc("Error calling func".to_owned()));
            },
        }
        let len = data.length();
        if len > i32::MAX as usize {
            return Err(TaError::Misc("Error calling func".to_owned()));
        }
        let input_len = len as i32;
        let output_size = match params.required_output_size(0, input_len) {
            Some(n) => n,
            None => {
                return Err(TaError::Misc("Failed to get required size".to_owned()));
            },
        };
        if len == 0 {
            return Err(TaError::Misc("Error calling func".to_owned()));
        }
        let end_idx = (len - 1) as i32;
        let buf: Vec<Fixed> = vec![Fixed::from_scaled(0); output_size];
        match params.set_output(0, OutputParam::Real(buf)) {
            Ok(_) => (),
            Err(_) => {
                proof {
                    assert(false);
                }
                return Err(TaError::Misc("Error calling func".to_owned()));
            },
        }
        proof {
            crate::params::param_holder::lemma_required_size_monotone(
                self.time_period - 1,
                0,
                len - 1,
                len as int,
            );
        }
        match params.call(0, end_idx) {
            Ok(_) => (),
            Err(e) => {
                return Err(e);
            },
        }
        match params.take_output(0) {
            Ok(OutputParam::Real(out)) => Ok(out),
            _ => {
                proof {
                    assert(false);
                }
                Err(TaError::Misc("Error calling func".to_owned()))
            },
        }
    }
}

/// Bollinger Bands: configuration carrying the function's four optional
/// parameters.
#[derive(Debug, Clone, Copy, PartialEq, Eq, Structural)]
pub struct Bbands {
    pub time_period: i32,
    pub deviations_up: Fixed,
    pub deviations_down: Fixed,
    pub ma_type: i32,
}

/// Builder for [`Bbands`]; unset parameters fall back to the registry's
/// documented defaults: a period of five, two deviations either side, and
/// the plain moving average.
#[derive(Debug, Clone, Copy, PartialEq, Eq, Structural)]
pub struct BbandsBuilder {
    pub time_period: Option<i32>,
    pub deviations_up: Option<Fixed>,
    pub deviations_down: Option<Fixed>,
    pub ma_type: Option<i32>,
}

impl BbandsBuilder {
    /// A builder with every parameter unset.
    pub fn default() -> (r: BbandsBuilder)
        ensures
            r.time_period is None,
            r.deviations_up is None,
            r.deviations_down is None,
            r.ma_type is None,
    {
        BbandsBuilder { time_period: None, deviations_up: None, deviations_down: None, ma_type: None }
    }

    /// Number of period.
    pub fn time_period(self, value: i32) -> (r: BbandsBuilder)
        ensures
            r == (BbandsBuilder { time_period: Some(value), ..self }),
    {
        BbandsBuilder { time_period: Some(value), ..self }
    }

    /// Deviation multiplier for upper band.
    pub fn deviations_up(self, value: Fixed) -> (r: BbandsBuilder)
        ensures
            r == (BbandsBuilder { deviations_up: Some(value), ..self }),
    {
        BbandsBuilder { deviations_up: Some(value), ..self }
    }

    /// Deviation multiplier for lower band.
    pub fn deviations_down(self, value: Fixed) -> (r: BbandsBuilder)
        ensures
            r == (BbandsBuilder { deviations_down: Some(value), ..self }),
    {
        BbandsBuilder { deviations_down: Some(value), ..self }
    }

    /// Type of Moving Average.
    pub fn ma_type(self, value: i32) -> (r: BbandsBuilder)
        ensures
            r == (BbandsBuilder { ma_type: Some(value), ..self }),
    {
        BbandsBuilder { ma_type: Some(value), ..self }
    }

    /// The configured function, unset parameters at their defaults.
    pub fn build(&self) -> (r: TaResult<Bbands>)
        ensures
            r matches Ok(b) && b.time_period == (match self.time_period {
                Some(v) => v,
                None => 5,
            }) && b.deviations_up == (match self.deviations_up {
                Some(v) => v,
                None => Fixed { units: 2_000_000 },
            }) && b.deviations_down == (match self.deviations_down {
                Some(v) => v,
                None => Fixed { units: 2_000_000 },
            }) && b.ma_type == (match self.ma_type {
                Some(v) => v,
                None => 0,
            }),
    {
        let time_period = match self.time_period {
            Some(v) => v,
            None => 5,
        };
        let deviations_up = match self.deviations_up {
            Some(v) => v,
            None => Fixed::from_int(2),
        };
        let deviations_down = match self.deviations_down {
            Some(v) => v,
            None => Fixed::from_int(2),
        };
        let ma_type = match self.ma_type {
            Some(v) => v,
            None => 0,
        };
        Ok(Bbands { time_period, deviations_up, deviations_down, ma_type })
    }
}

impl Bbands {
    /// Computes the three bands of `data` with this configuration: the
    /// upper band, the moving average, and the lower band, in that order.
    /// The bands sit the configured number of spread measures above and
    /// below the average; the spread is the floor square root of the
    /// window's mean squared deviation.
    ///
    /// Succeeds exactly when the period is at least two, `data` is
    /// non-empty, fits the call surface's index type, serves at least as
    /// many elements as its declared length, and every window's bands stay
    /// within machine range.
    pub fn calculate<A: Length + RealSeries>(&self, data: A) -> (r: TaResult<
        (Vec<Fixed>, Vec<Fixed>, Vec<Fixed>),
    >)
        ensures
            r.is_ok() == (data.spec_length() <= i32::MAX && self.time_period >= 2 && 1
                <= data.spec_length() && data.spec_reals().len() >= data.spec_length()
                && bbands_fits(
                data.spec_reals(),
                self.time_period as int,
                self.deviations_up.units as int,
                self.deviations_down.units as int,
                self.time_period - 1,
                required_size_spec(self.time_period - 1, 0, data.spec_length() - 1),
            )),
            r matches Ok(out) ==> {
                &&& out.0@.len() == required_size_spec(
                    self.time_period - 1,
                    0,
                    data.spec_length() - 1,
                )
                &&& out.1@.len() == out.0@.len()
                &&& out.2@.len() == out.0@.len()
                &&& forall|j: int|
                    0 <= j < out.0@.len() ==> (#[trigger] out.0@[j]).units == bbands_upper_at(
                        data.spec_reals(),
                        self.time_period as int,
                        self.deviations_up.units as int,
                        self.time_period - 1 + j,
                    )
                &&& forall|j: int|
                    0 <= j < out.1@.len() ==> (#[trigger] out.1@[j]).units == sma_at(
                        data.spec_reals(),
                        self.time_period as int,
                        self.time_period - 1 + j,
                    )
                &&& forall|j: int|
                    0 <= j < out.2@.len() ==> (#[trigger] out.2@[j]).units == bbands_lower_at(
                        data.spec_reals(),
                        self.time_period as int,
                        self.deviations_down.units as int,
                        self.time_period - 1 + j,
                    )
            },
            data.spec_length() <= i32::MAX && self.time_period < 2 ==> (r matches Err(e) && e
                matches TaError::Misc(m) && m@ == "Failed to get required size"@),
            !r.is_ok() && (data.spec_length() > i32::MAX || self.time_period >= 2) ==> (r
                matches Err(e) && e matches TaError::Misc(m) && m@ == "Error calling func"@),
    {
        let registry = Registry::standard();
        let handle = match FuncHandle::new(&registry, "BBANDS") {
            Ok(h) => h,
            Err(_) => {
                proof {
                    assert(false);
                }
                return Err(TaError::Misc("Error calling func".to_owned()));
            },
        };
        proof {
            let (g, i): (int, int) = choose|g: int, i: int|
                0 <= g < registry.groups@.len() && 0 <= i < registry.groups@[g].funcs@.len()
                    && eq_def(#[trigger] registry.groups@[g].funcs@[i], handle.def);
            assert(registry.groups@[g].funcs@[i].name@ == "BBANDS"@);
            assert(is_bbands_def(registry.groups@[g].funcs@[i]));
            assert(is_bbands_def(handle.def));
        }
        let mut params = match ParamHolder::try_from(handle) {
            Ok(p) => p,
            Err(_) => {
                proof {
                    assert(false);
                }
                return Err(TaError::Misc("Error calling func".to_owned()));
            },
        };
        match params.set_param(0, OptInputParam::Integer(self.time_period)) {
            Ok(_) => (),
            Err(_) => {
                proof {
                    assert(false);
                }
                return Err(TaError::Misc("Error calling func".to_owned()));
            },
        }
        match params.set_param(1, OptInputParam::Real(self.deviations_up)) {
            Ok(_) => (),
            Err(_) => {
                proof {
                    assert(false);
                }
                return Err(TaError::Misc("Error calling func".to_owned()));
            },
        }
        match params.set_param(2, OptInputParam::Real(self.deviations_down)) {
            Ok(_) => (),
            Err(_) => {
                proof {
                    assert(false);
                }
                return Err(TaError::Misc("Error calling func".to_owned()));
            },
        }
        match params.set_param(3, OptInputParam::Integer(self.ma_type)) {
            Ok(_) => (),
            Err(_) => {
                proof {
                    assert(false);
                }
                return Err(TaError::Misc("Error calling func".to_owned()));
            },
        }
        let xs = vstd::slice::slice_to_vec(data.reals());
        match params.set_input(0, InputParam::Real(xs)) {
            Ok(_) => (),
            Err(_) => {
                proof {
                    assert(false);
                }
                return Err(TaError::Misc("Error calling func".to_owned()));
            },
        }
        let len = data.length();
        if len > i32::MAX as usize {
            return Err(TaError::Misc("Error calling func".to_owned()));
        }
        let input_len = len as i32;
        let output_size = match params.required_output_size(0, input_len) {
            Some(n) => n,
            None => {
                return Err(TaError::Misc("Failed to get required size".to_owned()));
            },
        };
        if len == 0 {
            return Err(TaError::Misc("Error calling func".to_owned()));
        }
        let end_idx = (len - 1) as i32;
        let buf0: Vec<Fixed> = vec![Fixed::from_scaled(0); output_size];
        let buf1: Vec<Fixed> = vec![Fixed::from_scaled(0); output_size];
        let buf2: Vec<Fixed> = vec![Fixed::from_scaled(0); output_size];
        match params.set_output(0, OutputParam::Real(buf0)) {
            Ok(_) => (),
            Err(_) => {
                proof {
                    assert(false);
                }
                return Err(TaError::Misc("Error calling func".to_owned()));
            },
        }
        match params.set_output(1, OutputParam::Real(buf1)) {
            Ok(_) => (),
            Err(_) => {
                proof {
                    assert(false);
                }
                return Err(TaError::Misc("Error calling func".to_owned()));
            },
        }
        match params.set_output(2, OutputParam::Real(buf2)) {
            Ok(_) => (),
            Err(_) => {
                proof {
                    assert(false);
                }
                return Err(TaError::Misc("Error calling func".to_owned()));
            },
        }
        proof {
            crate::params::param_holder::lemma_required_size_monotone(
                self.time_period - 1,
                0,
                len - 1,
                len as int,
            );
        }
        match params.call(0, end_idx) {
            Ok(_) => (),
            Err(e) => {
                return Err(e);
            },
        }
        let upper = match params.take_output(0) {
            Ok(OutputParam::Real(v)) => v,
            _ => {
                proof {
                    assert(false);
                }
                return Err(TaError::Misc("Error calling func".to_owned()));
            },
        };
        let middle = match params.take_output(1) {
            Ok(OutputParam::Real(v)) => v,
            _ => {
                proof {
                    assert(false);
                }
                return Err(TaError::Misc("Error calling func".to_owned()));
            },
        };
        let lower = match params.take_output(2) {
            Ok(OutputParam::Real(v)) => v,
            _ => {
                proof {
                    assert(false);
                }
                return Err(TaError::Misc("Error calling func".to_owned()));
            },
        };
        Ok((upper, middle, lower))
    }
}

} // verus!
