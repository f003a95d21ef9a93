//! Entry points of the math-operators group.
//!
//! These functions take two independent real series. The call window is
//! reconciled from both lengths: the longer one sizes the output buffers,
//! the shorter one bounds the invocation range, so a mismatch surfaces as
//! an error from the engine rather than a read past the shorter series.

use vstd::prelude::*;
use vstd::string::StringExecFns;

use crate::fixed::Fixed;
use crate::func_handle::FuncHandle;
use crate::input::{Length, RealSeries};
use crate::kernels::{add_at, add_fits, div_at, div_fits};
use crate::params::param_holder::{InputParam, OutputParam, ParamHolder};
use crate::registry::{eq_def, is_add_def, is_div_def, Registry};
use crate::types::{TaError, TaResult};

verus! {

/// The length both series cover: the shorter of the two.
pub open spec fn common_len(a: int, b: int) -> int {
    if a < b {
        a
    } else {
        b
    }
}

/// The longer of the two lengths: the candidate end of the call window.
pub open spec fn longest_len(a: int, b: int) -> int {
    if a > b {
        a
    } else {
        b
    }
}

/// Vector Arithmetic Add: no optional parameters.
#[derive(Debug, Clone, Copy, PartialEq, Eq, Structural)]
pub struct Add {}

/// Builder for [`Add`].
#[derive(Debug, Clone, Copy, PartialEq, Eq, Structural)]
pub struct AddBuilder {}

impl AddBuilder {
    pub fn default() -> (r: AddBuilder)
        ensures
            r == (AddBuilder {  }),
    {
        AddBuilder {  }
    }

    pub fn build(&self) -> (r: TaResult<Add>)
        ensures
            r == Ok::<Add, TaError>(Add {  }),
    {
        Ok(Add {  })
    }
}

impl Add {
    /// Computes the elementwise sum of the two series over the indices both
    /// cover.
    ///
    /// Succeeds exactly when the longer series fits the call surface's
    /// index type, both are non-empty, each serves at least as many
    /// elements as the shorter declared length, and every sum stays within
    /// the unit type's range.
    pub fn calculate<A: Length + RealSeries, B: Length + RealSeries>(
        &self,
        first: A,
        second: B,
    ) -> (r: TaResult<Vec<Fixed>>)
        ensures
            r.is_ok() == ({
                let short = common_len(first.spec_length(), second.spec_length());
                &&& longest_len(first.spec_length(), second.spec_length()) <= i32::MAX
                &&& 1 <= short
                &&& first.spec_reals().len() >= short
                &&& second.spec_reals().len() >= short
                &&& add_fits(first.spec_reals(), second.spec_reals(), 0, short)
            }),
            r matches Ok(out) ==> {
                &&& out@.len() == common_len(first.spec_length(), second.spec_length())
                &&& forall|j: int|
                    0 <= j < out@.len() ==> (#[trigger] out@[j]).units == add_at(
                        first.spec_reals(),
                        second.spec_reals(),
                        j,
                    )
            },
            !r.is_ok() ==> (r matches Err(e) && e matches TaError::Misc(m) && m@
                == "Error calling func"@),
    {
        let registry = Registry::standard();
        let handle = match FuncHandle::new(&registry, "ADD") {
            Ok(h) => h,
            Err(_) => {
                proof {
                    assert(false);
                }
                return Err(TaError::Misc("Error calling func".to_owned()));
            },
        };
        proof {
            let (g, i): (int, int) = choose|g: int, i: int|
                0 <= g < registry.groups@.len() && 0 <= i < registry.groups@[g].funcs@.len()
                    && eq_def(#[trigger] registry.groups@[g].funcs@[i], handle.def);
            assert(registry.groups@[g].funcs@[i].name@ == "ADD"@);
            assert(is_add_def(registry.groups@[g].funcs@[i]));
            assert(is_add_def(handle.def));
        }
        let mut params = match ParamHolder::try_from(handle) {
            Ok(p) => p,
            Err(_) => {
                proof {
                    assert(false);
                }
                return Err(TaError::Misc("Error calling func".to_owned()));
            },
        };
        match params.set_input(0, InputParam::Real(vstd::slice::slice_to_vec(first.reals()))) {
            Ok(_) => (),
            Err(_) => {
                proof {
                    assert(false);
                }
                return Err(TaError::Misc("Error calling func".to_owned()));
            },
        }
        match params.set_input(1, InputParam::Real(vstd::slice::slice_to_vec(second.reals()))) {
            Ok(_) => (),
            Err(_) => {
                proof {
                    assert(false);
                }
                return Err(TaError::Misc("Error calling func".to_owned()));
            },
        }
        let len_a = first.length();
        let len_b = second.length();
        let max_len = if len_a > len_b {
            len_a
        } else {
            len_b
        };
        let min_len = if len_a < len_b {
            len_a
        } else {
            len_b
        };
        if max_len > i32::MAX as usize {
            return Err(TaError::Misc("Error calling func".to_owned()));
        }
        let input_len = max_len as i32;
        let output_size = match params.required_output_size(0, input_len) {
            Some(n) => n,
            None => {
                proof {
                    assert(false);
                }
                return Err(TaError::Misc("Failed to get required size".to_owned()));
            },
        };
        if min_len == 0 {
            return Err(TaError::Misc("Error calling func".to_owned()));
        }
        let end_idx = (min_len - 1) as i32;
        let buf: Vec<Fixed> = vec![Fixed::from_scaled(0); output_size];
        match params.set_output(0, OutputParam::Real(buf)) {
            Ok(_) => (),
            Err(_) => {
                proof {
                    assert(false);
                }
                return Err(TaError::Misc("Error calling func".to_owned()));
            },
        }
        proof {
            crate::params::param_holder::lemma_required_size_monotone(
                0,
                0,
                min_len - 1,
                max_len as int,
            );
        }
        match params.call(0, end_idx) {
            Ok(_) => (),
            Err(e) => {
                return Err(e);
            },
        }
        match params.take_output(0) {
            Ok(OutputParam::Real(out)) => Ok(out),
            _ => {
                proof {
                    assert(false);
                }
                Err(TaError::Misc("Error calling func".to_owned()))
            },
        }
    }
}

/// Vector Arithmetic Div: no optional parameters.
#[derive(Debug, Clone, Copy, PartialEq, Eq, Structural)]
pub struct Div {}

/// Builder for [`Div`].
#[derive(Debug, Clone, Copy, PartialEq, Eq, Structural)]
pub struct DivBuilder {}

impl DivBuilder {
    pub fn default() -> (r: DivBuilder)
        ensures
            r == (DivBuilder {  }),
    {
        DivBuilder {  }
    }

    pub fn build(&self) -> (r: TaResult<Div>)
        ensures
            r == Ok::<Div, TaError>(Div {  }),
    {
        Ok(Div {  })
    }
}

impl Div {
    /// Computes the elementwise quotient of the two series over the indices
    /// both cover.
    ///
    /// Succeeds exactly when the longer series fits the call surface's
    /// index type, both are non-empty, each serves at least as many
    /// elements as the shorter declared length, no divisor is zero, and
    /// every quotient stays within the unit type's range.
    pub fn calculate<A: Length + RealSeries, B: Length + RealSeries>(
        &self,
        first: A,
        second: B,
    ) -> (r: TaResult<Vec<Fixed>>)
        ensures
            r.is_ok() == ({
                let short = common_len(first.spec_length(), second.spec_length());
                &&& longest_len(first.spec_length(), second.spec_length()) <= i32::MAX
                &&& 1 <= short
                &&& first.spec_reals().len() >= short
                &&& second.spec_reals().len() >= short
                &&& div_fits(first.spec_reals(), second.spec_reals(), 0, short)
            }),
            r matches Ok(out) ==> {
                &&& out@.len() == common_len(first.spec_length(), second.spec_length())
                &&& forall|j: int|
                    0 <= j < out@.len() ==> (#[trigger] out@[j]).units == div_at(
                        first.spec_reals(),
                        second.spec_reals(),
                        j,
                    )
            },
            !r.is_ok() ==> (r matches Err(e) && e matches TaError::Misc(m) && m@
                == "Error calling func"@),
    {
        let registry = Registry::standard();
        let handle = match FuncHandle::new(&registry, "DIV") {
            Ok(h) => h,
            Err(_) => {
                proof {
                    assert(false);
                }
                return Err(TaError::Misc("Error calling func".to_owned()));
            },
        };
        proof {
            let (g, i): (int, int) = choose|g: int, i: int|
                0 <= g < registry.groups@.len() && 0 <= i < registry.groups@[g].funcs@.len()
                    && eq_def(#[trigger] registry.groups@[g].funcs@[i], handle.def);
            assert(registry.groups@[g].funcs@[i].name@ == "DIV"@);
            assert(is_div_def(registry.groups@[g].funcs@[i]));
            assert(is_div_def(handle.def));
        }
        let mut params = match ParamHolder::try_from(handle) {
            Ok(p) => p,
            Err(_) => {
                proof {
                    assert(false);
                }
                return Err(TaError::Misc("Error calling func".to_owned()));
            },
        };
        match params.set_input(0, InputParam::Real(vstd::slice::slice_to_vec(first.reals()))) {
            Ok(_) => (),
            Err(_) => {
                proof {
                    assert(false);
                }
                return Err(TaError::Misc("Error calling func".to_owned()));
            },
        }
        match params.set_input(1, InputParam::Real(vstd::slice::slice_to_vec(second.reals()))) {
            Ok(_) => (),
            Err(_) => {
                proof {
                    assert(false);
                }
                return Err(TaError::Misc("Error calling func".to_owned()));
            },
        }
        let len_a = first.length();
        let len_b = second.length();
        let max_len = if len_a > len_b {
            len_a
        } else {
            len_b
        };
        let min_len = if len_a < len_b {
            len_a
        } else {
            len_b
        };
        if max_len > i32::MAX as usize {
            return Err(TaError::Misc("Error calling func".to_owned()));
        }
        let input_len = max_len as i32;
        let output_size = match params.required_output_size(0, input_len) {
            Some(n) => n,
            None => {
                proof {
                    assert(false);
                }
                return Err(TaError::Misc("Failed to get required size".to_owned()));
            },
        };
        if min_len == 0 {
            return Err(TaError::Misc("Error calling func".to_owned()));
        }
        let end_idx = (min_len - 1) as i32;
        let buf: Vec<Fixed> = vec![Fixed::from_scaled(0); output_size];
        match params.set_output(0, OutputParam::Real(buf)) {
            Ok(_) => (),
            Err(_) => {
                proof {
                    assert(false);
                }
                return Err(TaError::Misc("Error calling func".to_owned()));
            },
        }
        proof {
            crate::params::param_holder::lemma_required_size_monotone(
                0,
                0,
                min_len - 1,
                max_len as int,
            );
        }
        match params.call(0, end_idx) {
            Ok(_) => (),
            Err(e) => {
                return Err(e);
            },
        }
        match params.take_output(0) {
            Ok(OutputParam::Real(out)) => Ok(out),
            _ => {
                proof {
                    assert(false);
                }
                Err(TaError::Misc("Error calling func".to_owned()))
            },
        }
    }
}

} // verus!
