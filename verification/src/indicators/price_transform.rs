//! Entry points of the price-transform group.

use vstd::prelude::*;
use vstd::string::StringExecFns;

use crate::fixed::Fixed;
use crate::func_handle::FuncHandle;
use crate::input::{Close, High, Length, Low};
use crate::kernels::{medprice_at, typprice_at};
use crate::params::param_holder::{InputParam, Ohlc, OutputParam, ParamHolder};
use crate::registry::{eq_def, is_medprice_def, is_typprice_def, Registry};
use crate::types::{TaError, TaResult};

verus! {

/// Median Price: no optional parameters.
#[derive(Debug, Clone, Copy, PartialEq, Eq, Structural)]
pub struct MedPrice {}

/// Builder for [`MedPrice`].
#[derive(Debug, Clone, Copy, PartialEq, Eq, Structural)]
pub struct MedPriceBuilder {}

impl MedPriceBuilder {
    pub fn default() -> (r: MedPriceBuilder)
        ensures
            r == (MedPriceBuilder {  }),
    {
        MedPriceBuilder {  }
    }

    pub fn build(&self) -> (r: TaResult<MedPrice>)
        ensures
            r == Ok::<MedPrice, TaError>(MedPrice {  }),
    {
        Ok(MedPrice {  })
    }
}

impl MedPrice {
    /// Computes the median price — the truncated mean of high and low —
    /// elementwise over the bundle.
    ///
    /// Succeeds exactly when the bundle is non-empty, fits the call
    /// surface's index type, and its high and low components each cover the
    /// bundle's declared length.
    pub fn calculate<A: Length + High + Low>(&self, data: &A) -> (r: TaResult<Vec<Fixed>>)
        ensures
            r.is_ok() == (data.spec_length() <= i32::MAX && 1 <= data.spec_length()
                && data.spec_high().len() >= data.spec_length() && data.spec_low().len()
                >= data.spec_length()),
            r matches Ok(out) ==> {
                &&& out@.len() == data.spec_length()
                &&& forall|j: int|
                    0 <= j < out@.len() ==> (#[trigger] out@[j]).units == medprice_at(
                        data.spec_high(),
                        data.spec_low(),
                        j,
                    )
            },
            !r.is_ok() ==> (r matches Err(e) && e matches TaError::Misc(m) && m@
                == "Error calling func"@),
    {
        let registry = Registry::standard();
        let handle = match FuncHandle::new(&registry, "MEDPRICE") {
            Ok(h) => h,
            Err(_) => {
                proof {
                    assert(false);
                }
                return Err(TaError::Misc("Error calling func".to_owned()));
            },
        };
        proof {
            let (g, i): (int, int) = choose|g: int, i: int|
                0 <= g < registry.groups@.len() && 0 <= i < registry.groups@[g].funcs@.len()
                    && eq_def(#[trigger] registry.groups@[g].funcs@[i], handle.def);
            assert(registry.groups@[g].funcs@[i].name@ == "MEDPRICE"@);
            assert(is_medprice_def(registry.groups@[g].funcs@[i]));
            assert(is_medprice_def(handle.def));
        }
        let mut params = match ParamHolder::try_from(handle) {
            Ok(p) => p,
            Err(_) => {
                proof {
                    assert(false);
                }
                return Err(TaError::Misc("Error calling func".to_owned()));
            },
        };
        let bundle = Ohlc {
            open: None,
            low: Some(vstd::slice::slice_to_vec(data.low())),
            high: Some(vstd::slice::slice_to_vec(data.high())),
            close: None,
            volume: None,
            openinterest: None,
        };
        match params.set_input(0, InputParam::Ohlc(bundle)) {
            Ok(_) => (),
            Err(_) => {
                proof {
                    assert(false);
                }
                return Err(TaError::Misc("Error calling func".to_owned()));
            },
        }
        let len = data.length();
        if len > i32::MAX as usize {
            return Err(TaError::Misc("Error calling func".to_owned()));
        }
        let input_len = len as i32;
        let output_size = match params.required_output_size(0, input_len) {
            Some(n) => n,
            None => {
                proof {
                    assert(false);
                }
                return Err(TaError::Misc("Failed to get required size".to_owned()));
            },
        };
        if len == 0 {
            return Err(TaError::Misc("Error calling func".to_owned()));
        }
        let end_idx = (len - 1) as i32;
        let buf: Vec<Fixed> = vec![Fixed::from_scaled(0); output_size];
        match params.set_output(0, OutputParam::Real(buf)) {
            Ok(_) => (),
            Err(_) => {
                proof {
                    assert(false);
                }
                return Err(TaError::Misc("Error calling func".to_owned()));
            },
        }
        proof {
            crate::params::param_holder::lemma_required_size_monotone(0, 0, len - 1, len as int);
        }
        match params.call(0, end_idx) {
            Ok(_) => (),
            Err(e) => {
                return Err(e);
            },
        }
        match params.take_output(0) {
            Ok(OutputParam::Real(out)) => Ok(out),
            _ => {
                proof {
                    assert(false);
                }
                Err(TaError::Misc("Error calling func".to_owned()))
            },
        }
    }
}

/// Typical Price: no optional parameters.
#[derive(Debug, Clone, Copy, PartialEq, Eq, Structural)]
pub struct TypPrice {}

/// Builder for [`TypPrice`].
#[derive(Debug, Clone, Copy, PartialEq, Eq, Structural)]
pub struct TypPriceBuilder {}

impl TypPriceBuilder {
    pub fn default() -> (r: TypPriceBuilder)
        ensures
            r == (TypPriceBuilder {  }),
    {
        TypPriceBuilder {  }
    }

    pub fn build(&self) -> (r: TaResult<TypPrice>)
        ensures
            r == Ok::<TypPrice, TaError>(TypPrice {  }),
    {
        Ok(TypPrice {  })
    }
}

impl TypPrice {
    /// Computes the typical price — the truncated mean of high, low and
    /// close — elementwise over the bundle.
    ///
    /// Succeeds exactly when the bundle is non-empty, fits the call
    /// surface's index type, and its high, low and close components each
    /// cover the bundle's declared length.
    pub fn calculate<A: Length + High + Low + Close>(&self, data: &A) -> (r: TaResult<Vec<Fixed>>)
        ensures
            r.is_ok() == (data.spec_length() <= i32::MAX && 1 <= data.spec_length()
                && data.spec_high().len() >= data.spec_length() && data.spec_low().len()
                >= data.spec_length() && data.spec_close().len() >= data.spec_length()),
            r matches Ok(out) ==> {
                &&& out@.len() == data.spec_length()
                &&& forall|j: int|
                    0 <= j < out@.len() ==> (#[trigger] out@[j]).units == typprice_at(
                        data.spec_high(),
                        data.spec_low(),
                        data.spec_close(),
                        j,
                    )
            },
            !r.is_ok() ==> (r matches Err(e) && e matches TaError::Misc(m) && m@
                == "Error calling func"@),
    {
        let registry = Registry::standard();
        let handle = match FuncHandle::new(&registry, "TYPPRICE") {
            Ok(h) => h,
            Err(_) => {
                proof {
                    assert(false);
                }
                return Err(TaError::Misc("Error calling func".to_owned()));
            },
        };
        proof {
            let (g, i): (int, int) = choose|g: int, i: int|
                0 <= g < registry.groups@.len() && 0 <= i < registry.groups@[g].funcs@.len()
                    && eq_def(#[trigger] registry.groups@[g].funcs@[i], handle.def);
            assert(registry.groups@[g].funcs@[i].name@ == "TYPPRICE"@);
            assert(is_typprice_def(registry.groups@[g].funcs@[i]));
            assert(is_typprice_def(handle.def));
        }
        let mut params = match ParamHolder::try_from(handle) {
            Ok(p) => p,
            Err(_) => {
                proof {
                    assert(false);
                }
                return Err(TaError::Misc("Error calling func".to_owned()));
            },
        };
        let bundle = Ohlc {
            open: None,
            low: Some(vstd::slice::slice_to_vec(data.low())),
            high: Some(vstd::slice::slice_to_vec(data.high())),
            close: Some(vstd::slice::slice_to_vec(data.close())),
            volume: None,
            openinterest: None,
        };
        match params.set_input(0, InputParam::Ohlc(bundle)) {
            Ok(_) => (),
            Err(_) => {
                proof {
                    assert(false);
                }
                return Err(TaError::Misc("Error calling func".to_owned()));
            },
        }
        let len = data.length();
        if len > i32::MAX as usize {
            return Err(TaError::Misc("Error calling func".to_owned()));
        }
        let input_len = len as i32;
        let output_size = match params.required_output_size(0, input_len) {
            Some(n) => n,
            None => {
                proof {
                    assert(false);
                }
                return Err(TaError::Misc("Failed to get required size".to_owned()));
            },
        };
        if len == 0 {
            return Err(TaError::Misc("Error calling func".to_owned()));
        }
        let end_idx = (len - 1) as i32;
        let buf: Vec<Fixed> = vec![Fixed::from_scaled(0); output_size];
        match params.set_output(0, OutputParam::Real(buf)) {
            Ok(_) => (),
            Err(_) => {
                proof {
                    assert(false);
                }
                return Err(TaError::Misc("Error calling func".to_owned()));
            },
        }
        proof {
            crate::params::param_holder::lemma_required_size_monotone(0, 0, len - 1, len as int);
        }
        match params.call(0, end_idx) {
            Ok(_) => (),
            Err(e) => {
                return Err(e);
            },
        }
        match params.take_output(0) {
            Ok(OutputParam::Real(out)) => Ok(out),
            _ => {
                proof {
                    assert(false);
                }
                Err(TaError::Misc("Error calling func".to_owned()))
            },
        }
    }
}

} // verus!
