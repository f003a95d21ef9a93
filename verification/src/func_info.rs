//! Expansion of a resolved handle into a full function descriptor.

use vstd::prelude::*;

use crate::func_handle::FuncHandle;
use crate::params::input::Input;
use crate::params::opt_input::OptInput;
use crate::params::output::Output;
use crate::registry::describable;
use crate::types::{TaError, TaResult};

verus! {

/// Everything the reflection interface reports about one function: its
/// identifying strings and the three descriptor arrays, recovered row by row
/// up to the declared counts.
#[derive(Debug)]
pub struct FuncInfo {
    pub handle: FuncHandle,
    pub name: String,
    pub camel_case_name: String,
    pub hint: String,
    pub group: String,
    pub params: Vec<OptInput>,
    pub inputs: Vec<Input>,
    pub outputs: Vec<Output>,
}

impl FuncInfo {
    pub fn name(&self) -> (r: &str)
        ensures
            r@ == self.name@,
    {
        self.name.as_str()
    }

    pub fn camel_case_name(&self) -> (r: &str)
        ensures
            r@ == self.camel_case_name@,
    {
        self.camel_case_name.as_str()
    }

    pub fn hint(&self) -> (r: &str)
        ensures
            r@ == self.hint@,
    {
        self.hint.as_str()
    }

    pub fn group(&self) -> (r: &str)
        ensures
            r@ == self.group@,
    {
        self.group.as_str()
    }

    pub fn params(&self) -> (r: &Vec<OptInput>)
        ensures
            *r == self.params,
    {
        &self.params
    }

    pub fn inputs(&self) -> (r: &Vec<Input>)
        ensures
            *r == self.inputs,
    {
        &self.inputs
    }

    pub fn outputs(&self) -> (r: &Vec<Output>)
        ensures
            *r == self.outputs,
    {
        &self.outputs
    }

    /// Expands a handle into a full descriptor. Each of the three arrays is
    /// read by index from `0` up to the count the definition declares, so on
    /// success every array's length equals its declared count — never short,
    /// never padded. A missing row aborts the expansion with an error; no
    /// partial descriptor is returned.
    pub fn try_from(handle: FuncHandle) -> (r: TaResult<FuncInfo>)
        ensures
            r.is_ok() == describable(handle.def),
            !describable(handle.def) ==> r == Err::<FuncInfo, TaError>(TaError::BadParam),
            r matches Ok(info) ==> {
                &&& info.handle == handle
                &&& info.name == handle.def.name
                &&& info.camel_case_name == handle.def.camel_case_name
                &&& info.hint == handle.def.hint
                &&& info.group == handle.def.group
                &&& info.params@.len() == handle.def.nb_opt_input
                &&& info.inputs@.len() == handle.def.nb_input
                &&& info.outputs@.len() == handle.def.nb_output
                &&& forall|i: int|
                    0 <= i < handle.def.nb_opt_input ==> #[trigger] info.params@[i] == (OptInput {
                        name: handle.def.opt_input_rows@[i].name,
                        position: i as usize,
                        param_type: handle.def.opt_input_rows@[i].param_type,
                        display_name: handle.def.opt_input_rows@[i].display_name,
                        default: handle.def.opt_input_rows@[i].default,
                        hint: handle.def.opt_input_rows@[i].hint,
                        flags: handle.def.opt_input_rows@[i].flags,
                    })
                &&& forall|i: int|
                    0 <= i < handle.def.nb_input ==> #[trigger] info.inputs@[i] == (Input {
                        name: handle.def.input_rows@[i].name,
                        position: i as usize,
                        param_type: handle.def.input_rows@[i].param_type,
                        flags: handle.def.input_rows@[i].flags,
                    })
                &&& forall|i: int|
                    0 <= i < handle.def.nb_output ==> #[trigger] info.outputs@[i] == (Output {
                        name: handle.def.output_rows@[i].name,
                        position: i as usize,
                        param_type: handle.def.output_rows@[i].param_type,
                        flags: handle.def.output_rows@[i].flags,
                    })
            },
    {
        let name = handle.def.name.clone();
        let camel_case_name = handle.def.camel_case_name.clone();
        let hint = handle.def.hint.clone();
        let group = handle.def.group.clone();

        let nb_params = handle.def.nb_opt_input;
        let mut params: Vec<OptInput> = Vec::new();
        for i in 0..nb_params
            invariant
                nb_params == handle.def.nb_opt_input,
                i == 0 || i <= handle.def.opt_input_rows@.len(),
                params@.len() == i,
                forall|j: int|
                    0 <= j < i ==> #[trigger] params@[j] == (OptInput {
                        name: handle.def.opt_input_rows@[j].name,
                        position: j as usize,
                        param_type: handle.def.opt_input_rows@[j].param_type,
                        display_name: handle.def.opt_input_rows@[j].display_name,
                        default: handle.def.opt_input_rows@[j].default,
                        hint: handle.def.opt_input_rows@[j].hint,
                        flags: handle.def.opt_input_rows@[j].flags,
                    }),
        {
            match OptInput::try_from(&handle, i) {
                Ok(p) => params.push(p),
                Err(e) => {
                    return Err(e);
                },
            }
        }

        let nb_inputs = handle.def.nb_input;
        let mut inputs: Vec<Input> = Vec::new();
        for i in 0..nb_inputs
            invariant
                nb_inputs == handle.def.nb_input,
                i == 0 || i <= handle.def.input_rows@.len(),
                nb_params <= handle.def.opt_input_rows@.len(),
                nb_params == handle.def.nb_opt_input,
                inputs@.len() == i,
                forall|j: int|
                    0 <= j < i ==> #[trigger] inputs@[j] == (Input {
                        name: handle.def.input_rows@[j].name,
                        position: j as usize,
                        param_type: handle.def.input_rows@[j].param_type,
                        flags: handle.def.input_rows@[j].flags,
                    }),
        {
            match Input::try_from(&handle, i) {
                Ok(p) => inputs.push(p),
                Err(e) => {
                    return Err(e);
                },
            }
        }

        let nb_outputs = handle.def.nb_output;
        let mut outputs: Vec<Output> = Vec::new();
        for i in 0..nb_outputs
            invariant
                nb_outputs == handle.def.nb_output,
                i == 0 || i <= handle.def.output_rows@.len(),
                nb_params <= handle.def.opt_input_rows@.len(),
                nb_params == handle.def.nb_opt_input,
                nb_inputs <= handle.def.input_rows@.len(),
                nb_inputs == handle.def.nb_input,
                outputs@.len() == i,
                forall|j: int|
                    0 <= j < i ==> #[trigger] outputs@[j] == (Output {
                        name: handle.def.output_rows@[j].name,
                        position: j as usize,
                        param_type: handle.def.output_rows@[j].param_type,
                        flags: handle.def.output_rows@[j].flags,
                    }),
        {
            match Output::try_from(&handle, i) {
                Ok(p) => outputs.push(p),
                Err(e) => {
                    return Err(e);
                },
            }
        }

        Ok(FuncInfo { handle, name, camel_case_name, hint, group, params, inputs, outputs })
    }
}

} // verus!
