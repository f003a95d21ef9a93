//! Descriptors of a function's optional scalar parameters.

use vstd::prelude::*;

use crate::fixed::Fixed;
use crate::flags::OptInputFlags;
use crate::func_handle::FuncHandle;
use crate::types::{TaError, TaResult};

verus! {

/// The scalar kind of one optional parameter.
#[derive(Debug, Copy, Clone, PartialEq, Eq, Structural, Hash)]
pub enum OptInputType {
    Real,
    Integer,
}

/// One optional parameter of a function: its name, its 0-based binding slot,
/// its scalar kind, its presentation strings and its documented default.
#[derive(Debug, Clone, PartialEq)]
pub struct OptInput {
    pub name: String,
    pub position: usize,
    pub param_type: OptInputType,
    pub display_name: String,
    pub default: Fixed,
    pub hint: String,
    pub flags: OptInputFlags,
}

impl OptInput {
    pub fn new(
        name: String,
        position: usize,
        param_type: OptInputType,
        display_name: String,
        default: Fixed,
        hint: String,
        flags: OptInputFlags,
    ) -> (r: Self)
        ensures
            r == (OptInput { name, position, param_type, display_name, default, hint, flags }),
    {
        Self { name, position, param_type, display_name, default, hint, flags }
    }

    pub fn name(&self) -> (r: &str)
        ensures
            r@ == self.name@,
    {
        self.name.as_str()
    }

    pub fn position(&self) -> (r: usize)
        ensures
            r == self.position,
    {
        self.position
    }

    pub fn param_type(&self) -> (r: OptInputType)
        ensures
            r == self.param_type,
    {
        self.param_type
    }

    pub fn display_name(&self) -> (r: &str)
        ensures
            r@ == self.display_name@,
    {
        self.display_name.as_str()
    }

    pub fn default(&self) -> (r: Fixed)
        ensures
            r == self.default,
    {
        self.default
    }

    pub fn hint(&self) -> (r: &str)
        ensures
            r@ == self.hint@,
    {
        self.hint.as_str()
    }

    pub fn flags(&self) -> (r: OptInputFlags)
        ensures
            r == self.flags,
    {
        self.flags
    }

    /// Reads the optional-parameter descriptor at `position` from the
    /// handle's function definition, as the reflection interface reports it.
    pub fn try_from(handle: &FuncHandle, position: usize) -> (r: TaResult<OptInput>)
        ensures
            position < handle.def.opt_input_rows@.len() ==> r == Ok::<OptInput, TaError>(
                OptInput {
                    name: handle.def.opt_input_rows@[position as int].name,
                    position,
                    param_type: handle.def.opt_input_rows@[position as int].param_type,
                    display_name: handle.def.opt_input_rows@[position as int].display_name,
                    default: handle.def.opt_input_rows@[position as int].default,
                    hint: handle.def.opt_input_rows@[position as int].hint,
                    flags: handle.def.opt_input_rows@[position as int].flags,
                },
            ),
            position >= handle.def.opt_input_rows@.len() ==> r == Err::<OptInput, TaError>(
                TaError::BadParam,
            ),
    {
        if position < handle.def.opt_input_rows.len() {
            let row = &handle.def.opt_input_rows[position];
            Ok(
                OptInput {
                    name: row.name.clone(),
                    position,
                    param_type: row.param_type,
                    display_name: row.display_name.clone(),
                    default: row.default,
                    hint: row.hint.clone(),
                    flags: row.flags,
                },
            )
        } else {
            Err(TaError::BadParam)
        }
    }
}

} // verus!
