//! The function registry: the data the reflection interface exposes.
//!
//! A [`Registry`] holds groups of [`FuncDef`]s. Each definition carries the
//! function's identifying strings, its computation kind, its declared
//! parameter/input/output counts and the descriptor rows behind them. The
//! declared counts and the rows are separate on purpose: the reflection walk
//! reads rows by index up to the declared count and must surface an error —
//! never a short or padded catalog — when a row is missing.

use vstd::prelude::*;
use vstd::string::StringExecFns;

use crate::fixed::{Fixed, SCALE};
use crate::flags::{InputFlags, OptInputFlags, OutputFlags};
use crate::params::input::{Input, InputType};
use crate::params::opt_input::{OptInput, OptInputType};
use crate::params::output::{Output, OutputType};

verus! {

/// The computation a function definition designates.
#[derive(Debug, Copy, Clone, PartialEq, Eq, Structural, Hash)]
pub enum FuncKind {
    /// Elementwise sum of two real series.
    Add,
    /// Elementwise quotient of two real series.
    Div,
    /// Simple moving average over a configurable period.
    Sma,
    /// Moving average with bands one deviation measure above and below.
    Bbands,
    /// Elementwise mean of the high and low components.
    MedPrice,
    /// Elementwise mean of the high, low and close components.
    TypPrice,
}

/// One function of the registry.
#[derive(Debug, Clone, PartialEq)]
pub struct FuncDef {
    pub name: String,
    pub camel_case_name: String,
    pub hint: String,
    pub group: String,
    pub kind: FuncKind,
    /// Declared optional-parameter count (`nbOptInput`).
    pub nb_opt_input: usize,
    /// Declared input count (`nbInput`).
    pub nb_input: usize,
    /// Declared output count (`nbOutput`).
    pub nb_output: usize,
    pub opt_input_rows: Vec<OptInput>,
    pub input_rows: Vec<Input>,
    pub output_rows: Vec<Output>,
}

/// One named group of functions.
#[derive(Debug, Clone, PartialEq)]
pub struct GroupDef {
    pub name: String,
    pub funcs: Vec<FuncDef>,
}

/// The whole registry the reflection interface walks.
#[derive(Debug, Clone, PartialEq)]
pub struct Registry {
    pub groups: Vec<GroupDef>,
}

/// Whether two function definitions carry the same content, row for row.
pub open spec fn eq_def(a: FuncDef, b: FuncDef) -> bool {
    a.name == b.name && a.camel_case_name == b.camel_case_name && a.hint == b.hint && a.group
        == b.group && a.kind == b.kind && a.nb_opt_input == b.nb_opt_input && a.nb_input
        == b.nb_input && a.nb_output == b.nb_output && a.opt_input_rows@ == b.opt_input_rows@
        && a.input_rows@ == b.input_rows@ && a.output_rows@ == b.output_rows@
}

/// Whether `d` carries the content of one of the registry's function
/// definitions.
pub open spec fn reg_contains(reg: Registry, d: FuncDef) -> bool {
    exists|g: int, i: int|
        0 <= g < reg.groups@.len() && 0 <= i < reg.groups@[g].funcs@.len() && eq_def(
            #[trigger] reg.groups@[g].funcs@[i],
            d,
        )
}

/// Whether some function of the registry bears `name`.
pub open spec fn reg_has_name(reg: Registry, name: Seq<char>) -> bool {
    exists|g: int, i: int|
        0 <= g < reg.groups@.len() && 0 <= i < reg.groups@[g].funcs@.len()
            && #[trigger] reg.groups@[g].funcs@[i].name@ == name
}

/// Whether every descriptor row the declared counts announce is present, so
/// that the reflection walk can expand `d` in full.
pub open spec fn describable(d: FuncDef) -> bool {
    d.nb_opt_input <= d.opt_input_rows@.len() && d.nb_input <= d.input_rows@.len()
        && d.nb_output <= d.output_rows@.len()
}


/// The shape of the vector-addition definition.
pub open spec fn is_add_def(d: FuncDef) -> bool {
    &&& d.kind == FuncKind::Add
    &&& d.nb_opt_input == 0
    &&& d.nb_input == 2
    &&& d.nb_output == 1
    &&& d.opt_input_rows@.len() == 0
    &&& d.input_rows@.len() == 2
    &&& d.output_rows@.len() == 1
    &&& d.input_rows@[0].param_type == InputType::Real
    &&& d.input_rows@[1].param_type == InputType::Real
    &&& d.output_rows@[0].param_type == OutputType::Real
}

/// The shape of the vector-division definition.
pub open spec fn is_div_def(d: FuncDef) -> bool {
    &&& d.kind == FuncKind::Div
    &&& d.nb_opt_input == 0
    &&& d.nb_input == 2
    &&& d.nb_output == 1
    &&& d.opt_input_rows@.len() == 0
    &&& d.input_rows@.len() == 2
    &&& d.output_rows@.len() == 1
    &&& d.input_rows@[0].param_type == InputType::Real
    &&& d.input_rows@[1].param_type == InputType::Real
    &&& d.output_rows@[0].param_type == OutputType::Real
}

/// The shape of the moving-average definition: one integer period
/// defaulting to thirty whole units.
pub open spec fn is_sma_def(d: FuncDef) -> bool {
    &&& d.kind == FuncKind::Sma
    &&& d.nb_opt_input == 1
    &&& d.nb_input == 1
    &&& d.nb_output == 1
    &&& d.opt_input_rows@.len() == 1
    &&& d.input_rows@.len() == 1
    &&& d.output_rows@.len() == 1
    &&& d.opt_input_rows@[0].param_type == OptInputType::Integer
    &&& d.opt_input_rows@[0].default.units == 30 * (SCALE as int)
    &&& d.input_rows@[0].param_type == InputType::Real
    &&& d.output_rows@[0].param_type == OutputType::Real
}

/// The shape of the band definition: an integer period defaulting to five,
/// two real deviation multipliers defaulting to two, and an integer
/// moving-average selector defaulting to zero.
pub open spec fn is_bbands_def(d: FuncDef) -> bool {
    &&& d.kind == FuncKind::Bbands
    &&& d.nb_opt_input == 4
    &&& d.nb_input == 1
    &&& d.nb_output == 3
    &&& d.opt_input_rows@.len() == 4
    &&& d.input_rows@.len() == 1
    &&& d.output_rows@.len() == 3
    &&& d.opt_input_rows@[0].param_type == OptInputType::Integer
    &&& d.opt_input_rows@[0].default.units == 5 * (SCALE as int)
    &&& d.opt_input_rows@[1].param_type == OptInputType::Real
    &&& d.opt_input_rows@[1].default.units == 2 * (SCALE as int)
    &&& d.opt_input_rows@[2].param_type == OptInputType::Real
    &&& d.opt_input_rows@[2].default.units == 2 * (SCALE as int)
    &&& d.opt_input_rows@[3].param_type == OptInputType::Integer
    &&& d.opt_input_rows@[3].default.units == 0
    &&& d.input_rows@[0].param_type == InputType::Real
    &&& d.output_rows@[0].param_type == OutputType::Real
    &&& d.output_rows@[1].param_type == OutputType::Real
    &&& d.output_rows@[2].param_type == OutputType::Real
}

/// The shape of the median-price definition: one price input, no options.
pub open spec fn is_medprice_def(d: FuncDef) -> bool {
    &&& d.kind == FuncKind::MedPrice
    &&& d.nb_opt_input == 0
    &&& d.nb_input == 1
    &&& d.nb_output == 1
    &&& d.opt_input_rows@.len() == 0
    &&& d.input_rows@.len() == 1
    &&& d.output_rows@.len() == 1
    &&& d.input_rows@[0].param_type == InputType::Price
    &&& d.output_rows@[0].param_type == OutputType::Real
}

/// The shape of the typical-price definition: one price input, no options.
pub open spec fn is_typprice_def(d: FuncDef) -> bool {
    &&& d.kind == FuncKind::TypPrice
    &&& d.nb_opt_input == 0
    &&& d.nb_input == 1
    &&& d.nb_output == 1
    &&& d.opt_input_rows@.len() == 0
    &&& d.input_rows@.len() == 1
    &&& d.output_rows@.len() == 1
    &&& d.input_rows@[0].param_type == InputType::Price
    &&& d.output_rows@[0].param_type == OutputType::Real
}

fn add_def() -> (d: FuncDef)
    ensures
        is_add_def(d),
        d.name@ == "ADD"@,
{
    let mut input_rows: Vec<Input> = Vec::new();
    input_rows.push(
        Input::new("inReal0".to_owned(), 0, InputType::Real, InputFlags::empty()),
    );
    input_rows.push(
        Input::new("inReal1".to_owned(), 1, InputType::Real, InputFlags::empty()),
    );
    let mut output_rows: Vec<Output> = Vec::new();
    output_rows.push(
        Output::new("outReal".to_owned(), 0, OutputType::Real, OutputFlags::line()),
    );
    FuncDef {
        name: "ADD".to_owned(),
        camel_case_name: "Add".to_owned(),
        hint: "Vector Arithmetic Add".to_owned(),
        group: "Math Operators".to_owned(),
        kind: FuncKind::Add,
        nb_opt_input: 0,
        nb_input: 2,
        nb_output: 1,
        opt_input_rows: Vec::new(),
        input_rows,
        output_rows,
    }
}

fn div_def() -> (d: FuncDef)
    ensures
        is_div_def(d),
        d.name@ == "DIV"@,
{
    let mut input_rows: Vec<Input> = Vec::new();
    input_rows.push(
        Input::new("inReal0".to_owned(), 0, InputType::Real, InputFlags::empty()),
    );
    input_rows.push(
        Input::new("inReal1".to_owned(), 1, InputType::Real, InputFlags::empty()),
    );
    let mut output_rows: Vec<Output> = Vec::new();
    output_rows.push(
        Output::new("outReal".to_owned(), 0, OutputType::Real, OutputFlags::line()),
    );
    FuncDef {
        name: "DIV".to_owned(),
        camel_case_name: "Div".to_owned(),
        hint: "Vector Arithmetic Div".to_owned(),
        group: "Math Operators".to_owned(),
        kind: FuncKind::Div,
        nb_opt_input: 0,
        nb_input: 2,
        nb_output: 1,
        opt_input_rows: Vec::new(),
        input_rows,
        output_rows,
    }
}

fn bbands_def() -> (d: FuncDef)
    ensures
        is_bbands_def(d),
        d.name@ == "BBANDS"@,
{
    let mut opt_input_rows: Vec<OptInput> = Vec::new();
    opt_input_rows.push(
        OptInput::new(
            "optInTimePeriod".to_owned(),
            0,
            OptInputType::Integer,
            "Time Period".to_owned(),
            Fixed::from_int(5),
            "Number of period".to_owned(),
            OptInputFlags::empty(),
        ),
    );
    opt_input_rows.push(
        OptInput::new(
            "optInNbDevUp".to_owned(),
            1,
            OptInputType::Real,
            "Deviations up".to_owned(),
            Fixed::from_int(2),
            "Deviation multiplier for upper band".to_owned(),
            OptInputFlags::empty(),
        ),
    );
    opt_input_rows.push(
        OptInput::new(
            "optInNbDevDn".to_owned(),
            2,
            OptInputType::Real,
            "Deviations down".to_owned(),
            Fixed::from_int(2),
            "Deviation multiplier for lower band".to_owned(),
            OptInputFlags::empty(),
        ),
    );
    opt_input_rows.push(
        OptInput::new(
            "optInMAType".to_owned(),
            3,
            OptInputType::Integer,
            "MA Type".to_owned(),
            Fixed::from_int(0),
            "Type of Moving Average".to_owned(),
            OptInputFlags::empty(),
        ),
    );
    let mut input_rows: Vec<Input> = Vec::new();
    input_rows.push(Input::new("inReal".to_owned(), 0, InputType::Real, InputFlags::empty()));
    let mut output_rows: Vec<Output> = Vec::new();
    output_rows.push(
        Output::new(
            "outRealUpperBand".to_owned(),
            0,
            OutputType::Real,
            OutputFlags::upper_limit(),
        ),
    );
    output_rows.push(
        Output::new("outRealMiddleBand".to_owned(), 1, OutputType::Real, OutputFlags::line()),
    );
    output_rows.push(
        Output::new(
            "outRealLowerBand".to_owned(),
            2,
            OutputType::Real,
            OutputFlags::lower_limit(),
        ),
    );
    FuncDef {
        name: "BBANDS".to_owned(),
        camel_case_name: "Bbands".to_owned(),
        hint: "Bollinger Bands".to_owned(),
        group: "Overlap Studies".to_owned(),
        kind: FuncKind::Bbands,
        nb_opt_input: 4,
        nb_input: 1,
        nb_output: 3,
        opt_input_rows,
        input_rows,
        output_rows,
    }
}

fn sma_def() -> (d: FuncDef)
    ensures
        is_sma_def(d),
        d.name@ == "SMA"@,
{
    let mut opt_input_rows: Vec<OptInput> = Vec::new();
    opt_input_rows.push(
        OptInput::new(
            "optInTimePeriod".to_owned(),
            0,
            OptInputType::Integer,
            "Time Period".to_owned(),
            Fixed::from_int(30),
            "Number of period".to_owned(),
            OptInputFlags::empty(),
        ),
    );
    let mut input_rows: Vec<Input> = Vec::new();
    input_rows.push(Input::new("inReal".to_owned(), 0, InputType::Real, InputFlags::empty()));
    let mut output_rows: Vec<Output> = Vec::new();
    output_rows.push(
        Output::new("outReal".to_owned(), 0, OutputType::Real, OutputFlags::line()),
    );
    FuncDef {
        name: "SMA".to_owned(),
        camel_case_name: "Sma".to_owned(),
        hint: "Simple Moving Average".to_owned(),
        group: "Overlap Studies".to_owned(),
        kind: FuncKind::Sma,
        nb_opt_input: 1,
        nb_input: 1,
        nb_output: 1,
        opt_input_rows,
        input_rows,
        output_rows,
    }
}

fn medprice_def() -> (d: FuncDef)
    ensures
        is_medprice_def(d),
        d.name@ == "MEDPRICE"@,
{
    let mut input_rows: Vec<Input> = Vec::new();
    input_rows.push(
        Input::new(
            "inPriceHL".to_owned(),
            0,
            InputType::Price,
            InputFlags::high().union(InputFlags::low()),
        ),
    );
    let mut output_rows: Vec<Output> = Vec::new();
    output_rows.push(
        Output::new("outReal".to_owned(), 0, OutputType::Real, OutputFlags::line()),
    );
    FuncDef {
        name: "MEDPRICE".to_owned(),
        camel_case_name: "MedPrice".to_owned(),
        hint: "Median Price".to_owned(),
        group: "Price Transform".to_owned(),
        kind: FuncKind::MedPrice,
        nb_opt_input: 0,
        nb_input: 1,
        nb_output: 1,
        opt_input_rows: Vec::new(),
        input_rows,
        output_rows,
    }
}

fn typprice_def() -> (d: FuncDef)
    ensures
        is_typprice_def(d),
        d.name@ == "TYPPRICE"@,
{
    let mut input_rows: Vec<Input> = Vec::new();
    input_rows.push(
        Input::new(
            "inPriceHLC".to_owned(),
            0,
            InputType::Price,
            InputFlags::high().union(InputFlags::low()).union(InputFlags::close()),
        ),
    );
    let mut output_rows: Vec<Output> = Vec::new();
    output_rows.push(
        Output::new("outReal".to_owned(), 0, OutputType::Real, OutputFlags::line()),
    );
    FuncDef {
        name: "TYPPRICE".to_owned(),
        camel_case_name: "TypPrice".to_owned(),
        hint: "Typical Price".to_owned(),
        group: "Price Transform".to_owned(),
        kind: FuncKind::TypPrice,
        nb_opt_input: 0,
        nb_input: 1,
        nb_output: 1,
        opt_input_rows: Vec::new(),
        input_rows,
        output_rows,
    }
}

impl Registry {

    /// The built-in registry: the function groups the library ships with.
    /// Every definition is fully described — the reflection walk over this
    /// registry always succeeds — and every function name resolves to a
    /// definition of the shape its entry points rely on.
    pub fn standard() -> (r: Registry)
        ensures
            reg_has_name(r, "ADD"@),
            reg_has_name(r, "DIV"@),
            reg_has_name(r, "BBANDS"@),
            reg_has_name(r, "SMA"@),
            reg_has_name(r, "MEDPRICE"@),
            reg_has_name(r, "TYPPRICE"@),
            forall|g: int, i: int|
                0 <= g < r.groups@.len() && 0 <= i < r.groups@[g].funcs@.len() ==> describable(
                    #[trigger] r.groups@[g].funcs@[i],
                ),
            forall|g: int, i: int|
                0 <= g < r.groups@.len() && 0 <= i < r.groups@[g].funcs@.len() && (
                #[trigger] r.groups@[g].funcs@[i]).name@ == "ADD"@ ==> is_add_def(
                    r.groups@[g].funcs@[i],
                ),
            forall|g: int, i: int|
                0 <= g < r.groups@.len() && 0 <= i < r.groups@[g].funcs@.len() && (
                #[trigger] r.groups@[g].funcs@[i]).name@ == "DIV"@ ==> is_div_def(
                    r.groups@[g].funcs@[i],
                ),
            forall|g: int, i: int|
                0 <= g < r.groups@.len() && 0 <= i < r.groups@[g].funcs@.len() && (
                #[trigger] r.groups@[g].funcs@[i]).name@ == "BBANDS"@ ==> is_bbands_def(
                    r.groups@[g].funcs@[i],
                ),
            forall|g: int, i: int|
                0 <= g < r.groups@.len() && 0 <= i < r.groups@[g].funcs@.len() && (
                #[trigger] r.groups@[g].funcs@[i]).name@ == "SMA"@ ==> is_sma_def(
                    r.groups@[g].funcs@[i],
                ),
            forall|g: int, i: int|
                0 <= g < r.groups@.len() && 0 <= i < r.groups@[g].funcs@.len() && (
                #[trigger] r.groups@[g].funcs@[i]).name@ == "MEDPRICE"@ ==> is_medprice_def(
                    r.groups@[g].funcs@[i],
                ),
            forall|g: int, i: int|
                0 <= g < r.groups@.len() && 0 <= i < r.groups@[g].funcs@.len() && (
                #[trigger] r.groups@[g].funcs@[i]).name@ == "TYPPRICE"@ ==> is_typprice_def(
                    r.groups@[g].funcs@[i],
                ),
    {
        proof {
            reveal_strlit("ADD");
            reveal_strlit("DIV");
            reveal_strlit("BBANDS");
            reveal_strlit("SMA");
            reveal_strlit("MEDPRICE");
            reveal_strlit("TYPPRICE");
        }
        let mut math_operators: Vec<FuncDef> = Vec::new();
        math_operators.push(add_def());
        math_operators.push(div_def());
        let mut overlap_studies: Vec<FuncDef> = Vec::new();
        overlap_studies.push(bbands_def());
        overlap_studies.push(sma_def());
        let mut price_transform: Vec<FuncDef> = Vec::new();
        price_transform.push(medprice_def());
        price_transform.push(typprice_def());
        let mut groups: Vec<GroupDef> = Vec::new();
        groups.push(GroupDef { name: "Math Operators".to_owned(), funcs: math_operators });
        groups.push(GroupDef { name: "Overlap Studies".to_owned(), funcs: overlap_studies });
        groups.push(GroupDef { name: "Price Transform".to_owned(), funcs: price_transform });
        let r = Registry { groups };
        proof {
            assert(r.groups@[0].funcs@[0].name@ == "ADD"@);
            assert(r.groups@[0].funcs@[1].name@ == "DIV"@);
            assert(r.groups@[1].funcs@[0].name@ == "BBANDS"@);
            assert(r.groups@[1].funcs@[1].name@ == "SMA"@);
            assert(r.groups@[2].funcs@[0].name@ == "MEDPRICE"@);
            assert(r.groups@[2].funcs@[1].name@ == "TYPPRICE"@);
            assert(r.groups@.len() == 3);
            assert(forall|g: int|
                0 <= g < 3 ==> #[trigger] r.groups@[g].funcs@.len() == 2);
            assert("ADD"@ != "DIV"@) by {
                assert("ADD"@[0] == 'A');
                assert("DIV"@[0] == 'D');
            }
            assert("ADD"@ != "SMA"@) by {
                assert("ADD"@[0] == 'A');
                assert("SMA"@[0] == 'S');
            }
            assert("ADD"@ != "BBANDS"@) by {
                assert("ADD"@.len() == 3);
                assert("BBANDS"@.len() == 6);
            }
            assert("ADD"@ != "MEDPRICE"@) by {
                assert("ADD"@.len() == 3);
                assert("MEDPRICE"@.len() == 8);
            }
            assert("ADD"@ != "TYPPRICE"@) by {
                assert("ADD"@.len() == 3);
                assert("TYPPRICE"@.len() == 8);
            }
            assert("DIV"@ != "SMA"@) by {
                assert("DIV"@[0] == 'D');
                assert("SMA"@[0] == 'S');
            }
            assert("DIV"@ != "BBANDS"@) by {
                assert("DIV"@.len() == 3);
                assert("BBANDS"@.len() == 6);
            }
            assert("DIV"@ != "MEDPRICE"@) by {
                assert("DIV"@.len() == 3);
                assert("MEDPRICE"@.len() == 8);
            }
            assert("DIV"@ != "TYPPRICE"@) by {
                assert("DIV"@.len() == 3);
                assert("TYPPRICE"@.len() == 8);
            }
            assert("SMA"@ != "BBANDS"@) by {
                assert("SMA"@.len() == 3);
                assert("BBANDS"@.len() == 6);
            }
            assert("SMA"@ != "MEDPRICE"@) by {
                assert("SMA"@.len() == 3);
                assert("MEDPRICE"@.len() == 8);
            }
            assert("SMA"@ != "TYPPRICE"@) by {
                assert("SMA"@.len() == 3);
                assert("TYPPRICE"@.len() == 8);
            }
            assert("BBANDS"@ != "MEDPRICE"@) by {
                assert("BBANDS"@.len() == 6);
                assert("MEDPRICE"@.len() == 8);
            }
            assert("BBANDS"@ != "TYPPRICE"@) by {
                assert("BBANDS"@.len() == 6);
                assert("TYPPRICE"@.len() == 8);
            }
            assert("MEDPRICE"@ != "TYPPRICE"@) by {
                assert("MEDPRICE"@[0] == 'M');
                assert("TYPPRICE"@[0] == 'T');
            }
            assert(forall|g: int, i: int|
                0 <= g < r.groups@.len() && 0 <= i < r.groups@[g].funcs@.len() && (
                #[trigger] r.groups@[g].funcs@[i]).name@ == "ADD"@ ==> is_add_def(
                    r.groups@[g].funcs@[i],
                ));
            assert(forall|g: int, i: int|
                0 <= g < r.groups@.len() && 0 <= i < r.groups@[g].funcs@.len() && (
                #[trigger] r.groups@[g].funcs@[i]).name@ == "DIV"@ ==> is_div_def(
                    r.groups@[g].funcs@[i],
                ));
            assert(forall|g: int, i: int|
                0 <= g < r.groups@.len() && 0 <= i < r.groups@[g].funcs@.len() && (
                #[trigger] r.groups@[g].funcs@[i]).name@ == "BBANDS"@ ==> is_bbands_def(
                    r.groups@[g].funcs@[i],
                ));
            assert(forall|g: int, i: int|
                0 <= g < r.groups@.len() && 0 <= i < r.groups@[g].funcs@.len() && (
                #[trigger] r.groups@[g].funcs@[i]).name@ == "SMA"@ ==> is_sma_def(
                    r.groups@[g].funcs@[i],
                ));
            assert(forall|g: int, i: int|
                0 <= g < r.groups@.len() && 0 <= i < r.groups@[g].funcs@.len() && (
                #[trigger] r.groups@[g].funcs@[i]).name@ == "MEDPRICE"@ ==> is_medprice_def(
                    r.groups@[g].funcs@[i],
                ));
            assert(forall|g: int, i: int|
                0 <= g < r.groups@.len() && 0 <= i < r.groups@[g].funcs@.len() && (
                #[trigger] r.groups@[g].funcs@[i]).name@ == "TYPPRICE"@ ==> is_typprice_def(
                    r.groups@[g].funcs@[i],
                ));
        }
        r
    }

    /// A registry with no groups at all.
    pub fn empty() -> (r: Registry)
        ensures
            r.groups@.len() == 0,
    {
        Registry { groups: Vec::new() }
    }
}

/// An exact copy of an input descriptor.
pub(crate) fn dup_input(x: &Input) -> (r: Input)
    ensures
        r == *x,
{
    Input { name: x.name.clone(), position: x.position, param_type: x.param_type, flags: x.flags }
}

/// An exact copy of an optional-parameter descriptor.
pub(crate) fn dup_opt_input(x: &OptInput) -> (r: OptInput)
    ensures
        r == *x,
{
    OptInput {
        name: x.name.clone(),
        position: x.position,
        param_type: x.param_type,
        display_name: x.display_name.clone(),
        default: x.default,
        hint: x.hint.clone(),
        flags: x.flags,
    }
}

/// An exact copy of an output descriptor.
pub(crate) fn dup_output(x: &Output) -> (r: Output)
    ensures
        r == *x,
{
    Output { name: x.name.clone(), position: x.position, param_type: x.param_type, flags: x.flags }
}

/// An exact copy of a vector of input descriptors.
pub(crate) fn dup_inputs(v: &Vec<Input>) -> (r: Vec<Input>)
    ensures
        r@ == v@,
{
    let mut r: Vec<Input> = Vec::new();
    let n = v.len();
    for i in 0..n
        invariant
            n == v@.len(),
            r@ =~= v@.subrange(0, i as int),
    {
        r.push(dup_input(&v[i]));
    }
    proof {
        assert(r@ =~= v@);
    }
    r
}

/// An exact copy of a vector of optional-parameter descriptors.
pub(crate) fn dup_opt_inputs(v: &Vec<OptInput>) -> (r: Vec<OptInput>)
    ensures
        r@ == v@,
{
    let mut r: Vec<OptInput> = Vec::new();
    let n = v.len();
    for i in 0..n
        invariant
            n == v@.len(),
            r@ =~= v@.subrange(0, i as int),
    {
        r.push(dup_opt_input(&v[i]));
    }
    proof {
        assert(r@ =~= v@);
    }
    r
}

/// An exact copy of a vector of output descriptors.
pub(crate) fn dup_outputs(v: &Vec<Output>) -> (r: Vec<Output>)
    ensures
        r@ == v@,
{
    let mut r: Vec<Output> = Vec::new();
    let n = v.len();
    for i in 0..n
        invariant
            n == v@.len(),
            r@ =~= v@.subrange(0, i as int),
    {
        r.push(dup_output(&v[i]));
    }
    proof {
        assert(r@ =~= v@);
    }
    r
}

/// An exact copy of a function definition.
pub(crate) fn dup_func_def(d: &FuncDef) -> (r: FuncDef)
    ensures
        eq_def(r, *d),
{
    FuncDef {
        name: d.name.clone(),
        camel_case_name: d.camel_case_name.clone(),
        hint: d.hint.clone(),
        group: d.group.clone(),
        kind: d.kind,
        nb_opt_input: d.nb_opt_input,
        nb_input: d.nb_input,
        nb_output: d.nb_output,
        opt_input_rows: dup_opt_inputs(&d.opt_input_rows),
        input_rows: dup_inputs(&d.input_rows),
        output_rows: dup_outputs(&d.output_rows),
    }
}

} // verus!
