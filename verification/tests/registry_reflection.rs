use rustta::func_handle::FuncHandle;
use rustta::func_info::FuncInfo;
use rustta::func_table::FuncTable;
use rustta::group_table::GroupTable;
use rustta::fixed::Fixed;
use rustta::flags::{InputFlags, OptInputFlags, OutputFlags};
use rustta::meta::Meta;
use rustta::params::input::{Input, InputType};
use rustta::params::opt_input::{OptInput, OptInputType};
use rustta::params::output::{Output, OutputType};
use rustta::registry::Registry;
use rustta::types::TaError;

#[test]
fn test_handle() {
    let registry = Registry::standard();
    assert!(FuncHandle::new(&registry, "MEDPRICE").is_ok());

    assert_eq!(
        FuncHandle::new(&registry, "Invalid").unwrap_err(),
        TaError::FuncNotFound(String::from("Invalid"))
    );
}

#[test]
fn func_handle_test_from_str() {
    let registry = Registry::standard();
    assert!(FuncHandle::new(&registry, "MEDPRICE").is_ok());

    assert_eq!(
        FuncHandle::new(&registry, "Invalid").unwrap_err(),
        TaError::FuncNotFound(String::from("Invalid"))
    );
}

#[test]
fn test_func_info() {
    let registry = Registry::standard();
    let handle = FuncHandle::new(&registry, "BBANDS").unwrap();
    let info = FuncInfo::try_from(handle).unwrap();

    assert_eq!(info.name(), "BBANDS");
    assert_eq!(info.camel_case_name(), "Bbands");
    assert_eq!(info.hint(), "Bollinger Bands");
    assert_eq!(info.group(), "Overlap Studies");

    let inputs = info.inputs();
    assert_eq!(inputs.len(), 1);
    assert_eq!(
        inputs[0],
        Input::new(
            String::from("inReal"),
            0,
            InputType::Real,
            InputFlags::empty()
        )
    );

    let params = info.params();
    assert_eq!(params.len(), 4);
    assert_eq!(
        params[0],
        OptInput::new(
            String::from("optInTimePeriod"),
            0,
            OptInputType::Integer,
            String::from("Time Period"),
            Fixed::from_int(5),
            String::from("Number of period"),
            OptInputFlags::empty()
        )
    );

    let outputs = info.outputs();
    assert_eq!(outputs.len(), 3);
    assert_eq!(
        outputs[0],
        Output::new(
            String::from("outRealUpperBand"),
            0,
            OutputType::Real,
            OutputFlags::upper_limit()
        )
    );
}

#[test]
fn func_table_test_from_str() {
    let registry = Registry::standard();
    let func_table = FuncTable::new(&registry, "Math Operators");
    assert!(func_table.is_ok());

    let func_table = FuncTable::new(&registry, "Some group");
    assert!(func_table.is_err());
}

#[test]
fn test_func_iter() {
    let registry = Registry::standard();
    let func_table = FuncTable::new(&registry, "Math Operators").unwrap();
    let names = func_table.iter();

    assert_eq!(names[0], "ADD");
    assert_eq!(names[1], "DIV");
}

#[test]
fn group_table_lists_every_group() {
    let registry = Registry::standard();
    let group_table = GroupTable::new(&registry).unwrap();
    let names = group_table.iter();

    assert_eq!(
        names,
        &vec![
            String::from("Math Operators"),
            String::from("Overlap Studies"),
            String::from("Price Transform"),
        ]
    );
}

#[test]
fn test_meta() {
    let registry = Registry::standard();
    let meta = Meta::new(&registry).unwrap();

    for group in meta.data.iter() {
        for indicator in group.funcs.iter() {
            println!("{:#?}", indicator);
        }
    }
}

// Every recovered descriptor array is exactly as long as its definition
// declares: never short, never padded.
#[test]
fn catalog_counts_match_declared_counts() {
    let registry = Registry::standard();
    let meta = Meta::new(&registry).unwrap();

    let mut seen: usize = 0;
    for group in meta.data.iter() {
        for info in group.funcs.iter() {
            assert_eq!(info.params().len(), info.handle.def.nb_opt_input);
            assert_eq!(info.inputs().len(), info.handle.def.nb_input);
            assert_eq!(info.outputs().len(), info.handle.def.nb_output);
            seen += 1;
        }
    }
    assert_eq!(seen, 6);
}

// A registry with zero groups yields an empty catalog, not an error.
#[test]
fn empty_registry_yields_empty_catalog() {
    let registry = Registry::empty();
    let meta = Meta::new(&registry).unwrap();
    assert_eq!(meta.data.len(), 0);
}

// An incompletely described function aborts the walk: no partial catalog.
#[test]
fn short_descriptor_rows_abort_the_walk() {
    let mut registry = Registry::standard();
    // Claim one more optional parameter than there are rows.
    registry.groups[1].funcs[1].nb_opt_input = 2;
    assert_eq!(Meta::new(&registry).unwrap_err(), TaError::BadParam);
}

#[test]
fn error_messages_read_as_expected() {
    assert_eq!(TaError::BadAllocation.message(), "Bad allocation");
    assert_eq!(TaError::BadParam.message(), "Bad param");
    assert_eq!(
        TaError::FuncNotFound(String::from("X")).message(),
        "Function with name X not found"
    );
    assert_eq!(
        TaError::Misc(String::from("boom")).message(),
        "Misc error: boom"
    );
}

#[test]
fn flags_contain_their_parts() {
    let hl = InputFlags::high().union(InputFlags::low());
    assert!(hl.contains(InputFlags::high()));
    assert!(hl.contains(InputFlags::low()));
    assert!(!hl.contains(InputFlags::close()));
    assert!(hl.contains(InputFlags::empty()));
    assert_eq!(OutputFlags::upper_limit().bits, 0x800);
    assert_eq!(OptInputFlags::percent().bits, 0x100000);
}
