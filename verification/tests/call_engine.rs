use rustta::fixed::Fixed;
use rustta::func_handle::FuncHandle;
use rustta::params::param_holder::{InputParam, OptInputParam, OutputParam, ParamHolder};
use rustta::registry::Registry;

fn reals(values: &[i64]) -> Vec<Fixed> {
    values.iter().map(|v| Fixed::from_int(*v)).collect()
}

fn zeroes(n: usize) -> Vec<Fixed> {
    vec![Fixed::from_scaled(0); n]
}

#[test]
fn test_from_handle() {
    let registry = Registry::standard();
    let handle = FuncHandle::new(&registry, "BBANDS").unwrap();
    let param_holder = ParamHolder::try_from(handle);

    assert!(param_holder.is_ok());
}

#[test]
fn test_can_set_input_param() {
    let registry = Registry::standard();
    let handle = FuncHandle::new(&registry, "BBANDS").unwrap();
    let mut param_holder = ParamHolder::try_from(handle).unwrap();
    let data = reals(&[1, 2, 3]);

    let result = param_holder.set_input(0, InputParam::Real(data));
    assert!(result.is_ok());

    // Cant set invalid param
    let data = reals(&[1, 2, 3]);
    let result = param_holder.set_input(1, InputParam::Real(data));
    assert!(result.is_err());
}

#[test]
fn test_can_set_opt_input_param() {
    let registry = Registry::standard();
    let handle = FuncHandle::new(&registry, "BBANDS").unwrap();
    let mut param_holder = ParamHolder::try_from(handle).unwrap();

    let result = param_holder.set_param(0, OptInputParam::Integer(1));
    assert!(result.is_ok());

    // Cant set invalid param
    let result = param_holder.set_param(10, OptInputParam::Integer(1));
    assert!(result.is_err());
}

#[test]
fn test_can_set_output_param() {
    let registry = Registry::standard();
    let handle = FuncHandle::new(&registry, "TYPPRICE").unwrap();
    let mut param_holder = ParamHolder::try_from(handle).unwrap();

    let result = param_holder.set_output(0, OutputParam::Real(zeroes(3)));
    assert!(result.is_ok());

    // Cant set invalid param
    let result = param_holder.set_output(1, OutputParam::Real(zeroes(3)));
    assert!(result.is_err());
}

#[test]
fn test_can_get_lookback() {
    let registry = Registry::standard();
    let handle = FuncHandle::new(&registry, "SMA").unwrap();
    let mut param_holder = ParamHolder::try_from(handle).unwrap();

    // Default period for SMA is 30, so look back is 30 - 1
    assert_eq!(param_holder.lookback().unwrap(), 29);

    param_holder.set_param(0, OptInputParam::Integer(5)).unwrap();
    assert_eq!(param_holder.lookback().unwrap(), 4);
}

#[test]
fn test_required_output_size() {
    let registry = Registry::standard();
    let handle = FuncHandle::new(&registry, "SMA").unwrap();
    let param_holder = ParamHolder::try_from(handle).unwrap();

    // Default SMA period is 30
    // Assuming 100 bars
    assert_eq!(param_holder.required_output_size(0, 99).unwrap(), 71);
}

// The required size never shrinks as the end index grows, and is zero for
// a range that ends before the effective start.
#[test]
fn required_output_size_tracks_the_end_index() {
    let registry = Registry::standard();
    let handle = FuncHandle::new(&registry, "SMA").unwrap();
    let mut ph = ParamHolder::try_from(handle).unwrap();
    ph.set_param(0, OptInputParam::Integer(4)).unwrap();

    assert_eq!(ph.required_output_size(0, 2).unwrap(), 0);
    assert_eq!(ph.required_output_size(0, 3).unwrap(), 1);
    assert_eq!(ph.required_output_size(0, 4).unwrap(), 2);
    assert_eq!(ph.required_output_size(2, 10).unwrap(), 8);
    assert_eq!(ph.required_output_size(7, 10).unwrap(), 4);
    assert_eq!(ph.required_output_size(7, 6).unwrap(), 0);
}

// A period below the function's minimum has no lookback and no size.
#[test]
fn invalid_period_has_no_lookback() {
    let registry = Registry::standard();
    let handle = FuncHandle::new(&registry, "SMA").unwrap();
    let mut ph = ParamHolder::try_from(handle).unwrap();
    ph.set_param(0, OptInputParam::Integer(1)).unwrap();

    assert!(ph.lookback().is_none());
    assert!(ph.required_output_size(0, 99).is_none());
}

// Binding a slot twice behaves as a single fresh bind of the last value.
#[test]
fn rebinding_a_slot_is_last_write_wins() {
    let registry = Registry::standard();

    let handle = FuncHandle::new(&registry, "SMA").unwrap();
    let mut twice = ParamHolder::try_from(handle).unwrap();
    twice.set_param(0, OptInputParam::Integer(5)).unwrap();
    twice.set_param(0, OptInputParam::Integer(7)).unwrap();

    let handle = FuncHandle::new(&registry, "SMA").unwrap();
    let mut once = ParamHolder::try_from(handle).unwrap();
    once.set_param(0, OptInputParam::Integer(7)).unwrap();

    assert_eq!(twice.lookback(), once.lookback());
    assert_eq!(twice.lookback().unwrap(), 6);
    assert_eq!(
        twice.required_output_size(0, 9),
        once.required_output_size(0, 9)
    );
}

// A type mismatch at a binding slot is rejected immediately.
#[test]
fn binding_a_wrong_kind_is_rejected() {
    let registry = Registry::standard();
    let handle = FuncHandle::new(&registry, "SMA").unwrap();
    let mut ph = ParamHolder::try_from(handle).unwrap();

    // The period slot is integer-kind.
    assert!(ph.set_param(0, OptInputParam::Real(Fixed::from_int(4))).is_err());
    // The input slot wants a plain real series, not a price bundle.
    assert!(ph.set_input(0, InputParam::Integer(vec![1, 2, 3])).is_err());
}

// A full manual drive of the engine: allocate, bind, size, invoke, take.
#[test]
fn manual_call_produces_the_average() {
    let registry = Registry::standard();
    let handle = FuncHandle::new(&registry, "SMA").unwrap();
    let mut ph = ParamHolder::try_from(handle).unwrap();
    ph.set_param(0, OptInputParam::Integer(2)).unwrap();
    ph.set_input(0, InputParam::Real(reals(&[2, 4, 6]))).unwrap();
    let size = ph.required_output_size(0, 2).unwrap();
    assert_eq!(size, 2);
    ph.set_output(0, OutputParam::Real(zeroes(size))).unwrap();

    let (begin, count) = ph.call(0, 2).unwrap();
    assert_eq!(begin, 1);
    assert_eq!(count, 2);

    match ph.take_output(0).unwrap() {
        OutputParam::Real(out) => {
            assert_eq!(out, reals(&[3, 5]));
        }
        OutputParam::Integer(_) => panic!("wrong buffer kind"),
    }
    // The slot is empty after the buffer moved out.
    assert!(ph.take_output(0).is_err());
}

// Invoking without a bound input fails and leaves nothing half-done.
#[test]
fn call_without_bound_input_fails() {
    let registry = Registry::standard();
    let handle = FuncHandle::new(&registry, "SMA").unwrap();
    let mut ph = ParamHolder::try_from(handle).unwrap();
    ph.set_output(0, OutputParam::Real(zeroes(8))).unwrap();
    assert!(ph.call(0, 7).is_err());
}

// An output buffer smaller than the required size is refused.
#[test]
fn call_with_short_output_buffer_fails() {
    let registry = Registry::standard();
    let handle = FuncHandle::new(&registry, "SMA").unwrap();
    let mut ph = ParamHolder::try_from(handle).unwrap();
    ph.set_param(0, OptInputParam::Integer(2)).unwrap();
    ph.set_input(0, InputParam::Real(reals(&[2, 4, 6]))).unwrap();
    ph.set_output(0, OutputParam::Real(zeroes(1))).unwrap();
    assert!(ph.call(0, 2).is_err());
}

// Elementwise addition through the engine, and its overflow report.
#[test]
fn add_computes_and_reports_overflow() {
    let registry = Registry::standard();
    let handle = FuncHandle::new(&registry, "ADD").unwrap();
    let mut ph = ParamHolder::try_from(handle).unwrap();
    ph.set_input(0, InputParam::Real(reals(&[1, 2]))).unwrap();
    ph.set_input(1, InputParam::Real(reals(&[10, 20]))).unwrap();
    ph.set_output(0, OutputParam::Real(zeroes(3))).unwrap();
    let (begin, count) = ph.call(0, 1).unwrap();
    assert_eq!((begin, count), (0, 2));
    match ph.take_output(0).unwrap() {
        OutputParam::Real(out) => assert_eq!(out, reals(&[11, 22])),
        OutputParam::Integer(_) => panic!("wrong buffer kind"),
    }

    let handle = FuncHandle::new(&registry, "ADD").unwrap();
    let mut ph = ParamHolder::try_from(handle).unwrap();
    let big = vec![Fixed::from_scaled(i64::MAX); 2];
    ph.set_input(0, InputParam::Real(big.clone())).unwrap();
    ph.set_input(1, InputParam::Real(big)).unwrap();
    ph.set_output(0, OutputParam::Real(zeroes(2))).unwrap();
    assert!(ph.call(0, 1).is_err());
}

// Elementwise division through the engine, and its zero-divisor report.
#[test]
fn div_computes_and_rejects_zero_divisors() {
    let registry = Registry::standard();
    let handle = FuncHandle::new(&registry, "DIV").unwrap();
    let mut ph = ParamHolder::try_from(handle).unwrap();
    ph.set_input(0, InputParam::Real(reals(&[7, 1]))).unwrap();
    ph.set_input(1, InputParam::Real(reals(&[2, 4]))).unwrap();
    ph.set_output(0, OutputParam::Real(zeroes(2))).unwrap();
    ph.call(0, 1).unwrap();
    match ph.take_output(0).unwrap() {
        OutputParam::Real(out) => {
            // 7 / 2 = 3.5 and 1 / 4 = 0.25, exactly.
            assert_eq!(out, vec![Fixed::from_scaled(3_500_000), Fixed::from_scaled(250_000)]);
        }
        OutputParam::Integer(_) => panic!("wrong buffer kind"),
    }

    let handle = FuncHandle::new(&registry, "DIV").unwrap();
    let mut ph = ParamHolder::try_from(handle).unwrap();
    ph.set_input(0, InputParam::Real(reals(&[7]))).unwrap();
    ph.set_input(1, InputParam::Real(reals(&[0]))).unwrap();
    ph.set_output(0, OutputParam::Real(zeroes(1))).unwrap();
    assert!(ph.call(0, 0).is_err());
}
