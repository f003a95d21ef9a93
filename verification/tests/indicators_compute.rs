use rustta::fixed::Fixed;
use rustta::indicators::math_operators::{AddBuilder, DivBuilder};
use rustta::indicators::overlap_studies::{BbandsBuilder, SmaBuilder};
use rustta::indicators::price_transform::{MedPriceBuilder, TypPriceBuilder};
use rustta::input::Ohlcv;
use rustta::types::TaError;

fn reals(values: &[i64]) -> Vec<Fixed> {
    values.iter().map(|v| Fixed::from_int(*v)).collect()
}

#[test]
fn accepts_vec() {
    let sma = SmaBuilder::default().time_period(4).build().unwrap();
    let expected = vec![Fixed::from_scaled(2_500_000), Fixed::from_scaled(3_500_000)];

    let data = reals(&[1, 2, 3, 4, 5]);
    let output = sma.calculate(data).unwrap();
    assert_eq!(output, expected);
}

#[test]
fn accepts_slice() {
    let sma = SmaBuilder::default().time_period(4).build().unwrap();
    let expected = vec![Fixed::from_scaled(2_500_000), Fixed::from_scaled(3_500_000)];

    let data = reals(&[1, 2, 3, 4, 5]);
    let output = sma.calculate(data.as_slice()).unwrap();
    assert_eq!(output, expected);
}

#[test]
fn accepts_data() {
    let typprice = TypPriceBuilder::default().build().unwrap();
    let expected = reals(&[2, 3, 4, 5, 6, 7, 8, 9, 10]);

    let data = Ohlcv {
        high: reals(&[3, 4, 5, 6, 7, 8, 9, 10, 11]),
        close: reals(&[2, 3, 4, 5, 6, 7, 8, 9, 10]),
        low: reals(&[1, 2, 3, 4, 5, 6, 7, 8, 9]),
        ..Ohlcv::default()
    };
    let output = typprice.calculate(&data).unwrap();
    assert_eq!(output, expected);
}

// An averaging function with period four over five values reports lookback
// three, a required size of two over the whole range, and the two averages.
#[test]
fn sma_reports_lookback_size_and_values() {
    let sma = SmaBuilder::default().time_period(4).build().unwrap();
    assert_eq!(sma.time_period, 4);

    let data = reals(&[1, 2, 3, 4, 5]);
    let output = sma.calculate(data).unwrap();
    assert_eq!(output.len(), 2);
    assert_eq!(output[0], Fixed::from_scaled(2_500_000));
    assert_eq!(output[1], Fixed::from_scaled(3_500_000));
}

#[test]
fn sma_default_period_is_thirty() {
    let sma = SmaBuilder::default().build().unwrap();
    assert_eq!(sma.time_period, 30);
}

#[test]
fn sma_shorter_input_than_period_yields_nothing() {
    let sma = SmaBuilder::default().time_period(4).build().unwrap();
    let output = sma.calculate(reals(&[1, 2, 3])).unwrap();
    assert!(output.is_empty());
}

#[test]
fn sma_invalid_period_is_reported() {
    let sma = SmaBuilder::default().time_period(1).build().unwrap();
    assert_eq!(
        sma.calculate(reals(&[1, 2, 3])).unwrap_err(),
        TaError::Misc(String::from("Failed to get required size"))
    );
}

#[test]
fn sma_empty_input_is_reported() {
    let sma = SmaBuilder::default().time_period(4).build().unwrap();
    assert_eq!(
        sma.calculate(reals(&[])).unwrap_err(),
        TaError::Misc(String::from("Error calling func"))
    );
}

#[test]
fn medprice_averages_high_and_low() {
    let medprice = MedPriceBuilder::default().build().unwrap();
    let data = Ohlcv {
        high: reals(&[4, 9]),
        low: reals(&[2, 4]),
        ..Ohlcv::default()
    };
    let output = medprice.calculate(&data).unwrap();
    // (4 + 2) / 2 = 3 and (9 + 4) / 2 = 6.5, exactly.
    assert_eq!(output, vec![Fixed::from_int(3), Fixed::from_scaled(6_500_000)]);
}

// A bundle whose longest component outruns the ones the function reads is
// reported as a length mismatch rather than read past its end.
#[test]
fn mismatched_component_lengths_are_reported() {
    let medprice = MedPriceBuilder::default().build().unwrap();
    let data = Ohlcv {
        high: reals(&[4, 9]),
        low: reals(&[2, 4]),
        open: reals(&[1, 1, 1, 1]),
        ..Ohlcv::default()
    };
    assert_eq!(
        medprice.calculate(&data).unwrap_err(),
        TaError::Misc(String::from("Error calling func"))
    );
}

// The entry points accept any representation offering the needed
// capabilities; a plain tuple of component slices works without adapters.
#[test]
fn accepts_tuple_of_slices() {
    let typprice = TypPriceBuilder::default().build().unwrap();
    let empty: Vec<Fixed> = Vec::new();
    let high = reals(&[3, 4]);
    let low = reals(&[1, 2]);
    let close = reals(&[2, 3]);
    let data = (
        empty.as_slice(),
        low.as_slice(),
        high.as_slice(),
        close.as_slice(),
        empty.as_slice(),
    );
    let output = typprice.calculate(&data).unwrap();
    assert_eq!(output, reals(&[2, 3]));
}

#[test]
fn bbands_defaults_and_bands() {
    let bbands = BbandsBuilder::default().build().unwrap();
    assert_eq!(bbands.time_period, 5);
    assert_eq!(bbands.deviations_up, Fixed::from_int(2));
    assert_eq!(bbands.deviations_down, Fixed::from_int(2));
    assert_eq!(bbands.ma_type, 0);

    // A flat series has no spread: all three bands equal the average.
    let bbands = BbandsBuilder::default().time_period(4).build().unwrap();
    let (upper, middle, lower) = bbands.calculate(reals(&[2, 2, 2, 2, 2])).unwrap();
    assert_eq!(middle, reals(&[2, 2]));
    assert_eq!(upper, reals(&[2, 2]));
    assert_eq!(lower, reals(&[2, 2]));
}

#[test]
fn bbands_spread_is_the_floor_root_of_the_mean_square() {
    let bbands = BbandsBuilder::default().time_period(4).build().unwrap();
    let (upper, middle, lower) = bbands.calculate(reals(&[1, 2, 3, 4])).unwrap();

    // Mean 2.5; squared deviations (in millionths) sum to 5e12; the mean
    // square is 1.25e12 and its floor root 1_118_033; two spreads are
    // 2_236_066 millionths.
    assert_eq!(middle, vec![Fixed::from_scaled(2_500_000)]);
    assert_eq!(upper, vec![Fixed::from_scaled(4_736_066)]);
    assert_eq!(lower, vec![Fixed::from_scaled(263_934)]);
}

// The call window of a two-input function is bounded by the shorter
// series; the longer one only sizes the buffers.
#[test]
fn add_stops_at_the_shorter_series() {
    let add = AddBuilder::default().build().unwrap();
    let output = add
        .calculate(reals(&[1, 2, 3]), reals(&[10, 20]))
        .unwrap();
    assert_eq!(output, reals(&[11, 22]));
}

#[test]
fn div_is_exact_in_units() {
    let div = DivBuilder::default().build().unwrap();
    let output = div.calculate(reals(&[7, 1]), reals(&[2, 4])).unwrap();
    assert_eq!(
        output,
        vec![Fixed::from_scaled(3_500_000), Fixed::from_scaled(250_000)]
    );
}

#[test]
fn div_by_zero_is_reported() {
    let div = DivBuilder::default().build().unwrap();
    assert_eq!(
        div.calculate(reals(&[7]), reals(&[0])).unwrap_err(),
        TaError::Misc(String::from("Error calling func"))
    );
}
