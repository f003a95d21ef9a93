//! Capabilities a caller-supplied input must offer.
//!
//! Each generated entry point is generic over its inputs, constrained to
//! exactly the capabilities the function's descriptors require: a length,
//! and one accessor per price component the function reads. Any type
//! offering the needed subset works; [`Ohlcv`] offers all of them.

use vstd::prelude::*;

use crate::fixed::Fixed;

verus! {

/// Number of elements an input covers. For composite inputs this is the
/// longest component.
pub trait Length {
    spec fn spec_length(&self) -> int;

    fn length(&self) -> (r: usize)
        ensures
            r as int == self.spec_length(),
    ;
}

/// A plain series of real values.
pub trait RealSeries {
    spec fn spec_reals(&self) -> Seq<Fixed>;

    fn reals(&self) -> (r: &[Fixed])
        ensures
            r@ == self.spec_reals(),
    ;
}

/// The opening-value component of a price bundle.
pub trait Open {
    spec fn spec_open(&self) -> Seq<Fixed>;

    fn open(&self) -> (r: &[Fixed])
        ensures
            r@ == self.spec_open(),
    ;
}

/// The lowest-value component of a price bundle.
pub trait Low {
    spec fn spec_low(&self) -> Seq<Fixed>;

    fn low(&self) -> (r: &[Fixed])
        ensures
            r@ == self.spec_low(),
    ;
}

/// The highest-value component of a price bundle.
pub trait High {
    spec fn spec_high(&self) -> Seq<Fixed>;

    fn high(&self) -> (r: &[Fixed])
        ensures
            r@ == self.spec_high(),
    ;
}

/// The closing-value component of a price bundle.
pub trait Close {
    spec fn spec_close(&self) -> Seq<Fixed>;

    fn close(&self) -> (r: &[Fixed])
        ensures
            r@ == self.spec_close(),
    ;
}

/// The traded-volume component of a price bundle.
pub trait Volume {
    spec fn spec_volume(&self) -> Seq<Fixed>;

    fn volume(&self) -> (r: &[Fixed])
        ensures
            r@ == self.spec_volume(),
    ;
}

/// The open-interest component of a price bundle.
pub trait OpenInterest {
    spec fn spec_open_interest(&self) -> Seq<Fixed>;

    fn open_interest(&self) -> (r: &[Fixed])
        ensures
            r@ == self.spec_open_interest(),
    ;
}

impl<T> Length for Vec<T> {
    open spec fn spec_length(&self) -> int {
        self@.len() as int
    }

    fn length(&self) -> (r: usize)
        ensures
            r as int == self.spec_length(),
    {
        self.len()
    }
}

impl<'a, T> Length for &'a [T] {
    open spec fn spec_length(&self) -> int {
        self@.len() as int
    }

    fn length(&self) -> (r: usize)
        ensures
            r as int == self.spec_length(),
    {
        (*self).len()
    }
}

impl RealSeries for Vec<Fixed> {
    open spec fn spec_reals(&self) -> Seq<Fixed> {
        self@
    }

    fn reals(&self) -> (r: &[Fixed])
        ensures
            r@ == self.spec_reals(),
    {
        self.as_slice()
    }
}

impl<'a> RealSeries for &'a [Fixed] {
    open spec fn spec_reals(&self) -> Seq<Fixed> {
        self@
    }

    fn reals(&self) -> (r: &[Fixed])
        ensures
            r@ == self.spec_reals(),
    {
        self
    }
}


impl Length for (&[Fixed], &[Fixed], &[Fixed], &[Fixed], &[Fixed]) {
    /// The longest component.
    open spec fn spec_length(&self) -> int {
        let a = if self.0@.len() > self.1@.len() {
            self.0@.len()
        } else {
            self.1@.len()
        };
        let b = if a > self.2@.len() {
            a
        } else {
            self.2@.len()
        };
        let c = if b > self.3@.len() {
            b
        } else {
            self.3@.len()
        };
        (if c > self.4@.len() {
            c
        } else {
            self.4@.len()
        }) as int
    }

    fn length(&self) -> (r: usize)
        ensures
            r as int == self.spec_length(),
    {
        let mut m = self.0.len();
        if self.1.len() > m {
            m = self.1.len();
        }
        if self.2.len() > m {
            m = self.2.len();
        }
        if self.3.len() > m {
            m = self.3.len();
        }
        if self.4.len() > m {
            m = self.4.len();
        }
        m
    }
}

impl Open for (&[Fixed], &[Fixed], &[Fixed], &[Fixed], &[Fixed]) {
    open spec fn spec_open(&self) -> Seq<Fixed> {
        self.0@
    }

    fn open(&self) -> (r: &[Fixed])
        ensures
            r@ == self.spec_open(),
    {
        self.0
    }
}

impl Low for (&[Fixed], &[Fixed], &[Fixed], &[Fixed], &[Fixed]) {
    open spec fn spec_low(&self) -> Seq<Fixed> {
        self.1@
    }

    fn low(&self) -> (r: &[Fixed])
        ensures
            r@ == self.spec_low(),
    {
        self.1
    }
}

impl High for (&[Fixed], &[Fixed], &[Fixed], &[Fixed], &[Fixed]) {
    open spec fn spec_high(&self) -> Seq<Fixed> {
        self.2@
    }

    fn high(&self) -> (r: &[Fixed])
        ensures
            r@ == self.spec_high(),
    {
        self.2
    }
}

impl Close for (&[Fixed], &[Fixed], &[Fixed], &[Fixed], &[Fixed]) {
    open spec fn spec_close(&self) -> Seq<Fixed> {
        self.3@
    }

    fn close(&self) -> (r: &[Fixed])
        ensures
            r@ == self.spec_close(),
    {
        self.3
    }
}

impl Volume for (&[Fixed], &[Fixed], &[Fixed], &[Fixed], &[Fixed]) {
    open spec fn spec_volume(&self) -> Seq<Fixed> {
        self.4@
    }

    fn volume(&self) -> (r: &[Fixed])
        ensures
            r@ == self.spec_volume(),
    {
        self.4
    }
}

impl Length for (&[Fixed], &[Fixed], &[Fixed], &[Fixed], &[Fixed], &[Fixed]) {
    /// The longest component.
    open spec fn spec_length(&self) -> int {
        let a = if self.0@.len() > self.1@.len() {
            self.0@.len()
        } else {
            self.1@.len()
        };
        let b = if a > self.2@.len() {
            a
        } else {
            self.2@.len()
        };
        let c = if b > self.3@.len() {
            b
        } else {
            self.3@.len()
        };
        let d = if c > self.4@.len() {
            c
        } else {
            self.4@.len()
        };
        (if d > self.5@.len() {
            d
        } else {
            self.5@.len()
        }) as int
    }

    fn length(&self) -> (r: usize)
        ensures
            r as int == self.spec_length(),
    {
        let mut m = self.0.len();
        if self.1.len() > m {
            m = self.1.len();
        }
        if self.2.len() > m {
            m = self.2.len();
        }
        if self.3.len() > m {
            m = self.3.len();
        }
        if self.4.len() > m {
            m = self.4.len();
        }
        if self.5.len() > m {
            m = self.5.len();
        }
        m
    }
}

impl Open for (&[Fixed], &[Fixed], &[Fixed], &[Fixed], &[Fixed], &[Fixed]) {
    open spec fn spec_open(&self) -> Seq<Fixed> {
        self.0@
    }

    fn open(&self) -> (r: &[Fixed])
        ensures
            r@ == self.spec_open(),
    {
        self.0
    }
}

impl Low for (&[Fixed], &[Fixed], &[Fixed], &[Fixed], &[Fixed], &[Fixed]) {
    open spec fn spec_low(&self) -> Seq<Fixed> {
        self.1@
    }

    fn low(&self) -> (r: &[Fixed])
        ensures
            r@ == self.spec_low(),
    {
        self.1
    }
}

impl High for (&[Fixed], &[Fixed], &[Fixed], &[Fixed], &[Fixed], &[Fixed]) {
    open spec fn spec_high(&self) -> Seq<Fixed> {
        self.2@
    }

    fn high(&self) -> (r: &[Fixed])
        ensures
            r@ == self.spec_high(),
    {
        self.2
    }
}

impl Close for (&[Fixed], &[Fixed], &[Fixed], &[Fixed], &[Fixed], &[Fixed]) {
    open spec fn spec_close(&self) -> Seq<Fixed> {
        self.3@
    }

    fn close(&self) -> (r: &[Fixed])
        ensures
            r@ == self.spec_close(),
    {
        self.3
    }
}

impl Volume for (&[Fixed], &[Fixed], &[Fixed], &[Fixed], &[Fixed], &[Fixed]) {
    open spec fn spec_volume(&self) -> Seq<Fixed> {
        self.4@
    }

    fn volume(&self) -> (r: &[Fixed])
        ensures
            r@ == self.spec_volume(),
    {
        self.4
    }
}

impl OpenInterest for (&[Fixed], &[Fixed], &[Fixed], &[Fixed], &[Fixed], &[Fixed]) {
    open spec fn spec_open_interest(&self) -> Seq<Fixed> {
        self.5@
    }

    fn open_interest(&self) -> (r: &[Fixed])
        ensures
            r@ == self.spec_open_interest(),
    {
        self.5
    }
}

/// A fully populated bundle of aligned price series. Offers every
/// capability, so it suits any price-reading entry point; components a
/// function does not read may stay empty.
#[derive(Debug)]
pub struct Ohlcv {
    pub open: Vec<Fixed>,
    pub high: Vec<Fixed>,
    pub low: Vec<Fixed>,
    pub close: Vec<Fixed>,
    pub volume: Vec<Fixed>,
}

impl Default for Ohlcv {
    /// A bundle with every component empty.
    fn default() -> (r: Ohlcv)
        ensures
            r.open@.len() == 0 && r.high@.len() == 0 && r.low@.len() == 0 && r.close@.len() == 0
                && r.volume@.len() == 0,
    {
        Ohlcv {
            open: Vec::new(),
            high: Vec::new(),
            low: Vec::new(),
            close: Vec::new(),
            volume: Vec::new(),
        }
    }
}

impl Length for Ohlcv {
    /// The longest component.
    open spec fn spec_length(&self) -> int {
        let a = if self.open@.len() > self.high@.len() {
            self.open@.len()
        } else {
            self.high@.len()
        };
        let b = if a > self.low@.len() {
            a
        } else {
            self.low@.len()
        };
        let c = if b > self.close@.len() {
            b
        } else {
            self.close@.len()
        };
        (if c > self.volume@.len() {
            c
        } else {
            self.volume@.len()
        }) as int
    }

    fn length(&self) -> (r: usize)
        ensures
            r as int == self.spec_length(),
    {
        let mut m = self.open.len();
        if self.high.len() > m {
            m = self.high.len();
        }
        if self.low.len() > m {
            m = self.low.len();
        }
        if self.close.len() > m {
            m = self.close.len();
        }
        if self.volume.len() > m {
            m = self.volume.len();
        }
        m
    }
}

impl Open for Ohlcv {
    open spec fn spec_open(&self) -> Seq<Fixed> {
        self.open@
    }

    fn open(&self) -> (r: &[Fixed])
        ensures
            r@ == self.spec_open(),
    {
        self.open.as_slice()
    }
}

impl High for Ohlcv {
    open spec fn spec_high(&self) -> Seq<Fixed> {
        self.high@
    }

    fn high(&self) -> (r: &[Fixed])
        ensures
            r@ == self.spec_high(),
    {
        self.high.as_slice()
    }
}

impl Low for Ohlcv {
    open spec fn spec_low(&self) -> Seq<Fixed> {
        self.low@
    }

    fn low(&self) -> (r: &[Fixed])
        ensures
            r@ == self.spec_low(),
    {
        self.low.as_slice()
    }
}

impl Close for Ohlcv {
    open spec fn spec_close(&self) -> Seq<Fixed> {
        self.close@
    }

    fn close(&self) -> (r: &[Fixed])
        ensures
            r@ == self.spec_close(),
    {
        self.close.as_slice()
    }
}

impl Volume for Ohlcv {
    open spec fn spec_volume(&self) -> Seq<Fixed> {
        self.volume@
    }

    fn volume(&self) -> (r: &[Fixed])
        ensures
            r@ == self.spec_volume(),
    {
        self.volume.as_slice()
    }
}

} // verus!
