//! Clock tree: the requested-frequency builder, the prescaler selection and
//! the frozen clock record the rest of the driver consumes.
//!
//! Only the frequency arithmetic lives here. Writing the selected values
//! into the reset-and-clock-control registers, and waiting for the PLL to
//! lock, is the register front end's job.

use vstd::prelude::*;

use crate::time::Hertz;

verus! {

/// The internal high-speed oscillator, the PLL's reference.
pub const HSI: u32 = 8_000_000;

/// Splits the reset-and-clock-control peripheral into one handle per bus.
pub trait RccExtension {
    /// Consume the peripheral singleton and hand out the bus handles.
    fn constrain(self) -> Rcc;
}

/// The constrained reset-and-clock-control peripheral: one handle per bus,
/// plus the clock configuration builder.
pub struct Rcc {
    pub ahb1: AHB1,
    pub ahb2: AHB2,
    pub ahb3: AHB3,
    pub apb1: APB1,
    pub apb2: APB2,
    pub cfgr: CFGR,
}

impl Rcc {
    /// Gather the bus handles and an empty configuration; called once by
    /// whoever takes the peripheral singleton.
    pub fn new() -> (r: Rcc)
        ensures
            r.cfgr.spec_hclk() is None,
            r.cfgr.spec_pclk1() is None,
            r.cfgr.spec_pclk2() is None,
            r.cfgr.spec_sysclk() is None,
    {
        Rcc {
            ahb1: AHB1 { _0: () },
            ahb2: AHB2 { _0: () },
            ahb3: AHB3 { _0: () },
            apb1: APB1 { _0: () },
            apb2: APB2 { _0: () },
            cfgr: CFGR { hclk: None, pclk1: None, pclk2: None, sysclk: None },
        }
    }
}

/// Handle on the first AHB bus's enable and reset registers.
pub struct AHB1 {
    _0: (),
}

/// Handle on the second AHB bus's enable and reset registers.
pub struct AHB2 {
    _0: (),
}

/// Handle on the third AHB bus's enable and reset registers.
pub struct AHB3 {
    _0: (),
}

/// Handle on the first APB bus's enable and reset registers.
pub struct APB1 {
    _0: (),
}

/// Handle on the second APB bus's enable and reset registers.
pub struct APB2 {
    _0: (),
}

/// The clock configuration under construction: each requested frequency, or
/// `None` for the default.
pub struct CFGR {
    hclk: Option<u32>,
    pclk1: Option<u32>,
    pclk2: Option<u32>,
    sysclk: Option<u32>,
}

/// The PLL multiplier the configuration selects: the ratio that doubles the
/// requested system clock against the oscillator, clamped to the PLL's
/// range.
pub open spec fn spec_pllmul(cfgr: CFGR) -> int {
    let requested = match cfgr.spec_sysclk() {
        Some(s) => s as int,
        None => HSI as int,
    };
    let ratio = (2 * requested) / (HSI as int);
    if ratio < 2 {
        2
    } else if ratio > 16 {
        16
    } else {
        ratio
    }
}

/// The system clock the configuration produces.
pub open spec fn spec_sysclk_out(cfgr: CFGR) -> int {
    spec_pllmul(cfgr) * (HSI as int) / 2
}

/// The AHB prescaler: the selection table applied to the ratio of the
/// produced system clock to the requested AHB clock; 1 when nothing was
/// requested.
pub open spec fn spec_hpre(cfgr: CFGR) -> int {
    match cfgr.spec_hclk() {
        Some(h) => {
            let ratio = spec_sysclk_out(cfgr) / (h as int);
            if ratio <= 1 {
                1
            } else if ratio == 2 {
                2
            } else if ratio <= 5 {
                4
            } else if ratio <= 11 {
                8
            } else if ratio <= 39 {
                16
            } else if ratio <= 95 {
                64
            } else if ratio <= 163 {
                128
            } else if ratio <= 383 {
                256
            } else {
                512
            }
        },
        None => 1,
    }
}

/// The AHB clock the configuration produces.
pub open spec fn spec_hclk_out(cfgr: CFGR) -> int {
    spec_sysclk_out(cfgr) / spec_hpre(cfgr)
}

/// An APB prescaler: the selection table applied to the ratio of the
/// produced AHB clock to the requested bus clock; `dflt` when nothing was
/// requested.
pub open spec fn spec_ppre(hclk: int, requested: Option<u32>, dflt: int) -> int {
    match requested {
        Some(p) => {
            let ratio = hclk / (p as int);
            if ratio <= 1 {
                1
            } else if ratio == 2 {
                2
            } else if ratio <= 5 {
                4
            } else if ratio <= 11 {
                8
            } else {
                16
            }
        },
        None => dflt,
    }
}

/// The first APB prescaler of the configuration.
pub open spec fn spec_ppre1(cfgr: CFGR) -> int {
    spec_ppre(spec_hclk_out(cfgr), cfgr.spec_pclk1(), 4)
}

/// The second APB prescaler of the configuration.
pub open spec fn spec_ppre2(cfgr: CFGR) -> int {
    spec_ppre(spec_hclk_out(cfgr), cfgr.spec_pclk2(), 2)
}

/// The first APB clock the configuration produces.
pub open spec fn spec_pclk1_out(cfgr: CFGR) -> int {
    spec_hclk_out(cfgr) / spec_ppre1(cfgr)
}

/// The second APB clock the configuration produces.
pub open spec fn spec_pclk2_out(cfgr: CFGR) -> int {
    spec_hclk_out(cfgr) / spec_ppre2(cfgr)
}

impl CFGR {
    /// The requested AHB clock.
    pub closed spec fn spec_hclk(self) -> Option<u32> {
        self.hclk
    }

    /// The requested first APB clock.
    pub closed spec fn spec_pclk1(self) -> Option<u32> {
        self.pclk1
    }

    /// The requested second APB clock.
    pub closed spec fn spec_pclk2(self) -> Option<u32> {
        self.pclk2
    }

    /// The requested system clock.
    pub closed spec fn spec_sysclk(self) -> Option<u32> {
        self.sysclk
    }

    /// Request an AHB clock.
    pub fn hclk(self, freq: Hertz) -> (r: CFGR)
        ensures
            r.spec_hclk() == Some(freq.0),
            r.spec_pclk1() == self.spec_pclk1(),
            r.spec_pclk2() == self.spec_pclk2(),
            r.spec_sysclk() == self.spec_sysclk(),
    {
        CFGR { hclk: Some(freq.0), ..self }
    }

    /// Request a first APB clock.
    pub fn pclk1(self, freq: Hertz) -> (r: CFGR)
        ensures
            r.spec_pclk1() == Some(freq.0),
            r.spec_hclk() == self.spec_hclk(),
            r.spec_pclk2() == self.spec_pclk2(),
            r.spec_sysclk() == self.spec_sysclk(),
    {
        CFGR { pclk1: Some(freq.0), ..self }
    }

    /// Request a second APB clock.
    pub fn pclk2(self, freq: Hertz) -> (r: CFGR)
        ensures
            r.spec_pclk2() == Some(freq.0),
            r.spec_hclk() == self.spec_hclk(),
            r.spec_pclk1() == self.spec_pclk1(),
            r.spec_sysclk() == self.spec_sysclk(),
    {
        CFGR { pclk2: Some(freq.0), ..self }
    }

    /// Request a system clock.
    pub fn sysclk(self, freq: Hertz) -> (r: CFGR)
        ensures
            r.spec_sysclk() == Some(freq.0),
            r.spec_hclk() == self.spec_hclk(),
            r.spec_pclk1() == self.spec_pclk1(),
            r.spec_pclk2() == self.spec_pclk2(),
    {
        CFGR { sysclk: Some(freq.0), ..self }
    }

    /// Select the PLL multiplier and the bus prescalers for the requested
    /// frequencies and freeze the result.
    ///
    /// The requested frequencies must be reachable: each bus clock at least
    /// one hertz and no faster than the clock it divides, and the produced
    /// APB clocks within their hardware maxima — the selection otherwise
    /// hits no valid divider. The produced system and AHB clocks never
    /// exceed their maxima, since the PLL tops out at sixteen times half
    /// the oscillator.
    pub fn freeze(self) -> (r: Clocks)
        requires
            self.spec_sysclk() matches Some(s) ==> s <= 0x7FFF_FFFF,
            self.spec_hclk() matches Some(h) ==> 1 <= h && h as int <= spec_sysclk_out(self),
            self.spec_pclk1() matches Some(p) ==> 1 <= p && p as int <= spec_hclk_out(self),
            self.spec_pclk2() matches Some(p) ==> 1 <= p && p as int <= spec_hclk_out(self),
            spec_pclk1_out(self) <= 30_000_000,
            spec_pclk2_out(self) <= 60_000_000,
        ensures
            r.sysclk().0 as int == spec_sysclk_out(self),
            r.hclk().0 as int == spec_hclk_out(self),
            r.pclk1().0 as int == spec_pclk1_out(self),
            r.pclk2().0 as int == spec_pclk2_out(self),
            r.ppre1() as int == spec_ppre1(self),
            r.ppre2() as int == spec_ppre2(self),
            r.sysclk().0 <= 168_000_000,
            r.hclk().0 <= 120_000_000,
    {
        let requested = match self.sysclk {
            Some(s) => s,
            None => HSI,
        };
        let ratio = (2 * requested) / HSI;
        let pllmul = if ratio < 2 {
            2
        } else if ratio > 16 {
            16
        } else {
            ratio
        };

        let sysclk = pllmul * (HSI / 2);
        proof {
            assert(pllmul * (HSI / 2) as int == pllmul * (HSI as int) / 2) by (nonlinear_arith)
                requires
                    2 <= pllmul <= 16,
            ;
            assert(sysclk as int == spec_sysclk_out(self));
        }

        let hpre = match self.hclk {
            Some(hclk) => {
                let r = sysclk / hclk;
                if r <= 1 {
                    1
                } else if r == 2 {
                    2
                } else if r <= 5 {
                    4
                } else if r <= 11 {
                    8
                } else if r <= 39 {
                    16
                } else if r <= 95 {
                    64
                } else if r <= 163 {
                    128
                } else if r <= 383 {
                    256
                } else {
                    512
                }
            },
            None => 1,
        };
        let hclk = sysclk / hpre;

        let ppre1 = match self.pclk1 {
            Some(pclk1) => {
                let r = hclk / pclk1;
                if r <= 1 {
                    1
                } else if r == 2 {
                    2
                } else if r <= 5 {
                    4
                } else if r <= 11 {
                    8
                } else {
                    16
                }
            },
            None => 4,
        };
        let pclk1 = hclk / ppre1;

        let ppre2 = match self.pclk2 {
            Some(pclk2) => {
                let r = hclk / pclk2;
                if r <= 1 {
                    1
                } else if r == 2 {
                    2
                } else if r <= 5 {
                    4
                } else if r <= 11 {
                    8
                } else {
                    16
                }
            },
            None => 2,
        };
        let pclk2 = hclk / ppre2;

        Clocks {
            hclk: Hertz(hclk),
            pclk1: Hertz(pclk1),
            pclk2: Hertz(pclk2),
            ppre1: ppre1 as u8,
            ppre2: ppre2 as u8,
            sysclk: Hertz(sysclk),
        }
    }
}

/// Frozen clock frequencies.
///
/// The existence of this value indicates that the clock configuration can
/// no longer be changed.
#[derive(Clone, Copy, Debug, PartialEq, Eq, Structural)]
pub struct Clocks {
    hclk: Hertz,
    pclk1: Hertz,
    pclk2: Hertz,
    ppre1: u8,
    ppre2: u8,
    sysclk: Hertz,
}

impl Clocks {
    /// The frequency of the AHB bus.
    pub closed spec fn spec_hclk(&self) -> Hertz {
        self.hclk
    }

    /// The frequency of the first APB bus.
    pub closed spec fn spec_pclk1(&self) -> Hertz {
        self.pclk1
    }

    /// The frequency of the second APB bus.
    pub closed spec fn spec_pclk2(&self) -> Hertz {
        self.pclk2
    }

    /// The prescaler of the first APB bus.
    pub closed spec fn spec_ppre1(&self) -> u8 {
        self.ppre1
    }

    /// The prescaler of the second APB bus.
    pub closed spec fn spec_ppre2(&self) -> u8 {
        self.ppre2
    }

    /// The system (core) frequency.
    pub closed spec fn spec_sysclk(&self) -> Hertz {
        self.sysclk
    }

    /// Assemble a frozen clock record directly, for a front end (or a test
    /// bench) that reads the frequencies back from an already-configured
    /// clock tree instead of freezing one here.
    pub fn from_parts(
        hclk: Hertz,
        pclk1: Hertz,
        pclk2: Hertz,
        ppre1: u8,
        ppre2: u8,
        sysclk: Hertz,
    ) -> (r: Clocks)
        ensures
            r.spec_hclk() == hclk,
            r.spec_pclk1() == pclk1,
            r.spec_pclk2() == pclk2,
            r.spec_ppre1() == ppre1,
            r.spec_ppre2() == ppre2,
            r.spec_sysclk() == sysclk,
    {
        Clocks { hclk, pclk1, pclk2, ppre1, ppre2, sysclk }
    }

    /// Returns the frequency of the AHB bus.
    #[verifier::when_used_as_spec(spec_hclk)]
    pub fn hclk(&self) -> (r: Hertz)
        ensures
            r == self.spec_hclk(),
    {
        self.hclk
    }

    /// Returns the frequency of the first APB bus.
    #[verifier::when_used_as_spec(spec_pclk1)]
    pub fn pclk1(&self) -> (r: Hertz)
        ensures
            r == self.spec_pclk1(),
    {
        self.pclk1
    }

    /// Returns the frequency of the second APB bus.
    #[verifier::when_used_as_spec(spec_pclk2)]
    pub fn pclk2(&self) -> (r: Hertz)
        ensures
            r == self.spec_pclk2(),
    {
        self.pclk2
    }

    /// Returns the prescaler of the first APB bus.
    #[verifier::when_used_as_spec(spec_ppre1)]
    pub fn ppre1(&self) -> (r: u8)
        ensures
            r == self.spec_ppre1(),
    {
        self.ppre1
    }

    /// Returns the prescaler of the second APB bus.
    #[verifier::when_used_as_spec(spec_ppre2)]
    pub fn ppre2(&self) -> (r: u8)
        ensures
            r == self.spec_ppre2(),
    {
        self.ppre2
    }

    /// Returns the system (core) frequency.
    #[verifier::when_used_as_spec(spec_sysclk)]
    pub fn sysclk(&self) -> (r: Hertz)
        ensures
            r == self.spec_sysclk(),
    {
        self.sysclk
    }
}

} // verus!
