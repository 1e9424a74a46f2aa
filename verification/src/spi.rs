//! SPI clock driver.
//!
//! The controller derives its bit clock from a fixed peripheral clock
//! through two cascaded integer dividers: an even 8-bit prescale and an
//! 8-bit count in the serial-clock-rate field of the first control
//! register. `compute_divider` searches for the smallest prescale that
//! keeps the second divider within its 8-bit range, then the largest count
//! whose divided rate still exceeds the target baud rate — the finest
//! granularity that does not undershoot the target.
//!
//! The driver models the four registers it touches per port, plus the
//! sequence of words handed to the transmit FIFO; the surrounding
//! application mirrors each model operation onto the memory-mapped port.

use vstd::prelude::*;

verus! {

/// Which of the two SPI ports an operation addresses.
#[derive(Copy, Clone)]
pub enum SPISelector {
    Spi0,
    Spi1,
}

/// The port an operation leaves untouched.
pub open spec fn other_port(selector: SPISelector) -> SPISelector {
    match selector {
        SPISelector::Spi0 => SPISelector::Spi1,
        SPISelector::Spi1 => SPISelector::Spi0,
    }
}

/// Failure of the divider search: no prescale in range brings the
/// peripheral clock close enough to the requested baud rate.
#[derive(Copy, Clone, Debug, PartialEq, Eq, Structural)]
pub enum SpiError {
    UnreachableBaudRate,
}

/// The two divider register values bringing the peripheral clock down to a
/// target baud rate.
#[derive(Copy, Clone, Debug, PartialEq, Eq, Structural)]
pub struct SpiDivider {
    pub prescale: u8,
    pub postdiv: u8,
}

/// Whether `prescale` keeps the second divider search within its 8-bit
/// range: the peripheral clock must undershoot the largest rate the pair
/// can still represent.
pub open spec fn prescale_admits(freq: int, baud: int, prescale: int) -> bool {
    freq < (prescale + 2) * 256 * baud
}

/// No even prescale in the hardware range admits the target baud rate.
pub open spec fn baud_unreachable(freq: int, baud: int) -> bool {
    forall|p: int| 2 <= p <= 254 && p % 2 == 0 ==> !prescale_admits(freq, baud, p)
}

/// The returned pair: the smallest even prescale in range that admits the
/// baud rate, then the largest count in 0..=255 whose divided rate still
/// exceeds the target (zero when even a count of one undershoots).
pub open spec fn divider_correct(freq: int, baud: int, prescale: int, postdiv: int) -> bool {
    &&& 2 <= prescale <= 254
    &&& prescale % 2 == 0
    &&& prescale_admits(freq, baud, prescale)
    &&& forall|p: int| 2 <= p < prescale && p % 2 == 0 ==> !prescale_admits(freq, baud, p)
    &&& 0 <= postdiv <= 255
    &&& postdiv >= 1 ==> freq / (prescale * postdiv) > baud
    &&& forall|e: int| postdiv < e <= 255 ==> freq / #[trigger] (prescale * e) <= baud
}

/// The modelled registers of one SPI port: the two control registers, the
/// data register as last written, the clock-prescale register, and the
/// sequence of every word handed to the transmit FIFO.
pub struct SpiRegs {
    pub sspcr0: u32,
    pub sspcr1: u32,
    pub sspdr: u32,
    pub sspcpsr: u32,
    pub sent: Ghost<Seq<u16>>,
}

/// Driver for the two SPI ports. Holds the model of each port's registers;
/// the surrounding application mirrors each model operation onto the
/// memory-mapped port.
pub struct SPIDriver {
    spi0: SpiRegs,
    spi1: SpiRegs,
}

impl SPIDriver {
    /// The modelled registers of the selected port.
    pub closed spec fn regs(&self, selector: SPISelector) -> SpiRegs {
        match selector {
            SPISelector::Spi0 => self.spi0,
            SPISelector::Spi1 => self.spi1,
        }
    }

    /// Takes ownership of both ports, with every modelled register at its
    /// reset value of zero and nothing sent yet.
    pub fn begin() -> (driver: SPIDriver)
        ensures
            forall|s: SPISelector| (#[trigger] driver.regs(s)).sspcr0 == 0,
            forall|s: SPISelector| (#[trigger] driver.regs(s)).sspcr1 == 0,
            forall|s: SPISelector| (#[trigger] driver.regs(s)).sspdr == 0,
            forall|s: SPISelector| (#[trigger] driver.regs(s)).sspcpsr == 0,
            forall|s: SPISelector| (#[trigger] driver.regs(s)).sent@ == Seq::<u16>::empty(),
    {
        SPIDriver {
            spi0: SpiRegs {
                sspcr0: 0,
                sspcr1: 0,
                sspdr: 0,
                sspcpsr: 0,
                sent: Ghost(Seq::empty()),
            },
            spi1: SpiRegs {
                sspcr0: 0,
                sspcr1: 0,
                sspdr: 0,
                sspcpsr: 0,
                sent: Ghost(Seq::empty()),
            },
        }
    }
}

impl SpiRegs {
    /// One transmission on this port: frame size into the first control
    /// register (a whole-register write, clearing the clock-rate field),
    /// master mode and port enable into the second, then every word in
    /// order through the data register into the transmit FIFO.
    fn send(&mut self, data_size: u8, data: &[u16])
        ensures
            final(self).sspcr0 == data_size as u32,
            final(self).sspcr1 == 2,
            final(self).sspcpsr == old(self).sspcpsr,
            final(self).sent@ == old(self).sent@ + data@,
            final(self).sspdr == if data@.len() > 0 {
                data@[data@.len() - 1] as u32
            } else {
                old(self).sspdr
            },
    {
        self.sspcr0 = data_size as u32;
        self.sspcr1 = 2;
        let mut i: usize = 0;
        while i < data.len()
            invariant
                i <= data@.len(),
                self.sspcr0 == data_size as u32,
                self.sspcr1 == 2,
                self.sspcpsr == old(self).sspcpsr,
                self.sent@ == old(self).sent@ + data@.subrange(0, i as int),
                self.sspdr == if i > 0 {
                    data@[i - 1] as u32
                } else {
                    old(self).sspdr
                },
            decreases data@.len() - i,
        {
            self.sspdr = data[i] as u32;
            self.sent = Ghost(self.sent@.push(data@[i as int]));
            proof {
                assert(old(self).sent@ + data@.subrange(0, (i + 1) as int) =~= (old(self).sent@
                    + data@.subrange(0, i as int)).push(data@[i as int]));
            }
            i = i + 1;
        }
        proof {
            assert(data@.subrange(0, data@.len() as int) =~= data@);
        }
    }
}

impl SPIDriver {
    /// Computes the divider pair for the requested baud rate and programs
    /// it into the selected port: the prescale into the clock-prescale
    /// register, the second divider into the clock-rate field (bits 8..16)
    /// of the first control register — a whole-register write, clearing the
    /// frame-size field. On failure no register changes, and the failure is
    /// reported instead of any fallback divider being programmed.
    pub fn set_baud_rate(
        &mut self,
        peripheral_frequency: u32,
        baudrate: u32,
        spi_selector: SPISelector,
    ) -> (r: Result<(u8, u8), SpiError>)
        ensures
            r is Ok <==> !baud_unreachable(peripheral_frequency as int, baudrate as int),
            r matches Ok(v) ==> {
                &&& divider_correct(
                    peripheral_frequency as int,
                    baudrate as int,
                    v.0 as int,
                    v.1 as int,
                )
                &&& final(self).regs(spi_selector).sspcpsr == v.0 as u32
                &&& final(self).regs(spi_selector).sspcr0 == (v.1 as u32) << 8
                &&& final(self).regs(spi_selector).sspcr1 == old(self).regs(spi_selector).sspcr1
                &&& final(self).regs(spi_selector).sspdr == old(self).regs(spi_selector).sspdr
                &&& final(self).regs(spi_selector).sent@ == old(self).regs(spi_selector).sent@
                &&& final(self).regs(other_port(spi_selector)) == old(self).regs(
                    other_port(spi_selector),
                )
            },
            r matches Err(e) ==> e == SpiError::UnreachableBaudRate && *final(self) == *old(self),
    {
        match compute_divider(peripheral_frequency, baudrate) {
            Ok(divider) => {
                let pscl = divider.prescale;
                let posd = divider.postdiv;
                match spi_selector {
                    SPISelector::Spi0 => {
                        self.spi0.sspcpsr = pscl as u32;
                        self.spi0.sspcr0 = (posd as u32) << 8;
                    },
                    SPISelector::Spi1 => {
                        self.spi1.sspcpsr = pscl as u32;
                        self.spi1.sspcr0 = (posd as u32) << 8;
                    },
                }
                Ok((pscl, posd))
            },
            Err(e) => Err(e),
        }
    }

    /// Sends `data` over the selected port: programs the frame size
    /// (`data_size` bits per word, between 3 and 15), forces master mode
    /// and enables the port, then hands every word in order to the
    /// transmit FIFO. The other port is untouched.
    pub fn send_data(&mut self, data_size: u8, data: &[u16], spi_selector: SPISelector)
        requires
            3 <= data_size <= 15,
        ensures
            final(self).regs(spi_selector).sspcr0 == data_size as u32,
            final(self).regs(spi_selector).sspcr1 == 2,
            final(self).regs(spi_selector).sspcpsr == old(self).regs(spi_selector).sspcpsr,
            final(self).regs(spi_selector).sent@ == old(self).regs(spi_selector).sent@ + data@,
            final(self).regs(spi_selector).sspdr == if data@.len() > 0 {
                data@[data@.len() - 1] as u32
            } else {
                old(self).regs(spi_selector).sspdr
            },
            final(self).regs(other_port(spi_selector)) == old(self).regs(
                other_port(spi_selector),
            ),
    {
        match spi_selector {
            SPISelector::Spi0 => self.spi0.send(data_size, data),
            SPISelector::Spi1 => self.spi1.send(data_size, data),
        }
    }

    /// Reads back the selected port's modelled registers: both control
    /// registers, the data register, and the clock-prescale register.
    pub fn read_registers(&self, spi_selector: SPISelector) -> (registers: (u32, u32, u32, u32))
        ensures
            registers.0 == self.regs(spi_selector).sspcr0,
            registers.1 == self.regs(spi_selector).sspcr1,
            registers.2 == self.regs(spi_selector).sspdr,
            registers.3 == self.regs(spi_selector).sspcpsr,
    {
        match spi_selector {
            SPISelector::Spi0 => (
                self.spi0.sspcr0,
                self.spi0.sspcr1,
                self.spi0.sspdr,
                self.spi0.sspcpsr,
            ),
            SPISelector::Spi1 => (
                self.spi1.sspcr0,
                self.spi1.sspcr1,
                self.spi1.sspdr,
                self.spi1.sspcpsr,
            ),
        }
    }
}

/// The divider pair for reducing `peripheral_frequency` to `baudrate`:
/// the smallest even prescale that admits the rate, then the finest
/// second divider that does not undershoot it. Fails when no prescale in
/// the hardware range can reach the rate — in particular whenever the
/// requested rate is zero.
pub fn compute_divider(peripheral_frequency: u32, baudrate: u32) -> (r: Result<
    SpiDivider,
    SpiError,
>)
    ensures
        r is Ok <==> !baud_unreachable(peripheral_frequency as int, baudrate as int),
        r matches Ok(d) ==> divider_correct(
            peripheral_frequency as int,
            baudrate as int,
            d.prescale as int,
            d.postdiv as int,
        ),
        r matches Err(e) ==> e == SpiError::UnreachableBaudRate,
{
    let freq = peripheral_frequency;
    let baud = baudrate;

    // Find the smallest even prescale value which puts the frequency in
    // range for the second divider.
    let mut prescale: u32 = 0;
    let mut p: u32 = 2;
    while p <= 254 && prescale == 0
        invariant
            2 <= p <= 256,
            p % 2 == 0,
            prescale == 0 ==> forall|q: int|
                2 <= q < p && q % 2 == 0 ==> !prescale_admits(freq as int, baud as int, q),
            prescale != 0 ==> {
                &&& prescale == p
                &&& 2 <= prescale <= 254
                &&& prescale_admits(freq as int, baud as int, prescale as int)
                &&& forall|q: int|
                    2 <= q < prescale && q % 2 == 0 ==> !prescale_admits(
                        freq as int,
                        baud as int,
                        q,
                    )
            },
        decreases 256 - p + (if prescale == 0 { 1int } else { 0int }),
    {
        proof {
            assert(((p + 2) as int) * 256 * (baud as int) <= 65536 * 0xFFFF_FFFFint)
                by (nonlinear_arith)
                requires
                    p <= 254,
                    baud <= 0xFFFF_FFFFu32,
            ;
        }
        if (freq as u64) < ((p as u64) + 2) * 256 * (baud as u64) {
            prescale = p;
        } else {
            p = p + 2;
        }
    }
    if prescale == 0 {
        return Err(SpiError::UnreachableBaudRate);
    }

    // Find the highest second divider that keeps the output rate above the
    // baud rate; zero remains when even the finest count undershoots.
    let mut postdiv: u32 = 0;
    let mut e: u32 = 255;
    while e >= 1 && postdiv == 0
        invariant
            e <= 255,
            2 <= prescale <= 254,
            postdiv == 0 ==> forall|d: int|
                e < d <= 255 ==> freq as int / #[trigger] (prescale as int * d) <= baud as int,
            postdiv != 0 ==> {
                &&& postdiv == e
                &&& 1 <= postdiv <= 255
                &&& freq as int / (prescale as int * postdiv as int) > baud as int
                &&& forall|d: int|
                    postdiv < d <= 255 ==> freq as int / #[trigger] (prescale as int * d) <= baud as int
            },
        decreases e + (if postdiv == 0 { 1int } else { 0int }),
    {
        proof {
            assert(1 <= (prescale as int) * (e as int) <= 64770) by (nonlinear_arith)
                requires
                    2 <= prescale <= 254,
                    1 <= e <= 255,
            ;
        }
        if freq / (prescale * e) > baud {
            postdiv = e;
        } else {
            e = e - 1;
        }
    }

    Ok(SpiDivider { prescale: prescale as u8, postdiv: postdiv as u8 })
}

} // verus!
