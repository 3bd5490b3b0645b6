//! Register-level model of the acquisition subsystem.
//!
//! The peripheral registers are held as plain bytes in [`Registers`]; the
//! hardware around them (the physical pins, the timer countdown, the serial
//! shift register) lives outside this model and drives it by calling the
//! transition methods below. [`Machine`] adds the one piece of state shared
//! between interrupt context and the main loop — the ready flag — and a log
//! of every byte handed to the serial link, so that contracts can speak
//! about exactly what was transmitted.

use vstd::prelude::*;

use crate::encoder::digits_of;
use crate::encoder::int_to_ascii;

verus! {

/// Bit mask of the status indicator line (bit 6 of the output port).
pub const STATUS_MASK: u8 = 0x40;

/// Bit mask of the conversion-start control bit (bit 6 of the conversion
/// control register); the hardware clears it when a conversion finishes.
pub const CONVERSION_START_MASK: u8 = 0x40;

/// Counter reload value: the timer overflows after a fixed count from here,
/// which sets the tick period.
pub const TIMER_RELOAD: u16 = 55535;

/// Byte sent after each encoded sample.
pub const CARRIAGE_RETURN: u8 = 0x0D;

/// Bit mask of the transmit-ready bit in the serial status byte.
pub const TRANSMIT_READY_MASK: u8 = 0x40;

/// The peripheral register map, as plain bytes: direction registers, the
/// output port carrying the status indicator, timer configuration and
/// counter, serial configuration, and the conversion control register with
/// its two-part result.
pub struct Registers {
    pub ddrb: u8,
    pub ddrd: u8,
    pub portb: u8,
    pub portd: u8,
    pub eicra: u8,
    pub eimsk: u8,
    pub tccr1a: u8,
    pub tccr1b: u8,
    pub timsk1: u8,
    pub tcnt1: u16,
    pub ucsr0b: u8,
    pub ucsr0c: u8,
    pub ubrr0: u16,
    pub admux: u8,
    pub adcsra: u8,
    pub adcl: u8,
    pub adch: u8,
    pub didr0: u8,
}

/// The events that change the acquisition state, in the order they appear in
/// one cycle: the periodic tick, the hardware finishing a conversion and
/// storing its result, the completion interrupt, and one pass of the main
/// loop.
pub enum Event {
    TimerTick,
    ResultStored,
    ConversionComplete,
    LoopStep,
}

/// The ready flag after one event: only a conversion completion sets it, and
/// a pass of the main loop leaves it cleared.
pub open spec fn ready_after(ready: bool, e: Event) -> bool {
    match e {
        Event::ConversionComplete => true,
        Event::LoopStep => false,
        _ => ready,
    }
}

/// The ready flag after a whole sequence of events.
pub open spec fn ready_after_events(ready: bool, es: Seq<Event>) -> bool
    decreases es.len(),
{
    if es.len() == 0 {
        ready
    } else {
        ready_after_events(ready_after(ready, es[0]), es.subrange(1, es.len() as int))
    }
}

/// Starting from a cleared ready flag — as at startup, or right after the
/// main loop consumed a sample — the flag stays false across any sequence of
/// events that holds no conversion completion: completion is the only event
/// that sets it.
pub proof fn lemma_ready_only_completion_sets(es: Seq<Event>)
    requires
        forall|i: int| 0 <= i < es.len() ==> !((#[trigger] es[i]) is ConversionComplete),
    ensures
        !ready_after_events(false, es),
    decreases es.len(),
{
    if es.len() > 0 {
        let rest = es.subrange(1, es.len() as int);
        assert(forall|i: int| 0 <= i < rest.len() ==> rest[i] == es[i + 1]);
        lemma_ready_only_completion_sets(rest);
    }
}

/// The output port after `n` timer ticks, each of which toggles the status
/// indicator bit and nothing else of the port.
pub open spec fn port_after_ticks(portb: u8, n: nat) -> u8
    decreases n,
{
    if n == 0 {
        portb
    } else {
        port_after_ticks(portb, (n - 1) as nat) ^ STATUS_MASK
    }
}

/// Each tick flips the status indicator exactly once, so after an even
/// number of tick firings the output port — the indicator bit included — is
/// back to its original value.
pub proof fn lemma_indicator_even_ticks(portb: u8, k: nat)
    ensures
        port_after_ticks(portb, 2 * k) == portb,
    decreases k,
{
    if k > 0 {
        lemma_indicator_even_ticks(portb, (k - 1) as nat);
        let p = port_after_ticks(portb, 2 * (k - 1) as nat);
        assert(2 * k - 1 == 2 * (k - 1) as nat + 1);
        assert(port_after_ticks(portb, (2 * k - 1) as nat) == p ^ STATUS_MASK);
        assert((p ^ STATUS_MASK) ^ STATUS_MASK == p) by (bit_vector);
    }
}

/// The sample value that a stored low and high result byte denote: the high
/// byte in the upper bits, the low byte in the lower bits.
pub open spec fn combined_sample(high: u8, low: u8) -> u16 {
    (high as u16 * 256 + low as u16) as u16
}

/// Combines the two result bytes into one sample, high byte in the upper
/// bits.
pub fn combine_bytes(high: u8, low: u8) -> (sample: u16)
    ensures
        sample == combined_sample(high, low),
        sample as int == high as int * 256 + low as int,
{
    let h: u16 = high as u16;
    let l: u16 = low as u16;
    proof {
        assert((h << 8) | l == h * 256 + l) by (bit_vector)
            requires
                h <= 255,
                l <= 255,
        ;
    }
    (h << 8) | l
}

/// Whether a serial status byte says the transmitter can take another byte.
pub fn transmit_ready(serial_status: u8) -> (ready: bool)
    ensures
        ready == (serial_status & TRANSMIT_READY_MASK != 0),
{
    serial_status & TRANSMIT_READY_MASK != 0
}

/// The acquisition state: the register map, the ready flag shared between
/// the completion interrupt and the main loop, the global interrupt enable,
/// and the log of every byte handed to the serial link.
pub struct Machine {
    pub regs: Registers,
    pub ready: bool,
    pub interrupts_enabled: bool,
    pub sent: Vec<u8>,
}

impl Machine {
    /// Whether the status indicator line is currently driven high.
    pub open spec fn indicator_on(&self) -> bool {
        self.regs.portb & STATUS_MASK != 0
    }

    /// Whether a conversion has been requested and not yet finished.
    pub open spec fn conversion_requested(&self) -> bool {
        self.regs.adcsra & CONVERSION_START_MASK != 0
    }

    /// The sample currently held in the two-part result register.
    pub open spec fn sample(&self) -> u16 {
        combined_sample(self.regs.adch, self.regs.adcl)
    }

    /// The state at power-on: every register zero, the ready flag cleared,
    /// interrupts off, nothing transmitted.
    pub fn new() -> (m: Machine)
        ensures
            m.regs == (Registers {
                ddrb: 0,
                ddrd: 0,
                portb: 0,
                portd: 0,
                eicra: 0,
                eimsk: 0,
                tccr1a: 0,
                tccr1b: 0,
                timsk1: 0,
                tcnt1: 0,
                ucsr0b: 0,
                ucsr0c: 0,
                ubrr0: 0,
                admux: 0,
                adcsra: 0,
                adcl: 0,
                adch: 0,
                didr0: 0,
            }),
            !m.ready,
            !m.interrupts_enabled,
            m.sent@ == Seq::<u8>::empty(),
            !m.indicator_on(),
            !m.conversion_requested(),
    {
        let m = Machine {
            regs: Registers {
                ddrb: 0,
                ddrd: 0,
                portb: 0,
                portd: 0,
                eicra: 0,
                eimsk: 0,
                tccr1a: 0,
                tccr1b: 0,
                timsk1: 0,
                tcnt1: 0,
                ucsr0b: 0,
                ucsr0c: 0,
                ubrr0: 0,
                admux: 0,
                adcsra: 0,
                adcl: 0,
                adch: 0,
                didr0: 0,
            },
            ready: false,
            interrupts_enabled: false,
            sent: Vec::new(),
        };
        proof {
            assert(0u8 & STATUS_MASK == 0) by (bit_vector);
            assert(0u8 & CONVERSION_START_MASK == 0) by (bit_vector);
        }
        m
    }

    /// The timer overflow handler: toggles the status indicator by a
    /// read-modify-write on the output port, reloads the counter so the next
    /// tick fires after the same interval, and requests a new conversion.
    /// It touches nothing else — in particular not the ready flag.
    pub fn timer_tick(&mut self)
        ensures
            final(self).regs == (Registers {
                portb: old(self).regs.portb ^ STATUS_MASK,
                tcnt1: TIMER_RELOAD,
                adcsra: old(self).regs.adcsra | CONVERSION_START_MASK,
                ..old(self).regs
            }),
            final(self).indicator_on() == !old(self).indicator_on(),
            final(self).conversion_requested(),
            final(self).ready == ready_after(old(self).ready, Event::TimerTick),
            final(self).ready == old(self).ready,
            final(self).interrupts_enabled == old(self).interrupts_enabled,
            final(self).sent == old(self).sent,
    {
        let pb: u8 = self.regs.portb;
        self.regs.portb = pb ^ STATUS_MASK;
        self.regs.tcnt1 = TIMER_RELOAD;
        let cr: u8 = self.regs.adcsra;
        self.regs.adcsra = cr | CONVERSION_START_MASK;
        proof {
            assert(((pb ^ STATUS_MASK) & STATUS_MASK != 0) <==> (pb & STATUS_MASK == 0))
                by (bit_vector);
            assert((cr | CONVERSION_START_MASK) & CONVERSION_START_MASK != 0) by (bit_vector);
        }
    }

    /// The conversion-complete interrupt handler: its single side effect is
    /// to set the ready flag. It does not read the result registers — the
    /// main loop reads them later.
    pub fn conversion_complete(&mut self)
        ensures
            final(self).ready == ready_after(old(self).ready, Event::ConversionComplete),
            final(self).ready,
            final(self).regs == old(self).regs,
            final(self).interrupts_enabled == old(self).interrupts_enabled,
            final(self).sent == old(self).sent,
    {
        self.ready = true;
    }

    /// The conversion hardware finishing: it deposits the result in the
    /// two-part result register and clears the conversion-start bit. This is
    /// an action of the environment, not of any handler.
    pub fn store_result(&mut self, low: u8, high: u8)
        ensures
            final(self).regs == (Registers {
                adcl: low,
                adch: high,
                adcsra: old(self).regs.adcsra & !CONVERSION_START_MASK,
                ..old(self).regs
            }),
            !final(self).conversion_requested(),
            final(self).sample() == combined_sample(high, low),
            final(self).ready == ready_after(old(self).ready, Event::ResultStored),
            final(self).ready == old(self).ready,
            final(self).interrupts_enabled == old(self).interrupts_enabled,
            final(self).sent == old(self).sent,
    {
        self.regs.adcl = low;
        self.regs.adch = high;
        let cr: u8 = self.regs.adcsra;
        self.regs.adcsra = cr & !CONVERSION_START_MASK;
        proof {
            assert((cr & !CONVERSION_START_MASK) & CONVERSION_START_MASK == 0) by (bit_vector);
        }
    }

    /// Requests a conversion by a read-modify-write of the conversion-start
    /// bit, disturbing no other bit of the control register.
    pub fn start_conversion(&mut self)
        ensures
            final(self).regs == (Registers {
                adcsra: old(self).regs.adcsra | CONVERSION_START_MASK,
                ..old(self).regs
            }),
            final(self).conversion_requested(),
            final(self).ready == old(self).ready,
            final(self).interrupts_enabled == old(self).interrupts_enabled,
            final(self).sent == old(self).sent,
    {
        let cr: u8 = self.regs.adcsra;
        self.regs.adcsra = cr | CONVERSION_START_MASK;
        proof {
            assert((cr | CONVERSION_START_MASK) & CONVERSION_START_MASK != 0) by (bit_vector);
        }
    }

    /// Whether the requested conversion is still running: the hardware
    /// clears the start bit when it finishes.
    pub fn conversion_in_progress(&self) -> (running: bool)
        ensures
            running == self.conversion_requested(),
    {
        self.regs.adcsra & CONVERSION_START_MASK != 0
    }

    /// Reads the latest completed sample from the two result bytes.
    pub fn read_sample(&self) -> (sample: u16)
        ensures
            sample == self.sample(),
    {
        combine_bytes(self.regs.adch, self.regs.adcl)
    }

    /// Hands one byte to the serial link.
    pub fn send_byte(&mut self, byte: u8)
        ensures
            final(self).sent@ == old(self).sent@.push(byte),
            final(self).regs == old(self).regs,
            final(self).ready == old(self).ready,
            final(self).interrupts_enabled == old(self).interrupts_enabled,
    {
        self.sent.push(byte);
    }

    /// Sends every byte of `data` in order over the serial link. Between
    /// bytes the hardware is paced by the transmit-ready status bit, which
    /// the caller polls with [`transmit_ready`]; the pacing changes no
    /// modeled state.
    #[verifier::loop_isolation(false)]
    pub fn send_string_uart(&mut self, data: &[u8])
        ensures
            final(self).sent@ == old(self).sent@ + data@,
            final(self).regs == old(self).regs,
            final(self).ready == old(self).ready,
            final(self).interrupts_enabled == old(self).interrupts_enabled,
    {
        let mut i: usize = 0;
        while i < data.len()
            invariant
                i <= data@.len(),
                self.sent@ == old(self).sent@ + data@.subrange(0, i as int),
                self.regs == old(self).regs,
                self.ready == old(self).ready,
                self.interrupts_enabled == old(self).interrupts_enabled,
            decreases data@.len() - i,
        {
            self.send_byte(data[i]);
            proof {
                assert(old(self).sent@ + data@.subrange(0, (i + 1) as int)
                    =~= (old(self).sent@ + data@.subrange(0, i as int)).push(data@[i as int]));
            }
            i = i + 1;
        }
        proof {
            assert(data@.subrange(0, data@.len() as int) =~= data@);
        }
    }

    /// One-time timer setup: output port direction, normal timer mode with
    /// the fixed prescaler, the overflow interrupt enabled, the counter
    /// started from its reload value, the pull-up on the external interrupt
    /// pin, and global interrupts on.
    pub fn config_timer(&mut self)
        ensures
            final(self).regs == (Registers {
                ddrb: 0xFF,
                tccr1a: 0,
                tccr1b: 2,
                timsk1: 1,
                tcnt1: TIMER_RELOAD,
                portd: 4,
                ..old(self).regs
            }),
            final(self).interrupts_enabled,
            final(self).ready == old(self).ready,
            final(self).sent == old(self).sent,
    {
        self.regs.ddrb = 0xFF;
        self.regs.tccr1a = 0;
        self.regs.tccr1b = 2;
        self.regs.timsk1 = 1;
        self.regs.tcnt1 = TIMER_RELOAD;
        self.regs.portd = 4;
        self.interrupts_enabled = true;
    }

    /// One-time serial setup: frame format of eight data bits and one stop
    /// bit, the divisor for the fixed baud rate, transmitter and receiver
    /// enabled.
    pub fn config_uart0(&mut self)
        ensures
            final(self).regs == (Registers {
                ucsr0c: 0b00000110,
                ubrr0: 51,
                ucsr0b: 0x18,
                ..old(self).regs
            }),
            final(self).ready == old(self).ready,
            final(self).interrupts_enabled == old(self).interrupts_enabled,
            final(self).sent == old(self).sent,
    {
        self.regs.ucsr0c = 0b00000110;
        self.regs.ubrr0 = 51;
        self.regs.ucsr0b = 0x18;
    }

    /// One-time conversion setup: source channel and reference selected, the
    /// converter enabled with its prescaler, and the completion interrupt on.
    pub fn config_adc(&mut self)
        ensures
            final(self).regs == (Registers { admux: 0x45, adcsra: 0x8E, ..old(self).regs }),
            final(self).ready == old(self).ready,
            final(self).interrupts_enabled == old(self).interrupts_enabled,
            final(self).sent == old(self).sent,
    {
        self.regs.admux = 0x45;
        self.regs.adcsra = 0x8E;
    }

    /// Remaining startup configuration: port directions, the external
    /// interrupt on a falling edge, its pull-up, and global interrupts on.
    pub fn init_io(&mut self)
        ensures
            final(self).regs == (Registers {
                ddrb: 0xFF,
                ddrd: 0,
                eicra: 2,
                eimsk: 1,
                portd: 4,
                ..old(self).regs
            }),
            final(self).interrupts_enabled,
            final(self).ready == old(self).ready,
            final(self).sent == old(self).sent,
    {
        self.regs.ddrb = 0xFF;
        self.regs.ddrd = 0;
        self.regs.eicra = 2;
        self.regs.eimsk = 1;
        self.regs.portd = 4;
        self.interrupts_enabled = true;
    }

    /// Disables the digital input buffer on one conversion pin by a
    /// read-modify-write, leaving the other pins' bits untouched.
    pub fn adc_pin_enable(&mut self, pin: u8)
        requires
            pin < 8,
        ensures
            final(self).regs == (Registers {
                didr0: old(self).regs.didr0 | (1u8 << pin),
                ..old(self).regs
            }),
            final(self).ready == old(self).ready,
            final(self).interrupts_enabled == old(self).interrupts_enabled,
            final(self).sent == old(self).sent,
    {
        let d: u8 = self.regs.didr0;
        self.regs.didr0 = d | (1u8 << pin);
    }

    /// Re-enables the digital input buffer on one conversion pin by a
    /// read-modify-write, leaving the other pins' bits untouched.
    pub fn adc_pin_disable(&mut self, pin: u8)
        requires
            pin < 8,
        ensures
            final(self).regs == (Registers {
                didr0: old(self).regs.didr0 & !(1u8 << pin),
                ..old(self).regs
            }),
            final(self).ready == old(self).ready,
            final(self).interrupts_enabled == old(self).interrupts_enabled,
            final(self).sent == old(self).sent,
    {
        let d: u8 = self.regs.didr0;
        self.regs.didr0 = d & !(1u8 << pin);
    }

    /// One pass of the main acquisition loop, gated on the ready flag: when
    /// a conversion has completed since the last pass, it clears the flag,
    /// reads the sample from the two result bytes, encodes it, and sends the
    /// digits followed by a carriage return, in that order with nothing
    /// interleaved. When no completion is pending it sends nothing. (The
    /// free-running variant, which transmits every pass and leaves the flag
    /// unread, is a latent defect; consuming the flag is the intended
    /// behavior.)
    #[verifier::loop_isolation(false)]
    pub fn main_loop_step(&mut self) -> (transmitted: bool)
        ensures
            transmitted == old(self).ready,
            final(self).ready == ready_after(old(self).ready, Event::LoopStep),
            !final(self).ready,
            transmitted ==> final(self).sent@ == old(self).sent@
                + digits_of(old(self).sample() as nat) + seq![CARRIAGE_RETURN],
            !transmitted ==> final(self).sent@ == old(self).sent@,
            final(self).regs == old(self).regs,
            final(self).interrupts_enabled == old(self).interrupts_enabled,
    {
        if !self.ready {
            return false;
        }
        self.ready = false;
        let sample: u16 = combine_bytes(self.regs.adch, self.regs.adcl);
        let ghost ds = digits_of(sample as nat);
        let mut buffer: [u8; 5] = [0u8; 5];
        let length: usize = int_to_ascii(sample, &mut buffer);
        let mut i: usize = 0;
        while i < length
            invariant
                i <= length,
                buffer@.subrange(0, length as int) == ds,
                self.sent@ == old(self).sent@ + ds.subrange(0, i as int),
                self.ready == false,
                self.regs == old(self).regs,
                self.interrupts_enabled == old(self).interrupts_enabled,
            decreases length - i,
        {
            proof {
                assert(buffer@[i as int] == ds[i as int]);
            }
            self.send_byte(buffer[i]);
            proof {
                assert(old(self).sent@ + ds.subrange(0, (i + 1) as int)
                    =~= (old(self).sent@ + ds.subrange(0, i as int)).push(ds[i as int]));
            }
            i = i + 1;
        }
        proof {
            assert(ds.subrange(0, length as int) =~= ds);
        }
        self.send_byte(CARRIAGE_RETURN);
        proof {
            assert(old(self).sent@ + ds + seq![CARRIAGE_RETURN]
                =~= (old(self).sent@ + ds).push(CARRIAGE_RETURN));
        }
        true
    }

    /// Selects the conversion source channel: clears the channel-select bits
    /// and ORs the requested channel in, keeping the reference bits.
    pub fn adc_pin_select(&mut self, source: u8)
        ensures
            final(self).regs == (Registers {
                admux: (old(self).regs.admux & 0xF0) | source,
                ..old(self).regs
            }),
            final(self).ready == old(self).ready,
            final(self).interrupts_enabled == old(self).interrupts_enabled,
            final(self).sent == old(self).sent,
    {
        let m: u8 = self.regs.admux;
        self.regs.admux = (m & 0xF0) | source;
    }
}

} // verus!
