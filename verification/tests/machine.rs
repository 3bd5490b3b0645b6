use adc_sampler::machine::combine_bytes;
use adc_sampler::machine::transmit_ready;
use adc_sampler::machine::Machine;
use adc_sampler::machine::CARRIAGE_RETURN;
use adc_sampler::machine::STATUS_MASK;
use adc_sampler::machine::TIMER_RELOAD;

#[test]
fn combine_bytes_puts_high_byte_in_upper_bits() {
    assert_eq!(combine_bytes(0x02, 0x34), 0x0234);
    assert_eq!(combine_bytes(0x00, 0x00), 0);
    assert_eq!(combine_bytes(0xFF, 0xFF), 65535);
    assert_eq!(combine_bytes(0x02, 0x00), 512);
}

#[test]
fn indicator_flips_once_per_tick() {
    let mut m = Machine::new();
    assert_eq!(m.regs.portb & STATUS_MASK, 0);
    m.timer_tick();
    assert_ne!(m.regs.portb & STATUS_MASK, 0);
    m.timer_tick();
    assert_eq!(m.regs.portb & STATUS_MASK, 0);
}

#[test]
fn port_returns_after_even_number_of_ticks() {
    let mut m = Machine::new();
    m.regs.portb = 0xA5;
    let before = m.regs.portb;
    for _ in 0..6 {
        m.timer_tick();
    }
    assert_eq!(m.regs.portb, before);
    m.timer_tick();
    assert_ne!(m.regs.portb, before);
}

#[test]
fn tick_reloads_counter_and_requests_conversion() {
    let mut m = Machine::new();
    m.regs.tcnt1 = 123;
    m.timer_tick();
    assert_eq!(m.regs.tcnt1, TIMER_RELOAD);
    assert!(m.conversion_in_progress());
}

#[test]
fn ready_flag_lifecycle() {
    let mut m = Machine::new();
    assert!(!m.ready);
    m.timer_tick();
    assert!(!m.ready);
    m.store_result(0x10, 0x01);
    assert!(!m.ready);
    m.conversion_complete();
    assert!(m.ready);
    let transmitted = m.main_loop_step();
    assert!(transmitted);
    assert!(!m.ready);
    m.timer_tick();
    m.store_result(0x20, 0x01);
    assert!(!m.ready);
    m.conversion_complete();
    assert!(m.ready);
}

#[test]
fn store_result_clears_start_bit_and_holds_sample() {
    let mut m = Machine::new();
    m.start_conversion();
    assert!(m.conversion_in_progress());
    m.store_result(0x34, 0x02);
    assert!(!m.conversion_in_progress());
    assert_eq!(m.read_sample(), 0x0234);
}

#[test]
fn main_loop_transmits_sample_512_then_carriage_return() {
    let mut m = Machine::new();
    m.store_result(0x00, 0x02);
    m.conversion_complete();
    let transmitted = m.main_loop_step();
    assert!(transmitted);
    assert_eq!(m.sent, vec![b'5', b'1', b'2', CARRIAGE_RETURN]);
}

#[test]
fn main_loop_idle_without_completion() {
    let mut m = Machine::new();
    m.store_result(0x00, 0x02);
    let transmitted = m.main_loop_step();
    assert!(!transmitted);
    assert!(m.sent.is_empty());
}

#[test]
fn main_loop_consumes_one_completion_per_transmission() {
    let mut m = Machine::new();
    m.store_result(0x07, 0x00);
    m.conversion_complete();
    assert!(m.main_loop_step());
    assert!(!m.main_loop_step());
    assert_eq!(m.sent, vec![b'7', CARRIAGE_RETURN]);
}

#[test]
fn send_string_appends_bytes_in_order() {
    let mut m = Machine::new();
    m.send_string_uart(b"ok");
    m.send_byte(CARRIAGE_RETURN);
    assert_eq!(m.sent, vec![b'o', b'k', CARRIAGE_RETURN]);
}

#[test]
fn transmit_ready_reads_status_bit() {
    assert!(transmit_ready(0b0100_0000));
    assert!(transmit_ready(0xFF));
    assert!(!transmit_ready(0b1011_1111));
    assert!(!transmit_ready(0));
}

#[test]
fn configuration_writes_fixed_values() {
    let mut m = Machine::new();
    m.config_timer();
    assert_eq!(m.regs.ddrb, 0xFF);
    assert_eq!(m.regs.tccr1a, 0);
    assert_eq!(m.regs.tccr1b, 2);
    assert_eq!(m.regs.timsk1, 1);
    assert_eq!(m.regs.tcnt1, TIMER_RELOAD);
    assert!(m.interrupts_enabled);
    m.config_uart0();
    assert_eq!(m.regs.ucsr0c, 0b0000_0110);
    assert_eq!(m.regs.ubrr0, 51);
    assert_eq!(m.regs.ucsr0b, 0x18);
    m.config_adc();
    assert_eq!(m.regs.admux, 0x45);
    assert_eq!(m.regs.adcsra, 0x8E);
    m.init_io();
    assert_eq!(m.regs.eicra, 2);
    assert_eq!(m.regs.eimsk, 1);
    assert_eq!(m.regs.portd, 4);
}

#[test]
fn pin_enable_and_disable_touch_only_their_bit() {
    let mut m = Machine::new();
    m.regs.didr0 = 0b0000_1001;
    m.adc_pin_enable(5);
    assert_eq!(m.regs.didr0, 0b0010_1001);
    m.adc_pin_disable(0);
    assert_eq!(m.regs.didr0, 0b0010_1000);
}

#[test]
fn pin_select_keeps_reference_bits() {
    let mut m = Machine::new();
    m.regs.admux = 0x45;
    m.adc_pin_select(3);
    assert_eq!(m.regs.admux, 0x43);
}
