use userspace::fpioa::FPIOA;
use userspace::gpiohs::{direction, get_pin, set_direction, set_pin, GPIOHS};
use userspace::sleep::usleep_ticks;
use userspace::sysctl::Sysctl;
use userspace::uarth::{configure, UARTHS};
use userspace::virtio::{virtio_dma_dealloc, Error, ReadOnly, Volatile, WriteOnly, DMA};

#[test]
fn fpioa_pin_fields() {
    let mut f = FPIOA::new();
    f.fpioa.io.ch_sel(5, 0x12).pu(5, true);
    assert_eq!(f.fpioa.io.read(5), 0x1_0012);
    f.fpioa.io.pd(5, true).pu(5, false);
    assert_eq!(f.fpioa.io.read(5), 0x2_0012);
    assert_eq!(f.fpioa.io.read(4), 0);
    assert_eq!(f.fpioa.io.regs.len(), 48);
}

#[test]
fn gpiohs_pins() {
    let mut g = GPIOHS::new();
    set_direction(&mut g.gpiohs, 3, direction::OUTPUT);
    assert_eq!(g.gpiohs.output_en.read(), 8);
    assert_eq!(g.gpiohs.input_en.read(), 0);
    set_pin(&mut g.gpiohs, 3, true);
    assert_eq!(g.gpiohs.output_val.read(), 8);
    set_direction(&mut g.gpiohs, 3, direction::INPUT);
    assert_eq!(g.gpiohs.output_en.read(), 0);
    assert_eq!(g.gpiohs.input_en.read(), 8);
    g.gpiohs.input_val.write(0x8);
    assert!(get_pin(&g.gpiohs, 3));
    assert!(!get_pin(&g.gpiohs, 2));
}

#[test]
fn uarths_divisor() {
    let mut u = UARTHS::new();
    configure(&mut u, 115_200, 390_000_000);
    assert_eq!(u.div.read(), 3384);
    assert_eq!(u.txctrl.bits, 1);
    assert_eq!(u.rxctrl.bits, 1);
}

#[test]
fn sleep_ticks_from_cpu_clock() {
    let s = Sysctl::new();
    // 26 MHz / 62 = 419354 ticks a second.
    assert_eq!(usleep_ticks(&s, 1_000), 419);
    assert_eq!(usleep_ticks(&s, 1_000_000), 419_354);
    assert_eq!(usleep_ticks(&s, 1), 0);
}

#[test]
fn dma_regions() {
    assert!(matches!(DMA::new(0, 1), Err(Error::DmaError)));
    let d = DMA::new(0x8000_3000, 2).ok().unwrap();
    assert_eq!(d.paddr(), 0x8000_3000);
    assert_eq!(d.pfn(), 0x8_0003);
    assert_eq!(virtio_dma_dealloc(d.paddr(), 2), 0);
}

#[test]
fn volatile_registers() {
    let mut v = Volatile::new(5u32);
    assert_eq!(v.read(), 5);
    v.write(9);
    assert_eq!(v.read(), 9);
    let r = ReadOnly(Volatile::new(3u16));
    assert_eq!(r.read(), 3);
    let mut w = WriteOnly(Volatile::new(0u8));
    w.write(7);
    assert_eq!(w.0.read(), 7);
}
