//! Register space: GPIO masks and the named GPIO registers.
use crate::transfer::{put, Transfer};
use vstd::prelude::*;

verus! {

/// Register whose bit i enables GPIO pin i.
pub const ENABLE_GPIO: u16 = 0x00;

/// Register whose bit i makes GPIO pin i an output.
pub const GPIO_DIRECTION: u16 = 0x02;

/// Enable bits of GPIO pins 8 to 15.
pub const GPIO_ENABLE_HIGH: u16 = 0x01;

/// Direction bits of GPIO pins 8 and 9, with the EEPROM interface control.
pub const GPIO_DIRECTION_HIGH: u16 = 0x03;

/// Interrupt enable bits of the low GPIO pins.
pub const GPIO_INTERRUPT: u16 = 0x05;

/// Interrupt enable bits of the high GPIO pins.
pub const GPIO_INTERRUPT_HIGH: u16 = 0x07;

/// Remote wake-up enable bits of the low GPIO pins.
pub const GPIO_WAKEUP: u16 = 0x0d;

/// Remote wake-up enable bits of the high GPIO pins.
pub const GPIO_WAKEUP_HIGH: u16 = 0x0f;

/// Sensor clock output control.
pub const SENSOR_CLOCK: u16 = 0x18;

/// Stop-clock control.
pub const STOP_CLOCK: u16 = 0x19;

/// Video settings: sync polarity and data format.
pub const VIDEO_SETTINGS: u16 = 0x100;

/// Vertical blanking interval capture control.
pub const VBI_CONTROL: u16 = 0x103;

/// First of the four capture start registers (x low, x high, y low, y high).
pub const CAPTURE_START: u16 = 0x110;

/// First of the four capture end registers (x low, x high, y low, y high).
pub const CAPTURE_END: u16 = 0x114;

/// Serial interface clock divider.
pub const SERIAL_CLOCK_DIVIDER: u16 = 0x202;

/// Clock output and timing generator control.
pub const TIMING_CONTROL: u16 = 0x300;

/// Pixel clock pulse shape.
pub const PIXEL_PULSE: u16 = 0x350;

/// Clocks per pixel.
pub const PIXEL_CLOCKS: u16 = 0x351;

/// Further pixel clock settings.
pub const PIXEL_CLOCK_EXTRA: u16 = 0x352;

/// Further pixel clock settings.
pub const PIXEL_CLOCK_EXTRA_HIGH: u16 = 0x353;

/// Whether bit `pin` of `mask` is set.
pub open spec fn pin_selected(mask: u8, pin: u8) -> bool {
    (mask >> pin) & 1u8 == 1u8
}

/// Every pin of `pins` names one of the eight bits of a mask.
pub open spec fn valid_pins(pins: Seq<u8>) -> bool {
    forall|i: int| 0 <= i < pins.len() ==> #[trigger] pins[i] < 8
}

/// The bitwise OR of `1 << p` over the pins `p` of `pins`.
pub open spec fn mask_of(pins: Seq<u8>) -> u8
    decreases pins.len(),
{
    if pins.len() == 0 {
        0
    } else {
        mask_of(pins.drop_last()) | (1u8 << pins.last())
    }
}

proof fn lemma_or_pin(m: u8, x: u8, p: u8)
    requires
        x < 8,
        p < 8,
    ensures
        pin_selected(m | (1u8 << x), p) <==> (pin_selected(m, p) || p == x),
{
    assert(((m | (1u8 << x)) >> p) & 1u8 == 1u8 <==> (((m >> p) & 1u8 == 1u8) || p == x))
        by (bit_vector)
        requires
            x < 8,
            p < 8,
    ;
}

/// Bit p of the mask is set exactly when p is one of the pins.
pub proof fn lemma_mask_bits(pins: Seq<u8>)
    requires
        valid_pins(pins),
    ensures
        forall|p: u8| p < 8 ==> (pin_selected(mask_of(pins), p) <==> pins.contains(p)),
    decreases pins.len(),
{
    if pins.len() == 0 {
        assert forall|p: u8| p < 8 implies !pin_selected(mask_of(pins), p) by {
            assert((0u8 >> p) & 1u8 != 1u8) by (bit_vector);
        }
    } else {
        let rest = pins.drop_last();
        let x = pins.last();
        assert(valid_pins(rest)) by {
            assert forall|i: int| 0 <= i < rest.len() implies #[trigger] rest[i] < 8 by {
                assert(rest[i] == pins[i]);
            }
        }
        lemma_mask_bits(rest);
        assert(x < 8) by {
            assert(pins[pins.len() - 1] < 8);
        }
        assert forall|p: u8| p < 8 implies (pin_selected(mask_of(pins), p) <==> pins.contains(p)) by {
            lemma_or_pin(mask_of(rest), x, p);
            if pins.contains(p) && p != x {
                let k = choose|k: int| 0 <= k < pins.len() && pins[k] == p;
                assert(k != pins.len() - 1);
                assert(rest[k] == p);
            }
            if rest.contains(p) {
                let k = choose|k: int| 0 <= k < rest.len() && rest[k] == p;
                assert(pins[k] == p);
            }
            if p == x {
                assert(pins[pins.len() - 1] == p);
            }
        }
    }
}

/// The mask of a pin list depends only on the set of pins it names: order and
/// repetition do not matter.
pub proof fn lemma_mask_depends_on_set(a: Seq<u8>, b: Seq<u8>)
    requires
        valid_pins(a),
        valid_pins(b),
        a.to_set() == b.to_set(),
    ensures
        mask_of(a) == mask_of(b),
{
    lemma_mask_bits(a);
    lemma_mask_bits(b);
    assert forall|p: u8| p < 8 implies (pin_selected(mask_of(a), p) == pin_selected(mask_of(b), p)) by {
        assert(a.to_set().contains(p) == a.contains(p));
        assert(b.to_set().contains(p) == b.contains(p));
    }
    let ma = mask_of(a);
    let mb = mask_of(b);
    assert(pin_selected(ma, 0) == pin_selected(mb, 0));
    assert(pin_selected(ma, 1) == pin_selected(mb, 1));
    assert(pin_selected(ma, 2) == pin_selected(mb, 2));
    assert(pin_selected(ma, 3) == pin_selected(mb, 3));
    assert(pin_selected(ma, 4) == pin_selected(mb, 4));
    assert(pin_selected(ma, 5) == pin_selected(mb, 5));
    assert(pin_selected(ma, 6) == pin_selected(mb, 6));
    assert(pin_selected(ma, 7) == pin_selected(mb, 7));
    assert(ma == mb) by (bit_vector)
        requires
            ((ma >> 0u8) & 1u8 == 1u8) == ((mb >> 0u8) & 1u8 == 1u8),
            ((ma >> 1u8) & 1u8 == 1u8) == ((mb >> 1u8) & 1u8 == 1u8),
            ((ma >> 2u8) & 1u8 == 1u8) == ((mb >> 2u8) & 1u8 == 1u8),
            ((ma >> 3u8) & 1u8 == 1u8) == ((mb >> 3u8) & 1u8 == 1u8),
            ((ma >> 4u8) & 1u8 == 1u8) == ((mb >> 4u8) & 1u8 == 1u8),
            ((ma >> 5u8) & 1u8 == 1u8) == ((mb >> 5u8) & 1u8 == 1u8),
            ((ma >> 6u8) & 1u8 == 1u8) == ((mb >> 6u8) & 1u8 == 1u8),
            ((ma >> 7u8) & 1u8 == 1u8) == ((mb >> 7u8) & 1u8 == 1u8),
    ;
}

/// A pin list that names every one of the eight pins gives the full mask.
pub proof fn lemma_all_pins_full_mask(pins: Seq<u8>)
    requires
        valid_pins(pins),
        forall|p: u8| p < 8 ==> pins.contains(p),
    ensures
        mask_of(pins) == 0xff,
{
    lemma_mask_bits(pins);
    let m = mask_of(pins);
    assert(pins.contains(0) && pins.contains(1) && pins.contains(2) && pins.contains(3));
    assert(pins.contains(4) && pins.contains(5) && pins.contains(6) && pins.contains(7));
    assert(pin_selected(m, 0) && pin_selected(m, 1) && pin_selected(m, 2) && pin_selected(m, 3));
    assert(pin_selected(m, 4) && pin_selected(m, 5) && pin_selected(m, 6) && pin_selected(m, 7));
    assert(m == 0xff) by (bit_vector)
        requires
            (m >> 0u8) & 1u8 == 1u8,
            (m >> 1u8) & 1u8 == 1u8,
            (m >> 2u8) & 1u8 == 1u8,
            (m >> 3u8) & 1u8 == 1u8,
            (m >> 4u8) & 1u8 == 1u8,
            (m >> 5u8) & 1u8 == 1u8,
            (m >> 6u8) & 1u8 == 1u8,
            (m >> 7u8) & 1u8 == 1u8,
    ;
}

/// The empty pin list gives the empty mask.
pub proof fn lemma_no_pins_empty_mask(pins: Seq<u8>)
    requires
        pins.len() == 0,
    ensures
        mask_of(pins) == 0,
{
}

/// The 8-bit mask with bit p set for each pin p in `bits`.
pub fn set_bits_u8(bits: &[u8]) -> (r: u8)
    requires
        valid_pins(bits@),
    ensures
        r == mask_of(bits@),
        forall|p: u8| p < 8 ==> (pin_selected(r, p) <==> bits@.contains(p)),
{
    let mut rslt: u8 = 0;
    let mut i: usize = 0;
    while i < bits.len()
        invariant
            i <= bits@.len(),
            valid_pins(bits@),
            rslt == mask_of(bits@.subrange(0, i as int)),
        decreases bits@.len() - i,
    {
        let bit = bits[i];
        assert(bit < 8);
        rslt = rslt | (1u8 << bit);
        assert(bits@.subrange(0, i + 1).drop_last() =~= bits@.subrange(0, i as int));
        i = i + 1;
    }
    assert(bits@.subrange(0, bits@.len() as int) =~= bits@);
    proof {
        lemma_mask_bits(bits@);
    }
    rslt
}

/// The write that enables exactly the GPIO pins `pins`.
pub fn enable_gpio(pins: &[u8]) -> (r: Transfer)
    requires
        valid_pins(pins@),
    ensures
        r == put(ENABLE_GPIO, mask_of(pins@) as u16),
{
    Transfer::Write { index: ENABLE_GPIO, value: set_bits_u8(pins) as u16 }
}

/// The write that makes exactly the low GPIO pins `pins` outputs.
pub fn set_lower_gpio_output(pins: &[u8]) -> (r: Transfer)
    requires
        valid_pins(pins@),
    ensures
        r == put(GPIO_DIRECTION, mask_of(pins@) as u16),
{
    Transfer::Write { index: GPIO_DIRECTION, value: set_bits_u8(pins) as u16 }
}

/// The masks of the pin sets used at start-up.
pub proof fn lemma_start_masks()
    ensures
        mask_of(seq![5u8, 6u8]) == 0x60,
        mask_of(seq![3u8, 5u8, 6u8, 7u8]) == 0xe8,
{
    reveal_with_fuel(mask_of, 5);
    let a = seq![5u8, 6u8];
    assert(a.drop_last().drop_last().len() == 0);
    assert(((0u8 | (1u8 << 5u8)) | (1u8 << 6u8)) == 0x60u8) by (bit_vector);
    let b = seq![3u8, 5u8, 6u8, 7u8];
    assert(b.drop_last().drop_last().drop_last().drop_last().len() == 0);
    assert(((((0u8 | (1u8 << 3u8)) | (1u8 << 5u8)) | (1u8 << 6u8)) | (1u8 << 7u8)) == 0xe8u8) by (bit_vector);
}

} // verus!
