use vstd::prelude::*;

verus! {

/// The gamepad: a latched 8-bit shift register. Bit 0 is A, then B, Select,
/// Start, Up, Down, Left, and Right in bit 7.
pub struct Controller {
    /// The shift register that reads pop from.
    pub register: u8,
    /// The buttons that the host reports as held.
    pub buttons: u8,
    /// The strobe latch: while it is high the register follows the buttons.
    pub strobe: bool,
}

/// The register after one read: shifted right, a 1 fed in at the top.
pub open spec fn shifted(register: u8) -> u8 {
    ((register >> 1u8) | 0x80u8) as u8
}

/// The register after `n` reads.
pub open spec fn shifted_n(register: u8, n: nat) -> u8
    decreases n,
{
    if n == 0 {
        register
    } else {
        shifted(shifted_n(register, (n - 1) as nat))
    }
}

/// Packs the eight buttons into the register's bit order.
pub open spec fn button_byte(
    a: bool,
    b: bool,
    select: bool,
    start: bool,
    up: bool,
    down: bool,
    left: bool,
    right: bool,
) -> u8 {
    ((if a { 0x01u8 } else { 0 }) | (if b { 0x02u8 } else { 0 }) | (if select { 0x04u8 } else { 0 })
        | (if start { 0x08u8 } else { 0 }) | (if up { 0x10u8 } else { 0 }) | (if down { 0x20u8 } else { 0 })
        | (if left { 0x40u8 } else { 0 }) | (if right { 0x80u8 } else { 0 })) as u8
}

impl Controller {
    /// The value read at the controller port without any effect.
    pub open spec fn bit_spec(&self) -> u8 {
        if self.strobe {
            self.buttons & 1
        } else {
            self.register & 1
        }
    }

    /// The controller after one read at its port.
    pub open spec fn after_read(&self) -> Controller {
        if self.strobe {
            *self
        } else {
            Controller { register: shifted(self.register), ..*self }
        }
    }

    /// The controller after a write of the strobe latch.
    pub open spec fn after_strobe(&self, level: bool) -> Controller {
        Controller {
            register: if level { self.buttons } else { self.register },
            strobe: level,
            ..*self
        }
    }

    pub fn new() -> (r: Controller)
        ensures
            r.register == 0,
            r.buttons == 0,
            !r.strobe,
    {
        Controller { register: 0, buttons: 0, strobe: false }
    }

    /// Takes the held buttons, one flag each, as the host's snapshot.
    pub fn update_register_by_input(
        &mut self,
        a: bool,
        b: bool,
        select: bool,
        start: bool,
        up: bool,
        down: bool,
        left: bool,
        right: bool,
    )
        ensures
            *final(self) == (Controller {
                buttons: button_byte(a, b, select, start, up, down, left, right),
                register: if old(self).strobe {
                    button_byte(a, b, select, start, up, down, left, right)
                } else {
                    old(self).register
                },
                strobe: old(self).strobe,
            }),
    {
        let held: u8 = (if a { 0x01u8 } else { 0 }) | (if b { 0x02u8 } else { 0 }) | (if select {
            0x04u8
        } else {
            0
        }) | (if start { 0x08u8 } else { 0 }) | (if up { 0x10u8 } else { 0 }) | (if down {
            0x20u8
        } else {
            0
        }) | (if left { 0x40u8 } else { 0 }) | (if right { 0x80u8 } else { 0 });
        self.update_register(held);
    }

    /// Takes the held buttons as one byte; while the strobe is high the register
    /// follows them at once.
    pub fn update_register(&mut self, data: u8)
        ensures
            *final(self) == (Controller {
                buttons: data,
                register: if old(self).strobe { data } else { old(self).register },
                strobe: old(self).strobe,
            }),
    {
        self.buttons = data;
        if self.strobe {
            self.register = data;
        }
    }

    /// Sets the strobe latch; high loads the register from the buttons, low
    /// freezes it.
    pub fn strobe(&mut self, level: bool)
        ensures
            *final(self) == old(self).after_strobe(level),
    {
        self.strobe = level;
        if level {
            self.register = self.buttons;
        }
    }

    /// Pops bit 0 of the register; a 1 comes in at the top.
    pub fn read_bit(&mut self) -> (bit: u8)
        ensures
            bit == old(self).bit_spec(),
            *final(self) == old(self).after_read(),
            bit <= 1,
    {
        proof {
            lemma_low_bit(self.buttons);
            lemma_low_bit(self.register);
        }
        if self.strobe {
            self.buttons & 1
        } else {
            let bit = self.register & 1;
            self.register = (self.register >> 1) | 0x80;
            bit
        }
    }

    /// Bit 0 as the next read would return it, without a shift.
    pub fn read_only_bit(&self) -> (bit: u8)
        ensures
            bit == self.bit_spec(),
    {
        if self.strobe {
            self.buttons & 1
        } else {
            self.register & 1
        }
    }

    pub fn read_register(&self) -> (r: u8)
        ensures
            r == self.register,
    {
        self.register
    }
}

/// The controller after `n` reads at its port.
pub open spec fn reads_n(c: Controller, n: nat) -> Controller
    decreases n,
{
    if n == 0 {
        c
    } else {
        reads_n(c, (n - 1) as nat).after_read()
    }
}

proof fn lemma_shifted_n_bit(r: u8, n: nat)
    requires
        n < 8,
    ensures
        shifted_n(r, n) & 1 == (r >> (n as u8)) & 1,
    decreases n,
{
    lemma_shifted_n_bit_all(r);
    if n == 0 {
        assert(r & 1 == (r >> 0u8) & 1) by (bit_vector);
    } else if n == 1 {
    } else if n == 2 {
    } else if n == 3 {
    } else if n == 4 {
    } else if n == 5 {
    } else if n == 6 {
    } else {
    }
}

proof fn lemma_low_bit(x: u8)
    ensures
        x & 1 <= 1,
{
    crate::bits::lemma_u8_bits(x);
}

proof fn lemma_shifted_n_bit_all(r: u8)
    ensures
        shifted_n(r, 1) & 1 == (r >> 1u8) & 1,
        shifted_n(r, 2) & 1 == (r >> 2u8) & 1,
        shifted_n(r, 3) & 1 == (r >> 3u8) & 1,
        shifted_n(r, 4) & 1 == (r >> 4u8) & 1,
        shifted_n(r, 5) & 1 == (r >> 5u8) & 1,
        shifted_n(r, 6) & 1 == (r >> 6u8) & 1,
        shifted_n(r, 7) & 1 == (r >> 7u8) & 1,
{
    reveal_with_fuel(shifted_n, 8);
    let s1 = shifted(r);
    let s2 = shifted(s1);
    let s3 = shifted(s2);
    let s4 = shifted(s3);
    let s5 = shifted(s4);
    let s6 = shifted(s5);
    let s7 = shifted(s6);
    assert(s1 & 1 == (r >> 1u8) & 1 && s2 & 1 == (r >> 2u8) & 1 && s3 & 1 == (r >> 3u8) & 1 && s4 & 1
        == (r >> 4u8) & 1 && s5 & 1 == (r >> 5u8) & 1 && s6 & 1 == (r >> 6u8) & 1 && s7 & 1 == (r
        >> 7u8) & 1) by (bit_vector)
        requires
            s1 == ((r >> 1u8) | 0x80u8) as u8,
            s2 == ((s1 >> 1u8) | 0x80u8) as u8,
            s3 == ((s2 >> 1u8) | 0x80u8) as u8,
            s4 == ((s3 >> 1u8) | 0x80u8) as u8,
            s5 == ((s4 >> 1u8) | 0x80u8) as u8,
            s6 == ((s5 >> 1u8) | 0x80u8) as u8,
            s7 == ((s6 >> 1u8) | 0x80u8) as u8,
    ;
}

/// Strobing high and then low, then reading eight times, returns the held
/// buttons one per read: A, B, Select, Start, Up, Down, Left, Right.
pub proof fn lemma_strobe_reads_buttons(c: Controller, i: nat)
    requires
        i < 8,
    ensures
        reads_n(c.after_strobe(true).after_strobe(false), i).bit_spec() == (c.buttons >> (i as u8))
            & 1,
    decreases i,
{
    let s = c.after_strobe(true).after_strobe(false);
    lemma_reads_n_register(s, i);
    lemma_shifted_n_bit(c.buttons, i);
}

proof fn lemma_reads_n_register(c: Controller, n: nat)
    requires
        !c.strobe,
    ensures
        reads_n(c, n) == (Controller { register: shifted_n(c.register, n), ..c }),
    decreases n,
{
    if n > 0 {
        lemma_reads_n_register(c, (n - 1) as nat);
    }
}

} // verus!
