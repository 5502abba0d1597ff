//! Blink sequences for the LEDs of a few boards.
//!
//! A sequence is a list of steps on GPIO registers. The caller carries them
//! out in order with register reads and writes in little-endian byte order,
//! and stops at the first that fails.

use vstd::prelude::*;

verus! {

/// Pin multiplexer of the S905.
pub const S905_PERIPHS_MUX_BASE: u32 = 0xC883_4400;

/// Register that switches pins to the ethernet LEDs.
pub const REG4: u32 = S905_PERIPHS_MUX_BASE + 0x00bc;

/// Always-on GPIO and pin multiplexer of the S905.
pub const S905_AO_BASE: u32 = 0xC810_0000;

/// Pull-up register of the ethernet LED pins.
pub const S905_PULL_UP_REG3: u32 = S905_AO_BASE + 0x00F4;

/// Always-on GPIO output: bits 0-13 enable the outputs, bits 16-29 are their
/// states.
pub const S905_GPIO_AO_OUT: u32 = S905_AO_BASE + 0x0024;

/// The two ethernet LEDs, link and active.
pub const S905_ETH_LEDS: u32 = 0xC000;

/// The function bits of the two ethernet LEDs.
pub const S905_ETH_LED_FUNCTIONS: u32 = 0x0300_0000;

/// Always-on GPIO output with the system LED of the Khadas VIM1 on.
pub const VIM1_SYS_LED_ON: u32 = 0xbdff_3dff;

/// Always-on GPIO output with the system LED of the Khadas VIM1 off.
pub const VIM1_SYS_LED_OFF: u32 = 0xbfff_3dff;

/// Pin multiplexer of the S905D3 and the A311D.
pub const S905D3_PERIPHS_MUX_BASE: u32 = 0xff63_4400;

/// Output enable of the GPIO bank that holds the LEDs.
pub const S905D3_PREG_PAD_GPIO2_EN: u32 = S905D3_PERIPHS_MUX_BASE + 0x0058;

/// Output of the GPIO bank that holds the LEDs.
pub const S905D3_PREG_PAD_GPIO2_O: u32 = S905D3_PERIPHS_MUX_BASE + 0x005C;

/// The first LED of the Libre Computer boards; all three light when low.
pub const LED1: u32 = 0x08;

/// The second LED.
pub const LED2: u32 = 0x40;

/// The third LED.
pub const LED3: u32 = 0x80;

/// What is kept of the output enable register to make the LED pins outputs.
pub const LED_ENABLE_KEEP: u32 = 0xffff_ff37;

/// Time between two changes of the LEDs, in milliseconds.
pub const BLINK_PAUSE_MS: u64 = 300;

/// How often a pattern is repeated.
pub const BLINK_ROUNDS: usize = 4;

/// The boards that have a blink sequence.
#[allow(non_camel_case_types)]
#[derive(Clone, Copy, Debug, PartialEq, Eq, Structural)]
pub enum Board {
    Khadas_Vim1,
    LC_A311D_CC,
    LC_S905D3_CC,
}

/// One step of a blink sequence.
#[derive(Clone, Copy, Debug, PartialEq, Eq, Structural)]
pub enum BlinkStep {
    /// Read the register at `addr`, keep the bits of `keep`, set those of
    /// `set`, and write the result back.
    Modify { addr: u32, keep: u32, set: u32 },
    /// Write `value` to the register at `addr`.
    Write { addr: u32, value: u32 },
    /// Wait for `millis` milliseconds.
    Sleep { millis: u64 },
}

/// The value to write back in a `Modify` step, from the value that was read.
pub fn modify(old: u32, keep: u32, set: u32) -> (new: u32)
    ensures
        new == (old & keep) | set,
{
    (old & keep) | set
}

/// A pattern: each of the values written to `addr`, with a pause after it.
pub open spec fn pattern(addr: u32, values: Seq<u32>) -> Seq<BlinkStep> {
    Seq::new(
        2 * values.len(),
        |i: int|
            if i % 2 == 0 {
                BlinkStep::Write { addr: addr, value: values[i / 2] }
            } else {
                BlinkStep::Sleep { millis: BLINK_PAUSE_MS }
            },
    )
}

/// A sequence of steps `n` times over.
pub open spec fn repeated(round: Seq<BlinkStep>, n: nat) -> Seq<BlinkStep>
    decreases n,
{
    if n == 0 {
        Seq::empty()
    } else {
        repeated(round, (n - 1) as nat) + round
    }
}

/// The sequence for the Khadas VIM1: switch two pins to the ethernet LEDs,
/// pull them up, then turn the system LED on and off four times.
pub open spec fn vim1_steps() -> Seq<BlinkStep> {
    seq![
        BlinkStep::Modify { addr: REG4, keep: 0xffff_ffff, set: S905_ETH_LED_FUNCTIONS },
        BlinkStep::Modify { addr: S905_PULL_UP_REG3, keep: 0xffff_ffff, set: S905_ETH_LEDS },
    ] + repeated(
        pattern(S905_GPIO_AO_OUT, seq![VIM1_SYS_LED_ON, VIM1_SYS_LED_OFF]),
        BLINK_ROUNDS as nat,
    )
}

/// The sequence for the Libre Computer boards: make the LED pins outputs,
/// then show four patterns of the three LEDs four times.
pub open spec fn lc_steps() -> Seq<BlinkStep> {
    seq![BlinkStep::Modify { addr: S905D3_PREG_PAD_GPIO2_EN, keep: LED_ENABLE_KEEP, set: 0 }]
        + repeated(
        pattern(
            S905D3_PREG_PAD_GPIO2_O,
            seq![LED1 | LED3, LED2 | LED3, LED1 | LED2, LED1 | LED2 | LED3],
        ),
        BLINK_ROUNDS as nat,
    )
}

/// Appends a pattern `rounds` times over.
fn push_rounds(steps: &mut Vec<BlinkStep>, addr: u32, values: &[u32], rounds: usize)
    requires
        2 * values@.len() <= usize::MAX,
    ensures
        final(steps)@ == old(steps)@ + repeated(pattern(addr, values@), rounds as nat),
{
    let ghost start = steps@;
    let ghost round = pattern(addr, values@);
    let mut n: usize = 0;
    assert(steps@ =~= start + repeated(round, 0));
    while n < rounds
        invariant
            n <= rounds,
            round == pattern(addr, values@),
            steps@ == start + repeated(round, n as nat),
        decreases rounds - n,
    {
        let ghost before = steps@;
        let mut i: usize = 0;
        while i < values.len()
            invariant
                i <= values@.len(),
                round == pattern(addr, values@),
                steps@ == before + round.take(2 * i),
            decreases values@.len() - i,
        {
            steps.push(BlinkStep::Write { addr, value: values[i] });
            steps.push(BlinkStep::Sleep { millis: BLINK_PAUSE_MS });
            assert(steps@ =~= before + round.take(2 * (i + 1)));
            i = i + 1;
        }
        assert(round.take(2 * i) =~= round);
        assert(steps@ =~= start + repeated(round, (n + 1) as nat));
        n = n + 1;
    }
}

/// The blink sequence for the Khadas VIM1.
pub fn vim1_blink() -> (steps: Vec<BlinkStep>)
    ensures
        steps@ == vim1_steps(),
{
    let mut steps: Vec<BlinkStep> = Vec::new();
    steps.push(BlinkStep::Modify { addr: REG4, keep: 0xffff_ffff, set: S905_ETH_LED_FUNCTIONS });
    steps.push(
        BlinkStep::Modify { addr: S905_PULL_UP_REG3, keep: 0xffff_ffff, set: S905_ETH_LEDS },
    );
    let values: [u32; 2] = [VIM1_SYS_LED_ON, VIM1_SYS_LED_OFF];
    assert(values@ =~= seq![VIM1_SYS_LED_ON, VIM1_SYS_LED_OFF]);
    assert(steps@ =~= seq![
        BlinkStep::Modify { addr: REG4, keep: 0xffff_ffff, set: S905_ETH_LED_FUNCTIONS },
        BlinkStep::Modify { addr: S905_PULL_UP_REG3, keep: 0xffff_ffff, set: S905_ETH_LEDS },
    ]);
    push_rounds(&mut steps, S905_GPIO_AO_OUT, values.as_slice(), BLINK_ROUNDS);
    steps
}

fn lc_blink() -> (steps: Vec<BlinkStep>)
    ensures
        steps@ == lc_steps(),
{
    let mut steps: Vec<BlinkStep> = Vec::new();
    steps.push(
        BlinkStep::Modify { addr: S905D3_PREG_PAD_GPIO2_EN, keep: LED_ENABLE_KEEP, set: 0 },
    );
    let values: [u32; 4] = [LED1 | LED3, LED2 | LED3, LED1 | LED2, LED1 | LED2 | LED3];
    assert(values@ =~= seq![LED1 | LED3, LED2 | LED3, LED1 | LED2, LED1 | LED2 | LED3]);
    assert(steps@ =~= seq![
        BlinkStep::Modify { addr: S905D3_PREG_PAD_GPIO2_EN, keep: LED_ENABLE_KEEP, set: 0 },
    ]);
    push_rounds(&mut steps, S905D3_PREG_PAD_GPIO2_O, values.as_slice(), BLINK_ROUNDS);
    steps
}

/// The blink sequence for the Libre Computer AML-A311D-CC.
pub fn lc_a311d_cc_blink() -> (steps: Vec<BlinkStep>)
    ensures
        steps@ == lc_steps(),
{
    lc_blink()
}

/// The blink sequence for the Libre Computer AML-S905D3-CC, which is that
/// of the AML-A311D-CC.
pub fn lc_s905d3_cc_blink() -> (steps: Vec<BlinkStep>)
    ensures
        steps@ == lc_steps(),
{
    lc_blink()
}

impl Board {
    /// The blink sequence of a board.
    pub open spec fn steps(self) -> Seq<BlinkStep> {
        match self {
            Board::Khadas_Vim1 => vim1_steps(),
            Board::LC_A311D_CC => lc_steps(),
            Board::LC_S905D3_CC => lc_steps(),
        }
    }

    /// The blink sequence of this board.
    pub fn blink(&self) -> (steps: Vec<BlinkStep>)
        ensures
            steps@ == self.steps(),
    {
        match self {
            Board::Khadas_Vim1 => vim1_blink(),
            Board::LC_A311D_CC => lc_a311d_cc_blink(),
            Board::LC_S905D3_CC => lc_s905d3_cc_blink(),
        }
    }
}

} // verus!
