//! Orientation samples and the calibration state applied to them.

use vstd::prelude::*;

verus! {

/// Sign bit of an IEEE-754 binary32 value.
pub const SIGN_BIT: u32 = 0x8000_0000;

/// Bit pattern of the binary32 value `1.0`, the neutral scale factor.
pub const ONE_BITS: u32 = 0x3f80_0000;

/// The binary32 value `x` with its sign flipped, which is exactly what
/// negating the value does.
pub open spec fn negated(x: u32) -> u32 {
    x ^ SIGN_BIT
}

/// `x` negated when `flag` is set, else `x` itself.
pub open spec fn inverted_if(x: u32, flag: bool) -> u32 {
    if flag {
        negated(x)
    } else {
        x
    }
}

/// One orientation sample; each angle is the bit pattern of a binary32 value.
#[derive(Clone, Copy, Debug, PartialEq, Eq, Structural)]
pub struct EulerData {
    pub roll: u32,
    pub pitch: u32,
    pub yaw: u32,
}

impl EulerData {
    /// Negates the roll angle.
    pub fn invert_roll(&mut self)
        ensures
            final(self).roll == negated(old(self).roll),
            final(self).pitch == old(self).pitch,
            final(self).yaw == old(self).yaw,
    {
        self.roll = self.roll ^ SIGN_BIT;
    }

    /// Negates the pitch angle.
    pub fn invert_pitch(&mut self)
        ensures
            final(self).roll == old(self).roll,
            final(self).pitch == negated(old(self).pitch),
            final(self).yaw == old(self).yaw,
    {
        self.pitch = self.pitch ^ SIGN_BIT;
    }

    /// Negates the yaw angle.
    pub fn invert_yaw(&mut self)
        ensures
            final(self).roll == old(self).roll,
            final(self).pitch == old(self).pitch,
            final(self).yaw == negated(old(self).yaw),
    {
        self.yaw = self.yaw ^ SIGN_BIT;
    }
}

/// One calibration command. Scale factors are binary32 bit patterns; any
/// value is accepted, zero and negative ones included.
#[derive(Clone, Copy, Debug, PartialEq, Eq, Structural)]
pub enum Command {
    Recenter,
    ScaleYaw(u32),
    ScalePitch(u32),
    ScaleRoll(u32),
    InvertYaw(bool),
    InvertPitch(bool),
    InvertRoll(bool),
}

/// The calibration state: the reference subtracted from every sample, a scale
/// factor and an invert flag per axis.
#[derive(Clone, Copy, Debug)]
pub struct EulerHandler {
    pub debug: bool,
    pub reference: Option<EulerData>,
    pub roll_scale: u32,
    pub pitch_scale: u32,
    pub yaw_scale: u32,
    pub roll_invert: bool,
    pub pitch_invert: bool,
    pub yaw_invert: bool,
}

/// The state after one command; `sample` is the raw sample known when the
/// command arrives, which a recenter takes as the new reference.
pub open spec fn apply_command(h: EulerHandler, c: Command, sample: Option<EulerData>) -> EulerHandler {
    match c {
        Command::Recenter => EulerHandler { reference: sample, ..h },
        Command::ScaleYaw(k) => EulerHandler { yaw_scale: k, ..h },
        Command::ScalePitch(k) => EulerHandler { pitch_scale: k, ..h },
        Command::ScaleRoll(k) => EulerHandler { roll_scale: k, ..h },
        Command::InvertYaw(i) => EulerHandler { yaw_invert: i, ..h },
        Command::InvertPitch(i) => EulerHandler { pitch_invert: i, ..h },
        Command::InvertRoll(i) => EulerHandler { roll_invert: i, ..h },
    }
}

/// The state after a batch of commands, applied in order.
pub open spec fn apply_batch(h: EulerHandler, cs: Seq<Command>, sample: Option<EulerData>) -> EulerHandler
    decreases cs.len(),
{
    if cs.len() == 0 {
        h
    } else {
        apply_command(apply_batch(h, cs.drop_last(), sample), cs.last(), sample)
    }
}

/// The sample with the configured invert flags applied, axis by axis.
pub open spec fn inverted(h: EulerHandler, e: EulerData) -> EulerData {
    EulerData {
        roll: inverted_if(e.roll, h.roll_invert),
        pitch: inverted_if(e.pitch, h.pitch_invert),
        yaw: inverted_if(e.yaw, h.yaw_invert),
    }
}

impl EulerHandler {
    /// A state with no reference, every scale `1.0` and no axis inverted.
    pub fn new(debug: bool) -> (r: Self)
        ensures
            r.debug == debug,
            r.reference is None,
            r.roll_scale == ONE_BITS,
            r.pitch_scale == ONE_BITS,
            r.yaw_scale == ONE_BITS,
            !r.roll_invert,
            !r.pitch_invert,
            !r.yaw_invert,
    {
        EulerHandler {
            debug,
            reference: None,
            roll_scale: ONE_BITS,
            pitch_scale: ONE_BITS,
            yaw_scale: ONE_BITS,
            roll_invert: false,
            pitch_invert: false,
            yaw_invert: false,
        }
    }

    /// Applies a batch of commands in order; the last write to a field wins,
    /// and a recenter takes `euler` (or nothing) as the reference.
    pub fn apply_commands(&mut self, commands: Vec<Command>, euler: Option<EulerData>)
        ensures
            *final(self) == apply_batch(*old(self), commands@, euler),
    {
        let ghost start = *self;
        let mut i: usize = 0;
        while i < commands.len()
            invariant
                i <= commands.len(),
                *self == apply_batch(start, commands@.take(i as int), euler),
            decreases commands.len() - i,
        {
            assert(commands@.take(i + 1).drop_last() == commands@.take(i as int));
            match commands[i] {
                Command::Recenter => {
                    self.reference = euler;
                },
                Command::ScaleYaw(k) => {
                    self.yaw_scale = k;
                },
                Command::ScalePitch(k) => {
                    self.pitch_scale = k;
                },
                Command::ScaleRoll(k) => {
                    self.roll_scale = k;
                },
                Command::InvertYaw(f) => {
                    self.yaw_invert = f;
                },
                Command::InvertPitch(f) => {
                    self.pitch_invert = f;
                },
                Command::InvertRoll(f) => {
                    self.roll_invert = f;
                },
            }
            i = i + 1;
        }
        assert(commands@.take(commands@.len() as int) == commands@);
    }

    /// The last stage of the transform: negates each axis whose invert flag
    /// is set. It runs after the reference has been subtracted and the scale
    /// factors applied.
    pub fn apply_inversion(&self, euler: EulerData) -> (r: EulerData)
        ensures
            r == inverted(*self, euler),
    {
        let mut e = euler;
        if self.pitch_invert {
            e.invert_pitch();
        }
        if self.roll_invert {
            e.invert_roll();
        }
        if self.yaw_invert {
            e.invert_yaw();
        }
        e
    }
}

/// A recenter captures the sample known at that moment: after a batch that
/// holds a recenter, the reference is that sample (none when no sample was
/// known, which clears it); after any other batch it is unchanged. No
/// command other than a recenter touches the reference.
pub proof fn lemma_batch_reference(h: EulerHandler, cs: Seq<Command>, sample: Option<EulerData>)
    ensures
        apply_batch(h, cs, sample).reference == if cs.contains(Command::Recenter) {
            sample
        } else {
            h.reference
        },
    decreases cs.len(),
{
    if cs.len() > 0 {
        lemma_batch_reference(h, cs.drop_last(), sample);
        assert(cs == cs.drop_last().push(cs.last()));
        assert(cs.contains(Command::Recenter) <==> (cs.drop_last().contains(Command::Recenter)
            || cs.last() == Command::Recenter)) by {
            if cs.contains(Command::Recenter) {
                let j = choose|j: int| 0 <= j < cs.len() && cs[j] == Command::Recenter;
                if j < cs.len() - 1 {
                    assert(cs.drop_last()[j] == Command::Recenter);
                }
            }
            if cs.drop_last().contains(Command::Recenter) {
                let j = choose|j: int| 0 <= j < cs.len() - 1 && cs.drop_last()[j] == Command::Recenter;
                assert(cs[j] == Command::Recenter);
            }
            if cs.last() == Command::Recenter {
                assert(cs[cs.len() - 1] == Command::Recenter);
            }
        }
    }
}

/// Recentering to a sample `r` sets the reference to `r` and leaves every
/// scale factor and invert flag as it was, so the transform that follows
/// subtracts `r`, then scales and inverts exactly as before.
pub proof fn lemma_recenter_to_sample(h: EulerHandler, r: EulerData)
    ensures
        apply_batch(h, seq![Command::Recenter], Some(r)) == (EulerHandler { reference: Some(r), ..h }),
{
    assert(seq![Command::Recenter].drop_last() == Seq::<Command>::empty());
    assert(apply_batch(h, Seq::<Command>::empty(), Some(r)) == h);
}

/// Recentering with no known sample clears the reference, so the transform
/// that follows subtracts nothing; scale factors and invert flags are kept.
pub proof fn lemma_recenter_without_sample(h: EulerHandler)
    ensures
        apply_batch(h, seq![Command::Recenter], None) == (EulerHandler { reference: None, ..h }),
{
    assert(seq![Command::Recenter].drop_last() == Seq::<Command>::empty());
    assert(apply_batch(h, Seq::<Command>::empty(), None) == h);
}

/// Inverting an axis twice gives back the sample.
pub proof fn lemma_negated_twice(x: u32)
    ensures
        negated(negated(x)) == x,
{
    assert(x ^ 0x8000_0000u32 ^ 0x8000_0000u32 == x) by (bit_vector);
}

} // verus!
