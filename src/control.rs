//! The control channel's framing, and the batches of calibration commands it
//! and the command line produce.

use crate::euler::Command;
use vstd::prelude::*;

verus! {

/// The byte that ends each command record on the control channel (`;`).
pub const SEPARATOR: u8 = 0x3b;

/// The records of a payload: the runs of bytes between separators, in order.
/// A payload with `n` separators has `n + 1` records, empty ones included,
/// so the empty payload has one empty record.
pub open spec fn split_payload(s: Seq<u8>) -> Seq<Seq<u8>>
    decreases s.len(),
{
    if s.len() == 0 {
        seq![Seq::<u8>::empty()]
    } else {
        let prev = split_payload(s.drop_last());
        if s.last() == SEPARATOR {
            prev.push(Seq::<u8>::empty())
        } else {
            prev.update(prev.len() - 1, prev.last().push(s.last()))
        }
    }
}

/// Records written one after the other, each followed by a separator.
pub open spec fn framed(records: Seq<Seq<u8>>) -> Seq<u8>
    decreases records.len(),
{
    if records.len() == 0 {
        Seq::<u8>::empty()
    } else {
        framed(records.drop_last()) + records.last().push(SEPARATOR)
    }
}

/// The contents of a list of byte vectors.
pub open spec fn contents(v: Seq<Vec<u8>>) -> Seq<Seq<u8>> {
    v.map_values(|b: Vec<u8>| b@)
}

/// Splits a control payload into its records.
pub fn split_records(payload: &[u8]) -> (r: Vec<Vec<u8>>)
    ensures
        contents(r@) == split_payload(payload@),
{
    let mut done: Vec<Vec<u8>> = Vec::new();
    let mut cur: Vec<u8> = Vec::new();
    let mut i: usize = 0;
    while i < payload.len()
        invariant
            i <= payload@.len(),
            contents(done@).push(cur@) == split_payload(payload@.take(i as int)),
        decreases payload@.len() - i,
    {
        let ghost before = payload@.take(i as int);
        assert(payload@.take(i + 1).drop_last() == before);
        assert(contents(done@).push(cur@).last() == cur@);
        let b = payload[i];
        if b == SEPARATOR {
            done.push(cur);
            cur = Vec::new();
            assert(contents(done@) == contents(done@).drop_last().push(done@.last()@));
        } else {
            let ghost old_done = contents(done@);
            cur.push(b);
            assert(contents(done@).push(cur@) == old_done.push(cur@));
        }
        i = i + 1;
    }
    assert(payload@.take(payload@.len() as int) == payload@);
    done.push(cur);
    assert(contents(done@) == contents(done@).drop_last().push(done@.last()@));
    done
}

/// Writes records one after the other, each followed by a separator.
pub fn frame_records(records: &Vec<Vec<u8>>) -> (r: Vec<u8>)
    ensures
        r@ == framed(contents(records@)),
{
    let mut out: Vec<u8> = Vec::new();
    let mut i: usize = 0;
    while i < records.len()
        invariant
            i <= records@.len(),
            out@ == framed(contents(records@).take(i as int)),
        decreases records@.len() - i,
    {
        assert(contents(records@).take(i + 1).drop_last() == contents(records@).take(i as int));
        let rec = &records[i];
        let mut j: usize = 0;
        let ghost start = out@;
        while j < rec.len()
            invariant
                j <= rec@.len(),
                out@ == start + rec@.take(j as int),
            decreases rec@.len() - j,
        {
            assert(rec@.take(j + 1) == rec@.take(j as int).push(rec@[j as int]));
            out.push(rec[j]);
            j = j + 1;
        }
        assert(rec@.take(rec@.len() as int) == rec@);
        out.push(SEPARATOR);
        i = i + 1;
    }
    assert(contents(records@).take(records@.len() as int) == contents(records@));
    out
}

proof fn lemma_split_nonempty(s: Seq<u8>)
    ensures
        split_payload(s).len() >= 1,
    decreases s.len(),
{
    if s.len() > 0 {
        lemma_split_nonempty(s.drop_last());
    }
}

/// Appending bytes that hold no separator extends the last record.
proof fn lemma_split_plain(p: Seq<u8>, r: Seq<u8>)
    requires
        !r.contains(SEPARATOR),
    ensures
        split_payload(p + r) == split_payload(p).update(
            split_payload(p).len() - 1,
            split_payload(p).last() + r,
        ),
    decreases r.len(),
{
    lemma_split_nonempty(p);
    let sp = split_payload(p);
    if r.len() == 0 {
        assert(p + r == p);
        assert(sp.last() + r == sp.last());
        assert(sp.update(sp.len() - 1, sp.last()) == sp);
    } else {
        let r0 = r.drop_last();
        let c = r.last();
        assert(!r0.contains(SEPARATOR)) by {
            if r0.contains(SEPARATOR) {
                let k = choose|k: int| 0 <= k < r0.len() && r0[k] == SEPARATOR;
                assert(r[k] == SEPARATOR);
            }
        }
        assert(c != SEPARATOR) by {
            assert(r[r.len() - 1] == c);
        }
        lemma_split_plain(p, r0);
        assert((p + r).drop_last() == p + r0);
        assert((p + r).last() == c);
        assert((sp.last() + r0).push(c) == sp.last() + r);
    }
}

/// Splitting framed records gives the records back, followed by the empty
/// record after the last separator, provided no record holds a separator.
pub proof fn lemma_split_framed(records: Seq<Seq<u8>>)
    requires
        forall|i: int| 0 <= i < records.len() ==> !(#[trigger] records[i]).contains(SEPARATOR),
    ensures
        split_payload(framed(records)) == records.push(Seq::<u8>::empty()),
    decreases records.len(),
{
    if records.len() == 0 {
        assert(split_payload(Seq::<u8>::empty()) == seq![Seq::<u8>::empty()]);
    } else {
        let rest = records.drop_last();
        let r = records.last();
        assert(!r.contains(SEPARATOR)) by {
            assert(records[records.len() - 1] == r);
        }
        assert forall|i: int| 0 <= i < rest.len() implies !(#[trigger] rest[i]).contains(
            SEPARATOR,
        ) by {
            assert(rest[i] == records[i]);
        }
        lemma_split_framed(rest);
        let f = framed(rest);
        lemma_split_plain(f, r);
        assert(framed(records) == (f + r).push(SEPARATOR));
        assert((f + r).push(SEPARATOR).drop_last() == f + r);
        assert(Seq::<u8>::empty() + r == r);
        assert(rest.push(Seq::<u8>::empty()).update(rest.len() as int, Seq::<u8>::empty() + r)
            == records);
    }
}

/// The commands among the decoded records, in order; records that did not
/// decode are left out.
pub open spec fn decoded_commands(decoded: Seq<Option<Command>>) -> Seq<Command>
    decreases decoded.len(),
{
    if decoded.len() == 0 {
        Seq::<Command>::empty()
    } else {
        let prev = decoded_commands(decoded.drop_last());
        match decoded.last() {
            Some(c) => prev.push(c),
            None => prev,
        }
    }
}

/// The batch that one control connection delivers: the commands that decoded,
/// in arrival order, or nothing when none did.
pub fn collect_batch(decoded: Vec<Option<Command>>) -> (r: Option<Vec<Command>>)
    ensures
        match r {
            Some(v) => v@ == decoded_commands(decoded@) && v@.len() > 0,
            None => decoded_commands(decoded@).len() == 0,
        },
{
    let mut out: Vec<Command> = Vec::new();
    let mut i: usize = 0;
    while i < decoded.len()
        invariant
            i <= decoded@.len(),
            out@ == decoded_commands(decoded@.take(i as int)),
        decreases decoded@.len() - i,
    {
        assert(decoded@.take(i + 1).drop_last() == decoded@.take(i as int));
        match decoded[i] {
            Some(c) => out.push(c),
            None => {},
        }
        i = i + 1;
    }
    assert(decoded@.take(decoded@.len() as int) == decoded@);
    if out.len() == 0 {
        None
    } else {
        Some(out)
    }
}

/// The calibration options given on the command line; scale factors are
/// binary32 bit patterns.
#[derive(Clone, Copy, Debug, PartialEq, Eq, Structural)]
pub struct CalibrationFlags {
    pub center: bool,
    pub scale_yaw: Option<u32>,
    pub scale_pitch: Option<u32>,
    pub scale_roll: Option<u32>,
    pub invert_yaw: Option<bool>,
    pub invert_pitch: Option<bool>,
    pub invert_roll: Option<bool>,
}

/// Each command-line option as the command it stands for, if given, in the
/// order the options are declared: recenter, scale yaw, pitch, roll, invert
/// yaw, pitch, roll.
pub open spec fn cli_options(f: CalibrationFlags) -> Seq<Option<Command>> {
    seq![
        if f.center { Some(Command::Recenter) } else { None },
        match f.scale_yaw { Some(k) => Some(Command::ScaleYaw(k)), None => None },
        match f.scale_pitch { Some(k) => Some(Command::ScalePitch(k)), None => None },
        match f.scale_roll { Some(k) => Some(Command::ScaleRoll(k)), None => None },
        match f.invert_yaw { Some(i) => Some(Command::InvertYaw(i)), None => None },
        match f.invert_pitch { Some(i) => Some(Command::InvertPitch(i)), None => None },
        match f.invert_roll { Some(i) => Some(Command::InvertRoll(i)), None => None },
    ]
}

/// The commands that the command-line options ask for, in declaration order.
pub open spec fn cli_commands(f: CalibrationFlags) -> Seq<Command> {
    decoded_commands(cli_options(f))
}

/// The commands that the command-line options ask for, or nothing when no
/// calibration option is given (the program then runs the relay).
pub fn check_cli_commands(flags: &CalibrationFlags) -> (r: Option<Vec<Command>>)
    ensures
        match r {
            Some(v) => v@ == cli_commands(*flags) && v@.len() > 0,
            None => cli_commands(*flags).len() == 0,
        },
{
    let mut options: Vec<Option<Command>> = Vec::new();
    options.push(if flags.center { Some(Command::Recenter) } else { None });
    options.push(match flags.scale_yaw { Some(k) => Some(Command::ScaleYaw(k)), None => None });
    options.push(match flags.scale_pitch { Some(k) => Some(Command::ScalePitch(k)), None => None });
    options.push(match flags.scale_roll { Some(k) => Some(Command::ScaleRoll(k)), None => None });
    options.push(match flags.invert_yaw { Some(i) => Some(Command::InvertYaw(i)), None => None });
    options.push(
        match flags.invert_pitch { Some(i) => Some(Command::InvertPitch(i)), None => None },
    );
    options.push(match flags.invert_roll { Some(i) => Some(Command::InvertRoll(i)), None => None });
    assert(options@ == cli_options(*flags));
    collect_batch(options)
}

} // verus!
