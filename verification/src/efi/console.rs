//! Text for the firmware console.

use crate::efi::handoff::FirmwareHandoff;
use vstd::prelude::*;

verus! {

/// The UTF-16 code units of `c`: one for a character of the basic plane, a
/// surrogate pair for any other.
pub open spec fn utf16_of(c: char) -> Seq<u16> {
    let v = c as u32;
    if v < 0x1_0000 {
        seq![v as u16]
    } else {
        seq![(0xD800 + (v - 0x1_0000) / 0x400) as u16, (0xDC00 + (v - 0x1_0000) % 0x400) as u16]
    }
}

/// The UTF-16 code units of a text.
pub open spec fn utf16(text: Seq<char>) -> Seq<u16>
    decreases text.len(),
{
    if text.len() == 0 {
        Seq::empty()
    } else {
        utf16(text.drop_last()) + utf16_of(text.last())
    }
}

/// Units in one buffer handed to the console, the closing zero included.
pub const BUFFER_UNITS: usize = 32;

/// A buffer is handed over as soon as it holds this many units of text.
/// That leaves room for a carriage return, a line feed and the closing zero.
pub const FLUSH_UNITS: usize = 30;

/// The unit for a carriage return.
pub const CARRIAGE_RETURN: u16 = 0x0D;

/// The unit for a line feed.
pub const LINE_FEED: u16 = 0x0A;

/// What one unit of text puts on the console: a line feed is led by a
/// carriage return, every other unit stands for itself.
pub open spec fn console_units(unit: u16) -> Seq<u16> {
    if unit == LINE_FEED {
        seq![CARRIAGE_RETURN, LINE_FEED]
    } else {
        seq![unit]
    }
}

/// What a text puts on the console, unit by unit.
pub open spec fn console_text(units: Seq<u16>) -> Seq<u16>
    decreases units.len(),
{
    if units.len() == 0 {
        Seq::empty()
    } else {
        console_text(units.drop_last()) + console_units(units.last())
    }
}

/// The buffers handed over, and the text still waiting, once `units` have
/// been written: each unit joins the waiting text with its carriage return,
/// if it needs one, and waiting text of `FLUSH_UNITS` units or more is
/// closed with a zero and handed over.
pub open spec fn buffered(units: Seq<u16>) -> (Seq<Seq<u16>>, Seq<u16>)
    decreases units.len(),
{
    if units.len() == 0 {
        (Seq::empty(), Seq::empty())
    } else {
        let (done, waiting) = buffered(units.drop_last());
        let grown = waiting + console_units(units.last());
        if grown.len() >= FLUSH_UNITS {
            (done.push(grown.push(0u16)), Seq::empty())
        } else {
            (done, grown)
        }
    }
}

/// The buffers that writing `units` hands to the console, in order: those
/// handed over on the way, and one more for text left waiting at the end.
pub open spec fn console_buffers(units: Seq<u16>) -> Seq<Seq<u16>> {
    let (done, waiting) = buffered(units);
    if waiting.len() > 0 {
        done.push(waiting.push(0u16))
    } else {
        done
    }
}

/// The text of all buffers in order, each without its closing zero.
pub open spec fn joined(buffers: Seq<Seq<u16>>) -> Seq<u16>
    decreases buffers.len(),
{
    if buffers.len() == 0 {
        Seq::empty()
    } else {
        joined(buffers.drop_last()) + buffers.last().drop_last()
    }
}

/// What `buffered` keeps true of its two parts.
proof fn lemma_buffered(units: Seq<u16>)
    ensures
        buffered(units).1.len() < FLUSH_UNITS,
        joined(buffered(units).0) + buffered(units).1 == console_text(units),
        forall|i: int|
            0 <= i < buffered(units).0.len() ==> {
                let buffer = #[trigger] buffered(units).0[i];
                FLUSH_UNITS < buffer.len() <= BUFFER_UNITS && buffer.last() == 0
            },
    decreases units.len(),
{
    if units.len() > 0 {
        lemma_buffered(units.drop_last());
        let (done, waiting) = buffered(units.drop_last());
        let grown = waiting + console_units(units.last());
        if grown.len() >= FLUSH_UNITS {
            let buffer = grown.push(0u16);
            let all = done.push(buffer);
            assert(all.drop_last() =~= done);
            assert(buffer.drop_last() =~= grown);
            assert(joined(all) + Seq::<u16>::empty() =~= (joined(done) + waiting) + console_units(
                units.last(),
            ));
        } else {
            assert(joined(done) + grown =~= (joined(done) + waiting) + console_units(
                units.last(),
            ));
        }
    } else {
        assert(joined(Seq::<Seq<u16>>::empty()) + Seq::<u16>::empty() =~= console_text(units));
    }
}

/// The buffers carry the whole text, carriage returns put in, and nothing
/// else: no unit is lost where one buffer ends and the next begins.
pub proof fn lemma_buffers_carry_text(units: Seq<u16>)
    ensures
        joined(console_buffers(units)) == console_text(units),
{
    lemma_buffered(units);
    let (done, waiting) = buffered(units);
    if waiting.len() > 0 {
        let all = done.push(waiting.push(0u16));
        assert(all.drop_last() =~= done);
        assert(waiting.push(0u16).drop_last() =~= waiting);
    } else {
        assert(joined(done) + waiting =~= joined(done));
    }
}

/// Every buffer fits in `BUFFER_UNITS` units, holds some text and ends with
/// the closing zero; every buffer but the last holds `FLUSH_UNITS` units of
/// text or more.
pub proof fn lemma_buffers_fit(units: Seq<u16>)
    ensures
        forall|i: int|
            0 <= i < console_buffers(units).len() ==> {
                let buffer = #[trigger] console_buffers(units)[i];
                &&& 1 < buffer.len() <= BUFFER_UNITS
                &&& buffer.last() == 0
                &&& i + 1 < console_buffers(units).len() ==> buffer.len() > FLUSH_UNITS
            },
{
    lemma_buffered(units);
}

/// Nothing written puts nothing on the console.
pub proof fn lemma_no_text_no_buffers()
    ensures
        console_buffers(Seq::<u16>::empty()).len() == 0,
{
}

/// The views of the buffers in `buffers`.
pub open spec fn views(buffers: Seq<Vec<u16>>) -> Seq<Seq<u16>> {
    Seq::new(buffers.len(), |i: int| buffers[i]@)
}

/// Writes one unit of text: into the waiting text, and with it to `done`
/// once `FLUSH_UNITS` units wait.
fn put_unit(done: &mut Vec<Vec<u16>>, waiting: &mut Vec<u16>, unit: u16, Ghost(written): Ghost<
    Seq<u16>,
>)
    requires
        (views(old(done)@), old(waiting)@) == buffered(written),
    ensures
        (views(final(done)@), final(waiting)@) == buffered(written.push(unit)),
{
    proof {
        lemma_buffered(written);
        assert(written.push(unit).drop_last() =~= written);
    }
    if unit == LINE_FEED {
        waiting.push(CARRIAGE_RETURN);
    }
    waiting.push(unit);
    assert(waiting@ =~= old(waiting)@ + console_units(unit));
    if waiting.len() >= FLUSH_UNITS {
        waiting.push(0);
        let mut buffer: Vec<u16> = Vec::new();
        core::mem::swap(waiting, &mut buffer);
        done.push(buffer);
        assert(views(done@) =~= views(old(done)@).push(buffer@));
    }
}

/// Puts `string` on the firmware console: the buffers to hand to the
/// firmware's text output, in order, each closed with a zero and at most
/// `BUFFER_UNITS` units long. The text goes out in UTF-16 with a carriage
/// return before every line feed. With the firmware's services unavailable
/// there is nothing to hand over.
pub fn output_string(handoff: &FirmwareHandoff, string: &str) -> (buffers: Vec<Vec<u16>>)
    ensures
        views(buffers@) == match handoff@ {
            None => Seq::<Seq<u16>>::empty(),
            Some(_) => console_buffers(utf16(string@)),
        },
{
    let mut done: Vec<Vec<u16>> = Vec::new();
    if handoff.current().is_none() {
        assert(views(done@) =~= Seq::<Seq<u16>>::empty());
        return done;
    }
    let mut waiting: Vec<u16> = Vec::new();
    assert(views(done@) =~= Seq::<Seq<u16>>::empty());
    for c in it: string.chars()
        invariant
            it.seq() == string@,
            (views(done@), waiting@) == buffered(utf16(string@.subrange(0, it.index()))),
    {
        proof {
            let through = string@.subrange(0, it.index() + 1);
            assert(through.drop_last() =~= string@.subrange(0, it.index()));
            assert(through.last() == c);
        }
        let ghost written = utf16(string@.subrange(0, it.index()));
        let v = c as u32;
        if v < 0x1_0000 {
            put_unit(&mut done, &mut waiting, v as u16, Ghost(written));
            assert(written.push(v as u16) =~= written + utf16_of(c));
        } else {
            let rest = v - 0x1_0000;
            let high = (0xD800 + rest / 0x400) as u16;
            let low = (0xDC00 + rest % 0x400) as u16;
            put_unit(&mut done, &mut waiting, high, Ghost(written));
            put_unit(&mut done, &mut waiting, low, Ghost(written.push(high)));
            assert(written.push(high).push(low) =~= written + utf16_of(c));
        }
    }
    assert(string@.subrange(0, string@.len() as int) =~= string@);
    if waiting.len() > 0 {
        waiting.push(0);
        done.push(waiting);
        assert(views(done@) =~= console_buffers(utf16(string@)));
    }
    done
}

/// The writer that diagnostics are formatted into.
pub struct ScreenWriter;

impl ScreenWriter {
    /// Puts `string` on the firmware console, as `output_string` does.
    pub fn write_str(&mut self, handoff: &FirmwareHandoff, string: &str) -> (buffers: Vec<
        Vec<u16>,
    >)
        ensures
            views(buffers@) == match handoff@ {
                None => Seq::<Seq<u16>>::empty(),
                Some(_) => console_buffers(utf16(string@)),
            },
    {
        output_string(handoff, string)
    }
}

} // verus!
