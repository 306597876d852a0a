//! The music-player widget and its highlight sub-scheduler.
//!
//! The widget shows what the player is doing, optionally with a
//! playback-progress highlight: the rendered string split into an
//! "already elapsed" prefix and a "remaining" suffix. Two independent
//! triggers drive a re-render — the player subsystem changing (through
//! the blocking-wait bridge) and a sub-tick clock whose period adapts
//! to the track (through the adaptive ticker) — merged by the stream
//! multiplexer. The runtime owns the connections and hands the plain
//! query results in; everything decided from them is verified here.

use vstd::prelude::*;

use crate::numeric::{lemma_round_div_parts, round_div};
use crate::text::{Attributes, Color, Padding, Text};
use crate::WidgetError;
use vstd::arithmetic::div_mod::lemma_fundamental_div_mod;
use vstd::string::StrSliceExecFns;

verus! {

/// A category of player-daemon change events a blocking wait can filter
/// on.
#[derive(Clone, Copy, PartialEq, Eq, Structural, Debug)]
pub enum Subsystem {
    Database,
    Update,
    Playlist,
    Queue,
    Player,
    Mixer,
    Output,
    Options,
    Sticker,
    Subscription,
    Message,
}

/// The authoritative playback state re-read from the player on each
/// tick: how far into the current track playback is, and how long the
/// track is, both in nanoseconds. Either is absent when the player is
/// stopped or paused without a current track.
#[derive(Clone, Copy, PartialEq, Eq, Structural, Debug)]
pub struct PlayerStatus {
    pub elapsed_ns: Option<u64>,
    pub length_ns: Option<u64>,
}

/// The highlighted character offset for a track `length_ns` long with
/// `elapsed_ns` played, over a rendered string of `count` characters:
/// `round(elapsed / length * count)`, clamped to the string so that
/// drift past the end of the track highlights the whole string.
pub fn highlight_offset(elapsed_ns: u64, length_ns: u64, count: usize) -> (r: usize)
    requires
        length_ns > 0,
    ensures
        r == vstd::math::min(
            count as int,
            round_div((elapsed_ns as int) * (count as int), length_ns as int),
        ),
        elapsed_ns <= length_ns ==> r == round_div(
            (elapsed_ns as int) * (count as int),
            length_ns as int,
        ),
    {
    if elapsed_ns >= length_ns {
        proof {
            let n = (elapsed_ns as int) * (count as int);
            let d = length_ns as int;
            lemma_round_div_parts(n, d);
            assert(n >= 0 && n / d >= count || count == 0) by (nonlinear_arith)
                requires
                    elapsed_ns as int >= d,
                    d > 0,
                    n == (elapsed_ns as int) * (count as int),
                    count >= 0,
            ;
            if elapsed_ns == length_ns {
                assert(n / d == count && n % d == 0) by (nonlinear_arith)
                    requires
                        d > 0,
                        n == d * (count as int),
                ;
            }
            vstd::arithmetic::div_mod::lemma_div_is_ordered_by_denominator(n, 1, d);
        }
        return count;
    }
    proof {
        assert((elapsed_ns as int) * (count as int) <= 0xffff_ffff_ffff_ffff
            * 0xffff_ffff_ffff_ffff) by (nonlinear_arith)
            requires
                0 <= (elapsed_ns as int) <= 0xffff_ffff_ffff_ffff,
                0 <= (count as int) <= 0xffff_ffff_ffff_ffff,
        ;
    }
    let num: u128 = (elapsed_ns as u128) * (count as u128);
    let den: u128 = length_ns as u128;
    let q: u128 = num / den;
    let rem: u128 = num % den;
    proof {
        let n = (elapsed_ns as int) * (count as int);
        let d = length_ns as int;
        lemma_round_div_parts(n, d);
        assert(n / d < count || count == 0) by (nonlinear_arith)
            requires
                0 <= (elapsed_ns as int) < d,
                n == (elapsed_ns as int) * (count as int),
                count >= 0,
        ;
        lemma_fundamental_div_mod(n, d);
        assert(q < count as u128 || count == 0);
    }
    if 2 * rem >= den {
        (q + 1) as usize
    } else {
        q as usize
    }
}

/// Splits a string at a character offset: the first `offset` characters
/// and the rest. The two parts' characters always recompose the whole
/// string, so their lengths sum to its length.
pub fn split_at_offset(s: &str, offset: usize) -> (r: (String, String))
    requires
        offset <= s@.len(),
    ensures
        r.0@ == s@.take(offset as int),
        r.1@ == s@.skip(offset as int),
        r.0@.len() + r.1@.len() == s@.len(),
        r.0@ + r.1@ == s@,
{
    let len = s.unicode_len();
    let head = s.substring_char(0, offset).to_owned();
    let tail = s.substring_char(offset, len).to_owned();
    proof {
        assert(head@ =~= s@.take(offset as int));
        assert(tail@ =~= s@.skip(offset as int));
        assert(head@ + tail@ =~= s@);
    }
    (head, tail)
}

/// The music-player widget's own state: its configuration and what it
/// learned from the player at the last tick.
pub struct Mpd {
    pub attr: Attributes,
    pub subsystems: Vec<Subsystem>,
    pub progress_bar: bool,
    pub last_sync: u64,
    pub last_string: String,
    pub song_length: Option<u64>,
    pub song_elapsed: Option<u64>,
}

/// The configuration fields of the widget, which no tick changes.
pub open spec fn same_mpd_config(a: Mpd, b: Mpd) -> bool {
    &&& a.attr == b.attr
    &&& a.subsystems@ == b.subsystems@
    &&& a.progress_bar == b.progress_bar
}

impl Mpd {
    /// A new widget. `subsystems` names the player-daemon subsystems
    /// whose changes interrupt the blocking wait; `progress_bar` asks
    /// for the two-part highlighted rendering. `now` is the current
    /// instant on the caller's monotonic clock, in nanoseconds.
    pub fn new(attr: Attributes, subsystems: Vec<Subsystem>, progress_bar: bool, now: u64) -> (r:
        Mpd)
        ensures
            r.attr == attr,
            r.subsystems@ == subsystems@,
            r.progress_bar == progress_bar,
            r.last_sync == now,
            r.last_string@ == Seq::<char>::empty(),
            r.song_length is None,
            r.song_elapsed is None,
    {
        Mpd {
            attr,
            subsystems,
            progress_bar,
            last_sync: now,
            last_string: String::new(),
            song_length: None,
            song_elapsed: None,
        }
    }

    /// One tick: re-read authoritative state and produce the frame
    /// batch. `status` is the player query's outcome, `rendered` the
    /// caller-rendered text for the current song. A failed query
    /// surfaces as a failed item — the stream continues; the widget's
    /// playback knowledge is left as it was. A successful tick with the
    /// highlight enabled and a playing track emits exactly two frames,
    /// split at the highlight offset, whose texts recompose the
    /// rendered string; otherwise it emits the rendered string as one
    /// frame. The elapsed time needs no wall-clock correction here:
    /// the sync instant is this very tick.
    pub fn tick(
        &mut self,
        now: u64,
        status: Result<PlayerStatus, WidgetError>,
        rendered: Option<String>,
    ) -> (r: Result<Vec<Text>, WidgetError>)
        ensures
            same_mpd_config(*old(self), *final(self)),
            final(self).last_sync == now,
            status matches Err(e) ==> {
                &&& r matches Err(f) && f.message@ == e.message@
                &&& final(self).song_elapsed == old(self).song_elapsed
                &&& final(self).song_length == old(self).song_length
                &&& final(self).last_string@ == old(self).last_string@
            },
            status matches Ok(st) ==> {
                &&& final(self).song_elapsed == st.elapsed_ns
                &&& final(self).song_length == st.length_ns
                &&& final(self).last_string@ == rendered_text_spec(rendered)
                &&& r matches Ok(batch) && batch_spec(
                    *old(self),
                    st,
                    rendered_text_spec(rendered),
                    batch@,
                )
            },
    {
        self.last_sync = now;
        let st = match status {
            Ok(s) => s,
            Err(e) => {
                return Err(e);
            },
        };
        self.song_elapsed = st.elapsed_ns;
        self.song_length = st.length_ns;
        let text: String = match rendered {
            Some(s) => s,
            None => String::new(),
        };
        self.last_string = text.clone();
        let mut out: Vec<Text> = Vec::new();
        if self.progress_bar && st.elapsed_ns.is_some() && st.length_ns.is_some() {
            let elapsed = st.elapsed_ns.unwrap();
            let length = st.length_ns.unwrap();
            if length > 0 {
                let count = text.as_str().unicode_len();
                let k = highlight_offset(elapsed, length, count);
                let (head, tail) = split_at_offset(text.as_str(), k);
                out.push(
                    Text {
                        attr: self.attr.clone().strip_right_padding().with_bg(Some(Color::red())),
                        text: head,
                        stretch: false,
                        markup: false,
                    },
                );
                out.push(
                    Text {
                        attr: self.attr.clone().strip_left_padding(),
                        text: tail,
                        stretch: false,
                        markup: false,
                    },
                );
                return Ok(out);
            }
        }
        out.push(Text { attr: self.attr.clone(), text, stretch: false, markup: false });
        Ok(out)
    }
}

/// The text a tick renders: what the caller's render step produced, or
/// empty where it produced nothing.
pub open spec fn rendered_text_spec(rendered: Option<String>) -> Seq<char> {
    match rendered {
        Some(s) => s@,
        None => Seq::<char>::empty(),
    }
}

/// Whether the track is playing with a known positive length, so the
/// highlight can be computed.
pub open spec fn highlight_active(progress_bar: bool, st: PlayerStatus) -> bool {
    &&& progress_bar
    &&& st.elapsed_ns is Some
    &&& st.length_ns is Some
    &&& st.length_ns->0 > 0
}

/// The clamped highlight offset over a `count`-character rendering.
pub open spec fn highlight_offset_spec(st: PlayerStatus, count: int) -> int {
    vstd::math::min(count, round_div((st.elapsed_ns->0 as int) * count, st.length_ns->0 as int))
}

/// The frame batch one successful tick emits.
pub open spec fn batch_spec(w: Mpd, st: PlayerStatus, txt: Seq<char>, batch: Seq<Text>) -> bool {
    if highlight_active(w.progress_bar, st) {
        let k = highlight_offset_spec(st, txt.len() as int);
        &&& batch.len() == 2
        &&& batch[0].text@ == txt.take(k)
        &&& batch[1].text@ == txt.skip(k)
        &&& batch[0].text@.len() + batch[1].text@.len() == txt.len()
        &&& batch[0].attr == (Attributes {
            bg_color: Some(Color { red: 255u8, green: 0u8, blue: 0u8 }),
            padding: Padding { right: 0u32, ..w.attr.padding },
            ..w.attr
        })
        &&& batch[1].attr == (Attributes { padding: Padding { left: 0u32, ..w.attr.padding }, ..w.attr })
        &&& batch[0].stretch == false && batch[1].stretch == false
        &&& batch[0].markup == false && batch[1].markup == false
    } else {
        &&& batch.len() == 1
        &&& batch[0].text@ == txt
        &&& batch[0].attr == w.attr
        &&& batch[0].stretch == false
        &&& batch[0].markup == false
    }
}

} // verus!
