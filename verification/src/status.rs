//! The typed view over a `status` response.
//!
//! A status response is an association list of well-known keys; this
//! projection reads each recognised key's last occurrence into a typed
//! field.  A value that fails to parse leaves its field unset — it never
//! panics the engine.

use vstd::prelude::*;
use crate::convert::{str_eq, TimePos};
use crate::parse::{
    parse_flag, parse_millis, parse_u64, spec_parse_flag, spec_parse_millis, spec_parse_u64,
};
use crate::response::{lemma_lookup_last_push, lookup_last, MpdResponse};

verus! {

/// The player's playback state.
#[derive(Clone, Copy, Debug, PartialEq, Eq, Structural)]
pub enum State {
    Pause,
    Play,
    Stop,
}

/// What parsing a playback-state value yields.
pub open spec fn spec_parse_state(s: Seq<char>) -> Option<State> {
    if s == "pause"@ {
        Some(State::Pause)
    } else if s == "play"@ {
        Some(State::Play)
    } else if s == "stop"@ {
        Some(State::Stop)
    } else {
        None
    }
}

/// Parses a playback-state value.
pub fn parse_state(s: &str) -> (r: Option<State>)
    ensures
        r == spec_parse_state(s@),
{
    if str_eq(s, "pause") {
        Some(State::Pause)
    } else if str_eq(s, "play") {
        Some(State::Play)
    } else if str_eq(s, "stop") {
        Some(State::Stop)
    } else {
        None
    }
}

impl core::str::FromStr for State {
    type Err = ();

    fn from_str(s: &str) -> Result<State, ()> {
        match parse_state(s) {
            Some(v) => Ok(v),
            None => Err(()),
        }
    }
}

/// The last `key` value parsed as an unsigned integer.
pub open spec fn fld_u64(pairs: Seq<(Seq<char>, Seq<char>)>, key: Seq<char>) -> Option<u64> {
    match lookup_last(pairs, key) {
        Some(v) => spec_parse_u64(v),
        None => None,
    }
}

/// The last `key` value parsed as a zero/one toggle.
pub open spec fn fld_flag(pairs: Seq<(Seq<char>, Seq<char>)>, key: Seq<char>) -> Option<bool> {
    match lookup_last(pairs, key) {
        Some(v) => spec_parse_flag(v),
        None => None,
    }
}

/// The last `key` value parsed as fractional seconds.
pub open spec fn fld_millis(pairs: Seq<(Seq<char>, Seq<char>)>, key: Seq<char>) -> Option<
    TimePos,
> {
    match lookup_last(pairs, key) {
        Some(v) => spec_parse_millis(v),
        None => None,
    }
}

/// The last `state` value parsed as a playback state.
pub open spec fn fld_state(pairs: Seq<(Seq<char>, Seq<char>)>) -> Option<State> {
    match lookup_last(pairs, "state"@) {
        Some(v) => spec_parse_state(v),
        None => None,
    }
}

/// Player status, one optional field per recognised response key, plus
/// the three convenience flags derived from `state`.
#[derive(Clone, Debug)]
pub struct Status {
    pub volume: Option<u64>,
    pub repeat: Option<bool>,
    pub random: Option<bool>,
    pub single: Option<bool>,
    pub consume: Option<bool>,
    pub playlist: Option<u64>,
    pub playlistlength: Option<u64>,
    pub state: Option<State>,
    pub playing: Option<bool>,
    pub paused: Option<bool>,
    pub stopped: Option<bool>,
    pub song: Option<u64>,
    pub songid: Option<u64>,
    pub nextsong: Option<u64>,
    pub nextsongid: Option<u64>,
    pub elapsed: Option<TimePos>,
    pub duration: Option<TimePos>,
    pub bitrate: Option<u64>,
    pub xfade: Option<u64>,
}

/// All fields of `st` agree with the recognised keys of `pairs`.
pub open spec fn status_matches(st: Status, pairs: Seq<(Seq<char>, Seq<char>)>) -> bool {
    &&& st.volume == fld_u64(pairs, "volume"@)
    &&& st.repeat == fld_flag(pairs, "repeat"@)
    &&& st.random == fld_flag(pairs, "random"@)
    &&& st.single == fld_flag(pairs, "single"@)
    &&& st.consume == fld_flag(pairs, "consume"@)
    &&& st.playlist == fld_u64(pairs, "playlist"@)
    &&& st.playlistlength == fld_u64(pairs, "playlistlength"@)
    &&& st.state == fld_state(pairs)
    &&& st.song == fld_u64(pairs, "song"@)
    &&& st.songid == fld_u64(pairs, "songid"@)
    &&& st.nextsong == fld_u64(pairs, "nextsong"@)
    &&& st.nextsongid == fld_u64(pairs, "nextsongid"@)
    &&& st.elapsed == fld_millis(pairs, "elapsed"@)
    &&& st.duration == fld_millis(pairs, "duration"@)
    &&& st.bitrate == fld_u64(pairs, "bitrate"@)
    &&& st.xfade == fld_u64(pairs, "xfade"@)
}

impl Status {
    /// The status with every field unset.
    pub fn empty() -> (st: Status)
        ensures
            status_matches(st, Seq::<(Seq<char>, Seq<char>)>::empty()),
            st.playing is None,
            st.paused is None,
            st.stopped is None,
    {
        Status {
            volume: None,
            repeat: None,
            random: None,
            single: None,
            consume: None,
            playlist: None,
            playlistlength: None,
            state: None,
            playing: None,
            paused: None,
            stopped: None,
            song: None,
            songid: None,
            nextsong: None,
            nextsongid: None,
            elapsed: None,
            duration: None,
            bitrate: None,
            xfade: None,
        }
    }

    /// Projects a completed `status` response into its typed view.  Every
    /// recognised key's last occurrence fills its field (unparsable values
    /// leave it unset); unrecognised keys are ignored; `playing`, `paused`
    /// and `stopped` restate the parsed `state`.
    pub fn from_response(resp: &MpdResponse) -> (st: Status)
        ensures
            status_matches(st, resp.deep_view()),
            st.playing == (match fld_state(resp.deep_view()) {
                Some(s) => Some(s is Play),
                None => None,
            }),
            st.paused == (match fld_state(resp.deep_view()) {
                Some(s) => Some(s is Pause),
                None => None,
            }),
            st.stopped == (match fld_state(resp.deep_view()) {
                Some(s) => Some(s is Stop),
                None => None,
            }),
    {
        let ghost pairs = resp.deep_view();
        let mut st = Status::empty();
        let n = resp.len();
        let mut i: usize = 0;
        while i < n
            invariant
                0 <= i <= n,
                n == resp@.len(),
                pairs == resp.deep_view(),
                pairs.len() == n,
                forall|j: int|
                    0 <= j < n ==> #[trigger] pairs[j] == (resp@[j].0@, resp@[j].1@),
                status_matches(st, pairs.subrange(0, i as int)),
                st.playing is None,
                st.paused is None,
                st.stopped is None,
            decreases n - i,
        {
            let ghost prefix = pairs.subrange(0, i as int);
            let ghost p = pairs[i as int];
            let ghost before = st;
            apply_pair(&mut st, resp[i].0.as_str(), resp[i].1.as_str());
            proof {
                assert(pairs.subrange(0, i as int + 1) =~= prefix.push(p));
                lemma_status_step(before, st, prefix, p);
            }
            i += 1;
        }
        proof {
            assert(pairs.subrange(0, n as int) =~= pairs);
        }
        match st.state {
            Some(State::Play) => {
                st.playing = Some(true);
                st.paused = Some(false);
                st.stopped = Some(false);
            },
            Some(State::Pause) => {
                st.playing = Some(false);
                st.paused = Some(true);
                st.stopped = Some(false);
            },
            Some(State::Stop) => {
                st.playing = Some(false);
                st.paused = Some(false);
                st.stopped = Some(true);
            },
            None => {},
        }
        st
    }
}

/// The field updates one response pair causes: the pair's key picks at
/// most one field, which takes the parsed value; everything else stays.
pub open spec fn status_step(pre: Status, post: Status, key: Seq<char>, value: Seq<char>) -> bool {
    &&& post.volume == (if key == "volume"@ {
        spec_parse_u64(value)
    } else {
        pre.volume
    })
    &&& post.repeat == (if key == "repeat"@ {
        spec_parse_flag(value)
    } else {
        pre.repeat
    })
    &&& post.random == (if key == "random"@ {
        spec_parse_flag(value)
    } else {
        pre.random
    })
    &&& post.single == (if key == "single"@ {
        spec_parse_flag(value)
    } else {
        pre.single
    })
    &&& post.consume == (if key == "consume"@ {
        spec_parse_flag(value)
    } else {
        pre.consume
    })
    &&& post.playlist == (if key == "playlist"@ {
        spec_parse_u64(value)
    } else {
        pre.playlist
    })
    &&& post.playlistlength == (if key == "playlistlength"@ {
        spec_parse_u64(value)
    } else {
        pre.playlistlength
    })
    &&& post.state == (if key == "state"@ {
        spec_parse_state(value)
    } else {
        pre.state
    })
    &&& post.song == (if key == "song"@ {
        spec_parse_u64(value)
    } else {
        pre.song
    })
    &&& post.songid == (if key == "songid"@ {
        spec_parse_u64(value)
    } else {
        pre.songid
    })
    &&& post.nextsong == (if key == "nextsong"@ {
        spec_parse_u64(value)
    } else {
        pre.nextsong
    })
    &&& post.nextsongid == (if key == "nextsongid"@ {
        spec_parse_u64(value)
    } else {
        pre.nextsongid
    })
    &&& post.elapsed == (if key == "elapsed"@ {
        spec_parse_millis(value)
    } else {
        pre.elapsed
    })
    &&& post.duration == (if key == "duration"@ {
        spec_parse_millis(value)
    } else {
        pre.duration
    })
    &&& post.bitrate == (if key == "bitrate"@ {
        spec_parse_u64(value)
    } else {
        pre.bitrate
    })
    &&& post.xfade == (if key == "xfade"@ {
        spec_parse_u64(value)
    } else {
        pre.xfade
    })
    &&& post.playing == pre.playing
    &&& post.paused == pre.paused
    &&& post.stopped == pre.stopped
}

/// Updates one unsigned-integer field if the pair's key names it.
fn upd_u64(field: &mut Option<u64>, key: &str, name: &str, value: &str)
    ensures
        *final(field) == (if key@ == name@ {
            spec_parse_u64(value@)
        } else {
            *old(field)
        }),
{
    if str_eq(key, name) {
        *field = parse_u64(value);
    }
}

/// Updates one toggle field if the pair's key names it.
fn upd_flag(field: &mut Option<bool>, key: &str, name: &str, value: &str)
    ensures
        *final(field) == (if key@ == name@ {
            spec_parse_flag(value@)
        } else {
            *old(field)
        }),
{
    if str_eq(key, name) {
        *field = parse_flag(value);
    }
}

/// Updates one fractional-seconds field if the pair's key names it.
fn upd_millis(field: &mut Option<TimePos>, key: &str, name: &str, value: &str)
    ensures
        *final(field) == (if key@ == name@ {
            spec_parse_millis(value@)
        } else {
            *old(field)
        }),
{
    if str_eq(key, name) {
        *field = parse_millis(value);
    }
}

/// Updates the playback-state field if the pair's key names it.
fn upd_state(field: &mut Option<State>, key: &str, name: &str, value: &str)
    ensures
        *final(field) == (if key@ == name@ {
            spec_parse_state(value@)
        } else {
            *old(field)
        }),
{
    if str_eq(key, name) {
        *field = parse_state(value);
    }
}

/// Applies one response pair to the status being built.
fn apply_pair(st: &mut Status, key: &str, value: &str)
    ensures
        status_step(*old(st), *final(st), key@, value@),
{
    upd_u64(&mut st.volume, key, "volume", value);
    upd_flag(&mut st.repeat, key, "repeat", value);
    upd_flag(&mut st.random, key, "random", value);
    upd_flag(&mut st.single, key, "single", value);
    upd_flag(&mut st.consume, key, "consume", value);
    upd_u64(&mut st.playlist, key, "playlist", value);
    upd_u64(&mut st.playlistlength, key, "playlistlength", value);
    upd_state(&mut st.state, key, "state", value);
    upd_u64(&mut st.song, key, "song", value);
    upd_u64(&mut st.songid, key, "songid", value);
    upd_u64(&mut st.nextsong, key, "nextsong", value);
    upd_u64(&mut st.nextsongid, key, "nextsongid", value);
    upd_millis(&mut st.elapsed, key, "elapsed", value);
    upd_millis(&mut st.duration, key, "duration", value);
    upd_u64(&mut st.bitrate, key, "bitrate", value);
    upd_u64(&mut st.xfade, key, "xfade", value);
}

/// One pair's update keeps the status in step with the growing prefix.
proof fn lemma_status_step(
    pre: Status,
    post: Status,
    prefix: Seq<(Seq<char>, Seq<char>)>,
    p: (Seq<char>, Seq<char>),
)
    requires
        status_matches(pre, prefix),
        status_step(pre, post, p.0, p.1),
    ensures
        status_matches(post, prefix.push(p)),
{
    lemma_lookup_last_push(prefix, p, "volume"@);
    lemma_lookup_last_push(prefix, p, "repeat"@);
    lemma_lookup_last_push(prefix, p, "random"@);
    lemma_lookup_last_push(prefix, p, "single"@);
    lemma_lookup_last_push(prefix, p, "consume"@);
    lemma_lookup_last_push(prefix, p, "playlist"@);
    lemma_lookup_last_push(prefix, p, "playlistlength"@);
    lemma_lookup_last_push(prefix, p, "state"@);
    lemma_lookup_last_push(prefix, p, "song"@);
    lemma_lookup_last_push(prefix, p, "songid"@);
    lemma_lookup_last_push(prefix, p, "nextsong"@);
    lemma_lookup_last_push(prefix, p, "nextsongid"@);
    lemma_lookup_last_push(prefix, p, "elapsed"@);
    lemma_lookup_last_push(prefix, p, "duration"@);
    lemma_lookup_last_push(prefix, p, "bitrate"@);
    lemma_lookup_last_push(prefix, p, "xfade"@);
}

impl Default for Status {
    /// The status with every field unset.
    fn default() -> (st: Status)
        ensures
            status_matches(st, Seq::<(Seq<char>, Seq<char>)>::empty()),
            st.playing is None,
            st.paused is None,
            st.stopped is None,
    {
        Status::empty()
    }
}

} // verus!
