//! The typed view over a `currentsong` response.
//!
//! A song is described by well-known keys (file, tags, position); any key
//! the projection does not recognise is kept verbatim, in wire order, in
//! the `tags` list.  An empty response means no current song.

use vstd::prelude::*;
use crate::convert::{str_eq, TimePos};
use crate::parse::{parse_millis, parse_u64, spec_parse_millis, spec_parse_u64};
use crate::response::{lemma_lookup_last_push, lookup_last, MpdResponse};

verus! {

/// A song the player knows about, one optional field per recognised
/// response key; unrecognised keys land in `tags` verbatim.
#[derive(Clone, Debug)]
pub struct Song {
    pub file: Option<String>,
    pub artist: Option<String>,
    pub album: Option<String>,
    pub title: Option<String>,
    pub disc: Option<u64>,
    pub track: Option<u64>,
    pub duration: Option<TimePos>,
    pub pos: Option<u64>,
    pub id: Option<u64>,
    pub tags: Vec<(String, String)>,
}

/// True for the keys that fill a dedicated `Song` field.
pub open spec fn is_song_key(k: Seq<char>) -> bool {
    ||| k == "file"@
    ||| k == "Artist"@
    ||| k == "Album"@
    ||| k == "Title"@
    ||| k == "Disc"@
    ||| k == "Track"@
    ||| k == "duration"@
    ||| k == "Pos"@
    ||| k == "Id"@
}

/// The pairs that fall through to `tags`: every pair whose key fills no
/// dedicated field, in wire order.
pub open spec fn song_tags(pairs: Seq<(Seq<char>, Seq<char>)>) -> Seq<(Seq<char>, Seq<char>)>
    decreases pairs.len(),
{
    if pairs.len() == 0 {
        Seq::empty()
    } else if is_song_key(pairs.last().0) {
        song_tags(pairs.drop_last())
    } else {
        song_tags(pairs.drop_last()).push(pairs.last())
    }
}

/// How `song_tags` grows when one pair is appended.
pub proof fn lemma_song_tags_push(pairs: Seq<(Seq<char>, Seq<char>)>, p: (Seq<char>, Seq<char>))
    ensures
        song_tags(pairs.push(p)) == (if is_song_key(p.0) {
            song_tags(pairs)
        } else {
            song_tags(pairs).push(p)
        }),
{
    assert(pairs.push(p).drop_last() =~= pairs);
    assert(pairs.push(p).last() == p);
}

/// All fields of `song` agree with the recognised keys of `pairs`, and
/// `tags` holds exactly the unrecognised pairs.
pub open spec fn song_matches(song: Song, pairs: Seq<(Seq<char>, Seq<char>)>) -> bool {
    &&& song.file.deep_view() == lookup_last(pairs, "file"@)
    &&& song.artist.deep_view() == lookup_last(pairs, "Artist"@)
    &&& song.album.deep_view() == lookup_last(pairs, "Album"@)
    &&& song.title.deep_view() == lookup_last(pairs, "Title"@)
    &&& song.disc == (match lookup_last(pairs, "Disc"@) {
        Some(v) => spec_parse_u64(v),
        None => None,
    })
    &&& song.track == (match lookup_last(pairs, "Track"@) {
        Some(v) => spec_parse_u64(v),
        None => None,
    })
    &&& song.duration == (match lookup_last(pairs, "duration"@) {
        Some(v) => spec_parse_millis(v),
        None => None,
    })
    &&& song.pos == (match lookup_last(pairs, "Pos"@) {
        Some(v) => spec_parse_u64(v),
        None => None,
    })
    &&& song.id == (match lookup_last(pairs, "Id"@) {
        Some(v) => spec_parse_u64(v),
        None => None,
    })
    &&& song.tags.deep_view() == song_tags(pairs)
}

/// Updates one text field if the pair's key names it.
fn upd_text(field: &mut Option<String>, key: &str, name: &str, value: &str)
    ensures
        final(field).deep_view() == (if key@ == name@ {
            Some(value@)
        } else {
            old(field).deep_view()
        }),
{
    if str_eq(key, name) {
        *field = Some(value.to_owned());
    }
}

/// Updates one unsigned-integer field if the pair's key names it.
fn upd_num(field: &mut Option<u64>, key: &str, name: &str, value: &str)
    ensures
        *final(field) == (if key@ == name@ {
            spec_parse_u64(value@)
        } else {
            *old(field)
        }),
{
    if str_eq(key, name) {
        *field = parse_u64(value);
    }
}

/// The field updates one response pair causes: a recognised key picks its
/// field, any other key joins the tags verbatim.
pub open spec fn song_step(pre: Song, post: Song, key: Seq<char>, value: Seq<char>) -> bool {
    &&& post.file.deep_view() == (if key == "file"@ {
        Some(value)
    } else {
        pre.file.deep_view()
    })
    &&& post.artist.deep_view() == (if key == "Artist"@ {
        Some(value)
    } else {
        pre.artist.deep_view()
    })
    &&& post.album.deep_view() == (if key == "Album"@ {
        Some(value)
    } else {
        pre.album.deep_view()
    })
    &&& post.title.deep_view() == (if key == "Title"@ {
        Some(value)
    } else {
        pre.title.deep_view()
    })
    &&& post.disc == (if key == "Disc"@ {
        spec_parse_u64(value)
    } else {
        pre.disc
    })
    &&& post.track == (if key == "Track"@ {
        spec_parse_u64(value)
    } else {
        pre.track
    })
    &&& post.duration == (if key == "duration"@ {
        spec_parse_millis(value)
    } else {
        pre.duration
    })
    &&& post.pos == (if key == "Pos"@ {
        spec_parse_u64(value)
    } else {
        pre.pos
    })
    &&& post.id == (if key == "Id"@ {
        spec_parse_u64(value)
    } else {
        pre.id
    })
    &&& post.tags.deep_view() == (if is_song_key(key) {
        pre.tags.deep_view()
    } else {
        pre.tags.deep_view().push((key, value))
    })
}

/// Applies one response pair to the song being built.
fn apply_pair(song: &mut Song, key: &str, value: &str)
    ensures
        song_step(*old(song), *final(song), key@, value@),
{
    upd_text(&mut song.file, key, "file", value);
    upd_text(&mut song.artist, key, "Artist", value);
    upd_text(&mut song.album, key, "Album", value);
    upd_text(&mut song.title, key, "Title", value);
    upd_num(&mut song.disc, key, "Disc", value);
    upd_num(&mut song.track, key, "Track", value);
    upd_num(&mut song.pos, key, "Pos", value);
    upd_num(&mut song.id, key, "Id", value);
    if str_eq(key, "duration") {
        song.duration = parse_millis(value);
    }
    let tag = !str_eq(key, "file") && !str_eq(key, "Artist") && !str_eq(key, "Album") && !str_eq(
        key,
        "Title",
    ) && !str_eq(key, "Disc") && !str_eq(key, "Track") && !str_eq(key, "duration") && !str_eq(
        key,
        "Pos",
    ) && !str_eq(key, "Id");
    if tag {
        let ghost prior = song.tags.deep_view();
        song.tags.push((key.to_owned(), value.to_owned()));
        assert(song.tags.deep_view() =~= prior.push((key@, value@)));
    }
}

/// One pair's update keeps the song in step with the growing prefix.
proof fn lemma_song_step(
    pre: Song,
    post: Song,
    prefix: Seq<(Seq<char>, Seq<char>)>,
    p: (Seq<char>, Seq<char>),
)
    requires
        song_matches(pre, prefix),
        song_step(pre, post, p.0, p.1),
    ensures
        song_matches(post, prefix.push(p)),
{
    lemma_lookup_last_push(prefix, p, "file"@);
    lemma_lookup_last_push(prefix, p, "Artist"@);
    lemma_lookup_last_push(prefix, p, "Album"@);
    lemma_lookup_last_push(prefix, p, "Title"@);
    lemma_lookup_last_push(prefix, p, "Disc"@);
    lemma_lookup_last_push(prefix, p, "Track"@);
    lemma_lookup_last_push(prefix, p, "duration"@);
    lemma_lookup_last_push(prefix, p, "Pos"@);
    lemma_lookup_last_push(prefix, p, "Id"@);
    lemma_song_tags_push(prefix, p);
}

impl Song {
    /// The song with every field unset and no tags.
    pub fn empty() -> (song: Song)
        ensures
            song_matches(song, Seq::<(Seq<char>, Seq<char>)>::empty()),
    {
        let song = Song {
            file: None,
            artist: None,
            album: None,
            title: None,
            disc: None,
            track: None,
            duration: None,
            pos: None,
            id: None,
            tags: Vec::new(),
        };
        assert(song.tags.deep_view() =~= song_tags(Seq::empty()));
        song
    }

    /// Projects a completed `currentsong` response into its typed view.
    /// An empty response (no current song) yields nothing; otherwise each
    /// recognised key's last occurrence fills its field and every other
    /// pair lands in `tags` in wire order.
    pub fn from_response(resp: &MpdResponse) -> (r: Option<Song>)
        ensures
            resp.deep_view().len() == 0 <==> r is None,
            r matches Some(song) ==> song_matches(song, resp.deep_view()),
    {
        if resp.len() == 0 {
            return None;
        }
        let ghost pairs = resp.deep_view();
        let mut song = Song::empty();
        let n = resp.len();
        let mut i: usize = 0;
        while i < n
            invariant
                0 <= i <= n,
                n == resp@.len(),
                pairs == resp.deep_view(),
                pairs.len() == n,
                forall|j: int| 0 <= j < n ==> #[trigger] pairs[j] == (resp@[j].0@, resp@[j].1@),
                song_matches(song, pairs.subrange(0, i as int)),
            decreases n - i,
        {
            let ghost prefix = pairs.subrange(0, i as int);
            let ghost p = pairs[i as int];
            let ghost before = song;
            apply_pair(&mut song, resp[i].0.as_str(), resp[i].1.as_str());
            proof {
                assert(pairs.subrange(0, i as int + 1) =~= prefix.push(p));
                lemma_song_step(before, song, prefix, p);
            }
            i += 1;
        }
        proof {
            assert(pairs.subrange(0, n as int) =~= pairs);
        }
        Some(song)
    }
}

impl Default for Song {
    /// The song with every field unset and no tags.
    fn default() -> (song: Song)
        ensures
            song_matches(song, Seq::<(Seq<char>, Seq<char>)>::empty()),
    {
        Song::empty()
    }
}

} // verus!
