//! The printers of the dump. Each one turns a snapshot into the exact lines
//! of its section; the spec functions here state those lines character by
//! character, and every renderer's postcondition ties its result to them.
//!
//! Lines carrying a free-form name are quoted; counts, flags, durations and
//! the thumbnail fields are printed bare. A renderer that meets an
//! enumeration integer outside its domain rejects the whole section instead
//! of defaulting.

use crate::enums::{
    auto_repeat_mode_name, auto_repeat_mode_name_spec, playback_status_name,
    playback_status_name_spec, playback_type_name, playback_type_name_spec, InvalidEnumValue,
};
use crate::snapshot::{
    media_valid, playback_info_valid, session_valid, DumpError, MediaPropertiesSnapshot,
    PlaybackControlsSnapshot, PlaybackInfoSnapshot, SessionSnapshot, TimelineSnapshot,
};
use crate::text::{
    bool_str, bool_to_str, dec_str, i32_to_string, i64_to_string, indent_spec, indent_string,
    int_dec_str, rate_str, rate_to_string, u128_to_string, u64_to_string,
};
use vstd::prelude::*;

verus! {

/// The rendered strings `v` are, character for character, the lines `l`.
pub open spec fn lines_match(v: Seq<String>, l: Seq<Seq<char>>) -> bool {
    &&& v.len() == l.len()
    &&& (forall|i: int| 0 <= i < v.len() ==> v[i]@ == l[i])
}

pub proof fn lemma_lines_match_push(v: Seq<String>, l: Seq<Seq<char>>, s: String)
    requires
        lines_match(v, l),
    ensures
        lines_match(v.push(s), l.push(s@)),
{
    assert forall|i: int| 0 <= i < v.push(s).len() implies v.push(s)[i]@ == l.push(s@)[i] by {
        if i < v.len() {
            assert(v.push(s)[i] == v[i]);
            assert(l.push(s@)[i] == l[i]);
        }
    }
}

pub proof fn lemma_lines_match_concat(
    v1: Seq<String>,
    l1: Seq<Seq<char>>,
    v2: Seq<String>,
    l2: Seq<Seq<char>>,
)
    requires
        lines_match(v1, l1),
        lines_match(v2, l2),
    ensures
        lines_match(v1 + v2, l1 + l2),
{
    assert forall|i: int| 0 <= i < (v1 + v2).len() implies (v1 + v2)[i]@ == (l1 + l2)[i] by {
        if i < v1.len() {
            assert((v1 + v2)[i] == v1[i]);
            assert((l1 + l2)[i] == l1[i]);
        } else {
            assert((v1 + v2)[i] == v2[i - v1.len()]);
            assert((l1 + l2)[i] == l2[i - l1.len()]);
        }
    }
}

/// One bullet line of the genre list: the indentation prefix, five further
/// spaces, a dash, and the genre in quotes.
pub open spec fn genre_bullet_spec(g: Seq<char>, depth: nat) -> Seq<char> {
    indent_spec(depth) + "     - \""@ + g + "\""@
}

/// The bullet lines of the genre list: one per genre, in order.
pub open spec fn genre_bullets_spec(genres: Seq<String>, depth: nat) -> Seq<Seq<char>> {
    Seq::new(genres.len(), |i: int| genre_bullet_spec(genres[i]@, depth))
}

/// The lines of the media-properties section, for a snapshot whose
/// playback-type integer is in its domain.
pub open spec fn media_lines_spec(m: MediaPropertiesSnapshot, depth: nat) -> Seq<Seq<char>> {
    let ind = indent_spec(depth);
    let sub = indent_spec(depth + 1);
    seq![
        ind + "album_artist: \""@ + m.album_artist@ + "\""@,
        ind + "album_title: \""@ + m.album_title@ + "\""@,
        ind + "album_track_count: "@ + int_dec_str(m.album_track_count as int),
        ind + "artist: \""@ + m.artist@ + "\""@,
        ind + "genres:"@,
    ] + genre_bullets_spec(m.genres@, depth) + seq![
        ind + "playback_type: "@ + playback_type_name_spec(m.playback_type as int),
        ind + "subtitle: "@ + m.subtitle@,
        ind + "thumbnail:"@,
        sub + "content_type: "@ + m.thumbnail.content_type@,
        sub + "size: "@ + dec_str(m.thumbnail.size as nat),
        ind + "title: \""@ + m.title@ + "\""@,
        ind + "track_number: "@ + int_dec_str(m.track_number as int),
    ]
}

/// The fifteen lines of the transport-controls section, one per capability
/// flag, in the platform's alphabetical reading order.
pub open spec fn controls_lines_spec(c: PlaybackControlsSnapshot, depth: nat) -> Seq<Seq<char>> {
    let ind = indent_spec(depth);
    seq![
        ind + "is_channel_down_enabled: "@ + bool_str(c.is_channel_down_enabled),
        ind + "is_channel_up_enabled: "@ + bool_str(c.is_channel_up_enabled),
        ind + "is_fast_forward_enabled: "@ + bool_str(c.is_fast_forward_enabled),
        ind + "is_next_enabled: "@ + bool_str(c.is_next_enabled),
        ind + "is_pause_enabled: "@ + bool_str(c.is_pause_enabled),
        ind + "is_playback_position_enabled: "@ + bool_str(c.is_playback_position_enabled),
        ind + "is_playback_rate_enabled: "@ + bool_str(c.is_playback_rate_enabled),
        ind + "is_play_enabled: "@ + bool_str(c.is_play_enabled),
        ind + "is_play_pause_toggle_enabled: "@ + bool_str(c.is_play_pause_toggle_enabled),
        ind + "is_previous_enabled: "@ + bool_str(c.is_previous_enabled),
        ind + "is_record_enabled: "@ + bool_str(c.is_record_enabled),
        ind + "is_repeat_enabled: "@ + bool_str(c.is_repeat_enabled),
        ind + "is_rewind_enabled: "@ + bool_str(c.is_rewind_enabled),
        ind + "is_shuffle_enabled: "@ + bool_str(c.is_shuffle_enabled),
        ind + "is_stop_enabled: "@ + bool_str(c.is_stop_enabled),
    ]
}

/// The first five transport-controls lines.
pub(crate) open spec fn controls_lines_a(c: PlaybackControlsSnapshot, depth: nat) -> Seq<Seq<char>> {
    let ind = indent_spec(depth);
    seq![
        ind + "is_channel_down_enabled: "@ + bool_str(c.is_channel_down_enabled),
        ind + "is_channel_up_enabled: "@ + bool_str(c.is_channel_up_enabled),
        ind + "is_fast_forward_enabled: "@ + bool_str(c.is_fast_forward_enabled),
        ind + "is_next_enabled: "@ + bool_str(c.is_next_enabled),
        ind + "is_pause_enabled: "@ + bool_str(c.is_pause_enabled),
    ]
}

/// The middle five transport-controls lines.
pub(crate) open spec fn controls_lines_b(c: PlaybackControlsSnapshot, depth: nat) -> Seq<Seq<char>> {
    let ind = indent_spec(depth);
    seq![
        ind + "is_playback_position_enabled: "@ + bool_str(c.is_playback_position_enabled),
        ind + "is_playback_rate_enabled: "@ + bool_str(c.is_playback_rate_enabled),
        ind + "is_play_enabled: "@ + bool_str(c.is_play_enabled),
        ind + "is_play_pause_toggle_enabled: "@ + bool_str(c.is_play_pause_toggle_enabled),
        ind + "is_previous_enabled: "@ + bool_str(c.is_previous_enabled),
    ]
}

/// The last five transport-controls lines.
pub(crate) open spec fn controls_lines_c(c: PlaybackControlsSnapshot, depth: nat) -> Seq<Seq<char>> {
    let ind = indent_spec(depth);
    seq![
        ind + "is_record_enabled: "@ + bool_str(c.is_record_enabled),
        ind + "is_repeat_enabled: "@ + bool_str(c.is_repeat_enabled),
        ind + "is_rewind_enabled: "@ + bool_str(c.is_rewind_enabled),
        ind + "is_shuffle_enabled: "@ + bool_str(c.is_shuffle_enabled),
        ind + "is_stop_enabled: "@ + bool_str(c.is_stop_enabled),
    ]
}

/// The fifteen transport-controls lines are the three five-line groups in
/// order.
pub(crate) proof fn lemma_controls_lines_split(c: PlaybackControlsSnapshot, depth: nat)
    ensures
        controls_lines_spec(c, depth) == controls_lines_a(c, depth) + controls_lines_b(c, depth)
            + controls_lines_c(c, depth),
{
    assert(controls_lines_spec(c, depth) =~= controls_lines_a(c, depth) + controls_lines_b(
        c,
        depth,
    ) + controls_lines_c(c, depth));
}

/// The lines of the playback-info section: one line per present optional
/// field, in fixed order, with the controls sub-section one level deeper.
pub open spec fn playback_lines_spec(p: PlaybackInfoSnapshot, depth: nat) -> Seq<Seq<char>> {
    let ind = indent_spec(depth);
    (match p.auto_repeat_mode {
        Some(v) => seq![
            ind + "auto_repeat_mode: \""@ + auto_repeat_mode_name_spec(v as int) + "\""@,
        ],
        None => Seq::<Seq<char>>::empty(),
    }) + (match p.controls {
        Some(c) => seq![ind + "controls:"@] + controls_lines_spec(c, depth + 1),
        None => Seq::<Seq<char>>::empty(),
    }) + (match p.is_shuffle_active {
        Some(b) => seq![ind + "is_shuffle_active: "@ + bool_str(b)],
        None => Seq::<Seq<char>>::empty(),
    }) + (match p.playback_rate_hundredths {
        Some(h) => seq![ind + "playback_rate: "@ + rate_str(h as int)],
        None => Seq::<Seq<char>>::empty(),
    }) + (match p.playback_status {
        Some(v) => seq![
            ind + "playback_status: \""@ + playback_status_name_spec(v as int) + "\""@,
        ],
        None => Seq::<Seq<char>>::empty(),
    }) + (match p.playback_type {
        Some(v) => seq![ind + "playback_type: \""@ + playback_type_name_spec(v as int) + "\""@],
        None => Seq::<Seq<char>>::empty(),
    })
}

/// The six lines of the timeline section: the five duration fields as
/// nanosecond counts and the last-updated timestamp as the platform's raw
/// absolute-time integer.
pub open spec fn timeline_lines_spec(t: TimelineSnapshot, depth: nat) -> Seq<Seq<char>> {
    let ind = indent_spec(depth);
    seq![
        ind + "start_time: "@ + dec_str(t.start_time_nanos as nat),
        ind + "end_time: "@ + dec_str(t.end_time_nanos as nat),
        ind + "max_seek_time: "@ + dec_str(t.max_seek_time_nanos as nat),
        ind + "min_seek_time: "@ + dec_str(t.min_seek_time_nanos as nat),
        ind + "position: "@ + dec_str(t.position_nanos as nat),
        ind + "last_updated_time: "@ + int_dec_str(t.last_updated_time as int),
    ]
}

/// The whole dump for one session: the source application line, a blank
/// line, then the three sections under their headers. A section whose
/// snapshot is absent contributes no lines of its own, but its header and
/// the sections after it still appear.
pub open spec fn session_lines_spec(s: SessionSnapshot) -> Seq<Seq<char>> {
    seq![
        "app_user_model_id: \""@ + s.app_user_model_id@ + "\""@,
        ""@,
        "media_properties:"@,
    ] + (match s.media {
        Some(m) => media_lines_spec(m, 1),
        None => Seq::<Seq<char>>::empty(),
    }) + seq!["    playback_info:"@] + (match s.playback {
        Some(p) => playback_lines_spec(p, 2),
        None => Seq::<Seq<char>>::empty(),
    }) + seq![""@, "    timeline_properties:"@] + (match s.timeline {
        Some(t) => timeline_lines_spec(t, 2),
        None => Seq::<Seq<char>>::empty(),
    })
}

/// A line made of a prefix and a key.
fn header_line(prefix: &str, key: &str) -> (r: String)
    ensures
        r@ == prefix@ + key@,
{
    let mut l = String::from_str(prefix);
    l.append(key);
    l
}

/// A line made of a prefix, a key and a bare value.
fn kv_line(prefix: &str, key: &str, val: &str) -> (r: String)
    ensures
        r@ == prefix@ + key@ + val@,
{
    let mut l = String::from_str(prefix);
    l.append(key);
    l.append(val);
    l
}

/// A line made of a prefix, a key that opens a quote, the value, and the
/// closing quote.
fn quoted_line(prefix: &str, key: &str, val: &str) -> (r: String)
    ensures
        r@ == prefix@ + key@ + val@ + "\""@,
{
    let mut l = String::from_str(prefix);
    l.append(key);
    l.append(val);
    l.append("\"");
    l
}

/// Pushes one rendered line, keeping the ghost account of the lines so far.
fn push_line(out: &mut Vec<String>, acc: Ghost<Seq<Seq<char>>>, line: String) -> (acc2: Ghost<
    Seq<Seq<char>>,
>)
    requires
        lines_match(old(out)@, acc@),
    ensures
        acc2@ == acc@.push(line@),
        lines_match(final(out)@, acc2@),
{
    proof {
        lemma_lines_match_push(out@, acc@, line);
    }
    out.push(line);
    Ghost(acc@.push(line@))
}

/// Moves a rendered block onto the output, keeping the ghost account.
fn append_lines(
    out: &mut Vec<String>,
    acc: Ghost<Seq<Seq<char>>>,
    lines: Vec<String>,
    block: Ghost<Seq<Seq<char>>>,
) -> (acc2: Ghost<Seq<Seq<char>>>)
    requires
        lines_match(old(out)@, acc@),
        lines_match(lines@, block@),
    ensures
        acc2@ == acc@ + block@,
        lines_match(final(out)@, acc2@),
{
    proof {
        lemma_lines_match_concat(out@, acc@, lines@, block@);
    }
    let mut lines = lines;
    out.append(&mut lines);
    Ghost(acc@ + block@)
}

/// Renders the first five transport-controls lines.
fn render_controls_a(c: &PlaybackControlsSnapshot, ind: &str, depth: usize) -> (r: Vec<String>)
    requires
        ind@ == indent_spec(depth as nat),
    ensures
        lines_match(r@, controls_lines_a(*c, depth as nat)),
{
    let mut out: Vec<String> = Vec::new();
    let mut acc: Ghost<Seq<Seq<char>>> = Ghost(Seq::empty());
    acc = push_line(
        &mut out,
        acc,
        kv_line(ind, "is_channel_down_enabled: ", bool_to_str(c.is_channel_down_enabled)),
    );
    acc = push_line(
        &mut out,
        acc,
        kv_line(ind, "is_channel_up_enabled: ", bool_to_str(c.is_channel_up_enabled)),
    );
    acc = push_line(
        &mut out,
        acc,
        kv_line(ind, "is_fast_forward_enabled: ", bool_to_str(c.is_fast_forward_enabled)),
    );
    acc = push_line(
        &mut out,
        acc,
        kv_line(ind, "is_next_enabled: ", bool_to_str(c.is_next_enabled)),
    );
    acc = push_line(
        &mut out,
        acc,
        kv_line(ind, "is_pause_enabled: ", bool_to_str(c.is_pause_enabled)),
    );
    proof {
        assert(acc@ =~= controls_lines_a(*c, depth as nat));
    }
    out
}

/// Renders the middle five transport-controls lines.
fn render_controls_b(c: &PlaybackControlsSnapshot, ind: &str, depth: usize) -> (r: Vec<String>)
    requires
        ind@ == indent_spec(depth as nat),
    ensures
        lines_match(r@, controls_lines_b(*c, depth as nat)),
{
    let mut out: Vec<String> = Vec::new();
    let mut acc: Ghost<Seq<Seq<char>>> = Ghost(Seq::empty());
    acc = push_line(
        &mut out,
        acc,
        kv_line(
            ind,
            "is_playback_position_enabled: ",
            bool_to_str(c.is_playback_position_enabled),
        ),
    );
    acc = push_line(
        &mut out,
        acc,
        kv_line(ind, "is_playback_rate_enabled: ", bool_to_str(c.is_playback_rate_enabled)),
    );
    acc = push_line(
        &mut out,
        acc,
        kv_line(ind, "is_play_enabled: ", bool_to_str(c.is_play_enabled)),
    );
    acc = push_line(
        &mut out,
        acc,
        kv_line(
            ind,
            "is_play_pause_toggle_enabled: ",
            bool_to_str(c.is_play_pause_toggle_enabled),
        ),
    );
    acc = push_line(
        &mut out,
        acc,
        kv_line(ind, "is_previous_enabled: ", bool_to_str(c.is_previous_enabled)),
    );
    proof {
        assert(acc@ =~= controls_lines_b(*c, depth as nat));
    }
    out
}

/// Renders the last five transport-controls lines.
fn render_controls_c(c: &PlaybackControlsSnapshot, ind: &str, depth: usize) -> (r: Vec<String>)
    requires
        ind@ == indent_spec(depth as nat),
    ensures
        lines_match(r@, controls_lines_c(*c, depth as nat)),
{
    let mut out: Vec<String> = Vec::new();
    let mut acc: Ghost<Seq<Seq<char>>> = Ghost(Seq::empty());
    acc = push_line(
        &mut out,
        acc,
        kv_line(ind, "is_record_enabled: ", bool_to_str(c.is_record_enabled)),
    );
    acc = push_line(
        &mut out,
        acc,
        kv_line(ind, "is_repeat_enabled: ", bool_to_str(c.is_repeat_enabled)),
    );
    acc = push_line(
        &mut out,
        acc,
        kv_line(ind, "is_rewind_enabled: ", bool_to_str(c.is_rewind_enabled)),
    );
    acc = push_line(
        &mut out,
        acc,
        kv_line(ind, "is_shuffle_enabled: ", bool_to_str(c.is_shuffle_enabled)),
    );
    acc = push_line(
        &mut out,
        acc,
        kv_line(ind, "is_stop_enabled: ", bool_to_str(c.is_stop_enabled)),
    );
    proof {
        assert(acc@ =~= controls_lines_c(*c, depth as nat));
    }
    out
}

/// Renders the transport-controls section: all fifteen flags,
/// unconditionally, as `<flag_name>: <true|false>` lines.
pub fn render_playback_controls(c: &PlaybackControlsSnapshot, depth: usize) -> (r: Vec<String>)
    requires
        4 * depth <= usize::MAX,
    ensures
        lines_match(r@, controls_lines_spec(*c, depth as nat)),
{
    let ind = indent_string(depth);
    let mut out = render_controls_a(c, ind.as_str(), depth);
    let mut acc: Ghost<Seq<Seq<char>>> = Ghost(controls_lines_a(*c, depth as nat));
    let part_b = render_controls_b(c, ind.as_str(), depth);
    acc = append_lines(&mut out, acc, part_b, Ghost(controls_lines_b(*c, depth as nat)));
    let part_c = render_controls_c(c, ind.as_str(), depth);
    acc = append_lines(&mut out, acc, part_c, Ghost(controls_lines_c(*c, depth as nat)));
    proof {
        lemma_controls_lines_split(*c, depth as nat);
    }
    out
}

/// Renders the timeline section: the five durations as nanosecond counts
/// and the raw last-updated timestamp, unconditionally.
pub fn render_timeline_properties(t: &TimelineSnapshot, depth: usize) -> (r: Vec<String>)
    requires
        4 * depth <= usize::MAX,
    ensures
        lines_match(r@, timeline_lines_spec(*t, depth as nat)),
{
    let ind = indent_string(depth);
    let mut out: Vec<String> = Vec::new();
    let mut acc: Ghost<Seq<Seq<char>>> = Ghost(Seq::empty());
    acc = push_line(
        &mut out,
        acc,
        kv_line(ind.as_str(), "start_time: ", u128_to_string(t.start_time_nanos).as_str()),
    );
    acc = push_line(
        &mut out,
        acc,
        kv_line(ind.as_str(), "end_time: ", u128_to_string(t.end_time_nanos).as_str()),
    );
    acc = push_line(
        &mut out,
        acc,
        kv_line(ind.as_str(), "max_seek_time: ", u128_to_string(t.max_seek_time_nanos).as_str()),
    );
    acc = push_line(
        &mut out,
        acc,
        kv_line(ind.as_str(), "min_seek_time: ", u128_to_string(t.min_seek_time_nanos).as_str()),
    );
    acc = push_line(
        &mut out,
        acc,
        kv_line(ind.as_str(), "position: ", u128_to_string(t.position_nanos).as_str()),
    );
    acc = push_line(
        &mut out,
        acc,
        kv_line(ind.as_str(), "last_updated_time: ", i64_to_string(t.last_updated_time).as_str()),
    );
    proof {
        assert(acc@ =~= timeline_lines_spec(*t, depth as nat));
    }
    out
}

/// Renders the media-properties section. Fails, rendering nothing, exactly
/// when the snapshot's playback-type integer is outside its domain; the
/// genre list contributes one bullet line per genre after its header.
pub fn render_media_properties(m: &MediaPropertiesSnapshot, depth: usize) -> (r: Result<
    Vec<String>,
    InvalidEnumValue,
>)
    requires
        4 * depth + 4 <= usize::MAX,
    ensures
        r is Ok <==> media_valid(*m),
        r matches Ok(lines) ==> lines_match(lines@, media_lines_spec(*m, depth as nat)),
        r matches Err(e) ==> e == (InvalidEnumValue { value: m.playback_type }),
{
    let pt = match playback_type_name(m.playback_type) {
        Ok(s) => s,
        Err(e) => {
            return Err(e);
        },
    };
    let ind = indent_string(depth);
    let sub = indent_string(depth + 1);
    let mut out: Vec<String> = Vec::new();
    let mut acc: Ghost<Seq<Seq<char>>> = Ghost(Seq::empty());
    acc = push_line(
        &mut out,
        acc,
        quoted_line(ind.as_str(), "album_artist: \"", m.album_artist.as_str()),
    );
    acc = push_line(
        &mut out,
        acc,
        quoted_line(ind.as_str(), "album_title: \"", m.album_title.as_str()),
    );
    acc = push_line(
        &mut out,
        acc,
        kv_line(ind.as_str(), "album_track_count: ", i32_to_string(m.album_track_count).as_str()),
    );
    acc = push_line(&mut out, acc, quoted_line(ind.as_str(), "artist: \"", m.artist.as_str()));
    acc = push_line(&mut out, acc, header_line(ind.as_str(), "genres:"));
    let ghost head: Seq<Seq<char>> = acc@;
    let ghost bullets: Seq<Seq<char>> = genre_bullets_spec(m.genres@, depth as nat);
    let mut gi: usize = 0;
    while gi < m.genres.len()
        invariant
            gi <= m.genres@.len(),
            lines_match(out@, acc@),
            acc@ == head + bullets.subrange(0, gi as int),
            bullets == genre_bullets_spec(m.genres@, depth as nat),
            ind@ == indent_spec(depth as nat),
        decreases m.genres@.len() - gi,
    {
        acc = push_line(
            &mut out,
            acc,
            quoted_line(ind.as_str(), "     - \"", m.genres[gi].as_str()),
        );
        proof {
            assert(acc@ =~= head + bullets.subrange(0, gi + 1));
        }
        gi = gi + 1;
    }
    proof {
        assert(bullets.subrange(0, m.genres@.len() as int) =~= bullets);
    }
    acc = push_line(&mut out, acc, kv_line(ind.as_str(), "playback_type: ", pt));
    acc = push_line(&mut out, acc, kv_line(ind.as_str(), "subtitle: ", m.subtitle.as_str()));
    acc = push_line(&mut out, acc, header_line(ind.as_str(), "thumbnail:"));
    acc = push_line(
        &mut out,
        acc,
        kv_line(sub.as_str(), "content_type: ", m.thumbnail.content_type.as_str()),
    );
    acc = push_line(
        &mut out,
        acc,
        kv_line(sub.as_str(), "size: ", u64_to_string(m.thumbnail.size).as_str()),
    );
    acc = push_line(&mut out, acc, quoted_line(ind.as_str(), "title: \"", m.title.as_str()));
    acc = push_line(
        &mut out,
        acc,
        kv_line(ind.as_str(), "track_number: ", i32_to_string(m.track_number).as_str()),
    );
    proof {
        assert(acc@ =~= media_lines_spec(*m, depth as nat));
    }
    Ok(out)
}

/// Renders the playback-info section: each optional field that is present
/// contributes its line, independently of the others; an absent field
/// suppresses only its own line. Fails, rendering nothing, exactly when a
/// present enumeration integer is outside its domain.
#[verifier::rlimit(100)]
pub fn render_playback_info(p: &PlaybackInfoSnapshot, depth: usize) -> (r: Result<
    Vec<String>,
    InvalidEnumValue,
>)
    requires
        4 * depth + 4 <= usize::MAX,
    ensures
        r is Ok <==> playback_info_valid(*p),
        r matches Ok(lines) ==> lines_match(lines@, playback_lines_spec(*p, depth as nat)),
        r matches Err(e) ==> {
            ||| (p.auto_repeat_mode matches Some(v) && !(0 <= v <= 2) && e.value == v)
            ||| (p.playback_status matches Some(v) && !(0 <= v <= 5) && e.value == v)
            ||| (p.playback_type matches Some(v) && !(0 <= v <= 3) && e.value == v)
        },
{
    let ind = indent_string(depth);
    let ghost d: nat = depth as nat;
    let ghost g1: Seq<Seq<char>> = match p.auto_repeat_mode {
        Some(v) => seq![
            indent_spec(d) + "auto_repeat_mode: \""@ + auto_repeat_mode_name_spec(v as int)
                + "\""@,
        ],
        None => Seq::<Seq<char>>::empty(),
    };
    let ghost g2: Seq<Seq<char>> = match p.controls {
        Some(c) => seq![indent_spec(d) + "controls:"@] + controls_lines_spec(c, d + 1),
        None => Seq::<Seq<char>>::empty(),
    };
    let ghost g3: Seq<Seq<char>> = match p.is_shuffle_active {
        Some(b) => seq![indent_spec(d) + "is_shuffle_active: "@ + bool_str(b)],
        None => Seq::<Seq<char>>::empty(),
    };
    let ghost g4: Seq<Seq<char>> = match p.playback_rate_hundredths {
        Some(h) => seq![indent_spec(d) + "playback_rate: "@ + rate_str(h as int)],
        None => Seq::<Seq<char>>::empty(),
    };
    let ghost g5: Seq<Seq<char>> = match p.playback_status {
        Some(v) => seq![
            indent_spec(d) + "playback_status: \""@ + playback_status_name_spec(v as int) + "\""@,
        ],
        None => Seq::<Seq<char>>::empty(),
    };
    let ghost g6: Seq<Seq<char>> = match p.playback_type {
        Some(v) => seq![
            indent_spec(d) + "playback_type: \""@ + playback_type_name_spec(v as int) + "\""@,
        ],
        None => Seq::<Seq<char>>::empty(),
    };
    let mut out: Vec<String> = Vec::new();
    let mut acc: Ghost<Seq<Seq<char>>> = Ghost(Seq::empty());
    if let Some(v) = p.auto_repeat_mode {
        let name = match auto_repeat_mode_name(v) {
            Ok(n) => n,
            Err(e) => {
                return Err(e);
            },
        };
        acc = push_line(&mut out, acc, quoted_line(ind.as_str(), "auto_repeat_mode: \"", name));
    }
    proof {
        assert(acc@ =~= g1);
    }
    if let Some(c) = p.controls {
        acc = push_line(&mut out, acc, header_line(ind.as_str(), "controls:"));
        let sub_lines = render_playback_controls(&c, depth + 1);
        let ghost block: Seq<Seq<char>> = controls_lines_spec(c, depth as nat + 1);
        acc = append_lines(&mut out, acc, sub_lines, Ghost(block));
    }
    proof {
        assert(acc@ =~= g1 + g2);
    }
    if let Some(b) = p.is_shuffle_active {
        acc = push_line(
            &mut out,
            acc,
            kv_line(ind.as_str(), "is_shuffle_active: ", bool_to_str(b)),
        );
    }
    proof {
        assert(acc@ =~= g1 + g2 + g3);
    }
    if let Some(h) = p.playback_rate_hundredths {
        acc = push_line(
            &mut out,
            acc,
            kv_line(ind.as_str(), "playback_rate: ", rate_to_string(h).as_str()),
        );
    }
    proof {
        assert(acc@ =~= g1 + g2 + g3 + g4);
    }
    if let Some(v) = p.playback_status {
        let name = match playback_status_name(v) {
            Ok(n) => n,
            Err(e) => {
                return Err(e);
            },
        };
        acc = push_line(&mut out, acc, quoted_line(ind.as_str(), "playback_status: \"", name));
    }
    proof {
        assert(acc@ =~= g1 + g2 + g3 + g4 + g5);
    }
    if let Some(v) = p.playback_type {
        let name = match playback_type_name(v) {
            Ok(n) => n,
            Err(e) => {
                return Err(e);
            },
        };
        acc = push_line(&mut out, acc, quoted_line(ind.as_str(), "playback_type: \"", name));
    }
    proof {
        assert(acc@ =~= g1 + g2 + g3 + g4 + g5 + g6);
        assert(playback_lines_spec(*p, depth as nat) == g1 + g2 + g3 + g4 + g5 + g6);
    }
    Ok(out)
}

/// Renders the whole dump for one session: the source application line, a
/// blank line, and the three sections under their headers. A section whose
/// snapshot is absent is skipped without disturbing the sections around it.
/// Fails, rendering nothing, exactly when some enumeration integer in the
/// snapshot is outside its domain.
pub fn render_session_dump(s: &SessionSnapshot) -> (r: Result<Vec<String>, InvalidEnumValue>)
    ensures
        r is Ok <==> session_valid(*s),
        r matches Ok(lines) ==> lines_match(lines@, session_lines_spec(*s)),
{
    let mut out: Vec<String> = Vec::new();
    let mut acc: Ghost<Seq<Seq<char>>> = Ghost(Seq::empty());
    acc = push_line(
        &mut out,
        acc,
        quoted_line("", "app_user_model_id: \"", s.app_user_model_id.as_str()),
    );
    let blank = String::new();
    proof {
        reveal_strlit("");
        assert(blank@ =~= ""@);
    }
    acc = push_line(&mut out, acc, blank);
    acc = push_line(&mut out, acc, header_line("", "media_properties:"));
    if let Some(m) = &s.media {
        let lines = match render_media_properties(m, 1) {
            Ok(l) => l,
            Err(e) => {
                return Err(e);
            },
        };
        let ghost block: Seq<Seq<char>> = media_lines_spec(*m, 1);
        acc = append_lines(&mut out, acc, lines, Ghost(block));
    }
    acc = push_line(&mut out, acc, header_line("", "    playback_info:"));
    if let Some(p) = &s.playback {
        let lines = match render_playback_info(p, 2) {
            Ok(l) => l,
            Err(e) => {
                return Err(e);
            },
        };
        let ghost block: Seq<Seq<char>> = playback_lines_spec(*p, 2);
        acc = append_lines(&mut out, acc, lines, Ghost(block));
    }
    let blank2 = String::new();
    proof {
        reveal_strlit("");
        assert(blank2@ =~= ""@);
    }
    acc = push_line(&mut out, acc, blank2);
    acc = push_line(&mut out, acc, header_line("", "    timeline_properties:"));
    if let Some(t) = &s.timeline {
        let lines = render_timeline_properties(t, 2);
        let ghost block: Seq<Seq<char>> = timeline_lines_spec(*t, 2);
        acc = append_lines(&mut out, acc, lines, Ghost(block));
    }
    proof {
        reveal_strlit("");
        assert(acc@ =~= session_lines_spec(*s));
    }
    Ok(out)
}

/// The one decision of the program: with no current session the dump fails
/// before any section is rendered; with a session it is the whole dump, or
/// the invalid-enumeration error the dump met.
pub fn render_program_output(session: &Option<SessionSnapshot>) -> (r: Result<
    Vec<String>,
    DumpError,
>)
    ensures
        (session is None) <==> (r matches Err(e) && e == DumpError::NoCurrentSession),
        r is Ok <==> (session matches Some(s) && session_valid(*s)),
        r matches Ok(lines) ==> (session matches Some(s) && lines_match(
            lines@,
            session_lines_spec(*s),
        )),
        (session matches Some(s) && !session_valid(*s)) ==> (r matches Err(e) && e matches
            DumpError::InvalidEnum(_)),
{
    match session {
        None => Err(DumpError::NoCurrentSession),
        Some(s) => match render_session_dump(s) {
            Ok(lines) => Ok(lines),
            Err(e) => Err(DumpError::InvalidEnum(e)),
        },
    }
}

} // verus!
