//! The stated laws of the dump, proved once and for all inputs: the
//! indentation discipline of the three printers, the isolation of a failed
//! media fetch from the other two sections, and the shape of the genre list.

use crate::render::{
    controls_lines_a, controls_lines_b, controls_lines_c, controls_lines_spec, genre_bullet_spec,
    genre_bullets_spec, lemma_controls_lines_split, media_lines_spec, playback_lines_spec,
    session_lines_spec, timeline_lines_spec,
};
use crate::snapshot::{
    MediaPropertiesSnapshot, PlaybackControlsSnapshot, PlaybackInfoSnapshot, SessionSnapshot,
    TimelineSnapshot,
};
use crate::text::{exact_leading_spaces, indent_spec, lemma_prefixed_line};
use vstd::prelude::*;

verus! {

/// A property holding of every line of two blocks holds of every line of
/// their concatenation.
proof fn lemma_lines_pred_concat(
    l1: Seq<Seq<char>>,
    l2: Seq<Seq<char>>,
    p: spec_fn(Seq<char>) -> bool,
)
    requires
        forall|i: int| 0 <= i < l1.len() ==> p(#[trigger] l1[i]),
        forall|i: int| 0 <= i < l2.len() ==> p(#[trigger] l2[i]),
    ensures
        forall|i: int| 0 <= i < (l1 + l2).len() ==> p(#[trigger] (l1 + l2)[i]),
{
    assert forall|i: int| 0 <= i < (l1 + l2).len() implies p((l1 + l2)[i]) by {
        if i < l1.len() {
            assert((l1 + l2)[i] == l1[i]);
        } else {
            assert((l1 + l2)[i] == l2[i - l1.len()]);
        }
    }
}

/// A line of the shape `indent + key` with a key that does not start with a
/// space has exactly `4 * d` leading spaces.
proof fn lemma_line_head(d: nat, key: Seq<char>)
    requires
        key.len() > 0,
        key[0] != ' ',
    ensures
        exact_leading_spaces(indent_spec(d) + key, 4 * d),
{
    lemma_prefixed_line(d, key, 0);
}

/// A line of the shape `indent + key + v` likewise.
proof fn lemma_line_kv(d: nat, key: Seq<char>, v: Seq<char>)
    requires
        key.len() > 0,
        key[0] != ' ',
    ensures
        exact_leading_spaces(indent_spec(d) + key + v, 4 * d),
{
    assert(indent_spec(d) + key + v =~= indent_spec(d) + (key + v));
    assert((key + v)[0] == key[0]);
    lemma_prefixed_line(d, key + v, 0);
}

/// A line of the shape `indent + key + v + w` likewise.
proof fn lemma_line_kvw(d: nat, key: Seq<char>, v: Seq<char>, w: Seq<char>)
    requires
        key.len() > 0,
        key[0] != ' ',
    ensures
        exact_leading_spaces(indent_spec(d) + key + v + w, 4 * d),
{
    assert(indent_spec(d) + key + v + w =~= indent_spec(d) + (key + v + w));
    assert((key + v + w)[0] == (key + v)[0]);
    assert((key + v)[0] == key[0]);
    lemma_prefixed_line(d, key + v + w, 0);
}

proof fn lemma_controls_a_indentation(c: PlaybackControlsSnapshot, d: nat)
    ensures
        forall|i: int| 0 <= i < controls_lines_a(c, d).len() ==> exact_leading_spaces(
            #[trigger] controls_lines_a(c, d)[i],
            4 * d,
        ),
{
    reveal_strlit("is_channel_down_enabled: ");
    reveal_strlit("is_channel_up_enabled: ");
    reveal_strlit("is_fast_forward_enabled: ");
    reveal_strlit("is_next_enabled: ");
    reveal_strlit("is_pause_enabled: ");
    lemma_line_kv(d, "is_channel_down_enabled: "@, crate::text::bool_str(c.is_channel_down_enabled));
    lemma_line_kv(d, "is_channel_up_enabled: "@, crate::text::bool_str(c.is_channel_up_enabled));
    lemma_line_kv(d, "is_fast_forward_enabled: "@, crate::text::bool_str(c.is_fast_forward_enabled));
    lemma_line_kv(d, "is_next_enabled: "@, crate::text::bool_str(c.is_next_enabled));
    lemma_line_kv(d, "is_pause_enabled: "@, crate::text::bool_str(c.is_pause_enabled));
}

proof fn lemma_controls_b_indentation(c: PlaybackControlsSnapshot, d: nat)
    ensures
        forall|i: int| 0 <= i < controls_lines_b(c, d).len() ==> exact_leading_spaces(
            #[trigger] controls_lines_b(c, d)[i],
            4 * d,
        ),
{
    reveal_strlit("is_playback_position_enabled: ");
    reveal_strlit("is_playback_rate_enabled: ");
    reveal_strlit("is_play_enabled: ");
    reveal_strlit("is_play_pause_toggle_enabled: ");
    reveal_strlit("is_previous_enabled: ");
    lemma_line_kv(
        d,
        "is_playback_position_enabled: "@,
        crate::text::bool_str(c.is_playback_position_enabled),
    );
    lemma_line_kv(
        d,
        "is_playback_rate_enabled: "@,
        crate::text::bool_str(c.is_playback_rate_enabled),
    );
    lemma_line_kv(d, "is_play_enabled: "@, crate::text::bool_str(c.is_play_enabled));
    lemma_line_kv(
        d,
        "is_play_pause_toggle_enabled: "@,
        crate::text::bool_str(c.is_play_pause_toggle_enabled),
    );
    lemma_line_kv(d, "is_previous_enabled: "@, crate::text::bool_str(c.is_previous_enabled));
}

proof fn lemma_controls_c_indentation(c: PlaybackControlsSnapshot, d: nat)
    ensures
        forall|i: int| 0 <= i < controls_lines_c(c, d).len() ==> exact_leading_spaces(
            #[trigger] controls_lines_c(c, d)[i],
            4 * d,
        ),
{
    reveal_strlit("is_record_enabled: ");
    reveal_strlit("is_repeat_enabled: ");
    reveal_strlit("is_rewind_enabled: ");
    reveal_strlit("is_shuffle_enabled: ");
    reveal_strlit("is_stop_enabled: ");
    lemma_line_kv(d, "is_record_enabled: "@, crate::text::bool_str(c.is_record_enabled));
    lemma_line_kv(d, "is_repeat_enabled: "@, crate::text::bool_str(c.is_repeat_enabled));
    lemma_line_kv(d, "is_rewind_enabled: "@, crate::text::bool_str(c.is_rewind_enabled));
    lemma_line_kv(d, "is_shuffle_enabled: "@, crate::text::bool_str(c.is_shuffle_enabled));
    lemma_line_kv(d, "is_stop_enabled: "@, crate::text::bool_str(c.is_stop_enabled));
}

/// Indentation law of the transport-controls printer: at depth `d`, every
/// one of its lines carries exactly `4 * d` leading space characters.
pub proof fn lemma_controls_lines_indentation(c: PlaybackControlsSnapshot, d: nat)
    ensures
        forall|i: int| 0 <= i < controls_lines_spec(c, d).len() ==> exact_leading_spaces(
            #[trigger] controls_lines_spec(c, d)[i],
            4 * d,
        ),
{
    let q = |l: Seq<char>| exact_leading_spaces(l, 4 * d);
    lemma_controls_a_indentation(c, d);
    lemma_controls_b_indentation(c, d);
    lemma_controls_c_indentation(c, d);
    assert forall|i: int| 0 <= i < controls_lines_a(c, d).len() implies q(
        #[trigger] controls_lines_a(c, d)[i],
    ) by {}
    assert forall|i: int| 0 <= i < controls_lines_b(c, d).len() implies q(
        #[trigger] controls_lines_b(c, d)[i],
    ) by {}
    assert forall|i: int| 0 <= i < controls_lines_c(c, d).len() implies q(
        #[trigger] controls_lines_c(c, d)[i],
    ) by {}
    lemma_lines_pred_concat(controls_lines_a(c, d), controls_lines_b(c, d), q);
    lemma_lines_pred_concat(
        controls_lines_a(c, d) + controls_lines_b(c, d),
        controls_lines_c(c, d),
        q,
    );
    lemma_controls_lines_split(c, d);
    assert forall|i: int| 0 <= i < controls_lines_spec(c, d).len() implies exact_leading_spaces(
        #[trigger] controls_lines_spec(c, d)[i],
        4 * d,
    ) by {
        let whole = controls_lines_a(c, d) + controls_lines_b(c, d) + controls_lines_c(c, d);
        assert(q(whole[i]));
    }
}

/// Indentation law of the timeline printer: at depth `d`, every one of its
/// six lines carries exactly `4 * d` leading space characters.
pub proof fn lemma_timeline_lines_indentation(t: TimelineSnapshot, d: nat)
    ensures
        forall|i: int| 0 <= i < timeline_lines_spec(t, d).len() ==> exact_leading_spaces(
            #[trigger] timeline_lines_spec(t, d)[i],
            4 * d,
        ),
{
    reveal_strlit("start_time: ");
    reveal_strlit("end_time: ");
    reveal_strlit("max_seek_time: ");
    reveal_strlit("min_seek_time: ");
    reveal_strlit("position: ");
    reveal_strlit("last_updated_time: ");
    lemma_line_kv(d, "start_time: "@, crate::text::dec_str(t.start_time_nanos as nat));
    lemma_line_kv(d, "end_time: "@, crate::text::dec_str(t.end_time_nanos as nat));
    lemma_line_kv(d, "max_seek_time: "@, crate::text::dec_str(t.max_seek_time_nanos as nat));
    lemma_line_kv(d, "min_seek_time: "@, crate::text::dec_str(t.min_seek_time_nanos as nat));
    lemma_line_kv(d, "position: "@, crate::text::dec_str(t.position_nanos as nat));
    lemma_line_kv(d, "last_updated_time: "@, crate::text::int_dec_str(t.last_updated_time as int));
}

/// Every genre bullet line carries exactly `4 * d + 5` leading spaces: the
/// indentation prefix, then five spaces before the dash.
proof fn lemma_bullet_line(d: nat, g: Seq<char>)
    ensures
        exact_leading_spaces(genre_bullet_spec(g, d), 4 * d + 5),
{
    reveal_strlit("     - \"");
    let lit = "     - \""@;
    let body = lit + g + "\""@;
    assert(genre_bullet_spec(g, d) =~= indent_spec(d) + body);
    assert forall|j: int| 0 <= j < 5 implies body[j] == ' ' by {
        assert(body[j] == lit[j]);
    }
    assert(body[5] == lit[5]);
    lemma_prefixed_line(d, body, 5);
}

/// Indentation law of the playback-info printer: at depth `d`, every one of
/// its lines carries exactly `4 * d` leading space characters, except the
/// transport-controls sub-lines, which carry exactly `4 * (d + 1)`.
pub proof fn lemma_playback_lines_indentation(p: PlaybackInfoSnapshot, d: nat)
    ensures
        forall|i: int| 0 <= i < playback_lines_spec(p, d).len() ==> (exact_leading_spaces(
            #[trigger] playback_lines_spec(p, d)[i],
            4 * d,
        ) || exact_leading_spaces(playback_lines_spec(p, d)[i], 4 * (d + 1))),
{
    let q = |l: Seq<char>| exact_leading_spaces(l, 4 * d) || exact_leading_spaces(l, 4 * (d + 1));
    let ind = indent_spec(d);
    reveal_strlit("auto_repeat_mode: \"");
    reveal_strlit("controls:");
    reveal_strlit("is_shuffle_active: ");
    reveal_strlit("playback_rate: ");
    reveal_strlit("playback_status: \"");
    reveal_strlit("playback_type: \"");
    let g1 = match p.auto_repeat_mode {
        Some(v) => seq![
            ind + "auto_repeat_mode: \""@ + crate::enums::auto_repeat_mode_name_spec(v as int)
                + "\""@,
        ],
        None => Seq::<Seq<char>>::empty(),
    };
    let g2 = match p.controls {
        Some(c) => seq![ind + "controls:"@] + controls_lines_spec(c, d + 1),
        None => Seq::<Seq<char>>::empty(),
    };
    let g3 = match p.is_shuffle_active {
        Some(b) => seq![ind + "is_shuffle_active: "@ + crate::text::bool_str(b)],
        None => Seq::<Seq<char>>::empty(),
    };
    let g4 = match p.playback_rate_hundredths {
        Some(h) => seq![ind + "playback_rate: "@ + crate::text::rate_str(h as int)],
        None => Seq::<Seq<char>>::empty(),
    };
    let g5 = match p.playback_status {
        Some(v) => seq![
            ind + "playback_status: \""@ + crate::enums::playback_status_name_spec(v as int)
                + "\""@,
        ],
        None => Seq::<Seq<char>>::empty(),
    };
    let g6 = match p.playback_type {
        Some(v) => seq![
            ind + "playback_type: \""@ + crate::enums::playback_type_name_spec(v as int) + "\""@,
        ],
        None => Seq::<Seq<char>>::empty(),
    };
    assert(playback_lines_spec(p, d) == g1 + g2 + g3 + g4 + g5 + g6);
    if let Some(v) = p.auto_repeat_mode {
        lemma_line_kvw(
            d,
            "auto_repeat_mode: \""@,
            crate::enums::auto_repeat_mode_name_spec(v as int),
            "\""@,
        );
    }
    assert forall|i: int| 0 <= i < g1.len() implies q(#[trigger] g1[i]) by {
        assert(g1[i] == g1[0]);
    }
    if let Some(c) = p.controls {
        lemma_line_head(d, "controls:"@);
        lemma_controls_lines_indentation(c, d + 1);
        assert forall|i: int| 0 <= i < g2.len() implies q(#[trigger] g2[i]) by {
            if i == 0 {
                assert(g2[0] == ind + "controls:"@);
            } else {
                assert(g2[i] == controls_lines_spec(c, d + 1)[i - 1]);
                assert(exact_leading_spaces(controls_lines_spec(c, d + 1)[i - 1], 4 * (d + 1)));
            }
        }
    }
    if let Some(b) = p.is_shuffle_active {
        lemma_line_kv(d, "is_shuffle_active: "@, crate::text::bool_str(b));
    }
    assert forall|i: int| 0 <= i < g3.len() implies q(#[trigger] g3[i]) by {
        assert(g3[i] == g3[0]);
    }
    if let Some(h) = p.playback_rate_hundredths {
        lemma_line_kv(d, "playback_rate: "@, crate::text::rate_str(h as int));
    }
    assert forall|i: int| 0 <= i < g4.len() implies q(#[trigger] g4[i]) by {
        assert(g4[i] == g4[0]);
    }
    if let Some(v) = p.playback_status {
        lemma_line_kvw(
            d,
            "playback_status: \""@,
            crate::enums::playback_status_name_spec(v as int),
            "\""@,
        );
    }
    assert forall|i: int| 0 <= i < g5.len() implies q(#[trigger] g5[i]) by {
        assert(g5[i] == g5[0]);
    }
    if let Some(v) = p.playback_type {
        lemma_line_kvw(
            d,
            "playback_type: \""@,
            crate::enums::playback_type_name_spec(v as int),
            "\""@,
        );
    }
    assert forall|i: int| 0 <= i < g6.len() implies q(#[trigger] g6[i]) by {
        assert(g6[i] == g6[0]);
    }
    lemma_lines_pred_concat(g1, g2, q);
    lemma_lines_pred_concat(g1 + g2, g3, q);
    lemma_lines_pred_concat(g1 + g2 + g3, g4, q);
    lemma_lines_pred_concat(g1 + g2 + g3 + g4, g5, q);
    lemma_lines_pred_concat(g1 + g2 + g3 + g4 + g5, g6, q);
    assert forall|i: int| 0 <= i < playback_lines_spec(p, d).len() implies (exact_leading_spaces(
        #[trigger] playback_lines_spec(p, d)[i],
        4 * d,
    ) || exact_leading_spaces(playback_lines_spec(p, d)[i], 4 * (d + 1))) by {
        let whole = g1 + g2 + g3 + g4 + g5 + g6;
        assert(q(whole[i]));
    }
}

/// Indentation law of the media-properties printer: at depth `d`, every one
/// of its lines carries exactly `4 * d` leading space characters, except the
/// two thumbnail sub-lines, which carry exactly `4 * (d + 1)`, and the genre
/// bullet lines, which carry exactly `4 * d + 5` before their dash.
pub proof fn lemma_media_lines_indentation(m: MediaPropertiesSnapshot, d: nat)
    ensures
        forall|i: int| 0 <= i < media_lines_spec(m, d).len() ==> (exact_leading_spaces(
            #[trigger] media_lines_spec(m, d)[i],
            4 * d,
        ) || exact_leading_spaces(media_lines_spec(m, d)[i], 4 * (d + 1))
            || exact_leading_spaces(media_lines_spec(m, d)[i], 4 * d + 5)),
{
    let q = |l: Seq<char>|
        exact_leading_spaces(l, 4 * d) || exact_leading_spaces(l, 4 * (d + 1))
            || exact_leading_spaces(l, 4 * d + 5);
    let ind = indent_spec(d);
    let sub = indent_spec(d + 1);
    reveal_strlit("album_artist: \"");
    reveal_strlit("album_title: \"");
    reveal_strlit("album_track_count: ");
    reveal_strlit("artist: \"");
    reveal_strlit("genres:");
    reveal_strlit("playback_type: ");
    reveal_strlit("subtitle: ");
    reveal_strlit("thumbnail:");
    reveal_strlit("content_type: ");
    reveal_strlit("size: ");
    reveal_strlit("title: \"");
    reveal_strlit("track_number: ");
    let head = seq![
        ind + "album_artist: \""@ + m.album_artist@ + "\""@,
        ind + "album_title: \""@ + m.album_title@ + "\""@,
        ind + "album_track_count: "@ + crate::text::int_dec_str(m.album_track_count as int),
        ind + "artist: \""@ + m.artist@ + "\""@,
        ind + "genres:"@,
    ];
    let bullets = genre_bullets_spec(m.genres@, d);
    let tail = seq![
        ind + "playback_type: "@ + crate::enums::playback_type_name_spec(m.playback_type as int),
        ind + "subtitle: "@ + m.subtitle@,
        ind + "thumbnail:"@,
        sub + "content_type: "@ + m.thumbnail.content_type@,
        sub + "size: "@ + crate::text::dec_str(m.thumbnail.size as nat),
        ind + "title: \""@ + m.title@ + "\""@,
        ind + "track_number: "@ + crate::text::int_dec_str(m.track_number as int),
    ];
    assert(media_lines_spec(m, d) == head + bullets + tail);
    lemma_line_kvw(d, "album_artist: \""@, m.album_artist@, "\""@);
    lemma_line_kvw(d, "album_title: \""@, m.album_title@, "\""@);
    lemma_line_kv(d, "album_track_count: "@, crate::text::int_dec_str(m.album_track_count as int));
    lemma_line_kvw(d, "artist: \""@, m.artist@, "\""@);
    lemma_line_head(d, "genres:"@);
    assert forall|i: int| 0 <= i < head.len() implies q(#[trigger] head[i]) by {}
    assert forall|i: int| 0 <= i < bullets.len() implies q(#[trigger] bullets[i]) by {
        assert(bullets[i] == genre_bullet_spec(m.genres@[i]@, d));
        lemma_bullet_line(d, m.genres@[i]@);
    }
    lemma_line_kv(
        d,
        "playback_type: "@,
        crate::enums::playback_type_name_spec(m.playback_type as int),
    );
    lemma_line_kv(d, "subtitle: "@, m.subtitle@);
    lemma_line_head(d, "thumbnail:"@);
    lemma_line_kv(d + 1, "content_type: "@, m.thumbnail.content_type@);
    lemma_line_kv(d + 1, "size: "@, crate::text::dec_str(m.thumbnail.size as nat));
    lemma_line_kvw(d, "title: \""@, m.title@, "\""@);
    lemma_line_kv(d, "track_number: "@, crate::text::int_dec_str(m.track_number as int));
    assert forall|i: int| 0 <= i < tail.len() implies q(#[trigger] tail[i]) by {}
    lemma_lines_pred_concat(head, bullets, q);
    lemma_lines_pred_concat(head + bullets, tail, q);
    assert forall|i: int| 0 <= i < media_lines_spec(m, d).len() implies (exact_leading_spaces(
        #[trigger] media_lines_spec(m, d)[i],
        4 * d,
    ) || exact_leading_spaces(media_lines_spec(m, d)[i], 4 * (d + 1)) || exact_leading_spaces(
        media_lines_spec(m, d)[i],
        4 * d + 5,
    )) by {
        let whole = head + bullets + tail;
        assert(q(whole[i]));
    }
}

/// The genre list renders as exactly one bullet line per genre, in order,
/// each holding that genre's literal text; an empty genre list contributes
/// no bullet lines at all.
pub proof fn lemma_genre_bullets(genres: Seq<String>, d: nat)
    ensures
        genre_bullets_spec(genres, d).len() == genres.len(),
        forall|i: int| 0 <= i < genres.len() ==> #[trigger] genre_bullets_spec(genres, d)[i]
            == indent_spec(d) + "     - \""@ + genres[i]@ + "\""@,
{
}

/// Soft-failure isolation: when the media-properties fetch has failed and
/// the other two snapshots are present, the dump still carries the whole
/// playback-info section and the whole timeline section, at their places.
pub proof fn lemma_soft_failure_isolation(
    s: SessionSnapshot,
    p: PlaybackInfoSnapshot,
    t: TimelineSnapshot,
)
    requires
        s.media is None,
        s.playback == Some(p),
        s.timeline == Some(t),
    ensures
        ({
            let lines = session_lines_spec(s);
            let pl = playback_lines_spec(p, 2);
            let tl = timeline_lines_spec(t, 2);
            &&& lines.len() == 6 + pl.len() + tl.len()
            &&& lines.subrange(4, 4 + pl.len() as int) == pl
            &&& lines.subrange(6 + pl.len() as int, lines.len() as int) == tl
        }),
{
    let lines = session_lines_spec(s);
    let pl = playback_lines_spec(p, 2);
    let tl = timeline_lines_spec(t, 2);
    assert(lines.subrange(4, 4 + pl.len() as int) =~= pl);
    assert(lines.subrange(6 + pl.len() as int, lines.len() as int) =~= tl);
}

} // verus!
