use media_session_dump::enums::{
    auto_repeat_mode_name, playback_status_name, playback_type_name, playback_type_str,
    InvalidEnumValue,
};
use media_session_dump::render::{
    render_media_properties, render_playback_controls, render_playback_info,
    render_program_output, render_session_dump, render_timeline_properties,
};
use media_session_dump::snapshot::{
    DumpError, MediaPropertiesSnapshot, PlaybackControlsSnapshot, PlaybackInfoSnapshot,
    SessionSnapshot, ThumbnailSnapshot, TimelineSnapshot,
};
use media_session_dump::text::{
    bool_to_str, i32_to_string, i64_to_string, indent_string, rate_to_string, u128_to_string,
    u64_to_string,
};

#[test]
fn indent_is_four_spaces_per_level() {
    assert_eq!(indent_string(0), "");
    assert_eq!(indent_string(1), "    ");
    assert_eq!(indent_string(3), "            ");
}

#[test]
fn decimal_rendering_exact_values() {
    assert_eq!(u128_to_string(0), "0");
    assert_eq!(u128_to_string(7), "7");
    assert_eq!(u128_to_string(1024), "1024");
    assert_eq!(u128_to_string(340282366920938463463374607431768211455), "340282366920938463463374607431768211455");
    assert_eq!(u64_to_string(18446744073709551615), "18446744073709551615");
    assert_eq!(i64_to_string(0), "0");
    assert_eq!(i64_to_string(-42), "-42");
    assert_eq!(i64_to_string(i64::MIN), "-9223372036854775808");
    assert_eq!(i64_to_string(i64::MAX), "9223372036854775807");
    assert_eq!(i32_to_string(-7), "-7");
    assert_eq!(i32_to_string(2147483647), "2147483647");
}

#[test]
fn rate_rendering_two_decimal_places() {
    assert_eq!(rate_to_string(100), "1.00");
    assert_eq!(rate_to_string(0), "0.00");
    assert_eq!(rate_to_string(5), "0.05");
    assert_eq!(rate_to_string(250), "2.50");
    assert_eq!(rate_to_string(-50), "-0.50");
    assert_eq!(rate_to_string(-125), "-1.25");
}

#[test]
fn bool_rendering() {
    assert_eq!(bool_to_str(true), "true");
    assert_eq!(bool_to_str(false), "false");
}

#[test]
fn auto_repeat_mode_names_total_on_domain() {
    assert_eq!(auto_repeat_mode_name(0), Ok("None"));
    assert_eq!(auto_repeat_mode_name(1), Ok("Track"));
    assert_eq!(auto_repeat_mode_name(2), Ok("List"));
    assert_eq!(auto_repeat_mode_name(3), Err(InvalidEnumValue { value: 3 }));
    assert_eq!(auto_repeat_mode_name(-1), Err(InvalidEnumValue { value: -1 }));
}

#[test]
fn playback_status_names_total_on_domain() {
    assert_eq!(playback_status_name(0), Ok("Closed"));
    assert_eq!(playback_status_name(1), Ok("Opened"));
    assert_eq!(playback_status_name(2), Ok("Changing"));
    assert_eq!(playback_status_name(3), Ok("Stopped"));
    assert_eq!(playback_status_name(4), Ok("Playing"));
    assert_eq!(playback_status_name(5), Ok("Paused"));
    assert_eq!(playback_status_name(6), Err(InvalidEnumValue { value: 6 }));
    assert_eq!(playback_status_name(-3), Err(InvalidEnumValue { value: -3 }));
}

#[test]
fn playback_type_names_total_on_domain() {
    assert_eq!(playback_type_name(0), Ok("Unknown"));
    assert_eq!(playback_type_name(1), Ok("Music"));
    assert_eq!(playback_type_name(2), Ok("Video"));
    assert_eq!(playback_type_name(3), Ok("Image"));
    assert_eq!(playback_type_name(4), Err(InvalidEnumValue { value: 4 }));
    assert_eq!(playback_type_str(0), "Unknown");
    assert_eq!(playback_type_str(1), "Music");
    assert_eq!(playback_type_str(2), "Video");
    assert_eq!(playback_type_str(3), "Image");
}

#[test]
fn controls_lines_all_fifteen_flags() {
    let c = PlaybackControlsSnapshot {
        is_channel_down_enabled: false,
        is_channel_up_enabled: false,
        is_fast_forward_enabled: true,
        is_next_enabled: true,
        is_pause_enabled: true,
        is_playback_position_enabled: true,
        is_playback_rate_enabled: false,
        is_play_enabled: true,
        is_play_pause_toggle_enabled: true,
        is_previous_enabled: true,
        is_record_enabled: false,
        is_repeat_enabled: false,
        is_rewind_enabled: true,
        is_shuffle_enabled: false,
        is_stop_enabled: true,
    };
    let lines = render_playback_controls(&c, 2);
    assert_eq!(lines.len(), 15);
    assert_eq!(lines[0], "        is_channel_down_enabled: false");
    assert_eq!(lines[2], "        is_fast_forward_enabled: true");
    assert_eq!(lines[7], "        is_play_enabled: true");
    assert_eq!(lines[14], "        is_stop_enabled: true");
    for line in &lines {
        assert!(line.starts_with("        "));
        assert!(!line[8..].starts_with(' '));
    }
}

#[test]
fn timeline_lines_zero_snapshot_all_zero() {
    let t = TimelineSnapshot {
        start_time_nanos: 0,
        end_time_nanos: 0,
        max_seek_time_nanos: 0,
        min_seek_time_nanos: 0,
        position_nanos: 0,
        last_updated_time: 0,
    };
    let lines = render_timeline_properties(&t, 2);
    assert_eq!(
        lines,
        vec![
            "        start_time: 0",
            "        end_time: 0",
            "        max_seek_time: 0",
            "        min_seek_time: 0",
            "        position: 0",
            "        last_updated_time: 0",
        ]
    );
}

#[test]
fn timeline_lines_exact_values_and_order() {
    let t = TimelineSnapshot {
        start_time_nanos: 1,
        end_time_nanos: 215000000000,
        max_seek_time_nanos: 215000000000,
        min_seek_time_nanos: 0,
        position_nanos: 37500000000,
        last_updated_time: -5,
    };
    let lines = render_timeline_properties(&t, 1);
    assert_eq!(
        lines,
        vec![
            "    start_time: 1",
            "    end_time: 215000000000",
            "    max_seek_time: 215000000000",
            "    min_seek_time: 0",
            "    position: 37500000000",
            "    last_updated_time: -5",
        ]
    );
}

#[test]
fn media_lines_empty_genre_list_no_bullets() {
    let m = MediaPropertiesSnapshot {
        album_artist: String::from("AA"),
        album_title: String::from("AT"),
        album_track_count: 10,
        artist: String::from("Artist"),
        genres: Vec::new(),
        playback_type: 1,
        subtitle: String::from("Sub"),
        thumbnail: ThumbnailSnapshot { content_type: String::from("image/png"), size: 1024 },
        title: String::from("Song"),
        track_number: 3,
    };
    let lines = render_media_properties(&m, 1).unwrap();
    assert_eq!(
        lines,
        vec![
            "    album_artist: \"AA\"",
            "    album_title: \"AT\"",
            "    album_track_count: 10",
            "    artist: \"Artist\"",
            "    genres:",
            "    playback_type: Music",
            "    subtitle: Sub",
            "    thumbnail:",
            "        content_type: image/png",
            "        size: 1024",
            "    title: \"Song\"",
            "    track_number: 3",
        ]
    );
}

#[test]
fn media_lines_one_bullet_per_genre() {
    let m = MediaPropertiesSnapshot {
        album_artist: String::new(),
        album_title: String::new(),
        album_track_count: 0,
        artist: String::new(),
        genres: vec![String::from("Rock"), String::from("Pop"), String::from("Jazz")],
        playback_type: 0,
        subtitle: String::new(),
        thumbnail: ThumbnailSnapshot { content_type: String::new(), size: 0 },
        title: String::new(),
        track_number: 0,
    };
    let lines = render_media_properties(&m, 1).unwrap();
    assert_eq!(lines.len(), 12 + 3);
    assert_eq!(lines[4], "    genres:");
    assert_eq!(lines[5], "         - \"Rock\"");
    assert_eq!(lines[6], "         - \"Pop\"");
    assert_eq!(lines[7], "         - \"Jazz\"");
    assert_eq!(lines[8], "    playback_type: Unknown");
}

#[test]
fn media_rejects_out_of_range_playback_type() {
    let m = MediaPropertiesSnapshot {
        album_artist: String::new(),
        album_title: String::new(),
        album_track_count: 0,
        artist: String::new(),
        genres: Vec::new(),
        playback_type: 5,
        subtitle: String::new(),
        thumbnail: ThumbnailSnapshot { content_type: String::new(), size: 0 },
        title: String::new(),
        track_number: 0,
    };
    assert_eq!(render_media_properties(&m, 1), Err(InvalidEnumValue { value: 5 }));
}

#[test]
fn playback_info_absent_fields_suppress_only_their_lines() {
    let p = PlaybackInfoSnapshot {
        auto_repeat_mode: None,
        controls: None,
        is_shuffle_active: Some(false),
        playback_rate_hundredths: None,
        playback_status: Some(5),
        playback_type: None,
    };
    let lines = render_playback_info(&p, 2).unwrap();
    assert_eq!(
        lines,
        vec!["        is_shuffle_active: false", "        playback_status: \"Paused\"",]
    );
}

#[test]
fn playback_info_all_fields_present_in_order() {
    let c = PlaybackControlsSnapshot {
        is_channel_down_enabled: false,
        is_channel_up_enabled: false,
        is_fast_forward_enabled: false,
        is_next_enabled: false,
        is_pause_enabled: false,
        is_playback_position_enabled: false,
        is_playback_rate_enabled: false,
        is_play_enabled: false,
        is_play_pause_toggle_enabled: false,
        is_previous_enabled: false,
        is_record_enabled: false,
        is_repeat_enabled: false,
        is_rewind_enabled: false,
        is_shuffle_enabled: false,
        is_stop_enabled: false,
    };
    let p = PlaybackInfoSnapshot {
        auto_repeat_mode: Some(2),
        controls: Some(c),
        is_shuffle_active: Some(true),
        playback_rate_hundredths: Some(150),
        playback_status: Some(0),
        playback_type: Some(2),
    };
    let lines = render_playback_info(&p, 1).unwrap();
    assert_eq!(lines.len(), 1 + 1 + 15 + 4);
    assert_eq!(lines[0], "    auto_repeat_mode: \"List\"");
    assert_eq!(lines[1], "    controls:");
    assert_eq!(lines[2], "        is_channel_down_enabled: false");
    assert_eq!(lines[16], "        is_stop_enabled: false");
    assert_eq!(lines[17], "    is_shuffle_active: true");
    assert_eq!(lines[18], "    playback_rate: 1.50");
    assert_eq!(lines[19], "    playback_status: \"Closed\"");
    assert_eq!(lines[20], "    playback_type: \"Video\"");
}

#[test]
fn playback_info_rejects_out_of_range_status() {
    let p = PlaybackInfoSnapshot {
        auto_repeat_mode: None,
        controls: None,
        is_shuffle_active: None,
        playback_rate_hundredths: None,
        playback_status: Some(9),
        playback_type: None,
    };
    assert_eq!(render_playback_info(&p, 1), Err(InvalidEnumValue { value: 9 }));
}

#[test]
fn no_current_session_is_a_distinct_error() {
    assert_eq!(render_program_output(&None), Err(DumpError::NoCurrentSession));
}

#[test]
fn invalid_enum_surfaces_as_dump_error() {
    let s = SessionSnapshot {
        app_user_model_id: String::from("x"),
        media: None,
        playback: Some(PlaybackInfoSnapshot {
            auto_repeat_mode: Some(7),
            controls: None,
            is_shuffle_active: None,
            playback_rate_hundredths: None,
            playback_status: None,
            playback_type: None,
        }),
        timeline: None,
    };
    assert_eq!(
        render_program_output(&Some(s)),
        Err(DumpError::InvalidEnum(InvalidEnumValue { value: 7 }))
    );
}

#[test]
fn media_failure_leaves_other_sections_running() {
    let s = SessionSnapshot {
        app_user_model_id: String::from("App.exe"),
        media: None,
        playback: Some(PlaybackInfoSnapshot {
            auto_repeat_mode: None,
            controls: None,
            is_shuffle_active: Some(true),
            playback_rate_hundredths: None,
            playback_status: Some(4),
            playback_type: None,
        }),
        timeline: Some(TimelineSnapshot {
            start_time_nanos: 0,
            end_time_nanos: 9,
            max_seek_time_nanos: 9,
            min_seek_time_nanos: 0,
            position_nanos: 4,
            last_updated_time: 100,
        }),
    };
    let lines = render_session_dump(&s).unwrap();
    assert_eq!(
        lines,
        vec![
            "app_user_model_id: \"App.exe\"",
            "",
            "media_properties:",
            "    playback_info:",
            "        is_shuffle_active: true",
            "        playback_status: \"Playing\"",
            "",
            "    timeline_properties:",
            "        start_time: 0",
            "        end_time: 9",
            "        max_seek_time: 9",
            "        min_seek_time: 0",
            "        position: 4",
            "        last_updated_time: 100",
        ]
    );
}

#[test]
fn end_to_end_spotify_scenario() {
    let s = SessionSnapshot {
        app_user_model_id: String::from("Spotify.exe"),
        media: Some(MediaPropertiesSnapshot {
            album_artist: String::from("Artist"),
            album_title: String::from("Album"),
            album_track_count: 12,
            artist: String::from("Artist"),
            genres: Vec::new(),
            playback_type: 1,
            subtitle: String::new(),
            thumbnail: ThumbnailSnapshot {
                content_type: String::from("image/png"),
                size: 1024,
            },
            title: String::from("Song"),
            track_number: 1,
        }),
        playback: Some(PlaybackInfoSnapshot {
            auto_repeat_mode: Some(1),
            controls: None,
            is_shuffle_active: Some(true),
            playback_rate_hundredths: Some(100),
            playback_status: Some(4),
            playback_type: Some(1),
        }),
        timeline: Some(TimelineSnapshot {
            start_time_nanos: 0,
            end_time_nanos: 0,
            max_seek_time_nanos: 0,
            min_seek_time_nanos: 0,
            position_nanos: 0,
            last_updated_time: 0,
        }),
    };
    let lines = render_program_output(&Some(s)).unwrap();
    let expected_in_order = [
        "app_user_model_id: \"Spotify.exe\"",
        "        playback_status: \"Playing\"",
        "        is_shuffle_active: true",
        "    title: \"Song\"",
        "        content_type: image/png",
        "        size: 1024",
    ];
    let mut found: Vec<usize> = Vec::new();
    for want in expected_in_order {
        let pos = lines.iter().position(|l| l == want);
        assert!(pos.is_some(), "missing line: {}", want);
        found.push(pos.unwrap());
    }
    // The order the host emits these fields: source app first, then the
    // media section (thumbnail before title), then playback info (shuffle
    // before status).
    assert!(found[0] < found[4]);
    assert!(found[4] < found[5]);
    assert!(found[5] < found[3]);
    assert!(found[3] < found[2]);
    assert!(found[2] < found[1]);
}

#[test]
fn indentation_exact_at_each_depth() {
    let t = TimelineSnapshot {
        start_time_nanos: 5,
        end_time_nanos: 5,
        max_seek_time_nanos: 5,
        min_seek_time_nanos: 5,
        position_nanos: 5,
        last_updated_time: 5,
    };
    for depth in 0..4usize {
        let lines = render_timeline_properties(&t, depth);
        for line in &lines {
            let spaces = line.chars().take_while(|&ch| ch == ' ').count();
            assert_eq!(spaces, 4 * depth);
        }
    }
}
