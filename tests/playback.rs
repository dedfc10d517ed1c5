use music_player::audio_handler::SimpleAudioHandler;
use music_player::command::{parse_command, undefined_message, Command};
use music_player::errors::{
    CannotCreateSimpleAudioPlayer, EmptyPlaylistError, FileNotFoundError, PlayerError,
    TrackIsPaused, TrackIsPlaying,
};
use music_player::playback_state::{MusicTimeBarHandler, Phase, TickAction, MAX_DURATION};
use music_player::progress::{filled_len, render_bar, render_frame, render_tick, RenderStep, BAR_LEN};
use music_player::time_format::format_to_time;
use music_player::track::{has_file_name, title_from_path, MusicInfoTemp};

fn track(path: &str, duration: u64) -> MusicInfoTemp {
    MusicInfoTemp::new(path.to_string(), duration)
}

#[test]
fn format_examples() {
    assert_eq!(format_to_time(125), "02:05");
    assert_eq!(format_to_time(5), "00:05");
    assert_eq!(format_to_time(3600), "60:00");
    assert_eq!(format_to_time(0), "00:00");
}

#[test]
fn format_long_minutes_are_not_capped() {
    assert_eq!(format_to_time(7530), "125:30");
    assert_eq!(format_to_time(599), "09:59");
    assert_eq!(format_to_time(600), "10:00");
    assert_eq!(format_to_time(59), "00:59");
    assert_eq!(format_to_time(60), "01:00");
}

#[test]
fn format_largest_value() {
    assert_eq!(format_to_time(u64::MAX), "307445734561825860:15");
}

#[test]
fn fill_rounds_to_nearest() {
    assert_eq!(filled_len(0, 100), 0);
    assert_eq!(filled_len(1, 100), 1);
    assert_eq!(filled_len(50, 100), 25);
    assert_eq!(filled_len(100, 100), 50);
    assert_eq!(filled_len(1, 3), 17);
    assert_eq!(filled_len(1, 4), 13);
    assert_eq!(filled_len(1, 200), 0);
    assert_eq!(filled_len(3, 200), 1);
    assert_eq!(filled_len(0, 0), 0);
    assert_eq!(filled_len(u64::MAX, u64::MAX), BAR_LEN);
}

#[test]
fn fill_never_shrinks_over_a_run() {
    let duration: u64 = 7;
    let mut last = 0;
    for e in 0..=duration {
        let f = filled_len(e, duration);
        assert!(f >= last);
        assert!(f <= BAR_LEN);
        last = f;
    }
    assert_eq!(last, 50);
}

#[test]
fn bar_has_fixed_width() {
    let bar = render_bar(20);
    assert_eq!(bar.chars().count(), 50);
    assert_eq!(bar, "=".repeat(20) + &"-".repeat(30));
    assert_eq!(render_bar(0), "-".repeat(50));
    assert_eq!(render_bar(50), "=".repeat(50));
}

#[test]
fn frame_shows_title_bar_and_times() {
    let frame = render_frame("song", 60, 120);
    let expected = format!("Now playing song\n\n[{}{}] 01:00|02:00", "=".repeat(25), "-".repeat(25));
    assert_eq!(frame, expected);
}

#[test]
fn ticks_advance_only_while_playing() {
    let mut bar = MusicTimeBarHandler::new();
    bar.start_track(3);
    assert_eq!(bar.tick(), TickAction::Frame(0));
    assert_eq!(bar.tick(), TickAction::Frame(1));
    bar.pause();
    assert_eq!(bar.tick(), TickAction::Wait);
    assert_eq!(bar.tick(), TickAction::Wait);
    assert_eq!(bar.get_elapsed(), 2);
    bar.play();
    assert_eq!(bar.tick(), TickAction::Frame(2));
    assert_eq!(bar.tick(), TickAction::Frame(3));
    assert_eq!(bar.tick(), TickAction::Finished);
    assert_eq!(bar.get_elapsed(), 4);
    assert_eq!(bar.tick(), TickAction::Finished);
    assert_eq!(bar.get_elapsed(), 4);
}

#[test]
fn paused_after_completion_does_not_resume() {
    let mut bar = MusicTimeBarHandler::new();
    bar.start_track(0);
    assert_eq!(bar.tick(), TickAction::Frame(0));
    bar.pause();
    bar.play();
    assert_eq!(bar.tick(), TickAction::Finished);
    assert_eq!(bar.get_elapsed(), 1);
}

#[test]
fn cancel_stops_the_renderer() {
    let mut bar = MusicTimeBarHandler::new();
    bar.start_track(100);
    assert_eq!(bar.tick(), TickAction::Frame(0));
    bar.cancel();
    assert!(bar.is_cancelled());
    assert_eq!(bar.tick(), TickAction::Finished);
    assert_eq!(bar.get_elapsed(), 1);
    bar.pause();
    assert_eq!(bar.tick(), TickAction::Finished);
}

#[test]
fn huge_duration_is_clamped() {
    let mut bar = MusicTimeBarHandler::new();
    bar.start_track(u64::MAX);
    assert_eq!(bar.get_duration(), MAX_DURATION);
    assert_eq!(bar.get_phase(), Phase::Playing);
}

#[test]
fn play_on_empty_playlist_fails() {
    let handler = SimpleAudioHandler::new(Vec::new());
    let mut bar = MusicTimeBarHandler::new();
    bar.pause();
    assert_eq!(handler.play(&mut bar), Err(PlayerError::EmptyPlaylist(EmptyPlaylistError)));
    assert_eq!(bar.get_phase(), Phase::Paused);
    assert_eq!(handler.pause(&mut bar), Err(PlayerError::EmptyPlaylist(EmptyPlaylistError)));
    assert_eq!(handler.start(&mut bar).err(), Some(EmptyPlaylistError));
}

#[test]
fn pause_then_play_then_play_again() {
    let handler = SimpleAudioHandler::new(vec![track("music/a.mp3", 10)]);
    let mut bar = MusicTimeBarHandler::new();
    let first = handler.start(&mut bar).unwrap();
    assert_eq!(first.get_title(), "a");
    assert_eq!(bar.get_duration(), 10);
    assert_eq!(handler.pause(&mut bar), Ok(()));
    assert_eq!(bar.get_phase(), Phase::Paused);
    assert_eq!(handler.pause(&mut bar), Err(PlayerError::TrackIsPaused(TrackIsPaused)));
    assert_eq!(handler.play(&mut bar), Ok(()));
    assert_eq!(bar.get_phase(), Phase::Playing);
    assert_eq!(handler.play(&mut bar), Err(PlayerError::TrackIsPlaying(TrackIsPlaying)));
}

#[test]
fn add_while_playing_keeps_current_track() {
    let mut handler = SimpleAudioHandler::new(vec![track("a.mp3", 5)]);
    let mut bar = MusicTimeBarHandler::new();
    handler.start(&mut bar).unwrap();
    assert_eq!(bar.tick(), TickAction::Frame(0));
    handler.add_track(track("b.ogg", 9));
    assert_eq!(bar.tick(), TickAction::Frame(1));
    assert_eq!(bar.get_elapsed(), 2);
    assert_eq!(handler.len(), 2);
    assert_eq!(handler.get_track(0).unwrap().get_title(), "a");
    assert_eq!(handler.get_track(1).unwrap().get_title(), "b");
    assert!(handler.get_track(2).is_none());
}

#[test]
fn titles_come_from_the_file_name() {
    assert_eq!(title_from_path("/home/me/music/song.final.mp3"), "song");
    assert_eq!(title_from_path("song.mp3"), "song");
    assert_eq!(title_from_path("dir.v2/track"), "track");
    assert_eq!(title_from_path("dir/.hidden"), "");
    assert_eq!(title_from_path("a/b/"), "b");
    assert_eq!(title_from_path("a/b.mp3/."), "b");
    assert_eq!(title_from_path("a/b.mp3//./"), "b");
    assert_eq!(title_from_path("a/."), "a");
    assert_eq!(title_from_path("..."), "");
    let t = track("x/Ünïcode.flac", 3);
    assert_eq!(t.get_title(), "Ünïcode");
    assert_eq!(t.get_path(), "x/Ünïcode.flac");
    assert_eq!(t.get_duration(), 3);
}

#[test]
fn commands_are_parsed_by_first_token() {
    assert_eq!(parse_command("play\n"), Command::Play);
    assert_eq!(parse_command("  pause  "), Command::Pause);
    assert_eq!(parse_command("stop"), Command::Stop);
    assert_eq!(parse_command("clear\r\n"), Command::Clear);
    assert_eq!(parse_command("add  my song.mp3 \n"), Command::Add("my song.mp3".to_string()));
    assert_eq!(parse_command("add\n"), Command::AddWithoutPath);
    assert_eq!(parse_command("jump 3\n"), Command::Undefined("jump".to_string()));
    assert_eq!(parse_command("   \n"), Command::Blank);
    assert_eq!(parse_command("play\x0c"), Command::Play);
    assert_eq!(parse_command("\u{3000}stop\u{a0}"), Command::Stop);
    assert_eq!(parse_command("add\u{2003}x.ogg"), Command::Add("x.ogg".to_string()));
    assert_eq!(parse_command(""), Command::Blank);
}

#[test]
fn messages() {
    assert_eq!(undefined_message("jump"), "Undefined command: jump");
    assert_eq!(EmptyPlaylistError.message(), "playlist is empty");
    assert_eq!(TrackIsPlaying.message(), "track is already playing");
    assert_eq!(TrackIsPaused.message(), "track is already paused");
    assert_eq!(CannotCreateSimpleAudioPlayer.message(), "cannot create simple audio player");
    assert_eq!(FileNotFoundError.message(), "file not found");
    assert_eq!(PlayerError::TrackIsPaused(TrackIsPaused).message(), "track is already paused");
}

#[test]
fn render_tick_draws_then_finishes() {
    let mut bar = MusicTimeBarHandler::new();
    bar.start_track(1);
    let expected = format!("Now playing t\n\n[{}] 00:00|00:01", "-".repeat(50));
    assert_eq!(render_tick(&mut bar, "t"), RenderStep::Draw(expected));
    let expected = format!("Now playing t\n\n[{}] 00:01|00:01", "=".repeat(50));
    assert_eq!(render_tick(&mut bar, "t"), RenderStep::Draw(expected));
    bar.pause();
    assert_eq!(render_tick(&mut bar, "t"), RenderStep::Wait);
    bar.play();
    assert_eq!(render_tick(&mut bar, "t"), RenderStep::Finished);
    assert_eq!(bar.get_elapsed(), 2);
}

#[test]
fn paths_without_a_file_name() {
    assert!(!has_file_name(""));
    assert!(!has_file_name("/"));
    assert!(!has_file_name("a/.."));
    assert!(!has_file_name("."));
    assert!(!has_file_name("./"));
    assert!(!has_file_name("/."));
    assert!(has_file_name("a/b/"));
    assert!(has_file_name("..."));
    assert!(has_file_name(".x"));
    assert!(has_file_name("a/.hidden"));
    for path in ["", "/", "a/..", ".", "./", "/.", "a/b/", "...", ".x", "x/y.z"] {
        assert_eq!(has_file_name(path), std::path::Path::new(path).file_name().is_some());
    }
}

#[test]
fn whitespace_is_unicode_whitespace() {
    for c in (0u32..=0x10ffff).filter_map(char::from_u32) {
        let line = format!("{}play", c);
        let expected = if c.is_whitespace() {
            Command::Play
        } else {
            Command::Undefined(line.clone())
        };
        assert_eq!(parse_command(&line), expected);
    }
}
