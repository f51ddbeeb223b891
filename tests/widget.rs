use rsmodoro::alarm::{alarm_tick_at, Alarm};
use rsmodoro::audio::{play_alarm, play_notification, Sound};
use rsmodoro::config::{parse_color, Config, Theme};
use rsmodoro::format::{format_time, format_time_hms};
use rsmodoro::timer::{timer_tick, Timer, TimerPhase};

fn two_digits(t: &str) -> u32 {
    t.parse::<u32>().unwrap()
}

#[test]
fn format_time_pads_fields() {
    assert_eq!(format_time(0), "00:00");
    assert_eq!(format_time(5), "00:05");
    assert_eq!(format_time(65), "01:05");
    assert_eq!(format_time(600), "10:00");
    assert_eq!(format_time(1500), "25:00");
    assert_eq!(format_time(3599), "59:59");
    assert_eq!(format_time(6000), "100:00");
}

#[test]
fn format_time_below_an_hour_has_five_chars() {
    for s in 0..3600u32 {
        let t = format_time(s);
        assert_eq!(t.len(), 5);
        assert_eq!(&t[2..3], ":");
        assert_eq!(two_digits(&t[0..2]) * 60 + two_digits(&t[3..5]), s);
    }
}

#[test]
fn format_time_hms_values() {
    assert_eq!(format_time_hms(0), "00:00:00");
    assert_eq!(format_time_hms(3661), "01:01:01");
    assert_eq!(format_time_hms(36000), "10:00:00");
    assert_eq!(format_time_hms(86399), "23:59:59");
    assert_eq!(format_time_hms(360000), "100:00:00");
}

#[test]
fn format_time_hms_round_trips_below_a_day() {
    for s in (0..86400u32).step_by(7) {
        let t = format_time_hms(s);
        assert_eq!(t.len(), 8);
        let h = two_digits(&t[0..2]);
        let m = two_digits(&t[3..5]);
        let x = two_digits(&t[6..8]);
        assert_eq!(h * 3600 + m * 60 + x, s);
    }
}

#[test]
fn new_timer_is_idle_with_full_work_time() {
    let t = Timer::new(25, 5);
    assert_eq!(t.phase, TimerPhase::Idle);
    assert_eq!(t.remaining, 1500);
    assert!(!t.running);
    assert_eq!(t.total_seconds(), 1500);
}

#[test]
fn start_from_done_resets_to_work() {
    let mut t = Timer::new(25, 5);
    t.phase = TimerPhase::Done;
    t.remaining = 17;
    t.start();
    assert_eq!(t.phase, TimerPhase::Work);
    assert_eq!(t.remaining, 1500);
    assert!(t.running);
}

#[test]
fn work_turns_into_rest_then_done() {
    let mut t = Timer::new(1, 2);
    let mut sounds = Vec::new();
    t.start();
    for _ in 0..59 {
        t.tick(&mut sounds);
        assert_eq!(t.phase, TimerPhase::Work);
    }
    assert_eq!(t.remaining, 1);
    assert!(sounds.is_empty());
    t.tick(&mut sounds);
    assert_eq!(t.phase, TimerPhase::Rest);
    assert_eq!(t.remaining, 120);
    assert_eq!(sounds, vec![Sound::Notification]);
    for _ in 0..119 {
        t.tick(&mut sounds);
    }
    assert_eq!(t.phase, TimerPhase::Rest);
    assert!(t.running);
    t.tick(&mut sounds);
    assert_eq!(t.phase, TimerPhase::Done);
    assert!(!t.running);
    assert_eq!(t.remaining, 0);
    assert_eq!(sounds, vec![Sound::Notification, Sound::Notification]);
    t.tick(&mut sounds);
    assert_eq!(t.phase, TimerPhase::Done);
    assert_eq!(sounds.len(), 2);
}

#[test]
fn done_falls_back_to_idle_when_running() {
    let mut t = Timer::new(1, 1);
    let mut sounds = Vec::new();
    t.phase = TimerPhase::Done;
    t.running = true;
    t.remaining = 0;
    t.tick(&mut sounds);
    assert_eq!(t.phase, TimerPhase::Idle);
    assert!(sounds.is_empty());
}

#[test]
fn paused_timer_does_not_tick() {
    let mut t = Timer::new(25, 5);
    let mut sounds = Vec::new();
    t.start();
    t.tick(&mut sounds);
    t.pause();
    assert_eq!(t.phase, TimerPhase::Work);
    assert_eq!(t.remaining, 1499);
    assert!(timer_tick(&mut t, &mut sounds).is_none());
    assert_eq!(t.remaining, 1499);
}

#[test]
fn reset_goes_back_to_idle() {
    let mut t = Timer::new(25, 5);
    let mut sounds = Vec::new();
    t.start();
    t.tick(&mut sounds);
    t.reset();
    assert_eq!(t.phase, TimerPhase::Idle);
    assert_eq!(t.remaining, 1500);
    assert!(!t.running);
}

#[test]
fn rest_change_during_work_keeps_display() {
    let mut t = Timer::new(25, 5);
    let mut sounds = Vec::new();
    t.start();
    t.tick(&mut sounds);
    let before_total = t.total_seconds();
    assert!(!t.set_duration(10, true));
    assert_eq!(t.remaining, 1499);
    assert_eq!(t.total_seconds(), before_total);
    assert_eq!(t.rest_duration_mins, 10);
    t.remaining = 1;
    t.tick(&mut sounds);
    assert_eq!(t.phase, TimerPhase::Rest);
    assert_eq!(t.remaining, 600);
    assert_eq!(t.total_seconds(), 600);
}

#[test]
fn work_change_refills_only_when_stopped() {
    let mut t = Timer::new(25, 5);
    assert!(t.set_duration(30, false));
    assert_eq!(t.remaining, 1800);
    t.start();
    assert!(!t.set_duration(40, false));
    assert_eq!(t.remaining, 1800);
    assert_eq!(t.timer_duration_mins, 40);
}

#[test]
fn timer_tick_reports_display() {
    let mut t = Timer::new(1, 1);
    let mut sounds = Vec::new();
    t.start();
    let d = timer_tick(&mut t, &mut sounds).unwrap();
    assert_eq!(d.time, "00:59");
    assert_eq!(d.remaining, 59);
    assert_eq!(d.total, 60);
    assert!(d.running && !d.finished && !d.is_rest);
    t.remaining = 1;
    let d = timer_tick(&mut t, &mut sounds).unwrap();
    assert_eq!(d.time, "01:00");
    assert!(d.is_rest);
    t.remaining = 1;
    let d = timer_tick(&mut t, &mut sounds).unwrap();
    assert_eq!(d.time, "00:00");
    assert!(d.finished && !d.running);
    assert_eq!(sounds.len(), 2);
}

#[test]
fn zero_length_timer_has_zero_total() {
    let mut t = Timer::new(0, 0);
    let mut sounds = Vec::new();
    t.start();
    assert_eq!(t.remaining, 0);
    let d = timer_tick(&mut t, &mut sounds).unwrap();
    assert_eq!(d.total, 0);
    assert!(d.is_rest);
}

#[test]
fn alarm_remaining_seconds_wraps_round_the_day() {
    let mut a = Alarm::new(10, 20);
    a.enable();
    assert_eq!(a.remaining_seconds_at(10, 20, 0), 0);
    assert_eq!(a.remaining_seconds_at(10, 19, 58), 2);
    assert_eq!(a.remaining_seconds_at(9, 20, 0), 3600);
    assert_eq!(a.remaining_seconds_at(10, 20, 30), 86370);
    assert_eq!(a.remaining_seconds_at(23, 59, 59), 37201);
    assert!(a.remaining_seconds() < 86400);
}

#[test]
fn disarmed_alarm_has_no_time_left() {
    let mut a = Alarm::new(10, 20);
    assert_eq!(a.remaining_seconds_at(10, 19, 58), 0);
    assert_eq!(a.remaining_seconds(), 0);
    a.enable();
    assert_eq!(a.remaining_seconds_at(10, 19, 58), 2);
    a.reset();
    assert_eq!(a.remaining_seconds_at(10, 19, 58), 0);
    assert_eq!(a.remaining_seconds(), 0);
    a.enable();
    assert!(a.check_and_trigger_at(10, 20));
    assert_eq!(a.remaining_seconds_at(10, 20, 30), 0);
}

#[test]
fn alarm_shows_zero_on_the_tick_it_goes_off() {
    let mut a = Alarm::new(10, 21);
    let mut sounds = Vec::new();
    a.enable();
    let r = alarm_tick_at(&mut a, 10, 21, 1, &mut sounds);
    assert!(r.triggered);
    assert_eq!(r.display.as_deref(), Some("00:00:00"));
    assert_eq!(sounds, vec![Sound::Alarm]);
}

#[test]
fn alarm_fires_once_per_enable() {
    let mut a = Alarm::new(10, 20);
    assert!(!a.check_and_trigger_at(10, 20));
    a.enable();
    assert_eq!(a.remaining_seconds_at(10, 20, 0), 0);
    assert!(!a.check_and_trigger_at(10, 19));
    assert!(a.check_and_trigger_at(10, 20));
    assert!(a.triggered && !a.enabled);
    assert!(!a.check_and_trigger_at(10, 20));
    a.enable();
    assert!(a.enabled && !a.triggered);
    assert!(a.check_and_trigger_at(10, 20));
}

#[test]
fn alarm_enabled_two_seconds_ahead_fires_on_third_tick() {
    let mut a = Alarm::new(0, 0);
    let mut sounds = Vec::new();
    a.set_time(10, 21);
    a.enable();
    let first = alarm_tick_at(&mut a, 10, 20, 59, &mut sounds);
    assert!(!first.triggered);
    assert_eq!(first.display.as_deref(), Some("00:00:01"));
    let second = alarm_tick_at(&mut a, 10, 21, 0, &mut sounds);
    assert!(second.triggered);
    assert_eq!(second.display.as_deref(), Some("00:00:00"));
    let third = alarm_tick_at(&mut a, 10, 21, 1, &mut sounds);
    assert!(!third.triggered);
    assert!(third.display.is_none());
    assert!(a.triggered);
    assert!(!a.enabled);
    assert_eq!(sounds, vec![Sound::Alarm]);
}

#[test]
fn alarm_set_time_and_reset_clear_flags() {
    let mut a = Alarm::new(7, 0);
    a.enable();
    assert!(a.check_and_trigger_at(7, 0));
    a.set_time(8, 30);
    assert!(!a.triggered && !a.enabled);
    assert_eq!((a.hours, a.minutes), (8, 30));
    a.enable();
    a.reset();
    assert!(!a.triggered && !a.enabled);
}

#[test]
fn disarmed_alarm_shows_nothing() {
    let mut a = Alarm::new(6, 0);
    let mut sounds = Vec::new();
    let r = alarm_tick_at(&mut a, 6, 0, 0, &mut sounds);
    assert!(!r.triggered);
    assert!(r.display.is_none());
    assert!(sounds.is_empty());
}

#[test]
fn sound_requests_are_queued_in_order() {
    let mut q = Vec::new();
    play_notification(&mut q);
    play_alarm(&mut q);
    play_notification(&mut q);
    assert_eq!(q, vec![Sound::Notification, Sound::Alarm, Sound::Notification]);
}

#[test]
fn default_settings() {
    let c = Config::default();
    assert_eq!(c.timer_duration_minutes, 25);
    assert_eq!(c.rest_duration_minutes, 5);
    assert_eq!(c.alarm_hour, 10);
    assert_eq!(c.alarm_min, 20);
    assert_eq!(c.theme.background_color, "#000000");
    assert_eq!(c.theme.accent_color, "#4CAF50");
    assert_eq!(c.theme.accent_rest_color, "#2196F3");
    assert_eq!(c.theme.font_family, "TX02 Nerd Font");
    assert!(!c.theme.transparent);
}

#[test]
fn unreadable_settings_fall_back_to_default() {
    let c = Config::from_loaded(None);
    assert_eq!(c.timer_duration_minutes, 25);
    assert_eq!(c.rest_duration_minutes, 5);
    assert_eq!(c.alarm_hour, 10);
    assert_eq!(c.alarm_min, 20);
    assert_eq!(c.theme.text_color, "#cccccc");
    let mut mine = Config::default();
    mine.timer_duration_minutes = 50;
    mine.theme = Theme::default();
    mine.theme.transparent = true;
    let c = Config::from_loaded(Some(mine));
    assert_eq!(c.timer_duration_minutes, 50);
    assert!(c.theme.transparent);
}

#[test]
fn parse_color_reads_hex_channels() {
    assert_eq!(parse_color("#4CAF50"), (0x4c, 0xaf, 0x50));
    assert_eq!(parse_color("2196f3"), (0x21, 0x96, 0xf3));
    assert_eq!(parse_color("##ffffff"), (255, 255, 255));
    assert_eq!(parse_color("#zz0a+f"), (0, 10, 15));
    assert_eq!(parse_color("#000000aa"), (0, 0, 0));
}

#[test]
fn shortening_running_work_cuts_remaining_time() {
    let mut t = Timer::new(2, 1);
    let mut sounds = Vec::new();
    t.start();
    assert_eq!(t.remaining, 120);
    assert!(!t.set_duration(1, false));
    assert_eq!(t.remaining, 60);
    let d = timer_tick(&mut t, &mut sounds).unwrap();
    assert_eq!(d.remaining, 59);
    assert_eq!(d.total, 60);
    assert_eq!(d.time, "00:59");
}

#[test]
fn shortening_running_rest_cuts_remaining_time() {
    let mut t = Timer::new(1, 5);
    let mut sounds = Vec::new();
    t.start();
    t.remaining = 1;
    t.tick(&mut sounds);
    assert_eq!(t.phase, TimerPhase::Rest);
    assert_eq!(t.remaining, 300);
    assert!(!t.set_duration(2, true));
    assert_eq!(t.remaining, 120);
    assert!(!t.set_duration(10, true));
    assert_eq!(t.remaining, 120);
}

#[test]
fn shortening_paused_rest_keeps_within_longer_duration() {
    let mut t = Timer::new(1, 5);
    let mut sounds = Vec::new();
    t.start();
    t.remaining = 1;
    t.tick(&mut sounds);
    t.pause();
    assert!(!t.set_duration(3, true));
    assert_eq!(t.remaining, 180);
    assert_eq!(t.phase, TimerPhase::Rest);
}

#[test]
fn settings_records_for_saving() {
    let c = Config::default().with_durations(50, 10);
    assert_eq!(c.timer_duration_minutes, 50);
    assert_eq!(c.rest_duration_minutes, 10);
    assert_eq!((c.alarm_hour, c.alarm_min), (10, 20));
    assert_eq!(c.theme.background_color, "#000000");
    let c = c.with_alarm_time(7, 45);
    assert_eq!((c.alarm_hour, c.alarm_min), (7, 45));
    assert_eq!(c.timer_duration_minutes, 50);
    assert_eq!(c.rest_duration_minutes, 10);
    assert_eq!(c.theme.font_family, "TX02 Nerd Font");
}
