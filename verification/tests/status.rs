use sherline_power_feed::app::{Alarm, App, Mode};
use sherline_power_feed::status::{rate_line, status_line, LINE_CAPACITY};

#[test]
fn status_line_names_the_mode() {
    assert_eq!(status_line(Mode::Stop), "STOP");
    assert_eq!(status_line(Mode::RunForward), "FWD");
    assert_eq!(status_line(Mode::RunReverse), "REV");
    assert_eq!(status_line(Mode::Alarm(Alarm::Limit)), "ALARM");
}

#[test]
fn rate_line_at_lowest_rate_hides_minus() {
    assert_eq!(rate_line(Mode::Stop, 1).as_str(), "  1mm/min +");
}

#[test]
fn rate_line_at_highest_rate_hides_plus() {
    assert_eq!(rate_line(Mode::Stop, 100).as_str(), "- 100mm/min  ");
}

#[test]
fn rate_line_between_shows_both() {
    assert_eq!(rate_line(Mode::Stop, 10).as_str(), "- 10mm/min +");
    assert_eq!(rate_line(Mode::RunForward, 2).as_str(), "- 2mm/min +");
    assert_eq!(rate_line(Mode::RunReverse, 99).as_str(), "- 99mm/min +");
    assert_eq!(rate_line(Mode::Stop, 75).as_str(), "- 75mm/min +");
}

#[test]
fn rate_line_in_alarm_names_the_limit_switch() {
    assert_eq!(rate_line(Mode::Alarm(Alarm::Limit), 1).as_str(), "LIMIT SWITCH");
    assert_eq!(rate_line(Mode::Alarm(Alarm::Limit), 10).as_str(), "LIMIT SWITCH");
    assert_eq!(rate_line(Mode::Alarm(Alarm::Limit), 100).as_str(), "LIMIT SWITCH");
}

#[test]
fn rate_line_writes_every_digit() {
    assert_eq!(rate_line(Mode::Stop, 0).as_str(), "- 0mm/min +");
    assert_eq!(rate_line(Mode::Stop, 9).as_str(), "- 9mm/min +");
    assert_eq!(rate_line(Mode::Stop, 101).as_str(), "- 101mm/min +");
    assert_eq!(rate_line(Mode::Stop, 1000).as_str(), "- 1000mm/min +");
    assert_eq!(rate_line(Mode::Stop, 12345).as_str(), "- 12345mm/min +");
    assert_eq!(rate_line(Mode::Stop, 60708).as_str(), "- 60708mm/min +");
    assert_eq!(rate_line(Mode::Stop, u16::MAX).as_str(), "- 65535mm/min +");
}

#[test]
fn rate_line_is_the_formatted_number_between_the_hints() {
    for rate in 2..100u16 {
        assert_eq!(rate_line(Mode::Stop, rate).as_str(), format!("- {}mm/min +", rate));
    }
}

#[test]
fn every_line_fits_its_buffer() {
    assert_eq!(LINE_CAPACITY, 32);
    assert_eq!(rate_line(Mode::Stop, 1).capacity(), 32);
    for rate in [0u16, 1, 10, 100, 65535] {
        assert!(rate_line(Mode::Stop, rate).len() <= LINE_CAPACITY);
        assert!(rate_line(Mode::Alarm(Alarm::Limit), rate).len() <= LINE_CAPACITY);
    }
}

#[test]
fn render_status_at_power_up() {
    let app = App::default();
    let (status, rate) = app.render_status();
    assert_eq!(status, "STOP");
    assert_eq!(rate.as_str(), "- 10mm/min +");
}

#[test]
fn render_status_at_feed_rate_one() {
    let mut app = App::default();
    app.input_dial_change(-9);
    assert_eq!(app.feed_rate(), 1);
    assert!(!app.rapid());
    let (status, rate) = app.render_status();
    assert_eq!(status, "STOP");
    assert_eq!(rate.as_str(), "  1mm/min +");
}

#[test]
fn render_status_at_feed_rate_hundred() {
    let mut app = App::default();
    app.input_dial_change(90);
    assert_eq!(app.feed_rate(), 100);
    let (_, rate) = app.render_status();
    assert_eq!(rate.as_str(), "- 100mm/min  ");
}

#[test]
fn render_status_in_alarm_whatever_the_rates() {
    let mut app = App::default();
    app.input_limit_switch(true);
    let (status, rate) = app.render_status();
    assert_eq!(status, "ALARM");
    assert_eq!(rate.as_str(), "LIMIT SWITCH");
    app.input_dial_change(-100);
    assert_eq!(app.render_status().1.as_str(), "LIMIT SWITCH");
    app.input_dial_change(200);
    assert_eq!(app.render_status().1.as_str(), "LIMIT SWITCH");
    app.input_rapid_button(true);
    assert_eq!(app.render_status().1.as_str(), "LIMIT SWITCH");
}

#[test]
fn render_status_while_running() {
    let mut app = App::default();
    app.input_dir_switch_left();
    assert_eq!(app.render_status().0, "FWD");
    app.input_dir_switch_off();
    app.input_dir_switch_right();
    let (status, rate) = app.render_status();
    assert_eq!(status, "REV");
    assert_eq!(rate.as_str(), "- 10mm/min +");
}

#[test]
fn render_status_shows_rapid_rate_while_button_held() {
    let mut app = App::default();
    app.input_rapid_button(true);
    assert_eq!(app.render_status().1.as_str(), "- 75mm/min +");
    app.input_dial_change(25);
    assert_eq!(app.render_status().1.as_str(), "- 100mm/min  ");
    app.input_rapid_button(false);
    assert_eq!(app.render_status().1.as_str(), "- 10mm/min +");
}
