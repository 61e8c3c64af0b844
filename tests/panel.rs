use audio_panel::panel::{button_text, labelled, step_text, xy_text};
use audio_panel::ranges::{DecibelRange, FrequencyRange, LinearRange, StepRange};
use audio_panel::{App, Message};
use iced_audio::Normal;

fn at(v: f32) -> Normal {
    Normal::from_clipped(v)
}

fn after(event: Message) -> App {
    let mut app = App::new();
    app.update(event);
    app
}

#[test]
fn starts_with_its_ranges_and_text() {
    let app = App::new();
    assert_eq!(app.output_text, "try anything");
    assert_eq!(app.button_id, 128);
    assert_eq!(app.float_range, LinearRange { min: -1, max: 1 });
    assert_eq!(app.int_range, StepRange { min: 0, max: 10 });
    assert_eq!(
        app.db_range,
        DecibelRange { min_db: -12, max_db: 12, zero_position: Normal::CENTER }
    );
    assert_eq!(app.freq_range, FrequencyRange { min_hz: 20, max_hz: 20480 });
    assert_eq!(app.title(), "Simple Example - Iced Audio");
}

#[test]
fn starts_at_the_chosen_positions() {
    let app = App::new();
    assert_eq!(app.h_slider_param.value.as_f32(), 0.5);
    assert_eq!(app.h_slider_param.default.as_f32(), 0.5);
    assert_eq!(app.v_slider_param.value, Normal::CENTER);
    assert_eq!(app.xy_pad_x_param.value, Normal::CENTER);
    assert_eq!(app.xy_pad_y_param.value, Normal::CENTER);
    assert_eq!(app.slider_value, Normal::MIN);
    let knob = app.knob_param.value.as_f32();
    assert!(knob > 0.0 && knob < 1.0);
    assert_eq!(app.knob_param.value, app.knob_param.default);
}

#[test]
fn button_click_reports_identifier() {
    let app = after(Message::ButtonClicked(7));
    assert_eq!(app.output_text, "Button Clicked: 7");
    let fresh = App::new();
    assert_eq!(app.h_slider_param, fresh.h_slider_param);
    assert_eq!(app.knob_param, fresh.knob_param);
}

#[test]
fn button_text_of_extremes() {
    assert_eq!(button_text(0), "Button Clicked: 0");
    assert_eq!(button_text(128), "Button Clicked: 128");
    assert_eq!(button_text(255), "Button Clicked: 255");
}

#[test]
fn step_text_of_signed_values() {
    assert_eq!(step_text(0), "HSliderInt: 0");
    assert_eq!(step_text(10), "HSliderInt: 10");
    assert_eq!(step_text(-42), "HSliderInt: -42");
    assert_eq!(step_text(i32::MIN), "HSliderInt: -2147483648");
    assert_eq!(step_text(i32::MAX), "HSliderInt: 2147483647");
}

#[test]
fn joined_texts() {
    assert_eq!(labelled("KnobFreq: ", "40.00"), "KnobFreq: 40.00");
    assert_eq!(labelled("", ""), "");
    assert_eq!(xy_text("-0.50", "0.50"), "XYPadFloat: x: -0.50, y: 0.50");
}

#[test]
fn step_positions_within_a_step_give_that_step() {
    for k in 0..=10 {
        let centre = k as f32 / 10.0;
        let mut seen = Vec::new();
        for offset in [-0.04f32, -0.01, 0.0, 0.01, 0.04] {
            let v = centre + offset;
            if !(0.0..=1.0).contains(&v) {
                continue;
            }
            let app = after(Message::HSliderInt(at(v)));
            assert_eq!(app.output_text, format!("HSliderInt: {}", k));
            seen.push(app.h_slider_param.value);
        }
        assert!(seen.iter().all(|n| *n == seen[0]));
    }
}

#[test]
fn snapping_a_snapped_position_keeps_it() {
    for v in [0.0f32, 0.13, 0.26, 0.5, 0.61, 0.87, 0.99, 1.0] {
        let mut app = App::new();
        app.update(Message::HSliderInt(at(v)));
        let once = app.h_slider_param.value;
        let text = app.output_text.clone();
        app.update(Message::HSliderInt(once));
        assert_eq!(app.h_slider_param.value, once);
        assert_eq!(app.output_text, text);
    }
}

#[test]
fn stepped_slider_keeps_its_default() {
    let app = after(Message::HSliderInt(at(0.9)));
    assert_eq!(app.output_text, "HSliderInt: 9");
    assert_eq!(app.h_slider_param.default.as_f32(), 0.5);
}

#[test]
fn linear_range_midpoint_and_ends() {
    let app = after(Message::XYPadFloat(at(0.5), at(0.0)));
    assert_eq!(app.output_text, "XYPadFloat: x: 0.00, y: -1.00");
    let app = after(Message::XYPadFloat(at(1.0), at(0.5)));
    assert_eq!(app.output_text, "XYPadFloat: x: 1.00, y: 0.00");
}

#[test]
fn xy_pad_reports_both_axes() {
    let app = after(Message::XYPadFloat(at(0.25), at(0.75)));
    assert_eq!(app.output_text, "XYPadFloat: x: -0.50, y: 0.50");
    assert_eq!(app.xy_pad_x_param.value, at(0.25));
    assert_eq!(app.xy_pad_y_param.value, at(0.75));
    assert_eq!(app.xy_pad_x_param.default, Normal::CENTER);
}

#[test]
fn frequency_range_spans_ten_octaves() {
    let app = after(Message::KnobFreq(at(0.0)));
    assert_eq!(app.output_text, "KnobFreq: 20.00");
    let app = after(Message::KnobFreq(at(1.0)));
    assert_eq!(app.output_text, "KnobFreq: 20480.00");
    let mut hz = 20.0f32;
    for k in 0..=10 {
        let app = after(Message::KnobFreq(at(k as f32 / 10.0)));
        assert_eq!(app.output_text, format!("KnobFreq: {:.2}", hz));
        assert_eq!(app.knob_param.value, at(k as f32 / 10.0));
        hz *= 2.0;
    }
}

#[test]
fn decibel_centre_is_zero() {
    let app = after(Message::VSliderDB(Normal::CENTER));
    assert_eq!(app.output_text, "VSliderDB: 0.000");
    assert_eq!(app.v_slider_param.value, Normal::CENTER);
}

#[test]
fn decibel_steps_grow_away_from_centre() {
    let text = |v: f32| after(Message::VSliderDB(at(v))).output_text;
    assert_eq!(text(0.75), "VSliderDB: 3.000");
    assert_eq!(text(1.0), "VSliderDB: 12.000");
    assert_eq!(text(0.25), "VSliderDB: -3.000");
    assert_eq!(text(0.0), "VSliderDB: -12.000");
    // a quarter of the travel from the centre moves 3 dB, the next quarter 9 dB
    let db = |v: f32| -> f32 {
        let t = text(v);
        t["VSliderDB: ".len()..].parse().unwrap()
    };
    assert!(db(0.75) - db(0.5) < db(1.0) - db(0.75));
    assert!(db(0.5) - db(0.25) < db(0.25) - db(0.0));
}

#[test]
fn plain_slider_reports_position() {
    let app = after(Message::SliderChanged(at(0.025)));
    assert_eq!(app.output_text, "Slider Changed: 0.025");
    assert_eq!(app.slider_value, at(0.025));
    let app = after(Message::SliderChanged(at(1.0)));
    assert_eq!(app.output_text, "Slider Changed: 1");
}

#[test]
fn each_event_moves_only_its_widget() {
    let fresh = App::new();
    let app = after(Message::VSliderDB(at(0.1)));
    assert_eq!(app.h_slider_param, fresh.h_slider_param);
    assert_eq!(app.knob_param, fresh.knob_param);
    assert_eq!(app.xy_pad_x_param, fresh.xy_pad_x_param);
    assert_eq!(app.xy_pad_y_param, fresh.xy_pad_y_param);
    assert_eq!(app.v_slider_param.default, fresh.v_slider_param.default);
    let app = after(Message::KnobFreq(at(0.3)));
    assert_eq!(app.v_slider_param, fresh.v_slider_param);
    assert_eq!(app.knob_param.default, fresh.knob_param.default);
}

#[test]
fn last_event_overwrites_text() {
    let mut app = App::new();
    app.update(Message::ButtonClicked(1));
    app.update(Message::ButtonClicked(23));
    assert_eq!(app.output_text, "Button Clicked: 23");
}

#[test]
fn stepped_slider_stores_the_snapped_position() {
    let app = after(Message::HSliderInt(at(0.54)));
    assert_eq!(app.h_slider_param.value.as_f32(), 0.5);
    assert_eq!(app.output_text, "HSliderInt: 5");
    let app = after(Message::HSliderInt(at(0.56)));
    assert_eq!(app.h_slider_param.value.as_f32(), 0.6);
    assert_eq!(app.output_text, "HSliderInt: 6");
}

#[test]
fn repeating_an_event_changes_nothing() {
    let events = [
        Message::ButtonClicked(3),
        Message::SliderChanged(at(0.3)),
        Message::HSliderInt(at(0.77)),
        Message::VSliderDB(at(0.8)),
        Message::KnobFreq(at(0.45)),
        Message::XYPadFloat(at(0.1), at(0.9)),
    ];
    for e in events {
        let mut app = App::new();
        app.update(e);
        let text = app.output_text.clone();
        let params = (app.h_slider_param, app.v_slider_param, app.knob_param);
        let pad = (app.xy_pad_x_param, app.xy_pad_y_param, app.slider_value);
        app.update(e);
        assert_eq!(app.output_text, text);
        assert_eq!((app.h_slider_param, app.v_slider_param, app.knob_param), params);
        assert_eq!((app.xy_pad_x_param, app.xy_pad_y_param, app.slider_value), pad);
    }
}

#[test]
fn text_does_not_depend_on_the_previous_text() {
    let mut a = App::new();
    a.update(Message::ButtonClicked(200));
    a.update(Message::VSliderDB(at(0.25)));
    let b = after(Message::VSliderDB(at(0.25)));
    assert_eq!(a.output_text, b.output_text);
}
