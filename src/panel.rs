//! The panel: the widgets' events, the parameters they move, and the text that
//! reports the most recent change.

use vstd::prelude::*;
use vstd::string::StringExecFns;
use iced_audio::{Normal, NormalParam};
use crate::audio::{
    centre_normal, decibel_text_of, linear_position_of, linear_text_of, normal_text_of, step_of,
    step_position_of, decibel_default_param, decibel_text, frequency_param, frequency_text, linear_default_param,
    linear_text, lowest_normal, normal_text, step_param, step_snapped, step_value,
};
use crate::ranges::{DecibelRange, FrequencyRange, LinearRange, StepRange};
use crate::text::{decimal, is_fixed_text, push_decimal, push_signed_decimal, signed_decimal};

verus! {

/// An event of one of the panel's widgets.
#[derive(Debug, Clone, Copy)]
pub enum Message {
    /// The plain slider moved to a position.
    SliderChanged(Normal),
    /// The button with this identifier was pressed.
    ButtonClicked(u8),
    /// The stepped horizontal slider moved.
    HSliderInt(Normal),
    /// The decibel vertical slider moved.
    VSliderDB(Normal),
    /// The frequency knob turned.
    KnobFreq(Normal),
    /// The XY pad moved on both axes at once.
    XYPadFloat(Normal, Normal),
}

/// The panel's state: four ranges, the position of each widget on its range,
/// and the text of the most recent change.
pub struct App {
    pub slider_value: Normal,
    pub button_id: u8,
    pub float_range: LinearRange,
    pub int_range: StepRange,
    pub db_range: DecibelRange,
    pub freq_range: FrequencyRange,
    pub h_slider_param: NormalParam,
    pub v_slider_param: NormalParam,
    pub knob_param: NormalParam,
    pub xy_pad_x_param: NormalParam,
    pub xy_pad_y_param: NormalParam,
    pub output_text: String,
}

/// The text `label` followed by `value`.
pub fn labelled(label: &str, value: &str) -> (r: String)
    ensures
        r@ == label@ + value@,
{
    let mut s = String::from_str(label);
    s.append(value);
    s
}

/// The report of a press of the button `id`.
pub fn button_text(id: u8) -> (r: String)
    ensures
        r@ == "Button Clicked: "@ + decimal(id as nat),
{
    let mut s = String::from_str("Button Clicked: ");
    push_decimal(&mut s, id as u32);
    s
}

/// The report of the stepped slider landing on step `value`.
pub fn step_text(value: i32) -> (r: String)
    ensures
        r@ == "HSliderInt: "@ + signed_decimal(value as int),
{
    let mut s = String::from_str("HSliderInt: ");
    push_signed_decimal(&mut s, value);
    s
}

/// The report of the XY pad landing on the values whose texts are `x` and `y`.
pub fn xy_text(x: &str, y: &str) -> (r: String)
    ensures
        r@ == "XYPadFloat: x: "@ + x@ + ", y: "@ + y@,
{
    let mut s = String::from_str("XYPadFloat: x: ");
    s.append(x);
    s.append(", y: ");
    s.append(y);
    s
}

/// `p` with its current position moved to `value` and its default kept.
pub open spec fn moved(p: NormalParam, value: Normal) -> NormalParam {
    NormalParam { value: value, default: p.default }
}

impl App {
    pub open spec fn wf(self) -> bool {
        &&& self.float_range.wf()
        &&& self.int_range.wf()
        &&& self.db_range.wf()
        &&& self.freq_range.wf()
    }

    /// `self` and `other` hold the same ranges and button.
    pub open spec fn same_setup(self, other: App) -> bool {
        &&& self.button_id == other.button_id
        &&& self.float_range == other.float_range
        &&& self.int_range == other.int_range
        &&& self.db_range == other.db_range
        &&& self.freq_range == other.freq_range
    }

    /// The positions of `self` are those of `other`, but for the widgets that
    /// `event` moves.
    pub open spec fn same_positions_but(self, other: App, event: Message) -> bool {
        &&& (!(event is SliderChanged) ==> self.slider_value == other.slider_value)
        &&& (!(event is HSliderInt) ==> self.h_slider_param == other.h_slider_param)
        &&& (!(event is VSliderDB) ==> self.v_slider_param == other.v_slider_param)
        &&& (!(event is KnobFreq) ==> self.knob_param == other.knob_param)
        &&& (!(event is XYPadFloat) ==> self.xy_pad_x_param == other.xy_pad_x_param)
        &&& (!(event is XYPadFloat) ==> self.xy_pad_y_param == other.xy_pad_y_param)
    }

    /// What one event does to the panel: `after` is `before` with the event's
    /// widget moved (a stepped slider to the step it falls on) and its new value
    /// reported in `output_text`.
    pub open spec fn handled(before: App, event: Message, after: App) -> bool {
        let steps = before.int_range;
        let lin = before.float_range;
        let db = before.db_range;
        &&& after.wf()
        &&& after.same_setup(before)
        &&& after.same_positions_but(before, event)
        &&& match event {
            Message::ButtonClicked(id) => after.output_text@ == "Button Clicked: "@ + decimal(
                id as nat,
            ),
            Message::SliderChanged(n) => after.slider_value == n && after.output_text@
                == "Slider Changed: "@ + normal_text_of(n),
            Message::HSliderInt(n) => {
                let step = step_of(steps.min as int, steps.max as int, n);
                &&& after.h_slider_param == moved(
                    before.h_slider_param,
                    step_position_of(steps.min as int, steps.max as int, step),
                )
                &&& after.output_text@ == "HSliderInt: "@ + signed_decimal(step)
            },
            Message::VSliderDB(n) => after.v_slider_param == moved(before.v_slider_param, n)
                && after.output_text@ == "VSliderDB: "@ + decibel_text_of(
                db.min_db as int,
                db.max_db as int,
                db.zero_position,
                n,
            ),
            Message::KnobFreq(n) => after.knob_param == moved(before.knob_param, n) && exists|
                t: Seq<char>,
            | is_fixed_text(t, 2) && after.output_text@ == "KnobFreq: "@ + t,
            Message::XYPadFloat(x, y) => {
                &&& after.xy_pad_x_param == moved(before.xy_pad_x_param, x)
                &&& after.xy_pad_y_param == moved(before.xy_pad_y_param, y)
                &&& after.output_text@ == "XYPadFloat: x: "@ + linear_text_of(
                    lin.min as int,
                    lin.max as int,
                    x,
                ) + ", y: "@ + linear_text_of(lin.min as int, lin.max as int, y)
            },
        }
    }

    /// The panel at start: a linear range over [-1, 1], steps 0 to 10, decibels
    /// over [-12, 12] with 0 dB at the centre, and the ten octaves from 20 Hz to
    /// 20480 Hz. The stepped slider stands on step 5, the decibel slider on 0 dB,
    /// the XY pad on 0 on both axes and the knob on 1000 Hz, each at its default.
    pub fn new() -> (r: App)
        ensures
            r.wf(),
            r.button_id == 128,
            r.float_range == (LinearRange { min: -1i16, max: 1 }),
            r.int_range == (StepRange { min: 0, max: 10 }),
            r.db_range.min_db == -12,
            r.db_range.max_db == 12,
            r.freq_range == (FrequencyRange { min_hz: 20, max_hz: 20480 }),
            r.output_text@ == "try anything"@,
            r.h_slider_param.value == step_position_of(0, 10, 5),
            r.h_slider_param.default == step_position_of(0, 10, 5),
            r.v_slider_param.value == r.db_range.zero_position,
            r.v_slider_param.default == r.db_range.zero_position,
            r.xy_pad_x_param.value == linear_position_of(-1, 1, 0),
            r.xy_pad_x_param.default == linear_position_of(-1, 1, 0),
            r.xy_pad_y_param == r.xy_pad_x_param,
    {
        let float_range = LinearRange { min: -1, max: 1 };
        let int_range = StepRange { min: 0, max: 10 };
        let db_range = DecibelRange { min_db: -12, max_db: 12, zero_position: centre_normal() };
        let freq_range = FrequencyRange { min_hz: 20, max_hz: 20480 };
        App {
            slider_value: lowest_normal(),
            button_id: 128,
            float_range,
            int_range,
            db_range,
            freq_range,
            h_slider_param: step_param(int_range, 5, 5),
            v_slider_param: decibel_default_param(db_range),
            knob_param: frequency_param(freq_range, 1000, 1000),
            xy_pad_x_param: linear_default_param(float_range),
            xy_pad_y_param: linear_default_param(float_range),
            output_text: String::from_str("try anything"),
        }
    }

    /// Handles one widget event: moves the widget's parameter (a stepped slider
    /// to the step it falls on) and reports the new value in `output_text`.
    pub fn update(&mut self, event: Message)
        requires
            old(self).wf(),
        ensures
            App::handled(*old(self), event, *final(self)),
    {
        match event {
            Message::ButtonClicked(id) => {
                self.output_text = button_text(id);
            },
            Message::SliderChanged(value) => {
                self.slider_value = value;
                let t = normal_text(value);
                self.output_text = labelled("Slider Changed: ", t.as_str());
            },
            Message::HSliderInt(normal) => {
                // A stepped parameter is stored on its step, so the widget jumps
                // between steps.
                self.h_slider_param.update(step_snapped(self.int_range, normal));
                let value = step_value(self.int_range, normal);
                self.output_text = step_text(value);
            },
            Message::VSliderDB(normal) => {
                self.v_slider_param.update(normal);
                let t = decibel_text(self.db_range, normal);
                self.output_text = labelled("VSliderDB: ", t.as_str());
            },
            Message::KnobFreq(normal) => {
                self.knob_param.update(normal);
                let t = frequency_text(self.freq_range, normal);
                self.output_text = labelled("KnobFreq: ", t.as_str());
            },
            Message::XYPadFloat(normal_x, normal_y) => {
                self.xy_pad_x_param.update(normal_x);
                self.xy_pad_y_param.update(normal_y);
                let tx = linear_text(self.float_range, normal_x);
                let ty = linear_text(self.float_range, normal_y);
                self.output_text = xy_text(tx.as_str(), ty.as_str());
            },
        }
    }

    pub fn title(&self) -> (r: String)
        ensures
            r@ == "Simple Example - Iced Audio"@,
    {
        String::from_str("Simple Example - Iced Audio")
    }
}

/// Handling an event a second time leaves the panel as the first time did: the
/// same ranges and positions, and the same text but for the knob, whose text
/// rests on a float power that std does not promise to repeat exactly.
pub proof fn lemma_event_repeats(before: App, event: Message, once: App, twice: App)
    requires
        before.wf(),
        App::handled(before, event, once),
        App::handled(once, event, twice),
    ensures
        twice.same_setup(once),
        twice.slider_value == once.slider_value,
        twice.h_slider_param == once.h_slider_param,
        twice.v_slider_param == once.v_slider_param,
        twice.knob_param == once.knob_param,
        twice.xy_pad_x_param == once.xy_pad_x_param,
        twice.xy_pad_y_param == once.xy_pad_y_param,
        !(event is KnobFreq) ==> twice.output_text@ == once.output_text@,
{
}

/// Two positions on the same step leave the stepped slider in the same place
/// and report the same text.
pub proof fn lemma_same_step_same_result(
    before: App,
    n1: Normal,
    n2: Normal,
    after1: App,
    after2: App,
)
    requires
        before.wf(),
        step_of(before.int_range.min as int, before.int_range.max as int, n1) == step_of(
            before.int_range.min as int,
            before.int_range.max as int,
            n2,
        ),
        App::handled(before, Message::HSliderInt(n1), after1),
        App::handled(before, Message::HSliderInt(n2), after2),
    ensures
        after1.h_slider_param == after2.h_slider_param,
        after1.output_text@ == after2.output_text@,
{
}

/// The text after an event does not depend on the text before it: two panels
/// with the same ranges report the same text for the same event, but for the
/// knob (see `lemma_event_repeats`).
pub proof fn lemma_text_overwritten(a: App, b: App, event: Message, a2: App, b2: App)
    requires
        a.wf(),
        b.wf(),
        b.same_setup(a),
        App::handled(a, event, a2),
        App::handled(b, event, b2),
        !(event is KnobFreq),
    ensures
        a2.output_text@ == b2.output_text@,
{
}

} // verus!
