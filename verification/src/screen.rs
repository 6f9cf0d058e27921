//! What the display shows at each step of the dashboard: the welcome screen,
//! a new date, a tick of the clock, and fresh readings.

use vstd::prelude::*;
use crate::dashboard::{DateTexts, TickOutput};
use crate::geometry::Size;
use crate::layout::{
    bottom_row_fits, clock_panel, clock_panel_fits, clock_panel_ops, date_panel, date_panel_ops,
    logo, logo_ops, measurements_panel, measurements_panel_fits, measurements_panel_ops,
    weekday_panel, weekday_panel_ops, wifi_icon, wifi_icon_ops, DrawOp,
};
use crate::measurements::MeasurementTexts;

verus! {

/// The welcome screen followed by the icon of a Wi-Fi not yet connected.
pub open spec fn welcome_ops(d: Size) -> Seq<DrawOp> {
    logo_ops(d) + wifi_icon_ops(d, false)
}

/// The date panel followed by the weekday panel.
pub open spec fn date_ops(d: Size, texts: DateTexts) -> Seq<DrawOp> {
    date_panel_ops(texts.date) + weekday_panel_ops(d, texts.weekday)
}

/// The clock panel, followed by the date and weekday panels when the date has changed.
pub open spec fn tick_ops(d: Size, out: TickOutput) -> Seq<DrawOp> {
    clock_panel_ops(d, out.clock) + match out.date_texts {
        Some(texts) => date_ops(d, texts),
        None => Seq::empty(),
    }
}

/// The operations of the welcome screen.
pub fn welcome(display: Size) -> (ops: Vec<DrawOp>)
    requires
        bottom_row_fits(display),
    ensures
        ops@ == welcome_ops(display),
{
    let mut ops = logo(display);
    let mut icon = wifi_icon(display, false);
    ops.append(&mut icon);
    ops
}

/// The operations that show a new date.
pub fn show_date(display: Size, texts: DateTexts) -> (ops: Vec<DrawOp>)
    ensures
        ops@ == date_ops(display, texts),
{
    let DateTexts { date, weekday } = texts;
    let mut ops = date_panel(date);
    let mut weekday_ops = weekday_panel(display, weekday);
    ops.append(&mut weekday_ops);
    ops
}

/// The operations that show one tick of the dashboard.
pub fn show_tick(display: Size, out: TickOutput) -> (ops: Vec<DrawOp>)
    requires
        clock_panel_fits(display),
    ensures
        ops@ == tick_ops(display, out),
{
    let ghost given = out;
    let TickOutput { clock, date_texts, refresh_measurements: _ } = out;
    let mut ops = clock_panel(display, clock);
    match date_texts {
        Some(texts) => {
            let mut more = show_date(display, texts);
            ops.append(&mut more);
        },
        None => {
            assert(ops@ =~= tick_ops(display, given));
        },
    }
    ops
}

/// The operations that show the temperature and humidity texts.
pub fn show_measurements(display: Size, m: MeasurementTexts) -> (ops: Vec<DrawOp>)
    requires
        measurements_panel_fits(display),
    ensures
        ops@ == measurements_panel_ops(display, m.temperature, m.humidity, m.has_data),
{
    let MeasurementTexts { temperature, humidity, has_data } = m;
    measurements_panel(display, temperature, humidity, has_data)
}

} // verus!
