use std::time::Duration;

use hcli::footer::{footer_lines, ContextFacts, ContextFigures, ContextUsage, FooterFigures, context_usage};
use hcli::header::welcome;
use hcli::speed::{SpeedMeter, SpeedSample};
use hcli::width::fit;
use unicode_width::UnicodeWidthStr;

/// The rate a sample shows: tokens over seconds of generation time, as the
/// footer prints it.
fn rate(sample: Option<SpeedSample>) -> Option<(f32, bool)> {
    sample.map(|s| {
        let tokens = s.quarter_tokens as f64 / 4.0;
        let secs = (s.elapsed_nanos / 1_000_000_000) as u64;
        let nanos = (s.elapsed_nanos % 1_000_000_000) as u32;
        let seconds = Duration::new(secs, nanos).as_secs_f64();
        ((tokens / seconds) as f32, s.estimated)
    })
}

#[test]
fn speed_estimates_stream_then_keeps_final_usage_rate() {
    let mut meter = SpeedMeter::default();
    meter.output("abcd", Duration::ZERO.as_nanos());
    assert_eq!(rate(meter.sample()), None);
    meter.output("efghijkl", Duration::from_secs(1).as_nanos());
    assert_eq!(rate(meter.sample()), Some((3.0, true)));
    meter.usage(0);
    assert_eq!(rate(meter.sample()), Some((3.0, true)));
    meter.usage(6);
    assert_eq!(rate(meter.sample()), Some((6.0, false)));
    // Rendering later or receiving the same final usage must not decay speed.
    meter.usage(6);
    assert_eq!(rate(meter.sample()), Some((6.0, false)));
    meter.next_call();
    meter.output("abcd", Duration::from_secs(2).as_nanos());
    assert_eq!(rate(meter.sample()), Some((3.5, true)));
    meter.usage(4);
    assert_eq!(rate(meter.sample()), Some((5.0, false)));
    meter = SpeedMeter::default();
    assert_eq!(rate(meter.sample()), None);
}

#[test]
fn speed_keeps_unreported_calls_estimated_and_ignores_duplicate_usage() {
    let mut meter = SpeedMeter::default();
    meter.output("abcd", Duration::from_secs(1).as_nanos());
    meter.next_call();
    meter.output("abcd", Duration::from_secs(2).as_nanos());
    meter.usage(10);
    assert_eq!(rate(meter.sample()), Some((5.5, true)));
    meter.output("abcd", Duration::from_secs(3).as_nanos());
    meter.usage(10);
    assert_eq!(rate(meter.sample()), Some((4.0, true)));
}

/// Token counts as the footer writes them.
fn tokens(value: u64) -> String {
    if value >= 1_000_000 {
        format!("{:.3}M", value as f64 / 1_000_000.0)
    } else if value >= 1_000 {
        format!("{:.1}k", value as f64 / 1_000.0)
    } else {
        value.to_string()
    }
}

/// A catalog price per token, written per million tokens.
fn price(value: Option<&str>) -> String {
    value
        .and_then(|value| value.parse::<f64>().ok())
        .filter(|value| value.is_finite() && *value >= 0.0)
        .map(|value| format!("${:.2}", value * 1_000_000.0))
        .unwrap_or_else(|| "—".to_string())
}

struct Catalog {
    context_length: Option<u64>,
    prompt: Option<&'static str>,
    completion: Option<&'static str>,
}

fn figures(
    observed: Option<u64>,
    tokens_per_second: Option<f32>,
    session: Option<(u64, u64)>,
    model: Option<&Catalog>,
    speed_estimated: bool,
) -> FooterFigures {
    let facts = ContextFacts {
        catalog_context: model.and_then(|m| m.context_length),
        session_limit: None,
        observed_tokens: observed,
        estimate_stale: false,
        estimated_tokens: None,
    };
    let context = match context_usage(&facts) {
        ContextUsage::Measured { used, limit, estimated } => ContextFigures::Measured {
            used: tokens(used),
            limit: tokens(limit),
            percent: format!("{:.1}", used as f64 * 100.0 / limit as f64),
            estimated,
        },
        ContextUsage::LimitOnly { limit } => ContextFigures::LimitOnly { limit: tokens(limit) },
        ContextUsage::Unknown => ContextFigures::Unknown,
    };
    FooterFigures {
        context,
        speed: tokens_per_second
            .filter(|speed| speed.is_finite() && *speed >= 0.0)
            .map(|speed| format!("{speed:.1}")),
        speed_estimated,
        reasoning_effort: None,
        prices: model.map(|m| (price(m.prompt), price(m.completion))),
        session: session.map(|(i, o)| (tokens(i), tokens(o))),
    }
}

#[test]
fn footer_shows_catalog_context_prices_and_measured_speed() {
    let model = Catalog {
        context_length: Some(1_075_200),
        prompt: Some("0.0000004"),
        completion: Some("0.000002"),
    };
    let observed = Some(10_752);
    let mut speed = Some(42.5f32);
    let lines = footer_lines(&figures(observed, speed, Some((1200, 500)), Some(&model), false), 140);
    let text = lines.join("\n");
    assert!(text.contains("1.075M ctx (1.0%)"), "{text}");
    assert!(text.contains("42.5 tok/s"), "{text}");
    assert!(text.contains("$0.40 in / $2.00 out per 1M"), "{text}");
    assert!(text.contains("Session 1.2k in / 500 out"), "{text}");
    assert!(footer_lines(&figures(observed, speed, None, Some(&model), true), 64)[0].contains("~42.5 tok/s"));
    speed = None;
    assert!(footer_lines(&figures(observed, speed, None, Some(&model), false), 64)[0].contains("— tok/s"));
    for width in 0..150 {
        assert!(footer_lines(&figures(observed, speed, Some((1200, 500)), Some(&model), false), width)
            .iter()
            .all(|line| line.width() <= width));
    }
}

#[test]
fn chrome_fits_narrow_terminals_and_wide_unicode() {
    for width in 0..80 {
        assert!(fit("~/项目/very-long-workspace", width).width() <= width);
        for line in welcome(width as u16) {
            let cells: usize = line.iter().map(|span| span.text.width()).sum();
            assert!(cells <= width);
        }
    }
    assert_eq!(fit("Hello", 5), "Hello");
}
