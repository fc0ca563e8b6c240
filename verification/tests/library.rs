use hcli::header::workspace_label;
use hcli::catalog::{catalog_entry, catalog_is_current};
use hcli::footer::{
    context_usage, footer_area, footer_lines, join_metrics, reads_hcap_catalog, ContextFacts,
    ContextFigures, ContextUsage, FooterFigures,
};
use hcli::menu::commands;
use hcli::header::{header, HeaderFacts};
use hcli::number::{decimal_string, number};
use hcli::paint::{Area, Tone};
use hcli::speed::SpeedMeter;
use hcli::width::fit;

#[test]
fn numbers_group_thousands() {
    assert_eq!(number(Some(0)), "0");
    assert_eq!(number(Some(999)), "999");
    assert_eq!(number(Some(1000)), "1,000");
    assert_eq!(number(Some(131072)), "131,072");
    assert_eq!(number(Some(1_075_200)), "1,075,200");
    assert_eq!(number(Some(1_000_001)), "1,000,001");
    assert_eq!(number(Some(u64::MAX)), "18,446,744,073,709,551,615");
    assert_eq!(number(None), "—");
    assert_eq!(decimal_string(0), "0");
    assert_eq!(decimal_string(1_000_000), "1000000");
}

#[test]
fn fit_cuts_by_cells_and_marks_the_cut() {
    assert_eq!(fit("Hello", 5), "Hello");
    assert_eq!(fit("Hello", 4), "Hel…");
    assert_eq!(fit("Hello", 1), "…");
    assert_eq!(fit("Hello", 0), "");
    assert_eq!(fit("", 0), "");
    assert_eq!(fit("项目abc", 3), "项…");
    assert_eq!(fit("项目abc", 4), "项…");
    assert_eq!(fit("项目abc", 6), "项目a…");
    // Control characters count as no cells when cutting, so the cut text can
    // be wider than asked for.
    assert_eq!(fit("\u{1}\u{1}\u{1}", 2), "\u{1}\u{1}\u{1}…");
    assert_eq!(fit("项目", 4), "项目");
    assert_eq!(fit("项目", 3), "项…");
}

#[test]
fn metrics_join_within_width() {
    let parts = vec!["abc".to_string(), "defgh".to_string(), "ij".to_string()];
    assert_eq!(join_metrics(&parts, 40), "abc  ·  defgh  ·  ij");
    assert_eq!(join_metrics(&parts, 13), "abc  ·  defgh");
    assert_eq!(join_metrics(&parts, 12), "abc  ·  ij");
    assert_eq!(join_metrics(&parts, 2), "a…");
    assert_eq!(join_metrics(&parts, 0), "");
    assert_eq!(join_metrics(&Vec::new(), 10), "");
}

fn facts() -> ContextFacts {
    ContextFacts {
        catalog_context: None,
        session_limit: None,
        observed_tokens: None,
        estimate_stale: false,
        estimated_tokens: None,
    }
}

#[test]
fn context_usage_prefers_catalog_limit_and_observed_tokens() {
    assert_eq!(context_usage(&facts()), ContextUsage::Unknown);
    let f = ContextFacts { session_limit: Some(0), observed_tokens: Some(5), ..facts() };
    assert_eq!(context_usage(&f), ContextUsage::Unknown);
    let f = ContextFacts { session_limit: Some(100), ..facts() };
    assert_eq!(context_usage(&f), ContextUsage::LimitOnly { limit: 100 });
    let f = ContextFacts {
        catalog_context: Some(200),
        session_limit: Some(100),
        estimated_tokens: Some(7),
        ..facts()
    };
    assert_eq!(context_usage(&f), ContextUsage::Measured { used: 7, limit: 200, estimated: true });
    let f = ContextFacts { estimate_stale: true, ..f };
    assert_eq!(context_usage(&f), ContextUsage::LimitOnly { limit: 200 });
    let f = ContextFacts { observed_tokens: Some(9), ..f };
    assert_eq!(context_usage(&f), ContextUsage::Measured { used: 9, limit: 200, estimated: false });
}

#[test]
fn footer_placeholders_and_reasoning() {
    let f = FooterFigures {
        context: ContextFigures::Unknown,
        speed: None,
        speed_estimated: true,
        reasoning_effort: Some("high".into()),
        prices: None,
        session: None,
    };
    let lines = footer_lines(&f, 80);
    assert_eq!(lines[0], "Context —  ·  — tok/s  ·  Reasoning high");
    assert_eq!(lines[1], "Session tokens —");
    let f = FooterFigures {
        context: ContextFigures::LimitOnly { limit: "1.1M".into() },
        speed: Some("3.0".into()),
        ..f
    };
    assert_eq!(footer_lines(&f, 80)[0], "— / 1.1M ctx  ·  ~3.0 tok/s  ·  Reasoning high");
    assert_eq!(footer_lines(&f, 27)[0], "— / 1.1M ctx  ·  ~3.0 tok/s");
    assert_eq!(footer_lines(&f, 26)[0], "— / 1.1M ctx");
    assert_eq!(footer_lines(&f, 8)[0], "— / 1.1…");
}

#[test]
fn footer_reads_only_the_matching_hcap_catalog() {
    assert!(reads_hcap_catalog("HCAP"));
    assert!(!reads_hcap_catalog("openai"));
    assert!(catalog_is_current(&Some("https://hcap.ai/v1/".into()), &Some("https://hcap.ai/v1".into())));
    assert!(!catalog_is_current(&Some("https://other/v1".into()), &Some("https://hcap.ai/v1".into())));
    assert!(!catalog_is_current(&None, &Some("https://hcap.ai/v1".into())));
    assert!(!catalog_is_current(&Some("https://hcap.ai/v1".into()), &None));
    let models: Vec<String> = vec!["a".into(), "b".into(), "b".into()];
    assert_eq!(catalog_entry(&models, "b"), Some(1));
    assert_eq!(catalog_entry(&models, "c"), None);
    assert_eq!(
        footer_area(Area { x: 0, y: 5, width: 80, height: 2 }),
        Area { x: 1, y: 5, width: 78, height: 2 }
    );
    assert_eq!(
        footer_area(Area { x: 65535, y: 0, width: 1, height: 1 }),
        Area { x: 65535, y: 0, width: 0, height: 1 }
    );
}

#[test]
fn geometry_follows_ratatui() {
    // The footer area is clamped to the coordinate range.
    assert_eq!(
        footer_area(Area { x: 65529, y: 0, width: 100, height: 5 }),
        Area { x: 65530, y: 0, width: 5, height: 5 }
    );
    // A palette of two suggestions above a 40-cell input at row 12 of a frame:
    // a bordered frame of eight rows, its interior inset by the border.
    let suggestions = vec![
        ("/a".to_string(), "first".to_string()),
        ("/b".to_string(), "second".to_string()),
    ];
    let frame = Area { x: 0, y: 0, width: 40, height: 16 };
    let plan = commands(Area { x: 0, y: 12, width: 40, height: 3 }, frame, &suggestions, 1).unwrap();
    assert_eq!(plan.frame.area, Area { x: 0, y: 4, width: 40, height: 8 });
    assert_eq!(plan.frame.inner, Area { x: 1, y: 5, width: 38, height: 6 });
    assert_eq!(plan.frame.title, " COMMANDS ");
    let texts: Vec<&str> = plan.paints.iter().map(|p| p.text.as_str()).collect();
    assert_eq!(texts[0], "Find an action   ·   2 matches");
    assert!(texts[1].chars().all(|c| c == '─'));
    // Each row but the last of the body is followed by a rule; the body ends
    // at row 11, so both rows (7 and 9) get one.
    assert_eq!(plan.paints.len(), 6);
    assert_eq!(plan.paints[2].area, Area { x: 2, y: 7, width: 36, height: 1 });
    assert_eq!(plan.paints[2].text, "  /a           │ first");
    assert_eq!(plan.paints[4].text, "› /b           │ second");
    assert_eq!(plan.paints[4].tone, Tone::SelectedRow);
    assert_eq!(plan.paints[5].area, Area { x: 3, y: 10, width: 34, height: 1 });
    // Too little room above the input: nothing is drawn.
    assert!(commands(Area { x: 0, y: 3, width: 40, height: 3 }, frame, &suggestions, 0).is_none());
}

fn header_facts() -> HeaderFacts {
    HeaderFacts {
        provider: "hcap".into(),
        model: "gpt-6-astra".into(),
        model_label: "GPT 6 Astra".into(),
        processing: false,
        workspace: Some("~/src/app".into()),
        git_branch: Some("main".into()),
        update_available: false,
        server_version: Some(" 1.2.3\n".into()),
        client_version: "1.2.3".into(),
    }
}

fn texts(lines: &[Vec<hcli::paint::Span>]) -> Vec<String> {
    lines.iter().map(|l| l.iter().map(|s| s.text.as_str()).collect::<String>()).collect()
}

#[test]
fn header_shows_route_status_and_workspace() {
    let lines = header(&header_facts(), 82);
    assert_eq!(
        texts(&lines),
        vec![
            "HCLI  /  hcap.ai  ·  ready".to_string(),
            "─".repeat(64),
            "GPT 6 Astra".to_string(),
            "~/src/app  ·  main".to_string(),
            String::new(),
        ]
    );
    assert_eq!(lines[0][0].tone, Tone::AccentBold);
    assert_eq!(lines[2][0].tone, Tone::TextBold);
    let narrow = header(&HeaderFacts { model: "connecting…".into(), ..header_facts() }, 40);
    assert_eq!(texts(&narrow)[0], "HCLI  /  hcap.ai  ·  connecting");
    assert_eq!(texts(&narrow)[3], "~/src/app");
    let tiny = header(
        &HeaderFacts {
            processing: true,
            update_available: true,
            server_version: Some("1.2.4".into()),
            ..header_facts()
        },
        22,
    );
    assert_eq!(
        texts(&tiny),
        vec![
            "HCLI".to_string(),
            "─".repeat(20),
            "GPT 6 Astra".to_string(),
            "~/src/app".to_string(),
            "Update available · …".to_string(),
            "Server build differ…".to_string(),
            String::new(),
        ]
    );
    assert_eq!(tiny[5][0].tone, Tone::Warning);
    let other = header(&HeaderFacts { provider: "openai".into(), processing: true, ..header_facts() }, 60);
    assert_eq!(texts(&other)[0], "HCLI  /  openai  ·  working");
}

#[test]
fn meter_keeps_rate_across_calls() {
    let mut meter = SpeedMeter::new();
    meter.output("", 10_000_000_000);
    assert_eq!(meter.sample(), None);
    meter.output("abcdefgh", 1_000_000_000);
    let before = meter.sample();
    meter.next_call();
    assert_eq!(meter.sample(), before);
    meter.output("abcd", 240_000_000);
    assert_eq!(meter.sample(), None);
    meter.output("abcd", 250_000_000);
    let s = meter.sample().unwrap();
    assert_eq!((s.quarter_tokens, s.elapsed_nanos, s.estimated), (16, 250_000_000, true));
}

fn cells(text: &str) -> usize {
    unicode_width::UnicodeWidthStr::width(text)
}

fn line_cells(line: &[hcli::paint::Span]) -> usize {
    line.iter().map(|s| cells(&s.text)).sum()
}

#[test]
fn simple_text_fits_as_a_whole_string() {
    for width in 0..80 {
        for text in ["Hello, world", "a · b — c… ─", "", "~/src/very-long-workspace", "~/项目/very-long-workspace", "한국어 ｆｕｌｌ かな カナ"] {
            assert!(cells(&fit(text, width)) <= width, "{text:?} at {width}");
        }
        let parts = vec!["项目 — ".to_string(), "12.5 tok/s".to_string(), "Reasoning 高".to_string()];
        assert!(cells(&join_metrics(&parts, width)) <= width);
    }
    assert_eq!(cells(&fit("Hello, world", 6)), 6);
    assert_eq!(cells("a · b — c… ─"), 12);
}

#[test]
fn header_lines_fit_the_inset_width() {
    for width in 0..100u16 {
        let inner = width.saturating_sub(2) as usize;
        for facts in [
            header_facts(),
            HeaderFacts { update_available: true, server_version: Some("2.0".into()), ..header_facts() },
            HeaderFacts { provider: "openrouter-with-a-long-name".into(), workspace: None, ..header_facts() },
            HeaderFacts { workspace: Some("~/项目/工作区/很长的名字".into()), git_branch: Some("主".into()), model_label: "模型 Astra".into(), ..header_facts() },
        ] {
            for line in header(&facts, width) {
                assert!(line_cells(&line) <= inner, "width {width}");
            }
        }
    }
}

#[test]
fn workspace_is_written_from_home() {
    assert_eq!(workspace_label("/home/ana".into(), Some(String::new())), "~");
    assert_eq!(workspace_label("/home/ana/src/app".into(), Some("src/app".into())), "~/src/app");
    assert_eq!(workspace_label("/srv/app".into(), None), "/srv/app");
}

#[test]
fn wide_characters_take_two_cells() {
    let ranges = [
        (0x3041u32, 0x3096u32),
        (0x30A1, 0x30FA),
        (0x3400, 0x4DBF),
        (0x4E00, 0x9FFF),
        (0xAC00, 0xD7A3),
        (0xF900, 0xFAFF),
        (0xFF01, 0xFF60),
    ];
    for (lo, hi) in ranges {
        let mut text = String::new();
        for cp in lo..=hi {
            let c = char::from_u32(cp).unwrap();
            let one = c.to_string();
            assert_eq!(fit(&one, 2), one);
            assert_eq!(fit(&one, 1), "…");
            text.push(c);
            text.push('a');
        }
        let n = (hi - lo + 1) as usize;
        assert_eq!(cells(&text), 3 * n);
    }
}
