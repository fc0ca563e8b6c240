use hcli::catalog::{CatalogModel, ModelEntry, Route, details};
use hcli::menu::{commands, models, MenuPlan, ModelPicker};
use hcli::paint::Area;
use ratatui::backend::TestBackend;
use ratatui::layout::Rect;
use ratatui::text::Line;
use ratatui::widgets::{Block, BorderType, Borders, Clear, Paragraph};
use ratatui::Terminal;

fn rect(a: Area) -> Rect {
    Rect { x: a.x, y: a.y, width: a.width, height: a.height }
}

fn area(r: Rect) -> Area {
    Area { x: r.x, y: r.y, width: r.width, height: r.height }
}

/// Draws a menu plan the way the host does, without colours.
fn draw(plan: Option<MenuPlan>, frame: &mut ratatui::Frame) {
    let Some(plan) = plan else { return };
    let outer = rect(plan.frame.area);
    frame.render_widget(Clear, outer);
    let block = Block::default()
        .borders(Borders::ALL)
        .border_type(BorderType::Rounded)
        .title(Line::from(plan.frame.title.clone()))
        .title_bottom(Line::from(plan.frame.hint.clone()));
    frame.render_widget(block, outer);
    for paint in &plan.paints {
        frame.render_widget(Paragraph::new(paint.text.clone()), rect(paint.area));
    }
}

fn screen(terminal: &Terminal<TestBackend>, width: u16, height: u16) -> String {
    let buffer = terminal.backend().buffer();
    (0..height)
        .map(|y| (0..width).map(|x| buffer[(x, y)].symbol()).collect::<String>())
        .collect::<Vec<_>>()
        .join("\n")
}

fn price(value: Option<&str>) -> String {
    value
        .and_then(|s| s.parse::<f64>().ok())
        .filter(|v| v.is_finite() && *v >= 0.0)
        .map(|v| format!("${:.2}", v * 1_000_000.0))
        .unwrap_or_else(|| "—".into())
}

fn catalog_fixture() -> Vec<CatalogModel> {
    vec![
        CatalogModel {
            id: "gpt-6-astra".into(),
            context_length: Some(1075200),
            max_output: Some(131072),
            input_price: price(Some("0.0000004")),
            output_price: price(Some("0.000002")),
            wallet: Some("premium".into()),
            speed: None,
            streaming: Some(true),
            tools: Some(true),
            vision: Some(true),
            variant: Some("gpt-6-astra-UnJailed".into()),
            requests: Some(12),
            last_used: Some(1789248087),
        },
        CatalogModel {
            id: "test-small-model".into(),
            context_length: Some(8192),
            max_output: Some(1024),
            input_price: price(None),
            output_price: price(None),
            wallet: Some("standard".into()),
            speed: Some(format!("{:.1}", 40.0f64)),
            streaming: Some(true),
            tools: Some(false),
            vision: Some(false),
            variant: None,
            requests: None,
            last_used: None,
        },
    ]
}

fn picker() -> ModelPicker {
    let entries = ["gpt-6-astra", "test-small-model"]
        .into_iter()
        .map(|name| ModelEntry {
            name: name.into(),
            label: name.into(),
            route: Some(Route { provider: "hcap".into(), available: true, detail: String::new() }),
            is_current: name == "gpt-6-astra",
            is_default: name == "gpt-6-astra",
            is_favorite: false,
        })
        .collect();
    ModelPicker { entries, filtered: vec![0, 1], selected: 0, filter: String::new() }
}

fn rendered(width: u16, height: u16, picker: &ModelPicker) -> String {
    let mut terminal = Terminal::new(TestBackend::new(width, height)).unwrap();
    terminal
        .draw(|frame| {
            let plan = models(
                area(Rect::new(0, height.saturating_sub(5), width, 3)),
                area(frame.area()),
                picker,
                &catalog_fixture(),
            );
            draw(plan, frame)
        })
        .unwrap();
    screen(&terminal, width, height)
}

#[test]
fn model_inspector_tracks_highlight_and_preserves_catalog_stats() {
    let mut state = picker();
    let screen = rendered(120, 40, &state);
    for expected in [
        "╭",
        "MODEL LIBRARY",
        "1,075,200",
        "131,072",
        "$0.40",
        "$2.00",
        "premium",
        "not reported",
        "Stream ✓",
        "Tools ✓",
        "Vision ✓",
        "gpt-6-astra-UnJailed",
        "CATALOG ACTIVITY",
        "Last used",
    ] {
        assert!(screen.contains(expected), "missing {expected}:\n{screen}");
    }
    state.selected = 1;
    let screen = rendered(120, 40, &state);
    assert!(screen.contains("8,192"));
    assert!(screen.contains("standard"));
    assert!(screen.contains("Tools ×"));
    assert!(!screen.contains("1,075,200"));
    state.entries[1].route.as_mut().unwrap().provider = "other-gateway".into();
    assert!(rendered(120, 40, &state).contains("Catalog details unavailable"));
}

#[test]
fn inspector_adapts_to_small_terminals_and_empty_results() {
    let mut state = picker();
    for (width, height) in [(140, 40), (64, 24), (52, 24), (30, 15), (8, 8)] {
        rendered(width, height, &state);
    }
    assert!(rendered(52, 24, &state).contains("Last used"));
    state.filtered.clear();
    assert!(rendered(80, 24, &state).contains("No models match"));
}

#[test]
fn command_dropdown_has_border_separators_and_scrolls_to_selection() {
    let suggestions = (0..20)
        .map(|i| (format!("/command-{i}"), "Command description".to_string()))
        .collect::<Vec<_>>();
    let mut terminal = Terminal::new(TestBackend::new(80, 24)).unwrap();
    terminal
        .draw(|frame| {
            let plan = commands(area(Rect::new(0, 19, 80, 3)), area(frame.area()), &suggestions, 19);
            draw(plan, frame)
        })
        .unwrap();
    let screen = screen(&terminal, 80, 24);
    assert!(screen.contains("COMMANDS"));
    assert!(screen.contains("› /command-19"));
    assert!(screen.contains("│ Command description"));
    assert!(!screen.contains("/command-0"));
}

#[test]
fn details_follow_route_and_mark_unknown_fields() {
    let catalog = catalog_fixture();
    let mut entry = picker().entries[1].clone();
    entry.name = "hcap:test-small-model".into();
    let rows = details(&entry, &catalog);
    assert_eq!(rows[0], "test-small-model");
    assert_eq!(rows[1], "hcap");
    assert_eq!(rows[3], "Context      8,192");
    assert_eq!(rows[5], "Input / 1M   —");
    assert_eq!(rows[8], "Catalog t/s  40.0");
    assert_eq!(rows[10], "Stream ✓  Tools ×  Vision ×");
    assert_eq!(rows[11], "Variant: —");
    assert_eq!(rows[13], "Requests     —");
    assert_eq!(rows[14], "Last used    —");
    entry.route = Some(Route { provider: "HCAP".into(), available: false, detail: "no key".into() });
    let rows = details(&entry, &catalog);
    assert_eq!(rows[2], "Unavailable: no key");
    assert_eq!(rows[3], "─ CAPACITY & PRICING");
    entry.route = None;
    entry.is_current = true;
    let rows = details(&entry, &catalog);
    assert_eq!(
        rows,
        vec!["test-small-model", "Unknown route · active", "Catalog details unavailable"]
    );
    let rows = details(&picker().entries[0], &catalog);
    assert_eq!(rows[1], "hcap · active");
    assert_eq!(rows[14], "Last used    09-12 21:21 UTC");
}
