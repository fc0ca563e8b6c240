//! Layout of the bordered command palette and the catalog-backed model
//! library. A plan says where each line goes and what it reads; the host
//! draws the frame and the lines.

use vstd::prelude::*;

use crate::catalog::{CatalogModel, ModelEntry, details, details_spec, rows_view};
use crate::geometry::{block_inner, bottom, inner_spec, rect, rect_spec};
use crate::number::{decimal, decimal_string};
use crate::paint::{Area, Paint, Tone, paints_view};
use crate::text::repeat_char;
use crate::width::{fit, fit_spec, text_cells, text_width};

verus! {

/// `a - b`, or zero when `b` is larger.
pub open spec fn sub0(a: int, b: int) -> nat {
    if a >= b {
        (a - b) as nat
    } else {
        0
    }
}

pub open spec fn min_nat(a: nat, b: nat) -> nat {
    if a <= b {
        a
    } else {
        b
    }
}

/// The popup's inset from the input box: one cell on each side when the input
/// box is at least 80 cells wide.
pub open spec fn inset(input: Area) -> nat {
    if input.width >= 80 {
        1
    } else {
        0
    }
}

/// Whether a popup can be placed above `input` without leaving the
/// coordinate range.
pub open spec fn popup_fits(input: Area) -> bool {
    input.x + inset(input) <= u16::MAX
}

/// The area of a popup of up to `height` rows above the input box, within the
/// frame, leaving a gap row when there is room.
pub open spec fn popup_spec(input: Area, frame: Area, height: u16) -> Area {
    let available = sub0(input.y as int, frame.y as int);
    let gap: nat = if available > 22 {
        1
    } else {
        0
    };
    let h = min_nat(height as nat, sub0(available as int, gap as int));
    rect_spec(
        (input.x + inset(input)) as u16,
        sub0(input.y as int, (h + gap) as int) as u16,
        sub0(input.width as int, (2 * inset(input)) as int) as u16,
        h as u16,
    )
}

fn popup(input: Area, frame: Area, height: u16) -> (a: Area)
    requires
        popup_fits(input),
    ensures
        a == popup_spec(input, frame, height),
{
    let available: u16 = input.y.saturating_sub(frame.y);
    let gap: u16 = if available > 22 {
        1
    } else {
        0
    };
    let inset: u16 = if input.width >= 80 {
        1
    } else {
        0
    };
    let h: u16 = height.min(available.saturating_sub(gap));
    rect(input.x + inset, input.y.saturating_sub(h + gap), input.width.saturating_sub(inset * 2), h)
}

/// A line of text cut to the width of its area.
pub open spec fn text_spec(area: Area, value: Seq<char>, tone: Tone) -> (Area, Seq<char>, Tone) {
    (area, fit_spec(value, area.width as nat), tone)
}

fn text(area: Area, value: &str, tone: Tone) -> (p: Paint)
    ensures
        p@ == text_spec(area, value@, tone),
{
    Paint { area, text: fit(value, area.width as usize), tone }
}

/// A horizontal rule inset by one cell on each side of `area`.
pub open spec fn rule_spec(area: Area) -> (Area, Seq<char>, Tone) {
    let a = rect_spec((area.x + 1) as u16, area.y, sub0(area.width as int, 2) as u16, area.height);
    text_spec(a, Seq::new(a.width as nat, |_i: int| '\u{2500}'), Tone::Border)
}

fn rule(area: Area) -> (p: Paint)
    requires
        area.x < u16::MAX,
    ensures
        p@ == rule_spec(area),
{
    let a = rect(area.x + 1, area.y, area.width.saturating_sub(2), area.height);
    text(a, repeat_char('\u{2500}', a.width as usize).as_str(), Tone::Border)
}

/// The frame of a menu: a rounded, bordered block over `area` with a title on
/// its top border and a key hint on its bottom border, its interior filled
/// with the menu background.
#[derive(Debug, Clone)]
pub struct MenuFrame {
    pub area: Area,
    /// The title as drawn on the top border.
    pub title: String,
    /// The hint as drawn on the bottom border.
    pub hint: String,
    /// The interior of the border.
    pub inner: Area,
}

/// A menu to draw: its frame, then its lines in order.
#[derive(Debug, Clone)]
pub struct MenuPlan {
    pub frame: MenuFrame,
    pub paints: Vec<Paint>,
}

/// The frame of a menu over `area`.
pub open spec fn frame_spec(area: Area, title: Seq<char>, hint: Seq<char>) -> (
    Area,
    Seq<char>,
    Seq<char>,
    Area,
) {
    (
        area,
        " "@ + title + " "@,
        " "@ + fit_spec(hint, sub0(area.width as int, 4)) + " "@,
        inner_spec(area),
    )
}

pub open spec fn frame_view(f: MenuFrame) -> (Area, Seq<char>, Seq<char>, Area) {
    (f.area, f.title@, f.hint@, f.inner)
}

/// The lines of a menu's header: its subtitle and, when there is room, a rule
/// below it.
pub open spec fn shell_paints_spec(area: Area, subtitle: Seq<char>) -> Seq<(Area, Seq<char>, Tone)> {
    let inner = inner_spec(area);
    let sub = text_spec(
        rect_spec((inner.x + 1) as u16, inner.y, sub0(inner.width as int, 2) as u16, 1),
        subtitle,
        Tone::Muted,
    );
    if inner.height > 1 {
        seq![sub, rule_spec(rect_spec(inner.x, (inner.y + 1) as u16, inner.width, 1))]
    } else {
        seq![sub]
    }
}

/// The body of a menu: the interior below the subtitle and its rule, inset by
/// one cell on each side.
pub open spec fn body_spec(area: Area) -> Area {
    let inner = inner_spec(area);
    rect_spec(
        (inner.x + 1) as u16,
        if inner.y + 2 <= u16::MAX {
            (inner.y + 2) as u16
        } else {
            u16::MAX
        },
        sub0(inner.width as int, 2) as u16,
        sub0(inner.height as int, 2) as u16,
    )
}

/// A menu needs at least five rows and eight columns to be drawn.
pub open spec fn drawable(area: Area) -> bool {
    area.height >= 5 && area.width >= 8
}

proof fn lemma_popup_area(input: Area, frame: Area, height: u16)
    ensures
        popup_spec(input, frame, height).wf(),
{
}

fn shell(area: Area, title: &str, hint: &str, subtitle: &str) -> (r: (MenuFrame, Vec<Paint>, Area))
    requires
        area.wf(),
        drawable(area),
    ensures
        frame_view(r.0) == frame_spec(area, title@, hint@),
        paints_view(r.1@) == shell_paints_spec(area, subtitle@),
        r.2 == body_spec(area),
        r.2.wf(),
        r.2.y + r.2.height < u16::MAX,
        r.2.x + r.2.width + 2 <= u16::MAX,
        r.2.height >= 1,
{
    let inner = block_inner(area);
    let mut t = " ".to_owned();
    t.append(title);
    t.append(" ");
    let mut h = " ".to_owned();
    h.append(fit(hint, area.width.saturating_sub(4) as usize).as_str());
    h.append(" ");
    let mut paints: Vec<Paint> = Vec::new();
    paints.push(
        text(rect(inner.x + 1, inner.y, inner.width.saturating_sub(2), 1), subtitle, Tone::Muted),
    );
    if inner.height > 1 {
        paints.push(rule(rect(inner.x, inner.y + 1, inner.width, 1)));
    }
    let body = rect(
        inner.x + 1,
        inner.y.saturating_add(2),
        inner.width.saturating_sub(2),
        inner.height.saturating_sub(2),
    );
    assert(paints_view(paints@) =~= shell_paints_spec(area, subtitle@));
    (MenuFrame { area, title: t, hint: h, inner }, paints, body)
}

// ---------------------------------------------------------------------------
// Command palette

/// The hint on the command palette's bottom border.
pub open spec fn commands_hint() -> Seq<char> {
    "\u{2191}\u{2193} navigate \u{b7} Tab complete \u{b7} Enter run \u{b7} Esc close"@
}

pub open spec fn commands_subtitle(n: nat) -> Seq<char> {
    "Find an action   \u{b7}   "@ + decimal(n) + " matches"@
}

/// The palette asks for two rows per suggestion (at most six) plus four, and
/// at least six rows.
pub open spec fn commands_height(n: nat) -> u16 {
    let h = min_nat(n, 6) * 2 + 4;
    if h >= 6 {
        h as u16
    } else {
        6
    }
}

/// The selected row, moved onto the last suggestion when it is past the end.
pub open spec fn clamp_selected(selected: nat, n: nat) -> nat {
    min_nat(selected, sub0(n as int, 1))
}

/// Rows that fit in a list `height` rows tall, two rows each (the last one
/// may lack its rule).
pub open spec fn visible_rows(height: nat) -> nat {
    (height + 1) / 2
}

/// The first row shown: scrolled just far enough to show the selection.
pub open spec fn first_row(selected: nat, visible: nat) -> nat {
    sub0(selected as int, sub0(visible as int, 1) as int)
}

/// The width of the command column: a third of the body, between 12 and 28
/// cells, and at most the body width less four.
pub open spec fn command_width(body_width: nat) -> nat {
    let third = body_width / 3;
    let clamped = if third < 12 {
        12
    } else if third > 28 {
        28
    } else {
        third
    };
    min_nat(clamped, sub0(body_width as int, 4))
}

/// One palette line: a selection marker, the command cut and padded to its
/// column, and the description.
pub open spec fn command_line(command: Seq<char>, description: Seq<char>, active: bool, width: nat) -> Seq<
    char,
> {
    let cmd = fit_spec(command, width);
    (if active {
        "\u{203a}"@
    } else {
        " "@
    }) + " "@ + cmd + Seq::new(sub0(width as int, text_cells(cmd) as int), |_i: int| ' ')
        + " \u{2502} "@ + description
}

pub open spec fn row_tone(active: bool) -> Tone {
    if active {
        Tone::SelectedRow
    } else {
        Tone::Row
    }
}

/// The lines of one list row: the row itself and, when the list continues
/// below it, a rule.
pub open spec fn row_paints(list: Area, row: nat, line: Seq<char>, tone: Tone) -> Seq<
    (Area, Seq<char>, Tone),
> {
    let y = list.y + 2 * row;
    let own = seq![text_spec(rect_spec(list.x, y as u16, list.width, 1), line, tone)];
    if y + 1 < list.bottom_spec() {
        own.push(rule_spec(rect_spec(list.x, (y + 1) as u16, list.width, 1)))
    } else {
        own
    }
}

/// The lines of the first `k` rows shown of the palette.
pub open spec fn command_rows(
    body: Area,
    suggestions: Seq<(Seq<char>, Seq<char>)>,
    selected: nat,
    start: nat,
    k: nat,
) -> Seq<(Area, Seq<char>, Tone)>
    decreases k,
{
    if k == 0 {
        Seq::empty()
    } else {
        let row = (k - 1) as nat;
        let s = suggestions[(start + row) as int];
        let active = start + row == selected;
        command_rows(body, suggestions, selected, start, row) + row_paints(
            body,
            row,
            command_line(s.0, s.1, active, command_width(body.width as nat)),
            row_tone(active),
        )
    }
}

pub open spec fn suggestions_view(s: Seq<(String, String)>) -> Seq<(Seq<char>, Seq<char>)> {
    s.map_values(|p: (String, String)| (p.0@, p.1@))
}

/// The number of rows the palette shows.
pub open spec fn commands_shown(body: Area, n: nat, selected: nat) -> nat {
    let visible = visible_rows(body.height as nat);
    let start = first_row(clamp_selected(selected, n), visible);
    min_nat(visible, sub0(n as int, start as int))
}

/// The command palette: nothing when the popup has no room; otherwise its
/// frame, header and the rows around the selection.
pub open spec fn commands_spec(
    input: Area,
    frame: Area,
    suggestions: Seq<(Seq<char>, Seq<char>)>,
    selected: nat,
) -> Option<((Area, Seq<char>, Seq<char>, Area), Seq<(Area, Seq<char>, Tone)>)> {
    let n = suggestions.len();
    let area = popup_spec(input, frame, commands_height(n));
    if !drawable(area) {
        None
    } else {
        let sel = clamp_selected(selected, n);
        let body = body_spec(area);
        let start = first_row(sel, visible_rows(body.height as nat));
        Some(
            (
                frame_spec(area, "COMMANDS"@, commands_hint()),
                shell_paints_spec(area, commands_subtitle(n)) + command_rows(
                    body,
                    suggestions,
                    sel,
                    start,
                    commands_shown(body, n, selected),
                ),
            ),
        )
    }
}

pub open spec fn plan_view(p: Option<MenuPlan>) -> Option<
    ((Area, Seq<char>, Seq<char>, Area), Seq<(Area, Seq<char>, Tone)>),
> {
    match p {
        Some(plan) => Some((frame_view(plan.frame), paints_view(plan.paints@))),
        None => None,
    }
}

fn row_line(
    paints: &mut Vec<Paint>,
    list: Area,
    row: usize,
    line: &str,
    tone: Tone,
)
    requires
        list.wf(),
        list.x < u16::MAX,
        list.y + list.height < u16::MAX,
        2 * row < list.height,
    ensures
        paints_view(final(paints)@) == paints_view(old(paints)@) + row_paints(
            list,
            row as nat,
            line@,
            tone,
        ),
{
    let y: u16 = list.y + (row as u16) * 2;
    paints.push(text(rect(list.x, y, list.width, 1), line, tone));
    if y + 1 < bottom(list) {
        paints.push(rule(rect(list.x, y + 1, list.width, 1)));
    }
    assert(paints_view(final(paints)@) =~= paints_view(old(paints)@) + row_paints(
        list,
        row as nat,
        line@,
        tone,
    ));
}

fn command_row(command: &str, description: &str, active: bool, width: usize) -> (line: String)
    ensures
        line@ == command_line(command@, description@, active, width as nat),
{
    let mut line = if active {
        "\u{203a}".to_owned()
    } else {
        " ".to_owned()
    };
    line.append(" ");
    let cmd = fit(command, width);
    let padding: usize = width.saturating_sub(text_width(cmd.as_str()));
    line.append(cmd.as_str());
    line.append(repeat_char(' ', padding).as_str());
    line.append(" \u{2502} ");
    line.append(description);
    line
}

/// Lays out the command palette above the input box, with the `selected`
/// suggestion highlighted and scrolled into view.
pub fn commands(input: Area, frame: Area, suggestions: &Vec<(String, String)>, selected: usize) -> (plan:
    Option<MenuPlan>)
    requires
        popup_fits(input),
    ensures
        plan_view(plan) == commands_spec(input, frame, suggestions_view(suggestions@), selected as nat),
{
    let ghost sv = suggestions_view(suggestions@);
    let n = suggestions.len();
    let shown: usize = if n < 6 {
        n
    } else {
        6
    };
    let wanted: u16 = (shown as u16) * 2 + 4;
    let height: u16 = if wanted >= 6 {
        wanted
    } else {
        6
    };
    let area = popup(input, frame, height);
    proof {
        lemma_popup_area(input, frame, height);
    }
    if area.height < 5 || area.width < 8 {
        return None;
    }
    let sel: usize = selected.min(n.saturating_sub(1));
    let mut subtitle = "Find an action   \u{b7}   ".to_owned();
    subtitle.append(decimal_string(n as u64).as_str());
    subtitle.append(" matches");
    let (frame_out, mut paints, body) = shell(
        area,
        "COMMANDS",
        "\u{2191}\u{2193} navigate \u{b7} Tab complete \u{b7} Enter run \u{b7} Esc close",
        subtitle.as_str(),
    );
    let visible: usize = ((body.height as usize) + 1) / 2;
    let start: usize = sel.saturating_sub(visible.saturating_sub(1));
    let third: usize = body.width as usize / 3;
    let clamped: usize = if third < 12 {
        12
    } else if third > 28 {
        28
    } else {
        third
    };
    let width: usize = clamped.min(body.width.saturating_sub(4) as usize);
    let ghost head = paints_view(paints@);
    let mut row: usize = 0;
    while row < visible && start + row < n
        invariant
            sv == suggestions_view(suggestions@),
            n == suggestions@.len(),
            body.wf(),
            body.y + body.height < u16::MAX,
            body.x + body.width + 2 <= u16::MAX,
            visible == visible_rows(body.height as nat),
            start <= n,
            width == command_width(body.width as nat),
            row <= visible,
            start + row <= n,
            sel == clamp_selected(selected as nat, n as nat),
            start == first_row(sel as nat, visible as nat),
            paints_view(paints@) == head + command_rows(body, sv, sel as nat, start as nat, row as nat),
        decreases visible - row,
    {
        let (command, description) = &suggestions[start + row];
        assert(sv[start + row] == (command@, description@));
        let active = start + row == sel;
        let line = command_row(command.as_str(), description, active, width);
        row_line(&mut paints, body, row, line.as_str(), if active {
            Tone::SelectedRow
        } else {
            Tone::Row
        });
        row = row + 1;
    }
    assert(row == commands_shown(body, n as nat, selected as nat));
    assert(body == body_spec(area));
    Some(MenuPlan { frame: frame_out, paints })
}

// ---------------------------------------------------------------------------
// Model library

/// The model picker as the library reads it.
#[derive(Debug, Clone)]
pub struct ModelPicker {
    pub entries: Vec<ModelEntry>,
    /// The entries that match the filter, by index, in list order.
    pub filtered: Vec<usize>,
    /// The highlighted position in `filtered`.
    pub selected: usize,
    pub filter: String,
}

impl ModelPicker {
    /// The `count` filtered indices from position `start` on name entries.
    pub open spec fn rows_valid(self, start: nat, count: nat) -> bool {
        forall|i: int|
            start <= i < start + count ==> #[trigger] self.filtered@[i] < self.entries.len()
    }
}

/// The library asks for 22 rows.
pub open spec fn library_area(input: Area, frame: Area) -> Area {
    popup_spec(input, frame, 22)
}

/// Whether the list and the inspector stand side by side.
pub open spec fn side_by_side(body: Area) -> bool {
    body.width >= 58
}

/// Whether the library's width arithmetic stays within `u16`: the list takes
/// 45% of a wide body, computed as `width * 45` in 16 bits.
pub open spec fn library_fits(input: Area, frame: Area) -> bool {
    let area = library_area(input, frame);
    &&& popup_fits(input)
    &&& drawable(area) && side_by_side(body_spec(area)) ==> body_spec(area).width * 45 <= u16::MAX
}

/// Whether the filtered indices of the rows the library shows name entries
/// (the highlighted row is among them).
pub open spec fn library_rows_valid(input: Area, frame: Area, picker: ModelPicker) -> bool {
    let area = library_area(input, frame);
    let n = picker.filtered.len() as nat;
    drawable(area) && n > 0 ==> {
        let sel = clamp_selected(picker.selected as nat, n);
        let (list, _) = library_panes(body_spec(area));
        let visible = visible_rows(list.height as nat);
        let start = first_row(sel, visible);
        picker.rows_valid(start, min_nat(visible, sub0(n as int, start as int)))
    }
}

pub open spec fn hint_library() -> Seq<char> {
    "\u{2191}\u{2193} select \u{b7} Enter use \u{b7} Ctrl+O default \u{b7} Ctrl+N favorite"@
}

pub open spec fn library_subtitle(n: nat, selected: nat, filter: Seq<char>) -> Seq<char> {
    decimal(n) + " models   \u{b7}   "@ + decimal(
        if n == 0 {
            0
        } else {
            selected + 1
        },
    ) + " / "@ + decimal(n) + "   \u{b7}   "@ + if filter.len() == 0 {
        "Type to filter"@
    } else {
        filter
    }
}

/// The width of the list beside the inspector.
pub open spec fn list_width(body: Area) -> nat {
    min_nat((body.width * 45 / 100) as nat, sub0(body.width as int, 32))
}

/// The list area and the inspector area, side by side or stacked.
pub open spec fn library_panes(body: Area) -> (Area, Area) {
    if side_by_side(body) {
        let left = list_width(body);
        (
            rect_spec(body.x, body.y, left as u16, body.height),
            rect_spec(
                (body.x + left + 2) as u16,
                body.y,
                sub0(body.width as int, (left + 3) as int) as u16,
                body.height,
            ),
        )
    } else {
        let h = min_nat(body.height as nat, 3);
        (
            rect_spec(body.x, body.y, body.width, h as u16),
            rect_spec(
                (body.x + 1) as u16,
                (body.y + h + 1) as u16,
                sub0(body.width as int, 2) as u16,
                sub0(body.height as int, (h + 1) as int) as u16,
            ),
        )
    }
}

/// The line between the panes: a column of `│` beside the list, or a rule
/// below a stacked list.
pub open spec fn divider_paints(body: Area) -> Seq<(Area, Seq<char>, Tone)> {
    if side_by_side(body) {
        let left = list_width(body);
        Seq::new(
            body.height as nat,
            |i: int|
                text_spec(
                    rect_spec((body.x + left) as u16, (body.y + i) as u16, 1, 1),
                    "\u{2502}"@,
                    Tone::Border,
                ),
        )
    } else {
        let h = min_nat(body.height as nat, 3);
        seq![rule_spec(rect_spec(body.x, (body.y + h) as u16, body.width, 1))]
    }
}

/// One model row: a marker (the highlight, else the current model), the
/// model's display name and a tag (default, else favourite).
pub open spec fn model_line(entry: ModelEntry, active: bool) -> Seq<char> {
    (if active {
        "\u{203a}"@
    } else if entry.is_current {
        "\u{25cf}"@
    } else {
        " "@
    }) + " "@ + entry.label@ + if entry.is_default {
        "  default"@
    } else if entry.is_favorite {
        "  \u{2605}"@
    } else {
        Seq::empty()
    }
}

/// The lines of the first `k` rows shown of the model list.
pub open spec fn model_rows(
    list: Area,
    picker: ModelPicker,
    selected: nat,
    start: nat,
    k: nat,
) -> Seq<(Area, Seq<char>, Tone)>
    decreases k,
{
    if k == 0 {
        Seq::empty()
    } else {
        let row = (k - 1) as nat;
        let entry = picker.entries@[picker.filtered@[(start + row) as int] as int];
        let active = start + row == selected;
        model_rows(list, picker, selected, start, row) + row_paints(
            list,
            row,
            model_line(entry, active),
            row_tone(active),
        )
    }
}

/// Whether an inspector row survives compaction: not the route row and not a
/// section heading.
pub open spec fn kept_detail(rows: Seq<Seq<char>>, i: int) -> bool {
    i != 1 && !(rows[i].len() > 0 && rows[i][0] == '\u{2500}')
}

/// The rows of `rows` among the first `k` that survive compaction.
pub open spec fn compact_upto(rows: Seq<Seq<char>>, k: nat) -> Seq<Seq<char>>
    decreases k,
{
    if k == 0 {
        Seq::empty()
    } else {
        compact_upto(rows, (k - 1) as nat) + if kept_detail(rows, k - 1) {
            seq![rows[k - 1]]
        } else {
            Seq::empty()
        }
    }
}

/// The inspector rows that are shown: all of them when they fit, otherwise
/// without the route row and the section headings.
pub open spec fn shown_details(rows: Seq<Seq<char>>, height: nat) -> Seq<Seq<char>> {
    if rows.len() > height {
        compact_upto(rows, rows.len())
    } else {
        rows
    }
}

pub open spec fn detail_tone(row: int, value: Seq<char>) -> Tone {
    if row == 0 {
        Tone::AccentBold
    } else if value.len() > 0 && value[0] == '\u{2500}' {
        Tone::Accent
    } else {
        Tone::Text
    }
}

/// The inspector's lines: as many rows as fit, one per line.
pub open spec fn detail_paints(inspector: Area, rows: Seq<Seq<char>>) -> Seq<(Area, Seq<char>, Tone)> {
    let shown = shown_details(rows, inspector.height as nat);
    Seq::new(
        min_nat(shown.len(), inspector.height as nat),
        |i: int|
            text_spec(
                rect_spec(inspector.x, (inspector.y + i) as u16, inspector.width, 1),
                shown[i],
                detail_tone(i, shown[i]),
            ),
    )
}

/// The model library: nothing when the popup has no room; a note when no model
/// matches; otherwise the list around the highlight and the inspector of the
/// highlighted entry.
pub open spec fn models_spec(input: Area, frame: Area, picker: ModelPicker, catalog: Seq<CatalogModel>) -> Option<
    ((Area, Seq<char>, Seq<char>, Area), Seq<(Area, Seq<char>, Tone)>),
> {
    let area = library_area(input, frame);
    if !drawable(area) {
        None
    } else {
        let n = picker.filtered.len() as nat;
        let sel = clamp_selected(picker.selected as nat, n);
        let body = body_spec(area);
        let head = shell_paints_spec(area, library_subtitle(n, sel, picker.filter@));
        let framing = frame_spec(area, "MODEL LIBRARY"@, hint_library());
        if n == 0 {
            Some(
                (
                    framing,
                    head.push(
                        text_spec(body, "  No models match. Try another search."@, Tone::Muted),
                    ),
                ),
            )
        } else {
            let (list, inspector) = library_panes(body);
            let visible = visible_rows(list.height as nat);
            let start = first_row(sel, visible);
            let entry = picker.entries@[picker.filtered@[sel as int] as int];
            Some(
                (
                    framing,
                    head + divider_paints(body) + model_rows(
                        list,
                        picker,
                        sel,
                        start,
                        min_nat(visible, sub0(n as int, start as int)),
                    ) + detail_paints(inspector, details_spec(entry, catalog)),
                ),
            )
        }
    }
}

fn model_row(entry: &ModelEntry, active: bool) -> (line: String)
    ensures
        line@ == model_line(*entry, active),
{
    let mut line = if active {
        "\u{203a}".to_owned()
    } else if entry.is_current {
        "\u{25cf}".to_owned()
    } else {
        " ".to_owned()
    };
    line.append(" ");
    line.append(entry.label.as_str());
    if entry.is_default {
        line.append("  default");
    } else if entry.is_favorite {
        line.append("  \u{2605}");
    }
    line
}

fn starts_with_rule(s: &String) -> (r: bool)
    ensures
        r == (s@.len() > 0 && s@[0] == '\u{2500}'),
{
    let cs = crate::text::chars_of(s.as_str());
    cs.len() > 0 && cs[0] == '\u{2500}'
}

fn compact(rows: Vec<String>) -> (out: Vec<String>)
    ensures
        rows_view(out@) == compact_upto(rows_view(rows@), rows@.len()),
{
    let ghost rv = rows_view(rows@);
    let mut out: Vec<String> = Vec::new();
    let mut i: usize = 0;
    while i < rows.len()
        invariant
            rv == rows_view(rows@),
            i <= rows.len(),
            rows_view(out@) == compact_upto(rv, i as nat),
        decreases rows.len() - i,
    {
        assert(rv[i as int] == rows@[i as int]@);
        if i != 1 && !starts_with_rule(&rows[i]) {
            out.push(rows[i].clone());
        }
        assert(rows_view(out@) =~= compact_upto(rv, (i + 1) as nat));
        i = i + 1;
    }
    out
}

fn push_divider(paints: &mut Vec<Paint>, body: Area) -> (panes: (Area, Area))
    requires
        body.wf(),
        body.y + body.height < u16::MAX,
        body.x + body.width + 2 <= u16::MAX,
        side_by_side(body) ==> body.width * 45 <= u16::MAX,
    ensures
        paints_view(final(paints)@) == paints_view(old(paints)@) + divider_paints(body),
        panes == library_panes(body),
        panes.0.wf(),
        panes.0.x < u16::MAX,
        panes.0.y + panes.0.height < u16::MAX,
        panes.1.wf(),
        body.height >= 1 ==> panes.0.height >= 1,
{
    let ghost head = paints_view(paints@);
    if body.width >= 58 {
        let left: u16 = (body.width * 45 / 100).min(body.width.saturating_sub(32));
        let stop = bottom(body);
        let mut y: u16 = body.y;
        while y < stop
            invariant
                body.wf(),
                side_by_side(body),
                left == list_width(body),
                stop == body.y + body.height,
                body.y <= y <= stop,
                left < body.width,
                body.x + body.width + 2 <= u16::MAX,
                paints_view(paints@) == head + divider_paints(body).take((y - body.y) as int),
            decreases stop - y,
        {
            let ghost before = paints_view(paints@);
            let p = text(rect(body.x + left, y, 1, 1), "\u{2502}", Tone::Border);
            assert(p@ == divider_paints(body)[(y - body.y) as int]);
            paints.push(p);
            assert(paints_view(paints@) =~= before.push(p@));
            assert(divider_paints(body).take((y + 1 - body.y) as int) =~= divider_paints(body).take(
                (y - body.y) as int,
            ).push(divider_paints(body)[(y - body.y) as int]));
            y = y + 1;
        }
        assert(divider_paints(body).take(body.height as int) =~= divider_paints(body));
        (
            rect(body.x, body.y, left, body.height),
            rect(body.x + left + 2, body.y, body.width.saturating_sub(left + 3), body.height),
        )
    } else {
        let h: u16 = body.height.min(3);
        paints.push(rule(rect(body.x, body.y + h, body.width, 1)));
        assert(paints_view(paints@) =~= head + divider_paints(body));
        (
            rect(body.x, body.y, body.width, h),
            rect(body.x + 1, body.y + h + 1, body.width.saturating_sub(2), body.height.saturating_sub(h + 1)),
        )
    }
}

fn push_model_rows(
    paints: &mut Vec<Paint>,
    list: Area,
    picker: &ModelPicker,
    sel: usize,
    start: usize,
    visible: usize,
)
    requires
        picker.rows_valid(
            start as nat,
            min_nat(visible as nat, sub0(picker.filtered.len() as int, start as int)),
        ),
        sel < picker.filtered.len(),
        list.wf(),
        list.x < u16::MAX,
        list.y + list.height < u16::MAX,
        visible == visible_rows(list.height as nat),
        start <= sel,
    ensures
        paints_view(final(paints)@) == paints_view(old(paints)@) + model_rows(
            list,
            *picker,
            sel as nat,
            start as nat,
            min_nat(visible as nat, sub0(picker.filtered.len() as int, start as int)),
        ),
{
    let ghost head = paints_view(paints@);
    let n = picker.filtered.len();
    let mut row: usize = 0;
    while row < visible && start + row < n
        invariant
            picker.rows_valid(start as nat, min_nat(visible as nat, sub0(n as int, start as int))),
            n == picker.filtered.len(),
            sel < n,
            list.wf(),
            list.x < u16::MAX,
            list.y + list.height < u16::MAX,
            visible == visible_rows(list.height as nat),
            start <= sel,
            row <= visible,
            start + row <= n,
            paints_view(paints@) == head + model_rows(list, *picker, sel as nat, start as nat, row as nat),
        decreases visible - row,
    {
        let e = &picker.entries[picker.filtered[start + row]];
        let active = start + row == sel;
        let line = model_row(e, active);
        row_line(paints, list, row, line.as_str(), if active {
            Tone::SelectedRow
        } else {
            Tone::Row
        });
        row = row + 1;
    }
}

fn push_details(paints: &mut Vec<Paint>, inspector: Area, rows: Vec<String>)
    requires
        inspector.wf(),
    ensures
        paints_view(final(paints)@) == paints_view(old(paints)@) + detail_paints(inspector, rows_view(rows@)),
{
    let ghost head = paints_view(paints@);
    let ghost all_rows = rows_view(rows@);
    let ghost expected = detail_paints(inspector, all_rows);
    let shown = if rows.len() > inspector.height as usize {
        compact(rows)
    } else {
        rows
    };
    assert(rows_view(shown@) == shown_details(all_rows, inspector.height as nat));
    let count: usize = if shown.len() < inspector.height as usize {
        shown.len()
    } else {
        inspector.height as usize
    };
    let mut i: usize = 0;
    while i < count
        invariant
            rows_view(shown@) == shown_details(all_rows, inspector.height as nat),
            expected == detail_paints(inspector, all_rows),
            expected.len() == count,
            count <= shown@.len(),
            count <= inspector.height,
            inspector.wf(),
            i <= count,
            paints_view(paints@) == head + expected.take(i as int),
        decreases count - i,
    {
        let value = &shown[i];
        assert(rows_view(shown@)[i as int] == value@);
        let tone = if i == 0 {
            Tone::AccentBold
        } else if starts_with_rule(value) {
            Tone::Accent
        } else {
            Tone::Text
        };
        let y: u16 = inspector.y + i as u16;
        let ghost before = paints_view(paints@);
        let p = text(rect(inspector.x, y, inspector.width, 1), value.as_str(), tone);
        assert(expected[i as int] == p@);
        paints.push(p);
        assert(paints_view(paints@) =~= before.push(p@));
        assert(expected.take(i + 1) =~= expected.take(i as int).push(expected[i as int]));
        i = i + 1;
    }
    assert(expected.take(count as int) =~= expected);
}

/// Lays out the model library above the input box: the filtered models around
/// the highlight and an inspector of the highlighted route's catalog details.
pub fn models(input: Area, frame: Area, picker: &ModelPicker, catalog: &Vec<CatalogModel>) -> (plan:
    Option<MenuPlan>)
    requires
        library_fits(input, frame),
        library_rows_valid(input, frame, *picker),
    ensures
        plan_view(plan) == models_spec(input, frame, *picker, catalog@),
{
    let area = popup(input, frame, 22);
    proof {
        lemma_popup_area(input, frame, 22);
    }
    if area.height < 5 || area.width < 8 {
        return None;
    }
    let n = picker.filtered.len();
    let sel: usize = picker.selected.min(n.saturating_sub(1));
    let mut subtitle = decimal_string(n as u64);
    subtitle.append(" models   \u{b7}   ");
    let position: u64 = if n == 0 {
        0
    } else {
        sel as u64 + 1
    };
    subtitle.append(decimal_string(position).as_str());
    subtitle.append(" / ");
    subtitle.append(decimal_string(n as u64).as_str());
    subtitle.append("   \u{b7}   ");
    if picker.filter.as_str().is_empty() {
        subtitle.append("Type to filter");
    } else {
        subtitle.append(picker.filter.as_str());
    }
    let (frame_out, mut paints, body) = shell(
        area,
        "MODEL LIBRARY",
        "\u{2191}\u{2193} select \u{b7} Enter use \u{b7} Ctrl+O default \u{b7} Ctrl+N favorite",
        subtitle.as_str(),
    );
    if n == 0 {
        paints.push(text(body, "  No models match. Try another search.", Tone::Muted));
        return Some(MenuPlan { frame: frame_out, paints });
    }
    let (list, inspector) = push_divider(&mut paints, body);
    let visible: usize = ((list.height as usize) + 1) / 2;
    let start: usize = sel.saturating_sub(visible.saturating_sub(1));
    proof {
        law_selection_is_shown(picker.selected as nat, n as nat, list.height as nat);
    }
    let entry = &picker.entries[picker.filtered[sel]];
    push_model_rows(&mut paints, list, picker, sel, start, visible);
    let rows = details(entry, catalog);
    push_details(&mut paints, inspector, rows);
    Some(MenuPlan { frame: frame_out, paints })
}

/// The list always scrolls to the selection: when there is a row to show, the
/// (clamped) selection is among the rows shown.
pub proof fn law_selection_is_shown(selected: nat, n: nat, height: nat)
    requires
        n > 0,
        height > 0,
    ensures
        ({
            let sel = clamp_selected(selected, n);
            let visible = visible_rows(height);
            let start = first_row(sel, visible);
            &&& sel < n
            &&& start <= sel
            &&& sel < start + min_nat(visible, sub0(n as int, start as int))
        }),
{
}

/// The list and the inspector lie within the body without overlapping (an
/// inspector squeezed out of a very small body has no cells): side
/// by side, the inspector starts two cells right of the list (the divider
/// between them); stacked, it starts two rows below the list (the rule
/// between them).
pub proof fn law_panes_split_the_body(body: Area)
    requires
        body.wf(),
        body.x + body.width + 2 <= u16::MAX,
        body.y + body.height < u16::MAX,
        side_by_side(body) ==> body.width * 45 <= u16::MAX,
    ensures
        ({
            let (list, inspector) = library_panes(body);
            &&& list.x == body.x && list.y == body.y
            &&& inspector.width > 0 ==> inspector.x + inspector.width <= body.x + body.width
            &&& inspector.height > 0 ==> inspector.y + inspector.height <= body.y + body.height
            &&& if side_by_side(body) {
                &&& list.height == body.height
                &&& inspector.x == list.x + list.width + 2
                &&& list.width + 2 <= body.width
            } else {
                &&& list.width == body.width
                &&& list.height <= 3
                &&& inspector.y == list.y + list.height + 1
            }
        }),
{
    let (list, inspector) = library_panes(body);
    if side_by_side(body) {
        let left = list_width(body);
        assert(left <= body.width - 32);
        assert(list == rect_spec(body.x, body.y, left as u16, body.height));
        assert(list.width == left);
        assert(inspector.x == body.x + left + 2);
        assert(inspector.width == body.width - left - 3);
    } else {
        let h = min_nat(body.height as nat, 3);
        assert(list.height == h);
        assert(inspector.y == body.y + h + 1);
    }
}

/// Whether a popup can be placed above `input` (see [`popup_fits`]).
pub fn popup_in_range(input: Area) -> (r: bool)
    ensures
        r == popup_fits(input),
{
    input.width < 80 || input.x < u16::MAX
}

/// Whether the model library can be laid out above `input` (see
/// [`library_fits`]).
pub fn library_in_range(input: Area, frame: Area) -> (r: bool)
    ensures
        r == library_fits(input, frame),
{
    if !popup_in_range(input) {
        return false;
    }
    let area = popup(input, frame, 22);
    proof {
        lemma_popup_area(input, frame, 22);
    }
    if area.height < 5 || area.width < 8 {
        return true;
    }
    let inner = block_inner(area);
    let body = rect(
        inner.x + 1,
        inner.y.saturating_add(2),
        inner.width.saturating_sub(2),
        inner.height.saturating_sub(2),
    );
    body.width < 58 || body.width <= 1456
}

/// Whether the rows the library would show name entries of the picker (see
/// [`library_rows_valid`]).
#[verifier::loop_isolation(false)]
pub fn library_rows_in_range(input: Area, frame: Area, picker: &ModelPicker) -> (r: bool)
    requires
        library_fits(input, frame),
    ensures
        r == library_rows_valid(input, frame, *picker),
{
    let area = popup(input, frame, 22);
    proof {
        lemma_popup_area(input, frame, 22);
    }
    let n = picker.filtered.len();
    if area.height < 5 || area.width < 8 || n == 0 {
        return true;
    }
    let inner = block_inner(area);
    let body = rect(
        inner.x + 1,
        inner.y.saturating_add(2),
        inner.width.saturating_sub(2),
        inner.height.saturating_sub(2),
    );
    let list_height: u16 = if body.width >= 58 {
        body.height
    } else {
        body.height.min(3)
    };
    assert(list_height == library_panes(body).0.height);
    let sel: usize = picker.selected.min(n - 1);
    let visible: usize = ((list_height as usize) + 1) / 2;
    let start: usize = sel.saturating_sub(visible.saturating_sub(1));
    let end: usize = if visible < n - start {
        start + visible
    } else {
        n
    };
    let mut i: usize = start;
    while i < end
        invariant
            start <= i <= end <= n,
            n == picker.filtered.len(),
            forall|j: int| start <= j < i ==> #[trigger] picker.filtered@[j] < picker.entries.len(),
        decreases end - i,
    {
        if picker.filtered[i] >= picker.entries.len() {
            assert(picker.filtered@[i as int] >= picker.entries.len());
            return false;
        }
        i = i + 1;
    }
    true
}


/// The palette counts every match: whenever it is drawn, its first line is
/// the muted subtitle `Find an action   ·   N matches`, N being the number of
/// suggestions however few rows fit, cut to the subtitle's area.
pub proof fn law_palette_counts_all_matches(
    input: Area,
    frame: Area,
    suggestions: Seq<(Seq<char>, Seq<char>)>,
    selected: nat,
)
    ensures
        commands_spec(input, frame, suggestions, selected) matches Some((_, paints)) ==> {
            &&& paints.len() >= 1
            &&& paints[0].1 == fit_spec(
                "Find an action   \u{b7}   "@ + decimal(suggestions.len()) + " matches"@,
                paints[0].0.width as nat,
            )
            &&& paints[0].2 == Tone::Muted
        },
{
    if let Some((f, paints)) = commands_spec(input, frame, suggestions, selected) {
        let n = suggestions.len();
        let area = popup_spec(input, frame, commands_height(n));
        let sel = clamp_selected(selected, n);
        let body = body_spec(area);
        let start = first_row(sel, visible_rows(body.height as nat));
        let head = shell_paints_spec(area, commands_subtitle(n));
        let rows = command_rows(body, suggestions, sel, start, commands_shown(body, n, selected));
        assert(paints == head + rows);
        assert(head.len() >= 1);
        assert(head[0].1 == fit_spec(commands_subtitle(n), head[0].0.width as nat));
        assert((head + rows)[0] == head[0]);
    }
}

/// A model row shows the model's display name after a two-character marker
/// (`›` on the highlight, else `●` on the current model, then a space), and
/// ends with `  default` exactly for the default model and with `  ★` for a
/// favourite that is not the default; whether the model is current or
/// highlighted changes only the marker, never the tag.
pub proof fn law_model_row_tags(entry: ModelEntry, active: bool)
    ensures
        ({
            let line = model_line(entry, active);
            let label = entry.label@;
            let tag = line.skip(2int + label.len());
            &&& line.len() >= 2int + label.len()
            &&& line[0] == (if active {
                '\u{203a}'
            } else if entry.is_current {
                '\u{25cf}'
            } else {
                ' '
            })
            &&& line[1] == ' '
            &&& line.subrange(2, 2int + label.len()) == label
            &&& entry.is_default ==> tag == "  default"@
            &&& !entry.is_default && entry.is_favorite ==> tag == "  \u{2605}"@
            &&& !entry.is_default && !entry.is_favorite ==> tag.len() == 0
        }),
        forall|other: ModelEntry, other_active: bool|
            other.label == entry.label && other.is_default == entry.is_default && other.is_favorite
                == entry.is_favorite ==> #[trigger] model_line(other, other_active).skip(
                2int + entry.label@.len(),
            ) == model_line(entry, active).skip(2int + entry.label@.len()),
{
    reveal_strlit("\u{203a}");
    reveal_strlit("\u{25cf}");
    reveal_strlit(" ");
    let marker = if active {
        "\u{203a}"@
    } else if entry.is_current {
        "\u{25cf}"@
    } else {
        " "@
    };
    let tag = if entry.is_default {
        "  default"@
    } else if entry.is_favorite {
        "  \u{2605}"@
    } else {
        Seq::<char>::empty()
    };
    let line = model_line(entry, active);
    assert(line == marker + " "@ + entry.label@ + tag);
    assert(line.skip(2int + entry.label@.len()) =~= tag);
    assert(line.subrange(2, 2int + entry.label@.len()) =~= entry.label@);
    assert forall|other: ModelEntry, other_active: bool|
        other.label == entry.label && other.is_default == entry.is_default && other.is_favorite
            == entry.is_favorite implies #[trigger] model_line(other, other_active).skip(
        2int + entry.label@.len(),
    ) == model_line(entry, active).skip(2int + entry.label@.len()) by {
        let m2 = if other_active {
            "\u{203a}"@
        } else if other.is_current {
            "\u{25cf}"@
        } else {
            " "@
        };
        assert(model_line(other, other_active) == m2 + " "@ + entry.label@ + tag);
        assert(model_line(other, other_active).skip(2int + entry.label@.len()) =~= tag);
    }
}


/// A palette row: `›` marks the selected suggestion and a space every other
/// one, then a space, the command cut to its column, padding, ` │ ` and the
/// suggestion's own description at the end.
pub proof fn law_palette_row(command: Seq<char>, description: Seq<char>, active: bool, width: nat)
    ensures
        ({
            let line = command_line(command, description, active, width);
            let cmd = fit_spec(command, width);
            let tail = " \u{2502} "@ + description;
            &&& line.len() >= 2 + cmd.len() + tail.len()
            &&& line[0] == (if active {
                '\u{203a}'
            } else {
                ' '
            })
            &&& line[1] == ' '
            &&& line.subrange(2, 2int + cmd.len()) == cmd
            &&& line.skip(line.len() - tail.len()) == tail
        }),
{
    reveal_strlit("\u{203a}");
    reveal_strlit(" ");
    let cmd = fit_spec(command, width);
    let pad = Seq::new(sub0(width as int, text_cells(cmd) as int), |_i: int| ' ');
    let tail = " \u{2502} "@ + description;
    let marker = if active {
        "\u{203a}"@
    } else {
        " "@
    };
    let line = command_line(command, description, active, width);
    assert(line =~= marker + " "@ + cmd + pad + tail);
    assert(line.subrange(2, 2int + cmd.len()) =~= cmd);
    assert(line.skip(line.len() - tail.len()) =~= tail);
}

/// The library's subtitle counts the matching models and places the
/// highlight among them: `N models   ·   K / N   ·   ` then the filter, or
/// `Type to filter` when there is none, K being the highlighted position
/// counted from one (zero when nothing matches).
pub proof fn law_library_subtitle(input: Area, frame: Area, picker: ModelPicker, catalog: Seq<CatalogModel>)
    ensures
        models_spec(input, frame, picker, catalog) matches Some((_, paints)) ==> {
            let n = picker.filtered.len() as nat;
            let k: nat = if n == 0 {
                0
            } else {
                min_nat(picker.selected as nat, (n - 1) as nat) + 1
            };
            &&& paints.len() >= 1
            &&& paints[0].1 == fit_spec(
                decimal(n) + " models   \u{b7}   "@ + decimal(k) + " / "@ + decimal(n)
                    + "   \u{b7}   "@ + if picker.filter@.len() == 0 {
                    "Type to filter"@
                } else {
                    picker.filter@
                },
                paints[0].0.width as nat,
            )
            &&& paints[0].2 == Tone::Muted
        },
{
    if let Some((f, paints)) = models_spec(input, frame, picker, catalog) {
        let area = library_area(input, frame);
        let n = picker.filtered.len() as nat;
        let sel = clamp_selected(picker.selected as nat, n);
        let head = shell_paints_spec(area, library_subtitle(n, sel, picker.filter@));
        assert(head.len() >= 1);
        assert(paints[0] == head[0]);
    }
}

} // verus!
