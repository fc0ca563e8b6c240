//! The compact workspace header and the welcome card. Geometry is kept
//! independent of terminal colour support: lines carry colour roles only.

use vstd::prelude::*;

use crate::paint::{Span, Tone, line_view, lines_view};
use crate::text::{
    differ_trimmed, eq_ignore_ascii_case, eq_ignore_ascii_case_spec, repeat_char, same_text,
    starts_with, trim_spec,
};
use crate::width::{
    fit, fit_spec, law_fit_fits_simple_text, lemma_narrow_simple, lemma_simple_concat, narrow_text,
    simple_text, text_cells,
};

verus! {

/// What the header shows, as the host reads it.
#[derive(Debug, Clone)]
pub struct HeaderFacts {
    /// The provider route name.
    pub provider: String,
    /// The model the session reports.
    pub model: String,
    /// The host's display name of the model.
    pub model_label: String,
    /// Whether a turn is being processed.
    pub processing: bool,
    /// The working directory as shown (the home directory written as `~`).
    pub workspace: Option<String>,
    pub git_branch: Option<String>,
    /// Whether the server or the client has an update.
    pub update_available: bool,
    /// The build version the server reports.
    pub server_version: Option<String>,
    /// This client's build version.
    pub client_version: String,
}

/// The header's width: the transcript adds a two-cell inset after the header
/// is prepared.
pub open spec fn header_width(width: u16) -> nat {
    if width >= 2 {
        (width - 2) as nat
    } else {
        0
    }
}

/// The session is still connecting while it reports no real model.
pub open spec fn connecting_spec(model: Seq<char>) -> bool {
    ||| model.len() == 0
    ||| model == "remote"@
    ||| model == "connected"@
    ||| ("connecting"@.len() <= model.len() && model.take("connecting"@.len() as int)
        == "connecting"@)
}

/// The route label: the hcap profile is shown by its host name.
pub open spec fn route_spec(provider: Seq<char>) -> Seq<char> {
    if eq_ignore_ascii_case_spec(provider, "hcap"@) {
        "hcap.ai"@
    } else {
        provider
    }
}

pub open spec fn status_spec(model: Seq<char>, processing: bool) -> Seq<char> {
    if connecting_spec(model) {
        "connecting"@
    } else if processing {
        "working"@
    } else {
        "ready"@
    }
}

pub open spec fn one(text: Seq<char>, tone: Tone) -> Seq<(Seq<char>, Tone)> {
    seq![(text, tone)]
}

pub open spec fn brand_spec(f: HeaderFacts, w: nat) -> Seq<(Seq<char>, Tone)> {
    let name = one(fit_spec("HCLI"@, w), Tone::AccentBold);
    if w >= 28 {
        name + seq![
            ("  /  "@ + fit_spec(route_spec(f.provider@), (w - 24) as nat), Tone::Muted),
            ("  \u{b7}  "@ + status_spec(f.model@, f.processing), Tone::Muted),
        ]
    } else {
        name
    }
}

pub open spec fn rule_len(w: nat) -> nat {
    if w <= 64 {
        w
    } else {
        64
    }
}

pub open spec fn workspace_spec(path: Seq<char>, branch: Option<String>, w: nat) -> Seq<char> {
    match branch {
        Some(b) if w >= 48 => path + "  \u{b7}  "@ + b@,
        _ => path,
    }
}

pub open spec fn header_spec(f: HeaderFacts, width: u16) -> Seq<Seq<(Seq<char>, Tone)>> {
    let w = header_width(width);
    let top = seq![
        brand_spec(f, w),
        one(Seq::new(rule_len(w), |_i: int| '\u{2500}'), Tone::Muted),
        one(fit_spec(f.model_label@, w), Tone::TextBold),
    ];
    let workspace = match f.workspace {
        Some(p) => seq![one(fit_spec(workspace_spec(p@, f.git_branch, w), w), Tone::Muted)],
        None => Seq::empty(),
    };
    let update = if f.update_available {
        seq![one(fit_spec("Update available \u{b7} /update"@, w), Tone::Muted)]
    } else {
        Seq::empty()
    };
    let version = match f.server_version {
        Some(v) if trim_spec(v@) != trim_spec(f.client_version@) => seq![
            one(fit_spec("Server build differs \u{b7} restart to apply changes"@, w), Tone::Warning),
        ],
        _ => Seq::empty(),
    };
    top + workspace + update + version + seq![Seq::empty()]
}

fn span(text: String, tone: Tone) -> (s: Span)
    ensures
        s@ == (text@, tone),
{
    Span { text, tone }
}

fn single(text: String, tone: Tone) -> (line: Vec<Span>)
    ensures
        line_view(line@) == one(text@, tone),
{
    let mut line: Vec<Span> = Vec::new();
    line.push(span(text, tone));
    assert(line_view(line@) =~= one(line@[0].text@, tone));
    line
}

fn connecting(model: &str) -> (r: bool)
    ensures
        r == connecting_spec(model@),
{
    model.is_empty() || same_text(model, "remote") || same_text(model, "connected") || starts_with(
        model,
        "connecting",
    )
}

fn brand(f: &HeaderFacts, w: usize) -> (line: Vec<Span>)
    ensures
        line_view(line@) == brand_spec(*f, w as nat),
{
    let mut line: Vec<Span> = Vec::new();
    line.push(span(fit("HCLI", w), Tone::AccentBold));
    if w >= 28 {
        let route = if eq_ignore_ascii_case(f.provider.as_str(), "hcap") {
            "hcap.ai".to_owned()
        } else {
            f.provider.clone()
        };
        let mut r = "  /  ".to_owned();
        r.append(fit(route.as_str(), w - 24).as_str());
        line.push(span(r, Tone::Muted));
        let status = if connecting(f.model.as_str()) {
            "connecting"
        } else if f.processing {
            "working"
        } else {
            "ready"
        };
        let mut s = "  \u{b7}  ".to_owned();
        s.append(status);
        line.push(span(s, Tone::Muted));
    }
    assert(line_view(line@) =~= brand_spec(*f, w as nat));
    line
}

/// The working directory as the header shows it: a path inside the home
/// directory is written from `~`, any other path as it is. `below_home` is the
/// path relative to the home directory, when it lies there.
pub open spec fn workspace_label_spec(path: Seq<char>, below_home: Option<Seq<char>>) -> Seq<char> {
    match below_home {
        Some(rest) => if rest.len() == 0 {
            "~"@
        } else {
            "~/"@ + rest
        },
        None => path,
    }
}

/// Writes the working directory as the header shows it.
pub fn workspace_label(path: String, below_home: Option<String>) -> (label: String)
    ensures
        label@ == workspace_label_spec(path@, match below_home {
            Some(r) => Some(r@),
            None => None,
        }),
{
    match below_home {
        Some(rest) => {
            if rest.as_str().is_empty() {
                "~".to_owned()
            } else {
                let mut label = "~/".to_owned();
                label.append(rest.as_str());
                label
            }
        },
        None => path,
    }
}

/// The header lines for a terminal `width` cells wide.
pub fn header(f: &HeaderFacts, width: u16) -> (lines: Vec<Vec<Span>>)
    ensures
        lines_view(lines@) == header_spec(*f, width),
{
    let w: usize = width.saturating_sub(2) as usize;
    let mut lines: Vec<Vec<Span>> = Vec::new();
    lines.push(brand(f, w));
    let rule_len: usize = if w <= 64 {
        w
    } else {
        64
    };
    lines.push(single(repeat_char('\u{2500}', rule_len), Tone::Muted));
    lines.push(single(fit(f.model_label.as_str(), w), Tone::TextBold));
    let ghost top = lines@;
    if let Some(path) = &f.workspace {
        let workspace = match &f.git_branch {
            Some(branch) if w >= 48 => {
                let mut t = path.clone();
                t.append("  \u{b7}  ");
                t.append(branch.as_str());
                t
            },
            _ => path.clone(),
        };
        lines.push(single(fit(workspace.as_str(), w), Tone::Muted));
    }
    let ghost with_workspace = lines@;
    if f.update_available {
        lines.push(single(fit("Update available \u{b7} /update", w), Tone::Muted));
    }
    let ghost with_update = lines@;
    if let Some(version) = &f.server_version {
        if differ_trimmed(version.as_str(), f.client_version.as_str()) {
            lines.push(
                single(fit("Server build differs \u{b7} restart to apply changes", w), Tone::Warning),
            );
        }
    }
    let ghost with_version = lines@;
    lines.push(Vec::new());
    assert(lines_view(lines@) =~= header_spec(*f, width)) by {
        assert(line_view(Seq::<Span>::empty()) =~= Seq::<(Seq<char>, Tone)>::empty());
    }
    lines
}

/// Pads `s` with spaces to `n` characters.
pub open spec fn pad_right(s: Seq<char>, n: nat) -> Seq<char> {
    if s.len() < n {
        s + Seq::new((n - s.len()) as nat, |_i: int| ' ')
    } else {
        s
    }
}

pub open spec fn shortcut_spec(command: Seq<char>, label: Seq<char>, w: nat) -> Seq<
    (Seq<char>, Tone),
> {
    if w >= 32 {
        seq![(pad_right(command, 10), Tone::Accent), (fit_spec(label, (w - 10) as nat), Tone::Muted)]
    } else {
        one(fit_spec(command, w), Tone::Accent)
    }
}

pub open spec fn welcome_spec(width: u16) -> Seq<Seq<(Seq<char>, Tone)>> {
    let w = width as nat;
    seq![
        Seq::empty(),
        one(fit_spec("What are we building?"@, w), Tone::TextBold),
        one(fit_spec("Describe a change, ask a question, or explore this project."@, w), Tone::Muted),
        Seq::empty(),
        shortcut_spec("/model"@, "Choose a model"@, w),
        shortcut_spec("/help"@, "Commands & shortcuts"@, w),
        Seq::empty(),
    ]
}

fn shortcut(command: &str, label: &str, w: usize) -> (line: Vec<Span>)
    ensures
        line_view(line@) == shortcut_spec(command@, label@, w as nat),
{
    if w >= 32 {
        let mut padded = command.to_owned();
        let n = command.unicode_len();
        if n < 10 {
            padded.append(repeat_char(' ', 10 - n).as_str());
        }
        let mut line: Vec<Span> = Vec::new();
        line.push(span(padded, Tone::Accent));
        line.push(span(fit(label, w - 10), Tone::Muted));
        assert(line_view(line@) =~= shortcut_spec(command@, label@, w as nat));
        line
    } else {
        single(fit(command, w), Tone::Accent)
    }
}

/// The welcome card for a terminal `width` cells wide.
pub fn welcome(width: u16) -> (lines: Vec<Vec<Span>>)
    ensures
        lines_view(lines@) == welcome_spec(width),
{
    let w = width as usize;
    let mut lines: Vec<Vec<Span>> = Vec::new();
    lines.push(Vec::new());
    lines.push(single(fit("What are we building?", w), Tone::TextBold));
    lines.push(
        single(fit("Describe a change, ask a question, or explore this project.", w), Tone::Muted),
    );
    lines.push(Vec::new());
    lines.push(shortcut("/model", "Choose a model", w));
    lines.push(shortcut("/help", "Commands & shortcuts", w));
    lines.push(Vec::new());
    assert(lines_view(lines@) =~= welcome_spec(width)) by {
        assert(line_view(Seq::<Span>::empty()) =~= Seq::<(Seq<char>, Tone)>::empty());
    }
    lines
}


/// The cells of a line: the widths of its runs, each measured as a string.
pub open spec fn line_cells(line: Seq<(Seq<char>, Tone)>) -> nat
    decreases line.len(),
{
    if line.len() == 0 {
        0
    } else {
        line_cells(line.drop_last()) + text_cells(line.last().0)
    }
}

/// Every line is at most `w` cells wide.
pub open spec fn lines_fit(lines: Seq<Seq<(Seq<char>, Tone)>>, w: nat) -> bool {
    forall|i: int| 0 <= i < lines.len() ==> line_cells(#[trigger] lines[i]) <= w
}

proof fn lemma_lines_fit_concat(a: Seq<Seq<(Seq<char>, Tone)>>, b: Seq<Seq<(Seq<char>, Tone)>>, w: nat)
    requires
        lines_fit(a, w),
        lines_fit(b, w),
    ensures
        lines_fit(a + b, w),
{
    assert forall|i: int| 0 <= i < (a + b).len() implies line_cells(#[trigger] (a + b)[i]) <= w by {
        if i < a.len() {
            assert((a + b)[i] == a[i]);
        } else {
            assert((a + b)[i] == b[i - a.len()]);
        }
    }
}

proof fn lemma_one_cells(text: Seq<char>, tone: Tone)
    ensures
        line_cells(one(text, tone)) == text_cells(text),
{
    let empty = Seq::<(Seq<char>, Tone)>::empty();
    assert(one(text, tone).drop_last() =~= empty);
    assert(line_cells(empty) == 0);
    assert(one(text, tone).last() == (text, tone));
}

proof fn lemma_two_cells(a: (Seq<char>, Tone), b: (Seq<char>, Tone))
    ensures
        line_cells(seq![a, b]) == text_cells(a.0) + text_cells(b.0),
{
    let empty = Seq::<(Seq<char>, Tone)>::empty();
    assert(seq![a, b].drop_last() =~= seq![a]);
    assert(seq![a].drop_last() =~= empty);
    assert(line_cells(empty) == 0);
    assert(line_cells(seq![a]) == text_cells(a.0));
}

proof fn lemma_blank_narrow(n: nat, c: char)
    requires
        c == ' ' || c == '\u{2500}',
    ensures
        narrow_text(Seq::new(n, |_i: int| c)),
{
}

/// The fixed words of the header and the welcome card are narrow text.
proof fn lemma_chrome_words_narrow()
    ensures
        narrow_text("HCLI"@),
        "HCLI"@.len() == 4,
        narrow_text("hcap.ai"@),
        narrow_text("  /  "@),
        "  /  "@.len() == 5,
        narrow_text("  \u{b7}  "@),
        "  \u{b7}  "@.len() == 5,
        narrow_text("connecting"@),
        "connecting"@.len() == 10,
        narrow_text("working"@),
        "working"@.len() == 7,
        narrow_text("ready"@),
        "ready"@.len() == 5,
        narrow_text("Update available \u{b7} /update"@),
        narrow_text("Server build differs \u{b7} restart to apply changes"@),
        narrow_text("What are we building?"@),
        narrow_text("Describe a change, ask a question, or explore this project."@),
        narrow_text("/model"@),
        "/model"@.len() == 6,
        narrow_text("/help"@),
        "/help"@.len() == 5,
        narrow_text("Choose a model"@),
        narrow_text("Commands & shortcuts"@),
{
    reveal_strlit("HCLI");
    reveal_strlit("hcap.ai");
    reveal_strlit("  /  ");
    reveal_strlit("  \u{b7}  ");
    reveal_strlit("connecting");
    reveal_strlit("working");
    reveal_strlit("ready");
    reveal_strlit("Update available \u{b7} /update");
    reveal_strlit("Server build differs \u{b7} restart to apply changes");
    reveal_strlit("What are we building?");
    reveal_strlit("Describe a change, ask a question, or explore this project.");
    reveal_strlit("/model");
    reveal_strlit("/help");
    reveal_strlit("Choose a model");
    reveal_strlit("Commands & shortcuts");
}

proof fn lemma_shortcut_fits(command: Seq<char>, label: Seq<char>, w: nat)
    requires
        narrow_text(command),
        command.len() <= 10,
        narrow_text(label),
    ensures
        line_cells(shortcut_spec(command, label, w)) <= w,
{
    lemma_narrow_simple(command);
    lemma_narrow_simple(label);
    if w >= 32 {
        let padded = pad_right(command, 10);
        let blank = Seq::new((10 - command.len()) as nat, |_i: int| ' ');
        lemma_blank_narrow((10 - command.len()) as nat, ' ');
        lemma_narrow_simple(blank);
        lemma_simple_concat(command, blank);
        assert(text_cells(padded) == 10);
        law_fit_fits_simple_text(label, (w - 10) as nat);
        lemma_two_cells((padded, Tone::Accent), (fit_spec(label, (w - 10) as nat), Tone::Muted));
    } else {
        law_fit_fits_simple_text(command, w);
        lemma_one_cells(fit_spec(command, w), Tone::Accent);
    }
}

/// The welcome card fits any terminal: seven lines, each at most `width`
/// cells wide.
pub proof fn law_welcome_fits(width: u16)
    ensures
        welcome_spec(width).len() == 7,
        lines_fit(welcome_spec(width), width as nat),
{
    let w = width as nat;
    lemma_chrome_words_narrow();
    let empty = Seq::<(Seq<char>, Tone)>::empty();
    assert(line_cells(empty) == 0);
    let a = "What are we building?"@;
    let b = "Describe a change, ask a question, or explore this project."@;
    lemma_narrow_simple(a);
    lemma_narrow_simple(b);
    law_fit_fits_simple_text(a, w);
    law_fit_fits_simple_text(b, w);
    lemma_one_cells(fit_spec(a, w), Tone::TextBold);
    lemma_one_cells(fit_spec(b, w), Tone::Muted);
    lemma_shortcut_fits("/model"@, "Choose a model"@, w);
    lemma_shortcut_fits("/help"@, "Commands & shortcuts"@, w);
    let lines = welcome_spec(width);
    assert forall|i: int| 0 <= i < lines.len() implies line_cells(#[trigger] lines[i]) <= w by {
        if i == 0 || i == 3 || i == 6 {
            assert(lines[i] == empty);
        }
    }
}

proof fn lemma_brand_fits(f: HeaderFacts, w: nat)
    requires
        simple_text(f.provider@),
    ensures
        line_cells(brand_spec(f, w)) <= w,
{
    lemma_chrome_words_narrow();
    lemma_narrow_simple("HCLI"@);
    law_fit_fits_simple_text("HCLI"@, w);
    let name = (fit_spec("HCLI"@, w), Tone::AccentBold);
    if w >= 28 {
        lemma_narrow_simple("hcap.ai"@);
        lemma_narrow_simple("  /  "@);
        lemma_narrow_simple("  \u{b7}  "@);
        lemma_narrow_simple("connecting"@);
        lemma_narrow_simple("working"@);
        lemma_narrow_simple("ready"@);
        let route = route_spec(f.provider@);
        assert(simple_text(route));
        let cut = fit_spec(route, (w - 24) as nat);
        law_fit_fits_simple_text(route, (w - 24) as nat);
        lemma_simple_concat("  /  "@, cut);
        let status = status_spec(f.model@, f.processing);
        assert(simple_text(status) && text_cells(status) <= 10);
        lemma_simple_concat("  \u{b7}  "@, status);
        let second = ("  /  "@ + cut, Tone::Muted);
        let third = ("  \u{b7}  "@ + status, Tone::Muted);
        let line = seq![name, second, third];
        assert(brand_spec(f, w) == line);
        assert(line.drop_last() =~= seq![name, second]);
        lemma_two_cells(name, second);
        assert(fit_spec("HCLI"@, w) == "HCLI"@);
    } else {
        lemma_one_cells(name.0, name.1);
    }
}

/// The header stays within its width: when the provider, the model's display
/// name, the workspace path and the branch are simple text (narrow or wide
/// characters, CJK included), every header line is at most the header's width
/// (the terminal width less the two-cell inset).
pub proof fn law_header_fits(f: HeaderFacts, width: u16)
    requires
        simple_text(f.provider@),
        simple_text(f.model_label@),
        f.workspace matches Some(p) ==> simple_text(p@),
        f.git_branch matches Some(b) ==> simple_text(b@),
    ensures
        lines_fit(header_spec(f, width), header_width(width)),
{
    let w = header_width(width);
    lemma_chrome_words_narrow();
    lemma_brand_fits(f, w);
    let rule = Seq::new(rule_len(w), |_i: int| '\u{2500}');
    lemma_blank_narrow(rule_len(w), '\u{2500}');
    lemma_narrow_simple(rule);
    lemma_one_cells(rule, Tone::Muted);
    law_fit_fits_simple_text(f.model_label@, w);
    lemma_one_cells(fit_spec(f.model_label@, w), Tone::TextBold);
    let top = seq![
        brand_spec(f, w),
        one(rule, Tone::Muted),
        one(fit_spec(f.model_label@, w), Tone::TextBold),
    ];
    assert(lines_fit(top, w)) by {
        assert forall|i: int| 0 <= i < top.len() implies line_cells(#[trigger] top[i]) <= w by {}
    }
    let workspace = match f.workspace {
        Some(p) => seq![one(fit_spec(workspace_spec(p@, f.git_branch, w), w), Tone::Muted)],
        None => Seq::empty(),
    };
    assert(lines_fit(workspace, w)) by {
        if let Some(p) = f.workspace {
            let text = workspace_spec(p@, f.git_branch, w);
            if let Some(b) = f.git_branch {
                if w >= 48 {
                    lemma_narrow_simple("  \u{b7}  "@);
                    lemma_simple_concat(p@, "  \u{b7}  "@);
                    lemma_simple_concat(p@ + "  \u{b7}  "@, b@);
                }
            }
            assert(simple_text(text));
            law_fit_fits_simple_text(text, w);
            lemma_one_cells(fit_spec(text, w), Tone::Muted);
            assert(workspace[0] == one(fit_spec(text, w), Tone::Muted));
        }
    }
    let update_text = "Update available \u{b7} /update"@;
    let update = if f.update_available {
        seq![one(fit_spec(update_text, w), Tone::Muted)]
    } else {
        Seq::empty()
    };
    assert(lines_fit(update, w)) by {
        lemma_narrow_simple(update_text);
        law_fit_fits_simple_text(update_text, w);
        lemma_one_cells(fit_spec(update_text, w), Tone::Muted);
    }
    let version_text = "Server build differs \u{b7} restart to apply changes"@;
    let version = match f.server_version {
        Some(v) if trim_spec(v@) != trim_spec(f.client_version@) => seq![
            one(fit_spec(version_text, w), Tone::Warning),
        ],
        _ => Seq::empty(),
    };
    assert(lines_fit(version, w)) by {
        lemma_narrow_simple(version_text);
        law_fit_fits_simple_text(version_text, w);
        lemma_one_cells(fit_spec(version_text, w), Tone::Warning);
    }
    let last = seq![Seq::<(Seq<char>, Tone)>::empty()];
    assert(lines_fit(last, w)) by {
        assert(line_cells(last[0]) == 0);
    }
    lemma_lines_fit_concat(top, workspace, w);
    lemma_lines_fit_concat(top + workspace, update, w);
    lemma_lines_fit_concat(top + workspace + update, version, w);
    lemma_lines_fit_concat(top + workspace + update + version, last, w);
    assert(header_spec(f, width) == top + workspace + update + version + last);
}


/// Each welcome command is shown with its own label: on a terminal at least
/// 32 cells wide the fifth and sixth lines are `/model` padded to ten cells
/// beside `Choose a model`, and `/help` padded beside `Commands & shortcuts`,
/// each label cut to the remaining width; on a narrower one they are the
/// commands alone, cut to the width. Around them stand the question and the
/// invitation, with blank first, fourth and last lines.
pub proof fn law_welcome_shortcuts(width: u16)
    ensures
        ({
            let lines = welcome_spec(width);
            let w = width as nat;
            &&& w >= 32 ==> lines[4] == seq![
                (pad_right("/model"@, 10), Tone::Accent),
                (fit_spec("Choose a model"@, (w - 10) as nat), Tone::Muted),
            ]
            &&& w >= 32 ==> lines[5] == seq![
                (pad_right("/help"@, 10), Tone::Accent),
                (fit_spec("Commands & shortcuts"@, (w - 10) as nat), Tone::Muted),
            ]
            &&& w < 32 ==> lines[4] == seq![(fit_spec("/model"@, w), Tone::Accent)]
            &&& w < 32 ==> lines[5] == seq![(fit_spec("/help"@, w), Tone::Accent)]
            &&& lines.len() == 7
            &&& lines[0].len() == 0 && lines[3].len() == 0 && lines[6].len() == 0
            &&& lines[1] == seq![(fit_spec("What are we building?"@, w), Tone::TextBold)]
            &&& lines[2] == seq![
                (
                    fit_spec("Describe a change, ask a question, or explore this project."@, w),
                    Tone::Muted,
                ),
            ]
        }),
{
}


/// The header's lines: the brand line first (`HCLI`, and on a header at least
/// 28 cells wide the route, written `hcap.ai` for the hcap profile, and the
/// session's status: `connecting` until a real model is reported, then
/// `working` or `ready`), the rule, the model; the workspace when there is
/// one; the update notice exactly when an update is available; the restart
/// notice exactly when the server's build differs; and a blank line last.
pub proof fn law_header_lines(f: HeaderFacts, width: u16)
    ensures
        ({
            let lines = header_spec(f, width);
            let w = header_width(width);
            let ws: nat = if f.workspace is Some { 1 } else { 0 };
            let up: nat = if f.update_available { 1 } else { 0 };
            let differs = f.server_version matches Some(v) && trim_spec(v@) != trim_spec(f.client_version@);
            let ver: nat = if differs { 1 } else { 0 };
            let route = if eq_ignore_ascii_case_spec(f.provider@, "hcap"@) {
                "hcap.ai"@
            } else {
                f.provider@
            };
            let status = if connecting_spec(f.model@) {
                "connecting"@
            } else if f.processing {
                "working"@
            } else {
                "ready"@
            };
            &&& lines.len() == 4 + ws + up + ver
            &&& lines[0][0] == (fit_spec("HCLI"@, w), Tone::AccentBold)
            &&& w >= 28 ==> lines[0] == seq![
                (fit_spec("HCLI"@, w), Tone::AccentBold),
                ("  /  "@ + fit_spec(route, (w - 24) as nat), Tone::Muted),
                ("  \u{b7}  "@ + status, Tone::Muted),
            ]
            &&& w < 28 ==> lines[0].len() == 1
            &&& lines[2] == seq![(fit_spec(f.model_label@, w), Tone::TextBold)]
            &&& f.update_available ==> lines[3int + ws] == seq![
                (fit_spec("Update available \u{b7} /update"@, w), Tone::Muted),
            ]
            &&& differs ==> lines[3int + ws + up] == seq![
                (fit_spec("Server build differs \u{b7} restart to apply changes"@, w), Tone::Warning),
            ]
            &&& lines[lines.len() - 1].len() == 0
        }),
{
}

} // verus!
