//! The two footer lines below the message box: live metrics (context, speed,
//! reasoning effort) and details (catalog prices, session tokens).
//!
//! Which metrics appear, in what order and with which markers is decided
//! here; the numbers inside them arrive already written out.

use vstd::prelude::*;

use crate::geometry::{rect, rect_spec};
use crate::paint::Area;
use crate::text::{eq_ignore_ascii_case, eq_ignore_ascii_case_spec};
use crate::width::{
    fit, fit_spec, law_fit_fits_simple_text, lemma_narrow_simple, lemma_simple_concat, simple_text,
    text_cells, text_width,
};

verus! {

/// What the footer knows of the context window.
#[derive(Debug, Clone, Copy, PartialEq, Eq, Structural)]
pub enum ContextUsage {
    /// Tokens in use out of a known, nonzero limit; `estimated` when the count
    /// is the local estimate rather than the observed one.
    Measured { used: u64, limit: u64, estimated: bool },
    /// Only the (nonzero) limit is known.
    LimitOnly { limit: u64 },
    /// No usable limit.
    Unknown,
}

/// The facts the footer reads about the context window.
#[derive(Debug, Clone, Copy, PartialEq, Eq, Structural)]
pub struct ContextFacts {
    /// The context length of the active catalog model, if the catalog has one.
    pub catalog_context: Option<u64>,
    /// The context limit the session reports.
    pub session_limit: Option<u64>,
    /// Context tokens observed in the latest request.
    pub observed_tokens: Option<u64>,
    /// Whether the local context estimate is stale.
    pub estimate_stale: bool,
    /// The local estimate of context tokens, if there is one.
    pub estimated_tokens: Option<u64>,
}

/// The context limit: the catalog's, else the session's.
pub open spec fn context_limit_spec(f: ContextFacts) -> Option<u64> {
    match f.catalog_context {
        Some(l) => Some(l),
        None => f.session_limit,
    }
}

/// Context tokens in use and whether they are estimated: the observed count,
/// else a fresh local estimate.
pub open spec fn context_used_spec(f: ContextFacts) -> Option<(u64, bool)> {
    match f.observed_tokens {
        Some(v) => Some((v, false)),
        None => if f.estimate_stale {
            None
        } else {
            match f.estimated_tokens {
                Some(v) => Some((v, true)),
                None => None,
            }
        },
    }
}

pub open spec fn context_usage_spec(f: ContextFacts) -> ContextUsage {
    match context_limit_spec(f) {
        Some(limit) if limit > 0 => match context_used_spec(f) {
            Some((used, estimated)) => ContextUsage::Measured { used, limit, estimated },
            None => ContextUsage::LimitOnly { limit },
        },
        _ => ContextUsage::Unknown,
    }
}

/// Decides what the footer can say about the context window.
pub fn context_usage(f: &ContextFacts) -> (u: ContextUsage)
    ensures
        u == context_usage_spec(*f),
{
    let limit = match f.catalog_context {
        Some(l) => Some(l),
        None => f.session_limit,
    };
    let used = match f.observed_tokens {
        Some(v) => Some((v, false)),
        None => if f.estimate_stale {
            None
        } else {
            match f.estimated_tokens {
                Some(v) => Some((v, true)),
                None => None,
            }
        },
    };
    match limit {
        Some(limit) if limit > 0 => match used {
            Some((used, estimated)) => ContextUsage::Measured { used, limit, estimated },
            None => ContextUsage::LimitOnly { limit },
        },
        _ => ContextUsage::Unknown,
    }
}

/// The context metric with its numbers written out.
#[derive(Debug, Clone, PartialEq, Eq)]
pub enum ContextFigures {
    /// `used` of `limit` tokens, `percent` of the window.
    Measured { used: String, limit: String, percent: String, estimated: bool },
    LimitOnly { limit: String },
    Unknown,
}

/// Everything the footer shows, with its numbers written out.
#[derive(Debug, Clone, PartialEq, Eq)]
pub struct FooterFigures {
    pub context: ContextFigures,
    /// The measured output speed, if it is finite and not negative.
    pub speed: Option<String>,
    pub speed_estimated: bool,
    pub reasoning_effort: Option<String>,
    /// Input and output prices per million tokens, when a catalog model is known.
    pub prices: Option<(String, String)>,
    /// Session input and output tokens, when known.
    pub session: Option<(String, String)>,
}

/// The separator between two metrics.
pub open spec fn separator() -> Seq<char> {
    "  \u{b7}  "@
}

/// The marker of an estimated figure.
pub open spec fn estimate_marker(estimated: bool) -> Seq<char> {
    if estimated {
        "~"@
    } else {
        Seq::empty()
    }
}

/// The placeholder of a figure that is not available yet.
pub open spec fn missing() -> Seq<char> {
    "\u{2014}"@
}

pub open spec fn context_text_spec(c: ContextFigures) -> Seq<char> {
    match c {
        ContextFigures::Measured { used, limit, percent, estimated } => estimate_marker(estimated)
            + used@ + " / "@ + limit@ + " ctx ("@ + percent@ + "%)"@,
        ContextFigures::LimitOnly { limit } => missing() + " / "@ + limit@ + " ctx"@,
        ContextFigures::Unknown => "Context "@ + missing(),
    }
}

pub open spec fn speed_text_spec(speed: Option<String>, estimated: bool) -> Seq<char> {
    match speed {
        Some(s) => estimate_marker(estimated) + s@ + " tok/s"@,
        None => missing() + " tok/s"@,
    }
}

/// The live metrics, in order: context, speed, and the reasoning effort when
/// there is one.
pub open spec fn live_parts_spec(f: FooterFigures) -> Seq<Seq<char>> {
    let base = seq![context_text_spec(f.context), speed_text_spec(f.speed, f.speed_estimated)];
    match f.reasoning_effort {
        Some(e) => base.push("Reasoning "@ + e@),
        None => base,
    }
}

/// The details, in order: catalog prices and session tokens, or a placeholder
/// when neither is known.
pub open spec fn detail_parts_spec(f: FooterFigures) -> Seq<Seq<char>> {
    let prices = match f.prices {
        Some((i, o)) => seq![i@ + " in / "@ + o@ + " out per 1M"@],
        None => Seq::empty(),
    };
    let session = match f.session {
        Some((i, o)) => seq!["Session "@ + i@ + " in / "@ + o@ + " out"@],
        None => Seq::empty(),
    };
    if prices.len() + session.len() == 0 {
        seq!["Session tokens "@ + missing()]
    } else {
        prices + session
    }
}

/// Joining metrics left to right: `Open` while more may follow, `Closed` once
/// a first metric alone had to be cut.
pub enum JoinState {
    Open(Seq<char>),
    Closed(Seq<char>),
}

impl JoinState {
    pub open spec fn text(self) -> Seq<char> {
        match self {
            JoinState::Open(t) => t,
            JoinState::Closed(t) => t,
        }
    }
}

/// One step of joining: a metric is added when the line still fits the width;
/// a first metric that does not fit is cut and ends the line; a later one that
/// does not fit is skipped.
pub open spec fn join_step(state: JoinState, part: Seq<char>, width: nat) -> JoinState {
    match state {
        JoinState::Closed(t) => JoinState::Closed(t),
        JoinState::Open(text) => {
            let candidate = if text.len() == 0 {
                part
            } else {
                text + separator() + part
            };
            if text_cells(candidate) <= width {
                JoinState::Open(candidate)
            } else if text.len() == 0 {
                JoinState::Closed(fit_spec(part, width))
            } else {
                JoinState::Open(text)
            }
        },
    }
}

/// The state after joining the first `n` metrics.
pub open spec fn join_upto(parts: Seq<Seq<char>>, width: nat, n: nat) -> JoinState
    decreases n,
{
    if n == 0 {
        JoinState::Open(Seq::empty())
    } else {
        join_step(join_upto(parts, width, (n - 1) as nat), parts[n - 1], width)
    }
}

/// The metrics joined into one line of at most `width` cells.
pub open spec fn join_spec(parts: Seq<Seq<char>>, width: nat) -> Seq<char> {
    join_upto(parts, width, parts.len()).text()
}

/// Once the line is closed it stays as it is.
proof fn lemma_closed_stays(parts: Seq<Seq<char>>, width: nat, k: nat, n: nat, t: Seq<char>)
    requires
        k <= n,
        join_upto(parts, width, k) == JoinState::Closed(t),
    ensures
        join_upto(parts, width, n) == JoinState::Closed(t),
    decreases n - k,
{
    if k < n {
        lemma_closed_stays(parts, width, k, (n - 1) as nat, t);
    }
}

pub open spec fn views(parts: Seq<String>) -> Seq<Seq<char>> {
    parts.map_values(|p: String| p@)
}

/// Joins metrics with separators, keeping the line within `width` cells.
pub fn join_metrics(parts: &Vec<String>, width: usize) -> (out: String)
    ensures
        out@ == join_spec(views(parts@), width as nat),
{
    let ghost ps = views(parts@);
    let mut text = String::new();
    let mut i: usize = 0;
    while i < parts.len()
        invariant
            ps == views(parts@),
            i <= parts.len(),
            join_upto(ps, width as nat, i as nat) == JoinState::Open(text@),
        decreases parts.len() - i,
    {
        let part = &parts[i];
        assert(ps[i as int] == part@);
        let candidate = if text.as_str().is_empty() {
            part.clone()
        } else {
            let mut c = text.clone();
            c.append("  \u{b7}  ");
            c.append(part.as_str());
            c
        };
        if text_width(candidate.as_str()) <= width {
            text = candidate;
        } else if text.as_str().is_empty() {
            let out = fit(part.as_str(), width);
            proof {
                lemma_closed_stays(ps, width as nat, (i + 1) as nat, parts.len() as nat, out@);
            }
            return out;
        }
        i = i + 1;
    }
    text
}

/// Writes out the context metric.
pub fn context_text(c: &ContextFigures) -> (out: String)
    ensures
        out@ == context_text_spec(*c),
{
    match c {
        ContextFigures::Measured { used, limit, percent, estimated } => {
            let mut s = if *estimated {
                "~".to_owned()
            } else {
                String::new()
            };
            s.append(used.as_str());
            s.append(" / ");
            s.append(limit.as_str());
            s.append(" ctx (");
            s.append(percent.as_str());
            s.append("%)");
            s
        },
        ContextFigures::LimitOnly { limit } => {
            let mut s = "\u{2014}".to_owned();
            s.append(" / ");
            s.append(limit.as_str());
            s.append(" ctx");
            s
        },
        ContextFigures::Unknown => {
            let mut s = "Context ".to_owned();
            s.append("\u{2014}");
            s
        },
    }
}

/// The two footer lines, each at most `width` cells wide.
pub fn footer_lines(f: &FooterFigures, width: usize) -> (out: Vec<String>)
    ensures
        out@.len() == 2,
        out@[0]@ == join_spec(live_parts_spec(*f), width as nat),
        out@[1]@ == join_spec(detail_parts_spec(*f), width as nat),
{
    let mut live: Vec<String> = Vec::new();
    live.push(context_text(&f.context));
    let speed = match &f.speed {
        Some(s) => {
            let mut t = if f.speed_estimated {
                "~".to_owned()
            } else {
                String::new()
            };
            t.append(s.as_str());
            t.append(" tok/s");
            t
        },
        None => {
            let mut t = "\u{2014}".to_owned();
            t.append(" tok/s");
            t
        },
    };
    live.push(speed);
    if let Some(e) = &f.reasoning_effort {
        let mut t = "Reasoning ".to_owned();
        t.append(e.as_str());
        live.push(t);
    }
    let mut details: Vec<String> = Vec::new();
    if let Some((i, o)) = &f.prices {
        let mut t = i.clone();
        t.append(" in / ");
        t.append(o.as_str());
        t.append(" out per 1M");
        details.push(t);
    }
    if let Some((i, o)) = &f.session {
        let mut t = "Session ".to_owned();
        t.append(i.as_str());
        t.append(" in / ");
        t.append(o.as_str());
        t.append(" out");
        details.push(t);
    }
    if details.len() == 0 {
        let mut t = "Session tokens ".to_owned();
        t.append("\u{2014}");
        details.push(t);
    }
    assert(views(live@) == live_parts_spec(*f));
    assert(views(details@) == detail_parts_spec(*f));
    let first = join_metrics(&live, width);
    let second = join_metrics(&details, width);
    let mut out: Vec<String> = Vec::new();
    out.push(first);
    out.push(second);
    out
}

/// The state of a line under construction: an open line fits the width (or is
/// still empty); a closed line is a first metric cut to the width.
proof fn lemma_join_state(parts: Seq<Seq<char>>, width: nat, n: nat)
    requires
        n <= parts.len(),
    ensures
        match join_upto(parts, width, n) {
            JoinState::Open(t) => t.len() == 0 || text_cells(t) <= width,
            JoinState::Closed(t) => exists|j: int|
                0 <= j < n && text_cells(#[trigger] parts[j]) > width && t == fit_spec(parts[j], width),
        },
    decreases n,
{
    if n > 0 {
        lemma_join_state(parts, width, (n - 1) as nat);
        let prev = join_upto(parts, width, (n - 1) as nat);
        match prev {
            JoinState::Closed(t) => {
                let j = choose|j: int|
                    0 <= j < n - 1 && text_cells(#[trigger] parts[j]) > width && t == fit_spec(
                        parts[j],
                        width,
                    );
                assert(0 <= j < n && text_cells(parts[j]) > width && t == fit_spec(parts[j], width));
            },
            JoinState::Open(text) => {
                let j = n - 1;
                assert(parts[j] == parts[n - 1]);
            },
        }
    }
}

/// A joined line fits its width: it is empty, or at most `width` cells wide,
/// or a single metric that did not fit, cut by [`fit`] (see
/// `law_fit_bounds`).
pub proof fn law_join_fits(parts: Seq<Seq<char>>, width: nat)
    ensures
        ({
            let out = join_spec(parts, width);
            ||| out.len() == 0
            ||| text_cells(out) <= width
            ||| exists|j: int|
                0 <= j < parts.len() && text_cells(#[trigger] parts[j]) > width && out == fit_spec(
                    parts[j],
                    width,
                )
        }),
{
    lemma_join_state(parts, width, parts.len());
}

/// The live line always leads with the context metric when it fits on its
/// own, and the details line is never empty of metrics.
pub proof fn law_footer_parts(f: FooterFigures)
    ensures
        live_parts_spec(f).len() >= 2,
        live_parts_spec(f)[0] == context_text_spec(f.context),
        live_parts_spec(f)[1] == speed_text_spec(f.speed, f.speed_estimated),
        detail_parts_spec(f).len() >= 1,
        f.prices is None && f.session is None ==> detail_parts_spec(f) == seq![
            "Session tokens "@ + missing(),
        ],
{
}

/// Only the hcap route reads the hcap catalog for the footer.
pub fn reads_hcap_catalog(provider: &str) -> (r: bool)
    ensures
        r == eq_ignore_ascii_case_spec(provider@, "hcap"@),
{
    eq_ignore_ascii_case(provider, "hcap")
}

/// The footer's area: the given area inset by one cell on each side.
pub open spec fn footer_area_spec(area: Area) -> Area {
    rect_spec(
        if area.x < u16::MAX {
            (area.x + 1) as u16
        } else {
            u16::MAX
        },
        area.y,
        if area.width >= 2 {
            (area.width - 2) as u16
        } else {
            0
        },
        area.height,
    )
}

pub fn footer_area(area: Area) -> (a: Area)
    ensures
        a == footer_area_spec(area),
{
    rect(area.x.saturating_add(1), area.y, area.width.saturating_sub(2), area.height)
}

proof fn lemma_join_keeps_first(parts: Seq<Seq<char>>, width: nat, n: nat)
    requires
        1 <= n <= parts.len(),
        parts[0].len() > 0,
        text_cells(parts[0]) <= width,
    ensures
        join_upto(parts, width, n) matches JoinState::Open(t) && t.len() >= parts[0].len() && t.take(
            parts[0].len() as int,
        ) == parts[0],
    decreases n,
{
    if n == 1 {
        assert(join_upto(parts, width, 0) == JoinState::Open(Seq::<char>::empty()));
        assert(parts[0].take(parts[0].len() as int) == parts[0]);
    } else {
        lemma_join_keeps_first(parts, width, (n - 1) as nat);
        let prev = join_upto(parts, width, (n - 1) as nat);
        if let JoinState::Open(t) = prev {
            let c = t + separator() + parts[n - 1];
            assert(c.take(parts[0].len() as int) == t.take(parts[0].len() as int));
        }
    }
}

/// A leading metric that fits on its own is always shown first: narrow
/// terminals drop later metrics, never the first one.
pub proof fn law_join_keeps_leading_metric(parts: Seq<Seq<char>>, width: nat)
    requires
        parts.len() >= 1,
        text_cells(parts[0]) <= width,
    ensures
        join_spec(parts, width).len() >= parts[0].len(),
        join_spec(parts, width).take(parts[0].len() as int) == parts[0],
{
    if parts[0].len() > 0 {
        lemma_join_keeps_first(parts, width, parts.len());
    } else {
        assert(join_spec(parts, width).take(0) == parts[0]);
    }
}


/// Joined metrics fit: when every metric is simple text (narrow or wide
/// characters, CJK included), the joined line is at most `width` cells wide,
/// measured as a whole string.
pub proof fn law_join_fits_simple(parts: Seq<Seq<char>>, width: nat)
    requires
        forall|j: int| 0 <= j < parts.len() ==> simple_text(#[trigger] parts[j]),
    ensures
        text_cells(join_spec(parts, width)) <= width,
{
    lemma_join_state(parts, width, parts.len());
    match join_upto(parts, width, parts.len()) {
        JoinState::Open(t) => {},
        JoinState::Closed(t) => {
            let j = choose|j: int|
                0 <= j < parts.len() && text_cells(#[trigger] parts[j]) > width && t == fit_spec(
                    parts[j],
                    width,
                );
            law_fit_fits_simple_text(parts[j], width);
        },
    }
}

/// The fixed words of the footer are simple text.
proof fn lemma_footer_words_simple()
    ensures
        simple_text(" / "@),
        simple_text(" ctx ("@),
        simple_text("%)"@),
        simple_text(" ctx"@),
        simple_text("Context "@),
        simple_text(" tok/s"@),
        simple_text("~"@),
        simple_text("Reasoning "@),
        simple_text(" in / "@),
        simple_text(" out per 1M"@),
        simple_text("Session "@),
        simple_text(" out"@),
        simple_text("Session tokens "@),
        simple_text(missing()),
{
    reveal_strlit(" / ");
    reveal_strlit(" ctx (");
    reveal_strlit("%)");
    reveal_strlit(" ctx");
    reveal_strlit("Context ");
    reveal_strlit(" tok/s");
    reveal_strlit("~");
    reveal_strlit("Reasoning ");
    reveal_strlit(" in / ");
    reveal_strlit(" out per 1M");
    reveal_strlit("Session ");
    reveal_strlit(" out");
    reveal_strlit("Session tokens ");
    reveal_strlit("\u{2014}");
    lemma_narrow_simple(" / "@);
    lemma_narrow_simple(" ctx ("@);
    lemma_narrow_simple("%)"@);
    lemma_narrow_simple(" ctx"@);
    lemma_narrow_simple("Context "@);
    lemma_narrow_simple(" tok/s"@);
    lemma_narrow_simple("~"@);
    lemma_narrow_simple("Reasoning "@);
    lemma_narrow_simple(" in / "@);
    lemma_narrow_simple(" out per 1M"@);
    lemma_narrow_simple("Session "@);
    lemma_narrow_simple(" out"@);
    lemma_narrow_simple("Session tokens "@);
    lemma_narrow_simple(missing());
}


/// The figures and the reasoning effort are simple text.
pub open spec fn figures_simple(f: FooterFigures) -> bool {
    &&& match f.context {
        ContextFigures::Measured { used, limit, percent, .. } => simple_text(used@) && simple_text(
            limit@,
        ) && simple_text(percent@),
        ContextFigures::LimitOnly { limit } => simple_text(limit@),
        ContextFigures::Unknown => true,
    }
    &&& match f.speed {
        Some(s) => simple_text(s@),
        None => true,
    }
    &&& match f.reasoning_effort {
        Some(e) => simple_text(e@),
        None => true,
    }
    &&& match f.prices {
        Some((i, o)) => simple_text(i@) && simple_text(o@),
        None => true,
    }
    &&& match f.session {
        Some((i, o)) => simple_text(i@) && simple_text(o@),
        None => true,
    }
}

/// Every metric of the footer is simple text when its figures are.
proof fn lemma_footer_parts_simple(f: FooterFigures)
    requires
        figures_simple(f),
    ensures
        forall|j: int|
            0 <= j < live_parts_spec(f).len() ==> simple_text(#[trigger] live_parts_spec(f)[j]),
        forall|j: int|
            0 <= j < detail_parts_spec(f).len() ==> simple_text(#[trigger] detail_parts_spec(f)[j]),
{
    lemma_footer_words_simple();
    assert(simple_text(estimate_marker(f.speed_estimated)));
    match f.context {
        ContextFigures::Measured { used, limit, percent, estimated } => {
            let m = estimate_marker(estimated);
            assert(simple_text(m));
            lemma_simple_concat(m, used@);
            lemma_simple_concat(m + used@, " / "@);
            lemma_simple_concat(m + used@ + " / "@, limit@);
            lemma_simple_concat(m + used@ + " / "@ + limit@, " ctx ("@);
            lemma_simple_concat(m + used@ + " / "@ + limit@ + " ctx ("@, percent@);
            lemma_simple_concat(m + used@ + " / "@ + limit@ + " ctx ("@ + percent@, "%)"@);
        },
        ContextFigures::LimitOnly { limit } => {
            lemma_simple_concat(missing(), " / "@);
            lemma_simple_concat(missing() + " / "@, limit@);
            lemma_simple_concat(missing() + " / "@ + limit@, " ctx"@);
        },
        ContextFigures::Unknown => {
            lemma_simple_concat("Context "@, missing());
        },
    }
    match f.speed {
        Some(sp) => {
            let m = estimate_marker(f.speed_estimated);
            lemma_simple_concat(m, sp@);
            lemma_simple_concat(m + sp@, " tok/s"@);
        },
        None => {
            lemma_simple_concat(missing(), " tok/s"@);
        },
    }
    match f.reasoning_effort {
        Some(e) => {
            lemma_simple_concat("Reasoning "@, e@);
        },
        None => {},
    }
    match f.prices {
        Some((i, o)) => {
            lemma_simple_concat(i@, " in / "@);
            lemma_simple_concat(i@ + " in / "@, o@);
            lemma_simple_concat(i@ + " in / "@ + o@, " out per 1M"@);
        },
        None => {},
    }
    match f.session {
        Some((i, o)) => {
            lemma_simple_concat("Session "@, i@);
            lemma_simple_concat("Session "@ + i@, " in / "@);
            lemma_simple_concat("Session "@ + i@ + " in / "@, o@);
            lemma_simple_concat("Session "@ + i@ + " in / "@ + o@, " out"@);
        },
        None => {},
    }
    lemma_simple_concat("Session tokens "@, missing());
}

/// Narrow terminals keep the footer in the window: when its figures are
/// simple text, each footer line is at most `width` cells wide,
/// optional metrics being dropped rather than overflowing.
pub proof fn law_footer_lines_fit(f: FooterFigures, width: nat)
    requires
        figures_simple(f),
    ensures
        text_cells(join_spec(live_parts_spec(f), width)) <= width,
        text_cells(join_spec(detail_parts_spec(f), width)) <= width,
{
    lemma_footer_parts_simple(f);
    law_join_fits_simple(live_parts_spec(f), width);
    law_join_fits_simple(detail_parts_spec(f), width);
}


/// The details line offers every known figure: the catalog prices when a
/// catalog model is known, the session tokens whenever they are known (with
/// or without prices), prices first; the placeholder `Session tokens —`
/// stands exactly when neither is known.
pub proof fn law_detail_parts(f: FooterFigures)
    ensures
        ({
            let parts = detail_parts_spec(f);
            let placeholder = "Session tokens "@ + "\u{2014}"@;
            &&& f.prices matches Some((i, o)) ==> parts[0] == i@ + " in / "@ + o@ + " out per 1M"@
            &&& f.session matches Some((i, o)) ==> parts.contains(
                "Session "@ + i@ + " in / "@ + o@ + " out"@,
            )
            &&& f.session matches Some((i, o)) ==> parts.last() == "Session "@ + i@ + " in / "@ + o@
                + " out"@
            &&& parts.contains(placeholder) <==> (f.prices is None && f.session is None)
            &&& parts.len() == (if f.prices is Some { 1nat } else { 0 }) + (if f.session is Some {
                1nat
            } else {
                0
            }) + (if f.prices is None && f.session is None {
                1nat
            } else {
                0
            })
        }),
{
    let parts = detail_parts_spec(f);
    let placeholder = "Session tokens "@ + "\u{2014}"@;
    reveal_strlit(" out per 1M");
    reveal_strlit(" out");
    reveal_strlit("\u{2014}");
    assert(missing() == "\u{2014}"@);
    if let Some((i, o)) = f.session {
        let t = "Session "@ + i@ + " in / "@ + o@ + " out"@;
        assert(parts.last() == t);
        assert(parts[parts.len() - 1] == t);
    }
    if f.prices is Some || f.session is Some {
        assert forall|k: int| 0 <= k < parts.len() implies parts[k] != placeholder by {
            assert(parts[k].last() != '\u{2014}');
            assert(placeholder.last() == '\u{2014}');
        }
    } else {
        assert(parts[0] == placeholder);
    }
}


/// The live line offers, in order: the context metric (`~` before an
/// estimated count, `used / limit ctx (percent%)`; `— / limit ctx` when only
/// the limit is known; `Context —` otherwise), the speed (`~` before an
/// estimated rate, then `tok/s`; `— tok/s` before the first measurement), and
/// `Reasoning` with the effort exactly when the effort is known.
pub proof fn law_live_parts(f: FooterFigures)
    ensures
        ({
            let parts = live_parts_spec(f);
            let dash = "\u{2014}"@;
            &&& parts.len() == if f.reasoning_effort is Some { 3nat } else { 2 }
            &&& parts[0] == match f.context {
                ContextFigures::Measured { used, limit, percent, estimated } => (if estimated {
                    "~"@
                } else {
                    Seq::empty()
                }) + used@ + " / "@ + limit@ + " ctx ("@ + percent@ + "%)"@,
                ContextFigures::LimitOnly { limit } => dash + " / "@ + limit@ + " ctx"@,
                ContextFigures::Unknown => "Context "@ + dash,
            }
            &&& parts[1] == match f.speed {
                Some(sp) => (if f.speed_estimated {
                    "~"@
                } else {
                    Seq::empty()
                }) + sp@ + " tok/s"@,
                None => dash + " tok/s"@,
            }
            &&& f.reasoning_effort matches Some(e) ==> parts[2] == "Reasoning "@ + e@
        }),
{
}

} // verus!
