//! The model library's inspector rows: what the catalog says of the
//! highlighted model route.

use vstd::prelude::*;

use crate::number::{number, number_spec};
use crate::text::{chars_of, eq_ignore_ascii_case, eq_ignore_ascii_case_spec, same_text, starts_with, string_of};

verus! {

/// A provider route of a model.
#[derive(Debug, Clone)]
pub struct Route {
    pub provider: String,
    pub available: bool,
    /// Why the route is unavailable, or other notes.
    pub detail: String,
}

/// An entry of the model picker.
#[derive(Debug, Clone)]
pub struct ModelEntry {
    /// The model name, possibly prefixed with the route (`hcap:`).
    pub name: String,
    /// The host's display name of the model on its route.
    pub label: String,
    /// The route the entry would use.
    pub route: Option<Route>,
    pub is_current: bool,
    pub is_default: bool,
    pub is_favorite: bool,
}

/// What the hcap catalog says of a model. Prices and the catalog speed arrive
/// written out (`$0.40`, `—`; `42.0`).
#[derive(Debug, Clone)]
pub struct CatalogModel {
    pub id: String,
    pub context_length: Option<u64>,
    pub max_output: Option<u64>,
    /// Input price per million tokens, written out.
    pub input_price: String,
    /// Output price per million tokens, written out.
    pub output_price: String,
    pub wallet: Option<String>,
    /// Tokens per second the catalog reports, written out, when it reports a
    /// finite, non-negative rate.
    pub speed: Option<String>,
    pub streaming: Option<bool>,
    pub tools: Option<bool>,
    pub vision: Option<bool>,
    pub variant: Option<String>,
    pub requests: Option<u64>,
    /// When the model was last used, in whole seconds since the Unix epoch.
    pub last_used: Option<i64>,
}

/// The `chrono` format of the last-used label: month, day, hours and minutes
/// in UTC.
pub open spec fn minute_pattern() -> Seq<char> {
    "%m-%d %H:%M UTC"@
}

/// The label `chrono` writes for a Unix timestamp through a format pattern,
/// if the timestamp is in its range.
pub uninterp spec fn utc_minute(secs: i64, pattern: Seq<char>) -> Option<Seq<char>>;

/// `chrono::DateTime::from_timestamp`, with its result written out through
/// `format(pattern)`. Claims that the result is the named label of the
/// timestamp and the pattern; the label itself is left to chrono. Writing out
/// panics on a malformed pattern, so only the library's pattern is admitted.
#[verifier::external_body]
fn utc_minute_label(secs: i64, pattern: &str) -> (r: Option<String>)
    requires
        pattern@ == minute_pattern(),
    ensures
        r.deep_view() == utc_minute(secs, pattern@),
{
    match chrono::DateTime::from_timestamp(secs, 0) {
        Some(t) => Some(t.format(pattern).to_string()),
        None => None,
    }
}

/// The placeholder of a missing value.
pub open spec fn dash() -> Seq<char> {
    "\u{2014}"@
}

/// The model id of an entry: its name without the `hcap:` route prefix.
pub open spec fn entry_id(name: Seq<char>) -> Seq<char> {
    if "hcap:"@.len() <= name.len() && name.take("hcap:"@.len() as int) == "hcap:"@ {
        name.skip("hcap:"@.len() as int)
    } else {
        name
    }
}

/// Whether the entry routes through the hcap profile.
pub open spec fn on_hcap(route: Option<Route>) -> bool {
    match route {
        Some(r) => eq_ignore_ascii_case_spec(r.provider@, "hcap"@),
        None => false,
    }
}

/// The index of the first catalog model with the given id.
pub open spec fn first_with_id(models: Seq<CatalogModel>, id: Seq<char>) -> Option<int> {
    if exists|i: int| 0 <= i < models.len() && #[trigger] models[i].id@ == id {
        Some(
            choose|i: int|
                0 <= i < models.len() && models[i].id@ == id && forall|j: int|
                    0 <= j < i ==> #[trigger] models[j].id@ != id,
        )
    } else {
        None
    }
}

/// The catalog model shown for an entry: only hcap routes read the catalog.
pub open spec fn catalog_model(entry: ModelEntry, models: Seq<CatalogModel>) -> Option<CatalogModel> {
    if on_hcap(entry.route) {
        match first_with_id(models, entry_id(entry.name@)) {
            Some(i) => Some(models[i]),
            None => None,
        }
    } else {
        None
    }
}

pub open spec fn or_dash(v: Option<String>) -> Seq<char> {
    match v {
        Some(s) => s@,
        None => dash(),
    }
}

pub open spec fn flag(v: Option<bool>) -> Seq<char> {
    match v {
        Some(true) => "\u{2713}"@,
        Some(false) => "\u{d7}"@,
        None => dash(),
    }
}

pub open spec fn last_used_text(v: Option<i64>) -> Seq<char> {
    match v {
        Some(secs) => match utc_minute(secs, minute_pattern()) {
            Some(t) => t,
            None => dash(),
        },
        None => dash(),
    }
}

/// The catalog's rows for a model: capacity and pricing, capabilities, and
/// catalog activity.
pub open spec fn catalog_rows(m: CatalogModel) -> Seq<Seq<char>> {
    seq![
        "\u{2500} CAPACITY & PRICING"@,
        "Context      "@ + number_spec(m.context_length),
        "Max output   "@ + number_spec(m.max_output),
        "Input / 1M   "@ + m.input_price@,
        "Output / 1M  "@ + m.output_price@,
        "Wallet       "@ + or_dash(m.wallet),
        "Catalog t/s  "@ + match m.speed {
            Some(s) => s@,
            None => "not reported"@,
        },
        "\u{2500} CAPABILITIES"@,
        "Stream "@ + flag(m.streaming) + "  Tools "@ + flag(m.tools) + "  Vision "@ + flag(m.vision),
        "Variant: "@ + or_dash(m.variant),
        "\u{2500} CATALOG ACTIVITY"@,
        "Requests     "@ + number_spec(m.requests),
        "Last used    "@ + last_used_text(m.last_used),
    ]
}

/// The inspector's rows for an entry: its id, its route, whether the route is
/// unavailable, and what the catalog knows of it.
pub open spec fn details_spec(entry: ModelEntry, models: Seq<CatalogModel>) -> Seq<Seq<char>> {
    let route_line = match entry.route {
        Some(r) => r.provider@,
        None => "Unknown route"@,
    } + if entry.is_current {
        " \u{b7} active"@
    } else if entry.is_default {
        " \u{b7} default"@
    } else {
        Seq::empty()
    };
    let head = seq![entry_id(entry.name@), route_line];
    let unavailable = match entry.route {
        Some(r) if !r.available => seq!["Unavailable: "@ + r.detail@],
        _ => Seq::empty(),
    };
    match catalog_model(entry, models) {
        Some(m) => head + unavailable + catalog_rows(m),
        None => head + unavailable + seq!["Catalog details unavailable"@] + match entry.route {
            Some(r) if r.detail@.len() > 0 => seq![r.detail@],
            _ => Seq::empty(),
        },
    }
}

pub open spec fn rows_view(rows: Seq<String>) -> Seq<Seq<char>> {
    rows.map_values(|r: String| r@)
}

fn entry_name_id(name: &str) -> (id: String)
    ensures
        id@ == entry_id(name@),
{
    if starts_with(name, "hcap:") {
        proof {
            reveal_strlit("hcap:");
        }
        let cs = chars_of(name);
        let mut rest: Vec<char> = Vec::new();
        let mut i: usize = 5;
        while i < cs.len()
            invariant
                cs@ == name@,
                5 <= i <= cs.len(),
                rest@ == cs@.subrange(5, i as int),
            decreases cs.len() - i,
        {
            rest.push(cs[i]);
            assert(cs@.subrange(5, i as int).push(cs@[i as int]) == cs@.subrange(5, i + 1));
            i = i + 1;
        }
        assert(rest@ == name@.skip(5));
        string_of(&rest)
    } else {
        name.to_owned()
    }
}

fn find_model(models: &Vec<CatalogModel>, id: &str) -> (r: Option<usize>)
    ensures
        match r {
            Some(i) => i < models.len() && first_with_id(models@, id@) == Some(i as int),
            None => first_with_id(models@, id@) is None,
        },
{
    let mut i: usize = 0;
    while i < models.len()
        invariant
            i <= models.len(),
            forall|j: int| 0 <= j < i ==> #[trigger] models@[j].id@ != id@,
        decreases models.len() - i,
    {
        if same_text(models[i].id.as_str(), id) {
            let ghost w = choose|k: int|
                0 <= k < models@.len() && models@[k].id@ == id@ && forall|j: int|
                    0 <= j < k ==> #[trigger] models@[j].id@ != id@;
            assert(0 <= i < models@.len() && models@[i as int].id@ == id@ && forall|j: int|
                0 <= j < i ==> #[trigger] models@[j].id@ != id@);
            assert(w == i) by {
                if w < i {
                    assert(models@[w].id@ != id@);
                }
                if w > i {
                    assert(models@[i as int].id@ != id@);
                }
            }
            return Some(i);
        }
        i = i + 1;
    }
    None
}

fn labelled(label: &str, value: &str) -> (s: String)
    ensures
        s@ == label@ + value@,
{
    let mut s = label.to_owned();
    s.append(value);
    s
}

fn flag_text(v: Option<bool>) -> (s: &'static str)
    ensures
        s@ == flag(v),
{
    match v {
        Some(true) => "\u{2713}",
        Some(false) => "\u{d7}",
        None => "\u{2014}",
    }
}

fn optional_text(v: &Option<String>) -> (s: String)
    ensures
        s@ == or_dash(*v),
{
    match v {
        Some(s) => s.clone(),
        None => "\u{2014}".to_owned(),
    }
}

fn push_catalog_rows(rows: &mut Vec<String>, m: &CatalogModel)
    ensures
        rows_view(final(rows)@) == rows_view(old(rows)@) + catalog_rows(*m),
{
    rows.push("\u{2500} CAPACITY & PRICING".to_owned());
    rows.push(labelled("Context      ", number(m.context_length).as_str()));
    rows.push(labelled("Max output   ", number(m.max_output).as_str()));
    rows.push(labelled("Input / 1M   ", m.input_price.as_str()));
    rows.push(labelled("Output / 1M  ", m.output_price.as_str()));
    rows.push(labelled("Wallet       ", optional_text(&m.wallet).as_str()));
    let speed = match &m.speed {
        Some(s) => s.clone(),
        None => "not reported".to_owned(),
    };
    rows.push(labelled("Catalog t/s  ", speed.as_str()));
    rows.push("\u{2500} CAPABILITIES".to_owned());
    let mut caps = "Stream ".to_owned();
    caps.append(flag_text(m.streaming));
    caps.append("  Tools ");
    caps.append(flag_text(m.tools));
    caps.append("  Vision ");
    caps.append(flag_text(m.vision));
    rows.push(caps);
    rows.push(labelled("Variant: ", optional_text(&m.variant).as_str()));
    rows.push("\u{2500} CATALOG ACTIVITY".to_owned());
    rows.push(labelled("Requests     ", number(m.requests).as_str()));
    let last = match m.last_used {
        Some(secs) => match utc_minute_label(secs, "%m-%d %H:%M UTC") {
            Some(t) => t,
            None => "\u{2014}".to_owned(),
        },
        None => "\u{2014}".to_owned(),
    };
    rows.push(labelled("Last used    ", last.as_str()));
    assert(rows_view(final(rows)@) =~= rows_view(old(rows)@) + catalog_rows(*m));
}

/// The inspector's rows for `entry`, reading the hcap catalog `models`.
pub fn details(entry: &ModelEntry, models: &Vec<CatalogModel>) -> (rows: Vec<String>)
    ensures
        rows_view(rows@) == details_spec(*entry, models@),
{
    let is_hcap = match &entry.route {
        Some(r) => eq_ignore_ascii_case(r.provider.as_str(), "hcap"),
        None => false,
    };
    let id = entry_name_id(entry.name.as_str());
    let model: Option<usize> = if is_hcap {
        find_model(models, id.as_str())
    } else {
        None
    };
    let mut rows: Vec<String> = Vec::new();
    rows.push(id);
    let mut route_line = match &entry.route {
        Some(r) => r.provider.clone(),
        None => "Unknown route".to_owned(),
    };
    if entry.is_current {
        route_line.append(" \u{b7} active");
    } else if entry.is_default {
        route_line.append(" \u{b7} default");
    }
    rows.push(route_line);
    if let Some(r) = &entry.route {
        if !r.available {
            rows.push(labelled("Unavailable: ", r.detail.as_str()));
        }
    }
    let ghost before = rows@;
    match model {
        Some(i) => {
            push_catalog_rows(&mut rows, &models[i]);
        },
        None => {
            rows.push("Catalog details unavailable".to_owned());
            if let Some(r) = &entry.route {
                if !r.detail.as_str().is_empty() {
                    rows.push(r.detail.clone());
                }
            }
        },
    }
    assert(rows_view(rows@) =~= details_spec(*entry, models@));
    rows
}

/// `s` without its trailing slashes.
pub open spec fn trim_slashes(s: Seq<char>) -> Seq<char>
    decreases s.len(),
{
    if s.len() > 0 && s.last() == '/' {
        trim_slashes(s.drop_last())
    } else {
        s
    }
}

fn trimmed_slashes(s: &str) -> (out: Vec<char>)
    ensures
        out@ == trim_slashes(s@),
{
    let mut cs = chars_of(s);
    while cs.len() > 0 && cs[cs.len() - 1] == '/'
        invariant
            trim_slashes(cs@) == trim_slashes(s@),
        decreases cs.len(),
    {
        let ghost before = cs@;
        cs.pop();
        assert(before.drop_last() == cs@);
        assert(trim_slashes(before) == trim_slashes(cs@));
    }
    cs
}

fn same_chars(x: &Vec<char>, y: &Vec<char>) -> (r: bool)
    ensures
        r == (x@ == y@),
{
    if x.len() != y.len() {
        return false;
    }
    let mut i: usize = 0;
    while i < x.len()
        invariant
            x.len() == y.len(),
            i <= x.len(),
            forall|j: int| 0 <= j < i ==> x@[j] == y@[j],
        decreases x.len() - i,
    {
        if x[i] != y[i] {
            assert(x@[i as int] != y@[i as int]);
            return false;
        }
        i = i + 1;
    }
    assert(x@ == y@);
    true
}

/// Whether the cached catalog came from the `hcap` profile's configured API:
/// the cache's source and the profile's base URL agree up to trailing
/// slashes. Rates are scoped to hcap's API, not another provider selling the
/// same model id.
pub open spec fn catalog_is_current_spec(source_api_base: Option<String>, profile_base_url: Option<String>) -> bool {
    match (source_api_base, profile_base_url) {
        (Some(s), Some(b)) => trim_slashes(s@) == trim_slashes(b@),
        _ => false,
    }
}

pub fn catalog_is_current(source_api_base: &Option<String>, profile_base_url: &Option<String>) -> (r: bool)
    ensures
        r == catalog_is_current_spec(*source_api_base, *profile_base_url),
{
    match (source_api_base, profile_base_url) {
        (Some(s), Some(b)) => {
            let x = trimmed_slashes(s.as_str());
            let y = trimmed_slashes(b.as_str());
            same_chars(&x, &y)
        },
        _ => false,
    }
}

/// The position of the first of `ids` equal to `id`.
pub open spec fn first_position(ids: Seq<String>, id: Seq<char>) -> Option<int> {
    if exists|i: int| 0 <= i < ids.len() && #[trigger] ids[i]@ == id {
        Some(
            choose|i: int|
                0 <= i < ids.len() && ids[i]@ == id && forall|j: int|
                    0 <= j < i ==> #[trigger] ids[j]@ != id,
        )
    } else {
        None
    }
}

/// The position of the first catalog model id equal to `id`: the footer
/// reads that model's context length and prices.
pub fn catalog_entry(ids: &Vec<String>, id: &str) -> (r: Option<usize>)
    ensures
        match r {
            Some(i) => i < ids.len() && first_position(ids@, id@) == Some(i as int),
            None => first_position(ids@, id@) is None,
        },
{
    let mut i: usize = 0;
    while i < ids.len()
        invariant
            i <= ids.len(),
            forall|j: int| 0 <= j < i ==> #[trigger] ids@[j]@ != id@,
        decreases ids.len() - i,
    {
        if same_text(ids[i].as_str(), id) {
            let ghost w = choose|k: int|
                0 <= k < ids@.len() && ids@[k]@ == id@ && forall|j: int|
                    0 <= j < k ==> #[trigger] ids@[j]@ != id@;
            assert(0 <= i < ids@.len() && ids@[i as int]@ == id@ && forall|j: int|
                0 <= j < i ==> #[trigger] ids@[j]@ != id@);
            assert(w == i) by {
                if w < i {
                    assert(ids@[w]@ != id@);
                }
                if w > i {
                    assert(ids@[i as int]@ != id@);
                }
            }
            return Some(i);
        }
        i = i + 1;
    }
    None
}


/// The inspector's second row names the route and the entry's standing: the
/// route's provider (or `Unknown route`), then ` · active` for the current
/// model, else ` · default` for the default one, else nothing. Its first row
/// is the model's id.
pub proof fn law_route_row(entry: ModelEntry, models: Seq<CatalogModel>)
    ensures
        ({
            let rows = details_spec(entry, models);
            let base = match entry.route {
                Some(r) => r.provider@,
                None => "Unknown route"@,
            };
            &&& rows.len() >= 2
            &&& rows[0] == entry_id(entry.name@)
            &&& entry.is_current ==> rows[1] == base + " \u{b7} active"@
            &&& !entry.is_current && entry.is_default ==> rows[1] == base + " \u{b7} default"@
            &&& !entry.is_current && !entry.is_default ==> rows[1] == base
        }),
{
    let rows = details_spec(entry, models);
    let base = match entry.route {
        Some(r) => r.provider@,
        None => "Unknown route"@,
    };
    let route_line = base + if entry.is_current {
        " \u{b7} active"@
    } else if entry.is_default {
        " \u{b7} default"@
    } else {
        Seq::empty()
    };
    let head = seq![entry_id(entry.name@), route_line];
    let unavailable = match entry.route {
        Some(r) if !r.available => seq!["Unavailable: "@ + r.detail@],
        _ => Seq::<Seq<char>>::empty(),
    };
    let tail = match catalog_model(entry, models) {
        Some(m) => catalog_rows(m),
        None => seq!["Catalog details unavailable"@] + match entry.route {
            Some(r) if r.detail@.len() > 0 => seq![r.detail@],
            _ => Seq::empty(),
        },
    };
    assert(rows =~= head + unavailable + tail);
    if !entry.is_current && !entry.is_default {
        assert(route_line =~= base);
    }
}


/// What the inspector says below the route row: `Unavailable:` with the
/// route's note when the route is unavailable; then, when the hcap catalog
/// lists the model, its capacity and prices in order (context length, maximum
/// output, input and output price per million tokens); otherwise
/// `Catalog details unavailable`.
pub proof fn law_inspector_body(entry: ModelEntry, models: Seq<CatalogModel>)
    ensures
        ({
            let rows = details_spec(entry, models);
            let unavailable = entry.route matches Some(r) && !r.available;
            let at: int = if unavailable { 3 } else { 2 };
            &&& match entry.route {
                Some(r) => !r.available ==> rows[2] == "Unavailable: "@ + r.detail@,
                None => true,
            }
            &&& catalog_model(entry, models) matches Some(m) ==> {
                &&& rows.len() == at + 13
                &&& rows[at + 1] == "Context      "@ + number_spec(m.context_length)
                &&& rows[at + 2] == "Max output   "@ + number_spec(m.max_output)
                &&& rows[at + 3] == "Input / 1M   "@ + m.input_price@
                &&& rows[at + 4] == "Output / 1M  "@ + m.output_price@
            }
            &&& catalog_model(entry, models) is None ==> rows[at] == "Catalog details unavailable"@
        }),
{
}

} // verus!
