//! HCLI's direct API-key setup, before the general provider onboarding flow:
//! which launches it intercepts, and the prompt-and-configure sequence as a
//! state machine the host drives.

use vstd::prelude::*;

use crate::text::same_text;

verus! {

/// The provider profile HCLI sets up.
pub open spec fn profile_name() -> Seq<char> {
    "hcap"@
}

/// The environment variable that holds the API key.
pub open spec fn key_env() -> Seq<char> {
    "HCAP_API_KEY"@
}

/// How the provider was chosen on the command line.
#[derive(Debug, Clone, PartialEq, Eq)]
pub enum ProviderChoice {
    /// No explicit choice.
    Auto,
    /// An explicit provider, by name.
    Named(String),
}

/// The parts of the command line that decide whether HCLI's setup runs.
#[derive(Debug, Clone)]
pub struct LaunchArgs {
    /// The subcommand, if one was given.
    pub command: Option<String>,
    /// The SSH host, if a remote session was asked for.
    pub ssh: Option<String>,
    pub onboarding_sim: bool,
    pub update_sim: bool,
    pub provider: ProviderChoice,
    pub provider_profile: Option<String>,
    /// The model asked for with `--model`.
    pub model: Option<String>,
}

/// Only default local launches go through HCLI's setup: no subcommand, no SSH
/// session, no simulator, no explicit provider or profile.
pub open spec fn needs_hcap_startup_spec(args: LaunchArgs) -> bool {
    &&& args.command is None
    &&& args.ssh is None
    &&& !args.onboarding_sim
    &&& !args.update_sim
    &&& args.provider is Auto
    &&& args.provider_profile is None
}

/// Whether this launch goes through HCLI's setup.
pub fn needs_hcap_startup(args: &LaunchArgs) -> (r: bool)
    ensures
        r == needs_hcap_startup_spec(*args),
{
    args.command.is_none() && args.ssh.is_none() && !args.onboarding_sim && !args.update_sim
        && matches!(args.provider, ProviderChoice::Auto) && args.provider_profile.is_none()
}

/// Where the setup stands.
#[derive(Debug, Clone, PartialEq, Eq)]
pub enum StartupState {
    /// Nothing happened yet.
    Idle,
    /// Waiting for the user to type a key.
    AwaitingKey,
    /// A typed key is being saved.
    Saving { key: String },
    /// The provider profile is being ensured; the key is known.
    Configuring { key: String },
    /// Setup is over (or was not needed).
    Done,
    /// Setup cannot proceed.
    Failed,
}

/// What the host observed.
#[derive(Debug, Clone, PartialEq, Eq)]
pub enum StartupEvent {
    /// The app launched.
    Launch {
        /// Whether the launch goes through HCLI's setup.
        intercepted: bool,
        /// The key from the environment, or else from the saved key file.
        stored_key: Option<String>,
        stdin_is_terminal: bool,
        stderr_is_terminal: bool,
    },
    /// The user typed a line at the key prompt.
    KeyEntered(String),
    /// The typed key was saved.
    KeySaved,
    /// The provider profile exists.
    ProfileReady,
}

/// What the host does next.
#[derive(Debug, Clone, PartialEq, Eq)]
pub enum StartupAction {
    /// Nothing.
    Nothing,
    /// Continue with a known key: show the short welcome when `greet`, then
    /// ensure the provider profile.
    Proceed { greet: bool },
    /// Fail with [`no_terminal_message_text`].
    Fail,
    /// Ask for a key: show the full welcome first when `first`, otherwise ask
    /// again after an empty line.
    AskKey { first: bool },
    /// Save `key` to the key file.
    SaveKey { key: String },
    /// Confirm the saved key, then ensure the provider profile.
    ConfirmSaved,
    /// Put `key` in the environment, drop cached configuration, and select
    /// the provider profile [`hcap_profile_name`].
    Activate { key: String },
}

/// The message when no key is stored and nobody can type one.
pub open spec fn no_terminal_message() -> Seq<char> {
    "Set HCAP_API_KEY or launch HCLI in a terminal to enter your hcap.ai API key."@
}

/// The message when no key is stored and nobody can type one.
pub fn no_terminal_message_text() -> (m: String)
    ensures
        m@ == no_terminal_message(),
{
    "Set HCAP_API_KEY or launch HCLI in a terminal to enter your hcap.ai API key.".to_owned()
}

/// The name of the provider profile HCLI selects.
pub fn hcap_profile_name() -> (m: String)
    ensures
        m@ == profile_name(),
{
    "hcap".to_owned()
}

/// One step of the setup.
pub open spec fn startup_step_spec(state: StartupState, event: StartupEvent) -> (StartupState, StartupAction) {
    match (state, event) {
        (
            StartupState::Idle,
            StartupEvent::Launch { intercepted, stored_key, stdin_is_terminal, stderr_is_terminal },
        ) => if !intercepted {
            (StartupState::Done, StartupAction::Nothing)
        } else {
            match stored_key {
                Some(key) => (
                    StartupState::Configuring { key },
                    StartupAction::Proceed { greet: stderr_is_terminal },
                ),
                None => if !stdin_is_terminal || !stderr_is_terminal {
                    (StartupState::Failed, StartupAction::Fail)
                } else {
                    (StartupState::AwaitingKey, StartupAction::AskKey { first: true })
                },
            }
        },
        (StartupState::AwaitingKey, StartupEvent::KeyEntered(key)) => if key@.len() == 0 {
            (StartupState::AwaitingKey, StartupAction::AskKey { first: false })
        } else {
            (StartupState::Saving { key }, StartupAction::SaveKey { key })
        },
        (StartupState::Saving { key }, StartupEvent::KeySaved) => (
            StartupState::Configuring { key },
            StartupAction::ConfirmSaved,
        ),
        (StartupState::Configuring { key }, StartupEvent::ProfileReady) => (
            StartupState::Done,
            StartupAction::Activate { key },
        ),
        (s, _) => (s, StartupAction::Nothing),
    }
}

/// Advances the setup by one observed event.
pub fn startup_step(state: StartupState, event: StartupEvent) -> (r: (StartupState, StartupAction))
    ensures
        r == startup_step_spec(state, event),
{
    match (state, event) {
        (
            StartupState::Idle,
            StartupEvent::Launch { intercepted, stored_key, stdin_is_terminal, stderr_is_terminal },
        ) => {
            if !intercepted {
                (StartupState::Done, StartupAction::Nothing)
            } else {
                match stored_key {
                    Some(key) => (
                        StartupState::Configuring { key },
                        StartupAction::Proceed { greet: stderr_is_terminal },
                    ),
                    None => {
                        if !stdin_is_terminal || !stderr_is_terminal {
                            (StartupState::Failed, StartupAction::Fail)
                        } else {
                            (StartupState::AwaitingKey, StartupAction::AskKey { first: true })
                        }
                    },
                }
            }
        },
        (StartupState::AwaitingKey, StartupEvent::KeyEntered(key)) => {
            if key.as_str().is_empty() {
                (StartupState::AwaitingKey, StartupAction::AskKey { first: false })
            } else {
                let saved = key.clone();
                (StartupState::Saving { key }, StartupAction::SaveKey { key: saved })
            }
        },
        (StartupState::Saving { key }, StartupEvent::KeySaved) => (
            StartupState::Configuring { key },
            StartupAction::ConfirmSaved,
        ),
        (StartupState::Configuring { key }, StartupEvent::ProfileReady) => (
            StartupState::Done,
            StartupAction::Activate { key },
        ),
        (s, _) => (s, StartupAction::Nothing),
    }
}

/// The state after a sequence of events, and the actions taken on the way.
pub open spec fn run(state: StartupState, events: Seq<StartupEvent>) -> (StartupState, Seq<StartupAction>)
    decreases events.len(),
{
    if events.len() == 0 {
        (state, Seq::empty())
    } else {
        let (next, action) = startup_step_spec(state, events[0]);
        let (last, rest) = run(next, events.drop_first());
        (last, seq![action] + rest)
    }
}

/// A run takes one action per event.
proof fn lemma_run_len(state: StartupState, events: Seq<StartupEvent>)
    ensures
        run(state, events).1.len() == events.len(),
    decreases events.len(),
{
    if events.len() > 0 {
        let (next, action) = startup_step_spec(state, events[0]);
        lemma_run_len(next, events.drop_first());
    }
}

/// Whether `actions` saves a key.
pub open spec fn saves_key(actions: Seq<StartupAction>) -> bool {
    exists|i: int| 0 <= i < actions.len() && #[trigger] actions[i] is SaveKey
}

/// Once a key is known, or setup is over, no key is ever saved.
proof fn lemma_no_save_after(state: StartupState, events: Seq<StartupEvent>)
    requires
        state is Configuring || state is Done || state is Failed,
    ensures
        !saves_key(run(state, events).1),
        run(state, events).0 is Configuring || run(state, events).0 is Done || run(
            state,
            events,
        ).0 is Failed,
    decreases events.len(),
{
    if events.len() > 0 {
        let (next, action) = startup_step_spec(state, events[0]);
        lemma_no_save_after(next, events.drop_first());
        let acts = run(state, events).1;
        let rest = run(next, events.drop_first()).1;
        assert(acts == seq![action] + rest);
        if saves_key(acts) {
            let i = choose|i: int| 0 <= i < acts.len() && #[trigger] acts[i] is SaveKey;
            if i > 0 {
                assert(rest[i - 1] is SaveKey);
            }
        }
    }
}

/// A launch that is not intercepted finishes at once and does nothing, then
/// or later.
pub proof fn law_other_launches_keep_their_flow(
    stored_key: Option<String>,
    stdin_is_terminal: bool,
    stderr_is_terminal: bool,
    later: Seq<StartupEvent>,
)
    ensures
        ({
            let events = seq![
                StartupEvent::Launch {
                    intercepted: false,
                    stored_key,
                    stdin_is_terminal,
                    stderr_is_terminal,
                },
            ] + later;
            &&& run(StartupState::Idle, events).0 == StartupState::Done
            &&& forall|i: int|
                0 <= i < events.len() ==> #[trigger] run(StartupState::Idle, events).1[i]
                    == StartupAction::Nothing
        }),
    decreases later.len(),
{
    let events = seq![
        StartupEvent::Launch { intercepted: false, stored_key, stdin_is_terminal, stderr_is_terminal },
    ] + later;
    assert(events.drop_first() == later);
    lemma_done_is_final(later);
}

/// Setup that is over stays over and does nothing.
proof fn lemma_done_is_final(events: Seq<StartupEvent>)
    ensures
        run(StartupState::Done, events).0 == StartupState::Done,
        run(StartupState::Done, events).1.len() == events.len(),
        forall|i: int|
            0 <= i < events.len() ==> #[trigger] run(StartupState::Done, events).1[i]
                == StartupAction::Nothing,
    decreases events.len(),
{
    if events.len() > 0 {
        lemma_done_is_final(events.drop_first());
        let rest = run(StartupState::Done, events.drop_first()).1;
        assert forall|i: int| 0 <= i < events.len() implies #[trigger] run(
            StartupState::Done,
            events,
        ).1[i] == StartupAction::Nothing by {
            if i > 0 {
                assert(run(StartupState::Done, events).1[i] == rest[i - 1]);
            }
        }
    }
}

/// A stored key (from the environment or the key file) is used without a
/// prompt and is never saved again, whatever happens next.
pub proof fn law_stored_key_skips_prompt_and_is_not_persisted(
    key: String,
    stdin_is_terminal: bool,
    stderr_is_terminal: bool,
    later: Seq<StartupEvent>,
)
    ensures
        ({
            let events = seq![
                StartupEvent::Launch {
                    intercepted: true,
                    stored_key: Some(key),
                    stdin_is_terminal,
                    stderr_is_terminal,
                },
            ] + later;
            let (last, actions) = run(StartupState::Idle, events);
            &&& actions[0] == StartupAction::Proceed { greet: stderr_is_terminal }
            &&& !saves_key(actions)
            &&& forall|i: int| 0 <= i < actions.len() ==> !(#[trigger] actions[i] is AskKey)
        }),
{
    let events = seq![
        StartupEvent::Launch {
            intercepted: true,
            stored_key: Some(key),
            stdin_is_terminal,
            stderr_is_terminal,
        },
    ] + later;
    assert(events.drop_first() == later);
    let next = StartupState::Configuring { key };
    lemma_no_save_after(next, later);
    lemma_no_prompt_after(next, later);
    let actions = run(StartupState::Idle, events).1;
    let rest = run(next, later).1;
    assert(actions == seq![StartupAction::Proceed { greet: stderr_is_terminal }] + rest);
    if saves_key(actions) {
        let i = choose|i: int| 0 <= i < actions.len() && #[trigger] actions[i] is SaveKey;
        assert(rest[i - 1] is SaveKey);
    }
    assert forall|i: int| 0 <= i < actions.len() implies !(#[trigger] actions[i] is AskKey) by {
        if i > 0 {
            assert(actions[i] == rest[i - 1]);
        }
    }
}

/// Once a key is known, or setup is over, nobody is asked for a key.
proof fn lemma_no_prompt_after(state: StartupState, events: Seq<StartupEvent>)
    requires
        state is Configuring || state is Done || state is Failed,
    ensures
        forall|i: int|
            0 <= i < run(state, events).1.len() ==> !(#[trigger] run(state, events).1[i] is AskKey),
    decreases events.len(),
{
    if events.len() > 0 {
        let (next, action) = startup_step_spec(state, events[0]);
        lemma_no_prompt_after(next, events.drop_first());
        let acts = run(state, events).1;
        let rest = run(next, events.drop_first()).1;
        assert forall|i: int| 0 <= i < acts.len() implies !(#[trigger] acts[i] is AskKey) by {
            if i > 0 {
                assert(acts[i] == rest[i - 1]);
            }
        }
    }
}

/// An empty line at the prompt creates no credentials: the prompt is asked
/// again.
pub proof fn law_empty_input_asks_again(key: String)
    requires
        key@.len() == 0,
    ensures
        startup_step_spec(StartupState::AwaitingKey, StartupEvent::KeyEntered(key)) == (
            StartupState::AwaitingKey,
            StartupAction::AskKey { first: false },
        ),
{
}

/// Without a stored key, a launch that cannot prompt fails; one that can shows
/// the full welcome and asks for the key.
pub proof fn law_missing_key(stdin_is_terminal: bool, stderr_is_terminal: bool)
    ensures
        ({
            let launch = StartupEvent::Launch {
                intercepted: true,
                stored_key: None,
                stdin_is_terminal,
                stderr_is_terminal,
            };
            if stdin_is_terminal && stderr_is_terminal {
                startup_step_spec(StartupState::Idle, launch) == (
                    StartupState::AwaitingKey,
                    StartupAction::AskKey { first: true },
                )
            } else {
                startup_step_spec(StartupState::Idle, launch) == (
                    StartupState::Failed,
                    StartupAction::Fail,
                )
            }
        }),
{
}

/// A typed key is saved before setup continues, and the saved key is the one
/// activated: a prompt, a non-empty key, its saving and the profile lead to
/// the key being put to use, after empty lines in between.
pub proof fn law_typed_key_is_saved_then_used(key: String, empty_line: String, empty_lines: nat)
    requires
        key@.len() > 0,
        empty_line@.len() == 0,
    ensures
        ({
            let blank = StartupEvent::KeyEntered(empty_line);
            let events = Seq::new(empty_lines, |_i: int| blank) + seq![
                StartupEvent::KeyEntered(key),
                StartupEvent::KeySaved,
                StartupEvent::ProfileReady,
            ];
            let (last, actions) = run(StartupState::AwaitingKey, events);
            &&& last == StartupState::Done
            &&& actions[empty_lines as int] == StartupAction::SaveKey { key }
            &&& actions[empty_lines + 1int] == StartupAction::ConfirmSaved
            &&& actions[empty_lines + 2int] == StartupAction::Activate { key }
        }),
    decreases empty_lines,
{
    let blank = StartupEvent::KeyEntered(empty_line);
    let tail = seq![StartupEvent::KeyEntered(key), StartupEvent::KeySaved, StartupEvent::ProfileReady];
    let events = Seq::new(empty_lines, |_i: int| blank) + tail;
    if empty_lines == 0 {
        assert(events == tail);
        assert(tail.drop_first() == seq![StartupEvent::KeySaved, StartupEvent::ProfileReady]);
        assert(tail.drop_first().drop_first() == seq![StartupEvent::ProfileReady]);
        assert(tail.drop_first().drop_first().drop_first() == Seq::<StartupEvent>::empty());
        let s1 = StartupState::Saving { key };
        let s2 = StartupState::Configuring { key };
        assert(seq![StartupEvent::ProfileReady].drop_first() == Seq::<StartupEvent>::empty());
        let r4 = run(StartupState::Done, Seq::<StartupEvent>::empty());
        assert(r4 == (StartupState::Done, Seq::<StartupAction>::empty()));
        let r3 = run(s2, seq![StartupEvent::ProfileReady]);
        assert(r3.0 == StartupState::Done);
        assert(r3.1 == seq![StartupAction::Activate { key }]);
        let r2 = run(s1, seq![StartupEvent::KeySaved, StartupEvent::ProfileReady]);
        assert(r2.1 == seq![StartupAction::ConfirmSaved] + r3.1);
        let r1 = run(StartupState::AwaitingKey, tail);
        assert(r1.1 == seq![StartupAction::SaveKey { key }] + r2.1);
        assert(r1.1[0] == StartupAction::SaveKey { key });
        assert(r1.1[1] == StartupAction::ConfirmSaved);
        assert(r1.1[2] == StartupAction::Activate { key });
    } else {
        law_typed_key_is_saved_then_used(key, empty_line, (empty_lines - 1) as nat);
        let shorter = Seq::new((empty_lines - 1) as nat, |_i: int| blank) + tail;
        assert(events.drop_first() == shorter);
        assert(events[0] == blank);
        assert(startup_step_spec(StartupState::AwaitingKey, blank) == (
            StartupState::AwaitingKey,
            StartupAction::AskKey { first: false },
        ));
        let rest = run(StartupState::AwaitingKey, shorter).1;
        let acts = run(StartupState::AwaitingKey, events).1;
        lemma_run_len(StartupState::AwaitingKey, shorter);
        assert(acts == seq![StartupAction::AskKey { first: false }] + rest);
        assert(acts[empty_lines as int] == rest[empty_lines - 1]);
        assert(acts[empty_lines + 1int] == rest[empty_lines as int]);
        assert(acts[empty_lines + 2int] == rest[empty_lines + 1int]);
    }
}

/// Whether the HCLI interface is switched on: the `HCLI_UI` variable is `1`.
pub fn ui_enabled(value: Option<String>) -> (r: bool)
    ensures
        r == (value matches Some(v) && v@ == "1"@),
{
    match value {
        Some(v) => same_text(v.as_str(), "1"),
        None => false,
    }
}

/// The welcome banner is coloured unless `NO_COLOR` is set or the terminal
/// is unknown or dumb.
pub fn banner_color(no_color_set: bool, term: Option<String>) -> (r: bool)
    ensures
        r == (!no_color_set && (term matches Some(t) && t@ != "dumb"@)),
{
    !no_color_set && match term {
        Some(t) => !same_text(t.as_str(), "dumb"),
        None => false,
    }
}

/// The escape sequences of the banner: accent, bold, dim and reset.
pub open spec fn banner_codes(color: bool) -> (Seq<char>, Seq<char>, Seq<char>, Seq<char>) {
    if color {
        ("\x1b[36m"@, "\x1b[1m"@, "\x1b[2m"@, "\x1b[0m"@)
    } else {
        (Seq::empty(), Seq::empty(), Seq::empty(), Seq::empty())
    }
}

/// The lines of the terminal welcome printed before setup: the short form
/// when a key is known, the full one with instructions when it must be typed.
pub open spec fn welcome_banner_spec(color: bool, needs_key: bool) -> Seq<Seq<char>> {
    let (accent, bold, dim, reset) = banner_codes(color);
    let top = seq![
        "\n  "@ + accent + bold + "HCLI"@ + reset + "  "@ + dim + "/  hcap.ai"@ + reset,
        "  "@ + accent + "\u{2500}\u{2500}\u{2500}\u{2500}\u{2500}\u{2500}\u{2500}\u{2500}\u{2500}\u{2500}\u{2500}\u{2500}\u{2500}\u{2500}\u{2500}\u{2500}\u{2500}\u{2500}\u{2500}\u{2500}\u{2500}\u{2500}\u{2500}\u{2500}\u{2500}\u{2500}\u{2500}\u{2500}\u{2500}\u{2500}"@
            + reset,
    ];
    if !needs_key {
        top.push("  "@ + dim + "Opening your workspace..."@ + reset + "\n"@)
    } else {
        top + seq![
            "  Your workspace, ready to build.\n"@,
            "  Get an API key at https://hcap.ai"@,
            "  "@ + dim + "Input is hidden \u{b7} Ctrl+C to cancel"@ + reset + "\n"@,
        ]
    }
}

fn joined(parts: &Vec<&str>) -> (s: String)
    ensures
        s@ == parts@.fold_left(Seq::<char>::empty(), |acc: Seq<char>, p: &str| acc + p@),
{
    let mut s = String::new();
    let mut i: usize = 0;
    while i < parts.len()
        invariant
            i <= parts.len(),
            s@ == parts@.take(i as int).fold_left(Seq::<char>::empty(), |acc: Seq<char>, p: &str| acc + p@),
        decreases parts.len() - i,
    {
        s.append(parts[i]);
        assert(parts@.take(i + 1).drop_last() == parts@.take(i as int));
        i = i + 1;
    }
    assert(parts@.take(parts.len() as int) == parts@);
    s
}

/// The lines of the terminal welcome; the host prints each on its own line.
pub fn welcome_banner(color: bool, needs_key: bool) -> (lines: Vec<String>)
    ensures
        lines@.map_values(|l: String| l@) == welcome_banner_spec(color, needs_key),
{
    let (accent, bold, dim, reset) = if color {
        ("\x1b[36m", "\x1b[1m", "\x1b[2m", "\x1b[0m")
    } else {
        ("", "", "", "")
    };
    let ghost codes = banner_codes(color);
    assert(accent@ == codes.0 && bold@ == codes.1 && dim@ == codes.2 && reset@ == codes.3) by {
        if !color {
            reveal_strlit("");
        }
    }
    let mut lines: Vec<String> = Vec::new();
    let mut l1 = "\n  ".to_owned();
    l1.append(accent);
    l1.append(bold);
    l1.append("HCLI");
    l1.append(reset);
    l1.append("  ");
    l1.append(dim);
    l1.append("/  hcap.ai");
    l1.append(reset);
    lines.push(l1);
    let mut l2 = "  ".to_owned();
    l2.append(accent);
    l2.append(
        "\u{2500}\u{2500}\u{2500}\u{2500}\u{2500}\u{2500}\u{2500}\u{2500}\u{2500}\u{2500}\u{2500}\u{2500}\u{2500}\u{2500}\u{2500}\u{2500}\u{2500}\u{2500}\u{2500}\u{2500}\u{2500}\u{2500}\u{2500}\u{2500}\u{2500}\u{2500}\u{2500}\u{2500}\u{2500}\u{2500}",
    );
    l2.append(reset);
    lines.push(l2);
    if !needs_key {
        let mut l3 = "  ".to_owned();
        l3.append(dim);
        l3.append("Opening your workspace...");
        l3.append(reset);
        l3.append("\n");
        lines.push(l3);
    } else {
        lines.push("  Your workspace, ready to build.\n".to_owned());
        lines.push("  Get an API key at https://hcap.ai".to_owned());
        let mut l5 = "  ".to_owned();
        l5.append(dim);
        l5.append("Input is hidden \u{b7} Ctrl+C to cancel");
        l5.append(reset);
        l5.append("\n");
        lines.push(l5);
    }
    assert(lines@.map_values(|l: String| l@) =~= welcome_banner_spec(color, needs_key));
    lines
}

/// Text after an escape character, with the rest of the escape code taken
/// out: a colour code runs up to and including its final `m`.
pub open spec fn skip_code(s: Seq<char>) -> Seq<char>
    decreases s.len(),
{
    if s.len() == 0 {
        s
    } else if s[0] == 'm' {
        s.drop_first()
    } else {
        skip_code(s.drop_first())
    }
}

pub proof fn lemma_skip_code_len(s: Seq<char>)
    ensures
        skip_code(s).len() <= s.len(),
    decreases s.len(),
{
    if s.len() > 0 && s[0] != 'm' {
        lemma_skip_code_len(s.drop_first());
    }
}

/// What a terminal shows of a line: the line with its colour codes taken out.
pub open spec fn visible(s: Seq<char>) -> Seq<char>
    decreases s.len(),
{
    if s.len() == 0 {
        s
    } else if s[0] == '\x1b' {
        proof {
            lemma_skip_code_len(s.drop_first());
        }
        visible(skip_code(s.drop_first()))
    } else {
        seq![s[0]] + visible(s.drop_first())
    }
}

/// Text with no escape character.
pub open spec fn plain(s: Seq<char>) -> bool {
    forall|i: int| 0 <= i < s.len() ==> #[trigger] s[i] != '\x1b'
}

/// A colour code: an escape character, then characters other than `m`, then
/// a final `m`.
pub open spec fn colour_code(c: Seq<char>) -> bool {
    &&& c.len() >= 2
    &&& c[0] == '\x1b'
    &&& c.last() == 'm'
    &&& forall|i: int| 1 <= i < c.len() - 1 ==> #[trigger] c[i] != 'm'
}

proof fn lemma_plain_concat(a: Seq<char>, b: Seq<char>)
    requires
        plain(a),
        plain(b),
    ensures
        plain(a + b),
{
    assert forall|i: int| 0 <= i < (a + b).len() implies #[trigger] (a + b)[i] != '\x1b' by {
        if i < a.len() {
            assert((a + b)[i] == a[i]);
        } else {
            assert((a + b)[i] == b[i - a.len()]);
        }
    }
}

/// Plain text is shown as it is.
proof fn lemma_visible_plain(a: Seq<char>, b: Seq<char>)
    requires
        plain(a),
    ensures
        visible(a + b) == a + visible(b),
    decreases a.len(),
{
    if a.len() == 0 {
        assert(a + b =~= b);
    } else {
        let rest = a.drop_first();
        assert(plain(rest)) by {
            assert forall|i: int| 0 <= i < rest.len() implies #[trigger] rest[i] != '\x1b' by {
                assert(rest[i] == a[i + 1]);
            }
        }
        lemma_visible_plain(rest, b);
        assert((a + b)[0] == a[0]);
        assert((a + b).drop_first() =~= rest + b);
        assert(seq![a[0]] + (rest + visible(b)) =~= a + visible(b));
    }
}

proof fn lemma_skip_code(c: Seq<char>, b: Seq<char>)
    requires
        c.len() >= 1,
        c.last() == 'm',
        forall|i: int| 0 <= i < c.len() - 1 ==> #[trigger] c[i] != 'm',
    ensures
        skip_code(c + b) == b,
    decreases c.len(),
{
    if c.len() == 1 {
        assert((c + b)[0] == 'm');
        assert((c + b).drop_first() =~= b);
    } else {
        let rest = c.drop_first();
        assert forall|i: int| 0 <= i < rest.len() - 1 implies #[trigger] rest[i] != 'm' by {
            assert(rest[i] == c[i + 1]);
        }
        lemma_skip_code(rest, b);
        assert((c + b)[0] == c[0]);
        assert((c + b).drop_first() =~= rest + b);
    }
}

/// A colour code is not shown.
proof fn lemma_visible_code(c: Seq<char>, b: Seq<char>)
    requires
        colour_code(c),
    ensures
        visible(c + b) == visible(b),
{
    let rest = c.drop_first();
    assert forall|i: int| 0 <= i < rest.len() - 1 implies #[trigger] rest[i] != 'm' by {
        assert(rest[i] == c[i + 1]);
    }
    lemma_skip_code(rest, b);
    assert((c + b)[0] == '\x1b');
    assert((c + b).drop_first() =~= rest + b);
}

proof fn lemma_banner_words()
    ensures
        plain("\n  "@),
        plain("HCLI"@),
        plain("  "@),
        plain("/  hcap.ai"@),
        plain(
            "\u{2500}\u{2500}\u{2500}\u{2500}\u{2500}\u{2500}\u{2500}\u{2500}\u{2500}\u{2500}\u{2500}\u{2500}\u{2500}\u{2500}\u{2500}\u{2500}\u{2500}\u{2500}\u{2500}\u{2500}\u{2500}\u{2500}\u{2500}\u{2500}\u{2500}\u{2500}\u{2500}\u{2500}\u{2500}\u{2500}"@,
        ),
        plain("Opening your workspace..."@),
        plain("\n"@),
        plain("  Your workspace, ready to build.\n"@),
        plain("  Get an API key at https://hcap.ai"@),
        plain("Input is hidden \u{b7} Ctrl+C to cancel"@),
        colour_code("\x1b[36m"@),
        colour_code("\x1b[1m"@),
        colour_code("\x1b[2m"@),
        colour_code("\x1b[0m"@),
{
    reveal_strlit("\n  ");
    reveal_strlit("HCLI");
    reveal_strlit("  ");
    reveal_strlit("/  hcap.ai");
    reveal_strlit(
        "\u{2500}\u{2500}\u{2500}\u{2500}\u{2500}\u{2500}\u{2500}\u{2500}\u{2500}\u{2500}\u{2500}\u{2500}\u{2500}\u{2500}\u{2500}\u{2500}\u{2500}\u{2500}\u{2500}\u{2500}\u{2500}\u{2500}\u{2500}\u{2500}\u{2500}\u{2500}\u{2500}\u{2500}\u{2500}\u{2500}",
    );
    reveal_strlit("Opening your workspace...");
    reveal_strlit("\n");
    reveal_strlit("  Your workspace, ready to build.\n");
    reveal_strlit("  Get an API key at https://hcap.ai");
    reveal_strlit("Input is hidden \u{b7} Ctrl+C to cancel");
    reveal_strlit("\x1b[36m");
    reveal_strlit("\x1b[1m");
    reveal_strlit("\x1b[2m");
    reveal_strlit("\x1b[0m");
}

proof fn lemma_visible_empty()
    ensures
        visible(Seq::<char>::empty()) == Seq::<char>::empty(),
{
}

/// A plain line is shown as it is.
proof fn lemma_visible_of_plain(a: Seq<char>)
    requires
        plain(a),
    ensures
        visible(a) == a,
{
    lemma_visible_empty();
    lemma_visible_plain(a, Seq::<char>::empty());
    assert(a + Seq::<char>::empty() =~= a);
}

/// The banner's title line: colour codes around plain words.
proof fn lemma_title_line(
    a: Seq<char>,
    h: Seq<char>,
    s: Seq<char>,
    p: Seq<char>,
    accent: Seq<char>,
    bold: Seq<char>,
    dim: Seq<char>,
    reset: Seq<char>,
)
    requires
        plain(a),
        plain(h),
        plain(s),
        plain(p),
        colour_code(accent),
        colour_code(bold),
        colour_code(dim),
        colour_code(reset),
    ensures
        visible(a + accent + bold + h + reset + s + dim + p + reset) == a + h + s + p,
        (a + accent + bold + h + reset + s + dim + p + reset)[a.len() as int] == '\x1b',
{
    let e = Seq::<char>::empty();
    let line = a + accent + bold + h + reset + s + dim + p + reset;
    let r8 = reset + e;
    let r7 = p + r8;
    let r6 = dim + r7;
    let r5 = s + r6;
    let r4 = reset + r5;
    let r3 = h + r4;
    let r2 = bold + r3;
    let r1 = accent + r2;
    assert(line =~= a + r1);
    lemma_visible_empty();
    lemma_visible_code(reset, e);
    lemma_visible_plain(p, r8);
    lemma_visible_code(dim, r7);
    lemma_visible_plain(s, r6);
    lemma_visible_code(reset, r5);
    lemma_visible_plain(h, r4);
    lemma_visible_code(bold, r3);
    lemma_visible_code(accent, r2);
    lemma_visible_plain(a, r1);
    assert(a + (h + (s + (p + e))) =~= a + h + s + p);
    assert((a + r1)[a.len() as int] == accent[0]);
}

/// A banner line with one coloured run: `a`, a code, `t`, the reset, `z`.
proof fn lemma_run_line(a: Seq<char>, code: Seq<char>, t: Seq<char>, reset: Seq<char>, z: Seq<char>)
    requires
        plain(a),
        plain(t),
        plain(z),
        colour_code(code),
        colour_code(reset),
    ensures
        visible(a + code + t + reset + z) == a + t + z,
{
    let e = Seq::<char>::empty();
    let r3 = z + e;
    let r2 = reset + r3;
    let r1 = t + r2;
    let r0 = code + r1;
    assert(a + code + t + reset + z =~= a + r0);
    lemma_visible_empty();
    lemma_visible_plain(z, e);
    lemma_visible_code(reset, r3);
    lemma_visible_plain(t, r2);
    lemma_visible_code(code, r1);
    lemma_visible_plain(a, r0);
    assert(a + (t + (z + e)) =~= a + t + z);
}

/// Colour only adds escape codes: the plain banner holds no escape character,
/// the coloured one holds one exactly when colour is on, and with its codes
/// taken out every coloured line reads as the plain one.
pub proof fn law_banner_colour_is_only_codes(color: bool, needs_key: bool)
    ensures
        welcome_banner_spec(color, needs_key).len() == welcome_banner_spec(false, needs_key).len(),
        forall|i: int|
            0 <= i < welcome_banner_spec(false, needs_key).len() ==> plain(
                #[trigger] welcome_banner_spec(false, needs_key)[i],
            ),
        forall|i: int|
            0 <= i < welcome_banner_spec(color, needs_key).len() ==> visible(
                #[trigger] welcome_banner_spec(color, needs_key)[i],
            ) == welcome_banner_spec(false, needs_key)[i],
        color <==> exists|i: int|
            0 <= i < welcome_banner_spec(color, needs_key).len() && !plain(
                #[trigger] welcome_banner_spec(color, needs_key)[i],
            ),
{
    lemma_banner_words();
    let e = Seq::<char>::empty();
    let (accent, bold, dim, reset) = banner_codes(true);
    let a = "\n  "@;
    let h = "HCLI"@;
    let sp = "  "@;
    let p = "/  hcap.ai"@;
    let rule = "\u{2500}\u{2500}\u{2500}\u{2500}\u{2500}\u{2500}\u{2500}\u{2500}\u{2500}\u{2500}\u{2500}\u{2500}\u{2500}\u{2500}\u{2500}\u{2500}\u{2500}\u{2500}\u{2500}\u{2500}\u{2500}\u{2500}\u{2500}\u{2500}\u{2500}\u{2500}\u{2500}\u{2500}\u{2500}\u{2500}"@;
    let opening = "Opening your workspace..."@;
    let nl = "\n"@;
    let ready = "  Your workspace, ready to build.\n"@;
    let get = "  Get an API key at https://hcap.ai"@;
    let hidden = "Input is hidden \u{b7} Ctrl+C to cancel"@;
    let plain_banner = welcome_banner_spec(false, needs_key);
    let banner = welcome_banner_spec(color, needs_key);
    // The plain banner: the words alone.
    let t0 = a + h + sp + p;
    let t1 = sp + rule;
    assert(plain_banner[0] =~= t0);
    assert(plain_banner[1] =~= t1);
    lemma_plain_concat(a, h);
    lemma_plain_concat(a + h, sp);
    lemma_plain_concat(a + h + sp, p);
    lemma_plain_concat(sp, rule);
    let t2 = sp + opening + nl;
    let t4 = sp + hidden + nl;
    lemma_plain_concat(sp, opening);
    lemma_plain_concat(sp + opening, nl);
    lemma_plain_concat(sp, hidden);
    lemma_plain_concat(sp + hidden, nl);
    if !needs_key {
        assert(plain_banner[2] =~= t2);
    } else {
        assert(plain_banner[4] =~= t4);
    }
    assert forall|i: int| 0 <= i < plain_banner.len() implies plain(#[trigger] plain_banner[i]) by {}
    if color {
        lemma_title_line(a, h, sp, p, accent, bold, dim, reset);
        lemma_run_line(sp, accent, rule, reset, e);
        assert(sp + rule + e =~= t1);
        assert(banner[1] =~= sp + accent + rule + reset + e);
        lemma_run_line(sp, dim, opening, reset, nl);
        lemma_run_line(sp, dim, hidden, reset, nl);
        lemma_visible_of_plain(ready);
        lemma_visible_of_plain(get);
        assert forall|i: int| 0 <= i < banner.len() implies visible(#[trigger] banner[i])
            == plain_banner[i] by {}
        assert(!plain(banner[0]));
    } else {
        assert forall|i: int| 0 <= i < banner.len() implies visible(#[trigger] banner[i])
            == plain_banner[i] by {
            lemma_visible_of_plain(banner[i]);
        }
    }
}

/// A step of keeping HCLI's files apart from an installed Jcode.
#[derive(Debug, Clone, PartialEq, Eq)]
pub enum PathStep {
    /// Switch the HCLI interface on.
    EnableUi,
    /// Use the directory `name` under the user's home as application home.
    HomeUnderUserHome { name: String },
    /// Use the subdirectory `name` of the runtime directory.
    RuntimeSubdirectory { name: String },
    /// Put the daemon socket, named `name`, in the runtime directory.
    SocketInRuntime { name: String },
}

pub open spec fn step_view(s: PathStep) -> (nat, Seq<char>) {
    match s {
        PathStep::EnableUi => (0, Seq::empty()),
        PathStep::HomeUnderUserHome { name } => (1, name@),
        PathStep::RuntimeSubdirectory { name } => (2, name@),
        PathStep::SocketInRuntime { name } => (3, name@),
    }
}

/// The steps, in order: the interface is always switched on; each location
/// that the environment does not already override is set to HCLI's own.
pub open spec fn path_steps_spec(home_set: bool, runtime_set: bool, socket_set: bool) -> Seq<(nat, Seq<char>)> {
    seq![(0nat, Seq::<char>::empty())] + (if home_set {
        Seq::empty()
    } else {
        seq![(1nat, ".hcli"@)]
    }) + (if runtime_set {
        Seq::empty()
    } else {
        seq![(2nat, "hcli"@)]
    }) + (if socket_set {
        Seq::empty()
    } else {
        seq![(3nat, "hcli.sock"@)]
    })
}

/// The steps that keep the fork's credentials and daemon separate from an
/// installed Jcode, given which locations the environment already sets.
pub fn path_steps(home_set: bool, runtime_set: bool, socket_set: bool) -> (steps: Vec<PathStep>)
    ensures
        steps@.map_values(|s: PathStep| step_view(s)) == path_steps_spec(home_set, runtime_set, socket_set),
{
    let mut steps: Vec<PathStep> = Vec::new();
    steps.push(PathStep::EnableUi);
    if !home_set {
        steps.push(PathStep::HomeUnderUserHome { name: ".hcli".to_owned() });
    }
    if !runtime_set {
        steps.push(PathStep::RuntimeSubdirectory { name: "hcli".to_owned() });
    }
    if !socket_set {
        steps.push(PathStep::SocketInRuntime { name: "hcli.sock".to_owned() });
    }
    assert(steps@.map_values(|s: PathStep| step_view(s)) =~= path_steps_spec(
        home_set,
        runtime_set,
        socket_set,
    ));
    steps
}

/// The variables the path setup touches: whether the interface is on, and
/// the values of the home, runtime-directory and socket locations, if set.
pub struct PathEnv {
    pub ui_on: bool,
    pub home: Option<Seq<char>>,
    pub runtime: Option<Seq<char>>,
    pub socket: Option<Seq<char>>,
}

/// One step applied to the variables. `place(kind, name)` is the value the
/// host writes for a location of that kind and name (the name joined to the
/// user's home or to the runtime directory).
pub open spec fn apply_path_step(
    e: PathEnv,
    step: (nat, Seq<char>),
    place: spec_fn(nat, Seq<char>) -> Seq<char>,
) -> PathEnv {
    let value = Some(place(step.0, step.1));
    if step.0 == 0 {
        PathEnv { ui_on: true, ..e }
    } else if step.0 == 1 {
        PathEnv { home: value, ..e }
    } else if step.0 == 2 {
        PathEnv { runtime: value, ..e }
    } else {
        PathEnv { socket: value, ..e }
    }
}

/// The steps applied in order.
pub open spec fn apply_path_steps(
    e: PathEnv,
    steps: Seq<(nat, Seq<char>)>,
    place: spec_fn(nat, Seq<char>) -> Seq<char>,
) -> PathEnv
    decreases steps.len(),
{
    if steps.len() == 0 {
        e
    } else {
        apply_path_step(apply_path_steps(e, steps.drop_last(), place), steps.last(), place)
    }
}

/// The variables after one run of the path setup.
pub open spec fn run_path_setup(e: PathEnv, place: spec_fn(nat, Seq<char>) -> Seq<char>) -> PathEnv {
    apply_path_steps(
        e,
        path_steps_spec(e.home is Some, e.runtime is Some, e.socket is Some),
        place,
    )
}

/// The path setup settles after one run: it switches the interface on, keeps
/// every location the environment already set, sets the others, and a second
/// run leaves every variable as the first run left it.
pub proof fn law_path_setup_settles(e: PathEnv, place: spec_fn(nat, Seq<char>) -> Seq<char>)
    ensures
        run_path_setup(e, place).ui_on,
        e.home is Some ==> run_path_setup(e, place).home == e.home,
        e.runtime is Some ==> run_path_setup(e, place).runtime == e.runtime,
        e.socket is Some ==> run_path_setup(e, place).socket == e.socket,
        run_path_setup(e, place).home is Some,
        run_path_setup(e, place).runtime is Some,
        run_path_setup(e, place).socket is Some,
        run_path_setup(run_path_setup(e, place), place) == run_path_setup(e, place),
{
    let first = path_steps_spec(e.home is Some, e.runtime is Some, e.socket is Some);
    let ui = seq![(0nat, Seq::<char>::empty())];
    let h: Seq<(nat, Seq<char>)> = if e.home is Some {
        Seq::empty()
    } else {
        seq![(1nat, ".hcli"@)]
    };
    let r: Seq<(nat, Seq<char>)> = if e.runtime is Some {
        Seq::empty()
    } else {
        seq![(2nat, "hcli"@)]
    };
    let k: Seq<(nat, Seq<char>)> = if e.socket is Some {
        Seq::empty()
    } else {
        seq![(3nat, "hcli.sock"@)]
    };
    let empty = Seq::<(nat, Seq<char>)>::empty();
    assert(first == ui + h + r + k);
    assert(apply_path_steps(e, empty, place) == e);
    lemma_apply_path_steps_split(e, empty, ui, place);
    assert(empty + ui =~= ui);
    let e0 = apply_path_steps(e, ui, place);
    assert(e0 == PathEnv { ui_on: true, ..e });
    lemma_apply_path_steps_split(e, ui + h + r, k, place);
    lemma_apply_path_steps_split(e, ui + h, r, place);
    lemma_apply_path_steps_split(e, ui, h, place);
    let once = run_path_setup(e, place);
    assert(path_steps_spec(true, true, true) =~= ui);
    assert(apply_path_steps(once, empty, place) == once);
    lemma_apply_path_steps_split(once, empty, ui, place);
}

proof fn lemma_apply_path_steps_split(
    e: PathEnv,
    a: Seq<(nat, Seq<char>)>,
    b: Seq<(nat, Seq<char>)>,
    place: spec_fn(nat, Seq<char>) -> Seq<char>,
)
    requires
        b.len() <= 1,
    ensures
        apply_path_steps(e, a + b, place) == if b.len() == 0 {
            apply_path_steps(e, a, place)
        } else {
            apply_path_step(apply_path_steps(e, a, place), b[0], place)
        },
{
    if b.len() == 0 {
        assert(a + b =~= a);
    } else {
        assert((a + b).drop_last() =~= a);
        assert((a + b).last() == b[0]);
    }
}

/// The provider profile HCLI adds: an OpenAI-compatible `hcap` profile at
/// `https://hcap.ai/v1` with `gpt-6-astra`, its key read from `HCAP_API_KEY`
/// or the separate `hcap.env` file, set as default, with model discovery.
#[derive(Debug, Clone, PartialEq, Eq)]
pub struct ProfileOptions {
    pub name: String,
    pub base_url: String,
    pub model: String,
    pub context_window: Option<u64>,
    pub api_key_env: Option<String>,
    pub api_key: Option<String>,
    pub api_key_stdin: bool,
    pub no_api_key: bool,
    pub auth: Option<String>,
    pub auth_header: Option<String>,
    pub env_file: Option<String>,
    pub set_default: bool,
    pub overwrite: bool,
    pub provider_routing: bool,
    pub model_catalog: bool,
    pub json: bool,
}

pub open spec fn profile_options_ok(p: ProfileOptions) -> bool {
    &&& p.name@ == profile_name()
    &&& p.base_url@ == "https://hcap.ai/v1"@
    &&& p.model@ == "gpt-6-astra"@
    &&& p.context_window is None
    &&& p.api_key_env matches Some(e) && e@ == key_env()
    &&& p.api_key is None
    &&& !p.api_key_stdin
    &&& !p.no_api_key
    &&& p.auth is None
    &&& p.auth_header is None
    &&& p.env_file matches Some(f) && f@ == "hcap.env"@
    &&& p.set_default
    &&& !p.overwrite
    &&& !p.provider_routing
    &&& p.model_catalog
    &&& !p.json
}

/// Whether profile names include HCLI's.
pub open spec fn names_have_hcap(names: Seq<Seq<char>>) -> bool {
    exists|i: int| 0 <= i < names.len() && #[trigger] names[i] == profile_name()
}

/// Whether the configured provider profiles, given by name, include HCLI's.
pub fn has_hcap_profile(names: &Vec<String>) -> (r: bool)
    ensures
        r == names_have_hcap(names@.map_values(|n: String| n@)),
{
    let ghost views = names@.map_values(|n: String| n@);
    let mut i: usize = 0;
    while i < names.len()
        invariant
            i <= names.len(),
            views == names@.map_values(|n: String| n@),
            forall|j: int| 0 <= j < i ==> #[trigger] views[j] != profile_name(),
        decreases names.len() - i,
    {
        if same_text(names[i].as_str(), "hcap") {
            assert(views[i as int] == profile_name());
            return true;
        }
        i = i + 1;
    }
    false
}

/// The profile setup settles after one run: once the profile it adds is
/// configured, the configured names include HCLI's, so a second run adds
/// nothing (see [`profile_to_add`]) and the configuration is left as it is.
pub proof fn law_profile_setup_settles(names: Seq<Seq<char>>, added: ProfileOptions)
    requires
        profile_options_ok(added),
    ensures
        names_have_hcap(names.push(added.name@)),
{
    assert(names.push(added.name@)[names.len() as int] == profile_name());
}

/// The profile to add: none when the configuration already has an `hcap`
/// profile, which is then left as it is.
pub fn profile_to_add(has_hcap_profile: bool) -> (p: Option<ProfileOptions>)
    ensures
        has_hcap_profile <==> p is None,
        p matches Some(o) ==> profile_options_ok(o),
{
    if has_hcap_profile {
        return None;
    }
    Some(
        ProfileOptions {
            name: "hcap".to_owned(),
            base_url: "https://hcap.ai/v1".to_owned(),
            model: "gpt-6-astra".to_owned(),
            context_window: None,
            api_key_env: Some("HCAP_API_KEY".to_owned()),
            api_key: None,
            api_key_stdin: false,
            no_api_key: false,
            auth: None,
            auth_header: None,
            env_file: Some("hcap.env".to_owned()),
            set_default: true,
            overwrite: false,
            provider_routing: false,
            model_catalog: true,
            json: false,
        },
    )
}

/// The catalog is refreshed in the background only for an `hcap` profile
/// with model discovery on.
pub fn catalog_refresh_wanted(profile_model_catalog: Option<bool>) -> (r: bool)
    ensures
        r == (profile_model_catalog == Some(true)),
{
    match profile_model_catalog {
        Some(on) => on,
        None => false,
    }
}

} // verus!
