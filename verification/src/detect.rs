//! Capability detection: which graphics protocol the terminal is taken to
//! support, judged from a snapshot of the environment.
//!
//! No terminal answers a capability query reliably, so this is a heuristic.
//! The list of terminal names taken to support Sixel is a best guess with
//! known false positives.

use crate::text::{chars_of, contains_chars, contains_text, lowercase, occurs, to_lowercase};
use vstd::prelude::*;

verus! {

/// An in-band graphics protocol, or none.
#[derive(Clone, Copy, Debug, PartialEq, Eq, Structural)]
pub enum ProtocolKind {
    /// iTerm2 inline images.
    ITerm2,
    /// The Kitty graphics protocol.
    Kitty,
    /// Sixel.
    Sixel,
    /// No graphics protocol: the terminal shows text only.
    Unsupported,
}

/// What the environment says about the terminal, read once per detection.
/// A variable that is unset or not valid Unicode counts as absent.
#[derive(Debug)]
pub struct DetectionSignals {
    /// An explicit override: the protocol to use whatever else is set.
    pub force: Option<ProtocolKind>,
    /// `WT_SESSION` is set.
    pub windows_terminal_session: bool,
    /// `WT_PROFILE_ID` is set.
    pub windows_terminal_profile: bool,
    /// The value of `TERM_PROGRAM`.
    pub term_program: Option<String>,
    /// `ITERM_SESSION_ID` is set.
    pub iterm_session: bool,
    /// `KITTY_WINDOW_ID` is set.
    pub kitty_window: bool,
    /// `KITTY_PID` is set.
    pub kitty_pid: bool,
    /// The value of `TERM`.
    pub term: Option<String>,
}

/// The signals as plain values.
pub struct SignalsView {
    pub force: Option<ProtocolKind>,
    pub windows_terminal_session: bool,
    pub windows_terminal_profile: bool,
    pub term_program: Option<Seq<char>>,
    pub iterm_session: bool,
    pub kitty_window: bool,
    pub kitty_pid: bool,
    pub term: Option<Seq<char>>,
}

impl View for DetectionSignals {
    type V = SignalsView;

    open spec fn view(&self) -> SignalsView {
        SignalsView {
            force: self.force,
            windows_terminal_session: self.windows_terminal_session,
            windows_terminal_profile: self.windows_terminal_profile,
            term_program: match self.term_program {
                Some(program) => Some(program@),
                None => None,
            },
            iterm_session: self.iterm_session,
            kitty_window: self.kitty_window,
            kitty_pid: self.kitty_pid,
            term: match self.term {
                Some(term) => Some(term@),
                None => None,
            },
        }
    }
}

/// Whether a lowercased terminal name is one of those taken to support
/// Sixel: it names Sixel itself or a terminal on the list.
pub open spec fn names_sixel_terminal(lower: Seq<char>) -> bool {
    ||| occurs(lower, "sixel"@)
    ||| occurs(lower, "xterm"@)
    ||| occurs(lower, "mlterm"@)
    ||| occurs(lower, "kterm"@)
    ||| occurs(lower, "rxvt"@)
    ||| occurs(lower, "konsole"@)
    ||| occurs(lower, "sakura"@)
    ||| occurs(lower, "eterm"@)
}

/// Whether the hint of a terminal multiplexer is present.
pub open spec fn multiplexer_hinted(signals: SignalsView) -> bool {
    signals.windows_terminal_session || signals.windows_terminal_profile
}

/// Whether the markers of iTerm2 are present: `TERM_PROGRAM` is exactly
/// `iTerm.app`, or a session id is set.
pub open spec fn iterm2_marked(signals: SignalsView) -> bool {
    ||| signals.term_program == Some("iTerm.app"@)
    ||| signals.iterm_session
}

/// Whether the markers of Kitty are present: a window id, a process id, or a
/// terminal name that holds `kitty` in any case.
pub open spec fn kitty_marked(signals: SignalsView) -> bool {
    ||| signals.kitty_window
    ||| signals.kitty_pid
    ||| (signals.term matches Some(term) && occurs(lowercase(term), "kitty"@))
}

/// Whether the terminal name is on the list for Sixel, in any case.
pub open spec fn sixel_listed(signals: SignalsView) -> bool {
    signals.term matches Some(term) && names_sixel_terminal(lowercase(term))
}

/// Whether Sixel is taken to be supported: forced, hinted at by a
/// multiplexer, or listed.
pub open spec fn sixel_supported(signals: SignalsView) -> bool {
    ||| signals.force == Some(ProtocolKind::Sixel)
    ||| multiplexer_hinted(signals)
    ||| sixel_listed(signals)
}

/// The protocol that detection selects. The first of these that applies
/// decides: an explicit override; the multiplexer hint, for Sixel; the
/// markers of iTerm2; the markers of Kitty; the list of Sixel terminals.
pub open spec fn detected(signals: SignalsView) -> ProtocolKind {
    if let Some(kind) = signals.force {
        kind
    } else if multiplexer_hinted(signals) {
        ProtocolKind::Sixel
    } else if iterm2_marked(signals) {
        ProtocolKind::ITerm2
    } else if kitty_marked(signals) {
        ProtocolKind::Kitty
    } else if sixel_listed(signals) {
        ProtocolKind::Sixel
    } else {
        ProtocolKind::Unsupported
    }
}

/// Whether a terminal name, already in lowercase, is one of those taken to
/// support Sixel.
pub fn is_sixel_terminal_name(lower: &str) -> (listed: bool)
    ensures
        listed == names_sixel_terminal(lower@),
{
    let name = chars_of(lower);
    contains_chars(&name, &chars_of("sixel")) || contains_chars(&name, &chars_of("xterm"))
        || contains_chars(&name, &chars_of("mlterm")) || contains_chars(&name, &chars_of("kterm"))
        || contains_chars(&name, &chars_of("rxvt")) || contains_chars(&name, &chars_of("konsole"))
        || contains_chars(&name, &chars_of("sakura")) || contains_chars(&name, &chars_of("eterm"))
}

/// Whether a terminal name, already in lowercase, names Kitty.
pub fn is_kitty_terminal_name(lower: &str) -> (named: bool)
    ensures
        named == occurs(lower@, "kitty"@),
{
    contains_text(lower, "kitty")
}

/// Whether the terminal shows the markers of iTerm2.
pub fn detect_iterm2(signals: &DetectionSignals) -> (marked: bool)
    ensures
        marked == iterm2_marked(signals@),
{
    if signals.iterm_session {
        return true;
    }
    match &signals.term_program {
        Some(program) => {
            let expected = String::from_str("iTerm.app");
            *program == expected
        },
        None => false,
    }
}

/// Whether the terminal shows the markers of Kitty.
pub fn detect_kitty(signals: &DetectionSignals) -> (marked: bool)
    ensures
        marked == kitty_marked(signals@),
{
    if signals.kitty_window || signals.kitty_pid {
        return true;
    }
    match &signals.term {
        Some(term) => {
            let lower = to_lowercase(term.as_str());
            is_kitty_terminal_name(lower.as_str())
        },
        None => false,
    }
}

/// Whether the terminal name is on the list for Sixel.
fn detect_sixel_listed(signals: &DetectionSignals) -> (listed: bool)
    ensures
        listed == sixel_listed(signals@),
{
    match &signals.term {
        Some(term) => {
            let lower = to_lowercase(term.as_str());
            is_sixel_terminal_name(lower.as_str())
        },
        None => false,
    }
}

/// Whether the terminal is taken to support Sixel.
pub fn detect_sixel(signals: &DetectionSignals) -> (supported: bool)
    ensures
        supported == sixel_supported(signals@),
{
    if let Some(kind) = signals.force {
        if kind == ProtocolKind::Sixel {
            return true;
        }
    }
    if signals.windows_terminal_session || signals.windows_terminal_profile {
        return true;
    }
    detect_sixel_listed(signals)
}

/// Selects the protocol for the terminal that `signals` describe. Never
/// fails: signals that are missing select nothing.
pub fn detect(signals: &DetectionSignals) -> (kind: ProtocolKind)
    ensures
        kind == detected(signals@),
{
    if let Some(kind) = signals.force {
        return kind;
    }
    if signals.windows_terminal_session || signals.windows_terminal_profile {
        ProtocolKind::Sixel
    } else if detect_iterm2(signals) {
        ProtocolKind::ITerm2
    } else if detect_kitty(signals) {
        ProtocolKind::Kitty
    } else if detect_sixel_listed(signals) {
        ProtocolKind::Sixel
    } else {
        ProtocolKind::Unsupported
    }
}

/// Which of the protocols the terminal is taken to support, each judged by
/// its own signals.
#[derive(Clone, Copy, Debug, PartialEq, Eq, Structural)]
pub struct ProtocolSupport {
    pub iterm2: bool,
    pub kitty: bool,
    pub sixel: bool,
}

impl ProtocolSupport {
    /// Whether at least one protocol is supported.
    pub open spec fn spec_any(&self) -> bool {
        self.iterm2 || self.kitty || self.sixel
    }

    /// Whether at least one protocol is supported.
    pub fn any(&self) -> (any: bool)
        ensures
            any == self.spec_any(),
    {
        self.iterm2 || self.kitty || self.sixel
    }
}

/// Reports for each protocol whether the terminal is taken to support it.
pub fn protocol_support(signals: &DetectionSignals) -> (support: ProtocolSupport)
    ensures
        support == (ProtocolSupport {
            iterm2: iterm2_marked(signals@),
            kitty: kitty_marked(signals@),
            sixel: sixel_supported(signals@),
        }),
{
    ProtocolSupport {
        iterm2: detect_iterm2(signals),
        kitty: detect_kitty(signals),
        sixel: detect_sixel(signals),
    }
}

/// Detection is a function of the signals: two snapshots that hold the same
/// values select the same protocol.
pub proof fn lemma_detection_is_a_function(first: DetectionSignals, second: DetectionSignals)
    requires
        first@ == second@,
    ensures
        detected(first@) == detected(second@),
{
}

/// An explicit override decides, whatever the other signals are.
pub proof fn lemma_override_wins(signals: SignalsView, kind: ProtocolKind)
    requires
        signals.force == Some(kind),
    ensures
        detected(signals) == kind,
{
}

} // verus!
