//! The dispatcher: from a request to show an image to the bytes for the
//! terminal, or to the finding that there is nothing to show.
//!
//! The dispatcher is a state machine. Whoever drives it does the work that
//! needs a terminal: it probes the terminal where the machine asks for it,
//! has the probe build a payload, writes the payload. The machine decides.
//! A terminal without graphics is no error: the run then ends in
//! `NoProtocol`, and the caller shows text instead.
//!
//! Writes to the terminal must not interleave with those of anyone else, or
//! the terminal sees broken control sequences. The machine cannot see to
//! that: it is for the caller to write the payload in one piece.

use crate::detect::{detect, detected, DetectionSignals, ProtocolKind, SignalsView};
use crate::encode::{encode, encode_outcome};
use crate::kitty::{encode_kitty, kitty_stream, CHUNK_SIZE};
use crate::payload::{EncodeError, EncodedPayload};
use crate::prepare::{is_prepared, prepare};
use crate::raster::{RasterImage, RasterView, TerminalGeometry};
use vstd::prelude::*;

verus! {

/// The width in columns that a terminal is taken to have where it does not
/// tell.
pub const DEFAULT_TERM_COLS: u16 = 80;

/// What a live probe of the terminal selected.
#[derive(Clone, Copy, Debug, PartialEq, Eq, Structural)]
pub enum ProbeChoice {
    /// iTerm2 inline images, with a payload that the probe builds.
    ITerm2,
    /// Sixel, with a payload that the probe builds.
    Sixel,
    /// Kitty. The probe offers no payload for it.
    Kitty,
    /// Block characters: the last resort, and no graphics protocol.
    Halfblocks,
}

/// What a live probe of the terminal found.
#[derive(Clone, Copy, Debug, PartialEq, Eq, Structural)]
pub struct ProbeReport {
    pub choice: ProbeChoice,
    /// The measured width of a character cell in pixels.
    pub cell_px_width: u16,
    /// The measured height of a character cell in pixels.
    pub cell_px_height: u16,
    /// The width of the terminal in columns, if known.
    pub term_cols: Option<u16>,
}

/// All that is known when a run starts.
#[derive(Debug)]
pub struct RenderRequest {
    /// The decoded source image, if there is one.
    pub image: Option<RasterImage>,
    pub signals: DetectionSignals,
    /// The size of the terminal, if it could be found out.
    pub geometry: Option<TerminalGeometry>,
    /// Whether the output is an interactive stream, which may be probed.
    pub interactive: bool,
}

/// How the protocol was selected.
#[derive(Clone, Copy, Debug, PartialEq, Eq, Structural)]
pub enum Selection {
    /// By the detector, from the environment. Never `Unsupported`.
    Heuristic(ProtocolKind),
    /// By a live probe. Never `Halfblocks`, and no cell side is zero.
    Probed(ProbeReport),
}

/// Why no image was shown.
#[derive(Debug)]
pub enum Reason {
    /// There is no source image, or it has no pixel.
    NoImage,
    /// The terminal supports no graphics protocol.
    Unsupported,
    /// The encoder failed.
    EncodeFailed(EncodeError),
    /// The probe selected a protocol and then built no payload.
    ProbeFailed,
}

/// The states of a run.
#[derive(Debug)]
pub enum DispatchState {
    /// Nothing is known yet.
    Start,
    /// The request is in; the protocol is to be selected.
    Detecting { request: RenderRequest },
    /// A protocol is selected; the image is to be sized.
    Preparing { image: RasterImage, geometry: Option<TerminalGeometry>, selection: Selection },
    /// The image is sized; it is to be encoded.
    Encoding { prepared: RasterImage, selection: Selection },
    /// The end of a run that shows an image: this is its payload.
    Emitted { payload: EncodedPayload },
    /// The end of a run that shows none.
    NoProtocol { reason: Reason },
}

/// What the driver tells the machine.
#[derive(Debug)]
pub enum DispatchEvent {
    /// A run is asked for.
    Begin(RenderRequest),
    /// There was nothing to do outside.
    Proceed,
    /// The terminal was probed. `None`: it gave no answer in time.
    Probed(Option<ProbeReport>),
    /// The probe was asked for a payload. `None`: it built none.
    Payload(Option<Vec<u8>>),
}

/// What the machine asks of the driver before the next event.
#[derive(Clone, Copy, Debug, PartialEq, Eq, Structural)]
pub enum DispatchAction {
    /// Nothing: go on with `Proceed`.
    Proceed,
    /// Probe the terminal, with a short deadline, and answer with `Probed`.
    Probe,
    /// Have the probe build the payload for the sized image, on an area of
    /// this many columns and rows, and answer with `Payload`.
    BuildPayload { cols: u16, rows: u16 },
    /// Write the payload of the state to the terminal and flush. The run is
    /// over: an image was shown.
    Write,
    /// The run is over: no image was shown.
    Stop,
}

/// The number of character cells that `pixels` pixels take where a cell has
/// `cell` pixels: `pixels / cell` rounded up, one at least, and then cut to
/// sixteen bits as a narrowing conversion does.
pub open spec fn cells(pixels: nat, cell: nat) -> nat {
    let whole = (pixels + cell - 1) / (cell as int);
    (if whole < 1 {
        1
    } else {
        whole
    }) as nat % 0x1_0000
}

/// The area in columns and rows that the probe is asked to fill with an
/// image of `width` by `height` pixels: as many cells as the image takes,
/// and no more columns than the terminal has.
pub open spec fn probe_area(width: nat, height: nat, report: ProbeReport) -> (nat, nat) {
    let cols = cells(width, report.cell_px_width as nat);
    let limit = match report.term_cols {
        Some(known) => known as nat,
        None => DEFAULT_TERM_COLS as nat,
    };
    (if cols < limit {
        cols
    } else {
        limit
    }, cells(height, report.cell_px_height as nat))
}

/// The report of a probe that can be used: a cell of the terminal has
/// pixels. Any other report counts as no report.
pub open spec fn usable(report: Option<ProbeReport>) -> Option<ProbeReport> {
    match report {
        Some(found) => if found.cell_px_width >= 1 && found.cell_px_height >= 1 {
            Some(found)
        } else {
            None
        },
        None => None,
    }
}

/// The protocol that a run goes on with, if any. A usable report of a probe
/// decides, and block characters are not a protocol. Without such a report
/// the detector decides.
pub open spec fn selected(signals: SignalsView, report: Option<ProbeReport>) -> Option<Selection> {
    match usable(report) {
        Some(found) => match found.choice {
            ProbeChoice::Halfblocks => None,
            _ => Some(Selection::Probed(found)),
        },
        None => match detected(signals) {
            ProtocolKind::Unsupported => None,
            kind => Some(Selection::Heuristic(kind)),
        },
    }
}

/// Whether the payload comes from the probe.
pub open spec fn probe_builds(selection: Selection) -> bool {
    selection matches Selection::Probed(found) && (found.choice is ITerm2 || found.choice is Sixel)
}

/// Whether a selection is one that the machine makes: never of no protocol,
/// and with a probe whose cells have pixels.
pub open spec fn valid_selection(selection: Selection) -> bool {
    match selection {
        Selection::Heuristic(kind) => kind != ProtocolKind::Unsupported,
        Selection::Probed(found) => {
            &&& found.choice != ProbeChoice::Halfblocks
            &&& found.cell_px_width >= 1
            &&& found.cell_px_height >= 1
        },
    }
}

/// Whether a request has an image with pixels to show.
pub open spec fn has_image(request: RenderRequest) -> bool {
    request.image matches Some(image) && image@.width >= 1 && image@.height >= 1
}

/// Whether the terminal is to be probed for a request: only where there is
/// an image to show and the output is interactive, since a probe of
/// anything else may never be answered.
pub open spec fn wants_probe(request: RenderRequest) -> bool {
    request.interactive && has_image(request)
}

/// Whether `state` ends a run.
pub open spec fn is_terminal(state: DispatchState) -> bool {
    state is Emitted || state is NoProtocol
}

/// Whether `state` is one that the machine itself can be in: what it holds
/// of a selection is one that the machine makes.
pub open spec fn well_formed(state: DispatchState) -> bool {
    match state {
        DispatchState::Preparing { selection, .. } => valid_selection(selection),
        DispatchState::Encoding { selection, .. } => valid_selection(selection),
        _ => true,
    }
}

/// Whether `event` is the one that `state` waits for. The states that end a
/// run wait for none.
pub open spec fn waits_for(state: DispatchState, event: DispatchEvent) -> bool {
    match state {
        DispatchState::Start => event is Begin,
        DispatchState::Detecting { request } => if wants_probe(request) {
            event is Probed
        } else {
            event is Proceed
        },
        DispatchState::Preparing { .. } => event is Proceed,
        DispatchState::Encoding { selection, .. } => if probe_builds(selection) {
            event is Payload
        } else {
            event is Proceed
        },
        DispatchState::Emitted { .. } => false,
        DispatchState::NoProtocol { .. } => false,
    }
}

/// Whether a step can be taken from `state` on `event`.
pub open spec fn accepts(state: DispatchState, event: DispatchEvent) -> bool {
    well_formed(state) && waits_for(state, event)
}

/// What the encoder handed back, as the end of a run tells it.
pub open spec fn encoder_outcome(end: DispatchState) -> Option<
    Result<EncodedPayload, EncodeError>,
> {
    match end {
        DispatchState::Emitted { payload } => Some(Ok(payload)),
        DispatchState::NoProtocol { reason: Reason::EncodeFailed(error) } => Some(Err(error)),
        _ => None,
    }
}

/// Whether the action fits the state it comes with at the end of a run:
/// `Write` with `Emitted`, `Stop` with `NoProtocol`.
pub open spec fn ends_with(after: DispatchState, action: DispatchAction) -> bool {
    match after {
        DispatchState::Emitted { .. } => action is Write,
        DispatchState::NoProtocol { .. } => action is Stop,
        _ => false,
    }
}

/// The step out of `Detecting`: to `NoProtocol` without an image with pixels
/// or without a protocol, else to `Preparing`.
pub open spec fn detecting_step(
    request: RenderRequest,
    report: Option<ProbeReport>,
    after: DispatchState,
    action: DispatchAction,
) -> bool {
    match request.image {
        Some(image) => if !has_image(request) {
            after matches DispatchState::NoProtocol { reason: Reason::NoImage } && action is Stop
        } else {
            match selected(request.signals@, report) {
                Some(selection) => {
                    &&& after == (DispatchState::Preparing {
                        image,
                        geometry: request.geometry,
                        selection,
                    })
                    &&& action is Proceed
                },
                None => after matches DispatchState::NoProtocol { reason: Reason::Unsupported }
                    && action is Stop,
            }
        },
        None => after matches DispatchState::NoProtocol { reason: Reason::NoImage }
            && action is Stop,
    }
}

/// The step out of `Preparing`: always to `Encoding`, with the image sized.
/// Where the probe builds the payload it is asked to.
pub open spec fn preparing_step(
    image: RasterImage,
    geometry: Option<TerminalGeometry>,
    selection: Selection,
    after: DispatchState,
    action: DispatchAction,
) -> bool {
    &&& after matches DispatchState::Encoding { prepared, selection: kept }
    &&& kept == selection
    &&& is_prepared(image@, geometry, prepared@)
    &&& match selection {
        Selection::Probed(found) if probe_builds(selection) => {
            let area = probe_area(prepared@.width, prepared@.height, found);
            action matches DispatchAction::BuildPayload { cols, rows } && cols == area.0 && rows
                == area.1
        },
        _ => action is Proceed,
    }
}

/// The step out of `Encoding`: to `Emitted` with the payload, or to
/// `NoProtocol` where there is none.
pub open spec fn encoding_step(
    prepared: RasterImage,
    selection: Selection,
    event: DispatchEvent,
    after: DispatchState,
    action: DispatchAction,
) -> bool {
    &&& ends_with(after, action)
    &&& match selection {
        Selection::Heuristic(kind) => encoder_outcome(after) matches Some(outcome)
            && encode_outcome(kind, prepared@, outcome),
        Selection::Probed(found) => if probe_builds(selection) {
            match event {
                DispatchEvent::Payload(Some(bytes)) => after matches DispatchState::Emitted {
                    payload,
                } && payload@ == bytes@,
                _ => after matches DispatchState::NoProtocol { reason: Reason::ProbeFailed },
            }
        } else {
            after matches DispatchState::Emitted { payload } && payload@ == kitty_stream(
                prepared@,
                CHUNK_SIZE as nat,
            )
        },
    }
}

/// One step of the machine: from `before`, on `event`, to `after`, asking
/// the driver for `action`.
pub open spec fn transition(
    before: DispatchState,
    event: DispatchEvent,
    after: DispatchState,
    action: DispatchAction,
) -> bool {
    match before {
        DispatchState::Start => {
            &&& event matches DispatchEvent::Begin(request)
            &&& after == (DispatchState::Detecting { request })
            &&& action == (if wants_probe(request) {
                DispatchAction::Probe
            } else {
                DispatchAction::Proceed
            })
        },
        DispatchState::Detecting { request } => detecting_step(
            request,
            match event {
                DispatchEvent::Probed(report) => report,
                _ => None,
            },
            after,
            action,
        ),
        DispatchState::Preparing { image, geometry, selection } => preparing_step(
            image,
            geometry,
            selection,
            after,
            action,
        ),
        DispatchState::Encoding { prepared, selection } => encoding_step(
            prepared,
            selection,
            event,
            after,
            action,
        ),
        DispatchState::Emitted { .. } => false,
        DispatchState::NoProtocol { .. } => false,
    }
}

/// Computes the number of character cells that `pixels` pixels take.
pub fn compute_cells(pixels: u32, cell: u16) -> (count: u16)
    requires
        cell >= 1,
    ensures
        count == cells(pixels as nat, cell as nat),
{
    let whole: u64 = (pixels as u64 + cell as u64 - 1) / (cell as u64);
    let kept: u64 = if whole < 1 {
        1
    } else {
        whole
    };
    (kept % 0x1_0000) as u16
}

/// Computes the area that the probe is asked to fill.
pub fn compute_probe_area(width: u32, height: u32, report: ProbeReport) -> (area: (u16, u16))
    requires
        report.cell_px_width >= 1,
        report.cell_px_height >= 1,
    ensures
        (area.0 as nat, area.1 as nat) == probe_area(width as nat, height as nat, report),
{
    let cols = compute_cells(width, report.cell_px_width);
    let limit = match report.term_cols {
        Some(known) => known,
        None => DEFAULT_TERM_COLS,
    };
    let rows = compute_cells(height, report.cell_px_height);
    if cols < limit {
        (cols, rows)
    } else {
        (limit, rows)
    }
}

/// Selects the protocol that a run goes on with.
pub fn select(signals: &DetectionSignals, report: Option<ProbeReport>) -> (selection: Option<
    Selection,
>)
    ensures
        selection == selected(signals@, report),
{
    if let Some(found) = report {
        if found.cell_px_width >= 1 && found.cell_px_height >= 1 {
            return match found.choice {
                ProbeChoice::Halfblocks => None,
                _ => Some(Selection::Probed(found)),
            };
        }
    }
    match detect(signals) {
        ProtocolKind::Unsupported => None,
        kind => Some(Selection::Heuristic(kind)),
    }
}

/// Whether the payload comes from the probe.
fn payload_from_probe(selection: &Selection) -> (builds: bool)
    ensures
        builds == probe_builds(*selection),
{
    match selection {
        Selection::Probed(found) => match found.choice {
            ProbeChoice::ITerm2 => true,
            ProbeChoice::Sixel => true,
            _ => false,
        },
        Selection::Heuristic(_) => false,
    }
}

/// Whether the selection is one that the machine makes.
fn is_valid_selection(selection: &Selection) -> (valid: bool)
    ensures
        valid == valid_selection(*selection),
{
    match selection {
        Selection::Heuristic(kind) => *kind != ProtocolKind::Unsupported,
        Selection::Probed(found) => found.choice != ProbeChoice::Halfblocks && found.cell_px_width
            >= 1 && found.cell_px_height >= 1,
    }
}

/// Whether the terminal is to be probed for a request.
fn probe_wanted(request: &RenderRequest) -> (wanted: bool)
    ensures
        wanted == wants_probe(*request),
{
    match &request.image {
        Some(image) => request.interactive && !image.is_empty(),
        None => false,
    }
}

/// Whether a step can be taken from `state` on `event`.
pub fn is_accepted(state: &DispatchState, event: &DispatchEvent) -> (accepted: bool)
    ensures
        accepted == accepts(*state, *event),
{
    match state {
        DispatchState::Start => match event {
            DispatchEvent::Begin(_) => true,
            _ => false,
        },
        DispatchState::Detecting { request } => match event {
            DispatchEvent::Probed(_) => probe_wanted(request),
            DispatchEvent::Proceed => !probe_wanted(request),
            _ => false,
        },
        DispatchState::Preparing { selection, .. } => match event {
            DispatchEvent::Proceed => is_valid_selection(selection),
            _ => false,
        },
        DispatchState::Encoding { selection, .. } => match event {
            DispatchEvent::Payload(_) => is_valid_selection(selection) && payload_from_probe(
                selection,
            ),
            DispatchEvent::Proceed => is_valid_selection(selection) && !payload_from_probe(
                selection,
            ),
            _ => false,
        },
        DispatchState::Emitted { .. } => false,
        DispatchState::NoProtocol { .. } => false,
    }
}

/// Ends a run with what the encoder handed back.
fn finish(outcome: Result<EncodedPayload, EncodeError>) -> (end: (DispatchState, DispatchAction))
    ensures
        ends_with(end.0, end.1),
        encoder_outcome(end.0) == Some(outcome),
{
    match outcome {
        Ok(payload) => (DispatchState::Emitted { payload }, DispatchAction::Write),
        Err(error) => (
            DispatchState::NoProtocol { reason: Reason::EncodeFailed(error) },
            DispatchAction::Stop,
        ),
    }
}

/// Takes one step: the machine goes from `state` to the next state on
/// `event`, and says what the driver is to do before the next step.
pub fn step(state: DispatchState, event: DispatchEvent) -> (next: (DispatchState, DispatchAction))
    requires
        accepts(state, event),
    ensures
        transition(state, event, next.0, next.1),
        well_formed(next.0),
{
    match state {
        DispatchState::Start => match event {
            DispatchEvent::Begin(request) => {
                let action = if probe_wanted(&request) {
                    DispatchAction::Probe
                } else {
                    DispatchAction::Proceed
                };
                (DispatchState::Detecting { request }, action)
            },
            _ => (DispatchState::Start, DispatchAction::Stop),
        },
        DispatchState::Detecting { request } => {
            let report = match event {
                DispatchEvent::Probed(report) => report,
                _ => None,
            };
            let RenderRequest { image, signals, geometry, interactive: _ } = request;
            match image {
                Some(image) => {
                    if image.is_empty() {
                        return (
                            DispatchState::NoProtocol { reason: Reason::NoImage },
                            DispatchAction::Stop,
                        );
                    }
                    match select(&signals, report) {
                        Some(selection) => (
                            DispatchState::Preparing { image, geometry, selection },
                            DispatchAction::Proceed,
                        ),
                        None => (
                            DispatchState::NoProtocol { reason: Reason::Unsupported },
                            DispatchAction::Stop,
                        ),
                    }
                },
                None => (
                    DispatchState::NoProtocol { reason: Reason::NoImage },
                    DispatchAction::Stop,
                ),
            }
        },
        DispatchState::Preparing { image, geometry, selection } => {
            let prepared = prepare(image, geometry);
            let action = match selection {
                Selection::Probed(found) => {
                    if payload_from_probe(&selection) {
                        let (cols, rows) = compute_probe_area(
                            prepared.width(),
                            prepared.height(),
                            found,
                        );
                        DispatchAction::BuildPayload { cols, rows }
                    } else {
                        DispatchAction::Proceed
                    }
                },
                Selection::Heuristic(_) => DispatchAction::Proceed,
            };
            (DispatchState::Encoding { prepared, selection }, action)
        },
        DispatchState::Encoding { prepared, selection } => {
            match selection {
                Selection::Heuristic(kind) => finish(encode(kind, &prepared)),
                Selection::Probed(_) => {
                    if payload_from_probe(&selection) {
                        match event {
                            DispatchEvent::Payload(Some(bytes)) => (
                                DispatchState::Emitted { payload: EncodedPayload { bytes } },
                                DispatchAction::Write,
                            ),
                            _ => (
                                DispatchState::NoProtocol { reason: Reason::ProbeFailed },
                                DispatchAction::Stop,
                            ),
                        }
                    } else {
                        (
                            DispatchState::Emitted { payload: encode_kitty(&prepared) },
                            DispatchAction::Write,
                        )
                    }
                },
            }
        },
        DispatchState::Emitted { payload } => (
            DispatchState::Emitted { payload },
            DispatchAction::Write,
        ),
        DispatchState::NoProtocol { reason } => (
            DispatchState::NoProtocol { reason },
            DispatchAction::Stop,
        ),
    }
}

/// The edges of the machine: from `Start` to `Detecting`; from `Detecting`
/// to `Preparing` or `NoProtocol`; from `Preparing` to `Encoding`; from
/// `Encoding` to `Emitted` or `NoProtocol`.
pub open spec fn is_edge(before: DispatchState, after: DispatchState) -> bool {
    match before {
        DispatchState::Start => after is Detecting,
        DispatchState::Detecting { .. } => after is Preparing || after is NoProtocol,
        DispatchState::Preparing { .. } => after is Encoding,
        DispatchState::Encoding { .. } => after is Emitted || after is NoProtocol,
        DispatchState::Emitted { .. } => false,
        DispatchState::NoProtocol { .. } => false,
    }
}

/// The number of steps that a run can still take from `state`, at most.
pub open spec fn steps_left(state: DispatchState) -> nat {
    match state {
        DispatchState::Start => 4,
        DispatchState::Detecting { .. } => 3,
        DispatchState::Preparing { .. } => 2,
        DispatchState::Encoding { .. } => 1,
        DispatchState::Emitted { .. } => 0,
        DispatchState::NoProtocol { .. } => 0,
    }
}

/// Every step follows an edge of the machine and brings the run closer to
/// its end. The run is over exactly when the machine says `Write`, which
/// comes with `Emitted`, or `Stop`, which comes with `NoProtocol`. No step
/// leaves a state that ends a run.
pub proof fn lemma_steps_follow_the_edges(
    before: DispatchState,
    event: DispatchEvent,
    after: DispatchState,
    action: DispatchAction,
)
    requires
        transition(before, event, after, action),
    ensures
        !is_terminal(before),
        is_edge(before, after),
        steps_left(after) < steps_left(before),
        after is Emitted <==> action is Write,
        after is NoProtocol <==> action is Stop,
{
}

/// No encoder is called for a terminal without graphics: where neither
/// probe nor detector selects a protocol, the step out of `Detecting` ends
/// the run, and the image is never sized or encoded.
pub proof fn lemma_no_protocol_ends_the_run(
    request: RenderRequest,
    event: DispatchEvent,
    after: DispatchState,
    action: DispatchAction,
)
    requires
        transition(DispatchState::Detecting { request }, event, after, action),
        selected(
            request.signals@,
            match event {
                DispatchEvent::Probed(report) => report,
                _ => None,
            },
        ) is None,
    ensures
        after is NoProtocol,
        action is Stop,
{
}

/// Whether `end` holds what the encoder of `kind` hands back for `prepared`.
pub open spec fn encoded_end(kind: ProtocolKind, prepared: RasterView, end: DispatchState) -> bool {
    encoder_outcome(end) matches Some(outcome) && encode_outcome(kind, prepared, outcome)
}

/// What a run without a probe ends in: `NoProtocol` without an image with
/// pixels, or where the detector selects nothing; else what the encoder of
/// the detected protocol hands back for the sized image.
pub open spec fn unprobed_end(request: RenderRequest, end: DispatchState) -> bool {
    match request.image {
        Some(image) => if !has_image(request) {
            end matches DispatchState::NoProtocol { reason: Reason::NoImage }
        } else {
            match detected(request.signals@) {
                ProtocolKind::Unsupported => end matches DispatchState::NoProtocol {
                    reason: Reason::Unsupported,
                },
                kind => exists|prepared: RasterView|
                    is_prepared(image@, request.geometry, prepared) && #[trigger] encoded_end(
                        kind,
                        prepared,
                        end,
                    ),
            }
        },
        None => end matches DispatchState::NoProtocol { reason: Reason::NoImage },
    }
}

/// Runs the machine from start to end for a terminal that is not probed, or
/// whose probe gives no answer: the detector alone selects the protocol.
pub fn run_unprobed(request: RenderRequest) -> (end: DispatchState)
    ensures
        is_terminal(end),
        unprobed_end(request, end),
{
    let (detecting, asked) = step(DispatchState::Start, DispatchEvent::Begin(request));
    let answer = match asked {
        DispatchAction::Probe => DispatchEvent::Probed(None),
        _ => DispatchEvent::Proceed,
    };
    let (preparing, _) = step(detecting, answer);
    match preparing {
        DispatchState::Preparing { image, geometry, selection } => {
            let state = DispatchState::Preparing { image, geometry, selection };
            let (encoding, _) = step(state, DispatchEvent::Proceed);
            assert(encoding matches DispatchState::Encoding { prepared, .. } && is_prepared(
                image@,
                geometry,
                prepared@,
            ));
            let ghost sized = encoding->prepared@;
            let (end, _) = step(encoding, DispatchEvent::Proceed);
            assert(encoded_end(selection->Heuristic_0, sized, end));
            end
        },
        end => end,
    }
}

} // verus!
