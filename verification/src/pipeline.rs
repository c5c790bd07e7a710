//! The context-acquisition pipeline as a state machine.
//!
//! One run is strictly linear: the display comes up, a window and a
//! framebuffer config are chosen, context creation is attempted across the
//! three API tiers, the surface is bound and the context made current, and
//! the four identity strings are queried. Any step's failure short-circuits
//! to a terminal failed phase carrying a human-readable message; success
//! ends in a terminal reported phase carrying the finished report.
//!
//! The unverified shell performs each platform action and feeds the outcome
//! back as an [`Event`]; [`step`] decides everything else. The spec-level
//! machine [`step_v`] over phase and event views pins each transition down,
//! and the proofs at the end state the pipeline's laws: it never moves
//! backwards, it is deterministic in the platform's responses, exhausting
//! all three context requests yields exactly the no-context error line, and
//! a missing identity string never fails a run.

use vstd::prelude::*;
use vstd::string::StringExecFns;
use crate::negotiate::Attempt;
use crate::negotiate::attempt_tier_spec;
use crate::negotiate::next_attempt;
use crate::negotiate::next_attempt_spec;
use crate::negotiate::attempts_left;
use crate::probe::decode_gl_string;
use crate::probe::decoded_field;
use crate::report::GLDriver;
use crate::report::GLInfo;
use crate::report::ReportV;
use crate::report::render_spec;

verus! {

/// Why choosing the window and framebuffer config failed: a platform error
/// with its own message, or an empty config enumeration.
#[derive(Debug)]
pub enum SetupFault {
    Platform { detail: String },
    NoConfig,
}

/// The shape of a [`SetupFault`].
pub enum SetupFaultV {
    Platform { detail: Seq<char> },
    NoConfig,
}

impl View for SetupFault {
    type V = SetupFaultV;

    open spec fn view(&self) -> SetupFaultV {
        match self {
            SetupFault::Platform { detail } => SetupFaultV::Platform { detail: detail@ },
            SetupFault::NoConfig => SetupFaultV::NoConfig,
        }
    }
}

/// Why binding and activating the context failed: building the surface
/// attributes, creating the window surface, or making the context current.
#[derive(Debug)]
pub enum BindFault {
    Attributes { detail: String },
    Surface { detail: String },
    MakeCurrent { detail: String },
}

/// The shape of a [`BindFault`].
pub enum BindFaultV {
    Attributes { detail: Seq<char> },
    Surface { detail: Seq<char> },
    MakeCurrent { detail: Seq<char> },
}

impl View for BindFault {
    type V = BindFaultV;

    open spec fn view(&self) -> BindFaultV {
        match self {
            BindFault::Attributes { detail } => BindFaultV::Attributes { detail: detail@ },
            BindFault::Surface { detail } => BindFaultV::Surface { detail: detail@ },
            BindFault::MakeCurrent { detail } => BindFaultV::MakeCurrent { detail: detail@ },
        }
    }
}

/// What the platform reports back after one pipeline action.
#[derive(Debug)]
pub enum Event {
    /// The display and event loop came up, or failed with a message.
    DisplayInit { fault: Option<String> },
    /// The invisible window and the first offered config were obtained,
    /// or the setup failed.
    WindowAndConfig { fault: Option<SetupFault> },
    /// The pending context-creation request was granted or denied.
    ContextAttempt { granted: bool },
    /// The surface was built and the context made current, or binding
    /// failed.
    Bind { fault: Option<BindFault> },
    /// The four identity queries were issued; each yields the bytes of a
    /// string or nothing.
    StringsQueried {
        vendor: Option<Vec<u8>>,
        renderer: Option<Vec<u8>>,
        version: Option<Vec<u8>>,
        shading_language: Option<Vec<u8>>,
    },
}

/// The shape of an [`Event`].
pub enum EventV {
    DisplayInit { fault: Option<Seq<char>> },
    WindowAndConfig { fault: Option<SetupFaultV> },
    ContextAttempt { granted: bool },
    Bind { fault: Option<BindFaultV> },
    StringsQueried {
        vendor: Option<Seq<u8>>,
        renderer: Option<Seq<u8>>,
        version: Option<Seq<u8>>,
        shading_language: Option<Seq<u8>>,
    },
}

impl View for Event {
    type V = EventV;

    open spec fn view(&self) -> EventV {
        match self {
            Event::DisplayInit { fault } => EventV::DisplayInit {
                fault: match fault {
                    Option::None => None,
                    Option::Some(d) => Some(d@),
                },
            },
            Event::WindowAndConfig { fault } => EventV::WindowAndConfig {
                fault: match fault {
                    Option::None => None,
                    Option::Some(f) => Some(f@),
                },
            },
            Event::ContextAttempt { granted } => EventV::ContextAttempt { granted: *granted },
            Event::Bind { fault } => EventV::Bind {
                fault: match fault {
                    Option::None => None,
                    Option::Some(f) => Some(f@),
                },
            },
            Event::StringsQueried { vendor, renderer, version, shading_language } => EventV::StringsQueried {
                vendor: match vendor {
                    Option::None => None,
                    Option::Some(b) => Some(b@),
                },
                renderer: match renderer {
                    Option::None => None,
                    Option::Some(b) => Some(b@),
                },
                version: match version {
                    Option::None => None,
                    Option::Some(b) => Some(b@),
                },
                shading_language: match shading_language {
                    Option::None => None,
                    Option::Some(b) => Some(b@),
                },
            },
        }
    }
}

/// Where one run stands. A run starts uninitialized and ends reported or
/// failed; both ends are terminal.
#[derive(Debug)]
pub enum Phase {
    Uninitialized,
    DisplayReady,
    /// The window and config are chosen and the given context-creation
    /// request is pending.
    Negotiating { attempt: Attempt },
    ContextCreated { tier: GLDriver },
    ContextCurrent { tier: GLDriver },
    Reported { report: GLInfo },
    Failed { message: String },
}

/// The shape of a [`Phase`].
pub enum PhaseV {
    Uninitialized,
    DisplayReady,
    Negotiating { attempt: Attempt },
    ContextCreated { tier: GLDriver },
    ContextCurrent { tier: GLDriver },
    Reported { report: ReportV },
    Failed { message: Seq<char> },
}

impl View for Phase {
    type V = PhaseV;

    open spec fn view(&self) -> PhaseV {
        match self {
            Phase::Uninitialized => PhaseV::Uninitialized,
            Phase::DisplayReady => PhaseV::DisplayReady,
            Phase::Negotiating { attempt } => PhaseV::Negotiating { attempt: *attempt },
            Phase::ContextCreated { tier } => PhaseV::ContextCreated { tier: *tier },
            Phase::ContextCurrent { tier } => PhaseV::ContextCurrent { tier: *tier },
            Phase::Reported { report } => PhaseV::Reported { report: report@ },
            Phase::Failed { message } => PhaseV::Failed { message: message@ },
        }
    }
}

/// The message a display-initialization fault yields.
pub open spec fn display_fault_message(detail: Seq<char>) -> Seq<char> {
    "Failed to create event loop: "@ + detail
}

/// The message a window-and-config fault yields.
pub open spec fn setup_fault_message(f: SetupFaultV) -> Seq<char> {
    match f {
        SetupFaultV::Platform { detail } => detail,
        SetupFaultV::NoConfig => "Could not get any configs"@,
    }
}

/// The message a bind fault yields.
pub open spec fn bind_fault_message(f: BindFaultV) -> Seq<char> {
    match f {
        BindFaultV::Attributes { detail } => "Failed to build surface attributes: "@ + detail,
        BindFaultV::Surface { detail } => "Failed to create a window surface: "@ + detail,
        BindFaultV::MakeCurrent { detail } => "Failed to make the context current: "@ + detail,
    }
}

/// The message an exhausted negotiation yields.
pub open spec fn no_context_message() -> Seq<char> {
    "Failed to create GL context"@
}

/// Which event each phase expects; terminal phases expect none.
pub open spec fn expects(p: PhaseV, e: EventV) -> bool {
    match p {
        PhaseV::Uninitialized => e is DisplayInit,
        PhaseV::DisplayReady => e is WindowAndConfig,
        PhaseV::Negotiating { .. } => e is ContextAttempt,
        PhaseV::ContextCreated { .. } => e is Bind,
        PhaseV::ContextCurrent { .. } => e is StringsQueried,
        PhaseV::Reported { .. } => false,
        PhaseV::Failed { .. } => false,
    }
}

/// The pipeline's transition function. A phase fed an event it does not
/// expect is left unchanged.
pub open spec fn step_v(p: PhaseV, e: EventV) -> PhaseV {
    match (p, e) {
        (PhaseV::Uninitialized, EventV::DisplayInit { fault: None }) => PhaseV::DisplayReady,
        (PhaseV::Uninitialized, EventV::DisplayInit { fault: Some(detail) }) => (PhaseV::Failed {
            message: display_fault_message(detail),
        }),
        (PhaseV::DisplayReady, EventV::WindowAndConfig { fault: None }) => (PhaseV::Negotiating {
            attempt: Attempt::Core,
        }),
        (PhaseV::DisplayReady, EventV::WindowAndConfig { fault: Some(f) }) => (PhaseV::Failed {
            message: setup_fault_message(f),
        }),
        (
            PhaseV::Negotiating { attempt },
            EventV::ContextAttempt { granted: true },
        ) => (PhaseV::ContextCreated { tier: attempt_tier_spec(attempt) }),
        (PhaseV::Negotiating { attempt }, EventV::ContextAttempt { granted: false }) => match next_attempt_spec(
            attempt,
        ) {
            Some(n) => PhaseV::Negotiating { attempt: n },
            None => PhaseV::Failed { message: no_context_message() },
        },
        (PhaseV::ContextCreated { tier }, EventV::Bind { fault: None }) => (PhaseV::ContextCurrent {
            tier,
        }),
        (PhaseV::ContextCreated { tier }, EventV::Bind { fault: Some(f) }) => (PhaseV::Failed {
            message: bind_fault_message(f),
        }),
        (
            PhaseV::ContextCurrent { tier },
            EventV::StringsQueried { vendor, renderer, version, shading_language },
        ) => (PhaseV::Reported {
            report: ReportV {
                driver: tier,
                vendor: decoded_field(vendor),
                renderer: decoded_field(renderer),
                version: decoded_field(version),
                shading_language: decoded_field(shading_language),
            },
        }),
        (other, _) => other,
    }
}

/// The text a display-initialization fault puts in the failed phase.
pub fn display_fault_text(detail: String) -> (r: String)
    ensures
        r@ == display_fault_message(detail@),
{
    String::from_str("Failed to create event loop: ").concat(detail.as_str())
}

/// The text a window-and-config fault puts in the failed phase.
pub fn setup_fault_text(f: SetupFault) -> (r: String)
    ensures
        r@ == setup_fault_message(f@),
{
    match f {
        SetupFault::Platform { detail } => detail,
        SetupFault::NoConfig => String::from_str("Could not get any configs"),
    }
}

/// The text a bind fault puts in the failed phase.
pub fn bind_fault_text(f: BindFault) -> (r: String)
    ensures
        r@ == bind_fault_message(f@),
{
    match f {
        BindFault::Attributes { detail } => String::from_str(
            "Failed to build surface attributes: ",
        ).concat(detail.as_str()),
        BindFault::Surface { detail } => String::from_str(
            "Failed to create a window surface: ",
        ).concat(detail.as_str()),
        BindFault::MakeCurrent { detail } => String::from_str(
            "Failed to make the context current: ",
        ).concat(detail.as_str()),
    }
}

/// Advances the pipeline by one platform outcome.
pub fn step(p: Phase, e: Event) -> (r: Phase)
    requires
        expects(p@, e@),
    ensures
        r@ == step_v(p@, e@),
{
    match (p, e) {
        (Phase::Uninitialized, Event::DisplayInit { fault: None }) => Phase::DisplayReady,
        (Phase::Uninitialized, Event::DisplayInit { fault: Some(detail) }) => Phase::Failed {
            message: display_fault_text(detail),
        },
        (Phase::DisplayReady, Event::WindowAndConfig { fault: None }) => Phase::Negotiating {
            attempt: Attempt::Core,
        },
        (Phase::DisplayReady, Event::WindowAndConfig { fault: Some(f) }) => Phase::Failed {
            message: setup_fault_text(f),
        },
        (Phase::Negotiating { attempt }, Event::ContextAttempt { granted: true }) => Phase::ContextCreated {
            tier: crate::negotiate::tier_of_attempt(attempt),
        },
        (Phase::Negotiating { attempt }, Event::ContextAttempt { granted: false }) => match next_attempt(
            attempt,
        ) {
            Some(n) => Phase::Negotiating { attempt: n },
            None => Phase::Failed { message: String::from_str("Failed to create GL context") },
        },
        (Phase::ContextCreated { tier }, Event::Bind { fault: None }) => Phase::ContextCurrent {
            tier,
        },
        (Phase::ContextCreated { tier }, Event::Bind { fault: Some(f) }) => Phase::Failed {
            message: bind_fault_text(f),
        },
        (
            Phase::ContextCurrent { tier },
            Event::StringsQueried { vendor, renderer, version, shading_language },
        ) => Phase::Reported {
            report: GLInfo::assemble(
                tier,
                decode_gl_string(vendor),
                decode_gl_string(renderer),
                decode_gl_string(version),
                decode_gl_string(shading_language),
            ),
        },
        (other, _) => other,
    }
}

/// The phase a run reaches from `p` after the platform's responses `events`.
pub open spec fn run_v(p: PhaseV, events: Seq<EventV>) -> PhaseV
    decreases events.len(),
{
    if events.len() == 0 {
        p
    } else {
        run_v(step_v(p, events[0]), events.subrange(1, events.len() as int))
    }
}

/// The text one run prints: the rendered report, or the error line.
pub open spec fn output_text_v(p: PhaseV) -> Seq<char>
    recommends
        p is Reported || p is Failed,
{
    match p {
        PhaseV::Reported { report } => render_spec(report),
        PhaseV::Failed { message } => "ERROR: "@ + message,
        _ => Seq::<char>::empty(),
    }
}

/// Renders a finished run as the text to print: the four-line report, or
/// the single error line.
pub fn output_text(p: &Phase) -> (r: String)
    requires
        p@ is Reported || p@ is Failed,
    ensures
        r@ == output_text_v(p@),
{
    match p {
        Phase::Reported { report } => report.render(),
        Phase::Failed { message } => String::from_str("ERROR: ").concat(message.as_str()),
        _ => String::new(),
    }
}

/// How far along a run a phase stands; failure is terminal and carries no
/// rank of its own.
pub open spec fn phase_rank(p: PhaseV) -> nat {
    match p {
        PhaseV::Uninitialized => 0,
        PhaseV::DisplayReady => 1,
        PhaseV::Negotiating { attempt } => (5 - attempts_left(attempt)) as nat,
        PhaseV::ContextCreated { .. } => 5,
        PhaseV::ContextCurrent { .. } => 6,
        PhaseV::Reported { .. } => 7,
        PhaseV::Failed { .. } => 7,
    }
}

/// The pipeline never moves backwards: a phase fed the event it expects
/// either advances or fails, and never returns to an earlier phase.
pub proof fn lemma_no_back_edges(p: PhaseV, e: EventV)
    requires
        expects(p, e),
    ensures
        step_v(p, e) is Failed || phase_rank(step_v(p, e)) > phase_rank(p),
{
}

/// Both ends of a run are terminal: no event moves a reported or failed
/// phase.
pub proof fn lemma_terminal_phases_stay(p: PhaseV, e: EventV)
    requires
        p is Reported || p is Failed,
    ensures
        step_v(p, e) == p,
{
}

/// The pipeline is deterministic: two runs from the same phase that
/// observe the same platform responses end in the same phase. The outcome
/// depends on nothing but the responses.
pub proof fn lemma_run_deterministic(p: PhaseV, es1: Seq<EventV>, es2: Seq<EventV>)
    requires
        es1 =~= es2,
    ensures
        run_v(p, es1) == run_v(p, es2),
{
}

/// When the platform denies all three context requests the run fails, and
/// the text printed is exactly the no-context error line.
pub proof fn lemma_exhausted_negotiation_output(es: Seq<EventV>)
    requires
        es.len() == 3,
        forall|i: int| 0 <= i < 3 ==> es[i] == (EventV::ContextAttempt { granted: false }),
    ensures
        run_v(PhaseV::Negotiating { attempt: Attempt::Core }, es) == (PhaseV::Failed {
            message: no_context_message(),
        }),
        output_text_v(run_v(PhaseV::Negotiating { attempt: Attempt::Core }, es))
            == "ERROR: Failed to create GL context"@,
{
    let tail1 = es.subrange(1, 3);
    let tail2 = tail1.subrange(1, 2);
    let tail3 = tail2.subrange(1, 1);
    assert(es[0] == (EventV::ContextAttempt { granted: false }));
    assert(tail1[0] == es[1]);
    assert(tail2[0] == es[2]);
    assert(tail3.len() == 0);
    assert(run_v(PhaseV::Negotiating { attempt: Attempt::Core }, es) == run_v(
        PhaseV::Negotiating { attempt: Attempt::Gles },
        tail1,
    ));
    assert(run_v(PhaseV::Negotiating { attempt: Attempt::Gles }, tail1) == run_v(
        PhaseV::Negotiating { attempt: Attempt::Legacy },
        tail2,
    ));
    assert(run_v(PhaseV::Negotiating { attempt: Attempt::Legacy }, tail2) == run_v(
        PhaseV::Failed { message: no_context_message() },
        tail3,
    ));
    reveal_strlit("ERROR: ");
    reveal_strlit("Failed to create GL context");
    reveal_strlit("ERROR: Failed to create GL context");
    assert(("ERROR: "@ + "Failed to create GL context"@)
        =~= "ERROR: Failed to create GL context"@);
}

/// A run in which the display comes up, a window and config are found, the
/// first context request is granted, binding succeeds, and the four
/// queries are answered ends reported: the tier is the core tier and each
/// field is the decoded answer.
pub proof fn lemma_successful_run(
    vendor: Option<Seq<u8>>,
    renderer: Option<Seq<u8>>,
    version: Option<Seq<u8>>,
    shading_language: Option<Seq<u8>>,
)
    ensures
        ({
            let es = seq![
                EventV::DisplayInit { fault: None },
                EventV::WindowAndConfig { fault: None },
                EventV::ContextAttempt { granted: true },
                EventV::Bind { fault: None },
                EventV::StringsQueried { vendor, renderer, version, shading_language },
            ];
            run_v(PhaseV::Uninitialized, es) == (PhaseV::Reported {
                report: ReportV {
                    driver: GLDriver::LibGL,
                    vendor: decoded_field(vendor),
                    renderer: decoded_field(renderer),
                    version: decoded_field(version),
                    shading_language: decoded_field(shading_language),
                },
            })
        }),
{
    let es = seq![
        EventV::DisplayInit { fault: None },
        EventV::WindowAndConfig { fault: None },
        EventV::ContextAttempt { granted: true },
        EventV::Bind { fault: None },
        EventV::StringsQueried { vendor, renderer, version, shading_language },
    ];
    let tail1 = es.subrange(1, 5);
    let tail2 = tail1.subrange(1, 4);
    let tail3 = tail2.subrange(1, 3);
    let tail4 = tail3.subrange(1, 2);
    let tail5 = tail4.subrange(1, 1);
    assert(tail1[0] == es[1]);
    assert(tail2[0] == es[2]);
    assert(tail3[0] == es[3]);
    assert(tail4[0] == es[4]);
    assert(tail5.len() == 0);
    assert(run_v(PhaseV::Uninitialized, es) == run_v(PhaseV::DisplayReady, tail1));
    assert(run_v(PhaseV::DisplayReady, tail1) == run_v(
        PhaseV::Negotiating { attempt: Attempt::Core },
        tail2,
    ));
    assert(run_v(PhaseV::Negotiating { attempt: Attempt::Core }, tail2) == run_v(
        PhaseV::ContextCreated { tier: GLDriver::LibGL },
        tail3,
    ));
    assert(run_v(PhaseV::ContextCreated { tier: GLDriver::LibGL }, tail3) == run_v(
        PhaseV::ContextCurrent { tier: GLDriver::LibGL },
        tail4,
    ));
    let reported = step_v(PhaseV::ContextCurrent { tier: GLDriver::LibGL }, tail4[0]);
    assert(run_v(PhaseV::ContextCurrent { tier: GLDriver::LibGL }, tail4) == run_v(
        reported,
        tail5,
    ));
    assert(run_v(reported, tail5) == reported);
}

/// Each negotiation transition follows the ordered fallback: when the
/// platform's answer to the pending attempt is what it would grant, a
/// created context records exactly the tier the full negotiation picks, a
/// further attempt leaves that outcome unchanged, and a failure means the
/// negotiation picks no tier at all. Together with
/// [`crate::negotiate::lemma_first_success_wins`] this pins the machine's
/// tier to first-success-wins over core, GLES, legacy.
pub proof fn lemma_negotiating_step_refines(
    a: Attempt,
    core_ok: bool,
    gles_ok: bool,
    legacy_ok: bool,
)
    ensures
        ({
            let granted = crate::negotiate::attempt_granted(a, core_ok, gles_ok, legacy_ok);
            let next = step_v(PhaseV::Negotiating { attempt: a }, EventV::ContextAttempt { granted });
            &&& (next matches PhaseV::ContextCreated { tier } ==> crate::negotiate::negotiation_from(
                a,
                core_ok,
                gles_ok,
                legacy_ok,
            ) == Some(tier))
            &&& (next matches PhaseV::Negotiating { attempt: n } ==> crate::negotiate::negotiation_from(
                a,
                core_ok,
                gles_ok,
                legacy_ok,
            ) == crate::negotiate::negotiation_from(n, core_ok, gles_ok, legacy_ok))
            &&& (next is Failed ==> crate::negotiate::negotiation_from(
                a,
                core_ok,
                gles_ok,
                legacy_ok,
            ) is None)
        }),
{
}

/// A missing identity string never fails a run: the query step still
/// reports, with that field as empty text.
pub proof fn lemma_missing_string_still_reports(
    tier: GLDriver,
    vendor: Option<Seq<u8>>,
    renderer: Option<Seq<u8>>,
    version: Option<Seq<u8>>,
)
    ensures
        ({
            let after = step_v(
                PhaseV::ContextCurrent { tier },
                EventV::StringsQueried { vendor, renderer, version, shading_language: None },
            );
            &&& after matches PhaseV::Reported { report }
            &&& after->report.driver == tier
            &&& after->report.shading_language == Seq::<char>::empty()
        }),
{
}

} // verus!
