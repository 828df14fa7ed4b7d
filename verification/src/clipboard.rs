//! Delivering a text to the clipboard: which mechanisms to try, and in which
//! order.
//!
//! Nothing here touches a clipboard. A `ClipboardWriter` is a small state
//! machine: it names the mechanism to attempt next, the caller attempts it and
//! reports whether it worked, and the writer answers with the next action. The
//! first mechanism that works ends the run; when every one has failed the writer
//! gives up.

use vstd::prelude::*;
use crate::error::YankError;
use crate::text::texts;
use vstd::string::StringExecFns;

verus! {

/// What the writer needs to know of the desktop it runs on.
#[derive(Clone, Copy, Debug, PartialEq, Eq, Structural)]
pub struct Environment {
    /// A Wayland session is announced.
    pub wayland: bool,
    /// An X11 display is announced.
    pub x11: bool,
    /// The platform is macOS.
    pub macos: bool,
}

/// One mechanism for setting the clipboard.
#[derive(Clone, Copy, Debug, PartialEq, Eq, Structural)]
pub enum Strategy {
    /// The Wayland clipboard helper.
    WaylandHelper,
    /// The X11 helper that takes the text as a command-line argument.
    X11Argument,
    /// The X11 helper run in its "selection = clipboard" mode.
    X11Selection,
    /// The second X11 helper, fed the same way.
    X11Alternate,
    /// The macOS paste-buffer helper.
    MacPasteBuffer,
    /// The clipboard API used in-process, without a helper program.
    Native,
}

/// How a mechanism is handed the text.
#[derive(Clone, Copy, Debug, PartialEq, Eq, Structural)]
pub enum Delivery {
    /// As a command-line argument of the helper.
    Argument,
    /// Written to the helper's standard input.
    StandardInput,
    /// Passed to the clipboard API, in this process.
    InProcess,
}

/// What the caller is to do next.
#[derive(Clone, Copy, Debug, PartialEq, Eq, Structural)]
pub enum Action {
    /// Attempt this mechanism and report how it went.
    Attempt(Strategy),
    /// A mechanism worked: the text is on the clipboard.
    Finished,
    /// Every mechanism failed: the clipboard is unavailable.
    GiveUp,
}

/// The mechanisms that belong to the desktop itself, in the order in which
/// they are attempted: the Wayland helper where a Wayland session is announced,
/// then the three X11 helpers where an X11 display is, then the paste-buffer
/// helper on macOS. A desktop that announces several gets each part in turn.
pub open spec fn platform_plan(env: Environment) -> Seq<Strategy> {
    (if env.wayland {
        seq![Strategy::WaylandHelper]
    } else {
        Seq::empty()
    }) + (if env.x11 {
        seq![Strategy::X11Argument, Strategy::X11Selection, Strategy::X11Alternate]
    } else {
        Seq::empty()
    }) + (if env.macos {
        seq![Strategy::MacPasteBuffer]
    } else {
        Seq::empty()
    })
}

/// The full order of attempts: the desktop's own mechanisms, then the
/// in-process API, which is there everywhere.
pub open spec fn plan_of(env: Environment) -> Seq<Strategy> {
    platform_plan(env).push(Strategy::Native)
}

/// The action that follows `failed` failed attempts on `plan`, where `succeeded`
/// says whether an attempt has worked since.
pub open spec fn action_after(plan: Seq<Strategy>, failed: nat, succeeded: bool) -> Action {
    if succeeded {
        Action::Finished
    } else if failed < plan.len() {
        Action::Attempt(plan[failed as int])
    } else {
        Action::GiveUp
    }
}

/// Whether attempt number `i` succeeds according to `worked`. An attempt that
/// `worked` does not reach counts as failed.
pub open spec fn works_at(worked: Seq<bool>, i: int) -> bool {
    0 <= i < worked.len() && worked[i]
}

impl Strategy {
    /// How this mechanism takes the text.
    pub open spec fn delivery_of(self) -> Delivery {
        match self {
            Strategy::X11Argument => Delivery::Argument,
            Strategy::Native => Delivery::InProcess,
            _ => Delivery::StandardInput,
        }
    }

    /// How this mechanism takes the text.
    pub fn delivery(&self) -> (r: Delivery)
        ensures
            r == self.delivery_of(),
    {
        match self {
            Strategy::X11Argument => Delivery::Argument,
            Strategy::Native => Delivery::InProcess,
            Strategy::WaylandHelper => Delivery::StandardInput,
            Strategy::X11Selection => Delivery::StandardInput,
            Strategy::X11Alternate => Delivery::StandardInput,
            Strategy::MacPasteBuffer => Delivery::StandardInput,
        }
    }

    /// The helper program that this mechanism runs; the in-process API runs
    /// none. The helper that takes the text as an argument is `wl-copy`.
    pub open spec fn program_of(self) -> Option<Seq<char>> {
        match self {
            Strategy::WaylandHelper => Some("wl-copy"@),
            Strategy::X11Argument => Some("wl-copy"@),
            Strategy::X11Selection => Some("xclip"@),
            Strategy::X11Alternate => Some("xsel"@),
            Strategy::MacPasteBuffer => Some("pbcopy"@),
            Strategy::Native => None,
        }
    }

    /// The arguments that the helper is always given, before the text where
    /// that is an argument too.
    pub open spec fn arguments_of(self) -> Seq<Seq<char>> {
        match self {
            Strategy::X11Selection => seq!["-selection"@, "clipboard"@],
            Strategy::X11Alternate => seq!["--clipboard"@, "--input"@],
            _ => Seq::empty(),
        }
    }

    /// The helper program that this mechanism runs, if it runs one.
    pub fn program(&self) -> (r: Option<&'static str>)
        ensures
            r is Some <==> self.program_of() is Some,
            r is Some ==> r->Some_0@ == self.program_of()->Some_0,
    {
        match self {
            Strategy::WaylandHelper => Some("wl-copy"),
            Strategy::X11Argument => Some("wl-copy"),
            Strategy::X11Selection => Some("xclip"),
            Strategy::X11Alternate => Some("xsel"),
            Strategy::MacPasteBuffer => Some("pbcopy"),
            Strategy::Native => None,
        }
    }

    /// The arguments that the helper is always given.
    pub fn arguments(&self) -> (r: Vec<String>)
        ensures
            texts(r@) == self.arguments_of(),
    {
        let mut fixed: Vec<String> = Vec::new();
        match self {
            Strategy::X11Selection => {
                fixed.push(String::from_str("-selection"));
                fixed.push(String::from_str("clipboard"));
            },
            Strategy::X11Alternate => {
                fixed.push(String::from_str("--clipboard"));
                fixed.push(String::from_str("--input"));
            },
            _ => {},
        }
        assert(texts(fixed@) =~= self.arguments_of());
        fixed
    }

    /// The time, in milliseconds, to wait after the text was set, so that a
    /// clipboard service can take it over before the process ends: 100 for the
    /// in-process API, which gives the clipboard up on exit, 0 for a helper.
    pub fn settle_millis(&self) -> (r: u64)
        ensures
            r == (if *self == Strategy::Native { 100u64 } else { 0u64 }),
    {
        match self {
            Strategy::Native => 100,
            _ => 0,
        }
    }
}

/// The order of attempts for a desktop.
pub fn plan(env: &Environment) -> (r: Vec<Strategy>)
    ensures
        r@ == plan_of(*env),
        r@.len() >= 1,
        r@.last() == Strategy::Native,
{
    let mut order: Vec<Strategy> = Vec::new();
    if env.wayland {
        order.push(Strategy::WaylandHelper);
    }
    if env.x11 {
        order.push(Strategy::X11Argument);
        order.push(Strategy::X11Selection);
        order.push(Strategy::X11Alternate);
    }
    if env.macos {
        order.push(Strategy::MacPasteBuffer);
    }
    assert(order@ =~= platform_plan(*env));
    order.push(Strategy::Native);
    order
}

/// The text of the error for an unavailable clipboard.
pub open spec fn unavailable_text() -> Seq<char> {
    "No clipboard utility found. Please install wl-copy (Wayland), xclip/xsel (X11), or pbcopy (macOS)"@
}

/// The error that tells the user to install a clipboard helper.
pub fn unavailable() -> (r: YankError)
    ensures
        r is Clipboard,
        r->Clipboard_0@ == unavailable_text(),
{
    YankError::Clipboard(
        String::from_str(
            "No clipboard utility found. Please install wl-copy (Wayland), xclip/xsel (X11), or pbcopy (macOS)",
        ),
    )
}

/// The run of one copy: the order of attempts, how many have failed, and
/// whether one has worked.
#[derive(Debug)]
pub struct ClipboardWriter {
    order: Vec<Strategy>,
    failed: usize,
    succeeded: bool,
}

impl ClipboardWriter {
    /// The order in which this writer attempts the mechanisms.
    pub closed spec fn order(&self) -> Seq<Strategy> {
        self.order@
    }

    /// The number of attempts that have failed.
    pub closed spec fn failed(&self) -> nat {
        self.failed as nat
    }

    /// Whether an attempt has worked.
    pub closed spec fn succeeded(&self) -> bool {
        self.succeeded
    }

    /// The action this writer asks for.
    pub open spec fn pending(&self) -> Action {
        action_after(self.order(), self.failed(), self.succeeded())
    }

    /// A writer for the given desktop, with nothing attempted yet.
    pub fn new(env: &Environment) -> (r: Self)
        ensures
            r.order() == plan_of(*env),
            r.failed() == 0,
            !r.succeeded(),
            r.pending() == Action::Attempt(plan_of(*env)[0]),
    {
        ClipboardWriter { order: plan(env), failed: 0, succeeded: false }
    }

    /// The action to take now: the next mechanism to attempt, or how the run
    /// ended.
    pub fn next_action(&self) -> (r: Action)
        ensures
            r == self.pending(),
    {
        if self.succeeded {
            Action::Finished
        } else if self.failed < self.order.len() {
            Action::Attempt(self.order[self.failed])
        } else {
            Action::GiveUp
        }
    }

    /// Takes note of how the pending attempt went and answers with the next
    /// action. A success ends the run; a failure moves on to the next mechanism,
    /// with no second try of the one that failed. Once the run has ended,
    /// nothing changes any more.
    pub fn record(&mut self, worked: bool) -> (r: Action)
        ensures
            final(self).order() == old(self).order(),
            old(self).pending() is Attempt ==> final(self).succeeded() == worked
                && final(self).failed() == old(self).failed() + (if worked { 0nat } else { 1nat }),
            !(old(self).pending() is Attempt) ==> final(self).succeeded() == old(self).succeeded()
                && final(self).failed() == old(self).failed(),
            r == final(self).pending(),
    {
        if !self.succeeded && self.failed < self.order.len() {
            if worked {
                self.succeeded = true;
            } else {
                self.failed = self.failed + 1;
            }
        }
        self.next_action()
    }

    /// How the run ended: `Ok` with nothing where a mechanism worked, the
    /// error for an unavailable clipboard where every one failed, and `None`
    /// while an attempt is still pending.
    pub fn outcome(&self) -> (r: Option<Result<(), YankError>>)
        ensures
            self.pending() is Attempt <==> r is None,
            self.pending() is Finished <==> r == Some(Ok::<(), YankError>(())),
            self.pending() is GiveUp ==> r is Some && r->Some_0 is Err
                && r->Some_0->Err_0 is Clipboard
                && r->Some_0->Err_0->Clipboard_0@ == unavailable_text(),
    {
        match self.next_action() {
            Action::Attempt(_) => None,
            Action::Finished => Some(Ok(())),
            Action::GiveUp => Some(Err(unavailable())),
        }
    }
}

/// Runs a writer for the desktop `env` against the outcomes in `worked`, where
/// `worked[i]` says whether the attempt number `i` of the order succeeds. The
/// result is the mechanism that delivered the text: the first of the order
/// whose attempt succeeds. Where every attempt fails, the clipboard is
/// unavailable.
pub fn copy_with(env: &Environment, worked: &Vec<bool>) -> (r: Result<Strategy, YankError>)
    ensures
        match r {
            Ok(s) => exists|i: int| 0 <= i < plan_of(*env).len() && works_at(worked@, i)
                && s == plan_of(*env)[i]
                && (forall|j: int| 0 <= j < i ==> !works_at(worked@, j)),
            Err(e) => (forall|j: int| 0 <= j < plan_of(*env).len() ==> !works_at(worked@, j))
                && e is Clipboard
                && e->Clipboard_0@ == unavailable_text(),
        },
{
    let mut writer = ClipboardWriter::new(env);
    let mut action = writer.next_action();
    let mut i: usize = 0;
    loop
        invariant
            writer.order() == plan_of(*env),
            !writer.succeeded(),
            writer.failed() == i,
            i <= plan_of(*env).len(),
            action == writer.pending(),
            forall|j: int| 0 <= j < i ==> !works_at(worked@, j),
        decreases plan_of(*env).len() - i,
    {
        match action {
            Action::Attempt(s) => {
                let ok = i < worked.len() && worked[i];
                action = writer.record(ok);
                if ok {
                    return Ok(s);
                }
                i = i + 1;
            },
            _ => {
                return Err(unavailable());
            },
        }
    }
}

} // verus!
