//! The wallpaper layer: a window made part of the desktop's background.
//!
//! Attaching takes eleven native calls in a fixed order. The library holds
//! the order and the arguments; the host program makes each call and hands
//! back the reply. A call that fails ends the attempt: no further call is
//! made and the window stays as the last successful call left it.
//!
//! 1. find the shell's top-level window;
//! 2. ask the shell, with a time limit, to bring up its container for
//!    background windows;
//! 3. find that container;
//! 4. make the window a child of the container;
//! 5. read the extended style, and
//! 6. write it back layered, without the bits that would keep input or
//!    activation away;
//! 7. make the layered window opaque;
//! 8. read the style, and
//! 9. write it back with the pop-up bit;
//! 10. raise the window to top-most, which makes the shell draw it;
//! 11. make the window a child of the shell's top-level window.
//!
//! The window is given a parent twice, in steps 4 and 11. Both are needed.

use crate::native::{
    NativeCall, NativeReply, NativeWindowHandle, OPAQUE, SPAWN_HOST_MESSAGE, SPAWN_HOST_TIMEOUT_MS,
};
use crate::style::{adjust_ex_style, adjust_style, background_ex_style, background_style};
use crate::zorder::{raise_call, raise_to_top_most};
use vstd::prelude::*;

verus! {

/// The steps of an attachment, in their order.
#[derive(Clone, Copy, Debug, PartialEq, Eq, Structural)]
pub enum AttachStep {
    FindShell,
    SpawnHost,
    FindHost,
    Reparent,
    ReadExStyle,
    WriteExStyle,
    SetOpacity,
    ReadStyle,
    WriteStyle,
    Raise,
    RestoreParent,
}

impl AttachStep {
    /// The first three steps look for the container and touch no window.
    pub open spec fn is_lookup(self) -> bool {
        self == AttachStep::FindShell || self == AttachStep::SpawnHost || self
            == AttachStep::FindHost
    }

    /// Whether `reply` is the reply of a successful call of this step: a
    /// window that is not null for a lookup, style bits for a read, `Done`
    /// for all others.
    pub open spec fn accepts(self, reply: NativeReply) -> bool {
        match self {
            AttachStep::FindShell | AttachStep::FindHost => reply matches NativeReply::Window(h)
                && !h.null(),
            AttachStep::ReadExStyle | AttachStep::ReadStyle => reply is Bits,
            _ => reply is Done,
        }
    }

    pub fn is_lookup_step(&self) -> (b: bool)
        ensures
            b == self.is_lookup(),
    {
        match self {
            AttachStep::FindShell | AttachStep::SpawnHost | AttachStep::FindHost => true,
            _ => false,
        }
    }
}

/// How far an attachment has come.
#[derive(Clone, Copy, Debug, PartialEq, Eq, Structural)]
pub enum AttachStatus {
    /// The call of the current step is under way.
    Running,
    /// All steps succeeded.
    Attached,
    /// The call of the current step failed; the steps after it were skipped.
    Failed,
}

/// One attempt to attach a window to the desktop's background.
#[derive(Clone, Copy, Debug, PartialEq, Eq, Structural)]
pub struct WallpaperAttach {
    /// The window that is being attached.
    pub window: NativeWindowHandle,
    /// The step whose call is under way, or at which the attempt ended.
    pub step: AttachStep,
    pub status: AttachStatus,
    /// The shell's top-level window, once found; null before.
    pub shell: NativeWindowHandle,
    /// The container for background windows, once found; null before.
    pub host: NativeWindowHandle,
}

/// The attempt before any reply: the lookup of the shell is under way.
pub open spec fn started(window: NativeWindowHandle) -> WallpaperAttach {
    WallpaperAttach {
        window,
        step: AttachStep::FindShell,
        status: AttachStatus::Running,
        shell: NativeWindowHandle { raw: 0 },
        host: NativeWindowHandle { raw: 0 },
    }
}

/// The attempt after a reply, and the next call to make. Nothing is called
/// after a failure, after the last step, or for a reply that comes when the
/// attempt is over.
pub open spec fn advanced(s: WallpaperAttach, reply: NativeReply) -> (
    WallpaperAttach,
    Option<NativeCall>,
) {
    if s.status != AttachStatus::Running {
        (s, None)
    } else if !s.step.accepts(reply) {
        (WallpaperAttach { status: AttachStatus::Failed, ..s }, None)
    } else {
        match s.step {
            AttachStep::FindShell => {
                let shell = reply->Window_0;
                (
                    WallpaperAttach { step: AttachStep::SpawnHost, shell, ..s },
                    Some(
                        NativeCall::SpawnHost {
                            shell,
                            message: SPAWN_HOST_MESSAGE,
                            timeout_ms: SPAWN_HOST_TIMEOUT_MS,
                        },
                    ),
                )
            },
            AttachStep::SpawnHost => (
                WallpaperAttach { step: AttachStep::FindHost, ..s },
                Some(NativeCall::FindHost { shell: s.shell }),
            ),
            AttachStep::FindHost => {
                let host = reply->Window_0;
                (
                    WallpaperAttach { step: AttachStep::Reparent, host, ..s },
                    Some(NativeCall::SetParent { window: s.window, parent: host }),
                )
            },
            AttachStep::Reparent => (
                WallpaperAttach { step: AttachStep::ReadExStyle, ..s },
                Some(NativeCall::ReadExStyle { window: s.window }),
            ),
            AttachStep::ReadExStyle => (
                WallpaperAttach { step: AttachStep::WriteExStyle, ..s },
                Some(
                    NativeCall::WriteExStyle {
                        window: s.window,
                        bits: background_ex_style(reply->Bits_0),
                    },
                ),
            ),
            AttachStep::WriteExStyle => (
                WallpaperAttach { step: AttachStep::SetOpacity, ..s },
                Some(NativeCall::SetOpacity { window: s.window, alpha: OPAQUE }),
            ),
            AttachStep::SetOpacity => (
                WallpaperAttach { step: AttachStep::ReadStyle, ..s },
                Some(NativeCall::ReadStyle { window: s.window }),
            ),
            AttachStep::ReadStyle => (
                WallpaperAttach { step: AttachStep::WriteStyle, ..s },
                Some(
                    NativeCall::WriteStyle {
                        window: s.window,
                        bits: background_style(reply->Bits_0),
                    },
                ),
            ),
            AttachStep::WriteStyle => (
                WallpaperAttach { step: AttachStep::Raise, ..s },
                Some(NativeCall::SetWindowPos(raise_call(s.window))),
            ),
            AttachStep::Raise => (
                WallpaperAttach { step: AttachStep::RestoreParent, ..s },
                Some(NativeCall::SetParent { window: s.window, parent: s.shell }),
            ),
            AttachStep::RestoreParent => (
                WallpaperAttach { status: AttachStatus::Attached, ..s },
                None,
            ),
        }
    }
}

/// The attempt after a series of replies, with all the calls made so far,
/// the first one included.
pub open spec fn run(window: NativeWindowHandle, replies: Seq<NativeReply>) -> (
    WallpaperAttach,
    Seq<NativeCall>,
)
    decreases replies.len(),
{
    if replies.len() == 0 {
        (started(window), seq![NativeCall::FindShell])
    } else {
        let (state, calls) = run(window, replies.drop_last());
        let (next, call) = advanced(state, replies.last());
        (
            next,
            match call {
                Some(c) => calls.push(c),
                None => calls,
            },
        )
    }
}

/// The replies of an attachment in which every call succeeds.
pub open spec fn successful_replies(
    shell: NativeWindowHandle,
    host: NativeWindowHandle,
    ex_style: u32,
    style: u32,
) -> Seq<NativeReply> {
    seq![
        NativeReply::Window(shell),
        NativeReply::Done,
        NativeReply::Window(host),
        NativeReply::Done,
        NativeReply::Bits(ex_style),
        NativeReply::Done,
        NativeReply::Done,
        NativeReply::Bits(style),
        NativeReply::Done,
        NativeReply::Done,
        NativeReply::Done,
    ]
}

/// The calls of an attachment in which every call succeeds.
pub open spec fn successful_calls(
    window: NativeWindowHandle,
    shell: NativeWindowHandle,
    host: NativeWindowHandle,
    ex_style: u32,
    style: u32,
) -> Seq<NativeCall> {
    seq![
        NativeCall::FindShell,
        NativeCall::SpawnHost {
            shell,
            message: SPAWN_HOST_MESSAGE,
            timeout_ms: SPAWN_HOST_TIMEOUT_MS,
        },
        NativeCall::FindHost { shell },
        NativeCall::SetParent { window, parent: host },
        NativeCall::ReadExStyle { window },
        NativeCall::WriteExStyle { window, bits: background_ex_style(ex_style) },
        NativeCall::SetOpacity { window, alpha: OPAQUE },
        NativeCall::ReadStyle { window },
        NativeCall::WriteStyle { window, bits: background_style(style) },
        NativeCall::SetWindowPos(raise_call(window)),
        NativeCall::SetParent { window, parent: shell },
    ]
}

/// While the attempt is in one of the lookup steps, whether under way or
/// failed there, no call so far has changed a window.
pub proof fn lemma_lookup_changes_nothing(window: NativeWindowHandle, replies: Seq<NativeReply>)
    ensures
        run(window, replies).0.step.is_lookup() ==> forall|i: int|
            0 <= i < run(window, replies).1.len() ==> !(#[trigger] run(
                window,
                replies,
            ).1[i]).changes_window(),
        run(window, replies).0.window == window,
    decreases replies.len(),
{
    if replies.len() > 0 {
        lemma_lookup_changes_nothing(window, replies.drop_last());
    }
}

/// When the container is not found, be it that the shell is missing, that it
/// does not answer in time or that it brought up no container, the window
/// was never touched: every call made was a lookup.
pub proof fn lemma_failed_lookup_leaves_window_untouched(
    window: NativeWindowHandle,
    replies: Seq<NativeReply>,
)
    requires
        run(window, replies).0.status == AttachStatus::Failed,
        run(window, replies).0.step.is_lookup(),
    ensures
        forall|i: int|
            0 <= i < run(window, replies).1.len() ==> !(#[trigger] run(
                window,
                replies,
            ).1[i]).changes_window(),
{
    lemma_lookup_changes_nothing(window, replies);
}

/// What holds of an attempt however it went: the shell is known from the
/// second step on, the container from the fourth, and the window is the one
/// that the attempt was started for.
pub open spec fn consistent(s: WallpaperAttach, window: NativeWindowHandle) -> bool {
    &&& s.window == window
    &&& s.step != AttachStep::FindShell ==> !s.shell.null()
    &&& !s.step.is_lookup() ==> !s.host.null()
}

/// Whether a call is one that an attachment of `window` may make: it is
/// made on `window` or is a lookup, and a parent that it gives is a window.
pub open spec fn sound_call(call: NativeCall, window: NativeWindowHandle) -> bool {
    match call {
        NativeCall::FindShell => true,
        NativeCall::SpawnHost { shell, .. } => !shell.null(),
        NativeCall::FindHost { shell } => !shell.null(),
        NativeCall::SetParent { window: w, parent } => w == window && !parent.null(),
        NativeCall::ReadExStyle { window: w } => w == window,
        NativeCall::WriteExStyle { window: w, .. } => w == window,
        NativeCall::SetOpacity { window: w, .. } => w == window,
        NativeCall::ReadStyle { window: w } => w == window,
        NativeCall::WriteStyle { window: w, .. } => w == window,
        NativeCall::SetWindowPos(c) => c.hwnd == window,
    }
}

/// Whatever the replies, an attachment touches no window but its own, and
/// never takes the window's parent away: each parent it gives is a window
/// that a lookup found.
pub proof fn lemma_calls_are_sound(window: NativeWindowHandle, replies: Seq<NativeReply>)
    ensures
        consistent(run(window, replies).0, window),
        forall|i: int|
            0 <= i < run(window, replies).1.len() ==> sound_call(
                #[trigger] run(window, replies).1[i],
                window,
            ),
    decreases replies.len(),
{
    if replies.len() > 0 {
        lemma_calls_are_sound(window, replies.drop_last());
    }
}

/// Once an attempt is over, further replies change nothing and call nothing.
pub proof fn lemma_finished_attempt_is_final(s: WallpaperAttach, reply: NativeReply)
    requires
        s.status != AttachStatus::Running,
    ensures
        advanced(s, reply) == (s, None::<NativeCall>),
{
}

/// A reply that the current step does not accept ends the attempt at that
/// step, with no call.
pub proof fn lemma_failure_skips_the_rest(s: WallpaperAttach, reply: NativeReply)
    requires
        s.status == AttachStatus::Running,
        !s.step.accepts(reply),
    ensures
        advanced(s, reply).1.is_none(),
        advanced(s, reply).0.status == AttachStatus::Failed,
        advanced(s, reply).0.step == s.step,
{
}

proof fn lemma_run_push(window: NativeWindowHandle, replies: Seq<NativeReply>, reply: NativeReply)
    ensures
        run(window, replies.push(reply)) == ({
            let (state, calls) = run(window, replies);
            let (next, call) = advanced(state, reply);
            (
                next,
                match call {
                    Some(c) => calls.push(c),
                    None => calls,
                },
            )
        }),
{
    assert(replies.push(reply).drop_last() =~= replies);
}

/// When every call succeeds, the eleven calls are made in their order, the
/// window is given its parent twice, and the attempt ends attached.
pub proof fn lemma_successful_attachment(
    window: NativeWindowHandle,
    shell: NativeWindowHandle,
    host: NativeWindowHandle,
    ex_style: u32,
    style: u32,
)
    requires
        !shell.null(),
        !host.null(),
    ensures
        run(window, successful_replies(shell, host, ex_style, style)).0.status
            == AttachStatus::Attached,
        run(window, successful_replies(shell, host, ex_style, style)).1 == successful_calls(
            window,
            shell,
            host,
            ex_style,
            style,
        ),
{
    let all = successful_replies(shell, host, ex_style, style);
    let r0 = Seq::<NativeReply>::empty();
    let r1 = r0.push(all[0]);
    let r2 = r1.push(all[1]);
    let r3 = r2.push(all[2]);
    let r4 = r3.push(all[3]);
    let r5 = r4.push(all[4]);
    let r6 = r5.push(all[5]);
    let r7 = r6.push(all[6]);
    let r8 = r7.push(all[7]);
    let r9 = r8.push(all[8]);
    let r10 = r9.push(all[9]);
    let r11 = r10.push(all[10]);
    assert(r11 =~= all);
    lemma_run_push(window, r0, all[0]);
    lemma_run_push(window, r1, all[1]);
    lemma_run_push(window, r2, all[2]);
    lemma_run_push(window, r3, all[3]);
    lemma_run_push(window, r4, all[4]);
    lemma_run_push(window, r5, all[5]);
    lemma_run_push(window, r6, all[6]);
    lemma_run_push(window, r7, all[7]);
    lemma_run_push(window, r8, all[8]);
    lemma_run_push(window, r9, all[9]);
    lemma_run_push(window, r10, all[10]);
}

impl WallpaperAttach {
    /// Starts an attempt for `window`, and gives the first call to make.
    pub fn begin(window: NativeWindowHandle) -> (r: (WallpaperAttach, NativeCall))
        ensures
            r.0 == started(window),
            r.1 == NativeCall::FindShell,
    {
        (
            WallpaperAttach {
                window,
                step: AttachStep::FindShell,
                status: AttachStatus::Running,
                shell: NativeWindowHandle { raw: 0 },
                host: NativeWindowHandle { raw: 0 },
            },
            NativeCall::FindShell,
        )
    }

    /// Takes the reply of the call that was made last, and gives the next
    /// call to make, if there is one.
    pub fn advance(&mut self, reply: NativeReply) -> (call: Option<NativeCall>)
        ensures
            (*final(self), call) == advanced(*old(self), reply),
    {
        match self.status {
            AttachStatus::Running => {},
            _ => {
                return None;
            },
        }
        match (self.step, reply) {
            (AttachStep::FindShell, NativeReply::Window(shell)) => {
                if shell.is_null() {
                    self.status = AttachStatus::Failed;
                    None
                } else {
                    self.step = AttachStep::SpawnHost;
                    self.shell = shell;
                    Some(
                        NativeCall::SpawnHost {
                            shell,
                            message: SPAWN_HOST_MESSAGE,
                            timeout_ms: SPAWN_HOST_TIMEOUT_MS,
                        },
                    )
                }
            },
            (AttachStep::SpawnHost, NativeReply::Done) => {
                self.step = AttachStep::FindHost;
                Some(NativeCall::FindHost { shell: self.shell })
            },
            (AttachStep::FindHost, NativeReply::Window(host)) => {
                if host.is_null() {
                    self.status = AttachStatus::Failed;
                    None
                } else {
                    self.step = AttachStep::Reparent;
                    self.host = host;
                    Some(NativeCall::SetParent { window: self.window, parent: host })
                }
            },
            (AttachStep::Reparent, NativeReply::Done) => {
                self.step = AttachStep::ReadExStyle;
                Some(NativeCall::ReadExStyle { window: self.window })
            },
            (AttachStep::ReadExStyle, NativeReply::Bits(bits)) => {
                self.step = AttachStep::WriteExStyle;
                Some(NativeCall::WriteExStyle { window: self.window, bits: adjust_ex_style(bits) })
            },
            (AttachStep::WriteExStyle, NativeReply::Done) => {
                self.step = AttachStep::SetOpacity;
                Some(NativeCall::SetOpacity { window: self.window, alpha: OPAQUE })
            },
            (AttachStep::SetOpacity, NativeReply::Done) => {
                self.step = AttachStep::ReadStyle;
                Some(NativeCall::ReadStyle { window: self.window })
            },
            (AttachStep::ReadStyle, NativeReply::Bits(bits)) => {
                self.step = AttachStep::WriteStyle;
                Some(NativeCall::WriteStyle { window: self.window, bits: adjust_style(bits) })
            },
            (AttachStep::WriteStyle, NativeReply::Done) => {
                self.step = AttachStep::Raise;
                Some(NativeCall::SetWindowPos(raise_to_top_most(self.window)))
            },
            (AttachStep::Raise, NativeReply::Done) => {
                self.step = AttachStep::RestoreParent;
                Some(NativeCall::SetParent { window: self.window, parent: self.shell })
            },
            (AttachStep::RestoreParent, NativeReply::Done) => {
                self.status = AttachStatus::Attached;
                None
            },
            _ => {
                self.status = AttachStatus::Failed;
                None
            },
        }
    }

    /// Whether the attempt is over, attached or failed.
    pub fn is_over(&self) -> (b: bool)
        ensures
            b == (self.status != AttachStatus::Running),
    {
        match self.status {
            AttachStatus::Running => false,
            _ => true,
        }
    }
}

/// The call that takes `window` out of the background again: it becomes a
/// top-level window, a child of no other.
pub fn detach(window: NativeWindowHandle) -> (call: NativeCall)
    ensures
        call == (NativeCall::SetParent { window, parent: NativeWindowHandle { raw: 0 } }),
{
    NativeCall::SetParent { window, parent: NativeWindowHandle { raw: 0 } }
}

} // verus!
