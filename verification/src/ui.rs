//! What the primitives of the dashboard show.

use vstd::prelude::*;

use crate::numerals::decimal_u64;
#[allow(unused_imports)]
use crate::numerals::decimal;
use crate::project_store::{MutationState, ToastKind};
use crate::text::concat;

verus! {

// --- Pills ---

/// The tone of a pill.
#[derive(Clone, Copy, Debug, Eq, PartialEq, Structural)]
pub enum PillTone {
    Idle,
    Pending,
    Running,
    Verified,
    Stale,
    Failed,
}

impl PillTone {
    /// The class of the tone's colour.
    pub open spec fn color(self) -> Seq<char> {
        match self {
            PillTone::Idle => "text-ink-dim"@,
            PillTone::Pending => "text-amber"@,
            PillTone::Running => "text-cyan"@,
            PillTone::Verified => "text-mint"@,
            PillTone::Stale => "text-amber"@,
            PillTone::Failed => "text-coral"@,
        }
    }

    /// The class of the tone's colour.
    pub fn color_class(self) -> (class: &'static str)
        ensures
            class@ == self.color(),
    {
        match self {
            PillTone::Idle => "text-ink-dim",
            PillTone::Pending => "text-amber",
            PillTone::Running => "text-cyan",
            PillTone::Verified => "text-mint",
            PillTone::Stale => "text-amber",
            PillTone::Failed => "text-coral",
        }
    }

    /// The class of the dot: only that of something that runs pulses.
    pub fn dot_extras(self) -> (class: &'static str)
        ensures
            class@ == (if self == PillTone::Running {
                "hud-pulse-dot"@
            } else {
                ""@
            }),
    {
        match self {
            PillTone::Running => "hud-pulse-dot",
            _ => "",
        }
    }

    /// The class of the dot's shadow: an idle dot has none.
    pub fn dot_shadow(self) -> (class: &'static str)
        ensures
            class@ == (if self == PillTone::Idle {
                "shadow-none"@
            } else {
                "shadow-[0_0_8px_currentColor]"@
            }),
    {
        match self {
            PillTone::Idle => "shadow-none",
            _ => "shadow-[0_0_8px_currentColor]",
        }
    }
}

// --- Buttons ---

/// The looks of a button that can be pressed.
#[derive(Clone, Copy, Debug, Eq, PartialEq, Structural)]
pub enum ButtonVariant {
    Default,
    Primary,
    Destructive,
}

/// What a button shows of its mutation.
#[derive(Clone, Debug, Eq, PartialEq)]
pub enum ButtonRenderState {
    Idle,
    Pending,
    IdleWithError { title: String, detail: String },
}

/// What a button shows of its mutation: that it is under way, or that it failed.
pub open spec fn render_state(state: Option<MutationState>) -> ButtonRenderState {
    match state {
        Some(MutationState::Pending) => ButtonRenderState::Pending,
        Some(MutationState::Error { category, title, detail }) => ButtonRenderState::IdleWithError {
            title,
            detail,
        },
        _ => ButtonRenderState::Idle,
    }
}

/// What a button shows of its mutation.
pub fn derive_button_render_state(state: Option<MutationState>) -> (render: ButtonRenderState)
    ensures
        render == render_state(state),
{
    match state {
        Some(MutationState::Pending) => ButtonRenderState::Pending,
        Some(MutationState::Error { category: _, title, detail }) => {
            ButtonRenderState::IdleWithError { title, detail }
        },
        _ => ButtonRenderState::Idle,
    }
}

pub const BASE_BTN: &'static str =
    "hud-notch-btn font-display text-[12px] font-medium uppercase tracking-[0.18em] border px-[18px] py-[9px] cursor-pointer transition-[background,color,box-shadow] duration-150 ease-out";

pub const PENDING_BTN: &'static str =
    "hud-notch-btn hud-pending-sweep font-display text-[12px] font-medium uppercase tracking-[0.18em] border px-[18px] py-[9px] text-amber border-amber/50 bg-[linear-gradient(180deg,rgba(255,200,87,0.18),rgba(255,200,87,0.04))] pointer-events-none";

pub const DISABLED_BTN: &'static str =
    "hud-notch-btn font-display text-[12px] font-medium uppercase tracking-[0.18em] border px-[18px] py-[9px] text-ink-dim border-stroke-2 bg-transparent pointer-events-none";

pub const DEFAULT_VARIANT: &'static str =
    "text-ink bg-cyan/5 border-stroke hover:text-void hover:bg-cyan hover:shadow-[0_0_28px_rgba(91,233,255,0.45)]";

pub const PRIMARY_VARIANT: &'static str =
    "text-cyan border-cyan/50 bg-[linear-gradient(180deg,rgba(91,233,255,0.18),rgba(91,233,255,0.04))] hover:text-void hover:bg-cyan";

pub const DESTRUCTIVE_VARIANT: &'static str =
    "text-coral border-coral/50 bg-[linear-gradient(180deg,rgba(255,110,110,0.18),rgba(255,110,110,0.04))] hover:text-void hover:bg-coral hover:shadow-[0_0_28px_rgba(255,110,110,0.45)]";

/// The classes of a variant.
pub open spec fn classes_of(variant: ButtonVariant) -> Seq<char> {
    match variant {
        ButtonVariant::Default => DEFAULT_VARIANT@,
        ButtonVariant::Primary => PRIMARY_VARIANT@,
        ButtonVariant::Destructive => DESTRUCTIVE_VARIANT@,
    }
}

/// The classes of a variant.
pub fn variant_classes(variant: ButtonVariant) -> (classes: &'static str)
    ensures
        classes@ == classes_of(variant),
{
    match variant {
        ButtonVariant::Default => DEFAULT_VARIANT,
        ButtonVariant::Primary => PRIMARY_VARIANT,
        ButtonVariant::Destructive => DESTRUCTIVE_VARIANT,
    }
}

/// A button as it is shown.
#[derive(Clone, Debug, Eq, PartialEq)]
pub struct ButtonView {
    pub class: String,
    /// The button reacts when it is pressed.
    pub pressable: bool,
    /// The button says that its mutation is under way.
    pub pending: bool,
    /// The title and the detail of the error that stands beside the button.
    pub error: Option<(String, String)>,
}

/// The button as it is shown. A mutation that is under way cannot be started
/// again; a disabled button can only be pressed where it shows an error.
pub open spec fn is_button_view(
    view: ButtonView,
    render: ButtonRenderState,
    variant: ButtonVariant,
    disabled: bool,
) -> bool {
    match render {
        ButtonRenderState::Pending => {
            &&& view.class@ == PENDING_BTN@
            &&& !view.pressable
            &&& view.pending
            &&& view.error is None
        },
        ButtonRenderState::Idle => {
            &&& view.class@ == (if disabled {
                DISABLED_BTN@
            } else {
                BASE_BTN@ + " "@ + classes_of(variant)
            })
            &&& view.pressable == !disabled
            &&& !view.pending
            &&& view.error is None
        },
        ButtonRenderState::IdleWithError { title, detail } => {
            &&& view.class@ == BASE_BTN@ + " "@ + classes_of(variant)
            &&& view.pressable
            &&& !view.pending
            &&& view.error == Some((title, detail))
        },
    }
}

/// The button as it is shown.
pub fn button_view(render: ButtonRenderState, variant: ButtonVariant, disabled: bool) -> (view:
    ButtonView)
    ensures
        is_button_view(view, render, variant, disabled),
{
    let mut class = concat(BASE_BTN, " ");
    class.append(variant_classes(variant));
    match render {
        ButtonRenderState::Pending => ButtonView {
            class: PENDING_BTN.to_owned(),
            pressable: false,
            pending: true,
            error: None,
        },
        ButtonRenderState::Idle => {
            if disabled {
                ButtonView {
                    class: DISABLED_BTN.to_owned(),
                    pressable: false,
                    pending: false,
                    error: None,
                }
            } else {
                ButtonView { class, pressable: true, pending: false, error: None }
            }
        },
        ButtonRenderState::IdleWithError { title, detail } => ButtonView {
            class,
            pressable: true,
            pending: false,
            error: Some((title, detail)),
        },
    }
}

/// The button of a mutation that is under way cannot be pressed, however it looks
/// otherwise.
pub proof fn law_pending_button_is_locked(
    view: ButtonView,
    state: Option<MutationState>,
    variant: ButtonVariant,
    disabled: bool,
)
    requires
        is_button_view(view, render_state(state), variant, disabled),
        state matches Some(MutationState::Pending),
    ensures
        !view.pressable,
        view.pending,
{
}

// --- The others ---

/// The accent of an empty state.
#[derive(Clone, Copy, Debug, Eq, PartialEq, Structural)]
pub enum EmptyStateAccent {
    Cyan,
    Magenta,
}

impl EmptyStateAccent {
    /// The class of the accent's glyph.
    pub fn glyph_class(self) -> (class: &'static str)
        ensures
            class@ == (match self {
                EmptyStateAccent::Cyan =>
                    "border-cyan shadow-[0_0_24px_rgba(91,233,255,0.35),inset_0_0_16px_rgba(91,233,255,0.18)]"@,
                EmptyStateAccent::Magenta =>
                    "border-magenta shadow-[0_0_24px_rgba(199,146,255,0.35),inset_0_0_16px_rgba(199,146,255,0.18)]"@,
            }),
    {
        match self {
            EmptyStateAccent::Cyan => {
                "border-cyan shadow-[0_0_24px_rgba(91,233,255,0.35),inset_0_0_16px_rgba(91,233,255,0.18)]"
            },
            EmptyStateAccent::Magenta => {
                "border-magenta shadow-[0_0_24px_rgba(199,146,255,0.35),inset_0_0_16px_rgba(199,146,255,0.18)]"
            },
        }
    }
}

/// The class of a toast's colour, and the name of its kind.
pub fn toast_marks(kind: ToastKind) -> (marks: (&'static str, &'static str))
    ensures
        marks.0@ == (match kind {
            ToastKind::Success => "text-mint"@,
            ToastKind::Error => "text-coral"@,
        }),
        marks.1@ == (match kind {
            ToastKind::Success => "success"@,
            ToastKind::Error => "error"@,
        }),
{
    match kind {
        ToastKind::Success => ("text-mint", "success"),
        ToastKind::Error => ("text-coral", "error"),
    }
}

/// The class of a value in a list of labels and values.
pub fn value_class(mono: bool) -> (class: &'static str)
    ensures
        class@ == (if mono {
            "min-w-0 break-words font-mono text-[13px] text-ink"@
        } else {
            "min-w-0 break-words font-body text-[13px] text-ink"@
        }),
{
    if mono {
        "min-w-0 break-words font-mono text-[13px] text-ink"
    } else {
        "min-w-0 break-words font-body text-[13px] text-ink"
    }
}

/// The style of a line that stands for one that is still loaded.
pub fn skeleton_style(width_percent: u16) -> (style: String)
    ensures
        style@ == "width: "@ + decimal(width_percent as nat) + "%;"@,
{
    let mut style = concat("width: ", decimal_u64(width_percent as u64).as_str());
    style.append("%;");
    style
}

} // verus!
