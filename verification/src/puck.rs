//! The six-axis puck: how it is set up, and what its buttons do.
use vstd::prelude::*;

use crate::values::Scalar;

verus! {

/// Which axis of the puck drives an action, and whether it is turned round.
#[derive(Clone, Copy, Debug, PartialEq, Eq, Structural)]
pub struct AxisBinding {
    pub source: u8,
    pub invert: bool,
}

/// What a button of the puck does.
#[derive(Clone, Copy, Debug, PartialEq, Eq, Structural)]
pub enum ButtonAction {
    Idle,
    Undo,
    Redo,
    FrameModel,
    ResetView,
    ToggleSymmetry,
}

/// One change to the puck's setup.
#[derive(Clone, Copy, Debug, PartialEq, Eq, Structural)]
pub enum SpaceMouseSetting {
    Mode(u8),
    Deadzone(Scalar),
    PanSens(Scalar),
    ZoomSens(Scalar),
    OrbitSens(Scalar),
    /// Drives an action from another axis.
    Binding { action: usize, source: u8 },
    /// Turns an action's axis round, or back.
    Invert { action: usize, invert: bool },
    Button { index: usize, action: ButtonAction },
    /// Turns every axis round.
    InvertAll,
    Reset,
    /// Writes the setup out: what a slider sends when it is let go.
    Save,
}

/// How the puck is set up.
#[derive(Debug)]
pub struct PuckConfig {
    pub mode: u8,
    pub deadzone: Scalar,
    pub pan_sens: Scalar,
    pub zoom_sens: Scalar,
    pub orbit_sens: Scalar,
    pub bindings: Vec<AxisBinding>,
    pub buttons: Vec<ButtonAction>,
}

/// A setup as the contracts speak of it.
#[verifier::ext_equal]
pub struct PuckConfigV {
    pub mode: u8,
    pub deadzone: Scalar,
    pub pan_sens: Scalar,
    pub zoom_sens: Scalar,
    pub orbit_sens: Scalar,
    pub bindings: Seq<AxisBinding>,
    pub buttons: Seq<ButtonAction>,
}

impl View for PuckConfig {
    type V = PuckConfigV;

    open spec fn view(&self) -> PuckConfigV {
        PuckConfigV {
            mode: self.mode,
            deadzone: self.deadzone,
            pan_sens: self.pan_sens,
            zoom_sens: self.zoom_sens,
            orbit_sens: self.orbit_sens,
            bindings: self.bindings@,
            buttons: self.buttons@,
        }
    }
}

/// What is left to do once a setting is in.
#[derive(Clone, Copy, Debug, PartialEq, Eq, Structural)]
pub enum PuckStep {
    /// The setup is not written: a slider is still being dragged.
    Keep,
    /// The setup is to be written out.
    Persist,
    /// Every axis is to be turned round, and the setup written out.
    InvertAllAndPersist,
    /// The setup is to be replaced by the default one, and written out.
    ResetAndPersist,
}

impl SpaceMouseSetting {
    /// What is left to do once this setting is in.
    pub open spec fn step(self) -> PuckStep {
        match self {
            SpaceMouseSetting::Deadzone(_) => PuckStep::Keep,
            SpaceMouseSetting::PanSens(_) => PuckStep::Keep,
            SpaceMouseSetting::ZoomSens(_) => PuckStep::Keep,
            SpaceMouseSetting::OrbitSens(_) => PuckStep::Keep,
            SpaceMouseSetting::InvertAll => PuckStep::InvertAllAndPersist,
            SpaceMouseSetting::Reset => PuckStep::ResetAndPersist,
            _ => PuckStep::Persist,
        }
    }
}

impl PuckConfigV {
    /// The setup with a setting in. A binding keeps which way round it was, a
    /// turn keeps the axis, and a button that is not there is left alone.
    pub open spec fn configured(self, setting: SpaceMouseSetting) -> PuckConfigV {
        match setting {
            SpaceMouseSetting::Mode(mode) => PuckConfigV { mode: mode, ..self },
            SpaceMouseSetting::Deadzone(value) => PuckConfigV { deadzone: value, ..self },
            SpaceMouseSetting::PanSens(value) => PuckConfigV { pan_sens: value, ..self },
            SpaceMouseSetting::ZoomSens(value) => PuckConfigV { zoom_sens: value, ..self },
            SpaceMouseSetting::OrbitSens(value) => PuckConfigV { orbit_sens: value, ..self },
            SpaceMouseSetting::Binding { action, source } => if action < self.bindings.len() {
                PuckConfigV {
                    bindings: self.bindings.update(
                        action as int,
                        AxisBinding { source: source, ..self.bindings[action as int] },
                    ),
                    ..self
                }
            } else {
                self
            },
            SpaceMouseSetting::Invert { action, invert } => if action < self.bindings.len() {
                PuckConfigV {
                    bindings: self.bindings.update(
                        action as int,
                        AxisBinding { invert: invert, ..self.bindings[action as int] },
                    ),
                    ..self
                }
            } else {
                self
            },
            SpaceMouseSetting::Button { index, action } => if index < self.buttons.len() {
                PuckConfigV { buttons: self.buttons.update(index as int, action), ..self }
            } else {
                self
            },
            _ => self,
        }
    }
}

impl PuckConfig {
    /// Puts one setting in.
    pub fn configure(&mut self, setting: SpaceMouseSetting) -> (step: PuckStep)
        ensures
            final(self)@ == old(self)@.configured(setting),
            step == setting.step(),
    {
        match setting {
            SpaceMouseSetting::Mode(mode) => {
                self.mode = mode;
                PuckStep::Persist
            },
            SpaceMouseSetting::Deadzone(value) => {
                self.deadzone = value;
                PuckStep::Keep
            },
            SpaceMouseSetting::PanSens(value) => {
                self.pan_sens = value;
                PuckStep::Keep
            },
            SpaceMouseSetting::ZoomSens(value) => {
                self.zoom_sens = value;
                PuckStep::Keep
            },
            SpaceMouseSetting::OrbitSens(value) => {
                self.orbit_sens = value;
                PuckStep::Keep
            },
            SpaceMouseSetting::Binding { action, source } => {
                if action < self.bindings.len() {
                    let invert: bool = self.bindings[action].invert;
                    self.bindings.set(action, AxisBinding { source, invert });
                }
                PuckStep::Persist
            },
            SpaceMouseSetting::Invert { action, invert } => {
                if action < self.bindings.len() {
                    let source: u8 = self.bindings[action].source;
                    self.bindings.set(action, AxisBinding { source, invert });
                }
                PuckStep::Persist
            },
            SpaceMouseSetting::Button { index, action } => {
                if index < self.buttons.len() {
                    self.buttons.set(index, action);
                }
                PuckStep::Persist
            },
            SpaceMouseSetting::InvertAll => PuckStep::InvertAllAndPersist,
            SpaceMouseSetting::Reset => PuckStep::ResetAndPersist,
            SpaceMouseSetting::Save => PuckStep::Persist,
        }
    }
}

} // verus!
