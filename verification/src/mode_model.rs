//! The kinds of modes by which a source value becomes a target value, and
//! what each kind supports.

use vstd::prelude::*;

verus! {

/// Type of a mode
#[derive(Copy, Clone, Debug, PartialEq, Eq, Structural)]
pub enum ModeType {
    Absolute,
    Relative,
    Toggle,
}

impl ModeType {
    pub fn supports_reverse(self) -> (r: bool)
        ensures
            r == (self == ModeType::Absolute || self == ModeType::Relative),
    {
        match self {
            ModeType::Absolute | ModeType::Relative => true,
            ModeType::Toggle => false,
        }
    }

    pub fn supports_ignore_out_of_range_source_values(self) -> (r: bool)
        ensures
            r == (self == ModeType::Absolute),
    {
        self.is_absolute()
    }

    pub fn supports_jump(self) -> (r: bool)
        ensures
            r == (self == ModeType::Absolute),
    {
        self.is_absolute()
    }

    pub fn supports_eel_control_transformation(self) -> (r: bool)
        ensures
            r == (self == ModeType::Absolute),
    {
        self.is_absolute()
    }

    pub fn supports_eel_feedback_transformation(self) -> (r: bool)
        ensures
            r == (self == ModeType::Absolute),
    {
        self.is_absolute()
    }

    pub fn supports_round_target_value(self) -> (r: bool)
        ensures
            r == (self == ModeType::Absolute),
    {
        self.is_absolute()
    }

    pub fn supports_approach_target_value(self) -> (r: bool)
        ensures
            r == (self == ModeType::Absolute),
    {
        self.is_absolute()
    }

    pub fn supports_step_size(self) -> (r: bool)
        ensures
            r == (self == ModeType::Relative),
    {
        self.is_relative()
    }

    pub fn supports_rotate_is_enabled(self) -> (r: bool)
        ensures
            r == (self == ModeType::Relative),
    {
        self.is_relative()
    }

    fn is_absolute(self) -> (r: bool)
        ensures
            r == (self == ModeType::Absolute),
    {
        match self {
            ModeType::Absolute => true,
            _ => false,
        }
    }

    fn is_relative(self) -> (r: bool)
        ensures
            r == (self == ModeType::Relative),
    {
        match self {
            ModeType::Relative => true,
            _ => false,
        }
    }
}

} // verus!
