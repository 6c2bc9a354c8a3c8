//! The tunable coefficients of the force model and the simulation area.

use vstd::prelude::*;
use crate::fixed::{COORD_MAX, FACTOR_MAX, RANGE_MAX, SPEED_MAX};

verus! {

/// Why a set of coefficients or an area was refused.
#[derive(Clone, Copy, Debug, PartialEq, Eq, Structural)]
pub enum ConfigError {
    /// A value is negative.
    Negative,
    /// A value is above the limit for its kind.
    TooLarge,
    /// The minimum speed is above the maximum speed.
    SpeedOrder,
    /// The protected range is above the visual range.
    RangeOrder,
}

/// The coefficients as mathematical integers.
pub struct ParametersView {
    pub turn_factor: int,
    pub visual_range: int,
    pub protected_range: int,
    pub centering_factor: int,
    pub avoid_factor: int,
    pub matching_factor: int,
    pub max_speed: int,
    pub min_speed: int,
    pub bias: int,
}

impl ParametersView {
    /// Some coefficient is negative.
    pub open spec fn has_negative(self) -> bool {
        ||| self.turn_factor < 0
        ||| self.visual_range < 0
        ||| self.protected_range < 0
        ||| self.centering_factor < 0
        ||| self.avoid_factor < 0
        ||| self.matching_factor < 0
        ||| self.max_speed < 0
        ||| self.min_speed < 0
        ||| self.bias < 0
    }

    /// Some coefficient is above the limit for its kind.
    pub open spec fn has_too_large(self) -> bool {
        ||| self.turn_factor > FACTOR_MAX
        ||| self.visual_range > RANGE_MAX
        ||| self.protected_range > RANGE_MAX
        ||| self.centering_factor > FACTOR_MAX
        ||| self.avoid_factor > FACTOR_MAX
        ||| self.matching_factor > FACTOR_MAX
        ||| self.max_speed > SPEED_MAX
        ||| self.min_speed > SPEED_MAX
        ||| self.bias > FACTOR_MAX
    }

    /// The coefficients are acceptable: none negative, none above its limit,
    /// the speeds in order and the ranges in order.
    pub open spec fn valid(self) -> bool {
        &&& !self.has_negative()
        &&& !self.has_too_large()
        &&& self.min_speed <= self.max_speed
        &&& self.protected_range <= self.visual_range
    }

    /// The error that refuses these coefficients, if any does.
    pub open spec fn fault(self) -> Option<ConfigError> {
        if self.has_negative() {
            Some(ConfigError::Negative)
        } else if self.has_too_large() {
            Some(ConfigError::TooLarge)
        } else if self.min_speed > self.max_speed {
            Some(ConfigError::SpeedOrder)
        } else if self.protected_range > self.visual_range {
            Some(ConfigError::RangeOrder)
        } else {
            None
        }
    }
}

/// The coefficients of the force model.  A value of this type is always valid.
#[derive(Clone, Copy, Debug)]
pub struct Parameters {
    turn_factor: i64,
    visual_range: i64,
    protected_range: i64,
    centering_factor: i64,
    avoid_factor: i64,
    matching_factor: i64,
    max_speed: i64,
    min_speed: i64,
    bias: i64,
}

impl View for Parameters {
    type V = ParametersView;

    closed spec fn view(&self) -> ParametersView {
        ParametersView {
            turn_factor: self.turn_factor as int,
            visual_range: self.visual_range as int,
            protected_range: self.protected_range as int,
            centering_factor: self.centering_factor as int,
            avoid_factor: self.avoid_factor as int,
            matching_factor: self.matching_factor as int,
            max_speed: self.max_speed as int,
            min_speed: self.min_speed as int,
            bias: self.bias as int,
        }
    }
}

impl Parameters {
    /// What holds of every value of this type.
    #[verifier::type_invariant]
    pub open spec fn well_formed(self) -> bool {
        self@.valid()
    }

    /// Checks the coefficients and keeps them if they are acceptable.
    pub fn new(
        turn_factor: i64,
        visual_range: i64,
        protected_range: i64,
        centering_factor: i64,
        avoid_factor: i64,
        matching_factor: i64,
        max_speed: i64,
        min_speed: i64,
        bias: i64,
    ) -> (r: Result<Parameters, ConfigError>)
        ensures
            ({
                let given = ParametersView {
                    turn_factor: turn_factor as int,
                    visual_range: visual_range as int,
                    protected_range: protected_range as int,
                    centering_factor: centering_factor as int,
                    avoid_factor: avoid_factor as int,
                    matching_factor: matching_factor as int,
                    max_speed: max_speed as int,
                    min_speed: min_speed as int,
                    bias: bias as int,
                };
                match r {
                    Ok(p) => given.fault().is_none() && given.valid() && p@ == given,
                    Err(e) => given.fault() == Some(e),
                }
            }),
    {
        if turn_factor < 0 || visual_range < 0 || protected_range < 0 || centering_factor < 0
            || avoid_factor < 0 || matching_factor < 0 || max_speed < 0 || min_speed < 0 || bias
            < 0 {
            return Err(ConfigError::Negative);
        }
        if turn_factor > FACTOR_MAX || visual_range > RANGE_MAX || protected_range > RANGE_MAX
            || centering_factor > FACTOR_MAX || avoid_factor > FACTOR_MAX || matching_factor
            > FACTOR_MAX || max_speed > SPEED_MAX || min_speed > SPEED_MAX || bias > FACTOR_MAX {
            return Err(ConfigError::TooLarge);
        }
        if min_speed > max_speed {
            return Err(ConfigError::SpeedOrder);
        }
        if protected_range > visual_range {
            return Err(ConfigError::RangeOrder);
        }
        Ok(
            Parameters {
                turn_factor,
                visual_range,
                protected_range,
                centering_factor,
                avoid_factor,
                matching_factor,
                max_speed,
                min_speed,
                bias,
            },
        )
    }

    /// The change of a velocity coordinate near an edge.
    pub fn turn_factor(&self) -> (r: i64)
        ensures
            r == self@.turn_factor,
    {
        self.turn_factor
    }

    /// How far an agent sees.
    pub fn visual_range(&self) -> (r: i64)
        ensures
            r == self@.visual_range,
    {
        self.visual_range
    }

    /// The distance under which a neighbour is too close.
    pub fn protected_range(&self) -> (r: i64)
        ensures
            r == self@.protected_range,
    {
        self.protected_range
    }

    /// The weight of the pull toward the neighbours' average position.
    pub fn centering_factor(&self) -> (r: i64)
        ensures
            r == self@.centering_factor,
    {
        self.centering_factor
    }

    /// The weight of the push away from neighbours that are too close.
    pub fn avoid_factor(&self) -> (r: i64)
        ensures
            r == self@.avoid_factor,
    {
        self.avoid_factor
    }

    /// The weight of the pull toward the neighbours' average velocity.
    pub fn matching_factor(&self) -> (r: i64)
        ensures
            r == self@.matching_factor,
    {
        self.matching_factor
    }

    /// The largest speed an agent keeps.
    pub fn max_speed(&self) -> (r: i64)
        ensures
            r == self@.max_speed,
    {
        self.max_speed
    }

    /// The smallest speed a moving agent keeps.
    pub fn min_speed(&self) -> (r: i64)
        ensures
            r == self@.min_speed,
    {
        self.min_speed
    }

    /// The weight of a scout's sideways drift.
    pub fn bias(&self) -> (r: i64)
        ensures
            r == self@.bias,
    {
        self.bias
    }
}

impl Default for Parameters {
    /// The coefficients of a calm flock.
    fn default() -> (p: Parameters)
        ensures
            p@ == (ParametersView {
                turn_factor: 200_000,
                visual_range: 40_000_000,
                protected_range: 8_000_000,
                centering_factor: 500,
                avoid_factor: 50_000,
                matching_factor: 50_000,
                max_speed: 6_000_000,
                min_speed: 3_000_000,
                bias: 1_000,
            }),
    {
        Parameters {
            turn_factor: 200_000,
            visual_range: 40_000_000,
            protected_range: 8_000_000,
            centering_factor: 500,
            avoid_factor: 50_000,
            matching_factor: 50_000,
            max_speed: 6_000_000,
            min_speed: 3_000_000,
            bias: 1_000,
        }
    }
}

/// The simulation area as mathematical integers.
pub struct BoundsView {
    pub half_width: int,
    pub half_height: int,
    pub margin: int,
}

impl BoundsView {
    /// The area is acceptable: no value negative, none above the coordinate limit.
    pub open spec fn valid(self) -> bool {
        &&& 0 <= self.half_width <= COORD_MAX
        &&& 0 <= self.half_height <= COORD_MAX
        &&& 0 <= self.margin <= COORD_MAX
    }

    /// The error that refuses this area, if any does.
    pub open spec fn fault(self) -> Option<ConfigError> {
        if self.half_width < 0 || self.half_height < 0 || self.margin < 0 {
            Some(ConfigError::Negative)
        } else if self.half_width > COORD_MAX || self.half_height > COORD_MAX || self.margin
            > COORD_MAX {
            Some(ConfigError::TooLarge)
        } else {
            None
        }
    }

    /// The point lies in the area, edges included.
    pub open spec fn contains(self, x: int, y: int) -> bool {
        &&& -self.half_width <= x <= self.half_width
        &&& -self.half_height <= y <= self.half_height
    }
}

/// The rectangle, centred on the origin, that agents stay in, and the width
/// of the strip along its edges in which they turn back.  A value of this
/// type is always valid.
#[derive(Clone, Copy, Debug)]
pub struct Bounds {
    half_width: i64,
    half_height: i64,
    margin: i64,
}

impl View for Bounds {
    type V = BoundsView;

    closed spec fn view(&self) -> BoundsView {
        BoundsView {
            half_width: self.half_width as int,
            half_height: self.half_height as int,
            margin: self.margin as int,
        }
    }
}

impl Bounds {
    /// What holds of every value of this type.
    #[verifier::type_invariant]
    pub open spec fn well_formed(self) -> bool {
        self@.valid()
    }

    /// Checks the area and keeps it if it is acceptable.
    pub fn new(half_width: i64, half_height: i64, margin: i64) -> (r: Result<Bounds, ConfigError>)
        ensures
            ({
                let given = BoundsView {
                    half_width: half_width as int,
                    half_height: half_height as int,
                    margin: margin as int,
                };
                match r {
                    Ok(b) => given.fault().is_none() && given.valid() && b@ == given,
                    Err(e) => given.fault() == Some(e),
                }
            }),
    {
        if half_width < 0 || half_height < 0 || margin < 0 {
            return Err(ConfigError::Negative);
        }
        if half_width > COORD_MAX || half_height > COORD_MAX || margin > COORD_MAX {
            return Err(ConfigError::TooLarge);
        }
        Ok(Bounds { half_width, half_height, margin })
    }

    /// Half the width of the area.
    pub fn half_width(&self) -> (r: i64)
        ensures
            r == self@.half_width,
    {
        self.half_width
    }

    /// Half the height of the area.
    pub fn half_height(&self) -> (r: i64)
        ensures
            r == self@.half_height,
    {
        self.half_height
    }

    /// The width of the strip along each edge in which agents turn back.
    pub fn margin(&self) -> (r: i64)
        ensures
            r == self@.margin,
    {
        self.margin
    }
}

} // verus!
