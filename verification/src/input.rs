//! The description of a joint: the section, its bolts, the splice plates on
//! the flanges and on the web, and the names of the drawing's layers.
//!
//! Every length is a whole number of thousandths of the drawing unit; bolt
//! diameters are whole units, as bolts are sold.

use vstd::prelude::*;
use crate::units::{full, half, CLEARANCE, DEFAULT_G2, MAX_LENGTH, PER_UNIT};

verus! {

/// The H-section of the spliced member.
#[derive(Clone, Copy, Debug, PartialEq, Eq)]
pub struct Section {
    /// Overall depth.
    pub h: i64,
    /// Overall width.
    pub b: i64,
    /// Thickness of the web.
    pub tw: i64,
    /// Thickness of each flange.
    pub tf: i64,
}

/// The bolts of the joint.
#[derive(Clone, Copy, Debug, PartialEq, Eq)]
pub struct Bolt {
    /// Nominal diameter, in whole drawing units.
    pub diameter: u32,
}

/// The bolt pattern of a flange splice.
#[derive(Clone, Copy, Debug, PartialEq, Eq)]
pub struct FlangeBolt {
    /// Bolt columns along the member, on each side of the splice.
    pub nf: u32,
    /// Bolt rows across the flange.
    pub mf: u32,
    /// Whether successive columns are offset across the flange.
    pub is_staggered: bool,
}

/// The gauges of the flange bolts, across the flange.
#[derive(Clone, Copy, Debug, PartialEq, Eq)]
pub struct Gauge {
    /// Distance between the two rows next to the web.
    pub g1: i64,
    /// Distance from such a row to the next one outwards.
    pub g2: i64,
}

/// The splice plate on the outer face of a flange.
#[derive(Clone, Copy, Debug, PartialEq, Eq)]
pub struct OuterPlate {
    /// Thickness.
    pub t: i64,
    /// Length along the member.
    pub l: i64,
}

/// The splice plates on the inner face of a flange.
#[derive(Clone, Copy, Debug, PartialEq, Eq)]
pub struct InnerPlate {
    /// Thickness.
    pub t: i64,
    /// Width across the flange.
    pub b: i64,
}

/// The splice of one flange.
#[derive(Clone, Copy, Debug, PartialEq, Eq)]
pub struct Flange {
    pub bolt: FlangeBolt,
    pub gauge: Gauge,
    pub outer_plate: OuterPlate,
    pub inner_plate: InnerPlate,
}

/// The bolt pattern of the web splice.
#[derive(Clone, Copy, Debug, PartialEq, Eq)]
pub struct WebBolt {
    /// Bolt rows over the depth of the web.
    pub mw: u32,
    /// Bolt columns along the member, on each side of the splice.
    pub nw: u32,
    /// Distance between successive rows.
    pub pc: i64,
}

/// The splice plate on the web.
#[derive(Clone, Copy, Debug, PartialEq, Eq)]
pub struct WebPlate {
    /// Thickness.
    pub t: i64,
    /// Width over the depth of the web.
    pub b: i64,
    /// Length along the member.
    pub l: i64,
}

/// The splice of the web.
#[derive(Clone, Copy, Debug, PartialEq, Eq)]
pub struct Web {
    pub bolt: WebBolt,
    pub plate: WebPlate,
}

/// The names of the three layers of the drawing.
#[derive(Clone, Debug, PartialEq, Eq)]
pub struct LayerName {
    /// Layer of the member itself.
    pub base: String,
    /// Layer of bolt axes and cross marks.
    pub bolt: String,
    /// Layer of splice plates and bolt holes.
    pub plate: String,
}

/// A bolted splice of an H-section member.
#[derive(Clone, Debug, PartialEq, Eq)]
pub struct HJoint {
    pub section: Section,
    pub bolt: Bolt,
    pub flange: Flange,
    pub web: Web,
    pub layer_name: LayerName,
}

/// Why a joint cannot be drawn.
#[derive(Clone, Copy, Debug, PartialEq, Eq)]
pub enum GeometryError {
    /// A dimension is zero or negative.
    NonPositive,
    /// A dimension is larger than `MAX_LENGTH`.
    TooLarge,
    /// The depth of the section does not exceed twice the flange thickness.
    ShallowSection,
}

/// The name of the member's layer where none is given.
pub open spec fn default_base_name() -> Seq<char> {
    "S母材"@
}

/// The name of the bolts' layer where none is given.
pub open spec fn default_bolt_name() -> Seq<char> {
    "Sボルト"@
}

/// The name of the plates' layer where none is given.
pub open spec fn default_plate_name() -> Seq<char> {
    "Sプレート"@
}

/// The given name where there is one, `fallback` where there is none.
pub open spec fn name_or(given: Option<String>, fallback: Seq<char>) -> Seq<char> {
    match given {
        Some(name) => name@,
        None => fallback,
    }
}

/// The given gauge where there is one, `DEFAULT_G2` where there is none.
pub open spec fn g2_or_default(given: Option<i64>) -> int {
    match given {
        Some(g2) => g2 as int,
        None => DEFAULT_G2 as int,
    }
}

impl Section {
    /// Every dimension is greater than zero.
    pub open spec fn positive(&self) -> bool {
        self.h > 0 && self.b > 0 && self.tw > 0 && self.tf > 0
    }

    /// No dimension exceeds `MAX_LENGTH`.
    pub open spec fn bounded(&self) -> bool {
        self.h <= MAX_LENGTH && self.b <= MAX_LENGTH && self.tw <= MAX_LENGTH && self.tf
            <= MAX_LENGTH
    }

    /// The flanges leave a web between them.
    pub open spec fn deep(&self) -> bool {
        self.h > 2 * self.tf
    }

    pub fn is_positive(&self) -> (r: bool)
        ensures
            r == self.positive(),
    {
        self.h > 0 && self.b > 0 && self.tw > 0 && self.tf > 0
    }

    pub fn is_bounded(&self) -> (r: bool)
        ensures
            r == self.bounded(),
    {
        self.h <= MAX_LENGTH && self.b <= MAX_LENGTH && self.tw <= MAX_LENGTH && self.tf
            <= MAX_LENGTH
    }

    pub fn is_deep(&self) -> (r: bool)
        ensures
            r == self.deep(),
    {
        (self.h as i128) > 2 * (self.tf as i128)
    }
}

impl Bolt {
    /// The diameter as a length.
    pub open spec fn diameter_len(&self) -> int {
        self.diameter * PER_UNIT
    }

    pub open spec fn positive(&self) -> bool {
        self.diameter > 0
    }

    pub open spec fn bounded(&self) -> bool {
        self.diameter_len() <= MAX_LENGTH
    }

    /// The radius of the hole drawn for a bolt, as a coordinate distance:
    /// half the diameter and the clearance.
    pub open spec fn hole_radius(&self) -> int {
        half(self.diameter_len()) + full(CLEARANCE as int)
    }

    pub fn is_positive(&self) -> (r: bool)
        ensures
            r == self.positive(),
    {
        self.diameter > 0
    }

    pub fn is_bounded(&self) -> (r: bool)
        ensures
            r == self.bounded(),
    {
        self.diameter <= 100_000
    }

    /// The radius of the hole drawn for a bolt.
    pub fn hole_radius_of(&self) -> (r: i64)
        ensures
            r == self.hole_radius(),
    {
        (self.diameter as i64) * PER_UNIT + 2 * CLEARANCE
    }
}

impl Gauge {
    /// The gauges as given, with `DEFAULT_G2` for a secondary gauge that is
    /// not given.
    pub fn new(g1: i64, g2: Option<i64>) -> (gauge: Gauge)
        ensures
            gauge.g1 == g1,
            gauge.g2 == g2_or_default(g2),
    {
        match g2 {
            Some(g2) => Gauge { g1, g2 },
            None => Gauge { g1, g2: DEFAULT_G2 },
        }
    }
}

impl Flange {
    pub open spec fn positive(&self) -> bool {
        &&& self.gauge.g1 > 0
        &&& self.gauge.g2 > 0
        &&& self.outer_plate.t > 0
        &&& self.outer_plate.l > 0
        &&& self.inner_plate.t > 0
        &&& self.inner_plate.b > 0
    }

    pub open spec fn bounded(&self) -> bool {
        &&& self.gauge.g1 <= MAX_LENGTH
        &&& self.gauge.g2 <= MAX_LENGTH
        &&& self.outer_plate.t <= MAX_LENGTH
        &&& self.outer_plate.l <= MAX_LENGTH
        &&& self.inner_plate.t <= MAX_LENGTH
        &&& self.inner_plate.b <= MAX_LENGTH
    }

    pub fn is_positive(&self) -> (r: bool)
        ensures
            r == self.positive(),
    {
        self.gauge.g1 > 0 && self.gauge.g2 > 0 && self.outer_plate.t > 0 && self.outer_plate.l > 0
            && self.inner_plate.t > 0 && self.inner_plate.b > 0
    }

    pub fn is_bounded(&self) -> (r: bool)
        ensures
            r == self.bounded(),
    {
        self.gauge.g1 <= MAX_LENGTH && self.gauge.g2 <= MAX_LENGTH && self.outer_plate.t
            <= MAX_LENGTH && self.outer_plate.l <= MAX_LENGTH && self.inner_plate.t <= MAX_LENGTH
            && self.inner_plate.b <= MAX_LENGTH
    }
}

impl Web {
    pub open spec fn positive(&self) -> bool {
        self.bolt.pc > 0 && self.plate.t > 0 && self.plate.b > 0 && self.plate.l > 0
    }

    pub open spec fn bounded(&self) -> bool {
        self.bolt.pc <= MAX_LENGTH && self.plate.t <= MAX_LENGTH && self.plate.b <= MAX_LENGTH
            && self.plate.l <= MAX_LENGTH
    }

    pub fn is_positive(&self) -> (r: bool)
        ensures
            r == self.positive(),
    {
        self.bolt.pc > 0 && self.plate.t > 0 && self.plate.b > 0 && self.plate.l > 0
    }

    pub fn is_bounded(&self) -> (r: bool)
        ensures
            r == self.bounded(),
    {
        self.bolt.pc <= MAX_LENGTH && self.plate.t <= MAX_LENGTH && self.plate.b <= MAX_LENGTH
            && self.plate.l <= MAX_LENGTH
    }
}

impl LayerName {
    /// The three names as given, each replaced by its default where it is
    /// not given.
    pub fn resolve(base: Option<String>, bolt: Option<String>, plate: Option<String>) -> (names:
        LayerName)
        ensures
            names.base@ == name_or(base, default_base_name()),
            names.bolt@ == name_or(bolt, default_bolt_name()),
            names.plate@ == name_or(plate, default_plate_name()),
    {
        let base = match base {
            Some(name) => name,
            None => "S母材".to_owned(),
        };
        let bolt = match bolt {
            Some(name) => name,
            None => "Sボルト".to_owned(),
        };
        let plate = match plate {
            Some(name) => name,
            None => "Sプレート".to_owned(),
        };
        LayerName { base, bolt, plate }
    }
}

impl Default for LayerName {
    /// The three default names.
    fn default() -> (names: LayerName)
        ensures
            names.base@ == default_base_name(),
            names.bolt@ == default_bolt_name(),
            names.plate@ == default_plate_name(),
    {
        LayerName::resolve(None, None, None)
    }
}

impl HJoint {
    /// Every dimension of the joint is greater than zero.
    pub open spec fn positive(&self) -> bool {
        &&& self.section.positive()
        &&& self.bolt.positive()
        &&& self.flange.positive()
        &&& self.web.positive()
    }

    /// No dimension of the joint exceeds `MAX_LENGTH`.
    pub open spec fn bounded(&self) -> bool {
        &&& self.section.bounded()
        &&& self.bolt.bounded()
        &&& self.flange.bounded()
        &&& self.web.bounded()
    }

    /// What keeps the joint from being drawn, if anything does. A dimension
    /// that is not positive is reported before one that is too large, and
    /// either before a section that is too shallow.
    pub open spec fn violation(&self) -> Option<GeometryError> {
        if !self.positive() {
            Some(GeometryError::NonPositive)
        } else if !self.bounded() {
            Some(GeometryError::TooLarge)
        } else if !self.section.deep() {
            Some(GeometryError::ShallowSection)
        } else {
            None
        }
    }

    /// The joint can be drawn: its dimensions are positive and in range,
    /// and the section is deeper than its two flanges together.
    pub open spec fn valid(&self) -> bool {
        self.violation() is None
    }

    /// Checks that the joint can be drawn, and says why where it cannot.
    pub fn validate(&self) -> (r: Result<(), GeometryError>)
        ensures
            r is Ok <==> self.valid(),
            r matches Err(e) ==> self.violation() == Some(e),
    {
        if !(self.section.is_positive() && self.bolt.is_positive() && self.flange.is_positive()
            && self.web.is_positive()) {
            Err(GeometryError::NonPositive)
        } else if !(self.section.is_bounded() && self.bolt.is_bounded()
            && self.flange.is_bounded() && self.web.is_bounded()) {
            Err(GeometryError::TooLarge)
        } else if !self.section.is_deep() {
            Err(GeometryError::ShallowSection)
        } else {
            Ok(())
        }
    }
}

} // verus!
