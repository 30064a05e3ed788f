use vstd::prelude::*;
use vstd::std_specs::cmp::PartialEqSpec;
use crate::attributes::NumberAttributes;

verus! {

/// Which drag speed the rendering layer gives a numeric widget.
#[derive(Clone, Copy, Debug, PartialEq, Eq, Structural)]
pub enum SpeedChoice {
    /// The speed the caller specified.
    Specified,
    /// One tenth of a unit per logical pixel: the fine-grained default.
    TenthPerPixel,
    /// One whole unit per logical pixel: the default when a narrow integer
    /// is edited through a wider widget.
    UnitPerPixel,
    /// The widget's own default, left untouched.
    WidgetDefault,
}

/// How a numeric type is edited.
#[derive(Clone, Copy, Debug, PartialEq, Eq, Structural)]
pub enum NumericBehavior {
    /// Fractional types are edited in place and default to a fine drag
    /// speed.
    FineGrained,
    /// Some integer types are edited in place and inherit the widget's own
    /// default speed.
    Plain,
    /// The remaining integer types are edited through a wider widget and
    /// default to one whole unit per pixel.
    Widened,
}

/// The configuration a numeric drag widget is built with.
#[derive(Clone, Debug)]
pub struct DragPlan<T> {
    /// Text shown before the value, if any was given.
    pub prefix: Option<String>,
    /// Text shown after the value, if any was given.
    pub suffix: Option<String>,
    /// The clamping range, active only when the two bounds differ.
    pub range: Option<(T, T)>,
    /// The drag speed the widget is given.
    pub speed: SpeedChoice,
}

/// An empty prefix or suffix means the widget shows none.
pub open spec fn display_choice(s: Seq<char>) -> Option<Seq<char>> {
    if s.len() == 0 {
        None
    } else {
        Some(s)
    }
}

/// The speed rule: a specified speed always wins; otherwise each behavior
/// falls back to its own default.
pub open spec fn chosen_speed(specified: bool, behavior: NumericBehavior) -> SpeedChoice {
    if specified {
        SpeedChoice::Specified
    } else {
        match behavior {
            NumericBehavior::FineGrained => SpeedChoice::TenthPerPixel,
            NumericBehavior::Plain => SpeedChoice::WidgetDefault,
            NumericBehavior::Widened => SpeedChoice::UnitPerPixel,
        }
    }
}

/// Plans a numeric drag widget from its options: prefix and suffix are shown
/// only when non-empty, the clamping range is active only when the bounds
/// differ, and the drag speed follows the behavior's rule.
pub fn drag_plan<T: Copy + PartialEq>(
    attrs: &NumberAttributes<T>,
    behavior: NumericBehavior,
) -> (r: DragPlan<T>)
    requires
        T::obeys_eq_spec(),
    ensures
        r.prefix.deep_view() == display_choice(attrs.prefix@),
        r.suffix.deep_view() == display_choice(attrs.suffix@),
        r.range == (if attrs.min.eq_spec(&attrs.max) {
            None::<(T, T)>
        } else {
            Some((attrs.min, attrs.max))
        }),
        r.speed == chosen_speed(attrs.speed_specified, behavior),
{
    let prefix = if attrs.prefix.as_str().is_empty() {
        None
    } else {
        Some(attrs.prefix.clone())
    };
    let suffix = if attrs.suffix.as_str().is_empty() {
        None
    } else {
        Some(attrs.suffix.clone())
    };
    let range = if attrs.min != attrs.max {
        Some((attrs.min, attrs.max))
    } else {
        None
    };
    let speed = if attrs.speed_specified {
        SpeedChoice::Specified
    } else {
        match behavior {
            NumericBehavior::FineGrained => SpeedChoice::TenthPerPixel,
            NumericBehavior::Plain => SpeedChoice::WidgetDefault,
            NumericBehavior::Widened => SpeedChoice::UnitPerPixel,
        }
    };
    DragPlan { prefix, suffix, range, speed }
}

} // verus!
