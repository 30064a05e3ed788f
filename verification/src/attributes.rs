use vstd::prelude::*;

verus! {

/// Display options for a numeric drag widget.
///
/// The drag speed itself is a fractional quantity owned by the rendering
/// layer, which treats a zero speed as unspecified; the planning rules here
/// depend only on whether a speed was specified at all.
#[derive(Debug, Clone)]
pub struct NumberAttributes<T> {
    pub min: T,
    pub max: T,
    /// Whether the caller specified how much the value changes when dragged
    /// one logical pixel.
    pub speed_specified: bool,
    /// Text shown before the value; empty means none.
    pub prefix: String,
    /// Text shown after the value; empty means none.
    pub suffix: String,
}

impl<T: Default> Default for NumberAttributes<T> {
    /// Both bounds take the type's default value, which leaves the clamping
    /// range inactive, and no speed, prefix or suffix is specified.
    fn default() -> (r: Self)
        ensures
            call_ensures(T::default, (), r.min),
            call_ensures(T::default, (), r.max),
            !r.speed_specified,
            r.prefix@ == Seq::<char>::empty(),
            r.suffix@ == Seq::<char>::empty(),
    {
        NumberAttributes {
            min: T::default(),
            max: T::default(),
            speed_specified: false,
            prefix: String::new(),
            suffix: String::new(),
        }
    }
}

impl<T> NumberAttributes<T> {
    /// Applies `f` to both bounds, keeping the other options as they are.
    pub fn map<U, F: Fn(&T) -> U>(&self, f: F) -> (r: NumberAttributes<U>)
        requires
            call_requires(f, (&self.min,)),
            call_requires(f, (&self.max,)),
        ensures
            call_ensures(f, (&self.min,), r.min),
            call_ensures(f, (&self.max,), r.max),
            r.speed_specified == self.speed_specified,
            r.prefix@ == self.prefix@,
            r.suffix@ == self.suffix@,
    {
        NumberAttributes {
            min: f(&self.min),
            max: f(&self.max),
            speed_specified: self.speed_specified,
            prefix: self.prefix.clone(),
            suffix: self.suffix.clone(),
        }
    }
}

/// Display options for a text editing widget.
#[derive(Clone, Debug)]
pub struct StringAttributes {
    pub multiline: bool,
}

impl Default for StringAttributes {
    /// Text is edited on a single line unless asked otherwise.
    fn default() -> (r: Self)
        ensures
            !r.multiline,
    {
        StringAttributes { multiline: false }
    }
}

/// Display options for a color editing widget.
#[derive(Debug, Clone)]
pub struct ColorAttributes {
    /// Whether the alpha channel is editable too.
    pub alpha: bool,
}

impl Default for ColorAttributes {
    /// Only the three color channels are editable unless asked otherwise.
    fn default() -> (r: Self)
        ensures
            !r.alpha,
    {
        ColorAttributes { alpha: false }
    }
}

} // verus!
