use vstd::prelude::*;

verus! {

/// An option the user can choose: a user-visible text paired with an
/// opaque value that is returned when the choice is selected.
///
/// (Since the name "Option" is taken by the well-known type representing
/// nullability, this one is called "Choice".)
pub trait Choice {
    /// The user-visible text.
    type Text;

    /// The value standing for this choice.
    type Value;

    /// The text, as contracts see it.
    spec fn text_spec(&self) -> Self::Text;

    /// The value, as contracts see it.
    spec fn value_spec(&self) -> Self::Value;

    /// Get a reference to the text.
    fn text(&self) -> (t: &Self::Text)
        ensures
            *t == self.text_spec(),
    ;

    /// Get a reference to the value of this choice.
    fn value(&self) -> (v: &Self::Value)
        ensures
            *v == self.value_spec(),
    ;
}

/// A plain string is its own text and its own value.
impl<'a> Choice for &'a str {
    type Text = &'a str;

    type Value = &'a str;

    open spec fn text_spec(&self) -> &'a str {
        *self
    }

    open spec fn value_spec(&self) -> &'a str {
        *self
    }

    fn text(&self) -> (t: &&'a str) {
        self
    }

    fn value(&self) -> (v: &&'a str) {
        self
    }
}

/// A pair shows its first component and returns its second.
impl<T, V> Choice for (T, V) {
    type Text = T;

    type Value = V;

    open spec fn text_spec(&self) -> T {
        self.0
    }

    open spec fn value_spec(&self) -> V {
        self.1
    }

    fn text(&self) -> (t: &T) {
        &self.0
    }

    fn value(&self) -> (v: &V) {
        &self.1
    }
}

} // verus!
