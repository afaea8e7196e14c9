//! Formatters passed as values, and functions that turn a formatter
//! into a reusable closure. One of the two closure builders names a
//! higher-ranked lifetime in its return type, so the closure it hands
//! back accepts a borrow of any lifetime; the contracts of the two are
//! the same.
use vstd::prelude::*;
use vstd::string::StringExecFns;

verus! {

/// Turns a piece of text into its rendered form.
pub trait Formatter {
    /// The rendering, for contracts.
    spec fn spec_format(&self, value: Seq<char>) -> Seq<char>;

    /// Renders `value`.
    fn format(&self, value: &str) -> (r: String)
        ensures
            r@ == self.spec_format(value@),
    ;
}

/// A formatter that renders text as itself.
pub struct SimpleFormatter;

impl Formatter for SimpleFormatter {
    closed spec fn spec_format(&self, value: Seq<char>) -> Seq<char> {
        value
    }

    fn format(&self, value: &str) -> (r: String) {
        String::from_str(value)
    }
}

/// Wraps a formatter into a closure; every call renders its argument
/// through the captured formatter.
pub fn apply_format<F: Formatter>(formatter: F) -> (f: impl Fn(&str) -> String)
    ensures
        forall|s: &str| #[trigger] call_requires(f, (s,)),
        forall|s: &str, r: String| #[trigger] call_ensures(f, (s,), r) ==> r@
            == formatter.spec_format(s@),
{
    move |s: &str| -> (r: String)
        ensures
            r@ == formatter.spec_format(s@),
        { formatter.format(s) }
}

/// The same wrapping, with the closure's argument lifetime quantified
/// in the return type: the closure accepts a borrow of any lifetime.
pub fn apply_format_hrtb<F: Formatter>(formatter: F) -> (f: impl for<'a> Fn(&'a str) -> String)
    ensures
        forall|s: &str| #[trigger] call_requires(f, (s,)),
        forall|s: &str, r: String| #[trigger] call_ensures(f, (s,), r) ==> r@
            == formatter.spec_format(s@),
{
    move |s: &str| -> (r: String)
        ensures
            r@ == formatter.spec_format(s@),
        { formatter.format(s) }
}

} // verus!
