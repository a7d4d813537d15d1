//! Metric values that tell apart a reading, a temporarily missing reading and
//! a metric the driver does not support.
use vstd::prelude::*;
use vstd::string::to_string_from_display_ensures;

verus! {

/// A GPU metric value with three possible states.
///
/// `Default` gives `Unavailable`.
#[derive(Debug, Copy, PartialEq)]
#[non_exhaustive]
pub enum MetricValue<T> {
    /// The metric is supported and has a value.
    Available(T),
    /// The metric is supported but could not be read right now.
    Unavailable,
    /// The driver or hardware does not support the metric.
    NotSupported,
}

/// The metric value of an `Option`: `Some(v)` is `Available(v)`, `None` is
/// `Unavailable`.
pub open spec fn metric_of<T>(o: Option<T>) -> MetricValue<T> {
    match o {
        Some(v) => MetricValue::Available(v),
        None => MetricValue::Unavailable,
    }
}

/// The value of a metric as an `Option`.
pub open spec fn option_of<T>(m: MetricValue<T>) -> Option<T> {
    match m {
        MetricValue::Available(v) => Some(v),
        _ => None,
    }
}

/// Converting an `Option` into a metric value and back gives the `Option`
/// unchanged; a metric holds a value exactly when it is available.
pub proof fn lemma_option_round_trip<T>(o: Option<T>, m: MetricValue<T>)
    ensures
        option_of(metric_of(o)) == o,
        option_of(m) is Some <==> m is Available,
{
}

/// `c` is a clone of `m`: the same state, and a clone of its value when it
/// has one.
pub open spec fn metric_cloned<T: Clone>(m: MetricValue<T>, c: MetricValue<T>) -> bool {
    match m {
        MetricValue::Available(v) => c matches MetricValue::Available(u) && cloned(v, u),
        MetricValue::Unavailable => c is Unavailable,
        MetricValue::NotSupported => c is NotSupported,
    }
}

/// A clone of a metric gives, as an `Option`, a clone of what the metric
/// gives: a value exactly when the metric has one.
pub proof fn lemma_clone_keeps_option<T: Clone>(m: MetricValue<T>, c: MetricValue<T>)
    requires
        metric_cloned(m, c),
    ensures
        option_of(c) is Some <==> option_of(m) is Some,
        option_of(m) is Some ==> cloned(option_of(m)->0, option_of(c)->0),
{
}

/// Where cloning a `T` gives back an equal value, a clone of a metric is the
/// metric itself and gives, as an `Option`, exactly what the metric gives.
pub proof fn lemma_clone_round_trip<T: Clone>(m: MetricValue<T>, c: MetricValue<T>)
    requires
        metric_cloned(m, c),
        forall|a: T, b: T| #[trigger] cloned(a, b) ==> a == b,
    ensures
        c == m,
        option_of(c) == option_of(m),
{
}

/// `r` shows the metric `m` followed by `unit`: the display text of its
/// value and then `unit` when it has one, `"N/A"` when unavailable,
/// `"N/A (not supported by driver)"` when unsupported.
pub open spec fn shown_with_unit<T: std::fmt::Display>(
    m: MetricValue<T>,
    unit: Seq<char>,
    r: Seq<char>,
) -> bool {
    match m {
        MetricValue::Available(v) => exists|d: String|
            to_string_from_display_ensures::<T>(&v, d) && r == d@ + unit,
        MetricValue::Unavailable => r == unavailable_text(),
        MetricValue::NotSupported => r == not_supported_text(),
    }
}

/// The text shown for an unavailable metric.
pub open spec fn unavailable_text() -> Seq<char> {
    "N/A"@
}

/// The text shown for an unsupported metric.
pub open spec fn not_supported_text() -> Seq<char> {
    "N/A (not supported by driver)"@
}

/// Every text of `v` as displayed is the same one.
pub open spec fn displays_one_way<T: std::fmt::Display>(v: T) -> bool {
    forall|d1: String, d2: String|
        #[trigger] to_string_from_display_ensures::<T>(&v, d1) && #[trigger]
            to_string_from_display_ensures::<T>(&v, d2) ==> d1@ == d2@
}

/// A metric shown without a unit is shown as with the empty unit `""`: the
/// text `format_value` gives is the one `format_with_unit("")` gives, as
/// long as the value, if any, is displayed one way only.
pub proof fn lemma_format_value_is_empty_unit<T: std::fmt::Display>(
    m: MetricValue<T>,
    shown: Seq<char>,
    shown_empty_unit: Seq<char>,
)
    requires
        shown_with_unit(m, seq![], shown),
        shown_with_unit(m, ""@, shown_empty_unit),
        m matches MetricValue::Available(v) ==> displays_one_way(v),
    ensures
        shown == shown_empty_unit,
{
    reveal_strlit("");
    assert(""@ =~= Seq::<char>::empty());
    if m is Available {
        let v = m->Available_0;
        let d1 = choose|d: String| to_string_from_display_ensures::<T>(&v, d) && shown == d@ + seq![];
        let d2 = choose|d: String|
            to_string_from_display_ensures::<T>(&v, d) && shown_empty_unit == d@ + ""@;
        assert(d1@ == d2@);
        assert(d1@ + seq![] =~= d1@);
        assert(d2@ + ""@ =~= d2@);
    }
}

impl<T> MetricValue<T> {
    /// Whether the metric holds a value.
    pub fn is_available(&self) -> (r: bool)
        ensures
            r == (*self is Available),
    {
        match self {
            MetricValue::Available(_) => true,
            _ => false,
        }
    }

    /// Whether the metric is not supported.
    pub fn is_not_supported(&self) -> (r: bool)
        ensures
            r == (*self is NotSupported),
    {
        match self {
            MetricValue::NotSupported => true,
            _ => false,
        }
    }

    /// Whether the metric is temporarily unavailable.
    pub fn is_unavailable(&self) -> (r: bool)
        ensures
            r == (*self is Unavailable),
    {
        match self {
            MetricValue::Unavailable => true,
            _ => false,
        }
    }

    /// The value, if there is one.
    pub fn value(&self) -> (r: Option<&T>)
        ensures
            match *self {
                MetricValue::Available(v) => r == Some(&v),
                _ => r is None,
            },
    {
        match self {
            MetricValue::Available(v) => Some(v),
            _ => None,
        }
    }

    /// The value as an `Option`, forgetting why it may be missing.
    pub fn into_option(self) -> (r: Option<T>)
        ensures
            r == option_of(self),
    {
        match self {
            MetricValue::Available(v) => Some(v),
            _ => None,
        }
    }

    /// Applies `f` to the value, keeping the state otherwise.
    pub fn map<U, F: FnOnce(T) -> U>(self, f: F) -> (r: MetricValue<U>)
        requires
            self matches MetricValue::Available(v) ==> f.requires((v,)),
        ensures
            match self {
                MetricValue::Available(v) => r matches MetricValue::Available(u) && f.ensures(
                    (v,),
                    u,
                ),
                MetricValue::Unavailable => r is Unavailable,
                MetricValue::NotSupported => r is NotSupported,
            },
    {
        match self {
            MetricValue::Available(v) => MetricValue::Available(f(v)),
            MetricValue::Unavailable => MetricValue::Unavailable,
            MetricValue::NotSupported => MetricValue::NotSupported,
        }
    }
}

impl<T: std::fmt::Display> MetricValue<T> {
    /// The value's display text followed by `unit`; `"N/A"` when unavailable,
    /// `"N/A (not supported by driver)"` when unsupported.
    pub fn format_with_unit(&self, unit: &str) -> (r: String)
        ensures
            shown_with_unit(*self, unit@, r@),
    {
        match self {
            MetricValue::Available(v) => {
                let d = v.to_string();
                let ghost dv = d;
                let r = d.concat(unit);
                assert(to_string_from_display_ensures::<T>(v, dv) && r@ == dv@ + unit@);
                r
            },
            MetricValue::Unavailable => String::from_str("N/A"),
            MetricValue::NotSupported => String::from_str("N/A (not supported by driver)"),
        }
    }

    /// The value's display text; `"N/A"` when unavailable,
    /// `"N/A (not supported by driver)"` when unsupported: the same as
    /// `format_with_unit("")`.
    pub fn format_value(&self) -> (r: String)
        ensures
            shown_with_unit(*self, seq![], r@),
    {
        let r = self.format_with_unit("");
        proof {
            reveal_strlit("");
            assert(""@ =~= Seq::<char>::empty());
            if self is Available {
                let v = self->Available_0;
                let d = choose|d: String| to_string_from_display_ensures::<T>(&v, d) && r@ == d@ + ""@;
                assert(d@ + ""@ =~= d@ + Seq::<char>::empty());
            }
        }
        r
    }
}

impl<T: Clone> Clone for MetricValue<T> {
    /// The same state, with a clone of the value when there is one.
    fn clone(&self) -> (r: Self)
        ensures
            metric_cloned(*self, r),
    {
        match self {
            MetricValue::Available(v) => MetricValue::Available(v.clone()),
            MetricValue::Unavailable => MetricValue::Unavailable,
            MetricValue::NotSupported => MetricValue::NotSupported,
        }
    }
}

impl<T> Default for MetricValue<T> {
    /// `MetricValue::Unavailable`.
    fn default() -> (r: Self)
        ensures
            r is Unavailable,
    {
        MetricValue::Unavailable
    }
}

impl<T> From<Option<T>> for MetricValue<T> {
    /// `Some(v)` becomes `Available(v)`, `None` becomes `Unavailable`.
    fn from(opt: Option<T>) -> (r: Self) {
        match opt {
            Some(v) => MetricValue::Available(v),
            None => MetricValue::Unavailable,
        }
    }
}

impl<T> vstd::std_specs::convert::FromSpecImpl<Option<T>> for MetricValue<T> {
    open spec fn obeys_from_spec() -> bool {
        true
    }

    open spec fn from_spec(opt: Option<T>) -> Self {
        metric_of(opt)
    }
}

} // verus!
