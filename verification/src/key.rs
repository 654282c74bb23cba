//! The identity of a loadable resource.

use core::cmp::Ordering;
use vstd::prelude::*;
use vstd::std_specs::cmp::PartialEqSpec;
use crate::text::{
    lemma_text_lt_asymmetric, lemma_text_lt_irreflexive, lemma_text_lt_total,
    lemma_text_lt_transitive, text_cmp, text_eq, text_lt,
};

verus! {

/// Identifies the storage a resource was loaded from.
#[derive(Clone, Copy, Debug, PartialEq, Eq, PartialOrd, Ord, Hash, Structural)]
pub struct StoreId(pub u64);

/// What an [`AssetSpec`] denotes: the characters of its extension and name,
/// and its store.
#[verifier::ext_equal]
pub struct SpecView {
    pub ext: Seq<char>,
    pub name: Seq<char>,
    pub store: StoreId,
}

/// A specifier for an asset, uniquely identifying it by
///
/// * the extension (the format it was provided in)
/// * its name
/// * the storage it was loaded from
#[derive(Debug, Eq, Ord, Hash)]
pub struct AssetSpec {
    /// The extension of this asset.
    pub ext: &'static str,
    /// The name of this asset.
    pub name: String,
    /// The storage id, uniquely identifying the storage it's been loaded from.
    pub store: StoreId,
}

impl View for AssetSpec {
    type V = SpecView;

    open spec fn view(&self) -> SpecView {
        SpecView { ext: self.ext@, name: self.name@, store: self.store }
    }
}

impl AssetSpec {
    /// Creates a new asset specifier from the given parameters.
    pub fn new(name: String, ext: &'static str, store: StoreId) -> (spec: AssetSpec)
        ensures
            spec.ext == ext,
            spec.name == name,
            spec.store == store,
    {
        AssetSpec { ext, name, store }
    }
}

impl Clone for AssetSpec {
    /// A specifier with the same extension, name and store.
    fn clone(&self) -> (copy: AssetSpec)
        ensures
            copy == *self,
    {
        AssetSpec { ext: self.ext, name: self.name.clone(), store: self.store }
    }
}

impl PartialEq for AssetSpec {
    /// Whether the two specifiers denote the same: see `eq_spec`.
    fn eq(&self, other: &AssetSpec) -> (r: bool) {
        text_eq(self.ext, other.ext) && self.name == other.name && self.store == other.store
    }
}

impl vstd::std_specs::cmp::PartialEqSpecImpl for AssetSpec {
    open spec fn obeys_eq_spec() -> bool {
        true
    }

    open spec fn eq_spec(&self, other: &AssetSpec) -> bool {
        self@ == other@
    }
}

/// Two specifiers are equal exactly when their extensions, their names and
/// their stores are.
pub proof fn lemma_equal_by_fields(a: AssetSpec, b: AssetSpec)
    ensures
        a.eq_spec(&b) <==> (a.ext@ == b.ext@ && a.name@ == b.name@ && a.store == b.store),
{
    if a.ext@ == b.ext@ && a.name@ == b.name@ && a.store == b.store {
        assert(a@ =~= b@);
    }
}

/// Whether `a` comes before `b`: by extension first, then by name, then by
/// store.
pub open spec fn precedes(a: SpecView, b: SpecView) -> bool {
    if a.ext != b.ext {
        text_lt(a.ext, b.ext)
    } else if a.name != b.name {
        text_lt(a.name, b.name)
    } else {
        a.store.0 < b.store.0
    }
}

/// How `a` stands to `b` in the order of specifiers.
pub open spec fn ordering_of(a: SpecView, b: SpecView) -> Ordering {
    if a == b {
        Ordering::Equal
    } else if precedes(a, b) {
        Ordering::Less
    } else {
        Ordering::Greater
    }
}

impl PartialOrd for AssetSpec {
    /// How `self` stands to `other`: see `partial_cmp_spec`. The derived
    /// `Ord` compares the same fields in the same order.
    fn partial_cmp(&self, other: &AssetSpec) -> (r: Option<Ordering>) {
        proof {
            lemma_order_total(self@, other@);
        }
        match text_cmp(self.ext, other.ext) {
            Ordering::Less => Some(Ordering::Less),
            Ordering::Greater => Some(Ordering::Greater),
            Ordering::Equal => match text_cmp(self.name.as_str(), other.name.as_str()) {
                Ordering::Less => Some(Ordering::Less),
                Ordering::Greater => Some(Ordering::Greater),
                Ordering::Equal => if self.store.0 < other.store.0 {
                    Some(Ordering::Less)
                } else if self.store.0 == other.store.0 {
                    Some(Ordering::Equal)
                } else {
                    Some(Ordering::Greater)
                },
            },
        }
    }
}

impl vstd::std_specs::cmp::PartialOrdSpecImpl for AssetSpec {
    open spec fn obeys_partial_cmp_spec() -> bool {
        true
    }

    open spec fn partial_cmp_spec(&self, other: &AssetSpec) -> Option<Ordering> {
        Some(ordering_of(self@, other@))
    }
}

/// No specifier comes before itself.
pub proof fn lemma_order_irreflexive(a: SpecView)
    ensures
        !precedes(a, a),
{
}

/// Of two specifiers at most one comes before the other.
pub proof fn lemma_order_asymmetric(a: SpecView, b: SpecView)
    requires
        precedes(a, b),
    ensures
        !precedes(b, a),
{
    if a.ext != b.ext {
        lemma_text_lt_asymmetric(a.ext, b.ext);
    } else if a.name != b.name {
        lemma_text_lt_asymmetric(a.name, b.name);
    }
}

/// The order is total: of two specifiers exactly one holds, that the first
/// comes before the second, that they are equal, or that the second comes
/// before the first.
pub proof fn lemma_order_total(a: SpecView, b: SpecView)
    ensures
        precedes(a, b) || a == b || precedes(b, a),
        !(precedes(a, b) && a == b),
        !(precedes(b, a) && a == b),
        !(precedes(a, b) && precedes(b, a)),
{
    if a.ext != b.ext {
        lemma_text_lt_total(a.ext, b.ext);
    } else if a.name != b.name {
        lemma_text_lt_total(a.name, b.name);
    }
    if precedes(a, b) {
        lemma_order_asymmetric(a, b);
    }
}

/// Coming before is transitive.
pub proof fn lemma_order_transitive(a: SpecView, b: SpecView, c: SpecView)
    requires
        precedes(a, b),
        precedes(b, c),
    ensures
        precedes(a, c),
{
    if a.ext != b.ext {
        if b.ext != c.ext {
            lemma_text_lt_transitive(a.ext, b.ext, c.ext);
            lemma_text_lt_irreflexive(a.ext);
        }
    } else if b.ext == c.ext {
        if a.name != b.name {
            if b.name != c.name {
                lemma_text_lt_transitive(a.name, b.name, c.name);
                lemma_text_lt_irreflexive(a.name);
            }
        }
    }
}

} // verus!
