//! Shared counts and transports for public and hidden proof surfaces.
use vstd::prelude::*;
use crate::text::{decimal, push_decimal};

verus! {

/// Transport mechanism for hidden auxiliary material in a SHROUD proof.
#[derive(Clone, Copy, Debug, PartialEq, Eq, Structural)]
pub enum AuxiliaryTransport {
    /// Hidden material travels in-band with the primary proof object.
    InBand,
    /// Hidden material moves in a separate proof envelope or auxiliary field.
    SeparateEnvelope,
}

/// Human-readable name of a transport.
pub open spec fn transport_text(t: AuxiliaryTransport) -> Seq<char> {
    match t {
        AuxiliaryTransport::InBand => "in-band"@,
        AuxiliaryTransport::SeparateEnvelope => "separate envelope"@,
    }
}

impl AuxiliaryTransport {
    /// Human-readable name of this transport.
    pub fn label(self) -> (r: &'static str)
        ensures
            r@ == transport_text(self),
    {
        match self {
            AuxiliaryTransport::InBand => "in-band",
            AuxiliaryTransport::SeparateEnvelope => "separate envelope",
        }
    }
}

/// A non-zero count of items on the public proof surface.
#[derive(Clone, Copy, Debug, PartialEq, Eq, PartialOrd, Ord)]
pub struct PublicSurface(usize);

impl PublicSurface {
    /// The item count, as a spec value.
    pub closed spec fn value(self) -> usize {
        self.0
    }

    /// Builds a public surface count. Returns `None` if `count` is zero.
    pub fn new(count: usize) -> (r: Option<Self>)
        ensures
            r is None <==> count == 0,
            r matches Some(s) ==> s.value() == count,
    {
        if count == 0 {
            None
        } else {
            Some(PublicSurface(count))
        }
    }

    /// Returns the item count on the public surface.
    pub fn count(self) -> (r: usize)
        ensures
            r == self.value(),
    {
        self.0
    }

    /// Human-readable description, e.g. `"3 public item(s)"`.
    pub fn message(self) -> (r: String)
        ensures
            r@ == decimal(self.value() as nat) + " public item(s)"@,
    {
        let mut s = String::new();
        push_decimal(&mut s, self.0 as u64);
        s.append(" public item(s)");
        s
    }
}

/// A non-zero count of hidden items carried by the proof, with their transport mechanism.
#[derive(Clone, Copy, Debug, PartialEq, Eq, Structural)]
pub struct HiddenAuxiliarySurface {
    count: usize,
    transport: AuxiliaryTransport,
}

impl HiddenAuxiliarySurface {
    /// The hidden item count, as a spec value.
    pub closed spec fn count_view(self) -> usize {
        self.count
    }

    /// The transport, as a spec value.
    pub closed spec fn transport_view(self) -> AuxiliaryTransport {
        self.transport
    }

    /// Builds a hidden auxiliary surface. Returns `None` if `count` is zero.
    pub fn new(count: usize, transport: AuxiliaryTransport) -> (r: Option<Self>)
        ensures
            r is None <==> count == 0,
            r matches Some(s) ==> s.count_view() == count && s.transport_view() == transport,
    {
        if count == 0 {
            None
        } else {
            Some(HiddenAuxiliarySurface { count, transport })
        }
    }

    /// Returns the count of hidden items.
    pub fn count(self) -> (r: usize)
        ensures
            r == self.count_view(),
    {
        self.count
    }

    /// Returns the transport mechanism for the hidden items.
    pub fn transport(self) -> (r: AuxiliaryTransport)
        ensures
            r == self.transport_view(),
    {
        self.transport
    }

    /// Human-readable description, e.g. `"5 hidden item(s) via in-band"`.
    pub fn message(self) -> (r: String)
        ensures
            r@ == decimal(self.count_view() as nat) + " hidden item(s) via "@ + transport_text(
                self.transport_view(),
            ),
    {
        let mut s = String::new();
        push_decimal(&mut s, self.count as u64);
        s.append(" hidden item(s) via ");
        s.append(self.transport.label());
        s
    }
}

/// A non-zero query budget claimed by a SHROUD object.
///
/// The query budget is the number of verifier queries the hiding guarantee
/// must survive.
#[derive(Clone, Copy, Debug, PartialEq, Eq, PartialOrd, Ord)]
pub struct QueryBudget(usize);

impl QueryBudget {
    /// The budget, as a spec value.
    pub closed spec fn value(self) -> usize {
        self.0
    }

    /// Builds a query budget. Returns `None` if `budget` is zero.
    pub fn new(budget: usize) -> (r: Option<Self>)
        ensures
            r is None <==> budget == 0,
            r matches Some(q) ==> q.value() == budget,
    {
        if budget == 0 {
            None
        } else {
            Some(QueryBudget(budget))
        }
    }

    /// Returns the query budget value.
    pub fn get(self) -> (r: usize)
        ensures
            r == self.value(),
    {
        self.0
    }

    /// Human-readable description, e.g. `"40 queries"`.
    pub fn message(self) -> (r: String)
        ensures
            r@ == decimal(self.value() as nat) + " queries"@,
    {
        let mut s = String::new();
        push_decimal(&mut s, self.0 as u64);
        s.append(" queries");
        s
    }
}

} // verus!
