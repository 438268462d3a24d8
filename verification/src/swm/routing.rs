//! What the switch matrix routes: the functions, the effect of assigning and
//! of unassigning one, and what holds of every routing that these two
//! operations reach.

use crate::pac::swm0::{Routing, FIXED, MOVABLE, NO_PIN};
use crate::pins::PINS;
use vstd::prelude::*;

verus! {

/// Which entry of the switch matrix a function is.
#[derive(Clone, Copy, Debug, PartialEq, Eq, Structural)]
pub enum Kind {
    /// A movable function, with the number of its routing entry.
    Movable { slot: u8 },
    /// A fixed function, with its enable bit and the pin that it belongs to.
    Fixed { bit: u8, pin: u8 },
}

/// The pin that the fixed function with the given enable bit belongs to.
pub open spec fn fixed_pin(bit: int) -> Option<u8> {
    if bit == 5 {
        Some(3u8)
    } else if bit == 6 {
        Some(2u8)
    } else if bit == 9 {
        Some(5u8)
    } else if bit == 14 {
        Some(7u8)
    } else {
        None
    }
}

/// The pin that the fixed function with the given enable bit belongs to.
pub fn wired_pin(bit: usize) -> (pin: Option<u8>)
    ensures
        pin == fixed_pin(bit as int),
{
    if bit == 5 {
        Some(3)
    } else if bit == 6 {
        Some(2)
    } else if bit == 9 {
        Some(5)
    } else if bit == 14 {
        Some(7)
    } else {
        None
    }
}

impl Kind {
    /// Whether the switch matrix has this entry.
    pub open spec fn wf(self) -> bool {
        match self {
            Kind::Movable { slot } => slot < MOVABLE,
            Kind::Fixed { bit, pin } => bit < FIXED && fixed_pin(bit as int) == Some(pin),
        }
    }

    /// Whether the switch matrix has this entry.
    pub fn is_valid(&self) -> (valid: bool)
        ensures
            valid == self.wf(),
    {
        match *self {
            Kind::Movable { slot } => (slot as usize) < MOVABLE,
            Kind::Fixed { bit, pin } => {
                if (bit as usize) < FIXED {
                    match wired_pin(bit as usize) {
                        Some(own) => own == pin,
                        None => false,
                    }
                } else {
                    false
                }
            },
        }
    }
}

impl Routing {
    /// The shape that the registers of the switch matrix have.
    pub open spec fn wf(self) -> bool {
        self.movable.len() == MOVABLE && self.fixed.len() == FIXED
    }
}

/// The routing after the function `kind` is assigned to `pin`.
pub open spec fn routed(routing: Routing, kind: Kind, pin: u8) -> Routing {
    match kind {
        Kind::Movable { slot } => Routing {
            movable: routing.movable.update(slot as int, pin),
            ..routing
        },
        Kind::Fixed { bit, pin: _ } => Routing {
            fixed: routing.fixed.update(bit as int, true),
            ..routing
        },
    }
}

/// The routing after the function `kind` is unassigned.
pub open spec fn released(routing: Routing, kind: Kind) -> Routing {
    match kind {
        Kind::Movable { slot } => Routing {
            movable: routing.movable.update(slot as int, NO_PIN),
            ..routing
        },
        Kind::Fixed { bit, pin: _ } => Routing {
            fixed: routing.fixed.update(bit as int, false),
            ..routing
        },
    }
}

/// The pin that the function `kind` is routed to, if any.
pub open spec fn pin_of(routing: Routing, kind: Kind) -> Option<u8> {
    match kind {
        Kind::Movable { slot } => if routing.movable[slot as int] == NO_PIN {
            None
        } else {
            Some(routing.movable[slot as int])
        },
        Kind::Fixed { bit, pin } => if routing.fixed[bit as int] {
            Some(pin)
        } else {
            None
        },
    }
}

/// Whether no function is routed to `pin`.
pub open spec fn free_pin(routing: Routing, pin: u8) -> bool {
    &&& forall|slot: int| 0 <= slot < MOVABLE ==> routing.movable[slot] != pin
    &&& forall|bit: int| 0 <= bit < FIXED && routing.fixed[bit] ==> fixed_pin(bit) != Some(pin)
}

/// Whether no pin has two functions routed to it.
pub open spec fn exclusive(routing: Routing) -> bool {
    forall|first: Kind, second: Kind|
        first.wf() && second.wf() && pin_of(routing, first) is Some && pin_of(routing, first)
            == pin_of(routing, second) ==> first == second
}

/// The routing after a reset of the chip: no movable function is routed, and
/// of the fixed functions the debug port and the reset input are switched
/// on.
pub open spec fn reset_routing() -> Routing {
    Routing {
        movable: Seq::new(MOVABLE as nat, |slot: int| NO_PIN),
        fixed: Seq::new(FIXED as nat, |bit: int| bit == 5 || bit == 6 || bit == 9),
    }
}

/// After a reset no pin has two functions routed to it.
pub proof fn lemma_reset_is_exclusive()
    ensures
        reset_routing().wf(),
        exclusive(reset_routing()),
{
    let routing = reset_routing();
    assert forall|first: Kind, second: Kind|
        first.wf() && second.wf() && pin_of(routing, first) is Some && pin_of(routing, first)
            == pin_of(routing, second) implies first == second by {
        match first {
            Kind::Movable { slot } => {
                assert(routing.movable[slot as int] == NO_PIN);
            },
            Kind::Fixed { bit, pin } => {
                match second {
                    Kind::Movable { slot } => {
                        assert(routing.movable[slot as int] == NO_PIN);
                    },
                    Kind::Fixed { bit: other, pin: own } => {
                        assert(routing.fixed[bit as int]);
                        assert(routing.fixed[other as int]);
                    },
                }
            },
        }
    }
}

/// After an assignment the function and the pin are linked: the routing
/// names the pin as the function's, and the pin is no longer free.
pub proof fn lemma_assign_links(routing: Routing, kind: Kind, pin: u8)
    requires
        routing.wf(),
        kind.wf(),
        pin < PINS,
        kind matches Kind::Fixed { bit, pin: own } ==> own == pin,
    ensures
        pin_of(routed(routing, kind, pin), kind) == Some(pin),
        !free_pin(routed(routing, kind, pin), pin),
{
    let after = routed(routing, kind, pin);
    match kind {
        Kind::Movable { slot } => {
            assert(after.movable[slot as int] == pin);
        },
        Kind::Fixed { bit, pin: own } => {
            assert(after.fixed[bit as int]);
            assert(fixed_pin(bit as int) == Some(pin));
        },
    }
}

/// After an unassignment the function is routed to no pin.
pub proof fn lemma_unassign_releases(routing: Routing, kind: Kind)
    requires
        routing.wf(),
        kind.wf(),
    ensures
        pin_of(released(routing, kind), kind) is None,
{
}

/// Assigning, unassigning and assigning again gives the routing that the
/// first assignment gave; unassigning, assigning and unassigning again gives
/// the routing that the first unassignment gave.
pub proof fn lemma_round_trip(routing: Routing, kind: Kind, pin: u8)
    requires
        routing.wf(),
        kind.wf(),
    ensures
        routed(released(routed(routing, kind, pin), kind), kind, pin) == routed(
            routing,
            kind,
            pin,
        ),
        released(routed(released(routing, kind), kind, pin), kind) == released(routing, kind),
{
    assert(routed(released(routed(routing, kind, pin), kind), kind, pin) =~= routed(
        routing,
        kind,
        pin,
    ));
    assert(released(routed(released(routing, kind), kind, pin), kind) =~= released(
        routing,
        kind,
    ));
}

/// A pin is free exactly if no function of the switch matrix is routed to
/// it.
pub proof fn lemma_free_pin_has_no_function(routing: Routing, pin: u8)
    requires
        routing.wf(),
        pin != NO_PIN,
    ensures
        free_pin(routing, pin) <==> forall|kind: Kind|
            kind.wf() ==> pin_of(routing, kind) != Some(pin),
{
    if free_pin(routing, pin) {
        assert forall|kind: Kind| kind.wf() implies pin_of(routing, kind) != Some(pin) by {
            match kind {
                Kind::Movable { slot } => {
                    assert(routing.movable[slot as int] != pin);
                },
                Kind::Fixed { bit, pin: own } => {
                    if routing.fixed[bit as int] {
                        assert(fixed_pin(bit as int) != Some(pin));
                    }
                },
            }
        }
    }
    if forall|kind: Kind| kind.wf() ==> pin_of(routing, kind) != Some(pin) {
        assert forall|slot: int| 0 <= slot < MOVABLE implies routing.movable[slot] != pin by {
            let kind = Kind::Movable { slot: slot as u8 };
            assert(kind.wf());
            assert(pin_of(routing, kind) != Some(pin));
        }
        assert forall|bit: int| 0 <= bit < FIXED && routing.fixed[bit] implies fixed_pin(bit)
            != Some(pin) by {
            if fixed_pin(bit) == Some(pin) {
                let kind = Kind::Fixed { bit: bit as u8, pin };
                assert(kind.wf());
                assert(pin_of(routing, kind) != Some(pin));
            }
        }
    }
}

/// Assigning a function to a free pin leaves no pin with two functions.
pub proof fn lemma_assign_keeps_exclusive(routing: Routing, kind: Kind, pin: u8)
    requires
        routing.wf(),
        kind.wf(),
        pin < PINS,
        kind matches Kind::Fixed { bit, pin: own } ==> own == pin,
        exclusive(routing),
        free_pin(routing, pin),
    ensures
        exclusive(routed(routing, kind, pin)),
{
    let after = routed(routing, kind, pin);
    lemma_free_pin_has_no_function(routing, pin);
    lemma_assign_links(routing, kind, pin);
    assert forall|first: Kind, second: Kind|
        first.wf() && second.wf() && pin_of(after, first) is Some && pin_of(after, first)
            == pin_of(after, second) implies first == second by {
        lemma_routed_elsewhere(routing, kind, pin, first);
        lemma_routed_elsewhere(routing, kind, pin, second);
        if first != kind && second != kind {
            assert(pin_of(routing, first) == pin_of(routing, second));
        } else if first == kind && second != kind {
            assert(pin_of(routing, second) != Some(pin));
        } else if first != kind && second == kind {
            assert(pin_of(routing, first) != Some(pin));
        }
    }
}

/// Unassigning a function leaves no pin with two functions, and frees the
/// pin that the function was assigned to.
pub proof fn lemma_unassign_frees(routing: Routing, kind: Kind, pin: u8)
    requires
        routing.wf(),
        kind.wf(),
        exclusive(routing),
        pin_of(routing, kind) == Some(pin),
    ensures
        exclusive(released(routing, kind)),
        free_pin(released(routing, kind), pin),
{
    let after = released(routing, kind);
    assert forall|other: Kind| other.wf() implies pin_of(after, other) != Some(pin) by {
        lemma_released_elsewhere(routing, kind, other);
        lemma_unassign_releases(routing, kind);
    }
    assert(pin != NO_PIN) by {
        match kind {
            Kind::Movable { slot } => {},
            Kind::Fixed { bit, pin: own } => {},
        }
    }
    assert(after.wf());
    lemma_free_pin_has_no_function(after, pin);
    assert forall|first: Kind, second: Kind|
        first.wf() && second.wf() && pin_of(after, first) is Some && pin_of(after, first)
            == pin_of(after, second) implies first == second by {
        lemma_released_elsewhere(routing, kind, first);
        lemma_released_elsewhere(routing, kind, second);
        lemma_unassign_releases(routing, kind);
    }
}

/// An assignment changes the pin of no other function.
pub proof fn lemma_routed_elsewhere(routing: Routing, kind: Kind, pin: u8, other: Kind)
    requires
        routing.wf(),
        kind.wf(),
        other.wf(),
    ensures
        other != kind ==> pin_of(routed(routing, kind, pin), other) == pin_of(routing, other),
{
}

/// An unassignment changes the pin of no other function.
pub proof fn lemma_released_elsewhere(routing: Routing, kind: Kind, other: Kind)
    requires
        routing.wf(),
        kind.wf(),
        other.wf(),
    ensures
        other != kind ==> pin_of(released(routing, kind), other) == pin_of(routing, other),
{
}

} // verus!
