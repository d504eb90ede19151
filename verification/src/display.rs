//! The display.

use crate::geometry::{Bounds, Pixels, Point, Size};
use vstd::prelude::*;

verus! {

/// The number of a display.
#[derive(Clone, Copy, Debug, PartialEq, Eq, Hash, Structural)]
pub struct DisplayId(pub u32);

/// The display. There is exactly one, the main screen, and its number is 1.
#[derive(Clone, Copy, Debug, PartialEq, Eq, Structural)]
pub struct IosDisplay {
    id: DisplayId,
    uuid: u128,
}

/// The UUID of the display, once one has been made for this process. The system
/// has none that would last.
#[derive(Clone, Copy, Debug, Default, PartialEq, Eq, Structural)]
pub struct StableUuid {
    uuid: Option<u128>,
}

/// Whether a number is a random UUID: of version 4 and of the RFC 9562 variant.
pub open spec fn is_random_uuid(uuid: u128) -> bool {
    &&& (uuid / 0x1000_0000_0000_0000_0000) % 16 == 4
    &&& (uuid / 0x4000_0000_0000_0000) % 4 == 2
}

/// [`uuid::Uuid::new_v4`]: the result is a random UUID. Which one it is cannot
/// be said.
#[verifier::external_body]
fn new_uuid() -> (uuid: u128)
    ensures
        is_random_uuid(uuid),
{
    uuid::Uuid::new_v4().as_u128()
}

impl StableUuid {
    /// The UUID, if one has been made.
    pub closed spec fn value(&self) -> Option<u128> {
        self.uuid
    }

    /// Whether the UUID, if one has been made, is a random one.
    pub open spec fn wf(&self) -> bool {
        match self.value() {
            Some(uuid) => is_random_uuid(uuid),
            None => true,
        }
    }

    /// No UUID made yet.
    pub fn new() -> (stable: StableUuid)
        ensures
            stable.value() is None,
            stable.wf(),
    {
        StableUuid { uuid: None }
    }

    /// Keeps the UUID if there is one, and else `fresh`; returns what it keeps.
    pub fn get_or_init(&mut self, fresh: u128) -> (uuid: u128)
        ensures
            final(self).value() == Some(uuid),
            uuid == match old(self).value() {
                Some(known) => known,
                None => fresh,
            },
    {
        match self.uuid {
            Some(known) => known,
            None => {
                self.uuid = Some(fresh);
                fresh
            },
        }
    }

    /// The UUID of the display. It is made on the first call, and every later
    /// call returns the same one.
    pub fn stable_uuid(&mut self) -> (uuid: u128)
        requires
            old(self).wf(),
        ensures
            final(self).wf(),
            final(self).value() == Some(uuid),
            is_random_uuid(uuid),
            old(self).value() is Some ==> old(self).value() == Some(uuid),
    {
        match self.uuid {
            Some(known) => known,
            None => self.get_or_init(new_uuid()),
        }
    }
}

impl IosDisplay {
    /// The number of the display.
    pub closed spec fn id_of(&self) -> DisplayId {
        self.id
    }

    /// The UUID of the display.
    pub closed spec fn uuid_of(&self) -> u128 {
        self.uuid
    }

    /// What holds of every display: it is the one with the number 1.
    #[verifier::type_invariant]
    pub open spec fn wf(&self) -> bool {
        self.id_of() == DisplayId(1)
    }

    /// The display, which is always the same.
    pub fn primary(stable: &mut StableUuid) -> (display: IosDisplay)
        requires
            old(stable).wf(),
        ensures
            final(stable).wf(),
            display.id_of() == DisplayId(1),
            final(stable).value() == Some(display.uuid_of()),
            is_random_uuid(display.uuid_of()),
            old(stable).value() is Some ==> old(stable).value() == Some(display.uuid_of()),
    {
        IosDisplay { id: DisplayId(1), uuid: stable.stable_uuid() }
    }

    /// The number of the display.
    pub fn id(&self) -> (id: DisplayId)
        ensures
            id == self.id_of(),
            id == DisplayId(1),
    {
        proof {
            use_type_invariant(self);
        }
        self.id
    }

    /// The UUID of the display.
    pub fn uuid(&self) -> (uuid: u128)
        ensures
            uuid == self.uuid_of(),
    {
        self.uuid
    }

    /// The place of a screen of the given size: it starts at the origin.
    fn screen_bounds_points(size: Size<Pixels>) -> (bounds: Bounds<Pixels>)
        ensures
            bounds == (Bounds { origin: Point::<Pixels>::origin(), size }),
    {
        Bounds { origin: Point::<Pixels>::origin(), size }
    }

    /// The place of the display, whose screen has the given size.
    pub fn bounds(&self, screen: Size<Pixels>) -> (bounds: Bounds<Pixels>)
        ensures
            bounds == (Bounds { origin: Point::<Pixels>::origin(), size: screen }),
    {
        IosDisplay::screen_bounds_points(screen)
    }

    /// The part of the display that windows can use: all of it.
    pub fn visible_bounds(&self, screen: Size<Pixels>) -> (bounds: Bounds<Pixels>)
        ensures
            bounds == (Bounds { origin: Point::<Pixels>::origin(), size: screen }),
    {
        IosDisplay::screen_bounds_points(screen)
    }
}

/// Any two displays of a process are equal: a display that is made once a UUID is
/// known has that UUID.
pub proof fn law_there_is_one_display(
    first: IosDisplay,
    second: IosDisplay,
    between: StableUuid,
)
    requires
        first.wf(),
        second.wf(),
        between.value() == Some(first.uuid_of()),
        between.value() is Some ==> between.value() == Some(second.uuid_of()),
    ensures
        first == second,
{
}

} // verus!
